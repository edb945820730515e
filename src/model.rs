//! Records of the Krist API and the internal shapes used to talk to it.
pub mod internal;
pub mod krist;
