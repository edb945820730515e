//! Endpoints exposed by the Kromer2 API. Each one is a small builder: configure it,
//! then read off the path and query that a request for it carries.
mod addresses;
mod misc;

pub use addresses::{
    get_address, list_address_transactions, list_addresses, list_richest,
    AddressTransactionsEndpoint, GetAddressEndpoint, ListAddressEndpoint, ListRichestEndpoint,
};
pub use misc::{get_motd, MotdEndpoint};
