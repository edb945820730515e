//! Exported types modelling Kromer2's Krist API.
use rust_decimal::Decimal;
use vstd::prelude::*;

verus! {

/// A fixed-point amount of currency, carried through unchanged.
#[verifier::external_type_specification]
#[verifier::external_body]
pub struct ExDecimal(Decimal);

/// Relies on the derived `Clone` of `Decimal`, a `Copy` type: the copy equals the original.
pub assume_specification[ <Decimal as Clone>::clone ](d: &Decimal) -> (r: Decimal)
    ensures
        r == *d,
;

/// Nanoseconds in one second.
pub const NANOS_PER_SEC: u32 = 1_000_000_000;

/// A UTC instant: whole seconds since the Unix epoch and the nanoseconds past them.
/// A leap second is written with `nanos` past one second, as chrono writes it.
#[derive(Debug, Clone, Copy, PartialEq, Eq, Structural)]
pub struct Timestamp {
    pub secs: i64,
    pub nanos: u32,
}

impl Timestamp {
    /// The nanoseconds stay below two seconds.
    pub open spec fn wf(self) -> bool {
        self.nanos < 2 * NANOS_PER_SEC
    }
}

/// Information about an address fetched from the API.
#[derive(Debug, Clone)]
pub struct Address {
    pub address: String,
    pub balance: Decimal,
    pub total_in: Decimal,
    pub total_out: Decimal,
    pub first_seen: Timestamp,
    pub names: Option<u32>,
}

/// Message of the day.
#[derive(Debug, Clone)]
pub struct Motd {
    pub msg: String,
    pub public_url: String,
    pub public_ws_url: String,
    pub transactions_enabled: bool,
    pub debug_mode: bool,
    pub package: Package,
    pub currency: Currency,
    pub notice: String,
}

/// The package section of a [`Motd`].
#[derive(Debug, Clone)]
pub struct Package {
    pub name: String,
    pub version: String,
    pub author: String,
    pub license: String,
    pub repository: String,
}

/// The currency section of a [`Motd`].
#[derive(Debug, Clone)]
pub struct Currency {
    pub address_prefix: String,
    pub name_suffix: String,
    pub name: String,
    pub symbol: String,
}

/// A transfer of currency between two addresses.
#[derive(Debug, Clone)]
pub struct Transaction {
    pub id: u32,
    pub from: Option<String>,
    pub to: String,
    pub value: Decimal,
    pub time: Timestamp,
    pub name: Option<String>,
    pub metadata: Option<String>,
    pub sent_metaname: Option<String>,
    pub sent_name: Option<String>,
    pub transaction_type: TransactionType,
}

/// The kind of a [`Transaction`].
#[derive(Debug, Clone, Copy, PartialEq, Eq, Structural)]
pub enum TransactionType {
    Mined,
    Unknown,
    NamePurchase,
    NameARecord,
    NameTransfer,
    Transfer,
}

} // verus!
