//! Internal types used to create requests and unpack responses.
use crate::error::KromerError;
use crate::model::krist::{Address, Transaction};
use vstd::prelude::*;

verus! {

/// The decimal digit `d`, for `d < 10`.
pub open spec fn digit_char(d: nat) -> char {
    seq!['0', '1', '2', '3', '4', '5', '6', '7', '8', '9'][d as int]
}

/// The decimal notation of `n`, without sign or leading zeros.
pub open spec fn decimal_text(n: nat) -> Seq<char>
    decreases n,
{
    if n < 10 {
        seq![digit_char(n)]
    } else {
        decimal_text(n / 10).push(digit_char(n % 10))
    }
}

/// The one-character text of the digit `d`.
fn digit_str(d: u16) -> (r: &'static str)
    requires
        d < 10,
    ensures
        r@ == seq![digit_char(d as nat)],
{
    match d {
        0 => {
            proof {
                reveal_strlit("0");
            }
            "0"
        },
        1 => {
            proof {
                reveal_strlit("1");
            }
            "1"
        },
        2 => {
            proof {
                reveal_strlit("2");
            }
            "2"
        },
        3 => {
            proof {
                reveal_strlit("3");
            }
            "3"
        },
        4 => {
            proof {
                reveal_strlit("4");
            }
            "4"
        },
        5 => {
            proof {
                reveal_strlit("5");
            }
            "5"
        },
        6 => {
            proof {
                reveal_strlit("6");
            }
            "6"
        },
        7 => {
            proof {
                reveal_strlit("7");
            }
            "7"
        },
        8 => {
            proof {
                reveal_strlit("8");
            }
            "8"
        },
        _ => {
            proof {
                reveal_strlit("9");
            }
            "9"
        },
    }
}

/// `n` written in decimal.
fn decimal_string(n: u16) -> (r: String)
    ensures
        r@ == decimal_text(n as nat),
    decreases n,
{
    if n < 10 {
        let r = digit_str(n).to_owned();
        proof {
            assert(r@ =~= decimal_text(n as nat));
        }
        r
    } else {
        let mut r = decimal_string(n / 10);
        r.append(digit_str(n % 10));
        proof {
            assert(r@ =~= decimal_text(n as nat));
        }
        r
    }
}

/// Query parameters that go together into one query string: each name at most once.
#[verifier::external_body]
#[derive(Debug)]
pub struct QueryParams(hashbrown::HashMap<&'static str, String>);

/// The parameters held, by name.
pub uninterp spec fn query_entries(q: QueryParams) -> Map<Seq<char>, Seq<char>>;

impl QueryParams {
    /// Relies on `hashbrown::HashMap::with_capacity`: the new map is empty (it panics
    /// only on capacities far beyond the bound required here).
    #[verifier::external_body]
    pub(crate) fn with_capacity(capacity: usize) -> (r: QueryParams)
        requires
            capacity <= 64,
        ensures
            query_entries(r) =~= Map::empty(),
    {
        QueryParams(hashbrown::HashMap::with_capacity(capacity))
    }

    /// Relies on `hashbrown::HashMap::insert`: `key` now maps to `value`, and every
    /// other entry is kept.
    #[verifier::external_body]
    pub(crate) fn insert(&mut self, key: &'static str, value: String)
        ensures
            query_entries(*final(self)) == query_entries(*old(self)).insert(key@, value@),
    {
        self.0.insert(key, value);
    }

    /// Relies on `hashbrown::HashMap::iter`: every entry comes out exactly once, in an
    /// order that the map's hasher decides.
    #[verifier::external_body]
    pub(crate) fn pairs(&self) -> (r: Vec<(&'static str, String)>)
        ensures
            lists_entries(r@, query_entries(*self)),
    {
        self.0.iter().map(|(k, v)| (*k, v.clone())).collect()
    }
}

/// `s` lists the entries of `m`, each once, in some order.
pub open spec fn lists_entries(s: Seq<(&'static str, String)>, m: Map<Seq<char>, Seq<char>>) -> bool {
    &&& s.len() == m.dom().len()
    &&& forall|i: int| 0 <= i < s.len() ==> #[trigger] m.contains_key(s[i].0@) && m[s[i].0@] == s[i].1@
    &&& forall|i: int, j: int|
        0 <= i < j < s.len() ==> (#[trigger] s[i]).0@ != (#[trigger] s[j]).0@
}

/// Largest limit (exclusive) that a listing accepts; larger requests are ignored.
pub const LIMIT_CEILING: u16 = 1000;

/// The limit that a fresh paginator asks for.
pub const DEFAULT_LIMIT: u16 = 50;

/// Limit and offset of a paginated listing.
#[derive(Debug, Clone, Copy, PartialEq, Eq, Structural)]
pub struct Paginator {
    pub limit: u16,
    pub offset: u16,
}

/// The limit kept after asking for `requested` while `current` was set:
/// requests at or above the ceiling are ignored.
pub open spec fn next_limit(current: u16, requested: u16) -> u16 {
    if requested < LIMIT_CEILING {
        requested
    } else {
        current
    }
}

impl Default for Paginator {
    fn default() -> (r: Self)
        ensures
            r.limit == DEFAULT_LIMIT,
            r.offset == 0,
    {
        Paginator { limit: DEFAULT_LIMIT, offset: 0 }
    }
}

impl Paginator {
    /// This paginator with its limit set to `limit`, unless `limit` reaches the ceiling.
    pub fn with_limit(self, limit: u16) -> (r: Self)
        ensures
            r.limit == next_limit(self.limit, limit),
            r.offset == self.offset,
    {
        let mut r = self;
        if limit < LIMIT_CEILING {
            r.limit = limit;
        }
        r
    }

    /// The pagination parameters as an ordered list of query pairs.
    pub fn direct_query(self) -> (r: [(&'static str, u16); 2])
        ensures
            r@[0].0@ == "limit"@,
            r@[0].1 == self.limit,
            r@[1].0@ == "offset"@,
            r@[1].1 == self.offset,
    {
        proof {
            reveal_strlit("limit");
            reveal_strlit("offset");
        }
        [("limit", self.limit), ("offset", self.offset)]
    }

    /// Adds the pagination parameters, in decimal, to `map`.
    pub fn add_map(self, map: &mut QueryParams)
        ensures
            query_entries(*final(map)) == query_entries(*old(map)).insert(
                "limit"@,
                decimal_text(self.limit as nat),
            ).insert("offset"@, decimal_text(self.offset as nat)),
    {
        proof {
            reveal_strlit("limit");
            reveal_strlit("offset");
        }
        map.insert("limit", decimal_string(self.limit));
        map.insert("offset", decimal_string(self.offset));
    }
}

/// A response body that is either the expected payload or an error object of the server.
pub trait ExtractJson<T>: Sized {
    /// The payload, or the error that the server reported.
    spec fn extracted(self) -> Result<T, KromerError>;

    /// Unwraps the payload, or turns the server's error object into [`KromerError::Krist`].
    fn extract(self) -> (r: Result<T, KromerError>)
        ensures
            r == self.extracted(),
    ;
}

/// Body of an address lookup.
#[derive(Debug, Clone)]
pub enum GetAddressRes {
    Address { address: Address },
    KristError { error: String, message: String },
}

impl ExtractJson<Address> for GetAddressRes {
    open spec fn extracted(self) -> Result<Address, KromerError> {
        match self {
            GetAddressRes::Address { address } => Ok(address),
            GetAddressRes::KristError { error, message } => Err(KromerError::Krist { error, message }),
        }
    }

    fn extract(self) -> (r: Result<Address, KromerError>) {
        match self {
            GetAddressRes::Address { address } => Ok(address),
            GetAddressRes::KristError { error, message } => Err(KromerError::Krist { error, message }),
        }
    }
}

/// Body of an address listing.
#[derive(Debug, Clone)]
pub enum ListAddressesRes {
    Addresses { addresses: Vec<Address> },
    KristError { error: String, message: String },
}

impl ExtractJson<Vec<Address>> for ListAddressesRes {
    open spec fn extracted(self) -> Result<Vec<Address>, KromerError> {
        match self {
            ListAddressesRes::Addresses { addresses } => Ok(addresses),
            ListAddressesRes::KristError { error, message } => Err(
                KromerError::Krist { error, message },
            ),
        }
    }

    fn extract(self) -> (r: Result<Vec<Address>, KromerError>) {
        match self {
            ListAddressesRes::Addresses { addresses } => Ok(addresses),
            ListAddressesRes::KristError { error, message } => Err(
                KromerError::Krist { error, message },
            ),
        }
    }
}

/// Body of an address's transaction history.
#[derive(Debug, Clone)]
pub enum AddressTransactionsRes {
    Transaction { transactions: Vec<Transaction> },
    KristError { error: String, message: String },
}

impl ExtractJson<Vec<Transaction>> for AddressTransactionsRes {
    open spec fn extracted(self) -> Result<Vec<Transaction>, KromerError> {
        match self {
            AddressTransactionsRes::Transaction { transactions } => Ok(transactions),
            AddressTransactionsRes::KristError { error, message } => Err(
                KromerError::Krist { error, message },
            ),
        }
    }

    fn extract(self) -> (r: Result<Vec<Transaction>, KromerError>) {
        match self {
            AddressTransactionsRes::Transaction { transactions } => Ok(transactions),
            AddressTransactionsRes::KristError { error, message } => Err(
                KromerError::Krist { error, message },
            ),
        }
    }
}

} // verus!
