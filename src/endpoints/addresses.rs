use crate::model::internal::{
    decimal_text, lists_entries, next_limit, query_entries, Paginator, QueryParams, DEFAULT_LIMIT,
};
use vstd::prelude::*;

verus! {

/// How a flag is written in a query string.
pub open spec fn bool_text(b: bool) -> Seq<char> {
    if b {
        "true"@
    } else {
        "false"@
    }
}

fn bool_string(b: bool) -> (r: String)
    ensures
        r@ == bool_text(b),
{
    proof {
        reveal_strlit("true");
        reveal_strlit("false");
    }
    if b {
        "true".to_owned()
    } else {
        "false".to_owned()
    }
}

/// Path of the address collection, relative to the server.
pub open spec fn addresses_path() -> Seq<char> {
    "/api/krist/addresses"@
}

/// Path of the address `addr`.
pub open spec fn address_path(addr: Seq<char>) -> Seq<char> {
    addresses_path() + seq!['/'] + addr
}

fn address_path_string(addr: &str) -> (r: String)
    ensures
        r@ == address_path(addr@),
{
    proof {
        reveal_strlit("/api/krist/addresses/");
        reveal_strlit("/api/krist/addresses");
        assert("/api/krist/addresses/"@ =~= addresses_path() + seq!['/']);
    }
    let mut p = "/api/krist/addresses/".to_owned();
    p.append(addr);
    p
}

/// Create an endpoint to fetch information about an address.
pub fn get_address(addr: &str) -> (r: GetAddressEndpoint)
    ensures
        r.addr@ == addr@,
        r.names is None,
{
    GetAddressEndpoint { addr: addr.to_owned(), names: None }
}

/// Lookup of one address.
#[derive(Debug, Clone)]
pub struct GetAddressEndpoint {
    pub addr: String,
    /// The `fetchNames` query parameter, when set.
    pub names: Option<bool>,
}

impl GetAddressEndpoint {
    /// Sets the `fetchNames` query parameter.
    pub fn fetch_names(self, fetch: bool) -> (r: Self)
        ensures
            r.addr == self.addr,
            r.names == Some(fetch),
    {
        GetAddressEndpoint { addr: self.addr, names: Some(fetch) }
    }

    /// Path of the address, relative to the server.
    pub fn path(&self) -> (r: String)
        ensures
            r@ == address_path(self.addr@),
    {
        address_path_string(self.addr.as_str())
    }

    /// The query pair `fetchNames`, present when it was set.
    pub fn query(&self) -> (r: Option<[(&'static str, bool); 1]>)
        ensures
            r is Some <==> self.names is Some,
            r matches Some(q) ==> q@[0].0@ == "fetchNames"@ && q@[0].1 == self.names->0,
    {
        proof {
            reveal_strlit("fetchNames");
        }
        match self.names {
            Some(v) => Some([("fetchNames", v)]),
            None => None,
        }
    }
}

/// Create an endpoint to get a paginated list of addresses.
pub fn list_addresses() -> (r: ListAddressEndpoint)
    ensures
        r.0.limit == DEFAULT_LIMIT,
        r.0.offset == 0,
{
    ListAddressEndpoint(Paginator::default())
}

/// Paginated listing of all addresses.
#[derive(Debug, Clone, Copy)]
pub struct ListAddressEndpoint(pub Paginator);

impl Default for ListAddressEndpoint {
    fn default() -> (r: Self)
        ensures
            r.0.limit == DEFAULT_LIMIT,
            r.0.offset == 0,
    {
        ListAddressEndpoint(Paginator::default())
    }
}

impl ListAddressEndpoint {
    /// Sets the maximum number of addresses wanted; a value of 1000 or more is ignored.
    pub fn limit(self, limit: u16) -> (r: Self)
        ensures
            r.0.limit == next_limit(self.0.limit, limit),
            r.0.offset == self.0.offset,
    {
        ListAddressEndpoint(self.0.with_limit(limit))
    }

    /// Sets the number of addresses to skip.
    pub fn offset(self, offset: u16) -> (r: Self)
        ensures
            r.0.limit == self.0.limit,
            r.0.offset == offset,
    {
        ListAddressEndpoint(Paginator { limit: self.0.limit, offset })
    }

    /// Path of the listing, relative to the server.
    pub fn path(&self) -> (r: &'static str)
        ensures
            r@ == addresses_path(),
    {
        proof {
            reveal_strlit("/api/krist/addresses");
        }
        "/api/krist/addresses"
    }

    /// The query pairs: limit, then offset.
    pub fn query(&self) -> (r: [(&'static str, u16); 2])
        ensures
            r@[0].0@ == "limit"@,
            r@[0].1 == self.0.limit,
            r@[1].0@ == "offset"@,
            r@[1].1 == self.0.offset,
    {
        self.0.direct_query()
    }
}

/// Create an endpoint to get a paginated list of the richest addresses.
pub fn list_richest() -> (r: ListRichestEndpoint)
    ensures
        r.0.limit == DEFAULT_LIMIT,
        r.0.offset == 0,
{
    ListRichestEndpoint(Paginator::default())
}

/// Paginated listing of addresses, richest first.
#[derive(Debug, Clone, Copy)]
pub struct ListRichestEndpoint(pub Paginator);

impl Default for ListRichestEndpoint {
    fn default() -> (r: Self)
        ensures
            r.0.limit == DEFAULT_LIMIT,
            r.0.offset == 0,
    {
        ListRichestEndpoint(Paginator::default())
    }
}

impl ListRichestEndpoint {
    /// Sets the maximum number of addresses wanted; a value of 1000 or more is ignored.
    pub fn limit(self, limit: u16) -> (r: Self)
        ensures
            r.0.limit == next_limit(self.0.limit, limit),
            r.0.offset == self.0.offset,
    {
        ListRichestEndpoint(self.0.with_limit(limit))
    }

    /// Sets the number of addresses to skip.
    pub fn offset(self, offset: u16) -> (r: Self)
        ensures
            r.0.limit == self.0.limit,
            r.0.offset == offset,
    {
        ListRichestEndpoint(Paginator { limit: self.0.limit, offset })
    }

    /// Path of the listing, relative to the server.
    pub fn path(&self) -> (r: &'static str)
        ensures
            r@ == "/api/krist/addresses/rich"@,
    {
        proof {
            reveal_strlit("/api/krist/addresses/rich");
        }
        "/api/krist/addresses/rich"
    }

    /// The query pairs: limit, then offset.
    pub fn query(&self) -> (r: [(&'static str, u16); 2])
        ensures
            r@[0].0@ == "limit"@,
            r@[0].1 == self.0.limit,
            r@[1].0@ == "offset"@,
            r@[1].1 == self.0.offset,
    {
        self.0.direct_query()
    }
}

/// Create an endpoint to get the transaction history of an address.
pub fn list_address_transactions(addr: &str) -> (r: AddressTransactionsEndpoint)
    ensures
        r.addr@ == addr@,
        r.page.limit == DEFAULT_LIMIT,
        r.page.offset == 0,
        !r.mined,
{
    AddressTransactionsEndpoint { addr: addr.to_owned(), page: Paginator::default(), mined: false }
}

/// Paginated transaction history of one address.
#[derive(Debug, Clone)]
pub struct AddressTransactionsEndpoint {
    pub addr: String,
    pub page: Paginator,
    /// The `excludeMined` query parameter.
    pub mined: bool,
}

/// The query of a transaction history: the pagination and the `excludeMined` flag.
pub open spec fn transactions_query(page: Paginator, mined: bool) -> Map<Seq<char>, Seq<char>> {
    map![
        "limit"@ => decimal_text(page.limit as nat),
        "offset"@ => decimal_text(page.offset as nat),
        "excludeMined"@ => bool_text(mined),
    ]
}

impl AddressTransactionsEndpoint {
    /// Sets the maximum number of transactions wanted; a value of 1000 or more is ignored.
    pub fn limit(self, limit: u16) -> (r: Self)
        ensures
            r.addr == self.addr,
            r.page.limit == next_limit(self.page.limit, limit),
            r.page.offset == self.page.offset,
            r.mined == self.mined,
    {
        AddressTransactionsEndpoint { addr: self.addr, page: self.page.with_limit(limit), mined: self.mined }
    }

    /// Sets the number of transactions to skip.
    pub fn offset(self, offset: u16) -> (r: Self)
        ensures
            r.addr == self.addr,
            r.page.limit == self.page.limit,
            r.page.offset == offset,
            r.mined == self.mined,
    {
        AddressTransactionsEndpoint {
            addr: self.addr,
            page: Paginator { limit: self.page.limit, offset },
            mined: self.mined,
        }
    }

    /// Sets the `excludeMined` query parameter.
    pub fn exclude_mined(self, b: bool) -> (r: Self)
        ensures
            r.addr == self.addr,
            r.page == self.page,
            r.mined == b,
    {
        AddressTransactionsEndpoint { addr: self.addr, page: self.page, mined: b }
    }

    /// Path of the history, relative to the server.
    pub fn path(&self) -> (r: String)
        ensures
            r@ == address_path(self.addr@) + "/transactions"@,
    {
        let mut p = address_path_string(self.addr.as_str());
        p.append("/transactions");
        p
    }

    /// The query parameters: limit and offset in decimal, and `excludeMined`.
    pub fn query(&self) -> (r: QueryParams)
        ensures
            query_entries(r) == transactions_query(self.page, self.mined),
    {
        let mut params = QueryParams::with_capacity(3);
        self.page.add_map(&mut params);
        params.insert("excludeMined", bool_string(self.mined));
        proof {
            reveal_strlit("excludeMined");
            reveal_strlit("limit");
            reveal_strlit("offset");
            assert(query_entries(params) =~= transactions_query(self.page, self.mined));
        }
        params
    }

    /// The query parameters as pairs, each once, in no particular order.
    pub fn query_pairs(&self) -> (r: Vec<(&'static str, String)>)
        ensures
            lists_entries(r@, transactions_query(self.page, self.mined)),
    {
        self.query().pairs()
    }
}

} // verus!
