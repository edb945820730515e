//! The client: a base URL and a reusable HTTP handle.
use crate::error::KromerError;
use reqwest::Url;
use url::ParseError;
use vstd::prelude::*;

verus! {

/// A parsed URL.
#[verifier::external_type_specification]
#[verifier::external_body]
pub struct ExUrl(Url);

/// The HTTP transport handle, shared by all requests of a client.
#[verifier::external_type_specification]
#[verifier::external_body]
pub struct ExHttpClient(reqwest::Client);

/// What `Url::parse` gives for the text `s`: the URL, or why it is none.
pub uninterp spec fn parse_result(s: Seq<char>) -> Result<Url, ParseError>;

/// Relies on `url::Url::parse`: the result depends on the text alone.
#[verifier::external_body]
fn parse_url(s: &str) -> (r: Result<Url, ParseError>)
    ensures
        r == parse_result(s@),
{
    Url::parse(s)
}

/// The media type that every request declares in its `Content-Type` header.
pub const JSON_CONTENT_TYPE: &'static str = "application/json";

/// Whether `v` is accepted as a header value: visible ASCII or tabs only.
pub open spec fn is_header_text(v: Seq<char>) -> bool {
    forall|i: int| 0 <= i < v.len() ==> (' ' <= #[trigger] v[i] <= '~' || v[i] == '\t')
}

/// Relies on `reqwest::ClientBuilder::build`, with `content_type` as the default
/// `Content-Type` header (`HeaderValue::from_static` panics only on text outside
/// visible ASCII and tabs); whether the build succeeds depends on the machine.
#[verifier::external_body]
fn build_http(content_type: &'static str) -> (r: Result<reqwest::Client, reqwest::Error>)
    requires
        is_header_text(content_type@),
{
    let mut headers = reqwest::header::HeaderMap::new();
    headers.insert(
        reqwest::header::CONTENT_TYPE,
        reqwest::header::HeaderValue::from_static(content_type),
    );
    reqwest::ClientBuilder::new().default_headers(headers).build()
}

/// What `Url::join` gives for `path` resolved against `base`: the URL, or why it is none.
pub uninterp spec fn join_result(base: Url, path: Seq<char>) -> Result<Url, ParseError>;

/// Relies on `url::Url::join`: the result depends on the base URL and the path alone.
#[verifier::external_body]
fn join_url(base: &Url, path: &str) -> (r: Result<Url, ParseError>)
    ensures
        r == join_result(*base, path@),
{
    base.join(path)
}

/// Client for the Kromer2 API. It reuses connections between requests.
pub struct KromerClient {
    url: Url,
    http: reqwest::Client,
}

impl KromerClient {
    /// The base URL that paths are joined onto.
    pub closed spec fn base_url(&self) -> Url {
        self.url
    }

    /// The transport handle.
    pub closed spec fn transport(&self) -> reqwest::Client {
        self.http
    }

    /// Builds a client from a parsed base URL and a built transport; a failure of
    /// the URL is reported before one of the transport.
    pub fn from_parts(
        url: Result<Url, ParseError>,
        http: Result<reqwest::Client, reqwest::Error>,
    ) -> (r: Result<Self, KromerError>)
        ensures
            url matches Err(e) ==> r matches Err(KromerError::Url(e2)) && e2 == e,
            url matches Ok(u) ==> (http matches Err(e) ==> r matches Err(KromerError::Http(e2))
                && e2 == e),
            url matches Ok(u) ==> (http matches Ok(h) ==> r matches Ok(c) && c.base_url() == u
                && c.transport() == h),
    {
        match url {
            Err(e) => Err(KromerError::Url(e)),
            Ok(u) => match http {
                Err(e) => Err(KromerError::Http(e)),
                Ok(h) => Ok(KromerClient { url: u, http: h }),
            },
        }
    }

    /// Creates a client for the API at `url`, whose requests declare
    /// [`JSON_CONTENT_TYPE`] as their content type. Nothing is sent over the network.
    ///
    /// Fails with [`KromerError::Url`], before any transport is built, exactly when
    /// `url` is not a valid URL, and otherwise with [`KromerError::Http`] only if the
    /// transport cannot be built.
    pub fn new(url: &str) -> (r: Result<Self, KromerError>)
        ensures
            parse_result(url@) matches Err(e) ==> r matches Err(KromerError::Url(e2)) && e2 == e,
            parse_result(url@) matches Ok(u) ==> (r matches Ok(c) ==> c.base_url() == u),
            parse_result(url@) is Ok ==> !(r matches Err(KromerError::Url(_))),
            !(r matches Err(KromerError::Krist { .. })),
    {
        match parse_url(url) {
            Err(e) => Err(KromerError::Url(e)),
            Ok(u) => {
                proof {
                    reveal_strlit("application/json");
                }
                let http = build_http(JSON_CONTENT_TYPE);
                Self::from_parts(Ok(u), http)
            },
        }
    }

    /// The transport handle that requests are sent with.
    pub fn http(&self) -> (r: &reqwest::Client)
        ensures
            *r == self.transport(),
    {
        &self.http
    }

    /// The absolute URL of `path` on this client's server; a path that does not
    /// join into a URL is a [`KromerError::Url`] carrying the reason.
    pub fn endpoint_url(&self, path: &str) -> (r: Result<Url, KromerError>)
        ensures
            join_result(self.base_url(), path@) matches Ok(u) ==> r matches Ok(u2) && u2 == u,
            join_result(self.base_url(), path@) matches Err(e) ==> r matches Err(
                KromerError::Url(e2),
            ) && e2 == e,
    {
        match join_url(&self.url, path) {
            Ok(u) => Ok(u),
            Err(e) => Err(KromerError::Url(e)),
        }
    }
}

} // verus!
