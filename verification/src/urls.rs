//! URLs, query strings and IP literals as the plain values the auth flow reads.
//!
//! Parsing is done by the `url` crate and by the standard library; what they
//! return is named here and held in [`UrlParts`] and [`IpLiteral`].

use vstd::prelude::*;

verus! {

/// A parsed URL, as the parts the redirect and callback checks read.
#[derive(Debug, Clone, PartialEq, Eq)]
pub struct UrlParts {
    /// The scheme, lowercased by the parser.
    pub scheme: String,
    /// The host as serialized (IPv6 hosts keep their brackets), if any.
    pub host: Option<String>,
    /// The explicit port, when it is not the scheme's default.
    pub port: Option<u16>,
    /// The port, or the scheme's known default port.
    pub known_port: Option<u16>,
    /// The path.
    pub path: String,
    /// The query string without its leading `?`, if any.
    pub query: Option<String>,
    /// The whole URL as serialized.
    pub serialized: String,
}

/// The view of a parsed URL: its parts as character sequences.
pub struct UrlView {
    pub scheme: Seq<char>,
    pub host: Option<Seq<char>>,
    pub port: Option<u16>,
    pub known_port: Option<u16>,
    pub path: Seq<char>,
    pub query: Option<Seq<char>>,
    pub serialized: Seq<char>,
}

impl View for UrlParts {
    type V = UrlView;

    open spec fn view(&self) -> UrlView {
        UrlView {
            scheme: self.scheme@,
            host: match self.host {
                Some(h) => Some(h@),
                None => None,
            },
            port: self.port,
            known_port: self.known_port,
            path: self.path@,
            query: match self.query {
                Some(q) => Some(q@),
                None => None,
            },
            serialized: self.serialized@,
        }
    }
}

/// An IP address literal: four octets or eight 16-bit segments.
#[derive(Debug, Clone, Copy, PartialEq, Eq)]
pub enum IpLiteral {
    /// An IPv4 address.
    V4([u8; 4]),
    /// An IPv6 address.
    V6([u16; 8]),
}

/// What `url::Url::parse` makes of an input: the parsed URL, or the text of
/// the parse error.
pub uninterp spec fn url_parse(input: Seq<char>) -> Result<UrlView, Seq<char>>;

/// The key/value pairs that `application/x-www-form-urlencoded` decoding
/// (`url::form_urlencoded::parse`) yields for a query string, in order.
pub uninterp spec fn form_pairs(query: Seq<char>) -> Seq<(Seq<char>, Seq<char>)>;

/// What parsing text as an `IpAddr` yields, as an [`IpLiteral`].
pub uninterp spec fn ip_literal_parse(text: Seq<char>) -> Option<IpLiteral>;

/// The loopback addresses: `127.0.0.0/8` and `::1`, as `IpAddr::is_loopback`
/// documents them.
pub open spec fn is_loopback(ip: IpLiteral) -> bool {
    match ip {
        IpLiteral::V4(octets) => octets@[0] == 127,
        IpLiteral::V6(segments) => segments@ =~= seq![0u16, 0, 0, 0, 0, 0, 0, 1],
    }
}

/// The view of a parse result.
pub open spec fn parsed_view(r: Result<UrlParts, String>) -> Result<UrlView, Seq<char>> {
    match r {
        Ok(u) => Ok(u@),
        Err(e) => Err(e@),
    }
}

/// The value of the last pair with `key`, as a map built from the pairs keeps it.
pub open spec fn last_value(pairs: Seq<(Seq<char>, Seq<char>)>, key: Seq<char>) -> Option<Seq<char>>
    decreases pairs.len(),
{
    if pairs.len() == 0 {
        None
    } else if pairs.last().0 == key {
        Some(pairs.last().1)
    } else {
        last_value(pairs.drop_last(), key)
    }
}

/// The query of a parsed URL, empty when it has none.
pub open spec fn query_or_empty(u: UrlView) -> Seq<char> {
    match u.query {
        Some(q) => q,
        None => Seq::empty(),
    }
}

/// Parses a URL with `url::Url::parse`.
///
/// The contract names the result: the parts of the parsed URL (scheme,
/// host string, explicit and known-default port, path, query and the
/// serialization) or the parse error's message equal [`url_parse`] of the
/// input. Nothing more is claimed of the WHATWG parsing rules.
#[verifier::external_body]
pub(crate) fn parse_url(input: &str) -> (r: Result<UrlParts, String>)
    ensures
        parsed_view(r) == url_parse(input@),
{
    match url::Url::parse(input) {
        Ok(u) => Ok(UrlParts {
            scheme: u.scheme().to_owned(),
            host: u.host_str().map(str::to_owned),
            port: u.port(),
            known_port: u.port_or_known_default(),
            path: u.path().to_owned(),
            query: u.query().map(str::to_owned),
            serialized: u.as_str().to_owned(),
        }),
        Err(e) => Err(e.to_string()),
    }
}

/// Decodes a query string with `url::form_urlencoded::parse`, the decoding
/// that `Url::query_pairs` applies; the pairs, in order, are named
/// [`form_pairs`] of the query.
#[verifier::external_body]
pub(crate) fn parse_form_pairs(query: &str) -> (r: Vec<(String, String)>)
    ensures
        r@.map_values(|p: (String, String)| (p.0@, p.1@)) == form_pairs(query@),
{
    url::form_urlencoded::parse(query.as_bytes()).map(|(k, v)| (k.into_owned(), v.into_owned())).collect()
}

/// Parses text as an IP address with `str::parse::<IpAddr>`, the standard
/// library's address grammar; the result is named [`ip_literal_parse`].
#[verifier::external_body]
pub(crate) fn parse_ip_literal(text: &str) -> (r: Option<IpLiteral>)
    ensures
        r == ip_literal_parse(text@),
{
    match text.parse::<core::net::IpAddr>() {
        Ok(core::net::IpAddr::V4(a)) => Some(IpLiteral::V4(a.octets())),
        Ok(core::net::IpAddr::V6(a)) => Some(IpLiteral::V6(a.segments())),
        Err(_) => None,
    }
}

/// Returns true when the text is a loopback IP literal (`127.0.0.1`, `::1`).
pub fn is_loopback_ip_literal(host: &str) -> (r: bool)
    ensures
        r == match ip_literal_parse(host@) {
            Some(ip) => is_loopback(ip),
            None => false,
        },
{
    is_loopback_address(parse_ip_literal(host))
}

/// Returns true when what parsing a host as an IP address gave is a loopback
/// address.
pub fn is_loopback_address(ip: Option<IpLiteral>) -> (r: bool)
    ensures
        r == match ip {
            Some(ip) => is_loopback(ip),
            None => false,
        },
{
    match ip {
        Some(IpLiteral::V4(octets)) => octets[0] == 127,
        Some(IpLiteral::V6(segments)) => {
            let r = segments[0] == 0 && segments[1] == 0 && segments[2] == 0 && segments[3] == 0
                && segments[4] == 0 && segments[5] == 0 && segments[6] == 0 && segments[7] == 1;
            assert(r == (segments@ =~= seq![0u16, 0, 0, 0, 0, 0, 0, 1]));
            r
        },
        None => false,
    }
}

} // verus!
