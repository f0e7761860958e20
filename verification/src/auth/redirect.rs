//! Redirect URI validation and callback target checks.

use vstd::prelude::*;

use crate::text::{
    decimal, decimal_text, eq_ignore_ascii_case_spec, join2, join3, owned, text_contains_char,
    text_eq, text_eq_ignore_ascii_case, text_starts_with,
};
use crate::urls::{
    ip_literal_parse, is_loopback, is_loopback_ip_literal, parse_url, parsed_view, url_parse, UrlParts,
    UrlView,
};

use super::error::AuthError;

verus! {

/// Parsed local redirect URI information.
#[derive(Debug, Clone, PartialEq, Eq)]
pub struct LocalRedirect {
    /// URI scheme (must be `http` for local callback usage).
    pub scheme: String,
    /// Redirect host, restricted to explicit loopback IP literals.
    pub host: String,
    /// Redirect port where the callback listener binds.
    pub port: u16,
    /// Redirect path that callback requests must match.
    pub path: String,
}

/// The view of a local redirect: its parts as character sequences.
pub struct RedirectView {
    pub scheme: Seq<char>,
    pub host: Seq<char>,
    pub port: u16,
    pub path: Seq<char>,
}

impl View for LocalRedirect {
    type V = RedirectView;

    open spec fn view(&self) -> RedirectView {
        RedirectView { scheme: self.scheme@, host: self.host@, port: self.port, path: self.path@ }
    }
}

/// A host that parses as a loopback IP address.
pub open spec fn is_loopback_host(host: Seq<char>) -> bool {
    match ip_literal_parse(host) {
        Some(ip) => is_loopback(ip),
        None => false,
    }
}

/// A host without the brackets that URLs put around IPv6 literals.
pub open spec fn bracketless(host: Seq<char>) -> Seq<char> {
    if host.len() >= 2 && host[0] == '[' && host[host.len() - 1] == ']' {
        host.subrange(1, host.len() - 1)
    } else {
        host
    }
}

/// The redirect a parsed URI yields, or the message of the
/// `InvalidRedirectUri` error it is rejected with.
pub open spec fn redirect_from_url(u: UrlView) -> Result<RedirectView, Seq<char>> {
    if u.scheme != "http"@ {
        Err("local callback listener requires an http redirect URI"@)
    } else {
        match u.host {
            None => Err("redirect URI is missing a host"@),
            Some(host) => if !is_loopback_host(bracketless(host)) {
                Err(
                    "redirect host must be an explicit loopback IP literal like 127.0.0.1 or ::1, got "@
                        + host,
                )
            } else {
                match u.port {
                    None => Err("redirect URI is missing a port"@),
                    Some(port) => Ok(
                        RedirectView { scheme: u.scheme, host: bracketless(host), port, path: u.path },
                    ),
                }
            },
        }
    }
}

/// The redirect a configured URI yields, or the message of the
/// `InvalidRedirectUri` error it is rejected with.
pub open spec fn redirect_from_uri(uri: Seq<char>) -> Result<RedirectView, Seq<char>> {
    match url_parse(uri) {
        Err(e) => Err(e),
        Ok(u) => redirect_from_url(u),
    }
}

/// The host as it appears in a URL: IPv6 literals get brackets.
pub open spec fn host_in_url(host: Seq<char>) -> Seq<char> {
    if host.contains(':') && !"["@.is_prefix_of(host) {
        "["@ + host + "]"@
    } else {
        host
    }
}

/// The `host:port` form shown while the listener waits.
pub open spec fn bind_addr_of(r: RedirectView) -> Seq<char> {
    host_in_url(r.host) + ":"@ + decimal(r.port as nat)
}

/// The URL origin reconstructed from the redirect's parts.
pub open spec fn origin_of(r: RedirectView) -> Seq<char> {
    r.scheme + "://"@ + bind_addr_of(r)
}

/// The URL a callback request target stands for: absolute targets as they are,
/// origin-form targets appended to the redirect's origin.
pub open spec fn callback_input(r: RedirectView, target: Seq<char>) -> Seq<char> {
    if "http://"@.is_prefix_of(target) || "https://"@.is_prefix_of(target) {
        target
    } else {
        origin_of(r) + target
    }
}

/// The host of a parsed URL, empty when it has none.
pub open spec fn host_or_empty(u: UrlView) -> Seq<char> {
    match u.host {
        Some(h) => h,
        None => Seq::empty(),
    }
}

/// The validated callback URL for what parsing a callback URL gave, or the
/// message of the `InvalidCallback` error it is rejected with: the scheme,
/// the host (up to ASCII case and IPv6 brackets), the port and the path must
/// be the redirect's.
pub open spec fn callback_url_checked(r: RedirectView, parsed: Result<UrlView, Seq<char>>) -> Result<
    Seq<char>,
    Seq<char>,
> {
    match parsed {
        Err(e) => Err(e),
        Ok(u) => if u.scheme != r.scheme {
            Err("callback scheme did not match configured redirect URI"@)
        } else if !eq_ignore_ascii_case_spec(bracketless(host_or_empty(u)), r.host) {
            Err("callback host did not match configured redirect URI"@)
        } else if u.known_port != Some(r.port) {
            Err("callback port did not match configured redirect URI"@)
        } else if u.path != r.path {
            Err("callback path did not match configured redirect URI"@)
        } else {
            Ok(u.serialized)
        },
    }
}

/// The validated callback URL for a request target, or the message of the
/// `InvalidCallback` error it is rejected with.
pub open spec fn callback_url_for(r: RedirectView, target: Seq<char>) -> Result<Seq<char>, Seq<char>> {
    callback_url_checked(r, url_parse(callback_input(r, target)))
}

/// `r` is the result that `spec` describes, with errors as `InvalidRedirectUri`.
pub open spec fn redirect_result_is(
    r: Result<LocalRedirect, AuthError>,
    spec: Result<RedirectView, Seq<char>>,
) -> bool {
    match spec {
        Ok(v) => r matches Ok(x) && x@ == v,
        Err(m) => r matches Err(AuthError::InvalidRedirectUri(s)) && s@ == m,
    }
}

fn invalid_redirect(message: &str) -> (r: AuthError)
    ensures
        r matches AuthError::InvalidRedirectUri(s) && s@ == message@,
{
    AuthError::InvalidRedirectUri(owned(message))
}

fn invalid_callback(message: &str) -> (r: AuthError)
    ensures
        r matches AuthError::InvalidCallback(s) && s@ == message@,
{
    AuthError::InvalidCallback(owned(message))
}

/// Removes the brackets around an IPv6 literal host.
fn strip_brackets(host: &str) -> (r: String)
    ensures
        r@ == bracketless(host@),
{
    let n = host.unicode_len();
    if n >= 2 && host.get_char(0) == '[' && host.get_char(n - 1) == ']' {
        owned(host.substring_char(1, n - 1))
    } else {
        owned(host)
    }
}

impl LocalRedirect {
    /// Parses and validates a configured redirect URI for local callback usage.
    pub fn from_uri(uri: &str) -> (r: Result<Self, AuthError>)
        ensures
            redirect_result_is(r, redirect_from_uri(uri@)),
    {
        match parse_url(uri) {
            Ok(parsed) => LocalRedirect::from_url(parsed),
            Err(e) => Err(AuthError::InvalidRedirectUri(e)),
        }
    }

    /// Validates a parsed redirect URI for local callback usage: `http`, an
    /// explicit loopback IP host (an IPv6 one without its brackets is kept)
    /// and an explicit port.
    pub fn from_url(parsed: UrlParts) -> (r: Result<Self, AuthError>)
        ensures
            redirect_result_is(r, redirect_from_url(parsed@)),
    {
        if !text_eq(parsed.scheme.as_str(), "http") {
            return Err(invalid_redirect("local callback listener requires an http redirect URI"));
        }
        let host = match &parsed.host {
            Some(h) => h.clone(),
            None => return Err(invalid_redirect("redirect URI is missing a host")),
        };
        let bare = strip_brackets(host.as_str());
        if !is_loopback_ip_literal(bare.as_str()) {
            return Err(
                AuthError::InvalidRedirectUri(
                    join2(
                        "redirect host must be an explicit loopback IP literal like 127.0.0.1 or ::1, got ",
                        host.as_str(),
                    ),
                ),
            );
        }
        let port = match parsed.port {
            Some(p) => p,
            None => return Err(invalid_redirect("redirect URI is missing a port")),
        };
        Ok(LocalRedirect { scheme: parsed.scheme, host: bare, port, path: parsed.path })
    }

    /// Returns host:port display form for listener status messages.
    pub fn bind_addr(&self) -> (r: String)
        ensures
            r@ == bind_addr_of(self@),
    {
        let host = self.host_for_url();
        let port = decimal_text(self.port as u64);
        join3(host.as_str(), ":", port.as_str())
    }

    /// Returns the URL origin reconstructed from validated redirect parts.
    pub fn origin(&self) -> (r: String)
        ensures
            r@ == origin_of(self@),
    {
        let addr = self.bind_addr();
        join3(self.scheme.as_str(), "://", addr.as_str())
    }

    /// Normalizes a callback request target into a validated absolute URL.
    pub fn callback_url_from_request_target(&self, request_target: &str) -> (r: Result<
        String,
        AuthError,
    >)
        ensures
            match callback_url_for(self@, request_target@) {
                Ok(url) => r matches Ok(s) && s@ == url,
                Err(m) => r matches Err(AuthError::InvalidCallback(s)) && s@ == m,
            },
    {
        let absolute = text_starts_with(request_target, "http://") || text_starts_with(
            request_target,
            "https://",
        );
        let input = if absolute {
            owned(request_target)
        } else {
            let origin = self.origin();
            join2(origin.as_str(), request_target)
        };
        self.callback_url_from_parsed(parse_url(input.as_str()))
    }

    /// Checks what parsing a callback URL gave against the redirect: its
    /// scheme, host (up to ASCII case and IPv6 brackets), port and path must be
    /// the redirect's; the URL is returned as serialized.
    pub fn callback_url_from_parsed(&self, parsed: Result<UrlParts, String>) -> (r: Result<
        String,
        AuthError,
    >)
        ensures
            match callback_url_checked(self@, parsed_view(parsed)) {
                Ok(url) => r matches Ok(s) && s@ == url,
                Err(m) => r matches Err(AuthError::InvalidCallback(s)) && s@ == m,
            },
    {
        let callback_url = match parsed {
            Ok(u) => u,
            Err(e) => return Err(AuthError::InvalidCallback(e)),
        };
        if !text_eq(callback_url.scheme.as_str(), self.scheme.as_str()) {
            return Err(invalid_callback("callback scheme did not match configured redirect URI"));
        }
        let callback_host = match &callback_url.host {
            Some(h) => h.as_str(),
            None => {
                proof {
                    reveal_strlit("");
                }
                ""
            },
        };
        assert(callback_host@ == host_or_empty(callback_url@));
        let bare_callback_host = strip_brackets(callback_host);
        if !text_eq_ignore_ascii_case(bare_callback_host.as_str(), self.host.as_str()) {
            return Err(invalid_callback("callback host did not match configured redirect URI"));
        }
        let port_matches = match callback_url.known_port {
            Some(p) => p == self.port,
            None => false,
        };
        if !port_matches {
            return Err(invalid_callback("callback port did not match configured redirect URI"));
        }
        if !text_eq(callback_url.path.as_str(), self.path.as_str()) {
            return Err(invalid_callback("callback path did not match configured redirect URI"));
        }
        Ok(callback_url.serialized)
    }

    /// Formats an IP host for URL usage (including IPv6 bracket wrapping).
    pub fn host_for_url(&self) -> (r: String)
        ensures
            r@ == host_in_url(self.host@),
    {
        if text_contains_char(self.host.as_str(), ':') && !text_starts_with(self.host.as_str(), "[") {
            join3("[", self.host.as_str(), "]")
        } else {
            self.host.clone()
        }
    }
}

/// A redirect that is accepted was parsed from an `http` URI, has a loopback
/// IP host (an IPv6 one without its URL brackets) and an explicit port.
pub proof fn law_accepted_redirects_are_local(uri: Seq<char>)
    requires
        redirect_from_uri(uri) is Ok,
    ensures
        redirect_from_uri(uri)->Ok_0.scheme == "http"@,
        is_loopback_host(redirect_from_uri(uri)->Ok_0.host),
        url_parse(uri) matches Ok(u) && u.host matches Some(h) && redirect_from_uri(uri)->Ok_0.host
            == bracketless(h),
        url_parse(uri) matches Ok(u) && u.port == Some(redirect_from_uri(uri)->Ok_0.port),
{
}

/// An accepted callback URL was parsed with the redirect's scheme, host (up to
/// ASCII case and IPv6 brackets), port and path.
pub proof fn law_accepted_callbacks_match_redirect(r: RedirectView, target: Seq<char>)
    requires
        callback_url_for(r, target) is Ok,
    ensures
        url_parse(callback_input(r, target)) matches Ok(u) && {
            &&& u.scheme == r.scheme
            &&& eq_ignore_ascii_case_spec(bracketless(host_or_empty(u)), r.host)
            &&& u.known_port == Some(r.port)
            &&& u.path == r.path
            &&& callback_url_for(r, target) == Ok::<Seq<char>, Seq<char>>(u.serialized)
        },
{
}

} // verus!
