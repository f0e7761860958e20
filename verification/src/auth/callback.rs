//! Callback request handling for Spotify OAuth redirects: accumulating the
//! request, reading its target, spotting OAuth errors, and the browser-facing
//! responses.
//!
//! The socket itself lives in the application shell, which hands each chunk it
//! reads to [`CallbackRequestBuffer::absorb`] and writes back the responses
//! built here.

use vstd::prelude::*;
use vstd::string::StringSliceAdditionalSpecFns;

use crate::text::{
    decimal, decimal_text, is_whitespace, join2, join3, opt_view, owned, char_is_whitespace,
    text_eq,
};
use crate::urls::{form_pairs, last_value, parse_form_pairs, parse_url, query_or_empty, url_parse};

use super::error::{auth_error_text, AuthError};

verus! {

/// Plain-text body returned to the browser after a successful token exchange.
pub const CALLBACK_RESPONSE_SUCCESS: &'static str =
    "Spotify authorization completed. You can return to spotuify.";

/// Maximum callback HTTP request size accepted by the local listener.
pub const HTTP_REQUEST_LIMIT: usize = 16 * 1024;

/// HTTP status used for successful callback responses.
pub const HTTP_RESPONSE_OK: &'static str = "200 OK";

/// HTTP status used for malformed callback or auth failure responses.
pub const HTTP_RESPONSE_BAD_REQUEST: &'static str = "400 Bad Request";

/// What `String::from_utf8_lossy` makes of bytes: valid UTF-8 decoded, each
/// invalid sequence replaced by U+FFFD.
pub uninterp spec fn utf8_lossy(bytes: Seq<u8>) -> Seq<char>;

/// Decodes request bytes with `String::from_utf8_lossy`; the text is named
/// [`utf8_lossy`] of the bytes.
#[verifier::external_body]
fn decode_utf8_lossy(bytes: &[u8]) -> (r: String)
    ensures
        r@ == utf8_lossy(bytes@),
{
    String::from_utf8_lossy(bytes).into_owned()
}

/// The bytes hold the blank line (`\r\n\r\n`) that ends an HTTP request head.
pub open spec fn has_head_end(b: Seq<u8>) -> bool {
    exists|i: int|
        0 <= i && i + 4 <= b.len() && #[trigger] b[i] == 13 && b[i + 1] == 10 && b[i + 2] == 13
            && b[i + 3] == 10
}

/// Index of the first `\n` at or after `i`, or the length when there is none.
pub open spec fn newline_from(s: Seq<char>, i: int) -> int
    decreases s.len() - i,
{
    if 0 <= i < s.len() && s[i] != '\n' {
        newline_from(s, i + 1)
    } else {
        i
    }
}

/// The first line of a text as `str::lines` yields it: up to the first `\n`,
/// without a `\r` just before it; `None` for empty text.
pub open spec fn first_line(s: Seq<char>) -> Option<Seq<char>> {
    if s.len() == 0 {
        None
    } else {
        let k = newline_from(s, 0);
        if k < s.len() {
            let line = s.subrange(0, k);
            if line.len() > 0 && line.last() == '\r' {
                Some(line.drop_last())
            } else {
                Some(line)
            }
        } else {
            Some(s)
        }
    }
}

/// Index of the first non-whitespace character at or after `i`.
pub open spec fn skip_ws(s: Seq<char>, i: int) -> int
    decreases s.len() - i,
{
    if 0 <= i < s.len() && is_whitespace(s[i]) {
        skip_ws(s, i + 1)
    } else {
        i
    }
}

/// Index of the first whitespace character at or after `i`.
pub open spec fn token_end(s: Seq<char>, i: int) -> int
    decreases s.len() - i,
{
    if 0 <= i < s.len() && !is_whitespace(s[i]) {
        token_end(s, i + 1)
    } else {
        i
    }
}

/// The next whitespace-separated token at or after `from`, as `(start, end)`,
/// the way `str::split_whitespace` finds it.
pub open spec fn next_token(s: Seq<char>, from: int) -> Option<(int, int)> {
    let a = skip_ws(s, from);
    if a >= s.len() {
        None
    } else {
        Some((a, token_end(s, a)))
    }
}

/// The request target of an HTTP request text, or the message of the
/// `InvalidCallback` error the request is rejected with.
pub open spec fn request_target_of(text: Seq<char>) -> Result<Seq<char>, Seq<char>> {
    match first_line(text) {
        None => Err("callback request was empty"@),
        Some(line) => match next_token(line, 0) {
            None => Err("callback request method missing"@),
            Some((a1, b1)) => match next_token(line, b1) {
                None => Err("callback request target missing"@),
                Some((a2, b2)) => match next_token(line, b2) {
                    None => Err("callback request version missing"@),
                    Some(_) => {
                        let method = line.subrange(a1, b1);
                        if method != "GET"@ {
                            Err("callback request used unsupported method "@ + method)
                        } else {
                            Ok(line.subrange(a2, b2))
                        }
                    },
                },
            },
        },
    }
}

/// The OAuth error a callback URL reports: the last `error` query value, with
/// the last `error_description` value if there is one.
pub open spec fn rejection_in(url: Seq<char>) -> Option<(Seq<char>, Option<Seq<char>>)> {
    match url_parse(url) {
        Err(_) => None,
        Ok(u) => rejection_in_pairs(form_pairs(query_or_empty(u))),
    }
}

/// The OAuth error that decoded query pairs report: the last `error` value,
/// with the last `error_description` value if there is one.
pub open spec fn rejection_in_pairs(pairs: Seq<(Seq<char>, Seq<char>)>) -> Option<
    (Seq<char>, Option<Seq<char>>),
> {
    match last_value(pairs, "error"@) {
        None => None,
        Some(e) => Some((e, last_value(pairs, "error_description"@))),
    }
}

/// The plain-text body shown in the browser when authorization fails.
pub open spec fn failure_body_text(err: AuthError) -> Seq<char> {
    "Spotify authorization failed.\n\n"@ + auth_error_text(err)
        + "\n\nReturn to spotuify for details."@
}

/// The HTTP response written to the browser.
pub open spec fn browser_response_text(status: Seq<char>, body: Seq<char>, body_len: nat) -> Seq<
    char,
> {
    "HTTP/1.1 "@ + status + "\r\nContent-Type: text/plain; charset=utf-8\r\nContent-Length: "@
        + decimal(body_len) + "\r\nConnection: close\r\n\r\n"@ + body
}

/// `r` is the result described by `spec`, with errors as `InvalidCallback`.
pub open spec fn callback_result_is(r: Result<String, AuthError>, spec: Result<Seq<char>, Seq<char>>) -> bool {
    match spec {
        Ok(t) => r matches Ok(s) && s@ == t,
        Err(m) => r matches Err(AuthError::InvalidCallback(s)) && s@ == m,
    }
}

/// How far a callback request has been read.
#[derive(Debug, Clone, Copy, PartialEq, Eq, Structural)]
pub enum RequestRead {
    /// The request head is not complete yet: read more.
    NeedMore,
    /// The request is complete (its head ended, or the peer closed).
    Complete,
}

/// The bytes of one callback request, as read so far.
#[derive(Debug, Clone, PartialEq, Eq)]
pub struct CallbackRequestBuffer {
    bytes: Vec<u8>,
}

fn index_of_newline(s: &str) -> (r: usize)
    ensures
        r == newline_from(s@, 0),
        r <= s@.len(),
{
    let n = s.unicode_len();
    let mut i: usize = 0;
    while i < n && s.get_char(i) != '\n'
        invariant
            i <= n,
            n == s@.len(),
            newline_from(s@, i as int) == newline_from(s@, 0),
        decreases n - i,
    {
        i = i + 1;
    }
    i
}

fn skip_whitespace(s: &str, from: usize) -> (r: usize)
    requires
        from <= s@.len(),
    ensures
        r == skip_ws(s@, from as int),
        from <= r <= s@.len(),
{
    let n = s.unicode_len();
    let mut i: usize = from;
    while i < n && char_is_whitespace(s.get_char(i))
        invariant
            from <= i <= n,
            n == s@.len(),
            skip_ws(s@, i as int) == skip_ws(s@, from as int),
        decreases n - i,
    {
        i = i + 1;
    }
    i
}

fn end_of_token(s: &str, from: usize) -> (r: usize)
    requires
        from <= s@.len(),
    ensures
        r == token_end(s@, from as int),
        from <= r <= s@.len(),
{
    let n = s.unicode_len();
    let mut i: usize = from;
    while i < n && !char_is_whitespace(s.get_char(i))
        invariant
            from <= i <= n,
            n == s@.len(),
            token_end(s@, i as int) == token_end(s@, from as int),
        decreases n - i,
    {
        i = i + 1;
    }
    i
}

proof fn lemma_skip_ws(s: Seq<char>, i: int)
    requires
        0 <= i <= s.len(),
    ensures
        i <= skip_ws(s, i) <= s.len(),
        skip_ws(s, i) < s.len() ==> !is_whitespace(s[skip_ws(s, i)]),
    decreases s.len() - i,
{
    if i < s.len() && is_whitespace(s[i]) {
        lemma_skip_ws(s, i + 1);
    }
}

proof fn lemma_token_end(s: Seq<char>, i: int)
    requires
        0 <= i <= s.len(),
    ensures
        i <= token_end(s, i) <= s.len(),
        i < s.len() && !is_whitespace(s[i]) ==> i < token_end(s, i),
    decreases s.len() - i,
{
    if i < s.len() && !is_whitespace(s[i]) {
        lemma_token_end(s, i + 1);
    }
}

fn find_token(s: &str, from: usize) -> (r: Option<(usize, usize)>)
    requires
        from <= s@.len(),
    ensures
        match next_token(s@, from as int) {
            None => r is None,
            Some((a, b)) => r matches Some((x, y)) && x == a && y == b && from <= x < y <= s@.len(),
        },
{
    let a = skip_whitespace(s, from);
    if a >= s.unicode_len() {
        None
    } else {
        let b = end_of_token(s, a);
        proof {
            lemma_skip_ws(s@, from as int);
            lemma_token_end(s@, a as int);
        }
        Some((a, b))
    }
}

fn invalid_callback(message: &str) -> (r: AuthError)
    ensures
        r matches AuthError::InvalidCallback(s) && s@ == message@,
{
    AuthError::InvalidCallback(owned(message))
}

/// Reads the request target from an HTTP request's text: the second token of
/// its first line, which must be a `GET` request line.
pub fn parse_request_line(request: &str) -> (r: Result<String, AuthError>)
    ensures
        callback_result_is(r, request_target_of(request@)),
{
    let n = request.unicode_len();
    if n == 0 {
        return Err(invalid_callback("callback request was empty"));
    }
    let k = index_of_newline(request);
    let line: &str = if k < n {
        let upto = request.substring_char(0, k);
        if k > 0 && upto.get_char(k - 1) == '\r' {
            upto.substring_char(0, k - 1)
        } else {
            upto
        }
    } else {
        request
    };
    assert(first_line(request@) == Some(line@)) by {
        if k < n {
            let full = request@.subrange(0, k as int);
            if k > 0 && full.last() == '\r' {
                assert(full.drop_last() =~= request@.subrange(0, k - 1));
            }
        }
    }
    let (a1, b1) = match find_token(line, 0) {
        Some(t) => t,
        None => return Err(invalid_callback("callback request method missing")),
    };
    let (a2, b2) = match find_token(line, b1) {
        Some(t) => t,
        None => return Err(invalid_callback("callback request target missing")),
    };
    if find_token(line, b2).is_none() {
        return Err(invalid_callback("callback request version missing"));
    }
    let method = line.substring_char(a1, b1);
    if !text_eq(method, "GET") {
        return Err(AuthError::InvalidCallback(
            join2("callback request used unsupported method ", method),
        ));
    }
    Ok(owned(line.substring_char(a2, b2)))
}

fn holds_head_end(b: &Vec<u8>) -> (r: bool)
    ensures
        r == has_head_end(b@),
{
    let n = b.len();
    if n < 4 {
        return false;
    }
    let mut i: usize = 0;
    while i < n - 3
        invariant
            n == b@.len(),
            n >= 4,
            i <= n - 3,
            forall|j: int|
                0 <= j < i ==> !(#[trigger] b@[j] == 13 && b@[j + 1] == 10 && b@[j + 2] == 13
                    && b@[j + 3] == 10),
        decreases n - i,
    {
        if b[i] == 13 && b[i + 1] == 10 && b[i + 2] == 13 && b[i + 3] == 10 {
            return true;
        }
        i = i + 1;
    }
    false
}

impl CallbackRequestBuffer {
    /// The bytes read so far.
    pub closed spec fn bytes(&self) -> Seq<u8> {
        self.bytes@
    }

    /// An empty buffer.
    pub fn new() -> (r: Self)
        ensures
            r.bytes() == Seq::<u8>::empty(),
    {
        CallbackRequestBuffer { bytes: Vec::new() }
    }

    /// Takes in one chunk read from the callback stream (an empty chunk means
    /// the peer closed the stream) and says whether the request is complete.
    /// A request head longer than [`HTTP_REQUEST_LIMIT`] bytes is refused.
    pub fn absorb(&mut self, chunk: &[u8]) -> (r: Result<RequestRead, AuthError>)
        ensures
            chunk@.len() == 0 ==> r == Ok::<RequestRead, AuthError>(RequestRead::Complete)
                && final(self).bytes() == old(self).bytes(),
            chunk@.len() > 0 ==> {
                &&& final(self).bytes() == old(self).bytes() + chunk@
                &&& has_head_end(final(self).bytes()) ==> r == Ok::<RequestRead, AuthError>(
                    RequestRead::Complete,
                )
                &&& !has_head_end(final(self).bytes()) && final(self).bytes().len()
                    > HTTP_REQUEST_LIMIT ==> (r matches Err(AuthError::InvalidCallback(m)) && m@
                    == "callback request exceeded maximum size"@)
                &&& !has_head_end(final(self).bytes()) && final(self).bytes().len()
                    <= HTTP_REQUEST_LIMIT ==> r == Ok::<RequestRead, AuthError>(
                    RequestRead::NeedMore,
                )
            },
    {
        if chunk.len() == 0 {
            return Ok(RequestRead::Complete);
        }
        let ghost before = self.bytes@;
        let mut i: usize = 0;
        while i < chunk.len()
            invariant
                i <= chunk@.len(),
                self.bytes@ == before + chunk@.subrange(0, i as int),
            decreases chunk@.len() - i,
        {
            self.bytes.push(chunk[i]);
            i = i + 1;
            assert(self.bytes@ =~= before + chunk@.subrange(0, i as int));
        }
        assert(chunk@.subrange(0, chunk@.len() as int) =~= chunk@);
        if holds_head_end(&self.bytes) {
            return Ok(RequestRead::Complete);
        }
        if self.bytes.len() > HTTP_REQUEST_LIMIT {
            return Err(invalid_callback("callback request exceeded maximum size"));
        }
        Ok(RequestRead::NeedMore)
    }

    /// Reads the request target from the bytes gathered, decoded as lossy UTF-8.
    pub fn request_target(&self) -> (r: Result<String, AuthError>)
        ensures
            callback_result_is(r, request_target_of(utf8_lossy(self.bytes()))),
    {
        let text = decode_utf8_lossy(self.bytes.as_slice());
        parse_request_line(text.as_str())
    }
}

/// Extracts the OAuth error that a callback URL reports, when it reports one.
pub fn authorization_error_from_callback_url(callback_url: &str) -> (r: Option<AuthError>)
    ensures
        match rejection_in(callback_url@) {
            None => r is None,
            Some((e, d)) => r matches Some(AuthError::AuthorizationRejected { error, description })
                && error@ == e && opt_view(description) == d,
        },
{
    let parsed = match parse_url(callback_url) {
        Ok(u) => u,
        Err(_) => return None,
    };
    let query: &str = match &parsed.query {
        Some(q) => q.as_str(),
        None => {
            proof {
                reveal_strlit("");
            }
            ""
        },
    };
    assert(query@ == query_or_empty(parsed@));
    let pairs = parse_form_pairs(query);
    authorization_error_from_pairs(&pairs)
}

/// Extracts the OAuth error that decoded callback query pairs report, when
/// they report one.
pub fn authorization_error_from_pairs(pairs: &Vec<(String, String)>) -> (r: Option<AuthError>)
    ensures
        match rejection_in_pairs(pairs@.map_values(|p: (String, String)| (p.0@, p.1@))) {
            None => r is None,
            Some((e, d)) => r matches Some(AuthError::AuthorizationRejected { error, description })
                && error@ == e && opt_view(description) == d,
        },
{
    let ghost spec_pairs = pairs@.map_values(|p: (String, String)| (p.0@, p.1@));
    let mut error: Option<String> = None;
    let mut description: Option<String> = None;
    let mut i: usize = 0;
    while i < pairs.len()
        invariant
            i <= pairs@.len(),
            spec_pairs == pairs@.map_values(|p: (String, String)| (p.0@, p.1@)),
            opt_view(error) == last_value(spec_pairs.subrange(0, i as int), "error"@),
            opt_view(description) == last_value(
                spec_pairs.subrange(0, i as int),
                "error_description"@,
            ),
        decreases pairs@.len() - i,
    {
        let ghost prefix = spec_pairs.subrange(0, i + 1);
        assert(prefix.drop_last() =~= spec_pairs.subrange(0, i as int));
        assert(prefix.last() == (pairs@[i as int].0@, pairs@[i as int].1@));
        let key = pairs[i].0.as_str();
        if text_eq(key, "error") {
            error = Some(pairs[i].1.clone());
        } else if text_eq(key, "error_description") {
            description = Some(pairs[i].1.clone());
        }
        proof {
            reveal_strlit("error");
            reveal_strlit("error_description");
            assert("error"@ != "error_description"@) by {
                assert("error"@.len() != "error_description"@.len());
            }
        }
        i = i + 1;
    }
    assert(spec_pairs.subrange(0, pairs@.len() as int) =~= spec_pairs);
    match error {
        Some(error) => Some(AuthError::AuthorizationRejected { error, description }),
        None => None,
    }
}

/// Builds a browser-visible failure body with an actionable auth message.
pub fn browser_failure_body(err: &AuthError) -> (r: String)
    ensures
        r@ == failure_body_text(*err),
{
    let text = err.to_string();
    join3("Spotify authorization failed.\n\n", text.as_str(), "\n\nReturn to spotuify for details.")
}

/// Builds the minimal plain-text HTTP response for the callback browser page.
pub fn browser_response(status: &str, body: &str) -> (r: String)
    requires
        body.spec_bytes().len() <= usize::MAX,
    ensures
        r@ == browser_response_text(status@, body@, body.spec_bytes().len()),
{
    let size = decimal_text(body.len() as u64);
    let mut s = join3(
        "HTTP/1.1 ",
        status,
        "\r\nContent-Type: text/plain; charset=utf-8\r\nContent-Length: ",
    );
    s.append(size.as_str());
    s.append("\r\nConnection: close\r\n\r\n");
    s.append(body);
    s
}

/// The failure body always carries the error's own text, so the browser shows
/// what went wrong.
pub proof fn law_failure_body_carries_error(err: AuthError)
    ensures
        failure_body_text(err).subrange(
            "Spotify authorization failed.\n\n"@.len() as int,
            ("Spotify authorization failed.\n\n"@.len() + auth_error_text(err).len()) as int,
        ) == auth_error_text(err),
{
    let lead = "Spotify authorization failed.\n\n"@;
    let tail = "\n\nReturn to spotuify for details."@;
    assert((lead + auth_error_text(err) + tail).subrange(
        lead.len() as int,
        (lead.len() + auth_error_text(err).len()) as int,
    ) =~= auth_error_text(err));
}

} // verus!
