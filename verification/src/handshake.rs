//! The WebSocket handshake of a client: the URL it connects to and the HTTP
//! headers that authenticate it, checked as the `http` and `tungstenite`
//! crates check them before a connection is attempted.

use vstd::prelude::*;
use tokio_tungstenite::tungstenite::client::IntoClientRequest;
use crate::client::{endpoint_url, ws_scheme, Client, ClientView};
use crate::error::GradiumError;
use crate::text::owned;

verus! {

/// Whether `into_client_request` (tungstenite) makes a request of the URL text.
pub uninterp spec fn ws_request_ok(url: Seq<char>) -> bool;

/// Whether a character may stand in an HTTP header name (a token
/// character; upper-case letters are accepted and lower-cased).
pub open spec fn is_header_name_char(c: char) -> bool {
    ||| ('a' <= c && c <= 'z')
    ||| ('A' <= c && c <= 'Z')
    ||| ('0' <= c && c <= '9')
    ||| c == '!' || c == '#' || c == '$' || c == '%' || c == '&' || c == '\''
    ||| c == '*' || c == '+' || c == '-' || c == '.' || c == '^' || c == '_'
    ||| c == '`' || c == '|' || c == '~'
}

/// Whether `HeaderName::from_bytes` (http) accepts the UTF-8 bytes of the
/// text: one to 65535 token characters.
pub open spec fn header_name_ok(name: Seq<char>) -> bool {
    &&& 0 < name.len() <= 65535
    &&& forall|i: int| 0 <= i < name.len() ==> is_header_name_char(#[trigger] name[i])
}

/// Whether `HeaderValue::from_str` (http) accepts the text: no control
/// character but the tab. (Characters outside ASCII are accepted: all their
/// UTF-8 bytes are at least 128.)
pub open spec fn header_value_ok(value: Seq<char>) -> bool {
    forall|i: int|
        0 <= i < value.len() ==> ((#[trigger] value[i] as u32) >= 32 && (value[i] as u32) != 127)
            || value[i] == '\t'
}

/// The header names and the source value that every client sends are valid.
pub proof fn lemma_fixed_headers_valid()
    ensures
        header_name_ok("x-api-key"@),
        header_name_ok("x-api-source"@),
        header_value_ok("rust-client"@),
{
    reveal_strlit("x-api-key");
    reveal_strlit("x-api-source");
    reveal_strlit("rust-client");
    assert(header_name_ok("x-api-key"@));
    assert(header_name_ok("x-api-source"@));
    assert(header_value_ok("rust-client"@));
}

/// Checks the URL with tungstenite's `IntoClientRequest::into_client_request`
/// on `&str`. The contract claims that the answer is fixed by the text (the
/// name [`ws_request_ok`]); the request is built again by the caller.
#[verifier::external_body]
fn ws_request_builds(url: &str) -> (b: bool)
    ensures
        b == ws_request_ok(url@),
{
    url.into_client_request().is_ok()
}

/// Checks a header name with `http::header::HeaderName::from_bytes`. The
/// contract claims that it accepts exactly [`header_name_ok`] names.
#[verifier::external_body]
fn header_name_valid(name: &str) -> (b: bool)
    ensures
        b == header_name_ok(name@),
{
    tokio_tungstenite::tungstenite::http::header::HeaderName::from_bytes(name.as_bytes()).is_ok()
}

/// Checks a header value with `http::HeaderValue::from_str`. The contract
/// claims that it accepts exactly [`header_value_ok`] values.
#[verifier::external_body]
fn header_value_valid(value: &str) -> (b: bool)
    ensures
        b == header_value_ok(value@),
{
    tokio_tungstenite::tungstenite::http::HeaderValue::from_str(value).is_ok()
}

/// All the headers of a client are valid exactly where its API key is a
/// valid value and its extra headers are valid.
proof fn lemma_auth_headers_ok(c: ClientView)
    ensures
        (forall|i: int| 0 <= i < auth_headers(c).len() ==> header_ok(#[trigger] auth_headers(c)[i]))
            <==> (header_value_ok(c.api_key) && forall|i: int|
            0 <= i < c.additional_headers.len() ==> header_ok(#[trigger] c.additional_headers[i])),
{
    lemma_fixed_headers_valid();
    let all = auth_headers(c);
    assert(all[0] == ("x-api-key"@, c.api_key));
    assert(all[1] == ("x-api-source"@, "rust-client"@));
    if forall|i: int| 0 <= i < all.len() ==> header_ok(#[trigger] all[i]) {
        assert(header_ok(all[0]));
        assert forall|i: int| 0 <= i < c.additional_headers.len() implies header_ok(
            #[trigger] c.additional_headers[i],
        ) by {
            assert(all[i + 2] == c.additional_headers[i]);
            assert(header_ok(all[i + 2]));
        }
    }
    if header_value_ok(c.api_key) && forall|i: int|
        0 <= i < c.additional_headers.len() ==> header_ok(#[trigger] c.additional_headers[i]) {
        assert forall|i: int| 0 <= i < all.len() implies header_ok(#[trigger] all[i]) by {
            if i >= 2 {
                assert(all[i] == c.additional_headers[i - 2]);
            }
        }
    }
}

/// Whether a header has a valid name and a valid value.
pub open spec fn header_ok(h: (Seq<char>, Seq<char>)) -> bool {
    header_name_ok(h.0) && header_value_ok(h.1)
}

/// The headers a client sends, in order: its API key, the client source,
/// then its extra headers in the order they were added.
pub open spec fn auth_headers(c: ClientView) -> Seq<(Seq<char>, Seq<char>)> {
    seq![("x-api-key"@, c.api_key), ("x-api-source"@, "rust-client"@)] + c.additional_headers
}

/// The error for a header that is not valid: its name where that is
/// invalid, else its value.
pub open spec fn header_error(h: (Seq<char>, Seq<char>), e: GradiumError) -> bool {
    if !header_name_ok(h.0) {
        e matches GradiumError::InvalidHeaderName { name } && name@ == h.0
    } else {
        e matches GradiumError::InvalidHeaderValue { name } && name@ == h.0
    }
}


impl Client {
    /// The URL and headers of the WebSocket handshake for `endpoint`. Fails,
    /// before any connection, where the URL makes no request or where a
    /// header (checked in order) has an invalid name or value.
    pub fn handshake(&self, endpoint: &str) -> (r: Result<(String, Vec<(String, String)>), GradiumError>)
        ensures
            r is Ok <==> ws_request_ok(endpoint_url(ws_scheme(self@), self@, endpoint@))
                && header_value_ok(self@.api_key)
                && forall|i: int| 0 <= i < self@.additional_headers.len() ==> header_ok(
                    #[trigger] self@.additional_headers[i],
                ),
            r matches Ok((u, hs)) ==> {
                &&& u@ == endpoint_url(ws_scheme(self@), self@, endpoint@)
                &&& hs@.map_values(|h: (String, String)| (h.0@, h.1@)) == auth_headers(self@)
            },
            !ws_request_ok(endpoint_url(ws_scheme(self@), self@, endpoint@)) ==> r matches Err(
                GradiumError::InvalidWebSocketUrl,
            ),
            ws_request_ok(endpoint_url(ws_scheme(self@), self@, endpoint@)) ==> (r matches Err(e) ==> exists|i: int|
                0 <= i < auth_headers(self@).len() && !header_ok(#[trigger] auth_headers(self@)[i])
                    && (forall|j: int| 0 <= j < i ==> header_ok(auth_headers(self@)[j]))
                    && header_error(auth_headers(self@)[i], e)),
    {
        proof {
            lemma_auth_headers_ok(self@);
        }
        let url = self.ws_url(endpoint);
        if !ws_request_builds(url.as_str()) {
            return Err(GradiumError::InvalidWebSocketUrl);
        }
        let extra = self.additional_headers();
        let mut hs: Vec<(String, String)> = Vec::new();
        hs.push((owned("x-api-key"), owned(self.api_key())));
        hs.push((owned("x-api-source"), owned("rust-client")));
        let mut k: usize = 0;
        while k < extra.len()
            invariant
                k <= extra@.len(),
                extra@.map_values(|h: (String, String)| (h.0@, h.1@)) == self@.additional_headers,
                hs@.map_values(|h: (String, String)| (h.0@, h.1@))
                    == seq![("x-api-key"@, self@.api_key), ("x-api-source"@, "rust-client"@)]
                    + self@.additional_headers.take(k as int),
            decreases extra@.len() - k,
        {
            let ghost before = hs@;
            let name = extra[k].0.clone();
            let value = extra[k].1.clone();
            hs.push((name, value));
            proof {
                assert(self@.additional_headers[k as int] == (extra@[k as int].0@, extra@[k as int].1@));
                assert(self@.additional_headers.take(k + 1) =~= self@.additional_headers.take(k as int).push(
                    self@.additional_headers[k as int],
                ));
                assert(hs@.map_values(|h: (String, String)| (h.0@, h.1@)) =~= before.map_values(
                    |h: (String, String)| (h.0@, h.1@),
                ).push(self@.additional_headers[k as int]));
            }
            k = k + 1;
        }
        let ghost all = auth_headers(self@);
        assert(self@.additional_headers.take(k as int) =~= self@.additional_headers);
        let mut i: usize = 0;
        while i < hs.len()
            invariant
                i <= hs@.len(),
                hs@.map_values(|h: (String, String)| (h.0@, h.1@)) == all,
                all == auth_headers(self@),
                ws_request_ok(url@),
                url@ == endpoint_url(ws_scheme(self@), self@, endpoint@),
                forall|j: int| 0 <= j < i ==> header_ok(#[trigger] all[j]),
            decreases hs@.len() - i,
        {
            assert(all[i as int] == (hs@[i as int].0@, hs@[i as int].1@));
            if !header_name_valid(hs[i].0.as_str()) {
                proof {
                    lemma_auth_headers_ok(self@);
                    assert(!header_ok(all[i as int]));
                }
                return Err(GradiumError::InvalidHeaderName { name: hs[i].0.clone() });
            }
            if !header_value_valid(hs[i].1.as_str()) {
                proof {
                    lemma_auth_headers_ok(self@);
                    assert(!header_ok(all[i as int]));
                }
                return Err(GradiumError::InvalidHeaderValue { name: hs[i].0.clone() });
            }
            i = i + 1;
        }
        proof {
            lemma_auth_headers_ok(self@);
        }
        Ok((url, hs))
    }
}

} // verus!
