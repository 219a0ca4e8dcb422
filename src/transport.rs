use crate::types::{prefixed, McpError, McpHttpHeader, McpServerConfig};
use vstd::prelude::*;
use vstd::string::StringExecFns;

verus! {

/// The channel that a configuration is served over.
#[derive(Debug, Clone, Copy, PartialEq, Eq, Structural)]
pub enum TransportKind {
    /// A spawned child process, spoken to over its standard input and output.
    Stdio,
    /// Streaming HTTP.
    Http,
}

/// A token character of HTTP (RFC 9110): what a header name is made of.
pub open spec fn is_token_char(c: char) -> bool {
    ||| ('a' <= c && c <= 'z')
    ||| ('A' <= c && c <= 'Z')
    ||| ('0' <= c && c <= '9')
    ||| c == '!' || c == '#' || c == '$' || c == '%' || c == '&' || c == '\''
    ||| c == '*' || c == '+' || c == '-' || c == '.' || c == '^' || c == '_'
    ||| c == '`' || c == '|' || c == '~'
}

/// A header name: one to 65535 token characters.
pub open spec fn valid_header_name(s: Seq<char>) -> bool {
    &&& 0 < s.len() <= 65535
    &&& forall|i: int| 0 <= i < s.len() ==> is_token_char(#[trigger] s[i])
}

/// A header value: no control character but horizontal tab.
pub open spec fn valid_header_value(s: Seq<char>) -> bool {
    forall|i: int|
        0 <= i < s.len() ==> (#[trigger] s[i] == '\t' || (s[i] as u32 >= 32 && s[i] as u32 != 127))
}

/// Both the name and the value of `h` parse.
pub open spec fn header_ok(h: McpHttpHeader) -> bool {
    valid_header_name(h.name@) && valid_header_value(h.value@)
}

/// Every header of `hs` parses.
pub open spec fn all_headers_ok(hs: Seq<McpHttpHeader>) -> bool {
    forall|i: int| 0 <= i < hs.len() ==> header_ok(#[trigger] hs[i])
}

/// The position of the first header of `hs` that does not parse.
pub open spec fn first_bad_header(hs: Seq<McpHttpHeader>) -> int {
    choose|i: int| 0 <= i < hs.len() && !header_ok(hs[i]) && forall|j: int| 0 <= j < i ==> header_ok(#[trigger] hs[j])
}

/// What is wrong with the header `h`.
pub open spec fn header_problem(h: McpHttpHeader) -> Seq<char> {
    if !valid_header_name(h.name@) {
        "invalid HTTP header name: "@ + h.name@
    } else {
        "invalid value for HTTP header "@ + h.name@
    }
}

/// The detail of the error for a server variant that this library cannot connect to.
pub open spec fn sse_unsupported() -> Seq<char> {
    "SSE transport is not supported; use the stdio or http transport"@
}

/// Relies on reqwest::header::HeaderName::from_bytes (from the http crate): it accepts a
/// name exactly when it has 1 to 65535 bytes, each a token character.
#[verifier::external_body]
fn header_name_parses(name: &str) -> (r: bool)
    ensures
        r == valid_header_name(name@),
{
    reqwest::header::HeaderName::from_bytes(name.as_bytes()).is_ok()
}

/// Relies on reqwest::header::HeaderValue::from_str (from the http crate): it accepts a
/// value exactly when no byte is below 32 but tab, and none is 127.
#[verifier::external_body]
fn header_value_parses(value: &str) -> (r: bool)
    ensures
        r == valid_header_value(value@),
{
    reqwest::header::HeaderValue::from_str(value).is_ok()
}

/// Checks that every header parses as HTTP header syntax; the error names the first one
/// that does not.
pub fn check_headers(headers: &Vec<McpHttpHeader>) -> (r: Result<(), McpError>)
    ensures
        r is Ok <==> all_headers_ok(headers@),
        r matches Err(e) ==> e matches McpError::TransportError(d) && d@ == header_problem(
            headers@[first_bad_header(headers@)],
        ),
{
    let mut i: usize = 0;
    while i < headers.len()
        invariant
            i <= headers@.len(),
            forall|j: int| 0 <= j < i ==> header_ok(#[trigger] headers@[j]),
        decreases headers@.len() - i,
    {
        let h = &headers[i];
        let name_ok = header_name_parses(h.name.as_str());
        let value_ok = header_value_parses(h.value.as_str());
        if !name_ok || !value_ok {
            proof {
                let k = first_bad_header(headers@);
                assert(0 <= i < headers@.len() && !header_ok(headers@[i as int]) && forall|j: int|
                    0 <= j < i ==> header_ok(#[trigger] headers@[j]));
                if k < i {
                    assert(header_ok(headers@[k]));
                } else if k > i {
                    assert(header_ok(headers@[i as int]));
                }
            }
            let detail = if !name_ok {
                prefixed("invalid HTTP header name: ", h.name.as_str())
            } else {
                prefixed("invalid value for HTTP header ", h.name.as_str())
            };
            return Err(McpError::TransportError(detail));
        }
        i = i + 1;
    }
    Ok(())
}

/// Decides how `config` is to be reached: stdio and HTTP servers are served (an HTTP
/// server only when all its headers parse), SSE servers are refused as a configuration
/// this library does not support.
pub fn plan_transport(config: &McpServerConfig) -> (r: Result<TransportKind, McpError>)
    ensures
        match config {
            McpServerConfig::Stdio { .. } => r == Ok::<TransportKind, McpError>(TransportKind::Stdio),
            McpServerConfig::Http { headers, .. } => if all_headers_ok(headers@) {
                r == Ok::<TransportKind, McpError>(TransportKind::Http)
            } else {
                r matches Err(McpError::TransportError(d)) && d@ == header_problem(
                    headers@[first_bad_header(headers@)],
                )
            },
            McpServerConfig::Sse { .. } => r matches Err(McpError::InvalidConfig(d)) && d@ == sse_unsupported(),
        },
{
    match config {
        McpServerConfig::Stdio { .. } => Ok(TransportKind::Stdio),
        McpServerConfig::Http { headers, .. } => {
            check_headers(headers)?;
            Ok(TransportKind::Http)
        },
        McpServerConfig::Sse { .. } => Err(
            McpError::InvalidConfig(
                String::from_str("SSE transport is not supported; use the stdio or http transport"),
            ),
        ),
    }
}

} // verus!
