//! The fixed wire-level messages of the handshake.
//!
//! Every session sends exactly one outbound message, the authentication
//! payload, and connects to a fixed document endpoint whose only variable
//! part is the caller-supplied `host:port`.

use vstd::prelude::*;

verus! {

/// The characters of the authentication payload: a JSON object with a
/// `type` field valued `auth` and a `token` field holding the fixed
/// placeholder token.
pub open spec fn auth_payload() -> Seq<char> {
    "{\"type\": \"auth\", \"token\": \"token\"}"@
}

/// The authentication message. Every call returns the same characters, so
/// the message each session sends is byte-identical across sessions.
pub fn auth_message() -> (r: String)
    ensures
        r@ == auth_payload(),
{
    String::from_str("{\"type\": \"auth\", \"token\": \"token\"}")
}

/// The characters of the connection target for a given `host:port`: the
/// fixed scheme, document endpoint path and query around the address.
pub open spec fn target_of(addr: Seq<char>) -> Seq<char> {
    "ws://"@ + addr + "/v1/doc?docId=doc"@
}

/// The connection target string for a given `host:port` address.
pub fn target_url(addr: &str) -> (r: String)
    ensures
        r@ == target_of(addr@),
{
    let mut s = String::from_str("ws://");
    s.append(addr);
    s.append("/v1/doc?docId=doc");
    s
}

/// Relies on `url::Url` as the type of a parsed endpoint. The library only
/// carries such a value through to the driver; nothing inside it is read.
#[verifier::external_type_specification]
#[verifier::external_body]
pub struct ExUrl(url::Url);

/// Whether the URL parser accepts the given characters as an absolute URL.
/// The outcome depends on the characters alone.
pub uninterp spec fn url_accepts(s: Seq<char>) -> bool;

/// Relies on `url::Url::parse`: it parses an absolute URL from the string
/// and returns an error when the string is not one; the outcome is a
/// function of the string alone.
#[verifier::external_body]
fn parse_url(s: &str) -> (r: Option<url::Url>)
    ensures
        r is Some <==> url_accepts(s@),
{
    url::Url::parse(s).ok()
}

/// The parsed connection target for a `host:port` address: the fixed
/// document endpoint around the address, parsed as an absolute URL. An
/// empty address is rejected outright; a malformed one is rejected by the
/// parser.
pub fn connect_target(addr: &str) -> (r: Option<url::Url>)
    ensures
        r is Some <==> (addr@.len() > 0 && url_accepts(target_of(addr@))),
{
    if addr.is_empty() {
        return None;
    }
    let s = target_url(addr);
    parse_url(s.as_str())
}

} // verus!
