//! What the server is started with.
use crate::text::{decimal, u16_text};
use vstd::prelude::*;

verus! {

/// The public base URL of the application, shared with the request handlers.
pub struct ApplicationBaseUrl(pub String);

/// The address the server listens on: `host:port`.
pub fn listen_address(host: &str, port: u16) -> (r: String)
    ensures
        r@ == host@ + seq![':'] + decimal(port as nat),
{
    let mut r = host.to_string();
    r.append(":");
    proof {
        reveal_strlit(":");
    }
    let p = u16_text(port);
    r.append(p.as_str());
    r
}

} // verus!
