//! The addresses under which the backend is reached.

use crate::port::DEFAULT_PORT;
use crate::text::{decimal_digits, decimal_text};
use vstd::prelude::*;
use vstd::string::*;

verus! {

/// The text of the address of a backend that listens on `port`.
pub open spec fn server_url_text(port: nat) -> Seq<char> {
    "http://localhost:"@ + decimal_digits(port)
}

/// The text of the address that is handed out while no backend is known.
pub open spec fn placeholder_url_text() -> Seq<char> {
    "http://localhost:5678"@
}

/// The text of the health endpoint below the address `base`.
pub open spec fn health_url_text(base: Seq<char>) -> Seq<char> {
    base + "/healthz"@
}

/// The placeholder is the address of a backend on the default port.
pub proof fn lemma_placeholder_is_default_address()
    ensures
        placeholder_url_text() == server_url_text(DEFAULT_PORT as nat),
{
    reveal_strlit("http://localhost:5678");
    reveal_strlit("http://localhost:");
    reveal_with_fuel(decimal_digits, 5);
}

/// Addresses of different ports differ.
pub proof fn lemma_server_url_injective(a: nat, b: nat)
    requires
        server_url_text(a) == server_url_text(b),
    ensures
        a == b,
{
    let prefix = "http://localhost:"@;
    let n = prefix.len() as int;
    assert(server_url_text(a).subrange(n, server_url_text(a).len() as int) =~= decimal_digits(a));
    assert(server_url_text(b).subrange(n, server_url_text(b).len() as int) =~= decimal_digits(b));
    crate::text::lemma_decimal_injective(a, b);
}

/// The address of a backend that listens on `port` on this machine.
pub fn server_url(port: u16) -> (url: String)
    ensures
        url@ == server_url_text(port as nat),
{
    let mut url = String::from_str("http://localhost:");
    let digits = decimal_text(port as u64);
    url.append(digits.as_str());
    url
}

/// The address that is handed out while no backend is known.
pub fn placeholder_url() -> (url: String)
    ensures
        url@ == placeholder_url_text(),
{
    String::from_str("http://localhost:5678")
}

/// The address of the health endpoint of the backend at `base`.
pub fn health_url(base: &str) -> (url: String)
    ensures
        url@ == health_url_text(base@),
{
    let mut url = String::from_str(base);
    url.append("/healthz");
    url
}

} // verus!
