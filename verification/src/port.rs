//! The port that the backend listens on.

use vstd::prelude::*;

verus! {

/// The port that is used when no free one could be found.
pub const DEFAULT_PORT: u16 = 5678;

/// The port that a search for a free one comes to: the one that was found,
/// or the default.
pub open spec fn chosen_port(picked: Option<u16>) -> u16 {
    match picked {
        Some(port) => port,
        None => DEFAULT_PORT,
    }
}

/// Calls `portpicker::pick_unused_port`, which tries random ports and then
/// asks the operating system for one that is free for TCP and UDP, and
/// gives up after a number of tries. Which port it finds, and whether it
/// finds one, depends on the machine, so nothing is claimed of the result.
#[verifier::external_body]
fn find_unused_port() -> (picked: Option<u16>) {
    portpicker::pick_unused_port()
}

/// Picks the port out of a search's result.
pub fn port_or_default(picked: Option<u16>) -> (port: u16)
    ensures
        port == chosen_port(picked),
{
    match picked {
        Some(port) => port,
        None => DEFAULT_PORT,
    }
}

/// Finds a local port for the backend. The search never fails: where no
/// free port is found the default is handed out.
pub fn pick_port() -> (port: u16) {
    port_or_default(find_unused_port())
}

} // verus!
