//! The holder of the backend's address.

use crate::address::{placeholder_url, placeholder_url_text};
use vstd::prelude::*;

verus! {

/// Holds the address of the backend once it is known. It is written by the
/// startup sequence and read by client queries; before it is written, a
/// query is answered with the placeholder.
#[derive(Debug)]
pub struct ServerRegistry {
    url: Option<String>,
}

/// The address that a query is answered with.
pub open spec fn current_url_text(held: Option<Seq<char>>) -> Seq<char> {
    match held {
        Some(url) => url,
        None => placeholder_url_text(),
    }
}

impl View for ServerRegistry {
    type V = Option<Seq<char>>;

    closed spec fn view(&self) -> Option<Seq<char>> {
        match self.url {
            Some(url) => Some(url@),
            None => None,
        }
    }
}

impl ServerRegistry {
    /// A registry that holds no address yet.
    pub fn new() -> (registry: ServerRegistry)
        ensures
            registry@ is None,
    {
        ServerRegistry { url: None }
    }

    /// Stores `url`; an address stored before is replaced.
    pub fn set(&mut self, url: String)
        ensures
            final(self)@ == Some(url@),
    {
        self.url = Some(url);
    }

    /// Whether an address has been stored.
    pub fn is_set(&self) -> (b: bool)
        ensures
            b == (self@ is Some),
    {
        self.url.is_some()
    }

    /// The stored address, or the placeholder where none is stored.
    pub fn get(&self) -> (url: String)
        ensures
            url@ == current_url_text(self@),
    {
        match &self.url {
            Some(url) => url.clone(),
            None => placeholder_url(),
        }
    }
}

/// Answers a client's query for the backend's address. The query never
/// fails.
pub fn get_server_url(registry: &ServerRegistry) -> (r: Result<String, String>)
    ensures
        r matches Ok(url) && url@ == current_url_text(registry@),
{
    Ok(registry.get())
}

} // verus!
