//! Configuration values handed to a transport at construction, and the
//! per-query options threaded through `query`.

use vstd::prelude::*;

verus! {

/// Mathematical model of a [`KuzzleOptions`].
pub struct OptionsData {
    pub host: Seq<char>,
    pub port: u16,
}

/// The host and port a transport dials.
#[derive(Debug)]
pub struct KuzzleOptions {
    host: String,
    port: u16,
}

impl View for KuzzleOptions {
    type V = OptionsData;

    closed spec fn view(&self) -> OptionsData {
        OptionsData { host: self.host@, port: self.port }
    }
}

impl KuzzleOptions {
    pub fn new(host: &str, port: u16) -> (r: KuzzleOptions)
        ensures
            r@.host == host@,
            r@.port == port,
    {
        KuzzleOptions { host: host.to_owned(), port }
    }

    pub fn host(&self) -> (r: &String)
        ensures
            r@ == self@.host,
    {
        &self.host
    }

    pub fn port(&self) -> (r: u16)
        ensures
            r == self@.port,
    {
        self.port
    }
}

/// Per-query options. The core enforces no timeout or retry policy itself,
/// so nothing is carried yet; the type keeps the `query` surface stable.
#[derive(Debug)]
pub struct QueryOptions {}

impl QueryOptions {
    pub fn new() -> (r: QueryOptions) {
        QueryOptions {}
    }
}

} // verus!
