//! The transports: the capability set every variant offers, the HTTP
//! variant, and the streaming stub.

pub mod http;
pub mod protocol;
pub mod websocket;

pub use self::http::Http;
pub use self::http::Route;
pub use self::http::RouteTable;
pub use self::protocol::Protocol;
pub use self::websocket::Websocket;

use vstd::prelude::*;

verus! {

/// A transport's connection state: `Offline` until a connectivity probe
/// succeeds, `Ready` after, `Offline` again after an explicit close.
#[derive(PartialEq, Eq, Structural, Debug)]
pub enum State {
    Ready,
    Offline,
}

} // verus!
