//! The streaming transport stub: it carries the capability set so the set
//! is polymorphic over two variants, and every operation is an
//! unimplemented obligation.

use crate::protocols::protocol::Protocol;
use crate::protocols::State;
use crate::types::{KuzzleOptions, KuzzleRequest, KuzzleResponse, QueryOptions, SdkError};
use vstd::prelude::*;

verus! {

/// The streaming transport: declared for forward compatibility, with no
/// behavior in this design's scope.
#[derive(Debug)]
pub struct Websocket {
    options: KuzzleOptions,
    state: State,
}

impl Websocket {
    /// A streaming transport for the given host and port. It starts
    /// `Offline` and, being a stub, never becomes `Ready`.
    pub fn new(options: KuzzleOptions) -> (r: Websocket)
        ensures
            !r.ready(),
    {
        Websocket { options, state: State::Offline }
    }
}

impl Protocol for Websocket {
    closed spec fn ready(&self) -> bool {
        self.state == State::Ready
    }

    fn once(&self) -> (r: Result<(), SdkError>) {
        Err(SdkError::Unsupported { context: "Websocket::once".to_owned() })
    }

    fn listener_count(&self) -> (r: Result<(), SdkError>) {
        Err(SdkError::Unsupported { context: "Websocket::listener_count".to_owned() })
    }

    fn connect(&mut self) -> (r: Result<(), SdkError>) {
        if self.is_ready() {
            Ok(())
        } else {
            Err(SdkError::Unsupported { context: "Websocket::connect".to_owned() })
        }
    }

    fn send(&self, req: KuzzleRequest, options: QueryOptions) -> (r: Result<
        KuzzleResponse,
        SdkError,
    >) {
        if !self.is_ready() {
            Err(SdkError::NotReady)
        } else {
            Err(SdkError::Unsupported { context: "Websocket::send".to_owned() })
        }
    }

    fn close(&mut self) {
        self.state = State::Offline;
    }

    fn is_ready(&self) -> (r: bool) {
        match self.state {
            State::Ready => true,
            State::Offline => false,
        }
    }
}

} // verus!
