//! The capability set shared by all transport variants.

use crate::codec::spec_parse_json;
use crate::types::response::spec_decode_response;
use crate::types::{KuzzleRequest, KuzzleResponse, QueryOptions, SdkError};
use vstd::prelude::*;

verus! {

/// What every transport offers: connect, send, close, a readiness query,
/// and the event-subscription capabilities declared for a future streaming
/// variant.
///
/// `ready` is the abstract connection state the contracts speak of.
pub trait Protocol: Sized {
    /// Whether the transport is `Ready` to send.
    spec fn ready(&self) -> bool;

    /// An event-subscription capability: an unimplemented obligation of
    /// both present variants, reported as an unsupported operation.
    fn once(&self) -> (r: Result<(), SdkError>)
        ensures
            r matches Err(e) && e@ is Unsupported,
    ;

    /// An event-subscription capability: an unimplemented obligation of
    /// both present variants, reported as an unsupported operation.
    fn listener_count(&self) -> (r: Result<(), SdkError>)
        ensures
            r matches Err(e) && e@ is Unsupported,
    ;

    /// Makes the transport `Ready`, probing reachability if it is not
    /// already: idempotent, and on failure the transport is unchanged.
    fn connect(&mut self) -> (r: Result<(), SdkError>)
        ensures
            old(self).ready() ==> (r matches Ok(()) && *final(self) == *old(self)),
            r matches Ok(()) ==> final(self).ready(),
            r matches Err(_) ==> *final(self) == *old(self),
    ;

    /// Resolves the descriptor into a wire call and decodes the reply;
    /// invoked while not `Ready`, it fails with the transport-not-ready
    /// error without attempting any network exchange. Whatever the network
    /// and the server answer, a success is a faithfully decoded envelope of
    /// a well-formed JSON reply.
    fn send(&self, req: KuzzleRequest, options: QueryOptions) -> (r: Result<
        KuzzleResponse,
        SdkError,
    >)
        ensures
            !self.ready() ==> (r matches Err(e) && e@ is NotReady),
            r matches Err(e) ==> !(e@ is Validation) && !(e@ is Precondition),
            r matches Ok(resp) ==> exists|reply: Seq<char>|
                {
                    &&& #[trigger] spec_parse_json(reply) matches Some(d)
                    &&& spec_decode_response(d) == Some(resp@)
                },
    ;

    /// Puts the transport `Offline`. Idempotent.
    fn close(&mut self)
        ensures
            !final(self).ready(),
    ;

    /// Whether the transport is `Ready`.
    fn is_ready(&self) -> (r: bool)
        ensures
            r == self.ready(),
    ;
}

} // verus!
