//! The client facade: owns one transport and one session credential slot,
//! and dispatches every operation descriptor through them.

use crate::controllers::{
    AuthController, BulkController, CollectionController, DocumentController, IndexController,
    MemoryStorageController, RealtimeController, SecurityController, ServerController,
};
use crate::protocols::Protocol;
use crate::types::request::{opt_or_empty, RequestData};
use crate::types::{KuzzleRequest, KuzzleResponse, QueryOptions, SdkError};
use vstd::prelude::*;

verus! {

/// The descriptor as the transport receives it: the session credential
/// fills the gap when the descriptor carries none, and a credential the
/// caller set explicitly is never overridden.
pub open spec fn with_session(req: RequestData, session: Seq<char>) -> RequestData {
    if opt_or_empty(req.jwt).len() == 0 && session.len() > 0 {
        RequestData { jwt: Some(session), ..req }
    } else {
        req
    }
}

/// The session credential always fills only the gap: a descriptor that
/// carries a credential keeps it, one that carries none takes the
/// session's, and no other field changes.
pub proof fn lemma_credential_precedence(req: RequestData, session: Seq<char>)
    ensures
        opt_or_empty(req.jwt).len() > 0 ==> with_session(req, session).jwt == req.jwt,
        opt_or_empty(req.jwt).len() == 0 && session.len() > 0 ==> with_session(req, session).jwt
            == Some(session),
        with_session(req, session) == (RequestData {
            jwt: with_session(req, session).jwt,
            ..req
        }),
{
}

/// Attaches the session credential to a descriptor that carries none, as
/// [`with_session`] says.
pub fn with_session_credential(req: KuzzleRequest, session: String) -> (r: KuzzleRequest)
    ensures
        r@ == with_session(req@, session@),
{
    if req.jwt().as_str().is_empty() && !session.as_str().is_empty() {
        req.set_jwt(session)
    } else {
        req
    }
}

/// The client facade: one transport, chosen at construction, and one
/// session credential slot.
pub struct Kuzzle<P: Protocol> {
    protocol: P,
    jwt: Option<String>,
}

impl<P: Protocol> Kuzzle<P> {
    /// The session credential, the empty sequence when none is held.
    pub closed spec fn jwt_spec(&self) -> Seq<char> {
        match self.jwt {
            Some(s) => s@,
            None => Seq::empty(),
        }
    }

    /// Whether the owned transport is ready.
    pub closed spec fn protocol_ready(&self) -> bool {
        self.protocol.ready()
    }

    /// A facade over the given transport, with an empty session.
    pub fn new(protocol: P) -> (r: Kuzzle<P>)
        ensures
            r.jwt_spec() == Seq::<char>::empty(),
            r.protocol_ready() == protocol.ready(),
    {
        Kuzzle { protocol, jwt: None }
    }

    /// Delegates to the transport; a no-op when it is already ready.
    pub fn connect(&mut self) -> (r: Result<(), SdkError>)
        ensures
            old(self).protocol_ready() ==> (r matches Ok(()) && *final(self) == *old(self)),
            r matches Ok(()) ==> final(self).protocol_ready(),
            r matches Err(_) ==> *final(self) == *old(self),
            final(self).jwt_spec() == old(self).jwt_spec(),
    {
        if self.protocol.is_ready() {
            return Ok(());
        }
        self.protocol.connect()
    }

    /// Dispatches the descriptor through the transport, first filling an
    /// absent descriptor credential from the session. A success is a
    /// faithfully decoded envelope of a well-formed JSON reply.
    pub fn query(&self, req: KuzzleRequest, options: QueryOptions) -> (r: Result<
        KuzzleResponse,
        SdkError,
    >)
        ensures
            !self.protocol_ready() ==> (r matches Err(e) && e@ is NotReady),
            r matches Err(e) ==> !(e@ is Validation) && !(e@ is Precondition),
            r matches Ok(resp) ==> exists|reply: Seq<char>|
                {
                    &&& #[trigger] crate::codec::spec_parse_json(reply) matches Some(d)
                    &&& crate::types::response::spec_decode_response(d) == Some(resp@)
                },
    {
        let request = with_session_credential(req, self.jwt());
        self.protocol.send(request, options)
    }

    /// The session credential, or the empty string.
    pub fn jwt(&self) -> (r: String)
        ensures
            r@ == self.jwt_spec(),
    {
        match &self.jwt {
            Some(jwt) => jwt.clone(),
            None => String::new(),
        }
    }

    /// Replaces the session credential; the empty string is the documented
    /// way to clear it.
    pub fn set_jwt(&mut self, jwt: String)
        ensures
            final(self).jwt_spec() == jwt@,
            final(self).protocol_ready() == old(self).protocol_ready(),
    {
        self.jwt = Some(jwt);
    }

    /// The authentication operations.
    pub fn auth(&mut self) -> AuthController {
        AuthController
    }

    /// The bulk operations.
    pub fn bulk(&mut self) -> BulkController {
        BulkController
    }

    /// The collection operations.
    pub fn collection(&mut self) -> CollectionController {
        CollectionController
    }

    /// The document operations.
    pub fn document(&mut self) -> DocumentController {
        DocumentController
    }

    /// The index operations.
    pub fn index(&mut self) -> IndexController {
        IndexController
    }

    /// The memory storage operations.
    pub fn ms(&mut self) -> MemoryStorageController {
        MemoryStorageController
    }

    /// The realtime operations.
    pub fn realtime(&mut self) -> RealtimeController {
        RealtimeController
    }

    /// The security operations.
    pub fn security(&mut self) -> SecurityController {
        SecurityController
    }

    /// The server information operations.
    pub fn server(&mut self) -> ServerController {
        ServerController
    }
}

} // verus!
