//! The authentication operations: thin callers of the facade that validate
//! their arguments, require a session where one is needed, build one
//! descriptor, and extract the typed result from the reply envelope.
//!
//! What each operation makes of an envelope is a public function of the
//! envelope alone (`login_result`, `exist_result`, ...), with an exact
//! contract: a populated envelope error surfaces as that server error, an
//! error-free envelope yields the decoded result, and any other shape is a
//! decode failure. The operation itself validates, dispatches, and hands
//! the envelope to its extraction function.

use crate::json::{map_get, JsonData, JsonMap, JsonValue};
use crate::kuzzle::Kuzzle;
use crate::protocols::Protocol;
use crate::types::errors::ErrorData;
use crate::types::response::KuzzleResponse;
use crate::types::token_validity::spec_decode_token_validity;
use crate::types::user::{decode_strings, spec_decode_strings, spec_decode_user};
use crate::types::user_right::{decode_rights, spec_decode_rights};
use crate::types::{KuzzleRequest, QueryOptions, SdkError, TokenValidity, User, UserRight};
use vstd::prelude::*;

verus! {

/// The authentication operations. Each takes the facade it dispatches
/// through as an explicit argument.
pub struct AuthController;

/// A validation error for `context`.
fn validation(context: &str, message: &str) -> (e: SdkError)
    ensures
        e@ == (ErrorData::Validation { context: context@, message: message@ }),
{
    SdkError::Validation { context: context.to_owned(), message: message.to_owned() }
}

/// The precondition error raised when an authenticated operation is
/// invoked without a session credential.
fn not_logged_in(context: &str) -> (e: SdkError)
    ensures
        e@ == (ErrorData::Precondition {
            context: context@,
            message: "You need to be logged in to use this function."@,
        }),
{
    SdkError::Precondition {
        context: context.to_owned(),
        message: "You need to be logged in to use this function.".to_owned(),
    }
}

/// A decode failure for a reply whose result payload has another shape
/// than the operation expects.
fn unexpected_result() -> (e: SdkError)
    ensures
        e@ is Decode,
{
    SdkError::Decode { message: "the result payload has an unexpected shape".to_owned() }
}

/// The string the result payload binds to `jwt`, if it is an object
/// binding one.
pub open spec fn spec_result_jwt(d: JsonData) -> Option<Seq<char>> {
    match d {
        JsonData::Obj(es) => match map_get(es, "jwt"@) {
            Some(JsonData::Str(t)) => Some(t),
            _ => None,
        },
        _ => None,
    }
}

/// The boolean the result payload binds to `acknowledged`, if it is an
/// object binding one.
pub open spec fn spec_result_acknowledged(d: JsonData) -> Option<bool> {
    match d {
        JsonData::Obj(es) => match map_get(es, "acknowledged"@) {
            Some(JsonData::Bool(b)) => Some(b),
            _ => None,
        },
        _ => None,
    }
}

/// The array the result payload binds to `hits`, if it is an object
/// binding one.
pub open spec fn spec_result_hits(d: JsonData) -> Option<Seq<JsonData>> {
    match d {
        JsonData::Obj(es) => match map_get(es, "hits"@) {
            Some(JsonData::Arr(items)) => Some(items),
            _ => None,
        },
        _ => None,
    }
}

/// What the token check makes of an envelope: the server's error when one
/// is populated, else the token validity decoded from the result.
pub fn check_token_result(resp: &KuzzleResponse) -> (r: Result<TokenValidity, SdkError>)
    ensures
        resp@.error matches Some(ed) ==> (r matches Err(e) && e@ == ErrorData::Server(ed)),
        resp@.error is None ==> (match spec_decode_token_validity(resp@.result) {
            Some(td) => (r matches Ok(t) && t@ == td),
            None => (r matches Err(e) && e@ is Decode),
        }),
{
    match resp.error() {
        None => TokenValidity::from_json(resp.result()),
        Some(k_err) => Err(SdkError::Server(k_err.duplicate())),
    }
}

/// What a login makes of an envelope: the server's error when one is
/// populated, else exactly the string the result binds to `jwt`.
pub fn login_result(resp: &KuzzleResponse) -> (r: Result<String, SdkError>)
    ensures
        resp@.error matches Some(ed) ==> (r matches Err(e) && e@ == ErrorData::Server(ed)),
        resp@.error is None ==> (match spec_result_jwt(resp@.result) {
            Some(t) => (r matches Ok(s) && s@ == t),
            None => (r matches Err(e) && e@ is Decode),
        }),
{
    match resp.error() {
        None => match resp.result().get("jwt") {
            Some(v) => match v.as_str() {
                Some(s) => Ok(s.clone()),
                None => Err(unexpected_result()),
            },
            None => Err(unexpected_result()),
        },
        Some(k_err) => Err(SdkError::Server(k_err.duplicate())),
    }
}

/// What the credentials-exist check makes of an envelope: the server's
/// error when one is populated, else exactly the envelope's boolean result.
pub fn exist_result(resp: &KuzzleResponse) -> (r: Result<bool, SdkError>)
    ensures
        resp@.error matches Some(ed) ==> (r matches Err(e) && e@ == ErrorData::Server(ed)),
        resp@.error is None ==> (match resp@.result {
            JsonData::Bool(b) => (r matches Ok(rb) && rb == b),
            _ => (r matches Err(e) && e@ is Decode),
        }),
{
    match resp.error() {
        None => match resp.result().as_bool() {
            Some(b) => Ok(b),
            None => Err(unexpected_result()),
        },
        Some(k_err) => Err(SdkError::Server(k_err.duplicate())),
    }
}

/// What the credential deletion makes of an envelope: the server's error
/// when one is populated, else exactly the boolean the result binds to
/// `acknowledged`.
pub fn acknowledged_result(resp: &KuzzleResponse) -> (r: Result<bool, SdkError>)
    ensures
        resp@.error matches Some(ed) ==> (r matches Err(e) && e@ == ErrorData::Server(ed)),
        resp@.error is None ==> (match spec_result_acknowledged(resp@.result) {
            Some(b) => (r matches Ok(rb) && rb == b),
            None => (r matches Err(e) && e@ is Decode),
        }),
{
    match resp.error() {
        None => match resp.result().get("acknowledged") {
            Some(v) => match v.as_bool() {
                Some(b) => Ok(b),
                None => Err(unexpected_result()),
            },
            None => Err(unexpected_result()),
        },
        Some(k_err) => Err(SdkError::Server(k_err.duplicate())),
    }
}

/// What the credential operations make of an envelope: the server's error
/// when one is populated, else exactly the envelope's result object.
pub fn credentials_result(resp: &KuzzleResponse) -> (r: Result<JsonMap, SdkError>)
    ensures
        resp@.error matches Some(ed) ==> (r matches Err(e) && e@ == ErrorData::Server(ed)),
        resp@.error is None ==> (match resp@.result {
            JsonData::Obj(es) => (r matches Ok(m) && m@ == es),
            _ => (r matches Err(e) && e@ is Decode),
        }),
{
    match resp.error() {
        None => match resp.result().as_object() {
            Some(m) => Ok(m.duplicate()),
            None => Err(unexpected_result()),
        },
        Some(k_err) => Err(SdkError::Server(k_err.duplicate())),
    }
}

/// What the current-user fetch makes of an envelope: the server's error
/// when one is populated, else the user decoded from the result.
pub fn user_result(resp: &KuzzleResponse) -> (r: Result<User, SdkError>)
    ensures
        resp@.error matches Some(ed) ==> (r matches Err(e) && e@ == ErrorData::Server(ed)),
        resp@.error is None ==> (match spec_decode_user(resp@.result) {
            Some(ud) => (r matches Ok(u) && u@ == ud),
            None => (r matches Err(e) && e@ is Decode),
        }),
{
    match resp.error() {
        None => User::from_json(resp.result()),
        Some(k_err) => Err(SdkError::Server(k_err.duplicate())),
    }
}

/// What the strategies listing makes of an envelope: the server's error
/// when one is populated, else exactly the result's strings, in order.
pub fn strategies_result(resp: &KuzzleResponse) -> (r: Result<Vec<String>, SdkError>)
    ensures
        resp@.error matches Some(ed) ==> (r matches Err(e) && e@ == ErrorData::Server(ed)),
        resp@.error is None ==> (match resp@.result {
            JsonData::Arr(items) => (match spec_decode_strings(items) {
                Some(ss) => (match r {
                    Ok(v) => v@.len() == ss.len() && (forall|i: int|
                        0 <= i < v@.len() ==> v@[i]@ == ss[i]),
                    Err(_) => false,
                }),
                None => (r matches Err(e) && e@ is Decode),
            }),
            _ => (r matches Err(e) && e@ is Decode),
        }),
{
    match resp.error() {
        None => match resp.result().as_array() {
            Some(items) => decode_strings(items),
            None => Err(unexpected_result()),
        },
        Some(k_err) => Err(SdkError::Server(k_err.duplicate())),
    }
}

/// What the rights listing makes of an envelope: the server's error when
/// one is populated, else exactly the rights decoded from the result's
/// `hits` array, complete and in order.
pub fn rights_result(resp: &KuzzleResponse) -> (r: Result<Vec<UserRight>, SdkError>)
    ensures
        resp@.error matches Some(ed) ==> (r matches Err(e) && e@ == ErrorData::Server(ed)),
        resp@.error is None ==> (match spec_result_hits(resp@.result) {
            Some(items) => (match spec_decode_rights(items) {
                Some(rs) => (match r {
                    Ok(v) => v@.len() == rs.len() && (forall|i: int|
                        0 <= i < v@.len() ==> v@[i]@ == rs[i]),
                    Err(_) => false,
                }),
                None => (r matches Err(e) && e@ is Decode),
            }),
            None => (r matches Err(e) && e@ is Decode),
        }),
{
    match resp.error() {
        None => match resp.result().get("hits") {
            Some(v) => match v.as_array() {
                Some(items) => decode_rights(items),
                None => Err(unexpected_result()),
            },
            None => Err(unexpected_result()),
        },
        Some(k_err) => Err(SdkError::Server(k_err.duplicate())),
    }
}

/// What the logout makes of an envelope: the server's error when one is
/// populated, else plain success; the result payload carries nothing.
pub fn logout_result(resp: &KuzzleResponse) -> (r: Result<(), SdkError>)
    ensures
        resp@.error matches Some(ed) ==> (r matches Err(e) && e@ == ErrorData::Server(ed)),
        resp@.error is None ==> r matches Ok(()),
{
    match resp.error() {
        None => Ok(()),
        Some(k_err) => Err(SdkError::Server(k_err.duplicate())),
    }
}

impl AuthController {
    /// Asks the server whether `token` is valid.
    pub fn check_token<P: Protocol>(k: &Kuzzle<P>, token: &str) -> (r: Result<
        TokenValidity,
        SdkError,
    >)
        ensures
            (r matches Err(e) && e@ is Validation) <==> token@.len() == 0,
            token@.len() == 0 ==> (r matches Err(e) && e@ == (ErrorData::Validation {
                context: "AuthController::check_token"@,
                message: "token argument must not be empty."@,
            })),
            token@.len() > 0 && !k.protocol_ready() ==> (r matches Err(e) && e@ is NotReady),
            r matches Err(e) ==> !(e@ is Precondition),
    {
        if token.is_empty() {
            return Err(
                validation("AuthController::check_token", "token argument must not be empty."),
            );
        }
        let req = KuzzleRequest::new("auth", "checkToken").add_to_body(
            "token",
            JsonValue::Str(token.to_owned()),
        );
        match k.query(req, QueryOptions::new()) {
            Ok(resp) => check_token_result(&resp),
            Err(e) => Err(e),
        }
    }

    /// Creates credentials of `strategy` for the authenticated user.
    pub fn create_my_credentials<P: Protocol>(
        k: &Kuzzle<P>,
        strategy: &str,
        username: &str,
        password: &str,
    ) -> (r: Result<JsonMap, SdkError>)
        ensures
            (r matches Err(e) && e@ is Validation) <==> (strategy@.len() == 0 || username@.len()
                == 0 || password@.len() == 0),
            (strategy@.len() == 0 || username@.len() == 0 || password@.len() == 0) ==> (
            r matches Err(e) && e@ == (ErrorData::Validation {
                context: "AuthController::create_my_credentials"@,
                message: "strategy, username and password arguments must not be empty."@,
            })),
            (r matches Err(e) && e@ is Precondition) <==> (strategy@.len() > 0 && username@.len()
                > 0 && password@.len() > 0 && k.jwt_spec().len() == 0),
            (strategy@.len() > 0 && username@.len() > 0 && password@.len() > 0 && k.jwt_spec().len()
                == 0) ==> (r matches Err(e) && e@ == (ErrorData::Precondition {
                context: "AuthController::create_my_credentials"@,
                message: "You need to be logged in to use this function."@,
            })),
            strategy@.len() > 0 && username@.len() > 0 && password@.len() > 0 && k.jwt_spec().len()
                > 0 && !k.protocol_ready() ==> (r matches Err(e) && e@ is NotReady),
    {
        if strategy.is_empty() || username.is_empty() || password.is_empty() {
            return Err(
                validation(
                    "AuthController::create_my_credentials",
                    "strategy, username and password arguments must not be empty.",
                ),
            );
        }
        if k.jwt().as_str().is_empty() {
            return Err(not_logged_in("AuthController::create_my_credentials"));
        }
        let req = KuzzleRequest::new("auth", "createMyCredentials").set_strategy(
            strategy,
        ).add_to_body("username", JsonValue::Str(username.to_owned())).add_to_body(
            "password",
            JsonValue::Str(password.to_owned()),
        );
        match k.query(req, QueryOptions::new()) {
            Ok(resp) => credentials_result(&resp),
            Err(e) => Err(e),
        }
    }

    /// Asks whether the authenticated user has credentials of `strategy`.
    pub fn credentials_exist<P: Protocol>(k: &Kuzzle<P>, strategy: &str) -> (r: Result<
        bool,
        SdkError,
    >)
        ensures
            (r matches Err(e) && e@ is Validation) <==> strategy@.len() == 0,
            strategy@.len() == 0 ==> (r matches Err(e) && e@ == (ErrorData::Validation {
                context: "AuthController::credentials_exist"@,
                message: "strategy argument must not be empty."@,
            })),
            (r matches Err(e) && e@ is Precondition) <==> (strategy@.len() > 0 && k.jwt_spec().len()
                == 0),
            (strategy@.len() > 0 && k.jwt_spec().len() == 0) ==> (r matches Err(e) && e@
                == (ErrorData::Precondition {
                context: "AuthController::credentials_exist"@,
                message: "You need to be logged in to use this function."@,
            })),
            strategy@.len() > 0 && k.jwt_spec().len() > 0 && !k.protocol_ready() ==> (
            r matches Err(e) && e@ is NotReady),
    {
        if strategy.is_empty() {
            return Err(
                validation(
                    "AuthController::credentials_exist",
                    "strategy argument must not be empty.",
                ),
            );
        }
        if k.jwt().as_str().is_empty() {
            return Err(not_logged_in("AuthController::credentials_exist"));
        }
        let req = KuzzleRequest::new("auth", "credentialsExist").set_strategy(strategy);
        match k.query(req, QueryOptions::new()) {
            Ok(resp) => exist_result(&resp),
            Err(e) => Err(e),
        }
    }

    /// Deletes the authenticated user's credentials of `strategy`.
    pub fn delete_my_credentials<P: Protocol>(k: &Kuzzle<P>, strategy: &str) -> (r: Result<
        bool,
        SdkError,
    >)
        ensures
            (r matches Err(e) && e@ is Validation) <==> strategy@.len() == 0,
            strategy@.len() == 0 ==> (r matches Err(e) && e@ == (ErrorData::Validation {
                context: "AuthController::delete_my_credentials"@,
                message: "strategy argument must not be empty."@,
            })),
            (r matches Err(e) && e@ is Precondition) <==> (strategy@.len() > 0 && k.jwt_spec().len()
                == 0),
            (strategy@.len() > 0 && k.jwt_spec().len() == 0) ==> (r matches Err(e) && e@
                == (ErrorData::Precondition {
                context: "AuthController::delete_my_credentials"@,
                message: "You need to be logged in to use this function."@,
            })),
            strategy@.len() > 0 && k.jwt_spec().len() > 0 && !k.protocol_ready() ==> (
            r matches Err(e) && e@ is NotReady),
    {
        if strategy.is_empty() {
            return Err(
                validation(
                    "AuthController::delete_my_credentials",
                    "strategy argument must not be empty.",
                ),
            );
        }
        if k.jwt().as_str().is_empty() {
            return Err(not_logged_in("AuthController::delete_my_credentials"));
        }
        let req = KuzzleRequest::new("auth", "deleteMyCredentials").set_strategy(strategy);
        match k.query(req, QueryOptions::new()) {
            Ok(resp) => acknowledged_result(&resp),
            Err(e) => Err(e),
        }
    }

    /// Fetches the authenticated user.
    pub fn get_current_user<P: Protocol>(k: &Kuzzle<P>, strategy: &str) -> (r: Result<
        User,
        SdkError,
    >)
        ensures
            (r matches Err(e) && e@ is Validation) <==> strategy@.len() == 0,
            strategy@.len() == 0 ==> (r matches Err(e) && e@ == (ErrorData::Validation {
                context: "AuthController::get_current_user"@,
                message: "strategy argument must not be empty."@,
            })),
            (r matches Err(e) && e@ is Precondition) <==> (strategy@.len() > 0 && k.jwt_spec().len()
                == 0),
            (strategy@.len() > 0 && k.jwt_spec().len() == 0) ==> (r matches Err(e) && e@
                == (ErrorData::Precondition {
                context: "AuthController::get_current_user"@,
                message: "You need to be logged in to use this function."@,
            })),
            strategy@.len() > 0 && k.jwt_spec().len() > 0 && !k.protocol_ready() ==> (
            r matches Err(e) && e@ is NotReady),
    {
        if strategy.is_empty() {
            return Err(
                validation(
                    "AuthController::get_current_user",
                    "strategy argument must not be empty.",
                ),
            );
        }
        if k.jwt().as_str().is_empty() {
            return Err(not_logged_in("AuthController::get_current_user"));
        }
        let req = KuzzleRequest::new("auth", "getCurrentUser").set_strategy(strategy);
        match k.query(req, QueryOptions::new()) {
            Ok(resp) => user_result(&resp),
            Err(e) => Err(e),
        }
    }

    /// Fetches the authenticated user's credentials of `strategy`.
    pub fn get_my_credentials<P: Protocol>(k: &Kuzzle<P>, strategy: &str) -> (r: Result<
        JsonMap,
        SdkError,
    >)
        ensures
            (r matches Err(e) && e@ is Validation) <==> strategy@.len() == 0,
            strategy@.len() == 0 ==> (r matches Err(e) && e@ == (ErrorData::Validation {
                context: "AuthController::get_my_credentials"@,
                message: "strategy argument must not be empty."@,
            })),
            (r matches Err(e) && e@ is Precondition) <==> (strategy@.len() > 0 && k.jwt_spec().len()
                == 0),
            (strategy@.len() > 0 && k.jwt_spec().len() == 0) ==> (r matches Err(e) && e@
                == (ErrorData::Precondition {
                context: "AuthController::get_my_credentials"@,
                message: "You need to be logged in to use this function."@,
            })),
            strategy@.len() > 0 && k.jwt_spec().len() > 0 && !k.protocol_ready() ==> (
            r matches Err(e) && e@ is NotReady),
    {
        if strategy.is_empty() {
            return Err(
                validation(
                    "AuthController::get_my_credentials",
                    "strategy argument must not be empty.",
                ),
            );
        }
        if k.jwt().as_str().is_empty() {
            return Err(not_logged_in("AuthController::get_my_credentials"));
        }
        let req = KuzzleRequest::new("auth", "getMyCredentials").set_strategy(strategy);
        match k.query(req, QueryOptions::new()) {
            Ok(resp) => credentials_result(&resp),
            Err(e) => Err(e),
        }
    }

    /// Lists the authenticated user's rights.
    pub fn get_my_rights<P: Protocol>(k: &Kuzzle<P>, strategy: &str) -> (r: Result<
        Vec<UserRight>,
        SdkError,
    >)
        ensures
            (r matches Err(e) && e@ is Validation) <==> strategy@.len() == 0,
            strategy@.len() == 0 ==> (r matches Err(e) && e@ == (ErrorData::Validation {
                context: "AuthController::get_my_rights"@,
                message: "strategy argument must not be empty."@,
            })),
            (r matches Err(e) && e@ is Precondition) <==> (strategy@.len() > 0 && k.jwt_spec().len()
                == 0),
            (strategy@.len() > 0 && k.jwt_spec().len() == 0) ==> (r matches Err(e) && e@
                == (ErrorData::Precondition {
                context: "AuthController::get_my_rights"@,
                message: "You need to be logged in to use this function."@,
            })),
            strategy@.len() > 0 && k.jwt_spec().len() > 0 && !k.protocol_ready() ==> (
            r matches Err(e) && e@ is NotReady),
    {
        if strategy.is_empty() {
            return Err(
                validation("AuthController::get_my_rights", "strategy argument must not be empty."),
            );
        }
        if k.jwt().as_str().is_empty() {
            return Err(not_logged_in("AuthController::get_my_rights"));
        }
        let req = KuzzleRequest::new("auth", "getMyRights").set_strategy(strategy);
        match k.query(req, QueryOptions::new()) {
            Ok(resp) => rights_result(&resp),
            Err(e) => Err(e),
        }
    }

    /// Lists the authentication strategies the server offers.
    pub fn get_strategies<P: Protocol>(k: &Kuzzle<P>) -> (r: Result<Vec<String>, SdkError>)
        ensures
            !k.protocol_ready() ==> (r matches Err(e) && e@ is NotReady),
            r matches Err(e) ==> !(e@ is Validation) && !(e@ is Precondition),
    {
        let req = KuzzleRequest::new("auth", "getStrategies");
        match k.query(req, QueryOptions::new()) {
            Ok(resp) => strategies_result(&resp),
            Err(e) => Err(e),
        }
    }

    /// Authenticates against `strategy` and stores the granted credential
    /// in the session.
    pub fn login<P: Protocol>(
        k: &mut Kuzzle<P>,
        strategy: &str,
        username: &str,
        password: &str,
    ) -> (r: Result<String, SdkError>)
        ensures
            (r matches Err(e) && e@ is Validation) <==> (strategy@.len() == 0 || username@.len()
                == 0 || password@.len() == 0),
            (strategy@.len() == 0 || username@.len() == 0 || password@.len() == 0) ==> (
            r matches Err(e) && e@ == (ErrorData::Validation {
                context: "AuthController::login"@,
                message: "strategy, username and password arguments must not be empty."@,
            })),
            strategy@.len() > 0 && username@.len() > 0 && password@.len() > 0 && !old(
                k,
            ).protocol_ready() ==> (r matches Err(e) && e@ is NotReady),
            r matches Err(e) ==> !(e@ is Precondition),
            r matches Ok(token) ==> final(k).jwt_spec() == token@,
            r matches Err(_) ==> *final(k) == *old(k),
    {
        if strategy.is_empty() || username.is_empty() || password.is_empty() {
            return Err(
                validation(
                    "AuthController::login",
                    "strategy, username and password arguments must not be empty.",
                ),
            );
        }
        let req = KuzzleRequest::new("auth", "login").set_strategy(strategy).add_to_body(
            "username",
            JsonValue::Str(username.to_owned()),
        ).add_to_body("password", JsonValue::Str(password.to_owned()));
        let response = match k.query(req, QueryOptions::new()) {
            Ok(resp) => resp,
            Err(e) => {
                return Err(e);
            },
        };
        match login_result(&response) {
            Ok(token) => {
                k.set_jwt(token);
                Ok(k.jwt())
            },
            Err(e) => Err(e),
        }
    }

    /// Revokes the session credential on the server and clears it locally.
    pub fn logout<P: Protocol>(k: &mut Kuzzle<P>) -> (r: Result<(), SdkError>)
        ensures
            (r matches Err(e) && e@ is Precondition) <==> old(k).jwt_spec().len() == 0,
            old(k).jwt_spec().len() == 0 ==> (r matches Err(e) && e@ == (ErrorData::Precondition {
                context: "AuthController::logout"@,
                message: "You need to be logged in to use this function."@,
            })),
            old(k).jwt_spec().len() > 0 && !old(k).protocol_ready() ==> (r matches Err(e) && e@
                is NotReady),
            r matches Err(e) ==> !(e@ is Validation),
            r matches Ok(()) ==> final(k).jwt_spec() == Seq::<char>::empty(),
            r matches Err(_) ==> *final(k) == *old(k),
    {
        if k.jwt().as_str().is_empty() {
            return Err(not_logged_in("AuthController::logout"));
        }
        let req = KuzzleRequest::new("auth", "logout");
        let response = match k.query(req, QueryOptions::new()) {
            Ok(resp) => resp,
            Err(e) => {
                return Err(e);
            },
        };
        match logout_result(&response) {
            Ok(()) => {
                k.set_jwt(String::new());
                Ok(())
            },
            Err(e) => Err(e),
        }
    }

    /// Updates the authenticated user's credentials of `strategy`.
    pub fn update_my_credentials<P: Protocol>(
        k: &Kuzzle<P>,
        strategy: &str,
        content: &JsonMap,
    ) -> (r: Result<JsonMap, SdkError>)
        ensures
            (r matches Err(e) && e@ is Validation) <==> (content@.len() == 0 || strategy@.len()
                == 0),
            content@.len() == 0 ==> (r matches Err(e) && e@ == (ErrorData::Validation {
                context: "AuthController::update_my_credentials"@,
                message: "content argument must not be empty."@,
            })),
            content@.len() > 0 && strategy@.len() == 0 ==> (r matches Err(e) && e@
                == (ErrorData::Validation {
                context: "AuthController::update_my_credentials"@,
                message: "strategy argument must not be empty."@,
            })),
            (r matches Err(e) && e@ is Precondition) <==> (content@.len() > 0 && strategy@.len() > 0
                && k.jwt_spec().len() == 0),
            (content@.len() > 0 && strategy@.len() > 0 && k.jwt_spec().len() == 0) ==> (
            r matches Err(e) && e@ == (ErrorData::Precondition {
                context: "AuthController::update_my_credentials"@,
                message: "You need to be logged in to use this function."@,
            })),
            content@.len() > 0 && strategy@.len() > 0 && k.jwt_spec().len() > 0
                && !k.protocol_ready() ==> (r matches Err(e) && e@ is NotReady),
    {
        if content.is_empty() {
            return Err(
                validation(
                    "AuthController::update_my_credentials",
                    "content argument must not be empty.",
                ),
            );
        }
        if strategy.is_empty() {
            return Err(
                validation(
                    "AuthController::update_my_credentials",
                    "strategy argument must not be empty.",
                ),
            );
        }
        if k.jwt().as_str().is_empty() {
            return Err(not_logged_in("AuthController::update_my_credentials"));
        }
        let req = KuzzleRequest::new("auth", "updateMyCredentials").set_strategy(strategy).set_body(
            content.duplicate(),
        );
        match k.query(req, QueryOptions::new()) {
            Ok(resp) => credentials_result(&resp),
            Err(e) => Err(e),
        }
    }
}

} // verus!
