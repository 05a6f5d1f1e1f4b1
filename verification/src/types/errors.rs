//! The error taxonomy: every failure the library reports is one of these
//! typed values, and every one is returned to the caller, never panicked.

use vstd::prelude::*;
use vstd::string::StringExecFns;

verus! {

/// Mathematical model of a [`KuzzleError`].
pub struct KuzzleErrorData {
    pub message: Seq<char>,
    pub status: u16,
    pub stack: Option<Seq<char>>,
}

/// A structured error decoded from the server's reply envelope: the
/// authoritative failure signal from the remote system.
#[derive(Debug)]
pub struct KuzzleError {
    message: String,
    status: u16,
    stack: Option<String>,
}

impl View for KuzzleError {
    type V = KuzzleErrorData;

    closed spec fn view(&self) -> KuzzleErrorData {
        KuzzleErrorData {
            message: self.message@,
            status: self.status,
            stack: match self.stack {
                Some(s) => Some(s@),
                None => None,
            },
        }
    }
}

impl KuzzleError {
    pub fn new(message: String, status: u16, stack: Option<String>) -> (r: KuzzleError)
        ensures
            r@.message == message@,
            r@.status == status,
            r@.stack == (match stack {
                Some(s) => Some(s@),
                None => None::<Seq<char>>,
            }),
    {
        KuzzleError { message, status, stack }
    }

    /// The server's error message.
    pub fn message(&self) -> (r: &String)
        ensures
            r@ == self@.message,
    {
        &self.message
    }

    /// The numeric status the server attached to the error.
    pub fn status(&self) -> (r: u16)
        ensures
            r == self@.status,
    {
        self.status
    }

    /// The diagnostic trace, when the server sent one.
    pub fn stack(&self) -> (r: &Option<String>)
        ensures
            self@.stack == (match r {
                Some(s) => Some(s@),
                None => None::<Seq<char>>,
            }),
    {
        &self.stack
    }

    /// A field-for-field copy.
    pub fn duplicate(&self) -> (r: KuzzleError)
        ensures
            r@ == self@,
    {
        KuzzleError {
            message: self.message.clone(),
            status: self.status,
            stack: match &self.stack {
                Some(s) => Some(s.clone()),
                None => None,
            },
        }
    }
}

/// Mathematical model of an [`SdkError`].
pub enum ErrorData {
    Validation { context: Seq<char>, message: Seq<char> },
    Precondition { context: Seq<char>, message: Seq<char> },
    NotReady,
    RouteNotFound { controller: Seq<char>, action: Seq<char> },
    Unsupported { context: Seq<char> },
    Network { message: Seq<char> },
    Decode { message: Seq<char> },
    Server(KuzzleErrorData),
}

/// Every failure the library can report.
///
/// - `Validation`: a required string argument was empty; raised locally,
///   before any network call.
/// - `Precondition`: an authenticated operation was invoked while the
///   session credential was empty; raised locally.
/// - `NotReady`: `send` was invoked while the transport was not `Ready`.
/// - `RouteNotFound`: the route table has no entry for the requested
///   (controller, action) pair.
/// - `Unsupported`: the capability is an unimplemented obligation of the
///   transport variant it was invoked on.
/// - `Network`: the underlying connectivity probe or exchange failed.
/// - `Decode`: the wire reply could not be parsed into the expected shape.
/// - `Server`: the reply envelope carried a populated error object.
#[derive(Debug)]
pub enum SdkError {
    Validation { context: String, message: String },
    Precondition { context: String, message: String },
    NotReady,
    RouteNotFound { controller: String, action: String },
    Unsupported { context: String },
    Network { message: String },
    Decode { message: String },
    Server(KuzzleError),
}

impl View for SdkError {
    type V = ErrorData;

    open spec fn view(&self) -> ErrorData {
        match self {
            SdkError::Validation { context, message } => ErrorData::Validation {
                context: context@,
                message: message@,
            },
            SdkError::Precondition { context, message } => ErrorData::Precondition {
                context: context@,
                message: message@,
            },
            SdkError::NotReady => ErrorData::NotReady,
            SdkError::RouteNotFound { controller, action } => ErrorData::RouteNotFound {
                controller: controller@,
                action: action@,
            },
            SdkError::Unsupported { context } => ErrorData::Unsupported { context: context@ },
            SdkError::Network { message } => ErrorData::Network { message: message@ },
            SdkError::Decode { message } => ErrorData::Decode { message: message@ },
            SdkError::Server(e) => ErrorData::Server(e@),
        }
    }
}

/// How an error renders as one line of text: the common capability every
/// error kind offers, so callers handle them uniformly.
pub open spec fn spec_message(e: ErrorData) -> Seq<char> {
    match e {
        ErrorData::Validation { context, message } => context + ": "@ + message,
        ErrorData::Precondition { context, message } => context + ": "@ + message,
        ErrorData::NotReady => "Unable to execute request: not connected to a Kuzzle server."@,
        ErrorData::RouteNotFound { controller, action } => "Unable to find route for (controller/action) "@
            + controller + "/"@ + action,
        ErrorData::Unsupported { context } => context + ": unsupported operation."@,
        ErrorData::Network { message } => message,
        ErrorData::Decode { message } => message,
        ErrorData::Server(k) => k.message,
    }
}

impl SdkError {
    /// The error's one-line rendering, as [`spec_message`] says.
    pub fn message(&self) -> (r: String)
        ensures
            r@ == spec_message(self@),
    {
        match self {
            SdkError::Validation { context, message } => join_context(context, ": ", message),
            SdkError::Precondition { context, message } => join_context(context, ": ", message),
            SdkError::NotReady => "Unable to execute request: not connected to a Kuzzle server.".to_owned(),
            SdkError::RouteNotFound { controller, action } => {
                let prefix: String = "Unable to find route for (controller/action) ".to_owned();
                let pair: String = join_context(&join_context(&prefix, "", controller), "/", action);
                proof {
                    reveal_strlit("");
                    assert(pair@ =~= "Unable to find route for (controller/action) "@ + controller@
                        + "/"@ + action@);
                }
                pair
            },
            SdkError::Unsupported { context } => {
                let line: String = join_context(context, ": unsupported operation.", &String::new());
                proof {
                    assert(line@ =~= context@ + ": unsupported operation."@);
                }
                line
            },
            SdkError::Network { message } => message.clone(),
            SdkError::Decode { message } => message.clone(),
            SdkError::Server(k) => k.message().clone(),
        }
    }
}

/// `a`, then `mid`, then `b`, in one string.
fn join_context(a: &String, mid: &str, b: &String) -> (r: String)
    ensures
        r@ == a@ + mid@ + b@,
{
    let mut out: String = a.clone();
    out.append(mid);
    out.append(b.as_str());
    out
}

} // verus!
