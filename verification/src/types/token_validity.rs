//! The typed result of the token check operation.

use crate::json::{jview, map_get, JsonData, JsonValue};
use crate::types::errors::SdkError;
use vstd::prelude::*;

verus! {

/// Mathematical model of a [`TokenValidity`].
pub struct TokenValidityData {
    pub valid: bool,
    pub state: Option<Seq<char>>,
    pub expires_at: Option<i64>,
}

/// What the token check's result payload decodes to: a required `valid`
/// flag, an optional `state` description and an optional `expiresAt`
/// timestamp.
pub open spec fn spec_decode_token_validity(d: JsonData) -> Option<TokenValidityData> {
    match d {
        JsonData::Obj(es) => match map_get(es, "valid"@) {
            Some(JsonData::Bool(valid)) => {
                let state_field = match map_get(es, "state"@) {
                    None => Some(None),
                    Some(JsonData::Null) => Some(None),
                    Some(JsonData::Str(s)) => Some(Some(s)),
                    Some(_) => None,
                };
                let expires_field = match map_get(es, "expiresAt"@) {
                    None => Some(None),
                    Some(JsonData::Null) => Some(None),
                    Some(JsonData::Int(t)) => if i64::MIN <= t <= i64::MAX {
                        Some(Some(t as i64))
                    } else {
                        None
                    },
                    Some(_) => None,
                };
                match (state_field, expires_field) {
                    (Some(state), Some(expires_at)) => Some(
                        TokenValidityData { valid, state, expires_at },
                    ),
                    _ => None,
                }
            },
            _ => None,
        },
        _ => None,
    }
}

/// Whether a credential token is (still) valid, with the server's
/// explanation and expiry when it sends them.
#[derive(Debug)]
pub struct TokenValidity {
    valid: bool,
    state: Option<String>,
    expires_at: Option<i64>,
}

impl View for TokenValidity {
    type V = TokenValidityData;

    closed spec fn view(&self) -> TokenValidityData {
        TokenValidityData {
            valid: self.valid,
            state: match self.state {
                Some(s) => Some(s@),
                None => None,
            },
            expires_at: self.expires_at,
        }
    }
}

impl TokenValidity {
    /// Decodes the token check's result payload.
    pub fn from_json(v: &JsonValue) -> (r: Result<TokenValidity, SdkError>)
        ensures
            match spec_decode_token_validity(jview(*v)) {
                Some(td) => (r matches Ok(t) && t@ == td),
                None => (r matches Err(e) && e@ is Decode),
            },
    {
        let m = match v.as_object() {
            Some(m) => m,
            None => {
                return Err(decode_fail());
            },
        };
        let valid: bool = match m.get("valid") {
            Some(x) => match x.as_bool() {
                Some(b) => b,
                None => {
                    return Err(decode_fail());
                },
            },
            None => {
                return Err(decode_fail());
            },
        };
        let state: Option<String> = match m.get("state") {
            None => None,
            Some(x) => {
                if x.is_null() {
                    None
                } else {
                    match x.as_str() {
                        Some(s) => Some(s.clone()),
                        None => {
                            return Err(decode_fail());
                        },
                    }
                }
            },
        };
        let expires_at: Option<i64> = match m.get("expiresAt") {
            None => None,
            Some(x) => {
                if x.is_null() {
                    None
                } else {
                    match x.as_i64() {
                        Some(t) => Some(t),
                        None => {
                            return Err(decode_fail());
                        },
                    }
                }
            },
        };
        Ok(TokenValidity { valid, state, expires_at })
    }

    /// Whether the token is valid.
    pub fn valid(&self) -> (r: bool)
        ensures
            r == self@.valid,
    {
        self.valid
    }

    /// The server's explanation, or the empty string.
    pub fn state(&self) -> (r: String)
        ensures
            r@ == crate::types::request::opt_or_empty(self@.state),
    {
        match &self.state {
            Some(state) => state.clone(),
            None => String::new(),
        }
    }

    /// The expiry timestamp, or zero when the server sent none.
    pub fn expires_at(&self) -> (r: i64)
        ensures
            r == (match self@.expires_at {
                Some(t) => t,
                None => 0,
            }),
    {
        match self.expires_at {
            Some(timestamp) => timestamp,
            None => 0,
        }
    }
}

/// A decode failure for a token check result of an unexpected shape.
fn decode_fail() -> (e: SdkError)
    ensures
        e@ is Decode,
{
    SdkError::Decode {
        message: "the token check result has an unexpected shape".to_owned(),
    }
}

} // verus!
