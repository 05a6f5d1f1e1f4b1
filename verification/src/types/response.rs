//! The Response Envelope: the normalized decoded server reply, and the
//! decoding of the wire JSON value into it.

use crate::json::{jview, map_get, JsonData, JsonMap, JsonValue};
use crate::types::errors::{KuzzleError, KuzzleErrorData, SdkError};
use vstd::prelude::*;

verus! {

/// Mathematical model of a [`KuzzleResponse`].
pub struct ResponseData {
    pub request_id: Seq<char>,
    pub status: u16,
    pub error: Option<KuzzleErrorData>,
    pub controller: Option<Seq<char>>,
    pub action: Option<Seq<char>>,
    pub index: Option<Seq<char>>,
    pub collection: Option<Seq<char>>,
    pub volatile: Option<Seq<(Seq<char>, JsonData)>>,
    pub result: JsonData,
    pub room_id: Option<Seq<char>>,
    pub channel: Option<Seq<char>>,
}

/// What an optional string field of an envelope object decodes to: absent
/// or null is no value, a string is that string, anything else refuses the
/// envelope.
pub open spec fn dec_opt_str(
    entries: Seq<(Seq<char>, JsonData)>,
    key: Seq<char>,
) -> Option<Option<Seq<char>>> {
    match map_get(entries, key) {
        None => Some(None),
        Some(JsonData::Null) => Some(None),
        Some(JsonData::Str(s)) => Some(Some(s)),
        Some(_) => None,
    }
}

/// What the envelope's `error` object decodes to: a required string
/// message, a required 16-bit status and an optional diagnostic trace.
pub open spec fn spec_decode_error(d: JsonData) -> Option<KuzzleErrorData> {
    match d {
        JsonData::Obj(es) => match (map_get(es, "message"@), map_get(es, "status"@)) {
            (Some(JsonData::Str(message)), Some(JsonData::Int(st))) => if 0 <= st < 65536 {
                match dec_opt_str(es, "stack"@) {
                    Some(stack) => Some(
                        KuzzleErrorData { message, status: st as u16, stack },
                    ),
                    None => None,
                }
            } else {
                None
            },
            _ => None,
        },
        _ => None,
    }
}

/// What a wire reply decodes to: an object with a required `requestId`
/// string, a required 16-bit `status`, a required `result` of any shape, an
/// optional `error` object and optional string echoes; anything else
/// refuses the reply.
pub open spec fn spec_decode_response(d: JsonData) -> Option<ResponseData> {
    match d {
        JsonData::Obj(es) => match (map_get(es, "requestId"@), map_get(es, "status"@), map_get(
            es,
            "result"@,
        )) {
            (Some(JsonData::Str(request_id)), Some(JsonData::Int(st)), Some(result)) => if !(0 <= st
                < 65536) {
                None
            } else {
                let error_field = match map_get(es, "error"@) {
                    None => Some(None),
                    Some(JsonData::Null) => Some(None),
                    Some(e) => match spec_decode_error(e) {
                        Some(ed) => Some(Some(ed)),
                        None => None,
                    },
                };
                let volatile_field = match map_get(es, "volatile"@) {
                    None => Some(None),
                    Some(JsonData::Null) => Some(None),
                    Some(JsonData::Obj(vo)) => Some(Some(vo)),
                    Some(_) => None,
                };
                match (error_field, volatile_field, dec_opt_str(es, "controller"@), dec_opt_str(
                    es,
                    "action"@,
                ), dec_opt_str(es, "index"@), dec_opt_str(es, "collection"@), dec_opt_str(
                    es,
                    "room"@,
                ), dec_opt_str(es, "channel"@)) {
                    (
                        Some(error),
                        Some(volatile),
                        Some(controller),
                        Some(action),
                        Some(index),
                        Some(collection),
                        Some(room_id),
                        Some(channel),
                    ) => Some(
                        ResponseData {
                            request_id,
                            status: st as u16,
                            error,
                            controller,
                            action,
                            index,
                            collection,
                            volatile,
                            result,
                            room_id,
                            channel,
                        },
                    ),
                    _ => None,
                }
            },
            _ => None,
        },
        _ => None,
    }
}

/// The normalized decoded reply shared by all API routes: status, optional
/// structured error, untyped result payload and optional echoes.
#[derive(Debug)]
pub struct KuzzleResponse {
    request_id: String,
    status: u16,
    error: Option<KuzzleError>,
    controller: Option<String>,
    action: Option<String>,
    index: Option<String>,
    collection: Option<String>,
    volatile: Option<JsonMap>,
    result: JsonValue,
    room_id: Option<String>,
    channel: Option<String>,
}

impl View for KuzzleResponse {
    type V = ResponseData;

    closed spec fn view(&self) -> ResponseData {
        ResponseData {
            request_id: self.request_id@,
            status: self.status,
            error: match self.error {
                Some(e) => Some(e@),
                None => None,
            },
            controller: match self.controller {
                Some(s) => Some(s@),
                None => None,
            },
            action: match self.action {
                Some(s) => Some(s@),
                None => None,
            },
            index: match self.index {
                Some(s) => Some(s@),
                None => None,
            },
            collection: match self.collection {
                Some(s) => Some(s@),
                None => None,
            },
            volatile: match self.volatile {
                Some(m) => Some(m@),
                None => None,
            },
            result: jview(self.result),
            room_id: match self.room_id {
                Some(s) => Some(s@),
                None => None,
            },
            channel: match self.channel {
                Some(s) => Some(s@),
                None => None,
            },
        }
    }
}

/// A decode failure carrying `msg`.
fn decode_fail(msg: &str) -> (e: SdkError)
    ensures
        e@ is Decode,
{
    SdkError::Decode { message: msg.to_owned() }
}

/// Decodes an optional string field, refusing any other shape.
fn get_opt_str(m: &JsonMap, key: &str) -> (r: Result<Option<String>, SdkError>)
    ensures
        match dec_opt_str(m@, key@) {
            Some(o) => (match r {
                Ok(ro) => (match (ro, o) {
                    (Some(s), Some(t)) => s@ == t,
                    (None, None) => true,
                    _ => false,
                }),
                Err(_) => false,
            }),
            None => (r matches Err(e) && e@ is Decode),
        },
{
    match m.get(key) {
        None => Ok(None),
        Some(x) => {
            if x.is_null() {
                Ok(None)
            } else {
                match x.as_str() {
                    Some(s) => Ok(Some(s.clone())),
                    None => Err(
                        decode_fail("a string field of the reply envelope has another shape"),
                    ),
                }
            }
        },
    }
}

/// Decodes the envelope's `error` object.
fn decode_error_obj(v: &JsonValue) -> (r: Result<KuzzleError, SdkError>)
    ensures
        match spec_decode_error(jview(*v)) {
            Some(ed) => (r matches Ok(e) && e@ == ed),
            None => (r matches Err(e) && e@ is Decode),
        },
{
    let m: &JsonMap = match v.as_object() {
        Some(m) => m,
        None => {
            return Err(decode_fail("the reply envelope has an unexpected error shape"));
        },
    };
    let message: String = match m.get("message") {
        Some(x) => match x.as_str() {
            Some(s) => s.clone(),
            None => {
                return Err(decode_fail("the reply envelope has an unexpected error shape"));
            },
        },
        None => {
            return Err(decode_fail("the reply envelope has an unexpected error shape"));
        },
    };
    let status: u16 = match m.get("status") {
        Some(x) => match x.as_i64() {
            Some(i) => {
                if i < 0 || i > 65535 {
                    return Err(decode_fail("the reply envelope has an unexpected error shape"));
                }
                i as u16
            },
            None => {
                return Err(decode_fail("the reply envelope has an unexpected error shape"));
            },
        },
        None => {
            return Err(decode_fail("the reply envelope has an unexpected error shape"));
        },
    };
    let stack: Option<String> = match get_opt_str(m, "stack") {
        Ok(o) => o,
        Err(e) => {
            return Err(e);
        },
    };
    Ok(KuzzleError::new(message, status, stack))
}

impl KuzzleResponse {
    /// Decodes a parsed wire reply into the envelope, refusing any reply
    /// whose shape differs from the documented one.
    pub fn from_json(v: &JsonValue) -> (r: Result<KuzzleResponse, SdkError>)
        ensures
            match spec_decode_response(jview(*v)) {
                Some(rd) => (r matches Ok(resp) && resp@ == rd),
                None => (r matches Err(e) && e@ is Decode),
            },
    {
        let m: &JsonMap = match v.as_object() {
            Some(m) => m,
            None => {
                return Err(decode_fail("the reply is not an envelope of the documented shape"));
            },
        };
        let request_id: String = match m.get("requestId") {
            Some(x) => match x.as_str() {
                Some(s) => s.clone(),
                None => {
                    return Err(decode_fail("the reply is not an envelope of the documented shape"));
                },
            },
            None => {
                return Err(decode_fail("the reply is not an envelope of the documented shape"));
            },
        };
        let status: u16 = match m.get("status") {
            Some(x) => match x.as_i64() {
                Some(i) => {
                    if i < 0 || i > 65535 {
                        return Err(decode_fail("the reply is not an envelope of the documented shape"));
                    }
                    i as u16
                },
                None => {
                    return Err(decode_fail("the reply is not an envelope of the documented shape"));
                },
            },
            None => {
                return Err(decode_fail("the reply is not an envelope of the documented shape"));
            },
        };
        let result: JsonValue = match m.get("result") {
            Some(x) => x.duplicate(),
            None => {
                return Err(decode_fail("the reply is not an envelope of the documented shape"));
            },
        };
        let error: Option<KuzzleError> = match m.get("error") {
            None => None,
            Some(x) => {
                if x.is_null() {
                    None
                } else {
                    match decode_error_obj(x) {
                        Ok(e) => Some(e),
                        Err(e) => {
                            return Err(e);
                        },
                    }
                }
            },
        };
        let volatile: Option<JsonMap> = match m.get("volatile") {
            None => None,
            Some(x) => {
                if x.is_null() {
                    None
                } else {
                    match x.as_object() {
                        Some(vo) => Some(vo.duplicate()),
                        None => {
                            return Err(decode_fail("the reply is not an envelope of the documented shape"));
                        },
                    }
                }
            },
        };
        let controller: Option<String> = match get_opt_str(m, "controller") {
            Ok(o) => o,
            Err(e) => {
                return Err(e);
            },
        };
        let action: Option<String> = match get_opt_str(m, "action") {
            Ok(o) => o,
            Err(e) => {
                return Err(e);
            },
        };
        let index: Option<String> = match get_opt_str(m, "index") {
            Ok(o) => o,
            Err(e) => {
                return Err(e);
            },
        };
        let collection: Option<String> = match get_opt_str(m, "collection") {
            Ok(o) => o,
            Err(e) => {
                return Err(e);
            },
        };
        let room_id: Option<String> = match get_opt_str(m, "room") {
            Ok(o) => o,
            Err(e) => {
                return Err(e);
            },
        };
        let channel: Option<String> = match get_opt_str(m, "channel") {
            Ok(o) => o,
            Err(e) => {
                return Err(e);
            },
        };
        Ok(
            KuzzleResponse {
                request_id,
                status,
                error,
                controller,
                action,
                index,
                collection,
                volatile,
                result,
                room_id,
                channel,
            },
        )
    }

    /// The reply's request identifier.
    pub fn request_id(&self) -> (r: &String)
        ensures
            r@ == self@.request_id,
    {
        &self.request_id
    }

    /// The reply's status.
    pub fn status(&self) -> (r: &u16)
        ensures
            *r == self@.status,
    {
        &self.status
    }

    /// The structured error, when the envelope carried one.
    pub fn error(&self) -> (r: &Option<KuzzleError>)
        ensures
            (r matches Some(e) && self@.error matches Some(ed) && e@ == ed) || (r is None
                && self@.error is None),
    {
        &self.error
    }

    /// The echoed controller name, or the empty string.
    pub fn controller(&self) -> (r: String)
        ensures
            r@ == crate::types::request::opt_or_empty(self@.controller),
    {
        match &self.controller {
            Some(controller) => controller.clone(),
            None => String::new(),
        }
    }

    /// The echoed action name, or the empty string.
    pub fn action(&self) -> (r: String)
        ensures
            r@ == crate::types::request::opt_or_empty(self@.action),
    {
        match &self.action {
            Some(action) => action.clone(),
            None => String::new(),
        }
    }

    /// The echoed index name, or the empty string.
    pub fn index(&self) -> (r: String)
        ensures
            r@ == crate::types::request::opt_or_empty(self@.index),
    {
        match &self.index {
            Some(index) => index.clone(),
            None => String::new(),
        }
    }

    /// The echoed collection name, or the empty string.
    pub fn collection(&self) -> (r: String)
        ensures
            r@ == crate::types::request::opt_or_empty(self@.collection),
    {
        match &self.collection {
            Some(collection) => collection.clone(),
            None => String::new(),
        }
    }

    /// The untyped result payload.
    pub fn result(&self) -> (r: &JsonValue)
        ensures
            jview(*r) == self@.result,
    {
        &self.result
    }

    /// The volatile metadata, or an empty mapping.
    pub fn volatile(&self) -> (r: JsonMap)
        ensures
            match self@.volatile {
                Some(vo) => r@ == vo,
                None => r@ =~= Seq::<(Seq<char>, JsonData)>::empty(),
            },
    {
        match &self.volatile {
            Some(volatile) => volatile.duplicate(),
            None => JsonMap::new(),
        }
    }

    /// The realtime room identifier, or the empty string.
    pub fn room_id(&self) -> (r: String)
        ensures
            r@ == crate::types::request::opt_or_empty(self@.room_id),
    {
        match &self.room_id {
            Some(id) => id.clone(),
            None => String::new(),
        }
    }

    /// The realtime channel, or the empty string.
    pub fn channel(&self) -> (r: String)
        ensures
            r@ == crate::types::request::opt_or_empty(self@.channel),
    {
        match &self.channel {
            Some(channel) => channel.clone(),
            None => String::new(),
        }
    }
}

} // verus!
