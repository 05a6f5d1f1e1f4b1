//! The core pieces one by one: the wire codec, the descriptor builder, the
//! route table, the transport state machine and the session rules.

use kuzzle_sdk::codec::{parse_json_str, to_json_string};
use kuzzle_sdk::controllers::AuthController;
use kuzzle_sdk::json::{JsonMap, JsonValue};
use kuzzle_sdk::kuzzle::{with_session_credential, Kuzzle};
use kuzzle_sdk::protocols::http::resolve_path;
use kuzzle_sdk::protocols::{Http, Protocol, RouteTable, Websocket};
use kuzzle_sdk::types::{KuzzleOptions, KuzzleRequest, KuzzleResponse, QueryOptions, SdkError};
use std::cell::RefCell;
use std::rc::Rc;

/// A transport test double: it answers every send with the configured
/// reply envelope, records every descriptor dispatched through it, and
/// counts its connectivity probes.
struct StubTransport {
    ready: bool,
    reply: Option<String>,
    sent: Rc<RefCell<Vec<KuzzleRequest>>>,
    probes: Rc<RefCell<usize>>,
}

impl Protocol for StubTransport {
    fn ready(&self) -> bool {
        self.ready
    }

    fn once(&self) -> Result<(), SdkError> {
        Err(SdkError::Unsupported { context: "StubTransport::once".to_string() })
    }

    fn listener_count(&self) -> Result<(), SdkError> {
        Err(SdkError::Unsupported { context: "StubTransport::listener_count".to_string() })
    }

    fn connect(&mut self) -> Result<(), SdkError> {
        *self.probes.borrow_mut() += 1;
        self.ready = true;
        Ok(())
    }

    fn send(&self, req: KuzzleRequest, _options: QueryOptions) -> Result<KuzzleResponse, SdkError> {
        if !self.ready {
            return Err(SdkError::NotReady);
        }
        self.sent.borrow_mut().push(req);
        match &self.reply {
            Some(text) => match parse_json_str(text) {
                Some(v) => KuzzleResponse::from_json(&v),
                None => Err(SdkError::Decode { message: "the reply is not JSON".to_string() }),
            },
            None => Err(SdkError::Network { message: "no reply is configured".to_string() }),
        }
    }

    fn close(&mut self) {
        self.ready = false;
    }

    fn is_ready(&self) -> bool {
        self.ready
    }
}

/// A client over a stub transport answering `reply`, with the descriptor
/// log and the probe counter.
fn test_client(
    reply: Option<&str>,
) -> (Kuzzle<StubTransport>, Rc<RefCell<Vec<KuzzleRequest>>>, Rc<RefCell<usize>>) {
    let sent = Rc::new(RefCell::new(Vec::new()));
    let probes = Rc::new(RefCell::new(0));
    let transport = StubTransport {
        ready: false,
        reply: reply.map(|s| s.to_string()),
        sent: sent.clone(),
        probes: probes.clone(),
    };
    (Kuzzle::new(transport), sent, probes)
}

#[test]
fn codec_renders_canonical_json() {
    let mut body = JsonMap::new();
    body.insert("username".to_string(), JsonValue::Str("admin".to_string()));
    body.insert("age".to_string(), JsonValue::Int(-42));
    body.insert("tags".to_string(), JsonValue::Arr(vec![JsonValue::Bool(true), JsonValue::Null]));
    let text = to_json_string(&JsonValue::Obj(body));
    assert_eq!(text, r#"{"username":"admin","age":-42,"tags":[true,null]}"#);
}

#[test]
fn codec_escapes_strings() {
    let text = to_json_string(&JsonValue::Str("a\"b\\c\nd\te".to_string()));
    assert_eq!(text, "\"a\\\"b\\\\c\\nd\\te\"");
}

#[test]
fn codec_renders_integer_extremes() {
    assert_eq!(to_json_string(&JsonValue::Int(i64::MIN)), "-9223372036854775808");
    assert_eq!(to_json_string(&JsonValue::Int(i64::MAX)), "9223372036854775807");
    assert_eq!(to_json_string(&JsonValue::Int(0)), "0");
}

#[test]
fn codec_parses_nested_text() {
    let v = parse_json_str(r#" {"a": [1, -2, "x\n"], "b": {"c": null}, "d": false} "#)
        .expect("well-formed text parses");
    assert_eq!(v.get("a").unwrap().as_array().unwrap().len(), 3);
    assert_eq!(v.get("a").unwrap().as_array().unwrap()[1].as_i64().unwrap(), -2);
    assert_eq!(v.get("a").unwrap().as_array().unwrap()[2].as_str().unwrap(), "x\n");
    assert!(v.get("b").unwrap().get("c").unwrap().is_null());
    assert_eq!(v.get("d").unwrap().as_bool().unwrap(), false);
}

#[test]
fn codec_round_trips_what_it_renders() {
    let mut inner = JsonMap::new();
    inner.insert("k".to_string(), JsonValue::Str("v\"w".to_string()));
    let mut body = JsonMap::new();
    body.insert("n".to_string(), JsonValue::Int(1538557452248));
    body.insert("o".to_string(), JsonValue::Obj(inner));
    let original = JsonValue::Obj(body);
    let text = to_json_string(&original);
    let back = parse_json_str(&text).expect("the rendering parses");
    assert_eq!(to_json_string(&back), text);
}

#[test]
fn codec_parses_empty_containers_and_escapes() {
    let arr = parse_json_str("[]").expect("an empty array parses");
    assert_eq!(arr.as_array().unwrap().len(), 0);
    let obj = parse_json_str("{}").expect("an empty object parses");
    assert_eq!(obj.as_object().unwrap().len(), 0);
    let esc = parse_json_str(r#""a\/b\b\f\r""#).expect("known escapes parse");
    assert_eq!(esc.as_str().unwrap(), "a/b\u{8}\u{c}\r");
    assert!(parse_json_str(r#""a\u0041""#).is_none());
    assert!(parse_json_str(r#""open"#).is_none());
}

#[test]
fn codec_rejects_malformed_text() {
    assert!(parse_json_str("").is_none());
    assert!(parse_json_str("{").is_none());
    assert!(parse_json_str("[1,]").is_none());
    assert!(parse_json_str("nul").is_none());
    assert!(parse_json_str("{\"a\" 1}").is_none());
    assert!(parse_json_str("1 2").is_none());
}

#[test]
fn codec_rejects_fractional_numbers() {
    assert!(parse_json_str("1.5").is_none());
    assert!(parse_json_str("[1e3]").is_none());
    assert!(parse_json_str("9223372036854775808").is_none());
    assert_eq!(
        parse_json_str("-9223372036854775808").unwrap().as_i64().unwrap(),
        i64::MIN,
    );
}

#[test]
fn envelope_decodes_from_wire_text() {
    let parsed = parse_json_str(
        r#"{
            "requestId": "rid-1",
            "status": 200,
            "error": null,
            "controller": "auth",
            "action": "login",
            "volatile": {"side": "note"},
            "result": {"jwt": "T1"},
            "room": "r-7",
            "channel": "c-9"
        }"#,
    )
    .expect("envelope text parses");
    let resp = KuzzleResponse::from_json(&parsed).expect("envelope decodes");
    assert_eq!(resp.request_id(), "rid-1");
    assert_eq!(*resp.status(), 200);
    assert!(resp.error().is_none());
    assert_eq!(resp.controller(), "auth");
    assert_eq!(resp.action(), "login");
    assert_eq!(resp.index(), "");
    assert_eq!(resp.collection(), "");
    assert_eq!(resp.room_id(), "r-7");
    assert_eq!(resp.channel(), "c-9");
    assert_eq!(resp.volatile().get("side").unwrap().as_str().unwrap(), "note");
    assert_eq!(resp.result().get("jwt").unwrap().as_str().unwrap(), "T1");
}

#[test]
fn envelope_requires_the_documented_shape() {
    let no_request_id = parse_json_str(r#"{"status": 200, "result": null}"#).unwrap();
    assert!(matches!(
        KuzzleResponse::from_json(&no_request_id),
        Err(SdkError::Decode { .. })
    ));
    let no_result = parse_json_str(r#"{"requestId": "x", "status": 200}"#).unwrap();
    assert!(matches!(KuzzleResponse::from_json(&no_result), Err(SdkError::Decode { .. })));
}

#[test]
fn descriptor_round_trip() {
    let req = KuzzleRequest::new("auth", "login")
        .set_index("idx")
        .set_strategy("local")
        .set_jwt("tok".to_string())
        .add_to_body("key", JsonValue::Str("first".to_string()))
        .add_to_body("key", JsonValue::Str("second".to_string()));
    assert_eq!(req.controller(), "auth");
    assert_eq!(req.action(), "login");
    assert_eq!(req.index(), "idx");
    assert_eq!(req.strategy(), "local");
    assert_eq!(req.jwt(), "tok");
    assert_eq!(req.body().len(), 1);
    assert_eq!(req.body().get("key").unwrap().as_str().unwrap(), "second");
}

#[test]
fn descriptor_unset_fields_read_back_empty() {
    let req = KuzzleRequest::new("document", "create");
    assert_eq!(req.index(), "");
    assert_eq!(req.collection(), "");
    assert_eq!(req.strategy(), "");
    assert_eq!(req.jwt(), "");
    assert!(req.body().is_empty());
    assert!(req.query_strings().is_empty());
}

#[test]
fn map_insert_overwrites_and_keeps_others() {
    let mut m = JsonMap::new();
    m.insert("a".to_string(), JsonValue::Int(1));
    m.insert("b".to_string(), JsonValue::Int(2));
    m.insert("a".to_string(), JsonValue::Int(3));
    assert_eq!(m.len(), 2);
    assert_eq!(m.get("a").unwrap().as_i64().unwrap(), 3);
    assert_eq!(m.get("b").unwrap().as_i64().unwrap(), 2);
    assert!(m.get("c").is_none());
}

#[test]
fn route_template_substitution() {
    let path: String = resolve_path("/credentials/:strategy/_me", "", "", "local")
        .into_iter()
        .collect();
    assert_eq!(path, "/credentials/local/_me");
    let both: String = resolve_path("/:index/:collection/_create", "idx", "col", "")
        .into_iter()
        .collect();
    assert_eq!(both, "/idx/col/_create");
    let unresolved: String = resolve_path("/_login/:strategy", "", "", "").into_iter().collect();
    assert_eq!(unresolved, "/_login/");
}

#[test]
fn route_lookup_resolves_known_pairs() {
    let table = RouteTable::standard();
    let route = table.resolve("auth", "login").expect("login is routed");
    assert_eq!(route.verb, "POST");
    assert_eq!(route.url, "/_login/:strategy");
    let check = table.resolve("auth", "checkToken").expect("checkToken is routed");
    assert_eq!(check.verb, "POST");
    assert_eq!(check.url, "/_checkToken");
}

#[test]
fn route_lookup_reports_the_missing_pair() {
    let table = RouteTable::standard();
    match table.resolve("x", "y") {
        Err(SdkError::RouteNotFound { controller, action }) => {
            assert_eq!(controller, "x");
            assert_eq!(action, "y");
        },
        _ => panic!("an unrouted pair must yield the route-not-found error"),
    }
}

#[test]
fn send_while_offline_fails_with_transport_not_ready() {
    let http = Http::new(KuzzleOptions::new("localhost", 7512), RouteTable::standard());
    assert!(!http.is_ready());
    let res = http.send(KuzzleRequest::new("auth", "logout"), QueryOptions::new());
    assert!(matches!(res, Err(SdkError::NotReady)));
}

#[test]
fn connect_is_idempotent_and_probes_once() {
    let (mut k, _sent, probes) = test_client(None);
    assert!(k.connect().is_ok());
    assert!(k.connect().is_ok());
    assert_eq!(*probes.borrow(), 1);
}

#[test]
fn close_returns_the_transport_to_offline() {
    let mut http = Http::new(KuzzleOptions::new("localhost", 7512), RouteTable::standard());
    assert!(!http.is_ready());
    http.close();
    assert!(!http.is_ready());

    let mut stub = StubTransport {
        ready: false,
        reply: None,
        sent: Rc::new(RefCell::new(Vec::new())),
        probes: Rc::new(RefCell::new(0)),
    };
    stub.connect().expect("the stub connects");
    assert!(stub.is_ready());
    stub.close();
    assert!(!stub.is_ready());
    stub.close();
    assert!(!stub.is_ready());
}

#[test]
fn precondition_error_dispatches_no_request() {
    let (mut k, sent, _probes) = test_client(None);
    k.connect().expect("the stub connects");
    let res = AuthController::logout(&mut k);
    assert!(matches!(res, Err(SdkError::Precondition { .. })));
    assert_eq!(sent.borrow().len(), 0);
}

#[test]
fn validation_error_dispatches_no_request() {
    let (mut k, sent, _probes) = test_client(None);
    k.connect().expect("the stub connects");
    let res = AuthController::check_token(&k, "");
    assert!(matches!(res, Err(SdkError::Validation { .. })));
    let res2 = AuthController::login(&mut k, "", "admin", "password");
    assert!(matches!(res2, Err(SdkError::Validation { .. })));
    assert_eq!(sent.borrow().len(), 0);
}

#[test]
fn session_credential_fills_only_the_gap() {
    let bare = KuzzleRequest::new("auth", "logout");
    let filled = with_session_credential(bare, "T1".to_string());
    assert_eq!(filled.jwt(), "T1");

    let explicit = KuzzleRequest::new("auth", "logout").set_jwt("mine".to_string());
    let kept = with_session_credential(explicit, "T1".to_string());
    assert_eq!(kept.jwt(), "mine");

    let empty_session = with_session_credential(KuzzleRequest::new("auth", "logout"), String::new());
    assert_eq!(empty_session.jwt(), "");
}

#[test]
fn dispatched_descriptor_carries_the_session_credential() {
    let (mut k, sent, _probes) = test_client(Some(
        r#"{
            "requestId": "rid-3",
            "status": 200,
            "error": null,
            "volatile": {},
            "result": {}
        }"#,
    ));
    k.connect().expect("the stub connects");
    k.set_jwt("T1".to_string());
    AuthController::logout(&mut k).expect("the stubbed logout succeeds");
    assert_eq!(sent.borrow().len(), 1);
    assert_eq!(sent.borrow()[0].jwt(), "T1");
    assert_eq!(sent.borrow()[0].controller(), "auth");
    assert_eq!(sent.borrow()[0].action(), "logout");
    assert_eq!(k.jwt(), "");
}

#[test]
fn login_failure_keeps_the_session_empty() {
    let (mut k, _sent, _probes) = test_client(Some(
        r#"{
            "requestId": "rid-2",
            "status": 401,
            "error": {
              "message": "wrong username or password",
              "status": 401
            },
            "controller": "auth",
            "action": "login",
            "volatile": {},
            "result": null
        }"#,
    ));
    k.connect().expect("the stub connects");
    let res = AuthController::login(&mut k, "local", "admin", "badPassword");
    match res {
        Err(SdkError::Server(e)) => {
            assert_eq!(e.message(), "wrong username or password");
            assert_eq!(e.status(), 401);
        },
        _ => panic!("a populated envelope error must surface as a server error"),
    }
    assert_eq!(k.jwt(), "");
}

#[test]
fn login_success_stores_the_granted_credential() {
    let (mut k, sent, _probes) = test_client(Some(
        r#"{
            "requestId": "rid-4",
            "status": 200,
            "error": null,
            "volatile": {},
            "result": {"jwt": "T1"}
        }"#,
    ));
    k.connect().expect("the stub connects");
    let token = AuthController::login(&mut k, "local", "admin", "password")
        .expect("the stubbed login succeeds");
    assert_eq!(token, "T1");
    assert_eq!(k.jwt(), "T1");
    assert_eq!(sent.borrow().len(), 1);
    assert_eq!(
        sent.borrow()[0].body().get("username").unwrap().as_str().unwrap(),
        "admin"
    );
    assert_eq!(
        sent.borrow()[0].body().get("password").unwrap().as_str().unwrap(),
        "password"
    );
    assert_eq!(sent.borrow()[0].strategy(), "local");
}

#[test]
fn network_failure_surfaces_as_a_network_error() {
    let mut k = Kuzzle::new(Http::new(KuzzleOptions::new("127.0.0.1", 1), RouteTable::standard()));
    let res = k.connect();
    assert!(matches!(res, Err(SdkError::Network { .. })));
}

#[test]
fn malformed_reply_surfaces_as_a_decode_error() {
    let (mut k, _sent, _probes) = test_client(Some("this is not an envelope"));
    k.connect().expect("the stub connects");
    let res = AuthController::check_token(&k, "veryCoolAndLongToken");
    assert!(matches!(res, Err(SdkError::Decode { .. })));
}

#[test]
fn unsupported_capabilities_report_themselves() {
    let http = Http::new(KuzzleOptions::new("localhost", 7512), RouteTable::standard());
    assert!(matches!(http.once(), Err(SdkError::Unsupported { .. })));
    assert!(matches!(http.listener_count(), Err(SdkError::Unsupported { .. })));

    let mut ws = Websocket::new(KuzzleOptions::new("localhost", 7512));
    assert!(!ws.is_ready());
    assert!(matches!(ws.connect(), Err(SdkError::Unsupported { .. })));
    assert!(matches!(
        ws.send(KuzzleRequest::new("auth", "logout"), QueryOptions::new()),
        Err(SdkError::NotReady)
    ));
    ws.close();
    assert!(!ws.is_ready());
}

#[test]
fn rights_entries_decode_their_fields() {
    let (mut k, _sent, _probes) = test_client(Some(
        r#"{
            "requestId": "rid-5",
            "status": 200,
            "error": null,
            "volatile": {},
            "result": {
              "hits": [
                {
                  "controller": "document",
                  "action": "get",
                  "index": "foo",
                  "collection": "bar",
                  "value": "allowed"
                }
              ]
            }
        }"#,
    ));
    k.connect().expect("the stub connects");
    k.set_jwt("T1".to_string());
    let rights = AuthController::get_my_rights(&k, "local").expect("the stubbed rights decode");
    assert_eq!(rights.len(), 1);
    assert_eq!(rights[0].controller(), "document");
    assert_eq!(rights[0].action(), "get");
    assert_eq!(rights[0].index(), "foo");
    assert_eq!(rights[0].collection(), "bar");
    assert_eq!(rights[0].value(), "allowed");
}

#[test]
fn token_validity_fields_default_when_absent() {
    let (mut k, _sent, _probes) = test_client(Some(
        r#"{
            "requestId": "rid-6",
            "status": 200,
            "error": null,
            "volatile": {},
            "result": {"valid": true}
        }"#,
    ));
    k.connect().expect("the stub connects");
    let validity = AuthController::check_token(&k, "T1").expect("the stubbed check decodes");
    assert!(validity.valid());
    assert_eq!(validity.state(), "");
    assert_eq!(validity.expires_at(), 0);
}
