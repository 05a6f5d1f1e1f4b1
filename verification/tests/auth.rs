//! The authentication operations, exercised end to end through a stub
//! transport that answers with fixed reply envelopes, so the suite runs
//! without a server; the HTTP transport's own state machine is exercised
//! by the tests beside these.

use kuzzle_sdk::codec::parse_json_str;
use kuzzle_sdk::controllers::AuthController;
use kuzzle_sdk::json::{JsonMap, JsonValue};
use kuzzle_sdk::kuzzle::Kuzzle;
use kuzzle_sdk::protocols::Protocol;
use kuzzle_sdk::types::{KuzzleRequest, KuzzleResponse, QueryOptions, SdkError};
use std::cell::RefCell;
use std::rc::Rc;

/// A transport test double: it answers every send with the configured
/// reply envelope, and records every descriptor dispatched through it.
struct StubTransport {
    ready: bool,
    reply: Option<String>,
    sent: Rc<RefCell<Vec<KuzzleRequest>>>,
}

impl Protocol for StubTransport {
    fn ready(&self) -> bool {
        self.ready
    }

    fn once(&self) -> Result<(), SdkError> {
        Err(SdkError::Unsupported { context: "StubTransport::once".to_string() })
    }

    fn listener_count(&self) -> Result<(), SdkError> {
        Err(SdkError::Unsupported { context: "StubTransport::listener_count".to_string() })
    }

    fn connect(&mut self) -> Result<(), SdkError> {
        self.ready = true;
        Ok(())
    }

    fn send(&self, req: KuzzleRequest, _options: QueryOptions) -> Result<KuzzleResponse, SdkError> {
        if !self.ready {
            return Err(SdkError::NotReady);
        }
        self.sent.borrow_mut().push(req);
        match &self.reply {
            Some(text) => match parse_json_str(text) {
                Some(v) => KuzzleResponse::from_json(&v),
                None => Err(SdkError::Decode { message: "the reply is not JSON".to_string() }),
            },
            None => Err(SdkError::Network { message: "no reply is configured".to_string() }),
        }
    }

    fn close(&mut self) {
        self.ready = false;
    }

    fn is_ready(&self) -> bool {
        self.ready
    }
}

/// A client over a stub transport answering `reply`, and the log of the
/// descriptors it dispatched.
fn test_client(reply: Option<&str>) -> (Kuzzle<StubTransport>, Rc<RefCell<Vec<KuzzleRequest>>>) {
    let sent = Rc::new(RefCell::new(Vec::new()));
    let transport = StubTransport {
        ready: false,
        reply: reply.map(|s| s.to_string()),
        sent: sent.clone(),
    };
    (Kuzzle::new(transport), sent)
}

#[test]
fn check_token_ok() {
    let (mut k, _sent) = test_client(Some(
        r#"{
                "requestId": "da9040aa-9529-4fb9-b627-a38736321364",
                "status": 200,
                "error": null,
                "controller": "auth",
                "action": "checkToken",
                "volatile": {},
                "result": {
                  "valid": true,
                  "expiresAt": 1538557452248
                }
            }"#,
    ));
    k.connect().expect("Unable to connect to Kuzzle server");
    let res = AuthController::check_token(&k, "veryCoolAndLongToken");

    assert!(res.is_ok());
    let token_validity = res.unwrap();
    assert!(token_validity.valid());
    assert_eq!(token_validity.expires_at(), 1538557452248);
}

#[test]
fn check_token_ok_not_valid() {
    let (mut k, _sent) = test_client(Some(
        r#"{
                "requestId": "da9040aa-9529-4fb9-b627-a38736321364",
                "status": 200,
                "error": null,
                "controller": "auth",
                "action": "checkToken",
                "volatile": {},
                "result": {
                  "valid": false,
                  "state": "Json Web Token Error"
                }
            }"#,
    ));
    k.connect().expect("Unable to connect to Kuzzle server");
    let res = AuthController::check_token(&k, "veryCoolAndLongToken");

    assert!(res.is_ok());
    let token_validity = res.unwrap();
    assert!(!token_validity.valid());
    assert_eq!(token_validity.state(), "Json Web Token Error".to_string());
}

#[test]
fn check_token_fail_error() {
    let (mut k, _sent) = test_client(Some(
        r#"{
                "requestId": "da9040aa-9529-4fb9-b627-a38736321364",
                "status": 403,
                "error": {
                  "message": "Forbidden action [null/null/auth/checkToken] for user -1",
                  "status": 403,
                  "stack": "ForbiddenError: Forbidden action [null/null/auth/checkToken] for user -1\n"
                },
                "controller": "auth",
                "action": "checkToken",
                "volatile": {},
                "result": null
            }"#,
    ));
    k.connect().expect("Unable to connect to Kuzzle server");
    let res = AuthController::check_token(&k, "veryCoolAndLongToken");

    assert!(res.is_err());
}

#[test]
fn check_token_fail_empty_arg() {
    let (mut k, _sent) = test_client(None);
    k.connect().expect("Unable to connect to Kuzzle server");
    let res = AuthController::check_token(&k, "");

    assert!(res.is_err());
}

#[test]
fn create_my_credentials_ok() {
    let (mut k, _sent) = test_client(Some(
        r#"{
                "requestId": "da9040aa-9529-4fb9-b627-a38736321364",
                "status": 200,
                "error": null,
                "controller": "auth",
                "action": "createMyCredentials",
                "volatile": {},
                "result": {
                  "username": "newUser",
                  "kuid": "myNewUserKUID"
                }
            }"#,
    ));
    k.connect().expect("Unable to connect to Kuzzle server");
    k.set_jwt("mySuperToken".to_string());
    let res = AuthController::create_my_credentials(&k, "local", "admin", "password");

    assert!(&res.is_ok());
    assert_eq!(
        res.unwrap().get("username").unwrap().as_str().unwrap(),
        "newUser"
    );
}

#[test]
fn create_my_credentials_fail_error() {
    let (mut k, _sent) = test_client(Some(
        r#"{
                "requestId": "da9040aa-9529-4fb9-b627-a38736321364",
                "status": 412,
                "error": {
                  "message": "A strategy already exists for user \"-1\".",
                  "status": 412,
                  "stack": "Precondition Failed: A strategy already exists for user \"-1\".\n"
                },
                "controller": "auth",
                "action": "createMyCredentials",
                "volatile": {},
                "result": null
            }"#,
    ));
    k.connect().expect("Unable to connect to Kuzzle server");
    k.set_jwt("mySuperToken".to_string());
    let res = AuthController::create_my_credentials(&k, "local", "admin", "password");

    assert!(res.is_err());
}

#[test]
fn create_my_credentials_fail_empty_args() {
    let (mut k, _sent) = test_client(None);
    k.connect().expect("Unable to connect to Kuzzle server");
    k.set_jwt("mySuperToken".to_string());
    let res = AuthController::create_my_credentials(&k, "local", "", "");

    assert!(res.is_err());
}

#[test]
fn create_my_credentials_fail_not_logged_in() {
    let (mut k, _sent) = test_client(None);
    k.connect().expect("Unable to connect to Kuzzle server");
    let res = AuthController::create_my_credentials(&k, "local", "username", "password");

    assert!(res.is_err());
}

#[test]
fn credentials_exist_ok() {
    let (mut k, _sent) = test_client(Some(
        r#"{
                "requestId": "da9040aa-9529-4fb9-b627-a38736321364",
                "status": 200,
                "error": null,
                "controller": "auth",
                "action": "credentialsExist",
                "volatile": {},
                "result": true
            }"#,
    ));
    k.connect().expect("Unable to connect to Kuzzle server");
    k.set_jwt("mySuperToken".to_string());
    let res = AuthController::credentials_exist(&k, "local");

    assert!(res.is_ok());
    assert!(res.unwrap());
}

#[test]
fn credentials_exist_fail_error() {
    let (mut k, _sent) = test_client(Some(
        r#"{
                "requestId": "da9040aa-9529-4fb9-b627-a38736321364",
                "status": 200,
                "error": {
                  "message": "Forbidden action [null/null/auth/credentialsExist] for user -1",
                  "status": 403,
                  "stack": "ForbiddenError: Forbidden action [null/null/auth/credentialsExist] for user -1\n"
                },
                "controller": "auth",
                "action": "credentialsExist",
                "volatile": {},
                "result": null
            }"#,
    ));
    k.connect().expect("Unable to connect to Kuzzle server");
    k.set_jwt("mySuperBadToken".to_string());
    let res = AuthController::credentials_exist(&k, "local");

    assert!(res.is_err());
}

#[test]
fn credentials_exist_fail_empty_strategy() {
    let (mut k, _sent) = test_client(None);
    k.connect().expect("Unable to connect to Kuzzle server");
    k.set_jwt("mySuperToken".to_string());
    let res = AuthController::credentials_exist(&k, "");

    assert!(res.is_err());
}

#[test]
fn credentials_exist_fail_no_jwt() {
    let (mut k, _sent) = test_client(None);
    k.connect().expect("Unable to connect to Kuzzle server");
    let res = AuthController::credentials_exist(&k, "local");

    assert!(res.is_err());
}

#[test]
fn delete_my_credentials_ok() {
    let (mut k, _sent) = test_client(Some(
        r#"{
                "requestId": "da9040aa-9529-4fb9-b627-a38736321364",
                "status": 200,
                "error": null,
                "controller": "auth",
                "action": "deleteMyCredentials",
                "volatile": {},
                "result": {
                  "acknowledged": true
                }
            }"#,
    ));
    k.connect().expect("Unable to connect to Kuzzle server");
    k.set_jwt("mySuperToken".to_string());
    let res = AuthController::delete_my_credentials(&k, "local");

    assert!(res.is_ok());
    assert!(res.unwrap());
}

#[test]
fn delete_my_credentials_fail_error() {
    let (mut k, _sent) = test_client(Some(
        r#"{
                "requestId": "da9040aa-9529-4fb9-b627-a38736321364",
                "status": 403,
                "error": {
                  "message": "Forbidden action [null/null/auth/deleteMyCredentials] for user -1",
                  "status": 403,
                  "stack": "ForbiddenError: Forbidden action [null/null/auth/deleteMyCredentials] for user -1\n"
                },
                "controller": "auth",
                "action": "deleteMyCredentials",
                "volatile": {},
                "result": null
            }"#,
    ));
    k.connect().expect("Unable to connect to Kuzzle server");
    k.set_jwt("mySuperBadToken".to_string());
    let res = AuthController::delete_my_credentials(&k, "local");

    assert!(res.is_err());
}

#[test]
fn delete_my_credentials_fail_empty_strategy() {
    let (mut k, _sent) = test_client(None);
    k.connect().expect("Unable to connect to Kuzzle server");
    k.set_jwt("mySuperToken".to_string());
    let res = AuthController::delete_my_credentials(&k, "");

    assert!(res.is_err());
}

#[test]
fn delete_my_credentials_fail_no_jwt() {
    let (mut k, _sent) = test_client(None);
    k.connect().expect("Unable to connect to Kuzzle server");
    let res = AuthController::delete_my_credentials(&k, "local");

    assert!(res.is_err());
}

#[test]
fn get_current_user_ok() {
    let (mut k, _sent) = test_client(Some(
        r#"{
                "requestId": "da9040aa-9529-4fb9-b627-a38736321364",
                "status": 200,
                "error": null,
                "controller": "auth",
                "action": "getCurrentUser",
                "volatile": {},
                "result": {
                  "_id": "kuid",
                  "_source": {
                    "profileIds": ["customProfile1", "customProfile2"],
                    "name": {
                      "first": "Steve",
                      "last": "Wozniak"
                    }
                  },
                  "strategies": ["local"]
                }
            }"#,
    ));
    k.connect().expect("Unable to connect to Kuzzle server");
    k.set_jwt("mySuperToken".to_string());
    let res = AuthController::get_current_user(&k, "local");

    assert!(res.is_ok());
    let user = res.unwrap();
    assert_eq!(user.id(), "kuid".to_string());
    assert_eq!(user.strategies()[0], "local".to_string());
}

#[test]
fn get_current_user_fail_error() {
    let (mut k, _sent) = test_client(Some(
        r#"{
                "requestId": "da9040aa-9529-4fb9-b627-a38736321364",
                "status": 403,
                "error": {
                  "message": "Forbidden action [null/null/auth/getCurrentUser] for user -1",
                  "status": 403,
                  "stack": "ForbiddenError: Forbidden action [null/null/auth/getCurrentUser] for user -1\n"
                },
                "controller": "auth",
                "action": "getCurrentUser",
                "volatile": {},
                "result": null
            }"#,
    ));
    k.connect().expect("Unable to connect to Kuzzle server");
    k.set_jwt("mySuperBadToken".to_string());
    let res = AuthController::get_current_user(&k, "local");

    assert!(res.is_err());
}

#[test]
fn get_current_user_fail_empty_strategy() {
    let (mut k, _sent) = test_client(None);
    k.connect().expect("Unable to connect to Kuzzle server");
    k.set_jwt("mySuperToken".to_string());
    let res = AuthController::get_current_user(&k, "");

    assert!(res.is_err());
}

#[test]
fn get_current_user_fail_no_jwt() {
    let (mut k, _sent) = test_client(None);
    k.connect().expect("Unable to connect to Kuzzle server");
    let res = AuthController::get_current_user(&k, "local");

    assert!(res.is_err());
}

#[test]
fn get_my_credentials_ok() {
    let (mut k, _sent) = test_client(Some(
        r#"{
                "requestId": "da9040aa-9529-4fb9-b627-a38736321364",
                "status": 200,
                "error": null,
                "controller": "auth",
                "action": "getMyCredentials",
                "volatile": {},
                "result": {
                  "username": "MyUser",
                  "kuid": "kuid"
                }
            }"#,
    ));
    k.connect().expect("Unable to connect to Kuzzle server");
    k.set_jwt("mySuperToken".to_string());
    let res = AuthController::get_my_credentials(&k, "local");

    assert!(res.is_ok());
    let response = res.unwrap();
    assert_eq!(
        response.get("username").unwrap().as_str().unwrap(),
        "MyUser"
    );
    assert_eq!(response.get("kuid").unwrap().as_str().unwrap(), "kuid");
}

#[test]
fn get_my_credentials_fail_error() {
    let (mut k, _sent) = test_client(Some(
        r#"{
                "requestId": "da9040aa-9529-4fb9-b627-a38736321364",
                "status": 403,
                "error": {
                  "message": "Forbidden action [null/null/auth/getMyCredentials] for user -1",
                  "status": 403,
                  "stack": "ForbiddenError: Forbidden action [null/null/auth/getMyCredentials] for user -1\n"
                },
                "controller": "auth",
                "action": "getMyCredentials",
                "volatile": {},
                "result": null
            }"#,
    ));
    k.connect().expect("Unable to connect to Kuzzle server");
    k.set_jwt("mySuperBadToken".to_string());
    let res = AuthController::get_my_credentials(&k, "local");

    assert!(res.is_err());
}

#[test]
fn get_my_credentials_fail_empty_strategy() {
    let (mut k, _sent) = test_client(None);
    k.connect().expect("Unable to connect to Kuzzle server");
    k.set_jwt("mySuperToken".to_string());
    let res = AuthController::get_my_credentials(&k, "");

    assert!(res.is_err());
}

#[test]
fn get_my_credentials_fail_no_jwt() {
    let (mut k, _sent) = test_client(None);
    k.connect().expect("Unable to connect to Kuzzle server");
    let res = AuthController::get_my_credentials(&k, "local");

    assert!(res.is_err());
}

#[test]
fn get_my_rights_ok() {
    let (mut k, _sent) = test_client(Some(
        r#"{
                "requestId": "da9040aa-9529-4fb9-b627-a38736321364",
                "status": 200,
                "error": null,
                "controller": "auth",
                "action": "getMyRights",
                "volatile": {},
                "result": {
                  "hits": [
                    {
                      "controller": "document",
                      "action": "get",
                      "index": "foo",
                      "collection": "bar",
                      "value": "allowed"
                    },
                    {
                      "controller": "document",
                      "action": "search",
                      "index": "foo",
                      "collection": "bar",
                      "value": "allowed"
                    },
                    {
                      "controller": "document",
                      "action": "write",
                      "index": "foo",
                      "collection": "bar",
                      "value": "denied"
                    }
                  ]
                }
            }"#,
    ));
    k.connect().expect("Unable to connect to Kuzzle server");
    k.set_jwt("mySuperToken".to_string());
    let res = AuthController::get_my_rights(&k, "local");

    assert!(res.is_ok());
    let my_rights = res.unwrap();
    assert_eq!(my_rights.len(), 3);
}

#[test]
fn get_my_rights_fail_error() {
    let (mut k, _sent) = test_client(Some(
        r#"{
                "requestId": "da9040aa-9529-4fb9-b627-a38736321364",
                "status": 403,
                "error": {
                  "message": "Forbidden action [null/null/auth/getMyRights] for user -1",
                  "status": 403,
                  "stack": "ForbiddenError: Forbidden action [null/null/auth/getMyRights] for user -1\n"
                },
                "controller": "auth",
                "action": "getMyRights",
                "volatile": {},
                "result": null
            }"#,
    ));
    k.connect().expect("Unable to connect to Kuzzle server");
    k.set_jwt("mySuperBadToken".to_string());
    let res = AuthController::get_my_rights(&k, "local");

    assert!(res.is_err());
}

#[test]
fn get_my_rights_fail_empty_strategy() {
    let (mut k, _sent) = test_client(None);
    k.connect().expect("Unable to connect to Kuzzle server");
    k.set_jwt("mySuperToken".to_string());
    let res = AuthController::get_my_rights(&k, "");

    assert!(res.is_err());
}

#[test]
fn get_my_rights_fail_no_jwt() {
    let (mut k, _sent) = test_client(None);
    k.connect().expect("Unable to connect to Kuzzle server");
    let res = AuthController::get_my_rights(&k, "local");

    assert!(res.is_err());
}

#[test]
fn get_strategies_ok() {
    let (mut k, _sent) = test_client(Some(
        r#"{
                "requestId": "da9040aa-9529-4fb9-b627-a38736321364",
                "status": 200,
                "error": null,
                "controller": "auth",
                "action": "getStrategies",
                "volatile": {},
                "result": [
                  "local",
                  "facebook"
                ]
            }"#,
    ));
    k.connect().expect("Unable to connect to Kuzzle server");
    let res = AuthController::get_strategies(&k);

    assert!(res.is_ok());
    let strategies = res.unwrap();
    assert_eq!(strategies.len(), 2);
}

#[test]
fn get_strategies_fail_error() {
    let (mut k, _sent) = test_client(Some(
        r#"{
                "requestId": "da9040aa-9529-4fb9-b627-a38736321364",
                "status": 403,
                "error": {
                  "message": "Forbidden action [null/null/auth/getStrategies] for user -1",
                  "status": 403,
                  "stack": "ForbiddenError: Forbidden action [null/null/auth/getStrategies] for user -1\n"
                },
                "controller": "auth",
                "action": "getStrategies",
                "volatile": {},
                "result": null
            }"#,
    ));
    k.connect().expect("Unable to connect to Kuzzle server");
    let res = AuthController::get_strategies(&k);

    assert!(res.is_err());
}

#[test]
fn login_ok() {
    let (mut k, _sent) = test_client(Some(
        r#"{
                "requestId": "da9040aa-9529-4fb9-b627-a38736321364",
                "status": 200,
                "error": null,
                "controller": "auth",
                "action": "login",
                "volatile": {},
                "result": {
                  "_id": "user-kuid",
                  "jwt": "aSuperJwtToken",
                  "expiresAt": 1321085955000,
                  "ttl": 360000
                }
            }"#,
    ));
    k.connect().expect("Unable to connect to Kuzzle server");
    let res = AuthController::login(&mut k, "local", "admin", "password");

    assert!(res.is_ok());
    assert_eq!(res.unwrap(), k.jwt());
}

#[test]
fn login_fail_bad_credentials() {
    let (mut k, _sent) = test_client(Some(
        r#"{
                "requestId": "da9040aa-9529-4fb9-b627-a38736321364",
                "status": 401,
                "error": {
                  "message": "wrong username or password",
                  "status": 401,
                  "stack": "UnauthorizedError: wrong username or password\n"
                },
                "controller": "auth",
                "action": "login",
                "volatile": {},
                "result": null
            }"#,
    ));
    k.connect().expect("Unable to connect to Kuzzle server");
    let res = AuthController::login(&mut k, "local", "admin", "badPassword");

    assert!(res.is_err());
}

#[test]
fn login_fail_empty_args() {
    let (mut k, _sent) = test_client(None);
    k.connect().expect("Unable to connect to Kuzzle server");
    let res = AuthController::login(&mut k, "local", "", "");

    assert!(res.is_err());
}

#[test]
fn logout_ok() {
    let (mut k, _sent) = test_client(Some(
        r#"{
                "requestId": "da9040aa-9529-4fb9-b627-a38736321364",
                "status": 200,
                "error": null,
                "controller": "auth",
                "action": "logout",
                "volatile": {},
                "result": {}
            }"#,
    ));
    k.connect().expect("Unable to connect to Kuzzle server");
    k.set_jwt("mySuperToken".to_string());
    let res = AuthController::logout(&mut k);

    assert!(res.is_ok());
    assert_eq!("", k.jwt());
}

#[test]
fn logout_fail_no_jwt() {
    let (mut k, _sent) = test_client(None);
    k.connect().expect("Unable to connect to Kuzzle server");
    let res = AuthController::logout(&mut k);

    assert!(res.is_err());
}

#[test]
fn update_my_credentials_ok() {
    let (mut k, _sent) = test_client(Some(
        r#"{
                "requestId": "da9040aa-9529-4fb9-b627-a38736321364",
                "status": 200,
                "error": null,
                "controller": "auth",
                "action": "updateMyCredentials",
                "result": {
                  "username": "newUser",
                  "kuid": "myNewUserKUID"
                }
            }"#,
    ));
    k.connect().expect("Unable to connect to Kuzzle server");
    k.set_jwt("mySuperToken".to_string());
    let mut new_content = JsonMap::new();
    new_content.insert("password".to_string(), JsonValue::Str("newpassword".to_string()));
    let res = AuthController::update_my_credentials(&k, "local", &new_content);

    assert!(&res.is_ok());
    assert_eq!(
        res.unwrap().get("username").unwrap().as_str().unwrap(),
        "newUser"
    );
}

#[test]
fn update_my_credentials_fail_error() {
    let (mut k, _sent) = test_client(Some(
        r#"{
                "requestId": "da9040aa-9529-4fb9-b627-a38736321364",
                "status": 412,
                "error": {
                  "message": "A strategy already exists for user \"-1\".",
                  "status": 412,
                  "stack": "Precondition Failed: A strategy already exists for user \"-1\".\n"
                },
                "controller": "auth",
                "action": "updateMyCredentials",
                "volatile": {},
                "result": null
            }"#,
    ));
    k.connect().expect("Unable to connect to Kuzzle server");
    k.set_jwt("mySuperToken".to_string());
    let mut new_content = JsonMap::new();
    new_content.insert("password".to_string(), JsonValue::Str("newpassword".to_string()));
    let res = AuthController::update_my_credentials(&k, "local", &new_content);

    assert!(res.is_err());
}

#[test]
fn update_my_credentials_fail_empty_args() {
    let (mut k, _sent) = test_client(None);
    k.connect().expect("Unable to connect to Kuzzle server");
    k.set_jwt("mySuperToken".to_string());
    let mut new_content = JsonMap::new();
    new_content.insert("password".to_string(), JsonValue::Str("newpassword".to_string()));
    let res = AuthController::update_my_credentials(&k, "local", &new_content);

    assert!(res.is_err());
}

#[test]
fn update_my_credentials_fail_not_logged_in() {
    let (mut k, _sent) = test_client(None);
    k.connect().expect("Unable to connect to Kuzzle server");
    let mut new_content = JsonMap::new();
    new_content.insert("password".to_string(), JsonValue::Str("newpassword".to_string()));
    let res = AuthController::update_my_credentials(&k, "local", &new_content);

    assert!(res.is_err());
}
