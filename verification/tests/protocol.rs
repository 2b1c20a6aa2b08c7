use hashgate::client::{Action, Attempted, Exchanged, HashGateClient, Signal, Stage};
use hashgate::config::HashGateConfig;
use hashgate::error::HashGateError;
use hashgate::http::{Method, Reply, Request};
use hashgate::types::requests::ClientAuthReq;
use hashgate::types::responses::AuthResponse;
use std::collections::VecDeque;

const CLIENT_ID: &str = "550e8400-e29b-41d4-a716-446655440000";

fn transport_error() -> reqwest::Error {
    reqwest::Client::new().get("not a url").build().unwrap_err()
}

fn grant(status: u16, token: Option<&str>) -> Exchanged {
    Ok(Reply {
        status,
        body: Ok(AuthResponse {
            token: token.map(|t| t.to_string()),
            message: None,
            was_successful: token.is_some(),
        }),
    })
}

fn bare_client() -> HashGateClient {
    HashGateClient::try_new(HashGateConfig {
        client_id: CLIENT_ID.to_string(),
        client_secret: "hunter2".to_string(),
    })
    .unwrap()
}

fn client_with(token: &str) -> HashGateClient {
    bare_client().authenticated(grant(200, Some(token))).unwrap()
}

/// A gateway that answers from a script and records what it was asked.
struct Gateway {
    replies: VecDeque<Attempted<&'static str>>,
    grants: VecDeque<Exchanged>,
    tokens_seen: Vec<String>,
    exchanges_seen: Vec<(Request, ClientAuthReq)>,
}

impl Gateway {
    fn new(replies: Vec<Attempted<&'static str>>, grants: Vec<Exchanged>) -> Gateway {
        Gateway {
            replies: replies.into(),
            grants: grants.into(),
            tokens_seen: Vec::new(),
            exchanges_seen: Vec::new(),
        }
    }
}

fn drive(
    client: &mut HashGateClient,
    gateway: &mut Gateway,
) -> Result<Reply<&'static str>, HashGateError> {
    let mut stage = Stage::Ready;
    let mut signal = Signal::Begin;
    loop {
        assert!(stage.accepts(&signal));
        let (next, action) = client.send_request(stage, signal);
        stage = next;
        signal = match action {
            Action::Attempt { token } => {
                gateway.tokens_seen.push(token);
                Signal::Attempted(gateway.replies.pop_front().unwrap())
            }
            Action::Authenticate { request, payload } => {
                gateway.exchanges_seen.push((request, payload));
                Signal::Exchanged(gateway.grants.pop_front().unwrap())
            }
            Action::Finish(outcome) => {
                assert_eq!(stage, Stage::Finished);
                return outcome;
            }
        };
    }
}

#[test]
fn new_client_holds_no_token() {
    let client = bare_client();
    assert!(!client.has_token());
    assert!(client.token().is_none());
}

#[test]
fn new_client_needs_a_uuid() {
    let r = HashGateClient::try_new(HashGateConfig {
        client_id: "nope".to_string(),
        client_secret: "hunter2".to_string(),
    });
    assert!(matches!(r, Err(HashGateError::Uuid(_))));
}

#[test]
fn credential_exchange_goes_to_client_auth() {
    let client = bare_client();
    let (request, payload) = client.credential_exchange();
    assert_eq!(request.method, Method::Post);
    assert_eq!(request.url, "http://localhost:8083/api/client/auth");
    assert_eq!(payload.client_id, CLIENT_ID);
    assert_eq!(payload.client_secret, "hunter2");
}

#[test]
fn credential_exchange_writes_the_id_in_lower_case() {
    let client = HashGateClient::try_new(HashGateConfig {
        client_id: "{550E8400-E29B-41D4-A716-446655440000}".to_string(),
        client_secret: "s".to_string(),
    })
    .unwrap();
    assert_eq!(client.credential_exchange().1.client_id, CLIENT_ID);
}

#[test]
fn authenticate_stores_a_granted_token() {
    let mut client = bare_client();
    assert!(client.try_authenticate(grant(200, Some("t1"))).is_ok());
    assert_eq!(client.token(), Some("t1"));
    assert!(client.try_authenticate(grant(299, Some("t2"))).is_ok());
    assert_eq!(client.token(), Some("t2"));
}

#[test]
fn authenticate_needs_a_success_status() {
    let mut client = client_with("t0");
    let r = client.try_authenticate(grant(401, Some("t1")));
    assert!(matches!(r, Err(HashGateError::FailedSignIn)));
    assert_eq!(client.token(), Some("t0"));
    let r = client.try_authenticate(grant(500, Some("t1")));
    assert!(matches!(r, Err(HashGateError::FailedSignIn)));
    assert_eq!(client.token(), Some("t0"));
    let r = client.try_authenticate(grant(300, Some("t1")));
    assert!(matches!(r, Err(HashGateError::FailedSignIn)));
    assert_eq!(client.token(), Some("t0"));
}

#[test]
fn authenticate_needs_a_token_in_the_body() {
    let mut client = client_with("t0");
    let r = client.try_authenticate(grant(200, None));
    assert!(matches!(r, Err(HashGateError::FailedSignIn)));
    assert_eq!(client.token(), Some("t0"));
    let r = client.try_authenticate(grant(500, None));
    assert!(matches!(r, Err(HashGateError::FailedSignIn)));
    assert_eq!(client.token(), Some("t0"));
}

#[test]
fn authenticate_reports_transport_failures() {
    let mut client = client_with("t0");
    let r = client.try_authenticate(Err(transport_error()));
    assert!(matches!(r, Err(HashGateError::Request(_))));
    assert_eq!(client.token(), Some("t0"));
}

#[test]
fn authenticate_needs_a_body_that_decodes() {
    let mut client = client_with("t0");
    let r = client.try_authenticate(Ok(Reply { status: 200, body: Err(transport_error()) }));
    assert!(matches!(r, Err(HashGateError::FailedSignIn)));
    assert_eq!(client.token(), Some("t0"));
    let r = client.try_authenticate(Ok(Reply { status: 503, body: Err(transport_error()) }));
    assert!(matches!(r, Err(HashGateError::FailedSignIn)));
    assert_eq!(client.token(), Some("t0"));
}

#[test]
fn no_client_without_a_first_token() {
    assert!(matches!(
        bare_client().authenticated(grant(403, None)),
        Err(HashGateError::FailedSignIn)
    ));
    assert!(matches!(
        bare_client().authenticated(Err(transport_error())),
        Err(HashGateError::Request(_))
    ));
    assert_eq!(bare_client().authenticated(grant(200, Some("t"))).unwrap().token(), Some("t"));
}

#[test]
fn post_and_get_build_the_url() {
    let client = client_with("t0");
    let request = client.post("user/get").unwrap();
    assert_eq!(request.method, Method::Post);
    assert_eq!(request.url, "http://localhost:8083/api/user/get");
    let request = client.get("pool").unwrap();
    assert_eq!(request.method, Method::Get);
    assert_eq!(request.url, "http://localhost:8083/api/pool");
}

#[test]
fn post_and_get_need_a_token() {
    let client = bare_client();
    assert!(matches!(client.post("user/get"), Err(HashGateError::NoClientToken)));
    assert!(matches!(client.get("user/get"), Err(HashGateError::NoClientToken)));
}

#[test]
fn stages_accept_what_they_asked_for() {
    let begin: Signal<u8> = Signal::Begin;
    let attempted: Signal<u8> = Signal::Attempted(Ok(Reply { status: 200, body: 0 }));
    let exchanged: Signal<u8> = Signal::Exchanged(grant(200, None));
    assert!(Stage::Ready.accepts(&begin));
    assert!(!Stage::Ready.accepts(&attempted));
    assert!(!Stage::Ready.accepts(&exchanged));
    assert!(!Stage::FirstAttempt.accepts(&begin));
    assert!(Stage::FirstAttempt.accepts(&attempted));
    assert!(!Stage::FirstAttempt.accepts(&exchanged));
    assert!(!Stage::Refreshing.accepts(&begin));
    assert!(!Stage::Refreshing.accepts(&attempted));
    assert!(Stage::Refreshing.accepts(&exchanged));
    assert!(!Stage::SecondAttempt.accepts(&begin));
    assert!(Stage::SecondAttempt.accepts(&attempted));
    assert!(!Stage::SecondAttempt.accepts(&exchanged));
    assert!(!Stage::Finished.accepts(&begin));
    assert!(!Stage::Finished.accepts(&attempted));
    assert!(!Stage::Finished.accepts(&exchanged));
}

#[test]
fn a_reply_that_is_not_401_ends_the_request() {
    let mut client = client_with("t0");
    let mut gateway = Gateway::new(vec![Ok(Reply { status: 200, body: "fine" })], vec![]);
    let reply = drive(&mut client, &mut gateway).unwrap();
    assert_eq!(reply.status, 200);
    assert_eq!(reply.body, "fine");
    assert_eq!(gateway.tokens_seen, vec!["t0".to_string()]);
    assert!(gateway.exchanges_seen.is_empty());
    assert_eq!(client.token(), Some("t0"));
}

#[test]
fn other_error_statuses_are_handed_on() {
    let mut status: u16 = 100;
    while status < 600 {
        if status != 401 {
            let mut client = client_with("t0");
            let mut gateway = Gateway::new(vec![Ok(Reply { status, body: "x" })], vec![]);
            let reply = drive(&mut client, &mut gateway).unwrap();
            assert_eq!(reply.status, status);
            assert_eq!(gateway.tokens_seen.len(), 1);
            assert!(gateway.exchanges_seen.is_empty());
        }
        status += 1;
    }
}

#[test]
fn a_transport_failure_is_not_retried() {
    let mut client = client_with("t0");
    let mut gateway = Gateway::new(vec![Err(transport_error())], vec![]);
    let r = drive(&mut client, &mut gateway);
    assert!(matches!(r, Err(HashGateError::Request(_))));
    assert_eq!(gateway.tokens_seen.len(), 1);
    assert!(gateway.exchanges_seen.is_empty());
}

#[test]
fn a_401_renews_the_token_and_retries_once() {
    let mut client = client_with("old");
    let mut gateway = Gateway::new(
        vec![Ok(Reply { status: 401, body: "expired" }), Ok(Reply { status: 200, body: "fine" })],
        vec![grant(200, Some("new"))],
    );
    let reply = drive(&mut client, &mut gateway).unwrap();
    assert_eq!(reply.status, 200);
    assert_eq!(reply.body, "fine");
    assert_eq!(gateway.tokens_seen, vec!["old".to_string(), "new".to_string()]);
    assert_eq!(gateway.exchanges_seen.len(), 1);
    let (request, payload) = &gateway.exchanges_seen[0];
    assert_eq!(request.method, Method::Post);
    assert_eq!(request.url, "http://localhost:8083/api/client/auth");
    assert_eq!(payload.client_id, CLIENT_ID);
    assert_eq!(payload.client_secret, "hunter2");
    assert_eq!(client.token(), Some("new"));
}

#[test]
fn the_second_attempt_is_final_whatever_its_status() {
    let mut client = client_with("old");
    let mut gateway = Gateway::new(
        vec![Ok(Reply { status: 401, body: "expired" }), Ok(Reply { status: 503, body: "down" })],
        vec![grant(200, Some("new"))],
    );
    let reply = drive(&mut client, &mut gateway).unwrap();
    assert_eq!(reply.status, 503);
    assert_eq!(reply.body, "down");
    assert_eq!(gateway.tokens_seen.len(), 2);
    assert_eq!(gateway.exchanges_seen.len(), 1);
}

#[test]
fn a_second_401_is_handed_on() {
    let mut client = client_with("old");
    let mut gateway = Gateway::new(
        vec![
            Ok(Reply { status: 401, body: "expired" }),
            Ok(Reply { status: 401, body: "still not" }),
            Ok(Reply { status: 200, body: "never asked for" }),
        ],
        vec![grant(200, Some("new")), grant(200, Some("newer"))],
    );
    let reply = drive(&mut client, &mut gateway).unwrap();
    assert_eq!(reply.status, 401);
    assert_eq!(reply.body, "still not");
    assert_eq!(gateway.tokens_seen, vec!["old".to_string(), "new".to_string()]);
    assert_eq!(gateway.exchanges_seen.len(), 1);
    assert_eq!(gateway.replies.len(), 1);
    assert_eq!(gateway.grants.len(), 1);
    assert_eq!(client.token(), Some("new"));
}

#[test]
fn a_failed_second_attempt_is_a_request_error() {
    let mut client = client_with("old");
    let mut gateway = Gateway::new(
        vec![Ok(Reply { status: 401, body: "expired" }), Err(transport_error())],
        vec![grant(200, Some("new"))],
    );
    let r = drive(&mut client, &mut gateway);
    assert!(matches!(r, Err(HashGateError::Request(_))));
    assert_eq!(gateway.tokens_seen.len(), 2);
    assert_eq!(client.token(), Some("new"));
}

#[test]
fn a_failed_renewal_is_the_outcome() {
    let mut client = client_with("old");
    let mut gateway =
        Gateway::new(vec![Ok(Reply { status: 401, body: "expired" })], vec![grant(403, None)]);
    let r = drive(&mut client, &mut gateway);
    assert!(matches!(r, Err(HashGateError::FailedSignIn)));
    assert_eq!(gateway.tokens_seen, vec!["old".to_string()]);
    assert_eq!(gateway.exchanges_seen.len(), 1);
    assert_eq!(client.token(), Some("old"));

    let mut gateway = Gateway::new(
        vec![Ok(Reply { status: 401, body: "expired" })],
        vec![Err(transport_error())],
    );
    let r = drive(&mut client, &mut gateway);
    assert!(matches!(r, Err(HashGateError::Request(_))));
    assert_eq!(gateway.tokens_seen.len(), 1);
    assert_eq!(client.token(), Some("old"));
}

#[test]
fn without_a_token_nothing_is_sent() {
    let mut client = bare_client();
    let mut gateway = Gateway::new(vec![Ok(Reply { status: 200, body: "fine" })], vec![]);
    let r = drive(&mut client, &mut gateway);
    assert!(matches!(r, Err(HashGateError::NoClientToken)));
    assert!(gateway.tokens_seen.is_empty());
    assert!(gateway.exchanges_seen.is_empty());
    assert_eq!(gateway.replies.len(), 1);
}

#[test]
fn each_step_names_the_next_stage() {
    let mut client = client_with("old");
    let (stage, action) = client.send_request::<u8>(Stage::Ready, Signal::Begin);
    assert_eq!(stage, Stage::FirstAttempt);
    assert!(matches!(action, Action::Attempt { token } if token == "old"));
    let (stage, action) =
        client.send_request(stage, Signal::Attempted(Ok(Reply { status: 401, body: 1u8 })));
    assert_eq!(stage, Stage::Refreshing);
    assert!(matches!(action, Action::Authenticate { .. }));
    let (stage, action) = client.send_request::<u8>(stage, Signal::Exchanged(grant(200, Some("new"))));
    assert_eq!(stage, Stage::SecondAttempt);
    assert!(matches!(action, Action::Attempt { token } if token == "new"));
    let (stage, action) =
        client.send_request(stage, Signal::Attempted(Ok(Reply { status: 401, body: 2u8 })));
    assert_eq!(stage, Stage::Finished);
    assert!(matches!(action, Action::Finish(Ok(Reply { status: 401, body: 2 }))));
}

#[test]
fn only_the_first_attempt_can_lead_to_an_exchange() {
    let mut client = client_with("t0");
    let (stage, action) = client
        .send_request(Stage::SecondAttempt, Signal::Attempted(Ok(Reply { status: 401, body: 0u8 })));
    assert_eq!(stage, Stage::Finished);
    assert!(matches!(action, Action::Finish(Ok(Reply { status: 401, body: 0 }))));
    let (stage, action) =
        client.send_request(Stage::Ready, Signal::Attempted(Ok(Reply { status: 401, body: 0u8 })));
    assert_eq!(stage, Stage::Finished);
    assert!(matches!(action, Action::Finish(Ok(Reply { status: 401, body: 0 }))));
    let (stage, action) = client
        .send_request(Stage::FirstAttempt, Signal::Attempted(Ok(Reply { status: 401, body: 0u8 })));
    assert_eq!(stage, Stage::Refreshing);
    assert!(matches!(action, Action::Authenticate { .. }));
    assert_eq!(client.token(), Some("t0"));
}
