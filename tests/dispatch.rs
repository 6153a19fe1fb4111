use std::cell::Cell;

use telegram_bot::{Action, ApiError, Dispatch, Event, Phase};
use telegram_bot_raw::{
    Body, DetachedRequestType, GetMe, HttpRequest, HttpResponse, JsonIdResponse, Method, Request, RequestUrl,
    ResponseType, User, UserId,
};

const HAPPY_BODY: &str =
    r#"{"ok":true,"result":{"id":42,"is_bot":true,"first_name":"x","username":"x"}}"#;

fn reply(body: &str) -> HttpResponse {
    HttpResponse { body: Some(body.as_bytes().to_vec()) }
}

fn read_user(resp: HttpResponse) -> Result<User, telegram_bot_raw::Error> {
    <JsonIdResponse<User> as ResponseType>::deserialize(resp)
}

/// Counts of what a driven call asked for.
struct Counts {
    exchanges: Cell<u32>,
    deserializations: Cell<u32>,
}

impl Counts {
    fn new() -> Counts {
        Counts { exchanges: Cell::new(0), deserializations: Cell::new(0) }
    }
}

/// Run one call to its end, as the driver does, with a mock connector.
/// `deadline_before_exchange` feeds the deadline while the exchange is out.
fn drive(
    timed: bool,
    serialized: Result<HttpRequest, telegram_bot_raw::Error>,
    connector: impl Fn(HttpRequest) -> Result<HttpResponse, ApiError>,
    deadline_before_exchange: bool,
    counts: &Counts,
) -> Action<User> {
    let mut d = Dispatch::new(timed);
    let mut action = d.step(Event::Serialized(serialized));
    loop {
        action = match action {
            Action::Exchange(req) => {
                counts.exchanges.set(counts.exchanges.get() + 1);
                if deadline_before_exchange {
                    let a = d.step::<User>(Event::DeadlineElapsed);
                    if !matches!(a, Action::Wait) {
                        return a;
                    }
                }
                d.step(Event::Exchanged(connector(req)))
            }
            Action::Deserialize(resp) => {
                counts.deserializations.set(counts.deserializations.get() + 1);
                d.step(Event::Deserialized(read_user(resp)))
            }
            other => return other,
        };
    }
}

#[test]
fn happy_path_yields_user_after_one_exchange() {
    let counts = Counts::new();
    let out = drive(false, GetMe.serialize(), |_| Ok(reply(HAPPY_BODY)), false, &counts);
    match out {
        Action::Respond(user) => {
            assert_eq!(user.id, UserId::new(42));
            assert_eq!(user.first_name, "x");
            assert_eq!(user.username, Some("x".to_string()));
            assert!(user.is_bot);
        }
        _ => panic!("expected a response"),
    }
    assert_eq!(counts.exchanges.get(), 1);
    assert_eq!(counts.deserializations.get(), 1);
}

#[test]
fn transport_failure_is_surfaced_without_deserializing() {
    let counts = Counts::new();
    let out = drive(
        false,
        GetMe.serialize(),
        |_| Err(ApiError::Transport("connection reset".to_string())),
        false,
        &counts,
    );
    match out {
        Action::Fail(ApiError::Transport(msg)) => assert_eq!(msg, "connection reset"),
        _ => panic!("expected a transport failure"),
    }
    assert_eq!(counts.exchanges.get(), 1);
    assert_eq!(counts.deserializations.get(), 0);
}

#[test]
fn deadline_elapsed_yields_no_answer() {
    let counts = Counts::new();
    let out = drive(true, GetMe.serialize(), |_| Ok(reply(HAPPY_BODY)), true, &counts);
    assert!(matches!(out, Action::Expire));
    assert_eq!(counts.exchanges.get(), 1);
    assert_eq!(counts.deserializations.get(), 0);
}

#[test]
fn deadline_not_elapsed_yields_user() {
    let counts = Counts::new();
    let out = drive(true, GetMe.serialize(), |_| Ok(reply(HAPPY_BODY)), false, &counts);
    match out {
        Action::Respond(user) => assert_eq!(user.id, UserId::new(42)),
        _ => panic!("expected a response"),
    }
}

/// A request whose serialize step always fails.
struct BadRequest;

impl Request for BadRequest {
    type Type = DetachedRequestType;
    type Response = JsonIdResponse<User>;

    fn serialize(&self) -> Result<HttpRequest, telegram_bot_raw::Error> {
        match read_user(reply("not json")) {
            Ok(_) => panic!("the body is not json"),
            Err(e) => Err(e),
        }
    }
}

#[test]
fn serialization_failure_never_calls_connector() {
    let counts = Counts::new();
    let out = drive(false, BadRequest.serialize(), |_| Ok(reply(HAPPY_BODY)), false, &counts);
    assert!(matches!(out, Action::Fail(ApiError::Serialize(_))));
    assert_eq!(counts.exchanges.get(), 0);
    assert_eq!(counts.deserializations.get(), 0);
}

#[test]
fn api_envelope_failure_is_surfaced() {
    let counts = Counts::new();
    let out = drive(
        false,
        GetMe.serialize(),
        |_| Ok(reply(r#"{"ok":false,"description":"Unauthorized","error_code":401}"#)),
        false,
        &counts,
    );
    match out {
        Action::Fail(ApiError::Deserialize(e)) => assert_eq!(e.to_string(), "Unauthorized"),
        _ => panic!("expected an API failure"),
    }
    assert_eq!(counts.deserializations.get(), 1);
}

#[test]
fn events_out_of_turn_are_ignored() {
    let mut d = Dispatch::new(false);
    let a = d.step::<User>(Event::Exchanged(Ok(reply(HAPPY_BODY))));
    assert!(matches!(a, Action::Wait));
    assert_eq!(d.phase(), Phase::Serializing);
    let a = d.step::<User>(Event::Deserialized(read_user(reply(HAPPY_BODY))));
    assert!(matches!(a, Action::Wait));
    assert_eq!(d.phase(), Phase::Serializing);
}

#[test]
fn untimed_call_ignores_deadline() {
    let mut d = Dispatch::new(false);
    assert!(!d.is_timed());
    let a = d.step::<User>(Event::DeadlineElapsed);
    assert!(matches!(a, Action::Wait));
    assert_eq!(d.phase(), Phase::Serializing);
}

#[test]
fn settled_call_takes_no_more_steps() {
    let mut d = Dispatch::new(true);
    let a = d.step::<User>(Event::DeadlineElapsed);
    assert!(matches!(a, Action::Expire));
    assert_eq!(d.phase(), Phase::Expired);
    let req = HttpRequest { url: RequestUrl::method("getMe"), method: Method::Get, body: Body::Empty };
    let a = d.step::<User>(Event::Serialized(Ok(req)));
    assert!(matches!(a, Action::Wait));
    let a = d.step::<User>(Event::DeadlineElapsed);
    assert!(matches!(a, Action::Wait));
    assert_eq!(d.phase(), Phase::Expired);
}

#[test]
fn exchange_carries_the_serialized_request() {
    let mut d = Dispatch::new(false);
    let a = d.step::<User>(Event::Serialized(GetMe.serialize()));
    match a {
        Action::Exchange(req) => {
            assert_eq!(req.name(), "getMe");
            assert_eq!(req.url, RequestUrl::method("getMe"));
        }
        _ => panic!("expected an exchange"),
    }
    assert_eq!(d.phase(), Phase::AwaitingTransport);
}

#[test]
fn unreadable_reply_is_a_deserialize_failure() {
    let counts = Counts::new();
    let out = drive(false, GetMe.serialize(), |_| Ok(reply("{")), false, &counts);
    assert!(matches!(out, Action::Fail(ApiError::Deserialize(_))));
    assert_eq!(counts.exchanges.get(), 1);
}

#[test]
fn transport_error_is_recognised() {
    assert!(ApiError::Transport("reset".to_string()).is_transport());
    assert!(!ApiError::Serialize(BadRequest.serialize().err().unwrap()).is_transport());
}
