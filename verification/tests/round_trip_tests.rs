use server_fn::client::{call_result, is_success_status, CallOutcome};
use server_fn::descriptor::Encoding;
use server_fn::engine::{error_reply, settle_rpc, HandlerOutcome, Reply, Settled};
use server_fn::error::ServerFnError;
use server_fn::wire::{decode_error, with_app_error};

// what a host does around the library, with the codecs it brings
fn serve_json(result: Result<(String, u32), ServerFnError<String>>) -> Reply {
    let outcome = match result {
        Ok(value) => match serde_json::to_vec(&value) {
            Ok(body) => HandlerOutcome::Returned(body),
            Err(error) => HandlerOutcome::Unencodable(error.to_string()),
        },
        Err(error) => HandlerOutcome::Failed(error),
    };
    match settle_rpc(Encoding::Json, outcome) {
        Settled::Respond(reply) => reply,
        Settled::Report(error) => {
            let data = match &error {
                ServerFnError::AppError(app) => serde_json::to_string(app).ok(),
                _ => None,
            };
            error_reply(&error, data.as_deref())
        }
    }
}

fn call_json(reply: &Reply) -> Result<(String, u32), ServerFnError<String>> {
    let outcome = if is_success_status(reply.status) {
        match serde_json::from_slice::<(String, u32)>(&reply.body) {
            Ok(value) => CallOutcome::Decoded(value),
            Err(error) => CallOutcome::NotDecoded(error.to_string()),
        }
    } else {
        let text = String::from_utf8_lossy(&reply.body).to_string();
        let error = decode_error(&text).and_then(|wire| {
            let app = match &wire {
                ServerFnError::AppError(raw) => serde_json::from_str::<String>(raw).ok(),
                _ => None,
            };
            with_app_error(wire, app)
        });
        CallOutcome::Refused { status: reply.status, error }
    };
    call_result(outcome)
}

#[test]
fn json_value_round_trips_through_a_call() {
    let value = ("caf\u{e9} \"quoted\"".to_string(), 26u32);
    let reply = serve_json(Ok(value.clone()));
    assert_eq!(reply.status, 200);
    assert_eq!(reply.content_type, "application/json");
    assert_eq!(call_json(&reply), Ok(value));
}

#[test]
fn binary_value_round_trips_through_a_call() {
    let value = ("User1".to_string(), vec![1u8, 2, 3], -7i64);
    let body = rmp_serde::to_vec(&value).unwrap();
    let reply = match settle_rpc::<()>(Encoding::Binary, HandlerOutcome::Returned(body)) {
        Settled::Respond(reply) => reply,
        Settled::Report(error) => panic!("unexpected: {:?}", error),
    };
    assert_eq!(reply.content_type, "application/msgpack");
    let decoded: (String, Vec<u8>, i64) = rmp_serde::from_slice(&reply.body).unwrap();
    assert_eq!(call_result::<_, ()>(CallOutcome::Decoded(decoded)), Ok(value));
}

#[test]
fn errors_round_trip_through_a_call() {
    let errors: Vec<ServerFnError<String>> = vec![
        ServerFnError::Custom("no \"luck\"".to_string()),
        ServerFnError::Deserialization("missing field `a`".to_string()),
        ServerFnError::Serialization("nan".to_string()),
        ServerFnError::Transport("upstream gone".to_string()),
        ServerFnError::ServerStatus(418),
        ServerFnError::AppError("DivisionByZero".to_string()),
    ];
    for error in errors {
        let reply = serve_json(Err(error.clone()));
        assert_eq!(reply.status, error.status_code());
        assert_eq!(reply.content_type, "application/json");
        assert_eq!(call_json(&reply), Err(error));
    }
}

#[test]
fn undecodable_error_body_gives_the_status() {
    let reply = Reply { status: 502, content_type: "text/html", body: b"<h1>Bad Gateway</h1>".to_vec() };
    assert_eq!(call_json(&reply), Err(ServerFnError::ServerStatus(502)));
    // an application error whose data is not what the caller expects
    let reply = Reply {
        status: 400,
        content_type: "application/json",
        body: b"{\"type\":\"AppError\",\"data\":{\"code\":7}}".to_vec(),
    };
    assert_eq!(call_json(&reply), Err(ServerFnError::ServerStatus(400)));
}

#[test]
fn undecodable_success_body_is_a_deserialization_error() {
    let reply = Reply { status: 200, content_type: "application/json", body: b"[1,2".to_vec() };
    assert!(matches!(call_json(&reply), Err(ServerFnError::Deserialization(_))));
}
