use server_fn::client::{call_request, call_result, is_success_status, CallOutcome, CallRequest};
use server_fn::demo::{
    add, counter_items, divide, echo, get_app_info, greet, tick, whoami, AppConfig,
    AppInfoResponse, MathError, TickEvent, WhoamiResponse,
};
use server_fn::descriptor::{Encoding, FunctionDescriptor, Method, Transport};
use server_fn::engine::{
    error_reply, fallback_error_body, item_event, result_event, settle_rpc, HandlerOutcome, Reply,
    Settled, KEEP_ALIVE_SECS,
};
use server_fn::event::{Event, Field};
use server_fn::error::{custom_error, kind_from_wire_tag, ErrorKind, ServerFnError};
use server_fn::context::RequestContext;
use server_fn::scope::Scope;

#[test]
fn returned_value_is_sent_with_200() {
    let settled = settle_rpc::<()>(Encoding::Json, HandlerOutcome::Returned(b"5".to_vec()));
    assert_eq!(
        settled,
        Settled::Respond(Reply {
            status: 200,
            content_type: "application/json",
            body: b"5".to_vec()
        })
    );
    let settled = settle_rpc::<()>(Encoding::Binary, HandlerOutcome::Returned(vec![0x05]));
    assert_eq!(
        settled,
        Settled::Respond(Reply {
            status: 200,
            content_type: "application/msgpack",
            body: vec![0x05]
        })
    );
}

#[test]
fn every_failure_is_reported_as_an_error() {
    assert_eq!(
        settle_rpc::<()>(Encoding::Json, HandlerOutcome::Undecodable("bad body".to_string())),
        Settled::Report(ServerFnError::Deserialization("bad body".to_string()))
    );
    assert_eq!(
        settle_rpc::<()>(Encoding::Json, HandlerOutcome::Unencodable("nan".to_string())),
        Settled::Report(ServerFnError::Serialization("nan".to_string()))
    );
    assert_eq!(
        settle_rpc::<()>(Encoding::Json, HandlerOutcome::Panicked("boom".to_string())),
        Settled::Report(ServerFnError::Custom("boom".to_string()))
    );
    assert_eq!(
        settle_rpc(
            Encoding::Binary,
            HandlerOutcome::Failed(ServerFnError::AppError(MathError::DivisionByZero))
        ),
        Settled::Report(ServerFnError::AppError(MathError::DivisionByZero))
    );
}

#[test]
fn status_follows_the_kind_of_error() {
    assert_eq!(ServerFnError::<()>::Deserialization("x".to_string()).status_code(), 400);
    assert_eq!(ServerFnError::AppError(MathError::NegativeResult).status_code(), 400);
    assert_eq!(ServerFnError::<()>::Serialization("x".to_string()).status_code(), 500);
    assert_eq!(ServerFnError::<()>::Transport("x".to_string()).status_code(), 500);
    assert_eq!(ServerFnError::<()>::ServerStatus(503).status_code(), 500);
    assert_eq!(ServerFnError::<()>::Custom("x".to_string()).status_code(), 500);
    assert_eq!(ErrorKind::Deserialization.status(), 400);
    assert_eq!(ErrorKind::Custom.status(), 500);
}

#[test]
fn error_reply_carries_the_encoded_error_as_json() {
    let error = ServerFnError::<()>::Deserialization("bad \"body\"".to_string());
    let encoded = "{\"type\":\"Deserialization\",\"data\":\"bad \\\"body\\\"\"}";
    assert_eq!(
        error_reply(&error, None),
        Reply {
            status: 400,
            content_type: "application/json",
            body: encoded.as_bytes().to_vec()
        }
    );
    // the application data counts for an application error only
    assert_eq!(error_reply(&error, Some("{\"x\":1}")), error_reply(&error, None));
    let error = ServerFnError::AppError(MathError::Overflow { a: 1, b: 2 });
    assert_eq!(
        error_reply(&error, Some("{\"Overflow\":{\"a\":1,\"b\":2}}")),
        Reply {
            status: 400,
            content_type: "application/json",
            body: b"{\"type\":\"AppError\",\"data\":{\"Overflow\":{\"a\":1,\"b\":2}}}".to_vec()
        }
    );
    let error = ServerFnError::<()>::ServerStatus(503);
    assert_eq!(
        error_reply(&error, None).body,
        b"{\"type\":\"ServerStatus\",\"data\":503}".to_vec()
    );
}

#[test]
fn error_reply_falls_back_when_the_error_cannot_be_encoded() {
    let error = ServerFnError::AppError(MathError::DivisionByZero);
    let reply = error_reply(&error, None);
    assert_eq!(reply.status, 400);
    assert_eq!(reply.content_type, "application/json");
    assert_eq!(reply.body, b"{\"type\":\"Custom\",\"data\":\"Serialization failed\"}".to_vec());
    assert_eq!(
        fallback_error_body(),
        "{\"type\":\"Custom\",\"data\":\"Serialization failed\"}"
    );
    let reply = error_reply(&ServerFnError::<()>::Custom("x".to_string()), None);
    assert_eq!(reply.status, 500);
}

#[test]
fn stream_items_become_events() {
    assert_eq!(
        item_event(Ok("{\"count\":1}".to_string())).fields(),
        &vec![Field::Data("{\"count\":1}".to_string())]
    );
    assert_eq!(
        item_event(Err("not encodable".to_string())).fields(),
        &vec![Field::Data(String::new())]
    );
    assert_eq!(KEEP_ALIVE_SECS, 15);
}

#[test]
fn a_poison_item_does_not_end_the_stream() {
    let items = vec![Ok("1".to_string()), Err("poison".to_string()), Ok("3".to_string())];
    let events: Vec<Event> = items.into_iter().map(item_event).collect();
    let data: Vec<Vec<Field>> = events.iter().map(|e| e.fields().clone()).collect();
    assert_eq!(
        data,
        vec![
            vec![Field::Data("1".to_string())],
            vec![Field::Data(String::new())],
            vec![Field::Data("3".to_string())],
        ]
    );
}

#[test]
fn result_items_become_events() {
    assert_eq!(result_event(Ok(Ok("7".to_string()))).fields(), &vec![Field::Data("7".to_string())]);
    assert_eq!(
        result_event(Ok(Err("key must be a string".to_string()))).fields(),
        &vec![Field::Data("serialization error: key must be a string".to_string())]
    );
    assert_eq!(
        result_event(Err("database is down".to_string())).fields(),
        &vec![Field::Event("error".to_string()), Field::Data("database is down".to_string())]
    );
}

#[test]
fn call_succeeds_only_with_a_decoded_value() {
    assert_eq!(call_result::<i32, ()>(CallOutcome::Decoded(5)), Ok(5));
    assert_eq!(
        call_result::<i32, ()>(CallOutcome::NotEncoded("nan".to_string())),
        Err(ServerFnError::Serialization("nan".to_string()))
    );
    assert_eq!(
        call_result::<i32, ()>(CallOutcome::NotSent("offline".to_string())),
        Err(ServerFnError::Transport("offline".to_string()))
    );
    assert_eq!(
        call_result::<i32, ()>(CallOutcome::Unreadable("cut off".to_string())),
        Err(ServerFnError::Deserialization("cut off".to_string()))
    );
    assert_eq!(
        call_result::<i32, ()>(CallOutcome::NotDecoded("expected i32".to_string())),
        Err(ServerFnError::Deserialization("expected i32".to_string()))
    );
}

#[test]
fn refused_call_gives_the_typed_error_or_the_status() {
    assert_eq!(
        call_result::<i32, MathError>(CallOutcome::Refused {
            status: 400,
            error: Some(ServerFnError::AppError(MathError::DivisionByZero)),
        }),
        Err(ServerFnError::AppError(MathError::DivisionByZero))
    );
    assert_eq!(
        call_result::<i32, MathError>(CallOutcome::Refused { status: 502, error: None }),
        Err(ServerFnError::ServerStatus(502))
    );
}

#[test]
fn success_statuses() {
    assert!(is_success_status(200));
    assert!(is_success_status(204));
    assert!(is_success_status(299));
    assert!(!is_success_status(199));
    assert!(!is_success_status(300));
    assert!(!is_success_status(400));
    assert!(!is_success_status(500));
    assert!(!is_success_status(0));
}

#[test]
fn call_request_follows_the_descriptor() {
    let greet = FunctionDescriptor::new(
        "greet",
        None,
        Transport::Rpc,
        Encoding::Binary,
        Vec::new(),
        "String",
        "()",
    )
    .unwrap();
    assert_eq!(
        call_request(&greet),
        CallRequest {
            method: Method::Post,
            path: "/api/greet".to_string(),
            content_type: "application/msgpack"
        }
    );
}

#[test]
fn errors_have_messages() {
    assert_eq!(
        ServerFnError::<()>::Serialization("nan".to_string()).message(),
        "Serialization error: nan"
    );
    assert_eq!(
        ServerFnError::<()>::Deserialization("eof".to_string()).message(),
        "Deserialization error: eof"
    );
    assert_eq!(
        ServerFnError::<()>::Transport("offline".to_string()).message(),
        "Transport error: offline"
    );
    assert_eq!(ServerFnError::<()>::ServerStatus(503).message(), "Server error: status 503");
    assert_eq!(ServerFnError::<()>::ServerStatus(0).message(), "Server error: status 0");
    assert_eq!(ServerFnError::<()>::ServerStatus(65535).message(), "Server error: status 65535");
    assert_eq!(ServerFnError::<()>::Custom("no".to_string()).message(), "Custom error: no");
    assert_eq!(ServerFnError::AppError(MathError::DivisionByZero).message(), "Application error");
}

#[test]
fn into_any_keeps_everything_but_unit_application_errors() {
    let any = |error: ServerFnError<()>| -> ServerFnError<MathError> { error.into_any() };
    assert_eq!(
        any(ServerFnError::Serialization("a".to_string())),
        ServerFnError::Serialization("a".to_string())
    );
    assert_eq!(
        any(ServerFnError::Deserialization("b".to_string())),
        ServerFnError::Deserialization("b".to_string())
    );
    assert_eq!(
        any(ServerFnError::Transport("c".to_string())),
        ServerFnError::Transport("c".to_string())
    );
    assert_eq!(any(ServerFnError::ServerStatus(404)), ServerFnError::ServerStatus(404));
    assert_eq!(
        any(ServerFnError::Custom("d".to_string())),
        ServerFnError::Custom("d".to_string())
    );
    assert_eq!(
        any(ServerFnError::AppError(())),
        ServerFnError::Custom("unknown error".to_string())
    );
}

#[test]
fn errors_are_built_from_messages() {
    assert_eq!(
        ServerFnError::<MathError>::app_error(MathError::NegativeResult),
        ServerFnError::AppError(MathError::NegativeResult)
    );
    let from_string: ServerFnError<()> = ServerFnError::from("late".to_string());
    assert_eq!(from_string, ServerFnError::Custom("late".to_string()));
    assert_eq!(custom_error::<()>("early"), ServerFnError::Custom("early".to_string()));
}

#[test]
fn wire_tags_name_the_variants() {
    let kinds = [
        (ErrorKind::Serialization, "Serialization"),
        (ErrorKind::Deserialization, "Deserialization"),
        (ErrorKind::Transport, "Transport"),
        (ErrorKind::ServerStatus, "ServerStatus"),
        (ErrorKind::Custom, "Custom"),
        (ErrorKind::AppError, "AppError"),
    ];
    for (kind, tag) in kinds {
        assert_eq!(kind.wire_tag(), tag);
        assert_eq!(kind_from_wire_tag(tag), Some(kind));
    }
    assert_eq!(kind_from_wire_tag("custom"), None);
    assert_eq!(kind_from_wire_tag(""), None);
    assert_eq!(ServerFnError::<()>::ServerStatus(1).kind(), ErrorKind::ServerStatus);
    assert_eq!(ServerFnError::AppError(1u8).kind(), ErrorKind::AppError);
}

#[test]
fn demo_plain_calls() {
    assert_eq!(add(2, 3), Ok(5));
    assert_eq!(add(-7, 7), Ok(0));
    assert_eq!(greet("World"), Ok("Hello, World! Greetings from the server.".to_string()));
    assert_eq!(echo("hi"), "Echo: hi");
}

#[test]
fn demo_divide_reports_its_own_errors() {
    assert_eq!(divide(10, 2), Ok(5));
    assert_eq!(divide(7, 2), Ok(3));
    assert_eq!(divide(-7, -2), Ok(3));
    assert_eq!(divide(0, 5), Ok(0));
    assert_eq!(divide(0, -5), Ok(0));
    assert_eq!(divide(-1, 2), Ok(0));
    assert_eq!(divide(1, -2), Ok(0));
    assert_eq!(divide(i32::MIN, i32::MIN), Ok(1));
    assert_eq!(divide(i32::MAX, 1), Ok(i32::MAX));
    assert_eq!(divide(1, 0), Err(ServerFnError::AppError(MathError::DivisionByZero)));
    assert_eq!(divide(0, 0), Err(ServerFnError::AppError(MathError::DivisionByZero)));
    assert_eq!(
        divide(i32::MIN, -1),
        Err(ServerFnError::AppError(MathError::Overflow { a: i32::MIN, b: -1 }))
    );
    assert_eq!(divide(-4, 2), Err(ServerFnError::AppError(MathError::NegativeResult)));
    assert_eq!(divide(4, -2), Err(ServerFnError::AppError(MathError::NegativeResult)));
    assert_eq!(divide(i32::MIN, 1), Err(ServerFnError::AppError(MathError::NegativeResult)));
    assert_eq!(divide(1, i32::MIN), Ok(0));
    assert_eq!(divide(i32::MAX, i32::MIN), Ok(0));
}

#[test]
fn demo_whoami_reads_the_context() {
    let mut headers = axum::http::HeaderMap::new();
    headers.insert("user-agent", axum::http::HeaderValue::from_static("tester/1.0"));
    let context = RequestContext::from_parts(headers, None, "/api/whoami".to_string(), None);
    assert_eq!(
        whoami(&context, Some("10.0.0.5")),
        WhoamiResponse {
            user_agent: "tester/1.0".to_string(),
            ip: "10.0.0.5".to_string(),
            path: "/api/whoami".to_string()
        }
    );
    assert_eq!(
        whoami(&RequestContext::new(), None),
        WhoamiResponse {
            user_agent: "unknown".to_string(),
            ip: "unknown".to_string(),
            path: String::new()
        }
    );
}

#[test]
fn demo_app_info_needs_a_container() {
    let mut scope: Scope<AppConfig> = Scope::new();
    assert_eq!(
        get_app_info(&mut scope),
        Err(ServerFnError::Custom("Context value not found for type: AppConfig".to_string()))
    );
    scope.enter_custom_context();
    assert_eq!(
        get_app_info(&mut scope),
        Ok(AppInfoResponse { app_name: "demo-server".to_string(), version: "0.1.0".to_string() })
    );
}

#[test]
fn demo_stream_items() {
    let items = counter_items();
    assert_eq!(items.len(), 100);
    assert_eq!(items[0], 0);
    assert_eq!(items[99], 99);
    assert_eq!(tick(3, 1500), TickEvent { count: 3, timestamp: 1500 });
}

#[test]
fn application_errors_are_converted_and_others_kept() {
    let described = |error: ServerFnError<MathError>| error.map_app_error(|app| format!("{:?}", app));
    assert_eq!(
        described(ServerFnError::AppError(MathError::DivisionByZero)),
        ServerFnError::AppError("DivisionByZero".to_string())
    );
    assert_eq!(
        described(ServerFnError::Custom("x".to_string())),
        ServerFnError::Custom("x".to_string())
    );
    assert_eq!(described(ServerFnError::ServerStatus(503)), ServerFnError::ServerStatus(503));
    assert_eq!(
        described(ServerFnError::Transport("t".to_string())),
        ServerFnError::Transport("t".to_string())
    );
}
