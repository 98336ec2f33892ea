use server_fn::error::ServerFnError;
use server_fn::wire::{
    decode_error, encode_error, parse_status, read_frame, with_app_error, write_frame,
};

#[test]
fn errors_travel_as_tagged_json() {
    let text = |error: ServerFnError<()>| encode_error(&error, "null");
    assert_eq!(
        text(ServerFnError::Custom("no".to_string())),
        "{\"type\":\"Custom\",\"data\":\"no\"}"
    );
    assert_eq!(
        text(ServerFnError::Serialization("a\nb".to_string())),
        "{\"type\":\"Serialization\",\"data\":\"a\\nb\"}"
    );
    assert_eq!(
        text(ServerFnError::Deserialization("say \"hi\"".to_string())),
        "{\"type\":\"Deserialization\",\"data\":\"say \\\"hi\\\"\"}"
    );
    assert_eq!(
        text(ServerFnError::Transport("back\\slash".to_string())),
        "{\"type\":\"Transport\",\"data\":\"back\\\\slash\"}"
    );
    assert_eq!(text(ServerFnError::ServerStatus(404)), "{\"type\":\"ServerStatus\",\"data\":404}");
    assert_eq!(text(ServerFnError::AppError(())), "{\"type\":\"AppError\",\"data\":null}");
}

#[test]
fn wire_text_is_what_a_json_reader_expects() {
    let text = encode_error(&ServerFnError::<()>::Custom("caf\u{e9} \"x\"\t".to_string()), "");
    let value: serde_json::Value = serde_json::from_str(&text).unwrap();
    assert_eq!(value["type"].as_str(), Some("Custom"));
    assert_eq!(value["data"].as_str(), Some("caf\u{e9} \"x\"\t"));
    let text = encode_error(&ServerFnError::<()>::ServerStatus(65535), "");
    let value: serde_json::Value = serde_json::from_str(&text).unwrap();
    assert_eq!(value["data"].as_u64(), Some(65535));
}

#[test]
fn every_variant_round_trips() {
    let texts = ["", "plain", "with \"quotes\"", "line\nbreak", "}", "\",\"data\":", "caf\u{e9}"];
    for text in texts {
        let errors: Vec<ServerFnError<String>> = vec![
            ServerFnError::Serialization(text.to_string()),
            ServerFnError::Deserialization(text.to_string()),
            ServerFnError::Transport(text.to_string()),
            ServerFnError::Custom(text.to_string()),
        ];
        for error in errors {
            assert_eq!(decode_error(&encode_error(&error, "")), Some(error));
        }
    }
    for code in [0u16, 7, 200, 404, 500, 65535] {
        let error: ServerFnError<String> = ServerFnError::ServerStatus(code);
        assert_eq!(decode_error(&encode_error(&error, "")), Some(error));
    }
    for data in ["null", "\"DivisionByZero\"", "{\"Overflow\":{\"a\":1,\"b\":2}}", "[1,{\"}\":2}]"] {
        let error: ServerFnError<String> = ServerFnError::AppError(String::new());
        assert_eq!(
            decode_error(&encode_error(&error, data)),
            Some(ServerFnError::AppError(data.to_string()))
        );
    }
}

#[test]
fn application_data_round_trips_through_the_host_codec() {
    let sent: (i32, String) = (-3, "three".to_string());
    let data = serde_json::to_string(&sent).unwrap();
    let text = encode_error(&ServerFnError::AppError(sent.clone()), &data);
    let received = match decode_error(&text) {
        Some(ServerFnError::AppError(raw)) => {
            let app = serde_json::from_str::<(i32, String)>(&raw).ok();
            with_app_error(ServerFnError::AppError(raw), app)
        }
        other => panic!("unexpected: {:?}", other),
    };
    assert_eq!(received, Some(ServerFnError::AppError(sent)));
}

#[test]
fn what_is_no_error_is_not_decoded() {
    for text in [
        "",
        "{}",
        "not json",
        "{\"type\":\"Custom\"}",
        "{\"type\":\"Custom\",\"data\":\"x\"",
        "{\"type\":\"Unknown\",\"data\":\"x\"}",
        "{\"type\":\"custom\",\"data\":\"x\"}",
        "{\"type\":\"Custom\",\"data\":5}",
        "{\"type\":\"Custom\",\"data\":\"unterminated}",
        "{\"type\":\"ServerStatus\",\"data\":\"500\"}",
        "{\"type\":\"ServerStatus\",\"data\":65536}",
        "{\"type\":\"ServerStatus\",\"data\":-1}",
        "{\"type\":\"ServerStatus\",\"data\":007}",
        "{\"type\":\"ServerStatus\",\"data\":}",
        "{\"data\":\"x\",\"type\":\"Custom\"}",
        "{ \"type\": \"Custom\", \"data\": \"x\" }",
        "{\"error\":\"boom\"}",
        "<html>502 Bad Gateway</html>",
    ] {
        assert_eq!(decode_error(text), None, "{}", text);
    }
}

#[test]
fn frames_are_written_and_read() {
    assert_eq!(write_frame("Custom", "\"x\""), "{\"type\":\"Custom\",\"data\":\"x\"}");
    assert_eq!(write_frame("", ""), "{\"type\":\"\",\"data\":}");
    assert_eq!(
        read_frame("{\"type\":\"Custom\",\"data\":\"x\"}"),
        Some(("Custom".to_string(), "\"x\"".to_string()))
    );
    assert_eq!(read_frame("{\"type\":\"\",\"data\":}"), Some((String::new(), String::new())));
    assert_eq!(
        read_frame("{\"type\":\"T\",\"data\":{\"a\":\"}\"}}"),
        Some(("T".to_string(), "{\"a\":\"}\"}".to_string()))
    );
    assert_eq!(read_frame("{\"type\":\"T\",\"data\":1} "), None);
    assert_eq!(read_frame("{\"type\":\"T\" ,\"data\":1}"), None);
    assert_eq!(read_frame("{\"type\":\"T"), None);
}

#[test]
fn statuses_are_read_from_decimal() {
    assert_eq!(parse_status("0"), Some(0));
    assert_eq!(parse_status("200"), Some(200));
    assert_eq!(parse_status("65535"), Some(65535));
    assert_eq!(parse_status("65536"), None);
    assert_eq!(parse_status("99999999999999999999"), None);
    assert_eq!(parse_status(""), None);
    assert_eq!(parse_status("00"), None);
    assert_eq!(parse_status("0404"), None);
    assert_eq!(parse_status("+5"), None);
    assert_eq!(parse_status("5 "), None);
    assert_eq!(parse_status("4o4"), None);
    assert_eq!(parse_status("\u{663}"), None);
}

#[test]
fn decoded_errors_take_their_application_data() {
    assert_eq!(
        with_app_error::<u8>(ServerFnError::Custom("x".to_string()), None),
        Some(ServerFnError::Custom("x".to_string()))
    );
    assert_eq!(
        with_app_error::<u8>(ServerFnError::ServerStatus(500), Some(1)),
        Some(ServerFnError::ServerStatus(500))
    );
    assert_eq!(
        with_app_error(ServerFnError::AppError("7".to_string()), Some(7u8)),
        Some(ServerFnError::AppError(7u8))
    );
    assert_eq!(with_app_error::<u8>(ServerFnError::AppError("x".to_string()), None), None);
}
