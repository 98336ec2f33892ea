use server_fn::descriptor::{Encoding, FunctionDescriptor, ParamField, Transport};

fn add_descriptor() -> FunctionDescriptor {
    FunctionDescriptor::new(
        "add",
        None,
        Transport::Rpc,
        Encoding::Json,
        vec![
            ParamField { name: "a".to_string(), ty: "i32".to_string() },
            ParamField { name: "b".to_string(), ty: "i32".to_string() },
        ],
        "i32",
        "ServerFnError",
    )
    .unwrap()
}

#[test]
fn generates_request_struct() {
    let add = add_descriptor();
    assert_eq!(add.request_name(), "AddRequest");
    let req = add.bind(vec![1, 2]).unwrap();
    assert_eq!(req.get("a"), Some(&1));
    assert_eq!(req.get("b"), Some(&2));
}

#[test]
fn request_needs_one_value_per_parameter() {
    let add = add_descriptor();
    assert!(add.bind(vec![1]).is_none());
    assert!(add.bind(vec![1, 2, 3]).is_none());
    assert!(add.bind(Vec::<i32>::new()).is_none());
}

#[test]
fn request_has_no_value_for_unknown_parameter() {
    let add = add_descriptor();
    let req = add.bind(vec![1, 2]).unwrap();
    assert_eq!(req.get("c"), None);
    assert_eq!(req.into_values(), vec![1, 2]);
}

#[test]
fn request_is_framed_as_a_json_object() {
    let add = add_descriptor();
    let req = add.bind(vec!["1".to_string(), "-2".to_string()]).unwrap();
    assert_eq!(req.to_json(), "{\"a\":1,\"b\":-2}");
    let parsed: serde_json::Value = serde_json::from_str(&req.to_json()).unwrap();
    assert_eq!(parsed["a"].as_i64(), Some(1));
    assert_eq!(parsed["b"].as_i64(), Some(-2));
}

#[test]
fn request_without_parameters_is_an_empty_object() {
    let ping = FunctionDescriptor::new(
        "ping",
        None,
        Transport::Rpc,
        Encoding::Json,
        Vec::new(),
        "()",
        "()",
    )
    .unwrap();
    let req = ping.bind(Vec::<String>::new()).unwrap();
    assert_eq!(req.to_json(), "{}");
}

#[test]
fn request_names_are_quoted_as_json_strings() {
    let odd = FunctionDescriptor::new(
        "odd",
        None,
        Transport::Rpc,
        Encoding::Json,
        vec![ParamField { name: "say \"hi\"".to_string(), ty: "String".to_string() }],
        "()",
        "()",
    )
    .unwrap();
    let req = odd.bind(vec!["\"x\"".to_string()]).unwrap();
    assert_eq!(req.to_json(), "{\"say \\\"hi\\\"\":\"x\"}");
    let parsed: serde_json::Value = serde_json::from_str(&req.to_json()).unwrap();
    assert_eq!(parsed["say \"hi\""].as_str(), Some("x"));
}
