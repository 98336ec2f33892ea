use server_fn::descriptor::{
    parse_attrs, to_pascal_case, Encoding, FunctionDescriptor, Method, ParamField, ServerAttrs,
    Transport,
};
use server_fn::path::PathError;
use server_fn::client::CallRequest;
use server_fn::registry::{
    define_function, DispatchTable, RegistryError, Route, RouteList, ServerFnRouter,
    ServerFunction,
};

fn describe(name: &str, path: Option<&str>, transport: Transport) -> FunctionDescriptor {
    FunctionDescriptor::new(name, path, transport, Encoding::Json, Vec::new(), "String", "()")
        .unwrap()
}

#[test]
fn descriptor_derives_its_path_from_the_name() {
    let greet = describe("greet", None, Transport::Rpc);
    assert_eq!(greet.name(), "greet");
    assert_eq!(greet.path(), "/api/greet");
    assert_eq!(greet.transport(), Transport::Rpc);
    assert_eq!(greet.encoding(), Encoding::Json);
    assert_eq!(greet.method(), Method::Post);
    assert_eq!(greet.success_type(), "String");
    assert_eq!(greet.error_type(), "()");
    assert!(greet.param_schema().is_empty());
    assert_eq!(greet.request_name(), "GreetRequest");
    assert_eq!(greet.response_name(), "GreetResponse");
}

#[test]
fn descriptor_takes_an_explicit_path() {
    let greet = describe("greet", Some("/api/v2/greet-item_1"), Transport::ServerStream);
    assert_eq!(greet.path(), "/api/v2/greet-item_1");
    assert_eq!(greet.method(), Method::Get);
}

#[test]
fn descriptor_refuses_a_malformed_path() {
    let refused = |name: &str, path: Option<&str>| {
        FunctionDescriptor::new(name, path, Transport::Rpc, Encoding::Json, Vec::new(), "", "")
            .err()
    };
    assert_eq!(refused("x", Some("/api//x")), Some(PathError::DoubleSlash));
    assert_eq!(refused("x", Some("/api/../x")), Some(PathError::Traversal));
    assert_eq!(refused("x", Some("/api/x/")), Some(PathError::TrailingSlash));
    assert_eq!(refused("x", Some("api/x")), Some(PathError::MissingLeadingSlash));
    assert_eq!(refused("a b", None), Some(PathError::InvalidCharacter(' ')));
    assert_eq!(refused("", None), Some(PathError::TrailingSlash));
}

#[test]
fn descriptor_keeps_its_parameters() {
    let params = vec![
        ParamField { name: "a".to_string(), ty: "i32".to_string() },
        ParamField { name: "b".to_string(), ty: "i32".to_string() },
    ];
    let add = FunctionDescriptor::new(
        "add",
        None,
        Transport::Rpc,
        Encoding::Binary,
        params.clone(),
        "i32",
        "MathError",
    )
    .unwrap();
    assert_eq!(add.param_schema(), &params);
    assert_eq!(add.encoding(), Encoding::Binary);
    assert_eq!(add.encoding().content_type(), "application/msgpack");
    assert_eq!(Encoding::Json.content_type(), "application/json");
}

#[test]
fn methods_follow_the_transport() {
    assert_eq!(Transport::Rpc.method(), Method::Post);
    assert_eq!(Transport::ServerStream.method(), Method::Get);
    assert_eq!(Transport::Bidirectional.method(), Method::Get);
}

#[test]
fn pascal_case_joins_capitalized_words() {
    assert_eq!(to_pascal_case("add"), "Add");
    assert_eq!(to_pascal_case("get_user"), "GetUser");
    assert_eq!(to_pascal_case("get_app_info"), "GetAppInfo");
    assert_eq!(to_pascal_case("_leading"), "Leading");
    assert_eq!(to_pascal_case("trailing_"), "Trailing");
    assert_eq!(to_pascal_case("a__b"), "AB");
    assert_eq!(to_pascal_case(""), "");
    assert_eq!(to_pascal_case("already_Upper"), "AlreadyUpper");
    assert_eq!(to_pascal_case("v2_api"), "V2Api");
}

#[test]
fn pascal_case_follows_unicode_upper_case() {
    assert_eq!(to_pascal_case("\u{df}eta"), "SSeta");
    assert_eq!(to_pascal_case("\u{e9}t\u{e9}"), "\u{c9}t\u{e9}");
}

#[test]
fn attributes_choose_mode_and_encoding() {
    let attrs = |text: &str| parse_attrs(text);
    assert_eq!(attrs(""), ServerAttrs { mode: Transport::Rpc, encoding: Encoding::Json });
    assert_eq!(attrs("sse"), ServerAttrs { mode: Transport::ServerStream, encoding: Encoding::Json });
    assert_eq!(attrs("ws"), ServerAttrs { mode: Transport::Bidirectional, encoding: Encoding::Json });
    assert_eq!(attrs("msgpack"), ServerAttrs { mode: Transport::Rpc, encoding: Encoding::Binary });
    assert_eq!(
        attrs("ws, msgpack"),
        ServerAttrs { mode: Transport::Bidirectional, encoding: Encoding::Binary }
    );
    // `ws` wins over `sse`
    assert_eq!(attrs("sse ws").mode, Transport::Bidirectional);
    assert_eq!(attrs("w s").mode, Transport::Rpc);
}

#[test]
fn register_refuses_a_taken_path() {
    let mut table: DispatchTable<u8> = DispatchTable::new();
    assert_eq!(table.register(describe("greet", None, Transport::Rpc), 1), Ok(()));
    assert_eq!(table.register(describe("add", None, Transport::Rpc), 2), Ok(()));
    assert_eq!(
        table.register(describe("other", Some("/api/greet"), Transport::ServerStream), 3),
        Err(RegistryError::DuplicatePath("/api/greet".to_string()))
    );
    assert_eq!(table.len(), 2);
    assert!(table.is_taken("/api/greet"));
    assert!(table.is_taken("/api/add"));
    assert!(!table.is_taken("/api/other"));
}

#[test]
fn resolve_finds_by_path_and_method() {
    let mut table: DispatchTable<&'static str> = DispatchTable::new();
    table.register(describe("greet", None, Transport::Rpc), "greet-handler").unwrap();
    table.register(describe("counter", None, Transport::ServerStream), "counter-handler").unwrap();
    table.register(describe("echo", None, Transport::Bidirectional), "echo-handler").unwrap();

    let found = table.resolve("/api/greet", Method::Post).unwrap();
    assert_eq!(found.descriptor().name(), "greet");
    assert_eq!(found.handler(), &"greet-handler");
    assert_eq!(found.path(), "/api/greet");
    assert_eq!(found.method(), Method::Post);

    assert!(table.resolve("/api/greet", Method::Get).is_none());
    assert_eq!(table.resolve("/api/counter", Method::Get).unwrap().handler(), &"counter-handler");
    assert_eq!(table.resolve("/api/echo", Method::Get).unwrap().handler(), &"echo-handler");
    assert!(table.resolve("/api/missing", Method::Post).is_none());
    assert!(table.resolve("/api/Greet", Method::Post).is_none());
}

#[test]
fn all_lists_in_order_of_registration() {
    let mut table: DispatchTable<u8> = DispatchTable::new();
    assert!(table.all().is_empty());
    table.register(describe("b", None, Transport::Rpc), 1).unwrap();
    table.register(describe("a", None, Transport::ServerStream), 2).unwrap();
    let names: Vec<&str> = table.all().iter().map(|f| f.descriptor().name()).collect();
    assert_eq!(names, vec!["b", "a"]);
}

#[test]
fn server_function_pairs_descriptor_and_handler() {
    let function = ServerFunction::new(describe("greet", None, Transport::Rpc), 42u8);
    assert_eq!(function.handler(), &42);
    assert_eq!(function.descriptor().path(), "/api/greet");
}

#[test]
fn routes_are_installed_for_every_function() {
    let mut table: DispatchTable<u8> = DispatchTable::new();
    table.register(describe("greet", None, Transport::Rpc), 1).unwrap();
    table.register(describe("counter", None, Transport::ServerStream), 2).unwrap();
    let router = RouteList::new().route(Method::Get, "/", &0).register_server_fns(&table);
    assert_eq!(
        router.installed(),
        &vec![
            Route { method: Method::Get, path: "/".to_string() },
            Route { method: Method::Post, path: "/api/greet".to_string() },
            Route { method: Method::Get, path: "/api/counter".to_string() },
        ]
    );
}

#[test]
fn a_function_is_defined_once_for_both_sides() {
    let (route, caller) = define_function(describe("greet", None, Transport::Rpc), "handler");
    assert_eq!(
        caller,
        CallRequest {
            method: Method::Post,
            path: "/api/greet".to_string(),
            content_type: "application/json"
        }
    );
    let mut table = DispatchTable::new();
    assert_eq!(table.register_function(route), Ok(()));
    let found = table.resolve(&caller.path, caller.method).unwrap();
    assert_eq!(found.handler(), &"handler");
    let (again, _) = define_function(describe("greet", None, Transport::Rpc), "other");
    assert_eq!(
        table.register_function(again),
        Err(RegistryError::DuplicatePath("/api/greet".to_string()))
    );
}
