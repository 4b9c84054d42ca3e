use api_scaffold::assemble::assemble;
use api_scaffold::assemble::generate_cargo_toml;
use api_scaffold::assemble::generate_imports;
use api_scaffold::assemble::generate_server_code;
use api_scaffold::endpoint::Endpoint;
use api_scaffold::names::generate_handler_name;
use api_scaffold::synthesize::classify_method;
use api_scaffold::synthesize::generate_route_handlers;
use api_scaffold::synthesize::generate_routes;
use api_scaffold::synthesize::str_eq;
use api_scaffold::synthesize::unsupported_methods;
use api_scaffold::synthesize::MethodKind;

fn ep(route: &str, method: &str, purpose: &str) -> Endpoint {
    Endpoint {
        route: route.to_string(),
        method: method.to_string(),
        purpose: purpose.to_string(),
    }
}

const ROOT_HANDLER: &str =
    "\nasync fn root_handler() -> &'static str {\n    \"Server is up and running!\"\n}";

#[test]
fn derive_name_strips_separators_and_markers() {
    assert_eq!(generate_handler_name("/users"), "users");
    assert_eq!(generate_handler_name("/item/:id"), "itemid");
    assert_eq!(generate_handler_name("/"), "");
    assert_eq!(generate_handler_name(""), "");
    assert_eq!(generate_handler_name("plain"), "plain");
}

#[test]
fn derive_name_is_deterministic() {
    let first = generate_handler_name("/a/:b/c");
    let second = generate_handler_name("/a/:b/c");
    assert_eq!(first, second);
}

#[test]
fn str_eq_matches_string_equality() {
    assert!(str_eq("GET", "GET"));
    assert!(!str_eq("GET", "PUT"));
    assert!(!str_eq("GET", "GETX"));
    assert!(str_eq("", ""));
}

#[test]
fn classify_method_closed_set() {
    assert!(matches!(classify_method("GET"), MethodKind::Get));
    assert!(matches!(classify_method("POST"), MethodKind::Post));
    assert!(matches!(classify_method("DELETE"), MethodKind::Unsupported));
    assert!(matches!(classify_method("get"), MethodKind::Unsupported));
    assert!(matches!(classify_method(""), MethodKind::Unsupported));
}

#[test]
fn users_get_and_post_unit() {
    let endpoints = vec![
        ep("/users", "GET", "list users"),
        ep("/users", "POST", "create user"),
    ];
    let handlers = generate_route_handlers(&endpoints);
    let routes = generate_routes(&endpoints);
    let unit = generate_server_code(&endpoints);

    // Exactly two non-root handler definitions, both under the derived name.
    assert_eq!(handlers.matches("async fn ").count(), 3);
    assert_eq!(
        handlers
            .matches("async fn users_handler() -> &'static str")
            .count(),
        2
    );
    // Exactly two route registrations, each referencing the derived name.
    assert_eq!(routes.matches("router = router.route(").count(), 2);
    assert_eq!(routes.matches("users_handler").count(), 2);
    assert!(routes.contains("get(users_handler)"));
    assert!(routes.contains("post(users_handler)"));
    // The purpose text appears verbatim inside the handler bodies.
    assert!(handlers.contains("list users"));
    assert!(handlers.contains("create user"));
    assert!(unit.contains("list users"));
    assert!(unit.contains("create user"));
}

#[test]
fn delete_record_is_omitted_but_run_completes() {
    let endpoints = vec![
        ep("/users", "GET", "list users"),
        ep("/users", "DELETE", "remove user"),
    ];
    let handlers = generate_route_handlers(&endpoints);
    let routes = generate_routes(&endpoints);
    let unit = generate_server_code(&endpoints);

    // No handler and no route entry for the DELETE record.
    assert_eq!(handlers.matches("async fn ").count(), 2);
    assert!(!handlers.contains("remove user"));
    assert_eq!(routes.matches("router = router.route(").count(), 1);
    assert!(!unit.contains("remove user"));
    // The other record still produced its output.
    assert!(handlers.contains("async fn users_handler"));
    assert!(routes.contains("get(users_handler)"));
    // The offending verb is reported to the caller.
    let reported = unsupported_methods(&endpoints);
    assert_eq!(reported, vec!["DELETE".to_string()]);
}

#[test]
fn unsupported_methods_in_input_order() {
    let endpoints = vec![
        ep("/a", "DELETE", "x"),
        ep("/b", "GET", "y"),
        ep("/c", "PATCH", "z"),
    ];
    let reported = unsupported_methods(&endpoints);
    assert_eq!(reported, vec!["DELETE".to_string(), "PATCH".to_string()]);
}

#[test]
fn empty_input_still_has_root() {
    let endpoints: Vec<Endpoint> = vec![];
    let handlers = generate_route_handlers(&endpoints);
    let routes = generate_routes(&endpoints);
    let unit = generate_server_code(&endpoints);

    assert_eq!(handlers, ROOT_HANDLER);
    assert_eq!(routes, "");
    assert!(unit.contains("async fn root_handler"));
    assert!(unit.contains("router.route(\"/\", get(root_handler));"));
    // No other handler or route text.
    assert_eq!(unit.matches("_handler() ->").count(), 1);
    assert_eq!(unit.matches("router = router.route(").count(), 1);
}

#[test]
fn generation_is_idempotent() {
    let first_input = vec![
        ep("/users", "GET", "list users"),
        ep("/orders", "POST", "place order"),
        ep("/x", "PUT", "never emitted"),
    ];
    let second_input = vec![
        ep("/users", "GET", "list users"),
        ep("/orders", "POST", "place order"),
        ep("/x", "PUT", "never emitted"),
    ];
    assert_eq!(
        generate_server_code(&first_input),
        generate_server_code(&second_input)
    );
    assert_eq!(generate_cargo_toml(), generate_cargo_toml());
}

#[test]
fn name_collision_emits_both_definitions() {
    let endpoints = vec![ep("/a:b", "GET", "first"), ep("/ab", "GET", "second")];
    assert_eq!(
        generate_handler_name("/a:b"),
        generate_handler_name("/ab")
    );
    let handlers = generate_route_handlers(&endpoints);
    assert_eq!(
        handlers
            .matches("async fn ab_handler() -> &'static str")
            .count(),
        2
    );
    assert!(handlers.contains("first"));
    assert!(handlers.contains("second"));
}

#[test]
fn imports_exact_text() {
    assert_eq!(
        generate_imports(),
        "\nuse axum::{\n    routing::{get, post},\n    Router,\n};\nuse std::net::SocketAddr;"
    );
}

#[test]
fn cargo_toml_exact_text() {
    let expected = "\n[package]\nname = \"api_template\"\nversion = \"0.0.1\"\nedition = \"2021\"\n\n[dependencies]\naxum = { version = \"0.6.19\" } \ntokio = { version = \"1\", features = [\"full\"] }\nserde = { version = \"1\", features = [\"derive\"] }\ntracing = \"0.1\"\ntracing-subscriber = { version = \"0.3\", features = [\"env-filter\"] }\nserde_json = \"1.0\"\n";
    assert_eq!(generate_cargo_toml(), expected);
}

#[test]
fn get_handler_exact_text() {
    let endpoints = vec![ep("/users", "GET", "list users")];
    let handlers = generate_route_handlers(&endpoints);
    let expected = format!(
        "{}\nasync fn users_handler() -> &'static str {{\n    \"Hello from list users handler. Using GET!\"\n}}",
        ROOT_HANDLER
    );
    assert_eq!(handlers, expected);
}

#[test]
fn post_handler_exact_text() {
    let endpoints = vec![ep("/users", "POST", "create user")];
    let handlers = generate_route_handlers(&endpoints);
    let expected = format!(
        "{}\nasync fn users_handler() -> &'static str {{\n    \"I am a POST handler. My Purpose is: create user!\"\n}}",
        ROOT_HANDLER
    );
    assert_eq!(handlers, expected);
}

#[test]
fn route_statements_exact_text() {
    let endpoints = vec![
        ep("/users", "GET", "list users"),
        ep("/orders", "POST", "place order"),
    ];
    let routes = generate_routes(&endpoints);
    let expected = "\n    router = router.route(\"/users\", get(users_handler));\n    router = router.route(\"/orders\", post(orders_handler));";
    assert_eq!(routes, expected);
}

#[test]
fn assembled_unit_exact_text_for_empty_input() {
    let endpoints: Vec<Endpoint> = vec![];
    let unit = generate_server_code(&endpoints);
    let expected = format!(
        "\n{}\n\n{}\npub fn generate_router() -> Router {{\n    let mut router = Router::new();\n    router = router.route(\"/\", get(root_handler));\n        \n    return router;\n}}\n\n#[tokio::main]\nasync fn main() {{\n    // initialize tracing\n    tracing_subscriber::fmt::init();\n    let app = generate_router();\n    let addr = SocketAddr::from(([127, 0, 0, 1], 3000));\n    // run it with hyper on localhost:3000\n    println!(\"Listening on http://{{}}\", addr);\n    tracing::debug!(\"listening on {{}}\", addr);\n    axum::Server::bind(&addr)\n        .serve(app.into_make_service())\n        .await\n        .unwrap();\n}}",
        generate_imports(),
        ROOT_HANDLER
    );
    assert_eq!(unit, expected);
}

#[test]
fn assemble_substitutes_verbatim() {
    let unit = assemble("HANDLERS-BLOCK", "ROUTES-BLOCK");
    assert!(unit.contains("HANDLERS-BLOCK"));
    assert!(unit.contains("ROUTES-BLOCK"));
    assert!(unit.contains("use axum::{"));
    assert!(unit.contains("router.route(\"/\", get(root_handler));"));
    assert!(unit.contains("SocketAddr::from(([127, 0, 0, 1], 3000))"));
}
