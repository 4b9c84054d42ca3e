use crate::endpoint::Endpoint;
use crate::synthesize::generate_route_handlers;
use crate::synthesize::generate_routes;
use crate::synthesize::handlers_text;
use crate::synthesize::routes_text;
use vstd::prelude::*;
use vstd::string::StringExecFns;

verus! {

/// The fixed import preamble of the generated unit.
pub open spec fn imports_text() -> Seq<char> {
    "\nuse axum::{\n    routing::{get, post},\n    Router,\n};\nuse std::net::SocketAddr;"@
}

/// The fixed build manifest of the generated project: package metadata and
/// pinned dependency versions, independent of the input.
pub open spec fn cargo_manifest_text() -> Seq<char> {
    "\n[package]\nname = \"api_template\"\nversion = \"0.0.1\"\nedition = \"2021\"\n\n[dependencies]\naxum = { version = \"0.6.19\" } \ntokio = { version = \"1\", features = [\"full\"] }\nserde = { version = \"1\", features = [\"derive\"] }\ntracing = \"0.1\"\ntracing-subscriber = { version = \"0.3\", features = [\"env-filter\"] }\nserde_json = \"1.0\"\n"@
}

/// Emits the import preamble of the generated unit.
pub fn generate_imports() -> (r: String)
    ensures
        r@ == imports_text(),
{
    String::from_str(
        "\nuse axum::{\n    routing::{get, post},\n    Router,\n};\nuse std::net::SocketAddr;",
    )
}

/// Emits the build manifest content for the generated project.
pub fn generate_cargo_toml() -> (r: String)
    ensures
        r@ == cargo_manifest_text(),
{
    String::from_str(
        "\n[package]\nname = \"api_template\"\nversion = \"0.0.1\"\nedition = \"2021\"\n\n[dependencies]\naxum = { version = \"0.6.19\" } \ntokio = { version = \"1\", features = [\"full\"] }\nserde = { version = \"1\", features = [\"derive\"] }\ntracing = \"0.1\"\ntracing-subscriber = { version = \"0.3\", features = [\"env-filter\"] }\nserde_json = \"1.0\"\n",
    )
}

/// The skeleton text between the handler block and the route-table body: it
/// opens the router builder and registers the fixed root route.
pub open spec fn router_head_text() -> Seq<char> {
    "\npub fn generate_router() -> Router {\n    let mut router = Router::new();\n    router = router.route(\"/\", get(root_handler));\n        "@
}

/// The skeleton text after the route-table body: it closes the router
/// builder and wires the process entry point that binds the fixed listening
/// address and starts the server.
pub open spec fn bootstrap_tail_text() -> Seq<char> {
    "\n    return router;\n}\n\n#[tokio::main]\nasync fn main() {\n    // initialize tracing\n    tracing_subscriber::fmt::init();\n    let app = generate_router();\n    let addr = SocketAddr::from(([127, 0, 0, 1], 3000));\n    // run it with hyper on localhost:3000\n    println!(\"Listening on http://{}\", addr);\n    tracing::debug!(\"listening on {}\", addr);\n    axum::Server::bind(&addr)\n        .serve(app.into_make_service())\n        .await\n        .unwrap();\n}"@
}

/// The complete generated unit: the two synthesized blocks substituted
/// verbatim into the fixed skeleton. No endpoint-specific value appears
/// outside the two substituted fragments.
pub open spec fn assembled_text(handlers: Seq<char>, routes: Seq<char>) -> Seq<char> {
    "\n"@ + imports_text() + "\n\n"@ + handlers + router_head_text() + routes
        + bootstrap_tail_text()
}

/// Substitutes the synthesized handler block and route-table body into the
/// fixed server-bootstrap skeleton. Purely structural: the two fragments are
/// embedded verbatim, without parsing or validation.
pub fn assemble(handlers: &str, routes: &str) -> (r: String)
    ensures
        r@ == assembled_text(handlers@, routes@),
{
    let mut out = String::from_str("\n");
    let imports = generate_imports();
    out.append(imports.as_str());
    out.append("\n\n");
    out.append(handlers);
    out.append(
        "\npub fn generate_router() -> Router {\n    let mut router = Router::new();\n    router = router.route(\"/\", get(root_handler));\n        ",
    );
    out.append(routes);
    out.append(
        "\n    return router;\n}\n\n#[tokio::main]\nasync fn main() {\n    // initialize tracing\n    tracing_subscriber::fmt::init();\n    let app = generate_router();\n    let addr = SocketAddr::from(([127, 0, 0, 1], 3000));\n    // run it with hyper on localhost:3000\n    println!(\"Listening on http://{}\", addr);\n    tracing::debug!(\"listening on {}\", addr);\n    axum::Server::bind(&addr)\n        .serve(app.into_make_service())\n        .await\n        .unwrap();\n}",
    );
    proof {
        assert(out@ =~= assembled_text(handlers@, routes@));
    }
    out
}

/// The complete generated unit for an input list: its synthesized handler
/// block and route-table body, assembled into the fixed skeleton.
pub open spec fn server_code_text(eps: Seq<Endpoint>) -> Seq<char> {
    assembled_text(handlers_text(eps), routes_text(eps))
}

/// The whole generation pipeline: synthesizes the handler block and the
/// route table from the input records, in their given order, and assembles
/// the complete source unit.
pub fn generate_server_code(endpoints: &Vec<Endpoint>) -> (r: String)
    ensures
        r@ == server_code_text(endpoints@),
{
    let handlers = generate_route_handlers(endpoints);
    let routes = generate_routes(endpoints);
    assemble(handlers.as_str(), routes.as_str())
}

} // verus!
