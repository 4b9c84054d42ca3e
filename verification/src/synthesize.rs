use crate::endpoint::Endpoint;
use crate::names::derived_name;
use crate::names::generate_handler_name;
use vstd::prelude::*;
use vstd::string::StrSliceExecFns;
use vstd::string::StringExecFns;

verus! {

/// The recognized HTTP verbs: a record is synthesized only for these.
pub open spec fn is_get(m: Seq<char>) -> bool {
    m == "GET"@
}

pub open spec fn is_post(m: Seq<char>) -> bool {
    m == "POST"@
}

pub open spec fn method_supported(m: Seq<char>) -> bool {
    is_get(m) || is_post(m)
}

/// Character-for-character string comparison, verified against the views.
pub fn str_eq(a: &str, b: &str) -> (r: bool)
    ensures
        r == (a@ == b@),
{
    let alen = a.unicode_len();
    let blen = b.unicode_len();
    if alen != blen {
        return false;
    }
    let mut i: usize = 0;
    while i < alen
        invariant
            i <= alen,
            alen == a@.len(),
            alen == b@.len(),
            forall|j: int| 0 <= j < i ==> a@[j] == b@[j],
        decreases alen - i,
    {
        let ca = a.get_char(i);
        let cb = b.get_char(i);
        if ca != cb {
            return false;
        }
        i = i + 1;
    }
    proof {
        assert(a@ =~= b@);
    }
    true
}

/// The closed set of verbs the synthesizers dispatch on: a record is either
/// a GET, a POST, or unsupported.
pub enum MethodKind {
    Get,
    Post,
    Unsupported,
}

/// Classifies a method token into the closed variant set.
pub fn classify_method(m: &str) -> (k: MethodKind)
    ensures
        k is Get <==> is_get(m@),
        k is Post <==> is_post(m@),
{
    proof {
        reveal_strlit("GET");
        reveal_strlit("POST");
        assert("GET"@.len() == 3);
        assert("POST"@.len() == 4);
        assert("GET"@ != "POST"@);
    }
    if str_eq(m, "GET") {
        MethodKind::Get
    } else if str_eq(m, "POST") {
        MethodKind::Post
    } else {
        MethodKind::Unsupported
    }
}

/// The fixed root handler, emitted first whatever the input holds.
pub open spec fn root_handler_text() -> Seq<char> {
    "\nasync fn root_handler() -> &'static str {\n    \"Server is up and running!\"\n}"@
}

/// The handler definition emitted for a GET record: its identifier is the
/// derived route name, and its body quotes the purpose and the verb.
pub open spec fn get_handler_fragment(route: Seq<char>, method: Seq<char>, purpose: Seq<char>) -> Seq<char> {
    "\nasync fn "@ + derived_name(route) + "_handler() -> &'static str {\n    \"Hello from "@
        + purpose + " handler. Using "@ + method + "!\"\n}"@
}

/// The handler definition emitted for a POST record, under a second,
/// distinct sentence template.
pub open spec fn post_handler_fragment(route: Seq<char>, method: Seq<char>, purpose: Seq<char>) -> Seq<char> {
    "\nasync fn "@ + derived_name(route) + "_handler() -> &'static str {\n    \"I am a "@
        + method + " handler. My Purpose is: "@ + purpose + "!\"\n}"@
}

/// What one record contributes to the handler block: a GET or POST template
/// instance, and nothing at all for an unsupported verb.
pub open spec fn handler_fragment(e: Endpoint) -> Seq<char> {
    if is_get(e.method@) {
        get_handler_fragment(e.route@, e.method@, e.purpose@)
    } else if is_post(e.method@) {
        post_handler_fragment(e.route@, e.method@, e.purpose@)
    } else {
        Seq::<char>::empty()
    }
}

/// The handler fragments of all records, concatenated in input order.
pub open spec fn handlers_body(eps: Seq<Endpoint>) -> Seq<char>
    decreases eps.len(),
{
    if eps.len() == 0 {
        Seq::<char>::empty()
    } else {
        handlers_body(eps.drop_last()) + handler_fragment(eps.last())
    }
}

/// The whole handler block: the fixed root handler first, then one fragment
/// per supported-method record, in input order.
pub open spec fn handlers_text(eps: Seq<Endpoint>) -> Seq<char> {
    root_handler_text() + handlers_body(eps)
}

/// Emits the handler definition of one record, or the empty string where its
/// verb is unsupported.
pub fn handler_fragment_text(e: &Endpoint) -> (r: String)
    ensures
        r@ == handler_fragment(*e),
{
    match classify_method(e.method.as_str()) {
        MethodKind::Get => {
            let name = generate_handler_name(e.route.as_str());
            let mut out = String::from_str("\nasync fn ");
            out.append(name.as_str());
            out.append("_handler() -> &'static str {\n    \"Hello from ");
            out.append(e.purpose.as_str());
            out.append(" handler. Using ");
            out.append(e.method.as_str());
            out.append("!\"\n}");
            proof {
                assert(out@ =~= handler_fragment(*e));
            }
            out
        },
        MethodKind::Post => {
            let name = generate_handler_name(e.route.as_str());
            let mut out = String::from_str("\nasync fn ");
            out.append(name.as_str());
            out.append("_handler() -> &'static str {\n    \"I am a ");
            out.append(e.method.as_str());
            out.append(" handler. My Purpose is: ");
            out.append(e.purpose.as_str());
            out.append("!\"\n}");
            proof {
                assert(out@ =~= handler_fragment(*e));
            }
            out
        },
        MethodKind::Unsupported => String::new(),
    }
}

/// Synthesizes the handler block: the fixed root handler, then, in input
/// order, one stub definition per GET or POST record; records with any other
/// verb are omitted (their reporting is `unsupported_methods`).
pub fn generate_route_handlers(endpoints: &Vec<Endpoint>) -> (r: String)
    ensures
        r@ == handlers_text(endpoints@),
{
    let mut code = String::from_str(
        "\nasync fn root_handler() -> &'static str {\n    \"Server is up and running!\"\n}",
    );
    proof {
        assert(code@ =~= handlers_text(endpoints@.subrange(0, 0)));
    }
    let mut i: usize = 0;
    while i < endpoints.len()
        invariant
            i <= endpoints@.len(),
            code@ == handlers_text(endpoints@.subrange(0, i as int)),
        decreases endpoints@.len() - i,
    {
        let frag = handler_fragment_text(&endpoints[i]);
        code.append(frag.as_str());
        i = i + 1;
        proof {
            let extended = endpoints@.subrange(0, i as int);
            assert(extended.drop_last() =~= endpoints@.subrange(0, i - 1));
            assert(extended.last() == endpoints@[i - 1]);
            assert(code@ =~= handlers_text(extended));
        }
    }
    proof {
        assert(endpoints@.subrange(0, endpoints@.len() as int) =~= endpoints@);
    }
    code
}

/// The registration statement emitted for a GET record: it binds the literal
/// route string to the derived handler identifier under the GET verb.
pub open spec fn get_route_fragment(route: Seq<char>) -> Seq<char> {
    "\n    router = router.route(\""@ + route + "\", get("@ + derived_name(route)
        + "_handler));"@
}

/// The registration statement emitted for a POST record.
pub open spec fn post_route_fragment(route: Seq<char>) -> Seq<char> {
    "\n    router = router.route(\""@ + route + "\", post("@ + derived_name(route)
        + "_handler));"@
}

/// What one record contributes to the route table: one registration
/// statement for a GET or POST record, nothing for an unsupported verb.
pub open spec fn route_fragment(e: Endpoint) -> Seq<char> {
    if is_get(e.method@) {
        get_route_fragment(e.route@)
    } else if is_post(e.method@) {
        post_route_fragment(e.route@)
    } else {
        Seq::<char>::empty()
    }
}

/// The route-table body: the route fragments of all records, concatenated in
/// input order. The root route is registered by the assembler, not here.
pub open spec fn routes_text(eps: Seq<Endpoint>) -> Seq<char>
    decreases eps.len(),
{
    if eps.len() == 0 {
        Seq::<char>::empty()
    } else {
        routes_text(eps.drop_last()) + route_fragment(eps.last())
    }
}

/// Emits the route registration of one record, or the empty string where its
/// verb is unsupported.
pub fn route_fragment_text(e: &Endpoint) -> (r: String)
    ensures
        r@ == route_fragment(*e),
{
    match classify_method(e.method.as_str()) {
        MethodKind::Get => {
            let name = generate_handler_name(e.route.as_str());
            let mut out = String::from_str("\n    router = router.route(\"");
            out.append(e.route.as_str());
            out.append("\", get(");
            out.append(name.as_str());
            out.append("_handler));");
            proof {
                assert(out@ =~= route_fragment(*e));
            }
            out
        },
        MethodKind::Post => {
            let name = generate_handler_name(e.route.as_str());
            let mut out = String::from_str("\n    router = router.route(\"");
            out.append(e.route.as_str());
            out.append("\", post(");
            out.append(name.as_str());
            out.append("_handler));");
            proof {
                assert(out@ =~= route_fragment(*e));
            }
            out
        },
        MethodKind::Unsupported => String::new(),
    }
}

/// Synthesizes the route-table body: in input order, one registration
/// statement per GET or POST record; records with any other verb are
/// omitted.
pub fn generate_routes(endpoints: &Vec<Endpoint>) -> (r: String)
    ensures
        r@ == routes_text(endpoints@),
{
    let mut code = String::new();
    proof {
        assert(code@ =~= routes_text(endpoints@.subrange(0, 0)));
    }
    let mut i: usize = 0;
    while i < endpoints.len()
        invariant
            i <= endpoints@.len(),
            code@ == routes_text(endpoints@.subrange(0, i as int)),
        decreases endpoints@.len() - i,
    {
        let frag = route_fragment_text(&endpoints[i]);
        code.append(frag.as_str());
        i = i + 1;
        proof {
            let extended = endpoints@.subrange(0, i as int);
            assert(extended.drop_last() =~= endpoints@.subrange(0, i - 1));
            assert(extended.last() == endpoints@[i - 1]);
            assert(code@ =~= routes_text(extended));
        }
    }
    proof {
        assert(endpoints@.subrange(0, endpoints@.len() as int) =~= endpoints@);
    }
    code
}

/// The method tokens of the records that the synthesizers omit, in input
/// order, one entry per offending record.
pub open spec fn unsupported_methods_of(eps: Seq<Endpoint>) -> Seq<Seq<char>>
    decreases eps.len(),
{
    if eps.len() == 0 {
        Seq::<Seq<char>>::empty()
    } else if method_supported(eps.last().method@) {
        unsupported_methods_of(eps.drop_last())
    } else {
        unsupported_methods_of(eps.drop_last()).push(eps.last().method@)
    }
}

/// Collects the method tokens that the synthesizers do not recognize, so a
/// caller can report each to its diagnostic channel. An unsupported verb is
/// non-fatal: the record is omitted and generation continues.
pub fn unsupported_methods(endpoints: &Vec<Endpoint>) -> (r: Vec<String>)
    ensures
        r.deep_view() == unsupported_methods_of(endpoints@),
{
    let mut out: Vec<String> = Vec::new();
    proof {
        assert(out.deep_view() =~= unsupported_methods_of(endpoints@.subrange(0, 0)));
    }
    let mut i: usize = 0;
    while i < endpoints.len()
        invariant
            i <= endpoints@.len(),
            out.deep_view() == unsupported_methods_of(endpoints@.subrange(0, i as int)),
        decreases endpoints@.len() - i,
    {
        let e = &endpoints[i];
        match classify_method(e.method.as_str()) {
            MethodKind::Unsupported => out.push(e.method.clone()),
            _ => (),
        }
        i = i + 1;
        proof {
            let extended = endpoints@.subrange(0, i as int);
            assert(extended.drop_last() =~= endpoints@.subrange(0, i - 1));
            assert(extended.last() == endpoints@[i - 1]);
            assert(out.deep_view() =~= unsupported_methods_of(extended));
        }
    }
    proof {
        assert(endpoints@.subrange(0, endpoints@.len() as int) =~= endpoints@);
    }
    out
}

} // verus!
