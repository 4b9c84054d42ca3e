use crate::assemble::server_code_text;
use crate::endpoint::Endpoint;
use crate::names::derived_name;
use crate::synthesize::handler_fragment;
use crate::synthesize::handlers_body;
use crate::synthesize::handlers_text;
use crate::synthesize::method_supported;
use crate::synthesize::root_handler_text;
use crate::synthesize::route_fragment;
use crate::synthesize::routes_text;
use vstd::prelude::*;

verus! {

/// Law: generation is a pure function of the input records — two runs on the
/// same input yield byte-identical generated source (the build manifest is a
/// fixed constant, so it is identical across runs as well).
pub proof fn lemma_generation_idempotent(eps1: Seq<Endpoint>, eps2: Seq<Endpoint>)
    requires
        eps1 == eps2,
    ensures
        server_code_text(eps1) == server_code_text(eps2),
{
}

/// Law: for an empty input list the handler block holds exactly the fixed
/// root handler, and the route-table body holds no text at all.
pub proof fn lemma_empty_input(eps: Seq<Endpoint>)
    requires
        eps.len() == 0,
    ensures
        handlers_text(eps) == root_handler_text(),
        routes_text(eps) == Seq::<char>::empty(),
{
    assert(handlers_text(eps) =~= root_handler_text());
}

/// Law: a record with an unsupported verb contributes nothing — the handler
/// block and the route-table body equal those of the input with that record
/// removed, so every other record still produces its output.
pub proof fn lemma_unsupported_record_omitted(eps: Seq<Endpoint>, i: int)
    requires
        0 <= i < eps.len(),
        !method_supported(eps[i].method@),
    ensures
        handlers_body(eps) == handlers_body(eps.remove(i)),
        routes_text(eps) == routes_text(eps.remove(i)),
    decreases eps.len(),
{
    if i == eps.len() - 1 {
        assert(eps.remove(i) =~= eps.drop_last());
        assert(handler_fragment(eps.last()) == Seq::<char>::empty());
        assert(route_fragment(eps.last()) == Seq::<char>::empty());
        assert(handlers_body(eps.drop_last()) + Seq::<char>::empty() =~= handlers_body(
            eps.drop_last(),
        ));
        assert(routes_text(eps.drop_last()) + Seq::<char>::empty() =~= routes_text(
            eps.drop_last(),
        ));
    } else {
        let pre = eps.drop_last();
        assert(pre[i] == eps[i]);
        lemma_unsupported_record_omitted(pre, i);
        let removed = eps.remove(i);
        assert(removed.drop_last() =~= pre.remove(i));
        assert(removed.last() == eps.last());
    }
}

/// Law: two records whose routes derive to the same handler identifier are
/// both emitted in full — the collision is neither detected nor rejected,
/// and the block holds both definitions, in input order.
pub proof fn lemma_name_collision_tolerated(e1: Endpoint, e2: Endpoint)
    requires
        derived_name(e1.route@) == derived_name(e2.route@),
        method_supported(e1.method@),
        method_supported(e2.method@),
    ensures
        handlers_body(seq![e1, e2]) == handler_fragment(e1) + handler_fragment(e2),
{
    let s = seq![e1, e2];
    assert(s.drop_last() =~= seq![e1]);
    assert(s.last() == e2);
    assert(seq![e1].drop_last() =~= Seq::<Endpoint>::empty());
    assert(seq![e1].last() == e1);
    assert(handlers_body(Seq::<Endpoint>::empty()) == Seq::<char>::empty());
    assert(handlers_body(seq![e1]) == Seq::<char>::empty() + handler_fragment(e1));
    assert(handlers_body(s) == handlers_body(seq![e1]) + handler_fragment(e2));
    assert((Seq::<char>::empty() + handler_fragment(e1)) + handler_fragment(e2)
        =~= handler_fragment(e1) + handler_fragment(e2));
}

} // verus!
