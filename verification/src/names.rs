use vstd::prelude::*;
use vstd::string::StrSliceExecFns;
use vstd::string::StringExecFns;

verus! {

/// A character of a route survives name derivation unless it is the path
/// separator '/' or the path-parameter marker ':'.
pub open spec fn keeps_char(c: char) -> bool {
    c != '/' && c != ':'
}

/// The identifier fragment derived from a route: the route's characters in
/// order, with every path separator and every parameter marker removed.
pub open spec fn derived_name(s: Seq<char>) -> Seq<char>
    decreases s.len(),
{
    if s.len() == 0 {
        Seq::<char>::empty()
    } else if keeps_char(s.last()) {
        derived_name(s.drop_last()).push(s.last())
    } else {
        derived_name(s.drop_last())
    }
}

/// Maps a route path to its handler identifier fragment by dropping every
/// '/' and every ':'. Pure and total: the result is a function of the route
/// alone, with no validation of the derived token.
pub fn generate_handler_name(route: &str) -> (r: String)
    ensures
        r@ == derived_name(route@),
{
    let len = route.unicode_len();
    let mut out = String::new();
    let mut i: usize = 0;
    while i < len
        invariant
            i <= len,
            len == route@.len(),
            out@ == derived_name(route@.subrange(0, i as int)),
        decreases len - i,
    {
        let c = route.get_char(i);
        let ghost prefix = route@.subrange(0, i as int);
        if c != '/' && c != ':' {
            let piece = route.substring_char(i, i + 1);
            out.append(piece);
            proof {
                assert(out@ =~= derived_name(prefix).push(route@[i as int]));
            }
        }
        i = i + 1;
        proof {
            let extended = route@.subrange(0, i as int);
            assert(extended.drop_last() =~= prefix);
            assert(extended.last() == route@[i - 1]);
        }
    }
    proof {
        assert(route@.subrange(0, len as int) =~= route@);
    }
    out
}

/// Law: name derivation is deterministic — the derived identifier is a pure
/// function of the route alone, the same on every call.
pub proof fn lemma_derived_name_deterministic(r1: Seq<char>, r2: Seq<char>)
    requires
        r1 == r2,
    ensures
        derived_name(r1) == derived_name(r2),
{
}

} // verus!
