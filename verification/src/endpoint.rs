use vstd::prelude::*;

verus! {

/// One input record of the generator: a route path (which may contain
/// path-parameter segments marked by ':'), an HTTP verb token, and a
/// free-text purpose used verbatim in the generated handler body.
pub struct Endpoint {
    pub route: String,
    pub method: String,
    pub purpose: String,
}

} // verus!
