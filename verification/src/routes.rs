//! The per-request dispatch pipeline: the method gate and the dispatcher
//! that sequences matching, method gating, and the hand-off to the proxy
//! engine.

use vstd::prelude::*;

use crate::error::ServerError;
use crate::matcher::{spec_find_match, RouteMatch, RouteMatcher};
use crate::strutil::{eq_ignore_case, str_eq_ignore_case};

verus! {

/// The method gate: an empty list allows every method, otherwise the
/// request method must equal some entry under ASCII case-insensitive
/// comparison.
pub open spec fn spec_method_allowed(methods: Seq<Seq<char>>, method: Seq<char>) -> bool {
    ||| methods.len() == 0
    ||| exists|i: int| 0 <= i < methods.len() && eq_ignore_case(#[trigger] methods[i], method)
}

/// Decides whether `method` is allowed by a route's method list.
pub fn is_method_allowed(allowed_methods: &Vec<String>, method: &str) -> (res: bool)
    ensures
        res == spec_method_allowed(allowed_methods.deep_view(), method@),
{
    let ghost dv = allowed_methods.deep_view();
    if allowed_methods.len() == 0 {
        return true;
    }
    let mut i: usize = 0;
    while i < allowed_methods.len()
        invariant
            dv == allowed_methods.deep_view(),
            dv.len() == allowed_methods@.len(),
            i <= dv.len(),
            forall|j: int| 0 <= j < i ==> !eq_ignore_case(#[trigger] dv[j], method@),
        decreases dv.len() - i,
    {
        if str_eq_ignore_case(allowed_methods[i].as_str(), method) {
            proof {
                assert(eq_ignore_case(dv[i as int], method@));
            }
            return true;
        }
        i = i + 1;
    }
    false
}

/// Two methods that agree up to ASCII case are gated identically, whatever
/// the method list.
pub proof fn lemma_method_gate_case_insensitive(
    methods: Seq<Seq<char>>,
    m1: Seq<char>,
    m2: Seq<char>,
)
    requires
        eq_ignore_case(m1, m2),
    ensures
        spec_method_allowed(methods, m1) == spec_method_allowed(methods, m2),
{
    assert forall|i: int|
        0 <= i < methods.len() implies (eq_ignore_case(#[trigger] methods[i], m1)
        == eq_ignore_case(methods[i], m2)) by {
        if eq_ignore_case(methods[i], m1) {
            assert(eq_ignore_case(methods[i], m2));
        }
        if eq_ignore_case(methods[i], m2) {
            assert(eq_ignore_case(methods[i], m1));
        }
    }
}

/// The dispatcher's routing decision for one request: the first matching
/// route when its method gate allows the request, and `RouteNotFound` both
/// when no route matches and when the method is denied (deliberately
/// indistinguishable).
pub fn route_request(matcher: &RouteMatcher, path: &str, method: &str) -> (res: Result<
    RouteMatch,
    ServerError,
>)
    ensures
        match spec_find_match(matcher@, path@) {
            None => res matches Err(ServerError::RouteNotFound),
            Some(sm) => if spec_method_allowed(sm.0.methods, method@) {
                res matches Ok(rm) && rm@.route == sm.0 && rm@.params == sm.1
            } else {
                res matches Err(ServerError::RouteNotFound)
            },
        },
{
    match matcher.find_match(path) {
        None => Err(ServerError::RouteNotFound),
        Some(rm) => {
            if is_method_allowed(&rm.route.methods, method) {
                Ok(rm)
            } else {
                Err(ServerError::RouteNotFound)
            }
        },
    }
}

} // verus!
