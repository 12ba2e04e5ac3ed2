//! Records of what was asked of a device, and what it means that a plan of
//! requests was carried out against one.

use vstd::prelude::*;

verus! {

/// A request together with the answer the device gave to it: the error it
/// failed with, or `None` where it went through.
pub struct Entry<R, E> {
    pub request: R,
    pub failure: Option<E>,
}

/// The error in a result, if it holds one.
pub open spec fn failure_of<T, E>(result: Result<T, E>) -> Option<E> {
    match result {
        Ok(_) => None,
        Err(e) => Some(e),
    }
}

/// The entries a device adds when it serves all of `plan` without a failure.
pub open spec fn all_served<R, E>(plan: Seq<R>) -> Seq<Entry<R, E>> {
    Seq::new(plan.len(), |i: int| Entry { request: plan[i], failure: None })
}

/// `after` is what the record `before` becomes when the requests of `plan`
/// are made in order and the first failure ends the work; `failure` is that
/// failure, or `None` when every request went through.
pub open spec fn carried_out<R, E>(
    before: Seq<Entry<R, E>>,
    after: Seq<Entry<R, E>>,
    plan: Seq<R>,
    failure: Option<E>,
) -> bool {
    match failure {
        None => after == before + all_served::<R, E>(plan),
        Some(e) => {
            let k = after.len() - before.len() - 1;
            &&& 0 <= k < plan.len()
            &&& after == (before + all_served::<R, E>(plan.take(k))).push(
                Entry { request: plan[k], failure: Some(e) },
            )
        },
    }
}

/// Carrying out no request changes nothing and cannot fail.
pub proof fn lemma_carried_out_nothing<R, E>(log: Seq<Entry<R, E>>)
    ensures
        carried_out(log, log, Seq::<R>::empty(), None::<E>),
{
    assert(log + all_served::<R, E>(Seq::<R>::empty()) =~= log);
}

/// One request, whatever its answer, is a plan of one carried out.
pub proof fn lemma_carried_out_one<R, E>(log: Seq<Entry<R, E>>, request: R, failure: Option<E>)
    ensures
        carried_out(log, log.push(Entry { request, failure }), seq![request], failure),
{
    let after = log.push(Entry { request, failure });
    match failure {
        None => {
            assert(after =~= log + all_served::<R, E>(seq![request]));
        },
        Some(e) => {
            assert(seq![request].take(0) =~= Seq::<R>::empty());
            assert(log + all_served::<R, E>(Seq::<R>::empty()) =~= log);
        },
    }
}

/// A plan that went through, followed by a second plan, is the two plans
/// in a row carried out with the second one's outcome.
pub proof fn lemma_carried_out_then<R, E>(
    a: Seq<Entry<R, E>>,
    b: Seq<Entry<R, E>>,
    c: Seq<Entry<R, E>>,
    first: Seq<R>,
    second: Seq<R>,
    failure: Option<E>,
)
    requires
        carried_out(a, b, first, None::<E>),
        carried_out(b, c, second, failure),
    ensures
        carried_out(a, c, first + second, failure),
{
    match failure {
        None => {
            assert(c =~= a + all_served::<R, E>(first + second));
        },
        Some(e) => {
            let k = c.len() - b.len() - 1;
            let n = first.len() as int;
            assert((first + second).take(n + k) =~= first + second.take(k));
            assert(a + all_served::<R, E>(first + second.take(k)) =~= b + all_served::<R, E>(
                second.take(k),
            ));
        },
    }
}

/// Where a plan failed, whatever was to follow it was never begun.
pub proof fn lemma_carried_out_cut<R, E>(
    a: Seq<Entry<R, E>>,
    b: Seq<Entry<R, E>>,
    first: Seq<R>,
    second: Seq<R>,
    e: E,
)
    requires
        carried_out(a, b, first, Some(e)),
    ensures
        carried_out(a, b, first + second, Some(e)),
{
    let k = b.len() - a.len() - 1;
    assert((first + second).take(k) =~= first.take(k));
}

} // verus!
