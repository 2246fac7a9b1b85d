//! The failover dispatcher: first success wins.

use vstd::prelude::*;

verus! {

/// The whole story of one dispatched call:
/// - a success is the result of some member `i`, and every member before `i`
///   was tried and failed (its error is forgotten);
/// - a failure carries exactly one error per member, in the order the
///   members were tried;
/// - with no members at all, the error list is empty.
pub open spec fn dispatch_post<A, T, E, F: Fn(&A) -> Result<T, E>>(
    endpoints: Seq<A>,
    f: F,
    r: Result<T, Vec<E>>,
) -> bool {
    match r {
        Ok(t) => exists|i: int, errs: Seq<E>|
            {
                &&& 0 <= i < endpoints.len()
                &&& errs.len() == i
                &&& forall|j: int| 0 <= j < i ==> call_ensures(f, (&endpoints[j],), Err(errs[j]))
                &&& call_ensures(f, (&endpoints[i],), Ok(t))
            },
        Err(errs) => {
            &&& errs@.len() == endpoints.len()
            &&& forall|j: int|
                0 <= j < endpoints.len() ==> call_ensures(f, (&endpoints[j],), Err(errs@[j]))
        },
    }
}

/// Executes the given operation with each cluster member in order and
/// short-circuit returns the first successful result. If all members are
/// exhausted without success, the errors of every attempt are returned, in
/// the order the members were tried.
pub fn first_ok<A, T, E, F: Fn(&A) -> Result<T, E>>(endpoints: &Vec<A>, f: F) -> (r: Result<
    T,
    Vec<E>,
>)
    requires
        forall|i: int| 0 <= i < endpoints@.len() ==> call_requires(f, (&endpoints@[i],)),
    ensures
        dispatch_post(endpoints@, f, r),
{
    let mut errors: Vec<E> = Vec::new();
    let mut i: usize = 0;
    while i < endpoints.len()
        invariant
            forall|k: int| 0 <= k < endpoints@.len() ==> call_requires(f, (&endpoints@[k],)),
            0 <= i <= endpoints@.len(),
            errors@.len() == i,
            forall|j: int| 0 <= j < i ==> call_ensures(f, (&endpoints@[j],), Err(errors@[j])),
        decreases endpoints@.len() - i,
    {
        match f(&endpoints[i]) {
            Ok(item) => {
                proof {
                    let wi = i as int;
                    let werrs = errors@;
                    assert({
                        &&& 0 <= wi < endpoints@.len()
                        &&& werrs.len() == wi
                        &&& forall|j: int|
                            0 <= j < wi ==> call_ensures(f, (&endpoints@[j],), Err(werrs[j]))
                        &&& call_ensures(f, (&endpoints@[wi],), Ok(item))
                    });
                }
                return Ok(item);
            },
            Err(err) => {
                errors.push(err);
            },
        }
        i += 1;
    }
    Err(errors)
}

/// Law: for every endpoint list where endpoint `i` can only succeed with
/// `t` and every endpoint before `i` can only fail, the dispatcher returns
/// `t` itself and the error list plays no part.
pub proof fn lemma_first_success_wins<A, T, E, F: Fn(&A) -> Result<T, E>>(
    endpoints: Seq<A>,
    f: F,
    r: Result<T, Vec<E>>,
    i: int,
    t: T,
)
    requires
        dispatch_post(endpoints, f, r),
        0 <= i < endpoints.len(),
        forall|out: Result<T, E>|
            #[trigger] call_ensures(f, (&endpoints[i],), out) ==> out == Ok::<T, E>(t),
        forall|j: int, out: Result<T, E>|
            0 <= j < i && #[trigger] call_ensures(f, (&endpoints[j],), out) ==> out is Err,
    ensures
        r == Ok::<T, Vec<E>>(t),
{
    match r {
        Ok(v) => {
            let (wi, werrs): (int, Seq<E>) = choose|wi: int, werrs: Seq<E>|
                {
                    &&& 0 <= wi < endpoints.len()
                    &&& werrs.len() == wi
                    &&& forall|j: int|
                        0 <= j < wi ==> call_ensures(f, (&endpoints[j],), Err(werrs[j]))
                    &&& call_ensures(f, (&endpoints[wi],), Ok(v))
                };
            if wi < i {
                assert(call_ensures(f, (&endpoints[wi],), Ok::<T, E>(v)));
                assert(false);
            } else if wi > i {
                assert(call_ensures(f, (&endpoints[i],), Err::<T, E>(werrs[i])));
                assert(false);
            } else {
                assert(call_ensures(f, (&endpoints[i],), Ok::<T, E>(v)));
            }
        },
        Err(errs) => {
            assert(call_ensures(f, (&endpoints[i],), Err::<T, E>(errs@[i])));
            assert(false);
        },
    }
}

/// Law: for every endpoint list where each attempt can only fail, the
/// dispatcher returns one error per endpoint, in the endpoints' own order.
pub proof fn lemma_all_failures_reported<A, T, E, F: Fn(&A) -> Result<T, E>>(
    endpoints: Seq<A>,
    f: F,
    r: Result<T, Vec<E>>,
)
    requires
        dispatch_post(endpoints, f, r),
        forall|j: int, out: Result<T, E>|
            0 <= j < endpoints.len() && #[trigger] call_ensures(f, (&endpoints[j],), out)
                ==> out is Err,
    ensures
        r matches Err(errs) && errs@.len() == endpoints.len(),
        r matches Err(errs) ==> forall|j: int|
            0 <= j < endpoints.len() ==> call_ensures(f, (&endpoints[j],), Err(errs@[j])),
{
    match r {
        Ok(v) => {
            let (wi, werrs): (int, Seq<E>) = choose|wi: int, werrs: Seq<E>|
                {
                    &&& 0 <= wi < endpoints.len()
                    &&& werrs.len() == wi
                    &&& forall|j: int|
                        0 <= j < wi ==> call_ensures(f, (&endpoints[j],), Err(werrs[j]))
                    &&& call_ensures(f, (&endpoints[wi],), Ok(v))
                };
            assert(call_ensures(f, (&endpoints[wi],), Ok::<T, E>(v)));
            assert(false);
        },
        Err(_) => {},
    }
}

/// Law: for an empty endpoint list the dispatcher returns an empty error
/// list, whatever the operation would have done.
pub proof fn lemma_empty_endpoints<A, T, E, F: Fn(&A) -> Result<T, E>>(
    endpoints: Seq<A>,
    f: F,
    r: Result<T, Vec<E>>,
)
    requires
        dispatch_post(endpoints, f, r),
        endpoints.len() == 0,
    ensures
        r matches Err(errs) && errs@.len() == 0,
{
}

} // verus!
