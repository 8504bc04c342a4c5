//! What holds of every exchange, proved over the model that [`Exchange`]'s transitions follow.
use vstd::prelude::*;

use crate::middleware::{
    after_inner, after_transform, reachable, reassemble, respond, start_view, ExchangeView,
};

verus! {

/// Driving an exchange through its two transitions, with the transform function's result for
/// the body it was handed, yields exactly `respond(inner, transform)`.
pub proof fn lemma_exchange_responds<Q, H, B, B2, E>(
    inner: Result<(Q, H, B), E>,
    transform: spec_fn(B) -> Result<B2, E>,
)
    ensures
        inner is Err ==> after_inner(start_view::<Q, H, B>(), inner).state is Complete
            && respond(inner, transform) == Err::<(Q, H, B2), E>(inner->Err_0),
        inner is Ok ==> {
            let v = after_inner(start_view::<Q, H, B>(), inner);
            &&& v.state is Transforming
            &&& v.state->Transforming_body == inner->Ok_0.2
            &&& reassemble(v.state, transform(inner->Ok_0.2)) == respond(inner, transform)
        },
{
}

/// A transform function that returns its input unchanged leaves the whole response, request,
/// head and body, as the inner layer produced it.
pub proof fn lemma_identity_transform<Q, H, B, E>(
    inner: Result<(Q, H, B), E>,
    transform: spec_fn(B) -> Result<B, E>,
)
    requires
        forall|b: B| #[trigger] transform(b) == Ok::<B, E>(b),
    ensures
        respond(inner, transform) == inner,
{
    if inner is Ok {
        let b = inner->Ok_0.2;
        assert(transform(b) == Ok::<B, E>(b));
    }
}

/// A transform function that always returns `lit` makes `lit` the body of every response
/// that the inner layer produced, whatever body it produced; head and request are kept.
pub proof fn lemma_replacement_transform<Q, H, B, B2, E>(
    inner: Result<(Q, H, B), E>,
    transform: spec_fn(B) -> Result<B2, E>,
    lit: B2,
)
    requires
        forall|b: B| #[trigger] transform(b) == Ok::<B2, E>(lit),
    ensures
        inner is Ok ==> respond(inner, transform) == Ok::<(Q, H, B2), E>(
            (inner->Ok_0.0, inner->Ok_0.1, lit),
        ),
        inner is Err ==> respond(inner, transform) == Err::<(Q, H, B2), E>(inner->Err_0),
{
    if inner is Ok {
        assert(transform(inner->Ok_0.2) == Ok::<B2, E>(lit));
    }
}

/// When the inner layer fails, the exchange completes without invoking the transform
/// function, and the inner layer's error is the one propagated.
pub proof fn lemma_error_short_circuit<Q, H, B, B2, E>(
    e: E,
    transform: spec_fn(B) -> Result<B2, E>,
)
    ensures
        after_inner(start_view::<Q, H, B>(), Err::<(Q, H, B), E>(e)).transform_calls == 0,
        after_inner(start_view::<Q, H, B>(), Err::<(Q, H, B), E>(e)).state is Complete,
        respond(Err::<(Q, H, B), E>(e), transform) == Err::<(Q, H, B2), E>(e),
{
}

/// Three stacked interceptors, `c` outermost: each transform sees the body produced by the
/// layer beneath it. With `a` and `b` identities and `c` always returning `lit`, the body
/// that leaves the stack is `lit`, whatever the handler's body was.
pub proof fn lemma_stacking_order<Q, H, B, E>(
    req: Q,
    head: H,
    body: B,
    a: spec_fn(B) -> Result<B, E>,
    b: spec_fn(B) -> Result<B, E>,
    c: spec_fn(B) -> Result<B, E>,
    lit: B,
)
    requires
        forall|x: B| #[trigger] a(x) == Ok::<B, E>(x),
        forall|x: B| #[trigger] b(x) == Ok::<B, E>(x),
        forall|x: B| #[trigger] c(x) == Ok::<B, E>(lit),
    ensures
        respond(respond(respond(Ok::<(Q, H, B), E>((req, head, body)), a), b), c) == Ok::<
            (Q, H, B),
            E,
        >((req, head, lit)),
{
    let handler = Ok::<(Q, H, B), E>((req, head, body));
    lemma_identity_transform(handler, a);
    lemma_identity_transform(handler, b);
    lemma_replacement_transform(handler, c, lit);
}

/// Over one request the transform function is invoked exactly once when the inner layer
/// succeeds, never when it fails, and finishing the transform invokes nothing more.
pub proof fn lemma_single_invocation<Q, H, B, E>(inner: Result<(Q, H, B), E>)
    ensures
        inner is Ok ==> after_inner(start_view::<Q, H, B>(), inner).transform_calls == 1,
        inner is Ok ==> after_transform(after_inner(start_view::<Q, H, B>(), inner)).transform_calls
            == 1,
        inner is Err ==> after_inner(start_view::<Q, H, B>(), inner).transform_calls == 0,
{
}

/// Every transition keeps an exchange among the reachable views, starting from a new one.
pub proof fn lemma_reachable_preserved<Q, H, B, E>(
    v: ExchangeView<Q, H, B>,
    res: Result<(Q, H, B), E>,
)
    requires
        reachable(v),
    ensures
        reachable(start_view::<Q, H, B>()),
        v.state is Forwarding ==> reachable(after_inner(v, res)),
        v.state is Transforming ==> reachable(after_transform(v)),
{
}

/// An exchange suspended on the transform function has invoked it once; whatever the driver
/// does next, finishing or dropping it, no transition invokes it again, and the exchange never
/// returns to forwarding, the only state in which it invokes the transform function.
pub proof fn lemma_no_reinvocation<Q, H, B>(v: ExchangeView<Q, H, B>)
    requires
        reachable(v),
        v.state is Transforming,
    ensures
        v.transform_calls == 1,
        after_transform(v).transform_calls == 1,
        !(after_transform(v).state is Forwarding),
        after_transform(v).state is Complete,
{
}

} // verus!
