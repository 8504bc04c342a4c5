//! A middleware that hands each response body to a transform function and reassembles the
//! response from the inner layer's head and the transformed body.
//!
//! The per-request work is a two-phase state machine: `Forwarding` waits for the inner layer,
//! `Transforming` waits for the transform function, `Complete` is terminal. The driver polls
//! the two futures and reports each outcome to an [`Exchange`], which decides what happens next.
use std::rc::Rc;

use vstd::prelude::*;

verus! {

/// Where an exchange stands, as a mathematical value.
pub enum ExchangeState<Q, H, B> {
    /// The request went to the inner layer; nothing else has happened.
    Forwarding,
    /// The inner layer answered; `body` went to the transform function, `req` and `head`
    /// wait for the transformed body.
    Transforming { req: Q, head: H, body: B },
    /// A response was reassembled or an error propagated.
    Complete,
}

/// The model of one exchange: its state and how often it invoked the transform function.
pub struct ExchangeView<Q, H, B> {
    pub state: ExchangeState<Q, H, B>,
    pub transform_calls: nat,
}

/// The model of an exchange that was just created.
pub open spec fn start_view<Q, H, B>() -> ExchangeView<Q, H, B> {
    ExchangeView { state: ExchangeState::Forwarding, transform_calls: 0 }
}

/// The inner layer answered with `res`: on success its body goes to the transform function,
/// on failure the exchange is over.
pub open spec fn after_inner<Q, H, B, E>(
    v: ExchangeView<Q, H, B>,
    res: Result<(Q, H, B), E>,
) -> ExchangeView<Q, H, B> {
    match res {
        Ok((req, head, body)) => ExchangeView {
            state: ExchangeState::Transforming { req, head, body },
            transform_calls: v.transform_calls + 1,
        },
        Err(_) => ExchangeView { state: ExchangeState::Complete, transform_calls: v.transform_calls },
    }
}

/// The transform function finished: whatever it returned, the exchange is over.
pub open spec fn after_transform<Q, H, B>(v: ExchangeView<Q, H, B>) -> ExchangeView<Q, H, B> {
    ExchangeView { state: ExchangeState::Complete, transform_calls: v.transform_calls }
}

/// What an exchange in `state` hands upward once the transform function returned `res`:
/// the held request and head with the new body, or the transform's error unchanged.
pub open spec fn reassemble<Q, H, B, B2, E>(
    state: ExchangeState<Q, H, B>,
    res: Result<B2, E>,
) -> Result<(Q, H, B2), E>
    recommends
        state is Transforming,
{
    match res {
        Ok(new_body) => Ok((state->Transforming_req, state->Transforming_head, new_body)),
        Err(e) => Err(e),
    }
}

/// The response of a whole exchange whose inner layer answers `inner` and whose transform
/// function maps a body `b` to `transform(b)`.
pub open spec fn respond<Q, H, B, B2, E>(
    inner: Result<(Q, H, B), E>,
    transform: spec_fn(B) -> Result<B2, E>,
) -> Result<(Q, H, B2), E> {
    match inner {
        Ok((req, head, body)) => match transform(body) {
            Ok(new_body) => Ok((req, head, new_body)),
            Err(e) => Err(e),
        },
        Err(e) => Err(e),
    }
}

/// The views that an exchange can reach: while forwarding it has not invoked the transform
/// function, while transforming it has invoked it exactly once, and once complete at most once.
pub open spec fn reachable<Q, H, B>(v: ExchangeView<Q, H, B>) -> bool {
    match v.state {
        ExchangeState::Forwarding => v.transform_calls == 0,
        ExchangeState::Transforming { .. } => v.transform_calls == 1,
        ExchangeState::Complete => v.transform_calls <= 1,
    }
}

/// The factory: built once from a transform function, it attaches to inner layers.
pub struct MapResBodyMiddleware<F> {
    mw_fn: Rc<F>,
}

/// Creates a middleware whose transform function is `mapper_fn`.
pub fn map_response_body<F>(mapper_fn: F) -> (r: MapResBodyMiddleware<F>)
    ensures
        r.mapper() == mapper_fn,
{
    MapResBodyMiddleware { mw_fn: Rc::new(mapper_fn) }
}

impl<F> MapResBodyMiddleware<F> {
    /// The transform function.
    pub closed spec fn mapper(&self) -> F {
        *self.mw_fn
    }

    /// Attaches to the inner layer `service`, sharing the transform function.
    pub fn new_transform<S>(&self, service: S) -> (r: MapResBodyService<S, F>)
        ensures
            r.inner() == service,
            r.mapper() == self.mapper(),
    {
        MapResBodyService { service, mw_fn: Rc::clone(&self.mw_fn) }
    }
}

impl<F> Clone for MapResBodyMiddleware<F> {
    fn clone(&self) -> (r: MapResBodyMiddleware<F>)
        ensures
            r.mapper() == self.mapper(),
    {
        MapResBodyMiddleware { mw_fn: Rc::clone(&self.mw_fn) }
    }
}

/// The instance bound to one inner layer.
pub struct MapResBodyService<S, F> {
    service: S,
    mw_fn: Rc<F>,
}

impl<S, F> MapResBodyService<S, F> {
    /// The inner layer.
    pub closed spec fn inner(&self) -> S {
        self.service
    }

    /// The transform function.
    pub closed spec fn mapper(&self) -> F {
        *self.mw_fn
    }

    /// The inner layer, to which the driver forwards each request.
    pub fn service(&self) -> (r: &S)
        ensures
            *r == self.inner(),
    {
        &self.service
    }

    /// Starts the exchange for one request, which the driver has just forwarded to the
    /// inner layer.
    pub fn begin<Q, H, B>(&self) -> (r: Exchange<F, Q, H, B>)
        ensures
            r@ == start_view::<Q, H, B>(),
            r.mapper() == self.mapper(),
    {
        Exchange { mw_fn: Rc::clone(&self.mw_fn), phase: Phase::Forwarding, calls: Ghost(0) }
    }
}

enum Phase<Q, H, B> {
    Forwarding,
    Transforming { req: Q, head: H, body: Ghost<B> },
    Complete,
}

/// The state of one request: owned by its driver, never shared, never reused.
pub struct Exchange<F, Q, H, B> {
    mw_fn: Rc<F>,
    phase: Phase<Q, H, B>,
    calls: Ghost<nat>,
}

impl<F, Q, H, B> View for Exchange<F, Q, H, B> {
    type V = ExchangeView<Q, H, B>;

    closed spec fn view(&self) -> ExchangeView<Q, H, B> {
        ExchangeView {
            state: match self.phase {
                Phase::Forwarding => ExchangeState::Forwarding,
                Phase::Transforming { req, head, body } => ExchangeState::Transforming {
                    req,
                    head,
                    body: body@,
                },
                Phase::Complete => ExchangeState::Complete,
            },
            transform_calls: self.calls@,
        }
    }
}

impl<F, Q, H, B> Exchange<F, Q, H, B> {
    /// The transform function.
    pub closed spec fn mapper(&self) -> F {
        *self.mw_fn
    }

    #[verifier::type_invariant]
    spec fn inv(&self) -> bool {
        reachable(self@)
    }

    /// Whether the exchange still waits for the inner layer.
    pub fn is_forwarding(&self) -> (r: bool)
        ensures
            r == (self@.state is Forwarding),
            reachable(self@),
    {
        proof {
            use_type_invariant(self);
        }
        match self.phase {
            Phase::Forwarding => true,
            _ => false,
        }
    }

    /// Whether the exchange waits for the transform function.
    pub fn is_transforming(&self) -> (r: bool)
        ensures
            r == (self@.state is Transforming),
            reachable(self@),
    {
        proof {
            use_type_invariant(self);
        }
        match self.phase {
            Phase::Transforming { .. } => true,
            _ => false,
        }
    }

    /// Whether the exchange is over.
    pub fn is_complete(&self) -> (r: bool)
        ensures
            r == (self@.state is Complete),
            reachable(self@),
    {
        proof {
            use_type_invariant(self);
        }
        match self.phase {
            Phase::Complete => true,
            _ => false,
        }
    }

    /// The inner layer's future resolved with `res`, the response already split into request,
    /// head and body. On success the body goes to the transform function, once, and its
    /// future comes back for the driver to poll next; the request and head are held. On
    /// failure the error comes back unchanged and the transform function is not invoked.
    pub fn inner_ready<Fut, E>(&mut self, res: Result<(Q, H, B), E>) -> (r: Result<Fut, E>) where
        F: Fn(B) -> Fut,
    requires
            old(self)@.state is Forwarding,
            res is Ok ==> old(self).mapper().requires((res->Ok_0.2,)),
        ensures
            final(self)@ == after_inner(old(self)@, res),
            reachable(final(self)@),
            final(self).mapper() == old(self).mapper(),
            res is Ok <==> r is Ok,
            res is Ok ==> old(self).mapper().ensures((res->Ok_0.2,), r->Ok_0),
            res is Err ==> r == Err::<Fut, E>(res->Err_0),
    {
        proof {
            use_type_invariant(&*self);
        }
        match res {
            Ok((req, head, body)) => {
                let ghost handed = body;
                let f: &F = &*self.mw_fn;
                let fut = f(body);
                let ghost calls = self.calls@ + 1;
                *self = Exchange {
                    mw_fn: Rc::clone(&self.mw_fn),
                    phase: Phase::Transforming { req, head, body: Ghost(handed) },
                    calls: Ghost(calls),
                };
                Ok(fut)
            },
            Err(e) => {
                self.phase = Phase::Complete;
                Err(e)
            },
        }
    }

    /// The transform function's future resolved with `res`. On success the held request and
    /// head are taken, once, and come back with the new body; on failure they are dropped
    /// and the error comes back unchanged. Either way the exchange is over.
    pub fn transform_ready<B2, E>(&mut self, res: Result<B2, E>) -> (r: Result<(Q, H, B2), E>)
        requires
            old(self)@.state is Transforming,
        ensures
            final(self)@ == after_transform(old(self)@),
            reachable(final(self)@),
            final(self).mapper() == old(self).mapper(),
            r == reassemble(old(self)@.state, res),
    {
        proof {
            use_type_invariant(&*self);
        }
        let mut phase = Phase::Complete;
        std::mem::swap(&mut self.phase, &mut phase);
        match phase {
            Phase::Transforming { req, head, .. } => match res {
                Ok(new_body) => Ok((req, head, new_body)),
                Err(e) => Err(e),
            },
            _ => vstd::pervasive::unreached(),
        }
    }
}

} // verus!
