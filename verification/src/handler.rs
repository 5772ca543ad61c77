use vstd::prelude::*;
use crate::net::client::Client;
use crate::net::request::Request;

verus! {

/// The "execute an immutable request" abstraction: a handler takes a
/// request and returns a response or a typed error. Handlers may keep
/// state; `calls` counts how many times `execute` has run, so that
/// decorators can account for the executions they cause.
pub trait Handler: Sized {
    type Resp;

    type Error;

    /// Whether the handler is in a state its contract covers. A verified
    /// implementation gives this its own meaning; the default stands for
    /// implementations outside the verified world.
    open spec fn wf(&self) -> bool {
        true
    }

    /// How many times `execute` has run on this handler. A verified
    /// implementation counts; the default stands for implementations
    /// outside the verified world.
    open spec fn calls(&self) -> nat {
        0
    }

    /// Whether this handler's outcomes follow `outcome_at`. A verified
    /// implementation whose results are a function of its own state sets
    /// this true; a handler whose result depends on anything else (the
    /// network, the request handed in) leaves it false.
    open spec fn obeys_outcome(&self) -> bool {
        false
    }

    /// The outcomes of the coming executions, for a handler that obeys:
    /// `outcome_at(0)` is what the next `execute` returns, `outcome_at(1)`
    /// the one after, and so on.
    open spec fn outcome_at(&self, k: nat) -> Result<Self::Resp, Self::Error> {
        arbitrary()
    }

    fn execute(&mut self, req: Request) -> (r: Result<Self::Resp, Self::Error>)
        requires
            old(self).wf(),
        ensures
            final(self).wf(),
            final(self).calls() == old(self).calls() + 1,
            old(self).obeys_outcome() ==> (final(self).obeys_outcome() && r == old(
                self,
            ).outcome_at(0) && forall|k: nat|
                (#[trigger] final(self).outcome_at(k)) == old(self).outcome_at(k + 1)),
    ;
}

/// Wraps a handler in a decorator, producing a new handler. Wrapping is
/// closed: the output satisfies the same handler contract, so decorators
/// stack indefinitely.
pub trait HandlerWrapper<H: Handler> {
    type Output: Handler;

    /// When wrapping the given handler yields a well-formed decorated one.
    spec fn can_wrap(&self, from: &H) -> bool;

    /// How the decorated handler relates to the one wrapped: each wrapper
    /// states here that its output carries the wrapped handler.
    spec fn wraps(&self, r: &Self::Output, from: &H) -> bool;

    fn wrap_into(&self, from: H) -> (r: Self::Output)
        requires
            self.can_wrap(&from),
        ensures
            r.wf(),
            self.wraps(&r, &from),
    ;
}

/// Post-fix decoration: `handler.wrap(wrapper)`.
pub trait WrapDecorate<H: Handler, W: HandlerWrapper<H>>: Sized {
    type Output;

    /// When the wrapper may be applied to this value.
    spec fn wrappable(&self, wrapper: &W) -> bool;

    fn wrap(self, wrapper: W) -> (r: Self::Output)
        requires
            self.wrappable(&wrapper),
    ;
}

impl<H: Handler, W: HandlerWrapper<H>> WrapDecorate<H, W> for H {
    type Output = W::Output;

    open spec fn wrappable(&self, wrapper: &W) -> bool {
        wrapper.can_wrap(self)
    }

    fn wrap(self, wrapper: W) -> (r: W::Output)
        ensures
            r.wf(),
            wrapper.wraps(&r, &self),
    {
        wrapper.wrap_into(self)
    }
}

/// The base of every handler stack: holds the client whose transport will
/// perform the actual send. The send itself is I/O and lives outside this
/// library; callers pair this with their own executing handler.
#[derive(Clone)]
pub struct BaseHandler {
    client: Client,
}

impl BaseHandler {
    /// The client this handler would send through.
    pub closed spec fn spec_client(&self) -> Client {
        self.client
    }

    pub fn new(client: Client) -> (r: BaseHandler)
        ensures
            r.spec_client() == client,
    {
        BaseHandler { client }
    }

    /// The client this handler would send through.
    pub fn client(&self) -> (r: &Client)
        ensures
            *r == self.spec_client(),
    {
        &self.client
    }
}

/// The bounded-retry decorator: clones the request for each attempt and
/// invokes the inner handler, up to `N` times, stopping at the first
/// success. `N` must be at least 1; a decorated handler with `N == 0` is
/// not well-formed and cannot be constructed through `new` or the wrapper.
pub struct Retries<H: Handler, const N: usize> {
    pub inner: H,
    pub count: Ghost<nat>,
}

/// Why a retried execution failed: the last attempt's inner error, or the
/// request could not be cloned for an attempt, in which case the inner
/// handler was never invoked at all.
#[derive(Debug, PartialEq, Eq)]
pub enum RetriesError<E> {
    InnerError(E),
    CouldNotCloneRequest,
}

impl<H: Handler, const N: usize> Retries<H, N> {
    pub fn new(inner: H) -> (r: Retries<H, N>)
        requires
            N >= 1,
            inner.wf(),
        ensures
            r.wf(),
            r.inner == inner,
            r.calls() == 0,
    {
        Retries { inner, count: Ghost(0) }
    }
}

impl<H: Handler, const N: usize> Handler for Retries<H, N> {
    type Resp = H::Resp;

    type Error = RetriesError<H::Error>;

    open spec fn wf(&self) -> bool {
        N >= 1 && self.inner.wf()
    }

    open spec fn calls(&self) -> nat {
        self.count@
    }

    /// Retry semantics: a request that cannot be cloned aborts at once,
    /// before the inner handler runs. Otherwise the inner handler runs
    /// between 1 and N times: exactly N on exhaustion (the last error is
    /// returned), at most N when an attempt succeeds. For an inner handler
    /// with a deterministic outcome stream, the result corresponds to the
    /// attempts' outcomes: the first success, after exactly the failures
    /// before it; or, when the first N outcomes all fail, the last
    /// attempt's error, the earlier ones discarded.
    #[verifier::loop_isolation(false)]
    fn execute(&mut self, req: Request) -> (r: Result<H::Resp, RetriesError<H::Error>>)
        ensures
            !req.spec_clonable() ==> (r matches Err(RetriesError::CouldNotCloneRequest)
                && final(self).inner.calls() == old(self).inner.calls()),
            r matches Err(RetriesError::CouldNotCloneRequest) ==> !req.spec_clonable(),
            r matches Err(RetriesError::InnerError(e)) ==> final(self).inner.calls()
                == old(self).inner.calls() + N,
            r is Ok ==> old(self).inner.calls() < final(self).inner.calls()
                <= old(self).inner.calls() + N,
            old(self).inner.obeys_outcome() ==> final(self).inner.obeys_outcome(),
            old(self).inner.obeys_outcome() ==> (r matches Err(RetriesError::InnerError(e))
                ==> old(self).inner.outcome_at((N - 1) as nat) == Err::<H::Resp, H::Error>(e)
                && (forall|k: int|
                0 <= k < N ==> (#[trigger] old(self).inner.outcome_at(k as nat)) is Err)),
            old(self).inner.obeys_outcome() ==> (r matches Ok(resp)
                ==> exists|k: int|
                0 <= k < N && (#[trigger] old(self).inner.outcome_at(k as nat)) == Ok::<
                    H::Resp,
                    H::Error,
                >(resp) && (forall|j: int|
                    0 <= j < k ==> (#[trigger] old(self).inner.outcome_at(j as nat)) is Err)
                    && final(self).inner.calls() == old(self).inner.calls() + k + 1),
            old(self).inner.obeys_outcome() ==> req.spec_clonable() ==> (forall|k: int|
                0 <= k < N ==> (#[trigger] old(self).inner.outcome_at(k as nat)) is Err)
                ==> r matches Err(RetriesError::InnerError(_)),
    {
        let ghost calls0 = self.inner.calls();
        let ghost count0 = self.count@;
        let ghost obeys = self.inner.obeys_outcome();
        self.count = Ghost(count0 + 1);
        let mut n: usize = 0;
        loop
            invariant
                N >= 1,
                n < N,
                self.inner.wf(),
                self.inner.calls() == calls0 + n,
                self.count@ == count0 + 1,
                n > 0 ==> req.spec_clonable(),
                obeys ==> self.inner.obeys_outcome(),
                obeys ==> (forall|k: nat|
                    (#[trigger] self.inner.outcome_at(k)) == old(self).inner.outcome_at(
                        k + n as nat,
                    )),
                obeys ==> (forall|j: int|
                    0 <= j < n ==> (#[trigger] old(self).inner.outcome_at(j as nat)) is Err),
            decreases N - n,
        {
            match req.try_clone() {
                None => {
                    return Err(RetriesError::CouldNotCloneRequest);
                },
                Some(cloned) => {
                    let ghost stream_before = self.inner;
                    let x = self.inner.execute(cloned);
                    proof {
                        if obeys {
                            assert(x == stream_before.outcome_at(0));
                            assert(stream_before.outcome_at(0) == old(self).inner.outcome_at(
                                n as nat,
                            ));
                            assert forall|k: nat|
                                (#[trigger] self.inner.outcome_at(k)) == old(
                                    self,
                                ).inner.outcome_at(k + (n + 1) as nat) by {
                                assert(self.inner.outcome_at(k) == stream_before.outcome_at(
                                    k + 1,
                                ));
                                assert(stream_before.outcome_at(k + 1) == old(
                                    self,
                                ).inner.outcome_at((k + 1) + n as nat));
                            }
                        }
                    }
                    match x {
                        Ok(resp) => {
                            proof {
                                if obeys {
                                    assert(0 <= n < N && old(self).inner.outcome_at(n as nat)
                                        == Ok::<H::Resp, H::Error>(resp) && (forall|j: int|
                                        0 <= j < n ==> (#[trigger] old(self).inner.outcome_at(
                                            j as nat,
                                        )) is Err) && self.inner.calls() == old(
                                        self,
                                    ).inner.calls() + n + 1);
                                }
                            }
                            return Ok(resp);
                        },
                        Err(e) => {
                            if n == N - 1 {
                                return Err(RetriesError::InnerError(e));
                            }
                            n = n + 1;
                        },
                    }
                },
            }
        }
    }
}

/// Wraps any handler in a `Retries<_, N>` decorator.
pub struct RetriesWrapper<const N: usize>;

impl<H: Handler, const N: usize> HandlerWrapper<H> for RetriesWrapper<N> {
    type Output = Retries<H, N>;

    open spec fn can_wrap(&self, from: &H) -> bool {
        N >= 1 && from.wf()
    }

    /// The decorated handler holds the wrapped one unchanged, with a fresh
    /// execution count.
    open spec fn wraps(&self, r: &Retries<H, N>, from: &H) -> bool {
        r.inner == *from && r.calls() == 0
    }

    /// A pure transformation: the inner handler is moved in unchanged.
    fn wrap_into(&self, from: H) -> (r: Retries<H, N>)
        ensures
            r.inner == from,
            r.calls() == 0,
    {
        Retries { inner: from, count: Ghost(0) }
    }
}

/// A deterministic handler that replays a fixed script of outcomes, one
/// per execution, and counts its executions; past the end of its script it
/// keeps failing with error code 0. It performs no I/O, which makes it the
/// handler to compose and observe decorators with.
pub struct ScriptedHandler {
    pub script: Vec<Result<u64, u64>>,
    pub pos: usize,
    pub count: Ghost<nat>,
}

impl ScriptedHandler {
    pub fn new(script: Vec<Result<u64, u64>>) -> (r: ScriptedHandler)
        ensures
            r.script@ == script@,
            r.pos == 0,
            r.calls() == 0,
            r.wf(),
    {
        ScriptedHandler { script, pos: 0, count: Ghost(0) }
    }

    /// How many scripted outcomes have been consumed.
    pub fn invocations(&self) -> (r: usize)
        ensures
            r == self.pos,
    {
        self.pos
    }
}

impl Handler for ScriptedHandler {
    type Resp = u64;

    type Error = u64;

    open spec fn wf(&self) -> bool {
        true
    }

    open spec fn calls(&self) -> nat {
        self.count@
    }

    /// Deterministic: the outcomes are a function of the script and the
    /// position alone.
    open spec fn obeys_outcome(&self) -> bool {
        true
    }

    open spec fn outcome_at(&self, k: nat) -> Result<u64, u64> {
        if self.pos + k < self.script@.len() {
            self.script@[self.pos + k]
        } else {
            Err(0)
        }
    }

    /// Replays the next scripted outcome; the request is ignored.
    fn execute(&mut self, _req: Request) -> (r: Result<u64, u64>)
        ensures
            final(self).script@ == old(self).script@,
            old(self).pos < old(self).script@.len() ==> r == old(self).script@[old(self).pos as int]
                && final(self).pos == old(self).pos + 1,
            old(self).pos >= old(self).script@.len() ==> r == Err::<u64, u64>(0)
                && final(self).pos == old(self).pos,
    {
        self.count = Ghost(self.count@ + 1);
        if self.pos < self.script.len() {
            let outcome = self.script[self.pos];
            self.pos = self.pos + 1;
            outcome
        } else {
            Err(0)
        }
    }
}

} // verus!
