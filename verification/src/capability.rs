use vstd::prelude::*;
use crate::net::request::ReqModel;
use crate::net::request::RequestBuilder;
use crate::resources::resource_handler::ResourceManager;
use crate::utils::error::Error;
use crate::utils::error::ErrorView;

verus! {

/// An asynchronous request transform at heart: a capability either
/// augments a request under construction or fails with a typed error.
/// Capabilities are combined into ordered chains, applied strictly in
/// sequence; resolution state is read from the registry handed in.
pub trait Capability {
    /// Whether `apply`'s outcome follows `spec_apply`. A verified
    /// implementation that models its effect sets this true; the default
    /// stands for implementations outside the verified world.
    open spec fn obeys_apply_spec(&self) -> bool {
        false
    }

    /// The capability's effect as a mathematical function: how it
    /// transforms the accumulated request model under the given registry
    /// contents, or the error it fails with.
    open spec fn spec_apply(&self, m: ReqModel, contents: Map<Seq<char>, Seq<char>>) -> Result<
        ReqModel,
        ErrorView,
    > {
        arbitrary()
    }

    fn apply(&self, request: RequestBuilder, resources: &ResourceManager) -> (r: Result<
        RequestBuilder,
        Error,
    >)
        ensures
            self.obeys_apply_spec() ==> match self.spec_apply(
                request.model(),
                resources.contents(),
            ) {
                Ok(m2) => r matches Ok(b) && b.model() == m2 && b.spec_clonable()
                    == request.spec_clonable(),
                Err(ev) => r matches Err(e) && e@ == ev,
            },
    ;
}

/// Whether every capability of a chain models its effect.
pub open spec fn chain_obeys<C: Capability>(caps: Seq<C>) -> bool {
    forall|i: int| 0 <= i < caps.len() ==> (#[trigger] caps[i].obeys_apply_spec())
}

/// What applying a chain in order yields: the model after every
/// capability's effect in turn, or the first failing capability's error.
/// Capabilities after the first failure contribute nothing.
pub open spec fn spec_apply_chain<C: Capability>(
    caps: Seq<C>,
    m: ReqModel,
    contents: Map<Seq<char>, Seq<char>>,
) -> Result<ReqModel, ErrorView>
    decreases caps.len(),
{
    if caps.len() == 0 {
        Ok(m)
    } else {
        match caps[0].spec_apply(m, contents) {
            Ok(m2) => spec_apply_chain(caps.skip(1), m2, contents),
            Err(ev) => Err(ev),
        }
    }
}

/// Applies a chain of capabilities in order. The first failure aborts the
/// chain with that capability's error: later capabilities never run, and
/// although mutations already applied to the builder are retained, the
/// failure is reported so the partially built request is never sent. For
/// a chain whose capabilities model their effect, the result is exactly
/// the chain's folded effect.
pub fn apply_capability_chain<C: Capability>(
    caps: &Vec<C>,
    request: RequestBuilder,
    resources: &ResourceManager,
) -> (r: Result<RequestBuilder, Error>)
    ensures
        caps@.len() == 0 ==> (r matches Ok(b) && b == request),
        chain_obeys(caps@) ==> match spec_apply_chain(
            caps@,
            request.model(),
            resources.contents(),
        ) {
            Ok(m2) => r matches Ok(b) && b.model() == m2 && b.spec_clonable()
                == request.spec_clonable(),
            Err(ev) => r matches Err(e) && e@ == ev,
        },
{
    let ghost contents = resources.contents();
    let ghost m0 = request.model();
    let ghost clon0 = request.spec_clonable();
    let mut current = request;
    let mut i: usize = 0;
    proof {
        assert(caps@.skip(0) =~= caps@);
    }
    while i < caps.len()
        invariant
            i <= caps.len(),
            contents == resources.contents(),
            m0 == request.model(),
            clon0 == request.spec_clonable(),
            caps@.len() == 0 ==> i == 0 && current == request,
            chain_obeys(caps@) ==> current.spec_clonable() == clon0 && spec_apply_chain(
                caps@,
                m0,
                contents,
            ) == spec_apply_chain(caps@.skip(i as int), current.model(), contents),
        decreases caps.len() - i,
    {
        let ghost tail = caps@.skip(i as int);
        proof {
            assert(tail[0] == caps@[i as int]);
            assert(tail.skip(1) =~= caps@.skip(i as int + 1));
        }
        match caps[i].apply(current, resources) {
            Ok(next) => {
                proof {
                    if chain_obeys(caps@) {
                        assert(caps@[i as int].obeys_apply_spec());
                        assert(spec_apply_chain(tail, current.model(), contents)
                            == spec_apply_chain(caps@.skip(i as int + 1), next.model(), contents));
                    }
                }
                current = next;
            },
            Err(e) => {
                proof {
                    if chain_obeys(caps@) {
                        assert(caps@[i as int].obeys_apply_spec());
                        assert(spec_apply_chain(tail, current.model(), contents)
                            == Err::<ReqModel, ErrorView>(e@));
                    }
                }
                return Err(e);
            },
        }
        i = i + 1;
    }
    proof {
        assert(caps@.skip(caps@.len() as int) =~= Seq::<C>::empty());
    }
    Ok(current)
}

} // verus!
