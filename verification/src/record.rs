use vstd::prelude::*;
use crate::capability::Capability;

verus! {

/// A logical grouping of endpoints: a record names the base URL its
/// endpoints share and supplies the capabilities applied to every request
/// of the record, before any endpoint-specific ones.
pub trait Record {
    /// The capability type shared by the record's endpoints.
    type Cap: Capability;

    /// The base URL, as a mathematical value. A verified implementation
    /// overrides this to match `shared_url`; the default stands for
    /// implementations outside the verified world.
    open spec fn spec_shared_url() -> Seq<char> {
        Seq::empty()
    }

    /// The base URL shared by the record's endpoints.
    fn shared_url() -> (r: String)
        ensures
            r@ == Self::spec_shared_url(),
    ;

    /// Whether `shared_caps` follows `spec_shared_caps`. A verified
    /// implementation that models its capability set sets this true; the
    /// default stands for implementations outside the verified world.
    open spec fn obeys_caps_spec() -> bool {
        false
    }

    /// The shared capabilities, as a mathematical value.
    open spec fn spec_shared_caps() -> Seq<Self::Cap> {
        arbitrary()
    }

    /// The capabilities shared by the record's endpoints, in application
    /// order.
    fn shared_caps() -> (r: Vec<Self::Cap>)
        ensures
            Self::obeys_caps_spec() ==> r@ == Self::spec_shared_caps(),
    ;
}

} // verus!
