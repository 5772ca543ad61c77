use vstd::prelude::*;

verus! {

/// The displayable text produced by resolving a resource.
pub struct ResourceOutput(pub String);

impl ResourceOutput {
    pub fn new(value: String) -> (r: ResourceOutput)
        ensures
            r.0@ == value@,
    {
        ResourceOutput(value)
    }
}

/// A named value usable inside format strings. A resource is identified by
/// a stable identifier; two resources with the same identifier denote the
/// same registry entry. Producing the displayable value is the resource's
/// own operation.
pub trait Resource {
    /// The identifier, as a mathematical value. A verified implementation
    /// overrides this to match `ident`; the default stands for
    /// implementations outside the verified world.
    open spec fn ident_spec(&self) -> Seq<char> {
        Seq::empty()
    }

    /// The displayable value, as a mathematical value. A verified
    /// implementation overrides this to match `data`; the default stands
    /// for implementations outside the verified world.
    open spec fn data_spec(&self) -> Seq<char> {
        Seq::empty()
    }

    /// The stable identifier under which the resource is registered.
    fn ident(&self) -> (r: &str)
        ensures
            r@ == self.ident_spec(),
    ;

    /// Produces the resource's displayable value.
    fn data(&self) -> (r: ResourceOutput)
        ensures
            r.0@ == self.data_spec(),
    ;
}

} // verus!
