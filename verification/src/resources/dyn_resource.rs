use vstd::prelude::*;
use crate::resources::resource::Resource;
use crate::resources::resource::ResourceOutput;

verus! {

/// A resource reduced to plain values: its identifier and its displayable
/// value. Equality is defined solely by the identifier, never the value,
/// so two resources with the same identifier denote one registry entry.
#[derive(Debug, Clone)]
pub struct DynResource {
    pub ident: String,
    pub value: String,
}

impl DynResource {
    /// Erases a concrete resource into its identifier and value.
    pub fn from_res<R: Resource>(resource: R) -> (r: DynResource)
        ensures
            r.ident@ == resource.ident_spec(),
            r.value@ == resource.data_spec(),
    {
        let ident = resource.ident().to_owned();
        let value = resource.data().0;
        DynResource { ident, value }
    }
}

impl Resource for DynResource {
    open spec fn ident_spec(&self) -> Seq<char> {
        self.ident@
    }

    open spec fn data_spec(&self) -> Seq<char> {
        self.value@
    }

    fn ident(&self) -> (r: &str) {
        self.ident.as_str()
    }

    fn data(&self) -> (r: ResourceOutput) {
        ResourceOutput(self.value.clone())
    }
}

impl PartialEq for DynResource {
    fn eq(&self, other: &DynResource) -> (r: bool) {
        self.ident == other.ident
    }
}

impl Eq for DynResource {

}

impl vstd::std_specs::cmp::PartialEqSpecImpl for DynResource {
    open spec fn obeys_eq_spec() -> bool {
        true
    }

    open spec fn eq_spec(&self, other: &DynResource) -> bool {
        self.ident@ == other.ident@
    }
}

} // verus!
