use vstd::prelude::*;
use crate::resources::dyn_resource::DynResource;
use crate::resources::resource::Resource;

verus! {

#[verifier::external_type_specification]
#[verifier::external_body]
#[verifier::reject_recursive_types(K)]
#[verifier::reject_recursive_types(V)]
#[verifier::reject_recursive_types(S)]
pub struct ExDashMap<K, V, S>(dashmap::DashMap<K, V, S>);

/// The identifier-to-value association a registry table holds.
pub uninterp spec fn dash_contents(m: dashmap::DashMap<String, String>) -> Map<Seq<char>, Seq<char>>;

/// The association an empty registry holds: none.
pub open spec fn empty_contents() -> Map<Seq<char>, Seq<char>> {
    Map::empty()
}

/// The registry of named resources: a concurrent map from identifier to
/// displayable value. A second registration under an already-registered
/// identifier keeps the pre-existing entry. Lookups are safe for
/// concurrent callers; registration takes exclusive access (`&mut self`),
/// which is what lets its contents transition be stated and proved --
/// callers that share a registry mutate it before sharing or behind a
/// lock of their own.
#[derive(Debug)]
pub struct ResourceManager {
    map: dashmap::DashMap<String, String>,
}

impl ResourceManager {
    /// The identifier-to-value association currently registered.
    pub closed spec fn contents(&self) -> Map<Seq<char>, Seq<char>> {
        dash_contents(self.map)
    }

    /// Relies on dashmap::DashMap::new: creates an empty map.
    #[verifier::external_body]
    pub fn new() -> (r: ResourceManager)
        ensures
            r.contents() == empty_contents(),
    {
        ResourceManager { map: dashmap::DashMap::new() }
    }

    /// Relies on dashmap::DashMap::insert: stores the value under the key
    /// and returns the previously stored value if the key was present.
    #[verifier::external_body]
    fn raw_insert(&mut self, k: String, v: String) -> (r: Option<String>)
        ensures
            dash_contents(final(self).map) == dash_contents(old(self).map).insert(k@, v@),
            (r is Some) == old(self).contents().contains_key(k@),
            r matches Some(o) ==> old(self).contents()[k@] == o@,
    {
        self.map.insert(k, v)
    }

    /// Relies on dashmap::DashMap::get: returns the value stored under the
    /// key, if any.
    #[verifier::external_body]
    fn raw_get(&self, k: &str) -> (r: Option<String>)
        ensures
            (r is Some) == self.contents().contains_key(k@),
            r matches Some(v) ==> self.contents()[k@] == v@,
    {
        self.map.get(k).map(|entry| entry.value().clone())
    }

    /// Relies on dashmap::DashMap::contains_key.
    #[verifier::external_body]
    fn raw_contains(&self, k: &str) -> (r: bool)
        ensures
            r == self.contents().contains_key(k@),
    {
        self.map.contains_key(k)
    }

    /// Relies on dashmap::DashMap::len: the number of entries.
    #[verifier::external_body]
    fn raw_len(&self) -> (r: usize)
        ensures
            r as nat == self.contents().dom().len() || !self.contents().dom().finite(),
    {
        self.map.len()
    }

    /// Registers an erased resource under its identifier. Returns true iff
    /// the identifier was newly inserted; on a collision the pre-existing
    /// entry is kept, not replaced.
    pub fn add_dyn_resource(&mut self, resource: DynResource) -> (r: bool)
        ensures
            r == !old(self).contents().contains_key(resource.ident@),
            final(self).contents() == if old(self).contents().contains_key(resource.ident@) {
                old(self).contents()
            } else {
                old(self).contents().insert(resource.ident@, resource.value@)
            },
    {
        if self.raw_contains(resource.ident.as_str()) {
            false
        } else {
            let DynResource { ident, value } = resource;
            self.raw_insert(ident, value);
            true
        }
    }

    /// Registers a concrete resource, erasing it first. Same collision
    /// behaviour as `add_dyn_resource`.
    pub fn add_resource<T: Resource>(&mut self, resource: T) -> (r: bool)
        ensures
            r == !old(self).contents().contains_key(resource.ident_spec()),
            final(self).contents() == if old(self).contents().contains_key(resource.ident_spec()) {
                old(self).contents()
            } else {
                old(self).contents().insert(resource.ident_spec(), resource.data_spec())
            },
    {
        self.add_dyn_resource(DynResource::from_res(resource))
    }

    /// Looks an identifier up, returning a handle that carries the stored
    /// value. Safe for concurrent callers.
    pub fn get(&self, name: &str) -> (r: Option<DynResource>)
        ensures
            (r is Some) == self.contents().contains_key(name@),
            r matches Some(d) ==> d.ident@ == name@ && d.value@ == self.contents()[name@],
    {
        match self.raw_get(name) {
            Some(v) => Some(DynResource { ident: name.to_owned(), value: v }),
            None => None,
        }
    }

    /// Whether an identifier is registered.
    pub fn contains(&self, name: &str) -> (r: bool)
        ensures
            r == self.contents().contains_key(name@),
    {
        self.raw_contains(name)
    }

    /// The number of registered resources.
    pub fn len(&self) -> (r: usize)
        ensures
            r as nat == self.contents().dom().len() || !self.contents().dom().finite(),
    {
        self.raw_len()
    }
}

/// LAW: resource identity. Registering a resource under an identifier
/// that is already registered keeps the registry as it is: the earlier
/// value stays queryable under the identifier and the number of entries
/// does not grow, so a second `add_dyn_resource` with the same identifier
/// returns false and leaves exactly one entry. Stated over the contents
/// transition that `add_dyn_resource` ensures.
pub proof fn lemma_duplicate_ident_not_added(
    m: Map<Seq<char>, Seq<char>>,
    ident: Seq<char>,
    v1: Seq<char>,
)
    requires
        !m.contains_key(ident),
        m.dom().finite(),
    ensures
        m.insert(ident, v1).contains_key(ident),
        m.insert(ident, v1)[ident] == v1,
        m.insert(ident, v1).dom().len() == m.dom().len() + 1,
{
    assert(m.insert(ident, v1).dom() =~= m.dom().insert(ident));
    vstd::set::axiom_set_insert_len(m.dom(), ident);
}

/// LAW: no lost writes, sequentially. Registering two resources under
/// distinct identifiers leaves both queryable, each under its own
/// identifier with its own value. Stated over the contents transitions
/// that `add_dyn_resource` ensures.
pub proof fn lemma_distinct_idents_all_visible(
    m: Map<Seq<char>, Seq<char>>,
    a: Seq<char>,
    va: Seq<char>,
    b: Seq<char>,
    vb: Seq<char>,
)
    requires
        a != b,
    ensures
        m.insert(a, va).insert(b, vb).contains_key(a),
        m.insert(a, va).insert(b, vb).contains_key(b),
        m.insert(a, va).insert(b, vb)[a] == va,
        m.insert(a, va).insert(b, vb)[b] == vb,
{
}

impl Default for ResourceManager {
    fn default() -> (r: ResourceManager)
        ensures
            r.contents() == empty_contents(),
    {
        ResourceManager::new()
    }
}

} // verus!
