use vstd::prelude::*;

verus! {

/// The mathematical value of a [`UUri`]: its four address fields.
pub struct UriView {
    pub authority: Seq<char>,
    pub entity_id: u32,
    pub entity_version: u8,
    pub resource_id: u16,
}

/// The address of a resource of a uEntity.
///
/// Two URIs with the same four fields denote the same address.
pub struct UUri {
    pub authority: String,
    pub entity_id: u32,
    pub entity_version: u8,
    pub resource_id: u16,
}

impl View for UUri {
    type V = UriView;

    open spec fn view(&self) -> UriView {
        UriView {
            authority: self.authority@,
            entity_id: self.entity_id,
            entity_version: self.entity_version,
            resource_id: self.resource_id,
        }
    }
}

impl UUri {
    /// Builds the address from its four fields.
    pub fn new(authority: String, entity_id: u32, entity_version: u8, resource_id: u16) -> (r:
        UUri)
        ensures
            r@ == (UriView { authority: authority@, entity_id, entity_version, resource_id }),
    {
        UUri { authority, entity_id, entity_version, resource_id }
    }

    /// Whether both URIs denote the same address.
    pub fn same_address(&self, other: &UUri) -> (r: bool)
        ensures
            r == (self@ == other@),
    {
        self.entity_id == other.entity_id && self.entity_version == other.entity_version
            && self.resource_id == other.resource_id && self.authority == other.authority
    }

    /// An independent copy of this address.
    pub fn duplicate(&self) -> (r: UUri)
        ensures
            r@ == self@,
    {
        UUri {
            authority: self.authority.clone(),
            entity_id: self.entity_id,
            entity_version: self.entity_version,
            resource_id: self.resource_id,
        }
    }
}

impl PartialEq for UUri {
    fn eq(&self, other: &UUri) -> (r: bool) {
        self.same_address(other)
    }
}

impl vstd::std_specs::cmp::PartialEqSpecImpl for UUri {
    open spec fn obeys_eq_spec() -> bool {
        true
    }

    open spec fn eq_spec(&self, other: &UUri) -> bool {
        self@ == other@
    }
}

/// Copies an optional address.
pub fn duplicate_option(u: &Option<UUri>) -> (r: Option<UUri>)
    ensures
        opt_view(r) == opt_view(*u),
{
    match u {
        Some(x) => Some(x.duplicate()),
        None => None,
    }
}

/// Whether two optional addresses are both absent or denote the same address.
pub fn same_option(a: &Option<UUri>, b: &Option<UUri>) -> (r: bool)
    ensures
        r == (opt_view(*a) == opt_view(*b)),
{
    match (a, b) {
        (Some(x), Some(y)) => x.same_address(y),
        (None, None) => true,
        _ => false,
    }
}

/// The view of an optional address.
pub open spec fn opt_view(u: Option<UUri>) -> Option<UriView> {
    match u {
        Some(x) => Some(x@),
        None => None,
    }
}

/// The identity of a uEntity (authority, entity id, major version), from which
/// the addresses of its resources are derived.
pub struct StaticUriProvider {
    pub authority: String,
    pub entity_id: u32,
    pub version: u8,
}

impl StaticUriProvider {
    /// The address of resource `resource_id` of this entity.
    pub open spec fn resource_uri_spec(&self, resource_id: u16) -> UriView {
        UriView {
            authority: self.authority@,
            entity_id: self.entity_id,
            entity_version: self.version,
            resource_id,
        }
    }

    /// An entity identity made of its authority, entity id and version.
    pub fn new(authority: String, entity_id: u32, version: u8) -> (r: StaticUriProvider)
        ensures
            r.authority@ == authority@,
            r.entity_id == entity_id,
            r.version == version,
    {
        StaticUriProvider { authority, entity_id, version }
    }

    /// The address of resource `resource_id` of this entity.
    pub fn get_resource_uri(&self, resource_id: u16) -> (r: UUri)
        ensures
            r@ == self.resource_uri_spec(resource_id),
    {
        UUri::new(self.authority.clone(), self.entity_id, self.version, resource_id)
    }

    /// The address of the entity itself (resource 0).
    pub fn get_source_uri(&self) -> (r: UUri)
        ensures
            r@ == self.resource_uri_spec(0),
    {
        self.get_resource_uri(0)
    }
}

} // verus!
