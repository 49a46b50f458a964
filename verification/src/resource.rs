//! Resource kind identifiers and the bearer capability credential.

use vstd::prelude::*;

verus! {

/// Identifier of a resource kind together with the facts the core reads
/// of it: whether the kind is amount-addressed (fungible) and whether it
/// is a capability badge issued by a sale instance.
///
/// Externally supplied kinds are built with [`ResourceKind::new`] and are
/// never badges; badge kinds are issued only at sale construction, so no
/// caller-built kind can collide with a badge kind.
#[derive(Clone, Copy, PartialEq, Eq, Structural, Debug)]
pub struct ResourceKind {
    id: u64,
    fungible: bool,
    badge: bool,
    badge_component: u64,
}

impl ResourceKind {
    pub closed spec fn id(self) -> u64 {
        self.id
    }

    pub closed spec fn is_fungible(self) -> bool {
        self.fungible
    }

    pub closed spec fn is_badge(self) -> bool {
        self.badge
    }

    /// For a badge kind: the component instance that issued it.
    pub closed spec fn badge_component(self) -> u64 {
        self.badge_component
    }

    /// An externally allocated resource kind, identified by `id`.
    pub fn new(id: u64, fungible: bool) -> (r: ResourceKind)
        ensures
            r.id() == id,
            r.is_fungible() == fungible,
            !r.is_badge(),
            r.badge_component() == 0,
    {
        ResourceKind { id, fungible, badge: false, badge_component: 0 }
    }

    /// A capability badge kind issued by component `component`; `index`
    /// distinguishes the badge kinds of one component from each other.
    pub(crate) fn new_badge(component: u64, index: u64) -> (r: ResourceKind)
        ensures
            r.id() == index,
            !r.is_fungible(),
            r.is_badge(),
            r.badge_component() == component,
    {
        ResourceKind { id: index, fungible: false, badge: true, badge_component: component }
    }

    pub fn fungible(&self) -> (r: bool)
        ensures
            r == self.is_fungible(),
    {
        self.fungible
    }
}

/// An unforgeable bearer credential. A capability certifies exactly one
/// badge kind and carries the local id of the minted badge unit; it can
/// be built only by a sale at construction time, and it is neither
/// copyable nor clonable, so exactly the minted instances exist.
#[derive(Debug)]
pub struct Capability {
    kind: ResourceKind,
    id: u64,
}

impl Capability {
    /// The badge kind this credential certifies.
    pub closed spec fn kind(self) -> ResourceKind {
        self.kind
    }

    /// The local id of the minted badge unit.
    pub closed spec fn id(self) -> u64 {
        self.id
    }

    pub(crate) fn issue(kind: ResourceKind, id: u64) -> (r: Capability)
        ensures
            r.kind() == kind,
            r.id() == id,
    {
        Capability { kind, id }
    }

    pub fn resource_kind(&self) -> (r: ResourceKind)
        ensures
            r == self.kind(),
    {
        self.kind
    }

    pub fn instance_id(&self) -> (r: u64)
        ensures
            r == self.id(),
    {
        self.id
    }
}

} // verus!
