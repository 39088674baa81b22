//! Adapter, queue family and queue group selection.

use crate::error::{ErrorKind, VortekError, VortekResult};
use vstd::prelude::*;

verus! {

/// The kind of work that the queues of a family accept.
#[derive(Clone, Copy, Debug, PartialEq, Eq, Structural)]
pub enum QueueKind {
    General,
    Graphics,
    Compute,
    Transfer,
}

impl QueueKind {
    /// Whether the queues accept graphics work.
    pub open spec fn spec_supports_graphics(&self) -> bool {
        *self == QueueKind::General || *self == QueueKind::Graphics
    }

    /// Returns whether the queues accept graphics work.
    pub fn supports_graphics(&self) -> (r: bool)
        ensures
            r == self.spec_supports_graphics(),
    {
        match self {
            QueueKind::General | QueueKind::Graphics => true,
            QueueKind::Compute | QueueKind::Transfer => false,
        }
    }
}

/// What the renderer needs to know of a queue family.
#[derive(Clone, Copy, Debug, PartialEq, Eq, Structural)]
pub struct QueueFamilyInfo {
    /// Identifier of the family on its adapter.
    pub id: usize,
    pub kind: QueueKind,
    /// Whether the presentation surface accepts the family.
    pub surface_support: bool,
}

impl QueueFamilyInfo {
    /// The family supports graphics and is accepted by the surface.
    pub open spec fn spec_usable(&self) -> bool {
        self.kind.spec_supports_graphics() && self.surface_support
    }

    /// Returns whether the family supports graphics and is accepted by the surface.
    pub fn usable(&self) -> (r: bool)
        ensures
            r == self.spec_usable(),
    {
        self.kind.supports_graphics() && self.surface_support
    }
}

/// What the renderer needs to know of an adapter: its queue families.
#[derive(Clone, Debug)]
pub struct AdapterInfo {
    pub queue_families: Vec<QueueFamilyInfo>,
}

/// A queue group of an opened device: the family it belongs to and how many
/// queues it holds.
#[derive(Clone, Copy, Debug, PartialEq, Eq, Structural)]
pub struct QueueGroupInfo {
    pub family: usize,
    pub queue_count: usize,
}

/// Some family of the list is usable.
pub open spec fn has_usable_family(families: Seq<QueueFamilyInfo>) -> bool {
    exists|j: int| 0 <= j < families.len() && (#[trigger] families[j]).spec_usable()
}

/// `i` is the first usable family of the list.
pub open spec fn first_usable_family(families: Seq<QueueFamilyInfo>, i: int) -> bool {
    &&& 0 <= i < families.len()
    &&& families[i].spec_usable()
    &&& forall|j: int| 0 <= j < i ==> !(#[trigger] families[j]).spec_usable()
}

/// `i` is the first adapter of the list with a usable family.
pub open spec fn first_usable_adapter(adapters: Seq<AdapterInfo>, i: int) -> bool {
    &&& 0 <= i < adapters.len()
    &&& has_usable_family(adapters[i].queue_families@)
    &&& forall|j: int| 0 <= j < i ==> !has_usable_family((#[trigger] adapters[j]).queue_families@)
}

/// `i` is the first group of the list that belongs to the family.
pub open spec fn first_group_of(groups: Seq<QueueGroupInfo>, family: usize, i: int) -> bool {
    &&& 0 <= i < groups.len()
    &&& groups[i].family == family
    &&& forall|j: int| 0 <= j < i ==> (#[trigger] groups[j]).family != family
}

/// Returns the index of the first family that supports graphics and is accepted
/// by the surface.
pub fn select_queue_family(families: &Vec<QueueFamilyInfo>) -> (r: VortekResult<usize>)
    ensures
        r is Ok <==> has_usable_family(families@),
        r matches Ok(i) ==> first_usable_family(families@, i as int),
        r matches Err(e) ==> e.spec_kind() == ErrorKind::NoSupportedQueueFamily && e.spec_message()
            == "Could not find supported queue family with graphics."@,
{
    let mut i: usize = 0;
    while i < families.len()
        invariant
            0 <= i <= families@.len(),
            forall|j: int| 0 <= j < i ==> !(#[trigger] families@[j]).spec_usable(),
        decreases families@.len() - i,
    {
        if families[i].usable() {
            return Ok(i);
        }
        i = i + 1;
    }
    Err(
        VortekError::rendering(
            ErrorKind::NoSupportedQueueFamily,
            "Could not find supported queue family with graphics.",
        ),
    )
}

/// Returns the index of the first adapter that has a family which supports
/// graphics and is accepted by the surface. The first match wins.
pub fn select_adapter(adapters: &Vec<AdapterInfo>) -> (r: VortekResult<usize>)
    ensures
        r is Ok <==> exists|j: int|
            0 <= j < adapters@.len() && has_usable_family((#[trigger] adapters@[j]).queue_families@),
        r matches Ok(i) ==> first_usable_adapter(adapters@, i as int),
        r matches Err(e) ==> e.spec_kind() == ErrorKind::NoSupportedAdapter && e.spec_message()
            == "Could not find a supported graphical adapter."@,
{
    let mut i: usize = 0;
    while i < adapters.len()
        invariant
            0 <= i <= adapters@.len(),
            forall|j: int|
                0 <= j < i ==> !has_usable_family((#[trigger] adapters@[j]).queue_families@),
        decreases adapters@.len() - i,
    {
        if select_queue_family(&adapters[i].queue_families).is_ok() {
            return Ok(i);
        }
        i = i + 1;
    }
    Err(
        VortekError::rendering(
            ErrorKind::NoSupportedAdapter,
            "Could not find a supported graphical adapter.",
        ),
    )
}

/// Returns the index of the first queue group of the family; fails if there is
/// none or if it holds no queue.
pub fn select_queue_group(groups: &Vec<QueueGroupInfo>, family: usize) -> (r: VortekResult<usize>)
    ensures
        r is Ok <==> exists|i: int| first_group_of(groups@, family, i) && groups@[i].queue_count > 0,
        r matches Ok(i) ==> first_group_of(groups@, family, i as int) && groups@[i as int].queue_count
            > 0,
        r matches Err(e) ==> e.spec_kind() == ErrorKind::QueueGroupUnavailable,
        (forall|i: int| !first_group_of(groups@, family, i)) ==> (r matches Err(e)
            && e.spec_message() == "Could not take ownership of queue group."@),
        (exists|i: int| first_group_of(groups@, family, i) && groups@[i].queue_count == 0) ==> (
        r matches Err(e) && e.spec_message()
            == "Queue group did not have any command queues available."@),
{
    let mut i: usize = 0;
    while i < groups.len()
        invariant
            0 <= i <= groups@.len(),
            forall|j: int| 0 <= j < i ==> (#[trigger] groups@[j]).family != family,
        decreases groups@.len() - i,
    {
        if groups[i].family == family {
            assert(first_group_of(groups@, family, i as int));
            if groups[i].queue_count == 0 {
                return Err(
                    VortekError::rendering(
                        ErrorKind::QueueGroupUnavailable,
                        "Queue group did not have any command queues available.",
                    ),
                );
            }
            return Ok(i);
        }
        i = i + 1;
    }
    Err(
        VortekError::rendering(
            ErrorKind::QueueGroupUnavailable,
            "Could not take ownership of queue group.",
        ),
    )
}

/// Holds the selected adapter, of type `A`, until the device is opened from it.
pub struct AdapterState<A> {
    adapter: Option<A>,
}

impl<A> AdapterState<A> {
    /// The adapter, while it has not been taken.
    pub closed spec fn spec_adapter(&self) -> Option<A> {
        self.adapter
    }

    /// Keeps the first adapter with a family that supports graphics and is
    /// accepted by the surface; `infos[i]` describes `adapters[i]`.
    pub fn new(adapters: Vec<A>, infos: &Vec<AdapterInfo>) -> (r: VortekResult<Self>)
        requires
            adapters@.len() == infos@.len(),
        ensures
            r is Ok <==> exists|j: int|
                0 <= j < infos@.len() && has_usable_family((#[trigger] infos@[j]).queue_families@),
            r matches Ok(s) ==> exists|i: int|
                first_usable_adapter(infos@, i) && s.spec_adapter() == Some(adapters@[i]),
            r matches Err(e) ==> e.spec_kind() == ErrorKind::NoSupportedAdapter,
    {
        let i = select_adapter(infos)?;
        let mut adapters = adapters;
        let ghost before = adapters@;
        let adapter = adapters.swap_remove(i);
        assert(first_usable_adapter(infos@, i as int) && adapter == before[i as int]);
        Ok(AdapterState { adapter: Some(adapter) })
    }

    /// Moves the adapter out; it can be taken once.
    pub fn take_adapter(&mut self) -> (r: A)
        requires
            old(self).spec_adapter() is Some,
        ensures
            old(self).spec_adapter() == Some(r),
            final(self).spec_adapter() is None,
    {
        self.adapter.take().unwrap()
    }
}

} // verus!
