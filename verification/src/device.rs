//! Physical-device selection: which adapter to render on and which of its
//! queue families to use.
//!
//! The unverified shell enumerates the adapters, asks the driver which queue
//! families support graphics work and presentation to the surface, and hands
//! the answers here as plain values; this module picks the adapter and the
//! family.

use vstd::prelude::*;

verus! {

/// Raw adapter category codes, as the driver reports them.
pub const DEVICE_TYPE_OTHER: u32 = 0;
pub const DEVICE_TYPE_INTEGRATED_GPU: u32 = 1;
pub const DEVICE_TYPE_DISCRETE_GPU: u32 = 2;
pub const DEVICE_TYPE_VIRTUAL_GPU: u32 = 3;
pub const DEVICE_TYPE_CPU: u32 = 4;

/// What one queue family of an adapter can do, as far as selection cares.
#[derive(Clone, Copy, PartialEq, Eq, Structural, Debug)]
pub struct QueueFamily {
    pub supports_graphics: bool,
    pub supports_present: bool,
}

/// One adapter: its category code and its queue families, in the driver's
/// order.
#[derive(Debug)]
pub struct Adapter {
    pub device_type: u32,
    pub queue_families: Vec<QueueFamily>,
}

/// A queue family serves the renderer only if it can both run graphics work
/// and present to the surface.
pub open spec fn family_qualifies(q: QueueFamily) -> bool {
    q.supports_graphics && q.supports_present
}

/// An adapter qualifies if some queue family of it serves the renderer.
pub open spec fn adapter_qualifies(a: Adapter) -> bool {
    exists|i: int| 0 <= i < a.queue_families@.len() && family_qualifies(#[trigger] a.queue_families@[i])
}

/// Preference order over adapter categories: discrete before integrated,
/// then CPU, virtual, other; unknown codes come last.
pub open spec fn device_type_rank(t: u32) -> int {
    if t == DEVICE_TYPE_DISCRETE_GPU {
        0
    } else if t == DEVICE_TYPE_INTEGRATED_GPU {
        1
    } else if t == DEVICE_TYPE_CPU {
        2
    } else if t == DEVICE_TYPE_VIRTUAL_GPU {
        3
    } else if t == DEVICE_TYPE_OTHER {
        4
    } else {
        5
    }
}

fn device_type_rank_of(t: u32) -> (r: u32)
    ensures
        r == device_type_rank(t),
{
    if t == DEVICE_TYPE_DISCRETE_GPU {
        0
    } else if t == DEVICE_TYPE_INTEGRATED_GPU {
        1
    } else if t == DEVICE_TYPE_CPU {
        2
    } else if t == DEVICE_TYPE_VIRTUAL_GPU {
        3
    } else if t == DEVICE_TYPE_OTHER {
        4
    } else {
        5
    }
}

/// The first queue family that serves the renderer, or `None` when the
/// adapter has no such family.
pub fn find_queue_family(families: &Vec<QueueFamily>) -> (r: Option<usize>)
    ensures
        match r {
            None => forall|i: int|
                0 <= i < families@.len() ==> !family_qualifies(#[trigger] families@[i]),
            Some(i) => {
                &&& i < families@.len()
                &&& family_qualifies(families@[i as int])
                &&& forall|j: int| 0 <= j < i ==> !family_qualifies(#[trigger] families@[j])
            },
        },
{
    let mut i: usize = 0;
    while i < families.len()
        invariant
            i <= families@.len(),
            forall|j: int| 0 <= j < i ==> !family_qualifies(#[trigger] families@[j]),
        decreases families@.len() - i,
    {
        if families[i].supports_graphics && families[i].supports_present {
            return Some(i);
        }
        i = i + 1;
    }
    None
}

/// `d` is the adapter [`pick_physical_device`] owes: it qualifies, no
/// qualifying adapter has a better category rank, and it is the earliest
/// of its rank.
pub open spec fn is_chosen_adapter(s: Seq<Adapter>, d: int) -> bool {
    &&& 0 <= d < s.len()
    &&& adapter_qualifies(s[d])
    &&& forall|i: int|
        0 <= i < s.len() && adapter_qualifies(#[trigger] s[i]) ==> device_type_rank(
            s[d].device_type,
        ) <= device_type_rank(s[i].device_type)
    &&& forall|i: int|
        0 <= i < d && adapter_qualifies(#[trigger] s[i]) ==> device_type_rank(s[i].device_type)
            > device_type_rank(s[d].device_type)
}

/// The adapter to render on and the queue family to use on it, as indices
/// into the given list and into that adapter's family list.  `None` exactly
/// when no adapter has a family that can both draw and present — the caller
/// treats that as fatal, since nothing can render.
pub fn pick_physical_device(adapters: &Vec<Adapter>) -> (r: Option<(usize, usize)>)
    ensures
        r is None <==> forall|i: int|
            0 <= i < adapters@.len() ==> !adapter_qualifies(#[trigger] adapters@[i]),
        r matches Some((d, q)) ==> {
            &&& is_chosen_adapter(adapters@, d as int)
            &&& q < adapters@[d as int].queue_families@.len()
            &&& family_qualifies(adapters@[d as int].queue_families@[q as int])
            &&& forall|j: int|
                0 <= j < q ==> !family_qualifies(#[trigger] adapters@[d as int].queue_families@[j])
        },
{
    let mut best: Option<(usize, usize)> = None;
    let mut best_rank: u32 = 0;
    let mut i: usize = 0;
    while i < adapters.len()
        invariant
            i <= adapters@.len(),
            match best {
                None => forall|j: int|
                    0 <= j < i ==> !adapter_qualifies(#[trigger] adapters@[j]),
                Some((d, q)) => {
                    &&& d < i
                    &&& adapter_qualifies(adapters@[d as int])
                    &&& best_rank == device_type_rank(adapters@[d as int].device_type)
                    &&& q < adapters@[d as int].queue_families@.len()
                    &&& family_qualifies(adapters@[d as int].queue_families@[q as int])
                    &&& forall|j: int|
                        0 <= j < q ==> !family_qualifies(
                            #[trigger] adapters@[d as int].queue_families@[j],
                        )
                    &&& forall|j: int|
                        0 <= j < i && adapter_qualifies(#[trigger] adapters@[j]) ==> best_rank
                            <= device_type_rank(adapters@[j].device_type)
                    &&& forall|j: int|
                        0 <= j < d && adapter_qualifies(#[trigger] adapters@[j])
                            ==> device_type_rank(adapters@[j].device_type) > best_rank
                },
            },
        decreases adapters@.len() - i,
    {
        match find_queue_family(&adapters[i].queue_families) {
            None => {
                proof {
                    assert(!adapter_qualifies(adapters@[i as int]));
                }
            },
            Some(q) => {
                proof {
                    assert(adapter_qualifies(adapters@[i as int]));
                }
                let rank = device_type_rank_of(adapters[i].device_type);
                match best {
                    None => {
                        best = Some((i, q));
                        best_rank = rank;
                    },
                    Some(_) => {
                        if rank < best_rank {
                            best = Some((i, q));
                            best_rank = rank;
                        }
                    },
                }
            },
        }
        i = i + 1;
    }
    best
}

} // verus!
