//! Choosing the physical adapter: the first one, in the driver's order,
//! with a graphics queue family, a family that can present to the surface,
//! and the swapchain extension.
use vstd::prelude::*;
use crate::error::BootstrapError;
use crate::names::{contains_all, names};
use crate::vulkan::{has_graphics_flag, swapchain_extension, swapchain_name};

verus! {

/// What the driver reports of one queue family of an adapter.
#[derive(Clone, Copy, Debug, PartialEq, Eq, Structural)]
pub struct QueueFamily {
    /// The family's `VkQueueFlags` bits.
    pub flags: u32,
    /// Whether the family can present to the surface the context draws on.
    pub present: bool,
}

/// What the selector reads of one enumerated adapter.
#[derive(Clone, Debug)]
pub struct Adapter {
    /// The adapter's queue families, in the driver's order.
    pub queue_families: Vec<QueueFamily>,
    /// The names of the device extensions the adapter supports.
    pub extensions: Vec<String>,
}

/// The family used for graphics submission and the one used for
/// presentation; they may be the same family.
#[derive(Clone, Copy, Debug, PartialEq, Eq, Structural)]
pub struct QueueFamilyIndices {
    pub graphics: usize,
    pub present: usize,
}

/// The chosen adapter, by its position in the enumeration, with its
/// resolved queue families.
#[derive(Clone, Copy, Debug, PartialEq, Eq, Structural)]
pub struct Selection {
    pub index: usize,
    pub indices: QueueFamilyIndices,
}

pub open spec fn is_graphics(f: QueueFamily) -> bool {
    f.flags & 1u32 != 0u32
}

pub open spec fn is_present(f: QueueFamily) -> bool {
    f.present
}

/// Some family of `fams` supports graphics submission.
pub open spec fn has_graphics(fams: Seq<QueueFamily>) -> bool {
    exists|i: int| 0 <= i < fams.len() && #[trigger] is_graphics(fams[i])
}

/// Some family of `fams` can present to the surface.
pub open spec fn has_present(fams: Seq<QueueFamily>) -> bool {
    exists|i: int| 0 <= i < fams.len() && #[trigger] is_present(fams[i])
}

/// `i` is the first graphics family of `fams`.
pub open spec fn is_first_graphics(fams: Seq<QueueFamily>, i: int) -> bool {
    &&& 0 <= i < fams.len()
    &&& is_graphics(fams[i])
    &&& forall|j: int| 0 <= j < i ==> !#[trigger] is_graphics(fams[j])
}

/// `i` is the first family of `fams` that can present.
pub open spec fn is_first_present(fams: Seq<QueueFamily>, i: int) -> bool {
    &&& 0 <= i < fams.len()
    &&& is_present(fams[i])
    &&& forall|j: int| 0 <= j < i ==> !#[trigger] is_present(fams[j])
}

/// `q` holds the first graphics family and the first presenting family.
pub open spec fn resolves(fams: Seq<QueueFamily>, q: QueueFamilyIndices) -> bool {
    is_first_graphics(fams, q.graphics as int) && is_first_present(fams, q.present as int)
}

/// The adapter meets all three requirements.
pub open spec fn suitable(a: Adapter) -> bool {
    &&& has_graphics(a.queue_families@)
    &&& has_present(a.queue_families@)
    &&& names(a.extensions@).contains(swapchain_name())
}

/// `r` is what the selector owes for `adapters`: the first suitable adapter
/// with its resolved families, or `NoSuitableDevice` when there is none.
pub open spec fn is_selection(adapters: Seq<Adapter>, r: Result<Selection, BootstrapError>) -> bool {
    match r {
        Ok(s) => {
            &&& 0 <= s.index < adapters.len()
            &&& suitable(adapters[s.index as int])
            &&& forall|j: int| 0 <= j < s.index ==> !#[trigger] suitable(adapters[j])
            &&& resolves(adapters[s.index as int].queue_families@, s.indices)
        },
        Err(e) => {
            &&& e == BootstrapError::NoSuitableDevice
            &&& forall|j: int| 0 <= j < adapters.len() ==> !#[trigger] suitable(adapters[j])
        },
    }
}

/// The first graphics family and the first presenting family of `fams`, if
/// both exist.
pub fn find_queue_families(fams: &Vec<QueueFamily>) -> (r: Option<QueueFamilyIndices>)
    ensures
        r is Some <==> (has_graphics(fams@) && has_present(fams@)),
        r matches Some(q) ==> resolves(fams@, q),
{
    let mut graphics: Option<usize> = None;
    let mut present: Option<usize> = None;
    let mut i: usize = 0;
    while i < fams.len()
        invariant
            i <= fams.len(),
            match graphics {
                Some(g) => is_first_graphics(fams@, g as int),
                None => forall|j: int| 0 <= j < i ==> !#[trigger] is_graphics(fams@[j]),
            },
            match present {
                Some(p) => is_first_present(fams@, p as int),
                None => forall|j: int| 0 <= j < i ==> !#[trigger] is_present(fams@[j]),
            },
        decreases fams.len() - i,
    {
        let f = fams[i];
        if graphics.is_none() && has_graphics_flag(f.flags) {
            graphics = Some(i);
        }
        if present.is_none() && f.present {
            present = Some(i);
        }
        i = i + 1;
    }
    match (graphics, present) {
        (Some(g), Some(p)) => Some(QueueFamilyIndices { graphics: g, present: p }),
        _ => None,
    }
}

/// The device extensions an adapter must support, and that the logical
/// device enables: the swapchain extension.
pub fn required_device_extensions() -> (r: Vec<String>)
    ensures
        names(r@) == seq![swapchain_name()],
{
    let mut r: Vec<String> = Vec::new();
    r.push(swapchain_extension());
    assert(names(r@) =~= seq![swapchain_name()]);
    r
}

/// Whether `adapter` is suitable, and if so its resolved families.
pub fn check_adapter(adapter: &Adapter) -> (r: Option<QueueFamilyIndices>)
    ensures
        r is Some <==> suitable(*adapter),
        r matches Some(q) ==> resolves(adapter.queue_families@, q),
{
    let required = required_device_extensions();
    assert(names(required@).len() == 1 && names(required@)[0] == swapchain_name());
    assert(required@[0]@ == swapchain_name());
    if !contains_all(&adapter.extensions, &required) {
        return None;
    }
    assert(names(adapter.extensions@).contains(required@[0]@));
    find_queue_families(&adapter.queue_families)
}

/// Picks the first suitable adapter in enumeration order.
pub fn pick_physical_device(adapters: &Vec<Adapter>) -> (r: Result<Selection, BootstrapError>)
    ensures
        is_selection(adapters@, r),
{
    let mut i: usize = 0;
    while i < adapters.len()
        invariant
            i <= adapters.len(),
            forall|j: int| 0 <= j < i ==> !#[trigger] suitable(adapters@[j]),
        decreases adapters.len() - i,
    {
        match check_adapter(&adapters[i]) {
            Some(q) => {
                return Ok(Selection { index: i, indices: q });
            },
            None => {},
        }
        i = i + 1;
    }
    Err(BootstrapError::NoSuitableDevice)
}

/// An adapter with no graphics-capable queue family is never selected,
/// whatever else it supports.
pub proof fn no_graphics_never_selected(
    adapters: Seq<Adapter>,
    k: int,
    r: Result<Selection, BootstrapError>,
)
    requires
        0 <= k < adapters.len(),
        !has_graphics(adapters[k].queue_families@),
        is_selection(adapters, r),
    ensures
        r matches Ok(s) ==> s.index != k,
{
}

/// An adapter with no queue family that can present to the surface is never
/// selected.
pub proof fn no_present_never_selected(
    adapters: Seq<Adapter>,
    k: int,
    r: Result<Selection, BootstrapError>,
)
    requires
        0 <= k < adapters.len(),
        !has_present(adapters[k].queue_families@),
        is_selection(adapters, r),
    ensures
        r matches Ok(s) ==> s.index != k,
{
}

/// When every adapter before position `k` is unsuitable and the one at `k`
/// is suitable, the selector returns exactly the adapter at `k`.
pub proof fn first_suitable_selected(
    adapters: Seq<Adapter>,
    k: int,
    r: Result<Selection, BootstrapError>,
)
    requires
        0 <= k < adapters.len(),
        suitable(adapters[k]),
        forall|j: int| 0 <= j < k ==> !#[trigger] suitable(adapters[j]),
        is_selection(adapters, r),
    ensures
        r matches Ok(s) && s.index == k,
{
    match r {
        Ok(s) => {
            if s.index < k {
                assert(!suitable(adapters[s.index as int]));
            } else if s.index > k {
                assert(!suitable(adapters[k]));
            }
        },
        Err(_) => {
            assert(!suitable(adapters[k]));
        },
    }
}

} // verus!
