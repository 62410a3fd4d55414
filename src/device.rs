//! What the logical device is asked for.
use vstd::prelude::*;
use crate::names::names;
use crate::selector::{required_device_extensions, QueueFamilyIndices};
use crate::validation::{enabled_layers, layer_names, ValidationConfig};
use crate::vulkan::swapchain_name;

verus! {

/// One queue-creation record: a family and how many queues of it, each at
/// the default priority.
#[derive(Clone, Copy, Debug, PartialEq, Eq, Structural)]
pub struct QueueRequest {
    pub family: usize,
    pub count: u32,
}

/// Everything the logical device is created with.
#[derive(Clone, Debug)]
pub struct DevicePlan {
    /// One record per distinct family, graphics first.
    pub queues: Vec<QueueRequest>,
    /// The enabled device extensions.
    pub extensions: Vec<String>,
    /// The enabled device layers: the instance's validation layer, if any.
    pub layers: Vec<String>,
}

/// The distinct families of `q`, graphics first.
pub open spec fn distinct_families(q: QueueFamilyIndices) -> Seq<usize> {
    if q.graphics == q.present {
        seq![q.graphics]
    } else {
        seq![q.graphics, q.present]
    }
}

/// One record with a single queue for each family of `families`.
pub open spec fn single_queue_requests(families: Seq<usize>) -> Seq<QueueRequest> {
    families.map_values(|f: usize| QueueRequest { family: f, count: 1 })
}

/// The distinct families of `indices`, graphics first.
pub fn unique_queue_families(indices: &QueueFamilyIndices) -> (r: Vec<usize>)
    ensures
        r@ == distinct_families(*indices),
{
    let mut r: Vec<usize> = Vec::new();
    r.push(indices.graphics);
    if indices.present != indices.graphics {
        r.push(indices.present);
    }
    assert(r@ =~= distinct_families(*indices));
    r
}

/// The queue-creation records: one queue from each distinct family.
pub fn queue_requests(indices: &QueueFamilyIndices) -> (r: Vec<QueueRequest>)
    ensures
        r@ == single_queue_requests(distinct_families(*indices)),
{
    let families = unique_queue_families(indices);
    let mut r: Vec<QueueRequest> = Vec::new();
    let mut i: usize = 0;
    while i < families.len()
        invariant
            i <= families.len(),
            r@ =~= single_queue_requests(families@.subrange(0, i as int)),
        decreases families.len() - i,
    {
        r.push(QueueRequest { family: families[i], count: 1 });
        i = i + 1;
        assert(single_queue_requests(families@.subrange(0, i as int)) =~= single_queue_requests(
            families@.subrange(0, i - 1),
        ).push(QueueRequest { family: families@[i - 1], count: 1 }));
    }
    assert(families@.subrange(0, families.len() as int) =~= families@);
    r
}

/// What the logical device is created with for the chosen families under
/// `validation`: the queue records, the swapchain extension, and the same
/// validation layer as the instance.
pub fn plan_device(indices: &QueueFamilyIndices, validation: &ValidationConfig) -> (r: DevicePlan)
    ensures
        r.queues@ == single_queue_requests(distinct_families(*indices)),
        names(r.extensions@) == seq![swapchain_name()],
        names(r.layers@) == layer_names(*validation),
{
    DevicePlan {
        queues: queue_requests(indices),
        extensions: required_device_extensions(),
        layers: enabled_layers(validation),
    }
}

/// When the graphics and present families coincide, exactly one
/// queue-creation record is made, for that family.
pub proof fn shared_family_gets_one_record(q: QueueFamilyIndices)
    requires
        q.graphics == q.present,
    ensures
        single_queue_requests(distinct_families(q)) == seq![QueueRequest { family: q.graphics, count: 1 }],
{
    assert(single_queue_requests(distinct_families(q)) =~= seq![QueueRequest { family: q.graphics, count: 1 }]);
}

/// The records never name a family twice, and name exactly the graphics
/// and present families.
pub proof fn requests_cover_each_family_once(q: QueueFamilyIndices)
    ensures
        single_queue_requests(distinct_families(q)).map_values(|r: QueueRequest| r.family).no_duplicates(),
        single_queue_requests(distinct_families(q)).map_values(|r: QueueRequest| r.family).to_set()
            == set![q.graphics, q.present],
{
    let fams = single_queue_requests(distinct_families(q)).map_values(|r: QueueRequest| r.family);
    assert(fams =~= distinct_families(q));
    assert(fams.to_set() =~= set![q.graphics, q.present]) by {
        assert forall|x: usize| fams.to_set().contains(x) <==> set![q.graphics, q.present].contains(x) by {
            if x == q.graphics {
                assert(fams[0] == x);
            }
            if x == q.present {
                assert(fams[fams.len() - 1] == x);
            }
        }
    }
}

} // verus!
