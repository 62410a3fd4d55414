//! The order in which the context's objects are created and destroyed.
use vstd::prelude::*;

verus! {

/// An object that the context creates and must destroy itself. The physical
/// adapter and the queues are not among them: the adapter belongs to the
/// instance and the queues to the device.
#[derive(Clone, Copy, Debug, PartialEq, Eq, Structural)]
pub enum Resource {
    Instance,
    Messenger,
    Surface,
    Device,
}

/// Creation order: instance, then the debug messenger when validation is
/// enabled, then the surface, then the logical device.
pub open spec fn creation_order(validation: bool) -> Seq<Resource> {
    if validation {
        seq![Resource::Instance, Resource::Messenger, Resource::Surface, Resource::Device]
    } else {
        seq![Resource::Instance, Resource::Surface, Resource::Device]
    }
}

/// Teardown order: device, then the messenger when validation is enabled,
/// then the surface, then the instance.
pub open spec fn teardown_order(validation: bool) -> Seq<Resource> {
    if validation {
        seq![Resource::Device, Resource::Messenger, Resource::Surface, Resource::Instance]
    } else {
        seq![Resource::Device, Resource::Surface, Resource::Instance]
    }
}

/// Tracks which of the context's objects exist, so that they are created in
/// order and destroyed in exactly the reverse order, all at once.
#[derive(Debug)]
pub struct Lifecycle {
    validation: bool,
    created: Vec<Resource>,
}

impl Lifecycle {
    /// Whether the context runs with validation.
    pub closed spec fn validation(&self) -> bool {
        self.validation
    }

    /// The objects that exist, in the order they were created.
    pub closed spec fn created(&self) -> Seq<Resource> {
        self.created@
    }

    /// The objects created so far are a prefix of the creation order.
    pub open spec fn wf(&self) -> bool {
        &&& self.created().len() <= creation_order(self.validation()).len()
        &&& self.created() == creation_order(self.validation()).subrange(0, self.created().len() as int)
    }

    /// Every object of the context exists.
    pub open spec fn complete(&self) -> bool {
        self.created() == creation_order(self.validation())
    }

    /// A context, with or without validation, in which nothing exists yet.
    pub fn new(validation: bool) -> (r: Lifecycle)
        ensures
            r.wf(),
            r.validation() == validation,
            r.created() == Seq::<Resource>::empty(),
    {
        let r = Lifecycle { validation, created: Vec::new() };
        assert(r.created() =~= creation_order(validation).subrange(0, 0));
        r
    }

    pub fn validation_enabled(&self) -> (r: bool)
        ensures
            r == self.validation(),
    {
        self.validation
    }

    /// The object to create next, or `None` once every object exists.
    pub fn next_to_create(&self) -> (r: Option<Resource>)
        requires
            self.wf(),
        ensures
            self.created().len() < creation_order(self.validation()).len() ==> r == Some(
                creation_order(self.validation())[self.created().len() as int],
            ),
            self.created().len() == creation_order(self.validation()).len() ==> r is None,
    {
        let n = self.created.len();
        if self.validation {
            if n == 0 {
                Some(Resource::Instance)
            } else if n == 1 {
                Some(Resource::Messenger)
            } else if n == 2 {
                Some(Resource::Surface)
            } else if n == 3 {
                Some(Resource::Device)
            } else {
                None
            }
        } else {
            if n == 0 {
                Some(Resource::Instance)
            } else if n == 1 {
                Some(Resource::Surface)
            } else if n == 2 {
                Some(Resource::Device)
            } else {
                None
            }
        }
    }

    /// Whether every object of the context exists.
    pub fn is_complete(&self) -> (r: bool)
        requires
            self.wf(),
        ensures
            r == self.complete(),
    {
        let n = self.created.len();
        let total: usize = if self.validation { 4 } else { 3 };
        proof {
            if n == total {
                assert(self.created() =~= creation_order(self.validation()));
            }
        }
        n == total
    }

    /// Records that `r`, the next object in creation order, now exists.
    pub fn record_created(&mut self, r: Resource)
        requires
            old(self).wf(),
            old(self).created().len() < creation_order(old(self).validation()).len(),
            r == creation_order(old(self).validation())[old(self).created().len() as int],
        ensures
            final(self).wf(),
            final(self).validation() == old(self).validation(),
            final(self).created() == old(self).created().push(r),
    {
        self.created.push(r);
        assert(self.created() =~= creation_order(self.validation()).subrange(
            0,
            self.created().len() as int,
        ));
    }

    /// Whether `x` exists.
    pub fn is_live(&self, x: Resource) -> (r: bool)
        ensures
            r == self.created().contains(x),
    {
        let mut i: usize = 0;
        while i < self.created.len()
            invariant
                i <= self.created@.len(),
                forall|j: int| 0 <= j < i ==> self.created@[j] != x,
            decreases self.created@.len() - i,
        {
            if self.created[i] == x {
                assert(self.created()[i as int] == x);
                return true;
            }
            i = i + 1;
        }
        false
    }

    /// Tears the context down: returns the objects to destroy, in the order
    /// to destroy them (device, messenger, surface, instance, each if it
    /// exists). Afterwards nothing exists.
    pub fn teardown(&mut self) -> (r: Vec<Resource>)
        requires
            old(self).wf(),
        ensures
            r@ == destruction_sequence(old(self).created()),
            final(self).wf(),
            final(self).validation() == old(self).validation(),
            final(self).created() == Seq::<Resource>::empty(),
    {
        let mut r: Vec<Resource> = Vec::new();
        if self.is_live(Resource::Device) {
            r.push(Resource::Device);
        }
        if self.is_live(Resource::Messenger) {
            r.push(Resource::Messenger);
        }
        if self.is_live(Resource::Surface) {
            r.push(Resource::Surface);
        }
        if self.is_live(Resource::Instance) {
            r.push(Resource::Instance);
        }
        assert(r@ =~= destruction_sequence(self.created()));
        self.created = Vec::new();
        assert(self.created() =~= creation_order(self.validation()).subrange(0, 0));
        r
    }
}

/// `x` alone if it exists, else nothing.
pub open spec fn if_exists(x: Resource, created: Seq<Resource>) -> Seq<Resource> {
    if created.contains(x) {
        seq![x]
    } else {
        seq![]
    }
}

/// What is destroyed, in order, when the objects in `created` exist: the
/// device, the messenger, the surface and the instance, each if it exists.
pub open spec fn destruction_sequence(created: Seq<Resource>) -> Seq<Resource> {
    if_exists(Resource::Device, created) + if_exists(Resource::Messenger, created) + if_exists(
        Resource::Surface,
        created,
    ) + if_exists(Resource::Instance, created)
}

/// Tearing down a fully created context destroys the device first, then the
/// debug messenger when validation is enabled, then the surface, and the
/// instance last, with or without validation.
pub proof fn full_teardown_order(l: Lifecycle)
    requires
        l.wf(),
        l.complete(),
    ensures
        destruction_sequence(l.created()) == teardown_order(l.validation()),
{
    let c = l.created();
    if l.validation() {
        assert(c[0] == Resource::Instance && c[1] == Resource::Messenger);
        assert(c[2] == Resource::Surface && c[3] == Resource::Device);
        assert(c.contains(Resource::Device) && c.contains(Resource::Messenger));
        assert(c.contains(Resource::Surface) && c.contains(Resource::Instance));
        assert(destruction_sequence(c) =~= teardown_order(true));
    } else {
        assert(c[0] == Resource::Instance && c[1] == Resource::Surface && c[2] == Resource::Device);
        assert(c.contains(Resource::Device) && c.contains(Resource::Instance));
        assert(c.contains(Resource::Surface));
        assert(!c.contains(Resource::Messenger)) by {
            if c.contains(Resource::Messenger) {
                let k = choose|k: int| 0 <= k < c.len() && c[k] == Resource::Messenger;
                assert(c[k] != Resource::Messenger);
            }
        }
        assert(destruction_sequence(c) =~= teardown_order(false));
    }
}

/// With validation enabled, tearing down a fully created context destroys
/// the messenger strictly before the instance.
pub proof fn messenger_destroyed_before_instance(l: Lifecycle)
    requires
        l.wf(),
        l.complete(),
        l.validation(),
    ensures
        destruction_sequence(l.created()).contains(Resource::Messenger),
        destruction_sequence(l.created()).contains(Resource::Instance),
        forall|i: int, j: int|
            0 <= i < destruction_sequence(l.created()).len() && 0 <= j < destruction_sequence(
                l.created(),
            ).len() && destruction_sequence(l.created())[i] == Resource::Messenger
                && destruction_sequence(l.created())[j] == Resource::Instance ==> i < j,
{
    full_teardown_order(l);
    let t = destruction_sequence(l.created());
    assert(t[1] == Resource::Messenger);
    assert(t[3] == Resource::Instance);
}

/// With validation disabled, no debug messenger is ever created, so none is
/// ever destroyed.
pub proof fn disabled_validation_creates_no_messenger(l: Lifecycle)
    requires
        l.wf(),
        !l.validation(),
    ensures
        !l.created().contains(Resource::Messenger),
        !destruction_sequence(l.created()).contains(Resource::Messenger),
{
    if l.created().contains(Resource::Messenger) {
        let k = choose|k: int| 0 <= k < l.created().len() && l.created()[k] == Resource::Messenger;
        assert(creation_order(false)[k] == Resource::Messenger);
    }
    let t = destruction_sequence(l.created());
    if t.contains(Resource::Messenger) {
        let k = choose|k: int| 0 <= k < t.len() && t[k] == Resource::Messenger;
        assert(t[k] == Resource::Messenger);
    }
}

} // verus!
