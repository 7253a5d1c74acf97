//! Resource lifecycle: what was created, and the order of release.

use vstd::prelude::*;

verus! {

/// The kinds of driver object a run creates.
#[derive(Debug, Clone, Copy, PartialEq, Eq, Structural)]
pub enum ResourceKind {
    Instance,
    Device,
    Memory,
    Buffer,
    DescriptorSetLayout,
    DescriptorPool,
    ShaderModule,
    PipelineLayout,
    Pipeline,
    CommandPool,
    Fence,
}

/// One driver object: its kind and its handle.
#[derive(Debug, Clone, Copy, PartialEq, Eq, Structural)]
pub struct Resource {
    pub kind: ResourceKind,
    pub handle: u64,
}

/// The order in which resources created in the order `created` are
/// released: last created, first released.
pub open spec fn teardown_order(created: Seq<Resource>) -> Seq<Resource> {
    created.reverse()
}

/// The resources of a run that are alive, in the order of their creation.
/// No resource is in it twice.
#[derive(Debug)]
pub struct Lifecycle {
    live: Vec<Resource>,
}

impl Lifecycle {
    /// The live resources, oldest first.
    pub closed spec fn created(&self) -> Seq<Resource> {
        self.live@
    }

    /// No resource is recorded twice.
    pub open spec fn well_formed(&self) -> bool {
        self.created().no_duplicates()
    }

    /// A lifecycle with nothing alive.
    pub fn new() -> (r: Lifecycle)
        ensures
            r.well_formed(),
            r.created() == Seq::<Resource>::empty(),
    {
        Lifecycle { live: Vec::new() }
    }

    /// The number of live resources.
    pub fn len(&self) -> (r: usize)
        ensures
            r == self.created().len(),
    {
        self.live.len()
    }

    /// Tells whether a resource is alive.
    pub fn is_live(&self, resource: Resource) -> (r: bool)
        ensures
            r == self.created().contains(resource),
    {
        let mut i: usize = 0;
        while i < self.live.len()
            invariant
                i <= self.live@.len(),
                forall|j: int| 0 <= j < i ==> self.live@[j] != resource,
            decreases self.live@.len() - i,
        {
            if self.live[i] == resource {
                return true;
            }
            i += 1;
        }
        false
    }

    /// Records a resource that was just created. A resource that is already
    /// alive is not recorded again: the call then changes nothing and
    /// returns `false`.
    pub fn acquire(&mut self, resource: Resource) -> (r: bool)
        requires
            old(self).well_formed(),
        ensures
            final(self).well_formed(),
            r == !old(self).created().contains(resource),
            r ==> final(self).created() == old(self).created().push(resource),
            !r ==> final(self).created() == old(self).created(),
    {
        if self.is_live(resource) {
            return false;
        }
        self.live.push(resource);
        true
    }

    /// Takes the resource that must be released next, the one created last,
    /// out of the record. Returns `None` when nothing is alive.
    pub fn release(&mut self) -> (r: Option<Resource>)
        requires
            old(self).well_formed(),
        ensures
            final(self).well_formed(),
            match r {
                Some(resource) => {
                    &&& old(self).created().len() > 0
                    &&& resource == old(self).created().last()
                    &&& final(self).created() == old(self).created().drop_last()
                    &&& !final(self).created().contains(resource)
                },
                None => old(self).created().len() == 0 && final(self).created() == old(
                    self,
                ).created(),
            },
    {
        self.live.pop()
    }

    /// Unwinds the whole record: returns every live resource in the order
    /// of release and leaves nothing alive.
    pub fn teardown(&mut self) -> (r: Vec<Resource>)
        requires
            old(self).well_formed(),
        ensures
            final(self).well_formed(),
            r@ == teardown_order(old(self).created()),
            r@.no_duplicates(),
            final(self).created() == Seq::<Resource>::empty(),
    {
        proof {
            lemma_teardown_releases_once(self.live@);
        }
        let mut order: Vec<Resource> = Vec::with_capacity(self.live.len());
        let ghost before = self.live@;
        while self.live.len() > 0
            invariant
                self.live@.len() <= before.len(),
                self.live@ == before.subrange(0, self.live@.len() as int),
                order@.len() == before.len() - self.live@.len(),
                forall|k: int|
                    0 <= k < order@.len() ==> order@[k] == before[before.len() - 1 - k],
            decreases self.live@.len(),
        {
            let last = self.live.pop().unwrap();
            order.push(last);
        }
        assert(order@ == before.reverse());
        order
    }
}

/// Release inverts creation: of two resources, the one created later is
/// released earlier.
pub proof fn lemma_teardown_inverts_creation(created: Seq<Resource>, earlier: int, later: int)
    requires
        0 <= earlier < later < created.len(),
    ensures
        teardown_order(created).len() == created.len(),
        teardown_order(created)[created.len() - 1 - later] == created[later],
        teardown_order(created)[created.len() - 1 - earlier] == created[earlier],
        created.len() - 1 - later < created.len() - 1 - earlier,
{
}

/// Every created resource is released, nothing else is, and where no
/// resource was recorded twice none is released twice.
pub proof fn lemma_teardown_releases_once(created: Seq<Resource>)
    requires
        created.no_duplicates(),
    ensures
        teardown_order(created).no_duplicates(),
        forall|r: Resource| teardown_order(created).contains(r) <==> created.contains(r),
{
    let order = teardown_order(created);
    let n = created.len() as int;
    assert forall|i: int, j: int| 0 <= i < n && 0 <= j < n && i != j implies order[i] != order[j] by {
        assert(order[i] == created[n - 1 - i]);
        assert(order[j] == created[n - 1 - j]);
    }
    assert forall|r: Resource| order.contains(r) <==> created.contains(r) by {
        if order.contains(r) {
            let i = choose|i: int| 0 <= i < order.len() && order[i] == r;
            assert(created[n - 1 - i] == r);
        }
        if created.contains(r) {
            let i = choose|i: int| 0 <= i < created.len() && created[i] == r;
            assert(order[n - 1 - i] == r);
        }
    }
}

} // verus!
