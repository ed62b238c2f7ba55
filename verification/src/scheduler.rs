use vstd::prelude::*;

verus! {

/// Fatal startup error: the fixed task table cannot hold another task. The
/// task set is known at build time, so running out of table space is a
/// configuration error; the caller aborts instead of recovering.
#[derive(Clone, Copy, Debug, PartialEq, Eq, Structural)]
pub struct SpawnTableExhausted;

/// One-time, fixed-size task registration for the cooperative scheduler.
/// The table is populated once at startup and never shrinks; its view is the
/// sequence of registered task identifiers, in registration order.
pub struct SpawnTable {
    tasks: Vec<u64>,
    capacity: usize,
}

impl View for SpawnTable {
    type V = Seq<u64>;

    closed spec fn view(&self) -> Seq<u64> {
        self.tasks@
    }
}

impl SpawnTable {
    /// Fixed number of task slots.
    pub closed spec fn capacity(&self) -> nat {
        self.capacity as nat
    }

    /// Never more tasks registered than there are slots.
    pub open spec fn wf(&self) -> bool {
        self@.len() <= self.capacity()
    }

    /// An empty table with the given number of slots.
    pub fn new(capacity: usize) -> (t: SpawnTable)
        ensures
            t.wf(),
            t@ == Seq::<u64>::empty(),
            t.capacity() == capacity as nat,
    {
        SpawnTable { tasks: Vec::new(), capacity }
    }

    /// Registers a task; fails exactly when every slot is taken, leaving the
    /// table unchanged.
    pub fn try_spawn(&mut self, task_id: u64) -> (r: Result<(), SpawnTableExhausted>)
        requires
            old(self).wf(),
        ensures
            final(self).wf(),
            final(self).capacity() == old(self).capacity(),
            r is Ok <==> old(self)@.len() < old(self).capacity(),
            r is Ok ==> final(self)@ == old(self)@.push(task_id),
            r is Err ==> final(self)@ == old(self)@,
    {
        if self.tasks.len() < self.capacity {
            self.tasks.push(task_id);
            Ok(())
        } else {
            Err(SpawnTableExhausted)
        }
    }

    /// How many tasks are registered.
    pub fn len(&self) -> (n: usize)
        ensures
            n as nat == self@.len(),
    {
        self.tasks.len()
    }
}

} // verus!
