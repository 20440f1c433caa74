//! Threads of the kernel: their state, their saved registers and the
//! objects they hold.
use vstd::prelude::*;
use crate::exception::InterruptFrame;
use crate::kernel_object::{KernelObject, ObjectHandle};
use crate::page_table::PageTable;

verus! {

/// Each thread is known by a unique number.
pub type ThreadID = u64;

/// What a thread is doing.
#[derive(Copy, Clone, Debug, PartialEq, Eq, Structural)]
pub enum ThreadStatus {
    /// On the processor.
    Running,
    /// Waiting in the run queue.
    Ready,
    /// Asleep until the clock reaches the given time.
    Sleeping(u64),
    /// Finished with the given exit code.
    Exited(u64),
    /// Waiting for the given thread to exit.
    Joining(ThreadID),
}

/// A thread.
pub struct Thread {
    /// Address of the thread's saved register frame; valid while the thread
    /// is not running.
    pub stack_pointer: u64,
    pub parent: Option<ThreadID>,
    pub status: ThreadStatus,
    pub name: String,
    pub id: ThreadID,
    /// Threads this thread created and has not joined yet.
    pub children: Vec<ThreadID>,
    pub objects: Vec<(ObjectHandle, KernelObject)>,
    /// The register frame saved at `stack_pointer`.
    pub frame: InterruptFrame,
    pub kernel_table: PageTable,
    pub user_table: PageTable,
}

/// The objects left after closing `handle`.
pub open spec fn without_handle(
    objects: Seq<(ObjectHandle, KernelObject)>,
    handle: ObjectHandle,
) -> Seq<(ObjectHandle, KernelObject)>
    decreases objects.len(),
{
    if objects.len() == 0 {
        objects
    } else {
        let rest = without_handle(objects.drop_last(), handle);
        if objects.last().0 != handle {
            rest.push(objects.last())
        } else {
            rest
        }
    }
}

/// The first object held under `handle`, if any.
pub open spec fn first_with_handle(
    objects: Seq<(ObjectHandle, KernelObject)>,
    handle: ObjectHandle,
) -> Option<KernelObject>
    decreases objects.len(),
{
    if objects.len() == 0 {
        None
    } else if objects[0].0 == handle {
        Some(objects[0].1)
    } else {
        first_with_handle(objects.drop_first(), handle)
    }
}

/// Looking a handle up after pushing `x`: what the earlier objects hold
/// comes first.
pub proof fn lemma_first_with_handle_push(
    objects: Seq<(ObjectHandle, KernelObject)>,
    x: (ObjectHandle, KernelObject),
    k: ObjectHandle,
)
    ensures
        first_with_handle(objects.push(x), k) == match first_with_handle(objects, k) {
            Some(o) => Some(o),
            None => if x.0 == k {
                Some(x.1)
            } else {
                None
            },
        },
    decreases objects.len(),
{
    if objects.len() > 0 {
        assert(objects.push(x)[0] == objects[0]);
        assert(objects.push(x).drop_first() =~= objects.drop_first().push(x));
        lemma_first_with_handle_push(objects.drop_first(), x, k);
    } else {
        assert(objects.push(x)[0] == x);
        assert(objects.push(x).drop_first() =~= Seq::<(ObjectHandle, KernelObject)>::empty());
        assert(first_with_handle(objects.push(x).drop_first(), k) is None);
    }
}

/// An object added under a handle no object holds is what looking that
/// handle up gives; every other handle looks up as before.
pub proof fn lemma_add_then_get(
    objects: Seq<(ObjectHandle, KernelObject)>,
    object: KernelObject,
    h: ObjectHandle,
    k: ObjectHandle,
)
    requires
        first_with_handle(objects, h) is None,
    ensures
        first_with_handle(objects.push((h, object)), h) == Some(object),
        k != h ==> first_with_handle(objects.push((h, object)), k) == first_with_handle(objects, k),
{
    lemma_first_with_handle_push(objects, (h, object), h);
    lemma_first_with_handle_push(objects, (h, object), k);
}

/// After the objects under `h` are removed, nothing is found under `h`;
/// every other handle looks up as before.
pub proof fn lemma_remove_then_get(objects: Seq<(ObjectHandle, KernelObject)>, h: ObjectHandle, k: ObjectHandle)
    ensures
        first_with_handle(without_handle(objects, h), h) is None,
        k != h ==> first_with_handle(without_handle(objects, h), k) == first_with_handle(objects, k),
    decreases objects.len(),
{
    if objects.len() > 0 {
        let init = objects.drop_last();
        let x = objects.last();
        lemma_remove_then_get(init, h, k);
        assert(init.push(x) =~= objects);
        lemma_first_with_handle_push(init, x, k);
        let kept = without_handle(init, h);
        if x.0 != h {
            lemma_first_with_handle_push(kept, x, k);
            lemma_first_with_handle_push(kept, x, h);
        }
    } else {
        assert(first_with_handle(without_handle(objects, h), h) is None);
    }
}

/// The objects of `objects` not held under `handle`, in order.
pub fn objects_without(objects: &Vec<(ObjectHandle, KernelObject)>, handle: ObjectHandle) -> (r: Vec<(ObjectHandle, KernelObject)>)
    ensures
        r@ == without_handle(objects@, handle),
{
    let mut kept: Vec<(ObjectHandle, KernelObject)> = Vec::new();
    let mut i: usize = 0;
    while i < objects.len()
        invariant
            i <= objects@.len(),
            kept@ == without_handle(objects@.subrange(0, i as int), handle),
        decreases objects@.len() - i,
    {
        let entry = objects[i];
        proof {
            let next = objects@.subrange(0, i + 1);
            assert(next.drop_last() =~= objects@.subrange(0, i as int));
        }
        if entry.0 != handle {
            kept.push(entry);
        }
        i = i + 1;
    }
    assert(objects@.subrange(0, i as int) =~= objects@);
    kept
}

/// A copy of `objects`.
pub fn copy_objects(objects: &Vec<(ObjectHandle, KernelObject)>) -> (r: Vec<(ObjectHandle, KernelObject)>)
    ensures
        r@ == objects@,
{
    let mut copy: Vec<(ObjectHandle, KernelObject)> = Vec::new();
    let mut i: usize = 0;
    while i < objects.len()
        invariant
            i <= objects@.len(),
            copy@ == objects@.subrange(0, i as int),
        decreases objects@.len() - i,
    {
        copy.push(objects[i]);
        i = i + 1;
    }
    assert(objects@.subrange(0, i as int) =~= objects@);
    copy
}

impl Thread {
    /// The thread the kernel boots on: the idle thread, number 0, running,
    /// with no parent and no objects, on the given translation tables.
    pub fn from_current(kernel_table: PageTable, user_table: PageTable) -> (r: Thread)
        ensures
            r.id == 0,
            r.status == ThreadStatus::Running,
            r.parent is None,
            r.stack_pointer == 0,
            r.objects@.len() == 0,
            r.children@.len() == 0,
            r.kernel_table == kernel_table,
            r.user_table == user_table,
    {
        Thread {
            stack_pointer: 0,
            parent: None,
            status: ThreadStatus::Running,
            name: String::from_str("Idle"),
            id: 0,
            children: Vec::new(),
            objects: Vec::new(),
            frame: InterruptFrame::with_kernel_entry(0),
            kernel_table,
            user_table,
        }
    }

    /// Puts `value` in the first register of the saved frame, which the
    /// thread sees as the result of its system call.
    pub fn set_return_value(&mut self, value: u64)
        ensures
            final(self).frame.gp_registers@ == old(self).frame.gp_registers@.update(0, value),
            final(self).frame.elr == old(self).frame.elr,
            final(self).id == old(self).id,
            final(self).status == old(self).status,
            final(self).stack_pointer == old(self).stack_pointer,
            final(self).parent == old(self).parent,
            final(self).objects@ == old(self).objects@,
            final(self).children@ == old(self).children@,
            final(self).frame.spsr == old(self).frame.spsr,
            final(self).frame.fp_regs == old(self).frame.fp_regs,
            final(self).frame.fpsr == old(self).frame.fpsr,
            final(self).name == old(self).name,
            final(self).kernel_table == old(self).kernel_table,
            final(self).user_table == old(self).user_table,
    {
        self.frame.gp_registers[0] = value;
    }

    /// Records where the thread's frame was saved.
    pub fn set_stack_pointer(&mut self, sp: u64)
        ensures
            final(self).stack_pointer == sp,
            final(self).id == old(self).id,
            final(self).status == old(self).status,
            final(self).frame == old(self).frame,
            final(self).parent == old(self).parent,
            final(self).objects@ == old(self).objects@,
            final(self).children@ == old(self).children@,
    {
        self.stack_pointer = sp;
    }

    /// Gives the thread `object` under the handle `id`.
    pub fn add_object(&mut self, object: KernelObject, id: ObjectHandle)
        ensures
            final(self).objects@ == old(self).objects@.push((id, object)),
            final(self).id == old(self).id,
            final(self).status == old(self).status,
            final(self).frame == old(self).frame,
    {
        self.objects.push((id, object));
    }

    /// Drops every object held under `handle`, keeping the others in order.
    pub fn remove_object(&mut self, handle: ObjectHandle)
        ensures
            final(self).objects@ == without_handle(old(self).objects@, handle),
            final(self).id == old(self).id,
            final(self).status == old(self).status,
            final(self).frame == old(self).frame,
    {
        self.objects = objects_without(&self.objects, handle);
    }

    /// The first object held under `handle`, if any.
    pub fn get_object(&self, handle: ObjectHandle) -> (r: Option<KernelObject>)
        ensures
            r == first_with_handle(self.objects@, handle),
    {
        let mut i: usize = 0;
        assert(self.objects@.subrange(0, self.objects@.len() as int) =~= self.objects@);
        while i < self.objects.len()
            invariant
                i <= self.objects@.len(),
                first_with_handle(self.objects@, handle) == first_with_handle(
                    self.objects@.subrange(i as int, self.objects@.len() as int),
                    handle,
                ),
            decreases self.objects@.len() - i,
        {
            let ghost rest = self.objects@.subrange(i as int, self.objects@.len() as int);
            let (id, o) = self.objects[i];
            if id == handle {
                return Some(o);
            }
            assert(rest.drop_first() =~= self.objects@.subrange(i + 1, self.objects@.len() as int));
            i = i + 1;
        }
        None
    }
}

} // verus!
