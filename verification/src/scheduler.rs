//! The round-robin scheduler: the running thread, the run queue, sleeping
//! threads, and the exit/join handshake between threads.
use vstd::prelude::*;
use std::collections::VecDeque;
use crate::page_table::PageTable;
use crate::kernel_object::{KernelObject, ObjectHandle};
use crate::thread::{
    copy_objects, first_with_handle, objects_without, without_handle, Thread, ThreadID, ThreadStatus,
};

verus! {

/// Some thread of `table` has the number `id`.
pub open spec fn known_in(table: Seq<Thread>, id: ThreadID) -> bool {
    exists|i: int| 0 <= i < table.len() && #[trigger] table[i].id == id
}

/// No two threads of `table` share a number.
pub open spec fn unique_ids(table: Seq<Thread>) -> bool {
    forall|i: int, j: int|
        #![trigger table[i], table[j]]
        0 <= i < table.len() && 0 <= j < table.len() && table[i].id == table[j].id ==> i == j
}

/// Where the thread numbered `id` is in `table`.
pub open spec fn index_in(table: Seq<Thread>, id: ThreadID) -> int {
    choose|i: int| 0 <= i < table.len() && #[trigger] table[i].id == id
}

/// The status of every thread, by number.
pub open spec fn status_map(table: Seq<Thread>) -> Map<ThreadID, ThreadStatus> {
    Map::new(|id: ThreadID| known_in(table, id), |id: ThreadID| table[index_in(table, id)].status)
}

/// The saved result register (x0) of every thread, by number.
pub open spec fn result_map(table: Seq<Thread>) -> Map<ThreadID, u64> {
    Map::new(
        |id: ThreadID| known_in(table, id),
        |id: ThreadID| table[index_in(table, id)].frame.gp_registers@[0],
    )
}

/// The unjoined children of every thread, by number.
pub open spec fn children_map(table: Seq<Thread>) -> Map<ThreadID, Seq<ThreadID>> {
    Map::new(|id: ThreadID| known_in(table, id), |id: ThreadID| table[index_in(table, id)].children@)
}

/// Every number in `ids` is a thread of `table`.
pub open spec fn all_known(table: Seq<Thread>, ids: Seq<ThreadID>) -> bool {
    forall|k: int| 0 <= k < ids.len() ==> known_in(table, #[trigger] ids[k])
}

/// The thread at `i` has number `id`, so it is the one `index_in` finds.
pub proof fn lemma_index_in(table: Seq<Thread>, i: int, id: ThreadID)
    requires
        unique_ids(table),
        0 <= i < table.len(),
        table[i].id == id,
    ensures
        known_in(table, id),
        index_in(table, id) == i,
{
    assert(known_in(table, id));
    let k = index_in(table, id);
    assert(table[k].id == id);
}

/// Replacing the thread at `i` by one with the same number keeps the
/// numbers, and changes the maps only at that number.
proof fn lemma_replace_thread(old_t: Seq<Thread>, new_t: Seq<Thread>, i: int)
    requires
        unique_ids(old_t),
        0 <= i < old_t.len(),
        new_t.len() == old_t.len(),
        new_t[i].id == old_t[i].id,
        forall|j: int| 0 <= j < old_t.len() && j != i ==> new_t[j] == old_t[j],
    ensures
        unique_ids(new_t),
        forall|id: ThreadID| known_in(new_t, id) == known_in(old_t, id),
        status_map(new_t) == status_map(old_t).insert(old_t[i].id, new_t[i].status),
        result_map(new_t) == result_map(old_t).insert(
            old_t[i].id,
            new_t[i].frame.gp_registers@[0],
        ),
        children_map(new_t) == children_map(old_t).insert(old_t[i].id, new_t[i].children@),
        forall|id: ThreadID| known_in(old_t, id) ==> index_in(new_t, id) == index_in(old_t, id),
{
    assert forall|a: int, b: int|
        #![trigger new_t[a], new_t[b]]
        0 <= a < new_t.len() && 0 <= b < new_t.len() && new_t[a].id == new_t[b].id implies a
        == b by {
        assert(old_t[a].id == new_t[a].id);
        assert(old_t[b].id == new_t[b].id);
    }
    assert forall|id: ThreadID| known_in(new_t, id) == known_in(old_t, id) by {
        if known_in(new_t, id) {
            let k = index_in(new_t, id);
            assert(old_t[k].id == id);
        }
        if known_in(old_t, id) {
            let k = index_in(old_t, id);
            assert(new_t[k].id == id);
        }
    }
    assert forall|id: ThreadID| known_in(new_t, id) implies index_in(new_t, id) == index_in(
        old_t,
        id,
    ) by {
        let k = index_in(new_t, id);
        assert(old_t[k].id == id);
        lemma_index_in(old_t, k, id);
    }
    lemma_index_in(new_t, i, old_t[i].id);
    assert(status_map(new_t) =~= status_map(old_t).insert(old_t[i].id, new_t[i].status));
    assert(result_map(new_t) =~= result_map(old_t).insert(
        old_t[i].id,
        new_t[i].frame.gp_registers@[0],
    ));
    assert(children_map(new_t) =~= children_map(old_t).insert(old_t[i].id, new_t[i].children@));
}

/// Adding a thread with a new number keeps the numbers unique and adds it
/// to the maps.
proof fn lemma_push_thread(old_t: Seq<Thread>, t: Thread)
    requires
        unique_ids(old_t),
        !known_in(old_t, t.id),
    ensures
        unique_ids(old_t.push(t)),
        forall|id: ThreadID| known_in(old_t.push(t), id) == (known_in(old_t, id) || id == t.id),
        status_map(old_t.push(t)) == status_map(old_t).insert(t.id, t.status),
        result_map(old_t.push(t)) == result_map(old_t).insert(t.id, t.frame.gp_registers@[0]),
        children_map(old_t.push(t)) == children_map(old_t).insert(t.id, t.children@),
{
    let new_t = old_t.push(t);
    assert forall|a: int, b: int|
        #![trigger new_t[a], new_t[b]]
        0 <= a < new_t.len() && 0 <= b < new_t.len() && new_t[a].id == new_t[b].id implies a
        == b by {
        if a < old_t.len() && b < old_t.len() {
            assert(old_t[a] == new_t[a] && old_t[b] == new_t[b]);
        } else if a < old_t.len() {
            assert(old_t[a].id == t.id);
        } else if b < old_t.len() {
            assert(old_t[b].id == t.id);
        }
    }
    assert forall|id: ThreadID| known_in(new_t, id) == (known_in(old_t, id) || id == t.id) by {
        if known_in(new_t, id) {
            let k = index_in(new_t, id);
            if k < old_t.len() {
                assert(old_t[k].id == id);
            }
        }
        if known_in(old_t, id) {
            let k = index_in(old_t, id);
            assert(new_t[k].id == id);
        }
        if id == t.id {
            assert(new_t[old_t.len() as int].id == id);
        }
    }
    assert forall|id: ThreadID| known_in(old_t, id) implies index_in(new_t, id) == index_in(
        old_t,
        id,
    ) by {
        let k = index_in(old_t, id);
        assert(new_t[k].id == id);
        lemma_index_in(new_t, k, id);
    }
    lemma_index_in(new_t, old_t.len() as int, t.id);
    assert(status_map(new_t) =~= status_map(old_t).insert(t.id, t.status));
    assert(result_map(new_t) =~= result_map(old_t).insert(t.id, t.frame.gp_registers@[0]));
    assert(children_map(new_t) =~= children_map(old_t).insert(t.id, t.children@));
}

/// The sleeping threads of `ids` whose wake time is at most `now`.
pub open spec fn due_threads(st: Map<ThreadID, ThreadStatus>, ids: Seq<ThreadID>, now: u64) -> Seq<ThreadID>
    decreases ids.len(),
{
    if ids.len() == 0 {
        ids
    } else {
        let rest = due_threads(st, ids.drop_last(), now);
        if st[ids.last()] matches ThreadStatus::Sleeping(w) && w <= now {
            rest.push(ids.last())
        } else {
            rest
        }
    }
}

/// The threads of `ids` still asleep at `now`.
pub open spec fn still_sleeping(st: Map<ThreadID, ThreadStatus>, ids: Seq<ThreadID>, now: u64) -> Seq<ThreadID>
    decreases ids.len(),
{
    if ids.len() == 0 {
        ids
    } else {
        let rest = still_sleeping(st, ids.drop_last(), now);
        if st[ids.last()] matches ThreadStatus::Sleeping(w) && w <= now {
            rest
        } else {
            rest.push(ids.last())
        }
    }
}

/// The threads of `ids` waiting for `dying` to exit.
pub open spec fn joiners(st: Map<ThreadID, ThreadStatus>, ids: Seq<ThreadID>, dying: ThreadID) -> Seq<ThreadID>
    decreases ids.len(),
{
    if ids.len() == 0 {
        ids
    } else {
        let rest = joiners(st, ids.drop_last(), dying);
        if st[ids.last()] == ThreadStatus::Joining(dying) {
            rest.push(ids.last())
        } else {
            rest
        }
    }
}

/// Threads woken at `now` come from `ids`.
pub proof fn lemma_due_in(st: Map<ThreadID, ThreadStatus>, ids: Seq<ThreadID>, now: u64)
    ensures
        forall|x: ThreadID| due_threads(st, ids, now).contains(x) ==> ids.contains(x),
    decreases ids.len(),
{
    if ids.len() > 0 {
        lemma_due_in(st, ids.drop_last(), now);
        assert forall|x: ThreadID| due_threads(st, ids, now).contains(x) implies ids.contains(x) by {
            if due_threads(st, ids.drop_last(), now).contains(x) {
                assert(ids.drop_last().contains(x));
                let k = choose|k: int| 0 <= k < ids.drop_last().len() && ids.drop_last()[k] == x;
                assert(ids[k] == x);
            } else {
                assert(x == ids.last());
                assert(ids[ids.len() - 1] == x);
            }
        }
    }
}

/// The first position of `v` in `s`.
pub open spec fn first_index(s: Seq<ThreadID>, v: ThreadID) -> int {
    choose|p: int| 0 <= p < s.len() && s[p] == v && forall|q: int| 0 <= q < p ==> s[q] != v
}

/// Finds the first position of `v` in `s`, which holds it.
fn position(s: &Vec<ThreadID>, v: ThreadID) -> (p: usize)
    requires
        s@.contains(v),
    ensures
        p < s@.len(),
        s@[p as int] == v,
        p == first_index(s@, v),
{
    let mut i: usize = 0;
    while i < s.len()
        invariant
            i <= s@.len(),
            s@.contains(v),
            forall|q: int| 0 <= q < i ==> s@[q] != v,
        decreases s@.len() - i,
    {
        if s[i] == v {
            proof {
                let f = first_index(s@, v);
                assert(0 <= f < s@.len() && s@[f] == v && forall|q: int| 0 <= q < f ==> s@[q] != v) by {
                    assert(0 <= i < s@.len() && s@[i as int] == v && forall|q: int| 0 <= q < i ==> s@[q] != v);
                }
                if f < i {
                } else if f > i {
                    assert(s@[i as int] != v);
                }
            }
            return i;
        }
        i = i + 1;
    }
    proof {
        let k = choose|k: int| 0 <= k < s@.len() && s@[k] == v;
        assert(s@[k] != v);
    }
    0
}

/// The scheduler.
pub struct Scheduler {
    /// The thread on the processor.
    pub current_thread: ThreadID,
    /// Threads that have not exited.
    pub threads: Vec<ThreadID>,
    /// Threads ready to run, in the order they will run.
    pub thread_queue: VecDeque<ThreadID>,
    /// Sleeping threads.
    pub waiting_threads: Vec<ThreadID>,
    /// Every thread, exited ones included.
    pub table: Vec<Thread>,
}

impl Scheduler {
    /// Thread numbers are unique, and every number the scheduler holds (the
    /// current thread, the lists, the queue, every thread's children) names
    /// a thread.
    pub open spec fn wf(&self) -> bool {
        let t = self.table@;
        &&& unique_ids(t)
        &&& known_in(t, self.current_thread)
        &&& all_known(t, self.threads@)
        &&& all_known(t, self.thread_queue@)
        &&& all_known(t, self.waiting_threads@)
        &&& forall|i: int| 0 <= i < t.len() ==> all_known(t, #[trigger] t[i].children@)
    }

    pub open spec fn statuses(&self) -> Map<ThreadID, ThreadStatus> {
        status_map(self.table@)
    }

    pub open spec fn results(&self) -> Map<ThreadID, u64> {
        result_map(self.table@)
    }

    pub open spec fn children(&self) -> Map<ThreadID, Seq<ThreadID>> {
        children_map(self.table@)
    }

    /// Where the thread numbered `id` is in the table.
    fn find(&self, id: ThreadID) -> (i: usize)
        requires
            unique_ids(self.table@),
            known_in(self.table@, id),
        ensures
            i < self.table@.len(),
            self.table@[i as int].id == id,
            i == index_in(self.table@, id),
    {
        let mut i: usize = 0;
        while i < self.table.len()
            invariant
                i <= self.table@.len(),
                unique_ids(self.table@),
                known_in(self.table@, id),
                forall|j: int| 0 <= j < i ==> self.table@[j].id != id,
            decreases self.table@.len() - i,
        {
            if self.table[i].id == id {
                proof {
                    lemma_index_in(self.table@, i as int, id);
                }
                return i;
            }
            i = i + 1;
        }
        proof {
            let k = index_in(self.table@, id);
            assert(self.table@[k].id == id);
        }
        0
    }

    /// Sets the status of the thread at `i`.
    fn set_status(&mut self, i: usize, status: ThreadStatus)
        requires
            old(self).wf(),
            i < old(self).table@.len(),
        ensures
            final(self).wf(),
            final(self).statuses() == old(self).statuses().insert(
                old(self).table@[i as int].id,
                status,
            ),
            final(self).results() == old(self).results(),
            final(self).children() == old(self).children(),
            forall|id: ThreadID| known_in(final(self).table@, id) == known_in(old(self).table@, id),
            final(self).current_thread == old(self).current_thread,
            final(self).threads@ == old(self).threads@,
            final(self).thread_queue@ == old(self).thread_queue@,
            final(self).waiting_threads@ == old(self).waiting_threads@,
    {
        let ghost before = self.table@;
        self.table[i].status = status;
        proof {
            lemma_replace_thread(before, self.table@, i as int);
            assert(result_map(self.table@) =~= result_map(before));
            assert(children_map(self.table@) =~= children_map(before));
            assert forall|k: int| 0 <= k < self.table@.len() implies all_known(
                self.table@,
                #[trigger] self.table@[k].children@,
            ) by {
                assert(self.table@[k].children@ == before[k].children@);
                assert(all_known(before, before[k].children@));
            }
        }
    }

    /// A scheduler running the boot thread (number 0) alone, on the given
    /// translation tables.
    pub fn new(kernel_table: PageTable, user_table: PageTable) -> (r: Self)
        ensures
            r.wf(),
            r.current_thread == 0,
            r.threads@ == seq![0u64],
            r.thread_queue@.len() == 0,
            r.waiting_threads@.len() == 0,
            r.statuses() == map![0u64 => ThreadStatus::Running],
    {
        let current_thread = Thread::from_current(kernel_table, user_table);
        let mut table: Vec<Thread> = Vec::new();
        table.push(current_thread);
        let mut threads: Vec<ThreadID> = Vec::new();
        threads.push(0);
        let r = Scheduler {
            current_thread: 0,
            threads,
            thread_queue: VecDeque::new(),
            waiting_threads: Vec::new(),
            table,
        };
        proof {
            lemma_index_in(r.table@, 0, 0);
            assert forall|id: ThreadID| known_in(r.table@, id) implies id == 0 by {
                let k = index_in(r.table@, id);
                assert(r.table@[k].id == id);
            }
            assert(r.statuses() =~= map![0u64 => ThreadStatus::Running]);
        }
        r
    }

    /// Moves the running thread to the back of the run queue (as ready) and
    /// runs the thread at the front.
    pub fn schedule(&mut self)
        requires
            old(self).wf(),
        ensures
            final(self).wf(),
            ({
                let q = old(self).thread_queue@.push(old(self).current_thread);
                &&& final(self).current_thread == q[0]
                &&& final(self).thread_queue@ == q.drop_first()
                &&& final(self).statuses() == old(self).statuses().insert(
                    old(self).current_thread,
                    ThreadStatus::Ready,
                ).insert(q[0], ThreadStatus::Running)
            }),
            final(self).results() == old(self).results(),
            final(self).children() == old(self).children(),
            final(self).threads@ == old(self).threads@,
            final(self).waiting_threads@ == old(self).waiting_threads@,
    {
        let former = self.current_thread;
        let ci = self.find(former);
        self.set_status(ci, ThreadStatus::Ready);
        self.thread_queue.push_back(former);
        let new_thread = match self.thread_queue.pop_front() {
            Some(t) => t,
            None => {
                proof {
                    assert(false);
                }
                former
            },
        };
        proof {
            assert(known_in(self.table@, new_thread));
            assert forall|k: int| 0 <= k < self.thread_queue@.len() implies known_in(
                self.table@,
                #[trigger] self.thread_queue@[k],
            ) by {
                assert(self.thread_queue@[k] == old(self).thread_queue@.push(former)[k + 1]);
            }
        }
        let ni = self.find(new_thread);
        self.set_status(ni, ThreadStatus::Running);
        self.current_thread = new_thread;
    }
}


impl Scheduler {
    /// Sets the saved result register of the thread at `i`.
    fn set_result(&mut self, i: usize, value: u64)
        requires
            old(self).wf(),
            i < old(self).table@.len(),
        ensures
            final(self).wf(),
            final(self).results() == old(self).results().insert(
                old(self).table@[i as int].id,
                value,
            ),
            final(self).table@.len() == old(self).table@.len(),
            final(self).table@[i as int].id == old(self).table@[i as int].id,
            forall|j: int| 0 <= j < old(self).table@.len() ==> (#[trigger] final(self).table@[j]).objects@ == old(self).table@[j].objects@,
            forall|j: int| 0 <= j < old(self).table@.len() && j != i ==> final(self).table@[j] == old(self).table@[j],
            final(self).statuses() == old(self).statuses(),
            final(self).children() == old(self).children(),
            forall|id: ThreadID| known_in(final(self).table@, id) == known_in(old(self).table@, id),
            final(self).current_thread == old(self).current_thread,
            final(self).threads@ == old(self).threads@,
            final(self).thread_queue@ == old(self).thread_queue@,
            final(self).waiting_threads@ == old(self).waiting_threads@,
    {
        let ghost before = self.table@;
        self.table[i].set_return_value(value);
        proof {
            lemma_replace_thread(before, self.table@, i as int);
            assert(status_map(self.table@) =~= status_map(before));
            assert(children_map(self.table@) =~= children_map(before));
            assert forall|k: int| 0 <= k < self.table@.len() implies all_known(
                self.table@,
                #[trigger] self.table@[k].children@,
            ) by {
                assert(self.table@[k].children@ == before[k].children@);
                assert(all_known(before, before[k].children@));
            }
        }
    }

    /// Takes the thread at the front of the run queue.
    fn pop_queue(&mut self) -> (r: ThreadID)
        requires
            old(self).wf(),
            old(self).thread_queue@.len() > 0,
        ensures
            final(self).wf(),
            r == old(self).thread_queue@[0],
            known_in(final(self).table@, r),
            final(self).thread_queue@ == old(self).thread_queue@.drop_first(),
            final(self).table@ == old(self).table@,
            final(self).current_thread == old(self).current_thread,
            final(self).threads@ == old(self).threads@,
            final(self).waiting_threads@ == old(self).waiting_threads@,
    {
        let r = match self.thread_queue.pop_front() {
            Some(t) => t,
            None => {
                proof {
                    assert(false);
                }
                0
            },
        };
        proof {
            assert(known_in(self.table@, old(self).thread_queue@[0]));
            assert forall|k: int| 0 <= k < self.thread_queue@.len() implies known_in(
                self.table@,
                #[trigger] self.thread_queue@[k],
            ) by {
                assert(self.thread_queue@[k] == old(self).thread_queue@[k + 1]);
            }
        }
        r
    }

    /// Puts a known thread at the back of the run queue.
    fn push_queue(&mut self, id: ThreadID)
        requires
            old(self).wf(),
            known_in(old(self).table@, id),
        ensures
            final(self).wf(),
            final(self).thread_queue@ == old(self).thread_queue@.push(id),
            final(self).table@ == old(self).table@,
            final(self).current_thread == old(self).current_thread,
            final(self).threads@ == old(self).threads@,
            final(self).waiting_threads@ == old(self).waiting_threads@,
    {
        self.thread_queue.push_back(id);
        proof {
            assert forall|k: int| 0 <= k < self.thread_queue@.len() implies known_in(
                self.table@,
                #[trigger] self.thread_queue@[k],
            ) by {
                if k < old(self).thread_queue@.len() {
                    assert(self.thread_queue@[k] == old(self).thread_queue@[k]);
                }
            }
        }
    }

    /// Adds a new thread: it goes to the back of the run queue, joins the
    /// list of threads, and becomes a child of the running thread.
    pub fn add_thread(&mut self, thread: Thread)
        requires
            old(self).wf(),
            !known_in(old(self).table@, thread.id),
            all_known(old(self).table@.push(thread), thread.children@),
        ensures
            final(self).wf(),
            final(self).statuses() == old(self).statuses().insert(thread.id, thread.status),
            final(self).results() == old(self).results().insert(
                thread.id,
                thread.frame.gp_registers@[0],
            ),
            final(self).children() == old(self).children().insert(
                old(self).current_thread,
                old(self).children()[old(self).current_thread].push(thread.id),
            ).insert(thread.id, thread.children@),
            final(self).thread_queue@ == old(self).thread_queue@.push(thread.id),
            final(self).threads@ == old(self).threads@.push(thread.id),
            final(self).current_thread == old(self).current_thread,
            final(self).waiting_threads@ == old(self).waiting_threads@,
            final(self).table@.len() == old(self).table@.len() + 1,
            final(self).table@.last() == thread,
    {
        let id = thread.id;
        let ci = self.find(self.current_thread);
        let ghost t0 = self.table@;
        self.table[ci].children.push(id);
        let ghost t1 = self.table@;
        proof {
            lemma_replace_thread(t0, t1, ci as int);
            assert(status_map(t1) =~= status_map(t0));
            assert(result_map(t1) =~= result_map(t0));
            lemma_index_in(t0, ci as int, self.current_thread);
        }
        self.table.push(thread);
        proof {
            lemma_push_thread(t1, thread);
            lemma_push_thread(t0, thread);
            let t2 = self.table@;
            assert forall|k: int| 0 <= k < t2.len() implies all_known(t2, #[trigger] t2[k].children@) by {
                if k < t1.len() {
                    assert(t2[k] == t1[k]);
                    assert forall|m: int| 0 <= m < t2[k].children@.len() implies known_in(
                        t2,
                        #[trigger] t2[k].children@[m],
                    ) by {
                        if k == ci {
                            if m < t0[k].children@.len() {
                                assert(t2[k].children@[m] == t0[k].children@[m]);
                                assert(all_known(t0, t0[k].children@));
                                assert(known_in(t0, t0[k].children@[m]));
                            } else {
                                assert(t2[k].children@[m] == thread.id);
                            }
                        } else {
                            assert(t1[k] == t0[k]);
                            assert(all_known(t0, t0[k].children@));
                            assert(known_in(t0, t0[k].children@[m]));
                        }
                    }
                } else {
                    assert(t2[k] == thread);
                    assert forall|m: int| 0 <= m < thread.children@.len() implies known_in(
                        t2,
                        #[trigger] thread.children@[m],
                    ) by {
                        let c = thread.children@[m];
                        assert(known_in(t0.push(thread), c));
                        assert(known_in(t0, c) || c == thread.id);
                        if known_in(t0, c) {
                            assert(known_in(t1, c));
                        }
                        assert(known_in(t2, c));
                    }
                }
            }
            assert forall|k: int| 0 <= k < self.threads@.len() implies known_in(t2, #[trigger] self.threads@[k]) by {
                assert(known_in(t0, self.threads@[k]));
            }
            assert forall|k: int| 0 <= k < self.thread_queue@.len() implies known_in(t2, #[trigger] self.thread_queue@[k]) by {
                assert(known_in(t0, self.thread_queue@[k]));
            }
            assert forall|k: int| 0 <= k < self.waiting_threads@.len() implies known_in(t2, #[trigger] self.waiting_threads@[k]) by {
                assert(known_in(t0, self.waiting_threads@[k]));
            }
        }
        self.push_queue(id);
        self.threads.push(id);
        proof {
            assert forall|k: int| 0 <= k < self.threads@.len() implies known_in(self.table@, #[trigger] self.threads@[k]) by {
                if k < old(self).threads@.len() {
                    assert(self.threads@[k] == old(self).threads@[k]);
                }
            }
        }
    }

    /// Records where the running thread's frame was saved.
    pub fn update_current(&mut self, frame_address: u64)
        requires
            old(self).wf(),
        ensures
            final(self).wf(),
            final(self).table@[index_in(final(self).table@, final(self).current_thread)].stack_pointer
                == frame_address,
            final(self).table@.len() == old(self).table@.len(),
            forall|i: int|
                0 <= i < old(self).table@.len() && i != index_in(old(self).table@, old(self).current_thread)
                    ==> final(self).table@[i] == old(self).table@[i],
            final(self).statuses() == old(self).statuses(),
            final(self).results() == old(self).results(),
            final(self).children() == old(self).children(),
            final(self).current_thread == old(self).current_thread,
            final(self).thread_queue@ == old(self).thread_queue@,
            final(self).threads@ == old(self).threads@,
            final(self).waiting_threads@ == old(self).waiting_threads@,
    {
        let ci = self.find(self.current_thread);
        let ghost before = self.table@;
        self.table[ci].set_stack_pointer(frame_address);
        proof {
            lemma_replace_thread(before, self.table@, ci as int);
            lemma_index_in(self.table@, ci as int, self.current_thread);
            assert(status_map(self.table@) =~= status_map(before));
            assert(result_map(self.table@) =~= result_map(before));
            assert(children_map(self.table@) =~= children_map(before));
            assert forall|k: int| 0 <= k < self.table@.len() implies all_known(
                self.table@,
                #[trigger] self.table@[k].children@,
            ) by {
                assert(self.table@[k].children@ == before[k].children@);
                assert(all_known(before, before[k].children@));
            }
        }
    }

    /// Schedules, as `schedule` does, and gives the thread that now runs.
    pub fn choose_thread(&mut self) -> (r: ThreadID)
        requires
            old(self).wf(),
        ensures
            final(self).wf(),
            r == final(self).current_thread,
            ({
                let q = old(self).thread_queue@.push(old(self).current_thread);
                &&& final(self).current_thread == q[0]
                &&& final(self).thread_queue@ == q.drop_first()
                &&& final(self).statuses() == old(self).statuses().insert(
                    old(self).current_thread,
                    ThreadStatus::Ready,
                ).insert(q[0], ThreadStatus::Running)
            }),
            final(self).results() == old(self).results(),
            final(self).children() == old(self).children(),
            final(self).threads@ == old(self).threads@,
            final(self).waiting_threads@ == old(self).waiting_threads@,
    {
        self.schedule();
        self.current_thread
    }

    /// Puts the running thread at the back of the run queue and runs the
    /// thread at the front; no status changes.
    pub fn yield_current_thread(&mut self)
        requires
            old(self).wf(),
        ensures
            final(self).wf(),
            ({
                let q = old(self).thread_queue@.push(old(self).current_thread);
                &&& final(self).current_thread == q[0]
                &&& final(self).thread_queue@ == q.drop_first()
            }),
            final(self).statuses() == old(self).statuses(),
            final(self).results() == old(self).results(),
            final(self).children() == old(self).children(),
            final(self).threads@ == old(self).threads@,
            final(self).waiting_threads@ == old(self).waiting_threads@,
    {
        let yielding = self.current_thread;
        self.push_queue(yielding);
        let next = self.pop_queue();
        self.current_thread = next;
    }

    /// Puts the running thread to sleep until the clock reaches `delay` and
    /// runs the thread at the front of the run queue, which must not be empty.
    pub fn delay_current_thread(&mut self, delay: u64)
        requires
            old(self).wf(),
            old(self).thread_queue@.len() > 0,
        ensures
            final(self).wf(),
            final(self).current_thread == old(self).thread_queue@[0],
            final(self).thread_queue@ == old(self).thread_queue@.drop_first(),
            final(self).waiting_threads@ == old(self).waiting_threads@.push(old(self).current_thread),
            final(self).statuses() == old(self).statuses().insert(
                old(self).current_thread,
                ThreadStatus::Sleeping(delay),
            ).insert(old(self).thread_queue@[0], ThreadStatus::Running),
            final(self).results() == old(self).results(),
            final(self).children() == old(self).children(),
            final(self).threads@ == old(self).threads@,
    {
        let sleeper = self.current_thread;
        let ci = self.find(sleeper);
        self.set_status(ci, ThreadStatus::Sleeping(delay));
        self.waiting_threads.push(sleeper);
        proof {
            assert forall|k: int| 0 <= k < self.waiting_threads@.len() implies known_in(self.table@, #[trigger] self.waiting_threads@[k]) by {
                if k < old(self).waiting_threads@.len() {
                    assert(self.waiting_threads@[k] == old(self).waiting_threads@[k]);
                }
            }
        }
        let next = self.pop_queue();
        let ni = self.find(next);
        self.set_status(ni, ThreadStatus::Running);
        self.current_thread = next;
    }
}


impl Scheduler {
    /// Wakes every sleeping thread whose wake time is at most `current_time`:
    /// in the order they fell asleep, each becomes ready and joins the back
    /// of the run queue; the others keep sleeping in their order. Every
    /// waiting thread must be asleep, and listed once.
    pub fn wake_sleeping(&mut self, current_time: u64)
        requires
            old(self).wf(),
            old(self).waiting_threads@.no_duplicates(),
            forall|k: int|
                0 <= k < old(self).waiting_threads@.len() ==> old(self).statuses()[#[trigger] old(
                    self,
                ).waiting_threads@[k]] is Sleeping,
        ensures
            final(self).wf(),
            ({
                let st = old(self).statuses();
                let due = due_threads(st, old(self).waiting_threads@, current_time);
                &&& final(self).waiting_threads@ == still_sleeping(
                    st,
                    old(self).waiting_threads@,
                    current_time,
                )
                &&& final(self).thread_queue@ == old(self).thread_queue@ + due
                &&& final(self).statuses() == st.union_prefer_right(
                    Map::new(|id: ThreadID| due.contains(id), |id: ThreadID| ThreadStatus::Ready),
                )
            }),
            final(self).results() == old(self).results(),
            final(self).children() == old(self).children(),
            final(self).current_thread == old(self).current_thread,
            final(self).threads@ == old(self).threads@,
    {
        let ghost st = self.statuses();
        let ghost waiting = self.waiting_threads@;
        let mut kept: Vec<ThreadID> = Vec::new();
        let mut k: usize = 0;
        proof {
            assert(waiting.subrange(0, 0) =~= Seq::<ThreadID>::empty());
            assert(self.thread_queue@ =~= old(self).thread_queue@ + due_threads(st, waiting.subrange(0, 0), current_time));
            assert(self.statuses() =~= st.union_prefer_right(
                Map::new(|id: ThreadID| due_threads(st, waiting.subrange(0, 0), current_time).contains(id), |id: ThreadID| ThreadStatus::Ready),
            ));
        }
        while k < self.waiting_threads.len()
            invariant
                self.wf(),
                self.waiting_threads@ == waiting,
                waiting.no_duplicates(),
                k <= waiting.len(),
                forall|j: int| 0 <= j < waiting.len() ==> st[#[trigger] waiting[j]] is Sleeping,
                forall|j: int| 0 <= j < waiting.len() ==> st.dom().contains(#[trigger] waiting[j]),
                kept@ == still_sleeping(st, waiting.subrange(0, k as int), current_time),
                self.thread_queue@ == old(self).thread_queue@ + due_threads(
                    st,
                    waiting.subrange(0, k as int),
                    current_time,
                ),
                self.statuses() == st.union_prefer_right(
                    Map::new(
                        |id: ThreadID| due_threads(st, waiting.subrange(0, k as int), current_time).contains(id),
                        |id: ThreadID| ThreadStatus::Ready,
                    ),
                ),
                self.results() == old(self).results(),
                self.children() == old(self).children(),
                self.current_thread == old(self).current_thread,
                self.threads@ == old(self).threads@,
                forall|id: ThreadID| known_in(self.table@, id) == st.dom().contains(id),
            decreases waiting.len() - k,
        {
            let id = self.waiting_threads[k];
            let ghost prefix = waiting.subrange(0, k as int);
            let ghost next = waiting.subrange(0, k + 1);
            proof {
                assert(next.drop_last() =~= prefix);
                assert(next.last() == id);
                lemma_due_in(st, prefix, current_time);
                if due_threads(st, prefix, current_time).contains(id) {
                    assert(prefix.contains(id));
                    let j = choose|j: int| 0 <= j < prefix.len() && prefix[j] == id;
                    assert(waiting[j] == waiting[k as int]);
                }
                assert(self.statuses()[id] == st[id]);
            }
            let ti = self.find(id);
            let status = self.table[ti].status;
            proof {
                lemma_index_in(self.table@, ti as int, id);
                assert(status == st[id]);
            }
            match status {
                ThreadStatus::Sleeping(wake_time) => {
                    if wake_time <= current_time {
                        self.set_status(ti, ThreadStatus::Ready);
                        self.push_queue(id);
                        proof {
                            let dn = due_threads(st, next, current_time);
                            let dp = due_threads(st, prefix, current_time);
                            assert(dn == dp.push(id));
                            assert forall|x: ThreadID| dn.contains(x) == (dp.contains(x) || x == id) by {
                                if dn.contains(x) {
                                    let j = choose|j: int| 0 <= j < dn.len() && dn[j] == x;
                                    if j < dp.len() {
                                        assert(dp[j] == x);
                                    }
                                }
                                if dp.contains(x) {
                                    let j = choose|j: int| 0 <= j < dp.len() && dp[j] == x;
                                    assert(dn[j] == x);
                                }
                                if x == id {
                                    assert(dn[dp.len() as int] == x);
                                }
                            }
                            assert(self.thread_queue@ =~= old(self).thread_queue@ + due_threads(st, next, current_time));
                            assert(self.statuses() =~= st.union_prefer_right(
                                Map::new(
                                    |x: ThreadID| due_threads(st, next, current_time).contains(x),
                                    |x: ThreadID| ThreadStatus::Ready,
                                ),
                            ));
                        }
                    } else {
                        kept.push(id);
                        proof {
                            assert(due_threads(st, next, current_time) == due_threads(st, prefix, current_time));
                        }
                    }
                },
                _ => {
                    proof {
                        assert(false);
                    }
                },
            }
            k = k + 1;
        }
        proof {
            assert(waiting.subrange(0, k as int) =~= waiting);
        }
        self.waiting_threads = kept;
        proof {
            assert forall|j: int| 0 <= j < self.waiting_threads@.len() implies known_in(
                self.table@,
                #[trigger] self.waiting_threads@[j],
            ) by {
                lemma_still_sleeping_in(st, waiting, current_time);
                assert(waiting.contains(self.waiting_threads@[j]));
                let m = choose|m: int| 0 <= m < waiting.len() && waiting[m] == self.waiting_threads@[j];
                assert(st.dom().contains(waiting[m]));
            }
        }
    }
}

/// Threads left asleep come from `ids`.
proof fn lemma_still_sleeping_in(st: Map<ThreadID, ThreadStatus>, ids: Seq<ThreadID>, now: u64)
    ensures
        forall|x: ThreadID| still_sleeping(st, ids, now).contains(x) ==> ids.contains(x),
    decreases ids.len(),
{
    if ids.len() > 0 {
        lemma_still_sleeping_in(st, ids.drop_last(), now);
        assert forall|x: ThreadID| still_sleeping(st, ids, now).contains(x) implies ids.contains(x) by {
            if still_sleeping(st, ids.drop_last(), now).contains(x) {
                assert(ids.drop_last().contains(x));
                let k = choose|k: int| 0 <= k < ids.drop_last().len() && ids.drop_last()[k] == x;
                assert(ids[k] == x);
            } else {
                assert(ids[ids.len() - 1] == x);
            }
        }
    }
}


impl Scheduler {
    /// Forgets child `k` of the thread at `ci`.
    fn remove_child(&mut self, ci: usize, k: usize)
        requires
            old(self).wf(),
            ci < old(self).table@.len(),
            k < old(self).table@[ci as int].children@.len(),
        ensures
            final(self).wf(),
            final(self).children() == old(self).children().insert(
                old(self).table@[ci as int].id,
                old(self).table@[ci as int].children@.remove(k as int),
            ),
            final(self).statuses() == old(self).statuses(),
            final(self).results() == old(self).results(),
            final(self).table@.len() == old(self).table@.len(),
            forall|j: int|
                0 <= j < old(self).table@.len() ==> #[trigger] final(self).table@[j].id == old(
                    self,
                ).table@[j].id,
            final(self).current_thread == old(self).current_thread,
            final(self).threads@ == old(self).threads@,
            final(self).thread_queue@ == old(self).thread_queue@,
            final(self).waiting_threads@ == old(self).waiting_threads@,
    {
        let ghost before = self.table@;
        self.table[ci].children.remove(k);
        proof {
            lemma_replace_thread(before, self.table@, ci as int);
            assert(status_map(self.table@) =~= status_map(before));
            assert(result_map(self.table@) =~= result_map(before));
            assert forall|i: int| 0 <= i < self.table@.len() implies all_known(
                self.table@,
                #[trigger] self.table@[i].children@,
            ) by {
                assert(all_known(before, before[i].children@));
                if i == ci {
                    assert forall|m: int| 0 <= m < self.table@[i].children@.len() implies known_in(
                        self.table@,
                        #[trigger] self.table@[i].children@[m],
                    ) by {
                        if m < k {
                            assert(self.table@[i].children@[m] == before[i].children@[m]);
                        } else {
                            assert(self.table@[i].children@[m] == before[i].children@[m + 1]);
                        }
                    }
                } else {
                    assert(self.table@[i] == before[i]);
                }
            }
        }
    }

    /// Makes the running thread wait for its child `thread_id`. A child
    /// that has exited is forgotten and its exit code becomes the running
    /// thread's result at once; otherwise the running thread starts joining
    /// and the thread at the front of the run queue runs.
    #[verifier::rlimit(40)]
    #[verifier::spinoff_prover]
    pub fn join_current_thread(&mut self, thread_id: ThreadID)
        requires
            old(self).wf(),
            old(self).children()[old(self).current_thread].contains(thread_id),
            old(self).statuses()[thread_id] is Exited || old(self).thread_queue@.len() > 0,
        ensures
            final(self).wf(),
            ({
                let cur = old(self).current_thread;
                let mine = old(self).children()[cur];
                match old(self).statuses()[thread_id] {
                    ThreadStatus::Exited(code) => {
                        &&& final(self).children() == old(self).children().insert(
                            cur,
                            mine.remove(first_index(mine, thread_id)),
                        )
                        &&& final(self).results() == old(self).results().insert(cur, code)
                        &&& final(self).statuses() == old(self).statuses()
                        &&& final(self).current_thread == cur
                        &&& final(self).thread_queue@ == old(self).thread_queue@
                    },
                    _ => {
                        &&& final(self).statuses() == old(self).statuses().insert(
                            cur,
                            ThreadStatus::Joining(thread_id),
                        )
                        &&& final(self).current_thread == old(self).thread_queue@[0]
                        &&& final(self).thread_queue@ == old(self).thread_queue@.drop_first()
                        &&& final(self).children() == old(self).children()
                        &&& final(self).results() == old(self).results()
                    },
                }
            }),
            final(self).threads@ == old(self).threads@,
            final(self).waiting_threads@ == old(self).waiting_threads@,
    {
        let cur = self.current_thread;
        let ci = self.find(cur);
        proof {
            lemma_index_in(self.table@, ci as int, cur);
            assert(self.table@[ci as int].children@.contains(thread_id));
            assert(all_known(self.table@, self.table@[ci as int].children@));
            let m = choose|m: int| 0 <= m < self.table@[ci as int].children@.len() && self.table@[ci as int].children@[m] == thread_id;
            assert(known_in(self.table@, self.table@[ci as int].children@[m]));
        }
        let k = position(&self.table[ci].children, thread_id);
        let cj = self.find(thread_id);
        let child_status = self.table[cj].status;
        proof {
            lemma_index_in(self.table@, cj as int, thread_id);
            assert(old(self).children()[cur] == self.table@[ci as int].children@);
            assert(old(self).statuses()[thread_id] == child_status);
        }
        match child_status {
            ThreadStatus::Exited(exit_code) => {
                self.remove_child(ci, k);
                assert(self.table@[ci as int].id == cur);
                self.set_result(ci, exit_code);
            },
            _ => {
                self.set_status(ci, ThreadStatus::Joining(thread_id));
                let next = self.pop_queue();
                self.current_thread = next;
            },
        }
    }

    /// Ends the running thread with exit code `code`: it is marked exited and
    /// leaves the list of threads; every listed thread joining it gets the
    /// code as its result and joins the back of the run queue; then the
    /// thread at the front of the run queue runs, with its status untouched.
    #[verifier::rlimit(40)]
    #[verifier::spinoff_prover]
    pub fn exit_current_thread(&mut self, code: u64)
        requires
            old(self).wf(),
            old(self).threads@.contains(old(self).current_thread),
            ({
                let cur = old(self).current_thread;
                let st = old(self).statuses().insert(cur, ThreadStatus::Exited(code));
                let rest = old(self).threads@.remove(first_index(old(self).threads@, cur));
                old(self).thread_queue@.len() + joiners(st, rest, cur).len() > 0
            }),
        ensures
            final(self).wf(),
            ({
                let cur = old(self).current_thread;
                let st = old(self).statuses().insert(cur, ThreadStatus::Exited(code));
                let rest = old(self).threads@.remove(first_index(old(self).threads@, cur));
                let j = joiners(st, rest, cur);
                let q = old(self).thread_queue@ + j;
                &&& final(self).threads@ == rest
                &&& final(self).statuses() == st
                &&& final(self).results() == old(self).results().union_prefer_right(
                    Map::new(|id: ThreadID| j.contains(id), |id: ThreadID| code),
                )
                &&& final(self).current_thread == q[0]
                &&& final(self).thread_queue@ == q.drop_first()
            }),
            final(self).children() == old(self).children(),
            final(self).waiting_threads@ == old(self).waiting_threads@,
    {
        let dying = self.current_thread;
        let ci = self.find(dying);
        self.set_status(ci, ThreadStatus::Exited(code));
        let ghost st = self.statuses();
        let p = position(&self.threads, dying);
        self.threads.remove(p);
        let ghost rest = self.threads@;
        proof {
            assert forall|k: int| 0 <= k < self.threads@.len() implies known_in(self.table@, #[trigger] self.threads@[k]) by {
                if k < p {
                    assert(self.threads@[k] == old(self).threads@[k]);
                } else {
                    assert(self.threads@[k] == old(self).threads@[k + 1]);
                }
            }
        }
        let ghost results0 = self.results();
        let mut k: usize = 0;
        proof {
            assert(rest.subrange(0, 0) =~= Seq::<ThreadID>::empty());
            assert(self.thread_queue@ =~= old(self).thread_queue@ + joiners(st, rest.subrange(0, 0), dying));
            assert(self.results() =~= results0.union_prefer_right(
                Map::new(|id: ThreadID| joiners(st, rest.subrange(0, 0), dying).contains(id), |id: ThreadID| code),
            ));
        }
        while k < self.threads.len()
            invariant
                self.wf(),
                self.threads@ == rest,
                k <= rest.len(),
                self.statuses() == st,
                self.current_thread == dying,
                self.thread_queue@ == old(self).thread_queue@ + joiners(st, rest.subrange(0, k as int), dying),
                self.results() == results0.union_prefer_right(
                    Map::new(
                        |id: ThreadID| joiners(st, rest.subrange(0, k as int), dying).contains(id),
                        |id: ThreadID| code,
                    ),
                ),
                self.children() == old(self).children(),
                self.waiting_threads@ == old(self).waiting_threads@,
            decreases rest.len() - k,
        {
            let id = self.threads[k];
            let ghost prefix = rest.subrange(0, k as int);
            let ghost next = rest.subrange(0, k + 1);
            proof {
                assert(next.drop_last() =~= prefix);
                assert(next.last() == id);
                assert(known_in(self.table@, self.threads@[k as int]));
            }
            let ti = self.find(id);
            proof {
                lemma_index_in(self.table@, ti as int, id);
            }
            if self.table[ti].status == ThreadStatus::Joining(dying) {
                self.set_result(ti, code);
                self.push_queue(id);
                proof {
                    let jn = joiners(st, next, dying);
                    let jp = joiners(st, prefix, dying);
                    assert(st[id] == ThreadStatus::Joining(dying));
                    assert(jn == jp.push(id));
                    assert forall|x: ThreadID| jn.contains(x) == (jp.contains(x) || x == id) by {
                        if jn.contains(x) {
                            let j = choose|j: int| 0 <= j < jn.len() && jn[j] == x;
                            if j < jp.len() {
                                assert(jp[j] == x);
                            }
                        }
                        if jp.contains(x) {
                            let j = choose|j: int| 0 <= j < jp.len() && jp[j] == x;
                            assert(jn[j] == x);
                        }
                        if x == id {
                            assert(jn[jp.len() as int] == x);
                        }
                    }
                    assert(self.thread_queue@ =~= old(self).thread_queue@ + jn);
                    assert(self.results() =~= results0.union_prefer_right(
                        Map::new(|x: ThreadID| jn.contains(x), |x: ThreadID| code),
                    ));
                }
            } else {
                proof {
                    assert(st[id] != ThreadStatus::Joining(dying));
                    assert(joiners(st, next, dying) == joiners(st, prefix, dying));
                }
            }
            k = k + 1;
        }
        proof {
            assert(rest.subrange(0, k as int) =~= rest);
        }
        let next = self.pop_queue();
        self.current_thread = next;
    }
}

/// There is a thread of `ids` waiting for `dying` exactly when `joiners`
/// finds one.
proof fn lemma_joiners_nonempty(st: Map<ThreadID, ThreadStatus>, ids: Seq<ThreadID>, dying: ThreadID)
    ensures
        joiners(st, ids, dying).len() > 0 <==> exists|k: int|
            0 <= k < ids.len() && st[#[trigger] ids[k]] == ThreadStatus::Joining(dying),
    decreases ids.len(),
{
    if ids.len() > 0 {
        lemma_joiners_nonempty(st, ids.drop_last(), dying);
        if exists|k: int| 0 <= k < ids.len() && st[#[trigger] ids[k]] == ThreadStatus::Joining(dying) {
            let k = choose|k: int| 0 <= k < ids.len() && st[#[trigger] ids[k]] == ThreadStatus::Joining(dying);
            if k < ids.len() - 1 {
                assert(ids.drop_last()[k] == ids[k]);
            }
        }
        if exists|k: int|
            0 <= k < ids.drop_last().len() && st[#[trigger] ids.drop_last()[k]] == ThreadStatus::Joining(dying) {
            let k = choose|k: int|
                0 <= k < ids.drop_last().len() && st[#[trigger] ids.drop_last()[k]] == ThreadStatus::Joining(dying);
            assert(ids[k] == ids.drop_last()[k]);
        }
    }
}

/// Once the thread `cur` at position `p` of `threads` exits, some other listed
/// thread waits for it exactly when one of `threads` other than `cur` is
/// joining it.
proof fn lemma_exit_joiners(
    statuses: Map<ThreadID, ThreadStatus>,
    threads: Seq<ThreadID>,
    cur: ThreadID,
    code: u64,
    p: int,
    n: int,
)
    requires
        0 <= p < threads.len(),
        threads[p] == cur,
        n == threads.len(),
    ensures
        joiners(statuses.insert(cur, ThreadStatus::Exited(code)), threads.remove(p), cur).len() > 0
            <==> exists|k: int|
            0 <= k < n && threads[k] != cur && statuses[#[trigger] threads[k]]
                == ThreadStatus::Joining(cur),
{
    let st = statuses.insert(cur, ThreadStatus::Exited(code));
    let rest = threads.remove(p);
    lemma_joiners_nonempty(st, rest, cur);
    if exists|k: int|
        0 <= k < n && threads[k] != cur && statuses[#[trigger] threads[k]] == ThreadStatus::Joining(cur) {
        let k = choose|k: int|
            0 <= k < n && threads[k] != cur && statuses[#[trigger] threads[k]] == ThreadStatus::Joining(cur);
        let j = if k < p { k } else { k - 1 };
        assert(rest[j] == threads[k]);
        assert(st[rest[j]] == ThreadStatus::Joining(cur));
    }
    if exists|j: int| 0 <= j < rest.len() && st[#[trigger] rest[j]] == ThreadStatus::Joining(cur) {
        let j = choose|j: int| 0 <= j < rest.len() && st[#[trigger] rest[j]] == ThreadStatus::Joining(cur);
        let k = if j < p { j } else { j + 1 };
        assert(threads[k] == rest[j]);
        assert(rest[j] != cur);
        assert(statuses[threads[k]] == ThreadStatus::Joining(cur));
    }
}

impl Scheduler {
    /// The objects the running thread holds.
    pub open spec fn current_objects(&self) -> Seq<(ObjectHandle, KernelObject)> {
        self.table@[index_in(self.table@, self.current_thread)].objects@
    }

    /// Makes `value` the running thread's result.
    pub fn set_current_return_value(&mut self, value: u64)
        requires
            old(self).wf(),
        ensures
            final(self).wf(),
            final(self).results() == old(self).results().insert(old(self).current_thread, value),
            final(self).statuses() == old(self).statuses(),
            final(self).children() == old(self).children(),
            final(self).current_objects() == old(self).current_objects(),
            final(self).current_thread == old(self).current_thread,
            final(self).threads@ == old(self).threads@,
            final(self).thread_queue@ == old(self).thread_queue@,
            final(self).waiting_threads@ == old(self).waiting_threads@,
            forall|id: ThreadID| known_in(final(self).table@, id) == known_in(old(self).table@, id),
            final(self).table@.len() == old(self).table@.len(),
            forall|j: int|
                0 <= j < old(self).table@.len() && j != index_in(old(self).table@, old(self).current_thread)
                    ==> final(self).table@[j] == old(self).table@[j],
    {
        let ci = self.find(self.current_thread);
        let ghost before = self.table@;
        self.set_result(ci, value);
        proof {
            lemma_index_in(before, ci as int, self.current_thread);
            lemma_index_in(self.table@, ci as int, self.current_thread);
        }
    }

    /// Replaces the objects of the running thread (at `ci`) by `objects`.
    fn set_current_objects(&mut self, ci: usize, objects: Vec<(ObjectHandle, KernelObject)>)
        requires
            old(self).wf(),
            ci == index_in(old(self).table@, old(self).current_thread),
        ensures
            final(self).wf(),
            final(self).current_objects() == objects@,
            final(self).results() == old(self).results(),
            final(self).statuses() == old(self).statuses(),
            final(self).children() == old(self).children(),
            final(self).current_thread == old(self).current_thread,
            final(self).threads@ == old(self).threads@,
            final(self).thread_queue@ == old(self).thread_queue@,
            final(self).waiting_threads@ == old(self).waiting_threads@,
            forall|id: ThreadID| known_in(final(self).table@, id) == known_in(old(self).table@, id),
    {
        proof {
            let k = index_in(self.table@, self.current_thread);
            assert(self.table@[k].id == self.current_thread);
        }
        let ghost before = self.table@;
        self.table[ci].objects = objects;
        proof {
            lemma_replace_thread(before, self.table@, ci as int);
            assert(status_map(self.table@) =~= status_map(before));
            assert(result_map(self.table@) =~= result_map(before));
            assert(children_map(self.table@) =~= children_map(before));
            assert forall|k: int| 0 <= k < self.table@.len() implies all_known(
                self.table@,
                #[trigger] self.table@[k].children@,
            ) by {
                assert(self.table@[k].children@ == before[k].children@);
                assert(all_known(before, before[k].children@));
            }
        }
    }

    /// Gives the running thread `object` under the handle `id`.
    pub fn add_current_object(&mut self, object: KernelObject, id: ObjectHandle)
        requires
            old(self).wf(),
        ensures
            final(self).wf(),
            final(self).current_objects() == old(self).current_objects().push((id, object)),
            final(self).results() == old(self).results(),
            final(self).statuses() == old(self).statuses(),
            final(self).children() == old(self).children(),
            final(self).current_thread == old(self).current_thread,
            final(self).threads@ == old(self).threads@,
            final(self).thread_queue@ == old(self).thread_queue@,
            final(self).waiting_threads@ == old(self).waiting_threads@,
            forall|id: ThreadID| known_in(final(self).table@, id) == known_in(old(self).table@, id),
    {
        let ci = self.find(self.current_thread);
        let mut objects = copy_objects(&self.table[ci].objects);
        objects.push((id, object));
        self.set_current_objects(ci, objects);
    }

    /// Drops every object the running thread holds under `handle`.
    pub fn remove_current_object(&mut self, handle: ObjectHandle)
        requires
            old(self).wf(),
        ensures
            final(self).wf(),
            final(self).current_objects() == without_handle(old(self).current_objects(), handle),
            final(self).results() == old(self).results(),
            final(self).statuses() == old(self).statuses(),
            final(self).children() == old(self).children(),
            final(self).current_thread == old(self).current_thread,
            final(self).threads@ == old(self).threads@,
            final(self).thread_queue@ == old(self).thread_queue@,
            final(self).waiting_threads@ == old(self).waiting_threads@,
            forall|id: ThreadID| known_in(final(self).table@, id) == known_in(old(self).table@, id),
    {
        let ci = self.find(self.current_thread);
        let objects = objects_without(&self.table[ci].objects, handle);
        self.set_current_objects(ci, objects);
    }

    /// The running thread's user translation table.
    pub fn current_user_table(&self) -> (r: PageTable)
        requires
            self.wf(),
        ensures
            r == self.table@[index_in(self.table@, self.current_thread)].user_table,
    {
        let i = self.find(self.current_thread);
        self.table[i].user_table
    }

    /// The first object the running thread holds under `handle`, if any.
    pub fn current_object(&self, handle: ObjectHandle) -> (r: Option<KernelObject>)
        requires
            self.wf(),
        ensures
            r == first_with_handle(self.current_objects(), handle),
    {
        let ci = self.find(self.current_thread);
        self.table[ci].get_object(handle)
    }
}

impl Scheduler {
    /// The status of the thread numbered `id`, which the scheduler knows.
    fn status_of(&self, id: ThreadID) -> (r: ThreadStatus)
        requires
            self.wf(),
            known_in(self.table@, id),
        ensures
            r == self.statuses()[id],
    {
        let i = self.find(id);
        self.table[i].status
    }

    /// Whether `join_current_thread(thread_id)` can go ahead: the thread is a
    /// child of the running thread, and it has exited or another thread is
    /// ready to run.
    pub fn can_join(&self, thread_id: ThreadID) -> (r: bool)
        requires
            self.wf(),
        ensures
            r == (self.children()[self.current_thread].contains(thread_id) && (
            self.statuses()[thread_id] is Exited || self.thread_queue@.len() > 0)),
    {
        let ci = self.find(self.current_thread);
        proof {
            lemma_index_in(self.table@, ci as int, self.current_thread);
        }
        let mut i: usize = 0;
        let mut found = false;
        while i < self.table[ci].children.len()
            invariant
                self.wf(),
                ci == index_in(self.table@, self.current_thread),
                ci < self.table@.len(),
                i <= self.table@[ci as int].children@.len(),
                found == exists|k: int| 0 <= k < i && self.table@[ci as int].children@[k] == thread_id,
            decreases self.table@[ci as int].children@.len() - i,
        {
            if self.table[ci].children[i] == thread_id {
                found = true;
            }
            i = i + 1;
        }
        proof {
            assert(self.children()[self.current_thread] == self.table@[ci as int].children@);
        }
        if !found {
            return false;
        }
        proof {
            let k = choose|k: int| 0 <= k < i && self.table@[ci as int].children@[k] == thread_id;
            assert(all_known(self.table@, self.table@[ci as int].children@));
            assert(known_in(self.table@, self.table@[ci as int].children@[k]));
        }
        let status = self.status_of(thread_id);
        match status {
            ThreadStatus::Exited(_) => true,
            _ => self.thread_queue.len() > 0,
        }
    }

    /// Whether `exit_current_thread(code)` can go ahead: the running thread
    /// is listed, and another thread is ready to run or waits for it.
    pub fn can_exit(&self, code: u64) -> (r: bool)
        requires
            self.wf(),
        ensures
            r == ({
                let cur = self.current_thread;
                let st = self.statuses().insert(cur, ThreadStatus::Exited(code));
                let rest = self.threads@.remove(first_index(self.threads@, cur));
                self.threads@.contains(cur) && self.thread_queue@.len() + joiners(st, rest, cur).len() > 0
            }),
    {
        let cur = self.current_thread;
        let mut listed = false;
        let mut waiting = false;
        let mut i: usize = 0;
        while i < self.threads.len()
            invariant
                self.wf(),
                cur == self.current_thread,
                i <= self.threads@.len(),
                listed == exists|k: int| 0 <= k < i && self.threads@[k] == cur,
                waiting == exists|k: int|
                    0 <= k < i && self.threads@[k] != cur && self.statuses()[#[trigger] self.threads@[k]]
                        == ThreadStatus::Joining(cur),
            decreases self.threads@.len() - i,
        {
            let id = self.threads[i];
            if id == cur {
                listed = true;
            } else {
                proof {
                    assert(known_in(self.table@, self.threads@[i as int]));
                }
                let status = self.status_of(id);
                if status == ThreadStatus::Joining(cur) {
                    waiting = true;
                }
            }
            i = i + 1;
        }
        if !listed {
            return false;
        }
        assert(self.threads@.contains(cur)) by {
            let k = choose|k: int| 0 <= k < i && self.threads@[k] == cur;
            assert(self.threads@[k] == cur);
        }
        let position_of_current = position(&self.threads, cur);
        proof {
            lemma_exit_joiners(self.statuses(), self.threads@, cur, code, position_of_current as int, i as int);
        }
        self.thread_queue.len() > 0 || waiting
    }

    /// Whether `wake_sleeping` can go ahead: no thread waits twice, and every
    /// waiting thread is asleep.
    pub fn sleepers_consistent(&self) -> (r: bool)
        requires
            self.wf(),
        ensures
            r == (self.waiting_threads@.no_duplicates() && forall|k: int|
                0 <= k < self.waiting_threads@.len() ==> self.statuses()[#[trigger] self.waiting_threads@[k]] is Sleeping),
    {
        let n = self.waiting_threads.len();
        let mut i: usize = 0;
        while i < n
            invariant
                self.wf(),
                n == self.waiting_threads@.len(),
                i <= n,
                forall|k: int| 0 <= k < i ==> self.statuses()[#[trigger] self.waiting_threads@[k]] is Sleeping,
                forall|a: int, b: int|
                    0 <= a < i && 0 <= b < n && a != b ==> self.waiting_threads@[a] != self.waiting_threads@[b],
            decreases n - i,
        {
            let id = self.waiting_threads[i];
            proof {
                assert(known_in(self.table@, self.waiting_threads@[i as int]));
            }
            let status = self.status_of(id);
            match status {
                ThreadStatus::Sleeping(_) => {},
                _ => {
                    return false;
                },
            }
            let mut j: usize = 0;
            while j < n
                invariant
                    n == self.waiting_threads@.len(),
                    i < n,
                    id == self.waiting_threads@[i as int],
                    j <= n,
                    forall|b: int| 0 <= b < j && b != i ==> self.waiting_threads@[b] != id,
                decreases n - j,
            {
                if j != i && self.waiting_threads[j] == id {
                    return false;
                }
                j = j + 1;
            }
            i = i + 1;
        }
        true
    }
}

} // verus!
