//! The kernel: system calls, thread creation and the clock tick, over the
//! scheduler, the translation tables and the page and number allocators.
use vstd::prelude::*;
use crate::bitfield::field64;
use crate::exception::{InterruptFrame, SyscallArgs, SPSR_EL1H};
use crate::page_table::{
    is_mapped, page_descriptor, lemma_walk_extends, leaf_entry, page_descriptor_for, PageTable, TableMemory, MAX_TABLES,
    PAGE_SIZE,
};
use crate::fat32::DirectoryEntry;
use crate::elf::{load_plan, load_plan_of, pages_view};
use crate::kernel_object::{FileObject, KernelObject, ObjectHandle, Stdio};
use crate::scheduler::{
    due_threads, first_index, index_in, joiners, known_in, lemma_index_in, still_sleeping,
    Scheduler,
};
use crate::thread::{first_with_handle, without_handle, Thread, ThreadID, ThreadStatus};

verus! {

/// Microseconds between two clock ticks.
pub const TICK: u32 = 1_000;

/// Virtual address at which every thread finds its stack page.
pub const TOP_PAGE: u64 = 0xFFFF_FFFF_FFFF_F000;

/// Bytes a saved register frame takes on a stack.
pub const FRAME_SIZE: u64 = 800;

/// Translation tables a new thread may need: a top-level table and three
/// more to map its stack, and the top level of its user table.
pub const TABLES_PER_THREAD: usize = 5;

/// Physical memory ends below 2^48.
pub const PHYSICAL_LIMIT: u64 = 0x1_0000_0000_0000;

/// Hands out numbers counting up, from 1.
#[derive(Copy, Clone, Debug)]
pub struct IDAllocator {
    pub next: u64,
}

impl IDAllocator {
    /// An allocator whose first number is 1.
    pub fn new() -> (r: Self)
        ensures
            r.next == 1,
    {
        IDAllocator { next: 1 }
    }

    /// The next number, while there is one.
    pub fn allocate_id(&mut self) -> (r: Option<u64>)
        ensures
            old(self).next < u64::MAX ==> r == Some(old(self).next) && final(self).next == old(
                self,
            ).next + 1,
            old(self).next == u64::MAX ==> r is None && final(self).next == old(self).next,
    {
        if self.next == u64::MAX {
            None
        } else {
            let id = self.next;
            self.next = self.next + 1;
            Some(id)
        }
    }
}

/// Hands out the pages of a range of physical memory, lowest first.
#[derive(Copy, Clone, Debug)]
pub struct PageAllocator {
    /// The next free page.
    pub next: u64,
    /// Where the range ends.
    pub end: u64,
}

impl PageAllocator {
    /// The next page is page aligned, and the range ends below 2^48.
    pub open spec fn wf(&self) -> bool {
        &&& self.next % PAGE_SIZE == 0
        &&& self.end <= PHYSICAL_LIMIT
    }

    /// A whole free page is left.
    pub open spec fn has_free_page(&self) -> bool {
        self.next as int + PAGE_SIZE <= self.end
    }

    /// The pages from `start` (page aligned) up to `end`.
    pub fn new(start: u64, end: u64) -> (r: Self)
        requires
            start % PAGE_SIZE == 0,
            end <= PHYSICAL_LIMIT,
        ensures
            r.wf(),
            r.next == start,
            r.end == end,
    {
        PageAllocator { next: start, end }
    }

    /// Whether a whole page is left.
    pub fn is_page_free(&self) -> (r: bool)
        ensures
            r == self.has_free_page(),
    {
        self.end >= PAGE_SIZE && self.next <= self.end - PAGE_SIZE
    }

    /// The next free page, if a whole one is left.
    pub fn allocate_page(&mut self) -> (r: Option<u64>)
        requires
            old(self).wf(),
        ensures
            final(self).wf(),
            final(self).end == old(self).end,
            old(self).has_free_page() ==> r == Some(old(self).next) && final(self).next == old(
                self,
            ).next + PAGE_SIZE,
            !old(self).has_free_page() ==> r is None && final(self).next == old(self).next,
    {
        if self.is_page_free() {
            let page = self.next;
            self.next = self.next + PAGE_SIZE;
            Some(page)
        } else {
            None
        }
    }
}

/// Why the kernel refused a request.
#[derive(Copy, Clone, Debug, PartialEq, Eq, Structural)]
pub enum KernelError {
    /// No page, or no room for translation tables, is left.
    OutOfMemory,
    /// Thread numbers have run out.
    OutOfThreadIds,
    /// The number names no system call.
    InvalidSyscall,
    /// Nothing else could run on the processor.
    NothingToRun,
    /// The thread to join is not a child of the running thread, or nothing
    /// could run while waiting for it.
    CannotJoin,
    /// A wake-up time past the end of the clock.
    TimeOverflow,
    /// Object handles have run out.
    OutOfObjectIds,
    /// `file` with no path to open.
    MalformedName,
    /// The list of sleeping threads is not as the scheduler keeps it.
    InconsistentSleepers,
    /// The program image is no ELF image the kernel can load.
    InvalidImage,
    /// A walk through a thread's translation tables left the table memory
    /// or came back to a table it went through.
    CorruptTables,
}

/// The stack pointer a new thread starts with when its stack is the page
/// at `page`: below two zero words and its register frame at the top of the
/// page, seen through `TOP_PAGE`.
pub open spec fn initial_stack_pointer(page: u64) -> u64 {
    ((page + PAGE_SIZE - 16 - FRAME_SIZE) as u64 | TOP_PAGE) as u64
}

/// The frame a new thread starts from: at `entry`, returning to EL1 on its
/// own stack, with `arg` in x0 and every other register zero.
pub open spec fn starting_frame(frame: InterruptFrame, entry: u64, arg: u64) -> bool {
    &&& frame.elr == entry
    &&& frame.spsr == SPSR_EL1H
    &&& frame.fpsr == 0
    &&& frame.gp_registers@ == Seq::new(32, |i: int| if i == 0 { arg } else { 0u64 })
    &&& forall|i: int| 0 <= i < 32 ==> frame.fp_regs@[i] == 0
}

/// `k1` is `k0` after making thread `id` for `entry` with arguments `args`,
/// as `Kernel::create_thread` does it.
pub open spec fn thread_created(k0: Kernel, k1: Kernel, entry: usize, args: SyscallArgs, id: ThreadID) -> bool {
    let s0 = k0.scheduler;
    let s1 = k1.scheduler;
    let cur = s0.current_thread;
    let page = k0.page_allocator.next;
    let t = s1.table@[index_in(s1.table@, id)];
    &&& id == k0.thread_id_allocator.next
    &&& !known_in(s0.table@, id)
    &&& s1.statuses() == s0.statuses().insert(id, ThreadStatus::Ready)
    &&& s1.results() == s0.results().insert(id, args@[2] as u64).insert(cur, id)
    &&& s1.children() == s0.children().insert(cur, s0.children()[cur].push(id)).insert(
        id,
        Seq::empty(),
    )
    &&& s1.thread_queue@ == s0.thread_queue@.push(id)
    &&& s1.threads@ == s0.threads@.push(id)
    &&& s1.current_thread == cur
    &&& s1.waiting_threads@ == s0.waiting_threads@
    &&& t.parent == Some(cur)
    &&& starting_frame(t.frame, entry as u64, args@[2] as u64)
    &&& t.stack_pointer == initial_stack_pointer(page)
    &&& leaf_entry(k1.memory.tables@, t.kernel_table.pgd, TOP_PAGE) == Some(page_descriptor_for(page))
    &&& k1.page_allocator.next == page + PAGE_SIZE
    &&& k1.thread_id_allocator.next == id + 1
}

/// The kernel.
pub struct Kernel {
    pub scheduler: Scheduler,
    pub page_allocator: PageAllocator,
    pub thread_id_allocator: IDAllocator,
    pub object_id_allocator: IDAllocator,
    /// Where the translation tables live.
    pub memory: TableMemory,
}

impl Kernel {
    /// The parts are well formed, and every thread's number is below the
    /// next one the thread allocator hands out.
    pub open spec fn wf(&self) -> bool {
        &&& self.scheduler.wf()
        &&& self.memory.wf()
        &&& self.page_allocator.wf()
        &&& forall|id: ThreadID| #[trigger]
            known_in(self.scheduler.table@, id) ==> id < self.thread_id_allocator.next
    }

    /// A thread can be made: tables, a page and a number are left.
    pub open spec fn can_create_thread(&self) -> bool {
        &&& self.memory.tables@.len() + TABLES_PER_THREAD <= MAX_TABLES
        &&& self.page_allocator.has_free_page()
        &&& self.thread_id_allocator.next < u64::MAX
    }

    /// A kernel running the boot thread alone on the given translation
    /// tables, with pages from `page_allocator` and tables in `memory`.
    pub fn with_page_allocator_and_filesystem(
        page_allocator: PageAllocator,
        memory: TableMemory,
        kernel_table: PageTable,
        user_table: PageTable,
    ) -> (r: Self)
        requires
            page_allocator.wf(),
            memory.wf(),
        ensures
            r.wf(),
            r.scheduler.current_thread == 0,
            r.scheduler.statuses() == map![0u64 => ThreadStatus::Running],
            r.scheduler.thread_queue@.len() == 0,
            r.thread_id_allocator.next == 1,
            r.object_id_allocator.next == 1,
            r.page_allocator == page_allocator,
            r.memory == memory,
    {
        let scheduler = Scheduler::new(kernel_table, user_table);
        let r = Kernel {
            scheduler,
            page_allocator,
            thread_id_allocator: IDAllocator::new(),
            object_id_allocator: IDAllocator::new(),
            memory,
        };
        proof {
            assert forall|id: ThreadID| #[trigger] known_in(r.scheduler.table@, id) implies id < 1 by {
                assert(r.scheduler.statuses().dom().contains(id));
            }
        }
        r
    }

    /// A free page, if one is left.
    pub fn allocate_page(&mut self) -> (r: Option<u64>)
        requires
            old(self).wf(),
        ensures
            final(self).wf(),
            old(self).page_allocator.has_free_page() ==> r == Some(old(self).page_allocator.next),
            !old(self).page_allocator.has_free_page() ==> r is None,
    {
        self.page_allocator.allocate_page()
    }

    /// Creates a thread named `name` that starts at `entry` with `args[2]`
    /// as its argument, on a stack of its own: a fresh page, mapped at
    /// `TOP_PAGE` in a kernel table of its own. The thread is ready, queued
    /// last, a child of the running thread, and the running thread's result
    /// is its number.
    pub fn create_thread(&mut self, entry: usize, args: SyscallArgs, name: String) -> (r: Result<ThreadID, KernelError>)
        requires
            old(self).wf(),
        ensures
            final(self).wf(),
            r is Ok <==> old(self).can_create_thread(),
            !old(self).can_create_thread() ==> {
                &&& r == Err::<ThreadID, KernelError>(if old(self).memory.tables@.len() + TABLES_PER_THREAD
                    > MAX_TABLES || !old(self).page_allocator.has_free_page() {
                    KernelError::OutOfMemory
                } else {
                    KernelError::OutOfThreadIds
                })
                &&& final(self).scheduler == old(self).scheduler
            },
            r matches Ok(id) ==> thread_created(*old(self), *final(self), entry, args, id),
            r matches Ok(id) ==> final(self).scheduler.table@[index_in(final(self).scheduler.table@, id)].name
                == name,
    {
        if self.memory.tables.len() > MAX_TABLES - TABLES_PER_THREAD {
            return Err(KernelError::OutOfMemory);
        }
        if !self.page_allocator.is_page_free() {
            return Err(KernelError::OutOfMemory);
        }
        if self.thread_id_allocator.next == u64::MAX {
            return Err(KernelError::OutOfThreadIds);
        }
        let ghost s0 = self.scheduler;
        let cur = self.scheduler.current_thread;
        let page = match self.page_allocator.allocate_page() {
            Some(page) => page,
            None => {
                return Err(KernelError::OutOfMemory);
            },
        };
        let mut initial_frame = InterruptFrame::with_kernel_entry(entry as u64);
        initial_frame.set_arg(args[2] as u64);
        assert(initial_frame.gp_registers@ =~= Seq::new(32, |i: int| if i == 0 { args@[2] as u64 } else { 0u64 }));
        let sp = (page + PAGE_SIZE - 16 - FRAME_SIZE) | TOP_PAGE;
        let stack_phys_page = page & !0xFFFu64 & 0xFFFF_FFFF_FFFFu64;
        proof {
            assert(page % 4096 == 0);
            assert(page < 0x1_0000_0000_0000u64);
            assert(stack_phys_page == page && field64(stack_phys_page, 0, 11) == 0
                && field64(TOP_PAGE, 0, 11) == 0) by (bit_vector)
                requires
                    page % 4096 == 0,
                    page < 0x1_0000_0000_0000u64,
                    stack_phys_page == page & !0xFFFu64 & 0xFFFF_FFFF_FFFFu64,
            ;
        }
        let id = match self.thread_id_allocator.allocate_id() {
            Some(id) => id,
            None => {
                return Err(KernelError::OutOfThreadIds);
            },
        };
        let kernel_table = PageTable::kernel_mapped(&mut self.memory);
        kernel_table.map_user_address(TOP_PAGE, stack_phys_page, &mut self.memory);
        let ghost mapped = self.memory.tables@;
        let user_table = PageTable::new_unmapped(&mut self.memory);
        proof {
            lemma_walk_extends(mapped, self.memory.tables@, kernel_table.pgd, TOP_PAGE);
        }
        let thread = Thread {
            stack_pointer: sp,
            parent: Some(cur),
            status: ThreadStatus::Ready,
            name,
            id,
            children: Vec::new(),
            objects: Vec::new(),
            frame: initial_frame,
            kernel_table,
            user_table,
        };
        proof {
            assert(!known_in(s0.table@, id));
            assert(thread.children@ =~= Seq::<ThreadID>::empty());
        }
        let ghost before_add = self.scheduler.table@;
        self.scheduler.add_thread(thread);
        let ghost after_add = self.scheduler.table@;
        self.scheduler.set_current_return_value(id);
        proof {
            let t1 = self.scheduler.table@;
            let n = before_add.len() as int;
            assert(after_add[n] == thread);
            lemma_index_in(after_add, n, id);
            let ci = index_in(after_add, cur);
            assert(after_add[ci].id == cur);
            assert(ci != n);
            assert(t1[n] == thread);
            lemma_index_in(t1, n, id);
            assert forall|x: ThreadID| #[trigger] known_in(t1, x) implies x < self.thread_id_allocator.next by {
                assert(known_in(after_add, x));
                assert(self.scheduler.statuses().dom().contains(x));
                if x != id {
                    assert(s0.statuses().dom().contains(x));
                    assert(known_in(s0.table@, x));
                }
            }
        }
        Ok(id)
    }
}

/// The system calls, by number.
#[derive(Copy, Clone, Debug, PartialEq, Eq, Structural)]
pub enum Syscall {
    /// Create a thread: entry point, name, argument.
    Thread,
    /// End the running thread: exit code.
    Exit,
    /// Sleep: microseconds.
    Wait,
    /// Wait for a child thread to exit: its number.
    Join,
    /// Let the next ready thread run.
    Yield,
    /// Open an object: address and length of its name.
    Open,
    /// Close an object: its handle.
    Close,
    /// Read from an object: handle, buffer address, length.
    Read,
    /// Write to an object: handle, buffer address, length.
    Write,
}

/// The system call numbered `number`.
pub open spec fn syscall_of(number: u64) -> Option<Syscall> {
    if number == 0 {
        Some(Syscall::Thread)
    } else if number == 1 {
        Some(Syscall::Exit)
    } else if number == 2 {
        Some(Syscall::Wait)
    } else if number == 3 {
        Some(Syscall::Join)
    } else if number == 4 {
        Some(Syscall::Yield)
    } else if number == 5 {
        Some(Syscall::Open)
    } else if number == 6 {
        Some(Syscall::Close)
    } else if number == 7 {
        Some(Syscall::Read)
    } else if number == 8 {
        Some(Syscall::Write)
    } else {
        None
    }
}

impl Syscall {
    /// The system call numbered `number`; an error for any other number.
    pub fn try_from(number: u64) -> (r: Result<Syscall, ()>)
        ensures
            match syscall_of(number) {
                Some(c) => r == Ok::<Syscall, ()>(c),
                None => r is Err,
            },
    {
        if number == 0 {
            Ok(Syscall::Thread)
        } else if number == 1 {
            Ok(Syscall::Exit)
        } else if number == 2 {
            Ok(Syscall::Wait)
        } else if number == 3 {
            Ok(Syscall::Join)
        } else if number == 4 {
            Ok(Syscall::Yield)
        } else if number == 5 {
            Ok(Syscall::Open)
        } else if number == 6 {
            Ok(Syscall::Close)
        } else if number == 7 {
            Ok(Syscall::Read)
        } else if number == 8 {
            Ok(Syscall::Write)
        } else {
            Err(())
        }
    }
}

/// What is left to do for a system call once the kernel has done its part.
#[derive(Copy, Clone, Debug)]
pub enum SyscallRequest {
    /// Nothing.
    Done,
    /// Look up the object named by the `length` bytes at `address`, then
    /// call `Kernel::open_object`.
    Open { address: usize, length: usize },
    /// Move `length` bytes between `object` and the buffer at `address`
    /// (to the object when `write`), then call `Kernel::complete_transfer`.
    Transfer { object: KernelObject, write: bool, address: usize, length: usize },
}

/// `s1` is `s0` after the running thread yields.
pub open spec fn yielded(s0: Scheduler, s1: Scheduler) -> bool {
    let q = s0.thread_queue@.push(s0.current_thread);
    &&& s1.current_thread == q[0]
    &&& s1.thread_queue@ == q.drop_first()
    &&& s1.statuses() == s0.statuses()
    &&& s1.results() == s0.results()
    &&& s1.children() == s0.children()
    &&& s1.threads@ == s0.threads@
    &&& s1.waiting_threads@ == s0.waiting_threads@
}

/// `s1` is `s0` after the running thread goes to sleep until `wake`.
pub open spec fn delayed(s0: Scheduler, s1: Scheduler, wake: u64) -> bool {
    &&& s1.current_thread == s0.thread_queue@[0]
    &&& s1.thread_queue@ == s0.thread_queue@.drop_first()
    &&& s1.waiting_threads@ == s0.waiting_threads@.push(s0.current_thread)
    &&& s1.statuses() == s0.statuses().insert(s0.current_thread, ThreadStatus::Sleeping(wake)).insert(
        s0.thread_queue@[0],
        ThreadStatus::Running,
    )
    &&& s1.results() == s0.results()
    &&& s1.children() == s0.children()
    &&& s1.threads@ == s0.threads@
}

/// `s1` is `s0` after the running thread joins its child `thread_id`.
pub open spec fn joined(s0: Scheduler, s1: Scheduler, thread_id: ThreadID) -> bool {
    let cur = s0.current_thread;
    let mine = s0.children()[cur];
    &&& match s0.statuses()[thread_id] {
        ThreadStatus::Exited(code) => {
            &&& s1.children() == s0.children().insert(cur, mine.remove(first_index(mine, thread_id)))
            &&& s1.results() == s0.results().insert(cur, code)
            &&& s1.statuses() == s0.statuses()
            &&& s1.current_thread == cur
            &&& s1.thread_queue@ == s0.thread_queue@
        },
        _ => {
            &&& s1.statuses() == s0.statuses().insert(cur, ThreadStatus::Joining(thread_id))
            &&& s1.current_thread == s0.thread_queue@[0]
            &&& s1.thread_queue@ == s0.thread_queue@.drop_first()
            &&& s1.children() == s0.children()
            &&& s1.results() == s0.results()
        },
    }
    &&& s1.threads@ == s0.threads@
    &&& s1.waiting_threads@ == s0.waiting_threads@
}

/// The running thread of `s` can exit with `code`: it is listed, and some
/// thread is ready or waits for it.
pub open spec fn exit_allowed(s: Scheduler, code: u64) -> bool {
    let cur = s.current_thread;
    let st = s.statuses().insert(cur, ThreadStatus::Exited(code));
    let rest = s.threads@.remove(first_index(s.threads@, cur));
    s.threads@.contains(cur) && s.thread_queue@.len() + joiners(st, rest, cur).len() > 0
}

/// `s1` is `s0` after the running thread exits with `code`.
pub open spec fn exited(s0: Scheduler, s1: Scheduler, code: u64) -> bool {
    let cur = s0.current_thread;
    let st = s0.statuses().insert(cur, ThreadStatus::Exited(code));
    let rest = s0.threads@.remove(first_index(s0.threads@, cur));
    let j = joiners(st, rest, cur);
    let q = s0.thread_queue@ + j;
    &&& s1.threads@ == rest
    &&& s1.statuses() == st
    &&& s1.results() == s0.results().union_prefer_right(
        Map::new(|id: ThreadID| j.contains(id), |id: ThreadID| code),
    )
    &&& s1.current_thread == q[0]
    &&& s1.thread_queue@ == q.drop_first()
    &&& s1.children() == s0.children()
    &&& s1.waiting_threads@ == s0.waiting_threads@
}

/// The sleepers of `s` are as the scheduler keeps them: each listed once,
/// and each asleep.
pub open spec fn sleepers_ok(s: Scheduler) -> bool {
    &&& s.waiting_threads@.no_duplicates()
    &&& forall|k: int|
        0 <= k < s.waiting_threads@.len() ==> s.statuses()[#[trigger] s.waiting_threads@[k]] is Sleeping
}

/// `s1` is `s0` after the clock tick at `now`: the sleepers due at `now`
/// are queued as ready, then the running thread goes to the back of the
/// queue and the front one runs.
pub open spec fn ticked(s0: Scheduler, s1: Scheduler, now: u64) -> bool {
    let st = s0.statuses();
    let due = due_threads(st, s0.waiting_threads@, now);
    let woken = st.union_prefer_right(
        Map::new(|id: ThreadID| due.contains(id), |id: ThreadID| ThreadStatus::Ready),
    );
    let q = (s0.thread_queue@ + due).push(s0.current_thread);
    &&& s1.waiting_threads@ == still_sleeping(st, s0.waiting_threads@, now)
    &&& s1.current_thread == q[0]
    &&& s1.thread_queue@ == q.drop_first()
    &&& s1.statuses() == woken.insert(s0.current_thread, ThreadStatus::Ready).insert(
        q[0],
        ThreadStatus::Running,
    )
    &&& s1.results() == s0.results()
    &&& s1.children() == s0.children()
    &&& s1.threads@ == s0.threads@
}

/// `s1` is `s0` with the running thread's objects changed to `objects`.
pub open spec fn objects_replaced(s0: Scheduler, s1: Scheduler, objects: Seq<(ObjectHandle, KernelObject)>) -> bool {
    &&& s1.current_objects() == objects
    &&& s1.results() == s0.results()
    &&& s1.statuses() == s0.statuses()
    &&& s1.children() == s0.children()
    &&& s1.current_thread == s0.current_thread
    &&& s1.threads@ == s0.threads@
    &&& s1.thread_queue@ == s0.thread_queue@
    &&& s1.waiting_threads@ == s0.waiting_threads@
}

/// A scheduler step that keeps the set of threads keeps every thread's
/// number below `next`.
proof fn lemma_ids_kept(s0: Scheduler, s1: Scheduler, next: u64)
    requires
        s1.statuses().dom() =~= s0.statuses().dom(),
        forall|id: ThreadID| #[trigger] known_in(s0.table@, id) ==> id < next,
    ensures
        forall|id: ThreadID| #[trigger] known_in(s1.table@, id) ==> id < next,
{
    assert forall|id: ThreadID| #[trigger] known_in(s1.table@, id) implies id < next by {
        assert(s1.statuses().dom().contains(id));
        assert(s0.statuses().dom().contains(id));
    }
}

/// Kernel `k1` is `k0` with the running thread's registers recorded as
/// saved at `frame_address`: no other thread's entry, no status, result or
/// place in the queue changes, and the same thread runs.
pub open spec fn frame_saved(k0: Kernel, k1: Kernel, frame_address: u64) -> bool {
    &&& k1.scheduler.table@[index_in(k1.scheduler.table@, k1.scheduler.current_thread)].stack_pointer
        == frame_address
    &&& k1.scheduler.table@.len() == k0.scheduler.table@.len()
    &&& forall|i: int|
        0 <= i < k0.scheduler.table@.len() && i != index_in(
            k0.scheduler.table@,
            k0.scheduler.current_thread,
        ) ==> k1.scheduler.table@[i] == k0.scheduler.table@[i]
    &&& k1.scheduler.statuses() == k0.scheduler.statuses()
    &&& k1.scheduler.results() == k0.scheduler.results()
    &&& k1.scheduler.current_thread == k0.scheduler.current_thread
    &&& k1.scheduler.thread_queue@ == k0.scheduler.thread_queue@
}

/// What handling system call `number` with `args` at time `now` does to a
/// kernel `k0`, leaving `k1` and answering `r`: a refusal changes no thread,
/// and each call does what its variant of `Syscall` says.
pub open spec fn syscall_handled(
    k0: Kernel,
    k1: Kernel,
    number: usize,
    args: SyscallArgs,
    now: u64,
    r: Result<SyscallRequest, KernelError>,
) -> bool {
    &&& r is Err ==> k1.scheduler == k0.scheduler
    &&& match syscall_of(number as u64) {
        None => r == Err::<SyscallRequest, KernelError>(KernelError::InvalidSyscall),
        Some(Syscall::Thread) => {
            &&& (r is Ok <==> k0.can_create_thread())
            &&& r is Ok ==> r->Ok_0 is Done && thread_created(
                k0,
                k1,
                args@[0],
                args,
                k0.thread_id_allocator.next,
            )
        },
        Some(Syscall::Exit) => {
            &&& (r is Ok <==> exit_allowed(k0.scheduler, args@[0] as u64))
            &&& r is Ok ==> r->Ok_0 is Done && exited(k0.scheduler, k1.scheduler, args@[0] as u64)
            &&& r is Err ==> r == Err::<SyscallRequest, KernelError>(KernelError::NothingToRun)
        },
        Some(Syscall::Wait) => {
            &&& (r is Ok <==> now + args@[0] <= u64::MAX && k0.scheduler.thread_queue@.len() > 0)
            &&& r is Ok ==> r->Ok_0 is Done && delayed(k0.scheduler, k1.scheduler, (now + args@[0]) as u64)
            &&& now + args@[0] > u64::MAX ==> r == Err::<SyscallRequest, KernelError>(KernelError::TimeOverflow)
        },
        Some(Syscall::Join) => {
            let tid = args@[0] as ThreadID;
            let s0 = k0.scheduler;
            &&& (r is Ok <==> s0.children()[s0.current_thread].contains(tid) && (s0.statuses()[tid] is Exited || s0.thread_queue@.len() > 0))
            &&& r is Ok ==> r->Ok_0 is Done && joined(s0, k1.scheduler, tid)
            &&& r is Err ==> r == Err::<SyscallRequest, KernelError>(KernelError::CannotJoin)
        },
        Some(Syscall::Yield) => r is Ok && r->Ok_0 is Done && yielded(k0.scheduler, k1.scheduler),
        Some(Syscall::Open) => {
            &&& r matches Ok(SyscallRequest::Open { address, length }) && address == args@[0] && length == args@[1]
            &&& k1.scheduler == k0.scheduler
        },
        Some(Syscall::Close) => {
            &&& r is Ok && r->Ok_0 is Done
            &&& objects_replaced(k0.scheduler, k1.scheduler, without_handle(k0.scheduler.current_objects(), args@[0] as u64))
        },
        Some(Syscall::Read) => {
            &&& k1.scheduler == k0.scheduler
            &&& match first_with_handle(k0.scheduler.current_objects(), args@[0] as u64) {
                Some(o) => r matches Ok(SyscallRequest::Transfer { object, write, address, length }) && object == o && !write && address == args@[1] && length == args@[2],
                None => r is Ok && r->Ok_0 is Done,
            }
        },
        Some(Syscall::Write) => {
            &&& k1.scheduler == k0.scheduler
            &&& match first_with_handle(k0.scheduler.current_objects(), args@[0] as u64) {
                Some(o) => r matches Ok(SyscallRequest::Transfer { object, write, address, length }) && object == o && write && address == args@[1] && length == args@[2],
                None => r is Ok && r->Ok_0 is Done,
            }
        },
    }
}

impl Kernel {
    /// Carries out system call `number` with `args` for the running thread,
    /// at time `now`; `name` is the name a new thread gets. Calls that need
    /// more than the kernel holds come back as a request. A call that cannot
    /// go ahead is refused and changes nothing. The number must name a call.
    #[verifier::rlimit(40)]
    pub fn handle_syscall(&mut self, number: usize, args: SyscallArgs, now: u64, name: String) -> (r: Result<SyscallRequest, KernelError>)
        requires
            old(self).wf(),
            syscall_of(number as u64) is Some,
        ensures
            final(self).wf(),
            syscall_handled(*old(self), *final(self), number, args, now, r),
    {
        let syscall = match Syscall::try_from(number as u64) {
            Ok(syscall) => syscall,
            Err(()) => {
                return Err(KernelError::InvalidSyscall);
            },
        };
        match syscall {
            Syscall::Thread => {
                match self.create_thread(args[0], args, name) {
                    Ok(_) => Ok(SyscallRequest::Done),
                    Err(error) => Err(error),
                }
            },
            Syscall::Exit => {
                let code = args[0] as u64;
                if !self.scheduler.can_exit(code) {
                    return Err(KernelError::NothingToRun);
                }
                let ghost s0 = self.scheduler;
                self.scheduler.exit_current_thread(code);
                proof {
                    lemma_ids_kept(s0, self.scheduler, self.thread_id_allocator.next);
                }
                Ok(SyscallRequest::Done)
            },
            Syscall::Wait => {
                let wake = match now.checked_add(args[0] as u64) {
                    Some(wake) => wake,
                    None => {
                        return Err(KernelError::TimeOverflow);
                    },
                };
                if self.scheduler.thread_queue.len() == 0 {
                    return Err(KernelError::NothingToRun);
                }
                let ghost s0 = self.scheduler;
                self.scheduler.delay_current_thread(wake);
                proof {
                    assert(known_in(s0.table@, s0.thread_queue@[0]));
                    assert(s0.statuses().dom().contains(s0.thread_queue@[0]));
                    lemma_ids_kept(s0, self.scheduler, self.thread_id_allocator.next);
                }
                Ok(SyscallRequest::Done)
            },
            Syscall::Join => {
                let thread_id = args[0] as ThreadID;
                if !self.scheduler.can_join(thread_id) {
                    return Err(KernelError::CannotJoin);
                }
                let ghost s0 = self.scheduler;
                self.scheduler.join_current_thread(thread_id);
                proof {
                    lemma_ids_kept(s0, self.scheduler, self.thread_id_allocator.next);
                }
                Ok(SyscallRequest::Done)
            },
            Syscall::Yield => {
                let ghost s0 = self.scheduler;
                self.scheduler.yield_current_thread();
                proof {
                    lemma_ids_kept(s0, self.scheduler, self.thread_id_allocator.next);
                }
                Ok(SyscallRequest::Done)
            },
            Syscall::Open => Ok(SyscallRequest::Open { address: args[0], length: args[1] }),
            Syscall::Close => {
                self.scheduler.remove_current_object(args[0] as u64);
                Ok(SyscallRequest::Done)
            },
            Syscall::Read => {
                match self.scheduler.current_object(args[0] as u64) {
                    Some(object) => Ok(SyscallRequest::Transfer { object, write: false, address: args[1], length: args[2] }),
                    None => Ok(SyscallRequest::Done),
                }
            },
            Syscall::Write => {
                match self.scheduler.current_object(args[0] as u64) {
                    Some(object) => Ok(SyscallRequest::Transfer { object, write: true, address: args[1], length: args[2] }),
                    None => Ok(SyscallRequest::Done),
                }
            },
        }
    }
}

/// How the name of an object to open reads: `file:` and a path (between
/// the first colon and the next one, or the end), `stdio`, anything else,
/// or `file` with no path.
#[derive(Copy, Clone, Debug, PartialEq, Eq, Structural)]
pub enum ObjectName {
    File { start: usize, end: usize },
    Stdio,
    Other,
    MissingPath,
}

/// The first colon of `name` at or after `from`, or the end of `name`.
pub open spec fn next_colon(name: Seq<u8>, from: int) -> int
    decreases name.len() - from,
{
    if from >= name.len() {
        name.len() as int
    } else if name[from] == 58 {
        from
    } else {
        next_colon(name, from + 1)
    }
}

proof fn lemma_next_colon_bounds(name: Seq<u8>, from: int)
    requires
        0 <= from,
    ensures
        from <= next_colon(name, from) || from > name.len(),
        next_colon(name, from) <= name.len(),
    decreases name.len() - from,
{
    if from < name.len() && name[from] != 58 {
        lemma_next_colon_bounds(name, from + 1);
    }
}

/// How `name` reads.
pub open spec fn object_name_of(name: Seq<u8>) -> ObjectName {
    let p = next_colon(name, 0);
    let prefix = name.subrange(0, p);
    if prefix == seq![102u8, 105, 108, 101] {
        if p < name.len() {
            ObjectName::File { start: (p + 1) as usize, end: next_colon(name, p + 1) as usize }
        } else {
            ObjectName::MissingPath
        }
    } else if prefix == seq![115u8, 116, 100, 105, 111] {
        ObjectName::Stdio
    } else {
        ObjectName::Other
    }
}

/// The first colon of `name` at or after `from`, or the end of `name`.
fn find_colon(name: &[u8], from: usize) -> (r: usize)
    requires
        from <= name@.len(),
    ensures
        r == next_colon(name@, from as int),
        from <= r <= name@.len(),
{
    let mut i = from;
    proof {
        lemma_next_colon_bounds(name@, from as int);
    }
    while i < name.len()
        invariant
            from <= i <= name@.len(),
            next_colon(name@, i as int) == next_colon(name@, from as int),
        decreases name@.len() - i,
    {
        if name[i] == 58 {
            return i;
        }
        i = i + 1;
    }
    i
}

/// Reads the name of an object to open.
pub fn parse_object_name(name: &[u8]) -> (r: ObjectName)
    ensures
        r == object_name_of(name@),
{
    let p = find_colon(name, 0);
    let ghost prefix = name@.subrange(0, p as int);
    if p == 4 && name[0] == 102 && name[1] == 105 && name[2] == 108 && name[3] == 101 {
        assert(prefix =~= seq![102u8, 105, 108, 101]);
        if p < name.len() {
            let end = find_colon(name, p + 1);
            ObjectName::File { start: p + 1, end }
        } else {
            ObjectName::MissingPath
        }
    } else if p == 5 && name[0] == 115 && name[1] == 116 && name[2] == 100 && name[3] == 105
        && name[4] == 111 {
        assert(prefix =~= seq![115u8, 116, 100, 105, 111]);
        ObjectName::Stdio
    } else {
        proof {
            if prefix == seq![102u8, 105, 108, 101] {
                assert(prefix.len() == 4);
                assert(prefix[0] == name@[0] && prefix[1] == name@[1] && prefix[2] == name@[2] && prefix[3] == name@[3]);
            }
            if prefix == seq![115u8, 116, 100, 105, 111] {
                assert(prefix.len() == 5);
                assert(prefix[0] == name@[0] && prefix[1] == name@[1] && prefix[2] == name@[2] && prefix[3] == name@[3] && prefix[4] == name@[4]);
            }
        }
        ObjectName::Other
    }
}

/// `s1` is `s0` after the running thread goes to the back of the run queue
/// (as ready) and the front thread runs.
pub open spec fn scheduled(s0: Scheduler, s1: Scheduler) -> bool {
    let q = s0.thread_queue@.push(s0.current_thread);
    &&& s1.current_thread == q[0]
    &&& s1.thread_queue@ == q.drop_first()
    &&& s1.statuses() == s0.statuses().insert(s0.current_thread, ThreadStatus::Ready).insert(
        q[0],
        ThreadStatus::Running,
    )
    &&& s1.results() == s0.results()
    &&& s1.children() == s0.children()
    &&& s1.threads@ == s0.threads@
    &&& s1.waiting_threads@ == s0.waiting_threads@
}

impl Kernel {
    /// Opens the object named `name` for the running thread, `entry` being
    /// what looking up its path found (for a file). A file found, or the
    /// console, is given under a new handle, which becomes the thread's
    /// result; a file not found makes the result 0; any other name does
    /// nothing. The name must not be `file` with no path.
    pub fn open_object(&mut self, name: &[u8], entry: Option<DirectoryEntry>) -> (r: Result<Option<ObjectHandle>, KernelError>)
        requires
            old(self).wf(),
            !(object_name_of(name@) is MissingPath),
        ensures
            final(self).wf(),
            r is Err ==> final(self).scheduler == old(self).scheduler,
            ({
                let s0 = old(self).scheduler;
                let s1 = final(self).scheduler;
                let next = old(self).object_id_allocator.next;
                let opened = |object: KernelObject| {
                    &&& next < u64::MAX ==> {
                        &&& r == Ok::<Option<ObjectHandle>, KernelError>(Some(next))
                        &&& s1.current_objects() == s0.current_objects().push((next, object))
                        &&& s1.results() == s0.results().insert(s0.current_thread, next)
                        &&& s1.statuses() == s0.statuses()
                        &&& s1.current_thread == s0.current_thread
                        &&& s1.thread_queue@ == s0.thread_queue@
                        &&& final(self).object_id_allocator.next == next + 1
                    }
                    &&& next == u64::MAX ==> r == Err::<Option<ObjectHandle>, KernelError>(KernelError::OutOfObjectIds)
                };
                match object_name_of(name@) {
                    ObjectName::File { .. } => match entry {
                        Some(e) => opened(KernelObject::File(FileObject { fat_entry: e })),
                        None => {
                            &&& r == Ok::<Option<ObjectHandle>, KernelError>(Some(0))
                            &&& s1.results() == s0.results().insert(s0.current_thread, 0)
                            &&& s1.current_objects() == s0.current_objects()
                            &&& s1.statuses() == s0.statuses()
                        },
                    },
                    ObjectName::Stdio => opened(KernelObject::Console(Stdio {  })),
                    ObjectName::Other => r == Ok::<Option<ObjectHandle>, KernelError>(None) && s1 == s0,
                    ObjectName::MissingPath => r == Err::<Option<ObjectHandle>, KernelError>(KernelError::MalformedName),
                }
            }),
    {
        let object = match parse_object_name(name) {
            ObjectName::File { .. } => match entry {
                Some(e) => KernelObject::File(FileObject::from_entry(e)),
                None => {
                    let ghost s0 = self.scheduler;
                    self.scheduler.set_current_return_value(0);
                    proof {
                        lemma_ids_kept(s0, self.scheduler, self.thread_id_allocator.next);
                    }
                    return Ok(Some(0));
                },
            },
            ObjectName::Stdio => KernelObject::Console(Stdio::new()),
            ObjectName::Other => {
                return Ok(None);
            },
            ObjectName::MissingPath => {
                return Err(KernelError::MalformedName);
            },
        };
        let id = match self.object_id_allocator.allocate_id() {
            Some(id) => id,
            None => {
                return Err(KernelError::OutOfObjectIds);
            },
        };
        let ghost s0 = self.scheduler;
        self.scheduler.add_current_object(object, id);
        let ghost s1 = self.scheduler;
        self.scheduler.set_current_return_value(id);
        proof {
            lemma_ids_kept(s0, s1, self.thread_id_allocator.next);
            lemma_ids_kept(s1, self.scheduler, self.thread_id_allocator.next);
        }
        Ok(Some(id))
    }

    /// Makes `length`, the bytes a read or write moved, the running
    /// thread's result.
    pub fn complete_transfer(&mut self, length: u64)
        requires
            old(self).wf(),
        ensures
            final(self).wf(),
            final(self).scheduler.results() == old(self).scheduler.results().insert(
                old(self).scheduler.current_thread,
                length,
            ),
            final(self).scheduler.statuses() == old(self).scheduler.statuses(),
            final(self).scheduler.current_objects() == old(self).scheduler.current_objects(),
            final(self).scheduler.current_thread == old(self).scheduler.current_thread,
            final(self).scheduler.thread_queue@ == old(self).scheduler.thread_queue@,
    {
        let ghost s0 = self.scheduler;
        self.scheduler.set_current_return_value(length);
        proof {
            lemma_ids_kept(s0, self.scheduler, self.thread_id_allocator.next);
        }
    }

    /// The clock tick at `now`: wakes the sleepers that are due, then
    /// moves on to the next ready thread. Refused, changing nothing, when the
    /// sleepers are not as the scheduler keeps them.
    pub fn tick(&mut self, now: u64) -> (r: Result<(), KernelError>)
        requires
            old(self).wf(),
        ensures
            final(self).wf(),
            r is Ok <==> sleepers_ok(old(self).scheduler),
            r is Ok ==> ticked(old(self).scheduler, final(self).scheduler, now),
            r is Err ==> r == Err::<(), KernelError>(KernelError::InconsistentSleepers)
                && final(self).scheduler == old(self).scheduler,
    {
        if !self.scheduler.sleepers_consistent() {
            return Err(KernelError::InconsistentSleepers);
        }
        let ghost s0 = self.scheduler;
        self.scheduler.wake_sleeping(now);
        let ghost s1 = self.scheduler;
        self.scheduler.schedule();
        proof {
            let due = due_threads(s0.statuses(), s0.waiting_threads@, now);
            assert forall|id: ThreadID| due.contains(id) implies s0.statuses().dom().contains(id) by {
                crate::scheduler::lemma_due_in(s0.statuses(), s0.waiting_threads@, now);
                assert(s0.waiting_threads@.contains(id));
                let k = choose|k: int| 0 <= k < s0.waiting_threads@.len() && s0.waiting_threads@[k] == id;
                assert(known_in(s0.table@, s0.waiting_threads@[k]));
            }
            assert(s1.statuses().dom() =~= s0.statuses().dom());
            lemma_ids_kept(s0, s1, self.thread_id_allocator.next);
            let q = s1.thread_queue@.push(s1.current_thread);
            assert(known_in(s1.table@, q[0]));
            assert(s1.statuses().dom().contains(q[0]));
            assert(s1.statuses().dom().contains(s1.current_thread));
            lemma_ids_kept(s1, self.scheduler, self.thread_id_allocator.next);
        }
        Ok(())
    }

    /// Moves on to the next ready thread, as `Scheduler::schedule` does, and
    /// gives the thread that now runs.
    pub fn get_return_thread(&mut self) -> (r: ThreadID)
        requires
            old(self).wf(),
        ensures
            final(self).wf(),
            r == final(self).scheduler.current_thread,
            scheduled(old(self).scheduler, final(self).scheduler),
    {
        let ghost s0 = self.scheduler;
        let r = self.scheduler.choose_thread();
        proof {
            let q = s0.thread_queue@.push(s0.current_thread);
            assert(known_in(s0.table@, q[0]));
            assert(s0.statuses().dom().contains(q[0]));
            assert(s0.statuses().dom().contains(s0.current_thread));
            lemma_ids_kept(s0, self.scheduler, self.thread_id_allocator.next);
        }
        r
    }

    /// Records that the running thread's registers were saved at
    /// `frame_address`.
    pub fn save_frame(&mut self, frame_address: u64)
        requires
            old(self).wf(),
        ensures
            final(self).wf(),
            frame_saved(*old(self), *final(self), frame_address),
    {
        let ghost s0 = self.scheduler;
        self.scheduler.update_current(frame_address);
        proof {
            lemma_ids_kept(s0, self.scheduler, self.thread_id_allocator.next);
        }
    }
}

/// A thread that joins a child after the child exited receives the child's
/// exit code as its result, and keeps running.
pub proof fn lemma_join_after_exit(s0: Scheduler, s1: Scheduler, s2: Scheduler, code: u64)
    requires
        exited(s0, s1, code),
        joined(s1, s2, s0.current_thread),
    ensures
        s2.results()[s1.current_thread] == code,
        s2.current_thread == s1.current_thread,
        s2.statuses() == s1.statuses(),
{
    assert(s1.statuses()[s0.current_thread] == ThreadStatus::Exited(code));
}

/// When a thread exits, every other listed thread that was joining it gets
/// its exit code as its result and is queued to run.
pub proof fn lemma_exit_wakes_joiner(s0: Scheduler, s1: Scheduler, code: u64, waiter: ThreadID)
    requires
        exited(s0, s1, code),
        s0.threads@.contains(s0.current_thread),
        s0.threads@.contains(waiter),
        waiter != s0.current_thread,
        s0.statuses()[waiter] == ThreadStatus::Joining(s0.current_thread),
    ensures
        s1.results()[waiter] == code,
        (s0.thread_queue@ + joiners(
            s0.statuses().insert(s0.current_thread, ThreadStatus::Exited(code)),
            s0.threads@.remove(first_index(s0.threads@, s0.current_thread)),
            s0.current_thread,
        )).contains(waiter),
{
    let cur = s0.current_thread;
    let st = s0.statuses().insert(cur, ThreadStatus::Exited(code));
    let p = first_index(s0.threads@, cur);
    let rest = s0.threads@.remove(p);
    let k = choose|k: int| 0 <= k < s0.threads@.len() && s0.threads@[k] == waiter;
    let kc = choose|k: int| 0 <= k < s0.threads@.len() && s0.threads@[k] == cur;
    assert(0 <= kc < s0.threads@.len() && s0.threads@[kc] == cur);
    assert(0 <= p < s0.threads@.len() && s0.threads@[p] == cur && forall|q: int|
        0 <= q < p ==> s0.threads@[q] != cur) by {
        lemma_first_index_exists(s0.threads@, cur, kc);
    }
    assert(k != p);
    let j = if k < p { k } else { k - 1 };
    assert(rest[j] == waiter);
    lemma_joiners_contains(st, rest, cur, j);
    let q = s0.thread_queue@ + joiners(st, rest, cur);
    let m = choose|m: int| 0 <= m < joiners(st, rest, cur).len() && joiners(st, rest, cur)[m] == waiter;
    assert(q[s0.thread_queue@.len() + m] == waiter);
}

/// `first_index` finds a position of `v` when `v` occurs, at `k` say.
proof fn lemma_first_index_exists(s: Seq<ThreadID>, v: ThreadID, k: int)
    requires
        0 <= k < s.len(),
        s[k] == v,
    ensures
        0 <= first_index(s, v) < s.len(),
        s[first_index(s, v)] == v,
        forall|q: int| 0 <= q < first_index(s, v) ==> s[q] != v,
    decreases k,
{
    if exists|q: int| 0 <= q < k && s[q] == v {
        let q = choose|q: int| 0 <= q < k && s[q] == v;
        lemma_first_index_exists(s, v, q);
    } else {
        assert(0 <= k < s.len() && s[k] == v && forall|q: int| 0 <= q < k ==> s[q] != v);
    }
}

/// A thread of `ids` joining `dying` is among the joiners.
proof fn lemma_joiners_contains(st: Map<ThreadID, ThreadStatus>, ids: Seq<ThreadID>, dying: ThreadID, j: int)
    requires
        0 <= j < ids.len(),
        st[ids[j]] == ThreadStatus::Joining(dying),
    ensures
        joiners(st, ids, dying).contains(ids[j]),
    decreases ids.len(),
{
    if j == ids.len() - 1 {
        let rest = joiners(st, ids.drop_last(), dying);
        assert(joiners(st, ids, dying) == rest.push(ids.last()));
        assert(rest.push(ids.last())[rest.len() as int] == ids[j]);
    } else {
        lemma_joiners_contains(st, ids.drop_last(), dying, j);
        let rest = joiners(st, ids.drop_last(), dying);
        let m = choose|m: int| 0 <= m < rest.len() && rest[m] == ids.drop_last()[j];
        if st[ids.last()] == ThreadStatus::Joining(dying) {
            assert(rest.push(ids.last())[m] == ids[j]);
        }
    }
}

/// A program laid out in the running thread's user memory by
/// `Kernel::load_image`.
pub struct LoadedProgram {
    /// Where the program starts.
    pub entry: u64,
    /// The pages of its loadable segments, as `load_plan` lays them out:
    /// each page's address and the bytes it must hold.
    pub pages: Vec<(u64, Vec<u8>)>,
    /// The pages this load mapped: the index of the page in `pages`, and
    /// the physical page it is mapped to, which must receive its bytes.
    pub fresh: Vec<(usize, u64)>,
    /// The physical page mapped at `USER_STACK_PAGE` for the program's stack.
    pub stack_page: u64,
    /// The stack pointer the program starts with: the last word of its
    /// stack page.
    pub stack_pointer: u64,
}

/// Where a loaded program's stack page is mapped.
pub const USER_STACK_PAGE: u64 = 0x80_000;

/// The root of the running thread's user translation table.
pub open spec fn current_user_root(k: Kernel) -> u64 {
    k.scheduler.table@[index_in(k.scheduler.table@, k.scheduler.current_thread)].user_table.pgd
}

impl Kernel {
    /// Loads the ELF program in `image` for the running thread: lays out
    /// the pages of its loadable segments with `load_plan`, and maps each
    /// one that is not mapped yet in the thread's user table to a fresh page
    /// of the page allocator, in the order of the plan. Afterwards every
    /// page of the plan is mapped, and each fresh page is the one its
    /// address maps to; then maps a fresh page at `USER_STACK_PAGE` for the
    /// program's stack. Fails with `InvalidImage` exactly when `load_plan`
    /// refuses the image, with `OutOfMemory` when pages or room for tables
    /// run out, and with `CorruptTables` when a walk through the thread's
    /// tables leaves the table memory or loops.
    pub fn load_image(&mut self, image: &[u8]) -> (r: Result<LoadedProgram, KernelError>)
        requires
            old(self).wf(),
        ensures
            final(self).wf(),
            final(self).scheduler == old(self).scheduler,
            r == Err::<LoadedProgram, KernelError>(KernelError::InvalidImage) <==> load_plan_of(
                image@,
            ) is None,
            r matches Ok(p) ==> {
                let plan = load_plan_of(image@).unwrap();
                let root = current_user_root(*final(self));
                &&& p.entry == plan.0
                &&& pages_view(p.pages@) == plan.1
                &&& forall|k: int|
                    0 <= k < p.pages@.len() ==> is_mapped(
                        final(self).memory.tables@,
                        root,
                        (#[trigger] p.pages@[k]).0,
                    )
                &&& forall|i: int|
                    0 <= i < p.fresh@.len() ==> {
                        let (k, page) = #[trigger] p.fresh@[i];
                        &&& k < p.pages@.len()
                        &&& leaf_entry(final(self).memory.tables@, root, p.pages@[k as int].0)
                            == Some(page_descriptor_for(page))
                    }
                &&& leaf_entry(final(self).memory.tables@, root, USER_STACK_PAGE) == Some(
                    page_descriptor_for(p.stack_page),
                )
                &&& p.stack_pointer == USER_STACK_PAGE + PAGE_SIZE - 8
            },
    {
        let plan = match load_plan(image) {
            Some(plan) => plan,
            None => {
                return Err(KernelError::InvalidImage);
            },
        };
        let (entry, pages) = plan;
        let table = self.scheduler.current_user_table();
        let mut fresh: Vec<(usize, u64)> = Vec::new();
        let mut i: usize = 0;
        while i < pages.len()
            invariant
                self.wf(),
                self.scheduler == old(self).scheduler,
                table.pgd == current_user_root(*self),
                load_plan_of(image@) is Some,
                entry == load_plan_of(image@).unwrap().0,
                pages_view(pages@) == load_plan_of(image@).unwrap().1,
                i <= pages@.len(),
                forall|k: int| 0 <= k < pages@.len() ==> (#[trigger] pages@[k]).0 % PAGE_SIZE == 0,
                forall|j: int| 0 <= j < fresh@.len() ==> (#[trigger] fresh@[j]).0 < pages@.len(),
            decreases pages@.len() - i,
        {
            let v = pages[i].0;
            let mapped = match table.lookup(v, &self.memory) {
                None => {
                    return Err(KernelError::CorruptTables);
                },
                Some(Some(e)) => e & 1 == 1,
                Some(None) => false,
            };
            if !mapped {
                if self.memory.tables.len() > MAX_TABLES - 3 {
                    return Err(KernelError::OutOfMemory);
                }
                let page = match self.page_allocator.allocate_page() {
                    Some(page) => page,
                    None => {
                        return Err(KernelError::OutOfMemory);
                    },
                };
                proof {
                    assert(v % 4096 == 0);
                    assert(page % 4096 == 0);
                    assert(field64(v, 0, 11) == 0 && field64(page, 0, 11) == 0) by (bit_vector)
                        requires
                            v % 4096 == 0,
                            page % 4096 == 0,
                    ;
                }
                table.map_user_address(v, page, &mut self.memory);
                fresh.push((i, page));
            }
            i = i + 1;
        }
        match table.lookup(USER_STACK_PAGE, &self.memory) {
            Some(_) => {},
            None => {
                return Err(KernelError::CorruptTables);
            },
        }
        if self.memory.tables.len() > MAX_TABLES - 3 {
            return Err(KernelError::OutOfMemory);
        }
        let stack_page = match self.page_allocator.allocate_page() {
            Some(page) => page,
            None => {
                return Err(KernelError::OutOfMemory);
            },
        };
        proof {
            assert(stack_page % 4096 == 0);
            assert(field64(USER_STACK_PAGE, 0, 11) == 0 && field64(stack_page, 0, 11) == 0) by (bit_vector)
                requires
                    stack_page % 4096 == 0,
            ;
        }
        table.map_user_address(USER_STACK_PAGE, stack_page, &mut self.memory);
        // Later mappings may reuse the tables of earlier ones: check that
        // every page ended where it was put.
        let mut k: usize = 0;
        while k < pages.len()
            invariant
                self.wf(),
                self.scheduler == old(self).scheduler,
                table.pgd == current_user_root(*self),
                load_plan_of(image@) is Some,
                entry == load_plan_of(image@).unwrap().0,
                pages_view(pages@) == load_plan_of(image@).unwrap().1,
                forall|f: int| 0 <= f < fresh@.len() ==> (#[trigger] fresh@[f]).0 < pages@.len(),
                k <= pages@.len(),
                forall|j: int| 0 <= j < k ==> is_mapped(self.memory.tables@, table.pgd, (#[trigger] pages@[j]).0),
            decreases pages@.len() - k,
        {
            match table.lookup(pages[k].0, &self.memory) {
                Some(Some(e)) => {
                    if e & 1 != 1 {
                        return Err(KernelError::CorruptTables);
                    }
                },
                _ => {
                    return Err(KernelError::CorruptTables);
                },
            }
            k = k + 1;
        }
        let mut j: usize = 0;
        while j < fresh.len()
            invariant
                self.wf(),
                self.scheduler == old(self).scheduler,
                table.pgd == current_user_root(*self),
                load_plan_of(image@) is Some,
                entry == load_plan_of(image@).unwrap().0,
                pages_view(pages@) == load_plan_of(image@).unwrap().1,
                forall|q: int| 0 <= q < pages@.len() ==> is_mapped(self.memory.tables@, table.pgd, (#[trigger] pages@[q]).0),
                j <= fresh@.len(),
                forall|f: int| 0 <= f < fresh@.len() ==> (#[trigger] fresh@[f]).0 < pages@.len(),
                forall|f: int|
                    0 <= f < j ==> leaf_entry(self.memory.tables@, table.pgd, pages@[(#[trigger] fresh@[f]).0 as int].0)
                        == Some(page_descriptor_for(fresh@[f].1)),
            decreases fresh@.len() - j,
        {
            let (index, page) = fresh[j];
            match table.lookup(pages[index].0, &self.memory) {
                Some(Some(e)) => {
                    if e != page_descriptor(page) {
                        return Err(KernelError::CorruptTables);
                    }
                },
                _ => {
                    return Err(KernelError::CorruptTables);
                },
            }
            j = j + 1;
        }
        match table.lookup(USER_STACK_PAGE, &self.memory) {
            Some(Some(e)) => {
                if e != page_descriptor(stack_page) {
                    return Err(KernelError::CorruptTables);
                }
            },
            _ => {
                return Err(KernelError::CorruptTables);
            },
        }
        let stack_pointer = USER_STACK_PAGE + PAGE_SIZE - 8;
        Ok(LoadedProgram { entry, pages, fresh, stack_page, stack_pointer })
    }
}

/// The system call numbers: thread 0, exit 1, wait 2, join 3, yield 4,
/// open 5, close 6, read 7, write 8; no other number names a call, and no
/// two numbers the same call.
pub proof fn lemma_syscall_numbers()
    ensures
        syscall_of(0) == Some(Syscall::Thread),
        syscall_of(1) == Some(Syscall::Exit),
        syscall_of(2) == Some(Syscall::Wait),
        syscall_of(3) == Some(Syscall::Join),
        syscall_of(4) == Some(Syscall::Yield),
        syscall_of(5) == Some(Syscall::Open),
        syscall_of(6) == Some(Syscall::Close),
        syscall_of(7) == Some(Syscall::Read),
        syscall_of(8) == Some(Syscall::Write),
        forall|v: u64| #[trigger] syscall_of(v) is Some <==> v <= 8,
        forall|a: u64, b: u64|
            #![trigger syscall_of(a), syscall_of(b)]
            syscall_of(a) is Some && syscall_of(a) == syscall_of(b) ==> a == b,
{
}

} // verus!
