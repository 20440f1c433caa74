use raspi_os::kernel::{
    parse_object_name, IDAllocator, Kernel, KernelError, ObjectName, PageAllocator, Syscall,
    SyscallRequest, TOP_PAGE, USER_STACK_PAGE,
};
use raspi_os::kernel_object::KernelObject;
use raspi_os::page_table::{PageTable, TableMemory};
use raspi_os::platform::{InterruptOutcome, Platform, PlatformError};
use raspi_os::interrupt::InterruptType;
use raspi_os::thread::ThreadStatus;

fn boot() -> Kernel {
    let mut memory = TableMemory::new();
    let kernel_table = PageTable::kernel_mapped(&mut memory);
    let user_table = PageTable::new_unmapped(&mut memory);
    let pages = PageAllocator::new(0x10_0000, 0x10_3000);
    Kernel::with_page_allocator_and_filesystem(pages, memory, kernel_table, user_table)
}

fn result_of(k: &Kernel, id: u64) -> u64 {
    k.scheduler.table.iter().find(|t| t.id == id).unwrap().frame.gp_registers[0]
}

fn status_of(k: &Kernel, id: u64) -> ThreadStatus {
    k.scheduler.table.iter().find(|t| t.id == id).unwrap().status
}

#[test]
fn syscall_numbers() {
    assert_eq!(Syscall::try_from(0), Ok(Syscall::Thread));
    assert_eq!(Syscall::try_from(4), Ok(Syscall::Yield));
    assert_eq!(Syscall::try_from(8), Ok(Syscall::Write));
    assert_eq!(Syscall::try_from(9), Err(()));
}

#[test]
fn id_allocator_counts_from_one() {
    let mut ids = IDAllocator::new();
    assert_eq!(ids.allocate_id(), Some(1));
    assert_eq!(ids.allocate_id(), Some(2));
    ids.next = u64::MAX;
    assert_eq!(ids.allocate_id(), None);
}

#[test]
fn page_allocator_hands_out_pages_in_order() {
    let mut pages = PageAllocator::new(0x1000, 0x3000);
    assert_eq!(pages.allocate_page(), Some(0x1000));
    assert_eq!(pages.allocate_page(), Some(0x2000));
    assert_eq!(pages.allocate_page(), None);
}

#[test]
fn create_thread_queues_a_ready_child() {
    let mut k = boot();
    let r = k.handle_syscall(0, [0x8_0000, 0, 42], 0, String::from("worker"));
    assert!(matches!(r, Ok(SyscallRequest::Done)));
    assert_eq!(k.scheduler.current_thread, 0);
    assert_eq!(k.scheduler.thread_queue.iter().copied().collect::<Vec<u64>>(), vec![1]);
    assert_eq!(status_of(&k, 1), ThreadStatus::Ready);
    // The creator learns the new thread's number; the new thread gets its argument.
    assert_eq!(result_of(&k, 0), 1);
    assert_eq!(result_of(&k, 1), 42);
    let t = k.scheduler.table.iter().find(|t| t.id == 1).unwrap();
    assert_eq!(t.parent, Some(0));
    assert_eq!(t.name, "worker");
    assert_eq!(t.frame.elr, 0x8_0000);
    assert_eq!(t.frame.spsr, 0b101);
    assert_eq!(t.frame.gp_registers[0], 42);
    assert!(t.frame.gp_registers[1..].iter().all(|&r| r == 0));
    assert!(t.frame.fp_regs.iter().all(|&r| r == 0));
    // The frame sits below two zero words at the top of the stack page.
    assert_eq!(t.stack_pointer, 0xFFFF_FFFF_FFFF_FCD0);
    assert!(t.kernel_table.is_addr_mapped(TOP_PAGE, &k.memory));
    assert!(!t.user_table.is_addr_mapped(TOP_PAGE, &k.memory));
    assert_eq!(k.scheduler.table[0].children, vec![1]);
}

#[test]
fn create_thread_out_of_pages() {
    let mut memory = TableMemory::new();
    let kernel_table = PageTable::kernel_mapped(&mut memory);
    let user_table = PageTable::new_unmapped(&mut memory);
    let pages = PageAllocator::new(0x10_0000, 0x10_0000);
    let mut k = Kernel::with_page_allocator_and_filesystem(pages, memory, kernel_table, user_table);
    let r = k.create_thread(0x8_0000, [0, 0, 0], String::from("none"));
    assert_eq!(r, Err(KernelError::OutOfMemory));
    assert_eq!(k.scheduler.table.len(), 1);
}

#[test]
fn yield_exit_join_round_trip() {
    let mut k = boot();
    assert!(k.handle_syscall(0, [0x8_0000, 0, 0], 0, String::from("child")).is_ok());
    // The parent yields: the child runs.
    assert!(matches!(k.handle_syscall(4, [0, 0, 0], 0, String::new()), Ok(SyscallRequest::Done)));
    assert_eq!(k.scheduler.current_thread, 1);
    assert_eq!(status_of(&k, 1), ThreadStatus::Ready);
    // The child exits with 7: the parent runs again.
    assert!(matches!(k.handle_syscall(1, [7, 0, 0], 0, String::new()), Ok(SyscallRequest::Done)));
    assert_eq!(k.scheduler.current_thread, 0);
    assert_eq!(status_of(&k, 1), ThreadStatus::Exited(7));
    assert_eq!(k.scheduler.threads, vec![0]);
    // Joining the exited child gives its exit code and forgets the child.
    assert!(matches!(k.handle_syscall(3, [1, 0, 0], 0, String::new()), Ok(SyscallRequest::Done)));
    assert_eq!(result_of(&k, 0), 7);
    assert_eq!(k.scheduler.current_thread, 0);
    assert!(k.scheduler.table[0].children.is_empty());
}

#[test]
fn join_waits_for_running_child_then_gets_code() {
    let mut k = boot();
    assert!(k.handle_syscall(0, [0x8_0000, 0, 0], 0, String::from("child")).is_ok());
    // The parent joins: it waits and the child runs.
    assert!(k.handle_syscall(3, [1, 0, 0], 0, String::new()).is_ok());
    assert_eq!(status_of(&k, 0), ThreadStatus::Joining(1));
    assert_eq!(k.scheduler.current_thread, 1);
    // The child exits: the parent is woken with the code.
    assert!(k.handle_syscall(1, [3, 0, 0], 0, String::new()).is_ok());
    assert_eq!(k.scheduler.current_thread, 0);
    assert_eq!(result_of(&k, 0), 3);
}

#[test]
fn refused_syscalls() {
    let mut k = boot();
    assert!(Syscall::try_from(99).is_err());
    // Nothing else can run while thread 0 sleeps or exits alone.
    assert_eq!(k.handle_syscall(2, [10, 0, 0], 0, String::new()).unwrap_err(), KernelError::NothingToRun);
    assert_eq!(k.handle_syscall(1, [0, 0, 0], 0, String::new()).unwrap_err(), KernelError::NothingToRun);
    assert_eq!(k.handle_syscall(3, [5, 0, 0], 0, String::new()).unwrap_err(), KernelError::CannotJoin);
    assert_eq!(k.handle_syscall(2, [10, 0, 0], u64::MAX, String::new()).unwrap_err(), KernelError::TimeOverflow);
    assert_eq!(k.scheduler.current_thread, 0);
}

#[test]
fn wait_then_tick_wakes_sleeper() {
    let mut k = boot();
    assert!(k.handle_syscall(0, [0x8_0000, 0, 0], 0, String::from("child")).is_ok());
    assert!(k.handle_syscall(2, [100, 0, 0], 50, String::new()).is_ok());
    assert_eq!(status_of(&k, 0), ThreadStatus::Sleeping(150));
    assert_eq!(k.scheduler.current_thread, 1);
    // Too early: thread 0 sleeps on, thread 1 runs on.
    assert_eq!(k.tick(100), Ok(()));
    assert_eq!(status_of(&k, 0), ThreadStatus::Sleeping(150));
    assert_eq!(k.scheduler.current_thread, 1);
    // Due: thread 0 is woken and runs.
    assert_eq!(k.tick(150), Ok(()));
    assert_eq!(k.scheduler.current_thread, 0);
    assert_eq!(status_of(&k, 0), ThreadStatus::Running);
    assert!(k.scheduler.waiting_threads.is_empty());
}

#[test]
fn object_names() {
    assert_eq!(parse_object_name(b"file:FOO.TXT"), ObjectName::File { start: 5, end: 12 });
    assert_eq!(parse_object_name(b"file:A:B"), ObjectName::File { start: 5, end: 6 });
    assert_eq!(parse_object_name(b"stdio"), ObjectName::Stdio);
    assert_eq!(parse_object_name(b"stdio:x"), ObjectName::Stdio);
    assert_eq!(parse_object_name(b"file"), ObjectName::MissingPath);
    assert_eq!(parse_object_name(b"other"), ObjectName::Other);
    assert_eq!(parse_object_name(b""), ObjectName::Other);
}

#[test]
fn open_read_close_console() {
    let mut k = boot();
    let r = k.handle_syscall(5, [0x4000, 5, 0], 0, String::new());
    assert!(matches!(r, Ok(SyscallRequest::Open { address: 0x4000, length: 5 })));
    assert_eq!(k.open_object(b"stdio", None), Ok(Some(1)));
    assert_eq!(result_of(&k, 0), 1);
    let r = k.handle_syscall(7, [1, 0x5000, 16], 0, String::new());
    assert!(matches!(
        r,
        Ok(SyscallRequest::Transfer { object: KernelObject::Console(_), write: false, address: 0x5000, length: 16 })
    ));
    let r = k.handle_syscall(8, [1, 0x5000, 3], 0, String::new());
    assert!(matches!(r, Ok(SyscallRequest::Transfer { write: true, length: 3, .. })));
    k.complete_transfer(3);
    assert_eq!(result_of(&k, 0), 3);
    assert!(matches!(k.handle_syscall(6, [1, 0, 0], 0, String::new()), Ok(SyscallRequest::Done)));
    assert!(k.scheduler.table[0].objects.is_empty());
    assert!(matches!(k.handle_syscall(7, [1, 0, 0], 0, String::new()), Ok(SyscallRequest::Done)));
}

#[test]
fn open_missing_file_gives_zero() {
    let mut k = boot();
    assert_eq!(k.open_object(b"file:NOPE", None), Ok(Some(0)));
    assert_eq!(result_of(&k, 0), 0);
    assert_eq!(parse_object_name(b"file"), ObjectName::MissingPath);
    assert_eq!(k.open_object(b"disk", None), Ok(None));
}

#[test]
fn save_frame_and_return_thread() {
    let mut k = boot();
    k.save_frame(0xdead_0000);
    assert_eq!(k.scheduler.table[0].stack_pointer, 0xdead_0000);
    assert!(k.create_thread(0x8_0000, [0, 0, 0], String::from("c")).is_ok());
    assert_eq!(k.get_return_thread(), 1);
    assert_eq!(status_of(&k, 0), ThreadStatus::Ready);
    assert_eq!(status_of(&k, 1), ThreadStatus::Running);
}

#[test]
fn platform_ticks_on_kernel_timer() {
    let mut p = Platform::uninitialized();
    assert_eq!(p.get_current_thread(), None);
    assert_eq!(p.handle_interrupt(Some(InterruptType::KernelTimerInterrupt), 0), Ok(InterruptOutcome::Ignored));
    p.register_kernel(boot());
    assert_eq!(p.get_current_thread(), Some(0));
    assert_eq!(
        p.handle_interrupt(Some(InterruptType::KernelTimerInterrupt), 0),
        Ok(InterruptOutcome::Ticked { timeout: 1_000 })
    );
    assert_eq!(
        p.handle_interrupt(Some(InterruptType::TimerInterrupt), 0),
        Err(PlatformError::UnexpectedTimerInterrupt)
    );
    assert_eq!(p.handle_interrupt(None, 0), Ok(InterruptOutcome::Ignored));
    assert_eq!(p.allocate_page(), Some(0x10_0000));
}

/// An ELF image with one loadable segment of 20 file bytes and 40 bytes in
/// memory at 0x1000_0FF0, its bytes at offset 120 counting up from 1.
fn program_image() -> Vec<u8> {
    let mut b = vec![0u8; 160];
    b[0..4].copy_from_slice(&[0x7F, b'E', b'L', b'F']);
    b[24..32].copy_from_slice(&0x1000_0010u64.to_le_bytes());
    b[32..40].copy_from_slice(&64u64.to_le_bytes());
    b[54..56].copy_from_slice(&56u16.to_le_bytes());
    b[56..58].copy_from_slice(&1u16.to_le_bytes());
    b[64..68].copy_from_slice(&1u32.to_le_bytes());
    b[72..80].copy_from_slice(&120u64.to_le_bytes());
    b[80..88].copy_from_slice(&0x1000_0FF0u64.to_le_bytes());
    b[96..104].copy_from_slice(&20u64.to_le_bytes());
    b[104..112].copy_from_slice(&40u64.to_le_bytes());
    for i in 120..160 {
        b[i] = (i - 119) as u8;
    }
    b
}

#[test]
fn load_image_maps_every_page_of_the_program() {
    let mut k = boot();
    let image = program_image();
    let program = k.load_image(&image).expect("a loadable image");
    assert_eq!(program.entry, 0x1000_0010);
    assert_eq!(program.pages.len(), 2);
    assert_eq!(program.pages[0].0, 0x1000_0000);
    assert_eq!(program.pages[1].0, 0x1000_1000);
    assert_eq!(program.pages[0].1[0xFF0], 1);
    assert_eq!(program.pages[1].1[3], 20);
    assert_eq!(program.pages[1].1[4], 0);
    assert_eq!(program.fresh, vec![(0, 0x10_0000), (1, 0x10_1000)]);
    assert_eq!(program.stack_page, 0x10_2000);
    assert_eq!(program.stack_pointer, USER_STACK_PAGE + 4096 - 8);
    let user = k.scheduler.table[0].user_table;
    assert!(user.is_addr_mapped(0x1000_0000, &k.memory));
    assert!(user.is_addr_mapped(0x1000_1000, &k.memory));
    assert!(user.is_addr_mapped(USER_STACK_PAGE, &k.memory));
    assert!(!user.is_addr_mapped(0x1000_2000, &k.memory));
}

#[test]
fn load_image_leaves_mapped_pages_alone() {
    let mut k = boot();
    k.page_allocator = PageAllocator::new(0x10_0000, 0x10_6000);
    let image = program_image();
    let first = k.load_image(&image).expect("a loadable image");
    assert_eq!(first.fresh.len(), 2);
    let second = k.load_image(&image).expect("a loadable image");
    assert!(second.fresh.is_empty());
    assert_eq!(second.stack_page, 0x10_3000);
}

#[test]
fn load_image_refuses_what_is_no_program() {
    let mut k = boot();
    assert_eq!(k.load_image(&[0u8; 160]).err(), Some(KernelError::InvalidImage));
    let mut image = program_image();
    image[104..112].copy_from_slice(&u64::MAX.to_le_bytes());
    assert_eq!(k.load_image(&image).err(), Some(KernelError::InvalidImage));
}

#[test]
fn load_image_out_of_pages() {
    let mut k = boot();
    k.page_allocator = PageAllocator::new(0x10_0000, 0x10_1000);
    assert_eq!(k.load_image(&program_image()).err(), Some(KernelError::OutOfMemory));
}
