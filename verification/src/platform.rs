//! The platform: the kernel once it is registered, and what an interrupt
//! or a system call does to it. Reading the interrupt controller and the
//! clock, and returning to a thread, are the caller's.
use vstd::prelude::*;
use crate::exception::SyscallArgs;
use crate::interrupt::InterruptType;
use crate::kernel::{frame_saved, sleepers_ok, syscall_handled, syscall_of, ticked, Kernel, KernelError, SyscallRequest, TICK};
use crate::thread::ThreadID;

verus! {

/// Handlers of the interrupts the platform takes.
#[derive(Copy, Clone, Debug)]
pub struct InterruptHandler {}

impl InterruptHandler {
    pub fn new() -> (r: Self) {
        InterruptHandler {  }
    }
}

/// What handling an interrupt came to.
#[derive(Copy, Clone, Debug, PartialEq, Eq, Structural)]
pub enum InterruptOutcome {
    /// Nothing was done.
    Ignored,
    /// The kernel took a tick: clear the timer's matches, arm the kernel
    /// timer for `timeout` milliseconds, and return to the running thread.
    Ticked { timeout: u32 },
}

/// Why the platform refused to handle an interrupt.
#[derive(Copy, Clone, Debug, PartialEq, Eq, Structural)]
pub enum PlatformError {
    /// The general timer fired; only the kernel timer is used.
    UnexpectedTimerInterrupt,
    /// The kernel refused.
    Kernel(KernelError),
}

/// The platform.
pub struct Platform {
    pub interrupt_handlers: InterruptHandler,
    pub kernel: Option<Kernel>,
}

impl Platform {
    /// The kernel, when registered, is well formed.
    pub open spec fn wf(&self) -> bool {
        self.kernel matches Some(k) ==> k.wf()
    }

    /// A platform with no kernel yet.
    pub fn uninitialized() -> (r: Self)
        ensures
            r.wf(),
            r.kernel is None,
    {
        Platform { interrupt_handlers: InterruptHandler::new(), kernel: None }
    }

    /// Hands the platform its kernel.
    pub fn register_kernel(&mut self, kernel: Kernel)
        requires
            kernel.wf(),
        ensures
            final(self).wf(),
            final(self).kernel == Some(kernel),
    {
        self.kernel = Some(kernel);
    }

    /// The running thread, once there is a kernel.
    pub fn get_current_thread(&self) -> (r: Option<ThreadID>)
        ensures
            r == match self.kernel {
                Some(k) => Some(k.scheduler.current_thread),
                None => None::<ThreadID>,
            },
    {
        match &self.kernel {
            Some(kernel) => Some(kernel.scheduler.current_thread),
            None => None,
        }
    }

    /// Handles the interrupt `interrupt_type` at time `now`: the kernel
    /// timer makes the kernel take a tick; the general timer is refused;
    /// anything else, or no kernel, is ignored.
    pub fn handle_interrupt(&mut self, interrupt_type: Option<InterruptType>, now: u64) -> (r: Result<InterruptOutcome, PlatformError>)
        requires
            old(self).wf(),
        ensures
            final(self).wf(),
            match (interrupt_type, old(self).kernel) {
                (Some(InterruptType::KernelTimerInterrupt), Some(k)) => {
                    &&& sleepers_ok(k.scheduler) ==> {
                        &&& r == Ok::<InterruptOutcome, PlatformError>(InterruptOutcome::Ticked { timeout: TICK })
                        &&& final(self).kernel matches Some(k1) && ticked(k.scheduler, k1.scheduler, now)
                    }
                    &&& !sleepers_ok(k.scheduler) ==> r == Err::<InterruptOutcome, PlatformError>(
                        PlatformError::Kernel(KernelError::InconsistentSleepers),
                    )
                },
                (Some(InterruptType::TimerInterrupt), _) => r == Err::<InterruptOutcome, PlatformError>(
                    PlatformError::UnexpectedTimerInterrupt,
                ),
                _ => r == Ok::<InterruptOutcome, PlatformError>(InterruptOutcome::Ignored),
            },
    {
        match interrupt_type {
            Some(InterruptType::KernelTimerInterrupt) => {
                match &mut self.kernel {
                    Some(kernel) => match kernel.tick(now) {
                        Ok(()) => Ok(InterruptOutcome::Ticked { timeout: TICK }),
                        Err(error) => Err(PlatformError::Kernel(error)),
                    },
                    None => Ok(InterruptOutcome::Ignored),
                }
            },
            Some(InterruptType::TimerInterrupt) => Err(PlatformError::UnexpectedTimerInterrupt),
            _ => Ok(InterruptOutcome::Ignored),
        }
    }

    /// A free page from the kernel's allocator; `None` without a kernel or
    /// a free page.
    pub fn allocate_page(&mut self) -> (r: Option<u64>)
        requires
            old(self).wf(),
        ensures
            final(self).wf(),
            match old(self).kernel {
                Some(k) => if k.page_allocator.has_free_page() {
                    r == Some(k.page_allocator.next)
                } else {
                    r is None
                },
                None => r is None,
            },
    {
        match &mut self.kernel {
            Some(kernel) => kernel.allocate_page(),
            None => None,
        }
    }

    /// Passes system call `number` with `args` to the kernel, as
    /// `Kernel::handle_syscall` does; `None` without a kernel. The number
    /// must name a call.
    pub fn handle_syscall(&mut self, number: usize, args: SyscallArgs, now: u64, name: String) -> (r: Option<Result<SyscallRequest, KernelError>>)
        requires
            old(self).wf(),
            syscall_of(number as u64) is Some,
        ensures
            final(self).wf(),
            match old(self).kernel {
                Some(k0) => final(self).kernel matches Some(k1) && r matches Some(answer)
                    && syscall_handled(k0, k1, number, args, now, answer),
                None => r is None && final(self).kernel is None,
            },
    {
        match &mut self.kernel {
            Some(kernel) => Some(kernel.handle_syscall(number, args, now, name)),
            None => None,
        }
    }

    /// Records that the running thread's registers were saved at
    /// `frame_address`, once there is a kernel.
    pub fn save_frame(&mut self, frame_address: u64)
        requires
            old(self).wf(),
        ensures
            final(self).wf(),
            match old(self).kernel {
                Some(k0) => final(self).kernel matches Some(k1) && frame_saved(k0, k1, frame_address),
                None => final(self).kernel is None,
            },
    {
        match &mut self.kernel {
            Some(kernel) => kernel.save_frame(frame_address),
            None => {},
        }
    }
}

} // verus!
