use vstd::prelude::*;

pub mod bitfield;
pub mod bit_array;
pub mod fat32;
pub mod fat_name;
pub mod volatile;
pub mod sync;
pub mod emmc;
pub mod emmc_controller;
pub mod exception;
pub mod mailbox;
pub mod mailbox_property;
pub mod framebuffer;
pub mod clock;
pub mod power;
pub mod hardware_config;
pub mod timer;
pub mod uart;
pub mod mini_uart;
pub mod interrupt;
pub mod gpio;
pub mod gpu;
pub mod kernel_object;
pub mod page_table;
pub mod thread;
pub mod scheduler;
pub mod semaphore;
pub mod counter;
pub mod kernel;
pub mod platform;
pub mod elf;

verus! {

} // verus!
