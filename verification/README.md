# raspi_os

A small operating system kernel for the Raspberry Pi 3, written in Verus.

`src/` is the verified library: the register layouts of the peripherals
(GPIO, mini UART, system timer, interrupt controller, mailbox, EMMC), the
mailbox property messages, bringing up an SD card and reading blocks from
it, FAT32 on-disk structures, the AArch64 translation tables, exceptions,
threads, the round-robin scheduler and the kernel's system calls, and
loading ELF programs: the pages of their loadable segments and their
mapping in a thread's user table. Verus checks every function of `src/`
against its contract. Where a result rests on what the hardware answers,
the contract says what holds of every answer, and the doc comment says
what is left unsaid.

Frame buffers keep their pixels in a `Vec` of the library; copying them to
the memory the VideoCore handed out, copying a loaded program's bytes into
the pages the kernel mapped for it, and jumping into it, are left to the
code that runs the library on the board. Translation tables likewise live
in the library's table memory, table `i` standing for the page at
`(i + 1) * 4096`.

Registers appear in the library as values; the hardware is reached through
`EMMCSlot`, `Timer`, `CpuDelay` and `MailboxController`, which say nothing of
what the hardware answers, so the library's contracts hold whatever it
answers. What passes between the library and the hardware is recorded in ghost logs:
the EMMC controller's commands, the card's answers as the library parses
the response registers, the words it
reads, the host versions and the clock dividers, and the characters a
console sends; the contracts of card bring-up, block reads and console
output are stated over those logs.

`app/` runs the library on the board: volatile accesses at the peripherals'
addresses, the console's formatting, and the exception entry that hands
system calls and interrupts to the kernel.

`tests/` exercises the library on concrete values.
