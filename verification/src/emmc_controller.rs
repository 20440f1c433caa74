//! Bringing up an SD card through the EMMC host controller, and reading
//! blocks from it.
//!
//! The controller talks to the slot's registers through `EMMCSlot`; what the
//! hardware answers is the slot's, so the contracts here say what holds
//! whatever it answered, and the decisions taken on an answer stand in
//! functions of their own with exact contracts.
use vstd::prelude::*;
use crate::bitfield::{field32, field64, with_field32, with_field64};
use crate::emmc::{
    clock_divider, clock_divider_for, parse_answer, parsed_response, ACMD41Response, EMMCConfiguration, InterruptType,
    ResponseType, SDCommand, SDConfigurationRegister, StatusSetting, ACMD41_ARG_HC,
    APPLICATION_SPECIFIC_COMMAND, APPLICATION_SPECIFIC_COMMAND_48, CARD_SELECT, GO_IDLE, READ_MULTIPLE_BLOCKS, READ_SINGLE_BLOCK,
    SCR_SUPP_CCS, SEND_CARD_IDENTIFICATION, SEND_INTERFACE_CONDITIONS, SEND_OP_COND,
    SEND_RELATIVE_ADDRESS, SEND_SD_CONFIGURATION_REGISTER, SET_BLOCK_COUNT, SET_BUS_WIDTH,
    STOP_TRANSMISSION,
};
use crate::gpio::{
    lemma_set_mode_then_get, mode_bits, pin_mode_of, pull_bits, pull_steps_for, CpuDelay, GPIOController,
    Mode, Pin, Pull, PullStep, PINS,
};
use crate::bit_array::{with_bit, BitArray};
use crate::timer::Timer;

verus! {

/// The register block of an SD slot, as the controller drives it. Each
/// method is one access, or one bounded poll, of the hardware; what it
/// returns is the hardware's.
pub trait EMMCSlot {
    fn wait_for_interrupt(&self, interrupt: InterruptType) -> Result<(), &'static str>;

    fn wait_for_status(&self, status: StatusSetting) -> Result<(), &'static str>;

    fn wait_for_command_response(&self) -> Result<u32, &'static str>;

    /// The second, third and fourth response registers, in that order.
    fn read_response_registers(&self) -> [u32; 3];

    fn send_command(&self, command: SDCommand, argument: u32);

    fn is_clock_enabled(&self) -> bool;

    fn enable_clock(&self);

    fn disable_clock(&self);

    fn configure_clock(&self, d: u32);

    fn configure_internal_clocks(&self, data_timeout_exponent: u32);

    fn start_reset(&self);

    fn is_reset_complete(&self) -> bool;

    fn enable_interrupts(&self);

    fn set_block_size_and_count(&self, size: u32, count: u32);

    fn is_read_available(&self) -> bool;

    fn read_data(&self) -> u32;

    fn get_host_controller_specification_version(&self) -> u32;

    fn use_four_data_lines(&self);

    fn is_inhibited(&self) -> bool;

    fn rewrite_interrupt(&self);
}

/// Why bringing up the card or reading from it failed.
#[derive(Copy, Clone, Debug, PartialEq, Eq)]
pub enum EMMCError {
    /// The command line stayed inhibited.
    Busy,
    /// The card sent no answer to a command.
    NoResponse(&'static str),
    /// The card's answer to a command was refused.
    BadResponse(&'static str),
    /// The card refused an application command.
    ApplicationCommandRefused,
    /// The clock did not come up after a new divider.
    ClockNotStable,
    /// The host circuit reset did not complete.
    ResetFailed,
    /// The card did not go idle.
    NotIdle,
    /// The card refused the interface conditions.
    InterfaceConditions,
    /// The card did not finish powering up.
    PowerUpTimeout,
    /// The card reports no voltage window.
    Voltage,
    /// The data line stayed inhibited.
    DataInhibited,
    /// Data the card was to send did not come.
    DataTimeout,
    /// The configuration register could not be read.
    ConfigurationRead,
}

/// Polls of the clock-stable flag after a new divider.
pub const CLOCK_STABLE_TRIES: u32 = 10_000;

/// Polls of the reset flag.
pub const RESET_TRIES: u32 = 10_000;

/// Milliseconds to wait for the command line before a new clock divider.
pub const SET_CLOCK_FREQUENCY_TIMEOUT: u32 = 100_000;

/// Polls for each word of the configuration register.
pub const CONFIGURATION_READ_TRIES: u32 = 100_000;

/// Card clock while identifying the card, in Hz.
pub const IDENTIFICATION_FREQUENCY: u32 = 400_000;

/// Card clock for data transfer, in Hz.
pub const TRANSFER_FREQUENCY: u32 = 25_000_000;

/// Words in a block of 512 bytes.
pub const BLOCK_WORDS: usize = 128;

/// The command that announces an application command: with a 48-bit answer
/// once the card has a relative address.
pub open spec fn application_command_value(relative_card_address: u32) -> u32 {
    if relative_card_address != 0 {
        with_field32(APPLICATION_SPECIFIC_COMMAND, 16, 17, 10)
    } else {
        APPLICATION_SPECIFIC_COMMAND
    }
}

/// The application command announcement for a card at `relative_card_address`.
pub fn application_command(relative_card_address: u32) -> (r: SDCommand)
    ensures
        r.value == application_command_value(relative_card_address),
{
    let command = SDCommand { value: APPLICATION_SPECIFIC_COMMAND };
    if relative_card_address != 0 {
        command.set_response_type(ResponseType::Response48Bit.as_u32())
    } else {
        command
    }
}

/// What the announcement of an application command comes to, given what
/// sending it gave: its error; or, once the card has a relative address, a
/// refusal when the card's answer is zero.
pub fn application_command_outcome(relative_card_address: u32, sent: Result<u32, EMMCError>) -> (r: Result<(), EMMCError>)
    ensures
        match sent {
            Err(e) => r == Err::<(), EMMCError>(e),
            Ok(v) => if relative_card_address != 0 && v == 0 {
                r == Err::<(), EMMCError>(EMMCError::ApplicationCommandRefused)
            } else {
                r == Ok::<(), EMMCError>(())
            },
        },
{
    match sent {
        Err(error) => Err(error),
        Ok(value) => {
            if relative_card_address != 0 && value == 0 {
                Err(EMMCError::ApplicationCommandRefused)
            } else {
                Ok(())
            }
        },
    }
}

/// The announcement of an application command, with its argument, for a
/// card at `relative_card_address`.
pub open spec fn announcement(relative_card_address: u32) -> (u32, u32) {
    (application_command_value(relative_card_address), relative_card_address)
}

/// `command` as it goes out: an application command without its flag.
pub open spec fn outgoing(command: u32) -> u32 {
    if field32(command, 31, 31) == 1 {
        with_field32(command, 31, 31, 0)
    } else {
        command
    }
}

/// The log `after` is `before` with `command` and `argument` sent: for an
/// application command, without its flag and maybe after its announcement.
pub open spec fn sent_as(
    before: Seq<(u32, u32)>,
    after: Seq<(u32, u32)>,
    relative_card_address: u32,
    command: u32,
    argument: u32,
) -> bool {
    let x = (outgoing(command), argument);
    if field32(command, 31, 31) == 1 {
        after == before.push(x) || after == before.push(announcement(relative_card_address)).push(x)
    } else {
        after == before.push(x)
    }
}

/// The answer log `after` is `before` with the answer `value` to `command`:
/// for an application command, the answer to its flagless form, maybe
/// after the answer to its announcement.
pub open spec fn answered_as(before: Seq<(u32, u32)>, after: Seq<(u32, u32)>, command: u32, value: u32) -> bool {
    &&& after.len() > 0
    &&& after.last() == (outgoing(command), value)
    &&& if field32(command, 31, 31) == 1 {
        ||| after.drop_last() == before
        ||| (after.drop_last().len() == before.len() + 1 && after.drop_last().drop_last() == before
            && is_announcement(after.drop_last().last().0))
    } else {
        after.drop_last() == before
    }
}

/// The polls `p` of a flag that is given `tries` tries: every poll but the
/// last found it unset, and the wait ended at the first that found it set
/// or when the tries ran out.
pub open spec fn polled(p: Seq<bool>, tries: u32) -> bool {
    &&& 1 <= p.len() <= tries + 1
    &&& forall|i: int| 0 <= i < p.len() - 1 ==> !p[i]
    &&& (p.last() || p.len() == tries + 1)
}

/// A wait of `tries` tries that ended with the polls `p` succeeded: the
/// flag was found set before the tries ran out.
pub open spec fn poll_succeeded(p: Seq<bool>, tries: u32) -> bool {
    p.last() && p.len() <= tries
}

/// Milliseconds to wait after sending the command with value `command`
/// before reading its answer.
pub open spec fn command_delay(command: u32) -> u64 {
    if command == SEND_OP_COND {
        1000
    } else if command == SEND_INTERFACE_CONDITIONS || command == APPLICATION_SPECIFIC_COMMAND {
        100
    } else {
        0
    }
}

/// The wait after sending `command`.
pub fn command_delay_millis(command: SDCommand) -> (r: u64)
    ensures
        r == command_delay(command.value),
{
    if command.value == SEND_OP_COND {
        1000
    } else if command.value == SEND_INTERFACE_CONDITIONS || command.value
        == APPLICATION_SPECIFIC_COMMAND {
        100
    } else {
        0
    }
}

/// Drives an SD card in `slot`, timing its waits with `timer`.
pub struct EMMCController<S: EMMCSlot, T: Timer> {
    pub slot: S,
    pub timer: T,
    pub configuration: EMMCConfiguration,
    /// Each command handed to the slot, with its argument, oldest first.
    pub sent: Ghost<Seq<(u32, u32)>>,
    /// Each word taken from the slot's data register, oldest first.
    pub received: Ghost<Seq<u32>>,
    /// Each parsed answer the card gave, with the command it answered, oldest
    /// first.
    pub answers: Ghost<Seq<(u32, u32)>>,
    /// Each host controller version read from the slot, oldest first.
    pub versions: Ghost<Seq<u32>>,
    /// Each clock divider written to the slot, oldest first.
    pub dividers: Ghost<Seq<u32>>,
    /// Each poll of the reset-complete or clock-stable flag, with what it
    /// found, oldest first.
    pub polls: Ghost<Seq<bool>>,
}

impl<S: EMMCSlot, T: Timer> EMMCController<S, T> {
    /// A controller of a card not brought up yet.
    pub fn new(slot: S, timer: T) -> (r: Self)
        ensures
            r.slot == slot,
            r.timer == timer,
            r.configuration.relative_card_address == 0,
            r.configuration.hardware_version == 0,
            r.configuration.configuration.value == 0,
            r.sent@ == Seq::<(u32, u32)>::empty(),
            r.received@ == Seq::<u32>::empty(),
            r.answers@ == Seq::<(u32, u32)>::empty(),
            r.versions@ == Seq::<u32>::empty(),
            r.dividers@ == Seq::<u32>::empty(),
            r.polls@ == Seq::<bool>::empty(),
    {
        EMMCController {
            slot,
            timer,
            configuration: EMMCConfiguration::new(),
            sent: Ghost(Seq::empty()),
            received: Ghost(Seq::empty()),
            answers: Ghost(Seq::empty()),
            versions: Ghost(Seq::empty()),
            dividers: Ghost(Seq::empty()),
            polls: Ghost(Seq::empty()),
        }
    }

    /// Polls the slot's reset-complete flag.
    fn poll_reset(&mut self) -> (done: bool)
        ensures
            final(self).polls@ == old(self).polls@.push(done),
            final(self).sent@ == old(self).sent@,
            final(self).received@ == old(self).received@,
            final(self).answers@ == old(self).answers@,
            final(self).versions@ == old(self).versions@,
            final(self).dividers@ == old(self).dividers@,
            final(self).configuration == old(self).configuration,
    {
        let done = self.slot.is_reset_complete();
        self.polls = Ghost(self.polls@.push(done));
        done
    }

    /// Polls the slot's clock-stable flag.
    fn poll_clock(&mut self) -> (stable: bool)
        ensures
            final(self).polls@ == old(self).polls@.push(stable),
            final(self).sent@ == old(self).sent@,
            final(self).received@ == old(self).received@,
            final(self).answers@ == old(self).answers@,
            final(self).versions@ == old(self).versions@,
            final(self).dividers@ == old(self).dividers@,
            final(self).configuration == old(self).configuration,
    {
        let stable = self.slot.is_clock_enabled();
        self.polls = Ghost(self.polls@.push(stable));
        stable
    }

    /// Reads the host controller's specification version from the slot.
    fn read_host_version(&mut self) -> (v: u32)
        ensures
            final(self).versions@ == old(self).versions@.push(v),
            final(self).sent@ == old(self).sent@,
            final(self).received@ == old(self).received@,
            final(self).answers@ == old(self).answers@,
            final(self).dividers@ == old(self).dividers@,
            final(self).configuration == old(self).configuration,
    {
        let v = self.slot.get_host_controller_specification_version();
        self.versions = Ghost(self.versions@.push(v));
        v
    }

    /// Hands `command` with `argument` to the slot.
    fn issue(&mut self, command: SDCommand, argument: u32)
        ensures
            final(self).sent@ == old(self).sent@.push((command.value, argument)),
            final(self).received@ == old(self).received@,
            final(self).answers@ == old(self).answers@,
            final(self).versions@ == old(self).versions@,
            final(self).dividers@ == old(self).dividers@,
            final(self).configuration == old(self).configuration,
    {
        self.slot.send_command(command, argument);
        self.sent = Ghost(self.sent@.push((command.value, argument)));
    }

    /// Takes the next word from the slot's data register.
    fn read_word(&mut self) -> (w: u32)
        ensures
            final(self).received@ == old(self).received@.push(w),
            final(self).sent@ == old(self).sent@,
            final(self).answers@ == old(self).answers@,
            final(self).versions@ == old(self).versions@,
            final(self).dividers@ == old(self).dividers@,
            final(self).configuration == old(self).configuration,
    {
        let w = self.slot.read_data();
        self.received = Ghost(self.received@.push(w));
        w
    }

    /// Sends `command` with `argument` as is: waits for the command line,
    /// sends, waits as `command_delay` says, and gives the card's parsed
    /// answer.
    fn send_plain_command(&mut self, command: SDCommand, argument: u32) -> (r: Result<u32, EMMCError>)
        ensures
            r matches Ok(v) ==> exists|w: (u32, u32, u32, u32)|
                parsed_response(w.0, w.1, w.2, w.3, command.value, argument) == Ok::<u32, ()>(v),
            r matches Err(EMMCError::BadResponse(_)) ==> command.value == SEND_INTERFACE_CONDITIONS,
            final(self).configuration == old(self).configuration,
            final(self).received@ == old(self).received@,
            r is Ok ==> final(self).sent@ == old(self).sent@.push((command.value, argument)),
            final(self).sent@ == old(self).sent@ || final(self).sent@ == old(self).sent@.push(
                (command.value, argument),
            ),
            r matches Err(e) ==> (e is Busy || e is NoResponse || e is BadResponse),
            r == Err::<u32, EMMCError>(EMMCError::Busy) ==> final(self).sent@ == old(self).sent@,
            r matches Err(e) && !(e is Busy) ==> final(self).sent@ == old(self).sent@.push(
                (command.value, argument),
            ),
            r matches Ok(v) ==> final(self).answers@ == old(self).answers@.push((command.value, v)),
            r is Err ==> final(self).answers@ == old(self).answers@,
            final(self).versions@ == old(self).versions@,
            final(self).dividers@ == old(self).dividers@,
    {
        if self.slot.wait_for_status(StatusSetting::CommandInhibit).is_err() {
            return Err(EMMCError::Busy);
        }
        self.slot.rewrite_interrupt();
        self.issue(command, argument);
        let delay = command_delay_millis(command);
        if delay > 0 {
            self.timer.delay_millis(delay);
        }
        let response = match self.slot.wait_for_command_response() {
            Ok(response) => response,
            Err(message) => {
                return Err(EMMCError::NoResponse(message));
            },
        };
        let more = self.slot.read_response_registers();
        match parse_answer(response, more, command, argument) {
            Ok(value) => {
                let ghost w = (response, more@[0], more@[1], more@[2]);
                assert(parsed_response(w.0, w.1, w.2, w.3, command.value, argument) == Ok::<u32, ()>(value));
                self.answers = Ghost(self.answers@.push((command.value, value)));
                Ok(value)
            },
            Err(message) => Err(EMMCError::BadResponse(message)),
        }
    }

    /// Announces an application command to the card.
    fn send_application_specific_command(&mut self) -> (r: Result<(), EMMCError>)
        ensures
            final(self).configuration == old(self).configuration,
            final(self).received@ == old(self).received@,
            final(self).sent@ == old(self).sent@ || final(self).sent@ == old(self).sent@.push(
                announcement(old(self).configuration.relative_card_address),
            ),
            r is Ok ==> final(self).sent@ == old(self).sent@.push(
                announcement(old(self).configuration.relative_card_address),
            ),
            r == Err::<(), EMMCError>(EMMCError::ApplicationCommandRefused) ==> {
                &&& old(self).configuration.relative_card_address != 0
                &&& final(self).sent@ == old(self).sent@.push(
                    announcement(old(self).configuration.relative_card_address),
                )
            },
            final(self).answers@ == old(self).answers@ || (final(self).answers@.drop_last()
                == old(self).answers@ && final(self).answers@.len() == old(self).answers@.len() + 1
                && is_announcement(final(self).answers@.last().0)),
            final(self).versions@ == old(self).versions@,
            final(self).dividers@ == old(self).dividers@,
    {
        proof {
            lemma_bring_up_values();
        }
        let relative_card_address = self.configuration.relative_card_address;
        let command = application_command(relative_card_address);
        let ghost before = self.answers@;
        let sent = self.send_plain_command(command, relative_card_address);
        proof {
            assert(is_announcement(command.value));
            if sent is Ok {
                assert(self.answers@.drop_last() =~= before);
            }
        }
        application_command_outcome(relative_card_address, sent)
    }

    /// Sends `command` with `argument`. An application command is announced
    /// first (whatever the announcement gives), and goes out with its
    /// application flag cleared.
    pub fn send_command(&mut self, command: SDCommand, argument: u32) -> (r: Result<u32, EMMCError>)
        ensures
            final(self).configuration == old(self).configuration,
            final(self).received@ == old(self).received@,
            r is Ok ==> sent_as(
                old(self).sent@,
                final(self).sent@,
                old(self).configuration.relative_card_address,
                command.value,
                argument,
            ),
            old(self).sent@.is_prefix_of(final(self).sent@),
            r matches Err(e) ==> (e is Busy || e is NoResponse || e is BadResponse),
            r matches Ok(v) ==> answered_as(old(self).answers@, final(self).answers@, command.value, v),
            old(self).answers@.is_prefix_of(final(self).answers@),
            final(self).versions@ == old(self).versions@,
            final(self).dividers@ == old(self).dividers@,
    {
        let ghost before = self.answers@;
        let mut command = command;
        if command.get_is_application_specific() == 1 {
            let _ = self.send_application_specific_command();
            command = command.set_is_application_specific(0);
        }
        let ghost middle = self.answers@;
        let r = self.send_plain_command(command, argument);
        proof {
            if r is Ok {
                assert(self.answers@.drop_last() =~= middle);
            }
        }
        r
    }
}

impl<S: EMMCSlot, T: Timer> EMMCController<S, T> {
    /// The divider bits for a card clock of `f` Hz on this controller.
    pub fn calculate_d(&self, f: u32) -> (d: u32)
        requires
            1 <= f <= 41666666,
        ensures
            d == clock_divider(f, self.configuration.hardware_version),
    {
        clock_divider_for(f, self.configuration.hardware_version)
    }

    /// Counts down `SET_CLOCK_FREQUENCY_TIMEOUT` milliseconds, and on
    /// while the command line is inhibited. The count is always used up by
    /// the time the wait ends, so the wait always reports a time out.
    fn wait_until_uninhibited(&self) -> (r: Result<(), EMMCError>)
        ensures
            r == Err::<(), EMMCError>(EMMCError::Busy),
    {
        let mut count: u32 = SET_CLOCK_FREQUENCY_TIMEOUT;
        loop
            invariant
                count <= SET_CLOCK_FREQUENCY_TIMEOUT,
            decreases count,
        {
            let inhibited = self.slot.is_inhibited();
            if !inhibited && count == 0 {
                break;
            }
            if count == 0 {
                return Err(EMMCError::Busy);
            }
            self.timer.delay_millis(1);
            count = count - 1;
        }
        Err(EMMCError::Busy)
    }

    /// Switches the card clock to `f` Hz: waits for the command line, stops
    /// the clock, writes the divider, restarts the clock and polls until it
    /// is stable.
    pub fn set_clock_frequency(&mut self, f: u32) -> (r: Result<(), EMMCError>)
        requires
            1 <= f <= 41666666,
        ensures
            final(self).configuration == old(self).configuration,
            final(self).sent@ == old(self).sent@,
            final(self).received@ == old(self).received@,
            final(self).answers@ == old(self).answers@,
            final(self).versions@ == old(self).versions@,
            final(self).dividers@ == old(self).dividers@.push(
                clock_divider(f, old(self).configuration.hardware_version),
            ),
            r is Err ==> r == Err::<(), EMMCError>(EMMCError::ClockNotStable),
            old(self).polls@.is_prefix_of(final(self).polls@),
            polled(final(self).polls@.skip(old(self).polls@.len() as int), CLOCK_STABLE_TRIES),
            r is Ok <==> poll_succeeded(final(self).polls@.skip(old(self).polls@.len() as int), CLOCK_STABLE_TRIES),
    {
        let _ = self.wait_until_uninhibited();
        self.slot.disable_clock();
        self.timer.delay_micros(10);
        let d = self.calculate_d(f);
        self.slot.configure_clock(d);
        self.dividers = Ghost(self.dividers@.push(d));
        self.timer.delay_micros(10);
        self.slot.enable_clock();
        self.timer.delay_micros(10);
        let ghost polls0 = self.polls@;
        let mut count: u32 = CLOCK_STABLE_TRIES;
        let mut stable = self.poll_clock();
        while !stable && count > 0
            invariant
                count <= CLOCK_STABLE_TRIES,
                polls0 == old(self).polls@,
                polls0.is_prefix_of(self.polls@),
                self.polls@.len() == polls0.len() + (CLOCK_STABLE_TRIES - count) + 1,
                forall|i: int| polls0.len() <= i < self.polls@.len() - 1 ==> !self.polls@[i],
                self.polls@.last() == stable,
                self.configuration == old(self).configuration,
                self.sent@ == old(self).sent@,
                self.received@ == old(self).received@,
                self.answers@ == old(self).answers@,
                self.versions@ == old(self).versions@,
                self.dividers@ == old(self).dividers@.push(
                    clock_divider(f, old(self).configuration.hardware_version),
                ),
            decreases count,
        {
            count = count - 1;
            self.timer.delay_micros(10);
            stable = self.poll_clock();
        }
        let ghost p = self.polls@.skip(polls0.len() as int);
        assert(p.len() == (CLOCK_STABLE_TRIES - count) + 1);
        assert(p.last() == stable);
        assert forall|i: int| 0 <= i < p.len() - 1 implies !p[i] by {
            assert(p[i] == self.polls@[polls0.len() + i]);
        }
        if count == 0 {
            return Err(EMMCError::ClockNotStable);
        }
        Ok(())
    }

    /// Resets the host circuit and polls until the reset completes.
    fn reset_card(&mut self) -> (r: Result<(), EMMCError>)
        ensures
            final(self).configuration == old(self).configuration,
            final(self).sent@ == old(self).sent@,
            final(self).received@ == old(self).received@,
            final(self).answers@ == old(self).answers@,
            final(self).versions@ == old(self).versions@,
            final(self).dividers@ == old(self).dividers@,
            r is Err ==> r == Err::<(), EMMCError>(EMMCError::ResetFailed),
            old(self).polls@.is_prefix_of(final(self).polls@),
            polled(final(self).polls@.skip(old(self).polls@.len() as int), RESET_TRIES),
            r is Ok <==> poll_succeeded(final(self).polls@.skip(old(self).polls@.len() as int), RESET_TRIES),
    {
        self.slot.start_reset();
        let ghost polls0 = self.polls@;
        let mut count: u32 = RESET_TRIES;
        self.timer.delay_micros(10);
        let mut done = self.poll_reset();
        while !done && count > 0
            invariant
                count <= RESET_TRIES,
                polls0 == old(self).polls@,
                polls0.is_prefix_of(self.polls@),
                self.polls@.len() == polls0.len() + (RESET_TRIES - count) + 1,
                forall|i: int| polls0.len() <= i < self.polls@.len() - 1 ==> !self.polls@[i],
                self.polls@.last() == done,
                self.configuration == old(self).configuration,
                self.sent@ == old(self).sent@,
                self.received@ == old(self).received@,
                self.answers@ == old(self).answers@,
                self.versions@ == old(self).versions@,
                self.dividers@ == old(self).dividers@,
            decreases count,
        {
            count = count - 1;
            self.timer.delay_micros(10);
            done = self.poll_reset();
        }
        let ghost p = self.polls@.skip(polls0.len() as int);
        assert(p.len() == (RESET_TRIES - count) + 1);
        assert(p.last() == done);
        assert forall|i: int| 0 <= i < p.len() - 1 implies !p[i] by {
            assert(p[i] == self.polls@[polls0.len() + i]);
        }
        if count == 0 {
            return Err(EMMCError::ResetFailed);
        }
        Ok(())
    }

    /// Reads the card's configuration register: asks for it, waits until it
    /// is ready, then takes its two words as they become available.
    fn read_configuration(&mut self) -> (r: Result<SDConfigurationRegister, EMMCError>)
        ensures
            final(self).configuration == old(self).configuration,
            old(self).sent@.is_prefix_of(final(self).sent@),
            old(self).received@.is_prefix_of(final(self).received@),
            r matches Ok(scr) ==> {
                let n = old(self).received@.len() as int;
                &&& sent_as(
                    old(self).sent@,
                    final(self).sent@,
                    old(self).configuration.relative_card_address,
                    SEND_SD_CONFIGURATION_REGISTER,
                    0,
                )
                &&& final(self).received@.len() == n + 2
                &&& scr.value == final(self).received@[n] as int * 0x1_0000_0000
                    + final(self).received@[n + 1] as int
                &&& exists|v: u32| answered_as(old(self).answers@, final(self).answers@, SEND_SD_CONFIGURATION_REGISTER, v)
            },
            old(self).answers@.is_prefix_of(final(self).answers@),
            final(self).versions@ == old(self).versions@,
            final(self).dividers@ == old(self).dividers@,
            r matches Err(e) ==> (e is Busy || e is NoResponse || e is BadResponse || e is DataTimeout
                || e is ConfigurationRead),
    {
        let ghost n = self.received@.len() as int;
        let command = SDCommand { value: SEND_SD_CONFIGURATION_REGISTER };
        let answer = match self.send_command(command, 0) {
            Ok(answer) => answer,
            Err(error) => {
                return Err(error);
            },
        };
        if self.slot.wait_for_interrupt(InterruptType::ReadReady).is_err() {
            return Err(EMMCError::DataTimeout);
        }
        let ghost answers_then = self.answers@;
        let mut r: usize = 0;
        let mut count: u32 = CONFIGURATION_READ_TRIES;
        let mut scr: [u32; 2] = [0, 0];
        let ghost sent_then = self.sent@;
        while r < 2 && count > 0
            invariant
                r <= 2,
                count <= CONFIGURATION_READ_TRIES,
                self.configuration == old(self).configuration,
                self.sent@ == sent_then,
                self.answers@ == answers_then,
                self.versions@ == old(self).versions@,
                self.dividers@ == old(self).dividers@,
                n == old(self).received@.len(),
                self.received@.len() == n + r,
                old(self).received@.is_prefix_of(self.received@),
                forall|i: int| 0 <= i < r ==> scr@[i] == self.received@[n + i],
            decreases count,
        {
            count = count - 1;
            if self.slot.is_read_available() {
                scr[r] = self.read_word();
                r = r + 1;
            }
        }
        if r != 2 {
            return Err(EMMCError::ConfigurationRead);
        }
        assert(answered_as(old(self).answers@, self.answers@, SEND_SD_CONFIGURATION_REGISTER, answer));
        Ok(SDConfigurationRegister::from_array(scr))
    }
}

/// Gives pin `number` the function `mode`; every other pin keeps its function.
fn set_pin_function(gpio: &mut GPIOController, number: u32, mode: Mode)
    requires
        number <= PINS,
    ensures
        forall|n: u32|
            n <= PINS ==> #[trigger] pin_mode_of(final(gpio).registers, n) == if n == number {
                mode_bits(mode)
            } else {
                pin_mode_of(old(gpio).registers, n)
            },
        final(gpio).registers.pull_register == old(gpio).registers.pull_register,
        final(gpio).registers.pull_enable == old(gpio).registers.pull_enable,
        final(gpio).registers.high_detect_enable == old(gpio).registers.high_detect_enable,
        final(gpio).pull_steps == old(gpio).pull_steps,
        final(gpio).registers.set_output == old(gpio).registers.set_output,
        final(gpio).registers.clear_output == old(gpio).registers.clear_output,
        final(gpio).registers.gplev == old(gpio).registers.gplev,
        final(gpio).registers.gpsed == old(gpio).registers.gpsed,
        final(gpio).registers.gpren == old(gpio).registers.gpren,
        final(gpio).registers.gpfen == old(gpio).registers.gpfen,
        final(gpio).registers.gplen == old(gpio).registers.gplen,
        final(gpio).registers.gparen == old(gpio).registers.gparen,
        final(gpio).registers.gpafen == old(gpio).registers.gpafen,
{
    let ghost before = gpio.registers;
    gpio.set_mode(Pin::new_unchecked(number), mode);
    proof {
        assert forall|n: u32| n <= PINS implies #[trigger] pin_mode_of(gpio.registers, n) == if n
            == number {
            mode_bits(mode)
        } else {
            pin_mode_of(before, n)
        } by {
            lemma_set_mode_then_get(before, gpio.registers, number, mode, n);
        }
    }
}

/// Pulls pin `number` up: the pull register selects pull-up and the pin's
/// pull-enable bit is clocked (set, then cleared); no pin's function changes.
fn pull_up<D: CpuDelay>(gpio: &mut GPIOController, number: u32, delay: &D)
    requires
        number <= PINS,
    ensures
        final(gpio).registers.pull_register.value == pull_bits(Pull::Up),
        ({
            let block = (number / 32) as int;
            let bit = number % 32;
            final(gpio).registers.pull_enable@ == old(gpio).registers.pull_enable@.update(
                block,
                BitArray { array: with_bit(with_bit(old(gpio).registers.pull_enable@[block].array, bit, 1), bit, 0) },
            )
        }),
        forall|n: u32| n <= PINS ==> #[trigger] pin_mode_of(final(gpio).registers, n) == pin_mode_of(old(gpio).registers, n),
        final(gpio).registers.high_detect_enable == old(gpio).registers.high_detect_enable,
        final(gpio).pull_steps@ == old(gpio).pull_steps@ + pull_steps_for(number, Pull::Up),
        final(gpio).registers.set_output == old(gpio).registers.set_output,
        final(gpio).registers.clear_output == old(gpio).registers.clear_output,
        final(gpio).registers.gplev == old(gpio).registers.gplev,
        final(gpio).registers.gpsed == old(gpio).registers.gpsed,
        final(gpio).registers.gpren == old(gpio).registers.gpren,
        final(gpio).registers.gpfen == old(gpio).registers.gpfen,
        final(gpio).registers.gplen == old(gpio).registers.gplen,
        final(gpio).registers.gparen == old(gpio).registers.gparen,
        final(gpio).registers.gpafen == old(gpio).registers.gpafen,
{
    gpio.pull(Pin::new_unchecked(number), Pull::Up, delay);
}

/// `word` after pin bit `bit` of a pull-enable clock register is pulsed:
/// set, then cleared.
pub open spec fn pulsed(word: u32, bit: u32) -> u32 {
    with_bit(with_bit(word, bit, 1), bit, 0)
}

/// The second pull-enable clock register (pins 32 to 53) after pins 47 to
/// 53 are pulled, in the order `initialize_pins` pulls them.
pub open spec fn sd_pins_pulsed(word: u32) -> u32 {
    pulsed(pulsed(pulsed(pulsed(pulsed(pulsed(pulsed(word, 15), 16), 17), 18), 19), 20), 21)
}

/// The pull-up steps for pins 47 to 53, in the order `initialize_pins`
/// takes them.
pub open spec fn sd_pull_steps() -> Seq<PullStep> {
    pull_steps_for(47, Pull::Up) + pull_steps_for(48, Pull::Up) + pull_steps_for(49, Pull::Up)
        + pull_steps_for(50, Pull::Up) + pull_steps_for(51, Pull::Up) + pull_steps_for(52, Pull::Up)
        + pull_steps_for(53, Pull::Up)
}

/// Routes the SD card's pins to the EMMC controller: card detect (47), clock
/// (48), command (49) and the four data lines (50 to 53) take alternate
/// function 3 and are pulled up; card detect also gets its high-level detect
/// enabled. No other pin's function changes.
pub fn initialize_pins<D: CpuDelay>(gpio: &mut GPIOController, delay: &D)
    ensures
        final(gpio).registers.pull_register.value == pull_bits(Pull::Up),
        final(gpio).registers.pull_enable@ == old(gpio).registers.pull_enable@.update(
            1,
            BitArray { array: sd_pins_pulsed(old(gpio).registers.pull_enable@[1].array) },
        ),
        final(gpio).registers.high_detect_enable@ == old(gpio).registers.high_detect_enable@.update(
            1,
            BitArray { array: with_bit(old(gpio).registers.high_detect_enable@[1].array, 15, 1) },
        ),
        final(gpio).pull_steps@ == old(gpio).pull_steps@ + sd_pull_steps(),
        final(gpio).registers.set_output == old(gpio).registers.set_output,
        final(gpio).registers.clear_output == old(gpio).registers.clear_output,
        final(gpio).registers.gplev == old(gpio).registers.gplev,
        final(gpio).registers.gpsed == old(gpio).registers.gpsed,
        final(gpio).registers.gpren == old(gpio).registers.gpren,
        final(gpio).registers.gpfen == old(gpio).registers.gpfen,
        final(gpio).registers.gplen == old(gpio).registers.gplen,
        final(gpio).registers.gparen == old(gpio).registers.gparen,
        final(gpio).registers.gpafen == old(gpio).registers.gpafen,
        forall|n: u32|
            n <= PINS ==> #[trigger] pin_mode_of(final(gpio).registers, n) == if 47 <= n && n <= 53 {
                mode_bits(Mode::AF3)
            } else {
                pin_mode_of(old(gpio).registers, n)
            },
{
    let ghost r0 = gpio.registers;
    set_pin_function(gpio, 47, Mode::AF3);
    let ghost r1 = gpio.registers;
    pull_up(gpio, 47, delay);
    let ghost r2 = gpio.registers;
    gpio.set_high_detect_enable(Pin::new_unchecked(47), 1);
    let ghost r3 = gpio.registers;
    set_pin_function(gpio, 48, Mode::AF3);
    let ghost r4 = gpio.registers;
    set_pin_function(gpio, 49, Mode::AF3);
    let ghost r5 = gpio.registers;
    pull_up(gpio, 48, delay);
    let ghost r6 = gpio.registers;
    pull_up(gpio, 49, delay);
    let ghost r7 = gpio.registers;
    set_pin_function(gpio, 50, Mode::AF3);
    let ghost r8 = gpio.registers;
    set_pin_function(gpio, 51, Mode::AF3);
    let ghost r9 = gpio.registers;
    set_pin_function(gpio, 52, Mode::AF3);
    let ghost r10 = gpio.registers;
    set_pin_function(gpio, 53, Mode::AF3);
    let ghost r11 = gpio.registers;
    pull_up(gpio, 50, delay);
    let ghost r12 = gpio.registers;
    pull_up(gpio, 51, delay);
    let ghost r13 = gpio.registers;
    pull_up(gpio, 52, delay);
    let ghost r14 = gpio.registers;
    pull_up(gpio, 53, delay);
    let ghost r15 = gpio.registers;
    assert(gpio.pull_steps@ =~= old(gpio).pull_steps@ + sd_pull_steps());
    proof {
        assert forall|n: u32| n <= PINS implies #[trigger] pin_mode_of(r15, n) == if 47 <= n
            && n <= 53 {
            mode_bits(Mode::AF3)
        } else {
            pin_mode_of(r0, n)
        } by {
            assert(pin_mode_of(r1, n) == if n == 47 { mode_bits(Mode::AF3) } else { pin_mode_of(r0, n) });
            assert(pin_mode_of(r2, n) == pin_mode_of(r1, n));
            assert(pin_mode_of(r3, n) == pin_mode_of(r2, n));
            assert(pin_mode_of(r4, n) == if n == 48 { mode_bits(Mode::AF3) } else { pin_mode_of(r3, n) });
            assert(pin_mode_of(r5, n) == if n == 49 { mode_bits(Mode::AF3) } else { pin_mode_of(r4, n) });
            assert(pin_mode_of(r6, n) == pin_mode_of(r5, n));
            assert(pin_mode_of(r7, n) == pin_mode_of(r6, n));
            assert(pin_mode_of(r8, n) == if n == 50 { mode_bits(Mode::AF3) } else { pin_mode_of(r7, n) });
            assert(pin_mode_of(r9, n) == if n == 51 { mode_bits(Mode::AF3) } else { pin_mode_of(r8, n) });
            assert(pin_mode_of(r10, n) == if n == 52 { mode_bits(Mode::AF3) } else { pin_mode_of(r9, n) });
            assert(pin_mode_of(r11, n) == if n == 53 { mode_bits(Mode::AF3) } else { pin_mode_of(r10, n) });
            assert(pin_mode_of(r15, n) == pin_mode_of(r11, n));
        }
    }

}

/// `command` announces an application command.
pub open spec fn is_announcement(command: u32) -> bool {
    command == APPLICATION_SPECIFIC_COMMAND || command == APPLICATION_SPECIFIC_COMMAND_48
}

/// The commands of `log`, with their arguments, without the announcements
/// of application commands: what the card was asked, in order.
pub open spec fn requests(log: Seq<(u32, u32)>) -> Seq<(u32, u32)>
    decreases log.len(),
{
    if log.len() == 0 {
        Seq::empty()
    } else {
        let rest = requests(log.drop_last());
        if is_announcement(log.last().0) {
            rest
        } else {
            rest.push(log.last())
        }
    }
}

/// What bringing a card up asks of it: to go idle, its interface
/// conditions, its operating conditions (asked `rounds` times), its
/// identification and relative address, to be selected at
/// `relative_card_address`, its configuration register and, when its
/// configuration register's version bit `version_4` is set, four data lines.
pub open spec fn bring_up_requests(rounds: nat, relative_card_address: u32, version_4: u64) -> Seq<(u32, u32)> {
    seq![(GO_IDLE, 0u32), (SEND_INTERFACE_CONDITIONS, 0x1AAu32)] + Seq::new(
        rounds,
        |i: int| (outgoing(SEND_OP_COND), ACMD41_ARG_HC),
    ) + seq![
        (SEND_CARD_IDENTIFICATION, 0u32),
        (SEND_RELATIVE_ADDRESS, 0u32),
        (CARD_SELECT, relative_card_address),
        (outgoing(SEND_SD_CONFIGURATION_REGISTER), 0u32),
    ] + if version_4 != 0 {
        seq![(outgoing(SET_BUS_WIDTH), relative_card_address | 2)]
    } else {
        Seq::empty()
    }
}

/// Which of the commands of bringing a card up are application commands,
/// what each goes out as, and that the announcement for a card with an
/// address is the 48-bit one.
proof fn lemma_bring_up_values()
    by (bit_vector)
    ensures
        field32(GO_IDLE, 31, 31) == 0,
        field32(SEND_INTERFACE_CONDITIONS, 31, 31) == 0,
        field32(SEND_CARD_IDENTIFICATION, 31, 31) == 0,
        field32(SEND_RELATIVE_ADDRESS, 31, 31) == 0,
        field32(CARD_SELECT, 31, 31) == 0,
        field32(SEND_OP_COND, 31, 31) == 1,
        field32(SEND_SD_CONFIGURATION_REGISTER, 31, 31) == 1,
        field32(SET_BUS_WIDTH, 31, 31) == 1,
        with_field32(SEND_OP_COND, 31, 31, 0) == 0x2902_0000u32,
        with_field32(SEND_SD_CONFIGURATION_REGISTER, 31, 31, 0) == 0x3322_0010u32,
        with_field32(SET_BUS_WIDTH, 31, 31, 0) == 0x0602_0000u32,
        with_field32(APPLICATION_SPECIFIC_COMMAND, 16, 17, 10) == APPLICATION_SPECIFIC_COMMAND_48,
        field32(0u32, 31, 31) == 0,
{
}

/// Sending a command that is no announcement adds it, as it went out, to
/// the requests of the log.
proof fn lemma_requests_sent(
    before: Seq<(u32, u32)>,
    after: Seq<(u32, u32)>,
    relative_card_address: u32,
    command: u32,
    argument: u32,
)
    requires
        sent_as(before, after, relative_card_address, command, argument),
        !is_announcement(outgoing(command)),
    ensures
        requests(after) == requests(before).push((outgoing(command), argument)),
{
    lemma_bring_up_values();
    let x = (outgoing(command), argument);
    let a = announcement(relative_card_address);
    if after == before.push(x) {
        assert(after.drop_last() =~= before);
    } else {
        assert(after.drop_last() =~= before.push(a));
        assert(before.push(a).drop_last() =~= before);
        assert(is_announcement(a.0));
        assert(requests(before.push(a)) == requests(before));
    }
    assert(after.last() == x);
}

/// An answer that adds to the answer log adds its flagless command and
/// value to the log's requests.
proof fn lemma_requests_answered(before: Seq<(u32, u32)>, after: Seq<(u32, u32)>, command: u32, value: u32)
    requires
        answered_as(before, after, command, value),
        !is_announcement(outgoing(command)),
    ensures
        requests(after) == requests(before).push((outgoing(command), value)),
{
    if after.drop_last() != before {
        assert(requests(after.drop_last()) == requests(before));
    }
}

/// A log that extends another has requests that extend the other's.
proof fn lemma_requests_prefix(a: Seq<(u32, u32)>, b: Seq<(u32, u32)>)
    requires
        a.is_prefix_of(b),
    ensures
        requests(a).is_prefix_of(requests(b)),
    decreases b.len(),
{
    if b.len() == a.len() {
        assert(a =~= b);
    } else {
        assert(a.is_prefix_of(b.drop_last()));
        lemma_requests_prefix(a, b.drop_last());
    }
}

/// What the card's answer `answer` to the go-idle command decides: it must
/// be zero.
pub fn idle_outcome(answer: u32) -> (r: Result<(), EMMCError>)
    ensures
        r == if answer == 0 {
            Ok::<(), EMMCError>(())
        } else {
            Err(EMMCError::NotIdle)
        },
{
    if answer != 0 {
        Err(EMMCError::NotIdle)
    } else {
        Ok(())
    }
}

/// What the card's answer `answer` to the interface conditions decides: it
/// must be zero (the parsed answer echoes the check pattern).
pub fn interface_outcome(answer: u32) -> (r: Result<(), EMMCError>)
    ensures
        r == if answer == 0 {
            Ok::<(), EMMCError>(())
        } else {
            Err(EMMCError::InterfaceConditions)
        },
{
    if answer != 0 {
        Err(EMMCError::InterfaceConditions)
    } else {
        Ok(())
    }
}

/// What the last answer `last` to the operating conditions decides, with
/// `count` tries left: a card not ready (bit 31 clear) or out of tries has
/// not powered up; a card with no voltage window (bits 15..23) is refused;
/// otherwise its capacity-support bits.
pub fn power_up_outcome(last: u32, count: i32) -> (r: Result<u64, EMMCError>)
    ensures
        r == if field32(last, 31, 31) == 0 || count <= 0 {
            Err(EMMCError::PowerUpTimeout)
        } else if field32(last, 15, 23) == 0 {
            Err(EMMCError::Voltage)
        } else {
            Ok::<u64, EMMCError>(capacity_bits(last))
        },
{
    let response = ACMD41Response::from(last);
    if response.get_complete() == 0 || count <= 0 {
        return Err(EMMCError::PowerUpTimeout);
    }
    if response.get_voltage() == 0 {
        return Err(EMMCError::Voltage);
    }
    if response.get_command_support_bits() == 0 {
        Ok(SCR_SUPP_CCS as u64)
    } else {
        Ok(0)
    }
}

/// The answers to the operating-condition request, one per round.
pub open spec fn op_cond_replies(rounds: Seq<u32>) -> Seq<(u32, u32)> {
    Seq::new(rounds.len(), |i: int| (outgoing(SEND_OP_COND), rounds[i]))
}

/// Every answer but the last reports the card still powering up (bit 31
/// clear).
pub open spec fn still_powering_up(rounds: Seq<u32>) -> bool {
    forall|i: int| 0 <= i < rounds.len() - 1 ==> field32(#[trigger] rounds[i], 31, 31) == 0
}

/// The card's answers up to the operating conditions: idle (0), interface
/// conditions accepted (0), then `rounds`.
pub open spec fn powered_up_replies(rounds: Seq<u32>) -> Seq<(u32, u32)> {
    seq![(GO_IDLE, 0u32), (SEND_INTERFACE_CONDITIONS, 0u32)] + op_cond_replies(rounds)
}

/// The capacity-support bits recorded for a card whose last operating
/// conditions answer was `last`: one when its bit 30 is clear.
pub open spec fn capacity_bits(last: u32) -> u64 {
    if field32(last, 30, 30) == 0 {
        SCR_SUPP_CCS as u64
    } else {
        0
    }
}

impl<S: EMMCSlot, T: Timer> EMMCController<S, T> {
    /// Brings the card up: reads the host version, resets the host, sets the
    /// identification clock, takes the card from idle through its interface
    /// and operating conditions to a relative address, switches to the
    /// transfer clock, selects the card, reads its configuration register
    /// and, on cards of version 4 or later, switches to four data lines. The
    /// card's capacity support is recorded in the configuration last.
    ///
    /// The operating conditions are asked at most seven times; the card must
    /// report itself ready within the first five answers. A card that does
    /// not go idle, refuses the interface conditions, does not power up in
    /// time or reports no voltage window is refused with the matching error.
    pub fn initialize_card<D: CpuDelay>(&mut self, delay: &D) -> (r: Result<(), EMMCError>)
        ensures
            old(self).sent@.is_prefix_of(final(self).sent@),
            old(self).received@.is_prefix_of(final(self).received@),
            old(self).answers@.is_prefix_of(final(self).answers@),
            final(self).versions@ == old(self).versions@.push(final(self).configuration.hardware_version),
            ({
                let replies0 = requests(old(self).answers@);
                let replies = requests(final(self).answers@);
                &&& r == Err::<(), EMMCError>(EMMCError::NotIdle) ==> exists|v: u32|
                    v != 0 && replies == #[trigger] replies0.push((GO_IDLE, v))
                &&& r == Err::<(), EMMCError>(EMMCError::InterfaceConditions) ==> exists|v: u32|
                    v != 0 && replies == replies0 + #[trigger] seq![(GO_IDLE, 0u32), (SEND_INTERFACE_CONDITIONS, v)]
                &&& r == Err::<(), EMMCError>(EMMCError::PowerUpTimeout) ==> exists|rounds: Seq<u32>|
                    6 <= rounds.len() <= 7 && still_powering_up(rounds) && replies == replies0
                        + #[trigger] powered_up_replies(rounds)
                &&& r == Err::<(), EMMCError>(EMMCError::Voltage) ==> exists|rounds: Seq<u32>|
                    1 <= rounds.len() <= 5 && still_powering_up(rounds) && replies == replies0
                        + #[trigger] powered_up_replies(rounds) && field32(rounds.last(), 31, 31) != 0
                        && field32(rounds.last(), 15, 23) == 0
            }),
            r is Ok ==> {
                let scr = final(self).configuration.configuration.value;
                let bits = field64(scr, 32, 35);
                let n = old(self).received@.len() as int;
                let words = final(self).received@;
                let rca = final(self).configuration.relative_card_address;
                let hw = final(self).configuration.hardware_version;
                &&& bits == 0 || bits == SCR_SUPP_CCS
                &&& final(self).received@.len() == n + 2
                &&& scr == with_field64(
                    (words[n] as int * 0x1_0000_0000 + words[n + 1] as int) as u64,
                    32,
                    35,
                    bits,
                )
                &&& final(self).dividers@ == old(self).dividers@.push(
                    clock_divider(IDENTIFICATION_FREQUENCY, hw),
                ).push(clock_divider(TRANSFER_FREQUENCY, hw))
                &&& exists|rounds: Seq<u32>|
                    {
                        let replies0 = requests(old(self).answers@);
                        let prefix = replies0 + powered_up_replies(rounds);
                        let replies = requests(final(self).answers@);
                        &&& 1 <= rounds.len() <= 5
                        &&& still_powering_up(rounds)
                        &&& field32(rounds.last(), 31, 31) != 0
                        &&& field32(rounds.last(), 15, 23) != 0
                        &&& bits == capacity_bits(rounds.last())
                        &&& prefix.is_prefix_of(replies)
                        &&& replies.len() > prefix.len() + 1
                        &&& replies[prefix.len() as int + 1] == (SEND_RELATIVE_ADDRESS, rca)
                        &&& requests(final(self).sent@) == requests(old(self).sent@)
                            + #[trigger] bring_up_requests(rounds.len(), rca, field64(scr, 42, 42))
                    }
            },
    {
        let ghost start = requests(self.sent@);
        let ghost replies0 = requests(self.answers@);
        proof {
            lemma_bring_up_values();
        }
        let version = self.read_host_version();
        self.configuration.hardware_version = version;
        match self.reset_card() {
            Ok(()) => {},
            Err(error) => {
                return Err(error);
            },
        }
        self.slot.configure_internal_clocks(0b1110);
        self.timer.delay_micros(10);
        match self.set_clock_frequency(IDENTIFICATION_FREQUENCY) {
            Ok(()) => {},
            Err(error) => {
                return Err(error);
            },
        }
        self.slot.enable_interrupts();
        let ghost before = self.sent@;
        let ghost answers_before = self.answers@;
        let idle = match self.send_command(SDCommand { value: GO_IDLE }, 0) {
            Ok(value) => value,
            Err(error) => {
                return Err(error);
            },
        };
        proof {
            lemma_requests_sent(before, self.sent@, self.configuration.relative_card_address, GO_IDLE, 0);
            lemma_requests_answered(answers_before, self.answers@, GO_IDLE, idle);
        }
        match idle_outcome(idle) {
            Ok(()) => {},
            Err(error) => {
                return Err(error);
            },
        }
        let ghost before = self.sent@;
        let ghost answers_before = self.answers@;
        let conditions = match self.send_command(SDCommand { value: SEND_INTERFACE_CONDITIONS }, 0x1AA) {
            Ok(value) => value,
            Err(error) => {
                return Err(error);
            },
        };
        proof {
            lemma_requests_sent(
                before,
                self.sent@,
                self.configuration.relative_card_address,
                SEND_INTERFACE_CONDITIONS,
                0x1AA,
            );
            lemma_requests_answered(answers_before, self.answers@, SEND_INTERFACE_CONDITIONS, conditions);
            assert(requests(self.answers@) =~= replies0 + seq![(GO_IDLE, 0u32), (SEND_INTERFACE_CONDITIONS, conditions)]);
        }
        match interface_outcome(conditions) {
            Ok(()) => {},
            Err(error) => {
                return Err(error);
            },
        }
        let ghost asked = start + seq![(GO_IDLE, 0u32), (SEND_INTERFACE_CONDITIONS, 0x1AAu32)];
        let ghost op_cond = (outgoing(SEND_OP_COND), ACMD41_ARG_HC);
        let ghost mut rounds: Seq<u32> = Seq::empty();
        assert(requests(self.sent@) =~= asked + Seq::new(0, |i: int| op_cond));
        assert(requests(self.answers@) =~= replies0 + powered_up_replies(rounds));
        let mut count: i32 = 6;
        let mut acmd41_response = ACMD41Response::empty();
        while acmd41_response.get_complete() == 0 && count >= 0
            invariant
                -1 <= count <= 6,
                count == 6 ==> acmd41_response.value == 0,
                rounds.len() == 6 - count,
                rounds.len() > 0 ==> acmd41_response.value == rounds.last(),
                still_powering_up(rounds),
                rounds.len() > 0 ==> field32(rounds.last(), 31, 31) == field32(acmd41_response.value, 31, 31),
                old(self).sent@.is_prefix_of(self.sent@),
                old(self).answers@.is_prefix_of(self.answers@),
                old(self).received@ == self.received@,
                self.versions@ == old(self).versions@.push(self.configuration.hardware_version),
                self.dividers@ == old(self).dividers@.push(
                    clock_divider(IDENTIFICATION_FREQUENCY, self.configuration.hardware_version),
                ),
                op_cond == (outgoing(SEND_OP_COND), ACMD41_ARG_HC),
                requests(self.sent@) == asked + Seq::new((6 - count) as nat, |i: int| op_cond),
                requests(self.answers@) == replies0 + powered_up_replies(rounds),
            decreases count + 1,
        {
            proof {
                lemma_bring_up_values();
            }
            count = count - 1;
            delay.wait_for_cycles(400);
            let ghost before = self.sent@;
            let ghost answers_before = self.answers@;
            match self.send_command(SDCommand { value: SEND_OP_COND }, ACMD41_ARG_HC) {
                Ok(value) => {
                    proof {
                        lemma_requests_answered(answers_before, self.answers@, SEND_OP_COND, value);
                        assert(field32(acmd41_response.value, 31, 31) == 0);
                        let old_rounds = rounds;
                        rounds = rounds.push(value);
                        assert(powered_up_replies(rounds) =~= powered_up_replies(old_rounds).push(
                            (outgoing(SEND_OP_COND), value),
                        ));
                        assert(requests(self.answers@) =~= replies0 + powered_up_replies(rounds));
                        assert forall|i: int| 0 <= i < rounds.len() - 1 implies field32(
                            #[trigger] rounds[i],
                            31,
                            31,
                        ) == 0 by {
                            if i < old_rounds.len() - 1 {
                                assert(rounds[i] == old_rounds[i]);
                            } else {
                                assert(rounds[i] == old_rounds.last());
                            }
                        }
                    }
                    acmd41_response = ACMD41Response::from(value);
                },
                Err(error) => {
                    return Err(error);
                },
            }
            proof {
                lemma_requests_sent(
                    before,
                    self.sent@,
                    self.configuration.relative_card_address,
                    SEND_OP_COND,
                    ACMD41_ARG_HC,
                );
                assert(Seq::new((6 - count) as nat, |i: int| op_cond) =~= Seq::new(
                    (6 - count - 1) as nat,
                    |i: int| op_cond,
                ).push(op_cond));
                assert(requests(self.sent@) =~= asked + Seq::new((6 - count) as nat, |i: int| op_cond));
            }
        }
        let ccs = match power_up_outcome(acmd41_response.value, count) {
            Ok(ccs) => ccs,
            Err(error) => {
                assert(requests(self.answers@) == replies0 + powered_up_replies(rounds));
                return Err(error);
            },
        };
        assert(1 <= rounds.len() <= 5);
        assert(acmd41_response.value == rounds.last());
        let ghost prefix = replies0 + powered_up_replies(rounds);
        let ghost before = self.sent@;
        let ghost answers_before = self.answers@;
        let identification = match self.send_command(SDCommand { value: SEND_CARD_IDENTIFICATION }, 0) {
            Ok(value) => value,
            Err(error) => {
                return Err(error);
            },
        };
        proof {
            lemma_requests_sent(
                before,
                self.sent@,
                self.configuration.relative_card_address,
                SEND_CARD_IDENTIFICATION,
                0,
            );
            lemma_requests_answered(answers_before, self.answers@, SEND_CARD_IDENTIFICATION, identification);
        }
        let ghost before = self.sent@;
        let ghost answers_before = self.answers@;
        match self.send_command(SDCommand { value: SEND_RELATIVE_ADDRESS }, 0) {
            Ok(address) => {
                self.configuration.relative_card_address = address;
            },
            Err(error) => {
                return Err(error);
            },
        }
        let relative_card_address = self.configuration.relative_card_address;
        proof {
            lemma_requests_sent(before, self.sent@, 0, SEND_RELATIVE_ADDRESS, 0);
            lemma_requests_answered(answers_before, self.answers@, SEND_RELATIVE_ADDRESS, relative_card_address);
            assert(requests(self.answers@) == prefix.push((SEND_CARD_IDENTIFICATION, identification)).push(
                (SEND_RELATIVE_ADDRESS, relative_card_address),
            ));
        }
        let ghost addressed_log = self.answers@;
        let ghost addressed = requests(self.answers@);
        match self.set_clock_frequency(TRANSFER_FREQUENCY) {
            Ok(()) => {},
            Err(error) => {
                return Err(error);
            },
        }
        let ghost before = self.sent@;
        let ghost answers_before = self.answers@;
        match self.send_command(SDCommand { value: CARD_SELECT }, relative_card_address) {
            Ok(_) => {},
            Err(error) => {
                return Err(error);
            },
        }
        proof {
            lemma_requests_sent(before, self.sent@, relative_card_address, CARD_SELECT, relative_card_address);
        }
        if self.slot.wait_for_status(StatusSetting::DataInhibit).is_err() {
            return Err(EMMCError::DataInhibited);
        }
        self.slot.set_block_size_and_count(8, 1);
        let ghost before = self.sent@;
        let configuration = match self.read_configuration() {
            Ok(configuration) => configuration,
            Err(error) => {
                return Err(error);
            },
        };
        proof {
            lemma_requests_sent(
                before,
                self.sent@,
                relative_card_address,
                SEND_SD_CONFIGURATION_REGISTER,
                0,
            );
        }
        let ghost selected = self.sent@;
        self.configuration.configuration = configuration;
        let four_lines = configuration.get_spec_version_4_or_higher() != 0;
        if four_lines {
            match self.send_command(SDCommand { value: SET_BUS_WIDTH }, relative_card_address | 2) {
                Ok(_) => {},
                Err(error) => {
                    return Err(error);
                },
            }
            proof {
                lemma_requests_sent(
                    selected,
                    self.sent@,
                    relative_card_address,
                    SET_BUS_WIDTH,
                    relative_card_address | 2,
                );
            }
            self.slot.use_four_data_lines();
        }
        self.configuration.configuration = configuration.set_command_support_bits(ccs);
        proof {
            let v = configuration.value;
            assert(ccs == 0 || ccs == 1);
            assert(ccs == capacity_bits(rounds.last()));
            assert(field64(with_field64(v, 32, 35, ccs), 32, 35) == ccs && field64(
                with_field64(v, 32, 35, ccs),
                42,
                42,
            ) == field64(v, 42, 42)) by (bit_vector)
                requires
                    ccs == 0 || ccs == 1,
            ;
            assert(requests(self.sent@) =~= start + bring_up_requests(
                rounds.len(),
                relative_card_address,
                field64(v, 42, 42),
            ));
            let scr = self.configuration.configuration.value;
            assert(requests(self.sent@) == requests(old(self).sent@) + bring_up_requests(
                rounds.len(),
                self.configuration.relative_card_address,
                field64(scr, 42, 42),
            ));
            lemma_requests_prefix(addressed_log, self.answers@);
            assert(addressed.is_prefix_of(requests(self.answers@)));
            assert(prefix.is_prefix_of(requests(self.answers@)));
            assert(requests(self.answers@)[prefix.len() as int + 1] == addressed[prefix.len() as int + 1]);
            let n = old(self).received@.len() as int;
            assert(scr == with_field64(
                (self.received@[n] as int * 0x1_0000_0000 + self.received@[n + 1] as int) as u64,
                32,
                35,
                field64(scr, 32, 35),
            ));
        }
        Ok(())
    }
}

/// Byte `k` of `word`, counting from its low byte.
pub open spec fn word_byte(word: u32, k: int) -> u8 {
    if k == 0 {
        (word & 0xff) as u8
    } else if k == 1 {
        ((word >> 8) & 0xff) as u8
    } else if k == 2 {
        ((word >> 16) & 0xff) as u8
    } else {
        ((word >> 24) & 0xff) as u8
    }
}

/// `bytes` begins with the bytes of `words`, each word low byte first.
pub open spec fn holds_words(bytes: Seq<u8>, words: Seq<u32>) -> bool {
    &&& 4 * words.len() <= bytes.len()
    &&& forall|i: int| 0 <= i < 4 * words.len() ==> #[trigger] bytes[i] == word_byte(words[i / 4], i % 4)
}

/// The commands, with their arguments, that reading `num` blocks from block
/// `start` sends to a card with configuration register `scr`. A card that
/// takes the block-count command gets one read command for all the blocks,
/// announced by the block count when it can count blocks and followed by a
/// stop otherwise; any other card gets a single-block read per block.
pub open spec fn block_read_commands(scr: u64, start: u32, num: u32) -> Seq<(u32, u32)> {
    if field64(scr, 32, 35) != 0 {
        let counted = field64(scr, 57, 57) != 0;
        let read = if num == 1 {
            READ_SINGLE_BLOCK
        } else {
            READ_MULTIPLE_BLOCKS
        };
        (if num > 1 && counted {
            seq![(SET_BLOCK_COUNT, num)]
        } else {
            Seq::empty()
        }) + seq![(read, start)] + (if num > 1 && !counted {
            seq![(STOP_TRANSMISSION, 0u32)]
        } else {
            Seq::empty()
        })
    } else {
        Seq::new(num as nat, |i: int| (READ_SINGLE_BLOCK, (start + i) as u32))
    }
}

/// The commands that read blocks go out as they are: none is an
/// application command.
proof fn lemma_block_commands_plain()
    by (bit_vector)
    ensures
        field32(SET_BLOCK_COUNT, 31, 31) == 0,
        field32(READ_SINGLE_BLOCK, 31, 31) == 0,
        field32(READ_MULTIPLE_BLOCKS, 31, 31) == 0,
        field32(STOP_TRANSMISSION, 31, 31) == 0,
{
}

/// Word `j` of a run of bytes holds the bytes `4 * j` to `4 * j + 3`.
proof fn lemma_word_index(i: int, j: int)
    by (nonlinear_arith)
    requires
        0 <= i,
        0 <= j,
    ensures
        i < 4 * j ==> i / 4 < j,
        4 * j <= i < 4 * j + 4 ==> i / 4 == j && i % 4 == i - 4 * j,
{
}

/// Writing the bytes of `word` just past the words `bytes` holds makes it
/// hold one word more.
proof fn lemma_holds_one_more(before: Seq<u8>, after: Seq<u8>, words: Seq<u32>, word: u32)
    requires
        holds_words(before, words),
        4 * words.len() + 4 <= before.len(),
        after.len() == before.len(),
        forall|i: int|
            0 <= i < before.len() && !(4 * words.len() <= i < 4 * words.len() + 4) ==> after[i]
                == before[i],
        forall|k: int| 0 <= k < 4 ==> after[4 * words.len() + k] == word_byte(word, k),
    ensures
        holds_words(after, words.push(word)),
{
    let n = words.len() as int;
    assert forall|i: int| 0 <= i < 4 * (n + 1) implies #[trigger] after[i] == word_byte(
        words.push(word)[i / 4],
        i % 4,
    ) by {
        lemma_word_index(i, n);
        if i < 4 * n {
            assert(before[i] == word_byte(words[i / 4], i % 4));
        } else {
            assert(after[4 * n + (i - 4 * n)] == word_byte(word, i - 4 * n));
        }
    }
}

impl<S: EMMCSlot, T: Timer> EMMCController<S, T> {
    /// Writes the word `word` into `buffer` at word `index`, low byte first.
    fn store_word(buffer: &mut [u8], index: usize, word: u32)
        requires
            4 * index + 4 <= old(buffer)@.len(),
        ensures
            final(buffer)@.len() == old(buffer)@.len(),
            forall|i: int|
                0 <= i < old(buffer)@.len() && !(4 * index <= i < 4 * index + 4)
                    ==> final(buffer)@[i] == old(buffer)@[i],
            forall|k: int| 0 <= k < 4 ==> final(buffer)@[4 * index + k] == word_byte(word, k),
    {
        let at = 4 * index;
        buffer[at] = (word & 0xff) as u8;
        buffer[at + 1] = ((word >> 8) & 0xff) as u8;
        buffer[at + 2] = ((word >> 16) & 0xff) as u8;
        buffer[at + 3] = ((word >> 24) & 0xff) as u8;
    }

    /// Reads `num` blocks of 512 bytes from block `start` into the front of
    /// `buffer`, and gives the number of bytes read. The commands sent are
    /// those of `block_read_commands`; the front of `buffer` then holds the
    /// words taken from the data register, in order, each low byte first.
    /// The rest of `buffer` is left as it was.
    pub fn read_blocks(&mut self, start: u32, buffer: &mut [u8], num: u32) -> (r: Result<u32, EMMCError>)
        requires
            num as int * 512 <= old(buffer)@.len(),
            num as int * 512 <= u32::MAX,
            field64(old(self).configuration.configuration.value, 32, 35) == 0 && num > 0 ==> start as int
                + num - 1 <= u32::MAX,
        ensures
            final(self).configuration == old(self).configuration,
            old(self).sent@.is_prefix_of(final(self).sent@),
            old(self).received@.is_prefix_of(final(self).received@),
            final(buffer)@.len() == old(buffer)@.len(),
            forall|i: int|
                num as int * 512 <= i < old(buffer)@.len() ==> final(buffer)@[i] == old(buffer)@[i],
            r is Ok ==> {
                let words = final(self).received@.skip(old(self).received@.len() as int);
                &&& r == Ok::<u32, EMMCError>((num * 512) as u32)
                &&& final(self).sent@ == old(self).sent@ + block_read_commands(
                    old(self).configuration.configuration.value,
                    start,
                    num,
                )
                &&& words.len() == num * 128
                &&& holds_words(final(buffer)@, words)
            },
    {
        let ghost initial = buffer@;
        let ghost sent0 = self.sent@;
        let ghost received0 = self.received@;
        proof {
            lemma_block_commands_plain();
        }
        if self.slot.wait_for_status(StatusSetting::DataInhibit).is_err() {
            return Err(EMMCError::DataInhibited);
        }
        let configuration = self.configuration.configuration;
        let counts_blocks = configuration.get_command_support_bits() != 0;
        let ghost scr = configuration.value;
        if counts_blocks {
            if num > 1 && configuration.get_support_set_block_count() != 0 {
                match self.send_command(SDCommand { value: SET_BLOCK_COUNT }, num) {
                    Ok(_) => {},
                    Err(error) => {
                        return Err(error);
                    },
                }
            }
            self.slot.set_block_size_and_count(512, 16);
            let command = if num == 1 {
                SDCommand { value: READ_SINGLE_BLOCK }
            } else {
                SDCommand { value: READ_MULTIPLE_BLOCKS }
            };
            match self.send_command(command, start) {
                Ok(_) => {},
                Err(error) => {
                    return Err(error);
                },
            }
        } else {
            self.slot.set_block_size_and_count(512, 1);
        }
        let ghost sent1 = self.sent@;
        let mut c: u32 = 0;
        let mut buffer_offset: usize = 0;
        while c < num
            invariant
                c <= num,
                buffer_offset == c as int * 128,
                num as int * 512 <= buffer@.len(),
                buffer@.len() == initial.len(),
                initial == old(buffer)@,
                forall|i: int| num as int * 512 <= i < initial.len() ==> buffer@[i] == initial[i],
                self.configuration == old(self).configuration,
                configuration == self.configuration.configuration,
                scr == configuration.value,
                counts_blocks == (field64(scr, 32, 35) != 0),
                !counts_blocks && num > 0 ==> start as int + num - 1 <= u32::MAX,
                num as int * 512 <= u32::MAX,
                sent0 == old(self).sent@,
                sent0.is_prefix_of(sent1),
                received0 == old(self).received@,
                counts_blocks ==> self.sent@ == sent1,
                !counts_blocks ==> sent1 == sent0 && self.sent@ == sent0
                    + block_read_commands(scr, start, num).take(c as int),
                self.received@.len() == received0.len() + buffer_offset,
                received0.is_prefix_of(self.received@),
                holds_words(buffer@, self.received@.skip(received0.len() as int)),
            decreases num - c,
        {
            if !counts_blocks {
                let ghost before = self.sent@;
                match self.send_command(SDCommand { value: READ_SINGLE_BLOCK }, start + c) {
                    Ok(_) => {},
                    Err(error) => {
                        return Err(error);
                    },
                }
                proof {
                    lemma_block_commands_plain();
                }
                assert(self.sent@ == before.push((READ_SINGLE_BLOCK, (start + c) as u32)));
                assert(self.sent@ =~= sent0 + block_read_commands(scr, start, num).take(c + 1));
            }
            if self.slot.wait_for_interrupt(InterruptType::ReadReady).is_err() {
                return Err(EMMCError::DataTimeout);
            }
            let ghost sent_block = self.sent@;
            let mut d: usize = 0;
            while d < BLOCK_WORDS
                invariant
                    d <= BLOCK_WORDS,
                    c < num,
                    buffer_offset == c as int * 128,
                    num as int * 512 <= buffer@.len(),
                    buffer@.len() == initial.len(),
                    forall|i: int| num as int * 512 <= i < initial.len() ==> buffer@[i] == initial[i],
                    self.configuration == old(self).configuration,
                    self.sent@ == sent_block,
                    self.received@.len() == received0.len() + buffer_offset + d,
                    received0.is_prefix_of(self.received@),
                    holds_words(buffer@, self.received@.skip(received0.len() as int)),
                decreases BLOCK_WORDS - d,
            {
                let ghost bytes_before = buffer@;
                let ghost words_before = self.received@.skip(received0.len() as int);
                let word = self.read_word();
                Self::store_word(buffer, buffer_offset + d, word);
                proof {
                    lemma_holds_one_more(bytes_before, buffer@, words_before, word);
                    assert(self.received@.skip(received0.len() as int) =~= words_before.push(word));
                }
                d = d + 1;
            }
            assert(buffer_offset + 128 <= num as int * 128 <= u32::MAX);
            c = c + 1;
            buffer_offset = buffer_offset + BLOCK_WORDS;
        }
        if num > 1 && configuration.get_support_set_block_count() == 0 && counts_blocks {
            match self.send_command(SDCommand { value: STOP_TRANSMISSION }, 0) {
                Ok(_) => {},
                Err(error) => {
                    return Err(error);
                },
            }
        }
        assert(self.sent@ =~= old(self).sent@ + block_read_commands(scr, start, num));
        if c != num {
            Ok(0)
        } else {
            Ok(num * 512)
        }
    }

    /// Reads the block at `address`: its bytes are the 128 words taken from
    /// the data register, each low byte first.
    pub fn read_sector(&mut self, address: u32) -> (r: Result<[u8; 512], EMMCError>)
        requires
            field64(old(self).configuration.configuration.value, 32, 35) == 0 ==> address < u32::MAX,
        ensures
            final(self).configuration == old(self).configuration,
            old(self).sent@.is_prefix_of(final(self).sent@),
            old(self).received@.is_prefix_of(final(self).received@),
            r matches Ok(bytes) ==> {
                let words = final(self).received@.skip(old(self).received@.len() as int);
                &&& final(self).sent@ == old(self).sent@ + block_read_commands(
                    old(self).configuration.configuration.value,
                    address,
                    1,
                )
                &&& words.len() == 128
                &&& holds_words(bytes@, words)
            },
    {
        let mut buffer: [u8; 512] = [0; 512];
        match self.read_blocks(address, &mut buffer, 1) {
            Ok(_) => Ok(buffer),
            Err(error) => Err(error),
        }
    }
}

} // verus!
