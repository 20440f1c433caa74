//! The board's identity as the firmware reports it.
use vstd::prelude::*;
use crate::mailbox::{MailboxBuffer, MailboxController};
use crate::mailbox_property::{MailboxInstruction, MailboxResponse, MessageBuilder};

verus! {

/// A MAC address.
#[derive(Copy, Clone, Debug)]
pub struct MACAddress {
    pub bytes: [u8; 6],
}

/// The address in the two words of the board MAC answer: the first word's
/// four bytes, most significant first, then the top two bytes of the second.
pub open spec fn mac_address_bytes(first_word: u32, second_word: u32) -> Seq<u8> {
    seq![
        (first_word >> 24u32) as u8,
        ((first_word >> 16u32) & 0xFF) as u8,
        ((first_word >> 8u32) & 0xFF) as u8,
        (first_word & 0xFF) as u8,
        (second_word >> 24u32) as u8,
        ((second_word >> 16u32) & 0xFF) as u8,
    ]
}

/// The board serial in the two words of its answer, the first word high.
pub open spec fn board_serial_of(first_half: u32, second_half: u32) -> u64 {
    (first_half as int * 0x1_0000_0000 + second_half as int) as u64
}

/// Asks for the firmware revision.
#[derive(Copy, Clone, Debug)]
pub struct GetFirmwareRevision {
    pub revision: u32,
}

impl GetFirmwareRevision {
    pub fn new() -> (r: Self)
        ensures
            r.revision == 0,
    {
        Self { revision: 0 }
    }

    pub fn get_response(&self) -> (r: u32)
        ensures
            r == self.revision,
    {
        self.revision
    }

}

impl MailboxInstruction for GetFirmwareRevision {
    open spec fn took_answer(&self, before: Self, data: Seq<u32>) -> bool {
        self.revision == data[0]
    }

    open spec fn took_response(&self, before: Self, response: MailboxResponse) -> bool {
        *self == before
    }

    open spec fn tag_encoding(&self) -> u32 {
        0x1
    }

    open spec fn tag_words(&self) -> u32 {
        1
    }

    open spec fn request_data(&self) -> Seq<u32> {
        seq![0u32]
    }

    fn get_encoding(&self) -> (r: u32) {
        0x1
    }

    fn get_buffer_words(&self) -> (r: u32) {
        1
    }

    fn write_data_at_offset(&self) -> (r: Vec<u32>) {
        let mut v: Vec<u32> = Vec::new();
        v.push(0);
        assert(v@ =~= self.request_data());
        v
    }

    fn read_data_at_offset(&mut self, buffer: &[u32])
        ensures
            final(self).revision == buffer@[0],
    {
        self.revision = buffer[0];
    }

    fn set_response(&mut self, response: MailboxResponse)
        ensures
            *final(self) == *old(self),
    {
    }

}

/// Asks for the board model.
#[derive(Copy, Clone, Debug)]
pub struct GetBoardModel {
    pub model: u32,
}

impl GetBoardModel {
    pub fn new() -> (r: Self)
        ensures
            r.model == 0,
    {
        Self { model: 0 }
    }

    pub fn get_response(&self) -> (r: u32)
        ensures
            r == self.model,
    {
        self.model
    }

}

impl MailboxInstruction for GetBoardModel {
    open spec fn took_answer(&self, before: Self, data: Seq<u32>) -> bool {
        self.model == data[0]
    }

    open spec fn took_response(&self, before: Self, response: MailboxResponse) -> bool {
        *self == before
    }

    open spec fn tag_encoding(&self) -> u32 {
        0x10001
    }

    open spec fn tag_words(&self) -> u32 {
        1
    }

    open spec fn request_data(&self) -> Seq<u32> {
        seq![]
    }

    fn get_encoding(&self) -> (r: u32) {
        0x10001
    }

    fn get_buffer_words(&self) -> (r: u32) {
        1
    }

    fn write_data_at_offset(&self) -> (r: Vec<u32>) {
        let v: Vec<u32> = Vec::new();
        assert(v@ =~= self.request_data());
        v
    }

    fn read_data_at_offset(&mut self, buffer: &[u32])
        ensures
            final(self).model == buffer@[0],
    {
        self.model = buffer[0];
    }

    fn set_response(&mut self, response: MailboxResponse)
        ensures
            *final(self) == *old(self),
    {
    }

}

/// Asks for the board revision.
#[derive(Copy, Clone, Debug)]
pub struct GetBoardRevision {
    pub revision: u32,
}

impl GetBoardRevision {
    pub fn new() -> (r: Self)
        ensures
            r.revision == 0,
    {
        Self { revision: 0 }
    }

    pub fn get_response(&self) -> (r: u32)
        ensures
            r == self.revision,
    {
        self.revision
    }

}

impl MailboxInstruction for GetBoardRevision {
    open spec fn took_answer(&self, before: Self, data: Seq<u32>) -> bool {
        self.revision == data[0]
    }

    open spec fn took_response(&self, before: Self, response: MailboxResponse) -> bool {
        *self == before
    }

    open spec fn tag_encoding(&self) -> u32 {
        0x10002
    }

    open spec fn tag_words(&self) -> u32 {
        1
    }

    open spec fn request_data(&self) -> Seq<u32> {
        seq![]
    }

    fn get_encoding(&self) -> (r: u32) {
        0x10002
    }

    fn get_buffer_words(&self) -> (r: u32) {
        1
    }

    fn write_data_at_offset(&self) -> (r: Vec<u32>) {
        let v: Vec<u32> = Vec::new();
        assert(v@ =~= self.request_data());
        v
    }

    fn read_data_at_offset(&mut self, buffer: &[u32])
        ensures
            final(self).revision == buffer@[0],
    {
        self.revision = buffer[0];
    }

    fn set_response(&mut self, response: MailboxResponse)
        ensures
            *final(self) == *old(self),
    {
    }

}

/// Asks for the board's MAC address.
#[derive(Copy, Clone, Debug)]
pub struct GetBoardMAC {
    pub address: MACAddress,
}

impl GetBoardMAC {
    pub fn new() -> (r: Self)
        ensures
            r.address.bytes@ == seq![0u8, 0u8, 0u8, 0u8, 0u8, 0u8],
    {
        Self { address: MACAddress { bytes: [0u8; 6] } }
    }

    pub fn get_address(&self) -> (r: MACAddress)
        ensures
            r == self.address,
    {
        self.address
    }

}

impl MailboxInstruction for GetBoardMAC {
    open spec fn took_answer(&self, before: Self, data: Seq<u32>) -> bool {
        self.address.bytes@ == mac_address_bytes(data[0], data[1])
    }

    open spec fn took_response(&self, before: Self, response: MailboxResponse) -> bool {
        *self == before
    }

    open spec fn tag_encoding(&self) -> u32 {
        0x10003
    }

    open spec fn tag_words(&self) -> u32 {
        2
    }

    open spec fn request_data(&self) -> Seq<u32> {
        seq![]
    }

    fn get_encoding(&self) -> (r: u32) {
        0x10003
    }

    fn get_buffer_words(&self) -> (r: u32) {
        2
    }

    fn write_data_at_offset(&self) -> (r: Vec<u32>) {
        let v: Vec<u32> = Vec::new();
        assert(v@ =~= self.request_data());
        v
    }

    fn read_data_at_offset(&mut self, buffer: &[u32])
        ensures
            final(self).address.bytes@ == mac_address_bytes(buffer@[0], buffer@[1]),
    {
        let first_word = buffer[0];
        let second_word = buffer[1];
        let bytes: [u8; 6] = [
            (first_word >> 24) as u8,
            ((first_word >> 16) & 0xFF) as u8,
            ((first_word >> 8) & 0xFF) as u8,
            (first_word & 0xFF) as u8,
            (second_word >> 24) as u8,
            ((second_word >> 16) & 0xFF) as u8,
        ];
        assert(bytes@ =~= mac_address_bytes(first_word, second_word));
        self.address = MACAddress { bytes };
    }

    fn set_response(&mut self, response: MailboxResponse)
        ensures
            *final(self) == *old(self),
    {
    }

}

/// Asks for the board's serial number.
#[derive(Copy, Clone, Debug)]
pub struct GetBoardSerial {
    pub serial: u64,
}

impl GetBoardSerial {
    pub fn new() -> (r: Self)
        ensures
            r.serial == 0,
    {
        Self { serial: 0 }
    }

    pub fn get_response(&self) -> (r: u64)
        ensures
            r == self.serial,
    {
        self.serial
    }

}

impl MailboxInstruction for GetBoardSerial {
    open spec fn took_answer(&self, before: Self, data: Seq<u32>) -> bool {
        self.serial == board_serial_of(data[0], data[1])
    }

    open spec fn took_response(&self, before: Self, response: MailboxResponse) -> bool {
        *self == before
    }

    open spec fn tag_encoding(&self) -> u32 {
        0x10004
    }

    open spec fn tag_words(&self) -> u32 {
        2
    }

    open spec fn request_data(&self) -> Seq<u32> {
        seq![]
    }

    fn get_encoding(&self) -> (r: u32) {
        0x10004
    }

    fn get_buffer_words(&self) -> (r: u32) {
        2
    }

    fn write_data_at_offset(&self) -> (r: Vec<u32>) {
        let v: Vec<u32> = Vec::new();
        assert(v@ =~= self.request_data());
        v
    }

    fn read_data_at_offset(&mut self, buffer: &[u32])
        ensures
            final(self).serial == board_serial_of(buffer@[0], buffer@[1]),
    {
        let first_half = buffer[0] as u64;
        let second_half = buffer[1] as u64;
        self.serial = first_half * 0x1_0000_0000 + second_half;
    }

    fn set_response(&mut self, response: MailboxResponse)
        ensures
            *final(self) == *old(self),
    {
    }

}

/// What the firmware reports of the board.
#[derive(Copy, Clone, Debug)]
pub struct HardwareConfig {
    pub firmware_revision: u32,
    pub board_model: u32,
    pub board_revision: u32,
    pub mac_address: MACAddress,
    pub board_serial: u64,
}

/// Words of the message that asks for the board's identity.
pub const HARDWARE_CONFIG_MESSAGE_WORDS: usize = 24;

impl HardwareConfig {
    /// The message asking for the firmware revision, the board model and
    /// revision, the MAC address and the serial number: five tags from word
    /// 2, their data at words 5, 9, 13, 17..18 and 22..23.
    pub fn message() -> (r: MessageBuilder)
        ensures
            r.wf(),
            r.word_length == HARDWARE_CONFIG_MESSAGE_WORDS,
            r.instructions@.len() == 5,
            r.instructions@[0].offset == 2 && r.instructions@[0].words == 1,
            r.instructions@[1].offset == 6 && r.instructions@[1].words == 1,
            r.instructions@[2].offset == 10 && r.instructions@[2].words == 1,
            r.instructions@[3].offset == 14 && r.instructions@[3].words == 2,
            r.instructions@[4].offset == 19 && r.instructions@[4].words == 2,
            r.instructions@[0].encoding == 0x1 && r.instructions@[0].request@ == seq![0u32],
            r.instructions@[1].encoding == 0x10001 && r.instructions@[1].request@ == Seq::<u32>::empty(),
            r.instructions@[2].encoding == 0x10002 && r.instructions@[2].request@ == Seq::<u32>::empty(),
            r.instructions@[3].encoding == 0x10003 && r.instructions@[3].request@ == Seq::<u32>::empty(),
            r.instructions@[4].encoding == 0x10004 && r.instructions@[4].request@ == Seq::<u32>::empty(),
    {
        let m0 = MessageBuilder::new();
        let m1 = m0.request(&GetFirmwareRevision::new());
        let m2 = m1.request(&GetBoardModel::new());
        let m3 = m2.request(&GetBoardRevision::new());
        let m4 = m3.request(&GetBoardMAC::new());
        let m5 = m4.request(&GetBoardSerial::new());
        assert(m5.instructions@[0] == m4.instructions@[0]);
        assert(m4.instructions@[0] == m3.instructions@[0]);
        assert(m3.instructions@[0] == m2.instructions@[0]);
        assert(m2.instructions@[0] == m1.instructions@[0]);
        assert(m5.instructions@[1] == m4.instructions@[1]);
        assert(m4.instructions@[1] == m3.instructions@[1]);
        assert(m3.instructions@[1] == m2.instructions@[1]);
        assert(m5.instructions@[2] == m4.instructions@[2]);
        assert(m4.instructions@[2] == m3.instructions@[2]);
        assert(m5.instructions@[3] == m4.instructions@[3]);
        m5
    }

    /// The board's identity in the answer `answer` to `message()`. The board
    /// model is filled with the board revision's answer.
    pub fn from_answer(answer: &MailboxBuffer) -> (r: HardwareConfig)
        requires
            answer@.len() == HARDWARE_CONFIG_MESSAGE_WORDS,
        ensures
            r.firmware_revision == answer@[5],
            r.board_model == answer@[13],
            r.board_revision == answer@[13],
            r.mac_address.bytes@ == mac_address_bytes(answer@[17], answer@[18]),
            r.board_serial == board_serial_of(answer@[22], answer@[23]),
    {
        let message = Self::message();
        let mut firmware_revision = GetFirmwareRevision::new();
        let mut board_model = GetBoardModel::new();
        let mut board_revision = GetBoardRevision::new();
        let mut mac_address = GetBoardMAC::new();
        let mut board_serial = GetBoardSerial::new();
        firmware_revision.read_data_at_offset(message.response_data(answer, 0).as_slice());
        board_model.read_data_at_offset(message.response_data(answer, 1).as_slice());
        board_revision.read_data_at_offset(message.response_data(answer, 2).as_slice());
        mac_address.read_data_at_offset(message.response_data(answer, 3).as_slice());
        board_serial.read_data_at_offset(message.response_data(answer, 4).as_slice());
        HardwareConfig {
            firmware_revision: firmware_revision.get_response(),
            board_model: board_revision.get_response(),
            board_revision: board_revision.get_response(),
            mac_address: mac_address.get_address(),
            board_serial: board_serial.get_response(),
        }
    }

    /// Asks the firmware for its revision, the board model and revision, the
    /// MAC address and the serial number in one message, and reads the
    /// answer as `from_answer` does. `None` when the mailbox gave no answer
    /// of the message's length.
    pub fn from_mailbox<M: MailboxController>(mailbox: &M) -> (r: Option<HardwareConfig>)
        ensures
            r matches Some(c) ==> {
                &&& c.board_model == c.board_revision
                &&& exists|answer: Seq<u32>|
                    answer.len() == HARDWARE_CONFIG_MESSAGE_WORDS && c.firmware_revision == answer[5]
                        && c.board_revision == answer[13] && #[trigger] mac_address_bytes(
                        answer[17],
                        answer[18],
                    ) == c.mac_address.bytes@ && c.board_serial == board_serial_of(answer[22], answer[23])
            },
    {
        let message = Self::message();
        let answer = match message.send(mailbox) {
            Some(b) => b,
            None => {
                return None;
            },
        };
        let config = Self::from_answer(&answer);
        assert(mac_address_bytes(answer@[17], answer@[18]) == config.mac_address.bytes@);
        Some(config)
    }
}

/// The MAC address is the six bytes of the first answer word and the top
/// half of the second, most significant first; the serial is the first
/// word above the second.
pub proof fn lemma_mac_and_serial(first: u32, second: u32)
    ensures
        mac_address_bytes(first, second) == seq![
            (first / 0x100_0000) as u8,
            (first / 0x1_0000 % 0x100) as u8,
            (first / 0x100 % 0x100) as u8,
            (first % 0x100) as u8,
            (second / 0x100_0000) as u8,
            (second / 0x1_0000 % 0x100) as u8,
        ],
        board_serial_of(first, second) == first * 0x1_0000_0000 + second,
{
    assert((first >> 24u32) == first / 0x100_0000 && ((first >> 16u32) & 0xFF) == first / 0x1_0000
        % 0x100 && ((first >> 8u32) & 0xFF) == first / 0x100 % 0x100 && (first & 0xFF) == first
        % 0x100 && (second >> 24u32) == second / 0x100_0000 && ((second >> 16u32) & 0xFF) == second
        / 0x1_0000 % 0x100) by (bit_vector);
}

} // verus!
