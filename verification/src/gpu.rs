//! A fixed framebuffer request to the VideoCore, and drawing into the
//! framebuffer it hands out.
use vstd::prelude::*;
use crate::mailbox::{Channel, MailboxBuffer, MailboxController};
use crate::volatile::{is_power_of_two, AlignedBuffer};

verus! {

/// The request code of a property message.
pub const MBOX_REQUEST: u32 = 0;

/// Words in the framebuffer the request asks for: 1920 by 1080 pixels.
pub const FRAMEBUFFER_WORDS: usize = 2_073_600;

/// Mask that turns the GPU's bus address of the framebuffer into an ARM
/// physical address.
pub const BUS_ADDRESS_MASK: u32 = 0x3FFF_FFFF;

/// Property tags the request uses.
#[derive(Copy, Clone, Debug, PartialEq, Eq, Structural)]
pub enum Tag {
    SetPower,
    SetClkRate,
    SetPhyDim,
    SetVirDim,
    SetVirOff,
    SetDepth,
    SetPxlOrdr,
    GetFB,
    GetPitch,
    EndOfMessage,
}

/// The code the VideoCore knows a tag by.
pub open spec fn tag_code(tag: Tag) -> u32 {
    match tag {
        Tag::SetPower => 0x28001,
        Tag::SetClkRate => 0x38002,
        Tag::SetPhyDim => 0x48003,
        Tag::SetVirDim => 0x48004,
        Tag::SetVirOff => 0x48009,
        Tag::SetDepth => 0x48005,
        Tag::SetPxlOrdr => 0x48006,
        Tag::GetFB => 0x40001,
        Tag::GetPitch => 0x40008,
        Tag::EndOfMessage => 0,
    }
}

impl Tag {
    /// The tag's code.
    pub fn as_u32(self) -> (r: u32)
        ensures
            r == tag_code(self),
    {
        match self {
            Tag::SetPower => 0x28001,
            Tag::SetClkRate => 0x38002,
            Tag::SetPhyDim => 0x48003,
            Tag::SetVirDim => 0x48004,
            Tag::SetVirOff => 0x48009,
            Tag::SetDepth => 0x48005,
            Tag::SetPxlOrdr => 0x48006,
            Tag::GetFB => 0x40001,
            Tag::GetPitch => 0x40008,
            Tag::EndOfMessage => 0,
        }
    }
}

/// The framebuffer's geometry.
#[derive(Copy, Clone, Debug, PartialEq, Eq, Structural)]
pub struct FBConfig {
    pub phy_width: u32,
    pub phy_height: u32,
    pub vir_width: u32,
    pub vir_height: u32,
    pub width_off: u32,
    pub height_off: u32,
    /// Bits per pixel.
    pub depth: u32,
    /// RGB (1) or BGR (0).
    pub pxl_order: u32,
    /// Bytes per line, as the GPU gives it.
    pub pitch: u32,
}

impl Default for FBConfig {
    /// 1920 by 1080 both ways, no offset, 32 bits per pixel in RGB order,
    /// pitch not known yet.
    fn default() -> (r: Self)
        ensures
            r == (FBConfig {
                phy_width: 1920,
                phy_height: 1080,
                vir_width: 1920,
                vir_height: 1080,
                width_off: 0,
                height_off: 0,
                depth: 32,
                pxl_order: 1,
                pitch: 0,
            }),
    {
        FBConfig {
            phy_width: 1920,
            phy_height: 1080,
            vir_width: 1920,
            vir_height: 1080,
            width_off: 0,
            height_off: 0,
            depth: 32,
            pxl_order: 1,
            pitch: 0,
        }
    }
}

/// Words in the request.
pub const BUFFER_LENGTH: usize = 36;

/// The request: its size and code, then physical size 1920x1080, virtual
/// size 1920x1080, virtual offset (0, 0), depth 32, RGB pixel order, the
/// framebuffer (aligned to 4096) and the pitch, each tag with its value
/// buffer size twice, and the end tag.
pub open spec fn request_words() -> Seq<u32> {
    seq![
        140u32, MBOX_REQUEST,
        0x48003u32, 8, 8, 1920, 1080,
        0x48004u32, 8, 8, 1920, 1080,
        0x48009u32, 8, 8, 0, 0,
        0x48005u32, 4, 4, 32,
        0x48006u32, 4, 4, 1,
        0x40001u32, 8, 8, 4096, 0,
        0x40008u32, 4, 4, 0,
        0u32, 0,
    ]
}

/// The words of a framebuffer request.
pub struct GPUMessageBuffer {
    pub data: [u32; 36],
}

impl GPUMessageBuffer {
    /// The framebuffer request, as `request_words` gives it.
    pub fn new() -> (r: Self)
        ensures
            r.data@ == request_words(),
    {
        let r = GPUMessageBuffer {
            data: [
                35 * 4,
                MBOX_REQUEST,
                Tag::SetPhyDim.as_u32(),
                8,
                8,
                1920,
                1080,
                Tag::SetVirDim.as_u32(),
                8,
                8,
                1920,
                1080,
                Tag::SetVirOff.as_u32(),
                8,
                8,
                0,
                0,
                Tag::SetDepth.as_u32(),
                4,
                4,
                32,
                Tag::SetPxlOrdr.as_u32(),
                4,
                4,
                1,
                Tag::GetFB.as_u32(),
                8,
                8,
                4096,
                0,
                Tag::GetPitch.as_u32(),
                4,
                4,
                0,
                Tag::EndOfMessage.as_u32(),
                0,
            ],
        };
        assert(r.data@ =~= request_words());
        r
    }

    /// Word `i`.
    pub fn get(&self, i: usize) -> (r: u32)
        requires
            i < BUFFER_LENGTH,
        ensures
            r == self.data@[i as int],
    {
        self.data[i]
    }

    /// Sets word `i` to `n`.
    pub fn set(&mut self, i: usize, n: u32)
        requires
            i < BUFFER_LENGTH,
        ensures
            final(self).data@ == old(self).data@.update(i as int, n),
    {
        self.data[i] = n;
    }
}

/// Writes words into a message buffer one after the other, from its start.
pub struct GPUMessageBuilder {
    pub buffer: GPUMessageBuffer,
    pub add_index: usize,
}

impl GPUMessageBuilder {
    /// A builder that writes into `buffer` from word 0.
    pub fn new(buffer: GPUMessageBuffer) -> (r: Self)
        ensures
            r.buffer == buffer,
            r.add_index == 0,
    {
        GPUMessageBuilder { buffer, add_index: 0 }
    }

    /// Writes `n` at the next word.
    pub fn add(&mut self, n: u32)
        requires
            old(self).add_index < BUFFER_LENGTH,
        ensures
            final(self).buffer.data@ == old(self).buffer.data@.update(old(self).add_index as int, n),
            final(self).add_index == old(self).add_index + 1,
    {
        self.buffer.set(self.add_index, n);
        self.add_index = self.add_index + 1;
    }

    /// Writes the code of `tag` at the next word.
    pub fn add_tag(&mut self, tag: Tag)
        requires
            old(self).add_index < BUFFER_LENGTH,
        ensures
            final(self).buffer.data@ == old(self).buffer.data@.update(
                old(self).add_index as int,
                tag_code(tag),
            ),
            final(self).add_index == old(self).add_index + 1,
    {
        self.add(tag.as_u32());
    }

    /// Writes `size` twice: a tag's value buffer size and its request size.
    pub fn add_size(&mut self, size: u32)
        requires
            old(self).add_index + 1 < BUFFER_LENGTH,
        ensures
            final(self).buffer.data@ == old(self).buffer.data@.update(
                old(self).add_index as int,
                size,
            ).update(old(self).add_index + 1, size),
            final(self).add_index == old(self).add_index + 2,
    {
        self.add(size);
        self.add(size);
    }
}

/// The framebuffer geometry an answered request holds.
pub open spec fn answered_config(words: Seq<u32>) -> FBConfig {
    FBConfig {
        phy_width: words[5],
        phy_height: words[6],
        vir_width: words[10],
        vir_height: words[11],
        width_off: words[15],
        height_off: words[16],
        depth: words[20],
        pxl_order: words[24],
        pitch: words[33],
    }
}

/// Draws into the framebuffer the VideoCore handed out.
pub struct GPUController {
    /// ARM physical address of the framebuffer.
    pub fb_address: u32,
    /// The framebuffer's pixels.
    pub fb: Vec<u32>,
    pub fb_config: FBConfig,
}

impl GPUController {
    /// The controller for the answer `answer` to the framebuffer request:
    /// the geometry it holds, and the framebuffer at the address it holds
    /// (word 28, turned into an ARM address), cleared.
    pub fn from_answer(answer: &GPUMessageBuffer) -> (r: Self)
        ensures
            r.fb_config == answered_config(answer.data@),
            r.fb_address == answer.data@[28] & BUS_ADDRESS_MASK,
            r.fb@.len() == FRAMEBUFFER_WORDS,
            forall|i: int| 0 <= i < FRAMEBUFFER_WORDS ==> r.fb@[i] == 0,
    {
        let fb_config = FBConfig {
            phy_width: answer.get(5),
            phy_height: answer.get(6),
            vir_width: answer.get(10),
            vir_height: answer.get(11),
            width_off: answer.get(15),
            height_off: answer.get(16),
            depth: answer.get(20),
            pxl_order: answer.get(24),
            pitch: answer.get(33),
        };
        let mut fb: Vec<u32> = Vec::new();
        let mut i: usize = 0;
        while i < FRAMEBUFFER_WORDS
            invariant
                i <= FRAMEBUFFER_WORDS,
                fb@.len() == i,
                forall|j: int| 0 <= j < i ==> fb@[j] == 0,
            decreases FRAMEBUFFER_WORDS - i,
        {
            fb.push(0);
            i = i + 1;
        }
        GPUController { fb_address: answer.get(28) & BUS_ADDRESS_MASK, fb, fb_config }
    }

    /// The framebuffer request in a 16-byte aligned mailbox buffer: the
    /// words of `request_words`.
    pub fn request_buffer() -> (b: MailboxBuffer)
        ensures
            b@ == request_words(),
            b.alignment() == 16,
    {
        let request = GPUMessageBuffer::new();
        let mut words: Vec<u32> = Vec::new();
        let mut i: usize = 0;
        while i < BUFFER_LENGTH
            invariant
                i <= BUFFER_LENGTH,
                request.data@ == request_words(),
                words@ == request.data@.subrange(0, i as int),
            decreases BUFFER_LENGTH - i,
        {
            words.push(request.get(i));
            i = i + 1;
        }
        assert(words@ =~= request_words());
        assert(is_power_of_two(16)) by {
            reveal_with_fuel(is_power_of_two, 6);
        }
        AlignedBuffer::from_elements(words, 16)
    }

    /// The controller for what the mailbox left in the request buffer:
    /// `None` when the buffer does not have the request's length, else the
    /// controller `from_answer` makes of its words.
    pub fn from_reply(reply: &MailboxBuffer) -> (r: Option<Self>)
        ensures
            r is None <==> reply@.len() != BUFFER_LENGTH,
            r matches Some(c) ==> {
                &&& c.fb_config == answered_config(reply@)
                &&& c.fb_address == reply@[28] & BUS_ADDRESS_MASK
                &&& c.fb@.len() == FRAMEBUFFER_WORDS
                &&& forall|i: int| 0 <= i < FRAMEBUFFER_WORDS ==> c.fb@[i] == 0
            },
    {
        if reply.len() != BUFFER_LENGTH {
            return None;
        }
        let mut answer = GPUMessageBuffer::new();
        let mut j: usize = 0;
        while j < BUFFER_LENGTH
            invariant
                j <= BUFFER_LENGTH,
                reply@.len() == BUFFER_LENGTH,
                forall|k: int| 0 <= k < j ==> answer.data@[k] == reply@[k],
            decreases BUFFER_LENGTH - j,
        {
            answer.set(j, reply.get(j));
            j = j + 1;
        }
        assert(answer.data@ =~= reply@);
        Some(Self::from_answer(&answer))
    }

    /// Sends the framebuffer request through `mailbox` on the property
    /// channel and makes the controller from the answer; `None` when the
    /// answer does not have the request's length. The configuration passed
    /// in is not used: the request is fixed.
    pub fn init<M: MailboxController>(mailbox: &M, _config: FBConfig) -> (r: Option<Self>)
        ensures
            r matches Some(c) ==> {
                &&& c.fb@.len() == FRAMEBUFFER_WORDS
                &&& forall|i: int| 0 <= i < FRAMEBUFFER_WORDS ==> c.fb@[i] == 0
                &&& exists|answer: Seq<u32>|
                    answer.len() == BUFFER_LENGTH && #[trigger] answered_config(answer) == c.fb_config
                        && c.fb_address == answer[28] & BUS_ADDRESS_MASK
            },
    {
        let mut buffer = Self::request_buffer();
        let _ = mailbox.send_message_on_channel(&mut buffer, Channel::Prop);
        let r = Self::from_reply(&buffer);
        assert(r matches Some(c) ==> answered_config(buffer@) == c.fb_config);
        r
    }

    /// Index in the framebuffer of pixel (`x`, `y`).
    pub open spec fn pixel_index(&self, x: u32, y: u32) -> int {
        self.fb_config.vir_width as int * y as int + x as int
    }

    /// Sets pixel (`x`, `y`) to `color`.
    pub fn set_pxl(&mut self, x: u32, y: u32, color: u32)
        requires
            old(self).pixel_index(x, y) < old(self).fb@.len(),
            old(self).pixel_index(x, y) <= u32::MAX,
        ensures
            final(self).fb@ == old(self).fb@.update(old(self).pixel_index(x, y), color),
            final(self).fb_config == old(self).fb_config,
            final(self).fb_address == old(self).fb_address,
    {
        let index = self.address(x, y);
        self.fb.set(index, color);
    }

    fn address(&self, x: u32, y: u32) -> (r: usize)
        requires
            self.pixel_index(x, y) <= u32::MAX,
            self.pixel_index(x, y) < self.fb@.len(),
        ensures
            r == self.pixel_index(x, y),
    {
        proof {
            assert(self.fb_config.vir_width * y <= self.pixel_index(x, y)) by (nonlinear_arith)
                requires
                    self.pixel_index(x, y) == self.fb_config.vir_width as int * y as int + x as int,
            ;
        }
        (self.fb_config.vir_width * y + x) as usize
    }
}

/// The tag codes of the frame buffer message, as the mailbox property
/// interface numbers them: set power 0x28001, set clock rate 0x38002, set
/// physical size 0x48003, set virtual size 0x48004, set virtual offset
/// 0x48009, set depth 0x48005, set pixel order 0x48006, allocate buffer
/// 0x40001, get pitch 0x40008, and 0 for the end tag.
pub proof fn lemma_tag_codes()
    ensures
        tag_code(Tag::SetPower) == 0x28001,
        tag_code(Tag::SetClkRate) == 0x38002,
        tag_code(Tag::SetPhyDim) == 0x48003,
        tag_code(Tag::SetVirDim) == 0x48004,
        tag_code(Tag::SetVirOff) == 0x48009,
        tag_code(Tag::SetDepth) == 0x48005,
        tag_code(Tag::SetPxlOrdr) == 0x48006,
        tag_code(Tag::GetFB) == 0x40001,
        tag_code(Tag::GetPitch) == 0x40008,
        tag_code(Tag::EndOfMessage) == 0,
{
}

} // verus!
