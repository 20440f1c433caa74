//! The frame buffer the VideoCore hands out, and the settings it is made with.
use vstd::prelude::*;
use crate::mailbox::{MailboxBuffer, MailboxController};
use crate::mailbox_property::{
    GetFrameBuffer, GetPitch, MailboxInstruction, MailboxResponse, MessageBuilder, SetDepth,
    SetPhysicalDimensions, SetVirtualDimensions,
};

verus! {

/// Width and height in pixels.
#[derive(Copy, Clone, Debug, PartialEq, Eq, Structural)]
pub struct Dimensions {
    pub width: u32,
    pub height: u32,
}

impl Dimensions {
    pub fn new(width: u32, height: u32) -> (r: Self)
        ensures
            r.width == width,
            r.height == height,
    {
        Dimensions { width, height }
    }

    pub fn get_width(&self) -> (r: u32)
        ensures
            r == self.width,
    {
        self.width
    }

    pub fn get_height(&self) -> (r: u32)
        ensures
            r == self.height,
    {
        self.height
    }

    pub fn set_width(&mut self, width: u32)
        ensures
            final(self).width == width,
            final(self).height == old(self).height,
    {
        self.width = width;
    }

    pub fn set_height(&mut self, height: u32)
        ensures
            final(self).height == height,
            final(self).width == old(self).width,
    {
        self.height = height;
    }
}

/// Bits per pixel.
pub type Depth = u32;

/// Bytes per line.
pub type Pitch = u32;

/// A value the frame buffer tags get, test and set.
pub trait FramebufferProperty: Sized + Copy {
    /// The value's words in a tag.
    spec fn words(&self) -> Seq<u32>;

    /// Words the value takes.
    spec fn property_size() -> u32;

    /// The tag code of the get request; test adds 0x4000, set 0x8000.
    spec fn base_encoding_spec() -> u32;

    fn size() -> (r: u32)
        ensures
            r == Self::property_size(),
            r <= 4,
    ;

    fn base_encoding() -> (r: u32)
        ensures
            r == Self::base_encoding_spec(),
    ;

    fn write_to_buffer(&self) -> (r: Vec<u32>)
        ensures
            r@ == self.words(),
            r@.len() == Self::property_size(),
    ;

    fn read_from_buffer(buffer: &[u32]) -> (r: Option<Self>)
        requires
            buffer@.len() == Self::property_size(),
        ensures
            r matches Some(v) ==> v.words() == buffer@,
    ;
}

/// The order of colour channels in a pixel.
#[derive(Copy, Clone, Debug, PartialEq, Eq, Structural)]
pub enum PixelOrder {
    BGR,
    RGB,
}

impl PixelOrder {
    pub open spec fn to_u32_spec(self) -> u32 {
        match self {
            PixelOrder::BGR => 0,
            PixelOrder::RGB => 1,
        }
    }

    pub fn to_u32(self) -> (r: u32)
        ensures
            r == self.to_u32_spec(),
    {
        match self {
            PixelOrder::BGR => 0x0,
            PixelOrder::RGB => 0x1,
        }
    }

    /// The order with the number `value`, which must be 0 or 1.
    pub fn from_u32(value: u32) -> (r: Self)
        requires
            value <= 1,
        ensures
            r.to_u32_spec() == value,
    {
        if value == 0 {
            PixelOrder::BGR
        } else {
            PixelOrder::RGB
        }
    }

    /// The name the order is shown with.
    pub fn name(&self) -> (r: &'static str)
        ensures
            r == (if *self == PixelOrder::BGR {
                "BGR"
            } else {
                "RGB"
            }),
    {
        match self {
            PixelOrder::BGR => "BGR",
            PixelOrder::RGB => "RGB",
        }
    }
}

impl FramebufferProperty for PixelOrder {
    open spec fn words(&self) -> Seq<u32> {
        seq![self.to_u32_spec()]
    }

    open spec fn property_size() -> u32 {
        1
    }

    open spec fn base_encoding_spec() -> u32 {
        0x40006
    }

    fn size() -> (r: u32) {
        1
    }

    fn base_encoding() -> (r: u32) {
        0x40006
    }

    fn write_to_buffer(&self) -> (r: Vec<u32>) {
        let mut v: Vec<u32> = Vec::new();
        v.push(self.to_u32());
        assert(v@ =~= self.words());
        v
    }

    fn read_from_buffer(buffer: &[u32]) -> (r: Option<Self>)
        ensures
            r is Some <==> buffer@[0] <= 1,
    {
        if buffer[0] <= 1 {
            let order = Self::from_u32(buffer[0]);
            assert(order.words() =~= buffer@);
            Some(order)
        } else {
            None
        }
    }
}

/// A virtual offset in pixels.
#[derive(Copy, Clone, Debug, PartialEq, Eq, Structural)]
pub struct Offset {
    pub x: u32,
    pub y: u32,
}

impl Offset {
    pub fn new(x: u32, y: u32) -> (r: Self)
        ensures
            r.x == x,
            r.y == y,
    {
        Offset { x, y }
    }

    pub open spec fn none_spec() -> Self {
        Offset { x: 0, y: 0 }
    }

    pub fn none() -> (r: Self)
        ensures
            r == Self::none_spec(),
    {
        Self::new(0, 0)
    }
}

impl FramebufferProperty for Offset {
    open spec fn words(&self) -> Seq<u32> {
        seq![self.x, self.y]
    }

    open spec fn property_size() -> u32 {
        2
    }

    open spec fn base_encoding_spec() -> u32 {
        0x40009
    }

    fn size() -> (r: u32) {
        2
    }

    fn base_encoding() -> (r: u32) {
        0x40009
    }

    fn write_to_buffer(&self) -> (r: Vec<u32>) {
        let mut v: Vec<u32> = Vec::new();
        v.push(self.x);
        v.push(self.y);
        assert(v@ =~= self.words());
        v
    }

    fn read_from_buffer(buffer: &[u32]) -> (r: Option<Self>)
        ensures
            r is Some,
    {
        let o = Self::new(buffer[0], buffer[1]);
        assert(o.words() =~= buffer@);
        Some(o)
    }
}

/// Overscan margins in pixels.
#[derive(Copy, Clone, Debug, PartialEq, Eq, Structural)]
pub struct Overscan {
    pub top: u32,
    pub bottom: u32,
    pub left: u32,
    pub right: u32,
}

impl Overscan {
    pub fn new(top: u32, bottom: u32, left: u32, right: u32) -> (r: Self)
        ensures
            r == (Overscan { top, bottom, left, right }),
    {
        Overscan { top, bottom, left, right }
    }

    pub fn none() -> (r: Self)
        ensures
            r == (Overscan { top: 0, bottom: 0, left: 0, right: 0 }),
    {
        Self::new(0, 0, 0, 0)
    }
}

impl FramebufferProperty for Overscan {
    open spec fn words(&self) -> Seq<u32> {
        seq![self.top, self.bottom, self.left, self.right]
    }

    open spec fn property_size() -> u32 {
        4
    }

    open spec fn base_encoding_spec() -> u32 {
        0x4000a
    }

    fn size() -> (r: u32) {
        4
    }

    fn base_encoding() -> (r: u32) {
        0x4000a
    }

    fn write_to_buffer(&self) -> (r: Vec<u32>) {
        let mut v: Vec<u32> = Vec::new();
        v.push(self.top);
        v.push(self.bottom);
        v.push(self.left);
        v.push(self.right);
        assert(v@ =~= self.words());
        v
    }

    fn read_from_buffer(buffer: &[u32]) -> (r: Option<Self>)
        ensures
            r is Some,
    {
        let o = Self::new(buffer[0], buffer[1], buffer[2], buffer[3]);
        assert(o.words() =~= buffer@);
        Some(o)
    }
}

/// Tag code modifiers of a property request.
pub const GET_ENCODING: u32 = 0x0;
pub const TEST_ENCODING: u32 = 0x4000;
pub const SET_ENCODING: u32 = 0x8000;

/// Whether a property request reads, tests or sets the value.
#[derive(Debug)]
pub enum FramebufferPropertyRequestType<T> {
    Get,
    Test(T),
    SetTo(T),
}

/// A get, test or set request of one frame buffer property.
#[derive(Debug)]
pub struct FramebufferPropertyRequest<T> {
    pub request: FramebufferPropertyRequestType<T>,
    pub response: Option<T>,
}

/// The tag code modifier of a request type.
pub open spec fn request_modifier<T>(request: FramebufferPropertyRequestType<T>) -> u32 {
    match request {
        FramebufferPropertyRequestType::Get => GET_ENCODING,
        FramebufferPropertyRequestType::Test(_) => TEST_ENCODING,
        FramebufferPropertyRequestType::SetTo(_) => SET_ENCODING,
    }
}

impl<T: FramebufferProperty> FramebufferPropertyRequest<T> {
    fn with_request(request: FramebufferPropertyRequestType<T>) -> (r: Self)
        ensures
            r.request == request,
            r.response is None,
    {
        FramebufferPropertyRequest { request, response: None }
    }

    /// A request that reads the property.
    pub fn get() -> (r: Self)
        ensures
            r.request == FramebufferPropertyRequestType::<T>::Get,
            r.response is None,
    {
        Self::with_request(FramebufferPropertyRequestType::Get)
    }

    /// A request that tests whether `value` would be accepted.
    pub fn test(value: T) -> (r: Self)
        ensures
            r.request == FramebufferPropertyRequestType::Test(value),
            r.response is None,
    {
        Self::with_request(FramebufferPropertyRequestType::Test(value))
    }

    /// A request that sets the property to `value`.
    pub fn set(value: T) -> (r: Self)
        ensures
            r.request == FramebufferPropertyRequestType::SetTo(value),
            r.response is None,
    {
        Self::with_request(FramebufferPropertyRequestType::SetTo(value))
    }

    /// The value the answer gave; the request must have been answered.
    pub fn get_response(&self) -> (r: T)
        requires
            self.response is Some,
        ensures
            self.response == Some(r),
    {
        self.response.unwrap()
    }
}

impl<T: FramebufferProperty> MailboxInstruction for FramebufferPropertyRequest<T> {
    open spec fn took_answer(&self, before: Self, data: Seq<u32>) -> bool {
        &&& self.request == before.request
        &&& self.response matches Some(v) ==> v.words() == data
    }

    open spec fn took_response(&self, before: Self, response: MailboxResponse) -> bool {
        *self == before
    }

    open spec fn tag_encoding(&self) -> u32 {
        T::base_encoding_spec() | request_modifier(self.request)
    }

    open spec fn tag_words(&self) -> u32 {
        T::property_size()
    }

    open spec fn request_data(&self) -> Seq<u32> {
        match self.request {
            FramebufferPropertyRequestType::Get => Seq::empty(),
            FramebufferPropertyRequestType::Test(v) => v.words(),
            FramebufferPropertyRequestType::SetTo(v) => v.words(),
        }
    }

    fn get_encoding(&self) -> (r: u32) {
        let modifier = match self.request {
            FramebufferPropertyRequestType::Get => GET_ENCODING,
            FramebufferPropertyRequestType::Test(_) => TEST_ENCODING,
            FramebufferPropertyRequestType::SetTo(_) => SET_ENCODING,
        };
        T::base_encoding() | modifier
    }

    fn get_buffer_words(&self) -> (r: u32) {
        T::size()
    }

    fn write_data_at_offset(&self) -> (r: Vec<u32>) {
        match &self.request {
            FramebufferPropertyRequestType::Get => {
                let v: Vec<u32> = Vec::new();
                assert(v@ =~= self.request_data());
                v
            },
            FramebufferPropertyRequestType::Test(value) => value.write_to_buffer(),
            FramebufferPropertyRequestType::SetTo(value) => value.write_to_buffer(),
        }
    }

    fn read_data_at_offset(&mut self, buffer: &[u32])
        ensures
            final(self).response matches Some(v) ==> v.words() == buffer@,
            final(self).request == old(self).request,
    {
        self.response = T::read_from_buffer(buffer);
    }

    fn set_response(&mut self, response: MailboxResponse)
        ensures
            *final(self) == *old(self),
    {
    }
}

/// The settings of a frame buffer.
#[derive(Copy, Clone, Debug)]
pub struct FrameBufferConfig {
    pub depth: Depth,
    pub overscan: Overscan,
    pub pitch: Pitch,
    pub pixel_order: PixelOrder,
    pub physical_dimensions: Dimensions,
    pub virtual_dimensions: Dimensions,
    pub virtual_offset: Offset,
}

/// Collects frame buffer settings one at a time.
#[derive(Copy, Clone, Debug)]
pub struct FrameBufferConfigBuilder {
    pub depth: Option<Depth>,
    pub overscan: Option<Overscan>,
    pub pixel_order: Option<PixelOrder>,
    pub physical_dimensions: Option<Dimensions>,
    pub virtual_dimensions: Option<Dimensions>,
    pub virtual_offset: Option<Offset>,
}

impl FrameBufferConfigBuilder {
    /// A builder with no setting chosen.
    pub fn new() -> (r: Self)
        ensures
            r.depth is None,
            r.overscan is None,
            r.pixel_order is None,
            r.physical_dimensions is None,
            r.virtual_dimensions is None,
            r.virtual_offset is None,
    {
        FrameBufferConfigBuilder {
            depth: None,
            overscan: None,
            pixel_order: None,
            physical_dimensions: None,
            virtual_dimensions: None,
            virtual_offset: None,
        }
    }

    /// Every setting has been chosen.
    pub open spec fn complete(&self) -> bool {
        &&& self.depth is Some
        &&& self.overscan is Some
        &&& self.pixel_order is Some
        &&& self.physical_dimensions is Some
        &&& self.virtual_dimensions is Some
        &&& self.virtual_offset is Some
    }

    /// The settings chosen, with a pitch of zero (the pitch is not chosen but
    /// given by the VideoCore). Every setting must have been chosen.
    pub fn build(&self) -> (r: FrameBufferConfig)
        requires
            self.complete(),
        ensures
            Some(r.depth) == self.depth,
            Some(r.overscan) == self.overscan,
            r.pitch == 0,
            Some(r.pixel_order) == self.pixel_order,
            Some(r.physical_dimensions) == self.physical_dimensions,
            Some(r.virtual_dimensions) == self.virtual_dimensions,
            Some(r.virtual_offset) == self.virtual_offset,
    {
        FrameBufferConfig {
            depth: self.depth.unwrap(),
            overscan: self.overscan.unwrap(),
            pitch: 0,
            pixel_order: self.pixel_order.unwrap(),
            physical_dimensions: self.physical_dimensions.unwrap(),
            virtual_dimensions: self.virtual_dimensions.unwrap(),
            virtual_offset: self.virtual_offset.unwrap(),
        }
    }

    pub fn depth(self, depth: Depth) -> (r: Self)
        ensures
            r == (FrameBufferConfigBuilder { depth: Some(depth), ..self }),
    {
        let mut b = self;
        b.depth = Some(depth);
        b
    }

    pub fn overscan(self, overscan: Overscan) -> (r: Self)
        ensures
            r == (FrameBufferConfigBuilder { overscan: Some(overscan), ..self }),
    {
        let mut b = self;
        b.overscan = Some(overscan);
        b
    }

    pub fn pixel_order(self, order: PixelOrder) -> (r: Self)
        ensures
            r == (FrameBufferConfigBuilder { pixel_order: Some(order), ..self }),
    {
        let mut b = self;
        b.pixel_order = Some(order);
        b
    }

    pub fn physical_dimensions(self, dimensions: Dimensions) -> (r: Self)
        ensures
            r == (FrameBufferConfigBuilder { physical_dimensions: Some(dimensions), ..self }),
    {
        let mut b = self;
        b.physical_dimensions = Some(dimensions);
        b
    }

    pub fn virtual_dimensions(self, dimensions: Dimensions) -> (r: Self)
        ensures
            r == (FrameBufferConfigBuilder { virtual_dimensions: Some(dimensions), ..self }),
    {
        let mut b = self;
        b.virtual_dimensions = Some(dimensions);
        b
    }

    pub fn virtual_offset(self, offset: Offset) -> (r: Self)
        ensures
            r == (FrameBufferConfigBuilder { virtual_offset: Some(offset), ..self }),
    {
        let mut b = self;
        b.virtual_offset = Some(offset);
        b
    }
}

/// Bits of a frame buffer address the VideoCore gives that address ARM memory.
pub const BUS_ADDRESS_MASK: u32 = 0x3fff_ffff;

/// Words of the message that asks for a frame buffer.
pub const FRAME_BUFFER_MESSAGE_WORDS: usize = 41;

/// The settings the answer `a` to a frame buffer request gave: depth,
/// overscan, physical size, pitch, pixel order and virtual size, with no
/// virtual offset.
pub open spec fn answered_config(a: Seq<u32>) -> FrameBufferConfig {
    FrameBufferConfig {
        depth: a[5],
        overscan: Overscan { top: a[9], bottom: a[10], left: a[11], right: a[12] },
        physical_dimensions: Dimensions { width: a[16], height: a[17] },
        pitch: a[21],
        pixel_order: if a[25] == 0 {
            PixelOrder::BGR
        } else {
            PixelOrder::RGB
        },
        virtual_dimensions: Dimensions { width: a[29], height: a[30] },
        virtual_offset: Offset { x: 0, y: 0 },
    }
}

/// A frame buffer: the settings the VideoCore accepted, the ARM address of
/// its memory, and its pixels.
pub struct FrameBuffer {
    pub config: FrameBufferConfig,
    pub start_address: u32,
    pub buffer: Vec<u32>,
}

impl FrameBuffer {
    /// The message asking for a frame buffer with the settings of `config`:
    /// it sets the depth, overscan, physical size, pixel order and virtual
    /// size, reads the pitch and virtual offset, and allocates the buffer
    /// with 32-byte alignment. The answers' data lie at words 5, 9..12,
    /// 16..17, 21, 25, 29..30, 34..35 and 39..40.
    pub fn message(config: FrameBufferConfig) -> (r: MessageBuilder)
        ensures
            r.wf(),
            r.word_length == FRAME_BUFFER_MESSAGE_WORDS,
            r.instructions@.len() == 8,
            r.instructions@[0].offset == 2 && r.instructions@[0].words == 1,
            r.instructions@[1].offset == 6 && r.instructions@[1].words == 4,
            r.instructions@[2].offset == 13 && r.instructions@[2].words == 2,
            r.instructions@[3].offset == 18 && r.instructions@[3].words == 1,
            r.instructions@[4].offset == 22 && r.instructions@[4].words == 1,
            r.instructions@[5].offset == 26 && r.instructions@[5].words == 2,
            r.instructions@[6].offset == 31 && r.instructions@[6].words == 2,
            r.instructions@[7].offset == 36 && r.instructions@[7].words == 2,
            r.instructions@[0].encoding == 0x48005 && r.instructions@[0].request@ == seq![config.depth],
            r.instructions@[1].encoding == 0x4000a | SET_ENCODING && r.instructions@[1].request@ == seq![
                config.overscan.top,
                config.overscan.bottom,
                config.overscan.left,
                config.overscan.right,
            ],
            r.instructions@[2].encoding == 0x48003 && r.instructions@[2].request@ == seq![
                config.physical_dimensions.width,
                config.physical_dimensions.height,
            ],
            r.instructions@[3].encoding == 0x40008 && r.instructions@[3].request@ == Seq::<u32>::empty(),
            r.instructions@[4].encoding == 0x40006 | SET_ENCODING && r.instructions@[4].request@ == seq![
                config.pixel_order.to_u32_spec(),
            ],
            r.instructions@[5].encoding == 0x48004 && r.instructions@[5].request@ == seq![
                config.virtual_dimensions.width,
                config.virtual_dimensions.height,
            ],
            r.instructions@[6].encoding == 0x40009 | GET_ENCODING && r.instructions@[6].request@ == Seq::<
                u32,
            >::empty(),
            r.instructions@[7].encoding == 0x40001 && r.instructions@[7].request@ == seq![32u32],
    {
        let m0 = MessageBuilder::new();
        let m1 = m0.request(&SetDepth::new(config.depth));
        let m2 = m1.request(&FramebufferPropertyRequest::<Overscan>::set(config.overscan));
        let m3 = m2.request(&SetPhysicalDimensions::new(config.physical_dimensions));
        let m4 = m3.request(&GetPitch::new());
        let m5 = m4.request(&FramebufferPropertyRequest::<PixelOrder>::set(config.pixel_order));
        let m6 = m5.request(&SetVirtualDimensions::new(config.virtual_dimensions));
        let m7 = m6.request(&FramebufferPropertyRequest::<Offset>::get());
        let m8 = m7.request(&GetFrameBuffer::with_aligment(32));
        assert(m8.instructions@[6] == m7.instructions@[6]);
        m8
    }

    /// The frame buffer the answer `answer` to `message(config)` describes:
    /// the settings the answer gave (with no virtual offset), the ARM address
    /// of its memory, and virtual width times height black pixels of the
    /// requested size. `None` when the answer names no pixel order.
    pub fn from_answer(config: FrameBufferConfig, answer: &MailboxBuffer) -> (r: Option<FrameBuffer>)
        requires
            answer@.len() == FRAME_BUFFER_MESSAGE_WORDS,
            config.virtual_dimensions.width * config.virtual_dimensions.height <= u32::MAX,
        ensures
            r is Some <==> answer@[25] <= 1,
            r matches Some(fb) ==> {
                &&& fb.config == answered_config(answer@)
                &&& fb.start_address == answer@[39] & BUS_ADDRESS_MASK
                &&& fb.buffer@.len() == config.virtual_dimensions.width * config.virtual_dimensions.height
                &&& forall|i: int| 0 <= i < fb.buffer@.len() ==> fb.buffer@[i] == 0
            },
    {
        let message = Self::message(config);
        let mut depth = SetDepth::new(config.depth);
        let mut physical_dimensions = SetPhysicalDimensions::new(config.physical_dimensions);
        let mut pitch = GetPitch::new();
        let mut virtual_dimensions = SetVirtualDimensions::new(config.virtual_dimensions);
        let mut frame_buffer_request = GetFrameBuffer::with_aligment(32);
        depth.read_data_at_offset(message.response_data(answer, 0).as_slice());
        let overscan = Overscan::read_from_buffer(message.response_data(answer, 1).as_slice());
        physical_dimensions.read_data_at_offset(message.response_data(answer, 2).as_slice());
        pitch.read_data_at_offset(message.response_data(answer, 3).as_slice());
        let pixel_order = PixelOrder::read_from_buffer(message.response_data(answer, 4).as_slice());
        virtual_dimensions.read_data_at_offset(message.response_data(answer, 5).as_slice());
        let _virtual_offset = Offset::read_from_buffer(message.response_data(answer, 6).as_slice());
        frame_buffer_request.read_data_at_offset(message.response_data(answer, 7).as_slice());
        let start_address = frame_buffer_request.get_start() & BUS_ADDRESS_MASK;
        let overscan_set = match overscan {
            Some(o) => o,
            None => {
                return None;
            },
        };
        let pixel_order_set = match pixel_order {
            Some(p) => p,
            None => {
                return None;
            },
        };
        let actual_config = FrameBufferConfig {
            depth: depth.get(),
            overscan: overscan_set,
            physical_dimensions: physical_dimensions.get(),
            pitch: pitch.get(),
            pixel_order: pixel_order_set,
            virtual_dimensions: virtual_dimensions.get(),
            virtual_offset: Offset::none(),
        };
        let length = config.virtual_dimensions.get_width() * config.virtual_dimensions.get_height();
        let mut buffer: Vec<u32> = Vec::new();
        let mut i: u32 = 0;
        while i < length
            invariant
                i <= length,
                buffer@.len() == i,
                forall|j: int| 0 <= j < i ==> buffer@[j] == 0,
            decreases length - i,
        {
            buffer.push(0);
            i = i + 1;
        }
        Some(FrameBuffer { config: actual_config, start_address, buffer })
    }

    /// Asks the VideoCore for a frame buffer with the settings of `config`
    /// and makes it from the answer, as `from_answer` does. `None` when the
    /// mailbox gave no answer of the message's length, or `from_answer` gives
    /// none.
    pub fn from_config<M: MailboxController>(config: FrameBufferConfig, mailbox: &M) -> (r: Option<FrameBuffer>)
        requires
            config.virtual_dimensions.width * config.virtual_dimensions.height <= u32::MAX,
        ensures
            r matches Some(fb) ==> {
                &&& fb.buffer@.len() == config.virtual_dimensions.width * config.virtual_dimensions.height
                &&& fb.config.virtual_offset == Offset::none_spec()
                &&& forall|i: int| 0 <= i < fb.buffer@.len() ==> fb.buffer@[i] == 0
                &&& exists|answer: Seq<u32>|
                    answer.len() == FRAME_BUFFER_MESSAGE_WORDS && answer[25] <= 1
                        && #[trigger] answered_config(answer) == fb.config && fb.start_address
                        == answer[39] & BUS_ADDRESS_MASK
            },
    {
        let message = Self::message(config);
        let answer = match message.send(mailbox) {
            Some(b) => b,
            None => {
                return None;
            },
        };
        let r = Self::from_answer(config, &answer);
        assert(r matches Some(fb) ==> answered_config(answer@) == fb.config);
        r
    }

    /// Sets pixel `idx` of the buffer to `color`.
    pub fn write_idx(&mut self, idx: u32, color: u32)
        requires
            idx < old(self).buffer@.len(),
        ensures
            final(self).buffer@ == old(self).buffer@.update(idx as int, color),
            final(self).config == old(self).config,
            final(self).start_address == old(self).start_address,
    {
        self.buffer.set(idx as usize, color);
    }

    /// Sets the pixel in column `x` of row `y` to `color`; rows are as long
    /// as the physical width.
    pub fn write_pixel(&mut self, x: u32, y: u32, color: u32)
        requires
            y * old(self).config.physical_dimensions.width + x < old(self).buffer@.len(),
            y * old(self).config.physical_dimensions.width + x <= u32::MAX,
        ensures
            final(self).buffer@ == old(self).buffer@.update(
                y * old(self).config.physical_dimensions.width + x,
                color,
            ),
            final(self).config == old(self).config,
            final(self).start_address == old(self).start_address,
    {
        let idx = y * self.config.physical_dimensions.get_width() + x;
        self.buffer.set(idx as usize, color);
    }

    pub fn get_config(&self) -> (r: FrameBufferConfig)
        ensures
            r == self.config,
    {
        self.config
    }
}

/// Pixel orders as the firmware numbers them (BGR 0, RGB 1), and the tag
/// modifiers of frame buffer requests: a get leaves the tag as it is, a
/// test adds 0x4000 and a set 0x8000.
pub proof fn lemma_frame_buffer_codes()
    ensures
        PixelOrder::BGR.to_u32_spec() == 0,
        PixelOrder::RGB.to_u32_spec() == 1,
        GET_ENCODING == 0,
        TEST_ENCODING == 0x4000,
        SET_ENCODING == 0x8000,
        forall|t: FramebufferPropertyRequestType<u32>| #[trigger] request_modifier(t) == match t {
            FramebufferPropertyRequestType::Get => 0u32,
            FramebufferPropertyRequestType::Test(_) => 0x4000u32,
            FramebufferPropertyRequestType::SetTo(_) => 0x8000u32,
        },
{
}

} // verus!
