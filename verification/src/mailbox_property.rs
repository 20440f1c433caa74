//! Property messages of the VideoCore mailbox.
//!
//! A message is a buffer of words: its length in bytes, the request code,
//! then one tag per instruction (tag code, size of the tag's data in bytes,
//! a request/response code, then the data words) at consecutive offsets.
use vstd::prelude::*;
use crate::framebuffer::Dimensions;
use crate::mailbox::{Channel, MailboxBuffer, MailboxController, MBOX_REQUEST};
use crate::volatile::{is_power_of_two, AlignedBuffer};

verus! {

/// The largest tag data the builder takes, in words.
pub const MAX_TAG_WORDS: u32 = 256;

/// The largest message the builder makes, in words.
pub const MAX_MESSAGE_WORDS: usize = 0x1000_0000;

/// The alignment of a message buffer in bytes.
pub const MESSAGE_ALIGNMENT: usize = 16;

/// Words of a tag before its data: the tag code, the data size, the code.
pub const TAG_METADATA_WORDS: usize = 3;

/// The code and size words the VideoCore writes back into a tag.
#[derive(Copy, Clone, Debug, PartialEq, Eq, Structural)]
pub struct MailboxResponse {
    pub code: u32,
    pub size: u32,
}

impl MailboxResponse {
    pub fn new(code: u32, size: u32) -> (r: Self)
        ensures
            r.code == code,
            r.size == size,
    {
        MailboxResponse { code, size }
    }

    pub fn get_code(&self) -> (r: u32)
        ensures
            r == self.code,
    {
        self.code
    }

    pub fn get_size(&self) -> (r: u32)
        ensures
            r == self.size,
    {
        self.size
    }

    /// The response of a message not sent yet.
    pub fn none() -> (r: Self)
        ensures
            r.code == 0,
            r.size == 0,
    {
        MailboxResponse { code: 0, size: 0 }
    }
}

/// One instruction of a property message.
pub trait MailboxInstruction: Sized {
    /// The tag code.
    spec fn tag_encoding(&self) -> u32;

    /// Words of tag data, request and response alike.
    spec fn tag_words(&self) -> u32;

    /// The request data words; unwritten data words are zero.
    spec fn request_data(&self) -> Seq<u32>;

    fn get_encoding(&self) -> (r: u32)
        ensures
            r == self.tag_encoding(),
    ;

    fn get_buffer_words(&self) -> (r: u32)
        ensures
            r == self.tag_words(),
            r <= MAX_TAG_WORDS,
    ;

    /// Bytes of tag data.
    fn get_buffer_bytes(&self) -> (r: u32)
        ensures
            r == 4 * self.tag_words(),
    {
        4 * self.get_buffer_words()
    }

    /// The request data to write into the tag.
    fn write_data_at_offset(&self) -> (r: Vec<u32>)
        ensures
            r@ == self.request_data(),
            r@.len() <= self.tag_words(),
    ;

    /// `self` is `before` once it has taken `data` as its answer's data words.
    spec fn took_answer(&self, before: Self, data: Seq<u32>) -> bool;

    /// `self` is `before` once it has taken `response` as its answer's code
    /// and size.
    spec fn took_response(&self, before: Self, response: MailboxResponse) -> bool;

    /// Takes the tag's data words from the answer.
    fn read_data_at_offset(&mut self, buffer: &[u32])
        requires
            buffer@.len() == old(self).tag_words(),
        ensures
            final(self).tag_encoding() == old(self).tag_encoding(),
            final(self).tag_words() == old(self).tag_words(),
            final(self).took_answer(*old(self), buffer@),
    ;

    /// Takes the tag's response code and size from the answer.
    fn set_response(&mut self, response: MailboxResponse)
        ensures
            final(self).tag_encoding() == old(self).tag_encoding(),
            final(self).tag_words() == old(self).tag_words(),
            final(self).request_data() == old(self).request_data(),
            final(self).took_response(*old(self), response),
    ;
}

/// What the builder keeps of one instruction: its tag code, its data size
/// in words, its request data and the offset of its tag in the message.
#[derive(Debug)]
pub struct MessageTag {
    pub encoding: u32,
    pub words: u32,
    pub request: Vec<u32>,
    pub offset: usize,
}

/// The offset just past a tag.
pub open spec fn tag_end(t: MessageTag) -> int {
    t.offset + TAG_METADATA_WORDS + t.words
}

/// Each tag starts where the one before it ends, the first at word 2.
pub open spec fn tags_chained(tags: Seq<MessageTag>) -> bool {
    forall|i: int|
        0 <= i < tags.len() ==> #[trigger] tags[i].offset == if i == 0 {
            2
        } else {
            tag_end(tags[i - 1])
        }
}

/// Words of a message holding `tags`.
pub open spec fn message_length(tags: Seq<MessageTag>) -> int {
    if tags.len() == 0 {
        2
    } else {
        tag_end(tags.last())
    }
}

/// Word `j` of the tag `t` in the message.
pub open spec fn tag_word(t: MessageTag, j: int) -> u32 {
    if j == 0 {
        t.encoding
    } else if j == 1 {
        (4 * t.words) as u32
    } else if j == 2 {
        0
    } else if j - 3 < t.request@.len() {
        t.request@[j - 3]
    } else {
        0
    }
}

/// The words of tag `t` in the message, in order.
pub open spec fn tag_words_of(t: MessageTag) -> Seq<u32> {
    Seq::new((TAG_METADATA_WORDS + t.words) as nat, |j: int| tag_word(t, j))
}

/// Appends the words of `tag` to `words`.
fn append_tag(words: &mut Vec<u32>, tag: &MessageTag)
    requires
        tag.request@.len() <= tag.words,
        tag.words <= MAX_TAG_WORDS,
    ensures
        final(words)@ == old(words)@ + tag_words_of(*tag),
{
    let ghost start = words@;
    words.push(tag.encoding);
    words.push(4 * tag.words);
    words.push(0);
    assert(words@ =~= start + tag_words_of(*tag).subrange(0, 3));
    let mut j: usize = 0;
    while j < tag.words as usize
        invariant
            tag.request@.len() <= tag.words,
            j <= tag.words,
            words@ == start + tag_words_of(*tag).subrange(0, TAG_METADATA_WORDS + j),
        decreases tag.words - j,
    {
        if j < tag.request.len() {
            words.push(tag.request[j]);
        } else {
            words.push(0);
        }
        j = j + 1;
        assert(words@ =~= start + tag_words_of(*tag).subrange(0, TAG_METADATA_WORDS + j));
    }
    assert(tag_words_of(*tag).subrange(0, TAG_METADATA_WORDS + j) =~= tag_words_of(*tag));
}

/// Builds a property message out of instructions.
#[derive(Debug)]
pub struct MessageBuilder {
    pub instructions: Vec<MessageTag>,
    pub word_length: usize,
}

/// Tags before `i` end no later than tag `i` starts.
proof fn lemma_tags_ordered(tags: Seq<MessageTag>, k: int, i: int)
    requires
        tags_chained(tags),
        0 <= k < i < tags.len(),
    ensures
        tag_end(tags[k]) <= tags[i].offset,
    decreases i - k,
{
    assert(tags[i].offset == tag_end(tags[i - 1]));
    if k < i - 1 {
        lemma_tags_ordered(tags, k, i - 1);
    }
}

/// What a property message of `word_length` words gets back in `buffer`:
/// the answer, when the buffer kept the message's length; `None` otherwise.
pub fn answer_of(word_length: usize, buffer: MailboxBuffer) -> (r: Option<MailboxBuffer>)
    ensures
        r is None <==> buffer@.len() != word_length,
        r matches Some(x) ==> x@ == buffer@,
{
    if buffer.len() == word_length {
        Some(buffer)
    } else {
        None
    }
}

impl MessageBuilder {
    /// The tags are laid out one after another from word 2, the message
    /// length covers them, and each tag's request fits its data.
    pub open spec fn wf(&self) -> bool {
        let tags = self.instructions@;
        &&& tags_chained(tags)
        &&& self.word_length == message_length(tags)
        &&& self.word_length <= MAX_MESSAGE_WORDS
        &&& forall|i: int|
            0 <= i < tags.len() ==> (#[trigger] tags[i]).request@.len() <= tags[i].words
                && tags[i].words <= MAX_TAG_WORDS
    }

    /// `b` is the message: its length in bytes, the request code, then each
    /// tag's words at its offset.
    pub open spec fn is_message(&self, b: Seq<u32>) -> bool {
        let tags = self.instructions@;
        &&& b.len() == self.word_length
        &&& b[0] == (4 * self.word_length) as u32
        &&& b[1] == MBOX_REQUEST
        &&& forall|i: int, j: int|
            0 <= i < tags.len() && 0 <= j < TAG_METADATA_WORDS + tags[i].words ==> b[tags[i].offset
                + j] == #[trigger] tag_word(tags[i], j)
    }

    /// An empty message.
    pub fn new() -> (r: Self)
        ensures
            r.wf(),
            r.instructions@.len() == 0,
            r.word_length == 2,
    {
        MessageBuilder { instructions: Vec::new(), word_length: 2 }
    }

    /// Adds an instruction's tag at the end of the message.
    pub fn request<I: MailboxInstruction>(self, request: &I) -> (r: Self)
        requires
            self.wf(),
            self.word_length + TAG_METADATA_WORDS + MAX_TAG_WORDS <= MAX_MESSAGE_WORDS,
        ensures
            r.wf(),
            r.instructions@.len() == self.instructions@.len() + 1,
            forall|i: int|
                0 <= i < self.instructions@.len() ==> r.instructions@[i]
                    == self.instructions@[i],
            r.instructions@ == self.instructions@.push(r.instructions@.last()),
            r.instructions@.last().offset == self.word_length,
            r.instructions@.last().encoding == request.tag_encoding(),
            r.instructions@.last().words == request.tag_words(),
            r.instructions@.last().request@ == request.request_data(),
            r.word_length == self.word_length + TAG_METADATA_WORDS + request.tag_words(),
    {
        let mut builder = self;
        let offset = builder.word_length;
        let words = request.get_buffer_words();
        let data = request.write_data_at_offset();
        let tag = MessageTag {
            encoding: request.get_encoding(),
            words,
            request: data,
            offset,
        };
        let ghost old_tags = builder.instructions@;
        builder.word_length = builder.word_length + TAG_METADATA_WORDS + words as usize;
        builder.instructions.push(tag);
        proof {
            let tags = builder.instructions@;
            assert forall|i: int| 0 <= i < tags.len() implies #[trigger] tags[i].offset == if i
                == 0 {
                2
            } else {
                tag_end(tags[i - 1])
            } by {
                if i < old_tags.len() {
                    assert(tags[i] == old_tags[i]);
                    if i > 0 {
                        assert(tags[i - 1] == old_tags[i - 1]);
                    }
                } else if i > 0 {
                    assert(tags[i - 1] == old_tags.last());
                }
            }
        }
        builder
    }

    /// The message buffer: its length in bytes, the request code, then every
    /// tag's code, data size in bytes, a zero code and its request data,
    /// padded with zeros to the tag's size.
    #[verifier::rlimit(40)]
    #[verifier::spinoff_prover]
    pub fn to_buffer(&self) -> (r: MailboxBuffer)
        requires
            self.wf(),
        ensures
            self.is_message(r@),
            r.alignment() == MESSAGE_ALIGNMENT,
    {
        let tags = &self.instructions;
        let mut words: Vec<u32> = Vec::new();
        words.push((4 * self.word_length) as u32);
        words.push(MBOX_REQUEST);
        let mut i: usize = 0;
        while i < tags.len()
            invariant
                self.wf(),
                tags@ == self.instructions@,
                i <= tags@.len(),
                words@.len() == if i == 0 {
                    2
                } else {
                    tag_end(tags@[i - 1])
                },
                words@[0] == (4 * self.word_length) as u32,
                words@[1] == MBOX_REQUEST,
                forall|k: int, j: int|
                    0 <= k < i && 0 <= j < TAG_METADATA_WORDS + tags@[k].words ==> words@[tags@[k].offset
                        + j] == #[trigger] tag_word(tags@[k], j),
            decreases tags@.len() - i,
        {
            let ghost before = words@;
            proof {
                assert(tags@[i as int].offset == words@.len());
                assert(tag_end(tags@[i as int]) <= message_length(tags@)) by {
                    if i + 1 < tags@.len() {
                        lemma_tags_ordered(tags@, i as int, tags@.len() - 1);
                    }
                }
            }
            append_tag(&mut words, &tags[i]);
            proof {
                let t = tags@[i as int];
                assert forall|k: int, m: int|
                    0 <= k < i + 1 && 0 <= m < TAG_METADATA_WORDS + tags@[k].words implies words@[tags@[k].offset
                    + m] == #[trigger] tag_word(tags@[k], m) by {
                    if k < i {
                        lemma_tags_ordered(tags@, k, i as int);
                        assert(words@[tags@[k].offset + m] == before[tags@[k].offset + m]);
                    } else {
                        assert(words@[t.offset + m] == tag_words_of(t)[m]);
                    }
                }
            }
            i = i + 1;
        }
        proof {
            assert(is_power_of_two(MESSAGE_ALIGNMENT as nat)) by {
                reveal_with_fuel(is_power_of_two, 6);
            }
        }
        AlignedBuffer::from_elements(words, MESSAGE_ALIGNMENT)
    }

    /// Sends the message, laid out as `to_buffer` gives it, through `mailbox`
    /// on the property channel; the answer comes back, if the buffer kept
    /// its length. Each tag's answer is handed to its request by `deliver`.
    pub fn send<M: MailboxController>(&self, mailbox: &M) -> (r: Option<MailboxBuffer>)
        requires
            self.wf(),
        ensures
            r matches Some(b) ==> b@.len() == self.word_length,
    {
        let mut buffer = self.to_buffer();
        let _ = mailbox.send_message_on_channel(&mut buffer, Channel::Prop);
        answer_of(self.word_length, buffer)
    }

    /// The response code and size the answer holds for tag `i`.
    pub fn response_of(&self, buffer: &MailboxBuffer, i: usize) -> (r: MailboxResponse)
        requires
            self.wf(),
            i < self.instructions@.len(),
            buffer@.len() == self.word_length,
        ensures
            r.code == buffer@[self.instructions@[i as int].offset + 1],
            r.size == buffer@[self.instructions@[i as int].offset + 2],
    {
        proof {
            self.lemma_tag_in_message(i as int);
        }
        let offset = self.instructions[i].offset;
        MailboxResponse::new(buffer.get(offset + 1), buffer.get(offset + 2))
    }

    /// The data words the answer holds for tag `i`.
    pub fn response_data(&self, buffer: &MailboxBuffer, i: usize) -> (r: Vec<u32>)
        requires
            self.wf(),
            i < self.instructions@.len(),
            buffer@.len() == self.word_length,
        ensures
            r@ == buffer@.subrange(
                self.instructions@[i as int].offset + TAG_METADATA_WORDS,
                tag_end(self.instructions@[i as int]),
            ),
            r@.len() == self.instructions@[i as int].words,
    {
        proof {
            self.lemma_tag_in_message(i as int);
        }
        let tag = &self.instructions[i];
        let start = tag.offset + TAG_METADATA_WORDS;
        buffer.copy_range(start, start + tag.words as usize)
    }

    /// Hands tag `i`'s answer to the instruction it was made from.
    pub fn deliver<I: MailboxInstruction>(&self, buffer: &MailboxBuffer, i: usize, request: &mut I)
        requires
            self.wf(),
            i < self.instructions@.len(),
            buffer@.len() == self.word_length,
            old(request).tag_words() == self.instructions@[i as int].words,
        ensures
            final(request).tag_encoding() == old(request).tag_encoding(),
            final(request).tag_words() == old(request).tag_words(),
            ({
                let tag = self.instructions@[i as int];
                let response = MailboxResponse { code: buffer@[tag.offset + 1], size: buffer@[tag.offset + 2] };
                let data = buffer@.subrange(tag.offset + TAG_METADATA_WORDS, tag_end(tag));
                exists|answered: I|
                    #[trigger] answered.took_response(*old(request), response)
                        && final(request).took_answer(answered, data)
            }),
    {
        let response = self.response_of(buffer, i);
        request.set_response(response);
        let ghost answered = *request;
        let data = self.response_data(buffer, i);
        request.read_data_at_offset(data.as_slice());
        assert(answered.took_response(*old(request), response));
    }

    /// Every tag lies inside the message.
    proof fn lemma_tag_in_message(&self, i: int)
        requires
            self.wf(),
            0 <= i < self.instructions@.len(),
        ensures
            tag_end(self.instructions@[i]) <= self.word_length,
            self.instructions@[i].offset >= 2,
    {
        let tags = self.instructions@;
        if i + 1 < tags.len() {
            lemma_tags_ordered(tags, i, tags.len() - 1);
        }
        assert(tags[i].offset == if i == 0 {
            2
        } else {
            tag_end(tags[i - 1])
        });
    }
}

/// Words the first `n` tags of `tags` take: each its three header words
/// and its data words.
pub open spec fn tags_words(tags: Seq<MessageTag>, n: int) -> int
    decreases n,
{
    if n <= 0 {
        0
    } else {
        tags_words(tags, n - 1) + TAG_METADATA_WORDS + tags[n - 1].words
    }
}

/// The layout of a message as it is built from `new` by `request`: tag `i`
/// starts after the two header words and the tags before it, the message
/// ends after the last tag, and no two tags overlap.
pub proof fn lemma_message_layout(m: MessageBuilder, i: int, k: int)
    requires
        m.wf(),
        0 <= i < m.instructions@.len(),
    ensures
        m.instructions@[i].offset == 2 + tags_words(m.instructions@, i),
        m.word_length == 2 + tags_words(m.instructions@, m.instructions@.len() as int),
        0 <= k < i ==> tag_end(m.instructions@[k]) <= m.instructions@[i].offset,
    decreases i,
{
    let tags = m.instructions@;
    if i > 0 {
        lemma_message_layout(m, i - 1, k);
        assert(tags[i].offset == tag_end(tags[i - 1]));
        if 0 <= k < i {
            lemma_tags_ordered(tags, k, i);
        }
    } else {
        assert(tags[0].offset == 2);
    }
    lemma_message_length(m, tags.len() as int);
}

/// The tags of a well-formed message end where `tags_words` says.
proof fn lemma_message_length(m: MessageBuilder, n: int)
    requires
        m.wf(),
        0 <= n <= m.instructions@.len(),
    ensures
        n > 0 ==> tag_end(m.instructions@[n - 1]) == 2 + tags_words(m.instructions@, n),
        n == m.instructions@.len() ==> m.word_length == 2 + tags_words(m.instructions@, n),
    decreases n,
{
    let tags = m.instructions@;
    if n > 0 {
        lemma_message_length(m, n - 1);
        assert(tags[n - 1].offset == if n - 1 == 0 {
            2
        } else {
            tag_end(tags[n - 2])
        });
        assert(tags_words(tags, n) == tags_words(tags, n - 1) + TAG_METADATA_WORDS + tags[n - 1].words);
        if n - 1 == 0 {
            assert(tags_words(tags, 0) == 0);
        }
        assert(tag_end(tags[n - 1]) == 2 + tags_words(tags, n));
        if n == tags.len() {
            assert(tags.last() == tags[n - 1]);
        }
    } else {
        assert(tags_words(tags, 0) == 0);
    }
}

/// A request whose tag answer is read back where its request was written:
/// for every tag, the data words of the message's tag hold its request data,
/// zero-padded to the tag's size.
pub proof fn lemma_message_holds_requests(builder: MessageBuilder, b: Seq<u32>, i: int, j: int)
    requires
        builder.wf(),
        builder.is_message(b),
        0 <= i < builder.instructions@.len(),
        0 <= j < builder.instructions@[i].words,
    ensures
        b[builder.instructions@[i].offset + TAG_METADATA_WORDS + j] == if j < builder.instructions@[i].request@.len() {
            builder.instructions@[i].request@[j]
        } else {
            0
        },
        b[builder.instructions@[i].offset as int] == builder.instructions@[i].encoding,
{
    let t = builder.instructions@[i];
    assert(tag_word(t, 3 + j) == b[t.offset + 3 + j]);
    assert(tag_word(t, 0) == b[t.offset + 0]);
}


// ---------------------------------------------------------------- instructions

/// Asks for the base and size of the ARM's memory.
#[derive(Copy, Clone, Debug)]
pub struct GetARMMemory {
    pub base: u32,
    pub size: u32,
}

impl GetARMMemory {
    pub fn new() -> (r: Self)
        ensures
            r.base == 0,
            r.size == 0,
    {
        Self { base: 0, size: 0 }
    }

    pub fn get_base(&self) -> (r: u32)
        ensures
            r == self.base,
    {
        self.base
    }

    pub fn get_size(&self) -> (r: u32)
        ensures
            r == self.size,
    {
        self.size
    }

}

impl MailboxInstruction for GetARMMemory {
    open spec fn took_answer(&self, before: Self, data: Seq<u32>) -> bool {
        self.base == data[0] && self.size == data[1]
    }

    open spec fn took_response(&self, before: Self, response: MailboxResponse) -> bool {
        *self == before
    }

    open spec fn tag_encoding(&self) -> u32 {
        0x10005
    }

    open spec fn tag_words(&self) -> u32 {
        2
    }

    open spec fn request_data(&self) -> Seq<u32> {
        seq![]
    }

    fn get_encoding(&self) -> (r: u32) {
        0x10005
    }

    fn get_buffer_words(&self) -> (r: u32) {
        2
    }

    fn write_data_at_offset(&self) -> (r: Vec<u32>) {
        let v: Vec<u32> = Vec::new();
        assert(v@ =~= self.request_data());
        v
    }

    fn read_data_at_offset(&mut self, buffer: &[u32])
        ensures
            final(self).base == buffer@[0],
            final(self).size == buffer@[1],
    {
        self.base = buffer[0];
        self.size = buffer[1];
    }

    fn set_response(&mut self, response: MailboxResponse)
        ensures
            *final(self) == *old(self),
    {
    }

}

/// Asks for the base and size of the VideoCore's memory.
#[derive(Copy, Clone, Debug)]
pub struct GetVCMemory {
    pub base: u32,
    pub size: u32,
}

impl GetVCMemory {
    pub fn new() -> (r: Self)
        ensures
            r.base == 0,
            r.size == 0,
    {
        Self { base: 0, size: 0 }
    }

    pub fn get_base(&self) -> (r: u32)
        ensures
            r == self.base,
    {
        self.base
    }

    pub fn get_size(&self) -> (r: u32)
        ensures
            r == self.size,
    {
        self.size
    }

}

impl MailboxInstruction for GetVCMemory {
    open spec fn took_answer(&self, before: Self, data: Seq<u32>) -> bool {
        self.base == data[0] && self.size == data[1]
    }

    open spec fn took_response(&self, before: Self, response: MailboxResponse) -> bool {
        *self == before
    }

    open spec fn tag_encoding(&self) -> u32 {
        0x10006
    }

    open spec fn tag_words(&self) -> u32 {
        2
    }

    open spec fn request_data(&self) -> Seq<u32> {
        seq![]
    }

    fn get_encoding(&self) -> (r: u32) {
        0x10006
    }

    fn get_buffer_words(&self) -> (r: u32) {
        2
    }

    fn write_data_at_offset(&self) -> (r: Vec<u32>) {
        let v: Vec<u32> = Vec::new();
        assert(v@ =~= self.request_data());
        v
    }

    fn read_data_at_offset(&mut self, buffer: &[u32])
        ensures
            final(self).base == buffer@[0],
            final(self).size == buffer@[1],
    {
        self.base = buffer[0];
        self.size = buffer[1];
    }

    fn set_response(&mut self, response: MailboxResponse)
        ensures
            *final(self) == *old(self),
    {
    }

}

/// Allocates the frame buffer with the given alignment.
#[derive(Copy, Clone, Debug)]
pub struct GetFrameBuffer {
    pub alignment: u32,
    pub start: u32,
    pub size: u32,
    pub response: MailboxResponse,
}

impl GetFrameBuffer {
    pub fn with_aligment(alignment: u32) -> (r: Self)
        ensures
            r.alignment == alignment,
            r.start == 0,
            r.size == 0,
            r.response.code == 0,
            r.response.size == 0,
    {
        Self { alignment, start: 0, size: 0, response: MailboxResponse::none() }
    }

    pub fn get_start(&self) -> (r: u32)
        ensures
            r == self.start,
    {
        self.start
    }

    pub fn get_size(&self) -> (r: u32)
        ensures
            r == self.size,
    {
        self.size
    }

}

impl MailboxInstruction for GetFrameBuffer {
    open spec fn took_answer(&self, before: Self, data: Seq<u32>) -> bool {
        &&& self.start == data[0]
        &&& self.size == data[1]
        &&& self.alignment == before.alignment
        &&& self.response == before.response
    }

    open spec fn took_response(&self, before: Self, response: MailboxResponse) -> bool {
        &&& self.response == response
        &&& self.alignment == before.alignment
        &&& self.start == before.start
        &&& self.size == before.size
    }

    open spec fn tag_encoding(&self) -> u32 {
        0x40001
    }

    open spec fn tag_words(&self) -> u32 {
        2
    }

    open spec fn request_data(&self) -> Seq<u32> {
        seq![self.alignment]
    }

    fn get_encoding(&self) -> (r: u32) {
        0x40001
    }

    fn get_buffer_words(&self) -> (r: u32) {
        2
    }

    fn write_data_at_offset(&self) -> (r: Vec<u32>) {
        let mut v: Vec<u32> = Vec::new();
        v.push(self.alignment);
        assert(v@ =~= self.request_data());
        v
    }

    fn read_data_at_offset(&mut self, buffer: &[u32])
        ensures
            final(self).start == buffer@[0],
            final(self).size == buffer@[1],
            final(self).alignment == old(self).alignment,
            final(self).response == old(self).response,
    {
        self.start = buffer[0];
        self.size = buffer[1];
    }

    fn set_response(&mut self, response: MailboxResponse)
        ensures
            final(self).response == response,
            final(self).alignment == old(self).alignment,
            final(self).start == old(self).start,
            final(self).size == old(self).size,
    {
        self.response = response;
    }

}

/// Releases the frame buffer.
#[derive(Copy, Clone, Debug)]
pub struct ReleaseBuffer {
}

impl ReleaseBuffer {
    pub fn new() -> (r: Self)
    {
        Self {  }
    }

}

impl MailboxInstruction for ReleaseBuffer {
    open spec fn took_answer(&self, before: Self, data: Seq<u32>) -> bool {
        *self == before
    }

    open spec fn took_response(&self, before: Self, response: MailboxResponse) -> bool {
        *self == before
    }

    open spec fn tag_encoding(&self) -> u32 {
        0x48001
    }

    open spec fn tag_words(&self) -> u32 {
        0
    }

    open spec fn request_data(&self) -> Seq<u32> {
        seq![]
    }

    fn get_encoding(&self) -> (r: u32) {
        0x48001
    }

    fn get_buffer_words(&self) -> (r: u32) {
        0
    }

    fn write_data_at_offset(&self) -> (r: Vec<u32>) {
        let v: Vec<u32> = Vec::new();
        assert(v@ =~= self.request_data());
        v
    }

    fn read_data_at_offset(&mut self, buffer: &[u32])
        ensures
            *final(self) == *old(self),
    {
    }

    fn set_response(&mut self, response: MailboxResponse)
        ensures
            *final(self) == *old(self),
    {
    }

}

/// Blanks or unblanks the screen.
#[derive(Copy, Clone, Debug)]
pub struct BlankScreen {
    pub state: bool,
}

impl BlankScreen {
    pub fn new(state: bool) -> (r: Self)
        ensures
            r.state == state,
    {
        Self { state }
    }

}

impl MailboxInstruction for BlankScreen {
    open spec fn took_answer(&self, before: Self, data: Seq<u32>) -> bool {
        self.state == (data[0] != 0)
    }

    open spec fn took_response(&self, before: Self, response: MailboxResponse) -> bool {
        *self == before
    }

    open spec fn tag_encoding(&self) -> u32 {
        0x40002
    }

    open spec fn tag_words(&self) -> u32 {
        1
    }

    open spec fn request_data(&self) -> Seq<u32> {
        seq![if self.state { 1u32 } else { 0u32 }]
    }

    fn get_encoding(&self) -> (r: u32) {
        0x40002
    }

    fn get_buffer_words(&self) -> (r: u32) {
        1
    }

    fn write_data_at_offset(&self) -> (r: Vec<u32>) {
        let mut v: Vec<u32> = Vec::new();
        v.push(if self.state { 0x1 } else { 0x0 });
        assert(v@ =~= self.request_data());
        v
    }

    fn read_data_at_offset(&mut self, buffer: &[u32])
        ensures
            final(self).state == (buffer@[0] != 0),
    {
        let word = buffer[0];
        self.state = if word == 0 { false } else { true };
    }

    fn set_response(&mut self, response: MailboxResponse)
        ensures
            *final(self) == *old(self),
    {
    }

}

/// Asks for the physical display size.
#[derive(Copy, Clone, Debug)]
pub struct GetPhysicalDimensions {
    pub width: u32,
    pub height: u32,
}

impl GetPhysicalDimensions {
    pub fn new() -> (r: Self)
        ensures
            r.width == 0,
            r.height == 0,
    {
        Self { width: 0, height: 0 }
    }

    pub fn get_width(&self) -> (r: u32)
        ensures
            r == self.width,
    {
        self.width
    }

    pub fn get_height(&self) -> (r: u32)
        ensures
            r == self.height,
    {
        self.height
    }

    pub fn get(&self) -> (r: Dimensions)
        ensures
            r.width == self.width,
            r.height == self.height,
    {
        Dimensions::new(self.width, self.height)
    }

}

impl MailboxInstruction for GetPhysicalDimensions {
    open spec fn took_answer(&self, before: Self, data: Seq<u32>) -> bool {
        self.width == data[0] && self.height == data[1]
    }

    open spec fn took_response(&self, before: Self, response: MailboxResponse) -> bool {
        *self == before
    }

    open spec fn tag_encoding(&self) -> u32 {
        0x40003
    }

    open spec fn tag_words(&self) -> u32 {
        2
    }

    open spec fn request_data(&self) -> Seq<u32> {
        seq![]
    }

    fn get_encoding(&self) -> (r: u32) {
        0x40003
    }

    fn get_buffer_words(&self) -> (r: u32) {
        2
    }

    fn write_data_at_offset(&self) -> (r: Vec<u32>) {
        let v: Vec<u32> = Vec::new();
        assert(v@ =~= self.request_data());
        v
    }

    fn read_data_at_offset(&mut self, buffer: &[u32])
        ensures
            final(self).width == buffer@[0],
            final(self).height == buffer@[1],
    {
        self.width = buffer[0];
        self.height = buffer[1];
    }

    fn set_response(&mut self, response: MailboxResponse)
        ensures
            *final(self) == *old(self),
    {
    }

}

/// Asks for the virtual display size.
#[derive(Copy, Clone, Debug)]
pub struct GetVirtualDimensions {
    pub width: u32,
    pub height: u32,
}

impl GetVirtualDimensions {
    pub fn new() -> (r: Self)
        ensures
            r.width == 0,
            r.height == 0,
    {
        Self { width: 0, height: 0 }
    }

    pub fn get_width(&self) -> (r: u32)
        ensures
            r == self.width,
    {
        self.width
    }

    pub fn get_height(&self) -> (r: u32)
        ensures
            r == self.height,
    {
        self.height
    }

    pub fn get(&self) -> (r: Dimensions)
        ensures
            r.width == self.width,
            r.height == self.height,
    {
        Dimensions::new(self.width, self.height)
    }

}

impl MailboxInstruction for GetVirtualDimensions {
    open spec fn took_answer(&self, before: Self, data: Seq<u32>) -> bool {
        self.width == data[0] && self.height == data[0]
    }

    open spec fn took_response(&self, before: Self, response: MailboxResponse) -> bool {
        *self == before
    }

    open spec fn tag_encoding(&self) -> u32 {
        0x40004
    }

    open spec fn tag_words(&self) -> u32 {
        2
    }

    open spec fn request_data(&self) -> Seq<u32> {
        seq![]
    }

    fn get_encoding(&self) -> (r: u32) {
        0x40004
    }

    fn get_buffer_words(&self) -> (r: u32) {
        2
    }

    fn write_data_at_offset(&self) -> (r: Vec<u32>) {
        let v: Vec<u32> = Vec::new();
        assert(v@ =~= self.request_data());
        v
    }

    fn read_data_at_offset(&mut self, buffer: &[u32])
        ensures
            final(self).width == buffer@[0],
            final(self).height == buffer@[0],
    {
        self.width = buffer[0];
        self.height = buffer[0];
    }

    fn set_response(&mut self, response: MailboxResponse)
        ensures
            *final(self) == *old(self),
    {
    }

}

/// Sets the physical display size.
#[derive(Copy, Clone, Debug)]
pub struct SetPhysicalDimensions {
    pub dimensions: Dimensions,
}

impl SetPhysicalDimensions {
    pub fn new(dimensions: Dimensions) -> (r: Self)
        ensures
            r.dimensions == dimensions,
    {
        Self { dimensions }
    }

    pub fn get_width(&self) -> (r: u32)
        ensures
            r == self.dimensions.width,
    {
        self.dimensions.get_width()
    }

    pub fn get_height(&self) -> (r: u32)
        ensures
            r == self.dimensions.height,
    {
        self.dimensions.get_height()
    }

    pub fn get(&self) -> (r: Dimensions)
        ensures
            r == self.dimensions,
    {
        self.dimensions
    }

}

impl MailboxInstruction for SetPhysicalDimensions {
    open spec fn took_answer(&self, before: Self, data: Seq<u32>) -> bool {
        self.dimensions.width == data[0] && self.dimensions.height == data[1]
    }

    open spec fn took_response(&self, before: Self, response: MailboxResponse) -> bool {
        *self == before
    }

    open spec fn tag_encoding(&self) -> u32 {
        0x48003
    }

    open spec fn tag_words(&self) -> u32 {
        2
    }

    open spec fn request_data(&self) -> Seq<u32> {
        seq![self.dimensions.width, self.dimensions.height]
    }

    fn get_encoding(&self) -> (r: u32) {
        0x48003
    }

    fn get_buffer_words(&self) -> (r: u32) {
        2
    }

    fn write_data_at_offset(&self) -> (r: Vec<u32>) {
        let mut v: Vec<u32> = Vec::new();
        v.push(self.dimensions.get_width());
        v.push(self.dimensions.get_height());
        assert(v@ =~= self.request_data());
        v
    }

    fn read_data_at_offset(&mut self, buffer: &[u32])
        ensures
            final(self).dimensions.width == buffer@[0],
            final(self).dimensions.height == buffer@[1],
    {
        self.dimensions.set_width(buffer[0]);
        self.dimensions.set_height(buffer[1]);
    }

    fn set_response(&mut self, response: MailboxResponse)
        ensures
            *final(self) == *old(self),
    {
    }

}

/// Sets the virtual display size.
#[derive(Copy, Clone, Debug)]
pub struct SetVirtualDimensions {
    pub dimensions: Dimensions,
}

impl SetVirtualDimensions {
    pub fn new(dimensions: Dimensions) -> (r: Self)
        ensures
            r.dimensions == dimensions,
    {
        Self { dimensions }
    }

    pub fn get_width(&self) -> (r: u32)
        ensures
            r == self.dimensions.width,
    {
        self.dimensions.get_width()
    }

    pub fn get_height(&self) -> (r: u32)
        ensures
            r == self.dimensions.height,
    {
        self.dimensions.get_height()
    }

    pub fn get(&self) -> (r: Dimensions)
        ensures
            r == self.dimensions,
    {
        self.dimensions
    }

}

impl MailboxInstruction for SetVirtualDimensions {
    open spec fn took_answer(&self, before: Self, data: Seq<u32>) -> bool {
        self.dimensions.width == data[0] && self.dimensions.height == data[1]
    }

    open spec fn took_response(&self, before: Self, response: MailboxResponse) -> bool {
        *self == before
    }

    open spec fn tag_encoding(&self) -> u32 {
        0x48004
    }

    open spec fn tag_words(&self) -> u32 {
        2
    }

    open spec fn request_data(&self) -> Seq<u32> {
        seq![self.dimensions.width, self.dimensions.height]
    }

    fn get_encoding(&self) -> (r: u32) {
        0x48004
    }

    fn get_buffer_words(&self) -> (r: u32) {
        2
    }

    fn write_data_at_offset(&self) -> (r: Vec<u32>) {
        let mut v: Vec<u32> = Vec::new();
        v.push(self.dimensions.get_width());
        v.push(self.dimensions.get_height());
        assert(v@ =~= self.request_data());
        v
    }

    fn read_data_at_offset(&mut self, buffer: &[u32])
        ensures
            final(self).dimensions.width == buffer@[0],
            final(self).dimensions.height == buffer@[1],
    {
        self.dimensions.set_width(buffer[0]);
        self.dimensions.set_height(buffer[1]);
    }

    fn set_response(&mut self, response: MailboxResponse)
        ensures
            *final(self) == *old(self),
    {
    }

}

/// Asks for the bits per pixel.
#[derive(Copy, Clone, Debug)]
pub struct GetDepth {
    pub depth: u32,
}

impl GetDepth {
    pub fn new() -> (r: Self)
        ensures
            r.depth == 0,
    {
        Self { depth: 0 }
    }

    pub fn get_depth(&self) -> (r: u32)
        ensures
            r == self.depth,
    {
        self.depth
    }

}

impl MailboxInstruction for GetDepth {
    open spec fn took_answer(&self, before: Self, data: Seq<u32>) -> bool {
        self.depth == data[0]
    }

    open spec fn took_response(&self, before: Self, response: MailboxResponse) -> bool {
        *self == before
    }

    open spec fn tag_encoding(&self) -> u32 {
        0x40005
    }

    open spec fn tag_words(&self) -> u32 {
        1
    }

    open spec fn request_data(&self) -> Seq<u32> {
        seq![]
    }

    fn get_encoding(&self) -> (r: u32) {
        0x40005
    }

    fn get_buffer_words(&self) -> (r: u32) {
        1
    }

    fn write_data_at_offset(&self) -> (r: Vec<u32>) {
        let v: Vec<u32> = Vec::new();
        assert(v@ =~= self.request_data());
        v
    }

    fn read_data_at_offset(&mut self, buffer: &[u32])
        ensures
            final(self).depth == buffer@[0],
    {
        self.depth = buffer[0];
    }

    fn set_response(&mut self, response: MailboxResponse)
        ensures
            *final(self) == *old(self),
    {
    }

}

/// Sets the bits per pixel.
#[derive(Copy, Clone, Debug)]
pub struct SetDepth {
    pub depth: u32,
}

impl SetDepth {
    pub fn new(depth: u32) -> (r: Self)
        ensures
            r.depth == depth,
    {
        Self { depth }
    }

    pub fn get_depth(&self) -> (r: u32)
        ensures
            r == self.depth,
    {
        self.depth
    }

    pub fn get(&self) -> (r: u32)
        ensures
            r == self.depth,
    {
        self.depth
    }

}

impl MailboxInstruction for SetDepth {
    open spec fn took_answer(&self, before: Self, data: Seq<u32>) -> bool {
        self.depth == data[0]
    }

    open spec fn took_response(&self, before: Self, response: MailboxResponse) -> bool {
        *self == before
    }

    open spec fn tag_encoding(&self) -> u32 {
        0x48005
    }

    open spec fn tag_words(&self) -> u32 {
        1
    }

    open spec fn request_data(&self) -> Seq<u32> {
        seq![self.depth]
    }

    fn get_encoding(&self) -> (r: u32) {
        0x48005
    }

    fn get_buffer_words(&self) -> (r: u32) {
        1
    }

    fn write_data_at_offset(&self) -> (r: Vec<u32>) {
        let mut v: Vec<u32> = Vec::new();
        v.push(self.depth);
        assert(v@ =~= self.request_data());
        v
    }

    fn read_data_at_offset(&mut self, buffer: &[u32])
        ensures
            final(self).depth == buffer@[0],
    {
        self.depth = buffer[0];
    }

    fn set_response(&mut self, response: MailboxResponse)
        ensures
            *final(self) == *old(self),
    {
    }

}

/// Asks for the bytes per line.
#[derive(Copy, Clone, Debug)]
pub struct GetPitch {
    pub pitch: u32,
}

impl GetPitch {
    pub fn new() -> (r: Self)
        ensures
            r.pitch == 0,
    {
        Self { pitch: 0 }
    }

    pub fn get_pitch(&self) -> (r: u32)
        ensures
            r == self.pitch,
    {
        self.pitch
    }

    pub fn get(&self) -> (r: u32)
        ensures
            r == self.pitch,
    {
        self.pitch
    }

}

impl MailboxInstruction for GetPitch {
    open spec fn took_answer(&self, before: Self, data: Seq<u32>) -> bool {
        self.pitch == data[0]
    }

    open spec fn took_response(&self, before: Self, response: MailboxResponse) -> bool {
        *self == before
    }

    open spec fn tag_encoding(&self) -> u32 {
        0x40008
    }

    open spec fn tag_words(&self) -> u32 {
        1
    }

    open spec fn request_data(&self) -> Seq<u32> {
        seq![]
    }

    fn get_encoding(&self) -> (r: u32) {
        0x40008
    }

    fn get_buffer_words(&self) -> (r: u32) {
        1
    }

    fn write_data_at_offset(&self) -> (r: Vec<u32>) {
        let v: Vec<u32> = Vec::new();
        assert(v@ =~= self.request_data());
        v
    }

    fn read_data_at_offset(&mut self, buffer: &[u32])
        ensures
            final(self).pitch == buffer@[0],
    {
        self.pitch = buffer[0];
    }

    fn set_response(&mut self, response: MailboxResponse)
        ensures
            *final(self) == *old(self),
    {
    }

}

/// A request of one word whose answer is two words: the word sent back
/// and a value.
#[derive(Copy, Clone, Debug)]
pub struct SimpleRequest<const E: u32> {
    pub request: u32,
    pub response: Option<[u32; 2]>,
}

impl<const E: u32> SimpleRequest<E> {
    /// A request carrying `request`, not answered yet.
    pub fn with_request(request: u32) -> (r: Self)
        ensures
            r.request == request,
            r.response is None,
    {
        SimpleRequest { request, response: None }
    }

    /// The answer; the request must have been answered.
    pub fn get_response(&self) -> (r: [u32; 2])
        requires
            self.response is Some,
        ensures
            Some(r) == self.response,
    {
        self.response.unwrap()
    }
}

/// The message of the single request `request`: one tag of two words,
/// right after the header, with tag code `E` and the request's word.
pub fn simple_message<const E: u32>(request: &SimpleRequest<E>) -> (m: MessageBuilder)
    ensures
        m.wf(),
        m.word_length == 7,
        m.instructions@.len() == 1,
        m.instructions@[0].offset == 2,
        m.instructions@[0].words == 2,
        m.instructions@[0].encoding == E,
        m.instructions@[0].request@ == seq![request.request],
        forall|b: Seq<u32>| #[trigger] m.is_message(b) <==> b == query_message(E, request.request),
{
    let m = MessageBuilder::new().request(request);
    proof {
        assert forall|b: Seq<u32>| #[trigger] m.is_message(b) <==> b == query_message(E, request.request) by {
            let t = m.instructions@[0];
            if m.is_message(b) {
                assert(b[2] == tag_word(t, 0));
                assert(b[3] == tag_word(t, 1));
                assert(b[4] == tag_word(t, 2));
                assert(b[5] == tag_word(t, 3));
                assert(b[6] == tag_word(t, 4));
                assert(b =~= query_message(E, request.request));
            }
            if b == query_message(E, request.request) {
                assert forall|i: int, j: int|
                    0 <= i < m.instructions@.len() && 0 <= j < TAG_METADATA_WORDS + m.instructions@[i].words
                        implies b[m.instructions@[i].offset + j] == #[trigger] tag_word(m.instructions@[i], j) by {
                    assert(i == 0);
                }
            }
        }
    }
    m
}

/// The message that asks the firmware one question under tag `tag` about
/// `item`: its size in bytes (28), the request code, the tag, the size of
/// the tag's data (8 bytes), a zero response word, `item`, and a zero word
/// for the second word of the answer.
pub open spec fn query_message(tag: u32, item: u32) -> Seq<u32> {
    seq![28u32, MBOX_REQUEST, tag, 8u32, 0u32, item, 0u32]
}

/// The two words the answer `answer` to `simple_message(&request)` holds
/// for its tag (words 5 and 6), handed to the request as its answer.
pub fn simple_answer<const E: u32>(message: &MessageBuilder, request: SimpleRequest<E>, answer: &MailboxBuffer) -> (r: [u32; 2])
    requires
        message.wf(),
        message.instructions@.len() == 1,
        message.instructions@[0].offset == 2,
        message.instructions@[0].words == 2,
        answer@.len() == message.word_length,
    ensures
        r@ == answer@.subrange(5, 7),
{
    let mut request = request;
    message.deliver(answer, 0, &mut request);
    request.get_response()
}

impl<const E: u32> MailboxInstruction for SimpleRequest<E> {
    open spec fn took_answer(&self, before: Self, data: Seq<u32>) -> bool {
        &&& self.request == before.request
        &&& self.response matches Some(a) && a@ == data
    }

    open spec fn took_response(&self, before: Self, response: MailboxResponse) -> bool {
        *self == before
    }

    open spec fn tag_encoding(&self) -> u32 {
        E
    }

    open spec fn tag_words(&self) -> u32 {
        2
    }

    open spec fn request_data(&self) -> Seq<u32> {
        seq![self.request]
    }

    fn get_encoding(&self) -> (r: u32) {
        E
    }

    fn get_buffer_words(&self) -> (r: u32) {
        2
    }

    fn write_data_at_offset(&self) -> (r: Vec<u32>) {
        let mut v: Vec<u32> = Vec::new();
        v.push(self.request);
        assert(v@ =~= self.request_data());
        v
    }

    fn read_data_at_offset(&mut self, buffer: &[u32])
        ensures
            final(self).response matches Some(a) && a@ == buffer@,
            final(self).request == old(self).request,
    {
        let words = [buffer[0], buffer[1]];
        assert(words@ =~= buffer@);
        self.response = Some(words);
    }

    fn set_response(&mut self, response: MailboxResponse)
        ensures
            *final(self) == *old(self),
    {
    }
}

/// The property tags of the mailbox interface.
#[derive(Copy, Clone, Debug, PartialEq, Eq, Structural)]
pub enum Instruction {
    GetFirmwareRevision,
    GetBoardModel,
    GetBoardRevision,
    GetBoardMAC,
    GetBoardSerial,
    GetARMMemory,
    GetVCMemory,
    GetClocks,
    GetCommandLine,
    GetDMAChannels,
    GetPowerState,
    GetTiming,
    SetPowerState,
    GetClockState,
    SetClockState,
    GetClockRate,
    GetLEDStatus,
    TestLEDStatus,
    SetLEDStatus,
    GetMeasuredClock,
    SetClockRate,
    GetMaxClockRate,
    GetMinClockRate,
    GetTurbo,
    SetTurbo,
    GetVoltage,
    SetVoltage,
    GetMaxVoltage,
    GetMinVoltage,
    GetTemperature,
    GetMaxTemperature,
    AllocateMemory,
    LockMemory,
    UnlockMemory,
    ReleaseMemory,
    ExecuteCode,
    GetDispmanxResourceHandle,
    GetEDIDBlock,
    AllocateBuffer,
    ReleaseBuffer,
    BlankScreen,
    GetPhysicalDimensions,
    TestPhysicalDimensions,
    SetPhysicalDimensions,
    GetVirtualDimensions,
    TestVirtualDimensions,
    SetVirtualDimensions,
    GetDepth,
    TestDepth,
    SetDepth,
    GetPixelOrder,
    TestPixelOrder,
    SetPixelOrder,
    GetAlphaMode,
    TestAlphaMode,
    SetAlphaMode,
    GetPitch,
    GetVirtualOffset,
    TestVirtualOffset,
    SetVirtualOffset,
    GetOverscan,
    TestOverscan,
    SetOverScan,
    GetPalette,
    TestPalette,
    SetPalette,
    SetCursorInfo,
    SetCursorState,
}

/// The tag code of `instruction`.
pub open spec fn instruction_code(instruction: Instruction) -> u32 {
    match instruction {
        Instruction::GetFirmwareRevision => 0x1,
        Instruction::GetBoardModel => 0x10001,
        Instruction::GetBoardRevision => 0x10002,
        Instruction::GetBoardMAC => 0x10003,
        Instruction::GetBoardSerial => 0x10004,
        Instruction::GetARMMemory => 0x10005,
        Instruction::GetVCMemory => 0x10006,
        Instruction::GetClocks => 0x10007,
        Instruction::GetCommandLine => 0x50001,
        Instruction::GetDMAChannels => 0x60001,
        Instruction::GetPowerState => 0x20001,
        Instruction::GetTiming => 0x20002,
        Instruction::SetPowerState => 0x28001,
        Instruction::GetClockState => 0x30001,
        Instruction::SetClockState => 0x38001,
        Instruction::GetClockRate => 0x30002,
        Instruction::GetLEDStatus => 0x30041,
        Instruction::TestLEDStatus => 0x34041,
        Instruction::SetLEDStatus => 0x38041,
        Instruction::GetMeasuredClock => 0x30047,
        Instruction::SetClockRate => 0x38002,
        Instruction::GetMaxClockRate => 0x30004,
        Instruction::GetMinClockRate => 0x30007,
        Instruction::GetTurbo => 0x30009,
        Instruction::SetTurbo => 0x38009,
        Instruction::GetVoltage => 0x30003,
        Instruction::SetVoltage => 0x38003,
        Instruction::GetMaxVoltage => 0x30005,
        Instruction::GetMinVoltage => 0x30008,
        Instruction::GetTemperature => 0x30006,
        Instruction::GetMaxTemperature => 0x3000a,
        Instruction::AllocateMemory => 0x3000c,
        Instruction::LockMemory => 0x3000d,
        Instruction::UnlockMemory => 0x3000e,
        Instruction::ReleaseMemory => 0x3000f,
        Instruction::ExecuteCode => 0x30010,
        Instruction::GetDispmanxResourceHandle => 0x30014,
        Instruction::GetEDIDBlock => 0x30020,
        Instruction::AllocateBuffer => 0x40001,
        Instruction::ReleaseBuffer => 0x48001,
        Instruction::BlankScreen => 0x40002,
        Instruction::GetPhysicalDimensions => 0x40003,
        Instruction::TestPhysicalDimensions => 0x44003,
        Instruction::SetPhysicalDimensions => 0x48003,
        Instruction::GetVirtualDimensions => 0x40004,
        Instruction::TestVirtualDimensions => 0x44004,
        Instruction::SetVirtualDimensions => 0x48004,
        Instruction::GetDepth => 0x40005,
        Instruction::TestDepth => 0x44005,
        Instruction::SetDepth => 0x48005,
        Instruction::GetPixelOrder => 0x40006,
        Instruction::TestPixelOrder => 0x44006,
        Instruction::SetPixelOrder => 0x48006,
        Instruction::GetAlphaMode => 0x40007,
        Instruction::TestAlphaMode => 0x44007,
        Instruction::SetAlphaMode => 0x48007,
        Instruction::GetPitch => 0x40008,
        Instruction::GetVirtualOffset => 0x40009,
        Instruction::TestVirtualOffset => 0x44009,
        Instruction::SetVirtualOffset => 0x48009,
        Instruction::GetOverscan => 0x4000a,
        Instruction::TestOverscan => 0x4400a,
        Instruction::SetOverScan => 0x4800a,
        Instruction::GetPalette => 0x4000b,
        Instruction::TestPalette => 0x4400b,
        Instruction::SetPalette => 0x4800b,
        Instruction::SetCursorInfo => 0x8010,
        Instruction::SetCursorState => 0x8011,
    }
}

impl Instruction {
    /// The tag code.
    pub fn as_u32(self) -> (r: u32)
        ensures
            r == instruction_code(self),
    {
        match self {
            Instruction::GetFirmwareRevision => 0x1,
            Instruction::GetBoardModel => 0x10001,
            Instruction::GetBoardRevision => 0x10002,
            Instruction::GetBoardMAC => 0x10003,
            Instruction::GetBoardSerial => 0x10004,
            Instruction::GetARMMemory => 0x10005,
            Instruction::GetVCMemory => 0x10006,
            Instruction::GetClocks => 0x10007,
            Instruction::GetCommandLine => 0x50001,
            Instruction::GetDMAChannels => 0x60001,
            Instruction::GetPowerState => 0x20001,
            Instruction::GetTiming => 0x20002,
            Instruction::SetPowerState => 0x28001,
            Instruction::GetClockState => 0x30001,
            Instruction::SetClockState => 0x38001,
            Instruction::GetClockRate => 0x30002,
            Instruction::GetLEDStatus => 0x30041,
            Instruction::TestLEDStatus => 0x34041,
            Instruction::SetLEDStatus => 0x38041,
            Instruction::GetMeasuredClock => 0x30047,
            Instruction::SetClockRate => 0x38002,
            Instruction::GetMaxClockRate => 0x30004,
            Instruction::GetMinClockRate => 0x30007,
            Instruction::GetTurbo => 0x30009,
            Instruction::SetTurbo => 0x38009,
            Instruction::GetVoltage => 0x30003,
            Instruction::SetVoltage => 0x38003,
            Instruction::GetMaxVoltage => 0x30005,
            Instruction::GetMinVoltage => 0x30008,
            Instruction::GetTemperature => 0x30006,
            Instruction::GetMaxTemperature => 0x3000a,
            Instruction::AllocateMemory => 0x3000c,
            Instruction::LockMemory => 0x3000d,
            Instruction::UnlockMemory => 0x3000e,
            Instruction::ReleaseMemory => 0x3000f,
            Instruction::ExecuteCode => 0x30010,
            Instruction::GetDispmanxResourceHandle => 0x30014,
            Instruction::GetEDIDBlock => 0x30020,
            Instruction::AllocateBuffer => 0x40001,
            Instruction::ReleaseBuffer => 0x48001,
            Instruction::BlankScreen => 0x40002,
            Instruction::GetPhysicalDimensions => 0x40003,
            Instruction::TestPhysicalDimensions => 0x44003,
            Instruction::SetPhysicalDimensions => 0x48003,
            Instruction::GetVirtualDimensions => 0x40004,
            Instruction::TestVirtualDimensions => 0x44004,
            Instruction::SetVirtualDimensions => 0x48004,
            Instruction::GetDepth => 0x40005,
            Instruction::TestDepth => 0x44005,
            Instruction::SetDepth => 0x48005,
            Instruction::GetPixelOrder => 0x40006,
            Instruction::TestPixelOrder => 0x44006,
            Instruction::SetPixelOrder => 0x48006,
            Instruction::GetAlphaMode => 0x40007,
            Instruction::TestAlphaMode => 0x44007,
            Instruction::SetAlphaMode => 0x48007,
            Instruction::GetPitch => 0x40008,
            Instruction::GetVirtualOffset => 0x40009,
            Instruction::TestVirtualOffset => 0x44009,
            Instruction::SetVirtualOffset => 0x48009,
            Instruction::GetOverscan => 0x4000a,
            Instruction::TestOverscan => 0x4400a,
            Instruction::SetOverScan => 0x4800a,
            Instruction::GetPalette => 0x4000b,
            Instruction::TestPalette => 0x4400b,
            Instruction::SetPalette => 0x4800b,
            Instruction::SetCursorInfo => 0x8010,
            Instruction::SetCursorState => 0x8011,
        }
    }
}

/// The tag code of each property request, as the firmware's mailbox
/// property interface numbers them.
pub proof fn lemma_instruction_codes()
    ensures
        instruction_code(Instruction::GetFirmwareRevision) == 0x1,
        instruction_code(Instruction::GetBoardModel) == 0x10001,
        instruction_code(Instruction::GetBoardRevision) == 0x10002,
        instruction_code(Instruction::GetBoardMAC) == 0x10003,
        instruction_code(Instruction::GetBoardSerial) == 0x10004,
        instruction_code(Instruction::GetARMMemory) == 0x10005,
        instruction_code(Instruction::GetVCMemory) == 0x10006,
        instruction_code(Instruction::GetClocks) == 0x10007,
        instruction_code(Instruction::GetCommandLine) == 0x50001,
        instruction_code(Instruction::GetDMAChannels) == 0x60001,
        instruction_code(Instruction::GetPowerState) == 0x20001,
        instruction_code(Instruction::GetTiming) == 0x20002,
        instruction_code(Instruction::SetPowerState) == 0x28001,
        instruction_code(Instruction::GetClockState) == 0x30001,
        instruction_code(Instruction::SetClockState) == 0x38001,
        instruction_code(Instruction::GetClockRate) == 0x30002,
        instruction_code(Instruction::GetLEDStatus) == 0x30041,
        instruction_code(Instruction::TestLEDStatus) == 0x34041,
        instruction_code(Instruction::SetLEDStatus) == 0x38041,
        instruction_code(Instruction::GetMeasuredClock) == 0x30047,
        instruction_code(Instruction::SetClockRate) == 0x38002,
        instruction_code(Instruction::GetMaxClockRate) == 0x30004,
        instruction_code(Instruction::GetMinClockRate) == 0x30007,
        instruction_code(Instruction::GetTurbo) == 0x30009,
        instruction_code(Instruction::SetTurbo) == 0x38009,
        instruction_code(Instruction::GetVoltage) == 0x30003,
        instruction_code(Instruction::SetVoltage) == 0x38003,
        instruction_code(Instruction::GetMaxVoltage) == 0x30005,
        instruction_code(Instruction::GetMinVoltage) == 0x30008,
        instruction_code(Instruction::GetTemperature) == 0x30006,
        instruction_code(Instruction::GetMaxTemperature) == 0x3000a,
        instruction_code(Instruction::AllocateMemory) == 0x3000c,
        instruction_code(Instruction::LockMemory) == 0x3000d,
        instruction_code(Instruction::UnlockMemory) == 0x3000e,
        instruction_code(Instruction::ReleaseMemory) == 0x3000f,
        instruction_code(Instruction::ExecuteCode) == 0x30010,
        instruction_code(Instruction::GetDispmanxResourceHandle) == 0x30014,
        instruction_code(Instruction::GetEDIDBlock) == 0x30020,
        instruction_code(Instruction::AllocateBuffer) == 0x40001,
        instruction_code(Instruction::ReleaseBuffer) == 0x48001,
        instruction_code(Instruction::BlankScreen) == 0x40002,
        instruction_code(Instruction::GetPhysicalDimensions) == 0x40003,
        instruction_code(Instruction::TestPhysicalDimensions) == 0x44003,
        instruction_code(Instruction::SetPhysicalDimensions) == 0x48003,
        instruction_code(Instruction::GetVirtualDimensions) == 0x40004,
        instruction_code(Instruction::TestVirtualDimensions) == 0x44004,
        instruction_code(Instruction::SetVirtualDimensions) == 0x48004,
        instruction_code(Instruction::GetDepth) == 0x40005,
        instruction_code(Instruction::TestDepth) == 0x44005,
        instruction_code(Instruction::SetDepth) == 0x48005,
        instruction_code(Instruction::GetPixelOrder) == 0x40006,
        instruction_code(Instruction::TestPixelOrder) == 0x44006,
        instruction_code(Instruction::SetPixelOrder) == 0x48006,
        instruction_code(Instruction::GetAlphaMode) == 0x40007,
        instruction_code(Instruction::TestAlphaMode) == 0x44007,
        instruction_code(Instruction::SetAlphaMode) == 0x48007,
        instruction_code(Instruction::GetPitch) == 0x40008,
        instruction_code(Instruction::GetVirtualOffset) == 0x40009,
        instruction_code(Instruction::TestVirtualOffset) == 0x44009,
        instruction_code(Instruction::SetVirtualOffset) == 0x48009,
        instruction_code(Instruction::GetOverscan) == 0x4000a,
        instruction_code(Instruction::TestOverscan) == 0x4400a,
        instruction_code(Instruction::SetOverScan) == 0x4800a,
        instruction_code(Instruction::GetPalette) == 0x4000b,
        instruction_code(Instruction::TestPalette) == 0x4400b,
        instruction_code(Instruction::SetPalette) == 0x4800b,
        instruction_code(Instruction::SetCursorInfo) == 0x8010,
        instruction_code(Instruction::SetCursorState) == 0x8011,
{
}

} // verus!
