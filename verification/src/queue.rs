//! What is handed to the device's queue: writes into buffers, and
//! submissions of command buffers.

use crate::camera::Buffer;
use crate::command::{total_draw_count, CommandBuffer, RenderPassView};
use vstd::prelude::*;

verus! {

/// A write of bytes into a buffer on the device.
#[derive(Debug, PartialEq, Eq)]
pub struct BufferWrite {
    /// The buffer written to.
    pub buffer: Buffer,
    /// Where in the buffer the first byte goes.
    pub offset: u64,
    /// The bytes written.
    pub data: Vec<u8>,
}

/// A series of finished command buffers handed to the queue in one call.
#[derive(Debug, PartialEq, Eq)]
pub struct Submission {
    /// The command buffers, in the order of execution.
    pub command_buffers: Vec<CommandBuffer>,
}

/// What a buffer write is, as a mathematical value.
pub ghost struct BufferWriteView {
    /// The buffer written to.
    pub buffer: Buffer,
    /// Where in the buffer the first byte goes.
    pub offset: nat,
    /// The bytes written.
    pub data: Seq<u8>,
}

impl BufferWriteView {
    /// Whether the write stays inside a buffer of `len` bytes.
    pub open spec fn fits(self, len: nat) -> bool {
        self.offset + self.data.len() <= len
    }

    /// The contents of the buffer after the write, `contents` being its
    /// contents before: the bytes from `offset` on are replaced by `data`,
    /// every other byte stays.
    pub open spec fn applied(self, contents: Seq<u8>) -> Seq<u8>
        recommends
            self.fits(contents.len()),
    {
        Seq::new(
            contents.len(),
            |i: int|
                if self.offset <= i < self.offset + self.data.len() {
                    self.data[i - self.offset]
                } else {
                    contents[i]
                },
        )
    }

    /// Whether, on every buffer that can hold `bytes`, the write puts
    /// exactly `bytes` into the first places and leaves every byte behind
    /// them, and the length of the buffer, as they were.
    pub open spec fn overwrites_start_with(self, bytes: Seq<u8>) -> bool {
        forall|contents: Seq<u8>|
            bytes.len() <= contents.len() ==> {
                let after = #[trigger] self.applied(contents);
                &&& after.len() == contents.len()
                &&& after.take(bytes.len() as int) == bytes
                &&& after.skip(bytes.len() as int) == contents.skip(bytes.len() as int)
            }
    }

    /// A write that fits keeps the length of the buffer, and splices its
    /// bytes in: what lies before `offset` stays, then come the bytes
    /// written, then what lies behind them stays.
    pub proof fn lemma_applied_splices(self, contents: Seq<u8>)
        requires
            self.fits(contents.len()),
        ensures
            self.applied(contents).len() == contents.len(),
            self.applied(contents) == contents.take(self.offset as int) + self.data
                + contents.skip((self.offset + self.data.len()) as int),
    {
    }

    /// A write of `n` bytes at the start of a buffer of at least `n` bytes
    /// puts exactly those bytes into the first `n` places and leaves every
    /// byte behind them as it was.
    pub proof fn lemma_write_at_start(buffer: Buffer, bytes: Seq<u8>, contents: Seq<u8>)
        requires
            bytes.len() <= contents.len(),
        ensures
            ({
                let write = BufferWriteView { buffer, offset: 0, data: bytes };
                let after = write.applied(contents);
                let n = bytes.len() as int;
                &&& after.len() == contents.len()
                &&& after.take(n) == bytes
                &&& after.skip(n) == contents.skip(n)
                &&& forall|i: int| n <= i < contents.len() ==> after[i] == contents[i]
            }),
    {
    }
}

impl View for BufferWrite {
    type V = BufferWriteView;

    open spec fn view(&self) -> BufferWriteView {
        BufferWriteView { buffer: self.buffer, offset: self.offset as nat, data: self.data@ }
    }
}

impl View for Submission {
    type V = Seq<Seq<RenderPassView>>;

    open spec fn view(&self) -> Seq<Seq<RenderPassView>> {
        self.command_buffers@.map_values(|buffer: CommandBuffer| buffer@)
    }
}

/// Number of render passes in all of `buffers`.
pub open spec fn pass_count(buffers: Seq<Seq<RenderPassView>>) -> nat
    decreases buffers.len(),
{
    if buffers.len() == 0 {
        0
    } else {
        pass_count(buffers.drop_last()) + buffers.last().len()
    }
}

/// Number of draw commands in all passes of all of `buffers`.
pub open spec fn submitted_draw_count(buffers: Seq<Seq<RenderPassView>>) -> nat
    decreases buffers.len(),
{
    if buffers.len() == 0 {
        0
    } else {
        submitted_draw_count(buffers.drop_last()) + total_draw_count(buffers.last())
    }
}

/// Submitting one more command buffer adds its passes and their draws.
pub proof fn lemma_counts_push(buffers: Seq<Seq<RenderPassView>>, buffer: Seq<RenderPassView>)
    ensures
        pass_count(buffers.push(buffer)) == pass_count(buffers) + buffer.len(),
        submitted_draw_count(buffers.push(buffer)) == submitted_draw_count(buffers)
            + total_draw_count(buffer),
{
    assert(buffers.push(buffer).drop_last() == buffers);
}

impl BufferWrite {
    /// The write of `bytes` to the start of `buffer`.
    pub fn at_start(buffer: &Buffer, bytes: &[u8]) -> (write: BufferWrite)
        ensures
            write@ == (BufferWriteView { buffer: *buffer, offset: 0, data: bytes@ }),
            write@.overwrites_start_with(bytes@),
    {
        proof {
            assert forall|contents: Seq<u8>| bytes@.len() <= contents.len() implies ({
                let after = #[trigger] (BufferWriteView {
                    buffer: *buffer,
                    offset: 0,
                    data: bytes@,
                }).applied(contents);
                &&& after.len() == contents.len()
                &&& after.take(bytes@.len() as int) == bytes@
                &&& after.skip(bytes@.len() as int) == contents.skip(bytes@.len() as int)
            }) by {
                BufferWriteView::lemma_write_at_start(*buffer, bytes@, contents);
            }
        }
        let mut data: Vec<u8> = Vec::new();
        let mut i: usize = 0;
        while i < bytes.len()
            invariant
                i <= bytes.len(),
                data@ == bytes@.take(i as int),
            decreases bytes.len() - i,
        {
            data.push(bytes[i]);
            i = i + 1;
        }
        assert(bytes@.take(i as int) == bytes@);
        BufferWrite { buffer: *buffer, offset: 0, data }
    }

    /// Carries the write out on `contents`, the bytes that the buffer holds.
    pub fn apply(&self, contents: &mut Vec<u8>)
        requires
            self@.fits(old(contents)@.len()),
        ensures
            final(contents)@ == self@.applied(old(contents)@),
    {
        assert(self.offset <= old(contents).len() <= usize::MAX);
        let start: usize = self.offset as usize;
        let mut i: usize = 0;
        while i < self.data.len()
            invariant
                i <= self.data.len(),
                start == self.offset,
                start + self.data.len() <= contents.len(),
                contents.len() == old(contents).len(),
                forall|k: int|
                    0 <= k < contents.len() ==> contents[k] == if start <= k < start + i {
                        self.data[k - start]
                    } else {
                        old(contents)[k]
                    },
            decreases self.data.len() - i,
        {
            contents.set(start + i, self.data[i]);
            i = i + 1;
        }
    }
}

impl Submission {
    /// The submission of one command buffer.
    pub fn once(buffer: CommandBuffer) -> (submission: Submission)
        ensures
            submission@ == seq![buffer@],
    {
        let mut command_buffers: Vec<CommandBuffer> = Vec::new();
        command_buffers.push(buffer);
        Submission { command_buffers }
    }
}

} // verus!
