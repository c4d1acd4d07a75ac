//! Buffer objects that hold one fixed-layout block of shader parameters.

use crate::gl;
use crate::gl::{GlCall, Handle, HandleKind};
use crate::protocol::{
    deletes_nothing, no_calls, plain, plain_script, release_script, single, Command, CommandView,
    Event, EventView, Progress, ProgressView, Request, RequestView,
};
use std::marker::PhantomData;
use crate::text::{append_decimal, decimal};
use vstd::prelude::*;
use vstd::string::*;

verus! {

/// The order in which the host keeps the bytes of a word in memory.
#[derive(Clone, Copy, Debug, PartialEq, Eq)]
pub enum ByteOrder {
    LittleEndian,
    BigEndian,
}

/// The four bytes of a word as they lie in memory.
pub open spec fn word_bytes(value: u32, order: ByteOrder) -> Seq<u8> {
    let b0 = (value % 256) as u8;
    let b1 = (value / 256 % 256) as u8;
    let b2 = (value / 256 / 256 % 256) as u8;
    let b3 = (value / 256 / 256 / 256) as u8;
    match order {
        ByteOrder::LittleEndian => seq![b0, b1, b2, b3],
        ByteOrder::BigEndian => seq![b3, b2, b1, b0],
    }
}

/// The word that four bytes in memory stand for.
pub open spec fn word_of_bytes(bytes: Seq<u8>, order: ByteOrder) -> int {
    match order {
        ByteOrder::LittleEndian => bytes[0] + 256 * bytes[1] + 65536 * bytes[2] + 16777216
            * bytes[3],
        ByteOrder::BigEndian => bytes[3] + 256 * bytes[2] + 65536 * bytes[1] + 16777216 * bytes[0],
    }
}

/// Reading back the bytes of a word gives the word.
pub proof fn lemma_word_bytes_round_trip(value: u32, order: ByteOrder)
    ensures
        word_bytes(value, order).len() == 4,
        word_of_bytes(word_bytes(value, order), order) == value,
{
    let q1 = value / 256;
    let q2 = q1 / 256;
    let q3 = q2 / 256;
    assert(value == 256 * q1 + value % 256);
    assert(q1 == 256 * q2 + q1 % 256);
    assert(q2 == 256 * q3 + q2 % 256);
    assert(q3 < 256);
}

/// Appends the four bytes of a word to a byte string.
pub fn push_word(bytes: &mut Vec<u8>, value: u32, order: ByteOrder)
    ensures
        final(bytes)@ == old(bytes)@ + word_bytes(value, order),
{
    let b0: u8 = (value % 256) as u8;
    let b1: u8 = (value / 256 % 256) as u8;
    let b2: u8 = (value / 256 / 256 % 256) as u8;
    let b3: u8 = (value / 256 / 256 / 256) as u8;
    match order {
        ByteOrder::LittleEndian => {
            bytes.push(b0);
            bytes.push(b1);
            bytes.push(b2);
            bytes.push(b3);
        },
        ByteOrder::BigEndian => {
            bytes.push(b3);
            bytes.push(b2);
            bytes.push(b1);
            bytes.push(b0);
        },
    }
    assert(bytes@ =~= old(bytes)@ + word_bytes(value, order));
}

/// A record with a fixed layout that a buffer object can hold.
pub trait UniformBlock {
    /// The number of bytes that the record takes.
    spec fn spec_size() -> nat;

    /// The record as it lies in memory on a host of the given byte order.
    spec fn image(&self, order: ByteOrder) -> Seq<u8>;

    /// The number of bytes that the record takes.
    fn size() -> (size: isize)
        ensures
            size == Self::spec_size(),
    ;

    /// The record as it lies in memory on a host of the given byte order.
    fn encode(&self, order: ByteOrder) -> (bytes: Vec<u8>)
        ensures
            bytes@ == self.image(order),
            bytes@.len() == Self::spec_size(),
    ;
}

/// A buffer object with immutable storage for one record of type `T`.
#[derive(Debug, PartialEq, Eq)]
pub struct VertexBufferObjects<T> {
    pub handle: u32,
    pub memory_size: isize,
    /// Whether the native object has been deleted.
    pub released: bool,
    pub buffer_type: PhantomData<T>,
}

/// The mathematical content of a [`VertexBufferObjects`].
pub struct VertexBufferView {
    pub handle: u32,
    pub memory_size: isize,
    pub released: bool,
}

impl<T> DeepView for VertexBufferObjects<T> {
    type V = VertexBufferView;

    open spec fn deep_view(&self) -> VertexBufferView {
        VertexBufferView {
            handle: self.handle,
            memory_size: self.memory_size,
            released: self.released,
        }
    }
}

impl VertexBufferView {
    /// The buffer in words.
    pub open spec fn description(self) -> Seq<char> {
        "vertex buffer object #"@ + decimal(self.handle as nat)
    }

    /// The object that this handle stands for, while it is not released.
    pub open spec fn owned(self) -> Seq<Handle> {
        if self.released {
            Seq::empty()
        } else {
            seq![Handle { kind: HandleKind::Buffer, id: self.handle }]
        }
    }
}

/// The machine that creates one buffer object for a record of type `T`: it
/// has asked for the object and waits for its name.
#[derive(Debug, PartialEq, Eq)]
pub struct BufferBuild<T> {
    pub memory_size: isize,
    pub buffer_type: PhantomData<T>,
}

/// The mathematical content of a [`BufferBuild`].
pub struct BufferBuildView {
    pub memory_size: isize,
}

impl<T> DeepView for BufferBuild<T> {
    type V = BufferBuildView;

    open spec fn deep_view(&self) -> BufferBuildView {
        BufferBuildView { memory_size: self.memory_size }
    }
}

impl BufferBuildView {
    /// The machine holds nothing while it waits.
    pub open spec fn owned(self) -> Seq<Handle> {
        Seq::empty()
    }

    /// The event hands over the object that it names.
    pub open spec fn gains(self, event: EventView) -> Seq<Handle> {
        seq![Handle { kind: HandleKind::Buffer, id: event.id() }]
    }

    /// The request that goes with the first state.
    pub open spec fn first_request() -> RequestView {
        RequestView::Gl(plain_script(seq![GlCall::CreateBuffers]))
    }

    /// The first state, and the request that goes with it.
    pub open spec fn start(memory_size: isize) -> ProgressView<BufferBuildView, VertexBufferView> {
        ProgressView::Pending(BufferBuildView { memory_size }, Self::first_request())
    }

    /// What the machine does with an event: the object is ready under the
    /// name that the driver gave, once it has got storage of the record's
    /// size that can be written after creation.
    pub open spec fn step(self, event: EventView) -> ProgressView<
        BufferBuildView,
        VertexBufferView,
    > {
        ProgressView::Ready(
            VertexBufferView { handle: event.id(), memory_size: self.memory_size, released: false },
            plain_script(
                seq![
                    GlCall::NamedBufferStorage {
                        buffer: event.id(),
                        size: self.memory_size,
                        flags: gl::DYNAMIC_STORAGE_BIT,
                    },
                ],
            ),
        )
    }

}

impl<T: UniformBlock> BufferBuild<T> {
    /// The machine in its first state, and the request that goes with it.
    pub fn begin() -> (start: (BufferBuild<T>, Request))
        ensures
            start.0.deep_view() == (BufferBuildView { memory_size: T::spec_size() as isize }),
            start.1.deep_view() == BufferBuildView::first_request(),
    {
        (
            BufferBuild { memory_size: T::size(), buffer_type: PhantomData },
            Request::Gl(single(GlCall::CreateBuffers)),
        )
    }

    /// Takes what the host handed back and decides how to go on.
    pub fn advance(self, event: Event) -> (progress: Progress<BufferBuild<T>, VertexBufferObjects<T>>)
        ensures
            progress.deep_view() == self.deep_view().step(event.deep_view()),
    {
        let buffer = event.id();
        Progress::Ready(
            VertexBufferObjects {
                handle: buffer,
                memory_size: self.memory_size,
                released: false,
                buffer_type: PhantomData,
            },
            single(
                GlCall::NamedBufferStorage {
                    buffer,
                    size: self.memory_size,
                    flags: gl::DYNAMIC_STORAGE_BIT,
                },
            ),
        )
    }
}

impl<T: UniformBlock> VertexBufferObjects<T> {
    /// Starts to create a buffer object for one record of type `T`.
    pub fn new() -> (progress: Progress<BufferBuild<T>, VertexBufferObjects<T>>)
        ensures
            progress.deep_view() == BufferBuildView::start(T::spec_size() as isize),
    {
        let (machine, request) = BufferBuild::begin();
        Progress::Pending(machine, request)
    }

    /// The call that binds the whole buffer to the first uniform binding
    /// point.
    pub fn bind(&self) -> (command: Command)
        ensures
            command.deep_view() == plain(
                GlCall::BindBufferRange {
                    target: gl::UNIFORM_BUFFER,
                    index: 0,
                    buffer: self.handle,
                    offset: 0,
                    size: self.memory_size,
                },
            ),
    {
        Command::plain(
            GlCall::BindBufferRange {
                target: gl::UNIFORM_BUFFER,
                index: 0,
                buffer: self.handle,
                offset: 0,
                size: self.memory_size,
            },
        )
    }

    /// The call that overwrites the buffer with the record, laid out for a
    /// host of the given byte order.
    pub fn sub_buffer(&self, data: T, order: ByteOrder) -> (command: Command)
        ensures
            command.deep_view() == (CommandView {
                call: GlCall::NamedBufferSubData {
                    buffer: self.handle,
                    offset: 0,
                    size: self.memory_size,
                },
                data: data.image(order),
            }),
    {
        Command::with_data(
            GlCall::NamedBufferSubData { buffer: self.handle, offset: 0, size: self.memory_size },
            data.encode(order),
        )
    }

    /// The buffer in words.
    pub fn to_string(&self) -> (text: String)
        ensures
            text@ == self.deep_view().description(),
    {
        let mut text = String::from_str("vertex buffer object #");
        append_decimal(&mut text, self.handle);
        text
    }

    /// Deletes the native object, once: the first call returns the delete
    /// call, every later one returns nothing.
    pub fn dispose(&mut self) -> (calls: Vec<Command>)
        ensures
            calls.deep_view() == release_script(old(self).deep_view().owned()),
            old(self).released ==> calls@.len() == 0,
            final(self).released,
            final(self).handle == old(self).handle,
            final(self).memory_size == old(self).memory_size,
    {
        if self.released {
            let calls = no_calls();
            assert(calls.deep_view() =~= release_script(old(self).deep_view().owned()));
            calls
        } else {
            self.released = true;
            let calls = single(GlCall::DeleteBuffers { buffer: self.handle });
            assert(calls.deep_view() =~= release_script(old(self).deep_view().owned()));
            calls
        }
    }
}

/// The buffer that the build hands out is the one that the event named, and
/// the build deletes nothing.
pub proof fn lemma_buffer_step_keeps_ledger(machine: BufferBuildView, event: EventView)
    ensures
        machine.step(event) matches ProgressView::Ready(buffer, calls) && buffer.owned()
            == machine.owned() + machine.gains(event) && deletes_nothing(calls),
{
    let buffer = VertexBufferView {
        handle: event.id(),
        memory_size: machine.memory_size,
        released: false,
    };
    assert(buffer.owned() =~= machine.owned() + machine.gains(event));
}

} // verus!
