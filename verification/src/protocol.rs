//! What passes between the renderer's state machines and their host.
//!
//! A machine hands the host a [`Request`]. The host performs it and hands back
//! an [`Event`]: for a batch of native calls, what the last call of the batch
//! returned. An event of a kind that the machine did not ask for reads as the
//! failure value of the call: no object, status zero, an empty log, no file.

use crate::error::{RenderError, RenderErrorView};
use crate::gl::{GlCall, Handle};
use vstd::prelude::*;

verus! {

/// A native call, with the block of memory that goes with it (empty for the
/// calls that take none).
#[derive(Clone, Debug, PartialEq, Eq)]
pub struct Command {
    pub call: GlCall,
    pub data: Vec<u8>,
}

/// The mathematical content of a [`Command`].
pub struct CommandView {
    pub call: GlCall,
    pub data: Seq<u8>,
}

impl DeepView for Command {
    type V = CommandView;

    open spec fn deep_view(&self) -> CommandView {
        CommandView { call: self.call, data: self.data@ }
    }
}

/// A call that carries no memory block.
pub open spec fn plain(call: GlCall) -> CommandView {
    CommandView { call, data: Seq::empty() }
}

/// A batch of calls that carry no memory block.
pub open spec fn plain_script(calls: Seq<GlCall>) -> Seq<CommandView> {
    Seq::new(calls.len(), |i: int| plain(calls[i]))
}

impl Command {
    pub fn plain(call: GlCall) -> (command: Command)
        ensures
            command.deep_view() == plain(call),
    {
        Command { call, data: Vec::new() }
    }

    pub fn with_data(call: GlCall, data: Vec<u8>) -> (command: Command)
        ensures
            command.deep_view() == (CommandView { call, data: data@ }),
    {
        Command { call, data }
    }
}

/// What the host hands back after it has performed a request.
#[derive(Clone, Debug, PartialEq, Eq)]
pub enum Event {
    /// The last call of the batch returns nothing.
    Done,
    /// The name of a newly created object; zero where the driver made none.
    Id(u32),
    /// An integer parameter of an object.
    Value(i32),
    /// An information log, as the driver wrote it.
    Log(String),
    /// A file read as UTF-8 text; `None` where it could not be read.
    FileText(Option<String>),
    /// A file read whole; `None` where it could not be read.
    FileBytes(Option<Vec<u8>>),
}

/// The mathematical content of an [`Event`].
pub enum EventView {
    Done,
    Id(u32),
    Value(i32),
    Log(Seq<char>),
    FileText(Option<Seq<char>>),
    FileBytes(Option<Seq<u8>>),
}

impl EventView {
    /// The object name that the event carries, zero if it carries none.
    pub open spec fn id(self) -> u32 {
        match self {
            EventView::Id(n) => n,
            _ => 0,
        }
    }

    /// The integer that the event carries, zero if it carries none.
    pub open spec fn value(self) -> i32 {
        match self {
            EventView::Value(v) => v,
            _ => 0,
        }
    }

    /// The log that the event carries, empty if it carries none.
    pub open spec fn log(self) -> Seq<char> {
        match self {
            EventView::Log(s) => s,
            _ => Seq::empty(),
        }
    }

    /// The text file that the event carries.
    pub open spec fn text(self) -> Option<Seq<char>> {
        match self {
            EventView::FileText(t) => t,
            _ => None,
        }
    }

    /// The file contents that the event carries.
    pub open spec fn bytes(self) -> Option<Seq<u8>> {
        match self {
            EventView::FileBytes(b) => b,
            _ => None,
        }
    }
}

impl DeepView for Event {
    type V = EventView;

    open spec fn deep_view(&self) -> EventView {
        match *self {
            Event::Done => EventView::Done,
            Event::Id(n) => EventView::Id(n),
            Event::Value(v) => EventView::Value(v),
            Event::Log(s) => EventView::Log(s@),
            Event::FileText(t) => EventView::FileText(
                match t {
                    Some(s) => Some(s@),
                    None => None,
                },
            ),
            Event::FileBytes(b) => EventView::FileBytes(
                match b {
                    Some(v) => Some(v@),
                    None => None,
                },
            ),
        }
    }
}

impl Event {
    pub fn id(&self) -> (n: u32)
        ensures
            n == self.deep_view().id(),
    {
        match self {
            Event::Id(n) => *n,
            _ => 0,
        }
    }

    pub fn value(&self) -> (v: i32)
        ensures
            v == self.deep_view().value(),
    {
        match self {
            Event::Value(v) => *v,
            _ => 0,
        }
    }

    pub fn into_log(self) -> (log: String)
        ensures
            log@ == self.deep_view().log(),
    {
        match self {
            Event::Log(s) => s,
            _ => String::new(),
        }
    }

    pub fn into_text(self) -> (text: Option<String>)
        ensures
            text is Some <==> self.deep_view().text() is Some,
            text matches Some(s) ==> s@ == self.deep_view().text().unwrap(),
    {
        match self {
            Event::FileText(t) => t,
            _ => None,
        }
    }

    pub fn into_bytes(self) -> (bytes: Option<Vec<u8>>)
        ensures
            bytes is Some <==> self.deep_view().bytes() is Some,
            bytes matches Some(b) ==> b@ == self.deep_view().bytes().unwrap(),
    {
        match self {
            Event::FileBytes(b) => b,
            _ => None,
        }
    }
}

/// What a machine asks of its host.
#[derive(Clone, Debug, PartialEq, Eq)]
pub enum Request {
    /// Perform these native calls in order and hand back what the last one
    /// returned.
    Gl(Vec<Command>),
    /// Read the file at this path as UTF-8 text and hand back
    /// [`Event::FileText`].
    ReadText(String),
    /// Read the file at this path whole and hand back [`Event::FileBytes`].
    ReadBytes(String),
}

/// The mathematical content of a [`Request`].
pub enum RequestView {
    Gl(Seq<CommandView>),
    ReadText(Seq<char>),
    ReadBytes(Seq<char>),
}

impl DeepView for Request {
    type V = RequestView;

    open spec fn deep_view(&self) -> RequestView {
        match *self {
            Request::Gl(calls) => RequestView::Gl(calls.deep_view()),
            Request::ReadText(path) => RequestView::ReadText(path@),
            Request::ReadBytes(path) => RequestView::ReadBytes(path@),
        }
    }
}

/// How far a machine has come after a step.
#[derive(Debug)]
pub enum Progress<M, T> {
    /// Not finished: perform the request, then advance the machine with what
    /// came back.
    Pending(M, Request),
    /// Finished. The calls complete the work; nothing is handed back for them.
    Ready(T, Vec<Command>),
    /// Given up. The calls release what had been acquired; nothing is handed
    /// back for them.
    Failed(RenderError, Vec<Command>),
}

/// The mathematical content of a [`Progress`].
pub enum ProgressView<M, T> {
    Pending(M, RequestView),
    Ready(T, Seq<CommandView>),
    Failed(RenderErrorView, Seq<CommandView>),
}

impl<M: DeepView, T: DeepView> DeepView for Progress<M, T> {
    type V = ProgressView<M::V, T::V>;

    open spec fn deep_view(&self) -> ProgressView<M::V, T::V> {
        match *self {
            Progress::Pending(machine, request) => ProgressView::Pending(
                machine.deep_view(),
                request.deep_view(),
            ),
            Progress::Ready(product, calls) => ProgressView::Ready(
                product.deep_view(),
                calls.deep_view(),
            ),
            Progress::Failed(error, calls) => ProgressView::Failed(
                error.deep_view(),
                calls.deep_view(),
            ),
        }
    }
}

/// The calls that give back the objects `owned`, last acquired first, each
/// deleted by the one call that matches its kind.
pub open spec fn release_script(owned: Seq<Handle>) -> Seq<CommandView> {
    Seq::new(owned.len(), |i: int| plain(owned[owned.len() - 1 - i].release_call()))
}

/// No call of the batch deletes an object.
pub open spec fn deletes_nothing(calls: Seq<CommandView>) -> bool {
    forall|i: int| 0 <= i < calls.len() ==> (#[trigger] calls[i]).call.deletes() is None
}

impl RequestView {
    /// The request deletes no object.
    pub open spec fn deletes_nothing(self) -> bool {
        match self {
            RequestView::Gl(calls) => deletes_nothing(calls),
            _ => true,
        }
    }
}

/// The request with some calls to perform before it. Only a batch of calls
/// can take more calls in front: a request to read a file stays as it is.
pub open spec fn prepended(calls: Seq<CommandView>, request: RequestView) -> RequestView {
    match request {
        RequestView::Gl(batch) => RequestView::Gl(calls + batch),
        other => other,
    }
}

/// Giving back two groups of objects gives back the later group first.
pub proof fn lemma_release_script_concat(first: Seq<Handle>, second: Seq<Handle>)
    ensures
        release_script(first + second) == release_script(second) + release_script(first),
{
    assert(release_script(first + second) =~= release_script(second) + release_script(first));
}

/// Puts calls in front of a request.
pub fn prepend(calls: Vec<Command>, request: Request) -> (combined: Request)
    ensures
        combined.deep_view() == prepended(calls.deep_view(), request.deep_view()),
{
    match request {
        Request::Gl(batch) => Request::Gl(append(calls, batch)),
        other => other,
    }
}

/// A batch of one call without a memory block.
pub fn single(call: GlCall) -> (calls: Vec<Command>)
    ensures
        calls.deep_view() == plain_script(seq![call]),
{
    let mut calls: Vec<Command> = Vec::new();
    calls.push(Command::plain(call));
    assert(calls.deep_view() =~= plain_script(seq![call]));
    calls
}

/// Adds one command to a batch.
pub fn push_command(calls: &mut Vec<Command>, command: Command)
    ensures
        final(calls).deep_view() == old(calls).deep_view().push(command.deep_view()),
{
    calls.push(command);
    assert(calls.deep_view() =~= old(calls).deep_view().push(command.deep_view()));
}

/// Adds one call without a memory block to a batch.
pub fn push_plain(calls: &mut Vec<Command>, call: GlCall)
    ensures
        final(calls).deep_view() == old(calls).deep_view().push(plain(call)),
{
    calls.push(Command::plain(call));
    assert(calls.deep_view() =~= old(calls).deep_view().push(plain(call)));
}

/// Adds one call with its memory block to a batch.
pub fn push_with_data(calls: &mut Vec<Command>, call: GlCall, data: Vec<u8>)
    ensures
        final(calls).deep_view() == old(calls).deep_view().push(
            CommandView { call, data: data@ },
        ),
{
    calls.push(Command::with_data(call, data));
    assert(calls.deep_view() =~= old(calls).deep_view().push(CommandView { call, data: data@ }));
}

/// An empty batch.
pub fn no_calls() -> (calls: Vec<Command>)
    ensures
        calls.deep_view() == Seq::<CommandView>::empty(),
{
    let calls: Vec<Command> = Vec::new();
    assert(calls.deep_view() =~= Seq::<CommandView>::empty());
    calls
}

/// Puts one batch behind another.
pub fn append(first: Vec<Command>, second: Vec<Command>) -> (calls: Vec<Command>)
    ensures
        calls.deep_view() == first.deep_view() + second.deep_view(),
{
    let mut calls = first;
    let mut rest = second;
    calls.append(&mut rest);
    assert(calls.deep_view() =~= first.deep_view() + second.deep_view());
    calls
}

} // verus!
