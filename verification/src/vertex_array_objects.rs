//! Vertex array objects.

use crate::gl::{GlCall, Handle, HandleKind};
use crate::protocol::{
    deletes_nothing, no_calls, plain, plain_script, release_script, single, Command, Event,
    EventView, Progress, ProgressView, Request, RequestView,
};
use crate::text::{append_decimal, decimal};
use vstd::string::*;
use vstd::prelude::*;

verus! {

/// A vertex array object.
#[derive(Debug, PartialEq, Eq)]
pub struct VertexArrayObjects {
    pub handle: u32,
    /// Whether the native object has been deleted.
    pub released: bool,
}

impl DeepView for VertexArrayObjects {
    type V = VertexArrayObjects;

    open spec fn deep_view(&self) -> VertexArrayObjects {
        *self
    }
}

/// The machine that creates one vertex array object: it has asked for the
/// object and waits for its name.
#[derive(Clone, Copy, Debug, PartialEq, Eq)]
pub struct VertexArrayBuild {}

impl DeepView for VertexArrayBuild {
    type V = VertexArrayBuild;

    open spec fn deep_view(&self) -> VertexArrayBuild {
        *self
    }
}

impl VertexArrayBuild {
    /// The machine holds nothing while it waits.
    pub open spec fn owned(self) -> Seq<Handle> {
        Seq::empty()
    }

    /// The event hands over the object that it names.
    pub open spec fn gains(self, event: EventView) -> Seq<Handle> {
        seq![Handle { kind: HandleKind::VertexArray, id: event.id() }]
    }

    /// The request that goes with the first state.
    pub open spec fn first_request() -> RequestView {
        RequestView::Gl(plain_script(seq![GlCall::CreateVertexArrays]))
    }

    /// The first state, and the request that goes with it.
    pub open spec fn start() -> ProgressView<VertexArrayBuild, VertexArrayObjects> {
        ProgressView::Pending(VertexArrayBuild {  }, Self::first_request())
    }

    /// The machine in its first state, and the request that goes with it.
    pub fn begin() -> (start: (VertexArrayBuild, Request))
        ensures
            start.1.deep_view() == Self::first_request(),
    {
        (VertexArrayBuild {  }, Request::Gl(single(GlCall::CreateVertexArrays)))
    }

    /// What the machine does with an event: the object is ready under the
    /// name that the driver gave.
    pub open spec fn step(self, event: EventView) -> ProgressView<
        VertexArrayBuild,
        VertexArrayObjects,
    > {
        ProgressView::Ready(
            VertexArrayObjects { handle: event.id(), released: false },
            Seq::empty(),
        )
    }

    /// Takes what the host handed back and decides how to go on.
    pub fn advance(self, event: Event) -> (progress: Progress<VertexArrayBuild, VertexArrayObjects>)
        ensures
            progress.deep_view() == self.step(event.deep_view()),
    {
        Progress::Ready(VertexArrayObjects { handle: event.id(), released: false }, no_calls())
    }
}

impl VertexArrayObjects {
    /// The object that this handle stands for, while it is not released.
    pub open spec fn owned(self) -> Seq<Handle> {
        if self.released {
            Seq::empty()
        } else {
            seq![Handle { kind: HandleKind::VertexArray, id: self.handle }]
        }
    }

    /// Starts to create a vertex array object.
    pub fn new() -> (progress: Progress<VertexArrayBuild, VertexArrayObjects>)
        ensures
            progress.deep_view() == VertexArrayBuild::start(),
    {
        let (machine, request) = VertexArrayBuild::begin();
        Progress::Pending(machine, request)
    }

    /// The call that binds the vertex array.
    pub fn bind(&self) -> (command: Command)
        ensures
            command.deep_view() == plain(GlCall::BindVertexArray { array: self.handle }),
    {
        Command::plain(GlCall::BindVertexArray { array: self.handle })
    }

    /// The vertex array in words.
    pub open spec fn description(self) -> Seq<char> {
        "vertex array object #"@ + decimal(self.handle as nat)
    }

    /// The vertex array in words.
    pub fn to_string(&self) -> (text: String)
        ensures
            text@ == self.description(),
    {
        let mut text = String::from_str("vertex array object #");
        append_decimal(&mut text, self.handle);
        text
    }

    /// Deletes the native object, once: the first call returns the delete
    /// call, every later one returns nothing.
    pub fn dispose(&mut self) -> (calls: Vec<Command>)
        ensures
            calls.deep_view() == release_script(old(self).owned()),
            old(self).released ==> calls@.len() == 0,
            final(self).released,
            final(self).handle == old(self).handle,
    {
        if self.released {
            let calls = no_calls();
            assert(calls.deep_view() =~= release_script(old(self).owned()));
            calls
        } else {
            self.released = true;
            let calls = single(GlCall::DeleteVertexArrays { array: self.handle });
            assert(calls.deep_view() =~= release_script(old(self).owned()));
            calls
        }
    }
}

/// The vertex array that the build hands out is the one that the event
/// named, and the build deletes nothing.
pub proof fn lemma_vertex_array_step_keeps_ledger(machine: VertexArrayBuild, event: EventView)
    ensures
        machine.step(event) matches ProgressView::Ready(array, calls) && array.owned()
            == machine.owned() + machine.gains(event) && deletes_nothing(calls),
{
    let array = VertexArrayObjects { handle: event.id(), released: false };
    assert(array.owned() =~= machine.owned() + machine.gains(event));
}

} // verus!
