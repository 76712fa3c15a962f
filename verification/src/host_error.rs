//! What can stop a host from completing a step with its WebAssembly guest,
//! and the record a host keeps of the steps it took.
use vstd::prelude::*;
use wasmtime::TypedFunc;
use crate::runtime::GuestCall;

verus! {

/// Why the host could not complete a step.
#[derive(Debug)]
pub enum HostError {
    /// The runtime refused: compiling, linking, instantiating, finding an
    /// export, or a trap in the guest.
    Runtime(anyhow::Error),
    /// The module exports no memory named `memory`.
    MissingMemory,
    /// The guest gave a negative address or length.
    NegativeAddress,
    /// A range the host reads or writes does not lie inside the guest's
    /// memory.
    OutOfBounds,
    /// Bytes read from the guest are not UTF-8.
    NotUtf8,
}

/// One step of a host's exchange with its guest, in the record the host
/// keeps: a guest function called, with what it was handed and what it gave
/// back (`None` when it trapped), or bytes the host moved itself.
pub ghost enum GuestStep {
    /// The guest allocator `func` asked for `size` bytes.
    Alloc { func: TypedFunc<i32, i32>, size: i32, gave: Option<i32> },
    /// The tracer's handler run on `(extra_fields, input, output, input_size)`.
    Handler { args: (i32, i32, i32, i32), ok: bool },
    /// The host asked the memory to grow by `pages` pages.
    Grow { pages: u64 },
    /// The host stored `data` at `at`.
    Store { at: int, data: Seq<u8> },
    /// `init_write(len)`, with the guest's memory as the call left it.
    InitWrite { len: i32, gave: Option<i32>, memory: Seq<u8> },
    /// `get_string()`.
    GetString { gave: Option<i32> },
    /// `get_string_len()`.
    GetStringLen { gave: Option<i32> },
    /// The agent's handler run on `extra_fields`.
    Run { arg: i32, ok: bool },
    /// `greet()`.
    Greet { ok: bool },
    /// `get_string()` of the greeting module: `(length, address)`.
    GetStringPair { answer: Option<(i32, i32)> },
}

/// What a guest call gave back: its value, or `None` when it trapped.
pub open spec fn gave<T>(r: Result<T, anyhow::Error>) -> Option<T> {
    match r {
        Ok(v) => Some(v),
        Err(_) => None,
    }
}

/// The record of the steps a host took with its guest, in order. A guest
/// call enters it only from the record that the call wrapper hands back, so
/// what it says the guest was handed is what the guest received; the host's
/// own moves enter it from their arguments.
pub struct GuestLog {
    steps: Ghost<Seq<GuestStep>>,
}

impl GuestLog {
    /// The steps recorded so far.
    pub closed spec fn steps(self) -> Seq<GuestStep> {
        self.steps@
    }

    /// An empty record.
    pub(crate) fn new() -> (l: GuestLog)
        ensures
            l.steps() == Seq::<GuestStep>::empty(),
    {
        GuestLog { steps: Ghost(Seq::empty()) }
    }

    /// Records a call of the allocator.
    pub(crate) fn allocation(&mut self, c: &GuestCall<TypedFunc<i32, i32>, i32, i32>)
        ensures
            final(self).steps() == old(self).steps().push(
                GuestStep::Alloc { func: c.func(), size: c.args(), gave: c.gave() },
            ),
    {
        self.steps = Ghost(
            self.steps@.push(GuestStep::Alloc { func: c.func(), size: c.args(), gave: c.gave() }),
        );
    }

    /// Records a call of the tracer's handler.
    pub(crate) fn handler(
        &mut self,
        c: &GuestCall<TypedFunc<(i32, i32, i32, i32), i32>, (i32, i32, i32, i32), i32>,
    )
        ensures
            final(self).steps() == old(self).steps().push(
                GuestStep::Handler { args: c.args(), ok: c.gave() is Some },
            ),
    {
        self.steps = Ghost(
            self.steps@.push(GuestStep::Handler { args: c.args(), ok: c.gave() is Some }),
        );
    }

    /// Records a call of `init_write`, with the guest's memory as it left it.
    pub(crate) fn init_write(
        &mut self,
        c: &GuestCall<TypedFunc<i32, i32>, i32, i32>,
        Ghost(memory): Ghost<Seq<u8>>,
    )
        ensures
            final(self).steps() == old(self).steps().push(
                GuestStep::InitWrite { len: c.args(), gave: c.gave(), memory },
            ),
    {
        self.steps = Ghost(
            self.steps@.push(GuestStep::InitWrite { len: c.args(), gave: c.gave(), memory }),
        );
    }

    /// Records a call of `get_string`.
    pub(crate) fn get_string(&mut self, c: &GuestCall<TypedFunc<(), i32>, (), i32>)
        ensures
            final(self).steps() == old(self).steps().push(GuestStep::GetString { gave: c.gave() }),
    {
        self.steps = Ghost(self.steps@.push(GuestStep::GetString { gave: c.gave() }));
    }

    /// Records a call of `get_string_len`.
    pub(crate) fn get_string_len(&mut self, c: &GuestCall<TypedFunc<(), i32>, (), i32>)
        ensures
            final(self).steps() == old(self).steps().push(
                GuestStep::GetStringLen { gave: c.gave() },
            ),
    {
        self.steps = Ghost(self.steps@.push(GuestStep::GetStringLen { gave: c.gave() }));
    }

    /// Records a call of the agent's handler.
    pub(crate) fn run(&mut self, c: &GuestCall<TypedFunc<i32, ()>, i32, ()>)
        ensures
            final(self).steps() == old(self).steps().push(
                GuestStep::Run { arg: c.args(), ok: c.gave() is Some },
            ),
    {
        self.steps = Ghost(self.steps@.push(GuestStep::Run { arg: c.args(), ok: c.gave() is Some }));
    }

    /// Records a call of `greet`.
    pub(crate) fn greet(&mut self, c: &GuestCall<TypedFunc<(), ()>, (), ()>)
        ensures
            final(self).steps() == old(self).steps().push(GuestStep::Greet { ok: c.gave() is Some }),
    {
        self.steps = Ghost(self.steps@.push(GuestStep::Greet { ok: c.gave() is Some }));
    }

    /// Records a call of the greeting module's `get_string`.
    pub(crate) fn get_string_pair(&mut self, c: &GuestCall<TypedFunc<(), (i32, i32)>, (), (i32, i32)>)
        ensures
            final(self).steps() == old(self).steps().push(
                GuestStep::GetStringPair { answer: c.gave() },
            ),
    {
        self.steps = Ghost(self.steps@.push(GuestStep::GetStringPair { answer: c.gave() }));
    }

    /// Records that the host asked the memory to grow by `pages` pages.
    pub(crate) fn grow(&mut self, pages: u64)
        ensures
            final(self).steps() == old(self).steps().push(GuestStep::Grow { pages }),
    {
        self.steps = Ghost(self.steps@.push(GuestStep::Grow { pages }));
    }

    /// Records that the host stored `data` at `at`.
    pub(crate) fn store(&mut self, Ghost(at): Ghost<int>, Ghost(data): Ghost<Seq<u8>>)
        ensures
            final(self).steps() == old(self).steps().push(GuestStep::Store { at, data }),
    {
        self.steps = Ghost(self.steps@.push(GuestStep::Store { at, data }));
    }
}

} // verus!
