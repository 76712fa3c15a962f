//! The greeting host: it hands a name to a greeting module at the input
//! buffer the module asks for (`init_write`), has it compose the greeting
//! (`greet`), and reads the greeting back from the `(length, address)` the
//! module names (`get_string`).
use vstd::prelude::*;
use wasmtime::{Engine, Instance, Memory, Store, TypedFunc};
use wasmtime_wasi::WasiCtx;
use crate::guest_memory::{bytes_written, read_text_in, text_read, write_bytes_at};
use crate::host_error::{gave, GuestLog, GuestStep, HostError};
use crate::runtime::splice;
use crate::runtime::{
    bare_wasi_context, call_i32_to_i32, call_unit_to_pair, call_unit_to_unit, compile_module,
    get_i32_to_i32, get_memory, get_unit_to_pair, get_unit_to_unit, i32_to_i32_export,
    instantiate, memory_data, memory_export, new_linker, new_store, owns_i32_to_i32,
    owns_unit_to_pair, owns_unit_to_unit, unit_to_pair_export, unit_to_unit_export,
};

verus! {

/// The steps of handing over `name`: after `before` comes `init_write` asked
/// for the name's length; when it gave an address, `r` is what storing the
/// name there does to the memory as the call left it, giving `bytes`, and a
/// stored name is recorded at that address. A trap gives a runtime error.
pub open spec fn name_handed_over(
    before: Seq<GuestStep>,
    after: Seq<GuestStep>,
    name: Seq<u8>,
    bytes: Seq<u8>,
    r: Result<(), HostError>,
) -> bool {
    let k = before.len() as int;
    &&& after.len() > k
    &&& after.subrange(0, k) == before
    &&& match after[k] {
        GuestStep::InitWrite { len, gave, memory } => {
            &&& len == name.len()
            &&& match gave {
                None => after.len() == k + 1 && r matches Err(HostError::Runtime(_)),
                Some(a) => {
                    &&& bytes_written(memory, bytes, a as int, name, r)
                    &&& if r is Ok {
                        after.len() == k + 2 && after[k + 1] == GuestStep::Store {
                            at: a as int,
                            data: name,
                        }
                    } else {
                        after.len() == k + 1
                    }
                },
            }
        },
        _ => false,
    }
}

/// The step of reading the greeting: after `before` comes `get_string`; `r`
/// is the text in `bytes` at the `(length, address)` it gave, or a runtime
/// error when it trapped.
pub open spec fn greeting_read(
    before: Seq<GuestStep>,
    after: Seq<GuestStep>,
    bytes: Seq<u8>,
    r: Result<String, HostError>,
) -> bool {
    &&& after.len() == before.len() + 1
    &&& after.subrange(0, before.len() as int) == before
    &&& match after.last() {
        GuestStep::GetStringPair { answer: None } => r matches Err(HostError::Runtime(_)),
        GuestStep::GetStringPair { answer: Some((len, at)) } => text_read(
            bytes,
            at as int,
            len as int,
            r,
        ),
        _ => false,
    }
}

/// A whole greeting, from a fresh guest: `init_write` asked for the name's
/// length, the name stored at the address it gave, `greet` run to its end,
/// and `r` the text at the `(length, address)` that `get_string` then gave.
pub open spec fn greeted(steps: Seq<GuestStep>, name: Seq<u8>, bytes: Seq<u8>, r: Result<
    String,
    HostError,
>) -> bool {
    &&& steps.len() == 4
    &&& steps[0] matches GuestStep::InitWrite { len, gave: Some(a), .. } && len == name.len()
        && steps[1] == GuestStep::Store { at: a as int, data: name }
    &&& steps[2] == GuestStep::Greet { ok: true }
    &&& steps[3] matches GuestStep::GetStringPair { answer: Some((len, at)) } && text_read(
        bytes,
        at as int,
        len as int,
        r,
    )
}

/// Law: handing over a name asks `init_write` for exactly as many bytes as
/// the name has, and, when the name was stored, it lies whole at the
/// address `init_write` gave: the buffer asked for is the buffer filled.
pub proof fn law_buffer_asked_for_is_buffer_filled(
    before: Seq<GuestStep>,
    after: Seq<GuestStep>,
    name: Seq<u8>,
    bytes: Seq<u8>,
    r: Result<(), HostError>,
)
    requires
        name_handed_over(before, after, name, bytes, r),
    ensures
        after[before.len() as int] matches GuestStep::InitWrite { len, gave, .. } && len
            == name.len() && (r is Ok ==> (gave matches Some(a) && after[(before.len() + 1) as int]
            == GuestStep::Store { at: a as int, data: name } && 0 <= a && a + name.len()
            <= bytes.len() && bytes.subrange(a as int, a + name.len()) == name)),
{
    let k = before.len() as int;
    if r is Ok {
        if let GuestStep::InitWrite { len, gave: Some(a), memory } = after[k] {
            assert(bytes == splice(memory, a as int, name));
            assert(bytes.subrange(a as int, a + name.len()) =~= name);
        }
    }
}

/// A loaded greeting module with the exports the host drives.
pub struct GreetingGuest {
    store: Store<WasiCtx>,
    memory: Memory,
    init_write: TypedFunc<i32, i32>,
    greet: TypedFunc<(), ()>,
    get_string: TypedFunc<(), (i32, i32)>,
    steps: GuestLog,
}

impl GreetingGuest {
    /// The store owns the memory and every export the host calls.
    pub closed spec fn wf(self) -> bool {
        &&& memory_data(self.memory, self.store) is Some
        &&& owns_i32_to_i32(self.store, self.init_write)
        &&& owns_unit_to_unit(self.store, self.greet)
        &&& owns_unit_to_pair(self.store, self.get_string)
    }

    /// The guest's linear memory.
    pub closed spec fn memory_bytes(self) -> Seq<u8> {
        memory_data(self.memory, self.store)->0
    }

    /// The steps this host has taken with its guest, in order.
    pub closed spec fn steps(self) -> Seq<GuestStep> {
        self.steps.steps()
    }

    /// The memory and functions are the exports `memory`, `init_write`,
    /// `greet` and `get_string` of `inst`.
    pub closed spec fn bound_to(self, inst: Instance) -> bool {
        &&& self.memory == memory_export(inst, "memory"@)
        &&& self.init_write == i32_to_i32_export(inst, "init_write"@)
        &&& self.greet == unit_to_unit_export(inst, "greet"@)
        &&& self.get_string == unit_to_pair_export(inst, "get_string"@)
    }

    /// Both use the same guest memory and exports.
    pub closed spec fn same_handles(self, other: GreetingGuest) -> bool {
        &&& self.memory == other.memory
        &&& self.init_write == other.init_write
        &&& self.greet == other.greet
        &&& self.get_string == other.get_string
    }

    /// Compiles the greeting module (a WebAssembly binary) with `engine`,
    /// instantiates it with no imports, and finds its memory and the exports
    /// `init_write`, `greet` and `get_string`; no guest function has run yet.
    pub fn with_engine(engine: &Engine, module_bytes: &[u8]) -> (r: Result<GreetingGuest, HostError>)
        ensures
            r matches Ok(g) ==> g.wf() && g.steps() == Seq::<GuestStep>::empty() && exists|
                inst: Instance,
            | #[trigger] g.bound_to(inst),
    {
        let module = match compile_module(engine, module_bytes) {
            Ok(m) => m,
            Err(e) => {
                return Err(HostError::Runtime(e));
            },
        };
        let mut store = new_store(engine, bare_wasi_context());
        let linker = new_linker(engine);
        let instance = match instantiate(&linker, &mut store, &module) {
            Ok(i) => i,
            Err(e) => {
                return Err(HostError::Runtime(e));
            },
        };
        let memory = match get_memory(&instance, &mut store, "memory") {
            Some(m) => m,
            None => {
                return Err(HostError::MissingMemory);
            },
        };
        let init_write = match get_i32_to_i32(&instance, &mut store, "init_write") {
            Ok(f) => f,
            Err(e) => {
                return Err(HostError::Runtime(e));
            },
        };
        let greet = match get_unit_to_unit(&instance, &mut store, "greet") {
            Ok(f) => f,
            Err(e) => {
                return Err(HostError::Runtime(e));
            },
        };
        let get_string = match get_unit_to_pair(&instance, &mut store, "get_string") {
            Ok(f) => f,
            Err(e) => {
                return Err(HostError::Runtime(e));
            },
        };
        let g = GreetingGuest {
            store,
            memory,
            init_write,
            greet,
            get_string,
            steps: GuestLog::new(),
        };
        assert(g.bound_to(instance));
        Ok(g)
    }

    /// Calls `init_write(len)`, recording the call and the memory it leaves.
    fn guest_init_write(&mut self, len: i32) -> (r: Result<i32, anyhow::Error>)
        requires
            old(self).wf(),
        ensures
            final(self).wf(),
            final(self).same_handles(*old(self)),
            final(self).steps() == old(self).steps().push(
                GuestStep::InitWrite { len, gave: gave(r), memory: final(self).memory_bytes() },
            ),
    {
        let (r, call) = call_i32_to_i32(&self.init_write, &mut self.store, len);
        self.steps.init_write(&call, Ghost(memory_data(self.memory, self.store)->0));
        r
    }

    /// Calls `greet()`, recording the call.
    fn guest_greet(&mut self) -> (r: Result<(), anyhow::Error>)
        requires
            old(self).wf(),
        ensures
            final(self).wf(),
            final(self).same_handles(*old(self)),
            final(self).steps() == old(self).steps().push(GuestStep::Greet { ok: r is Ok }),
    {
        let (r, call) = call_unit_to_unit(&self.greet, &mut self.store);
        self.steps.greet(&call);
        r
    }

    /// Calls `get_string()`, recording the call.
    fn guest_get_string(&mut self) -> (r: Result<(i32, i32), anyhow::Error>)
        requires
            old(self).wf(),
        ensures
            final(self).wf(),
            final(self).same_handles(*old(self)),
            final(self).steps() == old(self).steps().push(
                GuestStep::GetStringPair { answer: gave(r) },
            ),
    {
        let (r, call) = call_unit_to_pair(&self.get_string, &mut self.store);
        self.steps.get_string_pair(&call);
        r
    }

    /// Asks the guest for an input buffer of the name's length
    /// (`init_write`) and stores the name at the address it gives (see
    /// [`name_handed_over`]).
    pub fn write_name(&mut self, name: &[u8]) -> (r: Result<(), HostError>)
        requires
            old(self).wf(),
            name@.len() <= i32::MAX,
        ensures
            final(self).wf(),
            final(self).same_handles(*old(self)),
            name_handed_over(old(self).steps(), final(self).steps(), name@, final(self).memory_bytes(), r),
    {
        let ghost before = self.steps();
        let len: i32 = name.len() as i32;
        let at: i32 = match self.guest_init_write(len) {
            Ok(a) => a,
            Err(e) => {
                assert(self.steps().subrange(0, before.len() as int) =~= before);
                return Err(HostError::Runtime(e));
            },
        };
        let r = write_bytes_at(&self.memory, &mut self.store, at, name);
        if r.is_ok() {
            self.steps.store(Ghost(at as int), Ghost(name@));
        }
        assert(self.steps().subrange(0, before.len() as int) =~= before);
        r
    }

    /// Has the guest compose its greeting (`greet`).
    pub fn greet(&mut self) -> (r: Result<(), HostError>)
        requires
            old(self).wf(),
        ensures
            final(self).wf(),
            final(self).same_handles(*old(self)),
            final(self).steps() == old(self).steps().push(GuestStep::Greet { ok: r is Ok }),
            r is Err ==> r matches Err(HostError::Runtime(_)),
    {
        match self.guest_greet() {
            Ok(()) => Ok(()),
            Err(e) => Err(HostError::Runtime(e)),
        }
    }

    /// Asks the guest where its greeting lies (`get_string`, which gives the
    /// length first and the address second) and reads it (see
    /// [`greeting_read`]).
    pub fn read_greeting(&mut self) -> (r: Result<String, HostError>)
        requires
            old(self).wf(),
        ensures
            final(self).wf(),
            final(self).same_handles(*old(self)),
            greeting_read(old(self).steps(), final(self).steps(), final(self).memory_bytes(), r),
    {
        let ghost before = self.steps();
        let called = self.guest_get_string();
        assert(self.steps().subrange(0, before.len() as int) =~= before);
        match called {
            Ok((len, at)) => read_text_in(&self.memory, &self.store, at, len),
            Err(e) => Err(HostError::Runtime(e)),
        }
    }
}

/// Greets `name` through a greeting module: loads it with `engine`, hands it
/// the name, has it greet, and reads the greeting back as text. On success
/// there is a guest bound to the module's exports that took exactly the
/// steps of [`greeted`], and the text is what its memory held where
/// `get_string` pointed.
pub fn greet_through_guest(engine: &Engine, module_bytes: &[u8], name: &[u8]) -> (r: Result<
    String,
    HostError,
>)
    requires
        name@.len() <= i32::MAX,
    ensures
        r is Ok ==> exists|g: GreetingGuest, inst: Instance|
            #[trigger] g.bound_to(inst) && g.wf() && greeted(g.steps(), name@, g.memory_bytes(), r),
{
    let mut guest = match GreetingGuest::with_engine(engine, module_bytes) {
        Ok(g) => g,
        Err(e) => {
            return Err(e);
        },
    };
    let ghost loaded = guest;
    if let Err(e) = guest.write_name(name) {
        return Err(e);
    }
    let ghost written = guest.steps();
    if let Err(e) = guest.greet() {
        return Err(e);
    }
    let ghost greeted_steps = guest.steps();
    let r = guest.read_greeting();
    proof {
        if r is Ok {
            let inst = choose|inst: Instance| #[trigger] loaded.bound_to(inst);
            assert(guest.bound_to(inst));
            assert(written.len() == 2);
            assert(guest.steps()[0] == guest.steps().subrange(0, 3)[0]);
            assert(guest.steps()[1] == guest.steps().subrange(0, 3)[1]);
            assert(guest.steps()[2] == guest.steps().subrange(0, 3)[2]);
            assert(greeted_steps[0] == written[0]);
            assert(greeted_steps[1] == written[1]);
        }
    }
    r
}

} // verus!
