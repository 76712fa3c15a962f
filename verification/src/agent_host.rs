//! The agent's WebAssembly runtime: it loads a handler module that asks for
//! its own input buffer (`init_write`), runs it, and reads the text it
//! produced from where the module says it lies (`get_string`,
//! `get_string_len`).
use vstd::prelude::*;
use wasmtime::{Engine, Instance, Memory, Store, TypedFunc};
use wasmtime_wasi::WasiCtx;
use crate::guest_memory::{
    read_text_in, text_read, write_bytes_at, wrote_through_init_write, bytes_written,
};
use crate::host_error::{gave, GuestLog, GuestStep, HostError};
use crate::runtime::{
    add_wasi, call_i32_to_i32, call_i32_to_unit, call_unit_to_i32, compile_module,
    default_engine, get_i32_to_i32, get_i32_to_unit, get_memory, get_unit_to_i32,
    i32_to_i32_export, i32_to_unit_export, instantiate, memory_data, memory_export, new_linker,
    new_store, owns_i32_to_i32, owns_i32_to_unit, owns_unit_to_i32, register_instance,
    unit_to_i32_export,
};

verus! {

/// The steps of a read: `get_string` then, unless it trapped,
/// `get_string_len`; `r` is the text at the range they name in `bytes`, and
/// a trap gives a runtime error.
pub open spec fn read_through_getters(
    before: Seq<GuestStep>,
    after: Seq<GuestStep>,
    bytes: Seq<u8>,
    r: Result<String, HostError>,
) -> bool {
    if after == before.push(GuestStep::GetString { gave: None }) {
        r matches Err(HostError::Runtime(_))
    } else {
        &&& after.len() == before.len() + 2
        &&& after.subrange(0, before.len() as int) == before
        &&& match (after[before.len() as int], after[(before.len() + 1) as int]) {
            (GuestStep::GetString { gave: Some(at) }, GuestStep::GetStringLen { gave: Some(len) }) => {
                text_read(bytes, at as int, len as int, r)
            },
            (GuestStep::GetString { gave: Some(at) }, GuestStep::GetStringLen { gave: None }) => {
                r matches Err(HostError::Runtime(_))
            },
            _ => false,
        }
    }
}

/// A loaded handler module with the exports the agent drives.
pub struct WasmInstance {
    store: Store<WasiCtx>,
    memory: Memory,
    init_write: TypedFunc<i32, i32>,
    get_string: TypedFunc<(), i32>,
    get_string_len: TypedFunc<(), i32>,
    run_handler: TypedFunc<i32, ()>,
    steps: GuestLog,
}

impl WasmInstance {
    /// The store owns the memory and every export the agent calls.
    pub closed spec fn wf(self) -> bool {
        &&& memory_data(self.memory, self.store) is Some
        &&& owns_i32_to_i32(self.store, self.init_write)
        &&& owns_unit_to_i32(self.store, self.get_string)
        &&& owns_unit_to_i32(self.store, self.get_string_len)
        &&& owns_i32_to_unit(self.store, self.run_handler)
    }

    /// The guest's linear memory.
    pub closed spec fn memory_bytes(self) -> Seq<u8> {
        memory_data(self.memory, self.store)->0
    }

    /// The steps this host has taken with its guest, in order.
    pub closed spec fn steps(self) -> Seq<GuestStep> {
        self.steps.steps()
    }

    /// The memory and functions are the exports `memory`, `init_write`,
    /// `get_string`, `get_string_len` and `run_handler` of `inst`.
    pub closed spec fn bound_to(self, inst: Instance) -> bool {
        &&& self.memory == memory_export(inst, "memory"@)
        &&& self.init_write == i32_to_i32_export(inst, "init_write"@)
        &&& self.get_string == unit_to_i32_export(inst, "get_string"@)
        &&& self.get_string_len == unit_to_i32_export(inst, "get_string_len"@)
        &&& self.run_handler == i32_to_unit_export(inst, "run_handler"@)
    }

    /// Both use the same guest memory and exports.
    pub closed spec fn same_handles(self, other: WasmInstance) -> bool {
        &&& self.memory == other.memory
        &&& self.init_write == other.init_write
        &&& self.get_string == other.get_string
        &&& self.get_string_len == other.get_string_len
        &&& self.run_handler == other.run_handler
    }

    /// Loads the handler module (a WebAssembly binary) with WASI context
    /// `wasi`, registers it, and finds its memory and the exports
    /// `init_write`, `get_string`, `get_string_len` and `run_handler`; no
    /// guest function has run yet.
    pub fn new(wasi: WasiCtx, module_bytes: &[u8]) -> (r: Result<WasmInstance, HostError>)
        ensures
            r matches Ok(w) ==> w.wf() && w.steps() == Seq::<GuestStep>::empty() && exists|
                inst: Instance,
            | #[trigger] w.bound_to(inst),
    {
        Self::with_engine(&default_engine(), wasi, module_bytes)
    }

    /// As [`WasmInstance::new`], with the module compiled and run by `engine`
    /// (a runtime configured by the embedder) in place of a default one.
    pub fn with_engine(engine: &Engine, wasi: WasiCtx, module_bytes: &[u8]) -> (r: Result<
        WasmInstance,
        HostError,
    >)
        ensures
            r matches Ok(w) ==> w.wf() && w.steps() == Seq::<GuestStep>::empty() && exists|
                inst: Instance,
            | #[trigger] w.bound_to(inst),
    {
        let mut linker = new_linker(engine);
        if let Err(e) = add_wasi(&mut linker) {
            return Err(HostError::Runtime(e));
        }
        let mut store = new_store(engine, wasi);
        let module = match compile_module(engine, module_bytes) {
            Ok(m) => m,
            Err(e) => {
                return Err(HostError::Runtime(e));
            },
        };
        let instance = match instantiate(&linker, &mut store, &module) {
            Ok(i) => i,
            Err(e) => {
                return Err(HostError::Runtime(e));
            },
        };
        if let Err(e) = register_instance(&mut linker, &mut store, "", instance) {
            return Err(HostError::Runtime(e));
        }
        let memory = match get_memory(&instance, &mut store, "memory") {
            Some(m) => m,
            None => {
                return Err(HostError::MissingMemory);
            },
        };
        let init_write = match get_i32_to_i32(&instance, &mut store, "init_write") {
            Ok(f) => f,
            Err(e) => {
                return Err(HostError::Runtime(e));
            },
        };
        let get_string = match get_unit_to_i32(&instance, &mut store, "get_string") {
            Ok(f) => f,
            Err(e) => {
                return Err(HostError::Runtime(e));
            },
        };
        let get_string_len = match get_unit_to_i32(&instance, &mut store, "get_string_len") {
            Ok(f) => f,
            Err(e) => {
                return Err(HostError::Runtime(e));
            },
        };
        let run_handler = match get_i32_to_unit(&instance, &mut store, "run_handler") {
            Ok(f) => f,
            Err(e) => {
                return Err(HostError::Runtime(e));
            },
        };
        let w = WasmInstance {
            store,
            memory,
            init_write,
            get_string,
            get_string_len,
            run_handler,
            steps: GuestLog::new(),
        };
        assert(w.bound_to(instance));
        Ok(w)
    }

    /// Stores `data` at address `at` of the guest's memory (see
    /// [`bytes_written`]).
    pub fn write_at(&mut self, at: i32, data: &[u8]) -> (r: Result<(), HostError>)
        requires
            old(self).wf(),
        ensures
            final(self).wf(),
            final(self).same_handles(*old(self)),
            final(self).steps() == old(self).steps(),
            bytes_written(old(self).memory_bytes(), final(self).memory_bytes(), at as int, data@, r),
    {
        write_bytes_at(&self.memory, &mut self.store, at, data)
    }

    /// Reads `len` bytes at address `at` of the guest's memory as text (see
    /// [`text_read`]).
    pub fn read_text_at(&self, at: i32, len: i32) -> (r: Result<String, HostError>)
        requires
            self.wf(),
        ensures
            text_read(self.memory_bytes(), at as int, len as int, r),
    {
        read_text_in(&self.memory, &self.store, at, len)
    }

    /// Calls `init_write(len)`, recording the call and the memory it leaves.
    fn guest_init_write(&mut self, len: i32) -> (r: Result<i32, anyhow::Error>)
        requires
            old(self).wf(),
        ensures
            final(self).wf(),
            final(self).same_handles(*old(self)),
            final(self).steps() == old(self).steps().push(
                GuestStep::InitWrite { len, gave: gave(r), memory: final(self).memory_bytes() },
            ),
    {
        let (r, call) = call_i32_to_i32(&self.init_write, &mut self.store, len);
        self.steps.init_write(&call, Ghost(memory_data(self.memory, self.store)->0));
        r
    }

    /// Calls `get_string()`, recording the call.
    fn guest_get_string(&mut self) -> (r: Result<i32, anyhow::Error>)
        requires
            old(self).wf(),
        ensures
            final(self).wf(),
            final(self).same_handles(*old(self)),
            final(self).steps() == old(self).steps().push(GuestStep::GetString { gave: gave(r) }),
    {
        let (r, call) = call_unit_to_i32(&self.get_string, &mut self.store);
        assert(call.func() == self.get_string);
        self.steps.get_string(&call);
        r
    }

    /// Calls `get_string_len()`, recording the call.
    fn guest_get_string_len(&mut self) -> (r: Result<i32, anyhow::Error>)
        requires
            old(self).wf(),
        ensures
            final(self).wf(),
            final(self).same_handles(*old(self)),
            final(self).steps() == old(self).steps().push(
                GuestStep::GetStringLen { gave: gave(r) },
            ),
    {
        let (r, call) = call_unit_to_i32(&self.get_string_len, &mut self.store);
        assert(call.func() == self.get_string_len);
        self.steps.get_string_len(&call);
        r
    }

    /// Calls `run_handler(arg)`, recording the call.
    fn guest_run(&mut self, arg: i32) -> (r: Result<(), anyhow::Error>)
        requires
            old(self).wf(),
        ensures
            final(self).wf(),
            final(self).same_handles(*old(self)),
            final(self).steps() == old(self).steps().push(GuestStep::Run { arg, ok: r is Ok }),
    {
        let (called, call) = call_i32_to_unit(&self.run_handler, &mut self.store, arg);
        self.steps.run(&call);
        called
    }

    /// Asks the guest for an input buffer of the buffer's length
    /// (`init_write`) and stores `write_buffer` at the address it gives (see
    /// [`wrote_through_init_write`]).
    pub fn write_data_to_wasm(&mut self, write_buffer: &[u8]) -> (r: Result<(), HostError>)
        requires
            old(self).wf(),
            write_buffer@.len() <= i32::MAX,
        ensures
            final(self).wf(),
            final(self).same_handles(*old(self)),
            wrote_through_init_write(
                old(self).steps(),
                final(self).steps(),
                write_buffer@,
                final(self).memory_bytes(),
                r,
            ),
    {
        let ghost steps_before = self.steps();
        let len: i32 = write_buffer.len() as i32;
        let write_addr: i32 = match self.guest_init_write(len) {
            Ok(a) => a,
            Err(e) => {
                assert(self.steps().subrange(0, steps_before.len() as int) =~= steps_before);
                return Err(HostError::Runtime(e));
            },
        };
        let r = self.write_at(write_addr, write_buffer);
        assert(self.steps().subrange(0, steps_before.len() as int) =~= steps_before);
        r
    }

    /// Asks the guest where its text lies (`get_string`) and how long it is
    /// (`get_string_len`), and reads it (see [`read_through_getters`]).
    pub fn read_from_wasm(&mut self) -> (r: Result<String, HostError>)
        requires
            old(self).wf(),
        ensures
            final(self).wf(),
            final(self).same_handles(*old(self)),
            read_through_getters(old(self).steps(), final(self).steps(), final(self).memory_bytes(), r),
    {
        let ghost steps_before = self.steps();
        let read_addr: i32 = match self.guest_get_string() {
            Ok(a) => a,
            Err(e) => {
                return Err(HostError::Runtime(e));
            },
        };
        let len: i32 = match self.guest_get_string_len() {
            Ok(n) => n,
            Err(e) => {
                assert(self.steps().subrange(0, steps_before.len() as int) =~= steps_before);
                return Err(HostError::Runtime(e));
            },
        };
        assert(self.steps().subrange(0, steps_before.len() as int) =~= steps_before);
        self.read_text_at(read_addr, len)
    }

    /// Runs the guest's handler with `extra_fields`.
    pub fn run(&mut self, extra_fields: i32) -> (r: Result<(), HostError>)
        requires
            old(self).wf(),
        ensures
            final(self).wf(),
            final(self).same_handles(*old(self)),
            final(self).steps() == old(self).steps().push(
                GuestStep::Run { arg: extra_fields, ok: r is Ok },
            ),
            r is Err ==> r matches Err(HostError::Runtime(_)),
    {
        match self.guest_run(extra_fields) {
            Ok(()) => Ok(()),
            Err(e) => Err(HostError::Runtime(e)),
        }
    }
}

} // verus!
