//! The tracer's host side: it loads the WebAssembly event handler, hands it
//! each event's bytes through the guest's linear memory, runs it, and reads
//! the line it wrote back out.
use vstd::prelude::*;
use vstd::slice::slice_subrange;
use vstd::utf8::{decode_utf8, valid_utf8};
use wasmtime::{Engine, Instance, Memory, Store, TypedFunc};
use wasmtime_wasi::WasiCtx;
use crate::runtime::{
    add_wasi, call_handler, call_i32_to_i32, compile_module, default_engine, get_handler,
    get_i32_to_i32, get_memory, handler_export, i32_to_i32_export, instantiate, memory_data,
    memory_export, memory_grow, memory_read, memory_write, new_linker, new_store, owns_handler,
    owns_i32_to_i32, register_instance, splice, store_keeps, WASM_PAGE_SIZE,
};
use crate::host_error::{gave, GuestLog, GuestStep, HostError};
use crate::utf8_text::{law_prefix_text_is_text_prefix, str_from_utf8};

verus! {

/// Bytes the host reads from the guest's output buffer at most, and bytes it
/// asks the guest to reserve for that buffer.
pub const OUTPUT_BUFFER_SIZE: usize = 65536;

/// Bytes of a trace line the tracer prints at most.
pub const PRINTED_OUTPUT_SIZE: usize = 2500;

/// A loaded event handler with its input and output buffers.
pub struct WasmInstance {
    store: Store<WasiCtx>,
    memory: Memory,
    input_pointer: i32,
    output_pointer: i32,
    run_handler: TypedFunc<(i32, i32, i32, i32), i32>,
    steps: GuestLog,
}

/// How many bytes of output are read: `size`, but never more than 65535.
pub open spec fn clamped_output_size(size: int) -> int {
    if size >= 65535 {
        65535
    } else {
        size
    }
}

/// The guest memory after the host asks it to grow and then stores `input`
/// at `at`: growth may fail, leaving `before` as it was, or succeed, adding
/// room after it; the store happens only where `input` fits.
pub open spec fn grown_then_written(
    before: Seq<u8>,
    after: Seq<u8>,
    at: int,
    input: Seq<u8>,
) -> bool {
    exists|grown: Seq<u8>|
        {
            &&& (grown == before || (grown.len() == before.len() + input.len()
                * WASM_PAGE_SIZE && grown.subrange(0, before.len() as int) == before))
            &&& if at + input.len() <= grown.len() {
                after == splice(grown, at, input)
            } else {
                after == grown
            }
        }
}

/// Law: when the event's bytes fit in the guest's memory as it stood before
/// the host asked it to grow, the guest finds them, unchanged, at its input
/// buffer after the host's write, whether or not the growth succeeded.
pub proof fn law_input_lands_in_input_buffer(
    before: Seq<u8>,
    after: Seq<u8>,
    at: int,
    input: Seq<u8>,
)
    requires
        0 <= at,
        at + input.len() <= before.len(),
        grown_then_written(before, after, at, input),
    ensures
        after.subrange(at, at + input.len()) == input,
{
    let grown = choose|grown: Seq<u8>|
        {
            &&& (grown == before || (grown.len() == before.len() + input.len()
                * WASM_PAGE_SIZE && grown.subrange(0, before.len() as int) == before))
            &&& if at + input.len() <= grown.len() {
                after == splice(grown, at, input)
            } else {
                after == grown
            }
        };
    assert(grown.len() >= before.len()) by {
        if grown != before {
            assert(grown.len() == before.len() + input.len() * WASM_PAGE_SIZE);
        }
    }
    assert(after.subrange(at, at + input.len()) =~= input);
}

/// Asks the guest allocator `f` for `size` bytes, recording the call.
fn guest_alloc(
    f: &TypedFunc<i32, i32>,
    store: &mut Store<WasiCtx>,
    size: i32,
    log: &mut GuestLog,
) -> (r: Result<i32, anyhow::Error>)
    requires
        owns_i32_to_i32(*old(store), *f),
    ensures
        store_keeps(*old(store), *final(store)),
        final(log).steps() == old(log).steps().push(
            GuestStep::Alloc { func: *f, size, gave: gave(r) },
        ),
{
    let (a, call) = call_i32_to_i32(f, store, size);
    log.allocation(&call);
    a
}

/// The steps of loading: `my_alloc` (the export `alloc`) asked for 0 bytes,
/// giving the input buffer, then for 65536 bytes, giving the output buffer.
pub open spec fn loading_steps(alloc: TypedFunc<i32, i32>, input: int, output: int) -> Seq<
    GuestStep,
> {
    seq![
        GuestStep::Alloc { func: alloc, size: 0, gave: Some(input as i32) },
        GuestStep::Alloc { func: alloc, size: 65536, gave: Some(output as i32) },
    ]
}

/// The steps of tracing one event: growing the memory by one page per byte,
/// storing the event at the input buffer, and running the handler on
/// `(extra, input, output, length)`.
pub open spec fn tracing_steps(
    extra: i32,
    input: int,
    output: int,
    data: Seq<u8>,
    ran: bool,
) -> Seq<GuestStep> {
    seq![
        GuestStep::Grow { pages: data.len() as u64 },
        GuestStep::Store { at: input, data },
        GuestStep::Handler {
            args: (extra, input as i32, output as i32, data.len() as i32),
            ok: ran,
        },
    ]
}

impl WasmInstance {
    /// The store owns the memory and the handler.
    pub closed spec fn wf(self) -> bool {
        &&& memory_data(self.memory, self.store) is Some
        &&& owns_handler(self.store, self.run_handler)
    }

    /// Both handlers use the same guest memory and entry point.
    pub closed spec fn same_handles(self, other: WasmInstance) -> bool {
        self.memory == other.memory && self.run_handler == other.run_handler
    }

    /// The steps this host has taken with its guest, in order.
    pub closed spec fn steps(self) -> Seq<GuestStep> {
        self.steps.steps()
    }

    /// The memory and handler are the exports `memory` and `run_handler` of
    /// `inst`.
    pub closed spec fn bound_to(self, inst: Instance) -> bool {
        &&& self.memory == memory_export(inst, "memory"@)
        &&& self.run_handler == handler_export(inst, "run_handler"@)
    }

    /// What a freshly loaded handler is: well formed, bound to the exports of
    /// its instance, with buffers that `my_alloc` of that instance gave when
    /// asked for 0 and then 65536 bytes, and nothing else done.
    pub open spec fn freshly_loaded(self) -> bool {
        &&& self.wf()
        &&& exists|inst: Instance|
            #[trigger] self.bound_to(inst) && self.steps() == loading_steps(
                i32_to_i32_export(inst, "my_alloc"@),
                self.input_offset(),
                self.output_offset(),
            )
    }

    /// The guest's linear memory.
    pub closed spec fn memory_bytes(self) -> Seq<u8> {
        memory_data(self.memory, self.store)->0
    }

    /// Where the guest keeps the input it reads.
    pub closed spec fn input_offset(self) -> int {
        self.input_pointer as int
    }

    /// Where the guest writes its output.
    pub closed spec fn output_offset(self) -> int {
        self.output_pointer as int
    }

    /// The bytes of output the host reads when asked for `size` of them.
    pub open spec fn output_window(self, size: int) -> Seq<u8> {
        self.memory_bytes().subrange(
            self.output_offset(),
            self.output_offset() + clamped_output_size(size),
        )
    }

    /// What reading `size` bytes of output gives: `NegativeAddress` when the
    /// allocator gave the output buffer a negative address, `OutOfBounds` when
    /// the 65536-byte output buffer does not lie inside the memory, `NotUtf8`
    /// when the window read is not UTF-8, and its text otherwise.
    pub open spec fn reads_as(self, size: int, r: Result<String, HostError>) -> bool {
        if self.output_offset() < 0 {
            r matches Err(HostError::NegativeAddress)
        } else if self.output_offset() + OUTPUT_BUFFER_SIZE > self.memory_bytes().len() {
            r matches Err(HostError::OutOfBounds)
        } else if !valid_utf8(self.output_window(size)) {
            r matches Err(HostError::NotUtf8)
        } else {
            (r matches Ok(s) && s@ == decode_utf8(self.output_window(size)))
        }
    }

    /// Loads the handler module (a WebAssembly binary) with WASI context
    /// `wasi`, registers it, finds its memory, its allocator `my_alloc` and
    /// its entry point `run_handler`, and has it reserve an input buffer (of
    /// size 0, to be grown) and a 65536-byte output buffer.
    pub fn new(wasi: WasiCtx, module_bytes: &[u8]) -> (r: Result<WasmInstance, HostError>)
        ensures
            r matches Ok(inst) ==> inst.freshly_loaded(),
    {
        Self::with_engine(&default_engine(), wasi, module_bytes)
    }

    /// As [`WasmInstance::new`], with the module compiled and run by `engine`
    /// (a runtime configured by the embedder) in place of a default one.
    pub fn with_engine(engine: &Engine, wasi: WasiCtx, module_bytes: &[u8]) -> (r: Result<
        WasmInstance,
        HostError,
    >)
        ensures
            r matches Ok(inst) ==> inst.freshly_loaded(),
    {
        let mut linker = new_linker(engine);
        if let Err(e) = add_wasi(&mut linker) {
            return Err(HostError::Runtime(e));
        }
        let mut store = new_store(engine, wasi);
        let module = match compile_module(engine, module_bytes) {
            Ok(m) => m,
            Err(e) => {
                return Err(HostError::Runtime(e));
            },
        };
        let instance = match instantiate(&linker, &mut store, &module) {
            Ok(i) => i,
            Err(e) => {
                return Err(HostError::Runtime(e));
            },
        };
        if let Err(e) = register_instance(&mut linker, &mut store, "", instance) {
            return Err(HostError::Runtime(e));
        }
        let memory = match get_memory(&instance, &mut store, "memory") {
            Some(m) => m,
            None => {
                return Err(HostError::MissingMemory);
            },
        };
        let malloc = match get_i32_to_i32(&instance, &mut store, "my_alloc") {
            Ok(f) => f,
            Err(e) => {
                return Err(HostError::Runtime(e));
            },
        };
        let run_handler = match get_handler(&instance, &mut store, "run_handler") {
            Ok(f) => f,
            Err(e) => {
                return Err(HostError::Runtime(e));
            },
        };
        let mut log = GuestLog::new();
        let first = guest_alloc(&malloc, &mut store, 0, &mut log);
        let input_pointer: i32 = match first {
            Ok(p) => p,
            Err(e) => {
                return Err(HostError::Runtime(e));
            },
        };
        let second = guest_alloc(&malloc, &mut store, 65536, &mut log);
        let output_pointer: i32 = match second {
            Ok(p) => p,
            Err(e) => {
                return Err(HostError::Runtime(e));
            },
        };
        let inst = WasmInstance {
            store,
            memory,
            input_pointer,
            output_pointer,
            run_handler,
            steps: log,
        };
        assert(inst.bound_to(instance));
        assert(inst.steps() =~= loading_steps(
            i32_to_i32_export(instance, "my_alloc"@),
            inst.input_offset(),
            inst.output_offset(),
        ));
        Ok(inst)
    }

    /// Asks the guest's memory to grow by `pages` pages, recording the step;
    /// its outcome is not reported.
    fn grow_memory(&mut self, pages: u64)
        requires
            old(self).wf(),
        ensures
            final(self).wf(),
            final(self).input_offset() == old(self).input_offset(),
            final(self).output_offset() == old(self).output_offset(),
            final(self).same_handles(*old(self)),
            final(self).steps() == old(self).steps().push(GuestStep::Grow { pages }),
            final(self).memory_bytes() == old(self).memory_bytes() || (
            final(self).memory_bytes().len() == old(self).memory_bytes().len() + pages
                * WASM_PAGE_SIZE && final(self).memory_bytes().subrange(
                0,
                old(self).memory_bytes().len() as int,
            ) == old(self).memory_bytes()),
    {
        let _ = memory_grow(&self.memory, &mut self.store, pages);
        self.steps.grow(pages);
    }

    /// Stores `data` at `at` of the guest's memory where it fits, recording
    /// the step; a store that does not fit changes nothing and is not
    /// reported.
    fn store_bytes(&mut self, at: usize, data: &[u8])
        requires
            old(self).wf(),
        ensures
            final(self).wf(),
            final(self).input_offset() == old(self).input_offset(),
            final(self).output_offset() == old(self).output_offset(),
            final(self).same_handles(*old(self)),
            final(self).steps() == old(self).steps().push(
                GuestStep::Store { at: at as int, data: data@ },
            ),
            at + data@.len() <= old(self).memory_bytes().len() ==> final(self).memory_bytes()
                == splice(old(self).memory_bytes(), at as int, data@),
            at + data@.len() > old(self).memory_bytes().len() ==> final(self).memory_bytes()
                == old(self).memory_bytes(),
    {
        let _ = memory_write(&self.memory, &mut self.store, at, data);
        self.steps.store(Ghost(at as int), Ghost(data@));
    }

    /// Grows the guest's memory by one page per input byte (keeping its
    /// contents, if the growth is allowed) and stores `input` at the input
    /// buffer, where it fits. Neither step's failure is reported. The input
    /// buffer must lie at a non-negative address.
    pub fn write_data_to_wasm(&mut self, input: &[u8])
        requires
            old(self).wf(),
            old(self).input_offset() >= 0,
            input@.len() <= i32::MAX,
        ensures
            final(self).wf(),
            final(self).input_offset() == old(self).input_offset(),
            final(self).output_offset() == old(self).output_offset(),
            final(self).same_handles(*old(self)),
            final(self).steps() == old(self).steps() + seq![
                GuestStep::Grow { pages: input@.len() as u64 },
                GuestStep::Store { at: old(self).input_offset(), data: input@ },
            ],
            grown_then_written(
                old(self).memory_bytes(),
                final(self).memory_bytes(),
                old(self).input_offset(),
                input@,
            ),
    {
        let ghost before = self.memory_bytes();
        let ghost steps_before = self.steps();
        let input_size: i32 = input.len() as i32;
        self.grow_memory(input_size as u64);
        let ghost grown = self.memory_bytes();
        let input_offset: usize = self.input_pointer as usize;
        self.store_bytes(input_offset, input);
        assert(self.steps() =~= steps_before + seq![
            GuestStep::Grow { pages: input@.len() as u64 },
            GuestStep::Store { at: input_offset as int, data: input@ },
        ]);
        assert(grown_then_written(before, self.memory_bytes(), input_offset as int, input@)) by {
            assert(grown == before || (grown.len() == before.len() + input@.len() * WASM_PAGE_SIZE
                && grown.subrange(0, before.len() as int) == before));
        }
    }

    /// The guest's output read as text: the first `output_size` bytes of the
    /// output buffer, never more than 65535. The host reads the whole
    /// 65536-byte buffer, so it fails when that buffer does not lie inside the
    /// memory, and when the bytes are not UTF-8.
    pub fn read_from_wasm(&self, output_size: usize) -> (r: Result<String, HostError>)
        requires
            self.wf(),
        ensures
            self.reads_as(output_size as int, r),
    {
        if self.output_pointer < 0 {
            return Err(HostError::NegativeAddress);
        }
        let mut size: usize = output_size;
        if size >= 65535 {
            size = 65535;
        }
        let output_offset: usize = self.output_pointer as usize;
        let mut output_buffer: Vec<u8> = vec![0u8; OUTPUT_BUFFER_SIZE];
        if memory_read(&self.memory, &self.store, output_offset, output_buffer.as_mut_slice()).is_err() {
            return Err(HostError::OutOfBounds);
        }
        let ghost window = self.memory_bytes().subrange(
            output_offset as int,
            output_offset + OUTPUT_BUFFER_SIZE,
        );
        assert(output_buffer@ == window);
        let out = slice_subrange(output_buffer.as_slice(), 0, size);
        assert(out@ =~= self.memory_bytes().subrange(
            self.output_offset(),
            self.output_offset() + clamped_output_size(output_size as int),
        ));
        match str_from_utf8(out) {
            None => Err(HostError::NotUtf8),
            Some(text) => Ok(text.to_owned()),
        }
    }

    /// Calls `run_handler(args)`, recording the call.
    fn guest_handler(&mut self, args: (i32, i32, i32, i32)) -> (r: Result<i32, anyhow::Error>)
        requires
            old(self).wf(),
        ensures
            final(self).wf(),
            final(self).input_offset() == old(self).input_offset(),
            final(self).output_offset() == old(self).output_offset(),
            final(self).same_handles(*old(self)),
            final(self).steps() == old(self).steps().push(GuestStep::Handler { args, ok: r is Ok }),
    {
        let (called, call) = call_handler(&self.run_handler, &mut self.store, args);
        self.steps.handler(&call);
        called
    }

    /// The handler's arguments: `(extra_fields, input, output, input_size)`.
    pub fn handler_args(&self, extra_fields: i32, input_size: i32) -> (args: (i32, i32, i32, i32))
        ensures
            args == (extra_fields, self.input_offset() as i32, self.output_offset() as i32, input_size),
    {
        (extra_fields, self.input_pointer, self.output_pointer, input_size)
    }

    /// Runs the guest's handler on the input buffer, with the output buffer to
    /// write into: `run_handler(extra_fields, input, output, input_size)`.
    /// The handler's own result is not used; success gives 0.
    pub fn run(&mut self, extra_fields: i32, input_size: i32) -> (r: Result<i32, HostError>)
        requires
            old(self).wf(),
        ensures
            final(self).wf(),
            final(self).input_offset() == old(self).input_offset(),
            final(self).output_offset() == old(self).output_offset(),
            final(self).same_handles(*old(self)),
            final(self).steps() == old(self).steps().push(
                GuestStep::Handler {
                    args: (
                        extra_fields,
                        old(self).input_offset() as i32,
                        old(self).output_offset() as i32,
                        input_size,
                    ),
                    ok: r is Ok,
                },
            ),
            r matches Ok(v) ==> v == 0,
            r is Err ==> r matches Err(HostError::Runtime(_)),
    {
        let args = self.handler_args(extra_fields, input_size);
        match self.guest_handler(args) {
            Ok(_) => Ok(0),
            Err(e) => Err(HostError::Runtime(e)),
        }
    }
}

/// Law: a read asking for more output gives the text of a read asking for
/// less followed by more text, and any size from 65535 on reads the same.
pub proof fn law_longer_read_extends_shorter(inst: WasmInstance, a: int, b: int)
    requires
        inst.wf(),
        inst.output_offset() >= 0,
        0 <= a <= b,
    ensures
        inst.output_offset() + OUTPUT_BUFFER_SIZE <= inst.memory_bytes().len() ==> inst.output_window(
            a,
        ) == inst.output_window(b).subrange(0, clamped_output_size(a)),
        b >= 65535 ==> inst.output_window(b) == inst.output_window(65535),
{
    if inst.output_offset() + OUTPUT_BUFFER_SIZE <= inst.memory_bytes().len() {
        assert(inst.output_window(a) =~= inst.output_window(b).subrange(0, clamped_output_size(a)));
    }
}

/// Law: two successful reads of the same handler's output agree as text: the
/// text of a read asking for less is the start of the text of a read asking
/// for more, and any two sizes from 65535 on give the same text.
pub proof fn law_longer_read_text_extends_shorter(
    inst: WasmInstance,
    a: int,
    b: int,
    short: Result<String, HostError>,
    long: Result<String, HostError>,
)
    requires
        inst.wf(),
        0 <= a <= b,
        inst.reads_as(a, short),
        inst.reads_as(b, long),
        short is Ok,
        long is Ok,
    ensures
        short->Ok_0@.len() <= long->Ok_0@.len(),
        short->Ok_0@ == long->Ok_0@.subrange(0, short->Ok_0@.len() as int),
        a >= 65535 ==> short->Ok_0@ == long->Ok_0@,
{
    law_longer_read_extends_shorter(inst, a, b);
    let wb = inst.output_window(b);
    let k = clamped_output_size(a);
    assert(inst.output_window(a) == wb.subrange(0, k));
    law_prefix_text_is_text_prefix(wb, k);
    if a >= 65535 {
        law_longer_read_extends_shorter(inst, 65535, a);
    }
}

/// Law: in tracing an event, the handler reads the event where the host put
/// it and writes where the host reads: the host stores the event's bytes at
/// the input buffer and then hands the handler, in this order, the flag, the
/// address it just stored the bytes at, the output buffer's address, and the
/// number of bytes it stored.
pub proof fn law_handler_is_handed_the_stored_event(
    extra: i32,
    input: int,
    output: int,
    data: Seq<u8>,
    ran: bool,
)
    requires
        i32::MIN <= input <= i32::MAX,
        i32::MIN <= output <= i32::MAX,
        data.len() <= i32::MAX,
    ensures
        tracing_steps(extra, input, output, data, ran)[1] matches GuestStep::Store {
            at,
            data: stored,
        } && tracing_steps(extra, input, output, data, ran)[2] matches GuestStep::Handler {
            args,
            ..
        } && args.0 == extra && args.1 == at && at == input && args.2 == output && args.3
            == stored.len() && stored == data,
{
}

/// Traces one event with a loaded handler: writes the event's bytes into
/// it, runs it (with `extra_fields` as 1 or 0), and reads back the first 2500
/// bytes of its output as text. An input buffer at a negative address gives
/// `NegativeAddress` with nothing done.
pub fn process_event(wasm_instance: &mut WasmInstance, extra_fields: bool, data: &[u8]) -> (r:
    Result<String, HostError>)
    requires
        old(wasm_instance).wf(),
        data@.len() <= i32::MAX,
    ensures
        final(wasm_instance).wf(),
        final(wasm_instance).input_offset() == old(wasm_instance).input_offset(),
        final(wasm_instance).output_offset() == old(wasm_instance).output_offset(),
        final(wasm_instance).same_handles(*old(wasm_instance)),
        old(wasm_instance).input_offset() < 0 ==> (r matches Err(HostError::NegativeAddress)
            && *final(wasm_instance) == *old(wasm_instance)),
        old(wasm_instance).input_offset() >= 0 ==> final(wasm_instance).steps() == old(
            wasm_instance,
        ).steps() + tracing_steps(
            if extra_fields {
                1
            } else {
                0
            },
            old(wasm_instance).input_offset(),
            old(wasm_instance).output_offset(),
            data@,
            !(r matches Err(HostError::Runtime(_))),
        ),
        old(wasm_instance).input_offset() >= 0 ==> (r matches Err(HostError::Runtime(_))
            || final(wasm_instance).reads_as(PRINTED_OUTPUT_SIZE as int, r)),
{
    let extra: i32 = if extra_fields {
        1
    } else {
        0
    };
    if wasm_instance.input_pointer < 0 {
        return Err(HostError::NegativeAddress);
    }
    let ghost steps_before = wasm_instance.steps();
    wasm_instance.write_data_to_wasm(data);
    let ran = wasm_instance.run(extra, data.len() as i32);
    assert(wasm_instance.steps() =~= steps_before + tracing_steps(
        extra,
        old(wasm_instance).input_offset(),
        old(wasm_instance).output_offset(),
        data@,
        ran is Ok,
    ));
    if let Err(e) = ran {
        return Err(e);
    }
    wasm_instance.read_from_wasm(PRINTED_OUTPUT_SIZE)
}

/// Traces one event: loads the handler afresh and has it render the event's
/// bytes (see [`process_event`]). On success there is a handler, loaded as
/// [`WasmInstance::new`] loads it, that took exactly the tracing steps and
/// whose output read as the text returned.
pub fn handle_event(extra_fields: bool, data: &[u8], wasi: WasiCtx, module_bytes: &[u8]) -> (r:
    Result<String, HostError>)
    requires
        data@.len() <= i32::MAX,
    ensures
        r is Ok ==> exists|inst: Instance, after: WasmInstance|
            #[trigger] after.bound_to(inst) && after.wf() && after.steps() == loading_steps(
                i32_to_i32_export(inst, "my_alloc"@),
                after.input_offset(),
                after.output_offset(),
            ) + tracing_steps(
                if extra_fields {
                    1
                } else {
                    0
                },
                after.input_offset(),
                after.output_offset(),
                data@,
                true,
            ) && after.reads_as(PRINTED_OUTPUT_SIZE as int, r),
{
    let mut wasm_instance = match WasmInstance::new(wasi, module_bytes) {
        Ok(i) => i,
        Err(e) => {
            return Err(e);
        },
    };
    let ghost loaded = wasm_instance;
    let r = process_event(&mut wasm_instance, extra_fields, data);
    proof {
        if r is Ok {
            let inst = choose|inst: Instance|
                #[trigger] loaded.bound_to(inst) && loaded.steps() == loading_steps(
                    i32_to_i32_export(inst, "my_alloc"@),
                    loaded.input_offset(),
                    loaded.output_offset(),
                );
            assert(wasm_instance.bound_to(inst));
        }
    }
    r
}

} // verus!
