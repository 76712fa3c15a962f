//! The WebAssembly runtime the hosts drive (wasmtime, with WASI): its types,
//! the facts about a store that the hosts rely on, and one thin wrapper per
//! runtime call.
//!
//! A store owns the instances, memories and functions created in it; a handle
//! used with a store that does not own it makes wasmtime panic. The names
//! below say which handles a store owns and what a memory holds, and every
//! call that changes a store keeps what it owned (`store_keeps`).
use vstd::prelude::*;
use wasmtime::{Engine, Instance, Linker, Memory, MemoryAccessError, Module, Store, TypedFunc};
use wasmtime_wasi::WasiCtx;
use crate::host_error::gave;

verus! {

#[verifier::external_type_specification]
#[verifier::external_body]
pub struct ExEngine(Engine);

#[verifier::external_type_specification]
#[verifier::external_body]
pub struct ExModule(Module);

#[verifier::external_type_specification]
#[verifier::external_body]
pub struct ExInstance(Instance);

#[verifier::external_type_specification]
#[verifier::external_body]
pub struct ExMemory(Memory);

#[verifier::external_type_specification]
#[verifier::external_body]
pub struct ExMemoryAccessError(MemoryAccessError);

#[verifier::external_type_specification]
#[verifier::external_body]
pub struct ExWasiCtx(WasiCtx);

#[verifier::external_type_specification]
#[verifier::external_body]
pub struct ExAnyhowError(anyhow::Error);

#[verifier::external_type_specification]
#[verifier::external_body]
#[verifier::reject_recursive_types(T)]
pub struct ExStore<T>(Store<T>);

#[verifier::external_type_specification]
#[verifier::external_body]
#[verifier::reject_recursive_types(T)]
pub struct ExLinker<T>(Linker<T>);

#[verifier::external_type_specification]
#[verifier::external_body]
#[verifier::reject_recursive_types(Params)]
#[verifier::reject_recursive_types(Results)]
pub struct ExTypedFunc<Params, Results>(TypedFunc<Params, Results>);

/// `Memory::data`: the bytes of `mem` as `store` holds them; `None` when
/// `store` does not own `mem` (where wasmtime panics).
pub uninterp spec fn memory_data(mem: Memory, store: Store<WasiCtx>) -> Option<Seq<u8>>;

/// `Store::engine`: the engine a store was made with.
pub uninterp spec fn store_engine(store: Store<WasiCtx>) -> Engine;

/// `Linker::engine`: the engine a linker was made with.
pub uninterp spec fn linker_engine(linker: Linker<WasiCtx>) -> Engine;

/// `store` owns the instance `inst`.
pub uninterp spec fn owns_instance(store: Store<WasiCtx>, inst: Instance) -> bool;

/// `store` owns the function `f` (one taking and giving an `i32`).
pub uninterp spec fn owns_i32_to_i32(store: Store<WasiCtx>, f: TypedFunc<i32, i32>) -> bool;

/// `store` owns the function `f` (the four-argument event handler).
pub uninterp spec fn owns_handler(
    store: Store<WasiCtx>,
    f: TypedFunc<(i32, i32, i32, i32), i32>,
) -> bool;

/// `store` owns the function `f` (one taking nothing and giving an `i32`).
pub uninterp spec fn owns_unit_to_i32(store: Store<WasiCtx>, f: TypedFunc<(), i32>) -> bool;

/// `store` owns the function `f` (one taking an `i32` and giving nothing).
pub uninterp spec fn owns_i32_to_unit(store: Store<WasiCtx>, f: TypedFunc<i32, ()>) -> bool;

/// `store` owns the function `f` (one taking and giving nothing).
pub uninterp spec fn owns_unit_to_unit(store: Store<WasiCtx>, f: TypedFunc<(), ()>) -> bool;

/// `store` owns the function `f` (one taking nothing and giving two `i32`s).
pub uninterp spec fn owns_unit_to_pair(store: Store<WasiCtx>, f: TypedFunc<(), (i32, i32)>) -> bool;

/// The linker defines items that belong to a store (the exports of an
/// instance registered with `Linker::instance`), not only host functions.
pub uninterp spec fn linker_holds_store_items(linker: Linker<WasiCtx>) -> bool;

/// `Instance::get_memory`: the memory that `inst` exports under `name`.
/// An instance's exports are fixed when it is created; wasmtime hands out the
/// same handle for a name every time.
pub uninterp spec fn memory_export(inst: Instance, name: Seq<char>) -> Memory;

/// `Instance::get_typed_func::<i32, i32>`: the function `inst` exports
/// under `name`, with that type.
pub uninterp spec fn i32_to_i32_export(inst: Instance, name: Seq<char>) -> TypedFunc<i32, i32>;

/// `Instance::get_typed_func::<(i32, i32, i32, i32), i32>`: the function
/// `inst` exports under `name`, with that type.
pub uninterp spec fn handler_export(inst: Instance, name: Seq<char>) -> TypedFunc<
    (i32, i32, i32, i32),
    i32,
>;

/// `Instance::get_typed_func::<(), i32>`: the function `inst` exports under
/// `name`, with that type.
pub uninterp spec fn unit_to_i32_export(inst: Instance, name: Seq<char>) -> TypedFunc<(), i32>;

/// `Instance::get_typed_func::<i32, ()>`: the function `inst` exports under
/// `name`, with that type.
pub uninterp spec fn i32_to_unit_export(inst: Instance, name: Seq<char>) -> TypedFunc<i32, ()>;

/// `Instance::get_typed_func::<(), ()>`: the function `inst` exports under
/// `name`, with that type.
pub uninterp spec fn unit_to_unit_export(inst: Instance, name: Seq<char>) -> TypedFunc<(), ()>;

/// `Instance::get_typed_func::<(), (i32, i32)>`: the function `inst`
/// exports under `name`, with that type.
pub uninterp spec fn unit_to_pair_export(inst: Instance, name: Seq<char>) -> TypedFunc<
    (),
    (i32, i32),
>;

/// What a store keeps through any call that changes it: its engine, and
/// everything it owned (a store never gives up what it has created).
pub open spec fn store_keeps(before: Store<WasiCtx>, after: Store<WasiCtx>) -> bool {
    &&& store_engine(after) == store_engine(before)
    &&& forall|m: Memory| #[trigger]
        memory_data(m, before) is Some ==> memory_data(m, after) is Some
    &&& forall|i: Instance| #[trigger] owns_instance(before, i) ==> owns_instance(after, i)
    &&& forall|f: TypedFunc<i32, i32>| #[trigger]
        owns_i32_to_i32(before, f) ==> owns_i32_to_i32(after, f)
    &&& forall|f: TypedFunc<(i32, i32, i32, i32), i32>| #[trigger]
        owns_handler(before, f) ==> owns_handler(after, f)
    &&& forall|f: TypedFunc<(), i32>| #[trigger]
        owns_unit_to_i32(before, f) ==> owns_unit_to_i32(after, f)
    &&& forall|f: TypedFunc<i32, ()>| #[trigger]
        owns_i32_to_unit(before, f) ==> owns_i32_to_unit(after, f)
    &&& forall|f: TypedFunc<(), ()>| #[trigger]
        owns_unit_to_unit(before, f) ==> owns_unit_to_unit(after, f)
    &&& forall|f: TypedFunc<(), (i32, i32)>| #[trigger]
        owns_unit_to_pair(before, f) ==> owns_unit_to_pair(after, f)
}

/// `s` with `data` written over it from `at` on.
pub open spec fn splice(s: Seq<u8>, at: int, data: Seq<u8>) -> Seq<u8> {
    s.subrange(0, at) + data + s.subrange(at + data.len(), s.len() as int)
}

/// Bytes in one WebAssembly page.
pub const WASM_PAGE_SIZE: u64 = 65536;

/// `Engine::default()`: a compilation engine with the default configuration.
/// Nothing is promised of it. Not stated: wasmtime panics when the default
/// configuration does not suit the host machine.
#[verifier::external_body]
pub(crate) fn default_engine() -> Engine {
    Engine::default()
}

/// `WasiCtxBuilder::new().build()`: a WASI context with no arguments, no
/// environment and no preopened directories. Nothing is promised of it.
#[verifier::external_body]
pub(crate) fn bare_wasi_context() -> WasiCtx {
    wasmtime_wasi::WasiCtxBuilder::new().build()
}

/// `Linker::new`: an empty linker for `engine`; its engine is `engine`,
/// and it defines nothing that belongs to a store.
#[verifier::external_body]
pub(crate) fn new_linker(engine: &Engine) -> (linker: Linker<WasiCtx>)
    ensures
        linker_engine(linker) == *engine,
        !linker_holds_store_items(linker),
{
    Linker::new(engine)
}

/// `wasmtime_wasi::add_to_linker`: defines the WASI imports in `linker`, each
/// reaching the store's own WASI context. The linker keeps its engine; what
/// it adds are host functions, which belong to no store.
#[verifier::external_body]
pub(crate) fn add_wasi(linker: &mut Linker<WasiCtx>) -> (r: Result<(), anyhow::Error>)
    ensures
        linker_engine(*final(linker)) == linker_engine(*old(linker)),
        linker_holds_store_items(*final(linker)) == linker_holds_store_items(*old(linker)),
{
    wasmtime_wasi::add_to_linker(linker, |cx: &mut WasiCtx| cx)
}

/// `Store::new`: a store for `engine` whose host data is `wasi`; its engine
/// is `engine`.
#[verifier::external_body]
pub(crate) fn new_store(engine: &Engine, wasi: WasiCtx) -> (store: Store<WasiCtx>)
    ensures
        store_engine(store) == *engine,
{
    Store::new(engine, wasi)
}

/// `Module::new`: compiles a WebAssembly binary for `engine`. Whether it
/// compiles is not stated.
#[verifier::external_body]
pub(crate) fn compile_module(engine: &Engine, bytes: &[u8]) -> Result<Module, anyhow::Error> {
    Module::new(engine, bytes)
}

/// `Linker::instantiate`: instantiates `module` in `store` with the linker's
/// definitions, running its start function; on success the store owns the
/// new instance. The linker must share the store's engine, and must define
/// no item that belongs to a store (wasmtime panics when an item used to
/// instantiate belongs to another store; this rules out every such item).
/// Whether instantiation succeeds is not stated.
#[verifier::external_body]
pub(crate) fn instantiate(
    linker: &Linker<WasiCtx>,
    store: &mut Store<WasiCtx>,
    module: &Module,
) -> (r: Result<Instance, anyhow::Error>)
    requires
        linker_engine(*linker) == store_engine(*old(store)),
        !linker_holds_store_items(*linker),
    ensures
        store_keeps(*old(store), *final(store)),
        r matches Ok(inst) ==> owns_instance(*final(store), inst),
{
    linker.instantiate(store, module)
}

/// `Linker::instance`: defines every export of `inst` under `name` in the
/// linker. `store` must own `inst` (else wasmtime panics). Whether a
/// definition clashes is not stated.
#[verifier::external_body]
pub(crate) fn register_instance(
    linker: &mut Linker<WasiCtx>,
    store: &mut Store<WasiCtx>,
    name: &str,
    inst: Instance,
) -> (r: Result<(), anyhow::Error>)
    requires
        owns_instance(*old(store), inst),
    ensures
        linker_engine(*final(linker)) == linker_engine(*old(linker)),
        store_keeps(*old(store), *final(store)),
{
    linker.instance(store, name, inst).map(|_| ())
}

/// `Instance::get_memory`: the memory exported under `name`, if there is
/// one; `store` then owns it. `store` must own `inst` (else wasmtime panics).
#[verifier::external_body]
pub(crate) fn get_memory(inst: &Instance, store: &mut Store<WasiCtx>, name: &str) -> (m: Option<
    Memory,
>)
    requires
        owns_instance(*old(store), *inst),
    ensures
        store_keeps(*old(store), *final(store)),
        m matches Some(mem) ==> memory_data(mem, *final(store)) is Some && mem == memory_export(
            *inst,
            name@,
        ),
{
    inst.get_memory(store, name)
}

/// `Instance::get_typed_func::<i32, i32>`: the function exported under
/// `name` with that type; `store` then owns it. `store` must own `inst`.
#[verifier::external_body]
pub(crate) fn get_i32_to_i32(inst: &Instance, store: &mut Store<WasiCtx>, name: &str) -> (r: Result<
    TypedFunc<i32, i32>,
    anyhow::Error,
>)
    requires
        owns_instance(*old(store), *inst),
    ensures
        store_keeps(*old(store), *final(store)),
        r matches Ok(f) ==> owns_i32_to_i32(*final(store), f) && f == i32_to_i32_export(*inst, name@),
{
    inst.get_typed_func::<i32, i32>(store, name)
}

/// `Instance::get_typed_func::<(i32, i32, i32, i32), i32>`: the function
/// exported under `name` with that type; `store` then owns it. `store` must
/// own `inst`.
#[verifier::external_body]
pub(crate) fn get_handler(inst: &Instance, store: &mut Store<WasiCtx>, name: &str) -> (r: Result<
    TypedFunc<(i32, i32, i32, i32), i32>,
    anyhow::Error,
>)
    requires
        owns_instance(*old(store), *inst),
    ensures
        store_keeps(*old(store), *final(store)),
        r matches Ok(f) ==> owns_handler(*final(store), f) && f == handler_export(*inst, name@),
{
    inst.get_typed_func::<(i32, i32, i32, i32), i32>(store, name)
}

/// `Instance::get_typed_func::<(), i32>`: the function exported under `name`
/// with that type; `store` then owns it. `store` must own `inst`.
#[verifier::external_body]
pub(crate) fn get_unit_to_i32(inst: &Instance, store: &mut Store<WasiCtx>, name: &str) -> (r:
    Result<TypedFunc<(), i32>, anyhow::Error>)
    requires
        owns_instance(*old(store), *inst),
    ensures
        store_keeps(*old(store), *final(store)),
        r matches Ok(f) ==> owns_unit_to_i32(*final(store), f) && f == unit_to_i32_export(*inst, name@),
{
    inst.get_typed_func::<(), i32>(store, name)
}

/// `Instance::get_typed_func::<i32, ()>`: the function exported under `name`
/// with that type; `store` then owns it. `store` must own `inst`.
#[verifier::external_body]
pub(crate) fn get_i32_to_unit(inst: &Instance, store: &mut Store<WasiCtx>, name: &str) -> (r:
    Result<TypedFunc<i32, ()>, anyhow::Error>)
    requires
        owns_instance(*old(store), *inst),
    ensures
        store_keeps(*old(store), *final(store)),
        r matches Ok(f) ==> owns_i32_to_unit(*final(store), f) && f == i32_to_unit_export(*inst, name@),
{
    inst.get_typed_func::<i32, ()>(store, name)
}

/// `Instance::get_typed_func::<(), ()>`: the function exported under `name`
/// with that type; `store` then owns it. `store` must own `inst`.
#[verifier::external_body]
pub(crate) fn get_unit_to_unit(inst: &Instance, store: &mut Store<WasiCtx>, name: &str) -> (r:
    Result<TypedFunc<(), ()>, anyhow::Error>)
    requires
        owns_instance(*old(store), *inst),
    ensures
        store_keeps(*old(store), *final(store)),
        r matches Ok(f) ==> owns_unit_to_unit(*final(store), f) && f == unit_to_unit_export(
            *inst,
            name@,
        ),
{
    inst.get_typed_func::<(), ()>(store, name)
}

/// `Instance::get_typed_func::<(), (i32, i32)>`: the function exported under
/// `name` with that type; `store` then owns it. `store` must own `inst`.
#[verifier::external_body]
pub(crate) fn get_unit_to_pair(inst: &Instance, store: &mut Store<WasiCtx>, name: &str) -> (r:
    Result<TypedFunc<(), (i32, i32)>, anyhow::Error>)
    requires
        owns_instance(*old(store), *inst),
    ensures
        store_keeps(*old(store), *final(store)),
        r matches Ok(f) ==> owns_unit_to_pair(*final(store), f) && f == unit_to_pair_export(
            *inst,
            name@,
        ),
{
    inst.get_typed_func::<(), (i32, i32)>(store, name)
}

/// What one guest call was handed and gave back: the function called, its
/// arguments, and its result (`None` when the guest trapped). Only the call
/// wrappers below make one, so a record built from it says what the guest
/// really received.
pub struct GuestCall<F, A, R> {
    call: Ghost<(F, A, Option<R>)>,
}

impl<F, A, R> GuestCall<F, A, R> {
    /// The function called.
    pub closed spec fn func(self) -> F {
        self.call@.0
    }

    /// The arguments it was handed.
    pub closed spec fn args(self) -> A {
        self.call@.1
    }

    /// What it gave back: its result, or `None` when it trapped.
    pub closed spec fn gave(self) -> Option<R> {
        self.call@.2
    }
}

/// `TypedFunc::<i32, i32>::call`: runs the guest function `f` on `arg`.
/// Guest code may change the store's memories in any way, so only what the
/// store keeps is stated. Besides the result, it hands back the record of the
/// call: the function and argument handed to wasmtime and what came back.
/// `store` must own `f`; this crate builds wasmtime without its `async`
/// feature, so the call's check against asynchronous stores never fails.
#[verifier::external_body]
pub(crate) fn call_i32_to_i32(f: &TypedFunc<i32, i32>, store: &mut Store<WasiCtx>, arg: i32) -> (r:
    (Result<i32, anyhow::Error>, GuestCall<TypedFunc<i32, i32>, i32, i32>))
    requires
        owns_i32_to_i32(*old(store), *f),
    ensures
        store_keeps(*old(store), *final(store)),
        r.1.func() == *f,
        r.1.args() == arg,
        r.1.gave() == gave(r.0),
{
    let r = f.call(store, arg);
    let call = GuestCall { call: Ghost((*f, arg, gave(r))) };
    (r, call)
}

/// `TypedFunc::<(i32, i32, i32, i32), i32>::call`: runs the guest function
/// `f` on `args`; as for [`call_i32_to_i32`], only what the store keeps is
/// stated, and the record of the call comes back with the result.
#[verifier::external_body]
pub(crate) fn call_handler(
    f: &TypedFunc<(i32, i32, i32, i32), i32>,
    store: &mut Store<WasiCtx>,
    args: (i32, i32, i32, i32),
) -> (r: (
    Result<i32, anyhow::Error>,
    GuestCall<TypedFunc<(i32, i32, i32, i32), i32>, (i32, i32, i32, i32), i32>,
))
    requires
        owns_handler(*old(store), *f),
    ensures
        store_keeps(*old(store), *final(store)),
        r.1.func() == *f,
        r.1.args() == args,
        r.1.gave() == gave(r.0),
{
    let r = f.call(store, args);
    let call = GuestCall { call: Ghost((*f, args, gave(r))) };
    (r, call)
}

/// `TypedFunc::<(), i32>::call`: runs the guest function `f`; as for
/// [`call_i32_to_i32`], only what the store keeps is stated, and the record
/// of the call comes back with the result.
#[verifier::external_body]
pub(crate) fn call_unit_to_i32(f: &TypedFunc<(), i32>, store: &mut Store<WasiCtx>) -> (r: (
    Result<i32, anyhow::Error>,
    GuestCall<TypedFunc<(), i32>, (), i32>,
))
    requires
        owns_unit_to_i32(*old(store), *f),
    ensures
        store_keeps(*old(store), *final(store)),
        r.1.func() == *f,
        r.1.gave() == gave(r.0),
{
    let r = f.call(store, ());
    let call = GuestCall { call: Ghost((*f, (), gave(r))) };
    (r, call)
}

/// `TypedFunc::<i32, ()>::call`: runs the guest function `f` on `arg`; as
/// for [`call_i32_to_i32`], only what the store keeps is stated, and the
/// record of the call comes back with the result.
#[verifier::external_body]
pub(crate) fn call_i32_to_unit(f: &TypedFunc<i32, ()>, store: &mut Store<WasiCtx>, arg: i32) -> (r:
    (Result<(), anyhow::Error>, GuestCall<TypedFunc<i32, ()>, i32, ()>))
    requires
        owns_i32_to_unit(*old(store), *f),
    ensures
        store_keeps(*old(store), *final(store)),
        r.1.func() == *f,
        r.1.args() == arg,
        r.1.gave() == gave(r.0),
{
    let r = f.call(store, arg);
    let call = GuestCall { call: Ghost((*f, arg, gave(r))) };
    (r, call)
}

/// `TypedFunc::<(), ()>::call`: runs the guest function `f`; as for
/// [`call_i32_to_i32`], only what the store keeps is stated, and the record
/// of the call comes back with the result.
#[verifier::external_body]
pub(crate) fn call_unit_to_unit(f: &TypedFunc<(), ()>, store: &mut Store<WasiCtx>) -> (r: (
    Result<(), anyhow::Error>,
    GuestCall<TypedFunc<(), ()>, (), ()>,
))
    requires
        owns_unit_to_unit(*old(store), *f),
    ensures
        store_keeps(*old(store), *final(store)),
        r.1.func() == *f,
        r.1.gave() == gave(r.0),
{
    let r = f.call(store, ());
    let call = GuestCall { call: Ghost((*f, (), gave(r))) };
    (r, call)
}

/// `TypedFunc::<(), (i32, i32)>::call`: runs the guest function `f`; as for
/// [`call_i32_to_i32`], only what the store keeps is stated, and the record
/// of the call comes back with the result.
#[verifier::external_body]
pub(crate) fn call_unit_to_pair(f: &TypedFunc<(), (i32, i32)>, store: &mut Store<WasiCtx>) -> (r: (
    Result<(i32, i32), anyhow::Error>,
    GuestCall<TypedFunc<(), (i32, i32)>, (), (i32, i32)>,
))
    requires
        owns_unit_to_pair(*old(store), *f),
    ensures
        store_keeps(*old(store), *final(store)),
        r.1.func() == *f,
        r.1.gave() == gave(r.0),
{
    let r = f.call(store, ());
    let call = GuestCall { call: Ghost((*f, (), gave(r))) };
    (r, call)
}

/// `Memory::read`: fills `buffer` from `offset` of the memory; fails, with
/// `buffer` untouched, when the range runs past the memory's end. `store`
/// must own `mem` (else wasmtime panics).
#[verifier::external_body]
pub(crate) fn memory_read(
    mem: &Memory,
    store: &Store<WasiCtx>,
    offset: usize,
    buffer: &mut [u8],
) -> (r: Result<(), MemoryAccessError>)
    requires
        memory_data(*mem, *store) is Some,
    ensures
        r is Ok <==> offset + old(buffer)@.len() <= memory_data(*mem, *store)->0.len(),
        r is Ok ==> final(buffer)@ == memory_data(*mem, *store)->0.subrange(
            offset as int,
            offset + old(buffer)@.len(),
        ),
        r is Err ==> final(buffer)@ == old(buffer)@,
{
    mem.read(store, offset, buffer)
}

/// `Memory::write`: copies `data` into the memory from `offset` on; fails,
/// with nothing written, when the range runs past the memory's end. `store`
/// must own `mem` (else wasmtime panics).
#[verifier::external_body]
pub(crate) fn memory_write(
    mem: &Memory,
    store: &mut Store<WasiCtx>,
    offset: usize,
    data: &[u8],
) -> (r: Result<(), MemoryAccessError>)
    requires
        memory_data(*mem, *old(store)) is Some,
    ensures
        store_keeps(*old(store), *final(store)),
        r is Ok <==> offset + data@.len() <= memory_data(*mem, *old(store))->0.len(),
        r is Ok ==> memory_data(*mem, *final(store)) == Some(
            splice(memory_data(*mem, *old(store))->0, offset as int, data@),
        ),
        r is Err ==> memory_data(*mem, *final(store)) == memory_data(*mem, *old(store)),
{
    mem.write(store, offset, data)
}

/// `Memory::grow`: adds `delta` pages at the memory's end and gives the
/// number of pages it had before; the bytes it had stay in place. Whether
/// growth succeeds depends on the memory's limits and is not stated, nor what
/// the new pages hold. `store` must own `mem` (else wasmtime panics).
#[verifier::external_body]
pub(crate) fn memory_grow(mem: &Memory, store: &mut Store<WasiCtx>, delta: u64) -> (r: Result<
    u64,
    anyhow::Error,
>)
    requires
        memory_data(*mem, *old(store)) is Some,
    ensures
        store_keeps(*old(store), *final(store)),
        r matches Ok(pages) ==> {
            &&& pages * WASM_PAGE_SIZE == memory_data(*mem, *old(store))->0.len()
            &&& memory_data(*mem, *final(store))->0.len() == memory_data(
                *mem,
                *old(store),
            )->0.len() + delta * WASM_PAGE_SIZE
            &&& memory_data(*mem, *final(store))->0.subrange(
                0,
                memory_data(*mem, *old(store))->0.len() as int,
            ) == memory_data(*mem, *old(store))->0
        },
        r is Err ==> memory_data(*mem, *final(store)) == memory_data(*mem, *old(store)),
{
    mem.grow(store, delta)
}

} // verus!
