use wasm_agent::agent_host;
use wasm_agent::greeting_host;
use wasm_agent::capable_host::{self, WasmInstance};
use wasm_agent::host_error::HostError;

fn section(id: u8, content: &[u8]) -> Vec<u8> {
    assert!(content.len() < 128);
    let mut v = vec![id, content.len() as u8];
    v.extend_from_slice(content);
    v
}

fn export(name: &str, kind: u8, index: u8) -> Vec<u8> {
    let mut v = vec![name.len() as u8];
    v.extend_from_slice(name.as_bytes());
    v.push(kind);
    v.push(index);
    v
}

fn body(code: &[u8]) -> Vec<u8> {
    let mut v = vec![(code.len() + 1) as u8, 0x00];
    v.extend_from_slice(code);
    v
}

/// A handler module: a memory of `pages` pages, a bump allocator starting at
/// `first_address` (a one-byte signed LEB128), and `run_handler` that copies
/// the input to the output, appends the digit `'0' + extra` and returns the
/// output's length.
fn handler_module(pages: u8, first_address: &[u8], with_memory: bool) -> Vec<u8> {
    let mut m = vec![0x00, 0x61, 0x73, 0x6d, 0x01, 0x00, 0x00, 0x00];
    m.extend(section(1, &[0x02, 0x60, 0x01, 0x7f, 0x01, 0x7f, 0x60, 0x04, 0x7f, 0x7f, 0x7f, 0x7f, 0x01, 0x7f]));
    m.extend(section(3, &[0x02, 0x00, 0x01]));
    m.extend(section(5, &[0x01, 0x00, pages]));
    let mut global = vec![0x01, 0x7f, 0x01, 0x41];
    global.extend_from_slice(first_address);
    global.push(0x0b);
    m.extend(section(6, &global));
    let mut exports = Vec::new();
    let mut count = 2u8;
    if with_memory {
        exports.extend(export("memory", 0x02, 0));
        count += 1;
    }
    exports.extend(export("my_alloc", 0x00, 0));
    exports.extend(export("run_handler", 0x00, 1));
    let mut e = vec![count];
    e.extend(exports);
    m.extend(section(7, &e));
    let alloc = body(&[0x23, 0x00, 0x23, 0x00, 0x20, 0x00, 0x6a, 0x24, 0x00, 0x0b]);
    let run = body(&[
        0x20, 0x02, 0x20, 0x01, 0x20, 0x03, 0xfc, 0x0a, 0x00, 0x00, 0x20, 0x02, 0x20, 0x03, 0x6a,
        0x20, 0x00, 0x41, 0x30, 0x6a, 0x3a, 0x00, 0x00, 0x20, 0x03, 0x41, 0x01, 0x6a, 0x0b,
    ]);
    let mut code = vec![0x02];
    code.extend(alloc);
    code.extend(run);
    m.extend(section(10, &code));
    m
}

/// An agent module: `init_write(n)` remembers `n` and gives address 64,
/// `get_string` gives 64, `get_string_len` gives the remembered length, and
/// `run_handler(x)` adds `x` to it.
fn agent_module() -> Vec<u8> {
    let mut m = vec![0x00, 0x61, 0x73, 0x6d, 0x01, 0x00, 0x00, 0x00];
    m.extend(section(1, &[0x03, 0x60, 0x01, 0x7f, 0x01, 0x7f, 0x60, 0x00, 0x01, 0x7f, 0x60, 0x01, 0x7f, 0x00]));
    m.extend(section(3, &[0x04, 0x00, 0x01, 0x01, 0x02]));
    m.extend(section(5, &[0x01, 0x00, 0x01]));
    m.extend(section(6, &[0x01, 0x7f, 0x01, 0x41, 0x00, 0x0b]));
    let mut e = vec![0x05];
    e.extend(export("memory", 0x02, 0));
    e.extend(export("init_write", 0x00, 0));
    e.extend(export("get_string", 0x00, 1));
    e.extend(export("get_string_len", 0x00, 2));
    e.extend(export("run_handler", 0x00, 3));
    m.extend(section(7, &e));
    let mut code = vec![0x04];
    code.extend(body(&[0x20, 0x00, 0x24, 0x00, 0x41, 0xc0, 0x00, 0x0b]));
    code.extend(body(&[0x41, 0xc0, 0x00, 0x0b]));
    code.extend(body(&[0x23, 0x00, 0x0b]));
    code.extend(body(&[0x20, 0x00, 0x23, 0x00, 0x6a, 0x24, 0x00, 0x0b]));
    m.extend(section(10, &code));
    m
}

fn wasi() -> wasmtime_wasi::WasiCtx {
    wasmtime_wasi::WasiCtxBuilder::new().build()
}

/// An engine that reserves no more address space than a memory uses, so
/// that the tests run where virtual memory is limited.
fn small_engine() -> wasmtime::Engine {
    let mut config = wasmtime::Config::new();
    config.static_memory_maximum_size(0);
    config.static_memory_guard_size(0);
    config.dynamic_memory_guard_size(0);
    config.dynamic_memory_reserved_for_growth(0);
    config.guard_before_linear_memory(false);
    wasmtime::Engine::new(&config).unwrap()
}

fn load(module: &[u8]) -> WasmInstance {
    match WasmInstance::with_engine(&small_engine(), wasi(), module) {
        Ok(i) => i,
        Err(e) => panic!("the handler module did not load: {:?}", e),
    }
}

#[test]
fn handler_round_trip() {
    let mut inst = load(&handler_module(2, &[0x80, 0x08], true));
    inst.write_data_to_wasm(b"hello");
    assert!(matches!(inst.run(1, 5), Ok(0)));
    match inst.read_from_wasm(6) {
        Ok(s) => assert_eq!(s, "hello1"),
        Err(_) => panic!("read failed"),
    }
}

#[test]
fn read_is_clamped_to_the_buffer() {
    let mut inst = load(&handler_module(2, &[0x80, 0x08], true));
    inst.write_data_to_wasm(b"ab");
    assert!(matches!(inst.run(0, 2), Ok(0)));
    match inst.read_from_wasm(1_000_000) {
        Ok(s) => {
            assert_eq!(s.len(), 65535);
            assert!(s.starts_with("ab0\0"));
        },
        Err(_) => panic!("read failed"),
    }
}

#[test]
fn output_that_is_not_utf8_is_refused() {
    let mut inst = load(&handler_module(2, &[0x80, 0x08], true));
    inst.write_data_to_wasm(&[0xff]);
    assert!(matches!(inst.run(0, 1), Ok(0)));
    assert!(matches!(inst.read_from_wasm(1), Err(HostError::NotUtf8)));
}

#[test]
fn output_buffer_outside_memory_is_refused() {
    let inst = load(&handler_module(1, &[0x80, 0x08], true));
    assert!(matches!(inst.read_from_wasm(1), Err(HostError::OutOfBounds)));
}

#[test]
fn module_without_memory_is_refused() {
    assert!(matches!(
        WasmInstance::with_engine(&small_engine(), wasi(), &handler_module(2, &[0x80, 0x08], false)),
        Err(HostError::MissingMemory)
    ));
}

#[test]
fn negative_buffer_address_is_kept_and_refused_on_use() {
    // The allocator starts at -1, so both buffers get address -1.
    let mut inst = load(&handler_module(2, &[0x7f], true));
    assert_eq!(inst.handler_args(1, 5), (1, -1, -1, 5));
    assert!(matches!(inst.read_from_wasm(1), Err(HostError::NegativeAddress)));
    assert!(matches!(capable_host::process_event(&mut inst, true, b"x"), Err(HostError::NegativeAddress)));
}

#[test]
fn bytes_that_are_not_a_module_are_refused() {
    assert!(matches!(WasmInstance::with_engine(&small_engine(), wasi(), b"not wasm"), Err(HostError::Runtime(_))));
}

#[test]
fn process_event_reads_the_printed_prefix() {
    let module = handler_module(2, &[0x80, 0x08], true);
    let mut inst = load(&module);
    match capable_host::process_event(&mut inst, true, b"line") {
        Ok(s) => {
            assert_eq!(s.len(), 2500);
            assert!(s.starts_with("line1"));
            assert!(s[5..].chars().all(|c| c == '\0'));
        },
        Err(e) => panic!("event not handled: {:?}", e),
    }
    let mut inst = load(&module);
    match capable_host::process_event(&mut inst, false, b"x") {
        Ok(s) => assert!(s.starts_with("x0")),
        Err(e) => panic!("event not handled: {:?}", e),
    }
}

#[test]
fn agent_round_trip() {
    let mut inst = match agent_host::WasmInstance::with_engine(&small_engine(), wasi(), &agent_module()) {
        Ok(i) => i,
        Err(e) => panic!("the agent module did not load: {:?}", e),
    };
    assert!(inst.write_data_to_wasm(b"abc").is_ok());
    assert!(inst.run(0).is_ok());
    match inst.read_from_wasm() {
        Ok(s) => assert_eq!(s, "abc"),
        Err(_) => panic!("read failed"),
    }
    assert!(inst.run(1).is_ok());
    match inst.read_from_wasm() {
        Ok(s) => assert_eq!(s, "abc\0"),
        Err(_) => panic!("read failed"),
    }
}

#[test]
fn agent_module_without_exports_is_refused() {
    let module = handler_module(2, &[0x80, 0x08], true);
    assert!(matches!(agent_host::WasmInstance::with_engine(&small_engine(), wasi(), &module), Err(HostError::Runtime(_))));
}

#[test]
fn agent_reads_and_writes_at_given_addresses() {
    let mut inst = match agent_host::WasmInstance::with_engine(&small_engine(), wasi(), &agent_module()) {
        Ok(i) => i,
        Err(e) => panic!("the agent module did not load: {:?}", e),
    };
    assert!(inst.write_at(100, b"xyz").is_ok());
    match inst.read_text_at(100, 3) {
        Ok(s) => assert_eq!(s, "xyz"),
        Err(e) => panic!("read failed: {:?}", e),
    }
    assert!(matches!(inst.write_at(-1, b"a"), Err(HostError::NegativeAddress)));
    assert!(matches!(inst.write_at(65535, b"ab"), Err(HostError::OutOfBounds)));
    assert!(inst.write_at(65534, b"ab").is_ok());
    assert!(matches!(inst.read_text_at(-1, 1), Err(HostError::NegativeAddress)));
    assert!(matches!(inst.read_text_at(0, -1), Err(HostError::NegativeAddress)));
    assert!(matches!(inst.read_text_at(65535, 2), Err(HostError::OutOfBounds)));
    assert!(inst.write_at(200, &[0xff]).is_ok());
    assert!(matches!(inst.read_text_at(200, 1), Err(HostError::NotUtf8)));
    match inst.read_text_at(101, 0) {
        Ok(s) => assert_eq!(s, ""),
        Err(e) => panic!("read failed: {:?}", e),
    }
}

#[test]
fn handler_gets_flag_buffers_and_size() {
    let inst = load(&handler_module(2, &[0x80, 0x08], true));
    assert_eq!(inst.handler_args(1, 5), (1, 1024, 1024, 5));
    assert_eq!(inst.handler_args(0, 0), (0, 1024, 1024, 0));
}

#[test]
fn law_longer_read_extends_shorter_read() {
    let mut inst = load(&handler_module(2, &[0x80, 0x08], true));
    inst.write_data_to_wasm(b"prefix");
    assert!(matches!(inst.run(1, 6), Ok(0)));
    let short = inst.read_from_wasm(3).unwrap();
    let long = inst.read_from_wasm(10).unwrap();
    assert_eq!(short, "pre");
    assert!(long.starts_with(&short));
    assert_eq!(inst.read_from_wasm(65535).unwrap(), inst.read_from_wasm(70000).unwrap());
    let text = inst.read_from_wasm(7).unwrap();
    assert_eq!(text, "prefix1");
    assert!(inst.read_from_wasm(20).unwrap().starts_with(&text));
}

/// A greeting module: `init_write(n)` remembers `n` and gives address 64,
/// `greet` writes `Hi, ` (a data segment at 200), the name and `!`, and
/// `get_string` gives `(length, 200)`.
fn greeting_module(with_greet: bool) -> Vec<u8> {
    let mut m = vec![0x00, 0x61, 0x73, 0x6d, 0x01, 0x00, 0x00, 0x00];
    m.extend(section(1, &[0x03, 0x60, 0x01, 0x7f, 0x01, 0x7f, 0x60, 0x00, 0x00, 0x60, 0x00, 0x02, 0x7f, 0x7f]));
    m.extend(section(3, &[0x03, 0x00, 0x01, 0x02]));
    m.extend(section(5, &[0x01, 0x00, 0x01]));
    m.extend(section(6, &[0x01, 0x7f, 0x01, 0x41, 0x00, 0x0b]));
    let mut e = vec![if with_greet { 0x04 } else { 0x03 }];
    e.extend(export("memory", 0x02, 0));
    e.extend(export("init_write", 0x00, 0));
    if with_greet {
        e.extend(export("greet", 0x00, 1));
    }
    e.extend(export("get_string", 0x00, 2));
    m.extend(section(7, &e));
    let mut code = vec![0x03];
    code.extend(body(&[0x20, 0x00, 0x24, 0x00, 0x41, 0xc0, 0x00, 0x0b]));
    code.extend(body(&[
        0x41, 0xcc, 0x01, 0x41, 0xc0, 0x00, 0x23, 0x00, 0xfc, 0x0a, 0x00, 0x00, 0x41, 0xcc, 0x01,
        0x23, 0x00, 0x6a, 0x41, 0x21, 0x3a, 0x00, 0x00, 0x0b,
    ]));
    code.extend(body(&[0x23, 0x00, 0x41, 0x05, 0x6a, 0x41, 0xc8, 0x01, 0x0b]));
    m.extend(section(10, &code));
    m.extend(section(11, &[0x01, 0x00, 0x41, 0xc8, 0x01, 0x0b, 0x04, b'H', b'i', b',', b' ']));
    m
}

#[test]
fn greeting_round_trip() {
    let r = greeting_host::greet_through_guest(&small_engine(), &greeting_module(true), b"Licheng123xxx");
    match r {
        Ok(s) => assert_eq!(s, "Hi, Licheng123xxx!"),
        Err(e) => panic!("no greeting: {:?}", e),
    }
    match greeting_host::greet_through_guest(&small_engine(), &greeting_module(true), b"") {
        Ok(s) => assert_eq!(s, "Hi, !"),
        Err(e) => panic!("no greeting: {:?}", e),
    }
}

#[test]
fn greeting_steps_one_at_a_time() {
    let mut guest = match greeting_host::GreetingGuest::with_engine(&small_engine(), &greeting_module(true)) {
        Ok(g) => g,
        Err(e) => panic!("the greeting module did not load: {:?}", e),
    };
    assert!(guest.write_name(b"Ann").is_ok());
    assert!(guest.greet().is_ok());
    match guest.read_greeting() {
        Ok(s) => assert_eq!(s, "Hi, Ann!"),
        Err(e) => panic!("read failed: {:?}", e),
    }
}

#[test]
fn greeting_module_without_greet_is_refused() {
    let r = greeting_host::greet_through_guest(&small_engine(), &greeting_module(false), b"Ann");
    assert!(matches!(r, Err(HostError::Runtime(_))));
    let r = greeting_host::greet_through_guest(&small_engine(), b"not wasm", b"Ann");
    assert!(matches!(r, Err(HostError::Runtime(_))));
}

#[test]
fn greeting_name_too_long_for_memory_is_refused() {
    let name = vec![b'a'; 70000];
    let r = greeting_host::greet_through_guest(&small_engine(), &greeting_module(true), &name);
    assert!(matches!(r, Err(HostError::OutOfBounds)));
}
