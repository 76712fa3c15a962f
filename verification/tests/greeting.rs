use wasm_agent::hello::{greeting_for, HelloModule};

#[test]
fn module_starts_with_hello_world() {
    let m = HelloModule::new();
    let (len, bytes) = m.get_string();
    assert_eq!(len, 13);
    assert_eq!(bytes, b"Hello, world!");
}

#[test]
fn law_greeting_echoes_name() {
    let name = "Licheng123xxx".as_bytes();
    let mut m = HelloModule::new();
    m.init_write(name.len());
    assert!(m.store_input(0, name));
    assert!(m.greet());
    let (len, bytes) = m.get_string();
    assert_eq!(bytes, b"hello name: Licheng123xxx");
    assert_eq!(len, bytes.len());
}

#[test]
fn greeting_counts_bytes_of_non_ascii_names() {
    let name = "Zoë".as_bytes();
    let mut m = HelloModule::new();
    m.init_write(name.len());
    assert!(m.store_input(0, name));
    assert!(m.greet());
    let (len, bytes) = m.get_string();
    assert_eq!(bytes, "hello name: Zoë".as_bytes());
    assert_eq!(len, 16);
}

#[test]
fn store_outside_the_buffer_changes_nothing() {
    let mut m = HelloModule::new();
    m.init_write(3);
    assert!(!m.store_input(1, b"abc"));
    assert!(!m.store_input(4, b""));
    assert!(m.store_input(3, b""));
    assert!(m.greet());
    assert_eq!(m.get_string().1, b"hello name: \0\0\0");
}

#[test]
fn store_in_the_middle_keeps_the_rest() {
    let mut m = HelloModule::new();
    m.init_write(5);
    assert!(m.store_input(0, b"hello"));
    assert!(m.store_input(1, b"EL"));
    assert!(m.greet());
    assert_eq!(m.get_string().1, b"hello name: hELlo");
}

#[test]
fn invalid_input_leaves_the_text() {
    let mut m = HelloModule::new();
    m.init_write(2);
    assert!(m.store_input(0, &[0xff, 0xfe]));
    assert!(!m.greet());
    assert_eq!(m.get_string().1, b"Hello, world!");
}

#[test]
fn law_greet_twice_is_greet_once() {
    let mut m = HelloModule::new();
    m.init_write(2);
    assert!(m.store_input(0, b"Al"));
    assert!(m.greet());
    let first = m.get_string().1.to_vec();
    assert!(m.greet());
    assert_eq!(m.get_string().1, &first[..]);
}

#[test]
fn init_write_resets_the_input() {
    let mut m = HelloModule::new();
    m.init_write(2);
    assert!(m.store_input(0, b"xy"));
    m.init_write(1);
    assert!(m.greet());
    assert_eq!(m.get_string().1, b"hello name: \0");
}

#[test]
fn greeting_for_a_name() {
    assert_eq!(greeting_for(b"Bob").unwrap(), "hello name: Bob");
    assert_eq!(greeting_for(b"").unwrap(), "hello name: ");
    assert!(greeting_for(&[0x80]).is_none());
}
