use wasm_agent::capabilities::cap_name;

#[test]
fn known_capabilities_have_kernel_names() {
    assert_eq!(cap_name(0), "CAP_CHOWN");
    assert_eq!(cap_name(12), "CAP_NET_ADMIN");
    assert_eq!(cap_name(21), "CAP_SYS_ADMIN");
    assert_eq!(cap_name(39), "CAP_BPF");
    assert_eq!(cap_name(40), "CAP_CHECKPOINT_RESTORE");
}

#[test]
fn unknown_capabilities_print_a_question_mark() {
    assert_eq!(cap_name(-1), "?");
    assert_eq!(cap_name(41), "?");
    assert_eq!(cap_name(i32::MAX), "?");
    assert_eq!(cap_name(i32::MIN), "?");
}

#[test]
fn every_known_number_has_a_distinct_cap_name() {
    let mut seen = std::collections::HashSet::new();
    for c in 0..41 {
        let name = cap_name(c);
        assert!(name.starts_with("CAP_"));
        assert!(seen.insert(name));
    }
}
