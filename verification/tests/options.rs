use std::str::FromStr;
use wasm_agent::uniqueness::uniqueness;

#[test]
fn mode_names_are_recognised() {
    assert_eq!(uniqueness::from_str("off"), Ok(uniqueness::UNQ_OFF));
    assert_eq!(uniqueness::from_str("pid"), Ok(uniqueness::UNQ_PID));
    assert_eq!(uniqueness::from_str("cgroup"), Ok(uniqueness::UNQ_CGROUP));
}

#[test]
fn law_mode_names_ignore_case() {
    assert_eq!(uniqueness::from_str("OFF"), Ok(uniqueness::UNQ_OFF));
    assert_eq!(uniqueness::from_str("PiD"), Ok(uniqueness::UNQ_PID));
    assert_eq!(uniqueness::from_str("CGroup"), Ok(uniqueness::UNQ_CGROUP));
}

#[test]
fn other_values_are_refused_with_a_hint() {
    for v in ["1", "2", "", "pids", " pid", "cgroups", "offf"] {
        assert_eq!(uniqueness::from_str(v), Err("Use 1 for pid (default), 2 for cgroups"));
    }
}

#[test]
fn parse_through_from_str() {
    assert_eq!("Pid".parse::<uniqueness>(), Ok(uniqueness::UNQ_PID));
    assert!("x".parse::<uniqueness>().is_err());
}

#[test]
fn law_mode_names_ignore_case_both_ways() {
    for v in ["off", "pid", "cgroup", "Off", "pId", "nope", ""] {
        assert_eq!(uniqueness::from_str(&v.to_ascii_uppercase()), uniqueness::from_str(v));
        assert_eq!(uniqueness::from_str(&v.to_ascii_lowercase()), uniqueness::from_str(v));
    }
}
