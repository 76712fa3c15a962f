//! Names of the Linux capabilities that the tracer reports, by number.
use vstd::prelude::*;

verus! {

/// The kernel's capability names, indexed by capability number
/// (`CAP_CHOWN` is 0, `CAP_CHECKPOINT_RESTORE` is 40).
pub open spec fn capability_names() -> Seq<Seq<char>> {
    seq![
        "CAP_CHOWN"@,
        "CAP_DAC_OVERRIDE"@,
        "CAP_DAC_READ_SEARCH"@,
        "CAP_FOWNER"@,
        "CAP_FSETID"@,
        "CAP_KILL"@,
        "CAP_SETGID"@,
        "CAP_SETUID"@,
        "CAP_SETPCAP"@,
        "CAP_LINUX_IMMUTABLE"@,
        "CAP_NET_BIND_SERVICE"@,
        "CAP_NET_BROADCAST"@,
        "CAP_NET_ADMIN"@,
        "CAP_NET_RAW"@,
        "CAP_IPC_LOCK"@,
        "CAP_IPC_OWNER"@,
        "CAP_SYS_MODULE"@,
        "CAP_SYS_RAWIO"@,
        "CAP_SYS_CHROOT"@,
        "CAP_SYS_PTRACE"@,
        "CAP_SYS_PACCT"@,
        "CAP_SYS_ADMIN"@,
        "CAP_SYS_BOOT"@,
        "CAP_SYS_NICE"@,
        "CAP_SYS_RESOURCE"@,
        "CAP_SYS_TIME"@,
        "CAP_SYS_TTY_CONFIG"@,
        "CAP_MKNOD"@,
        "CAP_LEASE"@,
        "CAP_AUDIT_WRITE"@,
        "CAP_AUDIT_CONTROL"@,
        "CAP_SETFCAP"@,
        "CAP_MAC_OVERRIDE"@,
        "CAP_MAC_ADMIN"@,
        "CAP_SYSLOG"@,
        "CAP_WAKE_ALARM"@,
        "CAP_BLOCK_SUSPEND"@,
        "CAP_AUDIT_READ"@,
        "CAP_PERFMON"@,
        "CAP_BPF"@,
        "CAP_CHECKPOINT_RESTORE"@,
    ]
}

/// The name printed for capability number `cap`: its kernel name when the
/// number is known, `?` otherwise.
pub open spec fn capability_name(cap: int) -> Seq<char> {
    if 0 <= cap < capability_names().len() {
        capability_names()[cap]
    } else {
        "?"@
    }
}

/// The name printed for capability number `cap`.
pub fn cap_name(cap: i32) -> (name: &'static str)
    ensures
        name@ == capability_name(cap as int),
{
    match cap {
        0 => "CAP_CHOWN",
        1 => "CAP_DAC_OVERRIDE",
        2 => "CAP_DAC_READ_SEARCH",
        3 => "CAP_FOWNER",
        4 => "CAP_FSETID",
        5 => "CAP_KILL",
        6 => "CAP_SETGID",
        7 => "CAP_SETUID",
        8 => "CAP_SETPCAP",
        9 => "CAP_LINUX_IMMUTABLE",
        10 => "CAP_NET_BIND_SERVICE",
        11 => "CAP_NET_BROADCAST",
        12 => "CAP_NET_ADMIN",
        13 => "CAP_NET_RAW",
        14 => "CAP_IPC_LOCK",
        15 => "CAP_IPC_OWNER",
        16 => "CAP_SYS_MODULE",
        17 => "CAP_SYS_RAWIO",
        18 => "CAP_SYS_CHROOT",
        19 => "CAP_SYS_PTRACE",
        20 => "CAP_SYS_PACCT",
        21 => "CAP_SYS_ADMIN",
        22 => "CAP_SYS_BOOT",
        23 => "CAP_SYS_NICE",
        24 => "CAP_SYS_RESOURCE",
        25 => "CAP_SYS_TIME",
        26 => "CAP_SYS_TTY_CONFIG",
        27 => "CAP_MKNOD",
        28 => "CAP_LEASE",
        29 => "CAP_AUDIT_WRITE",
        30 => "CAP_AUDIT_CONTROL",
        31 => "CAP_SETFCAP",
        32 => "CAP_MAC_OVERRIDE",
        33 => "CAP_MAC_ADMIN",
        34 => "CAP_SYSLOG",
        35 => "CAP_WAKE_ALARM",
        36 => "CAP_BLOCK_SUSPEND",
        37 => "CAP_AUDIT_READ",
        38 => "CAP_PERFMON",
        39 => "CAP_BPF",
        40 => "CAP_CHECKPOINT_RESTORE",
        _ => "?",
    }
}

/// Law: each capability number is printed with the name the kernel gives
/// that number in `include/uapi/linux/capability.h` (`#define CAP_SETGID 6`,
/// `#define CAP_SETUID 7`, ...), and a number the kernel does not define is
/// printed `?`.
pub proof fn law_names_follow_kernel_numbering(cap: int)
    ensures
        capability_name(0) == "CAP_CHOWN"@,
        capability_name(1) == "CAP_DAC_OVERRIDE"@,
        capability_name(2) == "CAP_DAC_READ_SEARCH"@,
        capability_name(3) == "CAP_FOWNER"@,
        capability_name(4) == "CAP_FSETID"@,
        capability_name(5) == "CAP_KILL"@,
        capability_name(6) == "CAP_SETGID"@,
        capability_name(7) == "CAP_SETUID"@,
        capability_name(8) == "CAP_SETPCAP"@,
        capability_name(9) == "CAP_LINUX_IMMUTABLE"@,
        capability_name(10) == "CAP_NET_BIND_SERVICE"@,
        capability_name(11) == "CAP_NET_BROADCAST"@,
        capability_name(12) == "CAP_NET_ADMIN"@,
        capability_name(13) == "CAP_NET_RAW"@,
        capability_name(14) == "CAP_IPC_LOCK"@,
        capability_name(15) == "CAP_IPC_OWNER"@,
        capability_name(16) == "CAP_SYS_MODULE"@,
        capability_name(17) == "CAP_SYS_RAWIO"@,
        capability_name(18) == "CAP_SYS_CHROOT"@,
        capability_name(19) == "CAP_SYS_PTRACE"@,
        capability_name(20) == "CAP_SYS_PACCT"@,
        capability_name(21) == "CAP_SYS_ADMIN"@,
        capability_name(22) == "CAP_SYS_BOOT"@,
        capability_name(23) == "CAP_SYS_NICE"@,
        capability_name(24) == "CAP_SYS_RESOURCE"@,
        capability_name(25) == "CAP_SYS_TIME"@,
        capability_name(26) == "CAP_SYS_TTY_CONFIG"@,
        capability_name(27) == "CAP_MKNOD"@,
        capability_name(28) == "CAP_LEASE"@,
        capability_name(29) == "CAP_AUDIT_WRITE"@,
        capability_name(30) == "CAP_AUDIT_CONTROL"@,
        capability_name(31) == "CAP_SETFCAP"@,
        capability_name(32) == "CAP_MAC_OVERRIDE"@,
        capability_name(33) == "CAP_MAC_ADMIN"@,
        capability_name(34) == "CAP_SYSLOG"@,
        capability_name(35) == "CAP_WAKE_ALARM"@,
        capability_name(36) == "CAP_BLOCK_SUSPEND"@,
        capability_name(37) == "CAP_AUDIT_READ"@,
        capability_name(38) == "CAP_PERFMON"@,
        capability_name(39) == "CAP_BPF"@,
        capability_name(40) == "CAP_CHECKPOINT_RESTORE"@,
        cap < 0 || cap > 40 ==> capability_name(cap) == "?"@,
{
}

} // verus!
