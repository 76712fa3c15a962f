use wasm_agent::clock::{format_clock, ClockReading};
use wasm_agent::event::{
    banner, decode_event, format_event, handle_event, lost_events_message, render_event,
    DecodeError, Event, RenderError, EVENT_SIZE,
};

fn event_bytes(tgid: u32, pid: i32, uid: u32, cap: i32, audit: i32, insetid: i32, comm: &[u8]) -> Vec<u8> {
    let mut v = Vec::new();
    v.extend_from_slice(&tgid.to_le_bytes());
    v.extend_from_slice(&pid.to_le_bytes());
    v.extend_from_slice(&uid.to_le_bytes());
    v.extend_from_slice(&cap.to_le_bytes());
    v.extend_from_slice(&audit.to_le_bytes());
    v.extend_from_slice(&insetid.to_le_bytes());
    let mut c = [0u8; 16];
    c[..comm.len()].copy_from_slice(comm);
    v.extend_from_slice(&c);
    v
}

fn sample() -> Event {
    let mut comm = [0u8; 16];
    comm[..4].copy_from_slice(b"bash");
    Event { tgid: 1234, pid: 1235, uid: 1000, cap: 21, audit: 1, insetid: 0, comm }
}

fn is_clock_text(t: &str) -> bool {
    let b = t.as_bytes();
    b.len() == 8
        && b[2] == b':'
        && b[5] == b':'
        && [0, 1, 3, 4, 6, 7].iter().all(|&i| b[i].is_ascii_digit())
}

#[test]
fn decode_rejects_short_buffers() {
    assert!(matches!(decode_event(&[0u8; 39]), Err(DecodeError::TooShort)));
    assert!(matches!(decode_event(&[]), Err(DecodeError::TooShort)));
}

#[test]
fn decode_reads_little_endian_fields() {
    let bytes = event_bytes(0x01020304, -5, 1000, 21, 1, -1, b"sshd");
    assert_eq!(bytes.len(), EVENT_SIZE);
    let e = decode_event(&bytes).ok().unwrap();
    assert_eq!(e.tgid, 0x01020304);
    assert_eq!(e.pid, -5);
    assert_eq!(e.uid, 1000);
    assert_eq!(e.cap, 21);
    assert_eq!(e.audit, 1);
    assert_eq!(e.insetid, -1);
    assert_eq!(&e.comm[..4], b"sshd");
    assert!(e.comm[4..].iter().all(|&b| b == 0));
}

#[test]
fn decode_ignores_trailing_bytes() {
    let mut bytes = event_bytes(7, 8, 9, 0, 0, 0, b"x");
    bytes.extend_from_slice(&[0xff; 10]);
    let e = decode_event(&bytes).ok().unwrap();
    assert_eq!((e.tgid, e.pid, e.uid), (7, 8, 9));
}

#[test]
fn decode_extreme_values() {
    let bytes = event_bytes(u32::MAX, i32::MIN, 0, i32::MAX, -1, 0, b"");
    let e = decode_event(&bytes).ok().unwrap();
    assert_eq!(e.tgid, u32::MAX);
    assert_eq!(e.pid, i32::MIN);
    assert_eq!(e.cap, i32::MAX);
    assert_eq!(e.audit, -1);
}

#[test]
fn line_without_extra_fields() {
    let e = sample();
    let line = format_event(false, "12:05:33", &e).unwrap();
    let expected = format!(
        "{:9} {:6} {:<6} {:<16} {:<4} {:<20} {:<6}",
        "12:05:33", 1000u32, 1234u32, "bash", 21, "CAP_SYS_ADMIN", 1
    );
    assert_eq!(line, expected);
    assert_eq!(line, "12:05:33    1000 1234   bash             21   CAP_SYS_ADMIN        1     ");
}

#[test]
fn line_with_extra_fields() {
    let e = sample();
    let line = format_event(true, "12:05:33", &e).unwrap();
    let expected = format!(
        "{:9} {:6} {:<6} {:<6} {:<16} {:<4} {:<20} {:<6} {}",
        "12:05:33", 1000u32, 1234u32, 1235, "bash", 21, "CAP_SYS_ADMIN", 1, 0
    );
    assert_eq!(line, expected);
}

#[test]
fn line_with_negative_and_unknown_values() {
    let mut comm = [0u8; 16];
    comm.copy_from_slice(b"sixteen-chars-ok");
    let e = Event { tgid: 0, pid: -3, uid: 4294967295, cap: 99, audit: -1, insetid: 1, comm };
    let line = format_event(true, "00:00:00", &e).unwrap();
    let expected = format!(
        "{:9} {:6} {:<6} {:<6} {:<16} {:<4} {:<20} {:<6} {}",
        "00:00:00", 4294967295u32, 0u32, -3, "sixteen-chars-ok", 99, "?", -1, 1
    );
    assert_eq!(line, expected);
}

#[test]
fn command_name_keeps_inner_nul_but_drops_trailing_ones() {
    let mut comm = [0u8; 16];
    comm[..5].copy_from_slice(b"a\0b\0\0");
    let e = Event { tgid: 1, pid: 1, uid: 1, cap: 0, audit: 0, insetid: 0, comm };
    let line = format_event(false, "01:02:03", &e).unwrap();
    assert!(line.contains("a\0b "));
    assert!(!line.contains("b\0"));
}

#[test]
fn command_name_that_is_not_utf8_is_refused() {
    let mut comm = [0u8; 16];
    comm[0] = 0xff;
    let e = Event { tgid: 1, pid: 1, uid: 1, cap: 0, audit: 0, insetid: 0, comm };
    assert!(format_event(false, "01:02:03", &e).is_none());
    assert!(handle_event(true, &e).is_none());
}

#[test]
fn banners_match_the_columns() {
    assert_eq!(
        banner(false),
        format!(
            "{:9} {:6} {:6} {:16} {:4} {:20} {:6}",
            "TIME", "UID", "PID", "COMM", "CAP", "NAME", "AUDIT"
        )
    );
    assert_eq!(
        banner(true),
        format!(
            "{:9} {:6} {:6} {:6} {:16} {:4} {:20} {:6} {}",
            "TIME", "UID", "PID", "TID", "COMM", "CAP", "NAME", "AUDIT", "INSETID"
        )
    );
}

#[test]
fn lost_events_warning() {
    assert_eq!(lost_events_message(3, 17), "Lost 17 events on CPU 3");
    assert_eq!(lost_events_message(-1, 0), "Lost 0 events on CPU -1");
}

#[test]
fn handled_event_is_stamped_with_the_clock() {
    let e = sample();
    let line = handle_event(false, &e).unwrap();
    let now = &line[..8];
    assert!(is_clock_text(now));
    assert_eq!(line, format_event(false, now, &e).unwrap());
}

#[test]
fn render_reports_each_error() {
    assert!(matches!(render_event(false, &[1, 2, 3]), Err(RenderError::TooShort)));
    let bytes = event_bytes(1, 2, 3, 4, 5, 6, &[0xc3, 0x28]);
    assert!(matches!(render_event(true, &bytes), Err(RenderError::InvalidComm)));
}

#[test]
fn render_formats_the_decoded_event() {
    let bytes = event_bytes(1234, 1235, 1000, 21, 1, 0, b"bash");
    let line = render_event(true, &bytes).ok().unwrap();
    let now = &line[..8];
    assert!(is_clock_text(now));
    assert_eq!(line, format_event(true, now, &sample()).unwrap());
}

#[test]
fn law_columns_line_up() {
    let e = sample();
    let plain = format_event(false, "12:05:33", &e).unwrap();
    assert_eq!(plain.chars().count(), banner(false).chars().count());
    let extra = format_event(true, "12:05:33", &e).unwrap();
    let insetid_len = e.insetid.to_string().len();
    assert_eq!(extra.chars().count() - insetid_len, banner(true).chars().count() - "INSETID".len());
    let cap_col = banner(false).find("CAP ").unwrap();
    assert_eq!(&plain[cap_col..cap_col + 2], "21");
}

#[test]
fn law_decode_reads_only_the_event() {
    let bytes = event_bytes(1, -2, 3, 4, 5, 6, b"comm");
    let mut longer = bytes.clone();
    longer.extend_from_slice(b"anything");
    let a = decode_event(&bytes).ok().unwrap();
    let b = decode_event(&longer).ok().unwrap();
    assert_eq!((a.tgid, a.pid, a.uid, a.cap, a.audit, a.insetid, a.comm), (b.tgid, b.pid, b.uid, b.cap, b.audit, b.insetid, b.comm));
}

#[test]
fn clock_stamp_shows_hour_month_second() {
    let r = ClockReading { hour: 7, month: 3, second: 9, nanosecond: 0 };
    assert_eq!(format_clock(r), "07:03:09");
    let r = ClockReading { hour: 23, month: 12, second: 59, nanosecond: 999_999_999 };
    assert_eq!(format_clock(r), "23:12:59");
    let r = ClockReading { hour: 0, month: 1, second: 0, nanosecond: 5 };
    assert_eq!(format_clock(r), "00:01:00");
}

#[test]
fn clock_stamp_shows_a_leap_second_as_60() {
    let r = ClockReading { hour: 23, month: 6, second: 59, nanosecond: 1_000_000_000 };
    assert_eq!(format_clock(r), "23:06:60");
}
