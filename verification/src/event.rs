//! The capability-check events that the kernel probe sends, and the lines the
//! tracer prints for them.
//!
//! An event arrives as the raw bytes of the probe's C struct
//! (`tgid`, `pid`, `uid`, `cap`, `audit`, `insetid`, then a 16-byte `comm`),
//! in the little-endian layout of the WebAssembly guest that renders it.
use vstd::prelude::*;
use vstd::string::StrSliceExecFns;
use vstd::string::StringExecFns;
use vstd::utf8::{decode_utf8, valid_utf8};
use crate::capabilities::{cap_name, capability_name};
use crate::clock::{clock_text, format_clock, local_clock_reading, reading_in_range, ClockReading};
use crate::text::{
    decimal, decimal_string, law_padding_fills_column, left_aligned, left_field_reads_as,
    lemma_decimal_reads_back, lemma_left_field_reads_back, lemma_right_field_reads_back,
    lemma_signed_decimal_reads_back, push_decimal, push_left_aligned, push_right_aligned,
    push_signed_decimal, reads_as_integer, right_aligned, right_field_reads_as, signed_decimal,
    signed_decimal_string,
};
use crate::utf8_text::str_from_utf8;

verus! {

/// Bytes in the command-name field of an event.
pub const COMM_LEN: usize = 16;

/// Bytes of one event as the probe writes it.
pub const EVENT_SIZE: usize = 40;

/// One capability check seen by the probe.
pub struct Event {
    pub tgid: u32,
    pub pid: i32,
    pub uid: u32,
    pub cap: i32,
    pub audit: i32,
    pub insetid: i32,
    pub comm: [u8; 16],
}

/// Why a buffer could not be read as an event.
#[derive(Debug, Clone, Copy, PartialEq, Eq, Structural)]
pub enum DecodeError {
    /// Fewer bytes than one event holds.
    TooShort,
}

/// Why an event could not be rendered.
#[derive(Debug, Clone, Copy, PartialEq, Eq, Structural)]
pub enum RenderError {
    /// Fewer bytes than one event holds.
    TooShort,
    /// The command name is not well-formed UTF-8.
    InvalidComm,
}

/// The unsigned 32-bit little-endian value stored at `at`.
pub open spec fn le_u32(s: Seq<u8>, at: int) -> int {
    s[at] + 256 * s[at + 1] + 65536 * s[at + 2] + 16777216 * s[at + 3]
}

/// The two's-complement reading of a 32-bit pattern.
pub open spec fn as_i32(u: int) -> int {
    if u >= 0x8000_0000 {
        u - 0x1_0000_0000
    } else {
        u
    }
}

/// `e` is the event whose bytes open `data`.
pub open spec fn decodes_to(data: Seq<u8>, e: Event) -> bool {
    &&& e.tgid == le_u32(data, 0)
    &&& e.pid == as_i32(le_u32(data, 4))
    &&& e.uid == le_u32(data, 8)
    &&& e.cap == as_i32(le_u32(data, 12))
    &&& e.audit == as_i32(le_u32(data, 16))
    &&& e.insetid == as_i32(le_u32(data, 20))
    &&& e.comm@ == data.subrange(24, 40)
}

/// `s` without the NUL characters at its end.
pub open spec fn trim_trailing_nul(s: Seq<char>) -> Seq<char>
    decreases s.len(),
{
    if s.len() > 0 && s.last() == '\0' {
        trim_trailing_nul(s.drop_last())
    } else {
        s
    }
}

/// Law: a printed command name never ends in NUL padding, and is what the
/// field holds up to that padding.
pub proof fn law_comm_has_no_padding(s: Seq<char>)
    ensures
        trim_trailing_nul(s).len() <= s.len(),
        trim_trailing_nul(s).len() > 0 ==> trim_trailing_nul(s).last() != '\0',
        trim_trailing_nul(s) == s.subrange(0, trim_trailing_nul(s).len() as int),
    decreases s.len(),
{
    if s.len() > 0 && s.last() == '\0' {
        law_comm_has_no_padding(s.drop_last());
        assert(s.drop_last().subrange(0, trim_trailing_nul(s).len() as int) =~= s.subrange(
            0,
            trim_trailing_nul(s).len() as int,
        ));
    } else {
        assert(s.subrange(0, s.len() as int) =~= s);
    }
}

/// Law: decoding reads the event's own bytes only; what follows them in the
/// buffer makes no difference.
pub proof fn law_decode_reads_only_the_event(data: Seq<u8>, e: Event)
    requires
        data.len() >= EVENT_SIZE,
    ensures
        decodes_to(data, e) <==> decodes_to(data.subrange(0, EVENT_SIZE as int), e),
{
    let head = data.subrange(0, EVENT_SIZE as int);
    assert(head.subrange(24, 40) =~= data.subrange(24, 40));
}

/// Law: when every value fits its column (the clock reading in 9
/// characters, uid, tgid and pid in 6, the command in 16, cap in 4, its name
/// in 20 and audit in 6), each column of a trace line starts where its
/// heading does: the line without its last value is as long as the banner
/// without its last heading.
pub proof fn law_columns_line_up(extra: bool, now: Seq<char>, e: Event, comm: Seq<char>)
    requires
        now.len() <= 9,
        decimal(e.uid as nat).len() <= 6,
        decimal(e.tgid as nat).len() <= 6,
        signed_decimal(e.pid as int).len() <= 6,
        comm.len() <= 16,
        signed_decimal(e.cap as int).len() <= 4,
        capability_name(e.cap as int).len() <= 20,
        signed_decimal(e.audit as int).len() <= 6,
    ensures
        !extra ==> event_line(extra, now, e, comm).len() == banner_line(extra).len(),
        extra ==> event_line(extra, now, e, comm).len() - signed_decimal(e.insetid as int).len()
            == banner_line(extra).len() - "INSETID"@.len(),
{
    reveal_strlit("TIME");
    reveal_strlit("UID");
    reveal_strlit("PID");
    reveal_strlit("TID");
    reveal_strlit("COMM");
    reveal_strlit("CAP");
    reveal_strlit("NAME");
    reveal_strlit("AUDIT");
    reveal_strlit("INSETID");
}

/// The command name as printed: the field read as UTF-8 with its trailing
/// NULs removed; `None` when the field is not UTF-8.
pub open spec fn comm_text(comm: Seq<u8>) -> Option<Seq<char>> {
    if valid_utf8(comm) {
        Some(trim_trailing_nul(decode_utf8(comm)))
    } else {
        None
    }
}

/// The columns every trace line opens with: time `{:9}`, uid `{:6}`, tgid `{:<6}`.
pub open spec fn event_head(now: Seq<char>, e: Event) -> Seq<char> {
    let sp = seq![' '];
    left_aligned(now, 9) + sp + right_aligned(decimal(e.uid as nat), 6) + sp + left_aligned(
        decimal(e.tgid as nat),
        6,
    ) + sp
}

/// The columns every trace line closes with: comm `{:<16}`, cap `{:<4}`, its
/// name `{:<20}`, audit `{:<6}`.
pub open spec fn event_tail(comm: Seq<char>, e: Event) -> Seq<char> {
    let sp = seq![' '];
    left_aligned(comm, 16) + sp + left_aligned(signed_decimal(e.cap as int), 4) + sp
        + left_aligned(capability_name(e.cap as int), 20) + sp + left_aligned(
        signed_decimal(e.audit as int),
        6,
    )
}

/// The trace line for `e` at clock reading `now`, with command name `comm`:
/// `{:9} {:6} {:<6} {:<6} {:<16} {:<4} {:<20} {:<6} {}` over time, uid, tgid,
/// pid, comm, cap, its name, audit and insetid when `extra` is set, and
/// `{:9} {:6} {:<6} {:<16} {:<4} {:<20} {:<6}` over time, uid, tgid, comm,
/// cap, its name and audit otherwise.
pub open spec fn event_line(extra: bool, now: Seq<char>, e: Event, comm: Seq<char>) -> Seq<char> {
    if extra {
        event_head(now, e) + left_aligned(signed_decimal(e.pid as int), 6) + seq![' ']
            + event_tail(comm, e) + seq![' '] + signed_decimal(e.insetid as int)
    } else {
        event_head(now, e) + event_tail(comm, e)
    }
}

/// Where the columns that follow the pid column start in a trace line: the
/// command column, at 24 without the pid column and at 31 with it.
pub open spec fn comm_column(extra: bool) -> int {
    if extra {
        31
    } else {
        24
    }
}

/// Law: every number of a trace line reads back from its own column, and
/// the name column names the capability read back: the uid from the six
/// characters after the time and its blank, the tgid from the six after the
/// next blank, with `extra` the pid from the six after that, and the
/// capability number from the four after the command; the capability's name
/// starts the column after it. (A value wider than its column pushes the
/// columns after it along, so the law speaks of values that fit.)
pub proof fn law_numbers_read_back_from_their_columns(
    extra: bool,
    now: Seq<char>,
    e: Event,
    comm: Seq<char>,
)
    requires
        now.len() <= 9,
        decimal(e.uid as nat).len() <= 6,
        decimal(e.tgid as nat).len() <= 6,
        signed_decimal(e.pid as int).len() <= 6,
        comm.len() <= 16,
        signed_decimal(e.cap as int).len() <= 4,
    ensures
        right_field_reads_as(event_line(extra, now, e, comm).subrange(10, 16), e.uid as int),
        left_field_reads_as(event_line(extra, now, e, comm).subrange(17, 23), e.tgid as int),
        extra ==> left_field_reads_as(
            event_line(extra, now, e, comm).subrange(24, 30),
            e.pid as int,
        ),
        left_field_reads_as(
            event_line(extra, now, e, comm).subrange(comm_column(extra) + 17, comm_column(extra) + 21),
            e.cap as int,
        ),
        event_line(extra, now, e, comm).subrange(
            comm_column(extra) + 22,
            comm_column(extra) + 22 + capability_name(e.cap as int).len(),
        ) == capability_name(e.cap as int),
        event_line(extra, now, e, comm).subrange(0, now.len() as int) == now,
        event_line(extra, now, e, comm).subrange(
            comm_column(extra),
            comm_column(extra) + comm.len(),
        ) == comm,
        capability_name(e.cap as int).len() <= 20 && signed_decimal(e.audit as int).len() <= 6
            ==> left_field_reads_as(
            event_line(extra, now, e, comm).subrange(
                comm_column(extra) + 43,
                comm_column(extra) + 49,
            ),
            e.audit as int,
        ),
        extra && capability_name(e.cap as int).len() <= 20 && signed_decimal(e.audit as int).len()
            <= 6 ==> reads_as_integer(
            event_line(extra, now, e, comm).subrange(
                comm_column(extra) + 50,
                event_line(extra, now, e, comm).len() as int,
            ),
            e.insetid as int,
        ),
{
    let line = event_line(extra, now, e, comm);
    let uid = decimal(e.uid as nat);
    let tgid = decimal(e.tgid as nat);
    let pid = signed_decimal(e.pid as int);
    let cap = signed_decimal(e.cap as int);
    let name = capability_name(e.cap as int);
    law_padding_fills_column(now, 9);
    law_padding_fills_column(uid, 6);
    law_padding_fills_column(tgid, 6);
    law_padding_fills_column(pid, 6);
    law_padding_fills_column(comm, 16);
    law_padding_fills_column(cap, 4);
    law_padding_fills_column(name, 20);
    lemma_decimal_reads_back(e.uid as nat);
    lemma_decimal_reads_back(e.tgid as nat);
    lemma_signed_decimal_reads_back(e.pid as int);
    lemma_signed_decimal_reads_back(e.cap as int);
    lemma_right_field_reads_back(uid, 6, e.uid as int);
    lemma_left_field_reads_back(tgid, 6, e.tgid as int);
    lemma_left_field_reads_back(pid, 6, e.pid as int);
    lemma_left_field_reads_back(cap, 4, e.cap as int);
    let head = event_head(now, e);
    assert(head.len() == 24);
    assert(line.subrange(10, 16) =~= right_aligned(uid, 6));
    assert(line.subrange(17, 23) =~= left_aligned(tgid, 6));
    let tail = event_tail(comm, e);
    let t = comm_column(extra);
    if extra {
        let mid = head + left_aligned(pid, 6) + seq![' '];
        assert(line.subrange(24, 30) =~= left_aligned(pid, 6));
        assert(line == mid + tail + seq![' '] + signed_decimal(e.insetid as int));
        assert(line.subrange(t, (t + tail.len()) as int) =~= tail);
    } else {
        assert(line.subrange(t, (t + tail.len()) as int) =~= tail);
    }
    assert(tail.subrange(17, 21) =~= left_aligned(cap, 4));
    assert(tail.subrange(22, (22 + name.len()) as int) =~= name);
    assert(line.subrange(t + 17, t + 21) =~= tail.subrange(17, 21));
    assert(line.subrange(t + 22, t + 22 + name.len()) =~= tail.subrange(22, (22 + name.len()) as int));
    assert(line.subrange(0, now.len() as int) =~= now);
    assert(tail.subrange(0, comm.len() as int) =~= comm);
    assert(line.subrange(t, t + comm.len()) =~= tail.subrange(0, comm.len() as int));
    let audit = signed_decimal(e.audit as int);
    if name.len() <= 20 && audit.len() <= 6 {
        lemma_signed_decimal_reads_back(e.audit as int);
        law_padding_fills_column(audit, 6);
        lemma_left_field_reads_back(audit, 6, e.audit as int);
        assert(tail.len() == 49);
        assert(tail.subrange(43, 49) =~= left_aligned(audit, 6));
        assert(line.subrange(t + 43, t + 49) =~= tail.subrange(43, 49));
        if extra {
            let ins = signed_decimal(e.insetid as int);
            lemma_signed_decimal_reads_back(e.insetid as int);
            assert(line.subrange(t + 50, line.len() as int) =~= ins);
        }
    }
}

/// The header printed above the trace, with the same column widths.
pub open spec fn banner_line(extra: bool) -> Seq<char> {
    let sp = seq![' '];
    let head = left_aligned("TIME"@, 9) + sp + left_aligned("UID"@, 6) + sp + left_aligned(
        "PID"@,
        6,
    ) + sp;
    let tail = left_aligned("COMM"@, 16) + sp + left_aligned("CAP"@, 4) + sp + left_aligned(
        "NAME"@,
        20,
    ) + sp + left_aligned("AUDIT"@, 6);
    if extra {
        head + left_aligned("TID"@, 6) + sp + tail + sp + "INSETID"@
    } else {
        head + tail
    }
}

/// The warning for events the kernel dropped: `Lost {count} events on CPU {cpu}`.
pub open spec fn lost_events_line(cpu: int, count: nat) -> Seq<char> {
    "Lost "@ + decimal(count) + " events on CPU "@ + signed_decimal(cpu)
}

fn read_u32_le(data: &[u8], at: usize) -> (v: u32)
    requires
        at + 4 <= data@.len(),
    ensures
        v == le_u32(data@, at as int),
{
    let b0: u32 = data[at] as u32;
    let b1: u32 = data[at + 1] as u32;
    let b2: u32 = data[at + 2] as u32;
    let b3: u32 = data[at + 3] as u32;
    b0 + 256 * b1 + 65536 * b2 + 16777216 * b3
}

fn read_i32_le(data: &[u8], at: usize) -> (v: i32)
    requires
        at + 4 <= data@.len(),
    ensures
        v == as_i32(le_u32(data@, at as int)),
{
    let u: u32 = read_u32_le(data, at);
    if u >= 0x8000_0000 {
        let low: i32 = (u - 0x8000_0000) as i32;
        low - 0x7fff_ffff - 1
    } else {
        u as i32
    }
}

/// Reads the event at the start of `data`; the bytes after the first
/// `EVENT_SIZE` are ignored.
pub fn decode_event(data: &[u8]) -> (r: Result<Event, DecodeError>)
    ensures
        r is Err <==> data@.len() < EVENT_SIZE,
        r matches Ok(e) ==> decodes_to(data@, e),
{
    if data.len() < EVENT_SIZE {
        return Err(DecodeError::TooShort);
    }
    let mut comm: [u8; 16] = [0u8; 16];
    let mut i: usize = 0;
    while i < COMM_LEN
        invariant
            i <= COMM_LEN,
            data@.len() >= EVENT_SIZE,
            forall|j: int| 0 <= j < i ==> comm@[j] == data@[24 + j],
        decreases COMM_LEN - i,
    {
        comm[i] = data[24 + i];
        i = i + 1;
    }
    let e = Event {
        tgid: read_u32_le(data, 0),
        pid: read_i32_le(data, 4),
        uid: read_u32_le(data, 8),
        cap: read_i32_le(data, 12),
        audit: read_i32_le(data, 16),
        insetid: read_i32_le(data, 20),
        comm,
    };
    assert(e.comm@ =~= data@.subrange(24, 40));
    Ok(e)
}

/// The command name of an event as it is printed.
fn comm_str(comm: &[u8; 16]) -> (t: Option<&str>)
    ensures
        t is Some <==> comm_text(comm@) is Some,
        t matches Some(s) ==> s@ == comm_text(comm@)->0,
{
    match str_from_utf8(comm.as_slice()) {
        None => None,
        Some(s) => {
            let n: usize = s.unicode_len();
            let mut k: usize = n;
            assert(s@.subrange(0, n as int) =~= s@);
            while k > 0
                invariant
                    k <= n,
                    n == s@.len(),
                    trim_trailing_nul(s@) == trim_trailing_nul(s@.subrange(0, k as int)),
                ensures
                    k <= n,
                    trim_trailing_nul(s@) == trim_trailing_nul(s@.subrange(0, k as int)),
                    k == 0 || s@[k - 1] != '\0',
                decreases k,
            {
                if s.get_char(k - 1) != '\0' {
                    break;
                }
                assert(s@.subrange(0, k as int).drop_last() =~= s@.subrange(0, k - 1));
                k = k - 1;
            }
            assert(trim_trailing_nul(s@.subrange(0, k as int)) == s@.subrange(0, k as int));
            Some(s.substring_char(0, k))
        },
    }
}

/// Appends one space.
fn push_space(out: &mut String)
    ensures
        final(out)@ == old(out)@ + seq![' '],
{
    proof {
        reveal_strlit(" ");
    }
    out.append(" ");
}

/// The header printed above the trace.
pub fn banner(extra_fields: bool) -> (line: String)
    ensures
        line@ == banner_line(extra_fields),
{
    let mut out = String::new();
    push_left_aligned(&mut out, "TIME", 9);
    push_space(&mut out);
    push_left_aligned(&mut out, "UID", 6);
    push_space(&mut out);
    push_left_aligned(&mut out, "PID", 6);
    push_space(&mut out);
    let ghost head = out@;
    if extra_fields {
        push_left_aligned(&mut out, "TID", 6);
        push_space(&mut out);
    }
    let ghost mid = out@;
    push_left_aligned(&mut out, "COMM", 16);
    push_space(&mut out);
    push_left_aligned(&mut out, "CAP", 4);
    push_space(&mut out);
    push_left_aligned(&mut out, "NAME", 20);
    push_space(&mut out);
    push_left_aligned(&mut out, "AUDIT", 6);
    let ghost tail = out@.subrange(mid.len() as int, out@.len() as int);
    assert(out@ =~= mid + tail);
    if extra_fields {
        push_space(&mut out);
        out.append("INSETID");
    }
    assert(out@ =~= banner_line(extra_fields));
    out
}

/// The warning printed when the kernel dropped `count` events on `cpu`.
pub fn lost_events_message(cpu: i32, count: u64) -> (line: String)
    ensures
        line@ == lost_events_line(cpu as int, count as nat),
{
    let mut out = String::new();
    out.append("Lost ");
    push_decimal(&mut out, count);
    out.append(" events on CPU ");
    push_signed_decimal(&mut out, cpu as i64);
    assert(out@ =~= lost_events_line(cpu as int, count as nat));
    out
}

fn push_event_head(out: &mut String, now: &str, event: &Event)
    ensures
        final(out)@ == old(out)@ + event_head(now@, *event),
{
    let ghost start = out@;
    push_left_aligned(out, now, 9);
    push_space(out);
    let uid = decimal_string(event.uid as u64);
    push_right_aligned(out, uid.as_str(), 6);
    push_space(out);
    let tgid = decimal_string(event.tgid as u64);
    push_left_aligned(out, tgid.as_str(), 6);
    push_space(out);
    assert(out@ =~= start + event_head(now@, *event));
}

fn push_event_tail(out: &mut String, comm: &str, event: &Event)
    ensures
        final(out)@ == old(out)@ + event_tail(comm@, *event),
{
    let ghost start = out@;
    push_left_aligned(out, comm, 16);
    push_space(out);
    let cap = signed_decimal_string(event.cap);
    push_left_aligned(out, cap.as_str(), 4);
    push_space(out);
    push_left_aligned(out, cap_name(event.cap), 20);
    push_space(out);
    let audit = signed_decimal_string(event.audit);
    push_left_aligned(out, audit.as_str(), 6);
    assert(out@ =~= start + event_tail(comm@, *event));
}

/// The trace line for `event` at clock reading `now`; `None` when the command
/// name is not UTF-8.
pub fn format_event(extra_fields: bool, now: &str, event: &Event) -> (line: Option<String>)
    ensures
        line is Some <==> comm_text(event.comm@) is Some,
        line matches Some(l) ==> l@ == event_line(
            extra_fields,
            now@,
            *event,
            comm_text(event.comm@)->0,
        ),
{
    let comm = match comm_str(&event.comm) {
        None => {
            return None;
        },
        Some(c) => c,
    };
    let mut out = String::new();
    push_event_head(&mut out, now, event);
    let ghost head = out@;
    if extra_fields {
        let pid = signed_decimal_string(event.pid);
        push_left_aligned(&mut out, pid.as_str(), 6);
        push_space(&mut out);
    }
    let ghost mid = out@;
    push_event_tail(&mut out, comm, event);
    let ghost closed = out@;
    if extra_fields {
        push_space(&mut out);
        let insetid = signed_decimal_string(event.insetid);
        out.append(insetid.as_str());
        assert(out@ =~= event_line(extra_fields, now@, *event, comm@));
    } else {
        assert(out@ =~= event_line(extra_fields, now@, *event, comm@));
    }
    Some(out)
}

/// The trace line for `event`, stamped with the current local time; `None`
/// when the command name is not UTF-8.
pub fn handle_event(extra_fields: bool, event: &Event) -> (line: Option<String>)
    ensures
        line is Some <==> comm_text(event.comm@) is Some,
        line matches Some(l) ==> exists|now: ClockReading|
            reading_in_range(now) && l@ == event_line(
                extra_fields,
                clock_text(now),
                *event,
                comm_text(event.comm@)->0,
            ),
{
    let reading = local_clock_reading();
    let now = format_clock(reading);
    format_event(extra_fields, now.as_str(), event)
}

/// The trace line for the event at the start of `data`, stamped with the
/// current local time.
pub fn render_event(extra_fields: bool, data: &[u8]) -> (line: Result<String, RenderError>)
    ensures
        data@.len() < EVENT_SIZE ==> line == Err::<String, RenderError>(RenderError::TooShort),
        data@.len() >= EVENT_SIZE && !valid_utf8(data@.subrange(24, 40)) ==> line == Err::<
            String,
            RenderError,
        >(RenderError::InvalidComm),
        data@.len() >= EVENT_SIZE && valid_utf8(data@.subrange(24, 40)) ==> line is Ok,
        line matches Ok(l) ==> exists|now: ClockReading, e: Event|
            reading_in_range(now) && decodes_to(data@, e) && l@ == event_line(
                extra_fields,
                clock_text(now),
                e,
                trim_trailing_nul(decode_utf8(data@.subrange(24, 40))),
            ),
{
    let event = match decode_event(data) {
        Err(_) => {
            return Err(RenderError::TooShort);
        },
        Ok(e) => e,
    };
    match handle_event(extra_fields, &event) {
        None => Err(RenderError::InvalidComm),
        Some(l) => Ok(l),
    }
}

} // verus!
