//! Reading and writing a guest's memory at the addresses the guest names,
//! and the records of the host steps that go through such addresses.
use vstd::prelude::*;
use vstd::utf8::{decode_utf8, valid_utf8};
use wasmtime::{Memory, Store};
use wasmtime_wasi::WasiCtx;
use crate::host_error::{GuestStep, HostError};
use crate::runtime::{memory_data, memory_read, memory_write, splice, store_keeps};
use crate::utf8_text::str_from_utf8;

verus! {

/// `bytes` holds `data` at the non-negative address `at`.
pub open spec fn final_bytes_hold(bytes: Seq<u8>, at: int, data: Seq<u8>) -> bool {
    0 <= at && at + data.len() <= bytes.len() && bytes.subrange(at, at + data.len()) == data
}

/// What storing `data` at `at` does to memory `before`, giving `after` and
/// result `r`.
pub open spec fn bytes_written(
    before: Seq<u8>,
    after: Seq<u8>,
    at: int,
    data: Seq<u8>,
    r: Result<(), HostError>,
) -> bool {
    if at < 0 {
        r matches Err(HostError::NegativeAddress) && after == before
    } else if at + data.len() > before.len() {
        r matches Err(HostError::OutOfBounds) && after == before
    } else {
        r is Ok && after == splice(before, at, data)
    }
}

/// What reading `len` bytes at `at` of memory `bytes` as text gives:
/// `NegativeAddress` when either is negative, `OutOfBounds` when the range
/// runs past the memory's end, `NotUtf8` when the bytes are not UTF-8, and
/// their text otherwise.
pub open spec fn text_read(bytes: Seq<u8>, at: int, len: int, r: Result<String, HostError>) -> bool {
    if at < 0 || len < 0 {
        r matches Err(HostError::NegativeAddress)
    } else if at + len > bytes.len() {
        r matches Err(HostError::OutOfBounds)
    } else if !valid_utf8(bytes.subrange(at, at + len)) {
        r matches Err(HostError::NotUtf8)
    } else {
        (r matches Ok(s) && s@ == decode_utf8(bytes.subrange(at, at + len)))
    }
}

/// Law: reading where bytes were just stored gives them back: after storing
/// `data` at `at` succeeded, reading as many bytes at `at` gives the text of
/// `data` when it is UTF-8, and `NotUtf8` when it is not.
pub proof fn law_read_gives_back_what_was_written(
    before: Seq<u8>,
    after: Seq<u8>,
    at: int,
    data: Seq<u8>,
    read: Result<String, HostError>,
)
    requires
        bytes_written(before, after, at, data, Ok(())),
        text_read(after, at, data.len() as int, read),
    ensures
        valid_utf8(data) ==> (read matches Ok(s) && s@ == decode_utf8(data)),
        !valid_utf8(data) ==> read matches Err(HostError::NotUtf8),
{
    assert(after.subrange(at, at + data.len()) =~= data);
}

/// The last step of `after` is `init_write` asked for `data`'s length, the
/// steps before it are `before`, and `r` is what storing `data` at the
/// address it gave does to the memory as it left it; a trap gives a runtime
/// error.
pub open spec fn wrote_through_init_write(
    before: Seq<GuestStep>,
    after: Seq<GuestStep>,
    data: Seq<u8>,
    bytes: Seq<u8>,
    r: Result<(), HostError>,
) -> bool {
    &&& after.len() == before.len() + 1
    &&& after.subrange(0, before.len() as int) == before
    &&& match after.last() {
        GuestStep::InitWrite { len, gave, memory } => {
            &&& len == data.len()
            &&& match gave {
                None => r matches Err(HostError::Runtime(_)),
                Some(a) => bytes_written(memory, bytes, a as int, data, r),
            }
        },
        _ => false,
    }
}

/// Stores `data` at address `at` of `mem`: `NegativeAddress` when `at` is
/// negative and `OutOfBounds` when `data` does not fit, both with nothing
/// written.
pub(crate) fn write_bytes_at(mem: &Memory, store: &mut Store<WasiCtx>, at: i32, data: &[u8]) -> (r:
    Result<(), HostError>)
    requires
        memory_data(*mem, *old(store)) is Some,
    ensures
        store_keeps(*old(store), *final(store)),
        memory_data(*mem, *final(store)) is Some,
        bytes_written(
            memory_data(*mem, *old(store))->0,
            memory_data(*mem, *final(store))->0,
            at as int,
            data@,
            r,
        ),
{
    if at < 0 {
        return Err(HostError::NegativeAddress);
    }
    let offset: usize = at as usize;
    match memory_write(mem, store, offset, data) {
        Ok(()) => Ok(()),
        Err(_) => Err(HostError::OutOfBounds),
    }
}

/// Reads `len` bytes at address `at` of `mem` as text (see [`text_read`]).
pub(crate) fn read_text_in(mem: &Memory, store: &Store<WasiCtx>, at: i32, len: i32) -> (r: Result<
    String,
    HostError,
>)
    requires
        memory_data(*mem, *store) is Some,
    ensures
        text_read(memory_data(*mem, *store)->0, at as int, len as int, r),
{
    if len < 0 || at < 0 {
        return Err(HostError::NegativeAddress);
    }
    let n: usize = len as usize;
    let offset: usize = at as usize;
    let mut read_buffer: Vec<u8> = vec![0u8; n];
    if memory_read(mem, store, offset, read_buffer.as_mut_slice()).is_err() {
        return Err(HostError::OutOfBounds);
    }
    match str_from_utf8(read_buffer.as_slice()) {
        None => Err(HostError::NotUtf8),
        Some(text) => {
            assert(read_buffer@ == memory_data(*mem, *store)->0.subrange(
                offset as int,
                offset + n,
            ));
            Ok(text.to_owned())
        },
    }
}

} // verus!
