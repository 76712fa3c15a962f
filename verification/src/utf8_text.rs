//! Decoding bytes as UTF-8 text, through the standard library.
use vstd::prelude::*;
use vstd::utf8::{
    decode_first_scalar, decode_utf8, length_of_first_scalar, pop_first_scalar, valid_utf8,
};

verus! {

/// `std::str::from_utf8`: the bytes as text when they are well-formed UTF-8.
/// Its documentation promises an error exactly when the slice is not UTF-8,
/// and otherwise the string slice that the bytes encode; the contract says
/// that over vstd's own definition of UTF-8.
#[verifier::external_body]
pub(crate) fn str_from_utf8(bytes: &[u8]) -> (text: Option<&str>)
    ensures
        text is Some <==> valid_utf8(bytes@),
        text matches Some(t) ==> t@ == decode_utf8(bytes@),
{
    std::str::from_utf8(bytes).ok()
}

/// Law: when a prefix of well-formed UTF-8 is itself well-formed, its text
/// is a prefix of the whole text.
pub proof fn law_prefix_text_is_text_prefix(bytes: Seq<u8>, k: int)
    requires
        0 <= k <= bytes.len(),
        valid_utf8(bytes),
        valid_utf8(bytes.subrange(0, k)),
    ensures
        decode_utf8(bytes.subrange(0, k)).len() <= decode_utf8(bytes).len(),
        decode_utf8(bytes.subrange(0, k)) == decode_utf8(bytes).subrange(
            0,
            decode_utf8(bytes.subrange(0, k)).len() as int,
        ),
    decreases bytes.len(),
{
    let short = bytes.subrange(0, k);
    if k == 0 {
        assert(decode_utf8(short) =~= Seq::<char>::empty());
    } else {
        assert(short[0] == bytes[0]);
        let n = length_of_first_scalar(short);
        assert(n <= k);
        if n >= 2 {
            assert(short[1] == bytes[1]);
        }
        if n >= 3 {
            assert(short[2] == bytes[2]);
        }
        if n >= 4 {
            assert(short[3] == bytes[3]);
        }
        assert(length_of_first_scalar(bytes) == n);
        assert(decode_first_scalar(bytes) == decode_first_scalar(short));
        let rest = pop_first_scalar(bytes);
        assert(pop_first_scalar(short) =~= rest.subrange(0, k - n));
        law_prefix_text_is_text_prefix(rest, k - n);
        assert(decode_utf8(short) =~= decode_utf8(bytes).subrange(
            0,
            decode_utf8(short).len() as int,
        ));
    }
}

} // verus!
