//! The greeting module: a WebAssembly guest that keeps an input buffer the
//! host writes a name into, and a text buffer the host reads a greeting from.
//!
//! The host sizes the input buffer (`init_write`), stores the name's bytes in
//! it, asks for the greeting (`greet`), then reads the text back
//! (`get_string`).
use vstd::prelude::*;
use vstd::string::StringExecFns;
use vstd::utf8::{decode_utf8, encode_utf8, valid_utf8};
use crate::utf8_text::str_from_utf8;

verus! {

/// What the module holds: the text the host reads, and the bytes it writes.
pub struct HelloState {
    pub text: Seq<char>,
    pub input: Seq<u8>,
}

/// The state the module starts in.
pub open spec fn initial_state() -> HelloState {
    HelloState { text: "Hello, world!"@, input: Seq::empty() }
}

/// The state after the input buffer is made `len` bytes long, all zero.
pub open spec fn after_init_write(s: HelloState, len: nat) -> HelloState {
    HelloState { input: Seq::new(len, |i: int| 0u8), ..s }
}

/// The state after the host stores `data` at `offset` of the input buffer;
/// a store that does not fit in the buffer changes nothing.
pub open spec fn after_store(s: HelloState, offset: int, data: Seq<u8>) -> HelloState {
    if 0 <= offset && offset + data.len() <= s.input.len() {
        HelloState {
            input: s.input.subrange(0, offset) + data + s.input.subrange(
                offset + data.len(),
                s.input.len() as int,
            ),
            ..s
        }
    } else {
        s
    }
}

/// The state after `greet`: the text becomes `hello name: ` followed by the
/// input read as UTF-8; input that is not UTF-8 changes nothing.
pub open spec fn after_greet(s: HelloState) -> HelloState {
    if valid_utf8(s.input) {
        HelloState { text: "hello name: "@ + decode_utf8(s.input), ..s }
    } else {
        s
    }
}

/// The bytes the host reads back: the text in UTF-8.
pub open spec fn text_bytes(s: HelloState) -> Seq<u8> {
    encode_utf8(s.text)
}

/// The greeting for the name whose bytes are `name`: `hello name: `
/// followed by the name read as UTF-8; `None` when it is not UTF-8.
pub fn greeting_for(name: &[u8]) -> (g: Option<String>)
    ensures
        g is Some <==> valid_utf8(name@),
        g matches Some(text) ==> text@ == "hello name: "@ + decode_utf8(name@),
{
    match str_from_utf8(name) {
        None => None,
        Some(text) => {
            let mut g = String::from_str("hello name: ");
            g.append(text);
            Some(g)
        },
    }
}

/// The greeting module's memory.
pub struct HelloModule {
    read_buf: String,
    write_buf: Vec<u8>,
}

impl View for HelloModule {
    type V = HelloState;

    closed spec fn view(&self) -> HelloState {
        HelloState { text: self.read_buf@, input: self.write_buf@ }
    }
}

impl HelloModule {
    /// The module as it is loaded: text `Hello, world!`, empty input.
    pub fn new() -> (m: HelloModule)
        ensures
            m@ == initial_state(),
    {
        HelloModule { read_buf: String::from_str("Hello, world!"), write_buf: Vec::new() }
    }

    /// Makes the input buffer `len` zero bytes long, ready for the host to
    /// fill.
    pub fn init_write(&mut self, len: usize)
        ensures
            final(self)@ == after_init_write(old(self)@, len as nat),
    {
        let mut buf: Vec<u8> = Vec::new();
        let mut i: usize = 0;
        while i < len
            invariant
                i <= len,
                buf@ == Seq::new(i as nat, |k: int| 0u8),
            decreases len - i,
        {
            buf.push(0u8);
            i = i + 1;
            assert(buf@ =~= Seq::new(i as nat, |k: int| 0u8));
        }
        self.write_buf = buf;
        assert(self@ =~= after_init_write(old(self)@, len as nat));
    }

    /// The host's store of `data` at `offset` of the input buffer; `false`,
    /// with nothing changed, when it does not fit.
    pub fn store_input(&mut self, offset: usize, data: &[u8]) -> (stored: bool)
        ensures
            stored == (offset + data@.len() <= old(self)@.input.len()),
            final(self)@ == after_store(old(self)@, offset as int, data@),
    {
        let n: usize = self.write_buf.len();
        if offset > n || data.len() > n - offset {
            return false;
        }
        let ghost before = self.write_buf@;
        let mut i: usize = 0;
        while i < data.len()
            invariant
                i <= data@.len(),
                offset + data@.len() <= n,
                self.write_buf@.len() == n,
                self.read_buf == old(self).read_buf,
                before == old(self).write_buf@,
                forall|k: int|
                    0 <= k < n ==> #[trigger] self.write_buf@[k] == if offset <= k < offset + i {
                        data@[k - offset]
                    } else {
                        before[k]
                    },
            decreases data@.len() - i,
        {
            self.write_buf.set(offset + i, data[i]);
            i = i + 1;
        }
        assert(self@.input =~= after_store(old(self)@, offset as int, data@).input);
        true
    }

    /// Replaces the text by `hello name: ` and the input read as UTF-8.
    /// `false`, with nothing changed, when the input is not UTF-8.
    pub fn greet(&mut self) -> (greeted: bool)
        ensures
            greeted == valid_utf8(old(self)@.input),
            final(self)@ == after_greet(old(self)@),
    {
        match greeting_for(self.write_buf.as_slice()) {
            None => false,
            Some(g) => {
                self.read_buf = g;
                true
            },
        }
    }

    /// The text's length in bytes, and its bytes.
    pub fn get_string(&self) -> (r: (usize, &[u8]))
        ensures
            r.0 == text_bytes(self@).len(),
            r.1@ == text_bytes(self@),
    {
        let bytes = self.read_buf.as_str().as_bytes();
        (bytes.len(), bytes)
    }
}

/// The UTF-8 encoding of two texts one after the other is the two encodings
/// one after the other.
pub proof fn lemma_encode_utf8_concat(a: Seq<char>, b: Seq<char>)
    ensures
        encode_utf8(a + b) == encode_utf8(a) + encode_utf8(b),
    decreases a.len(),
{
    if a.len() == 0 {
        assert(a + b =~= b);
        assert(encode_utf8(a) + encode_utf8(b) =~= encode_utf8(b));
    } else {
        assert((a + b).drop_first() =~= a.drop_first() + b);
        assert((a + b)[0] == a[0]);
        lemma_encode_utf8_concat(a.drop_first(), b);
        assert(encode_utf8(a + b) =~= encode_utf8(a) + encode_utf8(b));
    }
}

/// Law: when the host sizes the input buffer for a name, stores the name's
/// bytes and asks for the greeting, the bytes it reads back are those of
/// `hello name: ` followed by exactly the name's bytes.
pub proof fn law_greeting_echoes_name(start: HelloState, name: Seq<u8>)
    requires
        valid_utf8(name),
    ensures
        text_bytes(after_greet(after_store(after_init_write(start, name.len()), 0, name)))
            == encode_utf8("hello name: "@) + name,
{
    let sized = after_init_write(start, name.len());
    let stored = after_store(sized, 0, name);
    assert(stored.input =~= name);
    vstd::utf8::decode_utf8_encode_utf8(name);
    lemma_encode_utf8_concat("hello name: "@, decode_utf8(name));
}

/// Law: asking for the greeting twice gives the same text as asking once.
pub proof fn law_greet_idempotent(s: HelloState)
    ensures
        after_greet(after_greet(s)) == after_greet(s),
{
}

/// Law: a store that does not fit inside the input buffer leaves the module
/// as it was.
pub proof fn law_store_out_of_bounds(s: HelloState, offset: int, data: Seq<u8>)
    requires
        offset < 0 || offset + data.len() > s.input.len(),
    ensures
        after_store(s, offset, data) == s,
{
}

} // verus!
