//! Buffers that a template engine renders into.
use vstd::prelude::*;
use vstd::utf8::encode_utf8;

verus! {

/// A buffer that receives rendered output and can be read back as bytes.
pub trait Output: Default + Sized {
    /// The bytes written to the buffer so far.
    spec fn written(&self) -> Seq<u8>;

    /// Empties the buffer.
    fn clear(&mut self)
        ensures
            final(self).written() == Seq::<u8>::empty(),
    ;

    /// The bytes written to the buffer so far.
    fn as_bytes(&self) -> (bytes: &[u8])
        ensures
            bytes@ == self.written(),
    ;
}

/// `String::clear` (std): the string becomes empty.
#[verifier::external_body]
fn string_clear(s: &mut String)
    ensures
        final(s)@ == Seq::<char>::empty(),
{
    s.clear()
}

impl Output for String {
    /// The UTF-8 encoding of the characters of the string.
    open spec fn written(&self) -> Seq<u8> {
        encode_utf8(self@)
    }

    fn clear(&mut self) {
        string_clear(self);
    }

    fn as_bytes(&self) -> (bytes: &[u8]) {
        self.as_str().as_bytes()
    }
}

impl Output for Vec<u8> {
    open spec fn written(&self) -> Seq<u8> {
        self@
    }

    fn clear(&mut self) {
        Vec::clear(self);
    }

    fn as_bytes(&self) -> (bytes: &[u8]) {
        self.as_slice()
    }
}

/// The UTF-8 encoding of a concatenation is the concatenation of the encodings.
pub proof fn lemma_encode_utf8_concat(a: Seq<char>, b: Seq<char>)
    ensures
        encode_utf8(a + b) == encode_utf8(a) + encode_utf8(b),
    decreases a.len(),
{
    if a.len() == 0 {
        assert(a + b == b);
    } else {
        assert((a + b).drop_first() == a.drop_first() + b);
        lemma_encode_utf8_concat(a.drop_first(), b);
    }
}

} // verus!
