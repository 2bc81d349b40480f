//! The output buffer of the sailfish engine.
use vstd::prelude::*;
use vstd::utf8::encode_utf8;

use crate::output::Output;

verus! {

/// `sailfish::runtime::Buffer`, sailfish's string buffer.
#[verifier::external_type_specification]
#[verifier::external_body]
pub struct ExSailfishBuffer(::sailfish::runtime::Buffer);

/// The characters that a sailfish `Buffer` holds.
pub uninterp spec fn buffer_text(buffer: ::sailfish::runtime::Buffer) -> Seq<char>;

/// `<sailfish::runtime::Buffer as Default>::default`, which is `Buffer::new()`:
/// an empty buffer.
#[verifier::external_body]
fn buffer_default() -> (buffer: ::sailfish::runtime::Buffer)
    ensures
        buffer_text(buffer) == Seq::<char>::empty(),
{
    ::sailfish::runtime::Buffer::default()
}

/// `sailfish::runtime::Buffer::clear`: sets the length to zero, so the buffer
/// holds no characters.
#[verifier::external_body]
fn buffer_clear(buffer: &mut ::sailfish::runtime::Buffer)
    ensures
        buffer_text(*final(buffer)) == Seq::<char>::empty(),
{
    buffer.clear()
}

/// `sailfish::runtime::Buffer::as_str`: the characters that the buffer holds.
#[verifier::external_body]
fn buffer_as_str(buffer: &::sailfish::runtime::Buffer) -> (s: &str)
    ensures
        s@ == buffer_text(*buffer),
{
    buffer.as_str()
}

/// A sailfish `Buffer` used as the output of a benchmark.
#[derive(Debug)]
pub struct BufferWrapper(pub ::sailfish::runtime::Buffer);

impl Default for BufferWrapper {
    fn default() -> (w: Self)
        ensures
            buffer_text(w.0) == Seq::<char>::empty(),
    {
        BufferWrapper(buffer_default())
    }
}

impl Output for BufferWrapper {
    /// The UTF-8 encoding of the characters in the buffer.
    open spec fn written(&self) -> Seq<u8> {
        encode_utf8(buffer_text(self.0))
    }

    fn clear(&mut self) {
        buffer_clear(&mut self.0);
    }

    fn as_bytes(&self) -> (bytes: &[u8]) {
        buffer_as_str(&self.0).as_bytes()
    }
}

} // verus!
