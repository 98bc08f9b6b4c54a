//! Fingerprints: the MD5 digest of a byte stream, as lowercase hexadecimal.
//!
//! The digest itself is computed by the `crypto` crate. Its state is carried
//! through verified code as an opaque value; what is known of it is the
//! sequence of bytes it has absorbed.

use crypto::digest::Digest;
use crypto::md5::Md5;
use vstd::prelude::*;
use vstd::slice::slice_subrange;

verus! {

/// The largest number of bytes handed to the digest in one piece.
pub const CHUNK_SIZE: usize = 4024;

/// The digest state of the `crypto` crate. Nothing inside it is visible here.
#[verifier::external_type_specification]
#[verifier::external_body]
pub struct ExMd5(crypto::md5::Md5);

/// The bytes that a digest state has been fed since it was made.
pub uninterp spec fn md5_absorbed(state: Md5) -> Seq<u8>;

/// Whether a digest state has been finalised and takes no more input.
pub uninterp spec fn md5_finished(state: Md5) -> bool;

/// The MD5 digest of a message, written as hexadecimal text.
pub uninterp spec fn md5_hex(message: Seq<u8>) -> Seq<char>;

/// One of the sixteen characters `0`-`9`, `a`-`f`.
pub open spec fn is_lower_hex(c: char) -> bool {
    ('0' <= c && c <= '9') || ('a' <= c && c <= 'f')
}

/// The fixed format of a fingerprint: 32 lowercase hexadecimal characters.
pub open spec fn is_fingerprint(text: Seq<char>) -> bool {
    &&& text.len() == 32
    &&& forall|i: int| 0 <= i < text.len() ==> is_lower_hex(#[trigger] text[i])
}

/// `Md5::new`: a fresh digest state, open for input, which has absorbed
/// nothing.
#[verifier::external_body]
fn md5_new() -> (state: Md5)
    ensures
        md5_absorbed(state) == Seq::<u8>::empty(),
        !md5_finished(state),
{
    Md5::new()
}

/// `Digest::input` on `Md5`: the state absorbs `data` after what it held and
/// stays open. The outside code panics on a finalised state, and counts the
/// bytes in a `u64`.
#[verifier::external_body]
fn md5_input(state: &mut Md5, data: &[u8])
    requires
        !md5_finished(*old(state)),
        md5_absorbed(*old(state)).len() + data@.len() <= u64::MAX,
    ensures
        md5_absorbed(*final(state)) == md5_absorbed(*old(state)) + data@,
        !md5_finished(*final(state)),
{
    state.input(data)
}

/// `Digest::result_str` on `Md5`: the digest of all that the state absorbed,
/// as the hexadecimal text of its 16 bytes. The state is taken by value, so
/// what is finalised is the callee's own.
#[verifier::external_body]
fn md5_result_str(state: Md5) -> (hex: String)
    ensures
        hex@ == md5_hex(md5_absorbed(state)),
        is_fingerprint(hex@),
{
    let mut state = state;
    state.result_str()
}

/// A running digest over the bytes fed to it so far.
pub struct Fingerprinter {
    state: Md5,
    length: u64,
}

impl View for Fingerprinter {
    type V = Seq<u8>;

    /// The bytes absorbed so far, in order.
    closed spec fn view(&self) -> Seq<u8> {
        md5_absorbed(self.state)
    }
}

impl Fingerprinter {
    #[verifier::type_invariant]
    spec fn well_formed(&self) -> bool {
        &&& !md5_finished(self.state)
        &&& self.length == md5_absorbed(self.state).len()
    }

    /// A fingerprinter that has absorbed nothing.
    pub fn new() -> (fresh: Fingerprinter)
        ensures
            fresh@ == Seq::<u8>::empty(),
    {
        Fingerprinter { state: md5_new(), length: 0 }
    }

    /// Absorbs `chunk` after what was absorbed before. A stream longer than
    /// `u64::MAX` bytes is beyond what the digest counts: the chunk that would
    /// cross that length is refused and nothing changes.
    pub fn update(&mut self, chunk: &[u8]) -> (accepted: bool)
        ensures
            accepted == (old(self)@.len() + chunk@.len() <= u64::MAX),
            final(self)@ == if accepted {
                old(self)@ + chunk@
            } else {
                old(self)@
            },
    {
        proof {
            use_type_invariant(&*self);
        }
        let more: u64 = chunk.len() as u64;
        if more <= u64::MAX - self.length {
            let mut state = self.state;
            md5_input(&mut state, chunk);
            *self = Fingerprinter { state, length: self.length + more };
            true
        } else {
            false
        }
    }

    /// The fingerprint of everything absorbed.
    pub fn finish(self) -> (hex: String)
        ensures
            hex@ == md5_hex(self@),
            is_fingerprint(hex@),
    {
        md5_result_str(self.state)
    }
}

/// The fingerprint of `data`, fed to the digest in pieces of at most
/// `CHUNK_SIZE` bytes.
pub fn read_md5(data: &[u8]) -> (hex: String)
    ensures
        hex@ == md5_hex(data@),
        is_fingerprint(hex@),
{
    let mut fingerprinter = Fingerprinter::new();
    let mut start: usize = 0;
    while start < data.len()
        invariant
            start <= data.len(),
            fingerprinter@ == data@.subrange(0, start as int),
        decreases data.len() - start,
    {
        let end: usize = if data.len() - start > CHUNK_SIZE {
            start + CHUNK_SIZE
        } else {
            data.len()
        };
        let accepted = fingerprinter.update(slice_subrange(data, start, end));
        assert(accepted);
        assert(data@.subrange(0, start as int) + data@.subrange(start as int, end as int)
            == data@.subrange(0, end as int));
        start = end;
    }
    assert(data@.subrange(0, start as int) == data@);
    fingerprinter.finish()
}

} // verus!
