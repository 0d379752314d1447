//! Signatures: a value's identifying fields written out as bytes and hashed,
//! so that two values can be compared for a change without comparing fields.

use crate::utilities::text::text_views;
use sha2::Digest;
use vstd::prelude::*;
use vstd::string::StringSliceAdditionalSpecFns;
use vstd::utf8::encode_utf8;

verus! {

/// The SHA-256 digest of `data`, as the `sha2` crate computes it.
pub uninterp spec fn sha256_digest(data: Seq<u8>) -> Seq<u8>;

/// The eight bytes of a 64-bit integer, most significant first, negative
/// numbers in two's complement.
pub open spec fn be_bytes_i64(value: i64) -> Seq<u8> {
    let u: int = if value < 0 {
        value + 0x1_0000_0000_0000_0000
    } else {
        value as int
    };
    seq![
        ((u / 0x100_0000_0000_0000) % 0x100) as u8,
        ((u / 0x1_0000_0000_0000) % 0x100) as u8,
        ((u / 0x100_0000_0000) % 0x100) as u8,
        ((u / 0x1_0000_0000) % 0x100) as u8,
        ((u / 0x100_0000) % 0x100) as u8,
        ((u / 0x1_0000) % 0x100) as u8,
        ((u / 0x100) % 0x100) as u8,
        (u % 0x100) as u8,
    ]
}

/// The four bytes of a 32-bit integer, most significant first, negative
/// numbers in two's complement.
pub open spec fn be_bytes_i32(value: i32) -> Seq<u8> {
    let u: int = if value < 0 {
        value + 0x1_0000_0000
    } else {
        value as int
    };
    seq![
        ((u / 0x100_0000) % 0x100) as u8,
        ((u / 0x1_0000) % 0x100) as u8,
        ((u / 0x100) % 0x100) as u8,
        (u % 0x100) as u8,
    ]
}

/// The bytes of a text: its UTF-8 encoding.
pub open spec fn text_bytes(text: Seq<char>) -> Seq<u8> {
    encode_utf8(text)
}

/// The bytes of several texts, one after the other.
pub open spec fn texts_bytes(texts: Seq<Seq<char>>) -> Seq<u8>
    decreases texts.len(),
{
    if texts.len() == 0 {
        Seq::empty()
    } else {
        texts_bytes(texts.drop_last()) + text_bytes(texts.last())
    }
}

/// Hashes `data` with `sha2::Sha256::digest`. The contract names the digest.
#[verifier::external_body]
fn sha256(data: &Vec<u8>) -> (digest: Vec<u8>)
    ensures
        digest@ == sha256_digest(data@),
{
    sha2::Sha256::digest(data).to_vec()
}

pub trait TypeSignature {
    /// The fields that identify the value, written out as bytes.
    spec fn raw_signature(&self) -> Seq<u8>;

    /// The digest of the identifying fields.
    fn signature(&self) -> (signature: Vec<u8>)
        ensures
            signature@ == sha256_digest(self.raw_signature()),
    ;

    /// The digest of a raw signature.
    fn as_hashed(raw_sig: Vec<u8>) -> (hashed: Vec<u8>)
        ensures
            hashed@ == sha256_digest(raw_sig@),
    {
        sha256(&raw_sig)
    }
}

/// The digest of a raw signature.
pub fn hashed(raw_sig: &Vec<u8>) -> (digest: Vec<u8>)
    ensures
        digest@ == sha256_digest(raw_sig@),
{
    sha256(raw_sig)
}

/// Appends the eight bytes of `value`, most significant first.
pub fn append_i64(out: &mut Vec<u8>, value: i64)
    ensures
        final(out)@ == old(out)@ + be_bytes_i64(value),
{
    let u: u64 = if value < 0 {
        ((value + 1 + 0x7fff_ffff_ffff_ffff) as u64) + 0x8000_0000_0000_0000
    } else {
        value as u64
    };
    out.push(((u / 0x100_0000_0000_0000) % 0x100) as u8);
    out.push(((u / 0x1_0000_0000_0000) % 0x100) as u8);
    out.push(((u / 0x100_0000_0000) % 0x100) as u8);
    out.push(((u / 0x1_0000_0000) % 0x100) as u8);
    out.push(((u / 0x100_0000) % 0x100) as u8);
    out.push(((u / 0x1_0000) % 0x100) as u8);
    out.push(((u / 0x100) % 0x100) as u8);
    out.push((u % 0x100) as u8);
    assert(out@ =~= old(out)@ + be_bytes_i64(value));
}

/// Appends the four bytes of `value`, most significant first.
pub fn append_i32(out: &mut Vec<u8>, value: i32)
    ensures
        final(out)@ == old(out)@ + be_bytes_i32(value),
{
    let u: u32 = if value < 0 {
        ((value + 1 + 0x7fff_ffff) as u32) + 0x8000_0000
    } else {
        value as u32
    };
    out.push(((u / 0x100_0000) % 0x100) as u8);
    out.push(((u / 0x1_0000) % 0x100) as u8);
    out.push(((u / 0x100) % 0x100) as u8);
    out.push((u % 0x100) as u8);
    assert(out@ =~= old(out)@ + be_bytes_i32(value));
}

/// Appends the UTF-8 bytes of `text`.
pub fn append_text(out: &mut Vec<u8>, text: &str)
    ensures
        final(out)@ == old(out)@ + text_bytes(text@),
{
    let bytes = text.as_bytes();
    let mut i: usize = 0;
    while i < bytes.len()
        invariant
            i <= bytes.len(),
            bytes@ == text_bytes(text@),
            out@ == old(out)@ + bytes@.take(i as int),
        decreases bytes.len() - i,
    {
        out.push(bytes[i]);
        i += 1;
        assert(out@ =~= old(out)@ + bytes@.take(i as int));
    }
    assert(bytes@.take(bytes.len() as int) == bytes@);
}

/// Appends the UTF-8 bytes of each of `texts`, in order.
pub fn append_texts(out: &mut Vec<u8>, texts: &Vec<String>)
    ensures
        final(out)@ == old(out)@ + texts_bytes(text_views(texts@)),
{
    let ghost all = text_views(texts@);
    let mut i: usize = 0;
    assert(all.take(0) =~= Seq::<Seq<char>>::empty());
    while i < texts.len()
        invariant
            i <= texts.len(),
            all == text_views(texts@),
            out@ == old(out)@ + texts_bytes(all.take(i as int)),
        decreases texts.len() - i,
    {
        append_text(out, texts[i].as_str());
        i += 1;
        proof {
            assert(all.take(i as int).drop_last() == all.take(i - 1));
            assert(all.take(i as int).last() == texts@[i - 1]@);
            assert(out@ =~= old(out)@ + texts_bytes(all.take(i as int)));
        }
    }
    assert(all.take(texts.len() as int) == all);
}

} // verus!
