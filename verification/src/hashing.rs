//! MD5 checksums, as the launcher writes them: 32 lower-case hex digits.
use vstd::prelude::*;

use crate::text::push_char;

verus! {

/// The MD5 digest of `data`.
pub uninterp spec fn md5_digest(data: Seq<u8>) -> Seq<u8>;

/// `Md5::digest` of the `md-5` crate.  Its result is named by `md5_digest`;
/// the crate's output size is 16 bytes, which is stated too.
#[verifier::external_body]
fn md5_bytes(data: &[u8]) -> (d: Vec<u8>)
    ensures
        d@ == md5_digest(data@),
        d@.len() == 16,
{
    <md5::Md5 as md5::Digest>::digest(data).to_vec()
}

/// The MD5 hasher of the `md-5` crate (`md5::Md5`).  Verus cannot take in
/// the crate's type, which is assembled from `typenum` sizes, so it is held
/// here opaquely; what it has been fed is named by `md5_fed`.
#[verifier::external_body]
pub struct Md5Hasher {
    inner: md5::Md5,
}

/// The bytes that an MD5 hasher has been fed so far.
pub uninterp spec fn md5_fed(h: Md5Hasher) -> Seq<u8>;

/// `Md5::new`: a hasher that has been fed nothing.
#[verifier::external_body]
fn md5_new() -> (h: Md5Hasher)
    ensures
        md5_fed(h) == Seq::<u8>::empty(),
{
    Md5Hasher { inner: <md5::Md5 as md5::Digest>::new() }
}

/// `Digest::update`: feeds `data` to the hasher, after what it was fed.
#[verifier::external_body]
fn md5_update(h: &mut Md5Hasher, data: &[u8])
    ensures
        md5_fed(*final(h)) == md5_fed(*old(h)) + data@,
{
    md5::Digest::update(&mut h.inner, data)
}

/// `Digest::finalize`: the MD5 digest (16 bytes) of all the bytes fed.
#[verifier::external_body]
fn md5_finalize(h: Md5Hasher) -> (d: Vec<u8>)
    ensures
        d@ == md5_digest(md5_fed(h)),
        d@.len() == 16,
{
    md5::Digest::finalize(h.inner).to_vec()
}

/// The MD5 checksum of a file that is read piece by piece.
pub struct FileChecksum {
    hasher: Md5Hasher,
}

impl FileChecksum {
    /// The bytes taken in so far.
    pub closed spec fn fed(&self) -> Seq<u8> {
        md5_fed(self.hasher)
    }

    /// A checksum of nothing yet.
    pub fn new() -> (c: Self)
        ensures
            c.fed() == Seq::<u8>::empty(),
    {
        FileChecksum { hasher: md5_new() }
    }

    /// Takes in the next piece of the file.
    pub fn update(&mut self, piece: &[u8])
        ensures
            final(self).fed() == old(self).fed() + piece@,
    {
        md5_update(&mut self.hasher, piece)
    }

    /// The checksum of everything taken in, in lower-case hex: the same as
    /// `md5_hex` of the whole file.
    pub fn finish(self) -> (s: String)
        ensures
            s@ == lower_hex_spec(md5_digest(self.fed())),
            s@.len() == 32,
    {
        let d = md5_finalize(self.hasher);
        lower_hex(d.as_slice())
    }
}

/// The lower-case hex digit of `d < 16`.
pub open spec fn hex_digit(d: int) -> char {
    if d < 10 {
        (('0' as int) + d) as char
    } else {
        (('a' as int) + d - 10) as char
    }
}

/// `bytes` in lower-case hex, two digits per byte (what `{:x}` prints for a
/// digest).
pub open spec fn lower_hex_spec(bytes: Seq<u8>) -> Seq<char>
    decreases bytes.len(),
{
    if bytes.len() == 0 {
        Seq::empty()
    } else {
        lower_hex_spec(bytes.drop_last()).push(hex_digit((bytes.last() / 16) as int)).push(
            hex_digit((bytes.last() % 16) as int),
        )
    }
}

proof fn lemma_lower_hex_len(bytes: Seq<u8>)
    ensures
        lower_hex_spec(bytes).len() == 2 * bytes.len(),
    decreases bytes.len(),
{
    if bytes.len() > 0 {
        lemma_lower_hex_len(bytes.drop_last());
    }
}

fn hex_digit_char(d: u8) -> (c: char)
    requires
        d < 16,
    ensures
        c == hex_digit(d as int),
{
    if d < 10 {
        (d + 48) as char
    } else {
        (d + 87) as char
    }
}

/// `bytes` in lower-case hex.
pub fn lower_hex(bytes: &[u8]) -> (s: String)
    ensures
        s@ == lower_hex_spec(bytes@),
        s@.len() == 2 * bytes@.len(),
{
    proof {
        lemma_lower_hex_len(bytes@);
    }
    let mut s = String::new();
    let mut i: usize = 0;
    while i < bytes.len()
        invariant
            i <= bytes@.len(),
            s@ == lower_hex_spec(bytes@.take(i as int)),
        decreases bytes@.len() - i,
    {
        let b = bytes[i];
        assert(bytes@.take(i + 1).drop_last() =~= bytes@.take(i as int));
        push_char(&mut s, hex_digit_char(b / 16));
        push_char(&mut s, hex_digit_char(b % 16));
        i += 1;
    }
    assert(bytes@.take(bytes@.len() as int) =~= bytes@);
    s
}

/// The MD5 checksum of `data` in lower-case hex.
pub fn md5_hex(data: &[u8]) -> (s: String)
    ensures
        s@ == lower_hex_spec(md5_digest(data@)),
        s@.len() == 32,
{
    let d = md5_bytes(data);
    lower_hex(d.as_slice())
}

} // verus!
