//! The checksum of an upload: SHA-256, written in hexadecimal digits.

use crate::text;
use sha2::Digest;
use vstd::prelude::*;

verus! {

/// The hasher of the `sha2` crate. Nothing is known of its inside but what
/// `absorbed` names.
#[verifier::external_type_specification]
#[verifier::external_body]
pub struct ExSha256(sha2::Sha256);

/// The bytes that a hasher was fed since it was made or last reset, in order.
pub uninterp spec fn absorbed(h: sha2::Sha256) -> Seq<u8>;

/// The SHA-256 digest of `data`, as `sha2::Sha256` computes it.
pub uninterp spec fn sha256(data: Seq<u8>) -> Seq<u8>;

/// How many bytes SHA-256 can digest: the length in bits is kept in 64 bits.
pub const DIGEST_LIMIT: u64 = 0x2000_0000_0000_0000;

/// Calls `sha2::Sha256::new`, by its trait `Digest`: a new hasher was fed nothing.
#[verifier::external_body]
fn new_hasher() -> (h: sha2::Sha256)
    ensures
        absorbed(h) == Seq::<u8>::empty(),
{
    sha2::Sha256::new()
}

/// Calls `sha2::Sha256::update`, by its trait `Digest`: the hasher was then fed `data`
/// too, after all that it was fed before.
#[verifier::external_body]
fn update_hasher(h: &mut sha2::Sha256, data: &[u8])
    requires
        absorbed(*old(h)).len() + data@.len() < DIGEST_LIMIT,
    ensures
        absorbed(*final(h)) == absorbed(*old(h)) + data@,
{
    h.update(data);
}

/// Calls `sha2::Sha256::finalize_reset`, by its trait `Digest`: it returns the digest,
/// 32 bytes, of all that the hasher was fed, and leaves the hasher as a new one.
/// The length in bits overflows on more bytes than `DIGEST_LIMIT` leaves in.
#[verifier::external_body]
fn finalize_reset_hasher(h: &mut sha2::Sha256) -> (digest: Vec<u8>)
    requires
        absorbed(*old(h)).len() < DIGEST_LIMIT,
    ensures
        digest@ == sha256(absorbed(*old(h))),
        digest@.len() == 32,
        absorbed(*final(h)) == Seq::<u8>::empty(),
{
    h.finalize_reset().to_vec()
}

/// The lower case hexadecimal digit that stands for `n`.
pub open spec fn hex_digit(n: nat) -> char {
    if n < 10 {
        text::digit_char(n)
    } else {
        ('a' as u32 + (n - 10)) as char
    }
}

/// The bytes of `data`, each as two hexadecimal digits, the higher one first.
pub open spec fn hex_text(data: Seq<u8>) -> Seq<char> {
    Seq::new(
        2 * data.len(),
        |i: int|
            hex_digit(
                if i % 2 == 0 {
                    data[i / 2] as nat / 16
                } else {
                    data[i / 2] as nat % 16
                },
            ),
    )
}

/// Calls `hex::encode`: it writes each byte as two lower case hexadecimal digits.
#[verifier::external_body]
fn hex_encode(data: &[u8]) -> (r: String)
    ensures
        r@ == hex_text(data@),
{
    hex::encode(data)
}

/// The text of a digest.
pub fn digest_text(digest: &[u8]) -> (r: String)
    ensures
        r@ == hex_text(digest@),
{
    hex_encode(digest)
}

/// The checksum of the bytes seen so far.
pub struct Checksum {
    hasher: sha2::Sha256,
    len: u64,
}

impl Checksum {
    /// The bytes seen so far.
    pub closed spec fn bytes(self) -> Seq<u8> {
        absorbed(self.hasher)
    }

    /// The number of bytes is kept right and is one that SHA-256 can digest.
    pub closed spec fn valid(self) -> bool {
        &&& self.len == absorbed(self.hasher).len()
        &&& self.len < DIGEST_LIMIT
    }

    /// Whether `n` more bytes can be digested.
    pub open spec fn has_room(self, n: nat) -> bool {
        self.bytes().len() + n < DIGEST_LIMIT
    }

    /// The checksum of nothing.
    pub fn new() -> (r: Checksum)
        ensures
            r.valid(),
            r.bytes() == Seq::<u8>::empty(),
    {
        Checksum { hasher: new_hasher(), len: 0 }
    }

    /// Whether `n` more bytes can be digested.
    pub fn can_take(&self, n: usize) -> (r: bool)
        requires
            self.valid(),
        ensures
            r == self.has_room(n as nat),
    {
        (n as u64) < DIGEST_LIMIT - self.len
    }

    /// Goes on with `data`.
    pub fn update(&mut self, data: &[u8])
        requires
            old(self).valid(),
            old(self).has_room(data@.len()),
        ensures
            final(self).valid(),
            final(self).bytes() == old(self).bytes() + data@,
    {
        update_hasher(&mut self.hasher, data);
        self.len = self.len + data.len() as u64;
    }

    /// The checksum of all the bytes seen, in hexadecimal digits. Starts over with
    /// nothing.
    pub fn finish(&mut self) -> (r: String)
        requires
            old(self).valid(),
        ensures
            r@ == hex_text(sha256(old(self).bytes())),
            r@.len() == 64,
            final(self).valid(),
            final(self).bytes() == Seq::<u8>::empty(),
    {
        let digest = finalize_reset_hasher(&mut self.hasher);
        self.len = 0;
        digest_text(digest.as_slice())
    }
}

/// Hexadecimal digits stand for what they stand for everywhere, bytes are written one after
/// the other, each as two digits, the higher one first.
pub proof fn bytes_are_written_one_by_one(n: nat, byte: u8, a: Seq<u8>, b: Seq<u8>)
    ensures
        n < 16 ==> hex_digit(n) == "0123456789abcdef"@[n as int],
        hex_text(seq![byte]) == seq![hex_digit(byte as nat / 16), hex_digit(byte as nat % 16)],
        hex_text(a + b) == hex_text(a) + hex_text(b),
        hex_text(Seq::<u8>::empty()) == Seq::<char>::empty(),
{
    reveal_strlit("0123456789abcdef");
    assert(hex_text(a + b) =~= hex_text(a) + hex_text(b)) by {
        assert forall|i: int| 0 <= i < 2 * (a + b).len() implies #[trigger] hex_text(a + b)[i] == (
        hex_text(a) + hex_text(b))[i] by {
            let m = 2 * a.len() as int;
            if i < m {
                assert((a + b)[i / 2] == a[i / 2]);
            } else {
                assert((i - m) / 2 == i / 2 - a.len());
                assert((i - m) % 2 == i % 2);
                assert((a + b)[i / 2] == b[i / 2 - a.len()]);
            }
        }
    }
}

} // verus!
