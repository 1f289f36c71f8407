//! Digests of candidates: the canonical decimal encoding of an integer and the
//! MD5 digest of that encoding.

use vstd::prelude::*;

verus! {

/// The integer whose digest the demonstration search looks for.
pub const DEMO_TARGET_VALUE: u64 = 100_000_000;

/// The MD5 digest of a byte string.
pub uninterp spec fn md5_of(data: Seq<u8>) -> Seq<u8>;

/// The ASCII code of the decimal digit `d` (`d < 10`).
pub open spec fn digit_byte(d: nat) -> u8 {
    (48 + d) as u8
}

/// The canonical decimal representation of `n`: no sign, no leading zeros.
pub open spec fn decimal(n: nat) -> Seq<u8>
    decreases n,
{
    if n < 10 {
        seq![digit_byte(n)]
    } else {
        decimal(n / 10).push(digit_byte(n % 10))
    }
}

/// The digest of candidate `n`: MD5 over its decimal representation.
pub open spec fn digest_spec(n: nat) -> Seq<u8> {
    md5_of(decimal(n))
}

/// A 16-byte MD5 digest.
#[derive(Clone, Copy, Debug)]
pub struct Digest {
    pub bytes: [u8; 16],
}

impl View for Digest {
    type V = Seq<u8>;

    open spec fn view(&self) -> Seq<u8> {
        self.bytes@
    }
}

/// Relies on md5::compute: the MD5 digest of the given bytes, as the 16 bytes
/// of `md5::Digest`.
#[verifier::external_body]
fn md5_compute(data: &[u8]) -> (r: [u8; 16])
    ensures
        r@ == md5_of(data@),
{
    md5::compute(data).0
}

/// Appends the decimal representation of `n` to `out`.
fn push_decimal(n: u64, out: &mut Vec<u8>)
    ensures
        final(out)@ == old(out)@ + decimal(n as nat),
    decreases n,
{
    let ghost before = out@;
    if n >= 10 {
        push_decimal(n / 10, out);
    }
    let d: u64 = n % 10;
    out.push((48 + d) as u8);
    proof {
        if n >= 10 {
            assert(decimal(n as nat) == decimal((n / 10) as nat).push(digit_byte(d as nat)));
        } else {
            assert(decimal(n as nat) == seq![digit_byte(d as nat)]);
        }
        assert(out@ =~= before + decimal(n as nat));
    }
}

/// The canonical decimal representation of `n`, as ASCII bytes.
pub fn decimal_bytes(n: u64) -> (r: Vec<u8>)
    ensures
        r@ == decimal(n as nat),
{
    let mut out: Vec<u8> = Vec::new();
    push_decimal(n, &mut out);
    assert(out@ =~= decimal(n as nat));
    out
}

impl Digest {
    /// Whether two digests hold the same bytes.
    pub fn equals(&self, other: &Digest) -> (r: bool)
        ensures
            r == (self@ == other@),
    {
        let mut i: usize = 0;
        while i < 16
            invariant
                i <= 16,
                self@.len() == 16,
                other@.len() == 16,
                forall|j: int| 0 <= j < i ==> self@[j] == other@[j],
            decreases 16 - i,
        {
            if self.bytes[i] != other.bytes[i] {
                return false;
            }
            i = i + 1;
        }
        assert(self@ =~= other@);
        true
    }
}

/// The digest of candidate `n`: MD5 over its decimal representation.
pub fn digest(n: u64) -> (r: Digest)
    ensures
        r@ == digest_spec(n as nat),
{
    let text = decimal_bytes(n);
    Digest { bytes: md5_compute(text.as_slice()) }
}

/// The digest that the demonstration search looks for: that of
/// `DEMO_TARGET_VALUE`. Every call returns the same value.
pub fn target() -> (r: Digest)
    ensures
        r@ == digest_spec(DEMO_TARGET_VALUE as nat),
{
    digest(DEMO_TARGET_VALUE)
}

} // verus!
