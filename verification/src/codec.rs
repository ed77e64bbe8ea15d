//! Serialization of 16-bit signed samples into little-endian byte pairs.

use vstd::prelude::*;

verus! {

/// The two's-complement value of a sample as an unsigned 16-bit quantity.
pub open spec fn sample_bits(s: i16) -> u32 {
    if s >= 0 {
        s as u32
    } else {
        (s + 0x10000) as u32
    }
}

/// The low byte of a sample's little-endian representation.
pub open spec fn lo_byte(s: i16) -> u8 {
    (sample_bits(s) % 256) as u8
}

/// The high byte of a sample's little-endian representation.
pub open spec fn hi_byte(s: i16) -> u8 {
    (sample_bits(s) / 256) as u8
}

/// The little-endian byte stream of a sample sequence: two bytes per sample,
/// low byte first.
pub open spec fn le_bytes(samples: Seq<i16>) -> Seq<u8> {
    Seq::new(
        2 * samples.len(),
        |k: int|
            if k % 2 == 0 {
                lo_byte(samples[k / 2])
            } else {
                hi_byte(samples[k / 2])
            },
    )
}

/// Serializing a concatenation concatenates the serializations: the byte
/// stream of a boundary-spanning fill is the tail of one track followed by
/// the head of the next.
pub proof fn lemma_le_bytes_concat(a: Seq<i16>, b: Seq<i16>)
    ensures
        le_bytes(a + b) == le_bytes(a) + le_bytes(b),
{
    assert forall|k: int| 0 <= k < 2 * (a + b).len() implies (le_bytes(a + b))[k] == (le_bytes(a)
        + le_bytes(b))[k] by {
        if k < 2 * a.len() {
            assert((a + b)[k / 2] == a[k / 2]);
        } else {
            let m = a.len() as int;
            vstd::arithmetic::div_mod::lemma_fundamental_div_mod(k, 2);
            vstd::arithmetic::div_mod::lemma_fundamental_div_mod_converse_mod(
                k - 2 * m,
                2,
                k / 2 - m,
                k % 2,
            );
            vstd::arithmetic::div_mod::lemma_fundamental_div_mod_converse_div(
                k - 2 * m,
                2,
                k / 2 - m,
                k % 2,
            );
            assert((a + b)[k / 2] == b[k / 2 - m]);
        }
    }
    assert(le_bytes(a + b) =~= le_bytes(a) + le_bytes(b));
}

/// Silence serializes to silence: zero samples become zero bytes.
pub proof fn lemma_le_bytes_zeros(n: nat)
    ensures
        le_bytes(Seq::new(n, |i: int| 0i16)) == Seq::new(2 * n, |k: int| 0u8),
{
    assert(le_bytes(Seq::new(n, |i: int| 0i16)) =~= Seq::new(2 * n, |k: int| 0u8));
}

/// The little-endian byte pair of one sample.
pub fn sample_to_le(s: i16) -> (r: (u8, u8))
    ensures
        r.0 == lo_byte(s),
        r.1 == hi_byte(s),
{
    let v: u32 = if s >= 0 {
        s as u32
    } else {
        (s as i32 + 0x10000) as u32
    };
    ((v % 256) as u8, (v / 256) as u8)
}

/// Write the little-endian bytes of `samples` into `out` starting at the byte
/// position of sample `sample_offset`; bytes outside that window keep their
/// old values.
pub fn write_le_bytes(samples: &Vec<i16>, out: &mut Vec<u8>, sample_offset: usize)
    requires
        2 * sample_offset + 2 * samples@.len() <= old(out)@.len(),
    ensures
        final(out)@.len() == old(out)@.len(),
        final(out)@ == old(out)@.take(2 * sample_offset as int) + le_bytes(samples@) + old(
            out,
        )@.skip(2 * sample_offset as int + 2 * samples@.len() as int),
{
    let out_len: usize = out.len();
    let base: usize = 2 * sample_offset;
    let n = samples.len();
    let mut j: usize = 0;
    while j < n
        invariant
            n == samples@.len(),
            0 <= j <= n,
            base == 2 * sample_offset,
            base + 2 * n <= out_len,
            out_len == out@.len(),
            out@.len() == old(out)@.len(),
            forall|p: int| 0 <= p < base ==> out@[p] == old(out)@[p],
            forall|p: int| base + 2 * n <= p < out@.len() ==> out@[p] == old(out)@[p],
            forall|q: int| 0 <= q < 2 * j ==> out@[base + q] == le_bytes(samples@)[q],
        decreases n - j,
    {
        let (lo, hi) = sample_to_le(samples[j]);
        out.set(base + 2 * j, lo);
        out.set(base + 2 * j + 1, hi);
        proof {
            assert((2 * j as int) % 2 == 0 && (2 * j as int) / 2 == j as int) by (nonlinear_arith);
            assert((2 * j as int + 1) % 2 == 1 && (2 * j as int + 1) / 2 == j as int)
                by (nonlinear_arith);
        }
        j = j + 1;
    }
    proof {
        assert(out@ =~= old(out)@.take(2 * sample_offset as int) + le_bytes(samples@) + old(
            out,
        )@.skip(2 * sample_offset as int + 2 * samples@.len() as int));
    }
}

} // verus!
