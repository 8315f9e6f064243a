//! Fixed-point sample values and native-format conversion.
//!
//! A sample is an `i32` whose value `q` stands for the normalized amplitude
//! `q / 32768`: [`UNIT`] is full scale `1`, `-UNIT` is `-1`, `0` is silence.

use vstd::prelude::*;

verus! {

/// The fixed-point scale: the sample value standing for a full-scale
/// normalized amplitude of one.
pub const UNIT: i32 = 32768;

/// An amplitude clamped to the nominal normalized range `[-UNIT, UNIT]`.
pub open spec fn clamp_spec(v: int) -> int {
    if v < -32768 {
        -32768
    } else if v > 32768 {
        32768
    } else {
        v
    }
}

/// Clamp a sample to the nominal normalized range.
pub fn clamp_sample(v: i32) -> (r: i32)
    ensures
        r as int == clamp_spec(v as int),
{
    if v < -UNIT {
        -UNIT
    } else if v > UNIT {
        UNIT
    } else {
        v
    }
}

/// Clamp a wide intermediate value to the nominal normalized range.
pub fn clamp_sample_wide(v: i64) -> (r: i32)
    ensures
        r as int == clamp_spec(v as int),
{
    if v < -32768i64 {
        -UNIT
    } else if v > 32768i64 {
        UNIT
    } else {
        v as i32
    }
}

/// What a normalized sample becomes in the signed 16-bit native format:
/// full scale `UNIT` maps to the largest representable positive value and
/// `-UNIT` to the smallest, with saturation outside the nominal range.
pub open spec fn to_i16_spec(v: int) -> int {
    if v <= -32768 {
        -32768
    } else if v >= 32767 {
        32767
    } else {
        v
    }
}

/// Convert a fixed-point sample to the signed 16-bit native format.
pub fn sample_to_i16(v: i32) -> (r: i16)
    ensures
        r as int == to_i16_spec(v as int),
{
    if v <= -32768 {
        -32768i16
    } else if v >= 32767 {
        32767i16
    } else {
        v as i16
    }
}

/// The unsigned 16-bit native format: the signed form shifted up so that
/// `-UNIT` maps to zero and `UNIT` to the largest representable value.
pub open spec fn to_u16_spec(v: int) -> int {
    to_i16_spec(v) + 32768
}

/// Convert a fixed-point sample to the unsigned 16-bit native format.
pub fn sample_to_u16(v: i32) -> (r: u16)
    ensures
        r as int == to_u16_spec(v as int),
{
    let s = sample_to_i16(v);
    (s as i32 + UNIT) as u16
}

/// Convert a whole mixed buffer to the signed 16-bit native format.
pub fn convert_to_i16(samples: &Vec<i32>) -> (out: Vec<i16>)
    ensures
        out@.len() == samples@.len(),
        forall|k: int|
            0 <= k < samples@.len() ==> #[trigger] (out@[k] as int) == to_i16_spec(
                samples@[k] as int,
            ),
{
    let mut out: Vec<i16> = Vec::new();
    let mut k: usize = 0;
    while k < samples.len()
        invariant
            k <= samples@.len(),
            out@.len() == k,
            forall|l: int|
                0 <= l < k ==> #[trigger] (out@[l] as int) == to_i16_spec(samples@[l] as int),
        decreases samples@.len() - k,
    {
        out.push(sample_to_i16(samples[k]));
        k = k + 1;
    }
    out
}

/// Convert a whole mixed buffer to the unsigned 16-bit native format.
pub fn convert_to_u16(samples: &Vec<i32>) -> (out: Vec<u16>)
    ensures
        out@.len() == samples@.len(),
        forall|k: int|
            0 <= k < samples@.len() ==> #[trigger] (out@[k] as int) == to_u16_spec(
                samples@[k] as int,
            ),
{
    let mut out: Vec<u16> = Vec::new();
    let mut k: usize = 0;
    while k < samples.len()
        invariant
            k <= samples@.len(),
            out@.len() == k,
            forall|l: int|
                0 <= l < k ==> #[trigger] (out@[l] as int) == to_u16_spec(samples@[l] as int),
        decreases samples@.len() - k,
    {
        out.push(sample_to_u16(samples[k]));
        k = k + 1;
    }
    out
}

/// Integer division truncated toward zero: the fixed-point analogue of the
/// exact quotient used when averaging resource contributions.
pub open spec fn div_trunc(a: int, b: int) -> int
    recommends
        b >= 1,
{
    if a >= 0 {
        a / b
    } else {
        -((-a) / b)
    }
}

/// Divide an accumulated sum of at most `n` nominal-range samples by the
/// positive count `n`, truncating toward zero.
pub fn div_sum(sum: i128, n: usize) -> (r: i32)
    requires
        n >= 1,
        -(n as int) * 32768 <= sum as int <= (n as int) * 32768,
    ensures
        r as int == div_trunc(sum as int, n as int),
        -32768 <= r as int <= 32768,
{
    proof {
        vstd::arithmetic::div_mod::lemma_div_multiples_vanish(32768, n as int);
    }
    if sum >= 0 {
        let q = (sum as u128) / (n as u128);
        proof {
            vstd::arithmetic::div_mod::lemma_div_is_ordered(
                sum as int,
                (n as int) * 32768,
                n as int,
            );
        }
        q as i32
    } else {
        let m = ((-sum) as u128) / (n as u128);
        proof {
            vstd::arithmetic::div_mod::lemma_div_is_ordered(
                -(sum as int),
                (n as int) * 32768,
                n as int,
            );
        }
        -(m as i32)
    }
}

/// Two raised to a small power.
pub open spec fn pow2(n: nat) -> int
    decreases n,
{
    if n == 0 {
        1
    } else {
        2 * pow2((n - 1) as nat)
    }
}

proof fn lemma_pow2_pos(n: nat)
    ensures
        pow2(n) >= 1,
    decreases n,
{
    if n > 0 {
        lemma_pow2_pos((n - 1) as nat);
    }
}

proof fn lemma_pow2_mono(i: nat, j: nat)
    requires
        i <= j,
    ensures
        pow2(i) <= pow2(j),
    decreases j,
{
    if i < j {
        lemma_pow2_mono(i, (j - 1) as nat);
        lemma_pow2_pos((j - 1) as nat);
    }
}

fn pow2_exec(n: u16) -> (r: i64)
    requires
        n <= 17,
    ensures
        r == pow2(n as nat),
        1 <= r <= 131072,
{
    proof {
        assert(pow2(17) == 131072) by {
            reveal_with_fuel(pow2, 18);
        }
    }
    let mut r: i64 = 1;
    let mut i: u16 = 0;
    while i < n
        invariant
            i <= n <= 17,
            r == pow2(i as nat),
            pow2(17) == 131072,
        decreases n - i,
    {
        proof {
            lemma_pow2_mono((i + 1) as nat, 17);
            lemma_pow2_pos(i as nat);
        }
        r = r * 2;
        i = i + 1;
    }
    proof {
        lemma_pow2_mono(n as nat, 17);
        lemma_pow2_pos(n as nat);
    }
    r
}

/// Truncating division of a possibly negative dividend by a positive divisor.
fn div_trunc_i64(a: i64, b: i64) -> (r: i64)
    requires
        b >= 1,
        a > i64::MIN,
    ensures
        r == div_trunc(a as int, b as int),
{
    if a >= 0 {
        proof {
            vstd::arithmetic::div_mod::lemma_div_is_ordered_by_denominator(a as int, 1, b as int);
            vstd::arithmetic::div_mod::lemma_div_basics(a as int);
        }
        ((a as u64) / (b as u64)) as i64
    } else {
        proof {
            vstd::arithmetic::div_mod::lemma_div_is_ordered_by_denominator(
                -(a as int),
                1,
                b as int,
            );
            vstd::arithmetic::div_mod::lemma_div_basics(-(a as int));
        }
        let m = ((-a) as u64) / (b as u64);
        -(m as i64)
    }
}

/// How a raw PCM integer sample from a `bits`-wide encoding becomes a
/// fixed-point amplitude: scaled by `2^15 / 2^bits` — truncated toward zero
/// where that is a division — then clamped to the nominal range.
pub open spec fn normalize_pcm_spec(pcm: int, bits: nat) -> int
    recommends
        1 <= bits <= 32,
{
    if bits >= 15 {
        clamp_spec(div_trunc(pcm, pow2((bits - 15) as nat)))
    } else {
        clamp_spec(pcm * pow2((15 - bits) as nat))
    }
}

/// Normalize a raw PCM integer sample from a `bits`-wide encoding.
pub fn normalize_pcm(pcm: i32, bits: u16) -> (r: i32)
    requires
        1 <= bits <= 32,
    ensures
        r as int == normalize_pcm_spec(pcm as int, bits as nat),
        -32768 <= r as int <= 32768,
{
    if bits >= 15 {
        let d = pow2_exec(bits - 15);
        let q = div_trunc_i64(pcm as i64, d);
        clamp_sample_wide(q)
    } else {
        let m = pow2_exec(15 - bits);
        proof {
            assert((-0x8000_0000) * 131072 <= (pcm as int) * (m as int) <= 0x8000_0000 * 131072)
                by (nonlinear_arith)
                requires
                    -0x8000_0000 <= pcm as int <= 0x7fff_ffff,
                    1 <= m as int <= 131072,
            ;
        }
        clamp_sample_wide((pcm as i64) * m)
    }
}

/// The accumulation capability of a working-buffer slot: adding one source's
/// contribution on top of what earlier sources left there.
pub trait AdditiveSample: Sized {
    /// The contribution type written into the slot.
    type Sample;

    /// Whether `sample` can be accumulated onto this slot value.
    spec fn can_write(self, sample: Self::Sample) -> bool;

    /// The slot value after accumulating `sample`.
    spec fn write_spec(self, sample: Self::Sample) -> Self;

    /// Accumulate `sample` onto this slot value.
    fn write(&mut self, sample: Self::Sample)
        requires
            old(self).can_write(sample),
        ensures
            *final(self) == old(self).write_spec(sample),
    ;
}

impl AdditiveSample for i32 {
    type Sample = i32;

    open spec fn can_write(self, sample: i32) -> bool {
        i32::MIN <= self + sample <= i32::MAX
    }

    open spec fn write_spec(self, sample: i32) -> i32 {
        (self + sample) as i32
    }

    fn write(&mut self, sample: i32) {
        *self = *self + sample;
    }
}

} // verus!
