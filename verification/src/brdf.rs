//! The integer part of the split-sum BRDF lookup table: its texel grid and the
//! Hammersley sample sequence (Van der Corput radical inverse in base 2).

use vstd::prelude::*;

verus! {

/// Bit `j` of `x`.
pub open spec fn bit(x: u32, j: u32) -> u32 {
    (x >> j) & 1
}

/// `r` holds the bits of `x` in reverse order.
pub open spec fn is_bit_reversal(r: u32, x: u32) -> bool {
    forall|j: u32| j < 32 ==> #[trigger] bit(r, j) == bit(x, (31 - j) as u32)
}

proof fn lemma_reversal(b0: u32, b1: u32, b2: u32, b3: u32, b4: u32, b5: u32)
    by (bit_vector)
    requires
        b1 == (b0 >> 16u32) | (b0 << 16u32),
        b2 == ((b1 & 0x5555_5555u32) << 1u32) | ((b1 & 0xAAAA_AAAAu32) >> 1u32),
        b3 == ((b2 & 0x3333_3333u32) << 2u32) | ((b2 & 0xCCCC_CCCCu32) >> 2u32),
        b4 == ((b3 & 0x0F0F_0F0Fu32) << 4u32) | ((b3 & 0xF0F0_F0F0u32) >> 4u32),
        b5 == ((b4 & 0x00FF_00FFu32) << 8u32) | ((b4 & 0xFF00_FF00u32) >> 8u32),
    ensures
        forall|j: u32| j < 32 ==> #[trigger] bit(b5, j) == bit(b0, (31 - j) as u32),
{
}

/// The Van der Corput radical inverse of `bits` in base 2 as a 0.32 fixed-point
/// fraction: the bits of `bits` mirrored around the binary point. (As a float it is
/// this value times 2^-32.)
pub fn radical_inverse_vdc(bits: u32) -> (r: u32)
    ensures
        is_bit_reversal(r, bits),
        r == reverse_bits_spec(bits),
{
    let b0 = bits;
    // rotate right by 16
    let b1 = (b0 >> 16u32) | (b0 << 16u32);
    let b2 = ((b1 & 0x5555_5555u32) << 1u32) | ((b1 & 0xAAAA_AAAAu32) >> 1u32);
    let b3 = ((b2 & 0x3333_3333u32) << 2u32) | ((b2 & 0xCCCC_CCCCu32) >> 2u32);
    let b4 = ((b3 & 0x0F0F_0F0Fu32) << 4u32) | ((b3 & 0xF0F0_F0F0u32) >> 4u32);
    let b5 = ((b4 & 0x00FF_00FFu32) << 8u32) | ((b4 & 0xFF00_FF00u32) >> 8u32);
    proof {
        lemma_reversal(b0, b1, b2, b3, b4, b5);
    }
    b5
}

/// The bit reversal as one expression: halves swapped, then bytes, nibbles, pairs and
/// single bits within them.
pub open spec fn reverse_bits_spec(b0: u32) -> u32 {
    let b1 = (b0 >> 16u32) | (b0 << 16u32);
    let b2 = ((b1 & 0x5555_5555u32) << 1u32) | ((b1 & 0xAAAA_AAAAu32) >> 1u32);
    let b3 = ((b2 & 0x3333_3333u32) << 2u32) | ((b2 & 0xCCCC_CCCCu32) >> 2u32);
    let b4 = ((b3 & 0x0F0F_0F0Fu32) << 4u32) | ((b3 & 0xF0F0_F0F0u32) >> 4u32);
    ((b4 & 0x00FF_00FFu32) << 8u32) | ((b4 & 0xFF00_FF00u32) >> 8u32)
}

/// Mirroring the bits twice gives the value back: the radical inverse is a bijection
/// of the 32-bit sample indices.
pub proof fn lemma_radical_inverse_involution(x: u32)
    by (bit_vector)
    ensures
        reverse_bits_spec(reverse_bits_spec(x)) == x,
{
}

} // verus!

verus! {

/// Where texel (x, y) of the lookup table samples the BRDF: n·v at
/// `ndotv_numerator / denominator` and roughness at `roughness_numerator / denominator`
/// (the texel centres).
#[derive(Debug, Clone, Copy, PartialEq, Eq, Structural)]
pub struct BrdfTexelInput {
    pub ndotv_numerator: u64,
    pub roughness_numerator: u64,
    pub denominator: u64,
}

/// The split-sum BRDF lookup table: a `size`×`size` grid whose texel (x, y) holds the
/// integral of the GGX BRDF at n·v = (x + 1/2)/size and roughness = (y + 1/2)/size over
/// the Hammersley points (i/n, φ(i)) for i < n = `sample_count`, φ the radical inverse.
///
/// The grid and the point sequence are integer data held here; the integration itself
/// is floating-point work done by the caller for each texel.
pub struct BrdfLutImage {
    size: u32,
    sample_count: u32,
    sample_radical_inverses: Vec<u32>,
}

impl BrdfLutImage {
    pub closed spec fn spec_size(&self) -> u32 {
        self.size
    }

    pub closed spec fn spec_sample_count(&self) -> u32 {
        self.sample_count
    }

    /// φ(i) as a 0.32 fixed-point fraction.
    pub closed spec fn spec_sample(&self, i: int) -> u32 {
        self.sample_radical_inverses@[i]
    }

    pub fn width(&self) -> (r: u32)
        ensures
            r == self.spec_size(),
    {
        self.size
    }

    pub fn height(&self) -> (r: u32)
        ensures
            r == self.spec_size(),
    {
        self.size
    }

    pub fn sample_count(&self) -> (r: u32)
        ensures
            r == self.spec_sample_count(),
    {
        self.sample_count
    }

    /// The second coordinate of Hammersley point `i`, φ(i), as a 0.32 fixed-point fraction.
    pub fn sample_radical_inverse(&self, i: u32) -> (r: u32)
        requires
            i < self.spec_sample_count(),
            self.wf(),
        ensures
            r == self.spec_sample(i as int),
    {
        self.sample_radical_inverses[i as usize]
    }

    pub closed spec fn wf(&self) -> bool {
        self.sample_radical_inverses@.len() == self.sample_count
    }

    /// The BRDF arguments of texel (x, y).
    pub fn texel_input(&self, x: u32, y: u32) -> (r: BrdfTexelInput)
        requires
            x < self.spec_size(),
            y < self.spec_size(),
        ensures
            r.ndotv_numerator == 2 * x + 1,
            r.roughness_numerator == 2 * y + 1,
            r.denominator == 2 * self.spec_size(),
    {
        BrdfTexelInput {
            ndotv_numerator: 2 * (x as u64) + 1,
            roughness_numerator: 2 * (y as u64) + 1,
            denominator: 2 * (self.size as u64),
        }
    }
}

/// The lookup table for a `size`×`size` image integrated with `sample_count` samples.
pub fn generate_brdf_lut_image(size: u32, sample_count: u32) -> (r: BrdfLutImage)
    ensures
        r.wf(),
        r.spec_size() == size,
        r.spec_sample_count() == sample_count,
        forall|i: int| 0 <= i < sample_count ==> is_bit_reversal(#[trigger] r.spec_sample(i), i as u32),
{
    let mut samples: Vec<u32> = Vec::new();
    let mut i: u32 = 0;
    while i < sample_count
        invariant
            i <= sample_count,
            samples@.len() == i,
            forall|k: int| 0 <= k < i ==> is_bit_reversal(#[trigger] samples@[k], k as u32),
        decreases sample_count - i,
    {
        samples.push(radical_inverse_vdc(i));
        i = i + 1;
    }
    BrdfLutImage { size, sample_count, sample_radical_inverses: samples }
}

} // verus!
