//! Decoded event records and the intensity they contribute to a raster
//! pixel.

use vstd::arithmetic::div_mod::{lemma_div_is_ordered, lemma_div_multiples_vanish};
use vstd::arithmetic::mul::{lemma_mul_inequality, lemma_mul_strict_upper_bound};
use vstd::arithmetic::power2::{lemma2_to64, lemma2_to64_rest, lemma_pow2_strictly_increases, lemma_pow2_unfold, pow2};
use vstd::prelude::*;

verus! {

/// Decimation values above this carry no intensity: they are control
/// markers and are ignored by frame reconstruction.
pub const MAX_INTENSITY_D: u8 = 0xFE;

/// One decoded event: a spatial coordinate (row, column, optional
/// channel), the time elapsed since the previous event at that
/// coordinate, and a decimation code from which an intensity is
/// derived.
///
/// Events are transient: the decoder produces them and frame
/// reconstruction consumes them immediately.
#[derive(Clone, Copy, Debug)]
pub struct EventRecord {
    /// Row of the target pixel.
    pub y: u16,
    /// Column of the target pixel.
    pub x: u16,
    /// Channel of the target pixel; `None` on mono streams.
    pub c: Option<u8>,
    /// Decimation code (the event's magnitude).
    pub d: u8,
    /// Ticks since the previous event at this coordinate.
    pub delta_t: u32,
}

impl EventRecord {
    /// The channel an event addresses: its channel field, or 0 on a
    /// mono stream.
    pub open spec fn spec_channel(self) -> u8 {
        match self.c {
            Some(c) => c,
            None => 0,
        }
    }

    /// The channel an event addresses: its channel field, or 0 on a
    /// mono stream.
    pub fn channel(&self) -> (c: u8)
        ensures
            c == self.spec_channel(),
    {
        match self.c {
            Some(c) => c,
            None => 0,
        }
    }

    /// Whether the decimation code carries an intensity (as opposed to
    /// a control marker).
    pub open spec fn spec_carries_intensity(self) -> bool {
        self.d <= MAX_INTENSITY_D
    }

    /// Whether the decimation code carries an intensity (as opposed to
    /// a control marker).
    pub fn carries_intensity(&self) -> (b: bool)
        ensures
            b == self.spec_carries_intensity(),
    {
        self.d <= MAX_INTENSITY_D
    }
}

/// The byte intensity derived from an event: `2^d` units of intensity
/// were gathered over `delta_t` ticks, so over one reference interval
/// the pixel saw `2^d * ref_time / delta_t`, clamped to a byte. A zero
/// `delta_t` saturates.
pub open spec fn spec_event_intensity(d: u8, delta_t: u32, ref_time: u32) -> int {
    if delta_t == 0 {
        255
    } else {
        let q = pow2(d as nat) * (ref_time as nat) / (delta_t as nat);
        if q > 255 {
            255
        } else {
            q as int
        }
    }
}

/// Computes the byte intensity an event contributes to its target
/// pixel.
pub fn event_intensity(d: u8, delta_t: u32, ref_time: u32) -> (r: u8)
    requires
        ref_time >= 1,
    ensures
        r as int == spec_event_intensity(d, delta_t, ref_time),
{
    if delta_t == 0 {
        return 255;
    }
    if d >= 40 {
        proof {
            // 2^d * ref_time / delta_t >= 2^40 / delta_t >= 256.
            if (d as nat) != 40 {
                lemma_pow2_strictly_increases(40, d as nat);
            }
            lemma_mul_inequality(pow2(40) as int, pow2(d as nat) as int, ref_time as int);
            lemma2_to64_rest();
            assert(pow2(40) * (ref_time as nat) >= pow2(40) * 1) by {
                lemma_mul_inequality(1, ref_time as int, pow2(40) as int);
            }
            assert(256 * (delta_t as int) <= pow2(40)) by {
                lemma_mul_inequality(delta_t as int, 0x1_0000_0000, 256);
            }
            lemma_div_is_ordered(
                256 * (delta_t as int),
                pow2(d as nat) * (ref_time as nat) as int,
                delta_t as int,
            );
            lemma_div_multiples_vanish(256, delta_t as int);
        }
        return 255;
    }
    let mut p: u64 = 1;
    let mut i: u8 = 0;
    proof {
        lemma2_to64();
    }
    while i < d
        invariant
            i <= d,
            d < 40,
            p == pow2(i as nat),
        decreases d - i,
    {
        proof {
            lemma_pow2_strictly_increases(i as nat, 40);
            lemma2_to64_rest();
            lemma_pow2_unfold((i + 1) as nat);
        }
        p = p * 2;
        i = i + 1;
    }
    proof {
        lemma_pow2_strictly_increases(d as nat, 40);
        lemma2_to64_rest();
        lemma_mul_strict_upper_bound(
            p as int,
            0x100_0000_0000,
            ref_time as int,
            0x1_0000_0000,
        );
    }
    let num: u128 = (p as u128) * (ref_time as u128);
    let q: u128 = num / (delta_t as u128);
    if q > 255 {
        255
    } else {
        q as u8
    }
}

} // verus!
