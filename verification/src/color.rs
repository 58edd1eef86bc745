//! Color quantization: the one place where precision is discarded.

use vstd::prelude::*;
use vstd::arithmetic::div_mod::{
    lemma_div_is_ordered, lemma_div_pos_is_pos, lemma_fundamental_div_mod_converse,
};
use crate::fixed::SCALE;
use crate::vector::Triple;

verus! {

/// Clamp one linear channel to [0, 1] in fixed point.
pub open spec fn clamp01(v: int) -> int {
    if v < 0 {
        0
    } else if v > SCALE {
        SCALE as int
    } else {
        v
    }
}

/// 8-bit quantization of one channel: clamp to [0, 1], scale by 255,
/// truncate.
pub open spec fn quantize(v: int) -> int {
    (clamp01(v) * 255) / (SCALE as int)
}

/// A linear color with every channel clamped to [0, 1].
pub open spec fn clamp_color(c: Triple) -> Triple {
    Triple {
        x: clamp01(c.x as int) as i64,
        y: clamp01(c.y as int) as i64,
        z: clamp01(c.z as int) as i64,
    }
}

/// A displayable color: three 8-bit channels, produced only by the
/// clamp-and-scale conversion from a linear color.
#[derive(Clone, Copy, PartialEq, Eq, Structural, Debug)]
pub struct PPMColor {
    pub r: u8,
    pub g: u8,
    pub b: u8,
}

/// One channel of the conversion.
fn quantize_channel(v: i64) -> (r: u8)
    ensures
        r as int == quantize(v as int),
{
    let c: i64 = if v < 0 {
        0
    } else if v > SCALE {
        SCALE
    } else {
        v
    };
    proof {
        lemma_div_pos_is_pos(c as int * 255, SCALE as int);
        lemma_div_is_ordered(c as int * 255, 255 * SCALE as int, SCALE as int);
        lemma_fundamental_div_mod_converse(255 * SCALE as int, SCALE as int, 255, 0);
    }
    let q = (c as u64 * 255) / (SCALE as u64);
    q as u8
}

impl PPMColor {
    /// Quantize a linear color to its displayable 8-bit form.  Lossy
    /// and irreversible: apply only after shading is complete.
    pub fn from(value: Triple) -> (r: PPMColor)
        ensures
            r.r as int == quantize(value.x as int),
            r.g as int == quantize(value.y as int),
            r.b as int == quantize(value.z as int),
    {
        PPMColor {
            r: quantize_channel(value.x),
            g: quantize_channel(value.y),
            b: quantize_channel(value.z),
        }
    }
}

/// Quantization is idempotent under clamping: a color clamped to
/// [0, 1] quantizes to exactly what the unclamped color does, so
/// out-of-range channels saturate rather than wrap.
pub proof fn lemma_quantize_clamp_idempotent(c: Triple)
    ensures
        quantize(clamp_color(c).x as int) == quantize(c.x as int),
        quantize(clamp_color(c).y as int) == quantize(c.y as int),
        quantize(clamp_color(c).z as int) == quantize(c.z as int),
{
}

} // verus!
