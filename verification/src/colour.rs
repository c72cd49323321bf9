//! Colours: vectors read as linear RGB radiance, with clamping and the
//! display encoding (exposure curve, then gamma, then the 8-bit range).
//!
//! The exposure curve `1 - exp(-2 L)` is approximated in fixed point by
//! the compound factor `1 - (1 - 2L/1024)^1024`, and the gamma curve
//! `x^(1/2.2)` by the least representable `y` with `y^11 >= x^5`,
//! found digit by digit.  Both are pinned down exactly by spec
//! functions, so the encoding is deterministic and fully specified.

use vstd::prelude::*;
use crate::fx::Fx;
use crate::fx::FX_SCALE;
use crate::fx::fadd;
use crate::fx::fsub;
use crate::fx::fmul;
use crate::fx::fclamp;
use crate::fx::fadd_spec;
use crate::fx::fmul_spec;
use crate::fx::fclamp_spec;
use crate::vector::Vec3;
use crate::vector::v3s;

verus! {

pub type Colour = Vec3;

/// A display-encoded pixel: one byte per channel.
#[derive(Clone, Copy, Debug, PartialEq, Eq, Structural)]
pub struct Rgb8 {
    pub r: u8,
    pub g: u8,
    pub b: u8,
}

/// Restrict a scalar to `[0, 1]`.
pub fn clamp(val: Fx) -> (r: Fx)
    ensures
        r@ == fclamp_spec(val@),
{
    fclamp(val)
}

/// `k` repeated fixed-point squarings of `t`.
pub open spec fn sq_iter_spec(t: int, k: nat) -> int
    decreases k,
{
    if k == 0 {
        t
    } else {
        let s = sq_iter_spec(t, (k - 1) as nat);
        fmul_spec(s, s)
    }
}

/// The exposure curve `1 - exp(-2 x)`, with the exponential taken as the
/// compound factor `(1 - 2x/1024)^1024`; non-positive radiance maps to 0
/// and radiance beyond the curve's domain maps to 1.
pub open spec fn exposure_spec(x: int) -> int {
    if x <= 0 {
        0
    } else {
        let y = fadd_spec(x, x);
        if y >= 1024 * (FX_SCALE as int) {
            FX_SCALE as int
        } else {
            (FX_SCALE as int) - sq_iter_spec((FX_SCALE as int) - y / 1024, 10)
        }
    }
}

fn sq_iter(t: Fx, k: u32) -> (r: Fx)
    ensures
        r@ == sq_iter_spec(t@, k as nat),
    decreases k,
{
    if k == 0 {
        t
    } else {
        let s = sq_iter(t, k - 1);
        fmul(s, s)
    }
}

/// Exposure mapping of linear radiance into `[0, 1]`.
pub fn exp(x: Fx) -> (r: Fx)
    ensures
        r@ == exposure_spec(x@),
{
    if x.bits <= 0 {
        Fx { bits: 0 }
    } else {
        let y = fadd(x, x);
        if y.bits >= 1073741824 {
            Fx { bits: FX_SCALE }
        } else {
            let q: i64 = ((y.bits as u64) / 1024) as i64;
            let t = Fx { bits: FX_SCALE - q };
            let s = sq_iter(t, 10);
            fsub(Fx { bits: FX_SCALE }, s)
        }
    }
}

/// Fixed-point power with a natural exponent.
pub open spec fn pow_fx_spec(x: int, e: nat) -> int
    decreases e,
{
    if e == 0 {
        FX_SCALE as int
    } else {
        fmul_spec(x, pow_fx_spec(x, (e - 1) as nat))
    }
}

pub fn pow_fx(x: Fx, e: u32) -> (r: Fx)
    ensures
        r@ == pow_fx_spec(x@, e as nat),
    decreases e,
{
    if e == 0 {
        Fx { bits: FX_SCALE }
    } else {
        fmul(x, pow_fx(x, e - 1))
    }
}

/// Digit-recurrence search for the gamma curve: grow `acc` by each
/// binary digit `bit` while the eleventh power stays below `t`, giving
/// the largest representable value whose eleventh power is below `t`.
pub open spec fn gamma_bits_spec(t: int, acc: int, bit: int) -> int
    decreases bit,
{
    if bit < 1 {
        acc
    } else {
        let c = acc + bit;
        if pow_fx_spec(c, 11) < t {
            gamma_bits_spec(t, c, bit / 2)
        } else {
            gamma_bits_spec(t, acc, bit / 2)
        }
    }
}

/// The gamma curve `x^(1/2.2)`: the least representable `y` with
/// `y^11 >= x^5` (gamma 2.2 = 11/5), so zero maps to zero and one to
/// one despite fixed-point truncation in the powers.
pub open spec fn gamma_spec(x: int) -> int {
    let t = pow_fx_spec(x, 5);
    if t <= 0 {
        0
    } else {
        gamma_bits_spec(t, 0, FX_SCALE as int) + 1
    }
}

fn gamma_bits(t: Fx, acc: Fx, bit: i64) -> (r: Fx)
    requires
        0 <= acc@,
        0 <= bit <= FX_SCALE,
        acc@ + 2 * bit <= 4194304,
    ensures
        r@ == gamma_bits_spec(t@, acc@, bit as int),
        0 <= r@ <= 4194304,
    decreases bit,
{
    if bit < 1 {
        acc
    } else {
        let c = Fx { bits: acc.bits + bit };
        let p = pow_fx(c, 11);
        if p.bits < t.bits {
            gamma_bits(t, c, bit / 2)
        } else {
            gamma_bits(t, acc, bit / 2)
        }
    }
}

/// Gamma-encode a linear value.
pub fn gamma_encode(linear: Fx) -> (r: Fx)
    ensures
        r@ == gamma_spec(linear@),
        0 <= r@ <= 4194305,
{
    let t = pow_fx(linear, 5);
    if t.bits <= 0 {
        Fx { bits: 0 }
    } else {
        let g = gamma_bits(t, Fx { bits: 0 }, FX_SCALE);
        Fx { bits: g.bits + 1 }
    }
}

/// One display-encoded channel: exposure curve, gamma curve, then the
/// 8-bit range.
pub open spec fn channel_spec(c: int) -> int {
    let v = (gamma_spec(exposure_spec(c)) * 255) / (FX_SCALE as int);
    if v > 255 {
        255
    } else {
        v
    }
}

fn encode_channel(c: Fx) -> (r: u8)
    ensures
        r as int == channel_spec(c@),
{
    let g = gamma_encode(exp(c));
    let v: u64 = ((g.bits as u64) * 255) / 1048576;
    if v > 255 {
        255u8
    } else {
        v as u8
    }
}

pub open spec fn clamp_colour_spec(c: Colour) -> Colour {
    v3s(fclamp_spec(c.x@), fclamp_spec(c.y@), fclamp_spec(c.z@))
}

pub open spec fn to_rgb_spec(c: Colour) -> Rgb8 {
    Rgb8 {
        r: channel_spec(c.x@) as u8,
        g: channel_spec(c.y@) as u8,
        b: channel_spec(c.z@) as u8,
    }
}

impl Colour {
    pub fn r(&self) -> (r: Fx)
        ensures
            r == self.x,
    {
        self.x
    }

    pub fn g(&self) -> (r: Fx)
        ensures
            r == self.y,
    {
        self.y
    }

    pub fn b(&self) -> (r: Fx)
        ensures
            r == self.z,
    {
        self.z
    }

    pub fn black() -> (r: Colour)
        ensures
            r == v3s(0, 0, 0),
    {
        Vec3 { x: Fx { bits: 0 }, y: Fx { bits: 0 }, z: Fx { bits: 0 } }
    }

    pub fn white() -> (r: Colour)
        ensures
            r == v3s(FX_SCALE as int, FX_SCALE as int, FX_SCALE as int),
    {
        Vec3 { x: Fx { bits: FX_SCALE }, y: Fx { bits: FX_SCALE }, z: Fx { bits: FX_SCALE } }
    }

    /// Restrict every channel to `[0, 1]`.
    pub fn clamp(&self) -> (r: Colour)
        ensures
            r == clamp_colour_spec(*self),
    {
        Vec3 { x: fclamp(self.x), y: fclamp(self.y), z: fclamp(self.z) }
    }

    /// Display-encode an averaged pixel colour.
    pub fn to_rgb(&self) -> (r: Rgb8)
        ensures
            r == to_rgb_spec(*self),
    {
        Rgb8 { r: encode_channel(self.x), g: encode_channel(self.y), b: encode_channel(self.z) }
    }
}

/// Clamping a colour is idempotent: a second channel-wise restriction to
/// `[0, 1]` never changes the colour.
pub proof fn lemma_colour_clamp_idempotent(c: Colour)
    ensures
        clamp_colour_spec(clamp_colour_spec(c)) == clamp_colour_spec(c),
{
    crate::fx::lemma_clamp_idempotent(c.x@);
    crate::fx::lemma_clamp_idempotent(c.y@);
    crate::fx::lemma_clamp_idempotent(c.z@);
}

} // verus!
