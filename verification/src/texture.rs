//! Surface textures: maps from surface coordinates to colours.
//!
//! Mapping a direction to spherical angles and sampling an externally
//! loaded picture is a collaborator capability outside the core; the
//! textures here are procedural and fully specified.

use vstd::prelude::*;
use crate::fx::Fx;
use crate::fx::FX_SCALE;
use crate::fx::fmul;
use crate::fx::fmul_spec;
use crate::fx::sat64;
use crate::fx::abs_i;
use crate::vector::Vec3;
use crate::vector::vadd_spec;
use crate::vector::vscale_spec;
use crate::colour::Colour;

verus! {

/// One checker coordinate: the fractional part of three times the
/// input, rounded to 0 or 1 (at the fixed-point scale).
pub open spec fn check_bit_spec(u: int) -> int {
    let a = sat64(abs_i(fmul_spec(3 * (FX_SCALE as int), u))) % (FX_SCALE as int);
    if a >= 524288 {
        FX_SCALE as int
    } else {
        0
    }
}

fn check_bit(u: Fx) -> (r: Fx)
    ensures
        r@ == check_bit_spec(u@),
{
    let m = fmul(Fx { bits: 3145728 }, u);
    let a = (m.abs().bits as u64) % 1048576;
    if a >= 524288 {
        Fx { bits: FX_SCALE }
    } else {
        Fx { bits: 0 }
    }
}

/// The checker blend weight for a coordinate pair: 1 where both checker
/// coordinates round to 1, else 0.
pub open spec fn check_lerp_spec(u: int, v: int) -> int {
    fmul_spec(check_bit_spec(u), check_bit_spec(v))
}

/// A texture maps two surface coordinates to a colour.
pub trait Texture {
    spec fn value_spec(&self, u: Fx, v: Fx) -> Colour;

    fn value(&self, u: Fx, v: Fx) -> (r: Colour)
        ensures
            r == self.value_spec(u, v),
    ;
}

/// The same colour everywhere.
#[derive(Clone, Copy, Debug, PartialEq, Eq, Structural)]
pub struct TextConstant {
    pub col: Colour,
}

impl Texture for TextConstant {
    open spec fn value_spec(&self, u: Fx, v: Fx) -> Colour {
        self.col
    }

    fn value(&self, u: Fx, v: Fx) -> (r: Colour) {
        self.col
    }
}

/// A checker blend of two colours.
#[derive(Clone, Copy, Debug, PartialEq, Eq, Structural)]
pub struct TextCheck {
    pub col1: Colour,
    pub col2: Colour,
}

impl Texture for TextCheck {
    open spec fn value_spec(&self, u: Fx, v: Fx) -> Colour {
        let lerp = check_lerp_spec(u@, v@);
        vadd_spec(
            vscale_spec(self.col1, lerp),
            vscale_spec(self.col2, (FX_SCALE as int) - lerp),
        )
    }

    fn value(&self, u: Fx, v: Fx) -> (r: Colour) {
        let lerp = fmul(check_bit(u), check_bit(v));
        let inv = Fx { bits: FX_SCALE - lerp.bits };
        proof {
            crate::fx::lemma_fmul_nonneg_le(check_bit_spec(u@), check_bit_spec(v@));
        }
        self.col1.scale(lerp).add(self.col2.scale(inv))
    }
}

/// The map from a sphere's local hit offset to its surface colour.
#[derive(Clone, Copy, Debug, PartialEq, Eq, Structural)]
pub enum TexMap {
    /// The same colour everywhere.
    Constant(Colour),
    /// A checker over the offset's first two coordinates.
    Check(Colour, Colour),
}

pub open spec fn tex_map_spec(t: TexMap, p: Vec3) -> Colour {
    match t {
        TexMap::Constant(c) => c,
        TexMap::Check(c1, c2) => (TextCheck { col1: c1, col2: c2 }).value_spec(p.x, p.y),
    }
}

impl TexMap {
    /// The surface colour at a local offset.
    pub fn eval(&self, p: Vec3) -> (r: Colour)
        ensures
            r == tex_map_spec(*self, p),
    {
        match *self {
            TexMap::Constant(c) => c,
            TexMap::Check(c1, c2) => (TextCheck { col1: c1, col2: c2 }).value(p.x, p.y),
        }
    }
}

} // verus!
