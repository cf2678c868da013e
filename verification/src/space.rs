//! Fixed-point positions, directions and transforms.
//!
//! Every length is a whole number of ticks, a million to the world unit, so
//! that all arithmetic on positions is exact. A direction is an integer vector
//! whose length stands for one unit when it is [`AXIS_UNIT`].

use vstd::prelude::*;

verus! {

/// Ticks in one world unit.
pub const UNIT: i64 = 1_000_000;

/// Length of an axis vector that stands for a unit direction.
pub const AXIS_UNIT: i64 = 1_000;

/// A point or a displacement in world space, in ticks, or a direction in
/// thousandths.
#[derive(Copy, Clone, PartialEq, Eq, Structural, Debug)]
pub struct Vec3 {
    pub x: i64,
    pub y: i64,
    pub z: i64,
}

/// Whether `v` can be held in an `i64`.
pub open spec fn fits_i64(v: int) -> bool {
    i64::MIN <= v <= i64::MAX
}

impl Vec3 {
    pub fn new(x: i64, y: i64, z: i64) -> (v: Vec3)
        ensures
            v == (Vec3 { x, y, z }),
    {
        Vec3 { x, y, z }
    }

    /// The vector with all three components equal to `v`.
    pub fn splat(v: i64) -> (r: Vec3)
        ensures
            r == (Vec3 { x: v, y: v, z: v }),
    {
        Vec3 { x: v, y: v, z: v }
    }

    /// The scalar product, without rounding.
    pub open spec fn dot(self, other: Vec3) -> int {
        self.x * other.x + self.y * other.y + self.z * other.z
    }

    /// Whether `self + dir * step` has all three components in range.
    pub open spec fn can_shift(self, dir: Vec3, step: int) -> bool {
        &&& fits_i64(self.x + dir.x * step)
        &&& fits_i64(self.y + dir.y * step)
        &&& fits_i64(self.z + dir.z * step)
    }

    /// `self + dir * step`; meaningful where [`Vec3::can_shift`] holds.
    pub open spec fn shifted(self, dir: Vec3, step: int) -> Vec3
        recommends
            self.can_shift(dir, step),
    {
        Vec3 {
            x: (self.x + dir.x * step) as i64,
            y: (self.y + dir.y * step) as i64,
            z: (self.z + dir.z * step) as i64,
        }
    }

    /// Moves `self` by `step` times `dir`, or gives `None` when the result
    /// cannot be represented.
    pub fn checked_shift(&self, dir: &Vec3, step: u64) -> (r: Option<Vec3>)
        ensures
            r == if self.can_shift(*dir, step as int) {
                Some(self.shifted(*dir, step as int))
            } else {
                None::<Vec3>
            },
    {
        let x: Option<i64> = shift_component(self.x, dir.x, step);
        let y: Option<i64> = shift_component(self.y, dir.y, step);
        let z: Option<i64> = shift_component(self.z, dir.z, step);
        match (x, y, z) {
            (Some(x), Some(y), Some(z)) => Some(Vec3 { x, y, z }),
            _ => None,
        }
    }
}

/// `base + dir * step` where it fits.
fn shift_component(base: i64, dir: i64, step: u64) -> (r: Option<i64>)
    ensures
        r == if fits_i64(base + dir * step) {
            Some((base + dir * step) as i64)
        } else {
            None::<i64>
        },
{
    assert(-0x8000_0000_0000_0000 * 0xFFFF_FFFF_FFFF_FFFF <= dir * step
        <= 0x7FFF_FFFF_FFFF_FFFF * 0xFFFF_FFFF_FFFF_FFFF) by (nonlinear_arith)
        requires
            -0x8000_0000_0000_0000 <= dir <= 0x7FFF_FFFF_FFFF_FFFF,
            0 <= step <= 0xFFFF_FFFF_FFFF_FFFF,
    ;
    let moved: i128 = (base as i128) + (dir as i128) * (step as i128);
    if moved < (i64::MIN as i128) || moved > (i64::MAX as i128) {
        None
    } else {
        Some(moved as i64)
    }
}

/// One axis of an orientation, in thousandths.
#[derive(Copy, Clone, PartialEq, Eq, Structural, Debug)]
pub struct Axis {
    pub x: i32,
    pub y: i32,
    pub z: i32,
}

impl Axis {
    /// The axis as a direction.
    pub open spec fn spec_vec(&self) -> Vec3 {
        Vec3 { x: self.x as i64, y: self.y as i64, z: self.z as i64 }
    }

    /// The opposite of the axis as a direction.
    pub open spec fn spec_neg_vec(&self) -> Vec3 {
        Vec3 { x: (-self.x) as i64, y: (-self.y) as i64, z: (-self.z) as i64 }
    }

    /// The scalar product of two axes.
    pub open spec fn dot(self, other: Axis) -> int {
        self.x * other.x + self.y * other.y + self.z * other.z
    }

    #[verifier::when_used_as_spec(spec_vec)]
    pub fn vec(&self) -> (v: Vec3)
        ensures
            v == self.spec_vec(),
    {
        Vec3 { x: self.x as i64, y: self.y as i64, z: self.z as i64 }
    }

    #[verifier::when_used_as_spec(spec_neg_vec)]
    pub fn neg_vec(&self) -> (v: Vec3)
        ensures
            v == self.spec_neg_vec(),
    {
        Vec3 { x: -(self.x as i64), y: -(self.y as i64), z: -(self.z as i64) }
    }
}

/// The local frame of an object: where its right, up and back point in the
/// world. The three axes are given as they are; nothing here assumes that they
/// are of unit length or at right angles.
#[derive(Copy, Clone, PartialEq, Eq, Structural, Debug)]
pub struct Orientation {
    pub x_axis: Axis,
    pub y_axis: Axis,
    pub z_axis: Axis,
}

impl Orientation {
    /// The frame whose axes are the world's.
    pub open spec fn spec_identity() -> Orientation {
        Orientation {
            x_axis: Axis { x: 1000, y: 0, z: 0 },
            y_axis: Axis { x: 0, y: 1000, z: 0 },
            z_axis: Axis { x: 0, y: 0, z: 1000 },
        }
    }

    #[verifier::when_used_as_spec(spec_identity)]
    pub fn identity() -> (o: Orientation)
        ensures
            o == Orientation::spec_identity(),
    {
        Orientation {
            x_axis: Axis { x: 1000, y: 0, z: 0 },
            y_axis: Axis { x: 0, y: 1000, z: 0 },
            z_axis: Axis { x: 0, y: 0, z: 1000 },
        }
    }

    /// Whether the three axes are pairwise at right angles.
    pub open spec fn orthogonal(self) -> bool {
        &&& self.x_axis.dot(self.y_axis) == 0
        &&& self.y_axis.dot(self.z_axis) == 0
        &&& self.z_axis.dot(self.x_axis) == 0
    }

    pub open spec fn spec_right(&self) -> Vec3 {
        self.x_axis.spec_vec()
    }

    pub open spec fn spec_left(&self) -> Vec3 {
        self.x_axis.spec_neg_vec()
    }

    pub open spec fn spec_up(&self) -> Vec3 {
        self.y_axis.spec_vec()
    }

    pub open spec fn spec_down(&self) -> Vec3 {
        self.y_axis.spec_neg_vec()
    }

    pub open spec fn spec_back(&self) -> Vec3 {
        self.z_axis.spec_vec()
    }

    pub open spec fn spec_forward(&self) -> Vec3 {
        self.z_axis.spec_neg_vec()
    }

    /// The local x axis.
    #[verifier::when_used_as_spec(spec_right)]
    pub fn right(&self) -> (v: Vec3)
        ensures
            v == self.spec_right(),
    {
        self.x_axis.vec()
    }

    /// The opposite of the local x axis.
    #[verifier::when_used_as_spec(spec_left)]
    pub fn left(&self) -> (v: Vec3)
        ensures
            v == self.spec_left(),
    {
        self.x_axis.neg_vec()
    }

    /// The local y axis.
    #[verifier::when_used_as_spec(spec_up)]
    pub fn up(&self) -> (v: Vec3)
        ensures
            v == self.spec_up(),
    {
        self.y_axis.vec()
    }

    /// The opposite of the local y axis.
    #[verifier::when_used_as_spec(spec_down)]
    pub fn down(&self) -> (v: Vec3)
        ensures
            v == self.spec_down(),
    {
        self.y_axis.neg_vec()
    }

    /// The local z axis.
    #[verifier::when_used_as_spec(spec_back)]
    pub fn back(&self) -> (v: Vec3)
        ensures
            v == self.spec_back(),
    {
        self.z_axis.vec()
    }

    /// The opposite of the local z axis.
    #[verifier::when_used_as_spec(spec_forward)]
    pub fn forward(&self) -> (v: Vec3)
        ensures
            v == self.spec_forward(),
    {
        self.z_axis.neg_vec()
    }
}

/// Where an object stands and how large it is drawn; a scale of [`UNIT`] is
/// life size.
#[derive(Copy, Clone, PartialEq, Eq, Structural, Debug)]
pub struct Transform {
    pub translation: Vec3,
    pub scale: Vec3,
}

impl Transform {
    /// The transform that moves to `translation` and keeps the size.
    pub open spec fn spec_from_translation(translation: Vec3) -> Transform {
        Transform { translation, scale: Vec3 { x: UNIT, y: UNIT, z: UNIT } }
    }

    #[verifier::when_used_as_spec(spec_from_translation)]
    pub fn from_translation(translation: Vec3) -> (t: Transform)
        ensures
            t == Transform::spec_from_translation(translation),
    {
        Transform { translation, scale: Vec3 { x: UNIT, y: UNIT, z: UNIT } }
    }

    /// The same transform with its scale replaced.
    pub open spec fn spec_with_scale(self, scale: Vec3) -> Transform {
        Transform { translation: self.translation, scale }
    }

    #[verifier::when_used_as_spec(spec_with_scale)]
    pub fn with_scale(self, scale: Vec3) -> (t: Transform)
        ensures
            t == self.spec_with_scale(scale),
    {
        Transform { translation: self.translation, scale }
    }
}

impl Default for Transform {
    fn default() -> (t: Transform)
        ensures
            t == Transform::spec_from_translation(Vec3 { x: 0, y: 0, z: 0 }),
    {
        Transform::from_translation(Vec3 { x: 0, y: 0, z: 0 })
    }
}

} // verus!
