//! Values of the filter as 32-bit IEEE 754 encodings.
//!
//! The filter computes in single precision. What it hands back is judged here
//! by its encoding alone: one sign bit, eight exponent bits, twenty-three
//! fraction bits. An encoding whose exponent bits are all set stands for an
//! infinity (fraction zero) or for no number at all (fraction non-zero).

use vstd::prelude::*;
use crate::error::FusionError;

verus! {

/// The exponent field of an encoding: bits 23 to 30.
pub open spec fn exponent_field(bits: u32) -> u32 {
    (bits / 0x80_0000) % 0x100
}

/// The fraction field of an encoding: bits 0 to 22.
pub open spec fn fraction_field(bits: u32) -> u32 {
    bits % 0x80_0000
}

/// The encoding stands for no number.
pub open spec fn encodes_nan(bits: u32) -> bool {
    exponent_field(bits) == 0xff && fraction_field(bits) != 0
}

/// The encoding stands for positive or negative infinity.
pub open spec fn encodes_infinity(bits: u32) -> bool {
    exponent_field(bits) == 0xff && fraction_field(bits) == 0
}

/// The encoding stands for a finite number.
pub open spec fn encodes_finite(bits: u32) -> bool {
    exponent_field(bits) != 0xff
}

/// The encoding stands for a finite number greater than zero: the sign bit is
/// clear, and the exponent and fraction fields are not both zero.
pub open spec fn encodes_positive(bits: u32) -> bool {
    bits < 0x8000_0000 && encodes_finite(bits) && (exponent_field(bits) != 0 || fraction_field(
        bits,
    ) != 0)
}

/// Whether `bits` encodes a finite number greater than zero.
pub fn is_positive(bits: u32) -> (r: bool)
    ensures
        r == encodes_positive(bits),
{
    assert((0u32 < bits && bits < 0x7f80_0000u32) == (bits < 0x8000_0000u32 && (bits
        / 0x80_0000u32) % 0x100u32 != 0xffu32 && ((bits / 0x80_0000u32) % 0x100u32 != 0u32 || bits
        % 0x80_0000u32 != 0u32))) by (bit_vector);
    0u32 < bits && bits < 0x7f80_0000u32
}

/// Whether `bits` encodes no number.
pub fn is_nan(bits: u32) -> (r: bool)
    ensures
        r == encodes_nan(bits),
{
    assert(((bits & 0x7fff_ffffu32) > 0x7f80_0000u32) == ((bits / 0x80_0000u32) % 0x100u32 == 0xffu32
        && bits % 0x80_0000u32 != 0u32)) by (bit_vector);
    (bits & 0x7fff_ffffu32) > 0x7f80_0000u32
}

/// Whether `bits` encodes an infinity.
pub fn is_infinite(bits: u32) -> (r: bool)
    ensures
        r == encodes_infinity(bits),
{
    assert(((bits & 0x7fff_ffffu32) == 0x7f80_0000u32) == ((bits / 0x80_0000u32) % 0x100u32 == 0xffu32
        && bits % 0x80_0000u32 == 0u32)) by (bit_vector);
    (bits & 0x7fff_ffffu32) == 0x7f80_0000u32
}

/// Whether `bits` encodes a finite number.
pub fn is_finite(bits: u32) -> (r: bool)
    ensures
        r == encodes_finite(bits),
{
    assert(((bits & 0x7f80_0000u32) != 0x7f80_0000u32) == ((bits / 0x80_0000u32) % 0x100u32
        != 0xffu32)) by (bit_vector);
    (bits & 0x7f80_0000u32) != 0x7f80_0000u32
}

/// Every encoding is of exactly one of the three classes.
pub proof fn lemma_classes_partition(bits: u32)
    ensures
        encodes_finite(bits) || encodes_infinity(bits) || encodes_nan(bits),
        !(encodes_finite(bits) && encodes_infinity(bits)),
        !(encodes_finite(bits) && encodes_nan(bits)),
        !(encodes_infinity(bits) && encodes_nan(bits)),
{
}

/// Three components: an angular rate, a specific force, or the orientation
/// estimate of the filter (roll, pitch, yaw). Each field is an encoding.
#[derive(Clone, Copy, Debug, PartialEq, Eq, Structural)]
pub struct Vector3 {
    pub x: u32,
    pub y: u32,
    pub z: u32,
}

/// A rotation as four components, scalar part first. Each field is an
/// encoding.
#[derive(Clone, Copy, Debug, PartialEq, Eq, Structural)]
pub struct Quaternion {
    pub w: u32,
    pub i: u32,
    pub j: u32,
    pub k: u32,
}

impl Vector3 {
    /// All three components are finite numbers.
    pub open spec fn finite(self) -> bool {
        encodes_finite(self.x) && encodes_finite(self.y) && encodes_finite(self.z)
    }

    /// Some component is no number.
    pub open spec fn has_nan(self) -> bool {
        encodes_nan(self.x) || encodes_nan(self.y) || encodes_nan(self.z)
    }

    /// Executable form of [`Vector3::finite`].
    pub fn is_finite(&self) -> (r: bool)
        ensures
            r == self.finite(),
    {
        is_finite(self.x) && is_finite(self.y) && is_finite(self.z)
    }

    /// Lets a vector pass to the quaternion conversion only if all of it is
    /// finite; the vector itself is never changed.
    pub fn vet(self) -> (r: Result<Vector3, FusionError>)
        ensures
            self.finite() <==> r == Ok::<Vector3, FusionError>(self),
            !self.finite() <==> r == Err::<Vector3, FusionError>(
                FusionError::NumericInstability,
            ),
    {
        if self.is_finite() {
            Ok(self)
        } else {
            Err(FusionError::NumericInstability)
        }
    }
}

impl Quaternion {
    /// All four components are finite numbers.
    pub open spec fn finite(self) -> bool {
        encodes_finite(self.w) && encodes_finite(self.i) && encodes_finite(self.j)
            && encodes_finite(self.k)
    }

    /// Some component is no number.
    pub open spec fn has_nan(self) -> bool {
        encodes_nan(self.w) || encodes_nan(self.i) || encodes_nan(self.j) || encodes_nan(self.k)
    }

    /// Executable form of [`Quaternion::finite`].
    pub fn is_finite(&self) -> (r: bool)
        ensures
            r == self.finite(),
    {
        is_finite(self.w) && is_finite(self.i) && is_finite(self.j) && is_finite(self.k)
    }

    /// Lets a quaternion pass into an output message only if all of it is
    /// finite; the quaternion itself is never changed.
    pub fn vet(self) -> (r: Result<Quaternion, FusionError>)
        ensures
            self.finite() <==> r == Ok::<Quaternion, FusionError>(self),
            !self.finite() <==> r == Err::<Quaternion, FusionError>(
                FusionError::NumericInstability,
            ),
    {
        if self.is_finite() {
            Ok(self)
        } else {
            Err(FusionError::NumericInstability)
        }
    }
}

/// A vector with a component that is no number never passes.
pub proof fn lemma_nan_vector_rejected(v: Vector3)
    requires
        v.has_nan(),
    ensures
        !v.finite(),
{
}

/// A quaternion that passed holds no component that is no number.
pub proof fn lemma_vetted_quaternion_has_no_nan(q: Quaternion)
    requires
        q.finite(),
    ensures
        !q.has_nan(),
{
}

} // verus!
