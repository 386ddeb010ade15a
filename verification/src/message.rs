//! What leaves the task: an orientation in a fixed frame.

use vstd::prelude::*;
use crate::binary32::Quaternion;
use crate::error::FusionError;

verus! {

/// The frame in which every orientation is expressed.
pub fn frame_id() -> (r: &'static str)
    ensures
        r@ == "odom"@,
{
    "odom"
}

/// An orientation ready to be emitted. It can only be made of a quaternion
/// whose four components are finite, so no message ever carries a value that
/// is not a number.
#[derive(Clone, Copy, Debug, PartialEq, Eq, Structural)]
pub struct OrientationMessage {
    orientation: Quaternion,
}

impl OrientationMessage {
    #[verifier::type_invariant]
    spec fn sound(self) -> bool {
        self.orientation.finite()
    }

    /// The quaternion that the message carries.
    pub closed spec fn view(&self) -> Quaternion {
        self.orientation
    }

    /// Makes a message of `quaternion`, or refuses it when a component is
    /// not finite.
    pub fn compose(quaternion: Quaternion) -> (r: Result<OrientationMessage, FusionError>)
        ensures
            quaternion.finite() <==> r is Ok,
            r is Ok ==> r->Ok_0@ == quaternion,
            !quaternion.finite() <==> r == Err::<OrientationMessage, FusionError>(
                FusionError::NumericInstability,
            ),
    {
        if quaternion.is_finite() {
            Ok(OrientationMessage { orientation: quaternion })
        } else {
            Err(FusionError::NumericInstability)
        }
    }

    /// The quaternion that the message carries; all of it is finite.
    pub fn orientation(&self) -> (r: Quaternion)
        ensures
            r == self@,
            r.finite(),
            !r.has_nan(),
    {
        proof {
            use_type_invariant(self);
        }
        self.orientation
    }

    /// The frame of the message.
    pub fn frame(&self) -> (r: &'static str)
        ensures
            r@ == "odom"@,
    {
        frame_id()
    }
}

} // verus!
