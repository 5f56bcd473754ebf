//! The role a wheel plays on its vehicle, as given by the caller when the
//! wheel is added.

use vstd::prelude::*;

verus! {

/// The axle a wheel belongs to.
#[derive(Clone, Copy, Debug, PartialEq, Eq, Structural)]
pub enum WheelAxle {
    Front,
    Rear,
}

/// The role of a wheel: its axle, and whether the engine drives it and the
/// steering turns it.
#[derive(Clone, Copy, Debug, PartialEq, Eq, Structural)]
pub struct WheelRole {
    pub axle: WheelAxle,
    pub driven: bool,
    pub steered: bool,
}

/// The axle that a numeric code names: 0 is the front axle, any other code
/// the rear axle.
pub open spec fn axle_of_code(code: u32) -> WheelAxle {
    if code == 0 {
        WheelAxle::Front
    } else {
        WheelAxle::Rear
    }
}

/// Code 0, and only code 0, names the front axle; every other code names the
/// rear axle.
pub proof fn lemma_only_zero_is_front(code: u32)
    ensures
        (axle_of_code(code) == WheelAxle::Front) <==> code == 0,
        (axle_of_code(code) == WheelAxle::Rear) <==> code != 0,
{
}

/// Reads the axle code that comes with a new wheel.
pub fn wheel_axle_from_code(code: u32) -> (axle: WheelAxle)
    ensures
        axle == axle_of_code(code),
        (axle == WheelAxle::Front) <==> code == 0,
{
    if code == 0 {
        WheelAxle::Front
    } else {
        WheelAxle::Rear
    }
}

impl WheelRole {
    /// The role of a wheel on the axle named by `axle_code`.
    pub fn new(axle_code: u32, driven: bool, steered: bool) -> (role: WheelRole)
        ensures
            role.axle == axle_of_code(axle_code),
            role.driven == driven,
            role.steered == steered,
    {
        WheelRole { axle: wheel_axle_from_code(axle_code), driven, steered }
    }
}

} // verus!
