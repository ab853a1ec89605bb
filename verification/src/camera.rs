use vstd::prelude::*;

verus! {

/// A change that the user requests of one camera parameter.
///
/// Each variant carries the new value as the bit pattern of an `f32`
/// (`f32::to_bits`); the library moves these values without reading them.
#[derive(Copy, Clone, Debug, PartialEq, Eq, Structural)]
pub enum CameraChange {
    Zoom(u32),
    PosX(u32),
    PosY(u32),
    PosZ(u32),
    AxisUpX(u32),
    AxisUpY(u32),
    AxisUpZ(u32),
    DirectionX(u32),
    DirectionY(u32),
    DirectionZ(u32),
}

impl CameraChange {
    /// The carried value, as `f32` bits.
    pub open spec fn value_bits_spec(self) -> u32 {
        match self {
            CameraChange::Zoom(n) => n,
            CameraChange::PosX(n) => n,
            CameraChange::PosY(n) => n,
            CameraChange::PosZ(n) => n,
            CameraChange::AxisUpX(n) => n,
            CameraChange::AxisUpY(n) => n,
            CameraChange::AxisUpZ(n) => n,
            CameraChange::DirectionX(n) => n,
            CameraChange::DirectionY(n) => n,
            CameraChange::DirectionZ(n) => n,
        }
    }

    /// The carried value, as `f32` bits, whatever the parameter.
    pub fn value_bits(self) -> (r: u32)
        ensures
            r == self.value_bits_spec(),
    {
        match self {
            CameraChange::Zoom(n) => n,
            CameraChange::PosX(n) => n,
            CameraChange::PosY(n) => n,
            CameraChange::PosZ(n) => n,
            CameraChange::AxisUpX(n) => n,
            CameraChange::AxisUpY(n) => n,
            CameraChange::AxisUpZ(n) => n,
            CameraChange::DirectionX(n) => n,
            CameraChange::DirectionY(n) => n,
            CameraChange::DirectionZ(n) => n,
        }
    }
}

/// Whether the camera moves in the plane of the screen or freely in space.
#[derive(Copy, Clone, Debug, PartialEq, Eq, Structural)]
pub enum CameraLockMode {
    TwoDimensional,
    ThreeDimensional,
}

impl CameraLockMode {
    /// The name shown to the user.
    pub open spec fn name(self) -> Seq<char> {
        match self {
            CameraLockMode::TwoDimensional => "2D"@,
            CameraLockMode::ThreeDimensional => "3D"@,
        }
    }

    /// The name shown to the user: "2D" or "3D".
    pub fn to_string(&self) -> (r: String)
        ensures
            r@ == self.name(),
    {
        match self {
            CameraLockMode::TwoDimensional => "2D".to_owned(),
            CameraLockMode::ThreeDimensional => "3D".to_owned(),
        }
    }
}

/// The names the user reads for the camera modes: 2D for the locked mode, 3D for free flight.
pub proof fn lemma_camera_lock_mode_names()
    ensures
        CameraLockMode::TwoDimensional.name() == "2D"@,
        CameraLockMode::ThreeDimensional.name() == "3D"@,
{
}

} // verus!
