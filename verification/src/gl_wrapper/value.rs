use vstd::prelude::*;

verus! {

/// Bit pattern of `0.0`.
pub const ZERO: u32 = 0x0000_0000;

/// Bit pattern of `0.1`.
pub const TENTH: u32 = 0x3DCC_CCCD;

/// Bit pattern of `0.2`.
pub const FIFTH: u32 = 0x3E4C_CCCD;

/// Bit pattern of `0.5`.
pub const HALF: u32 = 0x3F00_0000;

/// Bit pattern of `0.8`.
pub const FOUR_FIFTHS: u32 = 0x3F4C_CCCD;

/// Bit pattern of `0.9`.
pub const NINE_TENTHS: u32 = 0x3F66_6666;

/// Bit pattern of `1.0`.
pub const ONE: u32 = 0x3F80_0000;

/// Bit pattern of `2.0`.
pub const TWO: u32 = 0x4000_0000;

/// Bit pattern of `5.0`.
pub const FIVE: u32 = 0x40A0_0000;

/// Bit pattern of `15.0`.
pub const FIFTEEN: u32 = 0x4170_0000;

/// Bit pattern of `20.0`.
pub const TWENTY: u32 = 0x41A0_0000;

/// Bit pattern of `30.0`.
pub const THIRTY: u32 = 0x41F0_0000;

/// Bit pattern of `-0.4`.
pub const MINUS_TWO_FIFTHS: u32 = 0xBECC_CCCD;

/// Bit pattern of `-0.8`.
pub const MINUS_FOUR_FIFTHS: u32 = 0xBF4C_CCCD;

/// Bit pattern of `-1.0`.
pub const MINUS_ONE: u32 = 0xBF80_0000;

/// A single-precision quantity that is named here and evaluated by whoever
/// replays the commands.
#[derive(Clone, Copy, Debug, PartialEq, Eq, Structural)]
pub enum Scalar {
    /// The number with this IEEE-754 bit pattern.
    Bits(u32),
    /// The integer, converted to single precision.
    Count(u32),
    /// The first integer divided by the second, both converted to single
    /// precision before the division.
    Ratio(u32, u32),
    /// The horizontal coordinate of the unit vector `(1, 0)` after it was
    /// turned `steps` times by the `blades`-th part of a full turn.
    TurnedX { steps: u32, blades: u32 },
    /// The vertical coordinate of the unit vector `(1, 0)` after it was
    /// turned `steps` times by the `blades`-th part of a full turn.
    TurnedY { steps: u32, blades: u32 },
}

/// A point of device space, `[-1, 1]` on both axes, placed relative to the
/// flare.
///
/// The point is `(2 * flare - 1) * offset + perpendicular * (d.y, -d.x)`,
/// where `d` is the unit vector from the image centre `(0.5, 0.5)` to the
/// flare. No displacement is recorded when the flare sits exactly on the
/// image centre, where that vector has no direction.
#[derive(Clone, Copy, Debug, PartialEq, Eq, Structural)]
pub struct Placement {
    /// Horizontal flare position in `[0, 1]`, as a bit pattern.
    pub flare_x: u32,
    /// Vertical flare position in `[0, 1]`, as a bit pattern.
    pub flare_y: u32,
    /// Scale along the axis through the image centre, as a bit pattern.
    pub offset: u32,
    /// Displacement across that axis, as a bit pattern.
    pub perpendicular: Option<u32>,
}

/// A square matrix of single-precision numbers, column-major.
#[derive(Clone, Copy, Debug, PartialEq, Eq)]
pub enum Matrix {
    /// Four literal entries.
    M2([u32; 4]),
    /// Nine literal entries.
    M3([u32; 9]),
    /// Sixteen literal entries.
    M4([u32; 16]),
    /// The 2x2 rotation by an angle in radians, given as a bit pattern.
    Rotation2 { angle: u32 },
    /// The 4x4 rotation about the Z axis by an angle in radians, given as a
    /// bit pattern.
    RotationZ { angle: u32 },
    /// The 4x4 matrix that scales uniformly by `size / 100` and then moves the
    /// origin to `position`.
    Model { position: Placement, size: u32 },
}

/// What a uniform variable is set to.
#[derive(Clone, Copy, Debug, PartialEq, Eq)]
pub enum UniformValue {
    Float1(Scalar),
    Float2(Scalar, Scalar),
    Float3(Scalar, Scalar, Scalar),
    Float4(Scalar, Scalar, Scalar, Scalar),
    Int1(i32),
    Int2(i32, i32),
    Int3(i32, i32, i32),
    Int4(i32, i32, i32, i32),
    /// A two-component vector holding the coordinates of a placed point.
    Point(Placement),
    Matrix(Matrix),
}

} // verus!
