use vstd::prelude::*;

verus! {

/// Which formula gives the polar angle of a non-degenerate point.
#[derive(Debug, Clone, Copy, PartialEq, Eq, Structural)]
pub enum PolarCase {
    /// `z` is (approximately) zero: the polar angle is fixed to pi/2.
    Horizontal,
    /// `z` is positive: `atan2(planar_distance, z)` as it stands.
    UpperAtan2,
    /// `z` is negative: `atan2(planar_distance, z) + pi`. The added pi is
    /// layered on top of atan2's own quadrant handling; it is the frozen
    /// reference behavior of the spherical format and must not be
    /// simplified to a plain atan2 call.
    LowerAtan2PlusPi,
}

/// Which formula gives the azimuthal angle of a non-degenerate point.
#[derive(Debug, Clone, Copy, PartialEq, Eq, Structural)]
pub enum AzimuthCase {
    /// Both `x` and `y` are (approximately) zero: the angle is zero.
    Zero,
    /// Only `x` is zero and `y` is positive: pi/2.
    PositiveHalfPi,
    /// Only `x` is zero and `y` is not positive: -pi/2.
    NegativeHalfPi,
    /// `x` is non-zero and positive: `atan2(y, x)` as it stands.
    Atan2,
    /// `x` is non-zero, not positive, and `y` is non-negative:
    /// `atan2(y, x) + pi`. As with the polar angle, the correction is
    /// layered on top of atan2's own branch and is kept bit for bit.
    Atan2PlusPi,
    /// `x` is non-zero, not positive, and `y` is negative:
    /// `atan2(y, x) - pi`.
    Atan2MinusPi,
}

/// The case a point falls under when it is projected into spherical
/// coordinates.
#[derive(Debug, Clone, Copy, PartialEq, Eq, Structural)]
pub enum SphericalOutcome {
    /// The distance is (approximately) zero: both angles are exactly zero,
    /// a deliberate degenerate-case policy that avoids dividing by zero.
    Degenerate,
    /// The formulas to apply for the two angles. The vertical angle is then
    /// pi/2 minus the polar angle.
    Regular { polar: PolarCase, azimuth: AzimuthCase },
}

/// The comparisons that drive the projection's case split. The front end
/// computes them from the point: the `*_zero` fields hold approximate
/// equality with zero (within floating epsilon), the sign fields hold exact
/// comparisons.
#[derive(Debug, Clone, Copy, PartialEq, Eq, Structural)]
pub struct ProjectionFlags {
    /// The distance `sqrt(x^2 + y^2 + z^2)` is approximately zero.
    pub dist_zero: bool,
    /// `x` is approximately zero.
    pub x_zero: bool,
    /// `y` is approximately zero.
    pub y_zero: bool,
    /// `z` is approximately zero.
    pub z_zero: bool,
    /// `x > 0`.
    pub x_pos: bool,
    /// `y > 0`.
    pub y_pos: bool,
    /// `y >= 0`.
    pub y_nonneg: bool,
    /// `z > 0`.
    pub z_pos: bool,
}

/// The case a point with the given comparisons falls under.
pub open spec fn spec_classify_projection(flags: ProjectionFlags) -> SphericalOutcome {
    if flags.dist_zero {
        SphericalOutcome::Degenerate
    } else {
        let polar = if flags.z_zero {
            PolarCase::Horizontal
        } else if flags.z_pos {
            PolarCase::UpperAtan2
        } else {
            PolarCase::LowerAtan2PlusPi
        };
        let azimuth = if flags.x_zero && flags.y_zero {
            AzimuthCase::Zero
        } else if flags.x_zero {
            if flags.y_pos {
                AzimuthCase::PositiveHalfPi
            } else {
                AzimuthCase::NegativeHalfPi
            }
        } else if flags.x_pos {
            AzimuthCase::Atan2
        } else if flags.y_nonneg {
            AzimuthCase::Atan2PlusPi
        } else {
            AzimuthCase::Atan2MinusPi
        };
        SphericalOutcome::Regular { polar, azimuth }
    }
}

/// Classify a point for the spherical projection.
///
/// This is the case policy of the projection frozen as reference behavior:
/// a zero distance short-circuits both angles to zero; a zero `z` pins the
/// polar angle to pi/2; and the quadrant corrections are applied on top of
/// atan2 exactly as the spherical format has always written them.
pub fn classify_projection(flags: ProjectionFlags) -> (r: SphericalOutcome)
    ensures
        r == spec_classify_projection(flags),
{
    if flags.dist_zero {
        SphericalOutcome::Degenerate
    } else {
        let polar = if flags.z_zero {
            PolarCase::Horizontal
        } else if flags.z_pos {
            PolarCase::UpperAtan2
        } else {
            PolarCase::LowerAtan2PlusPi
        };
        let azimuth = if flags.x_zero && flags.y_zero {
            AzimuthCase::Zero
        } else if flags.x_zero {
            if flags.y_pos {
                AzimuthCase::PositiveHalfPi
            } else {
                AzimuthCase::NegativeHalfPi
            }
        } else if flags.x_pos {
            AzimuthCase::Atan2
        } else if flags.y_nonneg {
            AzimuthCase::Atan2PlusPi
        } else {
            AzimuthCase::Atan2MinusPi
        };
        SphericalOutcome::Regular { polar, azimuth }
    }
}

} // verus!
