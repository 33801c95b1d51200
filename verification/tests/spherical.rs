use pcd_tool::spherical::{
    classify_projection, AzimuthCase, PolarCase, ProjectionFlags, SphericalOutcome,
};

/// The comparisons a front end derives from a concrete point: exact float
/// arithmetic for the signs, an epsilon comparison for the zeros.
fn flags_of(x: f64, y: f64, z: f64) -> ProjectionFlags {
    let distance = (x.powi(2) + y.powi(2) + z.powi(2)).sqrt();
    let eps = f64::EPSILON;
    ProjectionFlags {
        dist_zero: distance.abs() <= eps,
        x_zero: x.abs() <= eps,
        y_zero: y.abs() <= eps,
        z_zero: z.abs() <= eps,
        x_pos: x > 0.0,
        y_pos: y > 0.0,
        y_nonneg: y >= 0.0,
        z_pos: z > 0.0,
    }
}

#[test]
fn origin_is_degenerate() {
    // project(0,0,0) yields distance 0 and both angles exactly 0.
    assert_eq!(
        classify_projection(flags_of(0.0, 0.0, 0.0)),
        SphericalOutcome::Degenerate
    );
}

#[test]
fn unit_x_gives_zero_angles() {
    // project(1,0,0): z ~ 0 pins the polar angle to pi/2, so the vertical
    // angle is 0; x > 0 leaves atan2(0, 1) = 0 as the azimuth.
    assert_eq!(
        classify_projection(flags_of(1.0, 0.0, 0.0)),
        SphericalOutcome::Regular {
            polar: PolarCase::Horizontal,
            azimuth: AzimuthCase::Atan2,
        }
    );
}

#[test]
fn unit_y_gives_half_pi_azimuth() {
    // project(0,1,0): x ~ 0 and y > 0 fix the azimuth to pi/2.
    assert_eq!(
        classify_projection(flags_of(0.0, 1.0, 0.0)),
        SphericalOutcome::Regular {
            polar: PolarCase::Horizontal,
            azimuth: AzimuthCase::PositiveHalfPi,
        }
    );
}

#[test]
fn unit_z_gives_half_pi_vertical() {
    // project(0,0,1): the polar angle is atan2(0, 1) = 0, so the vertical
    // angle is pi/2; x ~ 0 and y ~ 0 fix the azimuth to 0.
    assert_eq!(
        classify_projection(flags_of(0.0, 0.0, 1.0)),
        SphericalOutcome::Regular {
            polar: PolarCase::UpperAtan2,
            azimuth: AzimuthCase::Zero,
        }
    );
}

#[test]
fn negative_y_axis_gives_negative_half_pi() {
    assert_eq!(
        classify_projection(flags_of(0.0, -1.0, 0.0)),
        SphericalOutcome::Regular {
            polar: PolarCase::Horizontal,
            azimuth: AzimuthCase::NegativeHalfPi,
        }
    );
}

#[test]
fn lower_hemisphere_adds_pi_to_polar() {
    assert_eq!(
        classify_projection(flags_of(1.0, 0.0, -1.0)),
        SphericalOutcome::Regular {
            polar: PolarCase::LowerAtan2PlusPi,
            azimuth: AzimuthCase::Atan2,
        }
    );
}

#[test]
fn left_half_plane_quadrant_corrections() {
    // x <= 0 (and not ~0): +pi when y >= 0, -pi when y < 0, layered on top
    // of atan2's own branch, exactly as the reference formula writes it.
    assert_eq!(
        classify_projection(flags_of(-1.0, 1.0, 1.0)),
        SphericalOutcome::Regular {
            polar: PolarCase::UpperAtan2,
            azimuth: AzimuthCase::Atan2PlusPi,
        }
    );
    assert_eq!(
        classify_projection(flags_of(-1.0, -1.0, 1.0)),
        SphericalOutcome::Regular {
            polar: PolarCase::UpperAtan2,
            azimuth: AzimuthCase::Atan2MinusPi,
        }
    );
}
