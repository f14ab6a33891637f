use face_detection::geometry::Size;
use face_detection::scale::ScaleFactor;

fn factor(numerator: u32, denominator: u32) -> ScaleFactor {
    ScaleFactor::new(numerator, denominator).unwrap()
}

#[test]
fn factors_lie_between_zero_and_one() {
    assert!(ScaleFactor::new(1, 4).is_some());
    assert!(ScaleFactor::new(1, 1).is_some());
    assert!(ScaleFactor::new(7, 7).is_some());
    assert!(ScaleFactor::new(0x7fff_ffff, 0x7fff_ffff).is_some());
    assert!(ScaleFactor::new(0, 4).is_none());
    assert!(ScaleFactor::new(0, 0).is_none());
    assert!(ScaleFactor::new(1, 0).is_none());
    assert!(ScaleFactor::new(5, 4).is_none());
    assert!(ScaleFactor::new(1, 0x8000_0000).is_none());
    assert!(ScaleFactor::new(1, u32::MAX).is_none());
}

#[test]
fn a_factor_keeps_its_fraction() {
    let f = factor(3, 10);
    assert_eq!(f.numerator(), 3);
    assert_eq!(f.denominator(), 10);
    assert_eq!(f, factor(3, 10));
    assert_ne!(f, factor(1, 4));
}

#[test]
fn the_tool_shrinks_to_a_quarter() {
    let f = ScaleFactor::quarter();
    assert_eq!(f.numerator(), 1);
    assert_eq!(f.denominator(), 4);
    assert_eq!(f.inverse_multiplier(), 4);
}

#[test]
fn the_inverse_is_truncated() {
    assert_eq!(factor(1, 1).inverse_multiplier(), 1);
    assert_eq!(factor(1, 2).inverse_multiplier(), 2);
    assert_eq!(factor(1, 3).inverse_multiplier(), 3);
    assert_eq!(factor(2, 5).inverse_multiplier(), 2);
    assert_eq!(factor(3, 10).inverse_multiplier(), 3);
    assert_eq!(factor(2, 3).inverse_multiplier(), 1);
    assert_eq!(factor(99, 100).inverse_multiplier(), 1);
    assert_eq!(factor(1, 0x7fff_ffff).inverse_multiplier(), i32::MAX);
}

#[test]
fn a_frame_of_800_by_600_shrinks_to_200_by_150() {
    let reduced = ScaleFactor::quarter().reduced_size(Size { width: 800, height: 600 });
    assert_eq!(reduced, Size { width: 200, height: 150 });
}

#[test]
fn lengths_are_rounded_to_the_nearest_pixel() {
    let third = factor(1, 3);
    assert_eq!(third.reduced_dimension(100), 33);
    assert_eq!(third.reduced_dimension(101), 34);
    assert_eq!(third.reduced_dimension(1), 0);
    assert_eq!(third.reduced_dimension(2), 1);
    let most = factor(3, 10);
    assert_eq!(most.reduced_dimension(640), 192);
    assert_eq!(most.reduced_dimension(641), 192);
    assert_eq!(most.reduced_dimension(642), 193);
    assert_eq!(factor(1, 1).reduced_dimension(1234), 1234);
    assert_eq!(factor(1, 4).reduced_dimension(0), 0);
}

#[test]
fn a_tie_goes_to_the_even_pixel() {
    let half = factor(1, 2);
    assert_eq!(half.reduced_dimension(1), 0);
    assert_eq!(half.reduced_dimension(3), 2);
    assert_eq!(half.reduced_dimension(5), 2);
    assert_eq!(half.reduced_dimension(7), 4);
    let quarter = factor(1, 4);
    assert_eq!(quarter.reduced_dimension(2), 0);
    assert_eq!(quarter.reduced_dimension(6), 2);
    assert_eq!(quarter.reduced_dimension(10), 2);
    assert_eq!(quarter.reduced_dimension(14), 4);
}

#[test]
fn the_largest_frame_is_reduced_without_overflow() {
    assert_eq!(factor(1, 1).reduced_dimension(u32::MAX), u32::MAX);
    assert_eq!(factor(0x7fff_ffff, 0x7fff_ffff).reduced_dimension(u32::MAX), u32::MAX);
    assert_eq!(factor(1, 2).reduced_dimension(u32::MAX), 0x8000_0000);
    assert_eq!(factor(0x7fff_fffe, 0x7fff_ffff).reduced_dimension(u32::MAX), 4294967293);
}

#[test]
fn reduction_never_grows_and_lands_within_half_a_pixel() {
    let factors = [(1u32, 4u32), (1, 3), (2, 3), (3, 10), (7, 9), (1, 1), (5, 8), (1, 1000)];
    for (n, d) in factors {
        let f = factor(n, d);
        for original in 0u32..500 {
            let reduced = f.reduced_dimension(original) as i64;
            assert!(reduced <= original as i64);
            let miss = reduced * d as i64 - original as i64 * n as i64;
            assert!(2 * miss.abs() <= d as i64, "{}/{} of {}", n, d, original);
            if 2 * miss.abs() == d as i64 {
                assert_eq!(reduced % 2, 0, "{}/{} of {}", n, d, original);
            }
        }
    }
}

#[test]
fn the_truncated_inverse_falls_short_by_the_remainder() {
    let factors = [(1u32, 4u32), (1, 3), (2, 3), (3, 10), (7, 9), (1, 1), (5, 8), (2, 7)];
    for (n, d) in factors {
        let f = factor(n, d);
        let inv = f.inverse_multiplier() as i64;
        assert_eq!(inv, (d / n) as i64);
        for coordinate in 0i64..300 {
            let mapped = coordinate * inv;
            let lost = coordinate * d as i64 - mapped * n as i64;
            assert_eq!(lost, coordinate * (d % n) as i64);
            assert!(mapped * n as i64 <= coordinate * d as i64);
            if coordinate > 0 {
                assert!(coordinate * (d as i64) < (mapped + coordinate) * n as i64);
            }
            if d % n == 0 {
                assert_eq!(mapped * n as i64, coordinate * d as i64);
            }
        }
    }
}

#[test]
fn a_fractional_reciprocal_is_not_mapped_exactly() {
    let f = factor(2, 5);
    assert_eq!(f.inverse_multiplier(), 2);
    let reduced = f.reduced_dimension(100);
    assert_eq!(reduced, 40);
    assert_eq!(reduced as i32 * f.inverse_multiplier(), 80);
    assert_ne!(reduced as i32 * f.inverse_multiplier(), 100);
}
