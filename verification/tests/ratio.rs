use mj_tui::geometry::Rect;
use mj_tui::ratio::{
    even_share, greatest_share, least_share, settle_ratio, step_share, valid_split_ratio, Ratio,
};

fn single(value: f32) -> Ratio {
    Ratio::from_bits(value.to_bits())
}

/// Singles of every kind.
fn samples() -> Vec<f32> {
    let mut list = vec![
        0.0, -0.0, 0.05, 0.1, 0.3, 0.333, 0.5, 0.6, 0.75, 0.9, 1.0, 1.5, 2.5, 100.0, 1.0e10, 3.0e38,
        1.0e-10, 1.0e-40, f32::MIN_POSITIVE, f32::EPSILON, f32::MAX, f32::INFINITY, f32::NAN,
    ];
    let mut bits: u32 = 0x3c00_0001;
    for _ in 0..400 {
        bits = bits.wrapping_mul(1_664_525).wrapping_add(1_013_904_223);
        list.push(f32::from_bits(0x3a00_0000 + bits % 0x0680_0000));
        list.push(f32::from_bits(bits));
    }
    let negated: Vec<f32> = list.iter().map(|value| -value).collect();
    list.extend(negated);
    list
}

#[test]
fn named_shares_are_the_singles_they_name() {
    assert_eq!(f32::from_bits(least_share().to_bits()), 0.1);
    assert_eq!(f32::from_bits(greatest_share().to_bits()), 0.9);
    assert_eq!(f32::from_bits(even_share().to_bits()), 0.5);
}

#[test]
fn shares_of_a_length_agree_with_single_precision() {
    for value in samples() {
        for length in [0_u16, 1, 2, 3, 7, 39, 40, 80, 81, 120, 399, 400, 1000, 4097, u16::MAX] {
            let expected = (f32::from(length) * value).round() as u16;
            assert_eq!(single(value).share(length), expected, "{length} by {value:e}");
        }
    }
}

#[test]
fn clamping_agrees_with_single_precision() {
    for value in samples() {
        let clamped = single(value).clamp_share();
        if value.is_nan() {
            assert!(clamped.is_nan());
        } else {
            assert_eq!(clamped.to_bits(), value.clamp(0.1, 0.9).to_bits(), "{value:e}");
        }
    }
}

#[test]
fn steps_agree_with_single_precision() {
    for current in samples() {
        for step in [0.0_f32, 0.01, 0.05, 0.1, 0.25, 0.333, 1.0, 1.0e-8, 5.0, -0.05, f32::NAN, f32::INFINITY] {
            for grows in [false, true] {
                let moved = if grows { current + step } else { current - step };
                let stepped = step_share(single(current), single(step), grows);
                if moved.is_nan() {
                    let kept = valid_split_ratio(single(current));
                    assert_eq!(stepped, kept, "{current:e} {step:e} {grows}");
                } else {
                    assert_eq!(
                        f32::from_bits(stepped.to_bits()),
                        moved.clamp(0.1, 0.9),
                        "{current:e} {step:e} {grows}"
                    );
                }
            }
        }
    }
}

#[test]
fn kinds_and_equality_agree_with_single_precision() {
    let list = samples();
    for value in &list {
        assert_eq!(single(*value).is_nan(), value.is_nan());
        assert_eq!(single(*value).is_finite(), value.is_finite());
        assert_eq!(single(*value).negated().to_bits(), (-value).to_bits());
    }
    for (i, a) in list.iter().enumerate().step_by(7) {
        for b in &list[..i] {
            assert_eq!(single(*a).same_value(single(*b)), a == b, "{a:e} {b:e}");
        }
    }
    assert!(single(0.0).same_value(single(-0.0)));
    assert!(!single(f32::NAN).same_value(single(f32::NAN)));
}

#[test]
fn a_split_ratio_is_always_within_its_bounds() {
    for value in samples() {
        let ratio = f32::from_bits(valid_split_ratio(single(value)).to_bits());
        let expected = if value.is_finite() { value.clamp(0.1, 0.9) } else { 0.5 };
        assert_eq!(ratio, expected, "{value:e}");
    }
}

#[test]
fn rectangles_are_cut_off_as_they_are_drawn() {
    for (x, y, width, height) in [
        (0, 0, 0, 0),
        (1, 2, 3, 4),
        (65_000, 3, 1_000, 20),
        (3, 65_000, 20, 1_000),
        (u16::MAX, u16::MAX, 1, 1),
        (0, 0, u16::MAX, u16::MAX),
    ] {
        let ours = Rect::new(x, y, width, height);
        let drawn = ratatui::layout::Rect::new(x, y, width, height);
        assert_eq!(
            (ours.x, ours.y, ours.width, ours.height),
            (drawn.x, drawn.y, drawn.width, drawn.height)
        );
    }
}

#[test]
fn what_is_not_a_number_leaves_the_ratio() {
    let nan = single(f32::NAN);
    assert_eq!(settle_ratio(single(0.3), nan), single(0.3));
    assert_eq!(settle_ratio(single(0.3), single(0.7)), single(0.7));
    assert_eq!(settle_ratio(single(0.3), single(f32::INFINITY)), single(0.9));
    assert_eq!(settle_ratio(nan, nan), single(0.5));
    assert_eq!(step_share(single(0.3), nan, true), single(0.3));
}
