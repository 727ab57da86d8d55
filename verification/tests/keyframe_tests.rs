use visual_notifications::animation::easing;
use visual_notifications::animation::presets;
use visual_notifications::animation::{CustomAnimation, Keyframe};

#[test]
fn test_custom_animation_interpolation() {
    let anim = presets::gentle_pulse();

    let b_start = anim.interpolate(0);
    let b_mid = anim.interpolate(500);
    let b_end = anim.interpolate(1000);

    assert!((b_start - 700).abs() < 10);
    assert!((b_mid - 1000).abs() < 10);
    assert!((b_end - 700).abs() < 10);
}

#[test]
fn animation_test_easing_functions() {
    assert_eq!(easing::linear(500), 500);

    assert!(easing::ease_in(500) < 500);

    assert!(easing::ease_out(500) > 500);

    assert_eq!(easing::linear(0), 0);
    assert_eq!(easing::linear(1000), 1000);
    assert_eq!(easing::ease_in(0), 0);
    assert!((easing::ease_in(1000) as i64 - 1000).abs() < 10);
}

#[test]
fn tests_test_easing_functions() {
    assert_eq!(easing::linear(0), 0);
    assert_eq!(easing::linear(1000), 1000);

    assert_eq!(easing::ease_in(0), 0);
    assert!((easing::ease_in(1000) as i64 - 1000).abs() < 1);

    assert_eq!(easing::ease_out(0), 0);
    assert!((easing::ease_out(1000) - 1000).abs() < 1);

    assert_eq!(easing::ease_in_out(0), 0);
    assert!((easing::ease_in_out(1000) - 1000).abs() < 1);

    assert!(easing::ease_in(500) < 500);
    assert!(easing::ease_out(500) > 500);
}

#[test]
fn keyframes_are_plain_values() {
    assert_eq!(Keyframe::new(5, 7), Keyframe { time: 5, brightness: 7, color_modifier: None });
    assert_eq!(
        Keyframe::with_color_modifier(5, 7, 9),
        Keyframe { time: 5, brightness: 7, color_modifier: Some(9) }
    );
}

#[test]
fn presets_hold_their_keyframes() {
    let pulse = presets::gentle_pulse();
    assert_eq!(pulse.name, "gentle_pulse");
    assert!(pulse.loops);
    assert_eq!(
        pulse.keyframes,
        vec![Keyframe::new(0, 700), Keyframe::new(500, 1000), Keyframe::new(1000, 700)]
    );
    let flash = presets::urgent_flash();
    assert_eq!(flash.name, "urgent_flash");
    assert!(!flash.loops);
    assert_eq!(flash.keyframes.len(), 6);
    assert_eq!(flash.keyframes[1], Keyframe::new(150, 200));
    assert_eq!(flash.keyframes[3], Keyframe::new(450, 200));
    assert_eq!(flash.keyframes[5], Keyframe::new(1000, 1000));
    let fade = presets::slow_fade();
    assert_eq!(fade.name, "slow_fade");
    assert!(!fade.loops);
    assert_eq!(
        fade.keyframes,
        vec![Keyframe::new(0, 1000), Keyframe::new(700, 1000), Keyframe::new(1000, 0)]
    );
    let heart = presets::heartbeat();
    assert_eq!(heart.name, "heartbeat");
    assert!(heart.loops);
    assert_eq!(heart.keyframes.len(), 6);
    assert_eq!(heart.keyframes[3], Keyframe::new(300, 900));
}

#[test]
fn interpolation_follows_straight_lines() {
    let pulse = presets::gentle_pulse();
    assert_eq!(pulse.interpolate(250), 850);
    assert_eq!(pulse.interpolate(750), 850);
    assert_eq!(pulse.interpolate(1), 700);
    assert_eq!(pulse.interpolate(499), 999);
    assert_eq!(pulse.interpolate(501), 999);
    // the animation loops
    assert_eq!(pulse.interpolate(1250), 850);
    assert_eq!(pulse.interpolate(2000), 700);

    let fade = presets::slow_fade();
    assert_eq!(fade.interpolate(0), 1000);
    assert_eq!(fade.interpolate(350), 1000);
    assert_eq!(fade.interpolate(700), 1000);
    assert_eq!(fade.interpolate(850), 500);
    assert_eq!(fade.interpolate(999), 3);
    assert_eq!(fade.interpolate(1000), 0);
    // and this one does not
    assert_eq!(fade.interpolate(5000), 0);

    let flash = presets::urgent_flash();
    assert_eq!(flash.interpolate(75), 600);
    assert_eq!(flash.interpolate(150), 200);
    assert_eq!(flash.interpolate(800), 1000);
    let heart = presets::heartbeat();
    assert_eq!(heart.interpolate(50), 800);
    assert_eq!(heart.interpolate(250), 750);
    assert_eq!(heart.interpolate(700), 600);
}

#[test]
fn interpolation_matches_floating_point() {
    fn float(anim: &CustomAnimation, time: f32) -> f32 {
        let time = if anim.loops { time % 1.0 } else { time.clamp(0.0, 1.0) };
        let k = |i: usize| (anim.keyframes[i].time as f32 / 1000.0, anim.keyframes[i].brightness as f32 / 1000.0);
        let mut prev = k(0);
        let mut next = k(0);
        for i in 0..anim.keyframes.len() {
            if k(i).0 <= time {
                prev = k(i);
            }
            if k(i).0 >= time {
                next = k(i);
                break;
            }
        }
        if prev.0 == next.0 {
            return prev.1;
        }
        prev.1 + (next.1 - prev.1) * (time - prev.0) / (next.0 - prev.0)
    }
    for anim in [presets::gentle_pulse(), presets::urgent_flash(), presets::slow_fade(), presets::heartbeat()] {
        for t in (0..=1500u32).step_by(25) {
            let expected = float(&anim, t as f32 / 1000.0);
            let got = anim.interpolate(t) as f32 / 1000.0;
            assert!((got - expected).abs() < 0.0015, "{} at {}: {} vs {}", anim.name, t, got, expected);
        }
    }
}

#[test]
fn interpolation_edge_cases() {
    let empty = CustomAnimation::new("empty", Vec::new(), false);
    assert_eq!(empty.interpolate(0), 1000);
    assert_eq!(empty.interpolate(777), 1000);
    let single = CustomAnimation::new("single", vec![Keyframe::new(400, 300)], false);
    assert_eq!(single.interpolate(0), 300);
    assert_eq!(single.interpolate(400), 300);
    assert_eq!(single.interpolate(1000), 300);
    // before the first keyframe nothing stands, so the first is both ends
    let late = CustomAnimation::new("late", vec![Keyframe::new(200, 100), Keyframe::new(800, 700)], false);
    assert_eq!(late.interpolate(100), 100);
    assert_eq!(late.interpolate(500), 400);
    // after the last keyframe the line from the last back to the first is followed further
    assert_eq!(late.interpolate(900), 800);
    assert_eq!(late.interpolate(1000), 900);
    // which can lead below zero
    let falling = CustomAnimation::new("falling", vec![Keyframe::new(0, 1000), Keyframe::new(500, 0)], false);
    assert_eq!(falling.interpolate(250), 500);
    assert_eq!(falling.interpolate(750), -500);
    assert_eq!(falling.interpolate(1000), -1000);
    // fractions are dropped towards the lower value
    let thirds = CustomAnimation::new("thirds", vec![Keyframe::new(0, 0), Keyframe::new(3, 10)], false);
    assert_eq!(thirds.interpolate(1), 3);
    assert_eq!(thirds.interpolate(2), 6);
    let down = CustomAnimation::new("down", vec![Keyframe::new(0, 10), Keyframe::new(3, 0)], false);
    assert_eq!(down.interpolate(1), 6);
    assert_eq!(down.interpolate(2), 3);
}

#[test]
fn easing_curves() {
    assert_eq!(easing::linear(u32::MAX), u32::MAX);
    assert_eq!(easing::ease_in(250), 62);
    assert_eq!(easing::ease_in(2000), 4000);
    assert_eq!(easing::ease_in(u32::MAX), (u32::MAX as u64) * (u32::MAX as u64) / 1000);
    assert_eq!(easing::ease_out(250), 437);
    assert_eq!(easing::ease_out(2000), 0);
    assert_eq!(easing::ease_out(3000), -3000);
    assert_eq!(easing::ease_out(1001), 999);
    assert_eq!(easing::ease_in_out(250), 125);
    assert_eq!(easing::ease_in_out(499), 498);
    assert_eq!(easing::ease_in_out(500), 500);
    assert_eq!(easing::ease_in_out(750), 875);
    assert_eq!(easing::ease_in_out(2000), -1000);
    let _ = easing::ease_out(u32::MAX);
    let _ = easing::ease_in_out(u32::MAX);
    let _ = easing::bounce(u32::MAX);
}

#[test]
fn bounce_matches_floating_point() {
    fn float(t: f64) -> f64 {
        let n1 = 7.5625;
        let d1 = 2.75;
        if t < 1.0 / d1 {
            n1 * t * t
        } else if t < 2.0 / d1 {
            let t = t - 1.5 / d1;
            n1 * t * t + 0.75
        } else if t < 2.5 / d1 {
            let t = t - 2.25 / d1;
            n1 * t * t + 0.9375
        } else {
            let t = t - 2.625 / d1;
            n1 * t * t + 0.984375
        }
    }
    assert_eq!(easing::bounce(0), 0);
    assert_eq!(easing::bounce(1000), 1000);
    for t in 0..=2000u32 {
        let expected = float(t as f64 / 1000.0);
        let got = easing::bounce(t) as f64 / 1000.0;
        assert!(got <= expected + 1e-9 && expected - got < 0.001, "at {}: {} vs {}", t, got, expected);
    }
    for t in 0..=3000u32 {
        let tf = t as f64 / 1000.0;
        let out = easing::ease_out(t) as f64 / 1000.0;
        assert!(((1.0 - (1.0 - tf) * (1.0 - tf)) - out).abs() < 0.001 + 1e-9);
        let both = easing::ease_in_out(t) as f64 / 1000.0;
        let expected = if tf < 0.5 { 2.0 * tf * tf } else { 1.0 - (-2.0 * tf + 2.0).powi(2) / 2.0 };
        assert!((expected - both).abs() < 0.001 + 1e-9);
    }
}
