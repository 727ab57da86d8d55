use visual_notifications::colors::{
    generate_gradient, generate_pulse_gradient, Color, ColorCapability, ColorManager,
};
use visual_notifications::config::ThemeConfig;
use visual_notifications::notification::NotificationType;

#[test]
fn test_color_from_hex() {
    let color = Color::from_hex("#ff5500");
    assert_eq!(color.r, 255);
    assert_eq!(color.g, 85);
    assert_eq!(color.b, 0);

    let color2 = Color::from_hex("00ff00");
    assert_eq!(color2.r, 0);
    assert_eq!(color2.g, 255);
    assert_eq!(color2.b, 0);
}

#[test]
fn test_color_to_hex() {
    let color = Color::new(255, 128, 64);
    assert_eq!(color.to_hex(), "#ff8040");
}

#[test]
fn test_color_interpolation() {
    let black = Color::new(0, 0, 0);
    let white = Color::new(255, 255, 255);

    let mid = black.interpolate(&white, 500, 1000);
    assert!(mid.r > 120 && mid.r < 135);
    assert!(mid.g > 120 && mid.g < 135);
    assert!(mid.b > 120 && mid.b < 135);
}

#[test]
fn test_color_brightness() {
    let color = Color::new(100, 100, 100);
    let brighter = color.apply_brightness(1500);
    assert_eq!(brighter.r, 150);

    let darker = color.apply_brightness(500);
    assert_eq!(darker.r, 50);
}

#[test]
fn test_ansi256_conversion() {
    let red = Color::new(255, 0, 0);
    let ansi = red.to_ansi256();
    assert!(ansi >= 16 && ansi <= 231);

    let gray = Color::new(128, 128, 128);
    let ansi_gray = gray.to_ansi256();
    assert!(ansi_gray >= 232 || (ansi_gray >= 16 && ansi_gray <= 231));
}

#[test]
fn test_gradient_generation() {
    let start = Color::new(0, 0, 0);
    let end = Color::new(255, 255, 255);
    let gradient = generate_gradient(&start, &end, 5);

    assert_eq!(gradient.len(), 5);
    assert_eq!(gradient[0].r, 0);
    assert_eq!(gradient[4].r, 255);
}

#[test]
fn hex_is_read_in_either_case_and_without_hash() {
    assert_eq!(Color::from_hex("#FF8040"), Color::new(255, 128, 64));
    assert_eq!(Color::from_hex("Ff8040"), Color::new(255, 128, 64));
    assert_eq!(Color::from_hex("##0a0B0c"), Color::new(10, 11, 12));
    assert_eq!(Color::from_hex("#000000"), Color::new(0, 0, 0));
    assert_eq!(Color::from_hex("#ffffff"), Color::new(255, 255, 255));
}

#[test]
fn malformed_hex_gives_black() {
    let black = Color::new(0, 0, 0);
    assert_eq!(Color::from_hex(""), black);
    assert_eq!(Color::from_hex("#"), black);
    assert_eq!(Color::from_hex("#fff"), black);
    assert_eq!(Color::from_hex("#ff55000"), black);
    assert_eq!(Color::from_hex("#ff550"), black);
    assert_eq!(Color::from_hex("#gg5500"), black);
    assert_eq!(Color::from_hex("#ff55zz"), black);
    assert_eq!(Color::from_hex("#ff 500"), black);
    assert_eq!(Color::from_hex("#+f+f+f"), black);
    assert_eq!(Color::from_hex("ff5500#"), black);
    assert_eq!(Color::from_hex("#\u{e9}\u{e9}12"), black);
    assert_eq!(Color::from_hex("not a colour"), black);
    assert_eq!(Color::default(), black);
}

#[test]
fn hex_round_trip() {
    for r in [0u8, 1, 9, 10, 15, 16, 127, 128, 200, 254, 255] {
        for g in [0u8, 7, 99, 171, 255] {
            for b in [0u8, 31, 160, 255] {
                let c = Color::new(r, g, b);
                assert_eq!(Color::from_hex(&c.to_hex()), c);
            }
        }
    }
    assert_eq!(Color::new(0, 10, 171).to_hex(), "#000aab");
}

#[test]
fn ansi256_grey_ramp_and_cube() {
    assert_eq!(Color::new(0, 0, 0).to_ansi256(), 16);
    assert_eq!(Color::new(7, 7, 7).to_ansi256(), 16);
    assert_eq!(Color::new(8, 8, 8).to_ansi256(), 232);
    assert_eq!(Color::new(128, 128, 128).to_ansi256(), 243);
    assert_eq!(Color::new(248, 248, 248).to_ansi256(), 255);
    assert_eq!(Color::new(249, 249, 249).to_ansi256(), 231);
    assert_eq!(Color::new(255, 255, 255).to_ansi256(), 231);
    assert_eq!(Color::new(255, 0, 0).to_ansi256(), 196);
    assert_eq!(Color::new(0, 255, 0).to_ansi256(), 46);
    assert_eq!(Color::new(0, 0, 255).to_ansi256(), 21);
    assert_eq!(Color::new(255, 255, 0).to_ansi256(), 226);
    assert_eq!(Color::new(25, 26, 0).to_ansi256(), 16 + 6);
    assert_eq!(Color::new(1, 0, 0).to_ansi256(), 16);
    assert_eq!(Color::new(34, 197, 94).to_ansi256(), 16 + 36 + 6 * 4 + 2);
}

#[test]
fn ansi256_matches_floating_point() {
    for v in 0..=255u8 {
        let grey = Color::new(v, v, v).to_ansi256();
        let expected = if v < 8 {
            16
        } else if v > 248 {
            231
        } else {
            ((v as f32 - 8.0) / 247.0 * 24.0) as u8 + 232
        };
        assert_eq!(grey, expected);
        let step = (v as f32 / 255.0 * 5.0).round() as u8;
        let other = if v == 0 { 1 } else { 0 };
        assert_eq!(Color::new(v, other, other).to_ansi256(), 16 + 36 * step);
        assert_eq!(Color::new(other, v, other).to_ansi256(), 16 + 6 * step);
        assert_eq!(Color::new(other, other, v).to_ansi256(), 16 + step);
    }
}

#[test]
fn ansi16_codes() {
    assert_eq!(Color::new(0, 0, 0).to_ansi16(), 30);
    assert_eq!(Color::new(63, 63, 63).to_ansi16(), 30);
    assert_eq!(Color::new(64, 0, 0).to_ansi16(), 30);
    assert_eq!(Color::new(127, 127, 127).to_ansi16(), 30);
    assert_eq!(Color::new(128, 0, 0).to_ansi16(), 31);
    assert_eq!(Color::new(0, 128, 0).to_ansi16(), 32);
    assert_eq!(Color::new(128, 128, 0).to_ansi16(), 33);
    assert_eq!(Color::new(0, 0, 128).to_ansi16(), 34);
    assert_eq!(Color::new(128, 128, 128).to_ansi16(), 37);
    assert_eq!(Color::new(192, 192, 192).to_ansi16(), 37);
    assert_eq!(Color::new(193, 0, 0).to_ansi16(), 91);
    assert_eq!(Color::new(255, 255, 255).to_ansi16(), 97);
    assert_eq!(Color::new(255, 0, 255).to_ansi16(), 95);
    assert_eq!(Color::new(0, 200, 100).to_ansi16(), 92);
}

#[test]
fn contrast_pushes_towards_white_or_black() {
    assert_eq!(Color::new(200, 200, 200).increase_contrast(), Color::new(240, 240, 240));
    assert_eq!(Color::new(250, 220, 213).increase_contrast(), Color::new(255, 255, 255));
    assert_eq!(Color::new(100, 100, 100).increase_contrast(), Color::new(90, 90, 90));
    assert_eq!(Color::new(0, 0, 0).increase_contrast(), Color::new(0, 0, 0));
    assert_eq!(Color::new(255, 255, 255).increase_contrast(), Color::new(255, 255, 255));
    // luminance exactly 127 is not above 127
    assert_eq!(Color::new(127, 127, 127).increase_contrast(), Color::new(114, 114, 114));
    assert_eq!(Color::new(128, 128, 128).increase_contrast(), Color::new(153, 153, 153));
    assert_eq!(Color::new(255, 0, 0).increase_contrast(), Color::new(229, 0, 0));
    assert_eq!(Color::new(0, 255, 0).increase_contrast(), Color::new(0, 255, 0));
    assert_eq!(Color::new(7, 9, 11).increase_contrast(), Color::new(6, 8, 9));
}

#[test]
fn contrast_matches_floating_point() {
    for r in (0..=255u16).step_by(5) {
        for g in (0..=255u16).step_by(15) {
            for b in (0..=255u16).step_by(51) {
                let (r, g, b) = (r as u8, g as u8, b as u8);
                let weighted = 299 * r as u32 + 587 * g as u32 + 114 * b as u32;
                if weighted == 127_000 {
                    continue;
                }
                let luminance = 0.299 * r as f32 + 0.587 * g as f32 + 0.114 * b as f32;
                let expected = if luminance > 127.0 {
                    Color::new(
                        (r as f32 * 1.2).min(255.0) as u8,
                        (g as f32 * 1.2).min(255.0) as u8,
                        (b as f32 * 1.2).min(255.0) as u8,
                    )
                } else {
                    Color::new(
                        (r as f32 * 0.9) as u8,
                        (g as f32 * 0.9) as u8,
                        (b as f32 * 0.9) as u8,
                    )
                };
                assert_eq!(Color::new(r, g, b).increase_contrast(), expected);
            }
        }
    }
    for v in 0..=255u8 {
        let c = Color::new(v, v, v).increase_contrast();
        let expected = if v > 127 { (v as f32 * 1.2).min(255.0) as u8 } else { (v as f32 * 0.9) as u8 };
        if v != 127 {
            assert_eq!(c.r, expected);
        }
    }
}

#[test]
fn luminance_and_lightness() {
    assert_eq!(Color::new(0, 0, 0).luminance(), 0);
    assert_eq!(Color::new(255, 255, 255).luminance(), 1000);
    assert_eq!(Color::new(255, 0, 0).luminance(), 299);
    assert_eq!(Color::new(0, 255, 0).luminance(), 587);
    assert_eq!(Color::new(0, 0, 255).luminance(), 114);
    assert_eq!(Color::new(128, 128, 128).luminance(), 501);
    assert_eq!(Color::new(255, 0, 0).luminance_sum(), 76_245);
    assert!(Color::new(255, 255, 255).is_light());
    assert!(Color::new(128, 128, 128).is_light());
    assert!(!Color::new(127, 127, 127).is_light());
    assert!(!Color::new(0, 0, 0).is_light());
    assert!(Color::new(0, 255, 0).is_light());
    assert!(!Color::new(255, 0, 255).is_light());
}

#[test]
fn brightness_scales_and_caps() {
    let c = Color::new(200, 100, 7);
    assert_eq!(c.apply_brightness(1000), c);
    assert_eq!(c.apply_brightness(0), Color::new(0, 0, 0));
    assert_eq!(c.apply_brightness(500), Color::new(100, 50, 3));
    assert_eq!(c.apply_brightness(2000), Color::new(255, 200, 14));
    assert_eq!(c.apply_brightness(u32::MAX), Color::new(255, 255, 255));
    assert_eq!(Color::new(0, 0, 0).apply_brightness(u32::MAX), Color::new(0, 0, 0));
    assert_eq!(Color::new(255, 255, 255).apply_brightness(999), Color::new(254, 254, 254));
}

#[test]
fn interpolation_is_linear_and_held_to_the_ends() {
    let a = Color::new(10, 200, 0);
    let b = Color::new(110, 100, 255);
    assert_eq!(a.interpolate(&b, 0, 10), a);
    assert_eq!(a.interpolate(&b, 10, 10), b);
    assert_eq!(a.interpolate(&b, 25, 10), b);
    assert_eq!(a.interpolate(&b, 5, 10), Color::new(60, 150, 127));
    assert_eq!(a.interpolate(&b, 1, 3), Color::new(43, 166, 85));
    assert_eq!(a.interpolate(&b, 1, u64::MAX), Color::new(10, 199, 0));
    assert_eq!(a.interpolate(&b, u64::MAX - 1, u64::MAX), Color::new(109, 100, 254));
    // 0 / 0 is no number; n / 0 is beyond one
    assert_eq!(a.interpolate(&b, 0, 0), Color::new(0, 0, 0));
    assert_eq!(a.interpolate(&b, 1, 0), b);
}

#[test]
fn gradient_edge_cases() {
    let start = Color::new(10, 20, 30);
    let end = Color::new(110, 120, 130);
    assert!(generate_gradient(&start, &end, 0).is_empty());
    assert_eq!(generate_gradient(&start, &end, 1), vec![Color::new(0, 0, 0)]);
    assert_eq!(generate_gradient(&start, &end, 2), vec![start, end]);
    assert_eq!(
        generate_gradient(&start, &end, 3),
        vec![start, Color::new(60, 70, 80), end]
    );
    assert!(generate_pulse_gradient(&start, &end, 0).is_empty());
    assert_eq!(generate_pulse_gradient(&start, &end, 1), vec![end]);
    assert_eq!(generate_pulse_gradient(&start, &end, 2), vec![start, end]);
    assert_eq!(
        generate_pulse_gradient(&start, &end, 5),
        vec![
            start,
            Color::new(60, 70, 80),
            end,
            Color::new(76, 86, 96),
            Color::new(43, 53, 63)
        ]
    );
}

#[test]
fn gradient_matches_floating_point() {
    let start = Color::new(0, 0, 0);
    let end = Color::new(255, 255, 255);
    for steps in [2usize, 3, 5, 9, 11, 17] {
        let gradient = generate_gradient(&start, &end, steps);
        for (i, color) in gradient.iter().enumerate() {
            let factor = (i as f32 / (steps - 1) as f32).clamp(0.0, 1.0);
            assert_eq!(color.r, (0.0 + (255.0 - 0.0) * factor) as u8);
        }
    }
}

#[test]
fn manager_hands_out_theme_colours() {
    let theme = ThemeConfig::default();
    let mut manager = ColorManager::new(&theme);
    assert_eq!(
        manager.get_notification_color(&NotificationType::Success),
        Some("#22c55e".to_string())
    );
    assert_eq!(
        manager.get_notification_color(&NotificationType::Error),
        Some("#ef4444".to_string())
    );
    assert_eq!(
        manager.get_notification_color(&NotificationType::Warning),
        Some("#eab308".to_string())
    );
    assert_eq!(
        manager.get_notification_color(&NotificationType::Attention),
        Some("#eab308".to_string())
    );
    assert_eq!(
        manager.get_notification_color(&NotificationType::Info),
        Some("#3b82f6".to_string())
    );
    assert_eq!(
        manager.get_notification_color(&NotificationType::Progress),
        Some("#89b4fa".to_string())
    );
    assert_eq!(manager.get_background_color(), "#1e1e2e");
    assert_eq!(manager.get_foreground_color(), "#cdd6f4");
    assert_eq!(manager.get_dimmed_color(), "#6c7086");
    assert_eq!(manager.adjust_for_capability("#ABCDEF"), "#ABCDEF");
    assert_eq!(manager.adjust_for_capability("nonsense"), "nonsense");

    manager.set_high_contrast(true);
    // #22c55e has luminance above 127: channels times 1.2
    assert_eq!(
        manager.get_notification_color(&NotificationType::Success),
        Some("#28ec70".to_string())
    );
    // #1e1e2e is dark: channels times 0.9
    assert_eq!(manager.get_background_color(), "#1b1b29");
    assert_eq!(manager.adjust_for_capability("nonsense"), "#000000");

    manager.set_capability(ColorCapability::Color256);
    // (27, 27, 41) lies in the cube at (1, 1, 1)
    assert_eq!(manager.get_background_color(), "59");
    manager.set_high_contrast(false);
    assert_eq!(manager.get_notification_color(&NotificationType::Error), Some("203".to_string()));
    assert_eq!(manager.adjust_for_capability("#808080"), "243");
    manager.set_capability(ColorCapability::Color16);
    assert_eq!(manager.get_notification_color(&NotificationType::Error), Some("91".to_string()));
    assert_eq!(manager.adjust_for_capability("#000000"), "30");
    assert_eq!(ColorManager::detect_capability(), ColorCapability::TrueColor);
}

#[test]
fn manager_blends_and_dims_in_hex() {
    let manager = ColorManager::default();
    assert_eq!(manager.interpolate("#000000", "#ffffff", 1, 2), "#7f7f7f");
    assert_eq!(manager.interpolate("#ff0000", "#00ff00", 1, 4), "#bf3f00");
    assert_eq!(manager.interpolate("bogus", "#102030", 1, 1), "#102030");
    assert_eq!(manager.apply_brightness("#646464", 1500), "#969696");
    assert_eq!(manager.apply_brightness("#646464", 500), "#323232");
    assert_eq!(manager.apply_brightness("#ffffff", 0), "#000000");
}

#[test]
fn escape_sequences() {
    let mut manager = ColorManager::default();
    assert_eq!(manager.fg_escape("#ff8000"), "\x1b[38;2;255;128;0m");
    assert_eq!(manager.bg_escape("#ff8000"), "\x1b[48;2;255;128;0m");
    assert_eq!(manager.fg_escape("junk"), "\x1b[38;2;0;0;0m");
    assert_eq!(manager.reset_escape(), "\x1b[0m");
    manager.set_capability(ColorCapability::Color256);
    assert_eq!(manager.fg_escape("#ff0000"), "\x1b[38;5;196m");
    assert_eq!(manager.bg_escape("#ff0000"), "\x1b[48;5;196m");
    manager.set_capability(ColorCapability::Color16);
    assert_eq!(manager.fg_escape("#ff0000"), "\x1b[91m");
    assert_eq!(manager.bg_escape("#ff0000"), "\x1b[101m");
    assert_eq!(manager.fg_escape("#000000"), "\x1b[30m");
    assert_eq!(manager.bg_escape("#000000"), "\x1b[40m");
}
