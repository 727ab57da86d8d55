//! Predefined animations, in thousandths.

use crate::animation::{CustomAnimation, Keyframe};
use vstd::prelude::*;

verus! {

/// A gentle pulse between seven tenths and full brightness, looping.
pub fn gentle_pulse() -> (animation: CustomAnimation)
    ensures
        animation.name@ == "gentle_pulse"@,
        animation.loops,
        animation.keyframes@ == seq![
            Keyframe { time: 0, brightness: 700, color_modifier: None },
            Keyframe { time: 500, brightness: 1000, color_modifier: None },
            Keyframe { time: 1000, brightness: 700, color_modifier: None },
        ],
{
    let mut keyframes: Vec<Keyframe> = Vec::new();
    keyframes.push(Keyframe::new(0, 700));
    keyframes.push(Keyframe::new(500, 1000));
    keyframes.push(Keyframe::new(1000, 700));
    assert(keyframes@ =~= seq![
        Keyframe { time: 0, brightness: 700, color_modifier: None },
        Keyframe { time: 500, brightness: 1000, color_modifier: None },
        Keyframe { time: 1000, brightness: 700, color_modifier: None },
    ]);
    CustomAnimation::new("gentle_pulse", keyframes, true)
}

/// Two sharp flashes down to two tenths, once.
pub fn urgent_flash() -> (animation: CustomAnimation)
    ensures
        animation.name@ == "urgent_flash"@,
        !animation.loops,
        animation.keyframes@ == seq![
            Keyframe { time: 0, brightness: 1000, color_modifier: None },
            Keyframe { time: 150, brightness: 200, color_modifier: None },
            Keyframe { time: 300, brightness: 1000, color_modifier: None },
            Keyframe { time: 450, brightness: 200, color_modifier: None },
            Keyframe { time: 600, brightness: 1000, color_modifier: None },
            Keyframe { time: 1000, brightness: 1000, color_modifier: None },
        ],
{
    let mut keyframes: Vec<Keyframe> = Vec::new();
    keyframes.push(Keyframe::new(0, 1000));
    keyframes.push(Keyframe::new(150, 200));
    keyframes.push(Keyframe::new(300, 1000));
    keyframes.push(Keyframe::new(450, 200));
    keyframes.push(Keyframe::new(600, 1000));
    keyframes.push(Keyframe::new(1000, 1000));
    assert(keyframes@ =~= seq![
        Keyframe { time: 0, brightness: 1000, color_modifier: None },
        Keyframe { time: 150, brightness: 200, color_modifier: None },
        Keyframe { time: 300, brightness: 1000, color_modifier: None },
        Keyframe { time: 450, brightness: 200, color_modifier: None },
        Keyframe { time: 600, brightness: 1000, color_modifier: None },
        Keyframe { time: 1000, brightness: 1000, color_modifier: None },
    ]);
    CustomAnimation::new("urgent_flash", keyframes, false)
}

/// Full brightness for seven tenths of the time, then a fade to nothing,
/// once.
pub fn slow_fade() -> (animation: CustomAnimation)
    ensures
        animation.name@ == "slow_fade"@,
        !animation.loops,
        animation.keyframes@ == seq![
            Keyframe { time: 0, brightness: 1000, color_modifier: None },
            Keyframe { time: 700, brightness: 1000, color_modifier: None },
            Keyframe { time: 1000, brightness: 0, color_modifier: None },
        ],
{
    let mut keyframes: Vec<Keyframe> = Vec::new();
    keyframes.push(Keyframe::new(0, 1000));
    keyframes.push(Keyframe::new(700, 1000));
    keyframes.push(Keyframe::new(1000, 0));
    assert(keyframes@ =~= seq![
        Keyframe { time: 0, brightness: 1000, color_modifier: None },
        Keyframe { time: 700, brightness: 1000, color_modifier: None },
        Keyframe { time: 1000, brightness: 0, color_modifier: None },
    ]);
    CustomAnimation::new("slow_fade", keyframes, false)
}

/// A strong beat and a weaker one, then rest, looping.
pub fn heartbeat() -> (animation: CustomAnimation)
    ensures
        animation.name@ == "heartbeat"@,
        animation.loops,
        animation.keyframes@ == seq![
            Keyframe { time: 0, brightness: 600, color_modifier: None },
            Keyframe { time: 100, brightness: 1000, color_modifier: None },
            Keyframe { time: 200, brightness: 600, color_modifier: None },
            Keyframe { time: 300, brightness: 900, color_modifier: None },
            Keyframe { time: 400, brightness: 600, color_modifier: None },
            Keyframe { time: 1000, brightness: 600, color_modifier: None },
        ],
{
    let mut keyframes: Vec<Keyframe> = Vec::new();
    keyframes.push(Keyframe::new(0, 600));
    keyframes.push(Keyframe::new(100, 1000));
    keyframes.push(Keyframe::new(200, 600));
    keyframes.push(Keyframe::new(300, 900));
    keyframes.push(Keyframe::new(400, 600));
    keyframes.push(Keyframe::new(1000, 600));
    assert(keyframes@ =~= seq![
        Keyframe { time: 0, brightness: 600, color_modifier: None },
        Keyframe { time: 100, brightness: 1000, color_modifier: None },
        Keyframe { time: 200, brightness: 600, color_modifier: None },
        Keyframe { time: 300, brightness: 900, color_modifier: None },
        Keyframe { time: 400, brightness: 600, color_modifier: None },
        Keyframe { time: 1000, brightness: 600, color_modifier: None },
    ]);
    CustomAnimation::new("heartbeat", keyframes, true)
}

} // verus!
