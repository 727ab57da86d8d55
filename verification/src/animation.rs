//! The animation engine: brightness as a function of the ticks elapsed since
//! an animation started. The engine holds no clock; every operation takes the
//! current tick.
//!
//! Brightness is computed in integers, in thousandths. The sine that shapes
//! the pulse and breathe styles is taken from Bhaskara's rational
//! approximation `sin(pi x) ~ 16 x (1 - x) / (5 - 4 x (1 - x))`, which is exact
//! at the ends, the middle and the sixths of the half period.
//!
//! Besides the engine the module holds animations given by keyframes, with
//! a few of them predefined, and easing curves.

pub mod easing;
pub mod presets;

use crate::colors::THOUSAND;
use crate::config::{AnimationConfig, AnimationStyle};
use crate::state::VisualState;
use vstd::prelude::*;

verus! {

/// Ticks in one cycle at the given speed: `(101 - speed) * 2`, and at least
/// ten.
pub open spec fn cycle_ticks(speed: int) -> int {
    if (101 - speed) * 2 < 10 {
        10
    } else {
        (101 - speed) * 2
    }
}

/// Ticks elapsed at `tick` since `start`; zero if `tick` lies before `start`.
pub open spec fn elapsed_since(start: int, tick: int) -> int {
    if tick < start {
        0
    } else {
        tick - start
    }
}

/// `amplitude * sin(pi * position / period)` for a position within the
/// period, by Bhaskara's approximation, fraction dropped.
pub open spec fn half_wave(position: int, period: int, amplitude: int) -> int {
    let product = position * (period - position);
    16 * amplitude * product / (5 * period * period - 4 * product)
}

/// Brightness of the pulse style at a position of its cycle, in thousandths:
/// `0.5 + 0.5 sin(2 pi x)`. It rises from one half to full over the first
/// quarter, falls to zero at three quarters and returns to one half.
pub open spec fn pulse_level(position: int, period: int) -> int {
    if 2 * position < period {
        500 + half_wave(2 * position, period, 500)
    } else {
        500 - half_wave(2 * position - period, period, 500)
    }
}

/// Brightness of the flash style, in thousandths: full for the first three
/// tenths of the cycle, three tenths until the middle, full after it.
pub open spec fn flash_level(position: int, period: int) -> int {
    if 10 * position < 3 * period {
        1000
    } else if 2 * position < period {
        300
    } else {
        1000
    }
}

/// Brightness of the fade style, in thousandths: `1 - elapsed / total`, a
/// straight decay over the whole animation that stays at zero once the
/// animation is over.
pub open spec fn fade_level(elapsed: int, total: int) -> int {
    if elapsed >= total {
        0
    } else {
        1000 - 1000 * elapsed / total
    }
}

/// Brightness of the breathe style, in thousandths: `0.4 + 0.6 sin(pi x)`,
/// one hump per cycle.
pub open spec fn breathe_level(position: int, period: int) -> int {
    400 + half_wave(position, period, 600)
}

/// Brightness in thousandths of an animation of the given style after
/// `elapsed` ticks, for cycles of `period` ticks in an animation of `total`
/// ticks.
pub open spec fn brightness_at(style: AnimationStyle, elapsed: int, period: int, total: int) -> int {
    match style {
        AnimationStyle::Pulse => pulse_level(elapsed % period, period),
        AnimationStyle::Flash => flash_level(elapsed % period, period),
        AnimationStyle::Fade => fade_level(elapsed, total),
        AnimationStyle::Breathe => breathe_level(elapsed % period, period),
        AnimationStyle::Static => 1000,
    }
}

/// Progress of an animation in thousandths of its length.
pub open spec fn phase_at(elapsed: int, total: int) -> int {
    1000 * elapsed / total
}

/// Progress of an animation in percent, at most 100.
pub open spec fn progress_at(elapsed: int, total: int) -> int {
    if elapsed >= total {
        100
    } else {
        100 * elapsed / total
    }
}

/// Computes the brightness of animations from ticks.
#[derive(Debug, Clone, Copy)]
pub struct AnimationEngine {
    config: AnimationConfig,
    ticks_per_cycle: u64,
    total_ticks: u64,
}

impl AnimationEngine {
    /// The settings the engine was made with.
    pub closed spec fn settings(&self) -> AnimationConfig {
        self.config
    }

    /// Ticks in one cycle.
    pub closed spec fn period(&self) -> int {
        self.ticks_per_cycle as int
    }

    /// Ticks in one animation.
    pub closed spec fn length(&self) -> int {
        self.total_ticks as int
    }

    /// The invariant of the engine: cycle and animation lengths are those
    /// derived from its settings.
    pub open spec fn wf(&self) -> bool {
        &&& self.period() == cycle_ticks(self.settings().speed as int)
        &&& self.length() == self.period() * self.settings().cycles
    }

    /// Whether the engine animates: animations are switched on and the style
    /// is not the static one.
    pub open spec fn enabled(&self) -> bool {
        self.settings().enabled && self.settings().style != AnimationStyle::Static
    }

    /// Ticks elapsed at `tick` in the animation of `state`.
    pub open spec fn elapsed(state: VisualState, tick: u64) -> int {
        elapsed_since(state.animation_start_tick as int, tick as int)
    }

    /// Brightness after `elapsed` ticks of an animation of the given style.
    pub open spec fn level(&self, elapsed: int, style: AnimationStyle) -> int {
        brightness_at(style, elapsed, self.period(), self.length())
    }

    /// A cycle has from 10 to 202 ticks, an animation at most 255 cycles.
    pub proof fn lemma_lengths(&self)
        requires
            self.wf(),
        ensures
            10 <= self.period() <= 202,
            0 <= self.length() <= 202 * 255,
    {
        assert(0 <= self.period() * self.settings().cycles <= 202 * 255) by (nonlinear_arith)
            requires
                0 <= self.period() <= 202,
                0 <= self.settings().cycles <= 255,
        ;
    }

    /// Brightness of `state` at `tick`: that of its animation where the
    /// engine animates and an animation runs, full otherwise.
    pub open spec fn brightness_of(&self, state: VisualState, tick: u64) -> int {
        if self.enabled() && state.is_animating {
            self.level(Self::elapsed(state, tick), state.animation_style)
        } else {
            1000
        }
    }

    /// The state after its animation was advanced to `tick`: unchanged where
    /// the engine does not animate or no animation runs; ended, at full
    /// brightness and phase zero, once the animation has run its length;
    /// otherwise with phase and brightness set for the ticks elapsed.
    pub open spec fn updated(&self, state: VisualState, tick: u64) -> VisualState {
        if !self.enabled() || !state.is_animating {
            state
        } else if Self::elapsed(state, tick) >= self.length() {
            VisualState { is_animating: false, animation_phase: 0, brightness: 1000, ..state }
        } else {
            VisualState {
                animation_phase: phase_at(Self::elapsed(state, tick), self.length()) as u32,
                brightness: self.level(Self::elapsed(state, tick), state.animation_style) as u32,
                ..state
            }
        }
    }

    /// An engine for the given settings. A cycle takes `(101 - speed) * 2`
    /// ticks and never fewer than ten; an animation takes `cycles` cycles.
    pub fn new(config: &AnimationConfig) -> (engine: AnimationEngine)
        ensures
            engine.wf(),
            engine.settings() == *config,
    {
        let doubled: u64 = if config.speed >= 101 {
            0
        } else {
            (101 - config.speed as u64) * 2
        };
        let ticks_per_cycle: u64 = if doubled < 10 {
            10
        } else {
            doubled
        };
        assert(ticks_per_cycle * (config.cycles as u64) <= 202 * 255) by (nonlinear_arith)
            requires
                ticks_per_cycle <= 202,
                config.cycles <= 255,
        ;
        let total_ticks: u64 = ticks_per_cycle * (config.cycles as u64);
        AnimationEngine { config: *config, ticks_per_cycle, total_ticks }
    }

    /// Ticks in one cycle.
    pub fn ticks_per_cycle(&self) -> (ticks: u64)
        ensures
            ticks == self.period(),
    {
        self.ticks_per_cycle
    }

    /// Ticks in one animation.
    pub fn total_ticks(&self) -> (ticks: u64)
        ensures
            ticks == self.length(),
    {
        self.total_ticks
    }

    /// Whether the engine animates.
    pub fn is_enabled(&self) -> (enabled: bool)
        ensures
            enabled == self.enabled(),
    {
        self.config.enabled && !matches!(self.config.style, AnimationStyle::Static)
    }

    /// Advances the animation of `state` to `current_tick`. Nothing happens
    /// if the engine does not animate or no animation runs. An animation that
    /// has run its length ends: brightness returns to full and the phase to
    /// zero. Otherwise phase and brightness are set for the ticks elapsed.
    pub fn update_animation(&self, visual_state: &mut VisualState, current_tick: u64)
        requires
            self.wf(),
        ensures
            *final(visual_state) == self.updated(*old(visual_state), current_tick),
            ({
                let elapsed = Self::elapsed(*old(visual_state), current_tick);
                let before = *old(visual_state);
                let after = *final(visual_state);
                &&& self.enabled() && before.is_animating && elapsed >= self.length()
                    ==> !after.is_animating && after.brightness == 1000 && after.animation_phase
                    == 0
                &&& self.enabled() && before.is_animating && elapsed < self.length()
                    ==> after.animation_phase == phase_at(elapsed, self.length())
                    && after.animation_phase < 1000 && after.brightness == self.level(
                    elapsed,
                    before.animation_style,
                ) && after.brightness <= 1000
            }),
            final(visual_state).wf() == old(visual_state).wf(),
    {
        if !self.is_enabled() || !visual_state.is_animating {
            return ;
        }
        let elapsed_ticks = current_tick.saturating_sub(visual_state.animation_start_tick);
        if elapsed_ticks >= self.total_ticks {
            visual_state.is_animating = false;
            visual_state.animation_phase = 0;
            visual_state.brightness = THOUSAND;
            return ;
        }
        proof {
            self.lemma_lengths();
        }
        let phase: u64 = elapsed_ticks * 1000 / self.total_ticks;
        assert(phase < 1000) by (nonlinear_arith)
            requires
                phase == elapsed_ticks * 1000 / (self.total_ticks as int),
                elapsed_ticks < self.total_ticks,
        ;
        visual_state.animation_phase = phase as u32;
        visual_state.brightness = self.calculate_brightness(
            elapsed_ticks,
            &visual_state.animation_style,
        );
    }

    /// Brightness, in thousandths, after `elapsed_ticks` of an animation of
    /// the given style. It lies between 0 and 1000.
    pub fn calculate_brightness(&self, elapsed_ticks: u64, style: &AnimationStyle) -> (brightness:
        u32)
        requires
            self.wf(),
        ensures
            brightness == self.level(elapsed_ticks as int, *style),
            brightness <= 1000,
    {
        proof {
            self.lemma_lengths();
        }
        let period: u64 = self.ticks_per_cycle;
        let position: u64 = elapsed_ticks % period;
        match style {
            AnimationStyle::Pulse => {
                if 2 * position < period {
                    500 + half_wave_of(2 * position, period, 500)
                } else {
                    500 - half_wave_of(2 * position - period, period, 500)
                }
            },
            AnimationStyle::Flash => {
                if 10 * position < 3 * period {
                    1000
                } else if 2 * position < period {
                    300
                } else {
                    1000
                }
            },
            AnimationStyle::Fade => {
                if elapsed_ticks >= self.total_ticks {
                    0
                } else {
                    let gone: u64 = elapsed_ticks * 1000 / self.total_ticks;
                    assert(gone < 1000) by (nonlinear_arith)
                        requires
                            gone == elapsed_ticks * 1000 / (self.total_ticks as int),
                            elapsed_ticks < self.total_ticks,
                    ;
                    (1000 - gone) as u32
                }
            },
            AnimationStyle::Breathe => 400 + half_wave_of(position, period, 600),
            AnimationStyle::Static => 1000,
        }
    }

    /// Brightness of `state` at `current_tick`, in thousandths. Full where
    /// the engine does not animate or no animation runs. The state is not
    /// changed.
    pub fn get_brightness(&self, visual_state: &VisualState, current_tick: u64) -> (brightness:
        u32)
        requires
            self.wf(),
        ensures
            brightness == self.brightness_of(*visual_state, current_tick),
            brightness <= 1000,
    {
        if !self.is_enabled() || !visual_state.is_animating {
            return THOUSAND;
        }
        let elapsed_ticks = current_tick.saturating_sub(visual_state.animation_start_tick);
        self.calculate_brightness(elapsed_ticks, &visual_state.animation_style)
    }

    /// Whether the animation of `state` has ticks left at `current_tick`.
    pub fn should_continue(&self, visual_state: &VisualState, current_tick: u64) -> (more: bool)
        ensures
            more == (visual_state.is_animating && Self::elapsed(*visual_state, current_tick)
                < self.length()),
    {
        if !visual_state.is_animating {
            return false;
        }
        let elapsed_ticks = current_tick.saturating_sub(visual_state.animation_start_tick);
        elapsed_ticks < self.total_ticks
    }

    /// Restarts the clock of the animation at `current_tick`, at full
    /// brightness. Whether an animation runs is left as it is.
    pub fn reset_animation(&self, visual_state: &mut VisualState, current_tick: u64)
        ensures
            *final(visual_state) == (VisualState {
                animation_start_tick: current_tick,
                animation_phase: 0,
                brightness: THOUSAND,
                ..*old(visual_state)
            }),
    {
        visual_state.animation_start_tick = current_tick;
        visual_state.animation_phase = 0;
        visual_state.brightness = THOUSAND;
    }

    /// Starts an animation of the given style at `current_tick`, at full
    /// brightness. Nothing happens if the engine does not animate.
    pub fn start_animation(
        &self,
        visual_state: &mut VisualState,
        current_tick: u64,
        style: AnimationStyle,
    )
        ensures
            !self.enabled() ==> *final(visual_state) == *old(visual_state),
            self.enabled() ==> *final(visual_state) == (VisualState {
                is_animating: true,
                animation_start_tick: current_tick,
                animation_phase: 0,
                animation_style: style,
                brightness: THOUSAND,
                ..*old(visual_state)
            }),
    {
        if !self.is_enabled() {
            return ;
        }
        visual_state.is_animating = true;
        visual_state.animation_start_tick = current_tick;
        visual_state.animation_phase = 0;
        visual_state.animation_style = style;
        visual_state.brightness = THOUSAND;
    }

    /// Stops the animation and returns the brightness to full. Stopping what
    /// does not run changes nothing else.
    pub fn stop_animation(&self, visual_state: &mut VisualState)
        ensures
            *final(visual_state) == (VisualState {
                is_animating: false,
                animation_phase: 0,
                brightness: THOUSAND,
                ..*old(visual_state)
            }),
    {
        visual_state.is_animating = false;
        visual_state.animation_phase = 0;
        visual_state.brightness = THOUSAND;
    }

    /// Progress of the animation in percent. It is 100 where no animation
    /// runs or the animation has run its length.
    pub fn get_progress(&self, visual_state: &VisualState, current_tick: u64) -> (percent: u8)
        ensures
            percent == (if visual_state.is_animating {
                progress_at(Self::elapsed(*visual_state, current_tick), self.length())
            } else {
                100
            }),
            percent <= 100,
    {
        if !visual_state.is_animating {
            return 100;
        }
        let elapsed_ticks = current_tick.saturating_sub(visual_state.animation_start_tick);
        if elapsed_ticks >= self.total_ticks {
            return 100;
        }
        let percent: u128 = (elapsed_ticks as u128) * 100 / (self.total_ticks as u128);
        assert(percent < 100) by (nonlinear_arith)
            requires
                percent == elapsed_ticks * 100 / (self.total_ticks as int),
                elapsed_ticks < self.total_ticks,
        ;
        percent as u8
    }
}

impl Default for AnimationEngine {
    fn default() -> (engine: AnimationEngine)
        ensures
            engine.wf(),
            engine.settings() == (AnimationConfig {
                enabled: true,
                style: AnimationStyle::Pulse,
                speed: 50,
                cycles: 3,
                duration_ms: 2000,
            }),
    {
        AnimationEngine::new(&AnimationConfig::default())
    }
}

fn half_wave_of(position: u64, period: u64, amplitude: u64) -> (value: u32)
    requires
        position <= period,
        10 <= period <= 202,
        amplitude <= 1000,
    ensures
        value == half_wave(position as int, period as int, amplitude as int),
        value <= amplitude,
{
    assert(position * (period - position) <= 202 * 202) by (nonlinear_arith)
        requires
            position <= period,
            period <= 202,
    ;
    let product: u64 = position * (period - position);
    proof {
        lemma_half_wave_bounds(position as int, period as int, amplitude as int);
    }
    assert(period * period <= 202 * 202 && period * period >= 100) by (nonlinear_arith)
        requires
            10 <= period <= 202,
    ;
    assert(16 * amplitude * product <= 16 * 1000 * (202 * 202)) by (nonlinear_arith)
        requires
            amplitude <= 1000,
            product <= 202 * 202,
    ;
    assert(16 * amplitude <= 16000);
    let numerator: u64 = 16 * amplitude * product;
    let denominator: u64 = 5 * (period * period) - 4 * product;
    assert(5 * period * period == 5 * (period * period)) by (nonlinear_arith);
    (numerator / denominator) as u32
}

/// Brightness always lies between zero and one: between 0 and 1000
/// thousandths, for every style and any number of elapsed ticks.
pub proof fn lemma_brightness_in_range(style: AnimationStyle, elapsed: int, period: int, total: int)
    requires
        0 <= elapsed,
        0 < period,
    ensures
        0 <= brightness_at(style, elapsed, period, total) <= 1000,
{
    let position = elapsed % period;
    assert(0 <= position < period) by (nonlinear_arith)
        requires
            position == elapsed % period,
            0 < period,
    ;
    match style {
        AnimationStyle::Pulse => {
            if 2 * position < period {
                lemma_half_wave_bounds(2 * position, period, 500);
            } else {
                lemma_half_wave_bounds(2 * position - period, period, 500);
            }
        },
        AnimationStyle::Breathe => {
            lemma_half_wave_bounds(position, period, 600);
        },
        AnimationStyle::Fade => {
            if elapsed < total {
                assert(0 <= 1000 * elapsed / total < 1000) by (nonlinear_arith)
                    requires
                        0 <= elapsed < total,
                ;
            }
        },
        _ => {},
    }
}

/// The half wave has the marks of the sine of half a turn: it is zero at
/// both ends, the same on both sides of the middle, its full amplitude in the
/// middle and half of it at a sixth of the way.
pub proof fn lemma_half_wave_marks(position: int, period: int, amplitude: int)
    requires
        0 <= position <= period,
        0 < period,
        0 <= amplitude,
    ensures
        half_wave(0, period, amplitude) == 0,
        half_wave(period, period, amplitude) == 0,
        half_wave(position, period, amplitude) == half_wave(period - position, period, amplitude),
        period % 2 == 0 ==> half_wave(period / 2, period, amplitude) == amplitude,
        period % 6 == 0 ==> half_wave(period / 6, period, 2 * amplitude) == amplitude,
{
    assert(half_wave(0, period, amplitude) == 0 && half_wave(period, period, amplitude) == 0)
        by (nonlinear_arith)
        requires
            0 < period,
    ;
    assert(position * (period - position) == (period - position) * (period - (period
        - position))) by (nonlinear_arith);
    if period % 2 == 0 {
        let half = period / 2;
        assert(half_wave(half, period, amplitude) == amplitude) by (nonlinear_arith)
            requires
                period == 2 * half,
                half > 0,
                amplitude >= 0,
        {
            assert(half * (period - half) == half * half);
            assert(5 * period * period - 4 * (half * half) == 16 * (half * half));
            assert(16 * amplitude * (half * half) == amplitude * (16 * (half * half)));
            assert(half * half > 0);
        }
    }
    if period % 6 == 0 {
        let sixth = period / 6;
        assert(half_wave(sixth, period, 2 * amplitude) == amplitude) by (nonlinear_arith)
            requires
                period == 6 * sixth,
                sixth > 0,
                amplitude >= 0,
        {
            assert(sixth * (period - sixth) == 5 * (sixth * sixth));
            assert(5 * period * period - 4 * (5 * (sixth * sixth)) == 160 * (sixth * sixth));
            assert(16 * (2 * amplitude) * (5 * (sixth * sixth)) == amplitude * (160 * (sixth
                * sixth)));
            assert(sixth * sixth > 0);
        }
    }
}

/// The half wave rises up to the middle of the period.
pub proof fn lemma_half_wave_rises(earlier: int, later: int, period: int, amplitude: int)
    requires
        0 <= earlier <= later,
        2 * later <= period,
        0 <= amplitude,
    ensures
        half_wave(earlier, period, amplitude) <= half_wave(later, period, amplitude),
{
    let low = earlier * (period - earlier);
    let high = later * (period - later);
    assert(0 <= low <= high && 4 * high <= period * period) by (nonlinear_arith)
        requires
            0 <= earlier <= later,
            2 * later <= period,
            low == earlier * (period - earlier),
            high == later * (period - later),
    ;
    if later > 0 {
        let below = 5 * period * period - 4 * low;
        let above = 5 * period * period - 4 * high;
        assert(5 * period * period == 5 * (period * period)) by (nonlinear_arith);
        assert(period * period > 0) by (nonlinear_arith)
            requires
                period >= 2 * later > 0,
        ;
        assert(0 < above <= below);
        let small = 16 * amplitude * low;
        let large = 16 * amplitude * high;
        assert(0 <= small <= large) by (nonlinear_arith)
            requires
                0 <= low <= high,
                0 <= amplitude,
                small == 16 * amplitude * low,
                large == 16 * amplitude * high,
        ;
        assert(small / below <= large / above) by (nonlinear_arith)
            requires
                0 <= small <= large,
                0 < above <= below,
        {
            assert(small / below <= small / above);
            assert(small / above <= large / above);
        }
    }
}

/// The half wave stays between zero and its amplitude, and its denominator
/// is positive.
pub proof fn lemma_half_wave_bounds(position: int, period: int, amplitude: int)
    requires
        0 <= position <= period,
        0 < period,
        0 <= amplitude,
    ensures
        0 <= half_wave(position, period, amplitude) <= amplitude,
        4 * (position * (period - position)) <= period * period,
        5 * period * period - 4 * (position * (period - position)) >= 4 * period * period,
        4 * period * period > 0,
{
    let product = position * (period - position);
    assert(0 <= product && 4 * product <= period * period) by (nonlinear_arith)
        requires
            product == position * (period - position),
            0 <= position <= period,
    ;
    assert(period * period > 0) by (nonlinear_arith)
        requires
            0 < period,
    ;
    let denominator = 5 * period * period - 4 * product;
    assert(denominator >= 4 * (period * period)) by (nonlinear_arith)
        requires
            denominator == 5 * period * period - 4 * product,
            4 * product <= period * period,
    ;
    assert(4 * period * period == 4 * (period * period)) by (nonlinear_arith);
    assert(0 <= 16 * amplitude * product <= amplitude * denominator) by (nonlinear_arith)
        requires
            0 <= product,
            0 <= amplitude,
            4 * product <= period * period,
            denominator >= 4 * (period * period),
    ;
    assert(0 <= (16 * amplitude * product) / denominator <= amplitude) by (nonlinear_arith)
        requires
            0 <= 16 * amplitude * product <= amplitude * denominator,
            denominator > 0,
    ;
}

/// The largest time and brightness of a keyframe that an animation
/// interpolates: a million wholes, so that products of two of them fit the
/// machine's integers.
pub const KEYFRAME_LIMIT: u32 = 1_000_000_000;

/// A point of a custom animation: a brightness at a time, both in
/// thousandths.
#[derive(Debug, Clone, Copy, PartialEq, Eq, Structural)]
pub struct Keyframe {
    /// Time position, from 0 to 1000.
    pub time: u32,
    /// Brightness at this time.
    pub brightness: u32,
    /// Colour modifier, if any.
    pub color_modifier: Option<u32>,
}

impl Keyframe {
    /// A keyframe without a colour modifier.
    pub fn new(time: u32, brightness: u32) -> (keyframe: Keyframe)
        ensures
            keyframe == (Keyframe { time, brightness, color_modifier: None }),
    {
        Keyframe { time, brightness, color_modifier: None }
    }

    /// A keyframe with a colour modifier.
    pub fn with_color_modifier(time: u32, brightness: u32, color_modifier: u32) -> (keyframe:
        Keyframe)
        ensures
            keyframe == (Keyframe { time, brightness, color_modifier: Some(color_modifier) }),
    {
        Keyframe { time, brightness, color_modifier: Some(color_modifier) }
    }
}

/// The first of the first `upto` keyframes that stands at or after `time`.
pub open spec fn first_from(keyframes: Seq<Keyframe>, time: int, upto: int) -> Option<int>
    decreases upto,
{
    if upto <= 0 {
        None
    } else {
        match first_from(keyframes, time, upto - 1) {
            Some(index) => Some(index),
            None => if keyframes[upto - 1].time >= time {
                Some(upto - 1)
            } else {
                None
            },
        }
    }
}

/// The last of the first `upto` keyframes that stands at or before `time`.
pub open spec fn last_until(keyframes: Seq<Keyframe>, time: int, upto: int) -> Option<int>
    decreases upto,
{
    if upto <= 0 {
        None
    } else if keyframes[upto - 1].time <= time {
        Some(upto - 1)
    } else {
        last_until(keyframes, time, upto - 1)
    }
}

/// The keyframe after `time`: the first at or after it, or the first of all
/// where none is.
pub open spec fn next_keyframe(keyframes: Seq<Keyframe>, time: int) -> Keyframe {
    match first_from(keyframes, time, keyframes.len() as int) {
        Some(index) => keyframes[index],
        None => keyframes[0],
    }
}

/// The keyframe before `time`: the last at or before it among the keyframes
/// up to the one after it, or the first of all where none is.
pub open spec fn previous_keyframe(keyframes: Seq<Keyframe>, time: int) -> Keyframe {
    let scanned = match first_from(keyframes, time, keyframes.len() as int) {
        Some(index) => index + 1,
        None => keyframes.len() as int,
    };
    match last_until(keyframes, time, scanned) {
        Some(index) => keyframes[index],
        None => keyframes[0],
    }
}

/// The brightness at `time` on the straight line through two keyframes,
/// fraction dropped towards the lower value; the brightness of the first
/// where both stand at one time.
pub open spec fn on_line(previous: Keyframe, next: Keyframe, time: int) -> int {
    let run = next.time - previous.time;
    let rise = (next.brightness - previous.brightness) * (time - previous.time);
    if run == 0 {
        previous.brightness as int
    } else if run > 0 {
        previous.brightness + rise / run
    } else {
        previous.brightness + (-rise) / (-run)
    }
}

/// An animation given by keyframes.
#[derive(Debug, Clone)]
pub struct CustomAnimation {
    /// Name of the animation.
    pub name: String,
    /// The keyframes, in the order of their times.
    pub keyframes: Vec<Keyframe>,
    /// Whether the animation starts over at its end.
    pub loops: bool,
}

impl CustomAnimation {
    /// Whether every keyframe stands within [`KEYFRAME_LIMIT`].
    pub open spec fn wf(self) -> bool {
        forall|i: int|
            0 <= i < self.keyframes@.len() ==> (#[trigger] self.keyframes@[i]).time
                <= KEYFRAME_LIMIT && self.keyframes@[i].brightness <= KEYFRAME_LIMIT
    }

    /// The time within the animation that `time` stands for: the remainder
    /// of one whole for an animation that loops, the time held to one whole
    /// for one that does not.
    pub open spec fn local_time(self, time: int) -> int {
        if self.loops {
            time % 1000
        } else if time > 1000 {
            1000
        } else {
            time
        }
    }

    /// Brightness at `time`, both in thousandths: full for an animation
    /// without keyframes, otherwise on the line through the keyframes before
    /// and after the time.
    pub open spec fn brightness_at(self, time: int) -> int {
        if self.keyframes@.len() == 0 {
            1000
        } else {
            on_line(
                previous_keyframe(self.keyframes@, self.local_time(time)),
                next_keyframe(self.keyframes@, self.local_time(time)),
                self.local_time(time),
            )
        }
    }

    /// An animation of the given keyframes.
    pub fn new(name: &str, keyframes: Vec<Keyframe>, loops: bool) -> (animation: CustomAnimation)
        ensures
            animation.name@ == name@,
            animation.keyframes == keyframes,
            animation.loops == loops,
    {
        CustomAnimation { name: name.to_string(), keyframes, loops }
    }

    /// Brightness at `time`, both in thousandths. Between two keyframes the
    /// brightness moves on a straight line; outside them the line of the
    /// keyframes found is followed further, which may lead below zero.
    pub fn interpolate(&self, time: u32) -> (brightness: i64)
        requires
            self.wf(),
        ensures
            brightness == self.brightness_at(time as int),
    {
        if self.keyframes.len() == 0 {
            return 1000;
        }
        let time: u32 = if self.loops {
            time % 1000
        } else if time > 1000 {
            1000
        } else {
            time
        };
        let mut previous: Keyframe = self.keyframes[0];
        let mut next: Keyframe = self.keyframes[0];
        let mut found = false;
        let mut i: usize = 0;
        while i < self.keyframes.len() && !found
            invariant
                i <= self.keyframes@.len(),
                self.keyframes@.len() > 0,
                self.wf(),
                previous.time <= KEYFRAME_LIMIT && previous.brightness <= KEYFRAME_LIMIT,
                next.time <= KEYFRAME_LIMIT && next.brightness <= KEYFRAME_LIMIT,
                found ==> i > 0 && first_from(self.keyframes@, time as int, i as int) == Some(
                    i - 1,
                ) && next == self.keyframes@[i - 1],
                !found ==> first_from(self.keyframes@, time as int, i as int) is None && next
                    == self.keyframes@[0],
                previous == (match last_until(self.keyframes@, time as int, i as int) {
                    Some(index) => self.keyframes@[index],
                    None => self.keyframes@[0],
                }),
            decreases self.keyframes@.len() - i + (if found { 0int } else { 1 }),
        {
            let keyframe = self.keyframes[i];
            if keyframe.time <= time {
                previous = keyframe;
            }
            if keyframe.time >= time {
                next = keyframe;
                found = true;
            }
            i += 1;
        }
        proof {
            lemma_first_from_stays(self.keyframes@, time as int, i as int);
        }
        line_value(previous, next, time)
    }
}

/// Between two keyframes the brightness lies between theirs, and at each of
/// them it is its own.
pub proof fn lemma_on_line_between(previous: Keyframe, next: Keyframe, time: int)
    requires
        previous.time <= time <= next.time,
        previous.time < next.time,
    ensures
        previous.brightness <= next.brightness ==> previous.brightness <= on_line(
            previous,
            next,
            time,
        ) <= next.brightness,
        previous.brightness >= next.brightness ==> next.brightness <= on_line(
            previous,
            next,
            time,
        ) <= previous.brightness,
        on_line(previous, next, previous.time as int) == previous.brightness,
        on_line(previous, next, next.time as int) == next.brightness,
{
    let run = next.time - previous.time;
    let height = next.brightness - previous.brightness;
    let along = time - previous.time;
    assert(height >= 0 ==> 0 <= height * along / run <= height) by (nonlinear_arith)
        requires
            0 <= along <= run,
            0 < run,
    ;
    assert(height <= 0 ==> height <= height * along / run <= 0) by (nonlinear_arith)
        requires
            0 <= along <= run,
            0 < run,
    ;
    assert(height * 0 / run == 0) by (nonlinear_arith)
        requires
            0 < run,
    ;
    assert(height * run / run == height) by (nonlinear_arith)
        requires
            0 < run,
    ;
}

/// Once a keyframe at or after the time is found, it stays the first; and
/// where the whole sequence holds none, none is found.
proof fn lemma_first_from_stays(keyframes: Seq<Keyframe>, time: int, upto: int)
    requires
        0 <= upto <= keyframes.len(),
        first_from(keyframes, time, upto) is Some || upto == keyframes.len(),
    ensures
        first_from(keyframes, time, keyframes.len() as int) == first_from(keyframes, time, upto),
    decreases keyframes.len() - upto,
{
    if upto < keyframes.len() {
        lemma_first_from_stays(keyframes, time, upto + 1);
    }
}

fn line_value(previous: Keyframe, next: Keyframe, time: u32) -> (value: i64)
    requires
        previous.time <= KEYFRAME_LIMIT && previous.brightness <= KEYFRAME_LIMIT,
        next.time <= KEYFRAME_LIMIT && next.brightness <= KEYFRAME_LIMIT,
        time <= 1000,
    ensures
        value == on_line(previous, next, time as int),
{
    if previous.time == next.time {
        return previous.brightness as i64;
    }
    // Both differences are taken with the sign that makes the run positive.
    let forward = next.time > previous.time;
    let run: u64 = if forward {
        (next.time - previous.time) as u64
    } else {
        (previous.time - next.time) as u64
    };
    let height: i64 = next.brightness as i64 - previous.brightness as i64;
    let along: i64 = time as i64 - previous.time as i64;
    let signed_height: i64 = if forward {
        height
    } else {
        -height
    };
    assert(-1_000_000_000_000_000_000 <= signed_height * along <= 1_000_000_000_000_000_000)
        by (nonlinear_arith)
        requires
            -1_000_000_000 <= signed_height <= 1_000_000_000,
            -1_000_000_000 <= along <= 1_000_000_000,
    ;
    let rise: i128 = (signed_height as i128) * (along as i128);
    assert(rise == (if forward {
        (next.brightness - previous.brightness) * (time - previous.time)
    } else {
        -((next.brightness - previous.brightness) * (time - previous.time))
    })) by (nonlinear_arith)
        requires
            rise == signed_height * along,
            height == next.brightness - previous.brightness,
            along == time - previous.time,
            signed_height as int == (if forward {
                height as int
            } else {
                -(height as int)
            }),
    ;
    let step: i128 = floor_div(rise, run);
    (previous.brightness as i128 + step) as i64
}

/// `value / by`, rounded down.
fn floor_div(value: i128, by: u64) -> (quotient: i128)
    requires
        by > 0,
        -1_000_000_000_000_000_000 <= value <= 1_000_000_000_000_000_000,
    ensures
        quotient == (value as int) / (by as int),
        -1_000_000_000_000_000_000 <= quotient <= 1_000_000_000_000_000_000,
{
    if value >= 0 {
        let magnitude: u128 = value as u128;
        let q: u128 = magnitude / (by as u128);
        assert(q <= magnitude) by (nonlinear_arith)
            requires
                q == magnitude / (by as u128),
                by >= 1,
        ;
        q as i128
    } else {
        let magnitude: u128 = (-value) as u128;
        let q: u128 = (magnitude + (by as u128) - 1) / (by as u128);
        assert(q <= magnitude && -(q as int) == (value as int) / (by as int)) by (nonlinear_arith)
            requires
                q == (magnitude + by - 1) / (by as int),
                magnitude == -value,
                magnitude > 0,
                by >= 1,
        ;
        -(q as i128)
    }
}

} // verus!
