//! What is drawn: the status bar, pane badges, border styles and summaries,
//! as text. Nothing here writes to the terminal.

use crate::animation::AnimationEngine;
use crate::colors::{dimmed_hex, escape_text, ColorManager};
use crate::config::Config;
use crate::notification::NotificationType;
use crate::panes::PaneStates;
use crate::queue::NotificationQueue;
use crate::state::VisualState;
use crate::text::{decimal, push_decimal, push_text};
use vstd::prelude::*;

verus! {

/// Line styles of a pane border.
#[derive(Debug, Clone, Copy, PartialEq, Eq, Structural)]
pub enum BorderLineStyle {
    /// Single line.
    Single,
    /// Double line.
    Double,
    /// Dashed line.
    Dashed,
    /// Dotted line.
    Dotted,
    /// Thick line.
    Bold,
}

/// The box-drawing characters of a border.
#[derive(Debug, Clone, Copy, PartialEq, Eq, Structural)]
pub struct BorderChars {
    pub horizontal: char,
    pub vertical: char,
    pub top_left: char,
    pub top_right: char,
    pub bottom_left: char,
    pub bottom_right: char,
}

impl BorderLineStyle {
    /// The box-drawing characters of the style. Dashed and dotted borders
    /// have the corners of the single line.
    pub open spec fn glyphs(self) -> BorderChars {
        match self {
            BorderLineStyle::Single => BorderChars {
                horizontal: '\u{2500}',
                vertical: '\u{2502}',
                top_left: '\u{250C}',
                top_right: '\u{2510}',
                bottom_left: '\u{2514}',
                bottom_right: '\u{2518}',
            },
            BorderLineStyle::Double => BorderChars {
                horizontal: '\u{2550}',
                vertical: '\u{2551}',
                top_left: '\u{2554}',
                top_right: '\u{2557}',
                bottom_left: '\u{255A}',
                bottom_right: '\u{255D}',
            },
            BorderLineStyle::Dashed => BorderChars {
                horizontal: '\u{2504}',
                vertical: '\u{2506}',
                top_left: '\u{250C}',
                top_right: '\u{2510}',
                bottom_left: '\u{2514}',
                bottom_right: '\u{2518}',
            },
            BorderLineStyle::Dotted => BorderChars {
                horizontal: '\u{2508}',
                vertical: '\u{250A}',
                top_left: '\u{250C}',
                top_right: '\u{2510}',
                bottom_left: '\u{2514}',
                bottom_right: '\u{2518}',
            },
            BorderLineStyle::Bold => BorderChars {
                horizontal: '\u{2501}',
                vertical: '\u{2503}',
                top_left: '\u{250F}',
                top_right: '\u{2513}',
                bottom_left: '\u{2517}',
                bottom_right: '\u{251B}',
            },
        }
    }

    /// The box-drawing characters of the style.
    pub fn chars(&self) -> (chars: BorderChars)
        ensures
            chars == self.glyphs(),
    {
        match self {
            BorderLineStyle::Single => BorderChars {
                horizontal: '\u{2500}',
                vertical: '\u{2502}',
                top_left: '\u{250C}',
                top_right: '\u{2510}',
                bottom_left: '\u{2514}',
                bottom_right: '\u{2518}',
            },
            BorderLineStyle::Double => BorderChars {
                horizontal: '\u{2550}',
                vertical: '\u{2551}',
                top_left: '\u{2554}',
                top_right: '\u{2557}',
                bottom_left: '\u{255A}',
                bottom_right: '\u{255D}',
            },
            BorderLineStyle::Dashed => BorderChars {
                horizontal: '\u{2504}',
                vertical: '\u{2506}',
                top_left: '\u{250C}',
                top_right: '\u{2510}',
                bottom_left: '\u{2514}',
                bottom_right: '\u{2518}',
            },
            BorderLineStyle::Dotted => BorderChars {
                horizontal: '\u{2508}',
                vertical: '\u{250A}',
                top_left: '\u{250C}',
                top_right: '\u{2510}',
                bottom_left: '\u{2514}',
                bottom_right: '\u{2518}',
            },
            BorderLineStyle::Bold => BorderChars {
                horizontal: '\u{2501}',
                vertical: '\u{2503}',
                top_left: '\u{250F}',
                top_right: '\u{2513}',
                bottom_left: '\u{2517}',
                bottom_right: '\u{251B}',
            },
        }
    }
}

/// Colour and line style of a pane border.
#[derive(Debug, Clone)]
pub struct BorderStyle {
    /// The colour, in hexadecimal.
    pub color: String,
    /// The line style.
    pub style: BorderLineStyle,
}

/// The symbol of a kind of notification in plain characters.
pub open spec fn plain_icon(kind: NotificationType) -> Seq<char> {
    match kind {
        NotificationType::Success => "+"@,
        NotificationType::Error => "X"@,
        NotificationType::Warning => "!"@,
        NotificationType::Info => "i"@,
        NotificationType::Progress => "~"@,
        NotificationType::Attention => "!"@,
    }
}

/// The pattern that marks a kind of notification by shape.
pub open spec fn pattern_text(kind: NotificationType) -> Seq<char> {
    match kind {
        NotificationType::Success => "="@,
        NotificationType::Error => "##"@,
        NotificationType::Warning => "~~"@,
        NotificationType::Info => ".."@,
        NotificationType::Progress => "->"@,
        NotificationType::Attention => "!!"@,
    }
}

/// The reset escape sequence.
pub open spec fn reset_text() -> Seq<char> {
    "\x1b[0m"@
}

/// The number of panes among `entries` that show a notification of the
/// given kind.
pub open spec fn shown_count(entries: Seq<(u32, VisualState)>, kind: NotificationType) -> nat
    decreases entries.len(),
{
    if entries.len() == 0 {
        0
    } else {
        shown_count(entries.drop_last(), kind) + (if entries.last().1.shows_notification()
            && entries.last().1.notification_type == Some(kind) {
            1nat
        } else {
            0
        })
    }
}

/// The number of panes among `entries` that show a notification.
pub open spec fn active_count(entries: Seq<(u32, VisualState)>) -> nat
    decreases entries.len(),
{
    if entries.len() == 0 {
        0
    } else {
        active_count(entries.drop_last()) + (if entries.last().1.shows_notification() {
            1nat
        } else {
            0
        })
    }
}

/// Draws the overlay as text.
#[derive(Debug, Clone, Copy, PartialEq, Eq, Structural)]
pub struct Renderer {
    /// Whether the status bar is drawn.
    pub show_status_bar: bool,
    /// Whether pane borders are coloured.
    pub show_border_colors: bool,
    /// Whether tabs carry badges.
    pub show_tab_badges: bool,
    /// Whether symbols may be taken from beyond ASCII.
    pub use_unicode: bool,
    /// Whether kinds are marked by a pattern as well as by colour.
    pub use_patterns: bool,
}

impl Renderer {
    /// The symbol of a kind of notification.
    pub open spec fn icon_text(self, kind: NotificationType) -> Seq<char> {
        if self.use_unicode {
            kind.icon_text()
        } else {
            plain_icon(kind)
        }
    }

    /// The coloured count of one kind in the summary: the kind's colour, its
    /// symbol, the count, and a reset.
    pub open spec fn summary_part(self, kind: NotificationType, count: nat, colors: ColorManager) -> Seq<
        char,
    > {
        escape_text(colors.notification_color(kind), colors.capability(), false) + self.icon_text(
            kind,
        ) + decimal(count) + reset_text()
    }

    /// The summary after the counts of the first `upto` kinds, in the order
    /// success, error, warning, attention, info. Kinds without a notification
    /// are left out; the others are separated by blanks.
    pub open spec fn summary_upto(
        self,
        entries: Seq<(u32, VisualState)>,
        colors: ColorManager,
        upto: int,
    ) -> Seq<char>
        decreases upto,
    {
        if upto <= 0 {
            Seq::empty()
        } else {
            let before = self.summary_upto(entries, colors, upto - 1);
            let kind = summary_kind(upto - 1);
            let count = shown_count(entries, kind);
            if count == 0 {
                before
            } else if before.len() == 0 {
                self.summary_part(kind, count, colors)
            } else {
                before + " "@ + self.summary_part(kind, count, colors)
            }
        }
    }

    /// The summary line of the panes.
    pub open spec fn summary_text(self, entries: Seq<(u32, VisualState)>, colors: ColorManager) -> Seq<
        char,
    > {
        if self.summary_upto(entries, colors, 5).len() == 0 {
            "No notifications"@
        } else {
            self.summary_upto(entries, colors, 5)
        }
    }

    /// The indicator of one pane in the status bar: nothing for a pane that
    /// shows no notification; otherwise, in the notification's colour at the
    /// brightness of its animation, the symbol and pattern of its kind, the
    /// pane, and a star if it animates.
    pub open spec fn indicator(
        self,
        pane_id: u32,
        state: VisualState,
        colors: ColorManager,
        engine: AnimationEngine,
        tick: u64,
    ) -> Seq<char> {
        match state.notification_type {
            Some(kind) if !state.acknowledged => escape_text(
                dimmed_hex(colors.notification_color(kind), engine.brightness_of(state, tick)),
                colors.capability(),
                false,
            ) + "["@ + self.icon_text(kind) + (if self.use_patterns {
                pattern_text(kind)
            } else {
                Seq::empty()
            }) + ":"@ + decimal(pane_id as nat) + (if state.is_animating {
                "*"@
            } else {
                Seq::empty()
            }) + "]"@ + reset_text() + " "@,
            _ => Seq::empty(),
        }
    }

    /// The indicators of the panes, in ascending order of the panes.
    pub open spec fn indicators(
        self,
        entries: Seq<(u32, VisualState)>,
        colors: ColorManager,
        engine: AnimationEngine,
        tick: u64,
    ) -> Seq<char>
        decreases entries.len(),
    {
        if entries.len() == 0 {
            Seq::empty()
        } else {
            self.indicators(entries.drop_last(), colors, engine, tick) + self.indicator(
                entries.last().0,
                entries.last().1,
                colors,
                engine,
                tick,
            )
        }
    }

    /// The content of the status bar: the bell, then either a muted note that
    /// there are no notifications, or the indicators of the panes followed by
    /// the number of queued notifications, if any.
    pub open spec fn status_text(
        self,
        active: nat,
        queued: nat,
        entries: Seq<(u32, VisualState)>,
        colors: ColorManager,
        engine: AnimationEngine,
        tick: u64,
    ) -> Seq<char> {
        (if self.use_unicode {
            "\u{1F514}"@
        } else {
            "[N]"@
        }) + " "@ + (if active == 0 && queued == 0 {
            escape_text(colors.adapt(colors.theme().dimmed_color), colors.capability(), false)
                + "No notifications"@ + reset_text()
        } else {
            self.indicators(entries, colors, engine, tick) + (if queued > 0 {
                "(+"@ + decimal(queued) + " queued)"@
            } else {
                Seq::empty()
            })
        })
    }

    /// The badge of a pane: nothing where badges are off or the pane shows no
    /// notification; otherwise the symbol of the notification's kind in its
    /// colour.
    pub open spec fn badge_text(self, state: VisualState, colors: ColorManager) -> Option<Seq<char>> {
        match state.notification_type {
            Some(kind) if self.show_tab_badges && !state.acknowledged => Some(
                escape_text(colors.notification_color(kind), colors.capability(), false)
                    + self.icon_text(kind) + reset_text(),
            ),
            _ => None,
        }
    }

    /// The tooltip of a pane: the symbol of the notification's kind, a blank
    /// and the message; nothing where the pane has no message.
    pub open spec fn tooltip_text(self, state: VisualState) -> Option<Seq<char>> {
        match state.notification_message {
            Some(message) => Some(
                (match state.notification_type {
                    Some(kind) => self.icon_text(kind),
                    None => Seq::empty(),
                }) + " "@ + message@,
            ),
            None => None,
        }
    }

    /// A renderer for the settings, with symbols from beyond ASCII.
    pub fn new(config: &Config) -> (renderer: Renderer)
        ensures
            renderer == (Renderer {
                show_status_bar: config.show_status_bar,
                show_border_colors: config.show_border_colors,
                show_tab_badges: config.show_tab_badges,
                use_unicode: true,
                use_patterns: config.accessibility.use_patterns,
            }),
    {
        Renderer {
            show_status_bar: config.show_status_bar,
            show_border_colors: config.show_border_colors,
            show_tab_badges: config.show_tab_badges,
            use_unicode: true,
            use_patterns: config.accessibility.use_patterns,
        }
    }

    /// The symbol of a kind of notification.
    pub fn get_notification_icon(&self, notification_type: &NotificationType) -> (icon:
        &'static str)
        ensures
            icon@ == self.icon_text(*notification_type),
    {
        if self.use_unicode {
            match notification_type {
                NotificationType::Success => "\u{2714}",
                NotificationType::Error => "\u{2718}",
                NotificationType::Warning => "\u{26A0}",
                NotificationType::Info => "\u{2139}",
                NotificationType::Progress => "\u{21BB}",
                NotificationType::Attention => "\u{2757}",
            }
        } else {
            match notification_type {
                NotificationType::Success => "+",
                NotificationType::Error => "X",
                NotificationType::Warning => "!",
                NotificationType::Info => "i",
                NotificationType::Progress => "~",
                NotificationType::Attention => "!",
            }
        }
    }

    /// The pattern that marks a kind of notification by shape.
    pub fn get_pattern_suffix(&self, notification_type: &NotificationType) -> (pattern:
        &'static str)
        ensures
            pattern@ == pattern_text(*notification_type),
    {
        match notification_type {
            NotificationType::Success => "=",
            NotificationType::Error => "##",
            NotificationType::Warning => "~~",
            NotificationType::Info => "..",
            NotificationType::Progress => "->",
            NotificationType::Attention => "!!",
        }
    }

    /// The badge of a pane, for the tab bar.
    pub fn render_pane_badge(&self, state: &VisualState, color_manager: &ColorManager) -> (badge:
        Option<String>)
        ensures
            match badge {
                Some(text) => self.badge_text(*state, *color_manager) == Some(text@),
                None => self.badge_text(*state, *color_manager) is None,
            },
    {
        if !self.show_tab_badges {
            return None;
        }
        if let Some(kind) = &state.notification_type {
            if !state.acknowledged {
                let icon = self.get_notification_icon(kind);
                let color = color_manager.get_notification_color(kind).unwrap();
                let mut badge = color_manager.fg_escape(color.as_str());
                push_text(&mut badge, icon);
                push_text(&mut badge, color_manager.reset_escape());
                return Some(badge);
            }
        }
        None
    }

    /// The border of a pane: nothing where borders are off or the pane shows
    /// no notification; otherwise the colour of the notification at the
    /// brightness of its animation, with a double line while it animates.
    pub fn get_border_style(
        &self,
        state: &VisualState,
        color_manager: &ColorManager,
        animation_engine: &AnimationEngine,
        tick: u64,
    ) -> (border: Option<BorderStyle>)
        requires
            animation_engine.wf(),
        ensures
            match state.notification_type {
                Some(kind) if self.show_border_colors && !state.acknowledged => border matches Some(
                    b,
                ) && b.color@ == dimmed_hex(
                    color_manager.notification_color(kind),
                    animation_engine.brightness_of(*state, tick),
                ) && b.style == (if state.is_animating {
                    BorderLineStyle::Double
                } else {
                    BorderLineStyle::Single
                }),
                _ => border is None,
            },
    {
        if !self.show_border_colors {
            return None;
        }
        if let Some(kind) = &state.notification_type {
            if !state.acknowledged {
                let base_color = color_manager.get_notification_color(kind).unwrap();
                let brightness = animation_engine.get_brightness(state, tick);
                let color = color_manager.apply_brightness(base_color.as_str(), brightness);
                return Some(
                    BorderStyle {
                        color,
                        style: if state.is_animating {
                            BorderLineStyle::Double
                        } else {
                            BorderLineStyle::Single
                        },
                    },
                );
            }
        }
        None
    }

    /// The tooltip of a pane.
    pub fn format_notification_tooltip(&self, state: &VisualState, _color_manager: &ColorManager) -> (tooltip:
        Option<String>)
        ensures
            match tooltip {
                Some(text) => self.tooltip_text(*state) == Some(text@),
                None => self.tooltip_text(*state) is None,
            },
    {
        match &state.notification_message {
            Some(message) => {
                let icon = match &state.notification_type {
                    Some(kind) => self.get_notification_icon(kind),
                    None => "",
                };
                proof {
                    reveal_strlit("");
                }
                assert(""@ =~= Seq::<char>::empty());
                let mut tooltip = String::new();
                push_text(&mut tooltip, icon);
                push_text(&mut tooltip, " ");
                push_text(&mut tooltip, message.as_str());
                assert(tooltip@ =~= self.tooltip_text(*state)->0);
                Some(tooltip)
            },
            None => None,
        }
    }
}

impl Renderer {
    /// The content of the status bar, or nothing where the bar is off or the
    /// surface is narrower than ten columns. The caller writes it to the
    /// terminal.
    pub fn render_status_bar(
        &self,
        rows: usize,
        cols: usize,
        pane_states: &PaneStates,
        queue: &NotificationQueue,
        color_manager: &ColorManager,
        animation_engine: &AnimationEngine,
        tick: u64,
    ) -> (content: Option<String>)
        requires
            queue.wf(),
            animation_engine.wf(),
        ensures
            match content {
                Some(text) => self.show_status_bar && cols >= 10 && text@ == self.status_text(
                    active_count(pane_states@),
                    queue@.entries().len(),
                    pane_states@,
                    *color_manager,
                    *animation_engine,
                    tick,
                ),
                None => !self.show_status_bar || cols < 10,
            },
    {
        if !self.show_status_bar || cols < 10 {
            return None;
        }
        let active = count_active(pane_states);
        let queued = queue.len();
        Some(
            self.build_status_content(
                active,
                queued,
                pane_states,
                color_manager,
                animation_engine,
                tick,
            ),
        )
    }

    /// The content of the status bar for the given numbers of shown and of
    /// queued notifications.
    pub fn build_status_content(
        &self,
        active_count: usize,
        queue_count: usize,
        pane_states: &PaneStates,
        color_manager: &ColorManager,
        animation_engine: &AnimationEngine,
        tick: u64,
    ) -> (content: String)
        requires
            animation_engine.wf(),
        ensures
            content@ == self.status_text(
                active_count as nat,
                queue_count as nat,
                pane_states@,
                *color_manager,
                *animation_engine,
                tick,
            ),
    {
        let mut output = String::new();
        push_text(&mut output, if self.use_unicode { "\u{1F514}" } else { "[N]" });
        push_text(&mut output, " ");
        let ghost head = output@;
        if active_count == 0 && queue_count == 0 {
            let dimmed = color_manager.get_dimmed_color();
            let escape = color_manager.fg_escape(dimmed.as_str());
            push_text(&mut output, escape.as_str());
            push_text(&mut output, "No notifications");
            push_text(&mut output, color_manager.reset_escape());
            assert(output@ =~= self.status_text(
                active_count as nat,
                queue_count as nat,
                pane_states@,
                *color_manager,
                *animation_engine,
                tick,
            ));
        } else {
            let mut i: usize = 0;
            assert(output@ =~= head + self.indicators(
                pane_states@.take(0),
                *color_manager,
                *animation_engine,
                tick,
            ));
            while i < pane_states.len()
                invariant
                    i <= pane_states@.len(),
                    animation_engine.wf(),
                    output@ == head + self.indicators(
                        pane_states@.take(i as int),
                        *color_manager,
                        *animation_engine,
                        tick,
                    ),
                decreases pane_states@.len() - i,
            {
                let pane_id = pane_states.pane_at(i);
                let state = pane_states.state_at(i);
                let ghost before = output@;
                assert(pane_states@.take(i as int + 1).drop_last() =~= pane_states@.take(i as int));
                assert(pane_states@.take(i as int + 1).last() == pane_states@[i as int]);
                self.push_indicator(
                    &mut output,
                    pane_id,
                    state,
                    color_manager,
                    animation_engine,
                    tick,
                );
                assert(output@ =~= head + self.indicators(
                    pane_states@.take(i as int + 1),
                    *color_manager,
                    *animation_engine,
                    tick,
                ));
                i += 1;
            }
            assert(pane_states@.take(pane_states@.len() as int) =~= pane_states@);
            if queue_count > 0 {
                push_text(&mut output, "(+");
                push_decimal(&mut output, queue_count as u128);
                push_text(&mut output, " queued)");
            }
            assert(output@ =~= self.status_text(
                active_count as nat,
                queue_count as nat,
                pane_states@,
                *color_manager,
                *animation_engine,
                tick,
            ));
        }
        output
    }

    /// Appends the indicator of one pane.
    fn push_indicator(
        &self,
        output: &mut String,
        pane_id: u32,
        state: &VisualState,
        color_manager: &ColorManager,
        animation_engine: &AnimationEngine,
        tick: u64,
    )
        requires
            animation_engine.wf(),
        ensures
            final(output)@ == old(output)@ + self.indicator(
                pane_id,
                *state,
                *color_manager,
                *animation_engine,
                tick,
            ),
    {
        if let Some(kind) = &state.notification_type {
            if !state.acknowledged {
                let color = color_manager.get_notification_color(kind).unwrap();
                let brightness = animation_engine.get_brightness(state, tick);
                let adjusted = color_manager.apply_brightness(color.as_str(), brightness);
                let escape = color_manager.fg_escape(adjusted.as_str());
                let mut piece = String::new();
                push_text(&mut piece, escape.as_str());
                push_text(&mut piece, "[");
                push_text(&mut piece, self.get_notification_icon(kind));
                let ghost opening = piece@;
                assert(opening =~= escape@ + "["@ + self.icon_text(*kind));
                if self.use_patterns {
                    push_text(&mut piece, self.get_pattern_suffix(kind));
                }
                push_text(&mut piece, ":");
                push_decimal(&mut piece, pane_id as u128);
                let ghost named = piece@;
                assert(named =~= opening + (if self.use_patterns {
                    pattern_text(*kind)
                } else {
                    Seq::empty()
                }) + ":"@ + decimal(pane_id as nat));
                if state.is_animating {
                    push_text(&mut piece, "*");
                }
                push_text(&mut piece, "]");
                push_text(&mut piece, color_manager.reset_escape());
                push_text(&mut piece, " ");
                assert(piece@ =~= named + (if state.is_animating {
                    "*"@
                } else {
                    Seq::empty()
                }) + "]"@ + reset_text() + " "@);
                assert(piece@ == self.indicator(
                    pane_id,
                    *state,
                    *color_manager,
                    *animation_engine,
                    tick,
                ));
                push_text(output, piece.as_str());
                return ;
            }
        }
        assert(output@ =~= old(output)@ + self.indicator(
            pane_id,
            *state,
            *color_manager,
            *animation_engine,
            tick,
        ));
    }

    /// One line that counts the notifications shown, by kind: success,
    /// error, warning, attention and information, each in its colour.
    /// Progress is not counted.
    pub fn render_summary(&self, pane_states: &PaneStates, color_manager: &ColorManager) -> (summary:
        String)
        ensures
            summary@ == self.summary_text(pane_states@, *color_manager),
    {
        let mut summary = String::new();
        assert(summary@ =~= self.summary_upto(pane_states@, *color_manager, 0));
        self.push_summary_part(&mut summary, pane_states, color_manager, 0, &NotificationType::Success);
        self.push_summary_part(&mut summary, pane_states, color_manager, 1, &NotificationType::Error);
        self.push_summary_part(&mut summary, pane_states, color_manager, 2, &NotificationType::Warning);
        self.push_summary_part(
            &mut summary,
            pane_states,
            color_manager,
            3,
            &NotificationType::Attention,
        );
        self.push_summary_part(&mut summary, pane_states, color_manager, 4, &NotificationType::Info);
        if summary.as_str().is_empty() {
            "No notifications".to_string()
        } else {
            summary
        }
    }

    /// Appends the count of one kind to the summary, if there is any.
    fn push_summary_part(
        &self,
        summary: &mut String,
        pane_states: &PaneStates,
        color_manager: &ColorManager,
        index: usize,
        kind: &NotificationType,
    )
        requires
            index < 5,
            *kind == summary_kind(index as int),
            old(summary)@ == self.summary_upto(pane_states@, *color_manager, index as int),
        ensures
            final(summary)@ == self.summary_upto(pane_states@, *color_manager, index as int + 1),
    {
        let count = count_shown(pane_states, kind);
        if count > 0 {
            if !summary.as_str().is_empty() {
                push_text(summary, " ");
            }
            let color = color_manager.get_notification_color(kind).unwrap();
            let escape = color_manager.fg_escape(color.as_str());
            push_text(summary, escape.as_str());
            push_text(summary, self.get_notification_icon(kind));
            push_decimal(summary, count as u128);
            push_text(summary, color_manager.reset_escape());
            assert(summary@ =~= self.summary_upto(pane_states@, *color_manager, index as int + 1));
        }
    }
}

/// Counts the panes that show a notification of the given kind.
pub fn count_shown(pane_states: &PaneStates, kind: &NotificationType) -> (count: usize)
    ensures
        count == shown_count(pane_states@, *kind),
{
    let mut count: usize = 0;
    let mut i: usize = 0;
    while i < pane_states.len()
        invariant
            i <= pane_states@.len(),
            count == shown_count(pane_states@.take(i as int), *kind),
            count <= i,
        decreases pane_states@.len() - i,
    {
        let state = pane_states.state_at(i);
        assert(pane_states@.take(i as int + 1).drop_last() =~= pane_states@.take(i as int));
        assert(pane_states@.take(i as int + 1).last() == pane_states@[i as int]);
        if state.has_notification() {
            if let Some(shown) = &state.notification_type {
                if *shown == *kind {
                    count += 1;
                }
            }
        }
        i += 1;
    }
    assert(pane_states@.take(pane_states@.len() as int) =~= pane_states@);
    count
}

/// Counts the panes that show a notification.
pub fn count_active(pane_states: &PaneStates) -> (count: usize)
    ensures
        count == active_count(pane_states@),
{
    let mut count: usize = 0;
    let mut i: usize = 0;
    while i < pane_states.len()
        invariant
            i <= pane_states@.len(),
            count == active_count(pane_states@.take(i as int)),
            count <= i,
        decreases pane_states@.len() - i,
    {
        assert(pane_states@.take(i as int + 1).drop_last() =~= pane_states@.take(i as int));
        assert(pane_states@.take(i as int + 1).last() == pane_states@[i as int]);
        if pane_states.state_at(i).has_notification() {
            count += 1;
        }
        i += 1;
    }
    assert(pane_states@.take(pane_states@.len() as int) =~= pane_states@);
    count
}

/// The kinds that the summary counts, in the order in which it lists them.
pub open spec fn summary_kind(index: int) -> NotificationType {
    if index == 0 {
        NotificationType::Success
    } else if index == 1 {
        NotificationType::Error
    } else if index == 2 {
        NotificationType::Warning
    } else if index == 3 {
        NotificationType::Attention
    } else {
        NotificationType::Info
    }
}

impl Default for Renderer {
    fn default() -> (renderer: Renderer)
        ensures
            renderer == (Renderer {
                show_status_bar: true,
                show_border_colors: true,
                show_tab_badges: true,
                use_unicode: true,
                use_patterns: true,
            }),
    {
        Renderer {
            show_status_bar: true,
            show_border_colors: true,
            show_tab_badges: true,
            use_unicode: true,
            use_patterns: true,
        }
    }
}

} // verus!
