//! The visual state of a pane and the state machine that governs it.

use crate::colors::THOUSAND;
use crate::config::AnimationStyle;
use crate::notification::NotificationType;
use vstd::prelude::*;
use vstd::slice::slice_subrange;

verus! {

/// Where the plugin stands in its life.
#[derive(Debug, Clone, PartialEq)]
pub enum PluginState {
    /// Starting up.
    Initializing,
    /// Started; permissions not yet granted.
    Initialized,
    /// Running normally.
    Running,
    /// Running with limited functionality.
    FallbackMode,
    /// Stopped by an error.
    Error(String),
    /// Shutting down.
    ShuttingDown,
}

impl Default for PluginState {
    fn default() -> (state: PluginState)
        ensures
            state is Initializing,
    {
        PluginState::Initializing
    }
}

/// The phases of a pane's notification.
#[derive(Debug, Clone, Copy, PartialEq, Eq, Structural)]
pub enum VisualNotificationState {
    /// No notification.
    Idle,
    /// A notification is queued for the pane.
    Pending,
    /// A notification is shown and not yet acknowledged.
    Active,
    /// The notification is being phased out.
    Fading,
    /// The pane is in error.
    Error,
}

impl VisualNotificationState {
    /// The table of legal transitions: a phase may stay as it is, and may move
    /// from `Idle` to `Pending` or `Active`, from `Pending` to `Active` or
    /// `Idle`, from `Active` to `Fading` or `Idle`, from `Fading` to `Idle` or
    /// `Active`, and from `Error` to `Idle` or `Active`.
    pub open spec fn allows(self, target: VisualNotificationState) -> bool {
        self == target || match (self, target) {
            (VisualNotificationState::Idle, VisualNotificationState::Pending) => true,
            (VisualNotificationState::Idle, VisualNotificationState::Active) => true,
            (VisualNotificationState::Pending, VisualNotificationState::Active) => true,
            (VisualNotificationState::Pending, VisualNotificationState::Idle) => true,
            (VisualNotificationState::Active, VisualNotificationState::Fading) => true,
            (VisualNotificationState::Active, VisualNotificationState::Idle) => true,
            (VisualNotificationState::Fading, VisualNotificationState::Idle) => true,
            (VisualNotificationState::Fading, VisualNotificationState::Active) => true,
            (VisualNotificationState::Error, VisualNotificationState::Idle) => true,
            (VisualNotificationState::Error, VisualNotificationState::Active) => true,
            _ => false,
        }
    }

    /// The name of the phase.
    pub open spec fn name_text(self) -> Seq<char> {
        match self {
            VisualNotificationState::Idle => "Idle"@,
            VisualNotificationState::Pending => "Pending"@,
            VisualNotificationState::Active => "Active"@,
            VisualNotificationState::Fading => "Fading"@,
            VisualNotificationState::Error => "Error"@,
        }
    }

    /// Whether the state machine allows the move from this phase to `target`.
    pub fn can_transition_to(&self, target: &VisualNotificationState) -> (allowed: bool)
        ensures
            allowed == self.allows(*target),
    {
        match (self, target) {
            (VisualNotificationState::Idle, VisualNotificationState::Pending) => true,
            (VisualNotificationState::Idle, VisualNotificationState::Active) => true,
            (VisualNotificationState::Pending, VisualNotificationState::Active) => true,
            (VisualNotificationState::Pending, VisualNotificationState::Idle) => true,
            (VisualNotificationState::Active, VisualNotificationState::Fading) => true,
            (VisualNotificationState::Active, VisualNotificationState::Idle) => true,
            (VisualNotificationState::Fading, VisualNotificationState::Idle) => true,
            (VisualNotificationState::Fading, VisualNotificationState::Active) => true,
            (VisualNotificationState::Error, VisualNotificationState::Idle) => true,
            (VisualNotificationState::Error, VisualNotificationState::Active) => true,
            (a, b) => *a == *b,
        }
    }

    /// The name of the phase.
    pub fn display_name(&self) -> (name: &'static str)
        ensures
            name@ == self.name_text(),
    {
        match self {
            VisualNotificationState::Idle => "Idle",
            VisualNotificationState::Pending => "Pending",
            VisualNotificationState::Active => "Active",
            VisualNotificationState::Fading => "Fading",
            VisualNotificationState::Error => "Error",
        }
    }
}

impl Default for VisualNotificationState {
    fn default() -> (state: VisualNotificationState)
        ensures
            state == VisualNotificationState::Idle,
    {
        VisualNotificationState::Idle
    }
}

/// What a pane shows of its notification. Brightness and animation phase are
/// held in thousandths.
#[derive(Debug, Clone)]
pub struct VisualState {
    /// The phase of the notification.
    pub state: VisualNotificationState,
    /// Colour of the pane's border.
    pub border_color: Option<String>,
    /// Symbol of the pane's badge.
    pub badge_icon: Option<String>,
    /// Whether an animation runs.
    pub is_animating: bool,
    /// The tick at which the animation started.
    pub animation_start_tick: u64,
    /// Progress of the animation, from 0 to 1000.
    pub animation_phase: u32,
    /// Style of the animation.
    pub animation_style: AnimationStyle,
    /// Message of the notification.
    pub notification_message: Option<String>,
    /// Kind of the notification.
    pub notification_type: Option<NotificationType>,
    /// When the notification was received.
    pub notification_timestamp: u64,
    /// Whether the notification was acknowledged.
    pub acknowledged: bool,
    /// Brightness of the border, from 0 to 1000.
    pub brightness: u32,
}

/// The state that a pane has before it was ever addressed.
pub open spec fn fresh_state() -> VisualState {
    VisualState {
        state: VisualNotificationState::Idle,
        border_color: None,
        badge_icon: None,
        is_animating: false,
        animation_start_tick: 0,
        animation_phase: 0,
        animation_style: AnimationStyle::Pulse,
        notification_message: None,
        notification_type: None,
        notification_timestamp: 0,
        acknowledged: false,
        brightness: 0,
    }
}

/// A pane's state with its texts as sequences of characters: the model in
/// which states are compared.
pub struct VisualText {
    pub state: VisualNotificationState,
    pub border_color: Option<Seq<char>>,
    pub badge_icon: Option<Seq<char>>,
    pub is_animating: bool,
    pub animation_start_tick: u64,
    pub animation_phase: u32,
    pub animation_style: AnimationStyle,
    pub notification_message: Option<Seq<char>>,
    pub notification_type: Option<NotificationType>,
    pub notification_timestamp: u64,
    pub acknowledged: bool,
    pub brightness: u32,
}

/// The characters of an optional string.
pub open spec fn optional_text(text: Option<String>) -> Option<Seq<char>> {
    match text {
        Some(t) => Some(t@),
        None => None,
    }
}

impl View for VisualState {
    type V = VisualText;

    open spec fn view(&self) -> VisualText {
        VisualText {
            state: self.state,
            border_color: optional_text(self.border_color),
            badge_icon: optional_text(self.badge_icon),
            is_animating: self.is_animating,
            animation_start_tick: self.animation_start_tick,
            animation_phase: self.animation_phase,
            animation_style: self.animation_style,
            notification_message: optional_text(self.notification_message),
            notification_type: self.notification_type,
            notification_timestamp: self.notification_timestamp,
            acknowledged: self.acknowledged,
            brightness: self.brightness,
        }
    }
}

impl VisualState {
    /// The invariant of a pane's state: an acknowledged notification is no
    /// longer `Active`, and a pane without a notification is `Idle`.
    pub open spec fn wf(self) -> bool {
        &&& self.acknowledged ==> self.state != VisualNotificationState::Active
        &&& self.notification_type is None ==> self.state == VisualNotificationState::Idle
    }

    /// Whether nothing is presented: no kind, message, colour or icon.
    pub open spec fn is_blank(self) -> bool {
        &&& self.notification_type is None
        &&& self.notification_message is None
        &&& self.border_color is None
        &&& self.badge_icon is None
    }

    /// Whether the pane shows a notification that is not yet acknowledged.
    pub open spec fn shows_notification(self) -> bool {
        self.notification_type is Some && !self.acknowledged
    }

    /// The state of a pane without a notification, at full brightness.
    pub fn new() -> (state: VisualState)
        ensures
            state.wf(),
            state.is_blank(),
            state.state == VisualNotificationState::Idle,
            !state.is_animating,
            state.animation_start_tick == 0,
            state.animation_phase == 0,
            state.animation_style == AnimationStyle::Pulse,
            state.notification_timestamp == 0,
            !state.acknowledged,
            state.brightness == THOUSAND,
    {
        VisualState {
            state: VisualNotificationState::Idle,
            border_color: None,
            badge_icon: None,
            is_animating: false,
            animation_start_tick: 0,
            animation_phase: 0,
            animation_style: AnimationStyle::Pulse,
            notification_message: None,
            notification_type: None,
            notification_timestamp: 0,
            acknowledged: false,
            brightness: THOUSAND,
        }
    }

    /// Returns the pane to `Idle` and blanks what it presents. The record of
    /// the pane stays: its timestamps and animation style are kept.
    pub fn clear(&mut self)
        ensures
            final(self).wf(),
            old(self).state.allows(final(self).state),
            final(self).is_blank(),
            final(self).state == VisualNotificationState::Idle,
            !final(self).is_animating,
            final(self).animation_phase == 0,
            !final(self).acknowledged,
            final(self).brightness == THOUSAND,
            final(self).animation_start_tick == old(self).animation_start_tick,
            final(self).animation_style == old(self).animation_style,
            final(self).notification_timestamp == old(self).notification_timestamp,
    {
        self.state = VisualNotificationState::Idle;
        self.border_color = None;
        self.badge_icon = None;
        self.is_animating = false;
        self.animation_phase = 0;
        self.notification_message = None;
        self.notification_type = None;
        self.acknowledged = false;
        self.brightness = THOUSAND;
    }

    /// Whether the pane shows a notification that is not yet acknowledged.
    pub fn has_notification(&self) -> (shown: bool)
        ensures
            shown == self.shows_notification(),
    {
        self.notification_type.is_some() && !self.acknowledged
    }

    /// Shows a notification: the pane becomes `Active`, whatever its phase
    /// was, not acknowledged and at full brightness. The animation is left as
    /// it is.
    pub fn set_notification(
        &mut self,
        notification_type: NotificationType,
        message: String,
        border_color: String,
        badge_icon: String,
    )
        ensures
            final(self).wf(),
            old(self).state.allows(final(self).state),
            *final(self) == (VisualState {
                state: VisualNotificationState::Active,
                notification_type: Some(notification_type),
                notification_message: Some(message),
                border_color: Some(border_color),
                badge_icon: Some(badge_icon),
                acknowledged: false,
                brightness: THOUSAND,
                ..*old(self)
            }),
    {
        self.state = VisualNotificationState::Active;
        self.notification_type = Some(notification_type);
        self.notification_message = Some(message);
        self.border_color = Some(border_color);
        self.badge_icon = Some(badge_icon);
        self.acknowledged = false;
        self.brightness = THOUSAND;
    }

    /// Starts the closing animation at `tick`, if the state machine allows the
    /// move to `Fading`. Returns whether it did; a refused call changes
    /// nothing.
    pub fn start_fade(&mut self, tick: u64) -> (started: bool)
        requires
            old(self).wf(),
        ensures
            final(self).wf(),
            old(self).state.allows(final(self).state),
            started == old(self).state.allows(VisualNotificationState::Fading),
            started ==> *final(self) == (VisualState {
                state: VisualNotificationState::Fading,
                is_animating: true,
                animation_start_tick: tick,
                animation_phase: 0,
                ..*old(self)
            }),
            !started ==> *final(self) == *old(self),
    {
        if !self.state.can_transition_to(&VisualNotificationState::Fading) {
            return false;
        }
        self.state = VisualNotificationState::Fading;
        self.is_animating = true;
        self.animation_start_tick = tick;
        self.animation_phase = 0;
        true
    }

    /// Acknowledges the notification, if the state machine allows the move to
    /// `Fading`: an `Active` pane starts fading. Returns whether it did; a
    /// refused call changes nothing.
    pub fn acknowledge(&mut self) -> (done: bool)
        requires
            old(self).wf(),
        ensures
            final(self).wf(),
            old(self).state.allows(final(self).state),
            done == old(self).state.allows(VisualNotificationState::Fading),
            done ==> *final(self) == (VisualState {
                state: VisualNotificationState::Fading,
                acknowledged: true,
                ..*old(self)
            }),
            !done ==> *final(self) == *old(self),
    {
        if !self.state.can_transition_to(&VisualNotificationState::Fading) {
            return false;
        }
        self.acknowledged = true;
        self.state = VisualNotificationState::Fading;
        true
    }
}

impl Default for VisualState {
    /// The state of a pane without a notification, with every number at zero.
    fn default() -> (state: VisualState)
        ensures
            state.wf(),
            state.is_blank(),
            state.state == VisualNotificationState::Idle,
            !state.is_animating,
            state.animation_start_tick == 0,
            state.animation_phase == 0,
            state.animation_style == AnimationStyle::Pulse,
            state.notification_timestamp == 0,
            !state.acknowledged,
            state.brightness == 0,
            state == fresh_state(),
    {
        VisualState {
            state: VisualNotificationState::Idle,
            border_color: None,
            badge_icon: None,
            is_animating: false,
            animation_start_tick: 0,
            animation_phase: 0,
            animation_style: AnimationStyle::Pulse,
            notification_message: None,
            notification_type: None,
            notification_timestamp: 0,
            acknowledged: false,
            brightness: 0,
        }
    }
}

/// One move of a pane's state machine, for the record.
#[derive(Debug, Clone)]
pub struct StateTransition {
    /// The phase left.
    pub from: VisualNotificationState,
    /// The phase entered.
    pub to: VisualNotificationState,
    /// When it happened.
    pub timestamp: u64,
    /// Why it happened.
    pub reason: String,
}

impl StateTransition {
    /// A transition with its reason. The timestamp is zero until the caller
    /// sets it.
    pub fn new(from: VisualNotificationState, to: VisualNotificationState, reason: &str) -> (t:
        StateTransition)
        ensures
            t.from == from,
            t.to == to,
            t.timestamp == 0,
            t.reason@ == reason@,
    {
        StateTransition { from, to, timestamp: 0, reason: reason.to_string() }
    }
}

/// Number of transitions that a new [`StateManager`] remembers.
pub const HISTORY_SIZE: usize = 100;

/// Remembers the latest transitions.
#[derive(Debug)]
pub struct StateManager {
    transition_history: Vec<StateTransition>,
    max_history_size: usize,
}

impl StateManager {
    /// The transitions remembered, oldest first.
    pub closed spec fn history(&self) -> Seq<StateTransition> {
        self.transition_history@
    }

    /// How many transitions are remembered at most.
    pub closed spec fn limit(&self) -> nat {
        self.max_history_size as nat
    }

    /// The invariant: no more transitions are remembered than the limit.
    pub open spec fn wf(&self) -> bool {
        self.history().len() <= self.limit()
    }

    /// A manager that remembers the latest hundred transitions.
    pub fn new() -> (manager: StateManager)
        ensures
            manager.wf(),
            manager.history() == Seq::<StateTransition>::empty(),
            manager.limit() == HISTORY_SIZE,
    {
        StateManager { transition_history: Vec::new(), max_history_size: HISTORY_SIZE }
    }

    /// Records a transition. The oldest ones are forgotten once more than the
    /// limit are held.
    pub fn record_transition(&mut self, transition: StateTransition)
        requires
            old(self).wf(),
        ensures
            final(self).wf(),
            final(self).limit() == old(self).limit(),
            final(self).history() == latest(old(self).history().push(transition), old(self).limit()),
    {
        self.transition_history.push(transition);
        let ghost pushed = self.transition_history@;
        while self.transition_history.len() > self.max_history_size
            invariant
                self.max_history_size == old(self).max_history_size,
                self.transition_history@.len() <= pushed.len(),
                self.transition_history@ == pushed.skip(
                    pushed.len() - self.transition_history@.len(),
                ),
                pushed.len() <= self.max_history_size + 1,
                self.transition_history@.len() == pushed.len() || self.transition_history@.len()
                    >= self.max_history_size,
            decreases self.transition_history.len(),
        {
            let ghost before = self.transition_history@;
            self.transition_history.remove(0);
            assert(self.transition_history@ =~= pushed.skip(pushed.len() - before.len() + 1));
        }
        assert(pushed.skip(0) =~= pushed);
    }

    /// The latest `count` transitions, oldest first; all of them if fewer are
    /// remembered.
    pub fn recent_transitions(&self, count: usize) -> (recent: &[StateTransition])
        ensures
            recent@ == latest(self.history(), count as nat),
    {
        let len = self.transition_history.len();
        let start = if len > count {
            len - count
        } else {
            0
        };
        let recent = slice_subrange(self.transition_history.as_slice(), start, len);
        assert(recent@ =~= latest(self.history(), count as nat));
        recent
    }

    /// Forgets every transition.
    pub fn clear_history(&mut self)
        ensures
            final(self).wf(),
            final(self).limit() == old(self).limit(),
            final(self).history() == Seq::<StateTransition>::empty(),
    {
        self.transition_history.clear();
    }
}

impl Default for StateManager {
    /// A manager that remembers nothing: its limit is zero.
    fn default() -> (manager: StateManager)
        ensures
            manager.wf(),
            manager.history() == Seq::<StateTransition>::empty(),
            manager.limit() == 0,
    {
        StateManager { transition_history: Vec::new(), max_history_size: 0 }
    }
}

/// The last `count` transitions of `history`, or all of it if it has fewer.
pub open spec fn latest(history: Seq<StateTransition>, count: nat) -> Seq<StateTransition> {
    if history.len() <= count {
        history
    } else {
        history.skip(history.len() - count)
    }
}

/// A pane's notification state in plain values, for synchronisation with
/// other components.
#[derive(Debug, Clone)]
pub struct PaneNotificationState {
    /// The pane.
    pub pane_id: u32,
    /// Name of the pane's phase.
    pub state: String,
    /// Name of the notification's kind, if there is a notification.
    pub notification_type: Option<String>,
    /// Message of the notification.
    pub notification_message: Option<String>,
    /// Whether the notification was acknowledged.
    pub acknowledged: bool,
    /// When the state last changed.
    pub last_update: u64,
}

impl PaneNotificationState {
    /// Whether this is the plain form of `state`, for pane 0.
    pub open spec fn describes(self, state: VisualState) -> bool {
        &&& self.pane_id == 0
        &&& self.state@ == state.state.name_text()
        &&& match state.notification_type {
            Some(kind) => self.notification_type matches Some(name) && name@ == kind.name_text(),
            None => self.notification_type is None,
        }
        &&& self.notification_message == state.notification_message
        &&& self.acknowledged == state.acknowledged
        &&& self.last_update == state.notification_timestamp
    }

    /// The plain form of a pane's state. The pane is 0 until the caller sets
    /// it.
    pub fn of(state: &VisualState) -> (plain: PaneNotificationState)
        ensures
            plain.describes(*state),
    {
        PaneNotificationState {
            pane_id: 0,
            state: state.state.display_name().to_string(),
            notification_type: match &state.notification_type {
                Some(kind) => Some(kind.name().to_string()),
                None => None,
            },
            notification_message: state.notification_message.clone(),
            acknowledged: state.acknowledged,
            last_update: state.notification_timestamp,
        }
    }
}

impl From<&VisualState> for PaneNotificationState {
    /// The plain form of a pane's state, as [`PaneNotificationState::of`]
    /// gives it.
    fn from(state: &VisualState) -> (plain: PaneNotificationState) {
        PaneNotificationState::of(state)
    }
}

impl vstd::std_specs::convert::FromSpecImpl<&VisualState> for PaneNotificationState {
    /// The conversion makes new strings, so its result is described by
    /// [`PaneNotificationState::describes`] and not given as a value.
    open spec fn obeys_from_spec() -> bool {
        false
    }

    open spec fn from_spec(state: &VisualState) -> PaneNotificationState {
        arbitrary()
    }
}

} // verus!
