//! The lifecycle coordinator: the state of the whole overlay and what each
//! event of the host does to it. The host delivers events as plain values and
//! performs what the coordinator cannot: timers, permissions, output.

use crate::animation::AnimationEngine;
use crate::colors::{ColorCapability, ColorManager};
use crate::config::{
    configured, number_setting, pairs_text, AnimationConfig, Config, ConfigManager,
};
use crate::event_bridge::{EventBridge, NotificationMessage, MAX_ERRORS};
use crate::notification::{Notification, NotificationType};
use crate::panes::{ascending, has_pane, lemma_rank, rank, texts, with_pane, PaneStates};
use crate::queue::{not_for_pane, NotificationQueue, QueueState, MAX_LEVEL_SIZE};
use crate::queue_laws::lemma_served_by_priority;
use crate::renderer::Renderer;
use crate::state::{fresh_state, PluginState, VisualState, VisualText};
use crate::text::same_text;
use std::collections::BTreeMap;
use vstd::prelude::*;

verus! {

/// A tab as the host reports it.
#[derive(Debug, Clone)]
pub struct TabInfo {
    /// Position of the tab.
    pub position: usize,
    /// Name of the tab.
    pub name: String,
    /// Whether the tab is the active one.
    pub active: bool,
}

/// What the coordinator remembers of the active tab.
#[derive(Debug, Clone)]
pub struct LocalTabInfo {
    /// Position of the tab.
    pub position: usize,
    /// Name of the tab.
    pub name: String,
    /// Whether the tab is the active one.
    pub active: bool,
    /// Number of panes of the tab.
    pub panes_count: usize,
}

/// A pane as the host reports it.
#[derive(Debug, Clone)]
pub struct LocalPaneInfo {
    /// The pane.
    pub id: u32,
    /// Whether the pane has the focus.
    pub is_focused: bool,
    /// Title of the pane.
    pub title: String,
    /// Whether the pane belongs to a plugin.
    pub is_plugin: bool,
}

/// A key as far as the coordinator tells keys apart.
#[derive(Debug, Clone, Copy, PartialEq, Eq, Structural)]
pub enum KeyPress {
    /// A character typed with the control key held.
    Ctrl(char),
    /// Any other key.
    Other,
}

/// The host's answer to the request for permissions.
#[derive(Debug, Clone, Copy, PartialEq, Eq, Structural)]
pub enum PermissionStatus {
    /// Permissions were granted.
    Granted,
    /// Permissions were denied.
    Denied,
}

/// A payload decoded in both formats that the bridge understands.
#[derive(Debug)]
pub struct Payload {
    /// The payload read as a full message, or the decoder's error.
    pub message: Result<NotificationMessage, String>,
    /// The message text of the payload read in the legacy format, if it has
    /// that format.
    pub legacy: Option<String>,
}

impl Payload {
    /// Whether the payload reads in neither format: taking it in counts one
    /// error of the bridge and queues nothing.
    pub open spec fn is_unreadable(self) -> bool {
        self.message is Err && self.legacy is None
    }
}

/// An event of the host.
#[derive(Debug)]
pub enum PluginEvent {
    /// The timer fired.
    Timer,
    /// The input mode changed.
    ModeUpdate,
    /// The tabs changed.
    TabUpdate(Vec<TabInfo>),
    /// The panes changed.
    PaneUpdate(Vec<LocalPaneInfo>),
    /// A key was pressed.
    Key(KeyPress),
    /// A message with a name and a payload arrived.
    CustomMessage(String, Payload),
    /// The request for permissions was answered.
    PermissionRequestResult(PermissionStatus),
    /// Any other event.
    Other,
}

/// The panes after the notifications of every reported pane that has the
/// focus were cleared, in the order of the report.
pub open spec fn focus_cleared(panes: Seq<(u32, VisualText)>, reported: Seq<LocalPaneInfo>) -> Seq<
    (u32, VisualText),
>
    decreases reported.len(),
{
    if reported.len() == 0 {
        panes
    } else if reported.last().is_focused {
        cleared_pane(focus_cleared(panes, reported.drop_last()), reported.last().id)
    } else {
        focus_cleared(panes, reported.drop_last())
    }
}

/// The queue after the entries of every reported pane that has the focus
/// were removed.
pub open spec fn focus_removed(queue: QueueState, reported: Seq<LocalPaneInfo>) -> QueueState
    decreases reported.len(),
{
    if reported.len() == 0 {
        queue
    } else if reported.last().is_focused {
        focus_removed(queue, reported.drop_last()).retain(not_for_pane(reported.last().id))
    } else {
        focus_removed(queue, reported.drop_last())
    }
}

/// The reported panes by identifier; of two reports of one pane the later
/// counts.
pub open spec fn manifest_of(reported: Seq<LocalPaneInfo>) -> Map<u32, LocalPaneInfo>
    decreases reported.len(),
{
    if reported.len() == 0 {
        Map::empty()
    } else {
        manifest_of(reported.drop_last()).insert(reported.last().id, reported.last())
    }
}

/// The first active tab of `tabs`, if any is active.
pub open spec fn first_active(tabs: Seq<TabInfo>) -> Option<TabInfo>
    decreases tabs.len(),
{
    if tabs.len() == 0 {
        None
    } else if tabs[0].active {
        Some(tabs[0])
    } else {
        first_active(tabs.drop_first())
    }
}

/// The state of a pane after a notification was presented on it: its colour,
/// badge, message and kind are those of the notification; if animations are
/// on, an animation of the configured style starts at `tick`. Phase,
/// acknowledgement and brightness stay.
pub open spec fn presented(
    before: VisualText,
    kind: NotificationType,
    message: Seq<char>,
    color: Seq<char>,
    animation: AnimationConfig,
    tick: u64,
) -> VisualText {
    VisualText {
        border_color: Some(color),
        badge_icon: Some(kind.icon_text()),
        is_animating: animation.enabled || before.is_animating,
        animation_start_tick: if animation.enabled {
            tick
        } else {
            before.animation_start_tick
        },
        animation_style: if animation.enabled {
            animation.style
        } else {
            before.animation_style
        },
        notification_message: Some(message),
        notification_type: Some(kind),
        ..before
    }
}

/// The panes after a notification was presented on one of them. A pane that
/// had no state gets a fresh one first.
pub open spec fn delivered(
    panes: Seq<(u32, VisualText)>,
    pane_id: u32,
    kind: NotificationType,
    message: Seq<char>,
    color: Seq<char>,
    animation: AnimationConfig,
    tick: u64,
) -> Seq<(u32, VisualText)> {
    let held = with_pane(panes, pane_id, fresh_state()@);
    let at = rank(panes, pane_id);
    held.update(at, (pane_id, presented(held[at].1, kind, message, color, animation, tick)))
}

/// The panes after a dequeued notification was applied: presented on the
/// pane that it addresses, or dropped if it addresses none.
pub open spec fn applied(
    panes: Seq<(u32, VisualText)>,
    n: Notification,
    colors: ColorManager,
    animation: AnimationConfig,
    tick: u64,
) -> Seq<(u32, VisualText)> {
    match n.pane_id {
        Some(pane_id) => delivered(
            panes,
            pane_id,
            n.notification_type,
            n.message@,
            colors.notification_color(n.notification_type),
            animation,
            tick,
        ),
        None => panes,
    }
}

/// The panes after each of `ns` was applied, in order.
pub open spec fn applied_all(
    panes: Seq<(u32, VisualText)>,
    ns: Seq<Notification>,
    colors: ColorManager,
    animation: AnimationConfig,
    tick: u64,
) -> Seq<(u32, VisualText)>
    decreases ns.len(),
{
    if ns.len() == 0 {
        panes
    } else {
        applied(
            applied_all(panes, ns.drop_last(), colors, animation, tick),
            ns.last(),
            colors,
            animation,
            tick,
        )
    }
}

/// Whether any of `ns` addresses a pane.
pub open spec fn any_addressed(ns: Seq<Notification>) -> bool {
    exists|i: int| 0 <= i < ns.len() && (#[trigger] ns[i]).pane_id is Some
}

/// The state of a pane as text after it was cleared.
pub open spec fn cleared_text(before: VisualText) -> VisualText {
    VisualText {
        state: crate::state::VisualNotificationState::Idle,
        border_color: None,
        badge_icon: None,
        is_animating: false,
        animation_phase: 0,
        notification_message: None,
        notification_type: None,
        acknowledged: false,
        brightness: 1000,
        ..before
    }
}

/// The panes with the state of one pane cleared, if it has a state.
pub open spec fn cleared_pane(panes: Seq<(u32, VisualText)>, pane_id: u32) -> Seq<
    (u32, VisualText),
> {
    if has_pane(panes, pane_id) {
        panes.update(
            rank(panes, pane_id),
            (pane_id, cleared_text(panes[rank(panes, pane_id)].1)),
        )
    } else {
        panes
    }
}

/// The panes with every state cleared.
pub open spec fn cleared_all(panes: Seq<(u32, VisualText)>) -> Seq<(u32, VisualText)> {
    panes.map_values(|entry: (u32, VisualText)| (entry.0, cleared_text(entry.1)))
}

/// The panes with every animation advanced to `tick`.
pub open spec fn advanced(panes: Seq<(u32, VisualState)>, engine: AnimationEngine, tick: u64) -> Seq<
    (u32, VisualState),
> {
    panes.map_values(|entry: (u32, VisualState)| (entry.0, engine.updated(entry.1, tick)))
}

/// Whether any pane animates.
pub open spec fn any_animating(panes: Seq<(u32, VisualState)>) -> bool {
    exists|i: int| 0 <= i < panes.len() && (#[trigger] panes[i]).1.is_animating
}

/// Reading states as text keeps the panes: their order, their ranks, and
/// which panes there are.
pub proof fn lemma_texts_keep_panes(panes: Seq<(u32, VisualState)>, pane_id: u32)
    ensures
        texts(panes).len() == panes.len(),
        rank(texts(panes), pane_id) == rank(panes, pane_id),
        has_pane(texts(panes), pane_id) == has_pane(panes, pane_id),
        ascending(texts(panes)) == ascending(panes),
    decreases panes.len(),
{
    let t = texts(panes);
    if panes.len() > 0 {
        lemma_texts_keep_panes(panes.drop_last(), pane_id);
        assert(t.drop_last() =~= texts(panes.drop_last()));
    }
    if has_pane(panes, pane_id) {
        let i = choose|i: int| 0 <= i < panes.len() && #[trigger] panes[i].0 == pane_id;
        assert(t[i].0 == pane_id);
    }
    if has_pane(t, pane_id) {
        let i = choose|i: int| 0 <= i < t.len() && #[trigger] t[i].0 == pane_id;
        assert(panes[i].0 == pane_id);
    }
    if ascending(panes) {
        assert forall|i: int, j: int| 0 <= i < j < t.len() implies t[i].0 < t[j].0 by {
            assert(panes[i].0 < panes[j].0);
        }
    }
    if ascending(t) {
        assert forall|i: int, j: int| 0 <= i < j < panes.len() implies panes[i].0 < panes[j].0 by {
            assert(t[i].0 < t[j].0);
        }
    }
}

/// The state of the overlay.
#[derive(Debug)]
pub struct State {
    /// The settings.
    pub config: Config,
    /// Keeper of the configuration file.
    pub config_manager: ConfigManager,
    /// The visual state of every pane that was ever addressed.
    pub pane_states: PaneStates,
    /// The animation engine.
    pub animation_engine: AnimationEngine,
    /// The colours.
    pub color_manager: ColorManager,
    /// The bridge on which notifications arrive.
    pub event_bridge: EventBridge,
    /// Notifications waiting to be shown.
    pub notification_queue: NotificationQueue,
    /// The renderer.
    pub renderer: Renderer,
    /// Where the plugin stands in its life.
    pub plugin_state: PluginState,
    /// Ticks counted so far.
    pub tick_count: u64,
    /// Time of the last update in milliseconds.
    pub last_update_ms: u64,
    /// Why the plugin runs in fallback mode, if it does.
    pub error_state: Option<String>,
    /// The plugin's own pane.
    pub own_pane_id: Option<u32>,
    /// The active tab.
    pub tab_info: Option<LocalTabInfo>,
    /// The panes as last reported.
    pub pane_manifest: BTreeMap<u32, LocalPaneInfo>,
}

impl State {
    /// The invariant of the overlay: those of its parts.
    pub open spec fn wf(&self) -> bool {
        &&& self.pane_states.wf()
        &&& self.notification_queue.wf()
        &&& self.animation_engine.wf()
    }

    /// Whether `after` is this state with only its panes and its queue
    /// changed, and still well formed.
    pub open spec fn keeps_all_but_panes_and_queue(self, after: State) -> bool {
        &&& after == (State {
            pane_states: after.pane_states,
            notification_queue: after.notification_queue,
            ..self
        })
        &&& after.pane_states.wf()
        &&& after.notification_queue.wf()
    }

    /// Whether `after` is this state after a notification was presented on a
    /// pane.
    pub open spec fn presents_into(
        self,
        after: State,
        pane_id: u32,
        kind: NotificationType,
        message: Seq<char>,
    ) -> bool {
        &&& self.keeps_all_but_panes_and_queue(after)
        &&& after.notification_queue == self.notification_queue
        &&& texts(after.pane_states@) == delivered(
            texts(self.pane_states@),
            pane_id,
            kind,
            message,
            self.color_manager.notification_color(kind),
            self.config.animation,
            self.tick_count,
        )
    }

    /// Whether `after` is this state after the notification was queued and,
    /// if it addresses a pane, presented there.
    pub open spec fn queues_into(self, after: State, n: Notification) -> bool {
        &&& self.keeps_all_but_panes_and_queue(after)
        &&& after.notification_queue@ == self.notification_queue@.enqueue(n)
        &&& texts(after.pane_states@) == applied(
            texts(self.pane_states@),
            n,
            self.color_manager,
            self.config.animation,
            self.tick_count,
        )
    }

    /// Whether `after` is this state after the queue was drained: every
    /// entry was dequeued in the order of service and applied to the panes.
    pub open spec fn drains_into(self, after: State) -> bool {
        &&& self.keeps_all_but_panes_and_queue(after)
        &&& after.notification_queue@ == (QueueState {
            processed: self.notification_queue@.processed
                + self.notification_queue@.entries().len(),
            ..self.notification_queue@.cleared()
        })
        &&& texts(after.pane_states@) == applied_all(
            texts(self.pane_states@),
            self.notification_queue@.entries(),
            self.color_manager,
            self.config.animation,
            self.tick_count,
        )
    }

    /// Whether `after` is this state after the notifications of a pane were
    /// cleared: the pane's state blanked, its entries removed from the queue.
    pub open spec fn clears_pane_into(self, after: State, pane_id: u32) -> bool {
        &&& self.keeps_all_but_panes_and_queue(after)
        &&& texts(after.pane_states@) == cleared_pane(texts(self.pane_states@), pane_id)
        &&& after.notification_queue@ == self.notification_queue@.retain(not_for_pane(pane_id))
    }

    /// Whether `after` is this state after all notifications were cleared.
    pub open spec fn clears_all_into(self, after: State) -> bool {
        &&& self.keeps_all_but_panes_and_queue(after)
        &&& texts(after.pane_states@) == cleared_all(texts(self.pane_states@))
        &&& after.notification_queue@ == self.notification_queue@.cleared()
    }

    /// The tick after this one; the count wraps around.
    pub open spec fn next_tick(self) -> u64 {
        if self.tick_count == u64::MAX {
            0
        } else {
            (self.tick_count + 1) as u64
        }
    }

    /// Whether `after` is this state one tick later: the tick counted, every
    /// animation advanced to it, expired entries removed from the queue.
    pub open spec fn ticks_into(self, after: State) -> bool {
        &&& after == (State {
            pane_states: after.pane_states,
            notification_queue: after.notification_queue,
            tick_count: self.next_tick(),
            ..self
        })
        &&& after.pane_states.wf()
        &&& after.notification_queue.wf()
        &&& after.pane_states@ == advanced(
            self.pane_states@,
            self.animation_engine,
            self.next_tick(),
        )
        &&& after.notification_queue@ == self.notification_queue@.cleanup()
    }

    /// Presents a notification on a pane: the pane's colour, badge, message
    /// and kind become those of the notification, and an animation starts if
    /// animations are switched on.
    pub fn update_pane_visual_state(&mut self, pane_id: u32, kind: NotificationType, message: &str)
        requires
            old(self).wf(),
        ensures
            old(self).presents_into(*final(self), pane_id, kind, message@),
    {
        let ghost before = self.pane_states@;
        let index = self.pane_states.get_or_insert(pane_id);
        let ghost held = self.pane_states@;
        let border_color = self.color_manager.get_notification_color(&kind);
        let badge_icon = kind.icon();
        let animation_enabled = self.config.animation.enabled;
        let animation_style = self.config.animation.style;
        let tick = self.tick_count;
        let visual_state = self.pane_states.state_at_mut(index);
        visual_state.border_color = border_color;
        visual_state.badge_icon = badge_icon;
        if animation_enabled {
            visual_state.is_animating = true;
            visual_state.animation_start_tick = tick;
            visual_state.animation_style = animation_style;
        }
        visual_state.notification_message = Some(message.to_string());
        visual_state.notification_type = Some(kind);
        proof {
            lemma_texts_keep_panes(before, pane_id);
            lemma_rank(before, pane_id);
            let after = self.pane_states@;
            assert(texts(held) =~= with_pane(texts(before), pane_id, fresh_state()@));
            assert(texts(after) =~= delivered(
                texts(before),
                pane_id,
                kind,
                message@,
                old(self).color_manager.notification_color(kind),
                old(self).config.animation,
                old(self).tick_count,
            ));
            assert forall|i: int, j: int| 0 <= i < j < after.len() implies after[i].0
                < after[j].0 by {
                assert(held[i].0 < held[j].0);
            }
        }
    }

    /// Queues a notification and, if it addresses a pane, presents it there.
    pub fn queue_notification(&mut self, notification: Notification)
        requires
            old(self).wf(),
        ensures
            old(self).queues_into(*final(self), notification),
    {
        let pane_id = notification.pane_id;
        let kind = notification.notification_type;
        let message = notification.message.clone();
        self.notification_queue.enqueue(notification);
        if let Some(pane_id) = pane_id {
            self.update_pane_visual_state(pane_id, kind, message.as_str());
        }
    }

    /// Drains the queue: dequeues every entry in the order of service and
    /// presents those that address a pane. Returns whether any did.
    pub fn process_notification_queue(&mut self) -> (needs_render: bool)
        requires
            old(self).wf(),
            old(self).notification_queue@.processed + old(self).notification_queue@.entries().len()
                <= u64::MAX,
        ensures
            old(self).drains_into(*final(self)),
            needs_render == any_addressed(old(self).notification_queue@.entries()),
    {
        let mut needs_render = false;
        let ghost start = *self;
        let ghost waiting = self.notification_queue@.entries();
        let ghost done: int = 0;
        assert(waiting.skip(0) =~= waiting);
        assert(waiting.take(0) =~= Seq::<Notification>::empty());
        loop
            invariant
                start.wf(),
                start.keeps_all_but_panes_and_queue(*self),
                waiting == start.notification_queue@.entries(),
                0 <= done <= waiting.len(),
                self.notification_queue@.entries() == waiting.skip(done),
                self.notification_queue@.processed == start.notification_queue@.processed + done,
                start.notification_queue@.processed + waiting.len() <= u64::MAX,
                self.notification_queue@.capacity == start.notification_queue@.capacity,
                self.notification_queue@.default_ttl == start.notification_queue@.default_ttl,
                self.notification_queue@.now == start.notification_queue@.now,
                self.notification_queue@.expired == start.notification_queue@.expired,
                texts(self.pane_states@) == applied_all(
                    texts(start.pane_states@),
                    waiting.take(done),
                    start.color_manager,
                    start.config.animation,
                    start.tick_count,
                ),
                needs_render == any_addressed(waiting.take(done)),
            ensures
                start.drains_into(*self),
                needs_render == any_addressed(waiting),
            decreases waiting.len() - done,
        {
            proof {
                lemma_served_by_priority(self.notification_queue@);
            }
            let ghost before = *self;
            match self.notification_queue.dequeue_ready() {
                Some(notification) => {
                    proof {
                        assert(notification == waiting[done]);
                        assert(waiting.skip(done).drop_first() =~= waiting.skip(done + 1));
                        assert(waiting.take(done + 1).drop_last() =~= waiting.take(done));
                        assert(waiting.take(done + 1).last() == notification);
                    }
                    if let Some(pane_id) = notification.pane_id {
                        self.update_pane_visual_state(
                            pane_id,
                            notification.notification_type,
                            notification.message.as_str(),
                        );
                        needs_render = true;
                    }
                    proof {
                        if any_addressed(waiting.take(done)) {
                            let i = choose|i: int|
                                0 <= i < waiting.take(done).len() && (#[trigger] waiting.take(
                                    done,
                                )[i]).pane_id is Some;
                            assert(waiting.take(done + 1)[i].pane_id is Some);
                        }
                        if any_addressed(waiting.take(done + 1)) {
                            let i = choose|i: int|
                                0 <= i < waiting.take(done + 1).len() && (
                                #[trigger] waiting.take(done + 1)[i]).pane_id is Some;
                            if i < done {
                                assert(waiting.take(done)[i].pane_id is Some);
                            }
                        }
                        done = done + 1;
                    }
                },
                None => {
                    proof {
                        assert(waiting.take(done) =~= waiting);
                        let q = self.notification_queue@;
                        assert(q.critical =~= Seq::<Notification>::empty());
                        assert(q.high =~= Seq::<Notification>::empty());
                        assert(q.normal =~= Seq::<Notification>::empty());
                        assert(q.low =~= Seq::<Notification>::empty());
                    }
                    break ;
                },
            }
        }
        needs_render
    }

    /// Clears the notifications of a pane: blanks its state, if it has one,
    /// and removes its entries from the queue.
    pub fn clear_pane_notification(&mut self, pane_id: u32)
        requires
            old(self).wf(),
        ensures
            old(self).clears_pane_into(*final(self), pane_id),
    {
        let ghost before = self.pane_states@;
        let index = self.pane_states.position(pane_id);
        proof {
            lemma_texts_keep_panes(before, pane_id);
        }
        if index < self.pane_states.len() && self.pane_states.pane_at(index) == pane_id {
            self.pane_states.state_at_mut(index).clear();
            proof {
                let after = self.pane_states@;
                assert(texts(after) =~= cleared_pane(texts(before), pane_id));
                assert forall|i: int, j: int| 0 <= i < j < after.len() implies after[i].0
                    < after[j].0 by {
                    assert(before[i].0 < before[j].0);
                }
            }
        }
        self.notification_queue.remove_for_pane(pane_id);
    }

    /// Clears all notifications: blanks the state of every pane and empties
    /// the queue.
    pub fn clear_all_notifications(&mut self)
        requires
            old(self).wf(),
        ensures
            old(self).clears_all_into(*final(self)),
    {
        let ghost before = self.pane_states@;
        let mut i: usize = 0;
        while i < self.pane_states.len()
            invariant
                i <= before.len(),
                self.pane_states@.len() == before.len(),
                *self == (State { pane_states: self.pane_states, ..*old(self) }),
                forall|j: int| 0 <= j < before.len() ==> (#[trigger] self.pane_states@[j]).0 == before[j].0,
                forall|j: int|
                    0 <= j < i ==> (#[trigger] self.pane_states@[j]).1@ == cleared_text(before[j].1@),
                forall|j: int| i <= j < before.len() ==> (#[trigger] self.pane_states@[j]) == before[j],
            decreases before.len() - i,
        {
            self.pane_states.state_at_mut(i).clear();
            i += 1;
        }
        proof {
            let after = self.pane_states@;
            assert(texts(after) =~= cleared_all(texts(before)));
            assert forall|i: int, j: int| 0 <= i < j < after.len() implies after[i].0
                < after[j].0 by {
                assert(before[i].0 < before[j].0);
            }
        }
        self.notification_queue.clear();
    }

    /// Counts a tick: advances every running animation to the new tick and
    /// removes expired entries from the queue. Returns whether any pane was
    /// animating. The host restarts its timer afterwards.
    pub fn handle_timer(&mut self) -> (needs_render: bool)
        requires
            old(self).wf(),
            old(self).notification_queue@.expired + old(self).notification_queue@.entries().len()
                <= u64::MAX,
        ensures
            old(self).ticks_into(*final(self)),
            needs_render == any_animating(old(self).pane_states@),
    {
        self.tick_count = if self.tick_count == u64::MAX {
            0
        } else {
            self.tick_count + 1
        };
        let tick = self.tick_count;
        let engine = self.animation_engine;
        let ghost before = self.pane_states@;
        let mut needs_render = false;
        let mut i: usize = 0;
        while i < self.pane_states.len()
            invariant
                i <= before.len(),
                engine.wf(),
                self.pane_states@.len() == before.len(),
                *self == (State {
                    pane_states: self.pane_states,
                    tick_count: tick,
                    ..*old(self)
                }),
                forall|j: int|
                    0 <= j < i ==> (#[trigger] self.pane_states@[j]) == (
                        before[j].0,
                        engine.updated(before[j].1, tick),
                    ),
                forall|j: int| i <= j < before.len() ==> (#[trigger] self.pane_states@[j]) == before[j],
                needs_render == any_animating(before.take(i as int)),
            decreases before.len() - i,
        {
            let ghost seen = before.take(i as int);
            let ghost more = before.take(i as int + 1);
            if self.pane_states.state_at(i).is_animating {
                engine.update_animation(self.pane_states.state_at_mut(i), tick);
                needs_render = true;
                proof {
                    assert(more[i as int].1.is_animating);
                }
            } else {
                proof {
                    if any_animating(more) {
                        let k = choose|k: int| 0 <= k < more.len() && (#[trigger] more[k]).1.is_animating;
                        assert(seen[k].1.is_animating);
                    }
                }
            }
            proof {
                if any_animating(seen) {
                    let k = choose|k: int| 0 <= k < seen.len() && (#[trigger] seen[k]).1.is_animating;
                    assert(more[k].1.is_animating);
                }
            }
            i += 1;
        }
        proof {
            let after = self.pane_states@;
            assert(before.take(before.len() as int) =~= before);
            assert(after =~= advanced(before, engine, tick));
            assert forall|i: int, j: int| 0 <= i < j < after.len() implies after[i].0
                < after[j].0 by {
                assert(before[i].0 < before[j].0);
            }
        }
        self.notification_queue.cleanup_expired();
        needs_render
    }
}

impl State {
    /// Whether `after` is this state after a report of the tabs: the first
    /// active tab, if there is one, is remembered.
    pub open spec fn tab_update_into(self, after: State, tabs: Seq<TabInfo>) -> bool {
        &&& after == (State { tab_info: after.tab_info, ..self })
        &&& match first_active(tabs) {
            Some(tab) => {
                &&& after.tab_info matches Some(info) && info.position == tab.position
                    && info.name@ == tab.name@ && info.active && info.panes_count == 0
            },
            None => after.tab_info == self.tab_info,
        }
    }

    /// Whether `after` is this state after a report of the panes: the report
    /// replaces the manifest, and the notifications of every pane that has
    /// the focus are cleared.
    pub open spec fn pane_update_into(self, after: State, reported: Seq<LocalPaneInfo>) -> bool {
        &&& after == (State {
            pane_states: after.pane_states,
            notification_queue: after.notification_queue,
            pane_manifest: after.pane_manifest,
            ..self
        })
        &&& after.pane_states.wf()
        &&& after.notification_queue.wf()
        &&& after.pane_manifest@ == manifest_of(reported)
        &&& texts(after.pane_states@) == focus_cleared(texts(self.pane_states@), reported)
        &&& after.notification_queue@ == focus_removed(self.notification_queue@, reported)
    }

    /// Whether `after` is this state after a key was pressed, and `render`
    /// whether the key did anything: control-n clears all notifications.
    pub open spec fn key_into(self, after: State, key: KeyPress, render: bool) -> bool {
        if key == KeyPress::Ctrl('n') {
            render && self.clears_all_into(after)
        } else {
            !render && after == self
        }
    }

    /// Whether `after` is this state after the host answered the request for
    /// permissions: the plugin runs, or falls back with the reason noted.
    pub open spec fn permission_into(self, after: State, status: PermissionStatus) -> bool {
        match status {
            PermissionStatus::Granted => after == (State {
                plugin_state: PluginState::Running,
                ..self
            }),
            PermissionStatus::Denied => {
                &&& after == (State {
                    plugin_state: PluginState::FallbackMode,
                    error_state: after.error_state,
                    ..self
                })
                &&& after.error_state matches Some(reason) && reason@
                    == "Permissions denied, running in fallback mode"@
            },
        }
    }

    /// Whether `after` is this state after a payload was taken in, and
    /// `accepted` whether it was a notification: a notification is converted,
    /// queued and presented, and the bridge notes the success; anything else
    /// is an error that the bridge counts.
    pub open spec fn notified_into(self, after: State, payload: Payload, accepted: bool) -> bool {
        let heard = State { event_bridge: after.event_bridge, ..self };
        match (payload.message, payload.legacy) {
            (Ok(msg), _) => {
                &&& accepted
                &&& self.event_bridge.succeeds_into(
                    after.event_bridge,
                    match msg.timestamp {
                        Some(t) => t,
                        None => 0,
                    },
                )
                &&& exists|n: Notification| #[trigger]
                    msg.converts_to(n) && heard.queues_into(after, n)
            },
            (Err(_), Some(text)) => {
                &&& accepted
                &&& self.event_bridge.succeeds_into(
                    after.event_bridge,
                    self.event_bridge.last_seen(),
                )
                &&& exists|n: Notification| #[trigger]
                    n.is_legacy(text@) && heard.queues_into(after, n)
            },
            (Err(_), None) => {
                &&& !accepted
                &&& after == heard
                &&& self.event_bridge.fails_into(after.event_bridge, "Too many parse errors"@)
            },
        }
    }

    /// Whether `after` is this state after the configuration was asked to be
    /// read anew: there is never anything new, so nothing changes.
    pub open spec fn reload_into(self, after: State) -> bool {
        &&& after == (State { config_manager: after.config_manager, ..self })
        &&& after.config_manager.path() == self.config_manager.path()
        &&& after.config_manager.last() == self.config_manager.last()
    }

    /// Whether `after` is this state after a named message arrived, and
    /// `render` whether it did anything. `notification` brings a payload,
    /// `clear` clears all notifications, `config_reload` reads the
    /// configuration anew; other names are ignored.
    pub open spec fn custom_into(
        self,
        after: State,
        message: Seq<char>,
        payload: Payload,
        render: bool,
    ) -> bool {
        if message == "notification"@ {
            self.notified_into(after, payload, render)
        } else if message == "clear"@ {
            render && self.clears_all_into(after)
        } else if message == "config_reload"@ {
            render && self.reload_into(after)
        } else {
            !render && after == self
        }
    }

    /// Whether the counters of the bridge and the queue leave room for what
    /// the event can count: an error of the bridge for a payload that does
    /// not read, the entries that a tick may find expired, and the entries
    /// that are drained afterwards, with the one that the event may bring.
    pub open spec fn has_room_for(self, event: PluginEvent) -> bool {
        let queue = self.notification_queue@;
        &&& counts_error(event) ==> self.event_bridge.errors() < u32::MAX
        &&& event is Timer ==> queue.expired + queue.entries().len() <= u64::MAX
        &&& queue.processed + queue.entries().len() + (if brings_notification(event) {
            1int
        } else {
            0int
        }) <= u64::MAX
    }

    /// Remembers the first active tab of the report. Always asks for a
    /// redraw.
    pub fn handle_tab_update(&mut self, tabs: Vec<TabInfo>) -> (render: bool)
        ensures
            render,
            old(self).tab_update_into(*final(self), tabs@),
    {
        let mut i: usize = 0;
        assert(tabs@.skip(0) =~= tabs@);
        while i < tabs.len()
            invariant
                i <= tabs.len(),
                *self == *old(self),
                first_active(tabs@) == first_active(tabs@.skip(i as int)),
            decreases tabs.len() - i,
        {
            assert(tabs@.skip(i as int).drop_first() =~= tabs@.skip(i as int + 1));
            if tabs[i].active {
                self.tab_info = Some(
                    LocalTabInfo {
                        position: tabs[i].position,
                        name: tabs[i].name.clone(),
                        active: true,
                        panes_count: 0,
                    },
                );
                return true;
            }
            i += 1;
        }
        true
    }

    /// Takes in a report of the panes: the report replaces the manifest, and
    /// the notifications of every pane that has the focus are cleared. Always
    /// asks for a redraw.
    pub fn handle_pane_update(&mut self, panes: Vec<LocalPaneInfo>) -> (render: bool)
        requires
            old(self).wf(),
        ensures
            render,
            old(self).pane_update_into(*final(self), panes@),
    {
        self.pane_manifest.clear();
        let mut i: usize = 0;
        assert(panes@.take(0) =~= Seq::<LocalPaneInfo>::empty());
        while i < panes.len()
            invariant
                i <= panes.len(),
                old(self).wf(),
                old(self).pane_update_into(*self, panes@.take(i as int)),
                self.animation_engine.wf(),
            decreases panes.len() - i,
        {
            assert(panes@.take(i as int + 1).drop_last() =~= panes@.take(i as int));
            let pane = &panes[i];
            let info = LocalPaneInfo {
                id: pane.id,
                is_focused: pane.is_focused,
                title: pane.title.clone(),
                is_plugin: pane.is_plugin,
            };
            self.pane_manifest.insert(pane.id, info);
            if pane.is_focused {
                self.clear_pane_notification(pane.id);
            }
            i += 1;
        }
        assert(panes@.take(panes.len() as int) =~= panes@);
        true
    }

    /// Reacts to a key: control-n clears all notifications. Returns whether
    /// the key did anything.
    pub fn handle_key(&mut self, key: KeyPress) -> (render: bool)
        requires
            old(self).wf(),
        ensures
            old(self).key_into(*final(self), key, render),
    {
        match key {
            KeyPress::Ctrl(c) => {
                if c == 'n' {
                    self.clear_all_notifications();
                    true
                } else {
                    false
                }
            },
            KeyPress::Other => false,
        }
    }

    /// Takes in the host's answer to the request for permissions.
    pub fn handle_permission_result(&mut self, result: PermissionStatus)
        ensures
            old(self).permission_into(*final(self), result),
    {
        match result {
            PermissionStatus::Granted => {
                self.plugin_state = PluginState::Running;
            },
            PermissionStatus::Denied => {
                self.error_state = Some("Permissions denied, running in fallback mode".to_string());
                self.plugin_state = PluginState::FallbackMode;
            },
        }
    }

    /// Takes in a payload: a notification is queued and presented; anything
    /// else is counted as an error of the bridge. Returns whether a
    /// notification came in.
    pub fn handle_notification_message(&mut self, payload: Payload) -> (accepted: bool)
        requires
            old(self).wf(),
            payload.is_unreadable() ==> old(self).event_bridge.errors() < u32::MAX,
        ensures
            old(self).notified_into(*final(self), payload, accepted),
    {
        let Payload { message, legacy } = payload;
        match self.event_bridge.parse_notification(message, legacy) {
            Ok(notification) => {
                self.queue_notification(notification);
                true
            },
            Err(_) => false,
        }
    }

    /// Takes in a payload that arrived through a pipe, if the pipe brought
    /// one.
    pub fn handle_pipe_message(&mut self, payload: Option<Payload>) -> (accepted: bool)
        requires
            old(self).wf(),
            payload matches Some(p) ==> (p.is_unreadable() ==> old(self).event_bridge.errors()
                < u32::MAX),
        ensures
            match payload {
                Some(p) => old(self).notified_into(*final(self), p, accepted),
                None => !accepted && *final(self) == *old(self),
            },
    {
        match payload {
            Some(payload) => self.handle_notification_message(payload),
            None => false,
        }
    }

    /// Reads the configuration anew and rebuilds what depends on it, if there
    /// is anything new.
    pub fn reload_config(&mut self)
        ensures
            old(self).reload_into(*final(self)),
    {
        if let Some(new_config) = self.config_manager.reload() {
            self.color_manager = ColorManager::new(&new_config.theme);
            self.animation_engine = AnimationEngine::new(&new_config.animation);
            self.renderer = Renderer::new(&new_config);
            self.config = new_config;
        }
    }

    /// Reacts to a named message. Returns whether it did anything.
    pub fn handle_custom_message(&mut self, message: &str, payload: Payload) -> (render: bool)
        requires
            old(self).wf(),
            message@ == "notification"@ && payload.is_unreadable() ==> old(
                self,
            ).event_bridge.errors() < u32::MAX,
        ensures
            old(self).custom_into(*final(self), message@, payload, render),
    {
        if same_text(message, "notification") {
            self.handle_notification_message(payload)
        } else if same_text(message, "clear") {
            self.clear_all_notifications();
            true
        } else if same_text(message, "config_reload") {
            self.reload_config();
            true
        } else {
            false
        }
    }

    /// The content of the status bar, for the host to write out; nothing
    /// where the bar is off or the surface too narrow.
    pub fn render(&self, rows: usize, cols: usize) -> (content: Option<String>)
        requires
            self.wf(),
        ensures
            match content {
                Some(text) => self.renderer.show_status_bar && cols >= 10 && text@
                    == self.renderer.status_text(
                    crate::renderer::active_count(self.pane_states@),
                    self.notification_queue@.entries().len(),
                    self.pane_states@,
                    self.color_manager,
                    self.animation_engine,
                    self.tick_count,
                ),
                None => !self.renderer.show_status_bar || cols < 10,
            },
    {
        self.renderer.render_status_bar(
            rows,
            cols,
            &self.pane_states,
            &self.notification_queue,
            &self.color_manager,
            &self.animation_engine,
            self.tick_count,
        )
    }

    /// Takes in a payload that arrived through a pipe.
    pub fn pipe(&mut self, payload: Option<Payload>) -> (render: bool)
        requires
            old(self).wf(),
            payload matches Some(p) ==> (p.is_unreadable() ==> old(self).event_bridge.errors()
                < u32::MAX),
        ensures
            match payload {
                Some(p) => old(self).notified_into(*final(self), p, render),
                None => !render && *final(self) == *old(self),
            },
    {
        self.handle_pipe_message(payload)
    }
}

/// Whether handling the event counts an error of the bridge: a message named
/// `notification` whose payload reads in neither format.
pub open spec fn counts_error(event: PluginEvent) -> bool {
    event matches PluginEvent::CustomMessage(message, payload) && message@ == "notification"@
        && payload.is_unreadable()
}

/// Whether handling the event queues a notification: a message named
/// `notification` whose payload reads in one of the formats.
pub open spec fn brings_notification(event: PluginEvent) -> bool {
    event matches PluginEvent::CustomMessage(message, payload) && message@ == "notification"@
        && !payload.is_unreadable()
}

impl State {
    /// Whether `after` is this state after the event was handled, before the
    /// queue is drained, and `render` whether the handler asks for a redraw.
    pub open spec fn dispatches_into(self, after: State, event: PluginEvent, render: bool) -> bool {
        match event {
            PluginEvent::Timer => self.ticks_into(after) && render == any_animating(
                self.pane_states@,
            ),
            PluginEvent::ModeUpdate => render && after == self,
            PluginEvent::TabUpdate(tabs) => render && self.tab_update_into(after, tabs@),
            PluginEvent::PaneUpdate(panes) => render && self.pane_update_into(after, panes@),
            PluginEvent::Key(key) => self.key_into(after, key, render),
            PluginEvent::CustomMessage(message, payload) => self.custom_into(
                after,
                message@,
                payload,
                render,
            ),
            PluginEvent::PermissionRequestResult(status) => !render && self.permission_into(
                after,
                status,
            ),
            PluginEvent::Other => !render && after == self,
        }
    }

    /// Whether `after` is this state after the host loaded the plugin with
    /// the given configuration: every part is built from the settings
    /// configured, the bridge is new, and the plugin counts as initialised.
    /// Panes, ticks and what was reported of tabs and panes stay.
    pub open spec fn loads_into(self, after: State, configuration: Seq<(Seq<char>, Seq<char>)>) -> bool {
        &&& after == (State {
            config: after.config,
            config_manager: after.config_manager,
            color_manager: after.color_manager,
            animation_engine: after.animation_engine,
            notification_queue: after.notification_queue,
            renderer: after.renderer,
            event_bridge: after.event_bridge,
            plugin_state: PluginState::Initialized,
            ..self
        })
        &&& after.config@ == configured(configuration)
        &&& after.config_manager.path() is None
        &&& after.config_manager.last() is None
        &&& after.color_manager.theme() == after.config@.theme
        &&& after.color_manager.capability() == ColorCapability::TrueColor
        &&& !after.color_manager.high_contrast()
        &&& after.animation_engine.wf()
        &&& after.animation_engine.settings() == after.config.animation
        &&& after.notification_queue.wf()
        &&& after.notification_queue@ == QueueState::empty(
            after.config.queue_max_size as nat,
            after.config.notification_timeout_ms,
        )
        &&& after.renderer == (Renderer {
            show_status_bar: after.config.show_status_bar,
            show_border_colors: after.config.show_border_colors,
            show_tab_badges: after.config.show_tab_badges,
            use_unicode: true,
            use_patterns: after.config.accessibility.use_patterns,
        })
        &&& after.event_bridge.state() is Disconnected
        &&& after.event_bridge.version() == "1.0"@
        &&& after.event_bridge.last_seen() == 0
        &&& after.event_bridge.errors() == 0
        &&& after.event_bridge.error_limit() == MAX_ERRORS
    }

    /// Builds the overlay from the configuration that the host hands to the
    /// plugin. The host asks for permissions, subscribes to events and starts
    /// the timer.
    pub fn load(&mut self, configuration: &Vec<(String, String)>)
        requires
            old(self).pane_states.wf(),
            number_setting(
                pairs_text(configuration@),
                "queue_max_size"@,
                usize::MAX as int,
                100,
            ) <= MAX_LEVEL_SIZE,
        ensures
            final(self).wf(),
            old(self).loads_into(*final(self), pairs_text(configuration@)),
    {
        self.config = Config::from_plugin_config(configuration);
        proof {
            crate::config::lemma_number_setting_range(
                pairs_text(configuration@),
                "queue_max_size"@,
                usize::MAX as int,
                100,
            );
        }
        self.config_manager = ConfigManager::new();
        self.color_manager = ColorManager::new(&self.config.theme);
        self.animation_engine = AnimationEngine::new(&self.config.animation);
        self.notification_queue = NotificationQueue::new(
            self.config.queue_max_size,
            self.config.notification_timeout_ms,
        );
        self.renderer = Renderer::new(&self.config);
        self.event_bridge = EventBridge::new();
        self.plugin_state = PluginState::Initialized;
    }

    /// Handles an event of the host, then drains the queue onto the panes.
    /// Returns whether the overlay has to be redrawn: the handler asks for
    /// it, or a drained notification addressed a pane.
    pub fn update(&mut self, event: PluginEvent) -> (render: bool)
        requires
            old(self).wf(),
            old(self).has_room_for(event),
        ensures
            final(self).wf(),
            exists|handled: State, asked: bool| #[trigger]
                old(self).dispatches_into(handled, event, asked) && handled.drains_into(
                    *final(self),
                ) && render == (asked || any_addressed(handled.notification_queue@.entries())),
    {
        let asked = match event {
            PluginEvent::Timer => self.handle_timer(),
            PluginEvent::ModeUpdate => true,
            PluginEvent::TabUpdate(tabs) => self.handle_tab_update(tabs),
            PluginEvent::PaneUpdate(panes) => self.handle_pane_update(panes),
            PluginEvent::Key(key) => self.handle_key(key),
            PluginEvent::CustomMessage(message, payload) => self.handle_custom_message(
                message.as_str(),
                payload,
            ),
            PluginEvent::PermissionRequestResult(result) => {
                self.handle_permission_result(result);
                false
            },
            PluginEvent::Other => false,
        };
        let ghost handled = *self;
        proof {
            lemma_dispatch_keeps_room(*old(self), handled, event, asked);
        }
        let drained = self.process_notification_queue();
        assert(old(self).dispatches_into(handled, event, asked) && handled.drains_into(*self));
        asked || drained
    }
}

/// Filtering the levels of a queue leaves no more entries than there were.
pub proof fn lemma_retain_shrinks(queue: QueueState, keep: spec_fn(Notification) -> bool)
    ensures
        queue.retain(keep).entries().len() <= queue.entries().len(),
        queue.retain(keep).processed == queue.processed,
        queue.retain(keep).expired == queue.expired,
{
    queue.critical.lemma_filter_len(keep);
    queue.high.lemma_filter_len(keep);
    queue.normal.lemma_filter_len(keep);
    queue.low.lemma_filter_len(keep);
}

/// Removing the entries of focused panes leaves no more entries than there
/// were, and the counters as they were.
pub proof fn lemma_focus_removed_shrinks(queue: QueueState, reported: Seq<LocalPaneInfo>)
    ensures
        focus_removed(queue, reported).entries().len() <= queue.entries().len(),
        focus_removed(queue, reported).processed == queue.processed,
    decreases reported.len(),
{
    if reported.len() > 0 {
        lemma_focus_removed_shrinks(queue, reported.drop_last());
        if reported.last().is_focused {
            lemma_retain_shrinks(
                focus_removed(queue, reported.drop_last()),
                not_for_pane(reported.last().id),
            );
        }
    }
}

/// After any event was handled the overlay is well formed, and the queue
/// can be drained without its counter of processed notifications running
/// over.
pub proof fn lemma_dispatch_keeps_room(before: State, after: State, event: PluginEvent, render: bool)
    requires
        before.wf(),
        before.has_room_for(event),
        before.dispatches_into(after, event, render),
    ensures
        after.wf(),
        after.notification_queue@.processed + after.notification_queue@.entries().len()
            <= u64::MAX,
{
    let q = before.notification_queue@;
    match event {
        PluginEvent::Timer => {
            lemma_retain_shrinks(q, crate::queue::unexpired_at(q.now as int));
        },
        PluginEvent::PaneUpdate(panes) => {
            lemma_focus_removed_shrinks(q, panes@);
        },
        PluginEvent::CustomMessage(message, payload) => {
            if message@ == "notification"@ {
                match (payload.message, payload.legacy) {
                    (Ok(msg), _) => {
                        let n = choose|n: Notification| #[trigger]
                            msg.converts_to(n) && (State {
                                event_bridge: after.event_bridge,
                                ..before
                            }).queues_into(after, n);
                        lemma_enqueue_grows_by_one(q, n);
                    },
                    (Err(_), Some(text)) => {
                        let n = choose|n: Notification| #[trigger]
                            n.is_legacy(text@) && (State {
                                event_bridge: after.event_bridge,
                                ..before
                            }).queues_into(after, n);
                        lemma_enqueue_grows_by_one(q, n);
                    },
                    (Err(_), None) => {},
                }
            }
        },
        _ => {},
    }
}

/// Enqueuing adds at most one entry and leaves the counters as they were.
pub proof fn lemma_enqueue_grows_by_one(queue: QueueState, n: Notification)
    ensures
        queue.enqueue(n).entries().len() <= queue.entries().len() + 1,
        queue.enqueue(n).processed == queue.processed,
        queue.enqueue(n).expired == queue.expired,
{
}

impl Default for State {
    /// The overlay before the host has loaded it: default settings, no
    /// panes, an empty queue.
    fn default() -> (state: State)
        ensures
            state.wf(),
            state.pane_states@ == Seq::<(u32, VisualState)>::empty(),
            state.notification_queue@ == QueueState::empty(100, 300_000),
            state.config@ == crate::config::default_config(),
            state.plugin_state is Initializing,
            state.tick_count == 0,
            state.last_update_ms == 0,
            state.error_state is None,
            state.own_pane_id is None,
            state.tab_info is None,
            state.pane_manifest@ == Map::<u32, LocalPaneInfo>::empty(),
    {
        State {
            config: Config::default(),
            config_manager: ConfigManager::default(),
            pane_states: PaneStates::default(),
            animation_engine: AnimationEngine::default(),
            color_manager: ColorManager::default(),
            event_bridge: EventBridge::default(),
            notification_queue: NotificationQueue::default(),
            renderer: Renderer::default(),
            plugin_state: PluginState::default(),
            tick_count: 0,
            last_update_ms: 0,
            error_state: None,
            own_pane_id: None,
            tab_info: None,
            pane_manifest: BTreeMap::new(),
        }
    }
}

} // verus!
