//! The notification queue: four first-in-first-out levels, one per priority,
//! each bounded, served from the highest priority down.

use crate::notification::{Notification, Priority};
use std::collections::VecDeque;
use vstd::prelude::*;

verus! {

/// The notification as the queue stores it: a missing time-to-live replaced
/// by the queue's default, a missing timestamp by the queue's current time.
pub open spec fn stamped(n: Notification, default_ttl: u64, now: u64) -> Notification {
    Notification {
        ttl_ms: if n.ttl_ms == 0 { default_ttl } else { n.ttl_ms },
        timestamp: if n.timestamp == 0 { now } else { n.timestamp },
        ..n
    }
}

/// A level after `n` has been admitted to it: at capacity the oldest entry
/// leaves first; `n` goes to the end.
pub open spec fn admitted(level: Seq<Notification>, n: Notification, capacity: nat) -> Seq<
    Notification,
> {
    if level.len() >= capacity && level.len() > 0 {
        level.drop_first().push(n)
    } else {
        level.push(n)
    }
}

/// The test that keeps what has not expired at `now`.
pub open spec fn unexpired_at(now: int) -> spec_fn(Notification) -> bool {
    |n: Notification| !n.expired_at(now)
}

/// The test that holds of notifications addressed to the pane.
pub open spec fn for_pane(pane_id: u32) -> spec_fn(Notification) -> bool {
    |n: Notification| n.pane_id == Some(pane_id)
}

/// The test that holds of notifications not addressed to the pane.
pub open spec fn not_for_pane(pane_id: u32) -> spec_fn(Notification) -> bool {
    |n: Notification| n.pane_id != Some(pane_id)
}

/// The test that holds of notifications not addressed to the tab.
pub open spec fn not_for_tab(tab_index: usize) -> spec_fn(Notification) -> bool {
    |n: Notification| n.tab_index != Some(tab_index)
}

/// The test that holds of notifications of the given priority.
pub open spec fn of_priority(priority: Priority) -> spec_fn(Notification) -> bool {
    |n: Notification| n.priority == priority
}

/// The last `count` entries of `s`, or all of `s` if it has fewer.
pub open spec fn newest(s: Seq<Notification>, count: nat) -> Seq<Notification> {
    if s.len() <= count {
        s
    } else {
        s.skip(s.len() - count)
    }
}

/// Whether `level` can be the level of the given priority in a queue whose
/// levels reach at most `bound` entries.
pub open spec fn level_wf(level: Seq<Notification>, priority: Priority, bound: nat) -> bool {
    &&& level.len() <= bound
    &&& forall|i: int| 0 <= i < level.len() ==> (#[trigger] level[i]).priority == priority
}

/// What a queue holds: the mathematical model in which the operations of
/// [`NotificationQueue`] are stated.
pub struct QueueState {
    /// The critical level, oldest entry first.
    pub critical: Seq<Notification>,
    /// The high level.
    pub high: Seq<Notification>,
    /// The normal level.
    pub normal: Seq<Notification>,
    /// The low level.
    pub low: Seq<Notification>,
    /// The most entries that one level keeps.
    pub capacity: nat,
    /// Time-to-live given to notifications that bring none.
    pub default_ttl: u64,
    /// The queue's current time.
    pub now: u64,
    /// How many notifications have been dequeued so far.
    pub processed: nat,
    /// How many notifications have expired so far.
    pub expired: nat,
}

impl QueueState {
    /// An empty queue.
    pub open spec fn empty(capacity: nat, default_ttl: u64) -> QueueState {
        QueueState {
            critical: Seq::empty(),
            high: Seq::empty(),
            normal: Seq::empty(),
            low: Seq::empty(),
            capacity,
            default_ttl,
            now: 0,
            processed: 0,
            expired: 0,
        }
    }

    /// The entries of one level, oldest first.
    pub open spec fn level(self, priority: Priority) -> Seq<Notification> {
        match priority {
            Priority::Critical => self.critical,
            Priority::High => self.high,
            Priority::Normal => self.normal,
            Priority::Low => self.low,
        }
    }

    /// This queue with one level replaced.
    pub open spec fn with_level(self, priority: Priority, entries: Seq<Notification>) -> QueueState {
        match priority {
            Priority::Critical => QueueState { critical: entries, ..self },
            Priority::High => QueueState { high: entries, ..self },
            Priority::Normal => QueueState { normal: entries, ..self },
            Priority::Low => QueueState { low: entries, ..self },
        }
    }

    /// All entries in the order in which they are served: by level from
    /// critical down to low, oldest first within a level.
    pub open spec fn entries(self) -> Seq<Notification> {
        self.critical + self.high + self.normal + self.low
    }

    /// The number of entries that a level can reach: its capacity, and one
    /// entry even where the capacity is zero.
    pub open spec fn bound(self) -> nat {
        if self.capacity == 0 {
            1
        } else {
            self.capacity
        }
    }

    /// The invariant of the queue: every level holds notifications of its own
    /// priority only, and no more than its bound.
    pub open spec fn wf(self) -> bool {
        &&& level_wf(self.critical, Priority::Critical, self.bound())
        &&& level_wf(self.high, Priority::High, self.bound())
        &&& level_wf(self.normal, Priority::Normal, self.bound())
        &&& level_wf(self.low, Priority::Low, self.bound())
    }

    /// The queue after `n` was enqueued.
    pub open spec fn enqueue(self, n: Notification) -> QueueState {
        let entry = stamped(n, self.default_ttl, self.now);
        self.with_level(
            entry.priority,
            admitted(self.level(entry.priority), entry, self.capacity),
        )
    }

    /// The queue after each of `ns` was enqueued, in order.
    pub open spec fn enqueue_all(self, ns: Seq<Notification>) -> QueueState
        decreases ns.len(),
    {
        if ns.len() == 0 {
            self
        } else {
            self.enqueue_all(ns.drop_last()).enqueue(ns.last())
        }
    }

    /// The entry that is served next: the oldest of the highest level that
    /// has any.
    pub open spec fn front(self) -> Option<Notification> {
        if self.entries().len() > 0 {
            Some(self.entries()[0])
        } else {
            None
        }
    }

    /// The queue after its front entry was dequeued; the queue itself if it is
    /// empty.
    pub open spec fn dequeue(self) -> QueueState {
        if self.critical.len() > 0 {
            QueueState { critical: self.critical.drop_first(), processed: self.processed + 1, ..self }
        } else if self.high.len() > 0 {
            QueueState { high: self.high.drop_first(), processed: self.processed + 1, ..self }
        } else if self.normal.len() > 0 {
            QueueState { normal: self.normal.drop_first(), processed: self.processed + 1, ..self }
        } else if self.low.len() > 0 {
            QueueState { low: self.low.drop_first(), processed: self.processed + 1, ..self }
        } else {
            self
        }
    }

    /// The queue with only those entries, in every level, of which `keep`
    /// holds.
    pub open spec fn retain(self, keep: spec_fn(Notification) -> bool) -> QueueState {
        QueueState {
            critical: self.critical.filter(keep),
            high: self.high.filter(keep),
            normal: self.normal.filter(keep),
            low: self.low.filter(keep),
            ..self
        }
    }

    /// The queue after the entries that have expired at its current time were
    /// removed and counted.
    pub open spec fn cleanup(self) -> QueueState {
        let kept = self.retain(unexpired_at(self.now as int));
        QueueState {
            expired: self.expired + (self.entries().len() - kept.entries().len()) as nat,
            ..kept
        }
    }

    /// The queue without any entry.
    pub open spec fn cleared(self) -> QueueState {
        QueueState {
            critical: Seq::empty(),
            high: Seq::empty(),
            normal: Seq::empty(),
            low: Seq::empty(),
            ..self
        }
    }
}

impl Default for NotificationQueue {
    /// An empty queue of a hundred entries per level and a default
    /// time-to-live of five minutes.
    fn default() -> (queue: NotificationQueue)
        ensures
            queue.wf(),
            queue@ == QueueState::empty(100, 300_000),
    {
        NotificationQueue::new(100, 300_000)
    }
}

/// Counters of a queue, for observation.
#[derive(Debug, Clone, Copy, PartialEq, Eq, Structural)]
pub struct QueueStats {
    /// Entries in the queue.
    pub total_queued: usize,
    /// Entries in the critical level.
    pub critical_count: usize,
    /// Entries in the high level.
    pub high_count: usize,
    /// Entries in the normal level.
    pub normal_count: usize,
    /// Entries in the low level.
    pub low_count: usize,
    /// Notifications dequeued so far.
    pub total_processed: u64,
    /// Notifications expired so far.
    pub total_expired: u64,
    /// Capacity of each level.
    pub max_size: usize,
}

impl Default for QueueStats {
    fn default() -> (stats: QueueStats)
        ensures
            stats == (QueueStats {
                total_queued: 0,
                critical_count: 0,
                high_count: 0,
                normal_count: 0,
                low_count: 0,
                total_processed: 0,
                total_expired: 0,
                max_size: 0,
            }),
    {
        QueueStats {
            total_queued: 0,
            critical_count: 0,
            high_count: 0,
            normal_count: 0,
            low_count: 0,
            total_processed: 0,
            total_expired: 0,
            max_size: 0,
        }
    }
}

/// Largest capacity per level that a queue accepts: the four levels together
/// must fit the range of `usize`.
pub const MAX_LEVEL_SIZE: usize = usize::MAX / 4;

/// A queue of notifications with four priority levels.
#[derive(Debug)]
pub struct NotificationQueue {
    critical_queue: VecDeque<Notification>,
    high_queue: VecDeque<Notification>,
    normal_queue: VecDeque<Notification>,
    low_queue: VecDeque<Notification>,
    max_size: usize,
    default_ttl_ms: u64,
    current_timestamp: u64,
    total_processed: u64,
    total_expired: u64,
}

impl View for NotificationQueue {
    type V = QueueState;

    closed spec fn view(&self) -> QueueState {
        QueueState {
            critical: self.critical_queue@,
            high: self.high_queue@,
            normal: self.normal_queue@,
            low: self.low_queue@,
            capacity: self.max_size as nat,
            default_ttl: self.default_ttl_ms,
            now: self.current_timestamp,
            processed: self.total_processed as nat,
            expired: self.total_expired as nat,
        }
    }
}

impl NotificationQueue {
    /// The invariant of the queue: that of its model, with a capacity of at
    /// most [`MAX_LEVEL_SIZE`].
    pub open spec fn wf(&self) -> bool {
        &&& self@.wf()
        &&& self@.capacity <= MAX_LEVEL_SIZE
        &&& self@.processed <= u64::MAX
        &&& self@.expired <= u64::MAX
    }

    /// An empty queue whose levels keep at most `max_size` entries each.
    pub fn new(max_size: usize, default_ttl_ms: u64) -> (queue: NotificationQueue)
        requires
            max_size <= MAX_LEVEL_SIZE,
        ensures
            queue.wf(),
            queue@ == QueueState::empty(max_size as nat, default_ttl_ms),
    {
        NotificationQueue {
            critical_queue: VecDeque::new(),
            high_queue: VecDeque::new(),
            normal_queue: VecDeque::new(),
            low_queue: VecDeque::new(),
            max_size,
            default_ttl_ms,
            current_timestamp: 0,
            total_processed: 0,
            total_expired: 0,
        }
    }

    /// Sets the queue's current time.
    pub fn update_timestamp(&mut self, timestamp: u64)
        requires
            old(self).wf(),
        ensures
            final(self).wf(),
            final(self)@ == (QueueState { now: timestamp, ..old(self)@ }),
    {
        self.current_timestamp = timestamp;
    }

    /// Admits a notification. One without a time-to-live gets the queue's
    /// default, one without a timestamp the queue's current time. It joins
    /// the end of the level of its priority; if that level is at capacity,
    /// the level's oldest entry is dropped first. No other level changes.
    pub fn enqueue(&mut self, notification: Notification)
        requires
            old(self).wf(),
        ensures
            final(self).wf(),
            final(self)@ == old(self)@.enqueue(notification),
    {
        let mut notification = notification;
        if notification.ttl_ms == 0 {
            notification.ttl_ms = self.default_ttl_ms;
        }
        if notification.timestamp == 0 {
            notification.timestamp = self.current_timestamp;
        }
        let max_size = self.max_size;
        match notification.priority {
            Priority::Critical => push_bounded(&mut self.critical_queue, notification, max_size),
            Priority::High => push_bounded(&mut self.high_queue, notification, max_size),
            Priority::Normal => push_bounded(&mut self.normal_queue, notification, max_size),
            Priority::Low => push_bounded(&mut self.low_queue, notification, max_size),
        }
    }

    /// Removes and returns the entry that is served next: the oldest entry of
    /// the highest level that has any. Returns `None`, and changes nothing,
    /// if the queue is empty.
    pub fn dequeue_ready(&mut self) -> (next: Option<Notification>)
        requires
            old(self).wf(),
            old(self)@.entries().len() > 0 ==> old(self)@.processed < u64::MAX,
        ensures
            final(self).wf(),
            next == old(self)@.front(),
            final(self)@ == old(self)@.dequeue(),
    {
        let mut next = self.critical_queue.pop_front();
        if next.is_none() {
            next = self.high_queue.pop_front();
        }
        if next.is_none() {
            next = self.normal_queue.pop_front();
        }
        if next.is_none() {
            next = self.low_queue.pop_front();
        }
        if next.is_some() {
            self.total_processed += 1;
        }
        next
    }

    /// The entry that is served next, left in place.
    pub fn peek(&self) -> (next: Option<&Notification>)
        requires
            self.wf(),
        ensures
            match next {
                Some(n) => self@.front() == Some(*n),
                None => self@.front() is None,
            },
    {
        if self.critical_queue.len() > 0 {
            Some(&self.critical_queue[0])
        } else if self.high_queue.len() > 0 {
            Some(&self.high_queue[0])
        } else if self.normal_queue.len() > 0 {
            Some(&self.normal_queue[0])
        } else if self.low_queue.len() > 0 {
            Some(&self.low_queue[0])
        } else {
            None
        }
    }

    /// The number of entries in the queue.
    pub fn len(&self) -> (len: usize)
        requires
            self.wf(),
        ensures
            len == self@.entries().len(),
    {
        self.critical_queue.len() + self.high_queue.len() + self.normal_queue.len()
            + self.low_queue.len()
    }

    /// Whether the queue has no entry.
    pub fn is_empty(&self) -> (empty: bool)
        requires
            self.wf(),
        ensures
            empty == (self@.entries().len() == 0),
    {
        self.len() == 0
    }

    /// The number of entries in one level.
    pub fn count_by_priority(&self, priority: &Priority) -> (count: usize)
        ensures
            count == self@.level(*priority).len(),
    {
        match priority {
            Priority::Critical => self.critical_queue.len(),
            Priority::High => self.high_queue.len(),
            Priority::Normal => self.normal_queue.len(),
            Priority::Low => self.low_queue.len(),
        }
    }

    /// Removes every entry. The counters stay.
    pub fn clear(&mut self)
        requires
            old(self).wf(),
        ensures
            final(self).wf(),
            final(self)@ == old(self)@.cleared(),
    {
        self.critical_queue.clear();
        self.high_queue.clear();
        self.normal_queue.clear();
        self.low_queue.clear();
    }

    /// Removes, from every level, the entries addressed to the pane.
    pub fn remove_for_pane(&mut self, pane_id: u32)
        requires
            old(self).wf(),
        ensures
            final(self).wf(),
            final(self)@ == old(self)@.retain(not_for_pane(pane_id)),
    {
        let rule = Removal::Pane(pane_id);
        proof {
            lemma_filter_keeps_level(self@.critical, rule.keeps(), Priority::Critical, self@.bound());
            lemma_filter_keeps_level(self@.high, rule.keeps(), Priority::High, self@.bound());
            lemma_filter_keeps_level(self@.normal, rule.keeps(), Priority::Normal, self@.bound());
            lemma_filter_keeps_level(self@.low, rule.keeps(), Priority::Low, self@.bound());
        }
        remove_from(&mut self.critical_queue, &rule);
        remove_from(&mut self.high_queue, &rule);
        remove_from(&mut self.normal_queue, &rule);
        remove_from(&mut self.low_queue, &rule);
    }

    /// Removes, from every level, the entries addressed to the tab.
    pub fn remove_for_tab(&mut self, tab_index: usize)
        requires
            old(self).wf(),
        ensures
            final(self).wf(),
            final(self)@ == old(self)@.retain(not_for_tab(tab_index)),
    {
        let rule = Removal::Tab(tab_index);
        proof {
            lemma_filter_keeps_level(self@.critical, rule.keeps(), Priority::Critical, self@.bound());
            lemma_filter_keeps_level(self@.high, rule.keeps(), Priority::High, self@.bound());
            lemma_filter_keeps_level(self@.normal, rule.keeps(), Priority::Normal, self@.bound());
            lemma_filter_keeps_level(self@.low, rule.keeps(), Priority::Low, self@.bound());
        }
        remove_from(&mut self.critical_queue, &rule);
        remove_from(&mut self.high_queue, &rule);
        remove_from(&mut self.normal_queue, &rule);
        remove_from(&mut self.low_queue, &rule);
    }

    /// Removes, from every level, the entries that have expired at the
    /// queue's current time, and adds their number to the count of expired
    /// notifications. Entries without a time-to-live stay.
    pub fn cleanup_expired(&mut self)
        requires
            old(self).wf(),
            old(self)@.expired + old(self)@.entries().len() <= u64::MAX,
        ensures
            final(self).wf(),
            final(self)@ == old(self)@.cleanup(),
    {
        let rule = Removal::Expired(self.current_timestamp);
        proof {
            lemma_filter_keeps_level(self@.critical, rule.keeps(), Priority::Critical, self@.bound());
            lemma_filter_keeps_level(self@.high, rule.keeps(), Priority::High, self@.bound());
            lemma_filter_keeps_level(self@.normal, rule.keeps(), Priority::Normal, self@.bound());
            lemma_filter_keeps_level(self@.low, rule.keeps(), Priority::Low, self@.bound());
        }
        let removed_critical = remove_from(&mut self.critical_queue, &rule);
        let removed_high = remove_from(&mut self.high_queue, &rule);
        let removed_normal = remove_from(&mut self.normal_queue, &rule);
        let removed_low = remove_from(&mut self.low_queue, &rule);
        let expired_count: u64 = removed_critical as u64 + removed_high as u64
            + removed_normal as u64 + removed_low as u64;
        self.total_expired += expired_count;
    }

    /// The entries addressed to the pane, in the order in which they are
    /// served.
    pub fn get_for_pane(&self, pane_id: u32) -> (found: Vec<&Notification>)
        ensures
            pointed(found@) == self@.entries().filter(for_pane(pane_id)),
    {
        let mut found: Vec<&Notification> = Vec::new();
        assert(pointed(found@) =~= Seq::<Notification>::empty());
        collect_for_pane(&self.critical_queue, pane_id, &mut found);
        collect_for_pane(&self.high_queue, pane_id, &mut found);
        collect_for_pane(&self.normal_queue, pane_id, &mut found);
        collect_for_pane(&self.low_queue, pane_id, &mut found);
        proof {
            let keep = for_pane(pane_id);
            Seq::filter_distributes_over_add(self@.critical, self@.high, keep);
            Seq::filter_distributes_over_add(self@.critical + self@.high, self@.normal, keep);
            Seq::filter_distributes_over_add(
                self@.critical + self@.high + self@.normal,
                self@.low,
                keep,
            );
            assert(pointed(found@) =~= self@.entries().filter(keep));
        }
        found
    }

    /// All entries, in the order in which they are served.
    pub fn all(&self) -> (found: Vec<&Notification>)
        ensures
            pointed(found@) == self@.entries(),
    {
        let mut found: Vec<&Notification> = Vec::new();
        assert(pointed(found@) =~= Seq::<Notification>::empty());
        collect_all(&self.critical_queue, &mut found);
        collect_all(&self.high_queue, &mut found);
        collect_all(&self.normal_queue, &mut found);
        collect_all(&self.low_queue, &mut found);
        assert(pointed(found@) =~= self@.entries());
        found
    }

    /// Whether any entry is addressed to the pane.
    pub fn has_notifications_for_pane(&self, pane_id: u32) -> (any: bool)
        ensures
            any == (self@.entries().filter(for_pane(pane_id)).len() > 0),
    {
        self.get_for_pane(pane_id).len() > 0
    }

    /// The entry addressed to the pane that is served first.
    pub fn get_highest_priority_for_pane(&self, pane_id: u32) -> (first: Option<&Notification>)
        ensures
            match first {
                Some(n) => self@.entries().filter(for_pane(pane_id)).len() > 0
                    && self@.entries().filter(for_pane(pane_id))[0] == *n,
                None => self@.entries().filter(for_pane(pane_id)).len() == 0,
            },
    {
        let found = self.get_for_pane(pane_id);
        if found.len() > 0 {
            assert(pointed(found@)[0] == *found@[0]);
            Some(found[0])
        } else {
            None
        }
    }

    /// The counters of the queue. Nothing changes.
    pub fn stats(&self) -> (stats: QueueStats)
        requires
            self.wf(),
        ensures
            stats.total_queued == self@.entries().len(),
            stats.critical_count == self@.critical.len(),
            stats.high_count == self@.high.len(),
            stats.normal_count == self@.normal.len(),
            stats.low_count == self@.low.len(),
            stats.total_processed == self@.processed,
            stats.total_expired == self@.expired,
            stats.max_size == self@.capacity,
    {
        QueueStats {
            total_queued: self.len(),
            critical_count: self.critical_queue.len(),
            high_count: self.high_queue.len(),
            normal_count: self.normal_queue.len(),
            low_count: self.low_queue.len(),
            total_processed: self.total_processed,
            total_expired: self.total_expired,
            max_size: self.max_size,
        }
    }
}

/// The notifications that a sequence of references points to.
pub open spec fn pointed(refs: Seq<&Notification>) -> Seq<Notification> {
    refs.map_values(|r: &Notification| *r)
}

/// Appends to `out` the entries of `queue` addressed to the pane.
fn collect_for_pane<'a>(
    queue: &'a VecDeque<Notification>,
    pane_id: u32,
    out: &mut Vec<&'a Notification>,
)
    ensures
        pointed(final(out)@) == pointed(old(out)@) + queue@.filter(for_pane(pane_id)),
{
    let ghost before = pointed(out@);
    let mut i: usize = 0;
    assert(queue@.take(0).filter(for_pane(pane_id)) =~= Seq::<Notification>::empty()) by {
        reveal(Seq::filter);
    }
    while i < queue.len()
        invariant
            i <= queue.len(),
            pointed(out@) =~= before + queue@.take(i as int).filter(for_pane(pane_id)),
        decreases queue.len() - i,
    {
        let n = &queue[i];
        proof {
            reveal(Seq::filter);
            assert(queue@.take(i as int + 1).drop_last() =~= queue@.take(i as int));
        }
        let ghost shown = pointed(out@);
        let addressed = match n.pane_id {
            Some(id) => id == pane_id,
            None => false,
        };
        if addressed {
            out.push(n);
            assert(pointed(out@) =~= shown.push(*n));
        }
        i += 1;
    }
    assert(queue@.take(queue.len() as int) =~= queue@);
}

/// Appends to `out` the entries of `queue`.
fn collect_all<'a>(queue: &'a VecDeque<Notification>, out: &mut Vec<&'a Notification>)
    ensures
        pointed(final(out)@) == pointed(old(out)@) + queue@,
{
    let ghost before = pointed(out@);
    let mut i: usize = 0;
    while i < queue.len()
        invariant
            i <= queue.len(),
            pointed(out@) =~= before + queue@.take(i as int),
        decreases queue.len() - i,
    {
        let ghost shown = pointed(out@);
        out.push(&queue[i]);
        assert(pointed(out@) =~= shown.push(queue@[i as int]));
        i += 1;
    }
    assert(queue@.take(queue.len() as int) =~= queue@);
}

/// Which entries a sweep of the queue removes.
enum Removal {
    /// Those that have expired at the given time.
    Expired(u64),
    /// Those addressed to the pane.
    Pane(u32),
    /// Those addressed to the tab.
    Tab(usize),
}

impl Removal {
    /// The test that holds of the entries that stay.
    spec fn keeps(self) -> spec_fn(Notification) -> bool {
        match self {
            Removal::Expired(now) => unexpired_at(now as int),
            Removal::Pane(pane_id) => not_for_pane(pane_id),
            Removal::Tab(tab_index) => not_for_tab(tab_index),
        }
    }

    fn keeps_entry(&self, n: &Notification) -> (keep: bool)
        ensures
            keep == (self.keeps())(*n),
    {
        match self {
            Removal::Expired(now) => !n.is_expired(*now),
            Removal::Pane(pane_id) => match n.pane_id {
                Some(id) => id != *pane_id,
                None => true,
            },
            Removal::Tab(tab_index) => match n.tab_index {
                Some(index) => index != *tab_index,
                None => true,
            },
        }
    }
}

fn push_bounded(queue: &mut VecDeque<Notification>, n: Notification, max_size: usize)
    ensures
        final(queue)@ == admitted(old(queue)@, n, max_size as nat),
{
    if queue.len() >= max_size {
        queue.pop_front();
    }
    queue.push_back(n);
}

/// Removes from `queue` the entries that `rule` removes, and returns how
/// many they were. The others keep their order.
fn remove_from(queue: &mut VecDeque<Notification>, rule: &Removal) -> (removed: usize)
    ensures
        final(queue)@ == old(queue)@.filter(rule.keeps()),
        removed == old(queue)@.len() - final(queue)@.len(),
{
    let ghost all = queue@;
    let total = queue.len();
    let mut kept: VecDeque<Notification> = VecDeque::new();
    let mut seen: usize = 0;
    assert(all.take(0).filter(rule.keeps()) =~= Seq::<Notification>::empty()) by {
        reveal(Seq::filter);
    }
    while seen < total
        invariant
            seen <= total,
            total == all.len(),
            queue@ == all.skip(seen as int),
            kept@ == all.take(seen as int).filter(rule.keeps()),
        decreases total - seen,
    {
        let entry = queue.pop_front();
        let n = entry.unwrap();
        assert(n == all[seen as int]);
        assert(queue@ =~= all.skip(seen as int + 1));
        proof {
            reveal(Seq::filter);
            assert(all.take(seen as int + 1).drop_last() =~= all.take(seen as int));
        }
        if rule.keeps_entry(&n) {
            kept.push_back(n);
        }
        seen += 1;
    }
    assert(all.take(total as int) =~= all);
    proof {
        all.lemma_filter_len(rule.keeps());
    }
    let removed = total - kept.len();
    *queue = kept;
    removed
}

/// Filtering a level leaves a level of the same priority within the same
/// bound.
proof fn lemma_filter_keeps_level(
    level: Seq<Notification>,
    keep: spec_fn(Notification) -> bool,
    priority: Priority,
    bound: nat,
)
    requires
        level_wf(level, priority, bound),
    ensures
        level_wf(level.filter(keep), priority, bound),
{
    level.lemma_filter_len(keep);
    let kept = level.filter(keep);
    assert forall|i: int| 0 <= i < kept.len() implies (#[trigger] kept[i]).priority == priority by {
        level.lemma_filter_contains_rev(keep, kept[i]);
    }
}

} // verus!
