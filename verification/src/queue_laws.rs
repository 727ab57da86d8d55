//! Laws of the notification queue, proved of its model.

use crate::notification::{Notification, Priority};
use crate::queue::{admitted, level_wf, newest, of_priority, stamped, unexpired_at, QueueState};
use vstd::prelude::*;

verus! {

/// The queue after its front entry was dequeued `count` times.
pub open spec fn dequeue_times(q: QueueState, count: nat) -> QueueState
    decreases count,
{
    if count == 0 {
        q
    } else {
        dequeue_times(q, (count - 1) as nat).dequeue()
    }
}

/// The notifications of `ns`, as a queue with the given default time-to-live
/// and current time stores them.
pub open spec fn stamped_all(ns: Seq<Notification>, default_ttl: u64, now: u64) -> Seq<
    Notification,
> {
    ns.map_values(|n: Notification| stamped(n, default_ttl, now))
}

/// Enqueuing keeps the invariant and the settings of the queue.
pub proof fn lemma_enqueue_keeps_wf(q: QueueState, n: Notification)
    requires
        q.wf(),
    ensures
        q.enqueue(n).wf(),
        q.enqueue(n).capacity == q.capacity,
        q.enqueue(n).default_ttl == q.default_ttl,
        q.enqueue(n).now == q.now,
        q.enqueue(n).processed == q.processed,
        q.enqueue(n).expired == q.expired,
{
}

/// Enqueuing a sequence keeps the invariant and the settings of the queue.
pub proof fn lemma_enqueue_all_keeps_wf(q: QueueState, ns: Seq<Notification>)
    requires
        q.wf(),
    ensures
        q.enqueue_all(ns).wf(),
        q.enqueue_all(ns).capacity == q.capacity,
        q.enqueue_all(ns).default_ttl == q.default_ttl,
        q.enqueue_all(ns).now == q.now,
    decreases ns.len(),
{
    if ns.len() > 0 {
        lemma_enqueue_all_keeps_wf(q, ns.drop_last());
        lemma_enqueue_keeps_wf(q.enqueue_all(ns.drop_last()), ns.last());
    }
}

/// Entries are served by priority, highest first: in the order of service no
/// entry comes before one of a higher priority. Dequeuing serves the first
/// entry of that order and leaves the others as they are.
pub proof fn lemma_served_by_priority(q: QueueState)
    requires
        q.wf(),
    ensures
        forall|i: int, j: int|
            0 <= i < j < q.entries().len() ==> q.entries()[i].priority.level()
                >= q.entries()[j].priority.level(),
        q.entries().len() > 0 ==> q.front() == Some(q.entries()[0]) && q.dequeue().entries()
            == q.entries().drop_first(),
        q.entries().len() == 0 ==> q.front() is None && q.dequeue() == q,
        q.dequeue().wf(),
{
    let e = q.entries();
    assert forall|i: int| 0 <= i < e.len() implies (#[trigger] e[i]).priority.level() == (if i
        < q.critical.len() {
        3int
    } else if i < q.critical.len() + q.high.len() {
        2
    } else if i < q.critical.len() + q.high.len() + q.normal.len() {
        1
    } else {
        0
    }) by {
        if i < q.critical.len() {
            assert(e[i] == q.critical[i]);
        } else if i < q.critical.len() + q.high.len() {
            assert(e[i] == q.high[i - q.critical.len()]);
        } else if i < q.critical.len() + q.high.len() + q.normal.len() {
            assert(e[i] == q.normal[i - q.critical.len() - q.high.len()]);
        } else {
            assert(e[i] == q.low[i - q.critical.len() - q.high.len() - q.normal.len()]);
        }
    }
    if e.len() > 0 {
        assert(q.dequeue().entries() =~= e.drop_first());
    }
}

/// Dequeuing takes the oldest entry of the highest level that has any: where
/// the level of `priority` holds an entry and no higher level does, that
/// level's first entry is served and leaves, the entries behind it keep their
/// order, and every other level stays as it is. Whatever the counters of the
/// queue hold.
pub proof fn lemma_dequeue_takes_from_highest(q: QueueState, priority: Priority)
    requires
        q.level(priority).len() > 0,
        forall|higher: Priority|
            higher.level() > priority.level() ==> (#[trigger] q.level(higher)).len() == 0,
    ensures
        q.front() == Some(q.level(priority)[0]),
        q.dequeue().level(priority) == q.level(priority).drop_first(),
        forall|other: Priority| other != priority ==> q.dequeue().level(other) == q.level(other),
        q.dequeue().processed == q.processed + 1,
        q.dequeue().expired == q.expired,
{
    assert(priority.level() < 3 ==> q.level(Priority::Critical).len() == 0);
    assert(priority.level() < 2 ==> q.level(Priority::High).len() == 0);
    assert(priority.level() < 1 ==> q.level(Priority::Normal).len() == 0);
    assert(q.entries()[0] == q.level(priority)[0]);
}

/// Cleaning up once leaves the queue ready to be cleaned up again: the room
/// that its counter of expired notifications needs does not grow. So where
/// the first call is admitted, the second is too.
pub proof fn lemma_cleanup_keeps_room(q: QueueState)
    ensures
        q.cleanup().expired + q.cleanup().entries().len() == q.expired + q.entries().len(),
{
    let keep = unexpired_at(q.now as int);
    q.critical.lemma_filter_len(keep);
    q.high.lemma_filter_len(keep);
    q.normal.lemma_filter_len(keep);
    q.low.lemma_filter_len(keep);
}

/// Dequeuing `count` times serves the first `count` entries in the order of
/// service: what is left are the entries after them, and the next to be served
/// is the first of those.
pub proof fn lemma_dequeue_in_order(q: QueueState, count: nat)
    requires
        q.wf(),
        count <= q.entries().len(),
    ensures
        dequeue_times(q, count).wf(),
        dequeue_times(q, count).entries() == q.entries().skip(count as int),
        count < q.entries().len() ==> dequeue_times(q, count).front() == Some(
            q.entries()[count as int],
        ),
    decreases count,
{
    if count == 0 {
        assert(q.entries().skip(0) =~= q.entries());
    } else {
        let before = dequeue_times(q, (count - 1) as nat);
        lemma_dequeue_in_order(q, (count - 1) as nat);
        lemma_served_by_priority(before);
        assert(q.entries().skip(count - 1).drop_first() =~= q.entries().skip(count as int));
    }
}

/// Within a priority, entries are kept in the order in which they came, and
/// at capacity the oldest leave: after any sequence of enqueue calls a level
/// holds the newest of the notifications of its priority, those that it held
/// before followed by the new ones, as many as the level can keep.
pub proof fn lemma_level_keeps_newest(q: QueueState, ns: Seq<Notification>, priority: Priority)
    requires
        q.wf(),
    ensures
        q.enqueue_all(ns).level(priority) == newest(
            q.level(priority) + stamped_all(ns, q.default_ttl, q.now).filter(
                of_priority(priority),
            ),
            q.bound(),
        ),
    decreases ns.len(),
{
    let keep = of_priority(priority);
    let arrivals = stamped_all(ns, q.default_ttl, q.now).filter(keep);
    if ns.len() == 0 {
        assert(arrivals =~= Seq::<Notification>::empty()) by {
            reveal(Seq::filter);
        }
        assert(q.level(priority) + arrivals =~= q.level(priority));
    } else {
        let init = ns.drop_last();
        let before = q.enqueue_all(init);
        lemma_level_keeps_newest(q, init, priority);
        lemma_enqueue_all_keeps_wf(q, init);
        let entry = stamped(ns.last(), q.default_ttl, q.now);
        let earlier = stamped_all(init, q.default_ttl, q.now);
        assert(stamped_all(ns, q.default_ttl, q.now).drop_last() =~= earlier);
        assert(stamped_all(ns, q.default_ttl, q.now).last() == entry);
        reveal(Seq::filter);
        let held = q.level(priority) + earlier.filter(keep);
        if entry.priority == priority {
            assert(arrivals == earlier.filter(keep).push(entry));
            assert(q.level(priority) + arrivals =~= held.push(entry));
            lemma_newest_after_push(held, entry, q.capacity);
        } else {
            assert(arrivals == earlier.filter(keep));
        }
    }
}

/// The entries of one priority, in the order of service, are the entries of
/// the level of that priority.
pub proof fn lemma_level_in_service_order(q: QueueState, priority: Priority)
    requires
        q.wf(),
    ensures
        q.entries().filter(of_priority(priority)) == q.level(priority),
{
    let keep = of_priority(priority);
    lemma_filter_of_level(q.critical, Priority::Critical, priority, q.bound());
    lemma_filter_of_level(q.high, Priority::High, priority, q.bound());
    lemma_filter_of_level(q.normal, Priority::Normal, priority, q.bound());
    lemma_filter_of_level(q.low, Priority::Low, priority, q.bound());
    Seq::filter_distributes_over_add(q.critical, q.high, keep);
    Seq::filter_distributes_over_add(q.critical + q.high, q.normal, keep);
    Seq::filter_distributes_over_add(q.critical + q.high + q.normal, q.low, keep);
    assert(q.entries().filter(keep) =~= q.level(priority));
}

/// A level filtered by a priority is the level itself for its own priority
/// and empty for any other.
proof fn lemma_filter_of_level(
    level: Seq<Notification>,
    own: Priority,
    wanted: Priority,
    bound: nat,
)
    requires
        level_wf(level, own, bound),
    ensures
        level.filter(of_priority(wanted)) == (if own == wanted {
            level
        } else {
            Seq::empty()
        }),
    decreases level.len(),
{
    reveal(Seq::filter);
    if level.len() > 0 {
        let init = level.drop_last();
        assert(level_wf(init, own, bound)) by {
            assert forall|i: int| 0 <= i < init.len() implies (#[trigger] init[i]).priority
                == own by {
                assert(init[i] == level[i]);
            }
        }
        lemma_filter_of_level(init, own, wanted, bound);
        assert(level.last() == level[level.len() - 1]);
        if own == wanted {
            assert(init.push(level.last()) =~= level);
        }
    } else {
        assert(level =~= Seq::<Notification>::empty());
    }
}

/// Whatever is enqueued, notifications are served by priority, highest
/// first, and within a priority in the order in which they were enqueued:
/// in the order of service no entry comes before one of a higher priority,
/// and the entries of each priority are the newest of those that the queue
/// held and those that came, in that order, as many as a level keeps.
pub proof fn lemma_priority_then_arrival(q: QueueState, ns: Seq<Notification>, priority: Priority)
    requires
        q.wf(),
    ensures
        forall|i: int, j: int|
            0 <= i < j < q.enqueue_all(ns).entries().len() ==> q.enqueue_all(
                ns,
            ).entries()[i].priority.level() >= q.enqueue_all(ns).entries()[j].priority.level(),
        q.enqueue_all(ns).entries().filter(of_priority(priority)) == newest(
            q.level(priority) + stamped_all(ns, q.default_ttl, q.now).filter(
                of_priority(priority),
            ),
            q.bound(),
        ),
{
    lemma_enqueue_all_keeps_wf(q, ns);
    lemma_served_by_priority(q.enqueue_all(ns));
    lemma_level_in_service_order(q.enqueue_all(ns), priority);
    lemma_level_keeps_newest(q, ns, priority);
}

/// Admitting an entry to the newest entries of a sequence gives the newest of
/// the sequence with the entry at its end.
proof fn lemma_newest_after_push(s: Seq<Notification>, n: Notification, capacity: nat)
    ensures
        admitted(newest(s, if capacity == 0 { 1 } else { capacity }), n, capacity) == newest(
            s.push(n),
            if capacity == 0 { 1 } else { capacity },
        ),
{
    let bound: nat = if capacity == 0 { 1 } else { capacity };
    assert(admitted(newest(s, bound), n, capacity) =~= newest(s.push(n), bound));
}

/// A level is never longer than the capacity of the queue, if that is at
/// least one.
pub proof fn lemma_level_within_capacity(q: QueueState, ns: Seq<Notification>, priority: Priority)
    requires
        q.wf(),
        q.capacity >= 1,
    ensures
        q.enqueue_all(ns).level(priority).len() <= q.capacity,
{
    lemma_enqueue_all_keeps_wf(q, ns);
    let after = q.enqueue_all(ns);
    assert(level_wf(after.level(priority), priority, after.bound()));
}

/// A sequence whose entries all pass a test is its own filter by that test.
proof fn lemma_filter_of_passing(s: Seq<Notification>, keep: spec_fn(Notification) -> bool)
    requires
        forall|i: int| 0 <= i < s.len() ==> keep(#[trigger] s[i]),
    ensures
        s.filter(keep) == s,
    decreases s.len(),
{
    reveal(Seq::filter);
    if s.len() > 0 {
        lemma_filter_of_passing(s.drop_last(), keep);
        assert(s.drop_last().push(s.last()) =~= s);
    }
}

/// Filtering twice by one test is filtering once.
proof fn lemma_filter_twice(s: Seq<Notification>, keep: spec_fn(Notification) -> bool)
    ensures
        s.filter(keep).filter(keep) == s.filter(keep),
{
    let kept = s.filter(keep);
    assert forall|i: int| 0 <= i < kept.len() implies keep(#[trigger] kept[i]) by {
        s.lemma_filter_pred(keep, i);
    }
    lemma_filter_of_passing(kept, keep);
}

/// What a filter keeps: the entries of the sequence that pass the test.
proof fn lemma_filter_members(
    s: Seq<Notification>,
    keep: spec_fn(Notification) -> bool,
    n: Notification,
)
    ensures
        s.filter(keep).contains(n) <==> s.contains(n) && keep(n),
{
    let kept = s.filter(keep);
    if kept.contains(n) {
        s.lemma_filter_contains_rev(keep, n);
        let i = choose|i: int| 0 <= i < kept.len() && kept[i] == n;
        s.lemma_filter_pred(keep, i);
    }
    if s.contains(n) && keep(n) {
        let i = choose|i: int| 0 <= i < s.len() && s[i] == n;
        s.lemma_filter_contains(keep, i);
    }
}

/// Cleaning up removes exactly the entries that have expired at the queue's
/// current time: a notification is in a level afterwards if and only if it
/// was there before and has not expired, and those that stay keep their
/// order. Entries without a time-to-live never leave this way.
pub proof fn lemma_cleanup_removes_expired(q: QueueState, priority: Priority, n: Notification)
    ensures
        q.cleanup().level(priority) == q.level(priority).filter(unexpired_at(q.now as int)),
        q.cleanup().level(priority).contains(n) <==> q.level(priority).contains(n)
            && !n.expired_at(q.now as int),
        q.level(priority).contains(n) && n.ttl_ms == 0 ==> q.cleanup().level(priority).contains(n),
{
    lemma_filter_members(q.level(priority), unexpired_at(q.now as int), n);
}

/// Cleaning up a second time at the same current time removes nothing more
/// and counts nothing more.
pub proof fn lemma_cleanup_idempotent(q: QueueState)
    ensures
        q.cleanup().cleanup() == q.cleanup(),
{
    let keep = unexpired_at(q.now as int);
    lemma_filter_twice(q.critical, keep);
    lemma_filter_twice(q.high, keep);
    lemma_filter_twice(q.normal, keep);
    lemma_filter_twice(q.low, keep);
}

/// Removing is idempotent: removing the entries of a pane or a tab, or
/// clearing the queue, a second time changes nothing.
pub proof fn lemma_removal_idempotent(q: QueueState, keep: spec_fn(Notification) -> bool)
    ensures
        q.retain(keep).retain(keep) == q.retain(keep),
        q.cleared().cleared() == q.cleared(),
{
    lemma_filter_twice(q.critical, keep);
    lemma_filter_twice(q.high, keep);
    lemma_filter_twice(q.normal, keep);
    lemma_filter_twice(q.low, keep);
}

} // verus!
