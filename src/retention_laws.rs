//! What holds of the retention buffer over any run of inserts whose capture
//! instants come from a monotonic clock.

use vstd::prelude::*;

use crate::wakeword_validation::{
    evict_outdated, in_capture_order, inserted, outdated, within_window, RetainedView,
    AUDIO_SAMPLE_RETENTION_PERIOD_NS,
};

verus! {

/// The retained entries after inserting each `(now, frame)` of `ops` in turn,
/// starting from `s`.
pub open spec fn insert_all(s: Seq<RetainedView>, ops: Seq<(u64, Seq<i16>)>) -> Seq<RetainedView>
    decreases ops.len(),
{
    if ops.len() == 0 {
        s
    } else {
        let before = insert_all(s, ops.drop_last());
        inserted(before, ops.last().0, ops.last().1)
    }
}

/// Capture instants that never go backwards.
pub open spec fn nondecreasing_instants(ops: Seq<(u64, Seq<i16>)>) -> bool {
    forall|i: int, j: int| 0 <= i <= j < ops.len() ==> ops[i].0 <= ops[j].0
}

/// Eviction keeps a suffix, whose first entry (if any) is not outdated.
proof fn lemma_evict_is_suffix(s: Seq<RetainedView>, now: u64) -> (j: int)
    ensures
        0 <= j <= s.len(),
        evict_outdated(s, now) == s.subrange(j, s.len() as int),
        j < s.len() ==> !outdated(now, s[j].1),
    decreases s.len(),
{
    if s.len() > 0 && outdated(now, s[0].1) {
        let k = lemma_evict_is_suffix(s.drop_first(), now);
        assert(s.drop_first().subrange(k, s.drop_first().len() as int) =~= s.subrange(
            k + 1,
            s.len() as int,
        ));
        k + 1
    } else {
        assert(s.subrange(0, s.len() as int) =~= s);
        0
    }
}

/// One insert at an instant no earlier than any retained one keeps capture
/// order and leaves every entry inside the window.
proof fn lemma_insert_step(s: Seq<RetainedView>, now: u64, frame: Seq<i16>)
    requires
        in_capture_order(s),
        forall|i: int| 0 <= i < s.len() ==> s[i].1 <= now,
    ensures
        in_capture_order(inserted(s, now, frame)),
        within_window(inserted(s, now, frame), now),
        forall|i: int|
            0 <= i < inserted(s, now, frame).len() ==> inserted(s, now, frame)[i].1 <= now,
{
    let j = lemma_evict_is_suffix(s, now);
    let kept = s.subrange(j, s.len() as int);
    let r = kept.push((frame, now));
    assert(inserted(s, now, frame) == r);
    assert forall|i: int| 0 <= i < r.len() implies now as int - r[i].1 as int
        <= AUDIO_SAMPLE_RETENTION_PERIOD_NS as int by {
        if i < kept.len() {
            assert(s[j].1 <= s[j + i].1);
        }
    }
}

/// Every entry of `insert_all(s, ops)` is no later than the last instant,
/// and the entries stay in capture order.
proof fn lemma_insert_all(s: Seq<RetainedView>, ops: Seq<(u64, Seq<i16>)>)
    requires
        ops.len() > 0,
        in_capture_order(s),
        forall|i: int| 0 <= i < s.len() ==> s[i].1 <= ops[0].0,
        nondecreasing_instants(ops),
    ensures
        in_capture_order(insert_all(s, ops)),
        within_window(insert_all(s, ops), ops.last().0),
        forall|i: int|
            0 <= i < insert_all(s, ops).len() ==> insert_all(s, ops)[i].1 <= ops.last().0,
    decreases ops.len(),
{
    let init = ops.drop_last();
    if init.len() == 0 {
        lemma_insert_step(s, ops.last().0, ops.last().1);
    } else {
        lemma_insert_all(s, init);
        lemma_insert_step(insert_all(s, init), ops.last().0, ops.last().1);
    }
}

/// After any run of inserts with non-decreasing capture instants, starting
/// from an empty buffer, every retained entry lies within the retention
/// window of the last insert's instant: `now - capture_instant` is at most
/// five seconds.
pub proof fn lemma_retention_window(ops: Seq<(u64, Seq<i16>)>)
    requires
        ops.len() > 0,
        nondecreasing_instants(ops),
    ensures
        within_window(insert_all(Seq::empty(), ops), ops.last().0),
{
    lemma_insert_all(Seq::empty(), ops);
}

/// After any run of inserts with non-decreasing capture instants, starting
/// from an empty buffer, the retained entries are in non-decreasing
/// capture-instant order.
pub proof fn lemma_retention_order(ops: Seq<(u64, Seq<i16>)>)
    requires
        nondecreasing_instants(ops),
    ensures
        in_capture_order(insert_all(Seq::empty(), ops)),
{
    if ops.len() > 0 {
        lemma_insert_all(Seq::empty(), ops);
    }
}

} // verus!
