//! What holds of the recording state machine over single frames and over
//! runs of frames.

use vstd::prelude::*;

use crate::listener::{
    begin_step, frame_step, keyword_at, valid_state, voice_step, wake_word_step, EventView,
    ListenerView, OutputView,
};
use crate::messages::{DetectionEndReason, DetectionView, Timestamp};

verus! {

/// One captured frame together with what the outside world reported for it.
pub struct FrameInput {
    pub frame: Seq<i16>,
    pub now: u64,
    pub timestamp: Timestamp,
    pub privacy: bool,
    pub keyword_index: i32,
    pub probability_bits: u32,
}

pub open spec fn step(v: ListenerView, i: FrameInput) -> Option<(ListenerView, OutputView)> {
    frame_step(v, i.frame, i.now, i.timestamp, i.privacy, i.keyword_index, i.probability_bits)
}

/// The state after each input of `ins` in turn, and what each frame
/// produced; `None` when some frame failed.
pub open spec fn run(v: ListenerView, ins: Seq<FrameInput>) -> Option<
    (ListenerView, Seq<OutputView>),
>
    decreases ins.len(),
{
    if ins.len() == 0 {
        Some((v, Seq::empty()))
    } else {
        match run(v, ins.drop_last()) {
            None => None,
            Some((u, outs)) => match step(u, ins.last()) {
                None => None,
                Some((u2, o)) => Some((u2, outs.push(o))),
            },
        }
    }
}

/// The samples of all frames of `ins`, in order.
pub open spec fn frames_of(ins: Seq<FrameInput>) -> Seq<i16>
    decreases ins.len(),
{
    if ins.len() == 0 {
        Seq::empty()
    } else {
        frames_of(ins.drop_last()) + ins.last().frame
    }
}

/// An end event for a dismiss keyword or for privacy mode.
pub open spec fn is_cancellation(e: EventView) -> bool {
    e matches EventView::RecordingEnd(end) && (end.reason == DetectionEndReason::Dismissed
        || end.reason == DetectionEndReason::PrivacyModeActivated)
}

pub open spec fn count_started(es: Seq<EventView>) -> nat
    decreases es.len(),
{
    if es.len() == 0 {
        0
    } else {
        count_started(es.drop_last()) + if es.last() is RecordingStarted {
            1nat
        } else {
            0nat
        }
    }
}

pub open spec fn count_detected(es: Seq<EventView>) -> nat
    decreases es.len(),
{
    if es.len() == 0 {
        0
    } else {
        count_detected(es.drop_last()) + if es.last() is WakeWordDetected {
            1nat
        } else {
            0nat
        }
    }
}

/// A frame never changes the keyword table, the dismiss keyword or the
/// sample rate.
pub proof fn lemma_step_keeps_configuration(
    v: ListenerView,
    i: FrameInput,
    v2: ListenerView,
    o: OutputView,
)
    requires
        step(v, i) == Some((v2, o)),
    ensures
        v2.keywords == v.keywords,
        v2.dismiss_keyword == v.dismiss_keyword,
        v2.sample_rate == v.sample_rate,
{
}

/// A frame keeps a session's audio present only while the session is open.
pub proof fn lemma_step_valid(v: ListenerView, i: FrameInput, v2: ListenerView, o: OutputView)
    requires
        valid_state(v),
        step(v, i) == Some((v2, o)),
    ensures
        valid_state(v2),
{
}

/// A cancellation, by privacy mode or by the dismiss keyword, leaves no
/// session, an empty audio buffer, and no completed sample for the frame.
pub proof fn lemma_cancellation_clears_buffer(
    v: ListenerView,
    i: FrameInput,
    v2: ListenerView,
    o: OutputView,
    j: int,
)
    requires
        step(v, i) == Some((v2, o)),
        0 <= j < o.events.len(),
        is_cancellation(o.events[j]),
    ensures
        v2.session is None,
        v2.audio.len() == 0,
        o.sample is None,
{
}

/// Whether a session is open after the first `k` frames of `ins`.
pub open spec fn open_after(v: ListenerView, ins: Seq<FrameInput>, k: int) -> bool {
    run(v, ins.take(k)) matches Some((u, _)) && u.session is Some
}

/// A frame that finds a session open and leaves it open keeps its wake word
/// and trigger instants, and reports no new session.
pub proof fn lemma_open_session_kept(
    v: ListenerView,
    i: FrameInput,
    v2: ListenerView,
    o: OutputView,
)
    requires
        step(v, i) == Some((v2, o)),
        v.session is Some,
        v2.session is Some,
    ensures
        v2.session == v.session,
        forall|k: int| 0 <= k < o.events.len() ==> !(o.events[k] is RecordingStarted),
{
}

/// Session exclusivity: over any run of frames that starts with a session
/// open and during which it stays open (whatever wake words are matched),
/// no second session opens and the triggering wake word and instants stay
/// as they were.
pub proof fn lemma_session_exclusive(v: ListenerView, ins: Seq<FrameInput>)
    requires
        v.session is Some,
        forall|k: int| 1 <= k <= ins.len() ==> #[trigger] open_after(v, ins, k),
    ensures
        (run(v, ins) matches Some((u, outs)) && u.session == v.session && forall|t: int, k: int|
            0 <= t < outs.len() && 0 <= k < outs[t].events.len() ==> !(
            #[trigger] outs[t].events[k] is RecordingStarted)),
    decreases ins.len(),
{
    if ins.len() == 0 {
        return;
    }
    let init = ins.drop_last();
    assert forall|k: int| 1 <= k <= init.len() implies #[trigger] open_after(v, init, k) by {
        assert(init.take(k) =~= ins.take(k));
        assert(open_after(v, ins, k));
    }
    lemma_session_exclusive(v, init);
    assert(ins.take(ins.len() as int) =~= ins);
    assert(open_after(v, ins, ins.len() as int));
    let (u, outs) = run(v, init)->Some_0;
    let (u2, o) = step(u, ins.last())->Some_0;
    lemma_open_session_kept(u, ins.last(), u2, o);
    let all = outs.push(o);
    assert forall|t: int, k: int| 0 <= t < all.len() && 0 <= k < all[t].events.len() implies !(
    #[trigger] all[t].events[k] is RecordingStarted) by {
        if t < outs.len() {
            assert(all[t] == outs[t]);
        }
    }
}

proof fn lemma_count_concat(a: Seq<EventView>, b: Seq<EventView>)
    ensures
        count_started(a + b) == count_started(a) + count_started(b),
        count_detected(a + b) == count_detected(a) + count_detected(b),
    decreases b.len(),
{
    if b.len() > 0 {
        lemma_count_concat(a, b.drop_last());
        assert((a + b).drop_last() =~= a + b.drop_last());
    } else {
        assert(a + b =~= a);
    }
}

/// Idempotent repeated match: the same (non-dismiss) wake word matched in
/// two frames in a row, the first finding no session open, yields exactly
/// one `RecordingStarted` and two `WakeWordDetected` events.
pub proof fn lemma_repeated_match(v: ListenerView, a: FrameInput, b: FrameInput)
    requires
        v.session is None,
        !a.privacy,
        !b.privacy,
        a.keyword_index == b.keyword_index,
        (keyword_at(v.keywords, a.keyword_index) matches Some(Some(w)) && v.dismiss_keyword
            != Some(w)),
    ensures
        (step(v, a) matches Some((v1, o1)) && (step(v1, b) matches Some((v2, o2))
            && count_started(o1.events + o2.events) == 1 && count_detected(o1.events + o2.events)
            == 2)),
{
    let (v1, o1) = step(v, a)->Some_0;
    let (v2, o2) = step(v1, b)->Some_0;
    lemma_count_concat(o1.events, o2.events);
    let e1 = o1.events;
    let e2 = o2.events;
    assert(e1.len() == 3);
    assert(e2.len() == 2);
    assert(e1.drop_last().drop_last().drop_last() =~= Seq::<EventView>::empty());
    assert(e2.drop_last().drop_last() =~= Seq::<EventView>::empty());
    assert(count_started(e1) == 1) by {
        reveal_with_fuel(count_started, 4);
    }
    assert(count_detected(e1) == 1) by {
        reveal_with_fuel(count_detected, 4);
    }
    assert(count_started(e2) == 0) by {
        reveal_with_fuel(count_started, 3);
    }
    assert(count_detected(e2) == 1) by {
        reveal_with_fuel(count_detected, 3);
    }
}

/// A frame that finds no session open produces no completed sample; if it
/// opens one, the session's audio is that frame.
pub proof fn lemma_inactive_frame(v: ListenerView, i: FrameInput, v2: ListenerView, o: OutputView)
    requires
        valid_state(v),
        v.session is None,
        step(v, i) == Some((v2, o)),
    ensures
        o.sample is None,
        v2.session is Some ==> v2.audio == i.frame,
{
    assert(Seq::<i16>::empty() + i.frame =~= i.frame);
}

/// A frame that finds a session open and does not cancel it appends its
/// samples to the session's audio, or, when it closes the session, hands
/// over that audio with its samples appended.
pub proof fn lemma_active_frame(v: ListenerView, i: FrameInput, v2: ListenerView, o: OutputView)
    requires
        v.session is Some,
        step(v, i) == Some((v2, o)),
        v2.session is Some || o.sample is Some,
    ensures
        v2.session is Some ==> v2.audio == v.audio + i.frame && o.sample is None,
        o.sample is Some ==> o.sample->0.data == v.audio + i.frame && v2.session is None,
{
}

/// While the session opened by the first frame of `ins` stays open, its
/// audio is every frame seen so far.
proof fn lemma_open_prefix(v: ListenerView, ins: Seq<FrameInput>, k: int)
    requires
        valid_state(v),
        v.session is None,
        1 <= k <= ins.len(),
        forall|m: int| 1 <= m <= k ==> #[trigger] open_after(v, ins, m),
    ensures
        run(v, ins.take(k))->Some_0.0.audio == frames_of(ins.take(k)),
    decreases k,
{
    let pre = ins.take(k);
    assert(open_after(v, ins, k));
    assert(pre.drop_last() =~= ins.take(k - 1));
    assert(pre.last() == ins[k - 1]);
    let (u, outs) = run(v, ins.take(k - 1))->Some_0;
    let (u2, o) = step(u, ins[k - 1])->Some_0;
    if k == 1 {
        assert(ins.take(0) =~= Seq::<FrameInput>::empty());
        assert(u == v);
        lemma_inactive_frame(v, ins[0], u2, o);
        assert(frames_of(ins.take(0)) =~= Seq::<i16>::empty());
        assert(frames_of(pre) =~= ins[0].frame);
    } else {
        lemma_open_prefix(v, ins, k - 1);
        assert(open_after(v, ins, k - 1));
        lemma_active_frame(u, ins[k - 1], u2, o);
    }
}

/// No audio loss within a session: when the first frame of `ins` opens a
/// session, the session stays open through every later frame but the last,
/// and the last frame hands over a completed sample, that sample holds the
/// samples of every frame of `ins`, in order.
pub proof fn lemma_no_audio_loss(v: ListenerView, ins: Seq<FrameInput>)
    requires
        valid_state(v),
        v.session is None,
        ins.len() >= 1,
        forall|m: int| 1 <= m < ins.len() ==> #[trigger] open_after(v, ins, m),
        (run(v, ins) matches Some((_, outs)) && outs.last().sample is Some),
    ensures
        run(v, ins)->Some_0.1.last().sample->0.data == frames_of(ins),
{
    let n = ins.len() as int;
    assert(ins.drop_last() =~= ins.take(n - 1));
    let (u, outs) = run(v, ins.take(n - 1))->Some_0;
    let (u2, o) = step(u, ins.last())->Some_0;
    assert(run(v, ins)->Some_0.1.last() == o);
    if n == 1 {
        assert(ins.take(0) =~= Seq::<FrameInput>::empty());
        lemma_inactive_frame(v, ins.last(), u2, o);
    } else {
        lemma_open_prefix(v, ins, n - 1);
        assert(open_after(v, ins, n - 1));
        lemma_active_frame(u, ins.last(), u2, o);
    }
}

/// The last-human-speech instant never goes backward: a frame captured no
/// earlier than it leaves it where it was or moves it to the frame's
/// instant.
pub proof fn lemma_last_speech_never_backward(
    v: ListenerView,
    i: FrameInput,
    v2: ListenerView,
    o: OutputView,
)
    requires
        step(v, i) == Some((v2, o)),
        i.now >= v.last_human_speech,
    ensures
        v2.last_human_speech == v.last_human_speech || v2.last_human_speech == i.now,
        v2.last_human_speech >= v.last_human_speech,
{
}

/// The dismiss keyword heard with no session open is reported as one
/// detection of that keyword at the frame's instant, and opens nothing.
pub proof fn lemma_dismiss_while_inactive(
    v: ListenerView,
    i: FrameInput,
    v2: ListenerView,
    o: OutputView,
)
    requires
        v.session is None,
        !i.privacy,
        (keyword_at(v.keywords, i.keyword_index) matches Some(Some(w)) && v.dismiss_keyword
            == Some(w)),
        step(v, i) == Some((v2, o)),
    ensures
        o.events == seq![
            EventView::WakeWordDetected(
                DetectionView { wake_word: v.dismiss_keyword->0, timestamp: i.timestamp },
            ),
        ],
        v2.session is None,
        o.sample is None,
{
    assert(o.events =~= seq![
        EventView::WakeWordDetected(
            DetectionView { wake_word: v.dismiss_keyword->0, timestamp: i.timestamp },
        ),
    ]);
}

} // verus!
