//! Moving a frame's results off the real-time thread: events and completed
//! samples go to bounded channels without waiting, indicator modes to the
//! LED thread's queue. A full channel drops the value; a closed one stops
//! the listener.

use vstd::prelude::*;

use tokio::sync::mpsc::Sender;

use crate::listener::{events_view, AudioDetectorData, EventView, FrameOutput, OutputView};
use crate::messages::{AudioSample, SampleView};
use crate::respeaker::ReSpeakerCommander;

verus! {

#[verifier::external_type_specification]
#[verifier::external_body]
#[verifier::reject_recursive_types(T)]
pub struct ExTokioSender<T>(Sender<T>);

/// What became of a value offered to a bounded channel.
#[derive(Clone, Copy, Debug, PartialEq, Eq, Structural)]
pub enum SendOutcome {
    Sent,
    /// The channel was at capacity; the value was dropped.
    Full,
    /// The receiver is gone; the value was dropped.
    Closed,
}

/// Relies on tokio's `mpsc::Sender::try_send`: it never waits, and fails
/// with `Full` when the channel is at capacity or `Closed` when the
/// receiver has been dropped.
#[verifier::external_body]
fn offer<T>(sender: &Sender<T>, value: T) -> (r: SendOutcome) {
    match sender.try_send(value) {
        Ok(()) => SendOutcome::Sent,
        Err(tokio::sync::mpsc::error::TrySendError::Full(_)) => SendOutcome::Full,
        Err(tokio::sync::mpsc::error::TrySendError::Closed(_)) => SendOutcome::Closed,
    }
}

/// Why the listener has to stop.
#[derive(Clone, Copy, Debug, PartialEq, Eq, Structural)]
pub enum HandoffError {
    /// The event consumer has shut down.
    EventChannelClosed,
    /// The sample consumer has shut down.
    SampleChannelClosed,
}

/// The hand-off rule: only a closed channel is an error, reported as
/// `closed`; a full one silently drops the value.
pub fn handoff_result(outcome: SendOutcome, closed: HandoffError) -> (r: Result<(), HandoffError>)
    ensures
        outcome == SendOutcome::Closed ==> r == Err::<(), HandoffError>(closed),
        outcome != SendOutcome::Closed ==> r == Ok::<(), HandoffError>(()),
{
    match outcome {
        SendOutcome::Closed => Err(closed),
        SendOutcome::Sent => Ok(()),
        SendOutcome::Full => Ok(()),
    }
}

/// A value offered to one of the two channels, as the contracts see it.
pub enum OfferView {
    Sample(SampleView),
    Event(EventView),
}

/// The values that delivering `out` offers, in order: the completed sample
/// (if any), then the events.
pub open spec fn offers(out: OutputView) -> Seq<OfferView> {
    (match out.sample {
        Some(s) => seq![OfferView::Sample(s)],
        None => Seq::empty(),
    }) + out.events.map_values(|e: EventView| OfferView::Event(e))
}

/// The error for a closed channel, by the value that found it closed.
pub open spec fn closed_error(x: OfferView) -> HandoffError {
    match x {
        OfferView::Sample(_) => HandoffError::SampleChannelClosed,
        OfferView::Event(_) => HandoffError::EventChannelClosed,
    }
}

/// Offering the values of `plan` in order yielded `outcomes`: every value
/// was offered unless one found its channel closed, which stops the
/// delivery with that channel's error; full channels do not stop it.
pub open spec fn delivery_follows(
    plan: Seq<OfferView>,
    outcomes: Seq<SendOutcome>,
    result: Result<(), HandoffError>,
) -> bool {
    &&& outcomes.len() <= plan.len()
    &&& forall|i: int| 0 <= i < outcomes.len() - 1 ==> outcomes[i] != SendOutcome::Closed
    &&& outcomes.len() < plan.len() ==> outcomes.len() > 0 && outcomes.last()
        == SendOutcome::Closed
    &&& result == if outcomes.len() > 0 && outcomes.last() == SendOutcome::Closed {
        Err::<(), HandoffError>(closed_error(plan[outcomes.len() - 1]))
    } else {
        Ok::<(), HandoffError>(())
    }
}

/// What a delivery did: the outcome of each value offered, in the order
/// offered, and whether the listener may go on.
#[derive(Debug)]
pub struct Delivery {
    pub outcomes: Vec<SendOutcome>,
    pub result: Result<(), HandoffError>,
}

/// Where a listener's results go.
#[derive(Debug)]
pub struct ListenerSinks {
    /// Sending raw audio recordings
    audio_sample_sender: Sender<AudioSample>,
    /// Sending wakeword events
    audio_detector_data: Sender<AudioDetectorData>,
    /// ReSpeaker LED ring commander
    respeaker_commander: ReSpeakerCommander,
}

impl ListenerSinks {
    /// Whether indicator modes reach an LED thread.
    pub closed spec fn indicator_connected(&self) -> bool {
        self.respeaker_commander.is_connected()
    }

    pub fn new(
        audio_sample_sender: Sender<AudioSample>,
        audio_detector_data: Sender<AudioDetectorData>,
        respeaker_commander: ReSpeakerCommander,
    ) -> (r: ListenerSinks)
        ensures
            r.indicator_connected() == respeaker_commander.is_connected(),
    {
        ListenerSinks { audio_sample_sender, audio_detector_data, respeaker_commander }
    }

    /// Offers one event; an error only if the event consumer is gone.
    pub fn send_event(&self, event: AudioDetectorData) -> (r: Result<(), HandoffError>)
        ensures
            r is Err ==> r == Err::<(), HandoffError>(HandoffError::EventChannelClosed),
    {
        handoff_result(offer(&self.audio_detector_data, event), HandoffError::EventChannelClosed)
    }

    /// Offers one completed sample; an error only if the sample consumer is
    /// gone.
    pub fn send_sample(&self, sample: AudioSample) -> (r: Result<(), HandoffError>)
        ensures
            r is Err ==> r == Err::<(), HandoffError>(HandoffError::SampleChannelClosed),
    {
        handoff_result(offer(&self.audio_sample_sender, sample), HandoffError::SampleChannelClosed)
    }

    /// Hands off what a frame produced: its completed sample first, then its
    /// events in order (see [`offers`]), each offered without waiting; then,
    /// if every channel was open, its indicator modes in order. A full
    /// channel drops the value and the next one is still offered; the first
    /// closed channel stops the delivery. `outcomes[i]` is what became of
    /// the `i`-th value offered.
    pub fn deliver(&self, output: FrameOutput) -> (r: Delivery)
        ensures
            delivery_follows(offers(output@), r.outcomes@, r.result),
            offers(output@).len() == 0 ==> r.result is Ok,
            output@.sample is None ==> r.result != Err::<(), HandoffError>(
                HandoffError::SampleChannelClosed,
            ),
            output@.events.len() == 0 ==> r.result != Err::<(), HandoffError>(
                HandoffError::EventChannelClosed,
            ),
    {
        let ghost plan = offers(output@);
        let ghost all_events = output@.events;
        let FrameOutput { events, sample, indicator } = output;
        let mut outcomes: Vec<SendOutcome> = Vec::new();
        let has_sample = sample.is_some();
        if let Some(sample) = sample {
            let outcome = offer(&self.audio_sample_sender, sample);
            outcomes.push(outcome);
            if let Err(e) = handoff_result(outcome, HandoffError::SampleChannelClosed) {
                return Delivery { outcomes, result: Err(e) };
            }
        }
        let ghost base: int = if has_sample { 1 } else { 0 };
        let n = events.len();
        let mut events = events;
        while events.len() > 0
            invariant
                plan == offers(output@),
                n == all_events.len(),
                events@.len() <= n,
                base == (if has_sample { 1int } else { 0int }),
                plan.len() == base + n,
                forall|k: int| 0 <= k < n ==> plan[base + k] == OfferView::Event(all_events[k]),
                events_view(events@) == all_events.subrange(n - events@.len(), n as int),
                outcomes@.len() == base + (n - events@.len()),
                forall|i: int| 0 <= i < outcomes@.len() ==> outcomes@[i] != SendOutcome::Closed,
            decreases events@.len(),
        {
            let ghost before = events@;
            let event = events.remove(0);
            assert(events_view(events@) =~= events_view(before).drop_first());
            let outcome = offer(&self.audio_detector_data, event);
            outcomes.push(outcome);
            let ghost k: int = n - events@.len() - 1;
            assert(plan[base + k] == OfferView::Event(all_events[k]));
            assert(outcomes@.len() - 1 == base + k);
            if let Err(e) = handoff_result(outcome, HandoffError::EventChannelClosed) {
                return Delivery { outcomes, result: Err(e) };
            }
        }
        let mut i: usize = 0;
        while i < indicator.len()
            invariant
                i <= indicator@.len(),
            decreases indicator@.len() - i,
        {
            self.respeaker_commander.show(indicator[i]);
            i = i + 1;
        }
        Delivery { outcomes, result: Ok(()) }
    }
}

} // verus!
