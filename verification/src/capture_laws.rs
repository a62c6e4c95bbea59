//! What holds of every capture session, whatever the device does.

use vstd::prelude::*;
use crate::capture::{
    reopenings, Action, CaptureState, Exit, ReadOutcome, SessionModel, Signal, COOLDOWN_MS,
    DEVICE_INDEX, FRAME_INTERVAL_MS, JPEG_QUALITY, MAX_FAILURES, WARMUP_READS,
};

verus! {

/// Whether every signal of a run reports a read that failed: one that gave
/// an empty frame, no frame, or an error.
pub open spec fn all_missed(signals: Seq<Signal>) -> bool {
    forall|i: int|
        0 <= i < signals.len() ==> (#[trigger] signals[i] matches Signal::Read(outcome)
            && outcome.missed())
}

/// Whether every signal of a run reports a warm-up read that returned.
pub open spec fn all_warmed_up(signals: Seq<Signal>) -> bool {
    forall|i: int|
        0 <= i < signals.len() ==> (#[trigger] signals[i] matches Signal::WarmedUp(outcome)
            && outcome != ReadOutcome::Error)
}

/// A session that is valid stays valid, whatever it is told.
pub proof fn lemma_valid_is_kept(session: SessionModel, signal: Signal)
    requires
        session.valid(),
    ensures
        session.next(signal).0.valid(),
{
}

/// The session before the loop starts is valid, and so is every session that
/// a run of signals leads to from a valid one: the count of failed reads
/// never passes the limit, and stays below it while frames are being read.
pub proof fn lemma_run_keeps_valid(session: SessionModel, signals: Seq<Signal>)
    requires
        session.valid(),
    ensures
        SessionModel::initial().valid(),
        session.run(signals).valid(),
        session.run(signals).failures <= MAX_FAILURES,
        session.run(signals).state == CaptureState::Capturing ==> session.run(signals).failures
            < MAX_FAILURES,
        session.answers(signals).len() == signals.len(),
    decreases signals.len(),
{
    if signals.len() > 0 {
        lemma_run_keeps_valid(session, signals.drop_last());
        lemma_valid_is_kept(session.run(signals.drop_last()), signals.last());
    }
}

/// A read that gives a frame with content puts the count of failed reads
/// back to zero, and the frame is then compressed at the fixed quality.
pub proof fn lemma_frame_resets_failures(session: SessionModel)
    requires
        session.state == CaptureState::Capturing,
        !session.encoding,
    ensures
        session.next(Signal::Read(ReadOutcome::Frame)) == (
            SessionModel { failures: 0, encoding: true, ..session },
            Action::Encode { quality: JPEG_QUALITY },
        ),
{
}

/// Once the frame has been handed over, or could not be compressed, the loop
/// waits and reads on; where nobody takes frames any more, it ends, and does
/// not report a failure for it.
pub proof fn lemma_frame_is_published(session: SessionModel, signal: Signal)
    requires
        session.state == CaptureState::Capturing,
        session.encoding,
        signal is Published || signal is Unencodable,
    ensures
        signal != Signal::Published(false) ==> session.next(signal) == (
            SessionModel { encoding: false, ..session },
            Action::Read { delay_ms: FRAME_INTERVAL_MS },
        ),
        signal == Signal::Published(false) ==> session.next(signal) == (
            session.ended(Exit::ConsumerGone),
            Action::Stop,
        ),
        !Exit::ConsumerGone.failed(),
{
}

/// While fewer reads in a row have failed than the limit allows, the loop
/// goes on reading and the device is left alone.
pub proof fn lemma_failures_below_limit_go_on(session: SessionModel, signals: Seq<Signal>)
    requires
        session.valid(),
        session.state == CaptureState::Capturing,
        !session.encoding,
        all_missed(signals),
        session.failures + signals.len() < MAX_FAILURES,
    ensures
        session.run(signals) == (SessionModel {
            failures: session.failures + signals.len(),
            ..session
        }),
        session.answers(signals).len() == signals.len(),
        forall|i: int|
            0 <= i < signals.len() ==> #[trigger] session.answers(signals)[i] == (Action::Read {
                delay_ms: FRAME_INTERVAL_MS,
            }),
        reopenings(session.answers(signals)) == 0,
    decreases signals.len(),
{
    if signals.len() > 0 {
        let earlier = signals.drop_last();
        assert(all_missed(earlier)) by {
            assert forall|i: int| 0 <= i < earlier.len() implies (#[trigger] earlier[i] matches Signal::Read(
                outcome,
            ) && outcome.missed()) by {
                assert(earlier[i] == signals[i]);
            }
        }
        lemma_failures_below_limit_go_on(session, earlier);
        assert(signals.last() == signals[signals.len() - 1]);
        assert(session.answers(signals).drop_last() =~= session.answers(earlier));
    }
}

/// When the reads that failed in a row reach the limit, the device is
/// reopened, once, and that with the last of them: the session is then
/// degraded, and the driver has been told to close the device, wait for the
/// cooldown and open it again. Three failed reads after a good one are the
/// case where `session.failures` is zero and `signals` holds three.
pub proof fn lemma_failures_at_limit_reopen_once(session: SessionModel, signals: Seq<Signal>)
    requires
        session.valid(),
        session.state == CaptureState::Capturing,
        !session.encoding,
        all_missed(signals),
        signals.len() >= 1,
        session.failures + signals.len() == MAX_FAILURES,
    ensures
        session.run(signals) == (SessionModel {
            state: CaptureState::Degraded,
            failures: MAX_FAILURES as nat,
            ..session
        }),
        session.answers(signals).len() == signals.len(),
        session.answers(signals).last() == (Action::Reopen {
            cooldown_ms: COOLDOWN_MS,
            device: DEVICE_INDEX,
        }),
        forall|i: int|
            0 <= i < signals.len() - 1 ==> #[trigger] session.answers(signals)[i] == (Action::Read {
                delay_ms: FRAME_INTERVAL_MS,
            }),
        reopenings(session.answers(signals)) == 1,
{
    let earlier = signals.drop_last();
    assert(all_missed(earlier)) by {
        assert forall|i: int| 0 <= i < earlier.len() implies (#[trigger] earlier[i] matches Signal::Read(
            outcome,
        ) && outcome.missed()) by {
            assert(earlier[i] == signals[i]);
        }
    }
    lemma_failures_below_limit_go_on(session, earlier);
    assert(signals.last() == signals[signals.len() - 1]);
    assert(session.answers(signals).drop_last() =~= session.answers(earlier));
}

/// A degraded session waits for the device and for nothing else: until the
/// driver says whether the device opened again, no read is taken in, good or
/// bad, and the driver is not told to reopen a second time.
pub proof fn lemma_degraded_awaits_device(session: SessionModel, signal: Signal)
    requires
        session.state == CaptureState::Degraded,
        !(signal is Opened),
    ensures
        session.next(signal) == (session, Action::Ignore),
{
}

/// Each warm-up read that returns leaves one fewer to come.
proof fn lemma_warm_up_counts_down(session: SessionModel, signals: Seq<Signal>)
    requires
        session.state == CaptureState::Opening,
        all_warmed_up(signals),
        signals.len() < session.warmups_left,
    ensures
        session.run(signals) == (SessionModel {
            warmups_left: (session.warmups_left - signals.len()) as nat,
            ..session
        }),
    decreases signals.len(),
{
    if signals.len() > 0 {
        let earlier = signals.drop_last();
        assert(all_warmed_up(earlier)) by {
            assert forall|i: int| 0 <= i < earlier.len() implies (
            #[trigger] earlier[i] matches Signal::WarmedUp(outcome) && outcome
                != ReadOutcome::Error) by {
                assert(earlier[i] == signals[i]);
            }
        }
        lemma_warm_up_counts_down(session, earlier);
        assert(signals.last() == signals[signals.len() - 1]);
    }
}

/// A device that opens again is warmed up and then read from, with the count
/// of failed reads back at zero: after the fixed number of warm-up reads the
/// session captures again.
pub proof fn lemma_reopened_device_is_read(session: SessionModel, warmups: Seq<Signal>)
    requires
        session.valid(),
        session.state == CaptureState::Degraded,
        all_warmed_up(warmups),
        warmups.len() == WARMUP_READS,
    ensures
        session.next(Signal::Opened(true)).0.run(warmups) == (SessionModel {
            state: CaptureState::Capturing,
            failures: 0,
            reopened: true,
            ..session
        }),
        session.next(Signal::Opened(true)).0.answers(warmups).last() == (Action::Read {
            delay_ms: FRAME_INTERVAL_MS,
        }),
{
    let warming = session.next(Signal::Opened(true)).0;
    let earlier = warmups.drop_last();
    assert(all_warmed_up(earlier)) by {
        assert forall|i: int| 0 <= i < earlier.len() implies (
        #[trigger] earlier[i] matches Signal::WarmedUp(outcome) && outcome != ReadOutcome::Error) by {
            assert(earlier[i] == warmups[i]);
        }
    }
    lemma_warm_up_counts_down(warming, earlier);
    assert(warmups.last() == warmups[warmups.len() - 1]);
}

/// A device that does not open again ends the loop, and the loop does not
/// report a failure for it.
pub proof fn lemma_failed_reopen_ends_loop(session: SessionModel)
    requires
        session.state == CaptureState::Degraded,
    ensures
        session.next(Signal::Opened(false)) == (session.ended(Exit::ReopenFailed), Action::Stop),
        !Exit::ReopenFailed.failed(),
{
}

/// A loop that has ended stays ended: whatever the driver says, it is told
/// to stop, and the reason for the end stays as it was.
pub proof fn lemma_terminated_stays(session: SessionModel, signals: Seq<Signal>)
    requires
        session.state == CaptureState::Terminated,
    ensures
        session.run(signals) == session,
        session.answers(signals).len() == signals.len(),
        forall|i: int| 0 <= i < signals.len() ==> #[trigger] session.answers(signals)[i] == Action::Stop,
    decreases signals.len(),
{
    if signals.len() > 0 {
        lemma_terminated_stays(session, signals.drop_last());
    }
}

} // verus!
