//! What holds of every step of the event loop, wherever the loop stands and however much is
//! written.

use crate::pump::Interest;
use crate::pump::Phase;
use crate::pump::Pump;
use crate::pump::PumpAction;
use crate::pump::PumpEvent;
use crate::pump::Readiness;
use vstd::prelude::*;

verus! {

/// A loop starts with nothing written, takes the pipe to be ready for everything, and first of
/// all has it watched for everything.
pub proof fn loop_starts_ready(len: usize)
    ensures
        ({
            let pump = Pump::fresh(len);
            &&& pump.len == len
            &&& pump.written == 0
            &&& pump.can_read
            &&& pump.can_write
            &&& pump.pending() == (PumpAction::Register {
                token: 0,
                interest: Interest::Both,
                capacity: 64,
            })
            &&& pump.after(PumpEvent::Registered).pending() == PumpAction::AskTime
            &&& pump.after(PumpEvent::RegisterFailed).pending() == PumpAction::Abandon
        }),
{
}

/// A notice under the pipe's token makes the pipe ready for what it names, whatever was known
/// and written before. A notice under another token changes nothing, and no notice makes the
/// pipe less ready than it was.
pub proof fn notice_makes_the_pipe_ready(pump: Pump, notices: Vec<Readiness>)
    requires
        pump.phase is Polling,
    ensures
        ({
            let next = pump.after(PumpEvent::Ready { notices });
            &&& next.can_write <==> pump.can_write || exists|i: int|
                0 <= i < notices@.len() && (#[trigger] notices@[i]).token == 0
                    && notices@[i].writable
            &&& next.can_read <==> pump.can_read || exists|i: int|
                0 <= i < notices@.len() && (#[trigger] notices@[i]).token == 0
                    && notices@[i].readable
            &&& next.written == pump.written
            &&& next.len == pump.len
        }),
{
}

/// After the wait, the pipe is read where it is readable. Otherwise it is written, from where
/// the last write ended, where it is writable and something is left to write. Otherwise the
/// next round begins, or the loop ends where nothing is left.
pub proof fn wait_is_followed_by_what_is_due(pump: Pump, notices: Vec<Readiness>)
    requires
        pump.phase is Polling,
    ensures
        ({
            let next = pump.after(PumpEvent::Ready { notices });
            next.pending() == if next.can_read {
                PumpAction::Read { at_most: 4_096 }
            } else if pump.written >= pump.len {
                PumpAction::Finish { written: pump.written }
            } else if next.can_write {
                PumpAction::Write { from: pump.written }
            } else {
                PumpAction::AskTime
            }
        }),
{
}

/// A pipe that a notice says is writable is written in the same round, from where the last
/// write ended, where something is left to write: at once, or once the pipe is drained.
pub proof fn writable_pipe_is_written(pump: Pump, notices: Vec<Readiness>, k: int)
    requires
        pump.phase is Polling,
        pump.written < pump.len,
        0 <= k < notices@.len(),
        notices@[k].token == 0,
        notices@[k].writable,
    ensures
        ({
            let next = pump.after(PumpEvent::Ready { notices });
            let write = PumpAction::Write { from: pump.written };
            if next.pending() is Read {
                &&& next.after(PumpEvent::ReadBytes { n: 0 }).pending() == write
                &&& next.after(PumpEvent::ReadFailed).pending() == write
            } else {
                next.pending() == write
            }
        }),
{
    notice_makes_the_pipe_ready(pump, notices);
    let w = notices@[k];
    assert(w.token == 0 && w.writable);
}

/// A pipe that was not refused a write is written in every round, from where the last write
/// ended, where something is left to write and any time is left.
pub proof fn every_round_writes(pump: Pump, nanos: u128, notices: Vec<Readiness>)
    requires
        pump.phase == Phase::Clock,
        pump.can_write,
        pump.written < pump.len,
        nanos > 0,
    ensures
        ({
            let next = pump.after(PumpEvent::TimeLeft { nanos }).after(PumpEvent::Ready { notices });
            let write = PumpAction::Write { from: pump.written };
            if next.pending() is Read {
                &&& next.after(PumpEvent::ReadBytes { n: 0 }).pending() == write
                &&& next.after(PumpEvent::ReadFailed).pending() == write
            } else {
                next.pending() == write
            }
        }),
{
}

/// Bytes that were read change nothing, and the pipe is read again. A drain ends with the end
/// of the stream and with an error alike: the pipe is then no longer taken to be readable, and
/// nothing else changes but that what is due comes next.
pub proof fn pipe_is_read_until_it_is_drained(pump: Pump, n: usize, event: PumpEvent)
    requires
        pump.phase == Phase::Reading,
        n > 0,
        event == (PumpEvent::ReadBytes { n: 0 }) || event == PumpEvent::ReadFailed,
    ensures
        pump.pending() == (PumpAction::Read { at_most: 4_096 }),
        pump.after(PumpEvent::ReadBytes { n }) == pump,
        ({
            let next = pump.after(event);
            &&& !next.can_read
            &&& next.can_write == pump.can_write
            &&& next.written == pump.written
            &&& next.len == pump.len
            &&& next.pending() == if pump.written >= pump.len {
                PumpAction::Finish { written: pump.written }
            } else if pump.can_write {
                PumpAction::Write { from: pump.written }
            } else {
                PumpAction::AskTime
            }
        }),
{
}

/// A wait for readiness lasts for all the time that is left, or for 50 ms where more is left.
/// Without time left there is none, and the loop returns what is written. Neither changes
/// what the loop knows.
pub proof fn wait_lasts_for_the_time_left(pump: Pump, nanos: u128)
    requires
        pump.phase == Phase::Clock,
    ensures
        ({
            let next = pump.after(PumpEvent::TimeLeft { nanos });
            &&& pump.pending() == PumpAction::AskTime
            &&& next == (Pump { phase: next.phase, ..pump })
            &&& nanos == 0 <==> next.pending() == (PumpAction::Finish { written: pump.written })
            &&& nanos > 0 ==> (next.pending() matches PumpAction::Poll { nanos: wait } && {
                &&& nanos <= 50_000_000 ==> wait == nanos
                &&& nanos > 50_000_000 ==> wait == 50_000_000
            })
        }),
{
}

/// A write counts for exactly the bytes that the pipe took, and the pipe stays writable. The
/// loop ends where that completes the data, and otherwise goes on to its next round.
pub proof fn write_counts_what_was_taken(pump: Pump, n: usize)
    requires
        pump.phase == Phase::Writing,
        pump.written + n <= usize::MAX,
    ensures
        ({
            let next = pump.after(PumpEvent::Wrote { n });
            &&& pump.pending() == (PumpAction::Write { from: pump.written })
            &&& next.written == pump.written + n
            &&& next.len == pump.len
            &&& next.can_read == pump.can_read
            &&& next.can_write == pump.can_write
            &&& next.pending() == if pump.written + n >= pump.len {
                PumpAction::Finish { written: next.written }
            } else {
                PumpAction::AskTime
            }
        }),
{
}

/// A write that would block counts for nothing and leaves the pipe not writable, and no write
/// follows in its round. One that fails counts for nothing and ends the loop with what was
/// written before.
pub proof fn refused_write_counts_for_nothing(pump: Pump)
    requires
        pump.phase == Phase::Writing,
    ensures
        ({
            let next = pump.after(PumpEvent::WouldBlock);
            &&& next == (Pump { can_write: false, phase: next.phase, ..pump })
            &&& next.pending() == if pump.written >= pump.len {
                PumpAction::Finish { written: pump.written }
            } else {
                PumpAction::AskTime
            }
        }),
        ({
            let next = pump.after(PumpEvent::WriteFailed);
            &&& next == (Pump { phase: next.phase, ..pump })
            &&& next.pending() == (PumpAction::FinishAfterError { written: pump.written })
        }),
{
}

/// A wait that fails ends the loop at once, and nothing else changes.
pub proof fn failed_wait_ends_the_loop(pump: Pump)
    requires
        pump.phase is Polling,
    ensures
        ({
            let next = pump.after(PumpEvent::PollFailed);
            &&& next == (Pump { phase: next.phase, ..pump })
            &&& next.pending() == PumpAction::Abandon
        }),
{
}

/// What there is to write never changes. Only a write changes how much is written, only
/// notices make the pipe ready, only a drain makes it not readable, and only a write that would
/// block makes it not writable.
pub proof fn each_event_changes_its_own(pump: Pump, event: PumpEvent)
    ensures
        ({
            let next = pump.after(event);
            &&& next.len == pump.len
            &&& next.written != pump.written ==> pump.pending() is Write && event is Wrote
            &&& next.can_read && !pump.can_read ==> pump.pending() is Poll && event is Ready
            &&& next.can_write && !pump.can_write ==> pump.pending() is Poll && event is Ready
            &&& !next.can_read && pump.can_read ==> pump.pending() is Read && (event is ReadBytes
                || event is ReadFailed)
            &&& !next.can_write && pump.can_write ==> pump.pending() is Write && event is WouldBlock
        }),
{
}

/// An event that is no answer to the pending action changes nothing, and neither does any once
/// the loop has ended.
pub proof fn stray_events_are_ignored(pump: Pump, event: PumpEvent)
    requires
        match pump.pending() {
            PumpAction::Register { .. } => !(event is Registered || event is RegisterFailed),
            PumpAction::AskTime => !(event is TimeLeft),
            PumpAction::Poll { .. } => !(event is Ready || event is PollFailed),
            PumpAction::Read { .. } => !(event is ReadBytes || event is ReadFailed),
            PumpAction::Write { .. } => !(event is Wrote || event is WouldBlock
                || event is WriteFailed),
            _ => true,
        },
    ensures
        pump.after(event) == pump,
{
}

/// What is to be done is told by where the loop stands, and the numbers in it are those of the
/// loop, whatever they are.
pub proof fn action_follows_the_phase(pump: Pump)
    ensures
        pump.phase == Phase::Registering <==> pump.pending() is Register,
        pump.phase == Phase::Clock <==> pump.pending() == PumpAction::AskTime,
        pump.phase matches Phase::Polling { nanos } ==> pump.pending() == (PumpAction::Poll {
            nanos,
        }),
        pump.phase == Phase::Reading <==> pump.pending() == (PumpAction::Read { at_most: 4_096 }),
        pump.phase == Phase::Writing <==> pump.pending() == (PumpAction::Write {
            from: pump.written,
        }),
        pump.phase == Phase::Done <==> pump.pending() == (PumpAction::Finish {
            written: pump.written,
        }),
        pump.phase == Phase::Broken <==> pump.pending() == (PumpAction::FinishAfterError {
            written: pump.written,
        }),
        pump.phase == Phase::Abandoned <==> pump.pending() == PumpAction::Abandon,
        pump.pending() matches PumpAction::Register { token, interest, capacity } ==> token == 0
            && interest == Interest::Both && capacity == 64,
{
}

} // verus!
