//! What holds of every run, from its first action to its verdict.

use crate::bash::after_line;
use crate::bash::bash_length;
use crate::bash::here_lines;
use crate::decimal::decimal_text;
use crate::heredoc::CONTENT;
use crate::heredoc::LINE_LEN;
use crate::heredoc::RESULT;
use crate::pump::Pump;
use crate::pump::PumpEvent;
use crate::repro::plan_for;
use crate::repro::Action;
use crate::repro::Event;
use crate::repro::Plan;
use crate::repro::Stage;
use crate::repro::Verdict;
use crate::repro::EXIT_MILLIS;
use crate::repro::FEED_MILLIS;
use crate::repro::STARTUP_MILLIS;
use crate::repro::WAIT_TIMEOUT;
use crate::spawn::Child;
use vstd::prelude::*;
use vstd::utf8::encode_utf8;

verus! {

/// The bytes that bash's `echo` leaves in the result file for a count.
pub open spec fn echoed(n: nat) -> Seq<u8> {
    encode_utf8(decimal_text(n).push('\n'))
}

/// The count that bash reports is the number of bytes received, and the run is complete
/// exactly where it is no smaller than the number of bytes sent.
pub proof fn count_decides(distro: Option<Seq<char>>, n: usize)
    ensures
        ({
            let plan = plan_for(distro);
            let found = plan.found(echoed(n as nat));
            &&& found.bytes_received == n
            &&& found.complete() <==> n >= plan.bytes_sent
        }),
{
    crate::count::echoed_count_reads_back(n);
}

/// Where bash receives the whole script, nothing is found missing.
pub proof fn full_delivery_is_complete(distro: Option<Seq<char>>)
    ensures
        ({
            let plan = plan_for(distro);
            let received = bash_length(here_lines(after_line(plan.script)));
            let found = plan.found(echoed(received));
            &&& received == plan.bytes_sent
            &&& found.complete()
            &&& found.bytes_dropped == 0
            &&& found.lines_dropped == 0
            &&& found.lines_received == plan.lines_sent
        }),
{
    let plan = plan_for(distro);
    crate::bash::full_delivery_counts_all(CONTENT as nat, LINE_LEN as nat, RESULT@);
    count_decides(distro, plan.bytes_sent);
    assert(plan.lines_sent == 410);
}

/// Where the event loop has written everything, the bytes that the pipe took, in the order
/// in which it took them, are a script from which bash counts every byte sent.
pub proof fn whole_write_counts_all(distro: Option<Seq<char>>, len: usize, events: Seq<PumpEvent>)
    requires
        len == plan_for(distro).script.len(),
        Pump::fresh(len).honest(events),
        Pump::fresh(len).after_all(events).all_written(),
    ensures
        ({
            let plan = plan_for(distro);
            let taken = Pump::fresh(len).taken(plan.script, events);
            bash_length(here_lines(after_line(taken))) == plan.bytes_sent
        }),
{
    crate::pump::pipe_takes_a_prefix(plan_for(distro).script, len, events);
    full_delivery_is_complete(distro);
}

/// Where bash receives less, bytes and lines are found missing.
pub proof fn short_delivery_is_dropped(distro: Option<Seq<char>>, n: usize)
    requires
        n < plan_for(distro).bytes_sent,
    ensures
        ({
            let plan = plan_for(distro);
            let found = plan.found(echoed(n as nat));
            &&& !found.complete()
            &&& found.bytes_dropped == plan.bytes_sent - n
            &&& found.lines_dropped > 0
        }),
{
    let plan = plan_for(distro);
    count_decides(distro, n);
    crate::report::dropped_lines_follow_bytes(
        CONTENT as nat,
        plan.lines_sent,
        plan.bytes_sent,
        n,
    );
}

impl Plan {
    /// Where a number of events lead a run, one after the other.
    pub open spec fn after_all(self, events: Seq<Event>) -> Stage
        decreases events.len(),
    {
        if events.len() == 0 {
            Stage::Pipe
        } else {
            self.after(self.after_all(events.drop_last()), events.last())
        }
    }
}

/// A run that nothing disturbs: each action, in its order. The pseudoconsole reads and
/// writes the client end of the pipe, the script goes to the server end, and bash's
/// handles and the console are released before the result is read, or before the run stops
/// where bash did not leave in time.
pub proof fn order_of_a_run(
    plan: Plan,
    client: usize,
    server: usize,
    pty: isize,
    child: Child,
    written: Option<usize>,
    status: u32,
)
    ensures
        ({
            let s1 = plan.after(Stage::Pipe, Event::PipeReady { client, server });
            let s2 = plan.after(s1, Event::DllFound);
            let s3 = plan.after(s2, Event::PtyCreated { pty });
            let s4 = plan.after(s3, Event::Spawned { child });
            let s5 = plan.after(s4, Event::Settled);
            let s6 = plan.after(s5, Event::Fed { written });
            let s7 = plan.after(s6, Event::Awaited { status });
            let s8 = plan.after(s7, Event::Released);
            &&& Stage::Pipe.pending() == Action::CreatePipe
            &&& s1.pending() == Action::FindDll
            &&& s2.pending() matches Action::CreatePty { request } && request.input == client
                && request.output == client
            &&& s3.pending() == (Action::SpawnBash { pty })
            &&& s4.pending() == (Action::Settle { thread: child.thread, millis: STARTUP_MILLIS })
            &&& s5.pending() == (Action::Feed { server, millis: FEED_MILLIS })
            &&& s6.pending() == (Action::Await { process: child.process, millis: EXIT_MILLIS })
            &&& s7.pending() == (Action::Release { process: child.process, pty })
            &&& s8.pending() == (if status == WAIT_TIMEOUT {
                Action::Stop
            } else {
                Action::PrintResult
            })
        }),
{
}

/// A run that has stopped or failed stays as it is and prints nothing more.
pub proof fn end_is_final(plan: Plan, stage: Stage, event: Event)
    requires
        stage is Stopped || stage is Failed,
    ensures
        plan.after(stage, event) == stage,
        plan.said(stage, event) == Seq::<Seq<char>>::empty(),
{
}

/// The process and the console that a run still has to release.
pub open spec fn held(stage: Stage) -> Option<(usize, isize)> {
    match stage {
        Stage::Startup { child, pty, .. } => Some((child.process, pty)),
        Stage::Feed { process, pty, .. } => Some((process, pty)),
        Stage::Exit { process, pty } => Some((process, pty)),
        Stage::Release { process, pty, .. } => Some((process, pty)),
        _ => None,
    }
}

/// Once bash runs, its process and console stay the same until both are released, and
/// there is no other way out.
pub proof fn handles_leave_by_release(plan: Plan, stage: Stage, event: Event)
    requires
        held(stage) is Some,
    ensures
        held(plan.after(stage, event)) == held(stage) || {
            &&& held(plan.after(stage, event)) is None
            &&& event is Released
            &&& stage.pending() matches Action::Release { process, pty }
            &&& held(stage) == Some((process, pty))
        },
{
}

/// Whether event `k` says that bash and the console were released.
pub open spec fn released_at(plan: Plan, events: Seq<Event>, k: int) -> bool {
    0 <= k < events.len() && plan.after_all(events.take(k)) is Release && events[k] is Released
}

proof fn lemma_released(plan: Plan, events: Seq<Event>)
    ensures
        ({
            let stage = plan.after_all(events);
            stage is Print || stage is Share || stage is Stopped ==> exists|k: int|
                released_at(plan, events, k)
        }),
    decreases events.len(),
{
    if events.len() > 0 {
        let earlier = events.drop_last();
        let n = earlier.len() as int;
        lemma_released(plan, earlier);
        assert(events.take(n) =~= earlier);
        if exists|k: int| released_at(plan, earlier, k) {
            let k = choose|k: int| released_at(plan, earlier, k);
            assert(events.take(k) =~= earlier.take(k));
            assert(released_at(plan, events, k));
        }
        if plan.after_all(earlier) is Release && events.last() is Released {
            assert(released_at(plan, events, n));
        }
    }
}

/// A run that comes to a verdict has released bash and the console.
pub proof fn verdict_comes_after_release(plan: Plan, events: Seq<Event>)
    requires
        plan.after_all(events) is Stopped,
    ensures
        exists|k: int| released_at(plan, events, k),
{
    lemma_released(plan, events);
}

/// Whether event `k` is the result file that the run asked for, with this assessment.
pub open spec fn printed_at(
    plan: Plan,
    events: Seq<Event>,
    k: int,
    found: crate::report::Assessment,
) -> bool {
    &&& 0 <= k < events.len()
    &&& plan.after_all(events.take(k)) is Print
    &&& events[k] matches Event::Printed { stdout } && found == plan.found(stdout@)
}

/// Whether event `k` is the end of the wait for bash, and says that bash did not leave in
/// time.
pub open spec fn timed_out_at(plan: Plan, events: Seq<Event>, k: int) -> bool {
    &&& 0 <= k < events.len()
    &&& plan.after_all(events.take(k)) is Exit
    &&& events[k] == (Event::Awaited { status: WAIT_TIMEOUT })
}

/// What the stage of a run says of the events that led to it.
pub open spec fn reason(plan: Plan, events: Seq<Event>) -> bool {
    match plan.after_all(events) {
        Stage::Release { timed_out: true, .. } => exists|k: int| timed_out_at(plan, events, k),
        Stage::Share { found } => !found.complete() && exists|k: int|
            printed_at(plan, events, k, found),
        Stage::Stopped { verdict: Verdict::TimedOut } => exists|k: int| timed_out_at(plan, events, k),
        Stage::Stopped { verdict: Verdict::Complete { found } } => found.complete() && exists|k: int|
            printed_at(plan, events, k, found),
        Stage::Stopped { verdict: Verdict::Dropped { found } } => !found.complete() && exists|k: int|
            printed_at(plan, events, k, found),
        _ => true,
    }
}

/// Every verdict has its reason: the wait for bash timed out, or the result file that was
/// asked for holds a count that is large enough, or too small.
pub proof fn verdict_has_its_reason(plan: Plan, events: Seq<Event>)
    ensures
        reason(plan, events),
    decreases events.len(),
{
    if events.len() > 0 {
        let earlier = events.drop_last();
        let n = earlier.len() as int;
        verdict_has_its_reason(plan, earlier);
        assert(events.take(n) =~= earlier);
        assert forall|k: int| #[trigger] timed_out_at(plan, earlier, k) implies timed_out_at(
            plan,
            events,
            k,
        ) by {
            assert(events.take(k) =~= earlier.take(k));
        }
        assert forall|k: int, found: crate::report::Assessment| #[trigger]
            printed_at(plan, earlier, k, found) implies printed_at(plan, events, k, found) by {
            assert(events.take(k) =~= earlier.take(k));
        }
        let before = plan.after_all(earlier);
        if let Event::Awaited { status } = events.last() {
            assert(before is Exit && status == WAIT_TIMEOUT ==> timed_out_at(plan, events, n));
        }
        if let Event::Printed { stdout } = events.last() {
            assert(before is Print ==> printed_at(plan, events, n, plan.found(stdout@)));
        }
        match plan.after_all(events) {
            Stage::Release { timed_out, .. } => {
                assert(timed_out ==> exists|k: int| timed_out_at(plan, events, k));
            },
            Stage::Share { found } => {
                assert(!found.complete());
                assert(exists|k: int| printed_at(plan, events, k, found));
            },
            Stage::Stopped { verdict: Verdict::TimedOut } => {
                assert(exists|k: int| timed_out_at(plan, events, k));
            },
            Stage::Stopped { verdict: Verdict::Complete { found } } => {
                assert(exists|k: int| printed_at(plan, events, k, found));
            },
            Stage::Stopped { verdict: Verdict::Dropped { found } } => {
                assert(exists|k: int| printed_at(plan, events, k, found));
            },
            _ => {},
        }
    }
}

/// The result file is read only after bash left in time.
pub proof fn result_is_read_after_exit(plan: Plan, stage: Stage, event: Event)
    requires
        plan.after(stage, event) is Print,
    ensures
        stage is Print || (stage matches Stage::Release { timed_out, .. } && !timed_out),
{
}

} // verus!
