//! What holds of every step of a run, whatever its plan: what it leads to, what is printed, and
//! that both agree.

use crate::count::reported_count;
use crate::report::assessment;
use crate::report::Assessment;
use crate::report_laws::shows;
use crate::repro::plan_for;
use crate::repro::Action;
use crate::repro::Event;
use crate::repro::Failure;
use crate::repro::Plan;
use crate::repro::Stage;
use crate::repro::Verdict;
use crate::run_laws::echoed;
use crate::script_laws::stored;
use crate::spawn::bash_command;
use crate::spawn::Child;
use crate::status::WinError;
use vstd::prelude::*;

verus! {

/// Every run sends the same lines and the same script, whichever distribution it is against,
/// and keeps the distribution that it was given. It sends 81920 letters and 410 newlines.
pub proof fn plan_is_the_same_everywhere(distro: Option<Seq<char>>, other: Option<Seq<char>>)
    ensures
        plan_for(distro).distro == distro,
        plan_for(distro).script == plan_for(other).script,
        plan_for(distro).lines_sent == 410,
        plan_for(distro).bytes_sent == 82_330,
{
}

/// A bash that receives the whole script of a run leaves in the result file the number of bytes
/// that the run counts as sent.
pub proof fn whole_script_leaves_what_was_sent(distro: Option<Seq<char>>)
    ensures
        stored(plan_for(distro).script, "/tmp/wsl_repro.txt"@) == Some(echoed(82_330)),
{
    let lines = crate::heredoc::content_lines(81_920, 200);
    crate::script_laws::lines_hold_the_content(81_920, 200);
    assert(lines.len() == 410);
    assert forall|i: int| 0 <= i < lines.len() implies crate::bash::plain_line(
        #[trigger] lines[i],
    ) by {
        let line = lines[i];
        assert forall|j: int| 0 <= j < line.len() implies line[j] != 0x0a by {
            assert(lines[i][j] == 'A' as u8);
        }
        assert(line[0] == lines[i][0]);
    }
    reveal_strlit("/tmp/wsl_repro.txt");
    crate::script_laws::bash_leaves_its_count(lines, "/tmp/wsl_repro.txt"@);
    crate::bash::full_delivery_counts_all(81_920, 200, "/tmp/wsl_repro.txt"@);
    crate::script_laws::bash_stores_before_it_leaves(lines, "/tmp/wsl_repro.txt"@);
}

/// The console has 220 columns and 50 rows, bash gets 3 s to start up and 30 s to leave, and
/// the script 30 s to be sent, whatever the handles are.
pub proof fn requests_have_fixed_sizes(stage: Stage)
    ensures
        stage.pending() matches Action::CreatePty { request } ==> request.columns == 220
            && request.rows == 50 && request.flags == 0 && request.input == request.output,
        stage.pending() matches Action::Settle { thread, millis } ==> millis == 3_000,
        stage.pending() matches Action::Feed { server, millis } ==> millis == 30_000,
        stage.pending() matches Action::Await { process, millis } ==> millis == 30_000,
{
}

/// The share that is asked for is that of the bytes dropped in the bytes sent, whatever was
/// found.
pub proof fn share_is_of_what_was_sent(found: Assessment)
    ensures
        (Stage::Share { found }).pending() matches Action::Round { part, whole } && part
            == found.bytes_dropped && whole == found.bytes_sent,
{
}

/// Each call that fails ends the run with its own error, and with no other.
pub proof fn failure_is_handed_on(
    plan: Plan,
    client: usize,
    server: usize,
    pty: isize,
    error: WinError,
)
    ensures
        plan.after(Stage::Pipe, Event::PipeFailed { error }).pending() == (Action::Fail {
            failure: Failure::Pipe { error },
        }),
        plan.after(Stage::Dll { client, server }, Event::DllMissing).pending() == (Action::Fail {
            failure: Failure::DllMissing,
        }),
        plan.after(Stage::Pty { client, server }, Event::PtyFailed { error }).pending() == (
        Action::Fail { failure: Failure::Pty { error } }),
        plan.after(Stage::Bash { server, pty }, Event::SpawnFailed { error }).pending() == (
        Action::Fail { failure: Failure::Spawn { error } }),
        plan.after(Stage::Print, Event::PrintFailed).pending() == (Action::Fail {
            failure: Failure::Print,
        }),
{
}

/// A run fails only by one of these events, each as the answer to its own action.
pub proof fn run_fails_for_a_reason(plan: Plan, stage: Stage, event: Event)
    requires
        !(stage is Failed),
        plan.after(stage, event) is Failed,
    ensures
        match event {
            Event::PipeFailed { .. } => stage.pending() is CreatePipe,
            Event::DllMissing => stage.pending() is FindDll,
            Event::PtyFailed { .. } => stage.pending() is CreatePty,
            Event::SpawnFailed { .. } => stage.pending() is SpawnBash,
            Event::PrintFailed => stage.pending() is PrintResult,
            _ => false,
        },
        plan.said(stage, event).len() == 0,
{
}

/// An event that is no answer to the pending action changes nothing and prints nothing.
pub proof fn stray_events_are_ignored(plan: Plan, stage: Stage, event: Event)
    requires
        match stage.pending() {
            Action::CreatePipe => !(event is PipeReady || event is PipeFailed),
            Action::FindDll => !(event is DllFound || event is DllMissing),
            Action::CreatePty { .. } => !(event is PtyCreated || event is PtyFailed),
            Action::SpawnBash { .. } => !(event is Spawned || event is SpawnFailed),
            Action::Settle { .. } => !(event is Settled),
            Action::Feed { .. } => !(event is Fed),
            Action::Await { .. } => !(event is Awaited),
            Action::Release { .. } => !(event is Released),
            Action::PrintResult => !(event is Printed || event is PrintFailed),
            Action::Round { .. } => !(event is Rounded),
            Action::Stop => true,
            Action::Fail { .. } => true,
        },
    ensures
        plan.after(stage, event) == stage,
        plan.said(stage, event).len() == 0,
{
}

/// An event that is an answer to the pending action leads on: a run never asks for the same
/// thing twice.
pub proof fn answers_lead_on(plan: Plan, stage: Stage, event: Event)
    requires
        match stage.pending() {
            Action::CreatePipe => event is PipeReady || event is PipeFailed,
            Action::FindDll => event is DllFound || event is DllMissing,
            Action::CreatePty { .. } => event is PtyCreated || event is PtyFailed,
            Action::SpawnBash { .. } => event is Spawned || event is SpawnFailed,
            Action::Settle { .. } => event is Settled,
            Action::Feed { .. } => event is Fed,
            Action::Await { .. } => event is Awaited,
            Action::Release { .. } => event is Released,
            Action::PrintResult => event is Printed || event is PrintFailed,
            Action::Round { .. } => event is Rounded,
            Action::Stop => false,
            Action::Fail { .. } => false,
        },
    ensures
        ({
            let next = plan.after(stage, event).pending();
            match stage.pending() {
                Action::CreatePipe => next is FindDll || next is Fail,
                Action::FindDll => next is CreatePty || next is Fail,
                Action::CreatePty { .. } => next is SpawnBash || next is Fail,
                Action::SpawnBash { .. } => next is Settle || next is Fail,
                Action::Settle { .. } => next is Feed,
                Action::Feed { .. } => next is Await,
                Action::Await { .. } => next is Release,
                Action::Release { .. } => next is PrintResult || next is Stop,
                Action::PrintResult => next is Round || next is Stop || next is Fail,
                Action::Round { .. } => next is Stop,
                _ => false,
            }
        }),
{
}

/// The run times out exactly where the wait for bash returns 0x102, and any other status lets
/// the result be read.
pub proof fn one_status_is_a_timeout(plan: Plan, pty: isize, process: usize, status: u32)
    ensures
        ({
            let awaited = plan.after(Stage::Exit { pty, process }, Event::Awaited { status });
            let released = plan.after(awaited, Event::Released);
            let said = plan.said(awaited, Event::Released);
            &&& plan.said(Stage::Exit { pty, process }, Event::Awaited { status }).len() == 0
            &&& awaited.pending() == (Action::Release { process, pty })
            &&& status == 0x102 ==> released == (Stage::Stopped { verdict: Verdict::TimedOut })
            &&& status == 0x102 ==> said.len() == 3 && said[1]
                == "  [BUG] bash timed out \u{2014} EOM was dropped."@
            &&& status != 0x102 ==> released.pending() == Action::PrintResult
            &&& status != 0x102 ==> said.len() == 0
        }),
{
}

/// What is printed on the way names the distribution's command line, the process, the length of
/// the script and how much of it was written: none of it where the event loop failed.
pub proof fn progress_is_printed(
    plan: Plan,
    server: usize,
    pty: isize,
    child: Child,
    written: Option<usize>,
    total: usize,
) -> (parts: (Seq<char>, Seq<char>))
    requires
        plan.script.len() == total,
    ensures
        ({
            let spawned = plan.said(Stage::Bash { server, pty }, Event::Spawned { child });
            &&& spawned.len() == 2
            &&& shows(
                spawned[0],
                "  Spawned: "@ + bash_command(plan.distro) + "  PID="@,
                child.pid as usize,
                Seq::empty(),
            )
        }),
        ({
            let settled = plan.said(Stage::Startup { server, pty, child }, Event::Settled);
            &&& settled.len() == 1
            &&& shows(settled[0], "Sending "@, total, " raw bytes via ConPTY stdin\u{2026}"@)
        }),
        ({
            let process = child.process;
            let fed = plan.said(Stage::Feed { server, pty, process }, Event::Fed { written });
            &&& fed.len() == 3
            &&& fed[0] == parts.0 + parts.1
            &&& shows(
                parts.0,
                "Write done: "@,
                match written {
                    Some(n) => n,
                    None => 0,
                },
                "/"@,
            )
            &&& shows(parts.1, Seq::empty(), total, " raw bytes delivered."@)
        }),
{
    crate::report_laws::starting_shows_its_arguments(bash_command(plan.distro), child.pid);
    crate::report_laws::sending_shows_its_argument(total);
    crate::report_laws::delivered_shows_its_arguments(
        match written {
            Some(n) => n,
            None => 0,
        },
        total,
    )
}

/// The count in the result file decides. Where it is no smaller than the number of bytes sent,
/// the run is complete and says so. Where it is smaller, the share of what is missing is asked
/// for, nothing is printed yet, and the run then ends with what was dropped and says so.
pub proof fn count_decides_the_end(plan: Plan, stdout: Vec<u8>, percent: String)
    ensures
        ({
            let n = reported_count(stdout@);
            let next = plan.after(Stage::Print, Event::Printed { stdout });
            let said = plan.said(Stage::Print, Event::Printed { stdout });
            let end = plan.after(next, Event::Rounded { percent });
            let reported = plan.said(next, Event::Rounded { percent });
            let share = " ("@ + percent@ + "%)"@;
            if n >= plan.bytes_sent {
                &&& next matches Stage::Stopped { verdict: Verdict::Complete { found } } && {
                    &&& found == assessment(plan.lines_sent, plan.bytes_sent, n)
                    &&& found.bytes_received == n
                    &&& found.bytes_sent == plan.bytes_sent
                    &&& found.lines_sent == plan.lines_sent
                    &&& found.bytes_dropped == 0
                    &&& shows(said[4], "  Lines received : ~"@, found.lines_received, Seq::empty())
                }
                &&& said.len() == 9
                &&& shows(said[3], "  Lines sent     : "@, plan.lines_sent, Seq::empty())
                &&& shows(said[5], "  Bytes sent     : "@, plan.bytes_sent, Seq::empty())
                &&& shows(said[8], "  [OK] All "@, n, " chars received. Bug not reproduced."@)
                &&& shows(said[6], "  Bytes received : "@, n, Seq::empty())
                &&& end == next && reported.len() == 0
            } else {
                &&& next.pending() == (Action::Round {
                    part: (plan.bytes_sent - n) as usize,
                    whole: plan.bytes_sent,
                })
                &&& said.len() == 0
                &&& end matches Stage::Stopped { verdict: Verdict::Dropped { found } } && {
                    &&& found == assessment(plan.lines_sent, plan.bytes_sent, n)
                    &&& found.bytes_received == n
                    &&& found.bytes_sent == plan.bytes_sent
                    &&& found.lines_sent == plan.lines_sent
                    &&& found.bytes_dropped == plan.bytes_sent - n
                    &&& shows(
                        reported[4],
                        "  Lines received : ~"@,
                        found.lines_received,
                        Seq::empty(),
                    )
                    &&& shows(reported[7], "  Lines dropped  : ~"@, found.lines_dropped, share)
                }
                &&& reported.len() == 11
                &&& shows(reported[3], "  Lines sent     : "@, plan.lines_sent, Seq::empty())
                &&& shows(reported[5], "  Bytes sent     : "@, plan.bytes_sent, Seq::empty())
                &&& shows(reported[6], "  Bytes received : "@, n, Seq::empty())
                &&& shows(
                    reported[8],
                    "  Bytes dropped  : "@,
                    (plan.bytes_sent - n) as usize,
                    share,
                )
                &&& reported[10] == "  [BUG CONFIRMED]"@
            }
        }),
{
    let found = plan.found(stdout@);
    crate::report_laws::assessment_of_a_count(
        plan.lines_sent,
        plan.bytes_sent,
        reported_count(stdout@),
    );
    crate::report_laws::results_show_each_number(found, ""@);
    crate::report_laws::results_show_each_number(found, percent@);
    crate::report_laws::results_agree_with_the_count(found, percent@);
}

/// The last lines of every run say what it came to. A timeout is reported as one, a complete
/// run ends in a line that says so, and one in which bytes were dropped in the line that
/// confirms the bug.
pub proof fn last_lines_say_what_it_came_to(plan: Plan, events: Seq<Event>)
    requires
        events.len() > 0,
        !(plan.after_all(events.drop_last()) is Stopped),
    ensures
        ({
            let said = plan.said(plan.after_all(events.drop_last()), events.last());
            plan.after_all(events) matches Stage::Stopped { verdict } ==> said.len() > 0
                && match verdict {
                Verdict::TimedOut => said[1]
                    == "  [BUG] bash timed out \u{2014} EOM was dropped."@,
                Verdict::Complete { found } => {
                    &&& found.bytes_received >= found.bytes_sent
                    &&& "  [OK]"@.is_prefix_of(said.last())
                },
                Verdict::Dropped { found } => {
                    &&& found.bytes_received < found.bytes_sent
                    &&& said.last() == "  [BUG CONFIRMED]"@
                },
            }
        }),
{
    crate::run_laws::verdict_has_its_reason(plan, events.drop_last());
    let before = plan.after_all(events.drop_last());
    if let Event::Printed { stdout } = events.last() {
        crate::report_laws::results_agree_with_the_count(plan.found(stdout@), ""@);
    }
    if let Event::Rounded { percent } = events.last() {
        if let Stage::Share { found } = before {
            crate::report_laws::results_agree_with_the_count(found, percent@);
        }
    }
}

} // verus!
