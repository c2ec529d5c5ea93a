//! A whole run: what is done in which order, what is printed on the way, and the verdict.

use crate::conpty::pty_request;
use crate::conpty::PtyRequest;
use crate::count::received_count;
use crate::count::reported_count;
use crate::heredoc::build_lines;
use crate::heredoc::build_script;
use crate::heredoc::content_lines;
use crate::heredoc::line_count;
use crate::heredoc::script;
use crate::heredoc::CONTENT;
use crate::heredoc::LINE_LEN;
use crate::heredoc::RESULT;
use crate::report::assess;
use crate::report::assessment;
use crate::report::texts;
use crate::report::Assessment;
use crate::spawn::bash_command;
use crate::spawn::cat_arguments;
use crate::spawn::Child;
use crate::status::WinError;
use vstd::prelude::*;

verus! {

/// The width of the pseudoconsole.
pub const COLUMNS: i16 = 220;

/// The height of the pseudoconsole.
pub const ROWS: i16 = 50;

/// How long bash gets to start up.
pub const STARTUP_MILLIS: u32 = 3_000;

/// How long the script may take to send.
pub const FEED_MILLIS: u32 = 30_000;

/// How long bash gets to leave.
pub const EXIT_MILLIS: u32 = 30_000;

/// What a wait returns where its time ran out.
pub const WAIT_TIMEOUT: u32 = 0x102;

/// What a run came to.
#[derive(Clone, Copy, Debug, PartialEq, Eq, Structural)]
pub enum Verdict {
    /// Bash never left, so the end of the here-document was dropped.
    TimedOut,
    /// Every byte arrived.
    Complete { found: Assessment },
    /// Bytes were dropped.
    Dropped { found: Assessment },
}

/// Why a run could not be carried out.
#[derive(Clone, Copy, Debug, PartialEq, Eq, Structural)]
pub enum Failure {
    Pipe { error: WinError },
    DllMissing,
    Pty { error: WinError },
    Spawn { error: WinError },
    Print,
}

/// How far a run has come.
#[derive(Clone, Copy, Debug, PartialEq, Eq, Structural)]
pub enum Stage {
    Pipe,
    Dll { client: usize, server: usize },
    Pty { client: usize, server: usize },
    Bash { server: usize, pty: isize },
    Startup { server: usize, pty: isize, child: Child },
    Feed { server: usize, pty: isize, process: usize },
    Exit { pty: isize, process: usize },
    Release { pty: isize, process: usize, timed_out: bool },
    Print,
    Share { found: Assessment },
    Stopped { verdict: Verdict },
    Failed { failure: Failure },
}

/// What is to be done next.
#[derive(Clone, Copy, Debug, PartialEq, Eq, Structural)]
pub enum Action {
    /// Create the bidirectional pipe.
    CreatePipe,
    /// Find the library that provides the pseudoconsole.
    FindDll,
    CreatePty { request: PtyRequest },
    /// Start bash on the console.
    SpawnBash { pty: isize },
    /// Close bash's thread handle and give bash time to start up.
    Settle { thread: usize, millis: u32 },
    /// Send the script through the pipe.
    Feed { server: usize, millis: u32 },
    /// Wait for bash to leave.
    Await { process: usize, millis: u32 },
    /// Close bash's process handle and the console.
    Release { process: usize, pty: isize },
    /// Print the result file from outside the console.
    PrintResult,
    /// Say which percentage `part` is of `whole`, to one decimal.
    Round { part: usize, whole: usize },
    Stop,
    Fail { failure: Failure },
}

/// What happened.
#[derive(Debug, PartialEq, Eq)]
pub enum Event {
    PipeReady { client: usize, server: usize },
    PipeFailed { error: WinError },
    DllFound,
    DllMissing,
    PtyCreated { pty: isize },
    PtyFailed { error: WinError },
    Spawned { child: Child },
    SpawnFailed { error: WinError },
    Settled,
    /// The script was sent this far, or not at all where the event loop failed.
    Fed { written: Option<usize> },
    /// The wait for bash ended with this status.
    Awaited { status: u32 },
    Released,
    Printed { stdout: Vec<u8> },
    PrintFailed,
    Rounded { percent: String },
}

/// What a run sends, and where to.
pub struct Plan {
    pub distro: Option<Seq<char>>,
    pub lines_sent: usize,
    pub bytes_sent: usize,
    pub script: Seq<u8>,
}

/// The plan of every run against `distro`.
pub open spec fn plan_for(distro: Option<Seq<char>>) -> Plan {
    let lines_sent = line_count(CONTENT as nat, LINE_LEN as nat);
    Plan {
        distro,
        lines_sent: lines_sent as usize,
        bytes_sent: (CONTENT + lines_sent) as usize,
        script: script(content_lines(CONTENT as nat, LINE_LEN as nat), RESULT@),
    }
}

/// How many bytes were sent: none where the event loop failed.
pub open spec fn bytes_fed(written: Option<usize>) -> nat {
    match written {
        Some(n) => n as nat,
        None => 0,
    }
}

impl Plan {
    /// The assessment of the bytes of the result file.
    pub open spec fn found(self, stdout: Seq<u8>) -> Assessment {
        assessment(self.lines_sent, self.bytes_sent, reported_count(stdout))
    }

    /// Where an event leads. One that does not fit the pending action changes nothing.
    pub open spec fn after(self, stage: Stage, event: Event) -> Stage {
        match (stage, event) {
            (Stage::Pipe, Event::PipeReady { client, server }) => Stage::Dll { client, server },
            (Stage::Pipe, Event::PipeFailed { error }) => Stage::Failed {
                failure: Failure::Pipe { error },
            },
            (Stage::Dll { client, server }, Event::DllFound) => Stage::Pty { client, server },
            (Stage::Dll { .. }, Event::DllMissing) => Stage::Failed { failure: Failure::DllMissing },
            (Stage::Pty { client, server }, Event::PtyCreated { pty }) => Stage::Bash {
                server,
                pty,
            },
            (Stage::Pty { .. }, Event::PtyFailed { error }) => Stage::Failed {
                failure: Failure::Pty { error },
            },
            (Stage::Bash { server, pty }, Event::Spawned { child }) => Stage::Startup {
                server,
                pty,
                child,
            },
            (Stage::Bash { .. }, Event::SpawnFailed { error }) => Stage::Failed {
                failure: Failure::Spawn { error },
            },
            (Stage::Startup { server, pty, child }, Event::Settled) => Stage::Feed {
                server,
                pty,
                process: child.process,
            },
            (Stage::Feed { server, pty, process }, Event::Fed { .. }) => Stage::Exit {
                pty,
                process,
            },
            (Stage::Exit { pty, process }, Event::Awaited { status }) => Stage::Release {
                pty,
                process,
                timed_out: status == WAIT_TIMEOUT,
            },
            (Stage::Release { timed_out, .. }, Event::Released) => if timed_out {
                Stage::Stopped { verdict: Verdict::TimedOut }
            } else {
                Stage::Print
            },
            (Stage::Print, Event::Printed { stdout }) => if self.found(stdout@).complete() {
                Stage::Stopped { verdict: Verdict::Complete { found: self.found(stdout@) } }
            } else {
                Stage::Share { found: self.found(stdout@) }
            },
            (Stage::Print, Event::PrintFailed) => Stage::Failed { failure: Failure::Print },
            (Stage::Share { found }, Event::Rounded { .. }) => Stage::Stopped {
                verdict: Verdict::Dropped { found },
            },
            _ => stage,
        }
    }

    /// What is printed when an event arrives.
    pub open spec fn said(self, stage: Stage, event: Event) -> Seq<Seq<char>> {
        match (stage, event) {
            (Stage::Bash { .. }, Event::Spawned { child }) => crate::report::starting_text(
                bash_command(self.distro),
                child.pid as nat,
            ),
            (Stage::Startup { .. }, Event::Settled) => crate::report::sending_text(
                self.script.len(),
            ),
            (Stage::Feed { .. }, Event::Fed { written }) => crate::report::delivered_text(
                bytes_fed(written),
                self.script.len(),
            ),
            (Stage::Release { timed_out, .. }, Event::Released) => if timed_out {
                crate::report::timed_out_text()
            } else {
                Seq::empty()
            },
            (Stage::Print, Event::Printed { stdout }) => if self.found(stdout@).complete() {
                crate::report::results_text(self.found(stdout@), ""@)
            } else {
                Seq::empty()
            },
            (Stage::Share { found }, Event::Rounded { percent }) => crate::report::results_text(
                found,
                percent@,
            ),
            _ => Seq::empty(),
        }
    }
}

impl Stage {
    /// What is to be done at this point.
    pub open spec fn pending(self) -> Action {
        match self {
            Stage::Pipe => Action::CreatePipe,
            Stage::Dll { .. } => Action::FindDll,
            Stage::Pty { client, server } => Action::CreatePty {
                request: PtyRequest {
                    columns: COLUMNS,
                    rows: ROWS,
                    input: client,
                    output: client,
                    flags: 0,
                },
            },
            Stage::Bash { server, pty } => Action::SpawnBash { pty },
            Stage::Startup { server, pty, child } => Action::Settle {
                thread: child.thread,
                millis: STARTUP_MILLIS,
            },
            Stage::Feed { server, pty, process } => Action::Feed { server, millis: FEED_MILLIS },
            Stage::Exit { pty, process } => Action::Await { process, millis: EXIT_MILLIS },
            Stage::Release { pty, process, timed_out } => Action::Release { process, pty },
            Stage::Print => Action::PrintResult,
            Stage::Share { found } => Action::Round {
                part: found.bytes_dropped,
                whole: found.bytes_sent,
            },
            Stage::Stopped { .. } => Action::Stop,
            Stage::Failed { failure } => Action::Fail { failure },
        }
    }
}

/// A run.
#[derive(Debug, PartialEq, Eq)]
pub struct Repro {
    distro: Option<String>,
    lines_sent: usize,
    bytes_sent: usize,
    script: Vec<u8>,
    stage: Stage,
}

impl Repro {
    /// What the run sends, and where to.
    pub closed spec fn plan(self) -> Plan {
        Plan {
            distro: match self.distro {
                Some(name) => Some(name@),
                None => None,
            },
            lines_sent: self.lines_sent,
            bytes_sent: self.bytes_sent,
            script: self.script@,
        }
    }

    /// How far the run has come.
    pub closed spec fn stage(self) -> Stage {
        self.stage
    }

    /// Prepares a run against a distribution, or against the default one.
    pub fn new(distro: Option<&str>) -> (repro: Repro)
        ensures
            repro.plan() == plan_for(
                (match distro {
                    Some(name) => Some(name@),
                    None => None,
                }),
            ),
            repro.stage() == Stage::Pipe,
    {
        let lines = build_lines(CONTENT, LINE_LEN);
        let lines_sent = lines.len();
        proof {
            assert(crate::heredoc::line_views(lines@).len() == lines_sent);
        }
        let bytes_sent: usize = CONTENT + lines_sent;
        let script = build_script(&lines, RESULT);
        let distro = match distro {
            Some(name) => Some(name.to_owned()),
            None => None,
        };
        Repro { distro, lines_sent, bytes_sent, script, stage: Stage::Pipe }
    }

    fn distro(&self) -> (distro: Option<&str>)
        ensures
            self.plan().distro == (match distro {
                Some(name) => Some(name@),
                None => None,
            }),
    {
        match &self.distro {
            Some(name) => Some(name.as_str()),
            None => None,
        }
    }

    /// Writes the lines that announce the run.
    pub fn banner(&self) -> (lines: Vec<String>)
        ensures
            texts(lines@) == crate::report::banner_text(
                CONTENT as nat,
                self.plan().lines_sent as nat,
                self.plan().bytes_sent as nat,
                self.plan().distro,
            ),
    {
        crate::report::banner(CONTENT, self.lines_sent, self.bytes_sent, self.distro())
    }

    /// The bytes that are sent to bash.
    pub fn script(&self) -> (bytes: &Vec<u8>)
        ensures
            bytes@ == self.plan().script,
    {
        &self.script
    }

    /// The command line that runs bash, as a terminated UTF-16 string.
    pub fn bash_units(&self) -> (units: Vec<u16>)
        ensures
            units@ == crate::wide::utf16(bash_command(self.plan().distro)).push(0),
    {
        crate::spawn::command_units(self.distro())
    }

    /// The arguments with which `wsl.exe` prints the result file.
    pub fn print_args(&self) -> (args: Vec<String>)
        ensures
            texts(args@) == cat_arguments(self.plan().distro),
    {
        crate::spawn::cat_args(self.distro())
    }

    /// Says what is to be done next.
    pub fn action(&self) -> (action: Action)
        ensures
            action == self.stage().pending(),
    {
        match self.stage {
            Stage::Pipe => Action::CreatePipe,
            Stage::Dll { client: _, server: _ } => Action::FindDll,
            Stage::Pty { client, server: _ } => Action::CreatePty {
                request: pty_request(COLUMNS, ROWS, client),
            },
            Stage::Bash { server: _, pty } => Action::SpawnBash { pty },
            Stage::Startup { server: _, pty: _, child } => Action::Settle {
                thread: child.thread,
                millis: STARTUP_MILLIS,
            },
            Stage::Feed { server, pty: _, process: _ } => Action::Feed {
                server,
                millis: FEED_MILLIS,
            },
            Stage::Exit { pty: _, process } => Action::Await { process, millis: EXIT_MILLIS },
            Stage::Release { pty, process, timed_out: _ } => Action::Release { process, pty },
            Stage::Print => Action::PrintResult,
            Stage::Share { found } => Action::Round {
                part: found.bytes_dropped,
                whole: found.bytes_sent,
            },
            Stage::Stopped { verdict: _ } => Action::Stop,
            Stage::Failed { failure } => Action::Fail { failure },
        }
    }

    /// Takes what happened, and returns what is to be printed.
    pub fn step(&mut self, event: &Event) -> (lines: Vec<String>)
        ensures
            final(self).plan() == old(self).plan(),
            final(self).stage() == old(self).plan().after(old(self).stage(), *event),
            texts(lines@) == old(self).plan().said(old(self).stage(), *event),
    {
        let nothing: Vec<String> = Vec::new();
        assert(texts(nothing@) =~= Seq::<Seq<char>>::empty());
        match (self.stage, event) {
            (Stage::Pipe, Event::PipeReady { client, server }) => {
                self.stage = Stage::Dll { client: *client, server: *server };
                nothing
            },
            (Stage::Pipe, Event::PipeFailed { error }) => {
                self.stage = Stage::Failed { failure: Failure::Pipe { error: *error } };
                nothing
            },
            (Stage::Dll { client, server }, Event::DllFound) => {
                self.stage = Stage::Pty { client, server };
                nothing
            },
            (Stage::Dll { client: _, server: _ }, Event::DllMissing) => {
                self.stage = Stage::Failed { failure: Failure::DllMissing };
                nothing
            },
            (Stage::Pty { client: _, server }, Event::PtyCreated { pty }) => {
                self.stage = Stage::Bash { server, pty: *pty };
                nothing
            },
            (Stage::Pty { client: _, server: _ }, Event::PtyFailed { error }) => {
                self.stage = Stage::Failed { failure: Failure::Pty { error: *error } };
                nothing
            },
            (Stage::Bash { server, pty }, Event::Spawned { child }) => {
                self.stage = Stage::Startup { server, pty, child: *child };
                let command = crate::spawn::command_line(self.distro());
                crate::report::starting(command.as_str(), child.pid)
            },
            (Stage::Bash { server: _, pty: _ }, Event::SpawnFailed { error }) => {
                self.stage = Stage::Failed { failure: Failure::Spawn { error: *error } };
                nothing
            },
            (Stage::Startup { server, pty, child }, Event::Settled) => {
                self.stage = Stage::Feed { server, pty, process: child.process };
                crate::report::sending(self.script.len())
            },
            (Stage::Feed { server: _, pty, process }, Event::Fed { written }) => {
                self.stage = Stage::Exit { pty, process };
                let sent: usize = match written {
                    Some(n) => *n,
                    None => 0,
                };
                crate::report::delivered(sent, self.script.len())
            },
            (Stage::Exit { pty, process }, Event::Awaited { status }) => {
                self.stage = Stage::Release { pty, process, timed_out: *status == WAIT_TIMEOUT };
                nothing
            },
            (Stage::Release { pty: _, process: _, timed_out }, Event::Released) => {
                if timed_out {
                    self.stage = Stage::Stopped { verdict: Verdict::TimedOut };
                    crate::report::timed_out()
                } else {
                    self.stage = Stage::Print;
                    nothing
                }
            },
            (Stage::Print, Event::Printed { stdout }) => {
                let count = received_count(stdout.as_slice());
                let found = assess(self.lines_sent, self.bytes_sent, count);
                if found.is_complete() {
                    self.stage = Stage::Stopped { verdict: Verdict::Complete { found } };
                    crate::report::results(&found, "")
                } else {
                    self.stage = Stage::Share { found };
                    nothing
                }
            },
            (Stage::Print, Event::PrintFailed) => {
                self.stage = Stage::Failed { failure: Failure::Print };
                nothing
            },
            (Stage::Share { found }, Event::Rounded { percent }) => {
                self.stage = Stage::Stopped { verdict: Verdict::Dropped { found } };
                crate::report::results(&found, percent.as_str())
            },
            _ => nothing,
        }
    }
}

/// What is said of a run that could not be carried out.
pub fn failure_message(failure: &Failure) -> (message: &'static str)
    ensures
        message@ == (match *failure {
            Failure::Pipe { .. } => "create_duplex_pipe"@,
            Failure::DllMissing =>
                "conpty.dll not found. Copy it to the same directory as this binary, or set CONPTY_DLL_PATH."@,
            Failure::Pty { .. } => "CreatePseudoConsole"@,
            Failure::Spawn { .. } => "spawn_bash"@,
            Failure::Print => "wsl cat"@,
        }),
{
    match *failure {
        Failure::Pipe { error: _ } => "create_duplex_pipe",
        Failure::DllMissing =>
            "conpty.dll not found. Copy it to the same directory as this binary, or set CONPTY_DLL_PATH.",
        Failure::Pty { error: _ } => "CreatePseudoConsole",
        Failure::Spawn { error: _ } => "spawn_bash",
        Failure::Print => "wsl cat",
    }
}

} // verus!
