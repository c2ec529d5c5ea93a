use wsl_stdin_repro::conpty::PtyRequest;
use wsl_stdin_repro::heredoc::{build_lines, build_script, CONTENT, LINE_LEN, RESULT};
use wsl_stdin_repro::report::{assess, results, write_error, Assessment};
use wsl_stdin_repro::repro::{failure_message, Action, Event, Failure, Repro};
use wsl_stdin_repro::spawn::Child;
use wsl_stdin_repro::status::WinError;

const RULE: &str = "============================================================";

#[test]
fn content_fills_lines_and_leaves_a_shorter_last_one() {
    let lines = build_lines(CONTENT, LINE_LEN);
    assert_eq!(lines.len(), 410);
    assert!(lines[..409].iter().all(|line| line.len() == 200));
    assert_eq!(lines[409].len(), 120);
    assert!(lines.iter().flatten().all(|byte| *byte == b'A'));
    assert_eq!(lines.iter().map(|line| line.len()).sum::<usize>(), 81_920);
}

#[test]
fn line_layout_at_the_edges() {
    assert!(build_lines(0, 5).is_empty());
    assert_eq!(build_lines(5, 5), vec![b"AAAAA".to_vec()]);
    assert_eq!(build_lines(6, 5), vec![b"AAAAA".to_vec(), b"A".to_vec()]);
    assert_eq!(build_lines(3, usize::MAX), vec![b"AAA".to_vec()]);
}

#[test]
fn script_is_a_here_document_and_two_commands() {
    let script = build_script(&build_lines(7, 3), "/tmp/x");
    assert_eq!(
        String::from_utf8_lossy(&script),
        " read -r -d '' VAR << 'EOM'\nAAA\nAAA\nA\nEOM\n echo ${#VAR} > /tmp/x\n exit\n"
    );
    let empty = build_script(&Vec::new(), RESULT);
    assert_eq!(
        String::from_utf8_lossy(&empty),
        " read -r -d '' VAR << 'EOM'\n\nEOM\n echo ${#VAR} > /tmp/wsl_repro.txt\n exit\n"
    );
}

#[test]
fn here_document_holds_what_was_counted() {
    let repro = Repro::new(None);
    let text = String::from_utf8_lossy(repro.script()).into_owned();
    let body = text.split_once('\n').unwrap().1.split_once("EOM\n").unwrap().0;
    assert_eq!(body.len(), 82_330);
    assert_eq!(body.matches('A').count(), 81_920);
    assert_eq!(body.lines().count(), 410);
    assert_eq!(repro.script().len(), 82_403);
}

#[test]
fn assessment_adds_up() {
    assert_eq!(
        assess(410, 82_330, 60_313),
        Assessment {
            lines_sent: 410,
            lines_received: 300,
            lines_dropped: 110,
            bytes_sent: 82_330,
            bytes_received: 60_313,
            bytes_dropped: 22_017,
        }
    );
    let nothing = assess(410, 82_330, 0);
    assert_eq!((nothing.lines_received, nothing.lines_dropped), (0, 410));
    assert_eq!(nothing.bytes_dropped, 82_330);
    let nearly = assess(410, 82_330, 82_329);
    assert!(!nearly.is_complete());
    assert_eq!((nearly.lines_received, nearly.lines_dropped, nearly.bytes_dropped), (409, 1, 1));
}

#[test]
fn full_count_leaves_nothing_missing() {
    let all = assess(410, 82_330, 82_330);
    assert!(all.is_complete());
    assert_eq!((all.lines_received, all.lines_dropped, all.bytes_dropped), (410, 0, 0));
    for (count, lines) in [(82_331, 409), (82_409, 409), (82_410, 410)] {
        let over = assess(410, 82_330, count);
        assert!(over.is_complete());
        assert_eq!((over.lines_received, over.bytes_dropped), (lines, 0));
    }
    let more = assess(410, 82_330, 90_000);
    assert!(more.is_complete());
    assert_eq!((more.lines_received, more.lines_dropped, more.bytes_dropped), (447, 0, 0));
}

#[test]
fn percentage_is_printed_as_it_comes() {
    let lines = results(&assess(410, 82_330, 60_313), "12.3");
    assert_eq!(lines[7], "  Lines dropped  : ~110 (12.3%)");
    assert_eq!(lines[8], "  Bytes dropped  : 22017 (12.3%)");
}

#[test]
fn write_errors_name_their_place() {
    assert_eq!(write_error(4096, "broken pipe"), "  write error at 4096: broken pipe");
}

/// Carries out a run against made-up answers, and returns what it prints.
fn carry_out(distro: Option<&str>, written: Option<usize>, status: u32, stdout: &str) -> Vec<String> {
    let mut repro = Repro::new(distro);
    let mut said = repro.banner();
    loop {
        let event = match repro.action() {
            Action::CreatePipe => Event::PipeReady { client: 300, server: 200 },
            Action::FindDll => Event::DllFound,
            Action::CreatePty { request } => {
                assert_eq!(
                    request,
                    PtyRequest { columns: 220, rows: 50, input: 300, output: 300, flags: 0 }
                );
                Event::PtyCreated { pty: 9 }
            }
            Action::SpawnBash { pty } => {
                assert_eq!(pty, 9);
                Event::Spawned { child: Child { process: 11, thread: 12, pid: 2512 } }
            }
            Action::Settle { thread, millis } => {
                assert_eq!((thread, millis), (12, 3_000));
                Event::Settled
            }
            Action::Feed { server, millis } => {
                assert_eq!((server, millis), (200, 30_000));
                Event::Fed { written }
            }
            Action::Await { process, millis } => {
                assert_eq!((process, millis), (11, 30_000));
                Event::Awaited { status }
            }
            Action::Release { process, pty } => {
                assert_eq!((process, pty), (11, 9));
                Event::Released
            }
            Action::PrintResult => Event::Printed { stdout: stdout.as_bytes().to_vec() },
            Action::Round { part, whole } => {
                let percent = format!("{:.1}", part as f64 / whole as f64 * 100.0);
                Event::Rounded { percent }
            }
            Action::Stop => return said,
            Action::Fail { failure } => panic!("{}", failure_message(&failure)),
        };
        said.extend(repro.step(&event));
    }
}

#[test]
fn broken_wsl_is_reported() {
    assert_eq!(
        carry_out(Some("Ubuntu"), Some(82_403), 0, "60313\n"),
        vec![
            RULE,
            "WSL ConPTY stdin truncation repro",
            "  Content : 81920 A-chars in 410 lines (82330 bytes with newlines)",
            "  Distro  : Ubuntu",
            RULE,
            "",
            "  Spawned: wsl.exe --distribution Ubuntu -- bash --norc --noprofile  PID=2512",
            "Waiting 3 s for bash to start\u{2026}",
            "Sending 82403 raw bytes via ConPTY stdin\u{2026}",
            "Write done: 82403/82403 raw bytes delivered.",
            "",
            "Waiting up to 30 s for bash to exit\u{2026}",
            "",
            RULE,
            "RESULTS",
            "  Lines sent     : 410",
            "  Lines received : ~300",
            "  Bytes sent     : 82330",
            "  Bytes received : 60313",
            "  Lines dropped  : ~110 (26.7%)",
            "  Bytes dropped  : 22017 (26.7%)",
            RULE,
            "  [BUG CONFIRMED]",
        ]
    );
}

#[test]
fn working_wsl_is_reported() {
    let said = carry_out(None, Some(82_403), 0, "82330\n");
    assert_eq!(said[3], "  Distro  : (default)");
    assert_eq!(said[6], "  Spawned: wsl.exe -- bash --norc --noprofile  PID=2512");
    assert_eq!(
        said[12..],
        [
            "",
            RULE,
            "RESULTS",
            "  Lines sent     : 410",
            "  Lines received : ~410",
            "  Bytes sent     : 82330",
            "  Bytes received : 82330",
            RULE,
            "  [OK] All 82330 chars received. Bug not reproduced.",
        ]
    );
}

#[test]
fn bash_that_never_leaves_is_reported() {
    let said = carry_out(None, Some(82_403), 0x102, "82330\n");
    assert_eq!(
        said[12..],
        [
            "",
            "  [BUG] bash timed out \u{2014} EOM was dropped.",
            "  wsl.exe is not delivering all ConPTY stdin bytes.",
        ]
    );
}

#[test]
fn failed_event_loop_counts_as_nothing_sent() {
    let said = carry_out(None, None, 0, "\n");
    assert_eq!(said[9], "Write done: 0/82403 raw bytes delivered.");
    assert_eq!(said[19], "  Lines dropped  : ~410 (100.0%)");
}

#[test]
fn each_failure_ends_the_run() {
    let error = WinError { code: -5 };
    let pipe = Event::PipeReady { client: 1, server: 2 };
    let failures = [
        (vec![Event::PipeFailed { error }], Failure::Pipe { error }),
        (vec![Event::PipeReady { client: 1, server: 2 }, Event::DllMissing], Failure::DllMissing),
        (
            vec![
                Event::PipeReady { client: 1, server: 2 },
                Event::DllFound,
                Event::PtyFailed { error },
            ],
            Failure::Pty { error },
        ),
        (
            vec![pipe, Event::DllFound, Event::PtyCreated { pty: 3 }, Event::SpawnFailed { error }],
            Failure::Spawn { error },
        ),
        (
            vec![
                Event::PipeReady { client: 1, server: 2 },
                Event::DllFound,
                Event::PtyCreated { pty: 3 },
                Event::Spawned { child: Child { process: 4, thread: 5, pid: 6 } },
                Event::Settled,
                Event::Fed { written: Some(7) },
                Event::Awaited { status: 0 },
                Event::Released,
                Event::PrintFailed,
            ],
            Failure::Print,
        ),
    ];
    for (events, failure) in failures {
        let mut repro = Repro::new(None);
        for event in &events {
            repro.step(event);
        }
        assert_eq!(repro.action(), Action::Fail { failure });
        assert!(repro.step(&Event::DllFound).is_empty());
        assert_eq!(repro.action(), Action::Fail { failure });
    }
}

#[test]
fn failures_are_named() {
    let error = WinError { code: -5 };
    assert_eq!(failure_message(&Failure::Pipe { error }), "create_duplex_pipe");
    assert_eq!(
        failure_message(&Failure::DllMissing),
        "conpty.dll not found. Copy it to the same directory as this binary, or set CONPTY_DLL_PATH."
    );
    assert_eq!(failure_message(&Failure::Pty { error }), "CreatePseudoConsole");
    assert_eq!(failure_message(&Failure::Spawn { error }), "spawn_bash");
    assert_eq!(failure_message(&Failure::Print), "wsl cat");
}

#[test]
fn run_hands_out_its_command_and_arguments() {
    let repro = Repro::new(Some("Debian"));
    let units = repro.bash_units();
    assert_eq!(
        String::from_utf16_lossy(&units),
        "wsl.exe --distribution Debian -- bash --norc --noprofile\0"
    );
    assert_eq!(
        repro.print_args(),
        vec!["--distribution", "Debian", "--", "cat", "/tmp/wsl_repro.txt"]
    );
}
