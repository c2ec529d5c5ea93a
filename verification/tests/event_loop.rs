use wsl_stdin_repro::pump::{Interest, Pump, PumpAction, PumpEvent, Readiness};

fn ready(readable: bool, writable: bool) -> PumpEvent {
    PumpEvent::Ready { notices: vec![Readiness { token: 0, readable, writable }] }
}

/// A loop at the start of its first round.
fn registered(len: usize) -> Pump {
    let mut pump = Pump::new(len);
    pump.step(&PumpEvent::Registered);
    pump
}

/// Leads a loop past its first drain, to its first write.
fn at_first_write(len: usize) -> Pump {
    let mut pump = registered(len);
    pump.step(&PumpEvent::TimeLeft { nanos: 1_000_000_000 });
    pump.step(&PumpEvent::Ready { notices: Vec::new() });
    pump.step(&PumpEvent::ReadFailed);
    pump
}

#[test]
fn pipe_is_watched_before_the_first_round() {
    let mut pump = Pump::new(10);
    assert_eq!(
        pump.action(),
        PumpAction::Register { token: 0, interest: Interest::Both, capacity: 64 }
    );
    pump.step(&PumpEvent::TimeLeft { nanos: 0 });
    pump.step(&PumpEvent::Registered);
    assert_eq!(pump.action(), PumpAction::AskTime);

    let mut pump = Pump::new(10);
    pump.step(&PumpEvent::RegisterFailed);
    assert_eq!(pump.action(), PumpAction::Abandon);
}

#[test]
fn first_round_polls_drains_and_writes() {
    let mut pump = registered(10);
    assert_eq!(pump.action(), PumpAction::AskTime);
    pump.step(&PumpEvent::TimeLeft { nanos: 30_000_000_000 });
    assert_eq!(pump.action(), PumpAction::Poll { nanos: 50_000_000 });
    pump.step(&PumpEvent::Ready { notices: Vec::new() });
    assert_eq!(pump.action(), PumpAction::Read { at_most: 4096 });
    pump.step(&PumpEvent::ReadBytes { n: 4096 });
    assert_eq!(pump.action(), PumpAction::Read { at_most: 4096 });
    pump.step(&PumpEvent::ReadBytes { n: 0 });
    assert_eq!(pump.action(), PumpAction::Write { from: 0 });
    pump.step(&PumpEvent::Wrote { n: 4 });
    assert_eq!(pump.action(), PumpAction::AskTime);
}

#[test]
fn short_waits_end_at_the_deadline() {
    let mut pump = registered(10);
    pump.step(&PumpEvent::TimeLeft { nanos: 49_999_999 });
    assert_eq!(pump.action(), PumpAction::Poll { nanos: 49_999_999 });
    let mut pump = registered(10);
    pump.step(&PumpEvent::TimeLeft { nanos: 1 });
    assert_eq!(pump.action(), PumpAction::Poll { nanos: 1 });
    let mut pump = registered(10);
    pump.step(&PumpEvent::TimeLeft { nanos: u128::MAX });
    assert_eq!(pump.action(), PumpAction::Poll { nanos: 50_000_000 });
}

#[test]
fn loop_ends_when_time_is_up() {
    let mut pump = at_first_write(10);
    pump.step(&PumpEvent::Wrote { n: 3 });
    pump.step(&PumpEvent::TimeLeft { nanos: 0 });
    assert_eq!(pump.action(), PumpAction::Finish { written: 3 });
    pump.step(&PumpEvent::TimeLeft { nanos: 5 });
    assert_eq!(pump.action(), PumpAction::Finish { written: 3 });
}

#[test]
fn loop_ends_when_all_is_written() {
    let mut pump = at_first_write(10);
    pump.step(&PumpEvent::Wrote { n: 10 });
    assert_eq!(pump.action(), PumpAction::Finish { written: 10 });
}

#[test]
fn nothing_to_write_ends_after_one_round() {
    let pump = at_first_write(0);
    assert_eq!(pump.action(), PumpAction::Finish { written: 0 });
}

#[test]
fn failed_write_ends_the_loop_with_what_was_written() {
    let mut pump = at_first_write(10);
    pump.step(&PumpEvent::Wrote { n: 6 });
    pump.step(&PumpEvent::TimeLeft { nanos: 9 });
    pump.step(&PumpEvent::Ready { notices: Vec::new() });
    assert_eq!(pump.action(), PumpAction::Write { from: 6 });
    pump.step(&PumpEvent::WriteFailed);
    assert_eq!(pump.action(), PumpAction::FinishAfterError { written: 6 });
}

#[test]
fn failed_wait_abandons_the_loop() {
    let mut pump = registered(10);
    pump.step(&PumpEvent::TimeLeft { nanos: 9 });
    pump.step(&PumpEvent::PollFailed);
    assert_eq!(pump.action(), PumpAction::Abandon);
}

#[test]
fn blocked_pipe_waits_for_a_notice() {
    let mut pump = at_first_write(10);
    pump.step(&PumpEvent::WouldBlock);
    assert_eq!(pump.action(), PumpAction::AskTime);
    pump.step(&PumpEvent::TimeLeft { nanos: 9 });
    pump.step(&PumpEvent::Ready { notices: Vec::new() });
    assert_eq!(pump.action(), PumpAction::AskTime);
    pump.step(&PumpEvent::TimeLeft { nanos: 9 });
    pump.step(&ready(true, false));
    assert_eq!(pump.action(), PumpAction::Read { at_most: 4096 });
    pump.step(&PumpEvent::ReadFailed);
    assert_eq!(pump.action(), PumpAction::AskTime);
    pump.step(&PumpEvent::TimeLeft { nanos: 9 });
    pump.step(&ready(false, true));
    assert_eq!(pump.action(), PumpAction::Write { from: 0 });
}

#[test]
fn notices_for_other_objects_do_not_count() {
    let mut pump = at_first_write(10);
    pump.step(&PumpEvent::WouldBlock);
    pump.step(&PumpEvent::TimeLeft { nanos: 9 });
    pump.step(&PumpEvent::Ready {
        notices: vec![Readiness { token: 1, readable: true, writable: true }],
    });
    assert_eq!(pump.action(), PumpAction::AskTime);
    assert!(!pump.can_read && !pump.can_write);
}

#[test]
fn notices_add_up() {
    let mut pump = at_first_write(10);
    pump.step(&PumpEvent::WouldBlock);
    pump.step(&PumpEvent::TimeLeft { nanos: 9 });
    pump.step(&PumpEvent::Ready {
        notices: vec![
            Readiness { token: 3, readable: false, writable: false },
            Readiness { token: 0, readable: true, writable: false },
            Readiness { token: 0, readable: false, writable: true },
        ],
    });
    assert!(pump.can_read && pump.can_write);
    assert_eq!(pump.action(), PumpAction::Read { at_most: 4096 });
}

#[test]
fn stray_events_change_nothing() {
    let mut pump = registered(10);
    let fresh = pump;
    pump.step(&PumpEvent::Wrote { n: 5 });
    pump.step(&PumpEvent::WouldBlock);
    pump.step(&PumpEvent::ReadBytes { n: 0 });
    assert_eq!(pump, fresh);
}

#[test]
fn pipe_gets_the_data_in_order() {
    let data: Vec<u8> = (0..1000u32).map(|i| (i % 251) as u8).collect();
    let mut pump = registered(data.len());
    let mut taken: Vec<u8> = Vec::new();
    let mut turn = 0usize;
    let written = loop {
        turn += 1;
        let event = match pump.action() {
            PumpAction::AskTime => PumpEvent::TimeLeft { nanos: 1_000_000 },
            PumpAction::Poll { .. } => ready(turn % 3 == 0, turn % 2 == 0),
            PumpAction::Read { .. } => {
                if turn % 5 == 0 {
                    PumpEvent::ReadFailed
                } else {
                    PumpEvent::ReadBytes { n: 1 }
                }
            }
            PumpAction::Write { from } => {
                let rest = &data[from..];
                let n = rest.len().min(turn % 17);
                if turn % 4 == 0 {
                    PumpEvent::WouldBlock
                } else {
                    taken.extend_from_slice(&rest[..n]);
                    PumpEvent::Wrote { n }
                }
            }
            PumpAction::Finish { written } => break written,
            other => panic!("{:?}", other),
        };
        pump.step(&event);
    };
    assert_eq!(written, data.len());
    assert_eq!(taken, data);
}

/// Runs a loop to its end with answers to reads from `reads`, and returns the writes that
/// were offered and how many bytes were written.
fn offers(reads: &[PumpEvent]) -> (Vec<usize>, usize) {
    let mut pump = registered(20);
    let mut offered: Vec<usize> = Vec::new();
    let mut rounds = 0usize;
    loop {
        match pump.action() {
            PumpAction::AskTime => {
                rounds += 1;
                pump.step(&PumpEvent::TimeLeft { nanos: 7 });
            }
            PumpAction::Poll { .. } => pump.step(&ready(rounds % 2 == 0, true)),
            PumpAction::Read { .. } => {
                for event in reads {
                    assert_eq!(pump.action(), PumpAction::Read { at_most: 4096 });
                    pump.step(event);
                }
            }
            PumpAction::Write { from } => {
                offered.push(from);
                if rounds % 3 == 0 {
                    pump.step(&PumpEvent::WouldBlock);
                } else {
                    pump.step(&PumpEvent::Wrote { n: 5 });
                }
            }
            PumpAction::Finish { written } => return (offered, written),
            other => panic!("{:?}", other),
        }
    }
}

#[test]
fn what_is_read_changes_neither_writes_nor_result() {
    let expected = (vec![0, 5, 10, 10, 15], 20);
    assert_eq!(offers(&[PumpEvent::ReadFailed]), expected);
    assert_eq!(offers(&[PumpEvent::ReadBytes { n: 0 }]), expected);
    assert_eq!(
        offers(&[
            PumpEvent::ReadBytes { n: 4096 },
            PumpEvent::ReadBytes { n: 1 },
            PumpEvent::ReadFailed,
        ]),
        expected
    );
}
