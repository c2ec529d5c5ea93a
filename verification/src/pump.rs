//! The event loop between the program and the server end of the pipe: it writes the script
//! and drains the console's output until all is written, a write fails or time is up.

use vstd::prelude::*;

verus! {

/// The token under which the pipe is registered.
pub const PIPE_TOKEN: usize = 0;

/// The longest time, in nanoseconds, for which readiness is waited at once.
pub const POLL_SLICE: u64 = 50_000_000;

/// How many bytes are read from the pipe at once, at most.
pub const READ_SIZE: usize = 4_096;

/// How many notices are taken at once, at most.
pub const NOTICE_CAPACITY: usize = 64;

/// What the pipe is watched for.
#[derive(Clone, Copy, Debug, PartialEq, Eq, Structural)]
pub enum Interest {
    Readable,
    Writable,
    Both,
}

/// A notice that an object may be ready.
#[derive(Clone, Copy, Debug, PartialEq, Eq, Structural)]
pub struct Readiness {
    pub token: usize,
    pub readable: bool,
    pub writable: bool,
}

/// Where a round of the loop stands.
#[derive(Clone, Copy, Debug, PartialEq, Eq, Structural)]
pub enum Phase {
    /// Before the first round.
    Registering,
    /// At the start of a round.
    Clock,
    Polling { nanos: u64 },
    Reading,
    Writing,
    /// The loop has ended: all is written or time was up.
    Done,
    /// The loop has ended because a write failed.
    Broken,
    /// The loop has ended because the pipe could not be watched.
    Abandoned,
}

/// What is to be done next.
#[derive(Clone, Copy, Debug, PartialEq, Eq, Structural)]
pub enum PumpAction {
    /// Have the pipe watched, and make room for this many notices.
    Register { token: usize, interest: Interest, capacity: usize },
    /// Tell how much time is left.
    AskTime,
    /// Wait for readiness, at most this long.
    Poll { nanos: u64 },
    /// Read from the pipe, at most this many bytes.
    Read { at_most: usize },
    /// Write to the pipe what follows this many bytes of the script.
    Write { from: usize },
    /// Return how many bytes were written.
    Finish { written: usize },
    /// Report that a write failed at this point, and return how many bytes were written.
    FinishAfterError { written: usize },
    /// Return the error of the watch or of the wait.
    Abandon,
}

/// What happened.
#[derive(Debug, PartialEq, Eq)]
pub enum PumpEvent {
    Registered,
    RegisterFailed,
    TimeLeft { nanos: u128 },
    Ready { notices: Vec<Readiness> },
    PollFailed,
    /// This many bytes were read, or none at the end of the stream.
    ReadBytes { n: usize },
    ReadFailed,
    /// The pipe took this many bytes.
    Wrote { n: usize },
    /// The pipe can take no bytes now.
    WouldBlock,
    WriteFailed,
}

/// The loop: how many bytes there are to write, how many are written, and whether the pipe
/// is taken to be readable and writable.
#[derive(Clone, Copy, Debug, PartialEq, Eq, Structural)]
pub struct Pump {
    pub len: usize,
    pub written: usize,
    pub can_read: bool,
    pub can_write: bool,
    pub phase: Phase,
}

/// Whether some notice says that the pipe is readable.
pub open spec fn says_readable(notices: Seq<Readiness>) -> bool {
    exists|i: int|
        0 <= i < notices.len() && (#[trigger] notices[i]).token == PIPE_TOKEN
            && notices[i].readable
}

/// Whether some notice says that the pipe is writable.
pub open spec fn says_writable(notices: Seq<Readiness>) -> bool {
    exists|i: int|
        0 <= i < notices.len() && (#[trigger] notices[i]).token == PIPE_TOKEN
            && notices[i].writable
}

impl Pump {
    /// A loop that has `len` bytes to write and takes the pipe to be ready for everything.
    pub open spec fn fresh(len: usize) -> Pump {
        Pump { len, written: 0, can_read: true, can_write: true, phase: Phase::Registering }
    }

    /// Whether everything is written.
    pub open spec fn all_written(self) -> bool {
        self.written >= self.len
    }

    /// The end of a round: over, or on to the next.
    pub open spec fn round_ended(self) -> Pump {
        Pump {
            phase: if self.all_written() {
                Phase::Done
            } else {
                Phase::Clock
            },
            ..self
        }
    }

    /// After the reading part of a round: a write, where one is due and may succeed.
    pub open spec fn drained(self) -> Pump {
        if self.can_write && !self.all_written() {
            Pump { phase: Phase::Writing, ..self }
        } else {
            self.round_ended()
        }
    }

    /// Where an event leads. One that does not fit the pending action changes nothing.
    pub open spec fn after(self, event: PumpEvent) -> Pump {
        match (self.phase, event) {
            (Phase::Registering, PumpEvent::Registered) => Pump { phase: Phase::Clock, ..self },
            (Phase::Registering, PumpEvent::RegisterFailed) => Pump {
                phase: Phase::Abandoned,
                ..self
            },
            (Phase::Clock, PumpEvent::TimeLeft { nanos }) => if nanos == 0 {
                Pump { phase: Phase::Done, ..self }
            } else {
                Pump {
                    phase: Phase::Polling {
                        nanos: if nanos < POLL_SLICE {
                            nanos as u64
                        } else {
                            POLL_SLICE
                        },
                    },
                    ..self
                }
            },
            (Phase::Polling { .. }, PumpEvent::PollFailed) => Pump {
                phase: Phase::Abandoned,
                ..self
            },
            (Phase::Polling { .. }, PumpEvent::Ready { notices }) => {
                let noted = Pump {
                    can_read: self.can_read || says_readable(notices@),
                    can_write: self.can_write || says_writable(notices@),
                    ..self
                };
                if noted.can_read {
                    Pump { phase: Phase::Reading, ..noted }
                } else {
                    noted.drained()
                }
            },
            (Phase::Reading, PumpEvent::ReadBytes { n }) => if n > 0 {
                self
            } else {
                (Pump { can_read: false, ..self }).drained()
            },
            (Phase::Reading, PumpEvent::ReadFailed) => (Pump {
                can_read: false,
                ..self
            }).drained(),
            (Phase::Writing, PumpEvent::Wrote { n }) => (Pump {
                written: (self.written + n) as usize,
                ..self
            }).round_ended(),
            (Phase::Writing, PumpEvent::WouldBlock) => (Pump {
                can_write: false,
                ..self
            }).round_ended(),
            (Phase::Writing, PumpEvent::WriteFailed) => Pump { phase: Phase::Broken, ..self },
            _ => self,
        }
    }

    /// What is to be done at this point.
    pub open spec fn pending(self) -> PumpAction {
        match self.phase {
            Phase::Registering => PumpAction::Register {
                token: PIPE_TOKEN,
                interest: Interest::Both,
                capacity: NOTICE_CAPACITY,
            },
            Phase::Clock => PumpAction::AskTime,
            Phase::Polling { nanos } => PumpAction::Poll { nanos },
            Phase::Reading => PumpAction::Read { at_most: READ_SIZE },
            Phase::Writing => PumpAction::Write { from: self.written },
            Phase::Done => PumpAction::Finish { written: self.written },
            Phase::Broken => PumpAction::FinishAfterError { written: self.written },
            Phase::Abandoned => PumpAction::Abandon,
        }
    }

    /// Starts a loop that has `len` bytes to write.
    pub fn new(len: usize) -> (pump: Pump)
        ensures
            pump == Pump::fresh(len),
    {
        Pump { len, written: 0, can_read: true, can_write: true, phase: Phase::Registering }
    }

    /// Says what is to be done next.
    pub fn action(&self) -> (action: PumpAction)
        ensures
            action == self.pending(),
    {
        match self.phase {
            Phase::Registering => PumpAction::Register {
                token: PIPE_TOKEN,
                interest: Interest::Both,
                capacity: NOTICE_CAPACITY,
            },
            Phase::Clock => PumpAction::AskTime,
            Phase::Polling { nanos } => PumpAction::Poll { nanos },
            Phase::Reading => PumpAction::Read { at_most: READ_SIZE },
            Phase::Writing => PumpAction::Write { from: self.written },
            Phase::Done => PumpAction::Finish { written: self.written },
            Phase::Broken => PumpAction::FinishAfterError { written: self.written },
            Phase::Abandoned => PumpAction::Abandon,
        }
    }

    fn end_round(&mut self)
        ensures
            *final(self) == old(self).round_ended(),
    {
        self.phase = if self.written >= self.len {
            Phase::Done
        } else {
            Phase::Clock
        };
    }

    fn leave_reading(&mut self)
        ensures
            *final(self) == old(self).drained(),
    {
        if self.can_write && self.written < self.len {
            self.phase = Phase::Writing;
        } else {
            self.end_round();
        }
    }

    fn note(&mut self, notices: &Vec<Readiness>)
        ensures
            *final(self) == (Pump {
                can_read: old(self).can_read || says_readable(notices@),
                can_write: old(self).can_write || says_writable(notices@),
                ..*old(self)
            }),
    {
        let ghost start = *self;
        let mut i: usize = 0;
        while i < notices.len()
            invariant
                i <= notices@.len(),
                *self == (Pump {
                    can_read: start.can_read || says_readable(notices@.take(i as int)),
                    can_write: start.can_write || says_writable(notices@.take(i as int)),
                    ..start
                }),
            decreases notices@.len() - i,
        {
            let notice = notices[i];
            let ghost seen = notices@.take(i as int);
            let ghost more = notices@.take(i + 1);
            if notice.token == PIPE_TOKEN {
                if notice.readable {
                    self.can_read = true;
                }
                if notice.writable {
                    self.can_write = true;
                }
            }
            proof {
                assert(more =~= seen.push(notice));
                assert(more[i as int] == notice);
                assert forall|j: int| 0 <= j < seen.len() implies seen[j] == more[j] by {}
                if says_readable(seen) {
                    let j = choose|j: int|
                        0 <= j < seen.len() && (#[trigger] seen[j]).token == PIPE_TOKEN
                            && seen[j].readable;
                    assert(more[j].readable);
                }
                if says_writable(seen) {
                    let j = choose|j: int|
                        0 <= j < seen.len() && (#[trigger] seen[j]).token == PIPE_TOKEN
                            && seen[j].writable;
                    assert(more[j].writable);
                }
                if says_readable(more) && !(notice.token == PIPE_TOKEN && notice.readable) {
                    let j = choose|j: int|
                        0 <= j < more.len() && (#[trigger] more[j]).token == PIPE_TOKEN
                            && more[j].readable;
                    assert(seen[j].readable);
                }
                if says_writable(more) && !(notice.token == PIPE_TOKEN && notice.writable) {
                    let j = choose|j: int|
                        0 <= j < more.len() && (#[trigger] more[j]).token == PIPE_TOKEN
                            && more[j].writable;
                    assert(seen[j].writable);
                }
            }
            i += 1;
        }
        assert(notices@.take(i as int) =~= notices@);
    }

    /// Takes what happened.
    pub fn step(&mut self, event: &PumpEvent)
        requires
            old(self).phase == Phase::Writing ==> (*event matches PumpEvent::Wrote { n }
                ==> old(self).written + n <= usize::MAX),
        ensures
            *final(self) == old(self).after(*event),
    {
        match (self.phase, event) {
            (Phase::Registering, PumpEvent::Registered) => {
                self.phase = Phase::Clock;
            },
            (Phase::Registering, PumpEvent::RegisterFailed) => {
                self.phase = Phase::Abandoned;
            },
            (Phase::Clock, PumpEvent::TimeLeft { nanos }) => {
                if *nanos == 0 {
                    self.phase = Phase::Done;
                } else if *nanos < POLL_SLICE as u128 {
                    self.phase = Phase::Polling { nanos: *nanos as u64 };
                } else {
                    self.phase = Phase::Polling { nanos: POLL_SLICE };
                }
            },
            (Phase::Polling { nanos: _ }, PumpEvent::PollFailed) => {
                self.phase = Phase::Abandoned;
            },
            (Phase::Polling { nanos: _ }, PumpEvent::Ready { notices }) => {
                self.note(notices);
                if self.can_read {
                    self.phase = Phase::Reading;
                } else {
                    self.leave_reading();
                }
            },
            (Phase::Reading, PumpEvent::ReadBytes { n }) => {
                if *n == 0 {
                    self.can_read = false;
                    self.leave_reading();
                }
            },
            (Phase::Reading, PumpEvent::ReadFailed) => {
                self.can_read = false;
                self.leave_reading();
            },
            (Phase::Writing, PumpEvent::Wrote { n }) => {
                self.written += *n;
                self.end_round();
            },
            (Phase::Writing, PumpEvent::WouldBlock) => {
                self.can_write = false;
                self.end_round();
            },
            (Phase::Writing, PumpEvent::WriteFailed) => {
                self.phase = Phase::Broken;
            },
            _ => {},
        }
    }
}

impl Pump {
    /// Whether the loop has ended.
    pub open spec fn ended(self) -> bool {
        self.phase == Phase::Done || self.phase == Phase::Broken || self.phase == Phase::Abandoned
    }

    /// What holds at every point of the loop: a wait is never empty nor longer than a slice,
    /// the pipe is only read while it is taken to be readable, and only written while it is
    /// taken to be writable, has been drained and there is something left to write.
    pub open spec fn inv(self) -> bool {
        match self.phase {
            Phase::Polling { nanos } => 0 < nanos <= POLL_SLICE,
            Phase::Reading => self.can_read,
            Phase::Writing => self.can_write && !self.can_read && self.written < self.len,
            _ => true,
        }
    }

    /// Where a number of events lead, one after the other.
    pub open spec fn after_all(self, events: Seq<PumpEvent>) -> Pump
        decreases events.len(),
    {
        if events.len() == 0 {
            self
        } else {
            self.after_all(events.drop_last()).after(events.last())
        }
    }

    /// Whether the pipe never claims to have taken more bytes than it was offered.
    pub open spec fn honest(self, events: Seq<PumpEvent>) -> bool
        decreases events.len(),
    {
        events.len() > 0 ==> {
            let before = self.after_all(events.drop_last());
            &&& self.honest(events.drop_last())
            &&& before.phase == Phase::Writing ==> (events.last() matches PumpEvent::Wrote { n }
                ==> n <= before.len - before.written)
        }
    }

    /// The bytes of `data` that the pipe took, in the order in which it took them.
    pub open spec fn taken(self, data: Seq<u8>, events: Seq<PumpEvent>) -> Seq<u8>
        decreases events.len(),
    {
        if events.len() == 0 {
            Seq::empty()
        } else {
            let before = self.after_all(events.drop_last());
            let so_far = self.taken(data, events.drop_last());
            match (before.pending(), events.last()) {
                (PumpAction::Write { from }, PumpEvent::Wrote { n }) => so_far + data.subrange(
                    from as int,
                    from + n,
                ),
                _ => so_far,
            }
        }
    }
}

/// The loop keeps its invariant, whatever happens.
pub proof fn invariant_is_kept(pump: Pump, event: PumpEvent)
    requires
        pump.inv(),
    ensures
        pump.after(event).inv(),
{
}

/// The invariant holds from the start of a loop on.
pub proof fn invariant_always_holds(len: usize, events: Seq<PumpEvent>)
    ensures
        Pump::fresh(len).after_all(events).inv(),
    decreases events.len(),
{
    if events.len() > 0 {
        invariant_always_holds(len, events.drop_last());
    }
}

/// What the pipe took is the beginning of the data, in order and without a gap, and its
/// length is the number of bytes that the loop returns.
pub proof fn pipe_takes_a_prefix(data: Seq<u8>, len: usize, events: Seq<PumpEvent>)
    requires
        data.len() == len,
        Pump::fresh(len).honest(events),
    ensures
        ({
            let start = Pump::fresh(len);
            let end = start.after_all(events);
            &&& end.len == len
            &&& end.written <= len
            &&& start.taken(data, events) == data.take(end.written as int)
            &&& end.all_written() ==> start.taken(data, events) == data
        }),
    decreases events.len(),
{
    let start = Pump::fresh(len);
    if events.len() > 0 {
        let earlier = events.drop_last();
        pipe_takes_a_prefix(data, len, earlier);
        let before = start.after_all(earlier);
        let end = start.after_all(events);
        assert(start.taken(data, events) =~= data.take(end.written as int));
        assert(data.take(len as int) =~= data);
    } else {
        assert(start.taken(data, events) =~= data.take(0));
        assert(data.take(len as int) =~= data);
    }
}

/// The loop ends only because time is up, everything is written, a write failed or the
/// pipe could not be watched, and where it ends for a failure it says so.
pub proof fn loop_ends_for_a_reason(pump: Pump, event: PumpEvent)
    requires
        !pump.ended(),
        pump.after(event).ended(),
    ensures
        match pump.after(event).pending() {
            PumpAction::Finish { written } => written >= pump.len || event
                == (PumpEvent::TimeLeft { nanos: 0 }),
            PumpAction::FinishAfterError { written } => event is WriteFailed && written
                == pump.written,
            PumpAction::Abandon => event is PollFailed || event is RegisterFailed,
            _ => false,
        },
{
}

/// The loop ends where no time is left at the start of a round, and where a write completes
/// the data.
pub proof fn loop_ends_when_due(pump: Pump, n: usize)
    ensures
        pump.phase == Phase::Clock ==> pump.after(PumpEvent::TimeLeft { nanos: 0 }).pending() == (
        PumpAction::Finish { written: pump.written }),
        pump.phase == Phase::Writing && pump.len <= pump.written + n <= usize::MAX ==> pump.after(
            PumpEvent::Wrote { n },
        ).pending() == (PumpAction::Finish { written: (pump.written + n) as usize }),
{
}

/// An ended loop stays as it is.
pub proof fn end_is_final(pump: Pump, event: PumpEvent)
    requires
        pump.ended(),
    ensures
        pump.after(event) == pump,
{
}

/// After the pipe refused a write, none is tried until a notice says that it is writable.
pub proof fn blocked_pipe_is_left_alone(pump: Pump, event: PumpEvent)
    requires
        pump.inv(),
        !pump.can_write,
        event matches PumpEvent::Ready { notices } ==> !says_writable(notices@),
    ensures
        !pump.after(event).can_write,
        !(pump.after(event).pending() is Write),
{
}

/// A write that would block leads to no further write in its round and to a blocked pipe.
pub proof fn refused_write_blocks(pump: Pump)
    requires
        pump.phase == Phase::Writing,
    ensures
        !pump.after(PumpEvent::WouldBlock).can_write,
        pump.after(PumpEvent::WouldBlock).written == pump.written,
        !(pump.after(PumpEvent::WouldBlock).pending() is Write),
{
}

/// A wait for readiness lasts no longer than the time that is left.
pub proof fn wait_ends_by_the_deadline(pump: Pump, nanos: u128)
    requires
        pump.phase == Phase::Clock,
        nanos > 0,
    ensures
        pump.after(PumpEvent::TimeLeft { nanos }).pending() matches PumpAction::Poll { nanos: wait }
            && 0 < wait <= nanos && wait <= POLL_SLICE,
{
}

/// Whether an event is the answer to a read.
pub open spec fn is_read(event: PumpEvent) -> bool {
    event is ReadBytes || event is ReadFailed
}

/// Whether an event is the answer to a write.
pub open spec fn is_write(event: PumpEvent) -> bool {
    event is Wrote || event is WouldBlock || event is WriteFailed
}

/// Events without the answers to reads.
pub open spec fn without_reads(events: Seq<PumpEvent>) -> Seq<PumpEvent>
    decreases events.len(),
{
    if events.len() == 0 {
        Seq::empty()
    } else if is_read(events.last()) {
        without_reads(events.drop_last())
    } else {
        without_reads(events.drop_last()).push(events.last())
    }
}

/// Whether two events are the same, notices compared one by one.
pub open spec fn same_event(one: PumpEvent, other: PumpEvent) -> bool {
    match (one, other) {
        (PumpEvent::Ready { notices: a }, PumpEvent::Ready { notices: b }) => a@ == b@,
        _ => one == other,
    }
}

/// Whether two sequences of events differ in nothing but the answers to reads.
pub open spec fn same_but_for_reads(one: Seq<PumpEvent>, other: Seq<PumpEvent>) -> bool {
    let a = without_reads(one);
    let b = without_reads(other);
    &&& a.len() == b.len()
    &&& forall|i: int| 0 <= i < a.len() ==> same_event(#[trigger] a[i], b[i])
}

impl Pump {
    /// Whether every drain runs to its end: while the pipe is read, nothing but answers to
    /// reads comes, until one of them ends the drain.
    pub open spec fn drains(self, events: Seq<PumpEvent>) -> bool
        decreases events.len(),
    {
        events.len() > 0 ==> {
            &&& self.drains(events.drop_last())
            &&& self.after_all(events.drop_last()).phase == Phase::Reading ==> is_read(events.last())
        }
    }

    /// The writes that were answered, each as the place in the data from which it was
    /// offered.
    pub open spec fn offers(self, events: Seq<PumpEvent>) -> Seq<usize>
        decreases events.len(),
    {
        if events.len() == 0 {
            Seq::empty()
        } else {
            let earlier = self.offers(events.drop_last());
            match self.after_all(events.drop_last()).pending() {
                PumpAction::Write { from } => if is_write(events.last()) {
                    earlier.push(from)
                } else {
                    earlier
                },
                _ => earlier,
            }
        }
    }

    /// The loop once a drain that it is in has ended.
    spec fn settled(self) -> Pump {
        if self.phase == Phase::Reading {
            (Pump { can_read: false, ..self }).drained()
        } else {
            self
        }
    }
}

proof fn lemma_same_event_same_step(pump: Pump, one: PumpEvent, other: PumpEvent)
    requires
        same_event(one, other),
    ensures
        pump.after(one) == pump.after(other),
{
}

proof fn lemma_reads_do_not_count(
    pump: Pump,
    data: Seq<u8>,
    one: Seq<PumpEvent>,
    other: Seq<PumpEvent>,
)
    requires
        pump.drains(one),
        pump.drains(other),
        same_but_for_reads(one, other),
    ensures
        pump.after_all(one).settled() == pump.after_all(other).settled(),
        pump.offers(one) == pump.offers(other),
        pump.taken(data, one) == pump.taken(data, other),
    decreases one.len() + other.len(),
{
    if one.len() > 0 && is_read(one.last()) {
        lemma_reads_do_not_count(pump, data, one.drop_last(), other);
    } else if other.len() > 0 && is_read(other.last()) {
        lemma_reads_do_not_count(pump, data, one, other.drop_last());
    } else if one.len() > 0 && other.len() > 0 {
        let a = without_reads(one);
        let b = without_reads(other);
        let n = a.len() - 1;
        assert(same_event(a[n], b[n]));
        assert(a[n] == one.last() && b[n] == other.last());
        assert forall|i: int| 0 <= i < n implies same_event(
            #[trigger] without_reads(one.drop_last())[i],
            without_reads(other.drop_last())[i],
        ) by {
            assert(same_event(a[i], b[i]));
        }
        lemma_reads_do_not_count(pump, data, one.drop_last(), other.drop_last());
        lemma_same_event_same_step(
            pump.after_all(one.drop_last()),
            one.last(),
            other.last(),
        );
    } else if one.len() > 0 {
        assert(without_reads(other).len() == 0);
    } else if other.len() > 0 {
        assert(without_reads(one).len() == 0);
    }
}

/// What is read from the pipe changes neither what is written to it nor what the loop
/// returns. Where two sequences of events differ in nothing but the answers to reads, the
/// same writes are offered and the same bytes are taken and counted; and where no drain is
/// under way at the end of either, the loop stands at the same point with the same action.
pub proof fn reads_change_nothing_else(
    pump: Pump,
    data: Seq<u8>,
    one: Seq<PumpEvent>,
    other: Seq<PumpEvent>,
)
    requires
        pump.drains(one),
        pump.drains(other),
        same_but_for_reads(one, other),
    ensures
        pump.offers(one) == pump.offers(other),
        pump.taken(data, one) == pump.taken(data, other),
        pump.after_all(one).written == pump.after_all(other).written,
        pump.after_all(one).phase != Phase::Reading && pump.after_all(other).phase != Phase::Reading
            ==> pump.after_all(one) == pump.after_all(other) && pump.after_all(one).pending()
            == pump.after_all(other).pending(),
{
    lemma_reads_do_not_count(pump, data, one, other);
}

/// No answer to a read ends the loop unless everything is written, be it an error or the
/// end of the stream.
pub proof fn reads_do_not_end_the_loop(pump: Pump, event: PumpEvent)
    requires
        !pump.ended(),
        is_read(event),
        pump.after(event).ended(),
    ensures
        pump.all_written(),
        pump.after(event).pending() == (PumpAction::Finish { written: pump.written }),
{
}

} // verus!
