//! The directional copy task: read a chunk from the source, write all of it to
//! the sink, flush, and read again, until the source ends or a call fails.
use vstd::prelude::*;
use vstd::slice::slice_subrange;

verus! {

/// The number of bytes a driver asks the source for in one read.
pub const BUFFER_SIZE: usize = 4096;

/// Why a copy task stopped.
#[derive(Clone, Copy, Debug, PartialEq, Eq, Structural)]
pub enum Stop {
    /// The source reported end of stream: a read of zero bytes.
    EndOfStream,
    /// A read from the source failed.
    ReadFailed,
    /// A write to the sink failed, or the sink took no byte of a non-empty write.
    WriteFailed,
    /// Flushing the sink failed.
    FlushFailed,
}

/// Where a copy task stands.
#[derive(Clone, Copy, Debug, PartialEq, Eq, Structural)]
pub enum Phase {
    /// Waiting for the next chunk from the source; nothing is pending.
    Reading,
    /// Waiting for the sink to take more of the pending bytes.
    Writing,
    /// The whole chunk was taken; waiting for the sink's flush.
    Flushing,
    /// The task has stopped and waits for the sink to be shut down.
    Closing(Stop),
    /// The task is over.
    Finished(Stop),
}

/// What the driver reports to a copy task.
#[derive(Clone, Debug, PartialEq, Eq)]
pub enum Event {
    /// The source yielded these bytes; none means end of stream.
    Read(Vec<u8>),
    /// The read failed.
    ReadFailed,
    /// The sink took this many of the pending bytes, from their start.
    Wrote(usize),
    /// The write failed.
    WriteFailed,
    /// The sink was flushed.
    Flushed,
    /// The flush failed.
    FlushFailed,
    /// The shutdown of the sink was attempted; its result is not consulted.
    Closed,
}

/// What a copy task asks of the driver.
#[derive(Clone, Copy, Debug, PartialEq, Eq, Structural)]
pub enum Action {
    /// Read up to [`BUFFER_SIZE`] bytes from the source.
    Read,
    /// Write the pending bytes to the sink and report how many it took.
    Write,
    /// Flush the sink.
    Flush,
    /// Shut the sink down, so that its peer observes the end of the stream.
    Shutdown,
    /// The task is complete; report it to the relay.
    Done,
    /// The event answered no request of the task and was ignored.
    Nothing,
}

/// The mathematical state of a copy task.
pub struct CopyTaskView {
    pub phase: Phase,
    /// The bytes that were read from the source and not yet taken by the sink.
    pub pending: Seq<u8>,
}

impl CopyTaskView {
    /// The state of a task that has just been started.
    pub open spec fn initial() -> CopyTaskView {
        CopyTaskView { phase: Phase::Reading, pending: Seq::empty() }
    }

    /// Bytes are pending while they are written, and at no other time but
    /// after a failed write.
    pub open spec fn wf(self) -> bool {
        match self.phase {
            Phase::Reading | Phase::Flushing => self.pending.len() == 0,
            Phase::Writing => self.pending.len() > 0,
            Phase::Closing(stop) | Phase::Finished(stop) => stop != Stop::WriteFailed
                ==> self.pending.len() == 0,
        }
    }

    /// The reason for which the task stopped, once it has.
    pub open spec fn stop(self) -> Option<Stop> {
        match self.phase {
            Phase::Closing(stop) | Phase::Finished(stop) => Some(stop),
            _ => None,
        }
    }

    /// The same task, stopped for the given reason and waiting for the shutdown.
    pub open spec fn stopped(self, stop: Stop) -> CopyTaskView {
        CopyTaskView { phase: Phase::Closing(stop), pending: self.pending }
    }
}

/// The state and the action that follow from a state and an event.
///
/// An event that does not answer the request of the current phase changes
/// nothing and is answered with [`Action::Nothing`].
pub open spec fn transition(s: CopyTaskView, e: Event) -> (CopyTaskView, Action) {
    match (s.phase, e) {
        (Phase::Reading, Event::Read(chunk)) => if chunk@.len() > 0 {
            (CopyTaskView { phase: Phase::Writing, pending: chunk@ }, Action::Write)
        } else {
            (s.stopped(Stop::EndOfStream), Action::Shutdown)
        },
        (Phase::Reading, Event::ReadFailed) => (s.stopped(Stop::ReadFailed), Action::Shutdown),
        (Phase::Writing, Event::Wrote(n)) => if 0 < n < s.pending.len() {
            (
                CopyTaskView { phase: Phase::Writing, pending: s.pending.skip(n as int) },
                Action::Write,
            )
        } else if 0 < n == s.pending.len() {
            (CopyTaskView { phase: Phase::Flushing, pending: Seq::empty() }, Action::Flush)
        } else {
            (s.stopped(Stop::WriteFailed), Action::Shutdown)
        },
        (Phase::Writing, Event::WriteFailed) => (s.stopped(Stop::WriteFailed), Action::Shutdown),
        (Phase::Flushing, Event::Flushed) => (
            CopyTaskView { phase: Phase::Reading, pending: s.pending },
            Action::Read,
        ),
        (Phase::Flushing, Event::FlushFailed) => (s.stopped(Stop::FlushFailed), Action::Shutdown),
        (Phase::Closing(stop), Event::Closed) => (
            CopyTaskView { phase: Phase::Finished(stop), pending: s.pending },
            Action::Done,
        ),
        _ => (s, Action::Nothing),
    }
}

/// The state reached from `s` when the events of `trace` arrive in order.
pub open spec fn run_from(s: CopyTaskView, trace: Seq<Event>) -> CopyTaskView
    decreases trace.len(),
{
    if trace.len() == 0 {
        s
    } else {
        transition(run_from(s, trace.drop_last()), trace.last()).0
    }
}

/// The state of a task that was started and then saw `trace`.
pub open spec fn run(trace: Seq<Event>) -> CopyTaskView {
    run_from(CopyTaskView::initial(), trace)
}

/// The bytes that the task takes over from the source in one step: the chunk
/// of a read that it was waiting for.
pub open spec fn taken(s: CopyTaskView, e: Event) -> Seq<u8> {
    match (s.phase, e) {
        (Phase::Reading, Event::Read(chunk)) => chunk@,
        _ => Seq::empty(),
    }
}

/// The bytes that the sink takes in one step: the start of the pending bytes,
/// as long as the write that the task was waiting for reports.
pub open spec fn accepted(s: CopyTaskView, e: Event) -> Seq<u8> {
    match (s.phase, e) {
        (Phase::Writing, Event::Wrote(n)) => if 0 < n <= s.pending.len() {
            s.pending.take(n as int)
        } else {
            Seq::empty()
        },
        _ => Seq::empty(),
    }
}

/// All bytes that the source handed to the task along `trace`, in order.
pub open spec fn received_from(s: CopyTaskView, trace: Seq<Event>) -> Seq<u8>
    decreases trace.len(),
{
    if trace.len() == 0 {
        Seq::empty()
    } else {
        received_from(s, trace.drop_last()) + taken(
            run_from(s, trace.drop_last()),
            trace.last(),
        )
    }
}

/// All bytes that the sink took along `trace`, in order.
pub open spec fn delivered_from(s: CopyTaskView, trace: Seq<Event>) -> Seq<u8>
    decreases trace.len(),
{
    if trace.len() == 0 {
        Seq::empty()
    } else {
        delivered_from(s, trace.drop_last()) + accepted(
            run_from(s, trace.drop_last()),
            trace.last(),
        )
    }
}

/// All bytes that the source handed to a new task along `trace`, in order.
pub open spec fn received(trace: Seq<Event>) -> Seq<u8> {
    received_from(CopyTaskView::initial(), trace)
}

/// All bytes that the sink took from a new task along `trace`, in order.
pub open spec fn delivered(trace: Seq<Event>) -> Seq<u8> {
    delivered_from(CopyTaskView::initial(), trace)
}

/// How many times a new task answers with `action` along `trace`.
pub open spec fn requests(trace: Seq<Event>, action: Action) -> nat {
    requests_from(CopyTaskView::initial(), trace, action)
}

/// How many times the task answers with `action` along `trace`.
pub open spec fn requests_from(s: CopyTaskView, trace: Seq<Event>, action: Action) -> nat
    decreases trace.len(),
{
    if trace.len() == 0 {
        0
    } else {
        let before = requests_from(s, trace.drop_last(), action);
        if transition(run_from(s, trace.drop_last()), trace.last()).1 == action {
            before + 1
        } else {
            before
        }
    }
}

/// A step keeps a well-formed state well-formed.
pub proof fn transition_keeps_wf(s: CopyTaskView, e: Event)
    requires
        s.wf(),
    ensures
        transition(s, e).0.wf(),
{
}

/// Every state that a run reaches is well-formed.
pub proof fn run_keeps_wf(s: CopyTaskView, trace: Seq<Event>)
    requires
        s.wf(),
    ensures
        run_from(s, trace).wf(),
    decreases trace.len(),
{
    if trace.len() > 0 {
        run_keeps_wf(s, trace.drop_last());
        transition_keeps_wf(run_from(s, trace.drop_last()), trace.last());
    }
}

/// In one step, what was pending and what the source adds is what the sink
/// takes and what stays pending: no byte is lost, repeated or reordered.
pub proof fn step_conserves_bytes(s: CopyTaskView, e: Event)
    requires
        s.wf(),
    ensures
        s.pending + taken(s, e) == accepted(s, e) + transition(s, e).0.pending,
{
    let next = transition(s, e).0;
    assert(s.pending + taken(s, e) =~= accepted(s, e) + next.pending);
}

/// Along any run the bytes received are the bytes delivered followed by the
/// bytes still pending.
pub proof fn run_conserves_bytes(s: CopyTaskView, trace: Seq<Event>)
    requires
        s.wf(),
    ensures
        s.pending + received_from(s, trace) == delivered_from(s, trace) + run_from(
            s,
            trace,
        ).pending,
    decreases trace.len(),
{
    if trace.len() == 0 {
        assert(s.pending + Seq::<u8>::empty() =~= Seq::<u8>::empty() + s.pending);
    } else {
        let head = trace.drop_last();
        let mid = run_from(s, head);
        run_conserves_bytes(s, head);
        run_keeps_wf(s, head);
        step_conserves_bytes(mid, trace.last());
        let end = transition(mid, trace.last()).0;
        assert(s.pending + received_from(s, trace) =~= (s.pending + received_from(s, head))
            + taken(mid, trace.last()));
        assert(delivered_from(s, trace) + end.pending =~= delivered_from(s, head) + (accepted(
            mid,
            trace.last(),
        ) + end.pending));
        assert((delivered_from(s, head) + mid.pending) + taken(mid, trace.last())
            =~= delivered_from(s, head) + (mid.pending + taken(mid, trace.last())));
    }
}

/// Byte fidelity. Whatever the driver reports to a new task, the bytes that
/// the sink has taken are a prefix of the bytes that the source has yielded,
/// and the rest is exactly what is pending. Whenever the task waits for the
/// source, and when it has stopped at the end of the stream, the sink has
/// taken every byte that the source yielded, in order and unchanged.
pub proof fn byte_fidelity(trace: Seq<Event>)
    ensures
        received(trace) == delivered(trace) + run(trace).pending,
        run(trace).phase == Phase::Reading || run(trace).phase == Phase::Flushing || run(
            trace,
        ).stop() == Some(Stop::EndOfStream) ==> delivered(trace) == received(trace),
{
    let start = CopyTaskView::initial();
    run_conserves_bytes(start, trace);
    run_keeps_wf(start, trace);
    assert(start.pending + received(trace) =~= received(trace));
    if run(trace).pending.len() == 0 {
        assert(delivered(trace) + run(trace).pending =~= delivered(trace));
    }
}

/// A task stops on the first failed call or on the first read of zero bytes,
/// and on nothing else; the step that stops it asks for the shutdown of the
/// sink, and no other step does.
pub proof fn stops_on_first_failure_or_end(s: CopyTaskView, e: Event)
    requires
        s.wf(),
        s.stop() is None,
    ensures
        transition(s, e).0.stop() == match (s.phase, e) {
            (Phase::Reading, Event::Read(chunk)) => if chunk@.len() == 0 {
                Some(Stop::EndOfStream)
            } else {
                None
            },
            (Phase::Reading, Event::ReadFailed) => Some(Stop::ReadFailed),
            (Phase::Writing, Event::Wrote(n)) => if n == 0 || n > s.pending.len() {
                Some(Stop::WriteFailed)
            } else {
                None
            },
            (Phase::Writing, Event::WriteFailed) => Some(Stop::WriteFailed),
            (Phase::Flushing, Event::FlushFailed) => Some(Stop::FlushFailed),
            _ => None,
        },
        transition(s, e).0.stop() is Some <==> transition(s, e).1 == Action::Shutdown,
{
}

/// Once a task has stopped, its reason stays, no event makes it read, write
/// or flush again, and it never asks for a second shutdown.
pub proof fn stop_is_final(s: CopyTaskView, trace: Seq<Event>)
    requires
        s.stop() is Some,
    ensures
        run_from(s, trace).stop() == s.stop(),
        run_from(s, trace).pending == s.pending,
        requests_from(s, trace, Action::Read) == 0,
        requests_from(s, trace, Action::Write) == 0,
        requests_from(s, trace, Action::Flush) == 0,
        requests_from(s, trace, Action::Shutdown) == 0,
    decreases trace.len(),
{
    if trace.len() > 0 {
        stop_is_final(s, trace.drop_last());
    }
}

/// A task terminates exactly once: along any run of a new task the sink's
/// shutdown is asked for once if the task has stopped and never if it has
/// not, and the task reports completion at most once, after that shutdown.
pub proof fn terminates_once(trace: Seq<Event>)
    ensures
        requests(trace, Action::Shutdown) == (if run(trace).stop() is Some {
            1nat
        } else {
            0nat
        }),
        requests(trace, Action::Done) == (if run(trace).phase is Finished {
            1nat
        } else {
            0nat
        }),
    decreases trace.len(),
{
    if trace.len() > 0 {
        terminates_once(trace.drop_last());
        run_keeps_wf(CopyTaskView::initial(), trace.drop_last());
    }
}

/// End of stream is passed on: a task that waits for its source holds no
/// byte back, and when the source ends it asks at once for the shutdown of
/// the sink, which lets the sink's peer observe the end in turn.
pub proof fn end_of_stream_is_passed_on(s: CopyTaskView, chunk: Vec<u8>)
    requires
        s.wf(),
        s.phase == Phase::Reading,
        chunk@.len() == 0,
    ensures
        s.pending.len() == 0,
        transition(s, Event::Read(chunk)).0.phase == Phase::Closing(Stop::EndOfStream),
        transition(s, Event::Read(chunk)).1 == Action::Shutdown,
        transition(transition(s, Event::Read(chunk)).0, Event::Closed).0.phase
            == Phase::Finished(Stop::EndOfStream),
{
}

/// Write all, not write some: while bytes are pending the task asks for
/// nothing but another write, and every write that the sink answers with a
/// count within the pending bytes shortens them by that count.
pub proof fn drains_before_reading(s: CopyTaskView, n: usize)
    requires
        s.wf(),
        s.phase == Phase::Writing,
        0 < n <= s.pending.len(),
    ensures
        transition(s, Event::Wrote(n)).0.pending == s.pending.skip(n as int),
        transition(s, Event::Wrote(n)).0.pending.len() == s.pending.len() - n,
        n < s.pending.len() ==> transition(s, Event::Wrote(n)).1 == Action::Write,
        n == s.pending.len() ==> transition(s, Event::Wrote(n)).1 == Action::Flush,
{
    assert(s.pending.skip(s.pending.len() as int) =~= Seq::<u8>::empty());
}

/// A directional copy task, bound to one source and one sink by its driver.
pub struct CopyTask {
    phase: Phase,
    buffer: Vec<u8>,
    written: usize,
}

impl View for CopyTask {
    type V = CopyTaskView;

    closed spec fn view(&self) -> CopyTaskView {
        CopyTaskView { phase: self.phase, pending: self.buffer@.skip(self.written as int) }
    }
}

impl CopyTask {
    #[verifier::type_invariant]
    spec fn inv(self) -> bool {
        self.written <= self.buffer.len() && self@.wf()
    }

    /// A new task and its first request: to read from the source.
    pub fn start() -> (r: (CopyTask, Action))
        ensures
            r.0@ == CopyTaskView::initial(),
            r.1 == Action::Read,
    {
        let task = CopyTask { phase: Phase::Reading, buffer: Vec::new(), written: 0 };
        assert(task@.pending =~= Seq::empty());
        (task, Action::Read)
    }

    /// Takes in what the driver reports and answers with the next request.
    pub fn step(&mut self, event: Event) -> (action: Action)
        ensures
            old(self)@.wf(),
            final(self)@.wf(),
            final(self)@ == transition(old(self)@, event).0,
            action == transition(old(self)@, event).1,
    {
        proof {
            use_type_invariant(&*self);
        }
        match self.phase {
            Phase::Reading => match event {
                Event::Read(chunk) => {
                    if chunk.len() > 0 {
                        assert(chunk@.skip(0) =~= chunk@);
                        *self = CopyTask { phase: Phase::Writing, buffer: chunk, written: 0 };
                        Action::Write
                    } else {
                        self.phase = Phase::Closing(Stop::EndOfStream);
                        Action::Shutdown
                    }
                },
                Event::ReadFailed => {
                    self.phase = Phase::Closing(Stop::ReadFailed);
                    Action::Shutdown
                },
                _ => Action::Nothing,
            },
            Phase::Writing => match event {
                Event::Wrote(n) => {
                    let left: usize = self.buffer.len() - self.written;
                    if 0 < n && n < left {
                        assert(self.buffer@.skip(self.written as int).skip(n as int)
                            =~= self.buffer@.skip(self.written + n));
                        self.written = self.written + n;
                        Action::Write
                    } else if n == left {
                        *self = CopyTask { phase: Phase::Flushing, buffer: Vec::new(), written: 0 };
                        assert(self@.pending =~= Seq::empty());
                        Action::Flush
                    } else {
                        self.phase = Phase::Closing(Stop::WriteFailed);
                        Action::Shutdown
                    }
                },
                Event::WriteFailed => {
                    self.phase = Phase::Closing(Stop::WriteFailed);
                    Action::Shutdown
                },
                _ => Action::Nothing,
            },
            Phase::Flushing => match event {
                Event::Flushed => {
                    self.phase = Phase::Reading;
                    Action::Read
                },
                Event::FlushFailed => {
                    self.phase = Phase::Closing(Stop::FlushFailed);
                    Action::Shutdown
                },
                _ => Action::Nothing,
            },
            Phase::Closing(stop) => match event {
                Event::Closed => {
                    self.phase = Phase::Finished(stop);
                    Action::Done
                },
                _ => Action::Nothing,
            },
            Phase::Finished(_) => Action::Nothing,
        }
    }

    /// The bytes that the sink has yet to take.
    pub fn pending(&self) -> (bytes: &[u8])
        ensures
            bytes@ == self@.pending,
    {
        proof {
            use_type_invariant(self);
        }
        slice_subrange(self.buffer.as_slice(), self.written, self.buffer.len())
    }

    /// Where the task stands.
    pub fn phase(&self) -> (phase: Phase)
        ensures
            phase == self@.phase,
    {
        self.phase
    }
}

} // verus!
