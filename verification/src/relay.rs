//! The relay of one accepted client: a single dial of the destination, two
//! copy tasks in opposite directions, and the release of both sockets once
//! both tasks are over.
use vstd::prelude::*;

verus! {

/// One of the two directions of a connection pair.
#[derive(Clone, Copy, Debug, PartialEq, Eq, Structural)]
pub enum Direction {
    /// From the client to the destination.
    Upstream,
    /// From the destination to the client.
    Downstream,
}

impl Direction {
    /// The other direction.
    pub open spec fn reverse(self) -> Direction {
        match self {
            Direction::Upstream => Direction::Downstream,
            Direction::Downstream => Direction::Upstream,
        }
    }

    /// The other direction.
    pub fn opposite(self) -> (other: Direction)
        ensures
            other == self.reverse(),
            other != self,
    {
        match self {
            Direction::Upstream => Direction::Downstream,
            Direction::Downstream => Direction::Upstream,
        }
    }
}

/// Where a relay stands.
#[derive(Clone, Copy, Debug, PartialEq, Eq, Structural)]
pub enum Stage {
    /// The destination is being dialled.
    Dialing,
    /// Both copy tasks run.
    Relaying,
    /// One copy task is over; the task of the given direction still runs.
    Draining(Direction),
    /// Both copy tasks are over and both sockets were released.
    Released,
    /// The dial failed and the client was closed without relaying.
    Refused,
}

impl Stage {
    /// Whether the copy task of the given direction runs.
    pub open spec fn runs(self, direction: Direction) -> bool {
        self == Stage::Relaying || self == Stage::Draining(direction)
    }

    /// Whether the relay is over, one way or the other.
    pub open spec fn over(self) -> bool {
        self == Stage::Released || self == Stage::Refused
    }
}

/// What the driver reports to a relay.
#[derive(Clone, Copy, Debug, PartialEq, Eq, Structural)]
pub enum Event {
    /// The destination accepted the connection.
    Dialed,
    /// The destination could not be reached.
    DialFailed,
    /// The copy task of this direction is over, for whatever reason.
    Finished(Direction),
}

/// What a relay asks of the driver.
#[derive(Clone, Copy, Debug, PartialEq, Eq, Structural)]
pub enum Action {
    /// Dial the destination, once.
    Dial,
    /// Start the two copy tasks, to run at the same time.
    Start,
    /// Report the failed dial and close the client.
    CloseClient,
    /// Keep both sockets: one copy task still uses them.
    Wait,
    /// Release both sockets.
    Release,
    /// The event came too early or too late and was ignored.
    Nothing,
}

/// The stage and the action that follow from a stage and an event.
pub open spec fn transition(s: Stage, e: Event) -> (Stage, Action) {
    match (s, e) {
        (Stage::Dialing, Event::Dialed) => (Stage::Relaying, Action::Start),
        (Stage::Dialing, Event::DialFailed) => (Stage::Refused, Action::CloseClient),
        (Stage::Relaying, Event::Finished(d)) => (Stage::Draining(d.reverse()), Action::Wait),
        (Stage::Draining(running), Event::Finished(d)) => if d == running {
            (Stage::Released, Action::Release)
        } else {
            (s, Action::Nothing)
        },
        _ => (s, Action::Nothing),
    }
}

/// The stage reached from `s` when the events of `trace` arrive in order.
pub open spec fn run_from(s: Stage, trace: Seq<Event>) -> Stage
    decreases trace.len(),
{
    if trace.len() == 0 {
        s
    } else {
        transition(run_from(s, trace.drop_last()), trace.last()).0
    }
}

/// The stage of a relay that was started and then saw `trace`.
pub open spec fn run(trace: Seq<Event>) -> Stage {
    run_from(Stage::Dialing, trace)
}

/// How many times the relay answers with `action` along `trace`.
pub open spec fn requests_from(s: Stage, trace: Seq<Event>, action: Action) -> nat
    decreases trace.len(),
{
    if trace.len() == 0 {
        0
    } else {
        let before = requests_from(s, trace.drop_last(), action);
        if transition(run_from(s, trace.drop_last()), trace.last()).1 == action {
            before + 1
        } else {
            before
        }
    }
}

/// The relay of one accepted client.
pub struct Relay {
    stage: Stage,
}

impl View for Relay {
    type V = Stage;

    closed spec fn view(&self) -> Stage {
        self.stage
    }
}

impl Relay {
    /// The relay of a client that was just accepted, and its first request:
    /// to dial the destination.
    pub fn start() -> (r: (Relay, Action))
        ensures
            r.0@ == Stage::Dialing,
            r.1 == Action::Dial,
    {
        (Relay { stage: Stage::Dialing }, Action::Dial)
    }

    /// Takes in what the driver reports and answers with the next request.
    pub fn step(&mut self, event: Event) -> (action: Action)
        ensures
            final(self)@ == transition(old(self)@, event).0,
            action == transition(old(self)@, event).1,
    {
        match self.stage {
            Stage::Dialing => match event {
                Event::Dialed => {
                    self.stage = Stage::Relaying;
                    Action::Start
                },
                Event::DialFailed => {
                    self.stage = Stage::Refused;
                    Action::CloseClient
                },
                Event::Finished(_) => Action::Nothing,
            },
            Stage::Relaying => match event {
                Event::Finished(d) => {
                    self.stage = Stage::Draining(d.opposite());
                    Action::Wait
                },
                _ => Action::Nothing,
            },
            Stage::Draining(running) => match event {
                Event::Finished(d) => {
                    if d == running {
                        self.stage = Stage::Released;
                        Action::Release
                    } else {
                        Action::Nothing
                    }
                },
                _ => Action::Nothing,
            },
            Stage::Released => Action::Nothing,
            Stage::Refused => Action::Nothing,
        }
    }

    /// Where the relay stands.
    pub fn stage(&self) -> (stage: Stage)
        ensures
            stage == self@,
    {
        self.stage
    }

    /// Whether the copy task of the given direction runs.
    pub fn runs(&self, direction: Direction) -> (runs: bool)
        ensures
            runs == self@.runs(direction),
    {
        match self.stage {
            Stage::Relaying => true,
            Stage::Draining(running) => running == direction,
            _ => false,
        }
    }
}

/// One dial and no retry: no answer of a relay asks for a dial, and a relay
/// that has left the dialling stage never returns to it.
pub proof fn dials_once(s: Stage, trace: Seq<Event>)
    ensures
        requests_from(s, trace, Action::Dial) == 0,
        s != Stage::Dialing ==> run_from(s, trace) != Stage::Dialing,
    decreases trace.len(),
{
    if trace.len() > 0 {
        dials_once(s, trace.drop_last());
    }
}

/// A failed dial ends the relay at once: the client is closed, and no event
/// that follows starts a copy task or dials again.
pub proof fn failed_dial_is_final(trace: Seq<Event>)
    ensures
        transition(Stage::Dialing, Event::DialFailed) == (Stage::Refused, Action::CloseClient),
        run_from(Stage::Refused, trace) == Stage::Refused,
        forall|action: Action|
            action != Action::Nothing ==> #[trigger] requests_from(Stage::Refused, trace, action)
                == 0,
    decreases trace.len(),
{
    if trace.len() > 0 {
        failed_dial_is_final(trace.drop_last());
    }
    assert forall|action: Action| action != Action::Nothing implies #[trigger] requests_from(
        Stage::Refused,
        trace,
        action,
    ) == 0 by {
        if trace.len() > 0 {
            assert(requests_from(Stage::Refused, trace.drop_last(), action) == 0);
        }
    }
}

/// The sockets are released only once both copy tasks are over: the step that
/// asks for the release is the report of the last running task, and after
/// it no task runs.
pub proof fn releases_after_both(s: Stage, e: Event)
    ensures
        transition(s, e).1 == Action::Release <==> (exists|d: Direction|
            s == Stage::Draining(d) && e == Event::Finished(d)),
        transition(s, e).1 == Action::Release ==> transition(s, e).0 == Stage::Released,
        forall|d: Direction|
            s.runs(d) && e != Event::Finished(d) ==> #[trigger] transition(s, e).0.runs(d),
{
    if transition(s, e).1 == Action::Release {
        match s {
            Stage::Draining(d) => {
                assert(s == Stage::Draining(d) && e == Event::Finished(d));
            },
            _ => {},
        }
    }
}

/// What a stage tells of the events that led to it: tasks run only after the
/// dial succeeded, one task is taken for over only after its report, and the
/// sockets are released only after the reports of both.
pub proof fn stage_tells_what_happened(trace: Seq<Event>)
    ensures
        run(trace) == Stage::Refused ==> trace.contains(Event::DialFailed),
        run(trace) != Stage::Dialing && run(trace) != Stage::Refused ==> trace.contains(
            Event::Dialed,
        ),
        forall|d: Direction|
            #![trigger d.reverse()]
            run(trace) == Stage::Draining(d) ==> trace.contains(Event::Finished(d.reverse())),
        run(trace) == Stage::Released ==> trace.contains(Event::Finished(Direction::Upstream))
            && trace.contains(Event::Finished(Direction::Downstream)),
    decreases trace.len(),
{
    if trace.len() > 0 {
        let head = trace.drop_last();
        stage_tells_what_happened(head);
        assert(trace[trace.len() - 1] == trace.last());
        assert forall|e: Event| head.contains(e) implies trace.contains(e) by {
            let i = choose|i: int| 0 <= i < head.len() && head[i] == e;
            assert(trace[i] == e);
        }
        match run(head) {
            Stage::Draining(running) => {
                assert(head.contains(Event::Finished(running.reverse())));
            },
            _ => {},
        }
    }
}

/// Teardown is idempotent. A relay that is over ignores every further
/// event, so a report that arrives twice, or both reports at once, closes
/// nothing a second time; and along any run of a new relay the copy tasks
/// are started at most once, the sockets are released at most once, the
/// client is closed on a failed dial at most once, and never both.
pub proof fn teardown_is_idempotent(trace: Seq<Event>)
    ensures
        requests_from(Stage::Dialing, trace, Action::Start) == (if run(trace) == Stage::Dialing
            || run(trace) == Stage::Refused {
            0nat
        } else {
            1nat
        }),
        requests_from(Stage::Dialing, trace, Action::Release) == (if run(trace)
            == Stage::Released {
            1nat
        } else {
            0nat
        }),
        requests_from(Stage::Dialing, trace, Action::CloseClient) == (if run(trace)
            == Stage::Refused {
            1nat
        } else {
            0nat
        }),
        forall|e: Event|
            run(trace).over() ==> #[trigger] transition(run(trace), e) == (
                run(trace),
                Action::Nothing,
            ),
    decreases trace.len(),
{
    if trace.len() > 0 {
        teardown_is_idempotent(trace.drop_last());
    }
}

} // verus!
