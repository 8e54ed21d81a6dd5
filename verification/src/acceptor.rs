//! The accept loop: bind once, then admit clients until asked to stop. No
//! single failed accept ends it.
use crate::exit::Exit;
use vstd::prelude::*;

verus! {

/// Where the acceptor stands.
#[derive(Clone, Copy, Debug, PartialEq, Eq, Structural)]
pub enum Stage {
    /// The listening socket is being bound.
    Binding,
    /// The listening socket is bound and clients are admitted.
    Listening,
    /// The acceptor is over, and the process ends this way.
    Stopped(Exit),
}

/// What the driver reports to the acceptor.
#[derive(Clone, Copy, Debug, PartialEq, Eq, Structural)]
pub enum Event {
    /// The listening socket was bound.
    Bound,
    /// The listening socket could not be bound.
    BindFailed,
    /// A client was accepted.
    Accepted,
    /// An accept failed.
    AcceptFailed,
    /// The process was asked to shut down.
    ShutdownRequested,
    /// The listening socket yields no further connection.
    ListenerClosed,
}

/// What the acceptor asks of the driver.
#[derive(Clone, Copy, Debug, PartialEq, Eq, Structural)]
pub enum Action {
    /// Bind the listening socket, once.
    Bind,
    /// Announce the forwarder and accept the first client.
    Listen,
    /// Hand the accepted client to a relay of its own, without waiting for
    /// it, and accept the next client.
    Dispatch,
    /// Report the failed accept and accept the next client.
    Report,
    /// Stop accepting and end the process this way.
    Exit(Exit),
    /// The event came too early or too late and was ignored.
    Nothing,
}

/// The stage and the action that follow from a stage and an event.
pub open spec fn transition(s: Stage, e: Event) -> (Stage, Action) {
    match (s, e) {
        (Stage::Binding, Event::Bound) => (Stage::Listening, Action::Listen),
        (Stage::Binding, Event::BindFailed) => (
            Stage::Stopped(Exit::BindFailed),
            Action::Exit(Exit::BindFailed),
        ),
        (Stage::Listening, Event::Accepted) => (Stage::Listening, Action::Dispatch),
        (Stage::Listening, Event::AcceptFailed) => (Stage::Listening, Action::Report),
        (Stage::Binding, Event::ShutdownRequested)
        | (Stage::Listening, Event::ShutdownRequested)
        | (Stage::Listening, Event::ListenerClosed) => (
            Stage::Stopped(Exit::Graceful),
            Action::Exit(Exit::Graceful),
        ),
        _ => (s, Action::Nothing),
    }
}

/// The stage reached from `s` when the events of `trace` arrive in order.
pub open spec fn run_from(s: Stage, trace: Seq<Event>) -> Stage
    decreases trace.len(),
{
    if trace.len() == 0 {
        s
    } else {
        transition(run_from(s, trace.drop_last()), trace.last()).0
    }
}

/// Whether the event stops an acceptor that listens.
pub open spec fn stops(e: Event) -> bool {
    e == Event::ShutdownRequested || e == Event::ListenerClosed
}

/// The accept loop of the process.
pub struct Acceptor {
    stage: Stage,
}

impl View for Acceptor {
    type V = Stage;

    closed spec fn view(&self) -> Stage {
        self.stage
    }
}

impl Acceptor {
    /// The acceptor of a process that has read its command line, and its
    /// first request: to bind the listening socket.
    pub fn start() -> (r: (Acceptor, Action))
        ensures
            r.0@ == Stage::Binding,
            r.1 == Action::Bind,
    {
        (Acceptor { stage: Stage::Binding }, Action::Bind)
    }

    /// Takes in what the driver reports and answers with the next request.
    pub fn step(&mut self, event: Event) -> (action: Action)
        ensures
            final(self)@ == transition(old(self)@, event).0,
            action == transition(old(self)@, event).1,
    {
        match self.stage {
            Stage::Binding => match event {
                Event::Bound => {
                    self.stage = Stage::Listening;
                    Action::Listen
                },
                Event::BindFailed => {
                    self.stage = Stage::Stopped(Exit::BindFailed);
                    Action::Exit(Exit::BindFailed)
                },
                Event::ShutdownRequested => {
                    self.stage = Stage::Stopped(Exit::Graceful);
                    Action::Exit(Exit::Graceful)
                },
                _ => Action::Nothing,
            },
            Stage::Listening => match event {
                Event::Accepted => Action::Dispatch,
                Event::AcceptFailed => Action::Report,
                Event::ShutdownRequested | Event::ListenerClosed => {
                    self.stage = Stage::Stopped(Exit::Graceful);
                    Action::Exit(Exit::Graceful)
                },
                _ => Action::Nothing,
            },
            Stage::Stopped(_) => Action::Nothing,
        }
    }

    /// Where the acceptor stands.
    pub fn stage(&self) -> (stage: Stage)
        ensures
            stage == self@,
    {
        self.stage
    }
}

/// No accept, failed or not, ends the accept loop: an acceptor that listens
/// still listens after any run of events among which nothing asks it to stop,
/// and then admits the next client.
pub proof fn keeps_listening(trace: Seq<Event>)
    requires
        forall|i: int| 0 <= i < trace.len() ==> !stops(#[trigger] trace[i]),
    ensures
        run_from(Stage::Listening, trace) == Stage::Listening,
        transition(run_from(Stage::Listening, trace), Event::Accepted) == (
            Stage::Listening,
            Action::Dispatch,
        ),
    decreases trace.len(),
{
    if trace.len() > 0 {
        keeps_listening(trace.drop_last());
    }
}

/// The listening socket is bound at startup and never again: no answer of
/// the acceptor asks for a bind, and an acceptor that has stopped stays
/// stopped, with the same ending.
pub proof fn binds_once(s: Stage, e: Event)
    ensures
        transition(s, e).1 != Action::Bind,
        s is Stopped ==> transition(s, e) == (s, Action::Nothing),
        transition(s, e).0 == Stage::Binding ==> s == Stage::Binding,
{
}

/// A socket that cannot be bound is fatal, with a status other than zero;
/// a shutdown that was asked for ends the process with status zero.
pub proof fn exit_statuses(s: Stage, e: Event)
    ensures
        transition(Stage::Binding, Event::BindFailed).1 == Action::Exit(Exit::BindFailed),
        Exit::BindFailed.status() != 0,
        transition(s, e).1 matches Action::Exit(exit) ==> transition(s, e).0 == Stage::Stopped(
            exit,
        ),
        transition(s, e).1 == Action::Exit(Exit::Graceful) ==> Exit::Graceful.status() == 0
            && (e == Event::ShutdownRequested || e == Event::ListenerClosed),
{
}

} // verus!
