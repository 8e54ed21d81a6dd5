//! The forwarder as a whole: an acceptor and one connection pair for every
//! client that it admitted, each pair being a relay and its two copy tasks.
//!
//! Nothing here runs. The drivers of the machines share no state, and this
//! module says what that comes to: every machine goes through the states that
//! it would go through alone, whatever the others do or suffer.
use crate::acceptor;
use crate::copy;
use crate::copy::CopyTaskView;
use crate::relay;
use crate::relay::Direction;
use vstd::prelude::*;

verus! {

/// A connection pair: the relay of one client and its two copy tasks.
pub struct PairView {
    pub relay: relay::Stage,
    pub upstream: CopyTaskView,
    pub downstream: CopyTaskView,
}

/// What happens to a connection pair.
pub enum PairEvent {
    /// The destination accepted the connection.
    Dialed,
    /// The destination could not be reached.
    DialFailed,
    /// The driver of the copy task of this direction reports this event.
    Task(Direction, copy::Event),
}

impl PairView {
    /// The pair of a client that was just accepted.
    pub open spec fn accepted() -> PairView {
        PairView {
            relay: relay::Stage::Dialing,
            upstream: CopyTaskView::initial(),
            downstream: CopyTaskView::initial(),
        }
    }

    /// The pair of a client whose destination was just reached.
    pub open spec fn relaying() -> PairView {
        PairView {
            relay: relay::Stage::Relaying,
            upstream: CopyTaskView::initial(),
            downstream: CopyTaskView::initial(),
        }
    }

    /// The copy task of the given direction.
    pub open spec fn task(self, direction: Direction) -> CopyTaskView {
        match direction {
            Direction::Upstream => self.upstream,
            Direction::Downstream => self.downstream,
        }
    }

    /// The same pair with another relay stage and another task in the given direction.
    pub open spec fn with(
        self,
        stage: relay::Stage,
        direction: Direction,
        task: CopyTaskView,
    ) -> PairView {
        match direction {
            Direction::Upstream => PairView {
                relay: stage,
                upstream: task,
                downstream: self.downstream,
            },
            Direction::Downstream => PairView {
                relay: stage,
                upstream: self.upstream,
                downstream: task,
            },
        }
    }

    /// The relay takes a task for running exactly as long as the task is not
    /// over, and before the dial has succeeded no task has begun.
    pub open spec fn wf(self) -> bool {
        &&& self.upstream.wf()
        &&& self.downstream.wf()
        &&& match self.relay {
            relay::Stage::Dialing | relay::Stage::Refused => self.upstream
                == CopyTaskView::initial() && self.downstream == CopyTaskView::initial(),
            _ => {
                &&& self.relay.runs(Direction::Upstream) <==> !(self.upstream.phase is Finished)
                &&& self.relay.runs(Direction::Downstream) <==> !(self.downstream.phase
                    is Finished)
            },
        }
    }
}

/// The pair after one event. The report of a copy task reaches that task
/// alone, and only while the relay takes it for running; when it ends the
/// task, the relay is told so.
pub open spec fn pair_step(p: PairView, e: PairEvent) -> PairView {
    match e {
        PairEvent::Dialed => PairView {
            relay: relay::transition(p.relay, relay::Event::Dialed).0,
            upstream: p.upstream,
            downstream: p.downstream,
        },
        PairEvent::DialFailed => PairView {
            relay: relay::transition(p.relay, relay::Event::DialFailed).0,
            upstream: p.upstream,
            downstream: p.downstream,
        },
        PairEvent::Task(d, event) => if p.relay.runs(d) {
            let task = copy::transition(p.task(d), event).0;
            let stage = if task.phase is Finished {
                relay::transition(p.relay, relay::Event::Finished(d)).0
            } else {
                p.relay
            };
            p.with(stage, d, task)
        } else {
            p
        },
    }
}

/// The pair reached from `p` when the events of `trace` arrive in order.
pub open spec fn pair_run(p: PairView, trace: Seq<PairEvent>) -> PairView
    decreases trace.len(),
{
    if trace.len() == 0 {
        p
    } else {
        pair_step(pair_run(p, trace.drop_last()), trace.last())
    }
}

/// The reports of the copy task of one direction among the events of a pair, in order.
pub open spec fn reports_of(trace: Seq<PairEvent>, direction: Direction) -> Seq<copy::Event>
    decreases trace.len(),
{
    if trace.len() == 0 {
        Seq::empty()
    } else {
        let before = reports_of(trace.drop_last(), direction);
        match trace.last() {
            PairEvent::Task(d, event) => if d == direction {
                before.push(event)
            } else {
                before
            },
            _ => before,
        }
    }
}

/// A step keeps a well-formed pair well-formed, and a pair whose destination
/// was reached stays so.
pub proof fn pair_step_keeps_wf(p: PairView, e: PairEvent)
    requires
        p.wf(),
    ensures
        pair_step(p, e).wf(),
        p.relay != relay::Stage::Dialing ==> pair_step(p, e).relay != relay::Stage::Dialing,
        p.relay != relay::Stage::Dialing && p.relay != relay::Stage::Refused ==> pair_step(
            p,
            e,
        ).relay != relay::Stage::Refused,
{
    match e {
        PairEvent::Task(d, event) => {
            copy::transition_keeps_wf(p.task(d), event);
        },
        _ => {},
    }
}

/// One report reaches one task: the task of the other direction is where it
/// was, whatever was reported and whether or not it ended the first task.
pub proof fn report_leaves_other_direction(p: PairView, d: Direction, event: copy::Event)
    ensures
        pair_step(p, PairEvent::Task(d, event)).task(d.reverse()) == p.task(d.reverse()),
{
}

/// The two directions are independent. Once the destination is reached,
/// and however the reports of the two copy tasks interleave, each task is in
/// the state that its own reports alone lead to: what one direction has
/// delivered does not depend on whether the other is idle, in the middle of
/// a write, failed or over.
pub proof fn directions_are_independent(trace: Seq<PairEvent>, d: Direction)
    ensures
        pair_run(PairView::relaying(), trace).wf(),
        pair_run(PairView::relaying(), trace).relay != relay::Stage::Dialing,
        pair_run(PairView::relaying(), trace).relay != relay::Stage::Refused,
        pair_run(PairView::relaying(), trace).task(d) == copy::run(reports_of(trace, d)),
    decreases trace.len(),
{
    let start = PairView::relaying();
    if trace.len() > 0 {
        let head = trace.drop_last();
        let mid = pair_run(start, head);
        directions_are_independent(head, d);
        pair_step_keeps_wf(mid, trace.last());
        match trace.last() {
            PairEvent::Task(x, event) => {
                if x == d {
                    let reports = reports_of(head, d);
                    assert(reports.push(event).drop_last() =~= reports);
                    assert(reports.push(event).last() == event);
                }
            },
            _ => {},
        }
    }
}

/// The sockets of a pair are released when both of its copy tasks are over,
/// and not before: while a task is not over, the relay takes it for running.
pub proof fn released_when_both_tasks_are_over(trace: Seq<PairEvent>)
    ensures
        pair_run(PairView::relaying(), trace).relay == relay::Stage::Released <==> pair_run(
            PairView::relaying(),
            trace,
        ).upstream.phase is Finished && pair_run(
            PairView::relaying(),
            trace,
        ).downstream.phase is Finished,
        forall|d: Direction|
            pair_run(PairView::relaying(), trace).relay.runs(d) <==> !(#[trigger] pair_run(
                PairView::relaying(),
                trace,
            ).task(d).phase is Finished),
{
    directions_are_independent(trace, Direction::Upstream);
}

/// Each direction is faithful whatever the other does. Once the destination
/// is reached, and however the reports interleave, the bytes that the sink
/// of one direction has taken are a prefix of the bytes that its source has
/// yielded, the rest being what that direction's task holds pending; and
/// when that task waits for its source, or has stopped at the end of its
/// stream, its sink has taken them all.
pub proof fn each_direction_is_faithful(trace: Seq<PairEvent>, d: Direction)
    ensures
        copy::received(reports_of(trace, d)) == copy::delivered(reports_of(trace, d)) + pair_run(
            PairView::relaying(),
            trace,
        ).task(d).pending,
        pair_run(PairView::relaying(), trace).task(d).phase == copy::Phase::Reading || pair_run(
            PairView::relaying(),
            trace,
        ).task(d).stop() == Some(copy::Stop::EndOfStream) ==> copy::delivered(
            reports_of(trace, d),
        ) == copy::received(reports_of(trace, d)),
{
    directions_are_independent(trace, d);
    copy::byte_fidelity(reports_of(trace, d));
}

/// End of stream crosses the pair, in either direction. When the source of
/// a running direction ends, that direction's task asks for the shutdown of
/// its sink, so that the peer behind the sink observes the end; the other
/// direction is where it was and still runs if it ran.
pub proof fn end_of_stream_crosses_the_pair(p: PairView, d: Direction, chunk: Vec<u8>)
    requires
        p.wf(),
        p.relay.runs(d),
        p.task(d).phase == copy::Phase::Reading,
        chunk@.len() == 0,
    ensures
        p.task(d).pending.len() == 0,
        copy::transition(p.task(d), copy::Event::Read(chunk)).1 == copy::Action::Shutdown,
        pair_step(p, PairEvent::Task(d, copy::Event::Read(chunk))).task(d).phase
            == copy::Phase::Closing(copy::Stop::EndOfStream),
        pair_step(p, PairEvent::Task(d, copy::Event::Read(chunk))).task(d.reverse()) == p.task(
            d.reverse(),
        ),
        pair_step(p, PairEvent::Task(d, copy::Event::Read(chunk))).relay == p.relay,
{
}

/// The forwarder: its acceptor, and the pair of every client admitted so far,
/// numbered in the order of admission.
pub struct ForwarderView {
    pub acceptor: acceptor::Stage,
    pub pairs: Map<nat, PairView>,
    pub admitted: nat,
}

/// What happens to the forwarder.
pub enum ForwarderEvent {
    /// The driver of the acceptor reports this event.
    Acceptor(acceptor::Event),
    /// This happens to the pair of this number.
    Pair(nat, PairEvent),
}

impl ForwarderView {
    /// The forwarder of a process that has read its command line.
    pub open spec fn initial() -> ForwarderView {
        ForwarderView { acceptor: acceptor::Stage::Binding, pairs: Map::empty(), admitted: 0 }
    }

    /// The pairs are those of the clients admitted so far.
    pub open spec fn wf(self) -> bool {
        forall|id: nat| self.pairs.dom().contains(id) <==> id < self.admitted
    }
}

/// The forwarder after one event. A client that the acceptor dispatches gets
/// a pair of its own; an event of a pair reaches that pair alone.
pub open spec fn forwarder_step(s: ForwarderView, e: ForwarderEvent) -> ForwarderView {
    match e {
        ForwarderEvent::Acceptor(event) => {
            let (stage, action) = acceptor::transition(s.acceptor, event);
            if action == acceptor::Action::Dispatch {
                ForwarderView {
                    acceptor: stage,
                    pairs: s.pairs.insert(s.admitted, PairView::accepted()),
                    admitted: s.admitted + 1,
                }
            } else {
                ForwarderView { acceptor: stage, pairs: s.pairs, admitted: s.admitted }
            }
        },
        ForwarderEvent::Pair(id, event) => if s.pairs.dom().contains(id) {
            ForwarderView {
                acceptor: s.acceptor,
                pairs: s.pairs.insert(id, pair_step(s.pairs[id], event)),
                admitted: s.admitted,
            }
        } else {
            s
        },
    }
}

/// The forwarder reached from `s` when the events of `trace` arrive in order.
pub open spec fn forwarder_run(s: ForwarderView, trace: Seq<ForwarderEvent>) -> ForwarderView
    decreases trace.len(),
{
    if trace.len() == 0 {
        s
    } else {
        forwarder_step(forwarder_run(s, trace.drop_last()), trace.last())
    }
}

/// The events of one pair among the events of the forwarder, in order.
pub open spec fn events_of_pair(trace: Seq<ForwarderEvent>, id: nat) -> Seq<PairEvent>
    decreases trace.len(),
{
    if trace.len() == 0 {
        Seq::empty()
    } else {
        let before = events_of_pair(trace.drop_last(), id);
        match trace.last() {
            ForwarderEvent::Pair(i, event) => if i == id {
                before.push(event)
            } else {
                before
            },
            _ => before,
        }
    }
}

/// The reports of the acceptor's driver among the events of the forwarder, in order.
pub open spec fn events_of_acceptor(trace: Seq<ForwarderEvent>) -> Seq<acceptor::Event>
    decreases trace.len(),
{
    if trace.len() == 0 {
        Seq::empty()
    } else {
        let before = events_of_acceptor(trace.drop_last());
        match trace.last() {
            ForwarderEvent::Acceptor(event) => before.push(event),
            _ => before,
        }
    }
}

/// Isolation. A pair that exists goes through the states that its own events
/// alone lead to: no failed dial, failed read or write, or anything else that
/// happens to another pair or to the acceptor changes it.
pub proof fn pairs_are_isolated(s: ForwarderView, trace: Seq<ForwarderEvent>, id: nat)
    requires
        s.wf(),
        s.pairs.dom().contains(id),
    ensures
        forwarder_run(s, trace).wf(),
        forwarder_run(s, trace).admitted >= s.admitted,
        forwarder_run(s, trace).pairs.dom().contains(id),
        forwarder_run(s, trace).pairs[id] == pair_run(s.pairs[id], events_of_pair(trace, id)),
    decreases trace.len(),
{
    if trace.len() > 0 {
        let head = trace.drop_last();
        pairs_are_isolated(s, head, id);
        match trace.last() {
            ForwarderEvent::Pair(i, event) => {
                if i == id {
                    let events = events_of_pair(head, id);
                    assert(events.push(event).drop_last() =~= events);
                    assert(events.push(event).last() == event);
                }
            },
            _ => {},
        }
    }
}

/// One event of one pair leaves every other pair, and the acceptor, as they were.
pub proof fn pair_event_touches_one_pair(s: ForwarderView, id: nat, event: PairEvent, other: nat)
    requires
        other != id,
    ensures
        forwarder_step(s, ForwarderEvent::Pair(id, event)).acceptor == s.acceptor,
        forwarder_step(s, ForwarderEvent::Pair(id, event)).admitted == s.admitted,
        forwarder_step(s, ForwarderEvent::Pair(id, event)).pairs.dom() =~= s.pairs.dom(),
        s.pairs.dom().contains(other) ==> forwarder_step(
            s,
            ForwarderEvent::Pair(id, event),
        ).pairs[other] == s.pairs[other],
{
}

/// The acceptor goes through the stages that its own events alone lead to,
/// whatever happens to the pairs.
pub proof fn acceptor_is_isolated(s: ForwarderView, trace: Seq<ForwarderEvent>)
    ensures
        forwarder_run(s, trace).acceptor == acceptor::run_from(
            s.acceptor,
            events_of_acceptor(trace),
        ),
    decreases trace.len(),
{
    if trace.len() > 0 {
        let head = trace.drop_last();
        acceptor_is_isolated(s, head);
        match trace.last() {
            ForwarderEvent::Acceptor(event) => {
                let events = events_of_acceptor(head);
                assert(events.push(event).drop_last() =~= events);
                assert(events.push(event).last() == event);
            },
            _ => {},
        }
    }
}

/// The acceptor outlives its relays. While nothing asks a listening acceptor
/// to stop, no event of any pair, be it a failed dial or a failed read or
/// write, and no failed accept keeps it from admitting the next client, who
/// gets a pair of its own.
pub proof fn acceptor_outlives_relays(s: ForwarderView, trace: Seq<ForwarderEvent>)
    requires
        s.wf(),
        s.acceptor == acceptor::Stage::Listening,
        forall|i: int|
            0 <= i < trace.len() ==> !(#[trigger] trace[i] matches ForwarderEvent::Acceptor(event)
                && acceptor::stops(event)),
    ensures
        forwarder_run(s, trace).wf(),
        forwarder_run(s, trace).acceptor == acceptor::Stage::Listening,
        forwarder_step(
            forwarder_run(s, trace),
            ForwarderEvent::Acceptor(acceptor::Event::Accepted),
        ).acceptor == acceptor::Stage::Listening,
        forwarder_step(
            forwarder_run(s, trace),
            ForwarderEvent::Acceptor(acceptor::Event::Accepted),
        ).pairs.contains_pair(forwarder_run(s, trace).admitted, PairView::accepted()),
        !forwarder_run(s, trace).pairs.dom().contains(forwarder_run(s, trace).admitted),
    decreases trace.len(),
{
    if trace.len() > 0 {
        let head = trace.drop_last();
        assert forall|i: int| 0 <= i < head.len() implies !(#[trigger] head[i] matches
            ForwarderEvent::Acceptor(event) && acceptor::stops(event)) by {
            assert(head[i] == trace[i]);
        }
        acceptor_outlives_relays(s, head);
        assert(trace.last() == trace[trace.len() - 1]);
        forwarder_step_keeps_wf(forwarder_run(s, head), trace.last());
    }
}

/// A step keeps the numbering of the pairs.
pub proof fn forwarder_step_keeps_wf(s: ForwarderView, e: ForwarderEvent)
    requires
        s.wf(),
    ensures
        forwarder_step(s, e).wf(),
{
}

} // verus!
