//! Runs of a session: what holds of every sequence of events that the
//! lifecycle allows.

use crate::log::{FaultView, LogDataView, PacketView};
use crate::net_state::NetState;
use crate::session::{EventView, Outcome, SessionModel};
use vstd::prelude::*;

verus! {

/// The session after the events, taken in order.
pub open spec fn run(start: SessionModel, events: Seq<EventView>) -> SessionModel
    decreases events.len(),
{
    if events.len() == 0 {
        start
    } else {
        run(start.next(events[0]), events.drop_first())
    }
}

/// Whether each event is enabled where it happens.
pub open spec fn legal(start: SessionModel, events: Seq<EventView>) -> bool
    decreases events.len(),
{
    events.len() == 0 || (start.enabled(events[0]) && legal(
        start.next(events[0]),
        events.drop_first(),
    ))
}

/// The entries that the events send to the connection's own log, in order.
pub open spec fn logged(start: SessionModel, events: Seq<EventView>) -> Seq<LogDataView>
    decreases events.len(),
{
    if events.len() == 0 {
        Seq::empty()
    } else {
        let rest = logged(start.next(events[0]), events.drop_first());
        match start.outcome(events[0]).local {
            Some(entry) => seq![entry] + rest,
            None => rest,
        }
    }
}

/// The entries that the events send to the listener's log, in order.
pub open spec fn reported(start: SessionModel, events: Seq<EventView>) -> Seq<LogDataView>
    decreases events.len(),
{
    if events.len() == 0 {
        Seq::empty()
    } else {
        let rest = reported(start.next(events[0]), events.drop_first());
        match start.outcome(events[0]).parent {
            Some(entry) => seq![entry] + rest,
            None => rest,
        }
    }
}

/// Whether the event starts a session.
pub open spec fn is_start(event: EventView) -> bool {
    event is StartClient || event is Adopt
}

/// How many of the entries report a disconnect.
pub open spec fn disconnects(entries: Seq<LogDataView>) -> nat
    decreases entries.len(),
{
    if entries.len() == 0 {
        0
    } else {
        let rest = disconnects(entries.drop_first());
        if entries[0] is ClientDisconnect {
            rest + 1
        } else {
            rest
        }
    }
}

/// The payloads of the received packets among the entries, one after the
/// other.
pub open spec fn received_bytes(entries: Seq<LogDataView>) -> Seq<u8>
    decreases entries.len(),
{
    if entries.len() == 0 {
        Seq::empty()
    } else {
        let rest = received_bytes(entries.drop_first());
        match entries[0] {
            LogDataView::ReceivedPacket(packet) => packet.data + rest,
            _ => rest,
        }
    }
}

/// The chunks, one after the other.
pub open spec fn joined(chunks: Seq<Seq<u8>>) -> Seq<u8>
    decreases chunks.len(),
{
    if chunks.len() == 0 {
        Seq::empty()
    } else {
        chunks[0] + joined(chunks.drop_first())
    }
}

/// One read event for each chunk.
pub open spec fn reads(chunks: Seq<Seq<u8>>) -> Seq<EventView> {
    Seq::new(chunks.len(), |i: int| EventView::ReaderRead(chunks[i]))
}

/// One step of the lifecycle follows an edge of it or stays where it is:
/// `Inactive → Establishing → Active → Inactive`, or
/// `Inactive → Establishing → Inactive`. The one step that this leaves out
/// is the adoption of an accepted stream, which has no connect phase.
pub proof fn step_follows_lifecycle(session: SessionModel, event: EventView)
    requires
        session.enabled(event),
        !(event is Adopt),
    ensures
        session.next(event).state == session.state || session.state.steps_to(
            session.next(event).state,
        ),
{
}

/// Adopting an accepted stream takes an inactive session straight to
/// `Active`.
pub proof fn adoption_activates(session: SessionModel, event: EventView)
    requires
        session.enabled(event),
        event is Adopt,
    ensures
        session.state == NetState::Inactive,
        session.next(event).state == NetState::Active,
{
}

/// Running one more event is one more step.
pub proof fn run_then_step(start: SessionModel, events: Seq<EventView>, event: EventView)
    ensures
        run(start, events.push(event)) == run(start, events).next(event),
        legal(start, events.push(event)) == (legal(start, events) && run(start, events).enabled(
            event,
        )),
    decreases events.len(),
{
    let longer = events.push(event);
    if events.len() == 0 {
        assert(longer[0] == event);
        assert(longer.drop_first() =~= Seq::<EventView>::empty());
        assert(run(start.next(event), longer.drop_first()) == start.next(event));
        assert(legal(start.next(event), longer.drop_first()));
    } else {
        assert(longer[0] == events[0]);
        assert(longer.drop_first() =~= events.drop_first().push(event));
        run_then_step(start.next(events[0]), events.drop_first(), event);
    }
}

/// The start of a legal run is legal, and the event that follows it is
/// enabled.
pub proof fn legal_prefix(start: SessionModel, events: Seq<EventView>, at: int)
    requires
        legal(start, events),
        0 <= at <= events.len(),
    ensures
        legal(start, events.take(at)),
        at < events.len() ==> run(start, events.take(at)).enabled(events[at]),
        at < events.len() ==> run(start, events.take(at + 1)) == run(start, events.take(at)).next(
            events[at],
        ),
    decreases events.len() - at,
{
    if at == events.len() {
        assert(events.take(at) =~= events);
    } else {
        legal_prefix(start, events, at + 1);
        assert(events.take(at + 1) =~= events.take(at).push(events[at]));
        run_then_step(start, events.take(at), events[at]);
    }
}

/// Along every legal run the state moves only along the edges of the
/// lifecycle: the states before and after the event at `at` are the same, or
/// the lifecycle has an edge from the first to the second. Adoptions are
/// left out, as in [`step_follows_lifecycle`].
pub proof fn run_follows_lifecycle(start: SessionModel, events: Seq<EventView>, at: int)
    requires
        legal(start, events),
        0 <= at < events.len(),
        !(events[at] is Adopt),
    ensures
        ({
            let before = run(start, events.take(at)).state;
            let after = run(start, events.take(at + 1)).state;
            after == before || before.steps_to(after)
        }),
{
    legal_prefix(start, events, at);
    step_follows_lifecycle(run(start, events.take(at)), events[at]);
}

/// A connect attempt that fails or runs out of time leaves the session
/// inactive and logs one entry: a connect error in the first case, a timeout
/// in the second, never both.
pub proof fn failed_connect_logs_once(session: SessionModel, event: EventView)
    requires
        session.enabled(event),
        event is ConnectFailed || event is ConnectTimedOut,
    ensures
        session.next(event).state == NetState::Inactive,
        session.outcome(event).parent is None,
        match session.outcome(event).local {
            Some(entry) => (entry is ConnectError) != (entry is ConnectTimedOut) && (
            entry is ConnectError <==> event is ConnectFailed),
            None => false,
        },
{
}

/// Whatever the sizes of the chunks in which a payload arrives, the
/// received packets that the reader logs hold, one after the other, the
/// bytes that arrived; each read that brought bytes is one such packet from
/// the peer's address, and the session stays as it is.
pub proof fn received_chunks_join(session: SessionModel, chunks: Seq<Seq<u8>>)
    requires
        session.state == NetState::Active,
        session.reader_running,
    ensures
        legal(session, reads(chunks)),
        run(session, reads(chunks)) == session,
        received_bytes(logged(session, reads(chunks))) == joined(chunks),
    decreases chunks.len(),
{
    let events = reads(chunks);
    if chunks.len() > 0 {
        let rest = chunks.drop_first();
        assert(events.drop_first() =~= reads(rest));
        received_chunks_join(session, rest);
        let tail = logged(session, reads(rest));
        if chunks[0].len() == 0 {
            assert(chunks[0] + joined(rest) =~= joined(rest));
        } else {
            let entry = LogDataView::ReceivedPacket(
                PacketView { address: session.address, data: chunks[0] },
            );
            assert((seq![entry] + tail).drop_first() =~= tail);
        }
    }
}

/// Once a session has ended, only a new start can happen to it: no loop
/// reports, and no join.
pub proof fn ended_session_only_starts(session: SessionModel, event: EventView)
    requires
        session.state == NetState::Inactive,
        session.enabled(event),
    ensures
        is_start(event),
{
}

/// A running session logs its disconnect exactly when it ends, and once: in
/// every legal run without a new start, the number of disconnect entries is
/// one if the run has reached `Inactive` and none if it has not.
pub proof fn one_disconnect_per_session(start: SessionModel, events: Seq<EventView>)
    requires
        start.state == NetState::Active,
        legal(start, events),
        forall|i: int| 0 <= i < events.len() ==> !is_start(#[trigger] events[i]),
    ensures
        run(start, events).state == NetState::Active || run(start, events).state
            == NetState::Inactive,
        disconnects(logged(start, events)) == if run(start, events).state == NetState::Inactive {
            1nat
        } else {
            0nat
        },
    decreases events.len(),
{
    if events.len() > 0 {
        let event = events[0];
        let rest = events.drop_first();
        let after = start.next(event);
        let tail = logged(after, rest);
        assert(!is_start(event));
        assert forall|i: int| 0 <= i < rest.len() implies !is_start(#[trigger] rest[i]) by {
            assert(rest[i] == events[i + 1]);
        }
        assert(start.enabled(event) && legal(after, rest));
        if event is Joined {
            if rest.len() > 0 {
                assert(after.enabled(rest[0]));
                ended_session_only_starts(after, rest[0]);
                assert(rest[0] == events[1]);
            }
            assert(run(after, rest) == after);
            assert(tail =~= Seq::<LogDataView>::empty());
            let entry = LogDataView::ClientDisconnect(start.address);
            assert(logged(start, events) =~= seq![entry]);
            assert(seq![entry].drop_first() =~= Seq::<LogDataView>::empty());
            assert(disconnects(seq![entry].drop_first()) == 0);
        } else {
            one_disconnect_per_session(after, rest);
            match start.outcome(event).local {
                Some(entry) => {
                    assert(!(entry is ClientDisconnect));
                    assert((seq![entry] + tail).drop_first() =~= tail);
                },
                None => {},
            }
        }
    } else {
        assert(logged(start, events) =~= Seq::<LogDataView>::empty());
    }
}

/// A session reports to the listener's log only its end, and only where it
/// was adopted with such a log: in every legal run of a running session
/// without a new start, that log gets one disconnect entry if the session
/// has ended and fans out, and nothing else.
pub proof fn parent_hears_only_the_end(start: SessionModel, events: Seq<EventView>)
    requires
        start.state == NetState::Active,
        legal(start, events),
        forall|i: int| 0 <= i < events.len() ==> !is_start(#[trigger] events[i]),
    ensures
        reported(start, events) == if run(start, events).state == NetState::Inactive
            && start.fans_out {
            seq![LogDataView::ClientDisconnect(start.address)]
        } else {
            Seq::empty()
        },
    decreases events.len(),
{
    if events.len() > 0 {
        let event = events[0];
        let rest = events.drop_first();
        let after = start.next(event);
        assert(!is_start(event));
        assert forall|i: int| 0 <= i < rest.len() implies !is_start(#[trigger] rest[i]) by {
            assert(rest[i] == events[i + 1]);
        }
        assert(start.enabled(event) && legal(after, rest));
        if event is Joined {
            if rest.len() > 0 {
                assert(after.enabled(rest[0]));
                ended_session_only_starts(after, rest[0]);
                assert(rest[0] == events[1]);
            }
            assert(run(after, rest) == after);
            assert(reported(after, rest) =~= Seq::<LogDataView>::empty());
            if start.fans_out {
                assert(reported(start, events) =~= seq![
                    LogDataView::ClientDisconnect(start.address),
                ]);
            }
        } else {
            parent_hears_only_the_end(after, rest);
            assert(start.outcome(event).parent is None);
            assert(after.fans_out == start.fans_out && after.address == start.address);
        }
    }
}

/// The three events by which a raised shutdown signal ends a session: the
/// reader sees it, the writer sees it, the two are joined.
pub open spec fn shutdown_run() -> Seq<EventView> {
    seq![EventView::ReaderShutdown(true), EventView::WriterShutdown(true), EventView::Joined]
}

/// A raised shutdown signal ends an active session: when both loops have
/// seen it and are joined, the session is inactive, its signal is lowered
/// again, and its log has gained the one entry of its disconnect. With a
/// listener's log to report to, that log gains the same entry.
pub proof fn shutdown_ends_session(session: SessionModel)
    requires
        session.state == NetState::Active,
        session.reader_running,
        session.writer_running,
    ensures
        legal(session, shutdown_run()),
        run(session, shutdown_run()).state == NetState::Inactive,
        logged(session, shutdown_run()) == seq![LogDataView::ClientDisconnect(session.address)],
        ({
            let at_join = run(session, shutdown_run().take(2));
            &&& at_join.outcome(EventView::Joined).reset_shutdown
            &&& at_join.outcome(EventView::Joined).parent == if session.fans_out {
                Some(LogDataView::ClientDisconnect(session.address))
            } else {
                None
            }
        }),
{
    let events = shutdown_run();
    let first = session.next(events[0]);
    let second = first.next(events[1]);
    let third = second.next(events[2]);
    let tail1 = events.drop_first();
    let tail2 = tail1.drop_first();
    let tail3 = tail2.drop_first();
    assert(tail1[0] == events[1]);
    assert(tail2[0] == events[2]);
    assert(tail3.len() == 0);
    assert(legal(third, tail3));
    assert(legal(second, tail2));
    assert(legal(first, tail1));
    assert(run(third, tail3) == third);
    assert(run(second, tail2) == third);
    assert(run(first, tail1) == third);
    assert(logged(third, tail3) =~= Seq::<LogDataView>::empty());
    assert(logged(second, tail2) =~= seq![LogDataView::ClientDisconnect(session.address)]);
    assert(logged(first, tail1) =~= seq![LogDataView::ClientDisconnect(session.address)]);
    legal_prefix(session, events, 2);
    legal_prefix(session, events, 1);
    legal_prefix(session, events, 0);
    assert(events.take(0) =~= Seq::<EventView>::empty());
    assert(run(session, events.take(2)) == second);
}

/// A listener's raised signal reaches its children: a child whose reader
/// sees it raises its own signal and changes nothing else, so that the
/// child ends as in [`shutdown_ends_session`]. A signal that was only
/// lowered asks for nothing.
pub proof fn listener_signal_cascades(session: SessionModel, raised: bool)
    requires
        session.state == NetState::Active,
        session.reader_running,
    ensures
        session.enabled(EventView::ReaderExternal(raised)),
        session.next(EventView::ReaderExternal(raised)) == session,
        session.outcome(EventView::ReaderExternal(raised)) == if raised {
            Outcome::raising()
        } else {
            Outcome::quiet()
        },
{
}

/// The events by which a listener's raised signal ends one of its children:
/// the child's reader sees the listener's signal, then both loops see the
/// child's own, then the two are joined.
pub open spec fn cascade_run() -> Seq<EventView> {
    seq![EventView::ReaderExternal(true)] + shutdown_run()
}

/// A listener that stops takes its children with it: a child that sees the
/// listener's raised signal raises its own, and when its loops have seen
/// that and are joined, the child is inactive and has logged its one
/// disconnect.
pub proof fn child_ends_on_listener_signal(session: SessionModel)
    requires
        session.state == NetState::Active,
        session.reader_running,
        session.writer_running,
    ensures
        session.outcome(cascade_run()[0]).raise_shutdown,
        legal(session, cascade_run()),
        run(session, cascade_run()).state == NetState::Inactive,
        logged(session, cascade_run()) == seq![LogDataView::ClientDisconnect(session.address)],
{
    let events = cascade_run();
    assert(events.drop_first() =~= shutdown_run());
    listener_signal_cascades(session, true);
    shutdown_ends_session(session);
}

/// A session whose owner is gone ends itself: a writer that finds the send
/// queue closed raises the session's shutdown signal and changes nothing
/// else, so that the session ends as in [`shutdown_ends_session`].
pub proof fn closed_queue_raises(session: SessionModel)
    requires
        session.state == NetState::Active,
        session.writer_running,
    ensures
        session.enabled(EventView::WriterQueueClosed),
        session.next(EventView::WriterQueueClosed) == session,
        session.outcome(EventView::WriterQueueClosed) == Outcome::raising(),
{
}

/// What ends a session from within raises its shutdown signal: a peer that
/// closed (a read of no bytes) and a read error that is not of the
/// interrupted class. An interrupted read asks for nothing and the reader
/// goes on.
pub proof fn reader_raises_on_end(session: SessionModel, fault: FaultView)
    requires
        session.state == NetState::Active,
        session.reader_running,
    ensures
        session.outcome(EventView::ReaderRead(Seq::empty())) == Outcome::raising(),
        session.next(EventView::ReaderRead(Seq::empty())) == session,
        fault.interrupted ==> session.outcome(EventView::ReaderFailed(fault)) == Outcome::quiet()
            && session.next(EventView::ReaderFailed(fault)) == session,
        !fault.interrupted ==> session.outcome(EventView::ReaderFailed(fault)).raise_shutdown
            && session.outcome(EventView::ReaderFailed(fault)).local == Some(
            LogDataView::FatalReadError(fault),
        ) && !session.next(EventView::ReaderFailed(fault)).reader_running,
{
}

} // verus!
