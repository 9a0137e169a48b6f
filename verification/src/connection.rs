//! The owner's handle on one connection.
//!
//! A [`Connection`] is what a driver holds: it starts a session, queues bytes
//! for it, asks it to stop, and polls its state and its log. The session
//! itself runs on a background task, to which a start hands a
//! [`SessionLink`].

use crate::bus::{extends, LogBus, ShutdownSignal};
use crate::channels::{publish, send_queue, share, subscribe, QUEUE_CAPACITY};
use crate::log::{kinds, DataPacket, Log, LogDataView, PacketView};
use crate::net_state::{AtomicNetState, NetState};
use crate::session::{EventView, Session, SessionEvent, SessionModel};
use std::sync::Arc;
use tokio::sync::{broadcast, mpsc, watch};
use vstd::prelude::*;

verus! {

/// A send that found no session to take the packet. It gives the packet
/// back.
#[derive(Debug)]
pub struct SendError {
    pub packet: DataPacket,
}

impl SendError {
    pub fn message(&self) -> (text: &'static str)
        ensures
            text@ == "no active session is receiving"@,
    {
        "no active session is receiving"
    }
}

/// What a background task needs to run one session: the session, the entry
/// to log before its loops start, and its ends of the channels that it
/// shares with the owner.
pub struct SessionLink {
    pub session: Session,
    /// The entry that reports an adopted stream as connected.
    pub greeting: Option<Log>,
    pub net_state: Arc<AtomicNetState>,
    pub shutdown_tx: watch::Sender<bool>,
    pub shutdown_rx: watch::Receiver<bool>,
    pub log_tx: mpsc::Sender<Log>,
    pub sender_rx: broadcast::Receiver<DataPacket>,
    /// The log of the listener that accepted the stream.
    pub server_log_tx: Option<mpsc::Sender<Log>>,
    /// The shutdown signal of the listener that accepted the stream.
    pub external_shutdown_rx: Option<watch::Receiver<bool>>,
}

/// One connection, as its owner sees it.
pub struct Connection {
    address: Option<String>,
    /// Whether a start has handed out a link. Until then nobody else holds
    /// the state cell, and the connection is as it was created: inactive.
    started: bool,
    net_state: Arc<AtomicNetState>,
    bus: LogBus,
    shutdown: ShutdownSignal,
    sender_tx: broadcast::Sender<DataPacket>,
}

/// What the owner's side of a [`Connection`] holds: the peer's address, once
/// a start has set it, whether it was ever started, and the log as far as
/// it has been polled.
pub ghost struct ConnectionView {
    pub address: Option<Seq<char>>,
    /// Whether a start has handed out a link to a background task.
    pub started: bool,
    pub logs: Seq<Log>,
}

impl View for Connection {
    type V = ConnectionView;

    closed spec fn view(&self) -> ConnectionView {
        ConnectionView {
            address: match self.address {
                Some(address) => Some(address@),
                None => None,
            },
            started: self.started,
            logs: self.bus@,
        }
    }
}

/// The entry that a send of `payload` leaves in the sender's log: a sent
/// packet without an origin.
pub open spec fn sent_entry(payload: Seq<u8>) -> LogDataView {
    LogDataView::SentPacket(PacketView { address: Seq::empty(), data: payload })
}

/// The entries of a log after one successful send for each payload, in
/// turn.
pub open spec fn after_sends(entries: Seq<LogDataView>, payloads: Seq<Seq<u8>>) -> Seq<LogDataView>
    decreases payloads.len(),
{
    if payloads.len() == 0 {
        entries
    } else {
        after_sends(entries.push(sent_entry(payloads[0])), payloads.drop_first())
    }
}

/// The payloads of the sent packets among the entries, in order.
pub open spec fn sent_payloads(entries: Seq<LogDataView>) -> Seq<Seq<u8>>
    decreases entries.len(),
{
    if entries.len() == 0 {
        Seq::empty()
    } else {
        let before = sent_payloads(entries.drop_last());
        match entries.last() {
            LogDataView::SentPacket(packet) => before.push(packet.data),
            _ => before,
        }
    }
}

/// Sending payloads one after the other leaves one sent packet for each in
/// the log, in the order in which they were sent and with the bytes that
/// were sent; what the log held before stays in front of them.
pub proof fn sends_are_logged_in_order(entries: Seq<LogDataView>, payloads: Seq<Seq<u8>>)
    ensures
        after_sends(entries, payloads).len() == entries.len() + payloads.len(),
        after_sends(entries, payloads).subrange(0, entries.len() as int) == entries,
        sent_payloads(after_sends(entries, payloads)) == sent_payloads(entries) + payloads,
        forall|i: int|
            0 <= i < payloads.len() ==> #[trigger] after_sends(entries, payloads)[entries.len()
                + i] == sent_entry(payloads[i]),
    decreases payloads.len(),
{
    if payloads.len() == 0 {
        assert(entries.subrange(0, entries.len() as int) =~= entries);
        assert(sent_payloads(entries) + payloads =~= sent_payloads(entries));
    } else {
        let first = entries.push(sent_entry(payloads[0]));
        let rest = payloads.drop_first();
        sends_are_logged_in_order(first, rest);
        let all = after_sends(entries, payloads);
        assert(all.subrange(0, entries.len() as int) =~= all.subrange(
            0,
            first.len() as int,
        ).subrange(0, entries.len() as int));
        assert(first.subrange(0, entries.len() as int) =~= entries);
        assert(first.drop_last() =~= entries);
        assert(sent_payloads(first) == sent_payloads(entries).push(payloads[0]));
        assert(sent_payloads(entries).push(payloads[0]) + rest =~= sent_payloads(entries)
            + payloads);
        assert forall|i: int| 0 <= i < payloads.len() implies #[trigger] all[entries.len() + i]
            == sent_entry(payloads[i]) by {
            if i == 0 {
                let at = entries.len() as int;
                assert(all.subrange(0, first.len() as int)[at] == first[at]);
            } else {
                assert(all[first.len() + (i - 1)] == sent_entry(rest[i - 1]));
            }
        }
    }
}

impl Connection {
    /// A connection as it is created: inactive, never started, without an
    /// address, with an empty log and a lowered shutdown signal.
    pub fn new() -> (connection: Connection)
        ensures
            connection@.address is None,
            !connection@.started,
            connection@.logs.len() == 0,
    {
        let (sender_tx, _) = send_queue(QUEUE_CAPACITY);
        Connection {
            address: None,
            started: false,
            net_state: Arc::new(AtomicNetState::new(NetState::Inactive)),
            bus: LogBus::new(),
            shutdown: ShutdownSignal::new(),
            sender_tx,
        }
    }

    fn link(&self, session: Session, greeting: Option<Log>) -> (link: SessionLink)
        ensures
            link.session == session,
            link.greeting == greeting,
            link.server_log_tx is None,
            link.external_shutdown_rx is None,
    {
        SessionLink {
            session,
            greeting,
            net_state: share(&self.net_state),
            shutdown_tx: self.shutdown.raiser(),
            shutdown_rx: self.shutdown.listener(),
            log_tx: self.bus.sink(),
            sender_rx: subscribe(&self.sender_tx),
            server_log_tx: None,
            external_shutdown_rx: None,
        }
    }

    /// Starts a client session towards `address` on a connection that was
    /// found inactive. Starting one that is establishing or active is a
    /// mistake of the caller, which `found` is there to rule out. The
    /// address is set, the shared state becomes `Establishing` before this
    /// returns, and the link holds a session that waits for the outcome of
    /// the connect attempt.
    pub fn start_client_from(&mut self, found: NetState, address: String) -> (link: SessionLink)
        requires
            found == NetState::Inactive,
        ensures
            final(self)@ == (ConnectionView {
                address: Some(address@),
                started: true,
                logs: old(self)@.logs,
            }),
            link.session@ == SessionModel::idle().next(EventView::StartClient(address@)),
            link.greeting is None,
            link.server_log_tx is None,
            link.external_shutdown_rx is None,
    {
        self.address = Some(address.clone());
        self.started = true;
        let mut session = Session::new();
        session.step(SessionEvent::StartClient(address));
        self.net_state.store(session.state());
        self.link(session, None)
    }

    /// Starts a client session towards `address` if the connection is
    /// inactive; see [`Connection::start_client_from`]. A connection that
    /// was never started is inactive and starts. One that was started
    /// before starts if its session has ended; else nothing changes and
    /// there is no link: the caller has started what was not inactive.
    pub fn start_client(&mut self, address: String) -> (link: Option<SessionLink>)
        ensures
            !old(self)@.started ==> link is Some,
            match link {
                Some(link) => {
                    &&& final(self)@ == (ConnectionView {
                        address: Some(address@),
                        started: true,
                        logs: old(self)@.logs,
                    })
                    &&& link.session@ == SessionModel::idle().next(
                        EventView::StartClient(address@),
                    )
                    &&& link.greeting is None
                    &&& link.server_log_tx is None
                    &&& link.external_shutdown_rx is None
                },
                None => final(self)@ == old(self)@,
            },
    {
        let found = self.net_state();
        if found == NetState::Inactive {
            Some(self.start_client_from(found, address))
        } else {
            None
        }
    }

    /// Adopts a stream that a listener accepted from `address`, on a
    /// connection that was found inactive; `found` rules out any other.
    /// There is no connect phase: the shared state becomes `Active` before
    /// this returns, and the link holds the running session and the entry
    /// that reports the connect. With a listener's log the session reports
    /// its end there too; a listener's shutdown signal is watched beside the
    /// connection's own.
    pub fn start_established_from(
        &mut self,
        found: NetState,
        address: String,
        server_log_tx: Option<mpsc::Sender<Log>>,
        external_shutdown_rx: Option<watch::Receiver<bool>>,
    ) -> (link: SessionLink)
        requires
            found == NetState::Inactive,
        ensures
            final(self)@ == (ConnectionView {
                address: Some(address@),
                started: true,
                logs: old(self)@.logs,
            }),
            link.session@ == SessionModel::idle().next(
                EventView::Adopt { address: address@, fans_out: server_log_tx is Some },
            ),
            link.greeting matches Some(entry) && entry@.data == LogDataView::ClientConnect(
                address@,
            ),
            link.server_log_tx == server_log_tx,
            link.external_shutdown_rx == external_shutdown_rx,
    {
        self.address = Some(address.clone());
        self.started = true;
        let mut session = Session::new();
        let fans_out = server_log_tx.is_some();
        let step = session.step(SessionEvent::Adopt { address, fans_out });
        self.net_state.store(session.state());
        let mut link = self.link(session, step.local);
        link.server_log_tx = server_log_tx;
        link.external_shutdown_rx = external_shutdown_rx;
        link
    }

    /// Adopts an accepted stream if the connection is inactive; see
    /// [`Connection::start_established_from`]. A connection that was never
    /// started is inactive and adopts. Where the connection is not
    /// inactive nothing changes and there is no link.
    pub fn start_established(
        &mut self,
        address: String,
        server_log_tx: Option<mpsc::Sender<Log>>,
        external_shutdown_rx: Option<watch::Receiver<bool>>,
    ) -> (link: Option<SessionLink>)
        ensures
            !old(self)@.started ==> link is Some,
            match link {
                Some(link) => {
                    let adopt = EventView::Adopt {
                        address: address@,
                        fans_out: server_log_tx is Some,
                    };
                    &&& final(self)@ == (ConnectionView {
                        address: Some(address@),
                        started: true,
                        logs: old(self)@.logs,
                    })
                    &&& link.session@ == SessionModel::idle().next(adopt)
                    &&& link.greeting matches Some(entry) && entry@.data
                        == LogDataView::ClientConnect(address@)
                    &&& link.server_log_tx == server_log_tx
                    &&& link.external_shutdown_rx == external_shutdown_rx
                },
                None => final(self)@ == old(self)@,
            },
    {
        let found = self.net_state();
        if found == NetState::Inactive {
            Some(self.start_established_from(found, address, server_log_tx, external_shutdown_rx))
        } else {
            None
        }
    }

    /// Books the outcome of publishing `packet` on the send queue. A packet
    /// that was queued is appended to the log as sent; one that came back
    /// leaves the log as it was and is returned in the error.
    pub fn record_send(&mut self, packet: DataPacket, queued: Result<usize, DataPacket>) -> (sent:
        Result<(), SendError>)
        ensures
            final(self)@.address == old(self)@.address,
            final(self)@.started == old(self)@.started,
            match queued {
                Ok(_) => {
                    &&& sent is Ok
                    &&& final(self)@.logs.len() == old(self)@.logs.len() + 1
                    &&& extends(final(self)@.logs, old(self)@.logs)
                    &&& final(self)@.logs.last()@.data == LogDataView::SentPacket(packet@)
                    &&& kinds(final(self)@.logs) == kinds(old(self)@.logs).push(
                        LogDataView::SentPacket(packet@),
                    )
                },
                Err(returned) => {
                    &&& sent matches Err(error) && error.packet == returned
                    &&& final(self)@.logs == old(self)@.logs
                },
            },
    {
        match queued {
            Ok(_) => {
                let ghost before = self.bus@;
                self.bus.append(Log::sent(packet));
                assert(self.bus@.subrange(0, before.len() as int) =~= before);
                assert(kinds(self.bus@) =~= kinds(before).push(LogDataView::SentPacket(packet@)));
                Ok(())
            },
            Err(returned) => Err(SendError { packet: returned }),
        }
    }

    /// Queues `data` for the session's writer, as a packet without an
    /// origin. With a session there to take it, the send is appended to this
    /// connection's log at once, whatever the state of the log bus. Without
    /// one the send fails, the log stays as it was and the error holds the
    /// packet.
    pub fn send_data(&mut self, data: Vec<u8>) -> (sent: Result<(), SendError>)
        ensures
            final(self)@.address == old(self)@.address,
            final(self)@.started == old(self)@.started,
            match sent {
                Ok(_) => {
                    &&& final(self)@.logs.len() == old(self)@.logs.len() + 1
                    &&& extends(final(self)@.logs, old(self)@.logs)
                    &&& final(self)@.logs.last()@.data == sent_entry(data@)
                    &&& kinds(final(self)@.logs) == kinds(old(self)@.logs).push(sent_entry(data@))
                },
                Err(error) => {
                    &&& final(self)@.logs == old(self)@.logs
                    &&& error.packet@ == PacketView { address: Seq::empty(), data: data@ }
                },
            },
    {
        let packet = DataPacket::new(String::new(), data);
        let queued = publish(&self.sender_tx, packet.clone());
        self.record_send(packet, queued)
    }

    /// Moves what waits on the log bus to the end of the log, at most one
    /// full bus at a time, and gives a copy of the whole log. Nothing that
    /// was in the log before is changed or reordered.
    pub fn update_and_read_logs(&mut self) -> (logs: Vec<Log>)
        ensures
            final(self)@.address == old(self)@.address,
            final(self)@.started == old(self)@.started,
            extends(final(self)@.logs, old(self)@.logs),
            final(self)@.logs.len() <= old(self)@.logs.len() + QUEUE_CAPACITY,
            logs@.len() == final(self)@.logs.len(),
            forall|i: int| 0 <= i < logs@.len() ==> #[trigger] logs@[i]@ == final(self)@.logs[i]@,
    {
        self.bus.poll();
        self.bus.snapshot()
    }

    /// Asks the session to stop, by raising the shutdown signal. It does not
    /// wait: that the session has ended shows in the state and in the log.
    /// Asking again changes nothing.
    pub fn shutdown(&self) {
        self.shutdown.raise();
    }

    pub fn address(&self) -> (address: Option<&str>)
        ensures
            match address {
                Some(text) => self@.address == Some(text@),
                None => self@.address is None,
            },
    {
        match &self.address {
            Some(address) => Some(address.as_str()),
            None => None,
        }
    }

    /// Whether the connection was started with this address.
    pub fn has_address(&self, address: &String) -> (same: bool)
        ensures
            same == (self@.address == Some(address@)),
    {
        match &self.address {
            Some(own) => *own == *address,
            None => false,
        }
    }

    /// The state of the connection: `Inactive` as long as it was never
    /// started, and from then on what its session last stored.
    pub fn net_state(&self) -> (state: NetState)
        ensures
            !self@.started ==> state == NetState::Inactive,
    {
        if self.started {
            self.net_state.load()
        } else {
            NetState::Inactive
        }
    }
}

} // verus!
