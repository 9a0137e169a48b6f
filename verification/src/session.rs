//! The lifecycle of one connection as a state machine.
//!
//! A background task owns a [`Session`]. Whatever happens on its socket or
//! on its shutdown signal it hands to [`Session::step`] as a
//! [`SessionEvent`]; the [`Step`] that comes back says what to log, whether
//! to raise or lower the shutdown signal and which bytes to put on the wire.
//! A session whose owner is gone finds its send queue closed and raises its
//! own signal, so that it ends as it does on a request to stop.
//! The task performs that and nothing else, so every decision of the
//! lifecycle is taken here.

use crate::log::{DataPacket, FaultView, IoFault, Log, LogDataView, PacketView};
use crate::net_state::NetState;
use vstd::prelude::*;

verus! {

/// The bound on a client's connect attempt, in seconds.
pub const CONNECT_TIMEOUT_SECS: u64 = 8;

/// The size of the buffer that one socket read fills at most.
pub const READ_CHUNK_SIZE: usize = 2048;

/// What can happen to a session.
#[derive(Debug)]
pub enum SessionEvent {
    /// The owner asks for a connection to `address`.
    StartClient(String),
    /// The owner hands over a stream that a listener accepted from
    /// `address`. With `fans_out` the session also reports its end to the
    /// listener's log.
    Adopt { address: String, fans_out: bool },
    /// The connect attempt succeeded.
    Connected,
    /// The connect attempt failed.
    ConnectFailed(IoFault),
    /// The connect attempt ran into its time bound.
    ConnectTimedOut,
    /// The reader saw the session's own shutdown signal change to the value.
    ReaderShutdown(bool),
    /// The reader saw the signal of the listener change to the value.
    ReaderExternal(bool),
    /// A read returned these bytes; none means that the peer closed.
    ReaderRead(Vec<u8>),
    /// A read failed.
    ReaderFailed(IoFault),
    /// The writer saw the session's own shutdown signal change to the value.
    WriterShutdown(bool),
    /// The writer took this packet from the send queue.
    WriterPacket(DataPacket),
    /// The writer found the send queue closed: the owner of the connection
    /// is gone.
    WriterQueueClosed,
    /// Reader and writer have both ended.
    Joined,
}

/// What a [`SessionEvent`] holds.
pub ghost enum EventView {
    StartClient(Seq<char>),
    Adopt { address: Seq<char>, fans_out: bool },
    Connected,
    ConnectFailed(FaultView),
    ConnectTimedOut,
    ReaderShutdown(bool),
    ReaderExternal(bool),
    ReaderRead(Seq<u8>),
    ReaderFailed(FaultView),
    WriterShutdown(bool),
    WriterPacket(PacketView),
    WriterQueueClosed,
    Joined,
}

impl View for SessionEvent {
    type V = EventView;

    open spec fn view(&self) -> EventView {
        match self {
            SessionEvent::StartClient(address) => EventView::StartClient(address@),
            SessionEvent::Adopt { address, fans_out } => EventView::Adopt {
                address: address@,
                fans_out: *fans_out,
            },
            SessionEvent::Connected => EventView::Connected,
            SessionEvent::ConnectFailed(fault) => EventView::ConnectFailed(fault@),
            SessionEvent::ConnectTimedOut => EventView::ConnectTimedOut,
            SessionEvent::ReaderShutdown(raised) => EventView::ReaderShutdown(*raised),
            SessionEvent::ReaderExternal(raised) => EventView::ReaderExternal(*raised),
            SessionEvent::ReaderRead(bytes) => EventView::ReaderRead(bytes@),
            SessionEvent::ReaderFailed(fault) => EventView::ReaderFailed(fault@),
            SessionEvent::WriterShutdown(raised) => EventView::WriterShutdown(*raised),
            SessionEvent::WriterPacket(packet) => EventView::WriterPacket(packet@),
            SessionEvent::WriterQueueClosed => EventView::WriterQueueClosed,
            SessionEvent::Joined => EventView::Joined,
        }
    }
}

/// The state of a session: whose it is, where in the lifecycle it stands,
/// and which of its two loops still run.
pub ghost struct SessionModel {
    pub address: Seq<char>,
    pub state: NetState,
    pub reader_running: bool,
    pub writer_running: bool,
    pub fans_out: bool,
}

/// What one event asks the task to do.
pub ghost struct Outcome {
    /// The entry for the connection's own log.
    pub local: Option<LogDataView>,
    /// The entry for the listener's log.
    pub parent: Option<LogDataView>,
    /// Set the session's shutdown signal.
    pub raise_shutdown: bool,
    /// Clear the session's shutdown signal.
    pub reset_shutdown: bool,
    /// Write these bytes to the socket and flush.
    pub transmit: Option<Seq<u8>>,
}

impl Outcome {
    /// Nothing to do.
    pub open spec fn quiet() -> Outcome {
        Outcome {
            local: None,
            parent: None,
            raise_shutdown: false,
            reset_shutdown: false,
            transmit: None,
        }
    }

    /// Only an entry for the connection's own log.
    pub open spec fn logging(entry: LogDataView) -> Outcome {
        Outcome { local: Some(entry), ..Outcome::quiet() }
    }

    /// Only a raised shutdown signal.
    pub open spec fn raising() -> Outcome {
        Outcome { raise_shutdown: true, ..Outcome::quiet() }
    }
}

impl SessionModel {
    /// A session before its first start.
    pub open spec fn idle() -> SessionModel {
        SessionModel {
            address: Seq::empty(),
            state: NetState::Inactive,
            reader_running: false,
            writer_running: false,
            fans_out: false,
        }
    }

    /// Whether the event can happen in this state. A start needs an
    /// inactive session, the outcome of a connect attempt one that is
    /// establishing; a loop reports only while it runs, and the join comes
    /// when both loops have ended.
    pub open spec fn enabled(self, event: EventView) -> bool {
        match event {
            EventView::StartClient(_) => self.state == NetState::Inactive,
            EventView::Adopt { .. } => self.state == NetState::Inactive,
            EventView::Connected => self.state == NetState::Establishing,
            EventView::ConnectFailed(_) => self.state == NetState::Establishing,
            EventView::ConnectTimedOut => self.state == NetState::Establishing,
            EventView::ReaderShutdown(_) => self.state == NetState::Active && self.reader_running,
            EventView::ReaderExternal(_) => self.state == NetState::Active && self.reader_running,
            EventView::ReaderRead(_) => self.state == NetState::Active && self.reader_running,
            EventView::ReaderFailed(_) => self.state == NetState::Active && self.reader_running,
            EventView::WriterShutdown(_) => self.state == NetState::Active && self.writer_running,
            EventView::WriterPacket(_) => self.state == NetState::Active && self.writer_running,
            EventView::WriterQueueClosed => self.state == NetState::Active && self.writer_running,
            EventView::Joined => self.state == NetState::Active && !self.reader_running
                && !self.writer_running,
        }
    }

    /// The session after the event.
    pub open spec fn next(self, event: EventView) -> SessionModel {
        match event {
            EventView::StartClient(address) => SessionModel {
                address,
                state: NetState::Establishing,
                reader_running: false,
                writer_running: false,
                fans_out: false,
            },
            EventView::Adopt { address, fans_out } => SessionModel {
                address,
                state: NetState::Active,
                reader_running: true,
                writer_running: true,
                fans_out,
            },
            EventView::Connected => SessionModel {
                state: NetState::Active,
                reader_running: true,
                writer_running: true,
                ..self
            },
            EventView::ConnectFailed(_) => SessionModel { state: NetState::Inactive, ..self },
            EventView::ConnectTimedOut => SessionModel { state: NetState::Inactive, ..self },
            EventView::ReaderShutdown(raised) => SessionModel {
                reader_running: !raised,
                ..self
            },
            EventView::ReaderExternal(_) => self,
            EventView::ReaderRead(_) => self,
            EventView::ReaderFailed(fault) => SessionModel {
                reader_running: fault.interrupted,
                ..self
            },
            EventView::WriterShutdown(raised) => SessionModel {
                writer_running: !raised,
                ..self
            },
            EventView::WriterPacket(_) => self,
            EventView::WriterQueueClosed => self,
            EventView::Joined => SessionModel { state: NetState::Inactive, ..self },
        }
    }

    /// What the task has to do on the event.
    pub open spec fn outcome(self, event: EventView) -> Outcome {
        match event {
            EventView::StartClient(_) => Outcome::quiet(),
            EventView::Adopt { address, .. } => Outcome::logging(
                LogDataView::ClientConnect(address),
            ),
            EventView::Connected => Outcome::logging(LogDataView::ClientConnect(self.address)),
            EventView::ConnectFailed(fault) => Outcome::logging(LogDataView::ConnectError(fault)),
            EventView::ConnectTimedOut => Outcome::logging(LogDataView::ConnectTimedOut),
            EventView::ReaderShutdown(_) => Outcome::quiet(),
            EventView::ReaderExternal(raised) => if raised {
                Outcome::raising()
            } else {
                Outcome::quiet()
            },
            EventView::ReaderRead(bytes) => if bytes.len() == 0 {
                Outcome::raising()
            } else {
                Outcome::logging(
                    LogDataView::ReceivedPacket(PacketView { address: self.address, data: bytes }),
                )
            },
            EventView::ReaderFailed(fault) => if fault.interrupted {
                Outcome::quiet()
            } else {
                Outcome {
                    local: Some(LogDataView::FatalReadError(fault)),
                    raise_shutdown: true,
                    ..Outcome::quiet()
                }
            },
            EventView::WriterShutdown(_) => Outcome::quiet(),
            EventView::WriterPacket(packet) => Outcome {
                transmit: Some(packet.data),
                ..Outcome::quiet()
            },
            EventView::WriterQueueClosed => Outcome::raising(),
            EventView::Joined => Outcome {
                local: Some(LogDataView::ClientDisconnect(self.address)),
                parent: if self.fans_out {
                    Some(LogDataView::ClientDisconnect(self.address))
                } else {
                    None
                },
                reset_shutdown: true,
                ..Outcome::quiet()
            },
        }
    }
}

/// What [`Session::step`] hands to the task.
#[derive(Debug)]
pub struct Step {
    /// The entry to send to the connection's own log.
    pub local: Option<Log>,
    /// The entry to send to the listener's log.
    pub parent: Option<Log>,
    /// Set the session's shutdown signal.
    pub raise_shutdown: bool,
    /// Clear the session's shutdown signal.
    pub reset_shutdown: bool,
    /// Write these bytes to the socket and flush.
    pub transmit: Option<Vec<u8>>,
}

impl View for Step {
    type V = Outcome;

    open spec fn view(&self) -> Outcome {
        Outcome {
            local: match self.local {
                Some(log) => Some(log@.data),
                None => None,
            },
            parent: match self.parent {
                Some(log) => Some(log@.data),
                None => None,
            },
            raise_shutdown: self.raise_shutdown,
            reset_shutdown: self.reset_shutdown,
            transmit: match self.transmit {
                Some(bytes) => Some(bytes@),
                None => None,
            },
        }
    }
}

impl Step {
    fn quiet() -> (step: Step)
        ensures
            step@ == Outcome::quiet(),
    {
        Step {
            local: None,
            parent: None,
            raise_shutdown: false,
            reset_shutdown: false,
            transmit: None,
        }
    }

    fn logging(log: Log) -> (step: Step)
        ensures
            step@ == Outcome::logging(log@.data),
    {
        Step {
            local: Some(log),
            parent: None,
            raise_shutdown: false,
            reset_shutdown: false,
            transmit: None,
        }
    }

    fn raising() -> (step: Step)
        ensures
            step@ == Outcome::raising(),
    {
        Step {
            local: None,
            parent: None,
            raise_shutdown: true,
            reset_shutdown: false,
            transmit: None,
        }
    }
}

/// The session of one connection, as its background task keeps it.
#[derive(Debug)]
pub struct Session {
    address: String,
    state: NetState,
    reader_running: bool,
    writer_running: bool,
    fans_out: bool,
}

impl View for Session {
    type V = SessionModel;

    closed spec fn view(&self) -> SessionModel {
        SessionModel {
            address: self.address@,
            state: self.state,
            reader_running: self.reader_running,
            writer_running: self.writer_running,
            fans_out: self.fans_out,
        }
    }
}

impl Session {
    /// A session before its first start.
    pub fn new() -> (session: Session)
        ensures
            session@ == SessionModel::idle(),
    {
        Session {
            address: String::new(),
            state: NetState::Inactive,
            reader_running: false,
            writer_running: false,
            fans_out: false,
        }
    }

    pub fn state(&self) -> (state: NetState)
        ensures
            state == self@.state,
    {
        self.state
    }

    pub fn address(&self) -> (address: &String)
        ensures
            address@ == self@.address,
    {
        &self.address
    }

    pub fn reader_running(&self) -> (running: bool)
        ensures
            running == self@.reader_running,
    {
        self.reader_running
    }

    pub fn writer_running(&self) -> (running: bool)
        ensures
            running == self@.writer_running,
    {
        self.writer_running
    }

    /// Whether [`Session::step`] accepts the event now.
    pub fn accepts(&self, event: &SessionEvent) -> (enabled: bool)
        ensures
            enabled == self@.enabled(event@),
    {
        match event {
            SessionEvent::StartClient(_) => self.state == NetState::Inactive,
            SessionEvent::Adopt { .. } => self.state == NetState::Inactive,
            SessionEvent::Connected => self.state == NetState::Establishing,
            SessionEvent::ConnectFailed(_) => self.state == NetState::Establishing,
            SessionEvent::ConnectTimedOut => self.state == NetState::Establishing,
            SessionEvent::ReaderShutdown(_) => self.state == NetState::Active
                && self.reader_running,
            SessionEvent::ReaderExternal(_) => self.state == NetState::Active
                && self.reader_running,
            SessionEvent::ReaderRead(_) => self.state == NetState::Active && self.reader_running,
            SessionEvent::ReaderFailed(_) => self.state == NetState::Active && self.reader_running,
            SessionEvent::WriterShutdown(_) => self.state == NetState::Active
                && self.writer_running,
            SessionEvent::WriterPacket(_) => self.state == NetState::Active && self.writer_running,
            SessionEvent::WriterQueueClosed => self.state == NetState::Active
                && self.writer_running,
            SessionEvent::Joined => self.state == NetState::Active && !self.reader_running
                && !self.writer_running,
        }
    }

    /// Takes one event: moves the session on and says what the task has to
    /// do. The entries that come back are stamped with the current time.
    pub fn step(&mut self, event: SessionEvent) -> (step: Step)
        requires
            old(self)@.enabled(event@),
        ensures
            final(self)@ == old(self)@.next(event@),
            step@ == old(self)@.outcome(event@),
    {
        match event {
            SessionEvent::StartClient(address) => {
                self.address = address;
                self.state = NetState::Establishing;
                self.reader_running = false;
                self.writer_running = false;
                self.fans_out = false;
                Step::quiet()
            },
            SessionEvent::Adopt { address, fans_out } => {
                let log = Log::connect(address.clone());
                self.address = address;
                self.state = NetState::Active;
                self.reader_running = true;
                self.writer_running = true;
                self.fans_out = fans_out;
                Step::logging(log)
            },
            SessionEvent::Connected => {
                self.state = NetState::Active;
                self.reader_running = true;
                self.writer_running = true;
                Step::logging(Log::connect(self.address.clone()))
            },
            SessionEvent::ConnectFailed(fault) => {
                self.state = NetState::Inactive;
                Step::logging(Log::connect_error(fault))
            },
            SessionEvent::ConnectTimedOut => {
                self.state = NetState::Inactive;
                Step::logging(Log::connect_timed_out())
            },
            SessionEvent::ReaderShutdown(raised) => {
                self.reader_running = !raised;
                Step::quiet()
            },
            SessionEvent::ReaderExternal(raised) => {
                if raised {
                    Step::raising()
                } else {
                    Step::quiet()
                }
            },
            SessionEvent::ReaderRead(bytes) => {
                if bytes.len() == 0 {
                    Step::raising()
                } else {
                    Step::logging(Log::received(DataPacket::new(self.address.clone(), bytes)))
                }
            },
            SessionEvent::ReaderFailed(fault) => {
                if fault.interrupted {
                    Step::quiet()
                } else {
                    self.reader_running = false;
                    Step {
                        local: Some(Log::fatal_read_error(fault)),
                        parent: None,
                        raise_shutdown: true,
                        reset_shutdown: false,
                        transmit: None,
                    }
                }
            },
            SessionEvent::WriterShutdown(raised) => {
                self.writer_running = !raised;
                Step::quiet()
            },
            SessionEvent::WriterPacket(packet) => {
                Step {
                    local: None,
                    parent: None,
                    raise_shutdown: false,
                    reset_shutdown: false,
                    transmit: Some(packet.data),
                }
            },
            SessionEvent::WriterQueueClosed => Step::raising(),
            SessionEvent::Joined => {
                self.state = NetState::Inactive;
                let local = Log::disconnect(self.address.clone());
                let parent = if self.fans_out {
                    Some(local.clone())
                } else {
                    None
                };
                Step {
                    local: Some(local),
                    parent,
                    raise_shutdown: false,
                    reset_shutdown: true,
                    transmit: None,
                }
            },
        }
    }
}

} // verus!
