//! The lifecycle of a listening socket as a state machine.
//!
//! The accept task of a server owns a [`Listener`] and hands it what
//! happens: the outcome of the bind, each accepted stream, each change of the
//! shutdown signal. The [`ListenerStep`] that comes back says what to log
//! and whether to take the stream in.

use crate::log::{FaultView, IoFault, Log, LogDataView};
use crate::net_state::NetState;
use vstd::prelude::*;

verus! {

/// What can happen to a listener.
#[derive(Debug)]
pub enum ListenerEvent {
    /// The owner asks to listen on the port.
    Start(u16),
    /// The bind succeeded.
    Bound,
    /// The bind failed.
    BindFailed(IoFault),
    /// The accept loop saw the shutdown signal change to the value.
    Shutdown(bool),
    /// A stream was accepted from the address.
    Accepted(String),
}

/// What a [`ListenerEvent`] holds.
pub ghost enum ListenerEventView {
    Start(u16),
    Bound,
    BindFailed(FaultView),
    Shutdown(bool),
    Accepted(Seq<char>),
}

impl View for ListenerEvent {
    type V = ListenerEventView;

    open spec fn view(&self) -> ListenerEventView {
        match self {
            ListenerEvent::Start(port) => ListenerEventView::Start(*port),
            ListenerEvent::Bound => ListenerEventView::Bound,
            ListenerEvent::BindFailed(fault) => ListenerEventView::BindFailed(fault@),
            ListenerEvent::Shutdown(raised) => ListenerEventView::Shutdown(*raised),
            ListenerEvent::Accepted(address) => ListenerEventView::Accepted(address@),
        }
    }
}

/// The state of a listener: its port, once a start has set it, and where in
/// the lifecycle it stands. While it is `Active` its accept loop runs.
pub ghost struct ListenerModel {
    pub port: Option<u16>,
    pub state: NetState,
}

/// What one event asks the accept task to do.
pub ghost struct ListenerOutcome {
    /// The entry for the server's log.
    pub log: Option<LogDataView>,
    /// Take the accepted stream in as a connection from this address, and
    /// enter it in the registry.
    pub adopt: Option<Seq<char>>,
}

impl ListenerModel {
    /// A listener before its first start.
    pub open spec fn idle() -> ListenerModel {
        ListenerModel { port: None, state: NetState::Inactive }
    }

    /// Whether the event can happen in this state. A start needs an inactive
    /// listener, the outcome of a bind one that is establishing, and the
    /// accept loop reports while the listener is active.
    pub open spec fn enabled(self, event: ListenerEventView) -> bool {
        match event {
            ListenerEventView::Start(_) => self.state == NetState::Inactive,
            ListenerEventView::Bound => self.state == NetState::Establishing,
            ListenerEventView::BindFailed(_) => self.state == NetState::Establishing,
            ListenerEventView::Shutdown(_) => self.state == NetState::Active,
            ListenerEventView::Accepted(_) => self.state == NetState::Active,
        }
    }

    /// The listener after the event.
    pub open spec fn next(self, event: ListenerEventView) -> ListenerModel {
        match event {
            ListenerEventView::Start(port) => ListenerModel {
                port: Some(port),
                state: NetState::Establishing,
            },
            ListenerEventView::Bound => ListenerModel { state: NetState::Active, ..self },
            ListenerEventView::BindFailed(_) => ListenerModel { state: NetState::Inactive, ..self },
            ListenerEventView::Shutdown(raised) => if raised {
                ListenerModel { state: NetState::Inactive, ..self }
            } else {
                self
            },
            ListenerEventView::Accepted(_) => self,
        }
    }

    /// What the accept task has to do on the event.
    pub open spec fn outcome(self, event: ListenerEventView) -> ListenerOutcome {
        match event {
            ListenerEventView::Start(_) => ListenerOutcome { log: None, adopt: None },
            ListenerEventView::Bound => ListenerOutcome {
                log: Some(LogDataView::ServerStarted),
                adopt: None,
            },
            ListenerEventView::BindFailed(fault) => ListenerOutcome {
                log: Some(LogDataView::ConnectError(fault)),
                adopt: None,
            },
            ListenerEventView::Shutdown(raised) => ListenerOutcome {
                log: if raised {
                    Some(LogDataView::ServerStopped)
                } else {
                    None
                },
                adopt: None,
            },
            ListenerEventView::Accepted(address) => ListenerOutcome {
                log: Some(LogDataView::ClientConnect(address)),
                adopt: Some(address),
            },
        }
    }
}

/// What [`Listener::step`] hands to the accept task.
#[derive(Debug)]
pub struct ListenerStep {
    /// The entry to send to the server's log.
    pub log: Option<Log>,
    /// The address of the stream to take in.
    pub adopt: Option<String>,
}

impl View for ListenerStep {
    type V = ListenerOutcome;

    open spec fn view(&self) -> ListenerOutcome {
        ListenerOutcome {
            log: match self.log {
                Some(log) => Some(log@.data),
                None => None,
            },
            adopt: match self.adopt {
                Some(address) => Some(address@),
                None => None,
            },
        }
    }
}

/// The listener of one server, as its accept task keeps it.
#[derive(Debug)]
pub struct Listener {
    port: Option<u16>,
    state: NetState,
}

impl View for Listener {
    type V = ListenerModel;

    closed spec fn view(&self) -> ListenerModel {
        ListenerModel { port: self.port, state: self.state }
    }
}

impl Listener {
    /// A listener before its first start.
    pub fn new() -> (listener: Listener)
        ensures
            listener@ == ListenerModel::idle(),
    {
        Listener { port: None, state: NetState::Inactive }
    }

    pub fn state(&self) -> (state: NetState)
        ensures
            state == self@.state,
    {
        self.state
    }

    pub fn port(&self) -> (port: Option<u16>)
        ensures
            port == self@.port,
    {
        self.port
    }

    /// Whether [`Listener::step`] accepts the event now.
    pub fn accepts(&self, event: &ListenerEvent) -> (enabled: bool)
        ensures
            enabled == self@.enabled(event@),
    {
        match event {
            ListenerEvent::Start(_) => self.state == NetState::Inactive,
            ListenerEvent::Bound => self.state == NetState::Establishing,
            ListenerEvent::BindFailed(_) => self.state == NetState::Establishing,
            ListenerEvent::Shutdown(_) => self.state == NetState::Active,
            ListenerEvent::Accepted(_) => self.state == NetState::Active,
        }
    }

    /// Takes one event: moves the listener on and says what the accept task
    /// has to do. The entry that comes back is stamped with the current
    /// time.
    pub fn step(&mut self, event: ListenerEvent) -> (step: ListenerStep)
        requires
            old(self)@.enabled(event@),
        ensures
            final(self)@ == old(self)@.next(event@),
            step@ == old(self)@.outcome(event@),
    {
        match event {
            ListenerEvent::Start(port) => {
                self.port = Some(port);
                self.state = NetState::Establishing;
                ListenerStep { log: None, adopt: None }
            },
            ListenerEvent::Bound => {
                self.state = NetState::Active;
                ListenerStep { log: Some(Log::server_started()), adopt: None }
            },
            ListenerEvent::BindFailed(fault) => {
                self.state = NetState::Inactive;
                ListenerStep { log: Some(Log::connect_error(fault)), adopt: None }
            },
            ListenerEvent::Shutdown(raised) => {
                if raised {
                    self.state = NetState::Inactive;
                    ListenerStep { log: Some(Log::server_stopped()), adopt: None }
                } else {
                    ListenerStep { log: None, adopt: None }
                }
            },
            ListenerEvent::Accepted(address) => {
                ListenerStep { log: Some(Log::connect(address.clone())), adopt: Some(address) }
            },
        }
    }
}

/// One step of a listener follows an edge of the lifecycle or stays where it
/// is: `Inactive → Establishing → Active → Inactive`, or
/// `Inactive → Establishing → Inactive`.
pub proof fn listener_follows_lifecycle(listener: ListenerModel, event: ListenerEventView)
    requires
        listener.enabled(event),
    ensures
        listener.next(event).state == listener.state || listener.state.steps_to(
            listener.next(event).state,
        ),
{
}

/// A bind that fails leaves the listener inactive and logs the failure, as a
/// failed connect does.
pub proof fn failed_bind_is_logged(listener: ListenerModel, fault: FaultView)
    requires
        listener.state == NetState::Establishing,
    ensures
        listener.next(ListenerEventView::BindFailed(fault)).state == NetState::Inactive,
        listener.outcome(ListenerEventView::BindFailed(fault)).log == Some(
            LogDataView::ConnectError(fault),
        ),
{
}

/// An active listener takes in every stream that it accepts: the stream is
/// to be adopted under the peer's address, the server's log gets the
/// connect, and the listener goes on listening.
pub proof fn accepted_stream_is_adopted(listener: ListenerModel, address: Seq<char>)
    requires
        listener.state == NetState::Active,
    ensures
        listener.enabled(ListenerEventView::Accepted(address)),
        listener.next(ListenerEventView::Accepted(address)) == listener,
        listener.outcome(ListenerEventView::Accepted(address)) == (ListenerOutcome {
            log: Some(LogDataView::ClientConnect(address)),
            adopt: Some(address),
        }),
{
}

/// A raised shutdown signal stops an active listener: it becomes inactive
/// and logs that the server stopped. It takes in no stream on the way, and
/// once stopped it accepts none.
pub proof fn shutdown_stops_listener(listener: ListenerModel, address: Seq<char>)
    requires
        listener.state == NetState::Active,
    ensures
        listener.enabled(ListenerEventView::Shutdown(true)),
        listener.next(ListenerEventView::Shutdown(true)).state == NetState::Inactive,
        listener.outcome(ListenerEventView::Shutdown(true)) == (ListenerOutcome {
            log: Some(LogDataView::ServerStopped),
            adopt: None,
        }),
        !listener.next(ListenerEventView::Shutdown(true)).enabled(
            ListenerEventView::Accepted(address),
        ),
{
}

} // verus!
