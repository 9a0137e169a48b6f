//! The owner's handle on a server: a listening socket, the registry of the
//! connections that it accepted, and the log that gathers what happens to
//! them.

use crate::bus::{extends, LogBus, ShutdownSignal};
use crate::channels::{share, QUEUE_CAPACITY};
use crate::connection::{Connection, SendError};
use crate::listener::{Listener, ListenerEvent, ListenerEventView, ListenerModel};
use crate::log::{Log, PacketView};
use crate::net_state::{AtomicNetState, NetState};
use crate::registry::{
    find, find_mut, lock_around, poll_in, reached, read_guarded, read_lock, send_in, shutdown_in,
    state_in, write_guarded, write_lock, Reach,
};
use std::sync::Arc;
use tokio::sync::{mpsc, watch, RwLock};
use vstd::prelude::*;

verus! {

/// What the accept task of a server needs: the listener, and its ends of
/// what it shares with the owner.
pub struct ServerLink {
    pub listener: Listener,
    pub net_state: Arc<AtomicNetState>,
    pub shutdown_rx: watch::Receiver<bool>,
    pub log_tx: mpsc::Sender<Log>,
    pub connections: Arc<RwLock<Vec<Connection>>>,
}

/// One server, as its owner sees it. Its registry is keyed by peer address:
/// it holds the connection that was accepted last from an address, and no
/// other for that address.
pub struct Server {
    port: Option<u16>,
    /// Whether a start has handed out a link. Until then nobody else holds
    /// the state cell, and the server is as it was created: inactive.
    started: bool,
    net_state: Arc<AtomicNetState>,
    connections: Arc<RwLock<Vec<Connection>>>,
    bus: LogBus,
    shutdown: ShutdownSignal,
}

/// What the owner's side of a [`Server`] holds: the port, once a start has
/// set it, whether it was ever started, and the log as far as it has been
/// polled.
pub ghost struct ServerView {
    pub port: Option<u16>,
    /// Whether a start has handed out a link to an accept task.
    pub started: bool,
    pub logs: Seq<Log>,
}

impl View for Server {
    type V = ServerView;

    closed spec fn view(&self) -> ServerView {
        ServerView { port: self.port, started: self.started, logs: self.bus@ }
    }
}

impl Server {
    /// A server as it is created: inactive, never started, without a port,
    /// with an empty log, an empty registry and a lowered shutdown signal.
    pub fn new() -> (server: Server)
        ensures
            server@.port is None,
            !server@.started,
            server@.logs.len() == 0,
    {
        Server {
            port: None,
            started: false,
            net_state: Arc::new(AtomicNetState::new(NetState::Inactive)),
            connections: Arc::new(lock_around(Vec::new())),
            bus: LogBus::new(),
            shutdown: ShutdownSignal::new(),
        }
    }

    /// Starts to listen on `port`, on a server that was found inactive.
    /// Starting one that is establishing or active is a mistake of the
    /// caller, which `found` is there to rule out. The port is set, the
    /// shared state becomes `Establishing` before this returns, and the link
    /// holds a listener that waits for the outcome of the bind.
    pub fn start_from(&mut self, found: NetState, port: u16) -> (link: ServerLink)
        requires
            found == NetState::Inactive,
        ensures
            final(self)@ == (ServerView { port: Some(port), started: true, logs: old(self)@.logs }),
            link.listener@ == ListenerModel::idle().next(ListenerEventView::Start(port)),
    {
        self.port = Some(port);
        self.started = true;
        let mut listener = Listener::new();
        listener.step(ListenerEvent::Start(port));
        self.net_state.store(listener.state());
        ServerLink {
            listener,
            net_state: share(&self.net_state),
            shutdown_rx: self.shutdown.listener(),
            log_tx: self.bus.sink(),
            connections: share(&self.connections),
        }
    }

    /// Starts to listen on `port` if the server is inactive; see
    /// [`Server::start_from`]. A server that was never started is inactive
    /// and starts. One that was started before starts if its accept task
    /// has ended; else nothing changes and there is no link: the caller has
    /// started what was not inactive.
    pub fn start(&mut self, port: u16) -> (link: Option<ServerLink>)
        ensures
            !old(self)@.started ==> link is Some,
            match link {
                Some(link) => {
                    &&& final(self)@ == (ServerView {
                        port: Some(port),
                        started: true,
                        logs: old(self)@.logs,
                    })
                    &&& link.listener@ == ListenerModel::idle().next(ListenerEventView::Start(port))
                },
                None => final(self)@ == old(self)@,
            },
    {
        let found = self.net_state();
        if found == NetState::Inactive {
            Some(self.start_from(found, port))
        } else {
            None
        }
    }

    /// Asks the server to stop, by raising its shutdown signal. It does not
    /// wait, and it joins no connection: each connection that the server
    /// accepted watches the signal and ends its own session when it sees
    /// it. Asking again changes nothing.
    pub fn shutdown(&self) {
        self.shutdown.raise();
    }

    /// Moves what waits on the log bus to the end of the log, at most one
    /// full bus at a time, and gives a copy of the whole log together with
    /// the length that it had before: the entries from there on are new.
    pub fn update_and_read_logs(&mut self) -> (polled: (Vec<Log>, usize))
        ensures
            final(self)@.port == old(self)@.port,
            final(self)@.started == old(self)@.started,
            extends(final(self)@.logs, old(self)@.logs),
            final(self)@.logs.len() <= old(self)@.logs.len() + QUEUE_CAPACITY,
            polled.1 == old(self)@.logs.len(),
            polled.0@.len() == final(self)@.logs.len(),
            forall|i: int|
                0 <= i < polled.0@.len() ==> #[trigger] polled.0@[i]@ == final(self)@.logs[i]@,
    {
        let prior = self.bus.poll();
        (self.bus.snapshot(), prior)
    }

    /// Polls the log of the connection that the registry holds for
    /// `connection_addr` and gives a copy of it; see [`poll_in`]. The
    /// server's own log and port stay as they are. It does not wait for the
    /// registry: where someone else holds its lock the result is `Busy` and
    /// nothing was done.
    pub fn update_and_read_logs_for(&mut self, connection_addr: &str) -> (logs: Reach<Vec<Log>>)
        ensures
            final(self)@ == old(self)@,
    {
        match write_lock(&self.connections) {
            Some(guard) => {
                let mut guard = guard;
                reached(poll_in(write_guarded(&mut guard), connection_addr))
            },
            None => Reach::Busy,
        }
    }

    /// Hands `f` the connection that the registry holds for `address`, or
    /// `None` where the registry has no such connection, and gives what `f`
    /// returns. The registry is locked for shared access while `f` runs, so
    /// `f` must be short and must not wait. It does not wait for the
    /// registry: where a writer holds its lock, `f` is not called and the
    /// result is `None`.
    pub fn with_connection<T, F: FnOnce(Option<&Connection>) -> T>(
        &self,
        address: &str,
        f: F,
    ) -> (result: Option<T>)
        requires
            f.requires((None,)),
            forall|connection: &Connection|
                connection@.address == Some(address@) ==> #[trigger] f.requires(
                    (Some(connection),),
                ),
        ensures
            result matches Some(value) ==> answered(f, address@, value),
    {
        match read_lock(&self.connections) {
            Some(guard) => {
                let connections = read_guarded(&guard);
                let found = find(connections, address);
                Some(f(found))
            },
            None => None,
        }
    }

    /// Hands `f` the connection that the registry holds for `address`, to
    /// change it, or `None` where the registry has no such connection, and
    /// gives what `f` returns. The registry is locked for exclusive access
    /// while `f` runs, so `f` must be short and must not wait. It does not
    /// wait for the registry: where someone else holds its lock, also where
    /// the caller itself does, `f` is not called and the result is `None`.
    pub fn with_connection_mut<T, F: FnOnce(Option<&mut Connection>) -> T>(
        &self,
        address: &str,
        f: F,
    ) -> (result: Option<T>)
        requires
            forall|found: Option<&mut Connection>|
                (found matches Some(connection) ==> connection@.address == Some(address@))
                    ==> #[trigger] f.requires((found,)),
        ensures
            result matches Some(value) ==> answered_mut(f, address@, value),
    {
        match write_lock(&self.connections) {
            Some(guard) => {
                let mut guard = guard;
                let connections = write_guarded(&mut guard);
                let found = find_mut(connections, address);
                Some(f(found))
            },
            None => None,
        }
    }

    /// The state of the connection that the registry holds for `address`;
    /// see [`state_in`]. It does not wait for the registry: where a writer
    /// holds its lock the result is `Busy`.
    pub fn net_state_of(&self, address: &str) -> (state: Reach<NetState>) {
        match read_lock(&self.connections) {
            Some(guard) => reached(state_in(read_guarded(&guard), address)),
            None => Reach::Busy,
        }
    }

    /// Sends `data` on the connection that the registry holds for
    /// `address`; see [`send_in`]. Where the registry has no such
    /// connection the data is dropped. It does not wait for the registry:
    /// where someone else holds its lock the result is `Busy` and nothing
    /// was sent.
    pub fn send_to(&self, address: &str, data: Vec<u8>) -> (sent: Reach<Result<(), SendError>>)
        ensures
            sent matches Reach::Found(Err(error)) ==> error.packet@ == (PacketView {
                address: Seq::empty(),
                data: data@,
            }),
    {
        match write_lock(&self.connections) {
            Some(guard) => {
                let mut guard = guard;
                reached(send_in(write_guarded(&mut guard), address, data))
            },
            None => Reach::Busy,
        }
    }

    /// Asks the connection that the registry holds for `address` to stop;
    /// see [`shutdown_in`]. It does not wait for the registry: where a
    /// writer holds its lock the result is `Busy` and nobody was asked.
    pub fn shutdown_connection(&self, address: &str) -> (asked: Reach<()>) {
        match read_lock(&self.connections) {
            Some(guard) => {
                if shutdown_in(read_guarded(&guard), address) {
                    Reach::Found(())
                } else {
                    Reach::Absent
                }
            },
            None => Reach::Busy,
        }
    }

    pub fn port(&self) -> (port: Option<u16>)
        ensures
            port == self@.port,
    {
        self.port
    }

    /// The state of the server: `Inactive` as long as it was never started,
    /// and from then on what its accept task last stored.
    pub fn net_state(&self) -> (state: NetState)
        ensures
            !self@.started ==> state == NetState::Inactive,
    {
        if self.started {
            self.net_state.load()
        } else {
            NetState::Inactive
        }
    }
}

/// Whether `value` is what `f` has returned for what a lookup of the address
/// gave: a connection with that address, or none.
pub open spec fn answered<T, F: FnOnce(Option<&Connection>) -> T>(
    f: F,
    address: Seq<char>,
    value: T,
) -> bool {
    exists|found: Option<&Connection>|
        {
            &&& #[trigger] f.ensures((found,), value)
            &&& found matches Some(connection) ==> connection@.address == Some(address)
        }
}

/// Whether `value` is what `f` has returned for what a lookup of the address
/// gave to change: a connection with that address, or none.
pub open spec fn answered_mut<T, F: FnOnce(Option<&mut Connection>) -> T>(
    f: F,
    address: Seq<char>,
    value: T,
) -> bool {
    exists|found: Option<&mut Connection>|
        {
            &&& #[trigger] f.ensures((found,), value)
            &&& found matches Some(connection) ==> connection@.address == Some(address)
        }
}

} // verus!
