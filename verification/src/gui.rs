//! What the panes of the user interface hold and decide, apart from how they
//! are drawn: the draft that is being typed, the connections that a server
//! pane shows and which of them has the focus, and the role of a tab.

use crate::bus::extends;
use crate::channels::QUEUE_CAPACITY;
use crate::connection::{sent_entry, Connection, ConnectionView, SendError, SessionLink};
use crate::log::{kinds, Log, LogData, LogDataView, PacketView};
use crate::listener::{ListenerEventView, ListenerModel};
use crate::net_state::{Mode, NetState};
use crate::registry::Reach;
use crate::server::{Server, ServerLink, ServerView};
use crate::session::{EventView, SessionModel};
use crate::util::{decimal, decimal_text, trim, trimmed};
use vstd::prelude::*;
use vstd::string::{StrSliceExecFns, StringExecFns};

verus! {

/// The part of a pane that belongs to one connection: the peer's address
/// and the bytes that are being drafted for it.
pub struct ConnectionUI {
    address: String,
    pub draft_data: Vec<u8>,
}

/// What a [`ConnectionUI`] holds.
pub ghost struct ConnectionUIView {
    pub address: Seq<char>,
    pub draft: Seq<u8>,
}

impl View for ConnectionUI {
    type V = ConnectionUIView;

    closed spec fn view(&self) -> ConnectionUIView {
        ConnectionUIView { address: self.address@, draft: self.draft_data@ }
    }
}

impl ConnectionUI {
    pub fn new(address: String) -> (ui: ConnectionUI)
        ensures
            ui@ == (ConnectionUIView { address: address@, draft: Seq::empty() }),
    {
        ConnectionUI { address, draft_data: Vec::new() }
    }

    pub fn address(&self) -> (address: &str)
        ensures
            address@ == self@.address,
    {
        self.address.as_str()
    }

    /// Takes the draft, leaving none.
    pub fn take_draft(&mut self) -> (draft: Vec<u8>)
        ensures
            draft@ == old(self)@.draft,
            final(self)@ == (ConnectionUIView { address: old(self)@.address, draft: Seq::empty() }),
    {
        let draft = self.draft_data.split_off(0);
        assert(draft@ =~= old(self)@.draft);
        assert(self.draft_data@ =~= Seq::<u8>::empty());
        draft
    }
}

/// A client pane: the address as it is typed, the draft, and the
/// connection.
pub struct ClientUI {
    pub address: String,
    pub connection_ui: ConnectionUI,
    backend: Connection,
}

/// What a [`ClientUI`] holds.
pub ghost struct ClientUIView {
    /// The address as it is typed.
    pub address: Seq<char>,
    pub connection_ui: ConnectionUIView,
    pub backend: ConnectionView,
}

impl View for ClientUI {
    type V = ClientUIView;

    closed spec fn view(&self) -> ClientUIView {
        ClientUIView {
            address: self.address@,
            connection_ui: self.connection_ui@,
            backend: self.backend@,
        }
    }
}

impl ClientUI {
    pub fn new() -> (ui: ClientUI)
        ensures
            ui@.address.len() == 0,
            ui@.connection_ui == (ConnectionUIView { address: Seq::empty(), draft: Seq::empty() }),
            ui@.backend.address is None,
            !ui@.backend.started,
            ui@.backend.logs.len() == 0,
    {
        ClientUI {
            address: String::new(),
            connection_ui: ConnectionUI::new(String::new()),
            backend: Connection::new(),
        }
    }

    /// Starts a session towards the address that was typed, if the
    /// connection is inactive; see [`Connection::start_client`]. A pane
    /// whose connection was never started starts.
    pub fn start(&mut self) -> (link: Option<SessionLink>)
        ensures
            final(self)@.address == old(self)@.address,
            final(self)@.connection_ui == old(self)@.connection_ui,
            final(self)@.backend.logs == old(self)@.backend.logs,
            !old(self)@.backend.started ==> link is Some,
            match link {
                Some(link) => {
                    &&& final(self)@.backend.address == Some(old(self)@.address)
                    &&& final(self)@.backend.started
                    &&& link.session@ == SessionModel::idle().next(
                        EventView::StartClient(old(self)@.address),
                    )
                    &&& link.greeting is None
                },
                None => final(self)@.backend == old(self)@.backend,
            },
    {
        let address = self.address.clone();
        self.backend.start_client(address)
    }

    /// Sends the draft and leaves none, whether the send succeeds or not;
    /// see [`Connection::send_data`].
    pub fn send_data(&mut self) -> (sent: Result<(), SendError>)
        ensures
            final(self)@.address == old(self)@.address,
            final(self)@.connection_ui == (ConnectionUIView {
                address: old(self)@.connection_ui.address,
                draft: Seq::empty(),
            }),
            final(self)@.backend.address == old(self)@.backend.address,
            final(self)@.backend.started == old(self)@.backend.started,
            match sent {
                Ok(_) => {
                    &&& final(self)@.backend.logs.len() == old(self)@.backend.logs.len() + 1
                    &&& extends(final(self)@.backend.logs, old(self)@.backend.logs)
                    &&& final(self)@.backend.logs.last()@.data == sent_entry(
                        old(self)@.connection_ui.draft,
                    )
                },
                Err(error) => {
                    &&& final(self)@.backend.logs == old(self)@.backend.logs
                    &&& error.packet@ == (PacketView {
                        address: Seq::empty(),
                        data: old(self)@.connection_ui.draft,
                    })
                },
            },
    {
        let data = self.connection_ui.take_draft();
        self.backend.send_data(data)
    }

    /// Polls the connection's log; see [`Connection::update_and_read_logs`].
    pub fn update_and_read_logs(&mut self) -> (logs: Vec<Log>)
        ensures
            final(self)@.address == old(self)@.address,
            final(self)@.connection_ui == old(self)@.connection_ui,
            final(self)@.backend.address == old(self)@.backend.address,
            final(self)@.backend.started == old(self)@.backend.started,
            extends(final(self)@.backend.logs, old(self)@.backend.logs),
            final(self)@.backend.logs.len() <= old(self)@.backend.logs.len() + QUEUE_CAPACITY,
            logs@.len() == final(self)@.backend.logs.len(),
            forall|i: int|
                0 <= i < logs@.len() ==> #[trigger] logs@[i]@ == final(self)@.backend.logs[i]@,
    {
        self.backend.update_and_read_logs()
    }

    pub fn backend(&self) -> (backend: &Connection)
        ensures
            backend@ == self@.backend,
    {
        &self.backend
    }
}

/// The packet that a failed send of the draft gives back.
pub open spec fn unsent(draft: Seq<u8>) -> PacketView {
    PacketView { address: Seq::empty(), data: draft }
}

/// Whether one of the shown connections has the address.
pub open spec fn shows(peers: Seq<ConnectionUIView>, address: Seq<char>) -> bool {
    exists|at: int| 0 <= at < peers.len() && (#[trigger] peers[at]).address == address
}

/// Whether `at` is the first shown connection with the address.
pub open spec fn first_shown(peers: Seq<ConnectionUIView>, address: Seq<char>, at: int) -> bool {
    &&& 0 <= at < peers.len()
    &&& peers[at].address == address
    &&& forall|before: int| 0 <= before < at ==> (#[trigger] peers[before]).address != address
}

/// The shown connections after new entries of the server's log: each
/// connect from an address that is not shown yet adds a connection with that
/// address and an empty draft, at the end.
pub open spec fn added_peers(peers: Seq<ConnectionUIView>, entries: Seq<LogDataView>) -> Seq<
    ConnectionUIView,
>
    decreases entries.len(),
{
    if entries.len() == 0 {
        peers
    } else {
        let next = match entries[0] {
            LogDataView::ClientConnect(address) => if shows(peers, address) {
                peers
            } else {
                peers.push(ConnectionUIView { address, draft: Seq::empty() })
            },
            _ => peers,
        };
        added_peers(next, entries.drop_first())
    }
}

/// New peers come at the end: the connections that were shown stay where
/// they are, so that what was shown is shown still.
pub proof fn added_peers_keep_the_shown(peers: Seq<ConnectionUIView>, entries: Seq<LogDataView>)
    ensures
        peers.len() <= added_peers(peers, entries).len(),
        added_peers(peers, entries).subrange(0, peers.len() as int) == peers,
        forall|address: Seq<char>|
            shows(peers, address) ==> #[trigger] shows(added_peers(peers, entries), address),
    decreases entries.len(),
{
    let grown = added_peers(peers, entries);
    if entries.len() == 0 {
        assert(grown.subrange(0, peers.len() as int) =~= peers);
    } else {
        let next = match entries[0] {
            LogDataView::ClientConnect(address) => if shows(peers, address) {
                peers
            } else {
                peers.push(ConnectionUIView { address, draft: Seq::empty() })
            },
            _ => peers,
        };
        added_peers_keep_the_shown(next, entries.drop_first());
        assert(next.subrange(0, peers.len() as int) =~= peers);
        assert(grown.subrange(0, peers.len() as int) =~= grown.subrange(
            0,
            next.len() as int,
        ).subrange(0, peers.len() as int));
        assert forall|address: Seq<char>| shows(peers, address) implies #[trigger] shows(
            grown,
            address,
        ) by {
            let at = choose|at: int| 0 <= at < peers.len() && (#[trigger] peers[at]).address
                == address;
            assert(next[at] == peers[at]);
            assert(shows(next, address));
        }
    }
}

/// Where the focus is after the pane at `at`, with the address `closed`,
/// was taken out of `peers`: where it was, unless it was on that address;
/// then on the pane that has taken the place, on the last one where there
/// is no such pane, and nowhere where no pane is left.
pub open spec fn closed_focus(
    peers: Seq<ConnectionUIView>,
    focus: Option<Seq<char>>,
    closed: Seq<char>,
    at: int,
) -> Option<Seq<char>> {
    let left = peers.remove(at);
    if focus != Some(closed) {
        focus
    } else if left.len() == 0 {
        None
    } else if at >= left.len() {
        Some(left.last().address)
    } else {
        Some(left[at].address)
    }
}

/// The views of the connection panes, in order.
pub open spec fn peer_views(uis: Seq<ConnectionUI>) -> Seq<ConnectionUIView> {
    Seq::new(uis.len(), |i: int| uis[i]@)
}

/// The place of the first connection pane with the address.
fn index_of(uis: &Vec<ConnectionUI>, address: &String) -> (place: Option<usize>)
    ensures
        match place {
            Some(at) => first_shown(peer_views(uis@), address@, at as int),
            None => !shows(peer_views(uis@), address@),
        },
{
    let mut at: usize = 0;
    while at < uis.len()
        invariant
            at <= uis.len(),
            forall|before: int|
                0 <= before < at ==> (#[trigger] peer_views(uis@)[before]).address != address@,
        decreases uis.len() - at,
    {
        if uis[at].address == *address {
            return Some(at);
        }
        at += 1;
    }
    None
}

/// A server pane: the port as it is typed, the server, the connections that
/// are shown, and which of them has the focus. Without a focus the server's
/// own log is shown.
pub struct ServerUI {
    pub port: String,
    backend: Server,
    connection_uis: Vec<ConnectionUI>,
    focused_connection: Option<String>,
}

/// What a [`ServerUI`] holds.
pub ghost struct ServerUIView {
    /// The port as it is typed.
    pub port: Seq<char>,
    pub backend: ServerView,
    /// The connections that are shown, in order.
    pub peers: Seq<ConnectionUIView>,
    /// The address of the connection that has the focus.
    pub focus: Option<Seq<char>>,
}

impl ServerUIView {
    /// The focus, where there is one, is on a connection that is shown.
    pub open spec fn well_formed(self) -> bool {
        self.focus matches Some(address) ==> shows(self.peers, address)
    }
}

impl View for ServerUI {
    type V = ServerUIView;

    closed spec fn view(&self) -> ServerUIView {
        ServerUIView {
            port: self.port@,
            backend: self.backend@,
            peers: peer_views(self.connection_uis@),
            focus: match self.focused_connection {
                Some(address) => Some(address@),
                None => None,
            },
        }
    }
}

/// The value of a decimal digit; none for any other character.
pub open spec fn decimal_value(digit: char) -> Option<nat> {
    if digit == '0' {
        Some(0)
    } else if digit == '1' {
        Some(1)
    } else if digit == '2' {
        Some(2)
    } else if digit == '3' {
        Some(3)
    } else if digit == '4' {
        Some(4)
    } else if digit == '5' {
        Some(5)
    } else if digit == '6' {
        Some(6)
    } else if digit == '7' {
        Some(7)
    } else if digit == '8' {
        Some(8)
    } else if digit == '9' {
        Some(9)
    } else {
        None
    }
}

/// Whether the text holds decimal digits only.
pub open spec fn all_decimal(digits: Seq<char>) -> bool {
    forall|at: int| 0 <= at < digits.len() ==> (#[trigger] decimal_value(digits[at])) is Some
}

/// The number that decimal digits write; leading zeros add nothing.
pub open spec fn written(digits: Seq<char>) -> nat
    decreases digits.len(),
{
    if digits.len() == 0 {
        0
    } else {
        10 * written(digits.drop_last()) + decimal_value(digits.last())->0
    }
}

/// The port that a text writes: an optional `+`, then one decimal digit or
/// more and nothing else, not even white space, with a value of 65535 at
/// most. Any other text writes no port.
pub open spec fn parsed_port(text: Seq<char>) -> Option<u16> {
    let digits = if text.len() > 0 && text[0] == '+' {
        text.drop_first()
    } else {
        text
    };
    if digits.len() > 0 && all_decimal(digits) && written(digits) <= 65535 {
        Some(written(digits) as u16)
    } else {
        None
    }
}

/// `str::parse::<u16>`: the number that the text writes, as
/// [`parsed_port`] says it. Why a text is refused (no digit, a character
/// that is none, a number too large) is dropped here.
#[verifier::external_body]
fn parse_port(text: &str) -> (port: Option<u16>)
    ensures
        port == parsed_port(text@),
{
    text.parse::<u16>().ok()
}

impl ServerUI {
    pub fn new() -> (ui: ServerUI)
        ensures
            ui@.port.len() == 0,
            ui@.backend.port is None,
            !ui@.backend.started,
            ui@.backend.logs.len() == 0,
            ui@.peers.len() == 0,
            ui@.focus is None,
    {
        ServerUI {
            port: String::new(),
            backend: Server::new(),
            connection_uis: Vec::new(),
            focused_connection: None,
        }
    }

    /// Starts to listen on the given port if the server is inactive; see
    /// [`Server::start`]. A pane whose server was never started starts.
    pub fn start_on(&mut self, port: u16) -> (link: Option<ServerLink>)
        ensures
            final(self)@.port == old(self)@.port,
            final(self)@.peers == old(self)@.peers,
            final(self)@.focus == old(self)@.focus,
            final(self)@.backend.logs == old(self)@.backend.logs,
            !old(self)@.backend.started ==> link is Some,
            match link {
                Some(link) => {
                    &&& final(self)@.backend.port == Some(port)
                    &&& final(self)@.backend.started
                    &&& link.listener@ == ListenerModel::idle().next(ListenerEventView::Start(port))
                },
                None => final(self)@.backend == old(self)@.backend,
            },
    {
        self.backend.start(port)
    }

    /// Starts to listen on the port that was typed. Where the text is no
    /// port nothing changes and there is no link; else this is
    /// [`ServerUI::start_on`] with that port, so that a pane with a port
    /// typed whose server was never started starts.
    pub fn start(&mut self) -> (link: Option<ServerLink>)
        ensures
            final(self)@.port == old(self)@.port,
            final(self)@.peers == old(self)@.peers,
            final(self)@.focus == old(self)@.focus,
            final(self)@.backend.logs == old(self)@.backend.logs,
            parsed_port(old(self)@.port) is None ==> link is None,
            parsed_port(old(self)@.port) is Some && !old(self)@.backend.started ==> link is Some,
            match link {
                Some(link) => {
                    &&& parsed_port(old(self)@.port) matches Some(port)
                    &&& final(self)@.backend.port == Some(port)
                    &&& final(self)@.backend.started
                    &&& link.listener@ == ListenerModel::idle().next(ListenerEventView::Start(port))
                },
                None => final(self)@.backend == old(self)@.backend,
            },
    {
        match parse_port(self.port.as_str()) {
            Some(port) => self.start_on(port),
            None => None,
        }
    }

    /// Shows a connection for each connect among the entries from `from`
    /// on, unless its address is shown already.
    fn show_new_peers(&mut self, logs: &Vec<Log>, from: usize)
        requires
            from <= logs@.len(),
        ensures
            final(self)@.port == old(self)@.port,
            final(self)@.backend == old(self)@.backend,
            final(self)@.focus == old(self)@.focus,
            final(self)@.peers == added_peers(
                old(self)@.peers,
                kinds(logs@).subrange(from as int, logs@.len() as int),
            ),
    {
        let ghost entries = kinds(logs@);
        let ghost end = logs@.len() as int;
        let mut at = from;
        while at < logs.len()
            invariant
                from <= at <= logs@.len(),
                end == logs@.len(),
                entries == kinds(logs@),
                self@.port == old(self)@.port,
                self@.backend == old(self)@.backend,
                self@.focus == old(self)@.focus,
                added_peers(self@.peers, entries.subrange(at as int, end)) == added_peers(
                    old(self)@.peers,
                    entries.subrange(from as int, end),
                ),
            decreases logs.len() - at,
        {
            let ghost before = self@.peers;
            let ghost rest = entries.subrange(at as int, end);
            assert(rest[0] == logs@[at as int]@.data);
            assert(rest.drop_first() =~= entries.subrange(at as int + 1, end));
            match &logs[at].data {
                LogData::ClientConnect(address) => {
                    if index_of(&self.connection_uis, address).is_none() {
                        self.connection_uis.push(ConnectionUI::new(address.clone()));
                        assert(self@.peers =~= before.push(
                            ConnectionUIView { address: address@, draft: Seq::empty() },
                        ));
                    }
                },
                _ => {},
            }
            at += 1;
        }
        assert(entries.subrange(at as int, end) =~= Seq::<LogDataView>::empty());
    }

    /// Polls the server's log and shows a connection for each new connect
    /// whose address is not shown yet. The result is the log to show: that
    /// of the connection in focus, polled in turn, or the server's own
    /// where nothing is in focus. Where the registry holds no connection
    /// for the focus it is `Absent`, and `Busy` where the registry was
    /// locked; then the log of the focus was not polled and the next call
    /// polls it.
    pub fn update_read_and_process_logs(&mut self) -> (logs: Reach<Vec<Log>>)
        ensures
            final(self)@.port == old(self)@.port,
            final(self)@.focus == old(self)@.focus,
            final(self)@.backend.port == old(self)@.backend.port,
            final(self)@.backend.started == old(self)@.backend.started,
            extends(final(self)@.backend.logs, old(self)@.backend.logs),
            final(self)@.backend.logs.len() <= old(self)@.backend.logs.len() + QUEUE_CAPACITY,
            final(self)@.peers == added_peers(
                old(self)@.peers,
                kinds(final(self)@.backend.logs).subrange(
                    old(self)@.backend.logs.len() as int,
                    final(self)@.backend.logs.len() as int,
                ),
            ),
            old(self)@.well_formed() ==> final(self)@.well_formed(),
            old(self)@.focus is None ==> {
                &&& logs matches Reach::Found(shown)
                &&& shown@.len() == final(self)@.backend.logs.len()
                &&& forall|i: int|
                    0 <= i < shown@.len() ==> #[trigger] shown@[i]@ == final(
                        self
                    )@.backend.logs[i]@
            },
    {
        let (server_logs, prior_len) = self.backend.update_and_read_logs();
        assert(kinds(server_logs@) =~= kinds(self.backend@.logs));
        proof {
            added_peers_keep_the_shown(
                self@.peers,
                kinds(server_logs@).subrange(prior_len as int, server_logs@.len() as int),
            );
        }
        self.show_new_peers(&server_logs, prior_len);
        match &self.focused_connection {
            Some(address) => self.backend.update_and_read_logs_for(address.as_str()),
            None => Reach::Found(server_logs),
        }
    }

    pub fn focused_connection(&self) -> (address: Option<&str>)
        ensures
            match address {
                Some(text) => self@.focus == Some(text@),
                None => self@.focus is None,
            },
    {
        match &self.focused_connection {
            Some(address) => Some(address.as_str()),
            None => None,
        }
    }

    /// Puts the focus on the connection with the address, if one is shown;
    /// else the focus stays where it is. `None` puts it on the server's own
    /// log.
    pub fn set_focused_connection(&mut self, conn_addr: Option<String>)
        ensures
            final(self)@.port == old(self)@.port,
            final(self)@.backend == old(self)@.backend,
            final(self)@.peers == old(self)@.peers,
            final(self)@.focus == match conn_addr {
                Some(address) => if shows(old(self)@.peers, address@) {
                    Some(address@)
                } else {
                    old(self)@.focus
                },
                None => None,
            },
            old(self)@.well_formed() ==> final(self)@.well_formed(),
    {
        match conn_addr {
            Some(address) => {
                if index_of(&self.connection_uis, &address).is_some() {
                    self.focused_connection = Some(address);
                }
            },
            None => {
                self.focused_connection = None;
            },
        }
    }

    /// The first shown connection with the address.
    pub fn connection_ui_from_addr(&self, address: &str) -> (found: Option<&ConnectionUI>)
        ensures
            match found {
                Some(ui) => exists|at: int|
                    first_shown(self@.peers, address@, at) && ui@ == self@.peers[at],
                None => !shows(self@.peers, address@),
            },
    {
        let wanted = address.to_owned();
        match index_of(&self.connection_uis, &wanted) {
            Some(at) => {
                assert(self@.peers[at as int] == self.connection_uis@[at as int]@);
                Some(&self.connection_uis[at])
            },
            None => None,
        }
    }

    /// The first shown connection with the address, to change its draft. No
    /// other connection changes.
    pub fn connection_ui_from_addr_mut(&mut self, address: &str) -> (found: Option<
        &mut ConnectionUI,
    >)
        ensures
            match found {
                Some(ui) => exists|at: int|
                    {
                        &&& first_shown(old(self)@.peers, address@, at)
                        &&& ui@ == old(self)@.peers[at]
                        &&& final(self)@ == (ServerUIView {
                            peers: old(self)@.peers.update(at, final(ui)@),
                            ..old(self)@
                        })
                    },
                None => !shows(old(self)@.peers, address@) && final(self)@ == old(self)@,
            },
    {
        let wanted = address.to_owned();
        match index_of(&self.connection_uis, &wanted) {
            Some(at) => {
                assert(self@.peers[at as int] == self.connection_uis@[at as int]@);
                let ghost before = self.connection_uis@;
                let ui = &mut self.connection_uis[at];
                proof {
                    let after = before.update(at as int, *final(ui));
                    assert(peer_views(after) =~= peer_views(before).update(at as int, final(ui)@));
                }
                Some(ui)
            },
            None => None,
        }
    }

    /// The connection that has the focus.
    pub fn focused_connection_ui(&self) -> (found: Option<&ConnectionUI>)
        requires
            self@.well_formed(),
        ensures
            match self@.focus {
                Some(address) => found matches Some(ui) && exists|at: int|
                    first_shown(self@.peers, address, at) && ui@ == self@.peers[at],
                None => found is None,
            },
    {
        match &self.focused_connection {
            Some(address) => self.connection_ui_from_addr(address.as_str()),
            None => None,
        }
    }

    /// The connection that has the focus, to change its draft.
    pub fn focused_connection_ui_mut(&mut self) -> (found: Option<&mut ConnectionUI>)
        requires
            old(self)@.well_formed(),
        ensures
            match old(self)@.focus {
                Some(address) => found matches Some(ui) && exists|at: int|
                    {
                        &&& first_shown(old(self)@.peers, address, at)
                        &&& ui@ == old(self)@.peers[at]
                        &&& final(self)@ == (ServerUIView {
                            peers: old(self)@.peers.update(at, final(ui)@),
                            ..old(self)@
                        })
                    },
                None => found is None && final(self)@ == old(self)@,
            },
    {
        match self.focused_connection.clone() {
            Some(address) => self.connection_ui_from_addr_mut(address.as_str()),
            None => None,
        }
    }

    /// Hands `f` the connection that has the focus, as the registry has it,
    /// to change it, or `None` without a focus and where the registry does
    /// not know the connection, and gives what `f` returns. See
    /// [`Server::with_connection_mut`]: where the registry was locked, `f`
    /// is not called and the result is `None`.
    pub fn with_focused_connection_mut<T, F: FnOnce(Option<&mut Connection>) -> T>(
        &self,
        f: F,
    ) -> (result: Option<T>)
        requires
            forall|found: Option<&mut Connection>|
                (found matches Some(connection) ==> self@.focus == Some(
                    connection@.address->0,
                ) && connection@.address is Some) ==> #[trigger] f.requires((found,)),
        ensures
            self@.focus is None ==> result is Some,
            result matches Some(value) ==> answered_in_focus(f, self@.focus, value),
    {
        match &self.focused_connection {
            Some(address) => self.backend.with_connection_mut(address.as_str(), f),
            None => Some(f(None)),
        }
    }

    /// Sends the draft of the connection in focus. Without a focus nothing
    /// happens and the result is `Absent`. Where the registry was locked
    /// the result is `Busy`, nothing was sent and the draft stays, to be
    /// sent by a later call. In every other case the draft is taken: where
    /// the registry holds no connection for the focus it is dropped, where
    /// the connection's session has ended the send fails and the error
    /// holds the draft as a packet.
    pub fn send_focused_connection_data(&mut self) -> (sent: Reach<Result<(), SendError>>)
        requires
            old(self)@.well_formed(),
        ensures
            final(self)@.well_formed(),
            match old(self)@.focus {
                Some(address) => exists|at: int|
                    {
                        &&& first_shown(old(self)@.peers, address, at)
                        &&& final(self)@ == if sent is Busy {
                            old(self)@
                        } else {
                            ServerUIView {
                                peers: old(self)@.peers.update(
                                    at,
                                    ConnectionUIView { address, draft: Seq::empty() },
                                ),
                                ..old(self)@
                            }
                        }
                        &&& sent matches Reach::Found(Err(error)) ==> error.packet@ == unsent(
                            old(self)@.peers[at].draft,
                        )
                    },
                None => final(self)@ == old(self)@ && sent is Absent,
            },
    {
        let ghost before = self@;
        let data = match self.focused_connection_ui() {
            Some(ui) => {
                let data = ui.draft_data.clone();
                assert(data@ =~= ui@.draft);
                data
            },
            None => {
                return Reach::Absent;
            },
        };
        let sent = match &self.focused_connection {
            Some(address) => self.backend.send_to(address.as_str(), data),
            None => Reach::Absent,
        };
        if let Reach::Busy = sent {
            return sent;
        }
        match self.focused_connection_ui_mut() {
            Some(ui) => {
                ui.take_draft();
            },
            None => {},
        }
        proof {
            let address = before.focus->0;
            let at = choose|at: int|
                first_shown(before.peers, address, at) && self@ == (ServerUIView {
                    peers: before.peers.update(
                        at,
                        ConnectionUIView { address, draft: Seq::empty() },
                    ),
                    ..before
                });
            assert(self@.peers[at].address == address);
            let shown = choose|shown: int|
                first_shown(before.peers, address, shown) && data@ == before.peers[shown].draft;
            assert(shown == at);
        }
        sent
    }

    /// Closes the pane of a connection, given the state in which the
    /// connection was found (`None`: the registry was not reached, or holds
    /// no such connection). Only
    /// the pane of a connection that is known and inactive closes: the
    /// first one shown with the address is taken out. Where it had the
    /// focus, the focus goes to the pane that has taken its place, or to the
    /// last one where it was the last, or to the server's own log where
    /// none is left. The result says whether a pane was closed.
    pub fn close_connection_ui_found(&mut self, address: &str, found: Option<NetState>) -> (closed:
        bool)
        requires
            old(self)@.well_formed(),
        ensures
            final(self)@.well_formed(),
            closed == (shows(old(self)@.peers, address@) && found == Some(NetState::Inactive)),
            closed ==> exists|at: int|
                {
                    &&& first_shown(old(self)@.peers, address@, at)
                    &&& final(self)@ == (ServerUIView {
                        peers: old(self)@.peers.remove(at),
                        focus: closed_focus(old(self)@.peers, old(self)@.focus, address@, at),
                        ..old(self)@
                    })
                },
            !closed ==> final(self)@ == old(self)@,
    {
        let wanted = address.to_owned();
        let at = match index_of(&self.connection_uis, &wanted) {
            Some(at) => at,
            None => {
                return false;
            },
        };
        match found {
            Some(NetState::Inactive) => {},
            _ => {
                return false;
            },
        }
        let ghost before = self@;
        self.connection_uis.remove(at);
        assert(self@.peers =~= before.peers.remove(at as int));
        let refocus = match &self.focused_connection {
            Some(focused) => *focused == wanted,
            None => false,
        };
        if refocus {
            let left = self.connection_uis.len();
            if left == 0 {
                self.focused_connection = None;
            } else {
                let heir = if at >= left {
                    left - 1
                } else {
                    at
                };
                assert(self@.peers[heir as int] == self.connection_uis@[heir as int]@);
                self.focused_connection = Some(self.connection_uis[heir].address.clone());
            }
        } else {
            proof {
                if before.focus is Some {
                    let focused = before.focus->0;
                    let shown = choose|shown: int|
                        0 <= shown < before.peers.len() && (#[trigger] before.peers[shown]).address
                            == focused;
                    let moved = if shown < at {
                        shown
                    } else {
                        shown - 1
                    };
                    assert(self@.peers[moved] == before.peers[shown]);
                }
            }
        }
        true
    }

    /// Closes the pane of a connection if the connection is inactive; see
    /// [`ServerUI::close_connection_ui_found`]. A pane that is not shown, or
    /// whose connection still runs or is unknown to the registry, stays,
    /// and so does every pane while the registry is locked.
    pub fn close_connection_ui(&mut self, address: &str) -> (closed: bool)
        requires
            old(self)@.well_formed(),
        ensures
            final(self)@.well_formed(),
            closed ==> exists|at: int|
                {
                    &&& first_shown(old(self)@.peers, address@, at)
                    &&& final(self)@ == (ServerUIView {
                        peers: old(self)@.peers.remove(at),
                        focus: closed_focus(old(self)@.peers, old(self)@.focus, address@, at),
                        ..old(self)@
                    })
                },
            !closed ==> final(self)@ == old(self)@,
    {
        let found = match self.backend.net_state_of(address) {
            Reach::Found(state) => Some(state),
            _ => None,
        };
        self.close_connection_ui_found(address, found)
    }

    /// Whether the focus, where there is one, is on a shown connection.
    pub fn is_well_formed(&self) -> (well_formed: bool)
        ensures
            well_formed == self@.well_formed(),
    {
        match &self.focused_connection {
            Some(address) => index_of(&self.connection_uis, address).is_some(),
            None => true,
        }
    }

    pub fn connection_uis(&self) -> (uis: &Vec<ConnectionUI>)
        ensures
            peer_views(uis@) == self@.peers,
    {
        &self.connection_uis
    }

    pub fn is_server_log_focused(&self) -> (focused: bool)
        ensures
            focused == self@.focus is None,
    {
        self.focused_connection.is_none()
    }

    pub fn backend(&self) -> (backend: &Server)
        ensures
            backend@ == self@.backend,
    {
        &self.backend
    }

    pub fn backend_mut(&mut self) -> (backend: &mut Server)
        ensures
            backend@ == old(self)@.backend,
            final(self)@ == (ServerUIView { backend: final(backend)@, ..old(self)@ }),
    {
        &mut self.backend
    }
}

impl ConnectionUI {
    /// Sends the draft on the connection of this pane; see
    /// [`Server::send_to`]. Where the registry of `parent` was locked the
    /// result is `Busy`, nothing was sent and the draft stays. In every
    /// other case the draft is taken; it is dropped where the registry
    /// holds no connection for this pane.
    pub fn send_data(&mut self, parent: &mut ServerUI) -> (sent: Reach<Result<(), SendError>>)
        ensures
            final(self)@ == if sent is Busy {
                old(self)@
            } else {
                ConnectionUIView { address: old(self)@.address, draft: Seq::empty() }
            },
            final(parent)@ == old(parent)@,
            sent matches Reach::Found(Err(error)) ==> error.packet@ == unsent(old(self)@.draft),
    {
        let data = self.draft_data.clone();
        assert(data@ =~= self@.draft);
        let sent = parent.backend.send_to(self.address.as_str(), data);
        if let Reach::Busy = sent {
            return sent;
        }
        self.take_draft();
        sent
    }

    /// Polls the log of the connection of this pane and gives a copy of it;
    /// `Absent` where the registry of `parent` holds no connection for this
    /// pane, `Busy` where it was locked.
    pub fn update_and_read_logs(&self, parent: &ServerUI) -> (logs: Reach<Vec<Log>>) {
        let polled = parent.backend.with_connection_mut(
            self.address.as_str(),
            |found: Option<&mut Connection>| -> (logs: Reach<Vec<Log>>)
                {
                    // What is done with the connection that the registry
                    // gives, and without one, is for `poll_found` to say.
                    let logs = crate::registry::poll_found(found);
                    crate::registry::reached(logs)
                },
        );
        match polled {
            Some(logs) => logs,
            None => Reach::Busy,
        }
    }

    /// The state of the connection of this pane; `Absent` where the
    /// registry of `parent` holds no connection for this pane, `Busy` where
    /// it was locked.
    pub fn net_state(&self, parent: &ServerUI) -> (state: Reach<NetState>) {
        parent.backend.net_state_of(self.address.as_str())
    }

    /// Hands `f` the connection of this pane and gives what `f` returns.
    /// Without a call of `f` the result is `Absent` where the registry of
    /// `parent` holds no connection for this pane, and `Busy` where it was
    /// locked. See [`Server::with_connection`].
    pub fn with_backend<T, F: FnOnce(&Connection) -> T>(&self, parent: &ServerUI, f: F) -> (result:
        Reach<T>)
        requires
            forall|connection: &Connection|
                connection@.address == Some(self@.address) ==> #[trigger] f.requires(
                    (connection,),
                ),
        ensures
            result matches Reach::Found(value) ==> returned_on(f, self@.address, value),
    {
        let reach = parent.backend.with_connection(
            self.address.as_str(),
            (|found: Option<&Connection>| -> (result: Reach<T>)
                requires
                    (found matches Some(known) ==> known@.address == Some(self@.address)),
                    (forall|connection: &Connection|
                        connection@.address == Some(self@.address) ==> #[trigger] f.requires(
                            (connection,),
                        )),
                ensures
                    (found is None ==> result is Absent),
                    (found is Some ==> result is Found),
                    (result matches Reach::Found(value) ==> returned_on(f, self@.address, value)),
                {
                    match found {
                        Some(connection) => Reach::Found(f(connection)),
                        None => Reach::Absent,
                    }
                }),
        );
        match reach {
            Some(result) => result,
            None => Reach::Busy,
        }
    }

    /// Hands `f` the connection of this pane, to change it, and gives what
    /// `f` returns. Without a call of `f` the result is `Absent` where the
    /// registry of `parent` holds no connection for this pane, and `Busy`
    /// where it was locked. See [`Server::with_connection_mut`]. The
    /// connection that `f` has changed stays in the registry; what `f`
    /// returned for it is the result.
    pub fn with_backend_mut<T, F: FnOnce(&mut Connection) -> T>(
        &self,
        parent: &ServerUI,
        f: F,
    ) -> (result: Reach<T>)
        requires
            takes_each(f, self@.address),
        ensures
            result matches Reach::Found(value) ==> returned_for(f, self@.address, value),
    {
        let reach = parent.backend.with_connection_mut(
            self.address.as_str(),
            (|found: Option<&mut Connection>| -> (result: Reach<T>)
                requires
                    (found matches Some(known) ==> known@.address == Some(self@.address)),
                    (takes_each(f, self@.address)),
                ensures
                    (found is None ==> result is Absent),
                    (found is Some ==> result is Found),
                    (result matches Reach::Found(value) ==> returned_for(f, self@.address, value)),
                {
                    match found {
                        Some(connection) => Reach::Found(f(connection)),
                        None => Reach::Absent,
                    }
                }),
        );
        match reach {
            Some(result) => result,
            None => Reach::Busy,
        }
    }
}

/// One tab: a client pane or a server pane, by its mode.
pub struct Tab {
    pub id: u32,
    mode: Mode,
    client: Option<ClientUI>,
    server: Option<ServerUI>,
}

/// What a [`Tab`] holds.
pub ghost struct TabView {
    pub id: u32,
    pub mode: Mode,
    pub client: Option<ClientUIView>,
    pub server: Option<ServerUIView>,
}

impl TabView {
    /// The tab has the pane of its mode and no other, and a server pane is
    /// well formed.
    pub open spec fn well_formed(self) -> bool {
        match self.mode {
            Mode::Client => self.client is Some && self.server is None,
            Mode::Server => self.client is None && self.server is Some
                && self.server->0.well_formed(),
        }
    }
}

/// The title of a tab with the given mode and number, where `typed` is what
/// was typed into its pane, without the white space around it: the typed
/// address of a client, `Server on` and the typed port of a server, and
/// where nothing is typed, the mode, `Tab` and the number.
pub open spec fn title_of(typed: Seq<char>, mode: Mode, id: u32) -> Seq<char> {
    if typed.len() != 0 {
        match mode {
            Mode::Client => typed,
            Mode::Server => "Server on "@ + typed,
        }
    } else {
        mode.shown() + " Tab "@ + decimal(id as nat)
    }
}

/// The title of a tab; see [`title_of`].
pub fn title_for(typed: &str, mode: Mode, id: u32) -> (title: String)
    ensures
        title@ == title_of(typed@, mode, id),
{
    if !typed.is_empty() {
        match mode {
            Mode::Client => typed.to_owned(),
            Mode::Server => String::from_str("Server on ").concat(typed),
        }
    } else {
        String::from_str(mode.name()).concat(" Tab ").concat(decimal_text(id).as_str())
    }
}

impl TabView {
    /// The title that the tab shows: [`title_of`] what is typed into its
    /// pane, trimmed.
    pub open spec fn title(self) -> Seq<char> {
        match self.mode {
            Mode::Client => title_of(trimmed(self.client->0.address), self.mode, self.id),
            Mode::Server => title_of(trimmed(self.server->0.port), self.mode, self.id),
        }
    }
}

impl View for Tab {
    type V = TabView;

    closed spec fn view(&self) -> TabView {
        TabView {
            id: self.id,
            mode: self.mode,
            client: match self.client {
                Some(client) => Some(client@),
                None => None,
            },
            server: match self.server {
                Some(server) => Some(server@),
                None => None,
            },
        }
    }
}

impl Tab {
    /// A tab in client mode, with a new client pane.
    pub fn new(id: u32) -> (tab: Tab)
        ensures
            tab@.id == id,
            tab@.mode == Mode::Client,
            tab@.well_formed(),
            tab@.client matches Some(client) && client.address.len() == 0
                && client.backend.address is None && !client.backend.started
                && client.backend.logs.len() == 0 && client.connection_ui.draft.len() == 0,
    {
        Tab { id, mode: Mode::Client, client: Some(ClientUI::new()), server: None }
    }

    /// Starts the client's session; see [`ClientUI::start`]. The tab must
    /// be in client mode.
    pub fn start_client(&mut self) -> (link: Option<SessionLink>)
        requires
            old(self)@.well_formed(),
            old(self)@.mode == Mode::Client,
        ensures
            final(self)@.well_formed(),
            final(self)@.id == old(self)@.id,
            final(self)@.mode == old(self)@.mode,
            ({
                let before = old(self)@.client->0;
                &&& final(self)@.client matches Some(client)
                &&& client.address == before.address
                &&& client.connection_ui == before.connection_ui
                &&& client.backend.logs == before.backend.logs
                &&& !before.backend.started ==> link is Some
                &&& match link {
                    Some(link) => {
                        &&& client.backend.address == Some(before.address)
                        &&& client.backend.started
                        &&& link.session@ == SessionModel::idle().next(
                            EventView::StartClient(before.address),
                        )
                        &&& link.greeting is None
                    },
                    None => client.backend == before.backend,
                }
            }),
    {
        match &mut self.client {
            Some(client) => client.start(),
            None => None,
        }
    }

    /// Starts the server; see [`ServerUI::start`]. The tab must be in
    /// server mode.
    pub fn start_server(&mut self) -> (link: Option<ServerLink>)
        requires
            old(self)@.well_formed(),
            old(self)@.mode == Mode::Server,
        ensures
            final(self)@.well_formed(),
            final(self)@.id == old(self)@.id,
            final(self)@.mode == old(self)@.mode,
            ({
                let before = old(self)@.server->0;
                &&& final(self)@.server matches Some(server)
                &&& server.port == before.port
                &&& server.peers == before.peers
                &&& server.focus == before.focus
                &&& server.backend.logs == before.backend.logs
                &&& parsed_port(before.port) is None ==> link is None
                &&& parsed_port(before.port) is Some && !before.backend.started ==> link is Some
                &&& match link {
                    Some(link) => {
                        &&& parsed_port(before.port) matches Some(port)
                        &&& server.backend.port == Some(port)
                        &&& server.backend.started
                        &&& link.listener@ == ListenerModel::idle().next(
                            ListenerEventView::Start(port),
                        )
                    },
                    None => server.backend == before.backend,
                }
            }),
    {
        match &mut self.server {
            Some(server) => server.start(),
            None => None,
        }
    }

    /// The draft that is being typed: the client's, or that of the
    /// connection in focus of the server; none where the server's own log
    /// is in focus.
    pub fn draft_data_mut(&mut self) -> (draft: Option<&mut Vec<u8>>)
        requires
            old(self)@.well_formed(),
        ensures
            match old(self)@.mode {
                Mode::Client => {
                    let before = old(self)@.client->0;
                    &&& draft matches Some(bytes)
                    &&& bytes@ == before.connection_ui.draft
                    &&& final(self)@ == (TabView {
                        client: Some(
                            ClientUIView {
                                connection_ui: ConnectionUIView {
                                    draft: final(bytes)@,
                                    ..before.connection_ui
                                },
                                ..before
                            },
                        ),
                        ..old(self)@
                    })
                },
                Mode::Server => {
                    let before = old(self)@.server->0;
                    match before.focus {
                        Some(address) => draft matches Some(bytes) && exists|at: int|
                            {
                                &&& first_shown(before.peers, address, at)
                                &&& bytes@ == before.peers[at].draft
                                &&& final(self)@ == (TabView {
                                    server: Some(
                                        ServerUIView {
                                            peers: before.peers.update(
                                                at,
                                                ConnectionUIView { address, draft: final(bytes)@ },
                                            ),
                                            ..before
                                        },
                                    ),
                                    ..old(self)@
                                })
                            },
                        None => draft is None && final(self)@ == old(self)@,
                    }
                },
            },
    {
        if let Some(client) = &mut self.client {
            Some(&mut client.connection_ui.draft_data)
        } else if let Some(server) = &mut self.server {
            if let Some(ui) = server.focused_connection_ui_mut() {
                Some(&mut ui.draft_data)
            } else {
                None
            }
        } else {
            None
        }
    }

    /// Sends the draft of the pane; see [`ClientUI::send_data`], whose
    /// result comes as `Found`, and
    /// [`ServerUI::send_focused_connection_data`].
    pub fn send_data(&mut self) -> (sent: Reach<Result<(), SendError>>)
        requires
            old(self)@.well_formed(),
        ensures
            final(self)@.well_formed(),
            final(self)@.id == old(self)@.id,
            final(self)@.mode == old(self)@.mode,
            match old(self)@.mode {
                Mode::Client => {
                    let before = old(self)@.client->0;
                    let after = final(self)@.client->0;
                    &&& after.address == before.address
                    &&& after.backend.address == before.backend.address
                    &&& after.backend.started == before.backend.started
                    &&& after.connection_ui == (ConnectionUIView {
                        address: before.connection_ui.address,
                        draft: Seq::empty(),
                    })
                    &&& match sent {
                        Reach::Found(Ok(_)) => after.backend.logs.len()
                            == before.backend.logs.len() + 1 && extends(
                            after.backend.logs,
                            before.backend.logs,
                        ) && after.backend.logs.last()@.data == sent_entry(
                            before.connection_ui.draft,
                        ),
                        Reach::Found(Err(error)) => after.backend.logs == before.backend.logs
                            && error.packet@ == unsent(before.connection_ui.draft),
                        _ => false,
                    }
                },
                Mode::Server => {
                    let before = old(self)@.server->0;
                    let after = final(self)@.server->0;
                    match before.focus {
                        Some(address) => exists|at: int|
                            {
                                &&& first_shown(before.peers, address, at)
                                &&& after == if sent is Busy {
                                    before
                                } else {
                                    ServerUIView {
                                        peers: before.peers.update(
                                            at,
                                            ConnectionUIView { address, draft: Seq::empty() },
                                        ),
                                        ..before
                                    }
                                }
                                &&& sent matches Reach::Found(Err(error)) ==> error.packet@
                                    == unsent(before.peers[at].draft)
                            },
                        None => after == before && sent is Absent,
                    }
                },
            },
    {
        if let Some(client) = &mut self.client {
            Reach::Found(client.send_data())
        } else if let Some(server) = &mut self.server {
            server.send_focused_connection_data()
        } else {
            Reach::Absent
        }
    }

    /// Polls the log to show: the client's, which comes as `Found`, or what
    /// the server pane shows; see [`ClientUI::update_and_read_logs`] and
    /// [`ServerUI::update_read_and_process_logs`].
    pub fn update_and_read_logs(&mut self) -> (logs: Reach<Vec<Log>>)
        requires
            old(self)@.well_formed(),
        ensures
            final(self)@.well_formed(),
            final(self)@.id == old(self)@.id,
            final(self)@.mode == old(self)@.mode,
            match old(self)@.mode {
                Mode::Client => {
                    let before = old(self)@.client->0;
                    &&& final(self)@.server is None
                    &&& final(self)@.client matches Some(after)
                    &&& after.address == before.address
                    &&& after.connection_ui == before.connection_ui
                    &&& after.backend.address == before.backend.address
                    &&& after.backend.started == before.backend.started
                    &&& extends(after.backend.logs, before.backend.logs)
                    &&& logs matches Reach::Found(shown)
                    &&& shown@.len() == after.backend.logs.len()
                    &&& forall|i: int|
                        0 <= i < shown@.len() ==> #[trigger] shown@[i]@ == after.backend.logs[i]@
                },
                Mode::Server => {
                    let before = old(self)@.server->0;
                    &&& final(self)@.client is None
                    &&& final(self)@.server matches Some(after)
                    &&& after.port == before.port
                    &&& after.focus == before.focus
                    &&& after.backend.port == before.backend.port
                    &&& after.backend.started == before.backend.started
                    &&& extends(after.backend.logs, before.backend.logs)
                    &&& after.peers == added_peers(
                        before.peers,
                        kinds(after.backend.logs).subrange(
                            before.backend.logs.len() as int,
                            after.backend.logs.len() as int,
                        ),
                    )
                    &&& before.focus is None ==> {
                        &&& logs matches Reach::Found(shown)
                        &&& shown@.len() == after.backend.logs.len()
                        &&& forall|i: int|
                            0 <= i < shown@.len() ==> #[trigger] shown@[i]@
                                == after.backend.logs[i]@
                    }
                },
            },
    {
        match self.mode {
            Mode::Client => match &mut self.client {
                Some(client) => Reach::Found(client.update_and_read_logs()),
                None => Reach::Absent,
            },
            Mode::Server => match &mut self.server {
                Some(server) => server.update_read_and_process_logs(),
                None => Reach::Absent,
            },
        }
    }

    /// The client pane. The tab must be in client mode.
    pub fn client(&self) -> (client: &ClientUI)
        requires
            self@.client is Some,
        ensures
            self@.client == Some(client@),
    {
        self.client.as_ref().unwrap()
    }

    /// The client pane, to change it. The tab must be in client mode.
    pub fn client_mut(&mut self) -> (client: &mut ClientUI)
        requires
            old(self)@.client is Some,
        ensures
            old(self)@.client == Some(client@),
            final(self)@ == (TabView { client: Some(final(client)@), ..old(self)@ }),
    {
        self.client.as_mut().unwrap()
    }

    /// The server pane. The tab must be in server mode.
    pub fn server(&self) -> (server: &ServerUI)
        requires
            self@.server is Some,
        ensures
            self@.server == Some(server@),
    {
        self.server.as_ref().unwrap()
    }

    /// The server pane, to change it. The tab must be in server mode.
    pub fn server_mut(&mut self) -> (server: &mut ServerUI)
        requires
            old(self)@.server is Some,
        ensures
            old(self)@.server == Some(server@),
            final(self)@ == (TabView { server: Some(final(server)@), ..old(self)@ }),
    {
        self.server.as_mut().unwrap()
    }

    pub fn client_safe(&self) -> (client: Option<&ClientUI>)
        ensures
            match client {
                Some(client) => self@.client == Some(client@),
                None => self@.client is None,
            },
    {
        self.client.as_ref()
    }

    pub fn client_mut_safe(&mut self) -> (client: Option<&mut ClientUI>)
        ensures
            match client {
                Some(client) => old(self)@.client == Some(client@) && final(self)@ == (TabView {
                    client: Some(final(client)@),
                    ..old(self)@
                }),
                None => old(self)@.client is None && final(self)@ == old(self)@,
            },
    {
        self.client.as_mut()
    }

    pub fn server_safe(&self) -> (server: Option<&ServerUI>)
        ensures
            match server {
                Some(server) => self@.server == Some(server@),
                None => self@.server is None,
            },
    {
        self.server.as_ref()
    }

    pub fn server_mut_safe(&mut self) -> (server: Option<&mut ServerUI>)
        ensures
            match server {
                Some(server) => old(self)@.server == Some(server@) && final(self)@ == (TabView {
                    server: Some(final(server)@),
                    ..old(self)@
                }),
                None => old(self)@.server is None && final(self)@ == old(self)@,
            },
    {
        self.server.as_mut()
    }

    /// The title of the tab: [`title_for`] what is typed into its pane,
    /// without the white space around it.
    pub fn title(&self) -> (title: String)
        requires
            self@.well_formed(),
        ensures
            title@ == self@.title(),
    {
        match self.mode {
            Mode::Client => title_for(
                trim(self.client.as_ref().unwrap().address.as_str()),
                self.mode,
                self.id,
            ),
            Mode::Server => title_for(
                trim(self.server.as_ref().unwrap().port.as_str()),
                self.mode,
                self.id,
            ),
        }
    }

    /// Whether the tab has the pane of its mode and no other, and a server
    /// pane whose focus is on a shown connection.
    pub fn is_well_formed(&self) -> (well_formed: bool)
        ensures
            well_formed == self@.well_formed(),
    {
        match self.mode {
            Mode::Client => self.client.is_some() && self.server.is_none(),
            Mode::Server => self.client.is_none() && match &self.server {
                Some(server) => server.is_well_formed(),
                None => false,
            },
        }
    }

    /// The state of the pane's backend: the client's connection or the
    /// server. It is `Inactive` as long as that backend was never started,
    /// and in a tab without a pane.
    pub fn net_state(&self) -> (state: NetState)
        ensures
            match (self@.client, self@.server) {
                (Some(client), _) => !client.backend.started ==> state == NetState::Inactive,
                (None, Some(server)) => !server.backend.started ==> state == NetState::Inactive,
                (None, None) => state == NetState::Inactive,
            },
    {
        if let Some(client) = &self.client {
            client.backend.net_state()
        } else if let Some(server) = &self.server {
            server.backend.net_state()
        } else {
            NetState::Inactive
        }
    }

    pub fn is_client(&self) -> (client: bool)
        ensures
            client == (self@.mode == Mode::Client),
    {
        self.mode == Mode::Client
    }

    pub fn is_server(&self) -> (server: bool)
        ensures
            server == (self@.mode == Mode::Server),
    {
        self.mode == Mode::Server
    }

    pub fn mode(&self) -> (mode: Mode)
        ensures
            mode == self@.mode,
    {
        self.mode
    }

    /// Puts the tab in the mode, with a new pane of that mode in place of
    /// the pane that it had.
    pub fn set_mode(&mut self, mode: Mode)
        ensures
            final(self)@.id == old(self)@.id,
            final(self)@.mode == mode,
            final(self)@.well_formed(),
            match mode {
                Mode::Client => final(self)@.client matches Some(client) && client.address.len()
                    == 0 && client.backend.address is None && !client.backend.started
                    && client.backend.logs.len() == 0 && client.connection_ui.draft.len() == 0,
                Mode::Server => final(self)@.server matches Some(server) && server.port.len() == 0
                    && server.peers.len() == 0 && server.focus is None && server.backend.port
                    is None && !server.backend.started && server.backend.logs.len() == 0,
            },
    {
        self.mode = mode;
        match mode {
            Mode::Client => {
                self.client = Some(ClientUI::new());
                self.server = None;
            },
            Mode::Server => {
                self.client = None;
                self.server = Some(ServerUI::new());
            },
        }
    }
}

/// What a tile of the window holds.
pub enum Pane {
    Tab(Tab),
}

/// Whether `value` is what `f` has returned for what the registry gave for
/// the focus: a connection with the address in focus, or none, and none
/// without a focus.
pub open spec fn answered_in_focus<T, F: FnOnce(Option<&mut Connection>) -> T>(
    f: F,
    focus: Option<Seq<char>>,
    value: T,
) -> bool {
    exists|found: Option<&mut Connection>|
        {
            &&& #[trigger] f.ensures((found,), value)
            &&& found matches Some(connection) ==> connection@.address == focus
            &&& focus is None ==> found is None
        }
}

/// Whether `value` is what `f` has returned for a connection with the
/// address that was handed to it.
pub open spec fn returned_on<T, F: FnOnce(&Connection) -> T>(
    f: F,
    address: Seq<char>,
    value: T,
) -> bool {
    exists|connection: &Connection|
        connection@.address == Some(address) && #[trigger] f.ensures((connection,), value)
}

/// Whether `f` can be handed every connection with the address, to change
/// it.
pub open spec fn takes_each<T, F: FnOnce(&mut Connection) -> T>(f: F, address: Seq<char>) -> bool {
    forall|connection: &mut Connection|
        connection@.address == Some(address) ==> #[trigger] f.requires((connection,))
}

/// Whether `value` is what `f` has returned for a connection with the
/// address that was handed to it to change.
pub open spec fn returned_for<T, F: FnOnce(&mut Connection) -> T>(
    f: F,
    address: Seq<char>,
    value: T,
) -> bool {
    exists|connection: &mut Connection|
        connection@.address == Some(address) && #[trigger] f.ensures((connection,), value)
}

} // verus!
