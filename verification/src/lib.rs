//! Backend of an interactive TCP client and server for probing raw endpoints
//! with arbitrary bytes.
//!
//! The lifecycle of a connection and of a listening socket is decided by two
//! state machines, [`session::Session`] and [`listener::Listener`]. A
//! background task owns one of them, hands it what happens on its socket and
//! on its shutdown signal, and carries out what it is told: which entry to
//! log, whether to raise or lower the signal, which bytes to write. What
//! holds of every run of a session is proved in [`runs`].
//!
//! A driver holds the other side, a [`connection::Connection`] or a
//! [`server::Server`]: it starts, sends, asks to stop, and polls the state
//! and the log. The two sides share a state cell
//! ([`net_state::AtomicNetState`]), a log bus and a shutdown signal
//! ([`bus`]), and a send queue; a server also shares the registry of the
//! connections that it accepted ([`registry`]). These are tokio's
//! primitives; the calls into them stand in [`channels`] and [`registry`].
//!
//! [`gui`] holds what the panes of the user interface keep and decide,
//! [`hexedit`] the editing rules of the hex editor, [`util`] the hex text of
//! bytes, and [`hex_round_trip`] the proof that the editor takes back what it
//! shows.

pub mod bus;
pub mod channels;
pub mod connection;
pub mod gui;
pub mod hex_round_trip;
pub mod hexedit;
pub mod listener;
pub mod log;
pub mod net_state;
pub mod registry;
pub mod runs;
pub mod server;
pub mod session;
pub mod util;
