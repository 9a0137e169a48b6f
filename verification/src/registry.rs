//! The registry of a server: the connections that it accepted, keyed by the
//! peer's address. It holds one connection for an address, the one that was
//! accepted last; a peer that comes again from the same address takes the
//! place of the connection that it had before.

use crate::bus::extends;
use crate::connection::{sent_entry, Connection, SendError, SessionLink};
use crate::log::{kinds, Log, LogDataView, PacketView};
use crate::net_state::NetState;
use crate::session::{EventView, SessionModel};
use tokio::sync::{mpsc, watch, RwLock, RwLockReadGuard, RwLockWriteGuard};
use vstd::prelude::*;

verus! {

/// What came of reaching for the connection of an address in a registry
/// that other tasks use too.
#[derive(Debug, PartialEq, Eq)]
pub enum Reach<T> {
    /// Someone else held the registry's lock at that moment. Nothing was
    /// done; the next try may succeed.
    Busy,
    /// The registry holds no connection for the address.
    Absent,
    /// The connection was reached, and this came of it.
    Found(T),
}

impl<T> Reach<T> {
    /// What came of the connection, where it was reached.
    pub fn found(self) -> (value: Option<T>)
        ensures
            value == match self {
                Reach::Found(value) => Some(value),
                _ => None,
            },
    {
        match self {
            Reach::Found(value) => Some(value),
            _ => None,
        }
    }

    /// Whether the registry was locked, so that a later try may reach what
    /// this one did not.
    pub fn is_busy(&self) -> (busy: bool)
        ensures
            busy == (self is Busy),
    {
        match self {
            Reach::Busy => true,
            _ => false,
        }
    }
}

/// What a lookup in the registry gave, as a [`Reach`].
pub fn reached<T>(found: Option<T>) -> (reach: Reach<T>)
    ensures
        match found {
            Some(value) => reach == Reach::Found(value),
            None => reach is Absent,
        },
{
    match found {
        Some(value) => Reach::Found(value),
        None => Reach::Absent,
    }
}

/// The addresses of the connections, in order.
pub open spec fn addresses(connections: Seq<Connection>) -> Seq<Option<Seq<char>>> {
    Seq::new(connections.len(), |i: int| connections[i]@.address)
}

/// Whether `at` is the first place at which `wanted` is entered.
pub open spec fn first_at(entered: Seq<Option<Seq<char>>>, wanted: Seq<char>, at: int) -> bool {
    &&& 0 <= at < entered.len()
    &&& entered[at] == Some(wanted)
    &&& forall|before: int| 0 <= before < at ==> entered[before] != Some(wanted)
}

/// Whether the entries are keyed by address: each has an address, and no
/// two have the same.
pub open spec fn keyed(entered: Seq<Option<Seq<char>>>) -> bool {
    &&& forall|at: int| 0 <= at < entered.len() ==> (#[trigger] entered[at]) is Some
    &&& forall|i: int, j: int| 0 <= i < j < entered.len() ==> entered[i] != entered[j]
}

/// Whether `wanted` is entered nowhere.
pub open spec fn absent(entered: Seq<Option<Seq<char>>>, wanted: Seq<char>) -> bool {
    forall|at: int| 0 <= at < entered.len() ==> entered[at] != Some(wanted)
}

/// The place of the connection with this address; the first, should there
/// be more than one, which a keyed registry rules out.
pub fn position(connections: &Vec<Connection>, address: &str) -> (place: Option<usize>)
    ensures
        match place {
            Some(at) => first_at(addresses(connections@), address@, at as int),
            None => absent(addresses(connections@), address@),
        },
{
    let wanted = address.to_owned();
    let mut at: usize = 0;
    while at < connections.len()
        invariant
            at <= connections.len(),
            wanted@ == address@,
            forall|before: int|
                0 <= before < at ==> addresses(connections@)[before] != Some(address@),
        decreases connections.len() - at,
    {
        if connections[at].has_address(&wanted) {
            return Some(at);
        }
        at += 1;
    }
    None
}

/// The connection with this address; the first, should there be more than
/// one, which a keyed registry rules out.
pub fn find<'a>(connections: &'a Vec<Connection>, address: &str) -> (found: Option<&'a Connection>)
    ensures
        match found {
            Some(connection) => exists|at: int|
                first_at(addresses(connections@), address@, at) && *connection
                    == connections@[at],
            None => absent(addresses(connections@), address@),
        },
{
    match position(connections, address) {
        Some(at) => Some(&connections[at]),
        None => None,
    }
}

/// The connection with this address, to change it in its place; the first,
/// should there be more than one. No other connection changes.
pub fn find_mut<'a>(connections: &'a mut Vec<Connection>, address: &str) -> (found: Option<
    &'a mut Connection,
>)
    ensures
        match found {
            Some(connection) => exists|at: int|
                {
                    &&& first_at(addresses(old(connections)@), address@, at)
                    &&& *connection == old(connections)@[at]
                    &&& final(connections)@ == old(connections)@.update(at, *final(connection))
                },
            None => absent(addresses(old(connections)@), address@) && final(connections)@ == old(
                connections,
            )@,
        },
{
    match position(connections, address) {
        Some(at) => Some(&mut connections[at]),
        None => None,
    }
}

/// The state of the connection with this address; `None` exactly where no
/// connection has the address. A connection in the registry was started
/// when it was entered, so its state is what its session last stored.
pub fn state_in(connections: &Vec<Connection>, address: &str) -> (state: Option<NetState>)
    ensures
        state is None <==> absent(addresses(connections@), address@),
{
    match find(connections, address) {
        Some(connection) => Some(connection.net_state()),
        None => None,
    }
}

/// Asks the connection with this address to stop. The result says
/// whether a connection has the address.
pub fn shutdown_in(connections: &Vec<Connection>, address: &str) -> (known: bool)
    ensures
        known <==> !absent(addresses(connections@), address@),
{
    match find(connections, address) {
        Some(connection) => {
            connection.shutdown();
            true
        },
        None => false,
    }
}

/// Sends `data` on the connection with this address. Where no
/// connection has the address nothing changes and the result is `None`.
/// Else only that connection changes: a send that succeeds adds the sent
/// packet to its log, one that fails leaves the log as it was and gives the
/// packet back.
pub fn send_in(connections: &mut Vec<Connection>, address: &str, data: Vec<u8>) -> (sent: Option<
    Result<(), SendError>,
>)
    ensures
        ({
            let before = old(connections)@;
            let after = final(connections)@;
            match sent {
                Some(result) => exists|at: int|
                    {
                        &&& first_at(addresses(before), address@, at)
                        &&& after.len() == before.len()
                        &&& forall|other: int|
                            0 <= other < before.len() && other != at ==> after[other]
                                == before[other]
                        &&& after[at]@.address == Some(address@)
                        &&& after[at]@.started == before[at]@.started
                        &&& match result {
                            Ok(_) => kinds(after[at]@.logs) == kinds(before[at]@.logs).push(
                                sent_entry(data@),
                            ),
                            Err(error) => after[at]@.logs == before[at]@.logs && error.packet@
                                == (PacketView { address: Seq::empty(), data: data@ }),
                        }
                    },
                None => absent(addresses(before), address@) && after == before,
            }
        }),
{
    match find_mut(connections, address) {
        Some(connection) => Some(connection.send_data(data)),
        None => None,
    }
}

/// Polls the log of the connection that a lookup found, and gives a copy of
/// it; `None` where the lookup found none. The connection keeps its address,
/// and its log only grows at its end.
pub fn poll_found(found: Option<&mut Connection>) -> (logs: Option<Vec<Log>>)
    ensures
        match found {
            Some(connection) => {
                &&& logs matches Some(copy)
                &&& final(connection)@.address == connection@.address
                &&& final(connection)@.started == connection@.started
                &&& extends(final(connection)@.logs, connection@.logs)
                &&& copy@.len() == final(connection)@.logs.len()
                &&& forall|i: int|
                    0 <= i < copy@.len() ==> #[trigger] copy@[i]@ == final(connection)@.logs[i]@
            },
            None => logs is None,
        },
{
    match found {
        Some(connection) => Some(connection.update_and_read_logs()),
        None => None,
    }
}

/// Polls the log of the connection with this address and gives a copy
/// of it. Where no connection has the address nothing changes and the
/// result is `None`. Else only that connection changes, and its log only
/// grows at its end.
pub fn poll_in(connections: &mut Vec<Connection>, address: &str) -> (logs: Option<Vec<Log>>)
    ensures
        ({
            let before = old(connections)@;
            let after = final(connections)@;
            match logs {
                Some(logs) => exists|at: int|
                    {
                        &&& first_at(addresses(before), address@, at)
                        &&& after.len() == before.len()
                        &&& forall|other: int|
                            0 <= other < before.len() && other != at ==> after[other]
                                == before[other]
                        &&& after[at]@.address == Some(address@)
                        &&& after[at]@.started == before[at]@.started
                        &&& extends(after[at]@.logs, before[at]@.logs)
                        &&& logs@.len() == after[at]@.logs.len()
                        &&& forall|i: int|
                            0 <= i < logs@.len() ==> #[trigger] logs@[i]@ == after[at]@.logs[i]@
                    },
                None => absent(addresses(before), address@) && after == before,
            }
        }),
{
    poll_found(find_mut(connections, address))
}

/// The connections other than those with the address, in order.
pub open spec fn others(connections: Seq<Connection>, address: Seq<char>) -> Seq<Connection>
    decreases connections.len(),
{
    if connections.len() == 0 {
        Seq::empty()
    } else {
        let front = others(connections.drop_last(), address);
        if connections.last()@.address == Some(address) {
            front
        } else {
            front.push(connections.last())
        }
    }
}

/// The entries other than those of the address, in order.
pub open spec fn without(entered: Seq<Option<Seq<char>>>, address: Seq<char>) -> Seq<
    Option<Seq<char>>,
>
    decreases entered.len(),
{
    if entered.len() == 0 {
        Seq::empty()
    } else {
        let front = without(entered.drop_last(), address);
        if entered.last() == Some(address) {
            front
        } else {
            front.push(entered.last())
        }
    }
}

/// The entries after a stream from the address was taken in: what was
/// entered for the address before is gone, and the address is entered at
/// the end.
pub open spec fn entered_one(before: Seq<Option<Seq<char>>>, address: Seq<char>) -> Seq<
    Option<Seq<char>>,
> {
    without(before, address).push(Some(address))
}

/// The entries after the streams from the addresses were taken in, in
/// order.
pub open spec fn entered(before: Seq<Option<Seq<char>>>, accepted: Seq<Seq<char>>) -> Seq<
    Option<Seq<char>>,
>
    decreases accepted.len(),
{
    if accepted.len() == 0 {
        before
    } else {
        entered(entered_one(before, accepted[0]), accepted.drop_first())
    }
}

/// The addresses of the connections other than those with the address are
/// the entries other than those of the address.
pub proof fn addresses_of_others(connections: Seq<Connection>, address: Seq<char>)
    ensures
        addresses(others(connections, address)) == without(addresses(connections), address),
    decreases connections.len(),
{
    if connections.len() == 0 {
        assert(addresses(others(connections, address)) =~= without(
            addresses(connections),
            address,
        ));
    } else {
        let front = connections.drop_last();
        addresses_of_others(front, address);
        assert(addresses(connections).drop_last() =~= addresses(front));
        assert(addresses(connections).last() == connections.last()@.address);
        if connections.last()@.address != Some(address) {
            assert(addresses(others(front, address).push(connections.last())) =~= addresses(
                others(front, address),
            ).push(connections.last()@.address));
        }
    }
}

/// Taking out the entries of an address leaves none of that address, leaves
/// every other entry in, and adds none; what was keyed stays keyed.
pub proof fn without_keeps_the_rest(entered: Seq<Option<Seq<char>>>, address: Seq<char>)
    ensures
        absent(without(entered, address), address),
        without(entered, address).len() <= entered.len(),
        absent(entered, address) ==> without(entered, address) == entered,
        forall|at: int|
            0 <= at < without(entered, address).len() ==> exists|from: int|
                0 <= from < entered.len() && entered[from] == #[trigger] without(
                    entered,
                    address,
                )[at],
        forall|other: Seq<char>|
            other != address ==> (#[trigger] absent(without(entered, address), other) <==> absent(
                entered,
                other,
            )),
        keyed(entered) ==> keyed(without(entered, address)),
    decreases entered.len(),
{
    let rest = without(entered, address);
    if entered.len() > 0 {
        let front = entered.drop_last();
        let last = entered.last();
        without_keeps_the_rest(front, address);
        let kept = without(front, address);
        assert forall|at: int| 0 <= at < rest.len() implies exists|from: int|
            0 <= from < entered.len() && entered[from] == #[trigger] rest[at] by {
            if at < kept.len() {
                let from = choose|from: int| 0 <= from < front.len() && front[from] == kept[at];
                assert(entered[from] == rest[at]);
            } else {
                assert(entered[entered.len() - 1] == rest[at]);
            }
        }
        assert forall|other: Seq<char>| other != address implies (#[trigger] absent(rest, other)
            <==> absent(entered, other)) by {
            assert(absent(kept, other) <==> absent(front, other));
            if absent(entered, other) {
                assert forall|at: int| 0 <= at < front.len() implies front[at] != Some(other) by {
                    assert(entered[at] == front[at]);
                }
                assert forall|at: int| 0 <= at < rest.len() implies rest[at] != Some(other) by {
                    if at < kept.len() {
                        assert(rest[at] == kept[at]);
                    }
                }
            } else {
                let at = choose|at: int| 0 <= at < entered.len() && entered[at] == Some(other);
                if at < front.len() {
                    assert(front[at] == entered[at]);
                    assert(!absent(front, other));
                    let kept_at = choose|kept_at: int|
                        0 <= kept_at < kept.len() && kept[kept_at] == Some(other);
                    assert(rest[kept_at] == kept[kept_at]);
                } else {
                    assert(last == Some(other));
                    assert(rest[rest.len() - 1] == Some(other));
                }
            }
        }
        if absent(entered, address) {
            assert forall|at: int| 0 <= at < front.len() implies front[at] != Some(address) by {
                assert(entered[at] == front[at]);
            }
            assert(entered[entered.len() - 1] != Some(address));
            assert(rest =~= entered);
        }
        if keyed(entered) {
            assert forall|at: int| 0 <= at < front.len() implies (#[trigger] front[at]) is Some by {
                assert(entered[at] == front[at]);
            }
            assert forall|i: int, j: int| 0 <= i < j < front.len() implies front[i] != front[j] by {
                assert(entered[i] == front[i] && entered[j] == front[j]);
            }
            assert(keyed(kept));
            if last != Some(address) {
                assert forall|i: int, j: int| 0 <= i < j < rest.len() implies rest[i]
                    != rest[j] by {
                    if j == kept.len() {
                        let from = choose|from: int|
                            0 <= from < front.len() && front[from] == kept[i];
                        assert(entered[from] == kept[i]);
                        assert(entered[from] != entered[entered.len() - 1]);
                    }
                }
                assert forall|at: int| 0 <= at < rest.len() implies (#[trigger] rest[at])
                    is Some by {
                    if at == kept.len() {
                        assert(entered[entered.len() - 1] is Some);
                    }
                }
            }
        }
    }
}

/// Taking in a stream keeps the registry keyed by address: the address of
/// the new connection is entered once, at the end, whatever was entered for
/// it before, and every other address is entered as it was.
pub proof fn entering_keeps_the_key(before: Seq<Option<Seq<char>>>, address: Seq<char>)
    ensures
        first_at(entered_one(before, address), address, entered_one(before, address).len() - 1),
        keyed(before) ==> keyed(entered_one(before, address)),
        absent(before, address) ==> entered_one(before, address) == before.push(Some(address)),
        forall|other: Seq<char>|
            other != address ==> (#[trigger] absent(entered_one(before, address), other)
                <==> absent(before, other)),
{
    without_keeps_the_rest(before, address);
    let rest = without(before, address);
    let after = entered_one(before, address);
    assert forall|other: Seq<char>| other != address implies (#[trigger] absent(after, other)
        <==> absent(before, other)) by {
        assert(absent(rest, other) <==> absent(before, other));
        if absent(rest, other) {
            assert forall|at: int| 0 <= at < after.len() implies after[at] != Some(other) by {
                if at < rest.len() {
                    assert(after[at] == rest[at]);
                }
            }
        } else {
            let at = choose|at: int| 0 <= at < rest.len() && rest[at] == Some(other);
            assert(after[at] == Some(other));
        }
    }
    assert forall|at: int| 0 <= at < rest.len() implies after[at] != Some(address) by {
        assert(after[at] == rest[at]);
    }
    if keyed(before) {
        assert forall|i: int, j: int| 0 <= i < j < after.len() implies after[i] != after[j] by {
            assert(after[i] == rest[i]);
            if j < rest.len() {
                assert(after[j] == rest[j]);
            }
        }
        assert forall|at: int| 0 <= at < after.len() implies (#[trigger] after[at]) is Some by {
            if at < rest.len() {
                assert(after[at] == rest[at]);
            }
        }
    }
}

/// A keyed registry has one entry for an address at most: where a lookup
/// finds it, it is nowhere else.
pub proof fn keyed_has_one(entered: Seq<Option<Seq<char>>>, address: Seq<char>, at: int)
    requires
        keyed(entered),
        first_at(entered, address, at),
    ensures
        forall|other: int|
            0 <= other < entered.len() && entered[other] == Some(address) ==> other == at,
{
    assert forall|other: int|
        0 <= other < entered.len() && entered[other] == Some(address) implies other == at by {
        if other < at {
            assert(entered[other] != entered[at]);
        } else if at < other {
            assert(entered[at] != entered[other]);
        }
    }
}

/// An address that is entered stays entered, whatever streams are taken in
/// after it.
pub proof fn entered_stays_entered(
    before: Seq<Option<Seq<char>>>,
    accepted: Seq<Seq<char>>,
    address: Seq<char>,
)
    requires
        !absent(before, address),
    ensures
        !absent(entered(before, accepted), address),
    decreases accepted.len(),
{
    if accepted.len() > 0 {
        let next = entered_one(before, accepted[0]);
        entering_keeps_the_key(before, accepted[0]);
        if accepted[0] == address {
            assert(next[next.len() - 1] == Some(address));
        }
        entered_stays_entered(next, accepted.drop_first(), address);
    }
}

/// A server that accepts clients keeps its registry keyed by peer address,
/// and every client that it accepted can be addressed: whatever the
/// sequence of accepted streams, also where a peer comes again from an
/// address that it had before, the registry has one entry for each address
/// and a lookup finds it.
pub proof fn accepted_clients_are_addressable(
    before: Seq<Option<Seq<char>>>,
    accepted: Seq<Seq<char>>,
    client: int,
)
    requires
        keyed(before),
        0 <= client < accepted.len(),
    ensures
        keyed(entered(before, accepted)),
        exists|at: int| first_at(entered(before, accepted), accepted[client], at),
    decreases accepted.len(),
{
    let next = entered_one(before, accepted[0]);
    let rest = accepted.drop_first();
    entering_keeps_the_key(before, accepted[0]);
    if client == 0 {
        assert(next[next.len() - 1] == Some(accepted[0]));
        entered_stays_entered(next, rest, accepted[0]);
        registry_stays_keyed(next, rest);
    } else {
        assert(rest[client - 1] == accepted[client]);
        accepted_clients_are_addressable(next, rest, client - 1);
    }
    let all = entered(before, accepted);
    if !exists|at: int| first_at(all, accepted[client], at) {
        present_is_found(all, accepted[client]);
    }
}

/// Whatever streams are taken in, a keyed registry stays keyed.
pub proof fn registry_stays_keyed(before: Seq<Option<Seq<char>>>, accepted: Seq<Seq<char>>)
    requires
        keyed(before),
    ensures
        keyed(entered(before, accepted)),
    decreases accepted.len(),
{
    if accepted.len() > 0 {
        entering_keeps_the_key(before, accepted[0]);
        registry_stays_keyed(entered_one(before, accepted[0]), accepted.drop_first());
    }
}

/// An address that is entered is found by a lookup.
pub proof fn present_is_found(entered: Seq<Option<Seq<char>>>, address: Seq<char>)
    requires
        !absent(entered, address),
    ensures
        exists|at: int| first_at(entered, address, at),
    decreases entered.len(),
{
    let front = entered.drop_last();
    if absent(front, address) {
        assert forall|before: int| 0 <= before < entered.len() - 1 implies entered[before]
            != Some(address) by {
            assert(front[before] == entered[before]);
        }
        assert(first_at(entered, address, entered.len() - 1));
    } else {
        present_is_found(front, address);
        let at = choose|at: int| first_at(front, address, at);
        assert(entered[at] == front[at]);
        assert forall|before: int| 0 <= before < at implies entered[before] != Some(address) by {
            assert(front[before] == entered[before]);
        }
        assert(first_at(entered, address, at));
    }
}

/// As many clients as a server accepts from addresses that are new to it,
/// no two alike, so many entries its registry gains, in the order in which
/// they came.
pub proof fn new_clients_are_counted(before: Seq<Option<Seq<char>>>, accepted: Seq<Seq<char>>)
    requires
        forall|i: int| 0 <= i < accepted.len() ==> absent(before, #[trigger] accepted[i]),
        forall|i: int, j: int| 0 <= i < j < accepted.len() ==> accepted[i] != accepted[j],
    ensures
        entered(before, accepted) == before + Seq::new(
            accepted.len(),
            |i: int| Some(accepted[i]),
        ),
    decreases accepted.len(),
{
    let listed = Seq::new(accepted.len(), |i: int| Some(accepted[i]));
    if accepted.len() == 0 {
        assert(before + listed =~= before);
    } else {
        let rest = accepted.drop_first();
        let next = entered_one(before, accepted[0]);
        entering_keeps_the_key(before, accepted[0]);
        assert(absent(before, accepted[0]));
        assert(next == before.push(Some(accepted[0])));
        assert forall|i: int| 0 <= i < rest.len() implies absent(next, #[trigger] rest[i]) by {
            assert(rest[i] == accepted[i + 1]);
            assert(absent(before, accepted[i + 1]));
            assert(accepted[0] != accepted[i + 1]);
        }
        assert forall|i: int, j: int| 0 <= i < j < rest.len() implies rest[i] != rest[j] by {
            assert(rest[i] == accepted[i + 1] && rest[j] == accepted[j + 1]);
        }
        new_clients_are_counted(next, rest);
        let listed_rest = Seq::new(rest.len(), |i: int| Some(rest[i]));
        assert(next + listed_rest =~= before + listed);
    }
}

/// Takes in a stream that was accepted from `address`. A connection that
/// the registry holds for the address is asked to stop and leaves the
/// registry: the peer has come again. Then a new connection adopts the
/// stream, with the server's log to report its end to and the server's
/// shutdown signal to watch, and is entered at the end. A lookup of the
/// address finds the new connection; the other connections stay as they
/// are, in their order. The link is for the task that runs the new
/// connection's session.
pub fn enter(
    connections: &mut Vec<Connection>,
    address: String,
    server_log_tx: mpsc::Sender<Log>,
    shutdown_rx: watch::Receiver<bool>,
) -> (link: SessionLink)
    ensures
        final(connections)@.len() >= 1,
        final(connections)@.drop_last() == others(old(connections)@, address@),
        final(connections)@.last()@.address == Some(address@),
        final(connections)@.last()@.started,
        final(connections)@.last()@.logs.len() == 0,
        addresses(final(connections)@) == entered_one(addresses(old(connections)@), address@),
        first_at(addresses(final(connections)@), address@, final(connections)@.len() - 1),
        keyed(addresses(old(connections)@)) ==> keyed(addresses(final(connections)@)),
        link.session@ == SessionModel::idle().next(
            EventView::Adopt { address: address@, fans_out: true },
        ),
        link.greeting matches Some(entry) && entry@.data == LogDataView::ClientConnect(address@),
        link.server_log_tx == Some(server_log_tx),
        link.external_shutdown_rx == Some(shutdown_rx),
{
    let ghost start = connections@;
    let ghost mut seen: int = 0;
    let mut at: usize = 0;
    assert(connections@.take(0) =~= others(start.take(0), address@));
    assert(connections@.skip(0) =~= start.skip(0));
    while at < connections.len()
        invariant
            0 <= seen <= start.len(),
            at <= connections@.len(),
            connections@.len() - at == start.len() - seen,
            connections@.take(at as int) == others(start.take(seen), address@),
            connections@.skip(at as int) == start.skip(seen),
        decreases connections.len() - at,
    {
        let ghost here = connections@;
        assert(here[at as int] == here.skip(at as int)[0]);
        assert(start[seen] == start.skip(seen)[0]);
        assert(start.take(seen + 1).drop_last() =~= start.take(seen));
        assert(start.take(seen + 1).last() == start[seen]);
        assert(here.skip(at as int + 1) =~= start.skip(seen + 1)) by {
            let left = here.skip(at as int + 1);
            let right = start.skip(seen + 1);
            assert forall|i: int| 0 <= i < left.len() implies #[trigger] left[i] == right[i] by {
                assert(here.skip(at as int)[i + 1] == start.skip(seen)[i + 1]);
            }
        }
        if connections[at].has_address(&address) {
            let replaced = connections.remove(at);
            replaced.shutdown();
            assert(connections@.take(at as int) =~= here.take(at as int));
            assert(connections@.skip(at as int) =~= here.skip(at as int + 1));
        } else {
            assert(here.take(at as int + 1) =~= here.take(at as int).push(here[at as int]));
            at += 1;
        }
        proof {
            seen = seen + 1;
        }
    }
    assert(start.take(seen) =~= start);
    assert(connections@.take(at as int) =~= connections@);
    let mut connection = Connection::new();
    let found = connection.net_state();
    let link = connection.start_established_from(
        found,
        address,
        Some(server_log_tx),
        Some(shutdown_rx),
    );
    let ghost kept = connections@;
    connections.push(connection);
    proof {
        assert(connections@.drop_last() =~= kept);
        addresses_of_others(start, address@);
        assert(addresses(connections@) =~= addresses(kept).push(Some(address@)));
        entering_keeps_the_key(addresses(start), address@);
    }
    link
}

/// `tokio::sync::RwLock::new`: a lock around the connections.
#[verifier::external_body]
pub(crate) fn lock_around(connections: Vec<Connection>) -> (lock: RwLock<Vec<Connection>>) {
    RwLock::new(connections)
}

/// `tokio::sync::RwLock::try_read`: shared access, if the lock can be had
/// at once. It does not wait; `None` says that a writer holds the lock.
#[verifier::external_body]
pub(crate) fn read_lock<'a>(lock: &'a RwLock<Vec<Connection>>) -> (guard: Option<
    RwLockReadGuard<'a, Vec<Connection>>,
>) {
    lock.try_read().ok()
}

/// `tokio::sync::RwLock::try_write`: exclusive access, if the lock can be
/// had at once. It does not wait; `None` says that someone holds the lock.
#[verifier::external_body]
pub(crate) fn write_lock<'a>(lock: &'a RwLock<Vec<Connection>>) -> (guard: Option<
    RwLockWriteGuard<'a, Vec<Connection>>,
>) {
    lock.try_write().ok()
}

/// `Deref` of `tokio::sync::RwLockReadGuard`: the connections under the
/// lock.
#[verifier::external_body]
pub(crate) fn read_guarded<'a, 'b>(guard: &'b RwLockReadGuard<'a, Vec<Connection>>) -> (connections:
    &'b Vec<Connection>) {
    std::ops::Deref::deref(guard)
}

/// `DerefMut` of `tokio::sync::RwLockWriteGuard`: the connections under the
/// lock, to change them.
#[verifier::external_body]
pub(crate) fn write_guarded<'a, 'b>(
    guard: &'b mut RwLockWriteGuard<'a, Vec<Connection>>,
) -> (connections: &'b mut Vec<Connection>) {
    std::ops::DerefMut::deref_mut(guard)
}

} // verus!
