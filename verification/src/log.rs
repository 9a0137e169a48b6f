//! Packets and the timestamped entries of the log bus.

use vstd::prelude::*;

verus! {

/// An origin tag and a byte payload. An empty origin marks a packet that was
/// sent from this side.
#[derive(Debug)]
pub struct DataPacket {
    pub address: String,
    pub data: Vec<u8>,
}

/// What a [`DataPacket`] holds.
pub ghost struct PacketView {
    pub address: Seq<char>,
    pub data: Seq<u8>,
}

impl View for DataPacket {
    type V = PacketView;

    open spec fn view(&self) -> PacketView {
        PacketView { address: self.address@, data: self.data@ }
    }
}

impl Clone for DataPacket {
    fn clone(&self) -> (copy: DataPacket)
        ensures
            copy@ == self@,
    {
        let data = self.data.clone();
        assert(data@ =~= self.data@);
        DataPacket { address: self.address.clone(), data }
    }
}

impl DataPacket {
    pub fn new(address: String, data: Vec<u8>) -> (packet: DataPacket)
        ensures
            packet.address == address,
            packet.data == data,
    {
        DataPacket { address, data }
    }
}

/// What the backend keeps of a failed socket operation: whether it was of
/// the interrupted class, and the message to show.
#[derive(Debug)]
pub struct IoFault {
    pub interrupted: bool,
    pub message: String,
}

/// What an [`IoFault`] holds.
pub ghost struct FaultView {
    pub interrupted: bool,
    pub message: Seq<char>,
}

impl View for IoFault {
    type V = FaultView;

    open spec fn view(&self) -> FaultView {
        FaultView { interrupted: self.interrupted, message: self.message@ }
    }
}

impl Clone for IoFault {
    fn clone(&self) -> (copy: IoFault)
        ensures
            copy@ == self@,
    {
        IoFault { interrupted: self.interrupted, message: self.message.clone() }
    }
}

/// The kinds of event that reach a log.
#[derive(Debug)]
pub enum LogData {
    ClientConnect(String),
    ClientDisconnect(String),
    ServerStarted,
    ServerStopped,
    ReceivedPacket(DataPacket),
    SentPacket(DataPacket),
    ConnectError(IoFault),
    ConnectTimedOut,
    FatalReadError(IoFault),
}

/// What a [`LogData`] holds.
pub ghost enum LogDataView {
    ClientConnect(Seq<char>),
    ClientDisconnect(Seq<char>),
    ServerStarted,
    ServerStopped,
    ReceivedPacket(PacketView),
    SentPacket(PacketView),
    ConnectError(FaultView),
    ConnectTimedOut,
    FatalReadError(FaultView),
}

impl View for LogData {
    type V = LogDataView;

    open spec fn view(&self) -> LogDataView {
        match self {
            LogData::ClientConnect(address) => LogDataView::ClientConnect(address@),
            LogData::ClientDisconnect(address) => LogDataView::ClientDisconnect(address@),
            LogData::ServerStarted => LogDataView::ServerStarted,
            LogData::ServerStopped => LogDataView::ServerStopped,
            LogData::ReceivedPacket(packet) => LogDataView::ReceivedPacket(packet@),
            LogData::SentPacket(packet) => LogDataView::SentPacket(packet@),
            LogData::ConnectError(fault) => LogDataView::ConnectError(fault@),
            LogData::ConnectTimedOut => LogDataView::ConnectTimedOut,
            LogData::FatalReadError(fault) => LogDataView::FatalReadError(fault@),
        }
    }
}

impl Clone for LogData {
    fn clone(&self) -> (copy: LogData)
        ensures
            copy@ == self@,
    {
        match self {
            LogData::ClientConnect(address) => LogData::ClientConnect(address.clone()),
            LogData::ClientDisconnect(address) => LogData::ClientDisconnect(address.clone()),
            LogData::ServerStarted => LogData::ServerStarted,
            LogData::ServerStopped => LogData::ServerStopped,
            LogData::ReceivedPacket(packet) => LogData::ReceivedPacket(packet.clone()),
            LogData::SentPacket(packet) => LogData::SentPacket(packet.clone()),
            LogData::ConnectError(fault) => LogData::ConnectError(fault.clone()),
            LogData::ConnectTimedOut => LogData::ConnectTimedOut,
            LogData::FatalReadError(fault) => LogData::FatalReadError(fault.clone()),
        }
    }
}

/// One entry of a log: what happened, and when, in milliseconds since the
/// Unix epoch.
#[derive(Debug)]
pub struct Log {
    pub data: LogData,
    pub timestamp: i64,
}

/// What a [`Log`] holds.
pub ghost struct LogView {
    pub data: LogDataView,
    pub timestamp: int,
}

impl View for Log {
    type V = LogView;

    open spec fn view(&self) -> LogView {
        LogView { data: self.data@, timestamp: self.timestamp as int }
    }
}

impl Clone for Log {
    fn clone(&self) -> (copy: Log)
        ensures
            copy@ == self@,
    {
        Log { data: self.data.clone(), timestamp: self.timestamp }
    }
}

/// The kinds of the entries of a log, in order.
pub open spec fn kinds(logs: Seq<Log>) -> Seq<LogDataView> {
    Seq::new(logs.len(), |i: int| logs[i]@.data)
}

/// Reads the machine's clock through `chrono::Local::now` and gives the
/// instant as milliseconds since the Unix epoch. Nothing is claimed of the
/// value.
#[verifier::external_body]
fn now_millis() -> i64 {
    chrono::Local::now().timestamp_millis()
}

impl Log {
    /// An entry of the given kind, stamped with the current time.
    pub fn new(data: LogData) -> (log: Log)
        ensures
            log.data == data,
    {
        Log { data, timestamp: now_millis() }
    }

    pub fn connect(address: String) -> (log: Log)
        ensures
            log@.data == LogDataView::ClientConnect(address@),
    {
        Log::new(LogData::ClientConnect(address))
    }

    pub fn disconnect(address: String) -> (log: Log)
        ensures
            log@.data == LogDataView::ClientDisconnect(address@),
    {
        Log::new(LogData::ClientDisconnect(address))
    }

    pub fn server_started() -> (log: Log)
        ensures
            log@.data == LogDataView::ServerStarted,
    {
        Log::new(LogData::ServerStarted)
    }

    pub fn server_stopped() -> (log: Log)
        ensures
            log@.data == LogDataView::ServerStopped,
    {
        Log::new(LogData::ServerStopped)
    }

    pub fn received(data: DataPacket) -> (log: Log)
        ensures
            log@.data == LogDataView::ReceivedPacket(data@),
    {
        Log::new(LogData::ReceivedPacket(data))
    }

    pub fn sent(data: DataPacket) -> (log: Log)
        ensures
            log@.data == LogDataView::SentPacket(data@),
    {
        Log::new(LogData::SentPacket(data))
    }

    pub fn connect_error(error: IoFault) -> (log: Log)
        ensures
            log@.data == LogDataView::ConnectError(error@),
    {
        Log::new(LogData::ConnectError(error))
    }

    pub fn connect_timed_out() -> (log: Log)
        ensures
            log@.data == LogDataView::ConnectTimedOut,
    {
        Log::new(LogData::ConnectTimedOut)
    }

    pub fn fatal_read_error(error: IoFault) -> (log: Log)
        ensures
            log@.data == LogDataView::FatalReadError(error@),
    {
        Log::new(LogData::FatalReadError(error))
    }
}

} // verus!
