//! The byte pump: one copy direction of a tunneled connection.
//!
//! Each accepted connection runs two independent directions, local to remote
//! and remote to local. A direction is a state machine fed the outcome of
//! every read from its source and the result of every write to its sink; it
//! decides whether the copy loop forwards a chunk, retries after a timeout,
//! or stops. The ghost model records the bytes delivered to the sink, so the
//! contracts state that a direction delivers exactly the bytes it read, in
//! order, without loss or duplication.

use vstd::prelude::*;

verus! {

/// Channel read timeout, in milliseconds, while a connection pump is
/// active: short, so blocking channel reads return promptly.
pub const ACTIVE_SESSION_TIMEOUT_MS: u32 = 20;

/// Session timeout restored once both directions of a pump have finished.
pub const IDLE_SESSION_TIMEOUT_MS: u32 = 3000;

/// Size of the fixed buffer each direction reads into.
pub const COPY_BUFFER_LEN: usize = 1024;

/// Why a copy direction stopped.
#[derive(Clone, Copy, PartialEq, Eq, Structural, Debug)]
pub enum StopReason {
    /// The source read zero bytes: the peer closed its side.
    SourceClosed,
    /// The source read failed with a non-timeout error.
    ReadFailed,
    /// Forwarding the last chunk to the sink failed.
    WriteFailed,
}

/// What one read from the direction's source produced.
pub enum ReadOutcome {
    /// The bytes read; an empty chunk means the peer closed the stream.
    Data(Vec<u8>),
    /// The read hit the session timeout before any data arrived.
    TimedOut,
    /// The read failed with a non-timeout error.
    Failed,
}

/// What the copy loop must do next with its direction.
pub enum PumpCommand {
    /// Write exactly these bytes to the sink, then report the result.
    Forward(Vec<u8>),
    /// The timeout was transient: read again.
    Retry,
    /// The direction is finished, for the given reason.
    Stop(StopReason),
}

/// Phase of one copy direction.
#[derive(Clone, Copy, PartialEq, Eq, Structural, Debug)]
pub enum Phase {
    /// Waiting for the next read outcome.
    Reading,
    /// A chunk has been handed out for writing; waiting for the result.
    Writing,
    /// The direction has terminated.
    Stopped,
}

/// The mathematical state of one copy direction.
pub struct DirectionModel {
    /// Phase of the direction.
    pub phase: Phase,
    /// Bytes delivered to the sink so far, in order.
    pub delivered: Seq<u8>,
    /// The chunk currently handed out for writing.
    pub in_flight: Seq<u8>,
    /// Why the direction stopped, once it has.
    pub reason: Option<StopReason>,
}

/// One direction of the byte pump.
pub struct DirectionPump {
    phase: Phase,
    reason: Option<StopReason>,
    delivered: Ghost<Seq<u8>>,
    in_flight: Ghost<Seq<u8>>,
}

impl View for DirectionPump {
    type V = DirectionModel;

    closed spec fn view(&self) -> DirectionModel {
        DirectionModel {
            phase: self.phase,
            delivered: self.delivered@,
            in_flight: self.in_flight@,
            reason: self.reason,
        }
    }
}

impl DirectionPump {
    /// A fresh direction that has delivered nothing and is ready to read.
    pub fn new() -> (pump: Self)
        ensures
            pump@.phase == Phase::Reading,
            pump@.delivered == Seq::<u8>::empty(),
            pump@.in_flight == Seq::<u8>::empty(),
            pump@.reason is None,
    {
        DirectionPump {
            phase: Phase::Reading,
            reason: None,
            delivered: Ghost(Seq::empty()),
            in_flight: Ghost(Seq::empty()),
        }
    }

    /// Feeds the outcome of one read from the source.
    ///
    /// A non-empty chunk is handed back unchanged to be forwarded; an empty
    /// chunk means the peer closed and stops the direction; a timeout is a
    /// transient condition and changes nothing; a read error stops the
    /// direction. Nothing counts as delivered until its write succeeds.
    pub fn on_read(&mut self, outcome: ReadOutcome) -> (command: PumpCommand)
        requires
            old(self)@.phase == Phase::Reading,
        ensures
            final(self)@.delivered == old(self)@.delivered,
            match outcome {
                ReadOutcome::Data(chunk) => if chunk@.len() == 0 {
                    &&& command == PumpCommand::Stop(StopReason::SourceClosed)
                    &&& final(self)@.phase == Phase::Stopped
                    &&& final(self)@.reason == Some(StopReason::SourceClosed)
                } else {
                    &&& (command matches PumpCommand::Forward(bytes) && bytes@ == chunk@)
                    &&& final(self)@.phase == Phase::Writing
                    &&& final(self)@.in_flight == chunk@
                    &&& final(self)@.reason is None
                },
                ReadOutcome::TimedOut => {
                    &&& command == PumpCommand::Retry
                    &&& final(self)@ == old(self)@
                },
                ReadOutcome::Failed => {
                    &&& command == PumpCommand::Stop(StopReason::ReadFailed)
                    &&& final(self)@.phase == Phase::Stopped
                    &&& final(self)@.reason == Some(StopReason::ReadFailed)
                },
            },
    {
        match outcome {
            ReadOutcome::Data(chunk) => {
                if chunk.len() == 0 {
                    self.phase = Phase::Stopped;
                    self.reason = Some(StopReason::SourceClosed);
                    PumpCommand::Stop(StopReason::SourceClosed)
                } else {
                    self.phase = Phase::Writing;
                    self.reason = None;
                    self.in_flight = Ghost(chunk@);
                    PumpCommand::Forward(chunk)
                }
            },
            ReadOutcome::TimedOut => PumpCommand::Retry,
            ReadOutcome::Failed => {
                self.phase = Phase::Stopped;
                self.reason = Some(StopReason::ReadFailed);
                PumpCommand::Stop(StopReason::ReadFailed)
            },
        }
    }

    /// Feeds the result of writing the last forwarded chunk to the sink.
    ///
    /// On success the chunk counts as delivered, appended after everything
    /// delivered before it, and the direction reads again; on failure the
    /// direction stops and the chunk does not count as delivered.
    pub fn on_write_result(&mut self, ok: bool)
        requires
            old(self)@.phase == Phase::Writing,
        ensures
            ok ==> {
                &&& final(self)@.phase == Phase::Reading
                &&& final(self)@.delivered == old(self)@.delivered + old(self)@.in_flight
                &&& final(self)@.in_flight == Seq::<u8>::empty()
                &&& final(self)@.reason is None
            },
            !ok ==> {
                &&& final(self)@.phase == Phase::Stopped
                &&& final(self)@.delivered == old(self)@.delivered
                &&& final(self)@.reason == Some(StopReason::WriteFailed)
            },
    {
        if ok {
            self.phase = Phase::Reading;
            self.reason = None;
            self.delivered = Ghost(self.delivered@ + self.in_flight@);
            self.in_flight = Ghost(Seq::empty());
        } else {
            self.phase = Phase::Stopped;
            self.reason = Some(StopReason::WriteFailed);
        }
    }

    /// Reports whether the direction has terminated.
    pub fn is_stopped(&self) -> (stopped: bool)
        ensures
            stopped == (self@.phase == Phase::Stopped),
    {
        self.phase == Phase::Stopped
    }

    /// Why the direction stopped, or nothing while it still runs.
    pub fn stop_reason(&self) -> (reason: Option<StopReason>)
        ensures
            reason == self@.reason,
    {
        self.reason
    }
}

/// One of the two copy directions of a tunneled connection.
#[derive(Clone, Copy, PartialEq, Eq, Structural, Debug)]
pub enum Direction {
    /// Reads the local socket, writes the channel.
    LocalToRemote,
    /// Reads the channel, writes the local socket.
    RemoteToLocal,
}

/// Lifecycle of one connection's pump pair.
///
/// The session-wide timeout is lowered to the short active value while the
/// pump runs and restored to the idle value exactly once, when both
/// directions have stopped — never while one of them still runs. The timeout
/// setting is shared by every concurrent pump of the session, so the
/// restore value a pump applies can overwrite another pump's active value;
/// that race is inherited from the single session-wide setting.
pub struct ConnectionLifecycle {
    local_to_remote_done: bool,
    remote_to_local_done: bool,
}

impl ConnectionLifecycle {
    /// Whether the local-to-remote direction has stopped.
    pub closed spec fn local_to_remote_done(self) -> bool {
        self.local_to_remote_done
    }

    /// Whether the remote-to-local direction has stopped.
    pub closed spec fn remote_to_local_done(self) -> bool {
        self.remote_to_local_done
    }

    /// The whole pump is finished only once both directions have stopped.
    pub open spec fn finished(self) -> bool {
        self.local_to_remote_done() && self.remote_to_local_done()
    }

    /// Starts the pump pair. The returned timeout is the short active value
    /// the shared session timeout must be lowered to before the directions
    /// run.
    pub fn start() -> (started: (Self, u32))
        ensures
            !started.0.local_to_remote_done(),
            !started.0.remote_to_local_done(),
            started.1 == ACTIVE_SESSION_TIMEOUT_MS,
    {
        (
            ConnectionLifecycle { local_to_remote_done: false, remote_to_local_done: false },
            ACTIVE_SESSION_TIMEOUT_MS,
        )
    }

    /// Records that one direction has stopped, and returns the idle timeout
    /// to restore on the shared session exactly when the whole pump has
    /// finished — nothing while the other direction still runs.
    pub fn direction_finished(&mut self, direction: Direction) -> (restore: Option<u32>)
        requires
            !old(self).finished(),
        ensures
            final(self).local_to_remote_done() == (old(self).local_to_remote_done()
                || direction == Direction::LocalToRemote),
            final(self).remote_to_local_done() == (old(self).remote_to_local_done()
                || direction == Direction::RemoteToLocal),
            restore == if final(self).finished() {
                Some(IDLE_SESSION_TIMEOUT_MS)
            } else {
                None::<u32>
            },
    {
        match direction {
            Direction::LocalToRemote => {
                self.local_to_remote_done = true;
            },
            Direction::RemoteToLocal => {
                self.remote_to_local_done = true;
            },
        }
        if self.local_to_remote_done && self.remote_to_local_done {
            Some(IDLE_SESSION_TIMEOUT_MS)
        } else {
            None
        }
    }
}

/// The byte sequences held by a vector of chunks.
pub open spec fn chunk_views(chunks: Seq<Vec<u8>>) -> Seq<Seq<u8>> {
    chunks.map_values(|chunk: Vec<u8>| chunk@)
}

/// Runs one direction over a whole source stream: every chunk is read and
/// successfully written, and then the source closes. The bytes handed to the
/// sink are exactly the concatenation of the chunks, in order — nothing
/// dropped, duplicated or reordered.
pub fn pump_stream(chunks: Vec<Vec<u8>>) -> (run: (Vec<u8>, DirectionPump))
    requires
        forall|i: int| #![trigger chunks@[i]] 0 <= i < chunks@.len() ==> chunks@[i]@.len() > 0,
    ensures
        run.0@ == chunk_views(chunks@).flatten(),
        run.1@.delivered == run.0@,
        run.1@.phase == Phase::Stopped,
        run.1@.reason == Some(StopReason::SourceClosed),
{
    let ghost all: Seq<Seq<u8>> = chunk_views(chunks@);
    let mut rest = chunks;
    let mut pump = DirectionPump::new();
    let mut out: Vec<u8> = Vec::new();
    while rest.len() > 0
        invariant
            pump@.phase == Phase::Reading,
            out@ == pump@.delivered,
            forall|i: int| #![trigger rest@[i]] 0 <= i < rest@.len() ==> rest@[i]@.len() > 0,
            all.flatten() == out@ + chunk_views(rest@).flatten(),
        decreases rest@.len(),
    {
        let ghost rest0 = rest@;
        let chunk = rest.remove(0);
        proof {
            assert(chunk@.len() > 0);
            assert(rest@ =~= rest0.drop_first());
            assert(chunk_views(rest@) =~= chunk_views(rest0).drop_first());
            assert(chunk_views(rest0).flatten() == chunk@ + chunk_views(rest@).flatten());
        }
        let command = pump.on_read(ReadOutcome::Data(chunk));
        match command {
            PumpCommand::Forward(mut bytes) => {
                out.append(&mut bytes);
                pump.on_write_result(true);
            },
            _ => {
                proof {
                    assert(false);
                }
            },
        }
        proof {
            assert(all.flatten() =~= out@ + chunk_views(rest@).flatten());
        }
    }
    proof {
        assert(chunk_views(rest@).len() == 0);
        assert(chunk_views(rest@).flatten() =~= Seq::<u8>::empty());
        assert(out@ =~= all.flatten());
    }
    let _close = pump.on_read(ReadOutcome::Data(Vec::new()));
    (out, pump)
}

/// Splits a payload into the chunks a sequence of bounded-buffer reads would
/// produce: every chunk is non-empty, no chunk exceeds the buffer length,
/// and the chunks concatenate back to exactly the payload.
pub fn split_into_chunks(payload: &Vec<u8>, buffer_len: usize) -> (chunks: Vec<Vec<u8>>)
    requires
        buffer_len > 0,
    ensures
        chunk_views(chunks@).flatten() == payload@,
        forall|i: int| #![trigger chunks@[i]]
            0 <= i < chunks@.len() ==> 0 < chunks@[i]@.len() <= buffer_len as nat,
{
    let mut chunks: Vec<Vec<u8>> = Vec::new();
    let mut pos: usize = 0;
    while pos < payload.len()
        invariant
            pos <= payload@.len(),
            buffer_len > 0,
            chunk_views(chunks@).flatten() == payload@.take(pos as int),
            forall|i: int| #![trigger chunks@[i]]
                0 <= i < chunks@.len() ==> 0 < chunks@[i]@.len() <= buffer_len as nat,
        decreases payload@.len() - pos,
    {
        let end: usize = if payload.len() - pos > buffer_len {
            pos + buffer_len
        } else {
            payload.len()
        };
        let mut chunk: Vec<u8> = Vec::new();
        let mut j: usize = pos;
        while j < end
            invariant
                pos <= j <= end,
                end <= payload@.len(),
                chunk@ == payload@.subrange(pos as int, j as int),
            decreases end - j,
        {
            chunk.push(payload[j]);
            proof {
                assert(chunk@ =~= payload@.subrange(pos as int, j as int + 1));
            }
            j += 1;
        }
        proof {
            let cv = chunk_views(chunks@);
            assert(chunk_views(chunks@.push(chunk)) =~= cv.push(chunk@));
            cv.lemma_flatten_push(chunk@);
            assert(payload@.take(pos as int) + payload@.subrange(pos as int, end as int)
                =~= payload@.take(end as int));
        }
        chunks.push(chunk);
        pos = end;
    }
    proof {
        assert(payload@.take(payload@.len() as int) =~= payload@);
    }
    chunks
}

/// One direction end to end: the source yields the whole payload in
/// buffer-sized chunks and then closes; the sink receives exactly the
/// payload.
pub fn pump_payload(payload: &Vec<u8>, buffer_len: usize) -> (run: (Vec<u8>, DirectionPump))
    requires
        buffer_len > 0,
    ensures
        run.0@ == payload@,
        run.1@.delivered == payload@,
        run.1@.phase == Phase::Stopped,
        run.1@.reason == Some(StopReason::SourceClosed),
{
    let chunks = split_into_chunks(payload, buffer_len);
    pump_stream(chunks)
}

} // verus!
