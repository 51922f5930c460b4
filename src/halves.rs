use crate::buffer::{BufCfg, ReadBuffer, WriteBuffer};
use crate::engine;
use rustls::Connection;
use vstd::prelude::*;

verus! {

/// Why a read of application data failed.
pub enum ReadError {
    /// The transport, or the engine taking bytes in, failed.
    Io(std::io::Error),
    /// The engine rejected a record as malformed.
    InvalidData(rustls::Error),
    /// No data came and the peer never closed the session properly.
    UnexpectedEof,
}

/// Where a read stands once the engine has taken what the staging buffer held.
pub enum ReadProgress {
    /// The staging buffer is empty and the engine wants more: read the transport.
    NeedTransport,
    /// The engine wants nothing more for now: take the plaintext out.
    Ready,
}

/// What the read loop does next, given the engine's wish and the staging buffer.
#[derive(PartialEq, Eq, Structural, Debug, Clone, Copy)]
pub enum ReadStep {
    /// The engine wants nothing more: take the plaintext out.
    Ready,
    /// The engine wants more and nothing is staged: read the transport.
    NeedTransport,
    /// The engine wants more, nothing is staged and the transport has ended:
    /// tell the engine so.
    SignalEof,
    /// The engine wants more and bytes are staged: feed them to it.
    Feed,
}

/// What the drain loop does next, given the engine's wish and the staging buffer.
#[derive(PartialEq, Eq, Structural, Debug, Clone, Copy)]
pub enum DrainStep {
    /// The engine has nothing to emit.
    Drained,
    /// The engine has output but the staging buffer is full: write to the transport.
    NeedTransport,
    /// The engine has output and there is room: pull it into the buffer.
    Pull,
}

/// Where the engine's output stands.
pub enum DrainProgress {
    /// The staging buffer is full: write some of it to the transport.
    NeedTransport,
    /// The engine said it has nothing more to emit.
    Drained,
    /// The engine said it has output, yet gave none into free room.
    Stalled,
}

/// Where a write of application data stands.
pub enum WriteProgress {
    /// The staging buffer is full: write some of it to the transport.
    NeedTransport,
    /// The engine took this many bytes of plaintext.
    Accepted(usize),
    /// The engine said it has output, yet gave none into free room; no plaintext
    /// was handed over.
    Stalled,
}

/// The read loop's next move. Bytes go to the engine only while it asks for
/// them, and the transport is read only once the staging buffer is empty.
pub fn read_step(wants_read: bool, staged: usize, at_eof: bool) -> (r: ReadStep)
    ensures
        !wants_read ==> r == ReadStep::Ready,
        wants_read && staged == 0 && !at_eof ==> r == ReadStep::NeedTransport,
        wants_read && staged == 0 && at_eof ==> r == ReadStep::SignalEof,
        wants_read && staged > 0 ==> r == ReadStep::Feed,
{
    if !wants_read {
        ReadStep::Ready
    } else if staged > 0 {
        ReadStep::Feed
    } else if at_eof {
        ReadStep::SignalEof
    } else {
        ReadStep::NeedTransport
    }
}

/// The drain loop's next move. The engine is asked for output only while it has
/// some and the staging buffer has room; a full buffer goes to the transport first.
pub fn drain_step(wants_write: bool, full: bool) -> (r: DrainStep)
    ensures
        !wants_write ==> r == DrainStep::Drained,
        wants_write && full ==> r == DrainStep::NeedTransport,
        wants_write && !full ==> r == DrainStep::Pull,
{
    if !wants_write {
        DrainStep::Drained
    } else if full {
        DrainStep::NeedTransport
    } else {
        DrainStep::Pull
    }
}

/// Offer the engine every staged byte and let it process the records it has.
/// Returns how many bytes it took: the oldest ones, which leave the buffer, and at
/// least one when any were staged. When the engine refuses the bytes the buffer
/// is left as it was.
pub fn feed_engine(conn: &mut Connection, buf: &mut ReadBuffer) -> (r: Result<usize, ReadError>)
    requires
        old(buf).wf(),
    ensures
        final(buf).wf(),
        final(buf).capacity() == old(buf).capacity(),
        final(buf)@.len() <= old(buf)@.len(),
        final(buf)@ == old(buf)@.skip(old(buf)@.len() - final(buf)@.len()),
        r matches Err(ReadError::Io(_)) ==> final(buf)@ == old(buf)@,
        r matches Ok(n) ==> {
            &&& n <= old(buf)@.len()
            &&& final(buf)@ == old(buf)@.skip(n as int)
            &&& old(buf)@.len() > 0 ==> n > 0
        },
{
    let staged = buf.pending();
    let taken = match engine::read_tls(conn, staged.as_slice()) {
        Ok(n) => n,
        Err(e) => {
            return Err(ReadError::Io(e));
        },
    };
    let _ = buf.read(taken);
    match engine::process_new_packets(conn) {
        Ok(_) => Ok(taken),
        Err(e) => Err(ReadError::InvalidData(e)),
    }
}

/// Pull the engine's output into the free room of the staging buffer. Returns the
/// bytes pulled, which now follow the ones already pending. On an error the
/// buffer is left as it was.
pub fn pull_engine(conn: &mut Connection, buf: &mut WriteBuffer) -> (r: Result<
    Vec<u8>,
    std::io::Error,
>)
    requires
        old(buf).wf(),
    ensures
        final(buf).wf(),
        final(buf).capacity() == old(buf).capacity(),
        r is Err ==> final(buf)@ == old(buf)@,
        r matches Ok(v) ==> {
            &&& v@.len() <= old(buf).free_space()
            &&& final(buf)@ == old(buf)@ + v@
            &&& final(buf).free_space() == old(buf).free_space() - v@.len()
        },
{
    let out = match engine::write_tls(conn, buf.free_len()) {
        Ok(v) => v,
        Err(e) => {
            return Err(e);
        },
    };
    proof {
        buf.lemma_cursors();
    }
    let _ = buf.write(out.as_slice());
    assert(out@.take(out@.len() as int) =~= out@);
    Ok(out)
}

/// Why a connection cannot be split.
#[derive(PartialEq, Eq, Structural, Debug)]
pub enum SplitError {
    /// The engine has not finished its handshake.
    StillHandshaking,
    /// A staging buffer would have no room at all.
    ZeroCapacity,
}

/// A direction of the transport to shut down.
#[derive(PartialEq, Eq, Structural, Debug, Clone, Copy)]
pub enum Direction {
    Read,
    Write,
    Both,
}

/// Whether shutting down in direction `how` ends the session: the engine then sends
/// its close-notify and everything it produced goes out before the transport is
/// shut. Shutting down the read direction alone leaves the engine alone.
pub fn closes_session(how: Direction) -> (r: bool)
    ensures
        r == !(how is Read),
{
    match how {
        Direction::Read => false,
        _ => true,
    }
}

/// The result of a shutdown. The transport is shut down whether or not flushing
/// the engine's output succeeded, and a failed flush is still reported: its error
/// comes first, else the transport's result.
pub fn shutdown_result<E>(flushed: Result<(), E>, shut: Result<(), E>) -> (r: Result<(), E>)
    ensures
        flushed is Err ==> r == flushed,
        flushed is Ok ==> r == shut,
{
    match flushed {
        Err(e) => Err(e),
        Ok(()) => shut,
    }
}

/// The staging buffers of the two halves of a split connection. A connection
/// still in its handshake cannot be split, nor can a buffer have no room.
pub fn buffers_for_split(handshaking: bool, read_cfg: BufCfg, write_cfg: BufCfg) -> (r: Result<
    (ReadBuffer, WriteBuffer),
    SplitError,
>)
    ensures
        handshaking ==> r == Err::<(ReadBuffer, WriteBuffer), SplitError>(
            SplitError::StillHandshaking,
        ),
        !handshaking && (read_cfg.capacity() == 0 || write_cfg.capacity() == 0) ==> r == Err::<
            (ReadBuffer, WriteBuffer),
            SplitError,
        >(SplitError::ZeroCapacity),
        !handshaking && read_cfg.capacity() >= 1 && write_cfg.capacity() >= 1 ==> {
            &&& r is Ok
            &&& r->Ok_0.0.wf()
            &&& r->Ok_0.0@ == read_cfg.seed()
            &&& r->Ok_0.0.capacity() == read_cfg.capacity()
            &&& r->Ok_0.1.wf()
            &&& r->Ok_0.1@ == write_cfg.seed()
            &&& r->Ok_0.1.capacity() == write_cfg.capacity()
        },
{
    if handshaking {
        return Err(SplitError::StillHandshaking);
    }
    if read_cfg.resulting_capacity() == 0 || write_cfg.resulting_capacity() == 0 {
        return Err(SplitError::ZeroCapacity);
    }
    Ok((ReadBuffer::build_from(read_cfg), WriteBuffer::build_from(write_cfg)))
}

/// The staging buffers for splitting `conn`, refused while the engine is still in
/// its handshake.
pub fn check_split(conn: &Connection, read_cfg: BufCfg, write_cfg: BufCfg) -> (r: Result<
    (ReadBuffer, WriteBuffer),
    SplitError,
>)
    ensures
        read_cfg.capacity() == 0 || write_cfg.capacity() == 0 ==> r is Err,
        r is Ok ==> {
            &&& r->Ok_0.0.wf()
            &&& r->Ok_0.0@ == read_cfg.seed()
            &&& r->Ok_0.0.capacity() == read_cfg.capacity()
            &&& r->Ok_0.1.wf()
            &&& r->Ok_0.1@ == write_cfg.seed()
            &&& r->Ok_0.1.capacity() == write_cfg.capacity()
        },
{
    let handshaking = engine::is_handshaking(conn);
    buffers_for_split(handshaking, read_cfg, write_cfg)
}

/// Feed the engine from the read staging buffer for as long as it asks for more
/// and the buffer has bytes; each move is the one `read_step` picks from the
/// engine's answer and the buffer. `at_eof` says that the transport has reached
/// its end; the engine is then told so, which lets it tell a proper close from a
/// cut connection. Each batch goes through `feed_engine`: the engine takes the
/// oldest bytes, each once, and what stays is what it did not take.
pub fn pump_read(conn: &mut Connection, buf: &mut ReadBuffer, at_eof: bool) -> (r: Result<
    ReadProgress,
    ReadError,
>)
    requires
        old(buf).wf(),
    ensures
        final(buf).wf(),
        final(buf).capacity() == old(buf).capacity(),
        final(buf)@.len() <= old(buf)@.len(),
        final(buf)@ == old(buf)@.skip(old(buf)@.len() - final(buf)@.len()),
        r matches Ok(ReadProgress::NeedTransport) ==> {
            &&& final(buf)@.len() == 0
            &&& final(buf).free_space() == final(buf).capacity()
            &&& !at_eof
        },
{
    loop
        invariant
            buf.wf(),
            buf.capacity() == old(buf).capacity(),
            buf@.len() <= old(buf)@.len(),
            buf@ == old(buf)@.skip(old(buf)@.len() - buf@.len()),
        decreases buf@.len(),
    {
        let wants = engine::wants_read(conn);
        match read_step(wants, buf.len(), at_eof) {
            ReadStep::Ready => {
                return Ok(ReadProgress::Ready);
            },
            ReadStep::NeedTransport => {
                proof {
                    buf.lemma_drained_reclaims();
                }
                return Ok(ReadProgress::NeedTransport);
            },
            ReadStep::SignalEof => {
                return match feed_engine(conn, buf) {
                    Ok(_) => Ok(ReadProgress::Ready),
                    Err(e) => Err(e),
                };
            },
            ReadStep::Feed => {
                let ghost before = buf@;
                match feed_engine(conn, buf) {
                    Ok(_) => {},
                    Err(e) => {
                        return Err(e);
                    },
                }
                assert(buf@ =~= old(buf)@.skip(old(buf)@.len() - buf@.len())) by {
                    assert(before =~= old(buf)@.skip(old(buf)@.len() - before.len()));
                }
            },
        }
    }
}

/// What a read of application data returns, from what the engine's plaintext
/// reader gave (`got`), whether its error is of kind `ConnectionAborted`
/// (`aborted`), taken as a proper close, and whether the peer has sent its
/// close-notify (`peer_closed`). The reader marks a proper close by giving no
/// data after the close-notify; no data without it is a cut connection.
pub fn settle_read(got: Result<Vec<u8>, std::io::Error>, aborted: bool, peer_closed: bool) -> (r:
    Result<Vec<u8>, ReadError>)
    ensures
        got is Ok && got->Ok_0@.len() > 0 ==> r is Ok && r->Ok_0@ == got->Ok_0@,
        got is Ok && got->Ok_0@.len() == 0 && peer_closed ==> r is Ok && r->Ok_0@.len() == 0,
        got is Ok && got->Ok_0@.len() == 0 && !peer_closed ==> r is Err && r->Err_0 is UnexpectedEof,
        got is Err && aborted ==> r is Ok && r->Ok_0@.len() == 0,
        got is Err && !aborted ==> r is Err && r->Err_0 == ReadError::Io(got->Err_0),
{
    match got {
        Ok(v) => {
            if v.len() > 0 || peer_closed {
                Ok(v)
            } else {
                Err(ReadError::UnexpectedEof)
            }
        },
        Err(e) => {
            if aborted {
                Ok(Vec::new())
            } else {
                Err(ReadError::Io(e))
            }
        },
    }
}

/// Take up to `max` bytes of application data out of the engine, once
/// `pump_read` has returned `Ready`.
pub fn take_plaintext(conn: &mut Connection, max: usize) -> (r: Result<Vec<u8>, ReadError>)
    ensures
        r is Ok ==> r->Ok_0@.len() <= max,
{
    let peer_closed = match engine::process_new_packets(conn) {
        Ok(c) => c,
        Err(e) => {
            return Err(ReadError::InvalidData(e));
        },
    };
    let got = engine::read_plaintext(conn, max);
    let aborted = match &got {
        Ok(_) => false,
        Err(e) => engine::is_connection_aborted(e),
    };
    settle_read(got, aborted, peer_closed)
}

/// Move the engine's output into the write staging buffer for as long as the
/// engine has some and the buffer has room; each move is the one `drain_step`
/// picks from the engine's answer and the buffer. Each batch goes through
/// `pull_engine`, after the bytes already pending: nothing pending is lost or
/// repeated.
pub fn drain_engine(conn: &mut Connection, buf: &mut WriteBuffer) -> (r: Result<
    DrainProgress,
    std::io::Error,
>)
    requires
        old(buf).wf(),
    ensures
        final(buf).wf(),
        final(buf).capacity() == old(buf).capacity(),
        final(buf)@.len() >= old(buf)@.len(),
        final(buf)@.take(old(buf)@.len() as int) == old(buf)@,
        r matches Ok(DrainProgress::NeedTransport) ==> final(buf).free_space() == 0,
        r matches Ok(DrainProgress::Stalled) ==> final(buf).free_space() > 0,
{
    loop
        invariant
            buf.wf(),
            buf.capacity() == old(buf).capacity(),
            buf@.len() >= old(buf)@.len(),
            buf@.take(old(buf)@.len() as int) == old(buf)@,
        decreases buf.free_space(),
    {
        let wants = engine::wants_write(conn);
        match drain_step(wants, buf.is_full()) {
            DrainStep::Drained => {
                return Ok(DrainProgress::Drained);
            },
            DrainStep::NeedTransport => {
                return Ok(DrainProgress::NeedTransport);
            },
            DrainStep::Pull => {
                let ghost before = buf@;
                let out = match pull_engine(conn, buf) {
                    Ok(v) => v,
                    Err(e) => {
                        return Err(e);
                    },
                };
                if out.len() == 0 {
                    return Ok(DrainProgress::Stalled);
                }
                assert(buf@.take(old(buf)@.len() as int) =~= old(buf)@) by {
                    assert(buf@.take(old(buf)@.len() as int) =~= before.take(
                        old(buf)@.len() as int,
                    ));
                }
            },
        }
    }
}

/// Hand `src` to the engine once `drain_engine` has found it with no output left.
/// The engine may take fewer bytes than `src` holds. When the drain fails, is
/// stalled or needs the transport, no plaintext is handed over.
pub fn offer_plaintext(conn: &mut Connection, buf: &mut WriteBuffer, src: &[u8]) -> (r: Result<
    WriteProgress,
    std::io::Error,
>)
    requires
        old(buf).wf(),
    ensures
        final(buf).wf(),
        final(buf).capacity() == old(buf).capacity(),
        final(buf)@.len() >= old(buf)@.len(),
        final(buf)@.take(old(buf)@.len() as int) == old(buf)@,
        r matches Ok(WriteProgress::NeedTransport) ==> final(buf).free_space() == 0,
        r matches Ok(WriteProgress::Accepted(n)) ==> n <= src@.len(),
{
    match drain_engine(conn, buf) {
        Err(e) => Err(e),
        Ok(DrainProgress::NeedTransport) => Ok(WriteProgress::NeedTransport),
        Ok(DrainProgress::Stalled) => Ok(WriteProgress::Stalled),
        Ok(DrainProgress::Drained) => match engine::write_plaintext(conn, src) {
            Ok(n) => Ok(WriteProgress::Accepted(n)),
            Err(e) => Err(e),
        },
    }
}

/// Flush the engine's plaintext writer, then move the engine's output into the
/// staging buffer as `drain_engine` does.
pub fn start_flush(conn: &mut Connection, buf: &mut WriteBuffer) -> (r: Result<
    DrainProgress,
    std::io::Error,
>)
    requires
        old(buf).wf(),
    ensures
        final(buf).wf(),
        final(buf).capacity() == old(buf).capacity(),
        final(buf)@.len() >= old(buf)@.len(),
        final(buf)@.take(old(buf)@.len() as int) == old(buf)@,
        r matches Ok(DrainProgress::NeedTransport) ==> final(buf).free_space() == 0,
{
    match engine::flush_plaintext(conn) {
        Ok(()) => drain_engine(conn, buf),
        Err(e) => Err(e),
    }
}

/// Queue the engine's close-notify, then flush as `start_flush` does.
pub fn start_close(conn: &mut Connection, buf: &mut WriteBuffer) -> (r: Result<
    DrainProgress,
    std::io::Error,
>)
    requires
        old(buf).wf(),
    ensures
        final(buf).wf(),
        final(buf).capacity() == old(buf).capacity(),
        final(buf)@.len() >= old(buf)@.len(),
        final(buf)@.take(old(buf)@.len() as int) == old(buf)@,
        r matches Ok(DrainProgress::NeedTransport) ==> final(buf).free_space() == 0,
{
    engine::send_close_notify(conn);
    start_flush(conn, buf)
}

} // verus!
