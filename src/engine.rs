use rustls::Connection;
use std::io::Read;
use std::io::Write;
use vstd::prelude::*;

verus! {

#[verifier::external_type_specification]
#[verifier::external_body]
pub struct ExConnection(rustls::Connection);

#[verifier::external_type_specification]
#[verifier::external_body]
pub struct ExTlsError(rustls::Error);

#[verifier::external_type_specification]
#[verifier::external_body]
pub struct ExIoError(std::io::Error);

/// Relies on `CommonState::wants_read`: whether the engine asks for more bytes
/// from the transport.
#[verifier::external_body]
pub(crate) fn wants_read(conn: &Connection) -> (r: bool) {
    conn.wants_read()
}

/// Relies on `CommonState::wants_write`: whether the engine holds bytes for the
/// transport.
#[verifier::external_body]
pub(crate) fn wants_write(conn: &Connection) -> (r: bool) {
    conn.wants_write()
}

/// Relies on `CommonState::is_handshaking`: whether the handshake is still going on.
#[verifier::external_body]
pub(crate) fn is_handshaking(conn: &Connection) -> (r: bool) {
    conn.is_handshaking()
}

/// Relies on `Connection::read_tls` reading from a byte slice: the engine takes
/// the first `n` bytes of `src`, at most all of them. It fails when its own
/// buffers are full; otherwise it takes at least one byte of a non-empty `src`.
/// With an empty `src` it learns that the transport has reached its end.
#[verifier::external_body]
pub(crate) fn read_tls(conn: &mut Connection, src: &[u8]) -> (r: Result<usize, std::io::Error>)
    ensures
        r matches Ok(n) ==> n <= src@.len(),
        r matches Ok(n) ==> (src@.len() > 0 ==> n > 0),
{
    let mut rd: &[u8] = src;
    conn.read_tls(&mut rd)
}

/// Relies on `Connection::process_new_packets`: decrypts the records taken in so
/// far. On success, tells whether the peer has sent its close-notify.
#[verifier::external_body]
pub(crate) fn process_new_packets(conn: &mut Connection) -> (r: Result<bool, rustls::Error>) {
    conn.process_new_packets().map(|state| state.peer_has_closed())
}

/// Relies on `Reader::read` into a buffer of `max` bytes: at most `max`
/// plaintext bytes come out.
#[verifier::external_body]
pub(crate) fn read_plaintext(conn: &mut Connection, max: usize) -> (r: Result<
    Vec<u8>,
    std::io::Error,
>)
    ensures
        r matches Ok(v) ==> v@.len() <= max,
{
    let mut out = vec![0u8; max];
    let n = conn.reader().read(&mut out)?;
    out.truncate(n);
    Ok(out)
}

/// Relies on `std::io::Error::kind`: whether the error is of kind
/// `ConnectionAborted`.
#[verifier::external_body]
pub(crate) fn is_connection_aborted(e: &std::io::Error) -> (r: bool) {
    e.kind() == std::io::ErrorKind::ConnectionAborted
}

/// Relies on `CommonState::write_tls` writing into a byte slice of `max` bytes:
/// at most `max` bytes of records come out.
#[verifier::external_body]
pub(crate) fn write_tls(conn: &mut Connection, max: usize) -> (r: Result<
    Vec<u8>,
    std::io::Error,
>)
    ensures
        r matches Ok(v) ==> v@.len() <= max,
{
    let mut out = vec![0u8; max];
    let n = conn.write_tls(&mut out.as_mut_slice())?;
    out.truncate(n);
    Ok(out)
}

/// Relies on `Writer::write`: the engine takes at most all of `src`.
#[verifier::external_body]
pub(crate) fn write_plaintext(conn: &mut Connection, src: &[u8]) -> (r: Result<
    usize,
    std::io::Error,
>)
    ensures
        r matches Ok(n) ==> n <= src@.len(),
{
    conn.writer().write(src)
}

/// Relies on `Writer::flush`: flushes the engine's plaintext writer.
#[verifier::external_body]
pub(crate) fn flush_plaintext(conn: &mut Connection) -> (r: Result<(), std::io::Error>) {
    conn.writer().flush()
}

/// Relies on `CommonState::send_close_notify`: queues the close-notify alert.
#[verifier::external_body]
pub(crate) fn send_close_notify(conn: &mut Connection) {
    conn.send_close_notify()
}

} // verus!
