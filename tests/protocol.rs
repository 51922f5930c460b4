use std::convert::TryFrom;
use std::io::{Error, ErrorKind};
use std::sync::Arc;

use rustls::{ClientConfig, ClientConnection, Connection, RootCertStore, ServerName};
use rustls_split::{
    buffers_for_split, check_split, closes_session, drain_engine, offer_plaintext, pump_read,
    settle_read, shutdown_result, start_close, take_plaintext, BufCfg, Direction, DrainProgress,
    ReadBuffer, ReadError, ReadProgress, SplitError, WriteBuffer, WriteProgress, read_step,
    ReadStep, drain_step, DrainStep, feed_engine, pull_engine,
};

fn fresh_client() -> Connection {
    let cfg = ClientConfig::builder()
        .with_safe_defaults()
        .with_root_certificates(RootCertStore::empty())
        .with_no_client_auth();
    let name = ServerName::try_from("localhost").unwrap();
    Connection::Client(ClientConnection::new(Arc::new(cfg), name).unwrap())
}

#[test]
fn settle_read_passes_data_through() {
    let r = settle_read(Ok(vec![1u8, 2, 3]), false, false);
    assert!(matches!(r, Ok(ref v) if v == &vec![1u8, 2, 3]));
    let r = settle_read(Ok(vec![4u8]), false, true);
    assert!(matches!(r, Ok(ref v) if v == &vec![4u8]));
}

#[test]
fn settle_read_reports_clean_close_as_end_of_input() {
    let r = settle_read(Ok(Vec::new()), false, true);
    assert!(matches!(r, Ok(ref v) if v.is_empty()));
    let r = settle_read(Err(Error::from(ErrorKind::ConnectionAborted)), true, false);
    assert!(matches!(r, Ok(ref v) if v.is_empty()));
}

#[test]
fn settle_read_reports_cut_connection_as_error() {
    let r = settle_read(Ok(Vec::new()), false, false);
    assert!(matches!(r, Err(ReadError::UnexpectedEof)));
}

#[test]
fn settle_read_propagates_other_errors() {
    let r = settle_read(Err(Error::from(ErrorKind::WouldBlock)), false, false);
    assert!(matches!(r, Err(ReadError::Io(ref e)) if e.kind() == ErrorKind::WouldBlock));
    let r = settle_read(Err(Error::from(ErrorKind::UnexpectedEof)), false, true);
    assert!(matches!(r, Err(ReadError::Io(ref e)) if e.kind() == ErrorKind::UnexpectedEof));
}

#[test]
fn shutdown_reports_flush_error_first() {
    let r: Result<(), u8> = shutdown_result(Err(1), Err(2));
    assert_eq!(r, Err(1));
    let r: Result<(), u8> = shutdown_result(Err(1), Ok(()));
    assert_eq!(r, Err(1));
    let r: Result<(), u8> = shutdown_result(Ok(()), Err(2));
    assert_eq!(r, Err(2));
    let r: Result<(), u8> = shutdown_result(Ok(()), Ok(()));
    assert_eq!(r, Ok(()));
}

#[test]
fn only_read_shutdown_leaves_the_session_open() {
    assert!(!closes_session(Direction::Read));
    assert!(closes_session(Direction::Write));
    assert!(closes_session(Direction::Both));
}

#[test]
fn split_refuses_a_handshaking_engine() {
    let r = buffers_for_split(true, BufCfg::with_capacity(8), BufCfg::with_capacity(8));
    assert!(matches!(r, Err(SplitError::StillHandshaking)));
    let conn = fresh_client();
    let r = check_split(&conn, BufCfg::with_capacity(8), BufCfg::with_capacity(8));
    assert!(matches!(r, Err(SplitError::StillHandshaking)));
}

#[test]
fn split_refuses_a_buffer_without_room() {
    let r = buffers_for_split(false, BufCfg::with_capacity(0), BufCfg::with_capacity(8));
    assert!(matches!(r, Err(SplitError::ZeroCapacity)));
    let r = buffers_for_split(false, BufCfg::with_capacity(8), BufCfg::with_data(Vec::new(), 0));
    assert!(matches!(r, Err(SplitError::ZeroCapacity)));
}

#[test]
fn split_builds_both_buffers() {
    let r = buffers_for_split(false, BufCfg::with_data(vec![5u8, 6], 4), BufCfg::with_capacity(3));
    let (rd, wr) = match r {
        Ok(pair) => pair,
        Err(_) => panic!("split refused"),
    };
    assert_eq!(rd.pending(), vec![5u8, 6]);
    assert_eq!(rd.free_len(), 2);
    assert!(wr.is_empty());
    assert_eq!(wr.free_len(), 3);
}

#[test]
fn drain_moves_engine_output_into_the_buffer() {
    let mut conn = fresh_client();
    let mut buf = WriteBuffer::build_from(BufCfg::with_capacity(16384));
    let r = drain_engine(&mut conn, &mut buf).unwrap();
    assert!(matches!(r, DrainProgress::Drained));
    let hello = buf.pending();
    assert!(!hello.is_empty());
    // a handshake record
    assert_eq!(hello[0], 22);
}

#[test]
fn drain_stops_when_the_buffer_is_full() {
    let mut conn = fresh_client();
    let mut buf = WriteBuffer::build_from(BufCfg::with_capacity(5));
    let r = drain_engine(&mut conn, &mut buf).unwrap();
    assert!(matches!(r, DrainProgress::NeedTransport));
    assert!(buf.is_full());
    assert_eq!(buf.pending()[0], 22);
    buf.write_to(5);
    let r = drain_engine(&mut conn, &mut buf).unwrap();
    assert!(matches!(r, DrainProgress::NeedTransport));
    assert!(buf.is_full());
}

#[test]
fn offer_waits_for_room_then_hands_plaintext_over() {
    let mut conn = fresh_client();
    let mut small = WriteBuffer::build_from(BufCfg::with_capacity(5));
    let r = offer_plaintext(&mut conn, &mut small, b"hi").unwrap();
    assert!(matches!(r, WriteProgress::NeedTransport));

    let mut conn = fresh_client();
    let mut big = WriteBuffer::build_from(BufCfg::with_capacity(16384));
    let r = offer_plaintext(&mut conn, &mut big, b"hi").unwrap();
    assert!(matches!(r, WriteProgress::Accepted(n) if n <= 2));
    assert!(!big.is_empty());
}

#[test]
fn close_on_a_fresh_engine_flushes_its_output() {
    let mut conn = fresh_client();
    let mut buf = WriteBuffer::build_from(BufCfg::with_capacity(16384));
    let r = start_close(&mut conn, &mut buf).unwrap();
    assert!(matches!(r, DrainProgress::Drained));
    assert!(!buf.is_empty());
}

#[test]
fn pump_asks_for_transport_bytes_when_empty() {
    let mut conn = fresh_client();
    let mut out = WriteBuffer::build_from(BufCfg::with_capacity(16384));
    drain_engine(&mut conn, &mut out).unwrap();
    let mut buf = ReadBuffer::build_from(BufCfg::with_capacity(64));
    let r = pump_read(&mut conn, &mut buf, false);
    assert!(matches!(r, Ok(ReadProgress::NeedTransport)));
}

#[test]
fn pump_rejects_a_malformed_record() {
    let mut conn = fresh_client();
    let mut out = WriteBuffer::build_from(BufCfg::with_capacity(16384));
    drain_engine(&mut conn, &mut out).unwrap();
    let mut buf = ReadBuffer::build_from(BufCfg::with_data(vec![0xffu8; 16], 64));
    let r = pump_read(&mut conn, &mut buf, false);
    assert!(matches!(r, Err(ReadError::InvalidData(_))));
    assert!(buf.is_empty());
}

#[test]
fn cut_transport_before_any_data_is_an_error() {
    let mut conn = fresh_client();
    let mut out = WriteBuffer::build_from(BufCfg::with_capacity(16384));
    drain_engine(&mut conn, &mut out).unwrap();
    let mut buf = ReadBuffer::build_from(BufCfg::with_capacity(64));
    let r = pump_read(&mut conn, &mut buf, true);
    assert!(matches!(r, Ok(ReadProgress::Ready)));
    let r = take_plaintext(&mut conn, 32);
    assert!(r.is_err());
}

#[test]
fn read_step_follows_engine_and_buffer() {
    assert_eq!(read_step(false, 0, false), ReadStep::Ready);
    assert_eq!(read_step(false, 5, true), ReadStep::Ready);
    assert_eq!(read_step(true, 0, false), ReadStep::NeedTransport);
    assert_eq!(read_step(true, 0, true), ReadStep::SignalEof);
    assert_eq!(read_step(true, 3, false), ReadStep::Feed);
    assert_eq!(read_step(true, 3, true), ReadStep::Feed);
}

#[test]
fn drain_step_follows_engine_and_buffer() {
    assert_eq!(drain_step(false, false), DrainStep::Drained);
    assert_eq!(drain_step(false, true), DrainStep::Drained);
    assert_eq!(drain_step(true, true), DrainStep::NeedTransport);
    assert_eq!(drain_step(true, false), DrainStep::Pull);
}

#[test]
fn pull_appends_exactly_what_the_engine_gave() {
    let mut conn = fresh_client();
    let mut buf = WriteBuffer::build_from(BufCfg::with_data(vec![7u8, 8], 64));
    let got = pull_engine(&mut conn, &mut buf).unwrap();
    assert_eq!(got.len(), 62);
    assert_eq!(got[0], 22);
    let mut expected = vec![7u8, 8];
    expected.extend(got);
    assert_eq!(buf.pending(), expected);
    assert!(buf.is_full());
}

#[test]
fn feed_hands_the_oldest_bytes_to_the_engine() {
    let mut conn = fresh_client();
    let mut out = WriteBuffer::build_from(BufCfg::with_capacity(16384));
    drain_engine(&mut conn, &mut out).unwrap();
    let mut buf = ReadBuffer::build_from(BufCfg::with_data(vec![0xffu8; 8], 16));
    let r = feed_engine(&mut conn, &mut buf);
    assert!(matches!(r, Err(ReadError::InvalidData(_))));
    assert!(buf.is_empty());
}
