use https_connector::mem::CLOSE_MARKER;
use https_connector::mem::EV_CLOSE;
use https_connector::mem::EV_RAW_SHUTDOWN;
use https_connector::mem::FAULT_CLOSED;
use https_connector::mem::IoFault;
use https_connector::mem::MemSession;
use https_connector::mem::MemTransport;
use https_connector::mem::SESSION_MASK;
use https_connector::outcome::IoOutcome;
use https_connector::transport::MaybeHttpsStream;
use https_connector::transport::TlsStream;
use https_connector::transport::Transport;

fn fresh_session(stall_close: usize) -> MemSession {
    let mut s = MemSession::over(MemTransport::open(Vec::new()), Vec::new());
    s.stall_close = stall_close;
    s
}

#[test]
fn plain_write_reaches_the_wire_unmodified() {
    let mut stream: MaybeHttpsStream<MemTransport, MemSession> =
        MaybeHttpsStream::Http(MemTransport::open(Vec::new()));
    match stream.write(&[1, 2, 3]) {
        IoOutcome::Done(n) => assert_eq!(n, 3),
        _ => panic!("expected the write to finish"),
    }
    assert!(matches!(stream.write(&[4]), IoOutcome::Done(1)));
    match stream {
        MaybeHttpsStream::Http(t) => assert_eq!(t.outgoing, vec![1, 2, 3, 4]),
        MaybeHttpsStream::Https(_) => panic!("expected the plain variant"),
    }
}

#[test]
fn plain_read_delivers_the_peer_bytes_unmodified() {
    let mut stream: MaybeHttpsStream<MemTransport, MemSession> =
        MaybeHttpsStream::Http(MemTransport::open(vec![9, 8, 7]));
    match stream.read(2) {
        IoOutcome::Done(data) => assert_eq!(data, vec![9, 8]),
        _ => panic!("expected data"),
    }
    match stream.read(10) {
        IoOutcome::Done(data) => assert_eq!(data, vec![7]),
        _ => panic!("expected data"),
    }
    match stream.read(10) {
        IoOutcome::Done(data) => assert_eq!(data, Vec::<u8>::new()),
        _ => panic!("expected end of stream"),
    }
}

#[test]
fn stalled_write_loses_no_progress() {
    let mut t = MemTransport::open(Vec::new());
    t.stall_writes = 1;
    assert!(matches!(t.write(&[5, 6]), IoOutcome::WouldBlock));
    assert_eq!(t.outgoing, Vec::<u8>::new());
    assert!(matches!(t.write(&[5, 6]), IoOutcome::Done(2)));
    assert_eq!(t.outgoing, vec![5, 6]);
}

#[test]
fn tls_write_is_masked_on_the_wire_until_unwrapped() {
    let mut stream = TlsStream { inner: fresh_session(0) };
    assert!(matches!(stream.write(&[1, 2, 3]), IoOutcome::Done(3)));
    assert_eq!(stream.inner.plain_out, vec![1, 2, 3]);
    let wire = stream.inner.raw.outgoing.clone();
    assert_eq!(
        wire,
        vec![1 ^ SESSION_MASK, 2 ^ SESSION_MASK, 3 ^ SESSION_MASK]
    );
    assert_ne!(wire, vec![1, 2, 3]);
    let unwrapped: Vec<u8> = wire.iter().map(|b| b ^ SESSION_MASK).collect();
    assert_eq!(unwrapped, vec![1, 2, 3]);
}

#[test]
fn tls_read_decrypts_from_the_session() {
    let mut session = MemSession::over(MemTransport::open(Vec::new()), vec![10, 20]);
    session.stall_close = 0;
    let mut stream: MaybeHttpsStream<MemTransport, MemSession> =
        MaybeHttpsStream::Https(TlsStream { inner: session });
    match stream.read(5) {
        IoOutcome::Done(data) => assert_eq!(data, vec![10, 20]),
        _ => panic!("expected plaintext"),
    }
}

#[test]
fn tls_shutdown_orders_close_before_raw_shutdown() {
    let mut stream = TlsStream { inner: fresh_session(1) };
    // first phase stalls: nothing of the raw transport may be shut down
    assert!(matches!(stream.shutdown(), IoOutcome::WouldBlock));
    assert!(!stream.inner.raw.shut);
    assert!(!stream.inner.closed);
    assert_eq!(stream.inner.log, vec![EV_CLOSE]);
    // second attempt finishes both phases, in order
    assert!(matches!(stream.shutdown(), IoOutcome::Done(())));
    assert!(stream.inner.closed);
    assert!(stream.inner.raw.shut);
    assert_eq!(stream.inner.log, vec![EV_CLOSE, EV_CLOSE, EV_RAW_SHUTDOWN]);
    assert_eq!(stream.inner.raw.outgoing, vec![CLOSE_MARKER]);
}

#[test]
fn plain_shutdown_forwards_directly() {
    let mut stream: MaybeHttpsStream<MemTransport, MemSession> =
        MaybeHttpsStream::Http(MemTransport::open(Vec::new()));
    assert!(matches!(stream.shutdown(), IoOutcome::Done(())));
    match stream {
        MaybeHttpsStream::Http(t) => assert!(t.shut),
        MaybeHttpsStream::Https(_) => panic!("expected the plain variant"),
    }
}

#[test]
fn dual_mode_shutdown_runs_both_phases_for_tls() {
    let mut stream: MaybeHttpsStream<MemTransport, MemSession> =
        MaybeHttpsStream::Https(TlsStream { inner: fresh_session(0) });
    assert!(matches!(stream.shutdown(), IoOutcome::Done(())));
    match stream {
        MaybeHttpsStream::Https(tls) => {
            assert!(tls.inner.closed);
            assert!(tls.inner.raw.shut);
            assert_eq!(tls.inner.log, vec![EV_CLOSE, EV_RAW_SHUTDOWN]);
        }
        MaybeHttpsStream::Http(_) => panic!("expected the TLS variant"),
    }
}

#[test]
fn writing_after_close_fails() {
    let mut stream = TlsStream { inner: fresh_session(0) };
    assert!(matches!(stream.shutdown(), IoOutcome::Done(())));
    match stream.write(&[1]) {
        IoOutcome::Failed(e) => assert_eq!(e, IoFault { code: FAULT_CLOSED }),
        _ => panic!("expected the fault"),
    }
}

#[test]
fn flush_changes_nothing() {
    let mut stream: MaybeHttpsStream<MemTransport, MemSession> =
        MaybeHttpsStream::Http(MemTransport::open(Vec::new()));
    assert!(matches!(stream.write(&[1]), IoOutcome::Done(1)));
    assert!(matches!(stream.flush(), IoOutcome::Done(())));
    match stream {
        MaybeHttpsStream::Http(t) => {
            assert_eq!(t.outgoing, vec![1]);
            assert!(!t.shut);
        }
        MaybeHttpsStream::Https(_) => panic!("expected the plain variant"),
    }
}

#[test]
fn empty_write_and_bounded_read_are_exact() {
    let mut t = MemTransport::open(vec![1, 2, 3]);
    assert!(matches!(t.write(&[]), IoOutcome::Done(0)));
    assert_eq!(t.outgoing, Vec::<u8>::new());
    match t.read(0) {
        IoOutcome::Done(data) => assert_eq!(data, Vec::<u8>::new()),
        _ => panic!("expected an empty read"),
    }
    match t.read(3) {
        IoOutcome::Done(data) => assert_eq!(data, vec![1, 2, 3]),
        _ => panic!("expected the scripted bytes"),
    }
}

#[test]
fn session_accessors_reach_the_backend_object() {
    let mut stream = TlsStream { inner: fresh_session(0) };
    assert_eq!(stream.get_ref().plain_out, Vec::<u8>::new());
    stream.get_mut().plain_out.push(3);
    assert_eq!(stream.get_ref().plain_out, vec![3]);
}
