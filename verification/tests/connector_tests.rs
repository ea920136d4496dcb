use std::cell::Cell;
use std::rc::Rc;

use https_connector::connector::BuildRaw;
use https_connector::connector::BuildTls;
use https_connector::connector::ConnectError;
use https_connector::connector::Destination;
use https_connector::connector::HttpsConnector;
use https_connector::connector::PendingConnect;
use https_connector::connector::RawConnect;
use https_connector::connector::Scheme;
use https_connector::handshake::HandshakeOutcome;
use https_connector::handshake::MidSession;
use https_connector::handshake::TlsEngine;
use https_connector::outcome::IoOutcome;
use https_connector::outcome::PollOutcome;
use https_connector::transport::MaybeHttpsStream;

#[derive(Debug, PartialEq)]
struct FakeTransport(String);

#[derive(Debug, PartialEq)]
struct FakeMeta(u32);

#[derive(Debug, PartialEq)]
struct FakeRawErr(u32);

#[derive(Debug, PartialEq)]
struct FakeSess(u32);

#[derive(Debug, PartialEq)]
struct FakeHsErr(u32);

/// A raw connect in flight: stalls a scripted number of polls, then
/// either fails or hands out a transport labelled with the host.
struct FakePending {
    stalls: u32,
    fail: bool,
    host: String,
}

impl PendingConnect<FakeTransport, FakeMeta, FakeRawErr> for FakePending {
    fn poll_raw(&mut self) -> IoOutcome<(FakeTransport, FakeMeta), FakeRawErr> {
        if self.stalls > 0 {
            self.stalls -= 1;
            IoOutcome::WouldBlock
        } else if self.fail {
            IoOutcome::Failed(FakeRawErr(5))
        } else {
            IoOutcome::Done((FakeTransport(self.host.clone()), FakeMeta(1)))
        }
    }
}

/// A raw connector that counts its invocations.
struct CountingRaw {
    calls: Rc<Cell<u32>>,
    stalls: u32,
    fail: bool,
}

impl RawConnect<FakePending> for CountingRaw {
    fn connect(&self, host: &str, _port: Option<u16>) -> FakePending {
        self.calls.set(self.calls.get() + 1);
        FakePending { stalls: self.stalls, fail: self.fail, host: host.to_string() }
    }
}

impl BuildRaw for CountingRaw {
    fn build(_threads: usize) -> Self {
        CountingRaw { calls: Rc::new(Cell::new(0)), stalls: 0, fail: false }
    }
}

/// A partial session that stays interrupted a scripted number of steps.
struct FakeMid {
    steps_left: u32,
}

impl MidSession<FakeSess, FakeHsErr> for FakeMid {
    fn resume(self) -> HandshakeOutcome<FakeSess, Self, FakeHsErr> {
        if self.steps_left > 0 {
            HandshakeOutcome::Interrupted(FakeMid { steps_left: self.steps_left - 1 })
        } else {
            HandshakeOutcome::Established(FakeSess(7))
        }
    }
}

/// A TLS engine holding one certificate name; it counts handshake starts
/// and honours the hostname-verification flag.
struct FakeEngine {
    cert_name: String,
    begins: Rc<Cell<u32>>,
    interruptions: u32,
}

impl TlsEngine<FakeTransport, FakeSess, FakeMid, FakeHsErr> for FakeEngine {
    fn begin_connect(
        &self,
        domain: &str,
        verify_hostname: bool,
        _stream: FakeTransport,
    ) -> HandshakeOutcome<FakeSess, FakeMid, FakeHsErr> {
        self.begins.set(self.begins.get() + 1);
        if verify_hostname && domain != self.cert_name {
            HandshakeOutcome::Fatal(FakeHsErr(42))
        } else if self.interruptions > 0 {
            HandshakeOutcome::Interrupted(FakeMid { steps_left: self.interruptions - 1 })
        } else {
            HandshakeOutcome::Established(FakeSess(7))
        }
    }
}

struct FailingTlsBuild;

impl BuildTls<FakeHsErr> for FailingTlsBuild {
    fn build_default() -> Result<Self, FakeHsErr> {
        Err(FakeHsErr(99))
    }
}

impl BuildTls<FakeHsErr> for FakeEngine {
    fn build_default() -> Result<Self, FakeHsErr> {
        Ok(FakeEngine {
            cert_name: String::from("example.com"),
            begins: Rc::new(Cell::new(0)),
            interruptions: 0,
        })
    }
}

fn connector(
    stalls: u32,
    fail: bool,
    cert_name: &str,
    interruptions: u32,
) -> (HttpsConnector<CountingRaw, FakeEngine>, Rc<Cell<u32>>, Rc<Cell<u32>>) {
    let calls = Rc::new(Cell::new(0));
    let begins = Rc::new(Cell::new(0));
    let raw = CountingRaw { calls: calls.clone(), stalls, fail };
    let engine = FakeEngine {
        cert_name: cert_name.to_string(),
        begins: begins.clone(),
        interruptions,
    };
    (HttpsConnector::from_parts(raw, engine), calls, begins)
}

fn dest(scheme: Scheme, host: &str) -> Destination {
    Destination { scheme, host: host.to_string(), port: Some(443) }
}

#[test]
fn plain_connect_succeeds_when_raw_connect_does() {
    let (c, calls, begins) = connector(0, false, "example.com", 0);
    let mut f = c.connect::<FakePending, FakeSess, FakeMid, FakeHsErr, FakeMeta>(dest(
        Scheme::Http,
        "example.com",
    ));
    match f.poll::<FakeTransport, FakeRawErr>() {
        PollOutcome::Ready((stream, meta)) => {
            assert_eq!(meta, FakeMeta(1));
            match stream {
                MaybeHttpsStream::Http(t) => assert_eq!(t, FakeTransport("example.com".to_string())),
                MaybeHttpsStream::Https(_) => panic!("no handshake belongs on a plain connect"),
            }
        }
        _ => panic!("expected the connect to resolve"),
    }
    assert_eq!(calls.get(), 1);
    assert_eq!(begins.get(), 0);
}

#[test]
fn plain_connect_fails_when_raw_connect_does() {
    let (c, calls, begins) = connector(0, true, "example.com", 0);
    let mut f = c.connect::<FakePending, FakeSess, FakeMid, FakeHsErr, FakeMeta>(dest(
        Scheme::Http,
        "example.com",
    ));
    match f.poll::<FakeTransport, FakeRawErr>() {
        PollOutcome::Failed(ConnectError::Raw(e)) => assert_eq!(e, FakeRawErr(5)),
        _ => panic!("expected the raw error verbatim"),
    }
    assert_eq!(calls.get(), 1);
    assert_eq!(begins.get(), 0);
}

#[test]
fn plain_connect_waits_for_the_raw_connect() {
    let (c, calls, _) = connector(2, false, "example.com", 0);
    let mut f = c.connect::<FakePending, FakeSess, FakeMid, FakeHsErr, FakeMeta>(dest(
        Scheme::Http,
        "example.com",
    ));
    assert!(matches!(f.poll::<FakeTransport, FakeRawErr>(), PollOutcome::NotReady));
    assert!(matches!(f.poll::<FakeTransport, FakeRawErr>(), PollOutcome::NotReady));
    assert!(matches!(f.poll::<FakeTransport, FakeRawErr>(), PollOutcome::Ready(_)));
    assert_eq!(calls.get(), 1);
}

#[test]
fn forced_https_rejects_plain_destinations_without_io() {
    let (mut c, calls, begins) = connector(0, false, "example.com", 0);
    c.force_https(true);
    let mut f = c.connect::<FakePending, FakeSess, FakeMid, FakeHsErr, FakeMeta>(dest(
        Scheme::Http,
        "example.com",
    ));
    assert!(matches!(
        f.poll::<FakeTransport, FakeRawErr>(),
        PollOutcome::Failed(ConnectError::ProtocolPolicy)
    ));
    assert_eq!(calls.get(), 0);
    assert_eq!(begins.get(), 0);
    assert!(matches!(
        f.poll::<FakeTransport, FakeRawErr>(),
        PollOutcome::ContractViolation
    ));
}

#[test]
fn forced_https_still_allows_secure_destinations() {
    let (mut c, calls, begins) = connector(0, false, "example.com", 0);
    c.force_https(true);
    let mut f = c.connect::<FakePending, FakeSess, FakeMid, FakeHsErr, FakeMeta>(dest(
        Scheme::Https,
        "example.com",
    ));
    assert!(matches!(f.poll::<FakeTransport, FakeRawErr>(), PollOutcome::Ready(_)));
    assert_eq!(calls.get(), 1);
    assert_eq!(begins.get(), 1);
}

#[test]
fn secure_connect_with_interruptions_yields_one_transport() {
    let (c, calls, begins) = connector(1, false, "example.com", 3);
    let mut f = c.connect::<FakePending, FakeSess, FakeMid, FakeHsErr, FakeMeta>(dest(
        Scheme::Https,
        "example.com",
    ));
    let mut ready = 0;
    let mut not_ready = 0;
    loop {
        match f.poll::<FakeTransport, FakeRawErr>() {
            PollOutcome::Ready((stream, meta)) => {
                assert_eq!(meta, FakeMeta(1));
                match stream {
                    MaybeHttpsStream::Https(tls) => assert_eq!(tls.inner, FakeSess(7)),
                    MaybeHttpsStream::Http(_) => panic!("expected the TLS variant"),
                }
                ready += 1;
                break;
            }
            PollOutcome::NotReady => not_ready += 1,
            _ => panic!("unexpected poll result"),
        }
        assert!(not_ready < 10);
    }
    assert_eq!(ready, 1);
    // one raw connect stall, one handshake start interruption, two resumes
    assert_eq!(not_ready, 4);
    assert_eq!(calls.get(), 1);
    assert_eq!(begins.get(), 1);
    assert!(matches!(
        f.poll::<FakeTransport, FakeRawErr>(),
        PollOutcome::ContractViolation
    ));
}

#[test]
fn hostname_mismatch_fails_with_verification_enabled() {
    let (c, _, begins) = connector(0, false, "other.example", 0);
    let mut f = c.connect::<FakePending, FakeSess, FakeMid, FakeHsErr, FakeMeta>(dest(
        Scheme::Https,
        "example.com",
    ));
    match f.poll::<FakeTransport, FakeRawErr>() {
        PollOutcome::Failed(ConnectError::Handshake(e)) => assert_eq!(e, FakeHsErr(42)),
        _ => panic!("expected the handshake failure"),
    }
    assert_eq!(begins.get(), 1);
}

#[test]
fn hostname_mismatch_succeeds_with_verification_disabled() {
    let (mut c, _, _) = connector(0, false, "other.example", 0);
    c.danger_disable_hostname_verification(true);
    let mut f = c.connect::<FakePending, FakeSess, FakeMid, FakeHsErr, FakeMeta>(dest(
        Scheme::Https,
        "example.com",
    ));
    assert!(matches!(f.poll::<FakeTransport, FakeRawErr>(), PollOutcome::Ready(_)));
}

#[test]
fn setters_toggle_both_ways() {
    let (mut c, _, _) = connector(0, false, "example.com", 0);
    c.danger_disable_hostname_verification(true);
    assert!(!c.hostname_verification);
    c.danger_disable_hostname_verification(false);
    assert!(c.hostname_verification);
    c.force_https(true);
    assert!(c.force_https);
    c.force_https(false);
    assert!(!c.force_https);
}

#[test]
fn new_builds_defaults_or_surfaces_the_backend_error() {
    let built: Result<HttpsConnector<CountingRaw, FakeEngine>, FakeHsErr> =
        HttpsConnector::new(2);
    let c = built.expect("the default context builds");
    assert!(c.hostname_verification);
    assert!(!c.force_https);
    let failed: Result<HttpsConnector<CountingRaw, FailingTlsBuild>, FakeHsErr> =
        HttpsConnector::new(2);
    match failed {
        Err(e) => assert_eq!(e, FakeHsErr(99)),
        Ok(_) => panic!("expected the backend error"),
    }
}
