//! The HTTPS connector.
//!
//! The connector composes two asynchronous phases — the raw transport
//! connect and the optional TLS upgrade — into a single non-blocking,
//! cancellable operation, applying its policy flags first: with forced
//! HTTPS a plaintext destination is rejected before any I/O, a plaintext
//! destination otherwise resolves straight to the plain transport, and a
//! TLS-secured destination hands the established raw transport to the
//! handshake state machine.

use vstd::prelude::*;

use std::sync::Arc;

use crate::handshake::HandshakeOutcome;
use crate::handshake::HandshakeState;
use crate::handshake::MidHandshake;
use crate::handshake::MidSession;
use crate::handshake::TlsEngine;
use crate::outcome::IoOutcome;
use crate::outcome::PollOutcome;
use crate::transport::MaybeHttpsStream;
use crate::transport::TlsStream;

verus! {

/// The scheme of a destination: plaintext or TLS-secured.
#[derive(Clone, Copy, PartialEq, Eq, Structural, Debug)]
pub enum Scheme {
    /// Plaintext.
    Http,
    /// TLS-secured.
    Https,
}

/// Scheme, host and port identifying what to connect to; supplied per
/// connect call.
pub struct Destination {
    /// The destination's scheme.
    pub scheme: Scheme,
    /// The destination's host name.
    pub host: String,
    /// The destination's port; the scheme's default when absent.
    pub port: Option<u16>,
}

/// Why a connect operation failed.
pub enum ConnectError<RE, HE> {
    /// The raw transport failed; the raw connector's error verbatim.
    Raw(RE),
    /// The TLS negotiation failed terminally; wraps the backend error.
    Handshake(HE),
    /// Forced HTTPS met a plaintext destination; raised before any I/O.
    ProtocolPolicy,
}

/// A raw connect operation in flight.
pub trait PendingConnect<T, Meta, RE>: Sized {
    /// Poll for the established raw transport and its connection
    /// metadata.
    fn poll_raw(&mut self) -> (r: IoOutcome<(T, Meta), RE>);
}

/// A raw connector: opens plaintext byte streams to a (host, port). It
/// must attempt the connect regardless of scheme, since scheme policy
/// lives in the HTTPS connector, not the raw layer.
pub trait RawConnect<Pd>: Sized {
    /// Begin a raw connect to (host, port).
    fn connect(&self, host: &str, port: Option<u16>) -> (p: Pd);
}

/// Builds a deployment's default raw connector.
pub trait BuildRaw: Sized {
    /// Build the default raw connector; `threads` is its number of DNS
    /// worker threads.
    fn build(threads: usize) -> (r: Self);
}

/// Builds the TLS backend's default context, from the backend's default
/// trust configuration.
pub trait BuildTls<HE>: Sized {
    /// Build the default context, or surface the backend's error.
    fn build_default() -> (r: Result<Self, HE>);
}

/// When the connector's policy rejects a destination before any I/O.
pub open spec fn policy_rejects(force_https: bool, scheme: Scheme) -> bool {
    force_https && scheme is Http
}

/// Relies on std's Arc::clone: the returned handle is the same shared
/// value as the one handed in.
#[verifier::external_body]
fn share_context<S>(ctx: &Arc<S>) -> (r: Arc<S>)
    ensures
        r == *ctx,
{
    Arc::clone(ctx)
}

/// Relies on std's Arc: dereferencing a shared handle yields the value
/// the handle was created over.
#[verifier::external_body]
fn context_ref<S>(ctx: &Arc<S>) -> (r: &S)
    ensures
        *r == *ctx,
{
    &**ctx
}

/// An HTTPS connector: policy flags that are immutable after setup, an
/// owned raw connector, and a shared read-only TLS context that many
/// in-flight connections use concurrently.
#[derive(Clone)]
pub struct HttpsConnector<T, S> {
    /// Whether the handshake verifies that the peer's certificate
    /// matches the destination host; on by default.
    pub hostname_verification: bool,
    /// Whether destinations with a plaintext scheme are rejected before
    /// any I/O; off by default.
    pub force_https: bool,
    /// The owned raw connector.
    pub http: T,
    /// The shared TLS context.
    pub tls: Arc<S>,
}

impl<T, S> HttpsConnector<T, S> {
    /// Build a connector from a raw connector and a TLS context, with the
    /// default flags: hostname verification on, forced HTTPS off.
    pub fn from_parts(http: T, tls: S) -> (r: Self)
        ensures
            r.hostname_verification,
            !r.force_https,
            r.http == http,
            r.tls == tls,
    {
        HttpsConnector { hostname_verification: true, force_https: false, http, tls: Arc::new(tls) }
    }

    /// Disable hostname verification when connecting.
    ///
    /// Think twice before setting this: with verification disabled, a
    /// handshake succeeds even against a certificate whose name does not
    /// match the destination host, removing a core security guarantee.
    pub fn danger_disable_hostname_verification(&mut self, disable: bool)
        ensures
            final (self).hostname_verification == !disable,
            final (self).force_https == old(self).force_https,
            final (self).http == old(self).http,
            final (self).tls == old(self).tls,
    {
        self.hostname_verification = !disable;
    }

    /// Force the use of HTTPS. Non-HTTPS connections will fail before
    /// any I/O is attempted.
    pub fn force_https(&mut self, enable: bool)
        ensures
            final (self).force_https == enable,
            final (self).hostname_verification == old(self).hostname_verification,
            final (self).http == old(self).http,
            final (self).tls == old(self).tls,
    {
        self.force_https = enable;
    }
}

impl<T: BuildRaw, S> HttpsConnector<T, S> {
    /// Construct a new connector over the default raw connector and the
    /// backend's default TLS context. `threads` is the number of DNS
    /// worker threads for the raw connector. Fails exactly when the
    /// backend cannot build its default context, with that error.
    pub fn new<HE>(threads: usize) -> (r: Result<Self, HE>) where S: BuildTls<HE>
        ensures
            r matches Ok(c) ==> c.hostname_verification && !c.force_https,
    {
        let http = T::build(threads);
        match S::build_default() {
            Ok(tls) => Ok(Self::from_parts(http, tls)),
            Err(e) => Err(e),
        }
    }
}

/// Where a connect operation stands.
pub enum ConnectPhase<Pd, Sx, M, HE, Meta> {
    /// Policy rejected the destination; no I/O was or will be attempted,
    /// and the first poll reports the policy error.
    Rejected,
    /// The raw connect is in flight; the destination's host, scheme and
    /// the hostname-verification flag ride along for the upgrade.
    RawConnecting { pending: Pd, host: String, scheme: Scheme, verify: bool },
    /// The raw transport is established; the TLS handshake is underway.
    Handshaking { machine: MidHandshake<Sx, M, HE>, meta: Meta },
    /// Terminal: the operation resolved; polling again is a caller bug.
    Resolved,
}

/// Phases never move backwards: a poll can only keep the phase or move
/// it towards `Resolved`, so one operation never issues a second raw
/// connect or a second handshake start.
pub open spec fn phase_rank<Pd, Sx, M, HE, Meta>(p: ConnectPhase<Pd, Sx, M, HE, Meta>) -> int {
    match p {
        ConnectPhase::Rejected => 0,
        ConnectPhase::RawConnecting { .. } => 0,
        ConnectPhase::Handshaking { .. } => 1,
        ConnectPhase::Resolved => 2,
    }
}

/// What a poll makes of a raw connect outcome when the destination
/// scheme is plaintext: no handshake is attempted; the operation stays
/// pending while the raw connect does, and otherwise resolves exactly as
/// the raw connect did, a failure verbatim.
pub open spec fn plain_step_spec<T, Meta, RE, Sx, HE>(o: IoOutcome<(T, Meta), RE>) -> Option<
    PollOutcome<(MaybeHttpsStream<T, Sx>, Meta), ConnectError<RE, HE>>,
> {
    match o {
        IoOutcome::Done((t, meta)) => Some(
            PollOutcome::Ready((MaybeHttpsStream::Http(t), meta)),
        ),
        IoOutcome::WouldBlock => None,
        IoOutcome::Failed(e) => Some(PollOutcome::Failed(ConnectError::Raw(e))),
    }
}

/// What the eagerly attempted first handshake step makes of an
/// established raw transport to a TLS-secured destination: the phase the
/// operation moves to and the result the poll reports.
pub open spec fn secure_upgrade_spec<T, Pd, Sx, M, HE, Meta, RE>(
    o: HandshakeOutcome<Sx, M, HE>,
    meta: Meta,
) -> (ConnectPhase<Pd, Sx, M, HE, Meta>, PollOutcome<
    (MaybeHttpsStream<T, Sx>, Meta),
    ConnectError<RE, HE>,
>) {
    match o {
        HandshakeOutcome::Established(sx) => (
            ConnectPhase::Resolved,
            PollOutcome::Ready((MaybeHttpsStream::Https(TlsStream { inner: sx }), meta)),
        ),
        HandshakeOutcome::Fatal(e) => (
            ConnectPhase::Resolved,
            PollOutcome::Failed(ConnectError::Handshake(e)),
        ),
        HandshakeOutcome::Interrupted(m) => (
            ConnectPhase::Handshaking {
                machine: MidHandshake { state: HandshakeState::Suspended(m) },
                meta,
            },
            PollOutcome::NotReady,
        ),
    }
}

/// Moves a connect operation according to the first handshake step's
/// outcome: success resolves it with the TLS variant, a fatal failure
/// resolves it with the wrapped backend error, and an interruption
/// suspends the handshake machine for later polls.
pub fn secure_upgrade<T, Pd, Sx, M, HE, Meta, RE>(o: HandshakeOutcome<Sx, M, HE>, meta: Meta) -> (r:
    (ConnectPhase<Pd, Sx, M, HE, Meta>, PollOutcome<
        (MaybeHttpsStream<T, Sx>, Meta),
        ConnectError<RE, HE>,
    >))
    ensures
        r == secure_upgrade_spec::<T, Pd, Sx, M, HE, Meta, RE>(o, meta),
{
    match o {
        HandshakeOutcome::Established(sx) => (
            ConnectPhase::Resolved,
            PollOutcome::Ready((MaybeHttpsStream::Https(TlsStream { inner: sx }), meta)),
        ),
        HandshakeOutcome::Fatal(e) => (
            ConnectPhase::Resolved,
            PollOutcome::Failed(ConnectError::Handshake(e)),
        ),
        HandshakeOutcome::Interrupted(m) => (
            ConnectPhase::Handshaking {
                machine: MidHandshake { state: HandshakeState::Suspended(m) },
                meta,
            },
            PollOutcome::NotReady,
        ),
    }
}

/// A connect operation in flight, polled by the driving executor.
pub struct HttpsConnecting<Pd, S, Sx, M, HE, Meta> {
    /// The shared TLS context, for the upgrade once the raw transport is
    /// established.
    pub tls: Arc<S>,
    /// Where the operation stands.
    pub phase: ConnectPhase<Pd, Sx, M, HE, Meta>,
}

impl<Pd, S, Sx, M, HE, Meta> HttpsConnecting<Pd, S, Sx, M, HE, Meta> {
    /// Validity: while the handshake is underway, the machine is
    /// suspended, never terminal and never holding an unpolled start.
    pub open spec fn wf(&self) -> bool {
        self.phase matches ConnectPhase::Handshaking { machine, .. }
            ==> machine.state is Suspended
    }
}

impl<T, S> HttpsConnector<T, S> {
    /// Begin a connect to a destination.
    ///
    /// With forced HTTPS on and a plaintext scheme, the operation is
    /// rejected at once: the raw connector is not invoked and its first
    /// poll reports the policy error. Otherwise the raw connect is
    /// begun for (host, port), and the destination's host, scheme and
    /// this connector's hostname-verification flag ride along to decide
    /// and parameterize the TLS upgrade.
    pub fn connect<Pd, Sx, M, HE, Meta>(&self, dst: Destination) -> (f: HttpsConnecting<
        Pd,
        S,
        Sx,
        M,
        HE,
        Meta,
    >) where T: RawConnect<Pd>
        ensures
            f.wf(),
            f.tls == self.tls,
            policy_rejects(self.force_https, dst.scheme) <==> f.phase is Rejected,
            !policy_rejects(self.force_https, dst.scheme) ==> (f.phase matches
                ConnectPhase::RawConnecting { pending, host, scheme, verify } && host == dst.host
                && scheme == dst.scheme && verify == self.hostname_verification),
    {
        if self.force_https && dst.scheme == Scheme::Http {
            HttpsConnecting { tls: share_context(&self.tls), phase: ConnectPhase::Rejected }
        } else {
            let pending = self.http.connect(dst.host.as_str(), dst.port);
            HttpsConnecting {
                tls: share_context(&self.tls),
                phase: ConnectPhase::RawConnecting {
                    pending,
                    host: dst.host,
                    scheme: dst.scheme,
                    verify: self.hostname_verification,
                },
            }
        }
    }
}

impl<Pd, S, Sx, M, HE, Meta> HttpsConnecting<Pd, S, Sx, M, HE, Meta> {
    /// Drive the connect operation one poll further.
    ///
    /// A rejected operation resolves at once with the policy error. A
    /// pending raw connect is polled: failure resolves the operation
    /// with the raw error verbatim; an established transport resolves a
    /// plaintext destination at once with the plain variant, and begins
    /// the handshake for a TLS-secured one, whose progress later polls
    /// drive. Polling a resolved operation reports the defined fatal
    /// signal and changes nothing.
    pub fn poll<RT, RE>(&mut self) -> (r: PollOutcome<
        (MaybeHttpsStream<RT, Sx>, Meta),
        ConnectError<RE, HE>,
    >) where Pd: PendingConnect<RT, Meta, RE>, S: TlsEngine<RT, Sx, M, HE>, M: MidSession<Sx, HE>
        requires
            old(self).wf(),
        ensures
            final (self).wf(),
            final (self).tls == old(self).tls,
            phase_rank(final (self).phase) >= phase_rank(old(self).phase),
            r is NotReady <==> !(final (self).phase is Resolved),
            r is Ready ==> final (self).phase is Resolved && !(old(self).phase is Resolved),
            old(self).phase is Resolved ==> r is ContractViolation && final (self).phase
                is Resolved,
            !(old(self).phase is Resolved) ==> !(r is ContractViolation),
            old(self).phase is Rejected ==> final (self).phase is Resolved && r == PollOutcome::<
                (MaybeHttpsStream<RT, Sx>, Meta),
                ConnectError<RE, HE>,
            >::Failed(ConnectError::ProtocolPolicy),
            old(self).phase matches ConnectPhase::RawConnecting { host, scheme, verify, .. } ==> ((
            scheme == Scheme::Http ==> exists|o: IoOutcome<(RT, Meta), RE>|
                match #[trigger] plain_step_spec::<RT, Meta, RE, Sx, HE>(o) {
                    Some(res) => r == res && final (self).phase is Resolved,
                    None => r is NotReady && (final (self).phase matches
                        ConnectPhase::RawConnecting { host: h2, scheme: s2, verify: v2, .. } && h2
                        == host && s2 == scheme && v2 == verify),
                }) && (scheme == Scheme::Https ==> ((r is NotReady && (final (self).phase matches
                ConnectPhase::RawConnecting { host: h2, scheme: s2, verify: v2, .. } && h2 == host
                && s2 == scheme && v2 == verify)) || (exists|e: RE|
                r == PollOutcome::<
                    (MaybeHttpsStream<RT, Sx>, Meta),
                    ConnectError<RE, HE>,
                >::Failed(ConnectError::Raw(e)) && final (self).phase is Resolved) || (exists|
                o: HandshakeOutcome<Sx, M, HE>,
                meta: Meta,
            |
                (final (self).phase, r) == secure_upgrade_spec::<RT, Pd, Sx, M, HE, Meta, RE>(
                    o,
                    meta,
                ))))),
            old(self).phase matches ConnectPhase::Handshaking { meta, .. } ==> ((r is NotReady
                && (final (self).phase matches ConnectPhase::Handshaking { meta: meta2, .. } && meta2
                == meta)) || (final (self).phase is Resolved && ((exists|sx: Sx|
                r == PollOutcome::<
                    (MaybeHttpsStream<RT, Sx>, Meta),
                    ConnectError<RE, HE>,
                >::Ready((MaybeHttpsStream::Https(TlsStream { inner: sx }), meta))) || (exists|
                e: HE,
            |
                r == PollOutcome::<
                    (MaybeHttpsStream<RT, Sx>, Meta),
                    ConnectError<RE, HE>,
                >::Failed(ConnectError::Handshake(e)))))),
    {
        match &self.phase {
            ConnectPhase::Resolved => {
                return PollOutcome::ContractViolation;
            },
            _ => {},
        }
        let mut ph = ConnectPhase::Resolved;
        core::mem::swap(&mut ph, &mut self.phase);
        match ph {
            ConnectPhase::Rejected => PollOutcome::Failed(ConnectError::ProtocolPolicy),
            ConnectPhase::RawConnecting { mut pending, host, scheme, verify } => {
                let raw = pending.poll_raw();
                let ghost raw_witness = raw;
                match raw {
                    IoOutcome::WouldBlock => {
                        self.phase = ConnectPhase::RawConnecting { pending, host, scheme, verify };
                        proof {
                            assert(plain_step_spec::<RT, Meta, RE, Sx, HE>(raw_witness) is None);
                        }
                        PollOutcome::NotReady
                    },
                    IoOutcome::Failed(e) => {
                        let ghost e_witness = e;
                        let res = PollOutcome::Failed(ConnectError::Raw(e));
                        proof {
                            assert(plain_step_spec::<RT, Meta, RE, Sx, HE>(raw_witness) == Some(
                                res,
                            ));
                            assert(res == PollOutcome::<
                                (MaybeHttpsStream<RT, Sx>, Meta),
                                ConnectError<RE, HE>,
                            >::Failed(ConnectError::<RE, HE>::Raw(e_witness)));
                        }
                        res
                    },
                    IoOutcome::Done((t, meta)) => {
                        match scheme {
                            Scheme::Http => {
                                let res = PollOutcome::Ready((MaybeHttpsStream::Http(t), meta));
                                proof {
                                    assert(plain_step_spec::<RT, Meta, RE, Sx, HE>(raw_witness)
                                        == Some(res));
                                }
                                res
                            },
                            Scheme::Https => {
                                let ghost meta_witness = meta;
                                let o = context_ref(&self.tls).begin_connect(
                                    host.as_str(),
                                    verify,
                                    t,
                                );
                                let ghost o_witness = o;
                                let (ph2, r) = secure_upgrade(o, meta);
                                self.phase = ph2;
                                proof {
                                    assert((self.phase, r) == secure_upgrade_spec::<
                                        RT,
                                        Pd,
                                        Sx,
                                        M,
                                        HE,
                                        Meta,
                                        RE,
                                    >(o_witness, meta_witness));
                                }
                                r
                            },
                        }
                    },
                }
            },
            ConnectPhase::Handshaking { mut machine, meta } => {
                match machine.poll() {
                    PollOutcome::Ready(sx) => {
                        let ghost sx_witness = sx;
                        let ghost meta_witness = meta;
                        let res = PollOutcome::Ready(
                            (MaybeHttpsStream::Https(TlsStream { inner: sx }), meta),
                        );
                        proof {
                            assert(res == PollOutcome::<
                                (MaybeHttpsStream<RT, Sx>, Meta),
                                ConnectError<RE, HE>,
                            >::Ready(
                                (
                                    MaybeHttpsStream::Https(TlsStream { inner: sx_witness }),
                                    meta_witness,
                                ),
                            ));
                        }
                        res
                    },
                    PollOutcome::NotReady => {
                        self.phase = ConnectPhase::Handshaking { machine, meta };
                        PollOutcome::NotReady
                    },
                    PollOutcome::Failed(e) => {
                        let ghost e_witness = e;
                        let res = PollOutcome::Failed(ConnectError::Handshake(e));
                        proof {
                            assert(res == PollOutcome::<
                                (MaybeHttpsStream<RT, Sx>, Meta),
                                ConnectError<RE, HE>,
                            >::Failed(ConnectError::<RE, HE>::Handshake(e_witness)));
                        }
                        res
                    },
                    PollOutcome::ContractViolation => vstd::pervasive::unreached(),
                }
            },
            ConnectPhase::Resolved => vstd::pervasive::unreached(),
        }
    }
}

/// Law: with a plaintext scheme, the connect operation succeeds exactly
/// when the raw connect succeeds and fails exactly when it fails, with
/// the raw error passed through verbatim — and no handshake result ever
/// appears.
pub proof fn lemma_plain_connect<T, Meta, RE, Sx, HE>(o: IoOutcome<(T, Meta), RE>)
    ensures
        (plain_step_spec::<T, Meta, RE, Sx, HE>(o) matches Some(res) && res is Ready) <==> o
            is Done,
        (plain_step_spec::<T, Meta, RE, Sx, HE>(o) matches Some(res) && res is Failed) <==> o
            is Failed,
        plain_step_spec::<T, Meta, RE, Sx, HE>(o) matches Some(res) ==> (res matches
            PollOutcome::Failed(err) ==> (o matches IoOutcome::Failed(re) && err
            == ConnectError::<RE, HE>::Raw(re))),
        plain_step_spec::<T, Meta, RE, Sx, HE>(o) matches Some(res) ==> (res matches
            PollOutcome::Ready(p) ==> p.0 is Http),
{
}

} // verus!
