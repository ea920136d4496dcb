//! The TLS handshake state machine.
//!
//! A TLS handshake needs several message round-trips, so a non-blocking
//! handshake attempt can be interrupted: it needs more I/O before it can
//! resolve. The machine here drives such a possibly-interrupted handshake
//! to completion across repeated poll calls from an executor, without
//! blocking and without busy-waiting.
//!
//! The backend that performs the actual negotiation is abstracted as the
//! capability traits [`TlsEngine`], [`TlsAccept`] and [`MidSession`]; the
//! machine is verified over every outcome those capabilities can produce.

use vstd::prelude::*;

use crate::outcome::PollOutcome;

verus! {

/// The outcome of one non-blocking handshake step.
///
/// `Sx` is the established session type, `M` the partial (mid-handshake)
/// session type, and `E` the backend error type.
pub enum HandshakeOutcome<Sx, M, E> {
    /// The handshake finished; the encrypted session is ready.
    Established(Sx),
    /// The handshake needs more I/O; this partial session resumes it.
    Interrupted(M),
    /// The handshake failed for good.
    Fatal(E),
}

/// A partial TLS session that can attempt one more non-blocking
/// handshake step. Implementations perform the backend negotiation I/O;
/// nothing can be promised of an outcome that depends on the peer, so the
/// machine below is verified over every value `resume` may return.
pub trait MidSession<Sx, E>: Sized {
    /// Attempt exactly one more non-blocking handshake step.
    fn resume(self) -> (r: HandshakeOutcome<Sx, Self, E>);
}

/// A TLS context capable of starting a client-side handshake.
///
/// The context is shared and read-only: one context serves many
/// simultaneous connections. When `verify_hostname` is false the
/// handshake must succeed even against a certificate whose name does not
/// match `domain` (a deliberate removal of a core security guarantee).
pub trait TlsEngine<T, Sx, M, E> {
    /// Eagerly attempt the first non-blocking handshake step over an
    /// established raw transport.
    fn begin_connect(&self, domain: &str, verify_hostname: bool, stream: T) -> (r: HandshakeOutcome<
        Sx,
        M,
        E,
    >);
}

/// A TLS context capable of starting a server-side handshake.
pub trait TlsAccept<T, Sx, M, E> {
    /// Eagerly attempt the first non-blocking handshake step over an
    /// accepted raw transport.
    fn begin_accept(&self, stream: T) -> (r: HandshakeOutcome<Sx, M, E>);
}

/// The states of one pending handshake attempt.
pub enum HandshakeState<Sx, M, E> {
    /// Initial: holds the outcome of the first, eagerly attempted
    /// handshake step performed at construction.
    Started(HandshakeOutcome<Sx, M, E>),
    /// Interrupted: awaiting another poll to resume the partial session.
    Suspended(M),
    /// Terminal success: the session was yielded to the caller.
    Complete,
    /// Terminal failure: the backend error was surfaced to the caller.
    Failed,
}

/// True of the two terminal states, after which polling again is a
/// contract violation.
pub open spec fn is_terminal<Sx, M, E>(s: HandshakeState<Sx, M, E>) -> bool {
    s is Complete || s is Failed
}

/// What one poll makes of a handshake step outcome: the state the machine
/// moves to and the result the poll reports.
pub open spec fn absorb_spec<Sx, M, E>(o: HandshakeOutcome<Sx, M, E>) -> (HandshakeState<Sx, M, E>, PollOutcome<
    Sx,
    E,
>) {
    match o {
        HandshakeOutcome::Established(s) => (HandshakeState::Complete, PollOutcome::Ready(s)),
        HandshakeOutcome::Fatal(e) => (HandshakeState::Failed, PollOutcome::Failed(e)),
        HandshakeOutcome::Interrupted(m) => (HandshakeState::Suspended(m), PollOutcome::NotReady),
    }
}

/// One poll of the machine, given the outcome `o` that a resume step
/// would produce if one were taken. Polls of states that hold a resolved
/// outcome ignore `o`; polls of terminal states report the fatal signal
/// and change nothing.
pub open spec fn poll_step_spec<Sx, M, E>(
    s: HandshakeState<Sx, M, E>,
    o: HandshakeOutcome<Sx, M, E>,
) -> (HandshakeState<Sx, M, E>, PollOutcome<Sx, E>) {
    if is_terminal(s) {
        (s, PollOutcome::ContractViolation)
    } else {
        match s {
            HandshakeState::Started(held) => if held is Interrupted {
                absorb_spec(o)
            } else {
                absorb_spec(held)
            },
            _ => absorb_spec(o),
        }
    }
}

/// How many polls of a run report an established session, when the
/// machine starts in `s0` and the poll number `i` would see its resume
/// step (if one is taken) produce `os[i]`.
pub open spec fn ready_count<Sx, M, E>(
    s0: HandshakeState<Sx, M, E>,
    os: Seq<HandshakeOutcome<Sx, M, E>>,
) -> nat
    decreases os.len(),
{
    if os.len() == 0 {
        0
    } else {
        let stepped = poll_step_spec(s0, os[0]);
        (if stepped.1 is Ready {
            1nat
        } else {
            0nat
        }) + ready_count(stepped.0, os.drop_first())
    }
}

/// Law: a machine that has reached a terminal state never again reports a
/// session, however often it is polled; every further poll reports the
/// fatal signal, never a stale or default result.
pub proof fn lemma_terminal_yields_nothing<Sx, M, E>(
    s0: HandshakeState<Sx, M, E>,
    os: Seq<HandshakeOutcome<Sx, M, E>>,
)
    requires
        is_terminal(s0),
    ensures
        ready_count(s0, os) == 0,
    decreases os.len(),
{
    if os.len() > 0 {
        lemma_terminal_yields_nothing(s0, os.drop_first());
    }
}

/// Law: a handshake interrupted any number of times before succeeding
/// still yields exactly one established session over any run of polls —
/// at most one poll of the run reports a session.
pub proof fn lemma_at_most_one_session<Sx, M, E>(
    s0: HandshakeState<Sx, M, E>,
    os: Seq<HandshakeOutcome<Sx, M, E>>,
)
    ensures
        ready_count(s0, os) <= 1,
    decreases os.len(),
{
    if os.len() > 0 {
        let stepped = poll_step_spec(s0, os[0]);
        if stepped.1 is Ready {
            lemma_terminal_yields_nothing(stepped.0, os.drop_first());
        } else {
            lemma_at_most_one_session(stepped.0, os.drop_first());
        }
    }
}

/// Exactly one pending handshake attempt.
pub struct MidHandshake<Sx, M, E> {
    pub state: HandshakeState<Sx, M, E>,
}

/// Moves the machine according to a step outcome and reports the result:
/// success completes the machine and yields the session, fatal failure
/// fails it and surfaces the error, and a further interruption suspends
/// it so a later poll resumes the new partial session.
pub fn absorb<Sx, M, E>(o: HandshakeOutcome<Sx, M, E>) -> (r: (
    HandshakeState<Sx, M, E>,
    PollOutcome<Sx, E>,
))
    ensures
        r == absorb_spec(o),
{
    match o {
        HandshakeOutcome::Established(s) => (HandshakeState::Complete, PollOutcome::Ready(s)),
        HandshakeOutcome::Fatal(e) => (HandshakeState::Failed, PollOutcome::Failed(e)),
        HandshakeOutcome::Interrupted(m) => (HandshakeState::Suspended(m), PollOutcome::NotReady),
    }
}

impl<Sx, M: MidSession<Sx, E>, E> MidHandshake<Sx, M, E> {
    /// Start a machine on the outcome of an eagerly attempted first step.
    pub fn start(first: HandshakeOutcome<Sx, M, E>) -> (r: Self)
        ensures
            r.state == HandshakeState::Started(first),
    {
        MidHandshake { state: HandshakeState::Started(first) }
    }

    /// Drive the handshake one poll further.
    ///
    /// A held resolved outcome resolves the machine at once; a held
    /// interruption gets exactly one more resume step, whose outcome is
    /// absorbed the same way. Polling a terminal machine reports the
    /// defined fatal signal and leaves the machine unchanged.
    pub fn poll(&mut self) -> (r: PollOutcome<Sx, E>)
        ensures
            exists|o: HandshakeOutcome<Sx, M, E>|
                (final (self).state, r) == poll_step_spec(old(self).state, o),
            is_terminal(old(self).state) ==> final (self).state == old(self).state && r
                == PollOutcome::<Sx, E>::ContractViolation,
            old(self).state matches HandshakeState::Started(held) ==> (!(held is Interrupted) ==> (
            final (self).state,
            r,
            ) == absorb_spec(held)),
            !is_terminal(old(self).state) ==> !(r is ContractViolation) && (r is Ready <==> final (
                self
            ).state is Complete) && (r is Failed <==> final (self).state is Failed) && (r
                is NotReady <==> final (self).state is Suspended),
    {
        match &self.state {
            HandshakeState::Complete => {
                proof {
                    let w = vstd::pervasive::arbitrary::<HandshakeOutcome<Sx, M, E>>();
                    assert((self.state, PollOutcome::<Sx, E>::ContractViolation) == poll_step_spec(
                        old(self).state,
                        w,
                    ));
                }
                return PollOutcome::ContractViolation;
            },
            HandshakeState::Failed => {
                proof {
                    let w = vstd::pervasive::arbitrary::<HandshakeOutcome<Sx, M, E>>();
                    assert((self.state, PollOutcome::<Sx, E>::ContractViolation) == poll_step_spec(
                        old(self).state,
                        w,
                    ));
                }
                return PollOutcome::ContractViolation;
            },
            _ => {},
        }
        let mut taken = HandshakeState::Failed;
        core::mem::swap(&mut taken, &mut self.state);
        let step = match taken {
            HandshakeState::Started(HandshakeOutcome::Established(s)) => HandshakeOutcome::Established(
                s,
            ),
            HandshakeState::Started(HandshakeOutcome::Fatal(e)) => HandshakeOutcome::Fatal(e),
            HandshakeState::Started(HandshakeOutcome::Interrupted(m)) => m.resume(),
            HandshakeState::Suspended(m) => m.resume(),
            HandshakeState::Complete => vstd::pervasive::unreached(),
            HandshakeState::Failed => vstd::pervasive::unreached(),
        };
        let ghost witness = step;
        let (next, r) = absorb(step);
        self.state = next;
        proof {
            assert((self.state, r) == poll_step_spec(old(self).state, witness));
        }
        r
    }
}

/// A client-side handshake in progress.
pub struct ConnectAsync<Sx, M, E> {
    pub inner: MidHandshake<Sx, M, E>,
}

/// A server-side handshake in progress.
pub struct AcceptAsync<Sx, M, E> {
    pub inner: MidHandshake<Sx, M, E>,
}

/// Begin a client-side handshake over an established raw transport,
/// eagerly attempting the first non-blocking step. Hostname verification
/// is on; the connector applies its own policy when it disables it.
pub fn connect_async<T, Sx, M, E, C: TlsEngine<T, Sx, M, E>>(
    connector: &C,
    domain: &str,
    stream: T,
) -> (r: ConnectAsync<Sx, M, E>)
    ensures
        r.inner.state is Started,
{
    ConnectAsync {
        inner: MidHandshake {
            state: HandshakeState::Started(connector.begin_connect(domain, true, stream)),
        },
    }
}

/// Begin a server-side handshake over an accepted raw transport, eagerly
/// attempting the first non-blocking step.
pub fn accept_async<T, Sx, M, E, A: TlsAccept<T, Sx, M, E>>(acceptor: &A, stream: T) -> (r:
    AcceptAsync<Sx, M, E>)
    ensures
        r.inner.state is Started,
{
    AcceptAsync {
        inner: MidHandshake { state: HandshakeState::Started(acceptor.begin_accept(stream)) },
    }
}

impl<Sx, M: MidSession<Sx, E>, E> ConnectAsync<Sx, M, E> {
    /// Drive the handshake one poll further; see [`MidHandshake::poll`].
    pub fn poll(&mut self) -> (r: PollOutcome<Sx, E>)
        ensures
            exists|o: HandshakeOutcome<Sx, M, E>|
                (final (self).inner.state, r) == poll_step_spec(old(self).inner.state, o),
            is_terminal(old(self).inner.state) ==> final (self).inner.state == old(
                self,
            ).inner.state && r == PollOutcome::<Sx, E>::ContractViolation,
            old(self).inner.state matches HandshakeState::Started(held) ==> (!(held is Interrupted)
                ==> (final (self).inner.state, r) == absorb_spec(held)),
            !is_terminal(old(self).inner.state) ==> !(r is ContractViolation) && (r is Ready <==>
            final (self).inner.state is Complete),
    {
        self.inner.poll()
    }
}

impl<Sx, M: MidSession<Sx, E>, E> AcceptAsync<Sx, M, E> {
    /// Drive the handshake one poll further; see [`MidHandshake::poll`].
    pub fn poll(&mut self) -> (r: PollOutcome<Sx, E>)
        ensures
            exists|o: HandshakeOutcome<Sx, M, E>|
                (final (self).inner.state, r) == poll_step_spec(old(self).inner.state, o),
            is_terminal(old(self).inner.state) ==> final (self).inner.state == old(
                self,
            ).inner.state && r == PollOutcome::<Sx, E>::ContractViolation,
            old(self).inner.state matches HandshakeState::Started(held) ==> (!(held is Interrupted)
                ==> (final (self).inner.state, r) == absorb_spec(held)),
            !is_terminal(old(self).inner.state) ==> !(r is ContractViolation) && (r is Ready <==>
            final (self).inner.state is Complete),
    {
        self.inner.poll()
    }
}

} // verus!
