//! Byte-stream transports: plaintext or TLS-protected.
//!
//! [`Transport`] is the capability of an established raw byte stream;
//! [`TlsSession`] the capability of a backend encrypted session that owns
//! the raw transport beneath it. [`TlsStream`] wraps a session and gives
//! it the ordered two-phase shutdown; [`MaybeHttpsStream`] is the
//! caller-visible sum of the two, forwarding every operation to whichever
//! variant it holds with identical semantics.

use vstd::prelude::*;

use crate::outcome::IoOutcome;

verus! {

/// An established raw byte-stream connection, prior to any TLS.
///
/// The stream is modelled by the bytes it has accepted for transmission
/// (`sent`), the bytes it has handed to its reader (`taken`), and whether
/// it has been shut down. Every operation is non-blocking: it reports
/// [`IoOutcome::WouldBlock`] instead of blocking, with no partial
/// progress lost.
pub trait Transport: Sized {
    /// The transport's error type, surfaced verbatim to callers.
    type Err;

    /// The bytes this endpoint has accepted for transmission so far.
    spec fn sent(&self) -> Seq<u8>;

    /// The bytes this endpoint has handed to its reader so far.
    spec fn taken(&self) -> Seq<u8>;

    /// Whether this endpoint has been shut down.
    spec fn is_shut(&self) -> bool;

    /// Write a prefix of `buf`, reporting how many bytes were accepted.
    fn write(&mut self, buf: &[u8]) -> (r: IoOutcome<usize, Self::Err>)
        ensures
            final (self).taken() == old(self).taken(),
            final (self).is_shut() == old(self).is_shut(),
            r matches IoOutcome::Done(n) ==> n <= buf@.len() && final (self).sent() == old(self).sent() + buf@.take(n as int),
            !(r is Done) ==> final (self).sent() == old(self).sent(),
    ;

    /// Read at most `max` bytes; an empty result means end of stream.
    fn read(&mut self, max: usize) -> (r: IoOutcome<Vec<u8>, Self::Err>)
        ensures
            final (self).sent() == old(self).sent(),
            final (self).is_shut() == old(self).is_shut(),
            r matches IoOutcome::Done(data) ==> data@.len() <= max && final (self).taken() == old(self).taken() + data@,
            !(r is Done) ==> final (self).taken() == old(self).taken(),
    ;

    /// Flush buffered writes towards the peer.
    fn flush(&mut self) -> (r: IoOutcome<(), Self::Err>)
        ensures
            final (self).sent() == old(self).sent(),
            final (self).taken() == old(self).taken(),
            final (self).is_shut() == old(self).is_shut(),
    ;

    /// Shut this endpoint down.
    fn shutdown(&mut self) -> (r: IoOutcome<(), Self::Err>)
        ensures
            final (self).sent() == old(self).sent(),
            final (self).taken() == old(self).taken(),
            r is Done ==> final (self).is_shut(),
            !(r is Done) ==> final (self).is_shut() == old(self).is_shut(),
    ;
}

/// A backend encrypted session, owning the raw transport beneath it.
///
/// Byte I/O forwards through the session's encrypt/decrypt path and is
/// modelled on the plaintext side (`plain_sent`, `plain_taken`). The
/// session tracks two closing facts: whether the encryption layer's
/// clean-closure signal has been fully sent (`close_sent`) and whether
/// the raw transport beneath was shut down (`raw_shut`).
pub trait TlsSession: Sized {
    /// The session's error type, surfaced verbatim to callers.
    type Err;

    /// The plaintext bytes this endpoint has accepted for encryption.
    spec fn plain_sent(&self) -> Seq<u8>;

    /// The plaintext bytes this endpoint has handed to its reader.
    spec fn plain_taken(&self) -> Seq<u8>;

    /// Whether the encryption layer's clean-closure signal has been
    /// fully sent to the peer.
    spec fn close_sent(&self) -> bool;

    /// Whether the raw transport beneath the session was shut down.
    spec fn raw_shut(&self) -> bool;

    /// Write a prefix of `buf` through the encrypt path.
    fn write(&mut self, buf: &[u8]) -> (r: IoOutcome<usize, Self::Err>)
        ensures
            final (self).plain_taken() == old(self).plain_taken(),
            final (self).close_sent() == old(self).close_sent(),
            final (self).raw_shut() == old(self).raw_shut(),
            r matches IoOutcome::Done(n) ==> n <= buf@.len() && final (self).plain_sent() == old(self).plain_sent() + buf@.take(n as int),
            !(r is Done) ==> final (self).plain_sent() == old(self).plain_sent(),
    ;

    /// Read at most `max` plaintext bytes through the decrypt path.
    fn read(&mut self, max: usize) -> (r: IoOutcome<Vec<u8>, Self::Err>)
        ensures
            final (self).plain_sent() == old(self).plain_sent(),
            final (self).close_sent() == old(self).close_sent(),
            final (self).raw_shut() == old(self).raw_shut(),
            r matches IoOutcome::Done(data) ==> data@.len() <= max && final (self).plain_taken()
                == old(self).plain_taken() + data@,
            !(r is Done) ==> final (self).plain_taken() == old(self).plain_taken(),
    ;

    /// Flush buffered records towards the peer.
    fn flush(&mut self) -> (r: IoOutcome<(), Self::Err>)
        ensures
            final (self).plain_sent() == old(self).plain_sent(),
            final (self).plain_taken() == old(self).plain_taken(),
            final (self).close_sent() == old(self).close_sent(),
            final (self).raw_shut() == old(self).raw_shut(),
    ;

    /// Send the encryption layer's clean-closure signal. May need several
    /// non-blocking attempts; must not touch the raw transport's own
    /// shutdown.
    fn close(&mut self) -> (r: IoOutcome<(), Self::Err>)
        ensures
            final (self).plain_sent() == old(self).plain_sent(),
            final (self).plain_taken() == old(self).plain_taken(),
            final (self).raw_shut() == old(self).raw_shut(),
            r is Done ==> final (self).close_sent(),
            !(r is Done) ==> final (self).close_sent() == old(self).close_sent(),
    ;

    /// Shut down the raw transport beneath the session. Callers must have
    /// seen the clean closure fully sent first: the two-phase order is a
    /// precondition here, not something an implementation may reorder.
    fn shutdown_raw(&mut self) -> (r: IoOutcome<(), Self::Err>)
        requires
            old(self).close_sent(),
        ensures
            final (self).plain_sent() == old(self).plain_sent(),
            final (self).plain_taken() == old(self).plain_taken(),
            final (self).close_sent() == old(self).close_sent(),
            r is Done ==> final (self).raw_shut(),
            !(r is Done) ==> final (self).raw_shut() == old(self).raw_shut(),
    ;
}

/// A TLS-protected stream: a thin wrapper that owns the backend session
/// (which itself owns the raw transport beneath it).
pub struct TlsStream<X> {
    pub inner: X,
}

impl<X: TlsSession> TlsStream<X> {
    /// A read-only accessor to the backend session object.
    pub fn get_ref(&self) -> (r: &X)
        ensures
            *r == self.inner,
    {
        &self.inner
    }

    /// A mutable accessor to the backend session object.
    pub fn get_mut(&mut self) -> (r: &mut X)
        ensures
            *r == old(self).inner,
            final (self).inner == *final (r),
    {
        &mut self.inner
    }

    /// Write plaintext through the session's encrypt path.
    pub fn write(&mut self, buf: &[u8]) -> (r: IoOutcome<usize, X::Err>)
        ensures
            final (self).inner.plain_taken() == old(self).inner.plain_taken(),
            final (self).inner.close_sent() == old(self).inner.close_sent(),
            final (self).inner.raw_shut() == old(self).inner.raw_shut(),
            r matches IoOutcome::Done(n) ==> n <= buf@.len() && final (self).inner.plain_sent()
                == old(self).inner.plain_sent() + buf@.take(n as int),
            !(r is Done) ==> final (self).inner.plain_sent() == old(self).inner.plain_sent(),
    {
        self.inner.write(buf)
    }

    /// Read plaintext through the session's decrypt path.
    pub fn read(&mut self, max: usize) -> (r: IoOutcome<Vec<u8>, X::Err>)
        ensures
            final (self).inner.plain_sent() == old(self).inner.plain_sent(),
            final (self).inner.close_sent() == old(self).inner.close_sent(),
            final (self).inner.raw_shut() == old(self).inner.raw_shut(),
            r matches IoOutcome::Done(data) ==> data@.len() <= max && final (self).inner.plain_taken() == old(self).inner.plain_taken() + data@,
            !(r is Done) ==> final (self).inner.plain_taken() == old(self).inner.plain_taken(),
    {
        self.inner.read(max)
    }

    /// Flush buffered records towards the peer.
    pub fn flush(&mut self) -> (r: IoOutcome<(), X::Err>)
        ensures
            final (self).inner.plain_sent() == old(self).inner.plain_sent(),
            final (self).inner.plain_taken() == old(self).inner.plain_taken(),
            final (self).inner.close_sent() == old(self).inner.close_sent(),
            final (self).inner.raw_shut() == old(self).inner.raw_shut(),
    {
        self.inner.flush()
    }

    /// Two-phase shutdown: first send the encryption layer's clean
    /// closure; only once that has fully succeeded, shut down the raw
    /// transport beneath. A failure or interruption in the first phase
    /// surfaces without the second phase being attempted, so the raw
    /// transport is never shut down before the clean closure was sent.
    pub fn shutdown(&mut self) -> (r: IoOutcome<(), X::Err>)
        ensures
            final (self).inner.plain_sent() == old(self).inner.plain_sent(),
            final (self).inner.plain_taken() == old(self).inner.plain_taken(),
            old(self).inner.close_sent() ==> final (self).inner.close_sent(),
            r is Done ==> final (self).inner.close_sent() && final (self).inner.raw_shut(),
            !(r is Done) ==> final (self).inner.raw_shut() == old(self).inner.raw_shut(),
            final (self).inner.raw_shut() && !old(self).inner.raw_shut() ==> final (self).inner.close_sent(),
    {
        match self.inner.close() {
            IoOutcome::Done(()) => self.inner.shutdown_raw(),
            IoOutcome::WouldBlock => IoOutcome::WouldBlock,
            IoOutcome::Failed(e) => IoOutcome::Failed(e),
        }
    }
}

/// A stream that might be protected with TLS: the caller-visible tagged
/// union over the two transport modes.
pub enum MaybeHttpsStream<T, X> {
    /// A stream over plain text.
    Http(T),
    /// A stream protected with TLS.
    Https(TlsStream<X>),
}

impl<T: Transport, X: TlsSession<Err = T::Err>> MaybeHttpsStream<T, X> {
    /// The bytes this endpoint has accepted for transmission, on the
    /// plaintext side of whichever variant it holds.
    pub open spec fn sent_view(&self) -> Seq<u8> {
        match self {
            MaybeHttpsStream::Http(t) => t.sent(),
            MaybeHttpsStream::Https(s) => s.inner.plain_sent(),
        }
    }

    /// The bytes this endpoint has handed to its reader, on the plaintext
    /// side of whichever variant it holds.
    pub open spec fn taken_view(&self) -> Seq<u8> {
        match self {
            MaybeHttpsStream::Http(t) => t.taken(),
            MaybeHttpsStream::Https(s) => s.inner.plain_taken(),
        }
    }

    /// Whether this endpoint is fully shut down: for the TLS variant both
    /// the clean closure and the raw shutdown must have happened.
    pub open spec fn shut_view(&self) -> bool {
        match self {
            MaybeHttpsStream::Http(t) => t.is_shut(),
            MaybeHttpsStream::Https(s) => s.inner.close_sent() && s.inner.raw_shut(),
        }
    }

    /// Whether the held variant is the TLS-protected one.
    pub open spec fn is_https(&self) -> bool {
        self is Https
    }

    /// Forward a write to whichever variant is held: the accepted prefix
    /// of `buf` reaches the underlying transport unmodified.
    pub fn write(&mut self, buf: &[u8]) -> (r: IoOutcome<usize, T::Err>)
        ensures
            final (self).is_https() == old(self).is_https(),
            final (self).taken_view() == old(self).taken_view(),
            final (self).shut_view() == old(self).shut_view(),
            r matches IoOutcome::Done(n) ==> n <= buf@.len() && final (self).sent_view() == old(self).sent_view() + buf@.take(n as int),
            !(r is Done) ==> final (self).sent_view() == old(self).sent_view(),
    {
        match self {
            MaybeHttpsStream::Http(t) => t.write(buf),
            MaybeHttpsStream::Https(s) => s.write(buf),
        }
    }

    /// Forward a read to whichever variant is held: what the underlying
    /// transport delivers is handed out unmodified.
    pub fn read(&mut self, max: usize) -> (r: IoOutcome<Vec<u8>, T::Err>)
        ensures
            final (self).is_https() == old(self).is_https(),
            final (self).sent_view() == old(self).sent_view(),
            final (self).shut_view() == old(self).shut_view(),
            r matches IoOutcome::Done(data) ==> data@.len() <= max && final (self).taken_view()
                == old(self).taken_view() + data@,
            !(r is Done) ==> final (self).taken_view() == old(self).taken_view(),
    {
        match self {
            MaybeHttpsStream::Http(t) => t.read(max),
            MaybeHttpsStream::Https(s) => s.read(max),
        }
    }

    /// Forward a flush to whichever variant is held.
    pub fn flush(&mut self) -> (r: IoOutcome<(), T::Err>)
        ensures
            final (self).is_https() == old(self).is_https(),
            final (self).sent_view() == old(self).sent_view(),
            final (self).taken_view() == old(self).taken_view(),
            final (self).shut_view() == old(self).shut_view(),
    {
        match self {
            MaybeHttpsStream::Http(t) => t.flush(),
            MaybeHttpsStream::Https(s) => s.flush(),
        }
    }

    /// Variant-specific shutdown: the plain variant forwards directly;
    /// the TLS variant performs the ordered two-phase shutdown of
    /// [`TlsStream::shutdown`].
    pub fn shutdown(&mut self) -> (r: IoOutcome<(), T::Err>)
        ensures
            final (self).is_https() == old(self).is_https(),
            final (self).sent_view() == old(self).sent_view(),
            final (self).taken_view() == old(self).taken_view(),
            r is Done ==> final (self).shut_view(),
            !(r is Done) ==> (*old(self) matches MaybeHttpsStream::Http(t1) ==> (*final (self) matches
                MaybeHttpsStream::Http(t2) && t2.is_shut() == t1.is_shut())),
            *old(self) matches MaybeHttpsStream::Https(s1) ==> *final (self) matches
                MaybeHttpsStream::Https(s2) && (s2.inner.raw_shut() && !s1.inner.raw_shut()
                ==> s2.inner.close_sent()) && (!(r is Done) ==> s2.inner.raw_shut()
                == s1.inner.raw_shut()),
    {
        match self {
            MaybeHttpsStream::Http(t) => t.shutdown(),
            MaybeHttpsStream::Https(s) => s.shutdown(),
        }
    }
}

} // verus!
