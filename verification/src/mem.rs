//! In-memory transports: concrete, verified implementations of the
//! transport capabilities.
//!
//! [`MemTransport`] is a raw byte stream over vectors; [`MemSession`] is
//! an encrypted session over a [`MemTransport`], whose model cipher masks
//! every plaintext byte on its way to the raw transport and appends a
//! marker byte as its clean-closure signal. Both can be scripted to
//! report "would block" a chosen number of times, and the session keeps a
//! log of its closing events, so drivers and tests can observe orderings.

use vstd::prelude::*;

use crate::outcome::IoOutcome;
use crate::transport::TlsSession;
use crate::transport::Transport;

verus! {

/// An I/O fault of the in-memory transports.
#[derive(Clone, Copy, PartialEq, Eq, Structural, Debug)]
pub struct IoFault {
    /// A code telling faults apart.
    pub code: u64,
}

/// The fault code for using a session after its close was sent.
pub const FAULT_CLOSED: u64 = 1;

/// The mask the in-memory session applies to each plaintext byte on its
/// way to the raw transport: the model stand-in for encryption.
pub const SESSION_MASK: u8 = 0x5A;

/// The byte the in-memory session appends to the raw transport as its
/// clean-closure signal.
pub const CLOSE_MARKER: u8 = 0xF0;

/// Logged when the session attempts to send its clean-closure signal.
pub const EV_CLOSE: u8 = 1;

/// Logged when the session shuts down the raw transport beneath it.
pub const EV_RAW_SHUTDOWN: u8 = 2;

/// An in-memory raw byte stream: what was written is kept verbatim, and
/// reads deliver a scripted incoming sequence.
pub struct MemTransport {
    /// The bytes this endpoint has accepted for transmission.
    pub outgoing: Vec<u8>,
    /// The scripted bytes the peer has sent.
    pub incoming: Vec<u8>,
    /// How many of the incoming bytes were handed to the reader.
    pub delivered: usize,
    /// Whether this endpoint was shut down.
    pub shut: bool,
    /// How many of the next writes report "would block".
    pub stall_writes: usize,
}

impl MemTransport {
    /// An open transport with these bytes waiting to be read.
    pub fn open(incoming: Vec<u8>) -> (r: Self)
        ensures
            r.outgoing@ == Seq::<u8>::empty(),
            r.incoming == incoming,
            r.delivered == 0,
            !r.shut,
            r.stall_writes == 0,
    {
        MemTransport { outgoing: Vec::new(), incoming, delivered: 0, shut: false, stall_writes: 0 }
    }
}

impl Transport for MemTransport {
    type Err = IoFault;

    open spec fn sent(&self) -> Seq<u8> {
        self.outgoing@
    }

    open spec fn taken(&self) -> Seq<u8> {
        self.incoming@.take(vstd::math::min(self.delivered as int, self.incoming@.len() as int))
    }

    open spec fn is_shut(&self) -> bool {
        self.shut
    }

    fn write(&mut self, buf: &[u8]) -> (r: IoOutcome<usize, IoFault>) {
        if self.stall_writes > 0 {
            self.stall_writes = self.stall_writes - 1;
            IoOutcome::WouldBlock
        } else {
            let mut i: usize = 0;
            while i < buf.len()
                invariant
                    i <= buf@.len(),
                    self.outgoing@ == old(self).outgoing@ + buf@.take(i as int),
                    self.incoming == old(self).incoming,
                    self.delivered == old(self).delivered,
                    self.shut == old(self).shut,
                    self.stall_writes == old(self).stall_writes,
                decreases buf@.len() - i,
            {
                self.outgoing.push(buf[i]);
                proof {
                    assert(buf@.take(i + 1) =~= buf@.take(i as int).push(buf@[i as int]));
                }
                i = i + 1;
            }
            proof {
                assert(buf@.take(buf@.len() as int) =~= buf@);
            }
            IoOutcome::Done(buf.len())
        }
    }

    fn read(&mut self, max: usize) -> (r: IoOutcome<Vec<u8>, IoFault>) {
        if self.delivered >= self.incoming.len() {
            let data: Vec<u8> = Vec::new();
            proof {
                assert(self.taken() + data@ =~= self.taken());
            }
            return IoOutcome::Done(data);
        }
        let mut data: Vec<u8> = Vec::new();
        let mut i: usize = 0;
        proof {
            assert(self.incoming@.subrange(
                self.delivered as int,
                self.delivered as int,
            ) =~= Seq::<u8>::empty());
        }
        while i < max && self.delivered < self.incoming.len()
            invariant
                i <= max,
                old(self).delivered <= self.delivered,
                self.delivered <= self.incoming@.len(),
                data@ == self.incoming@.subrange(old(self).delivered as int, self.delivered as int),
                data@.len() <= i,
                self.outgoing == old(self).outgoing,
                self.incoming == old(self).incoming,
                self.shut == old(self).shut,
                self.stall_writes == old(self).stall_writes,
            decreases max - i,
        {
            let b = self.incoming[self.delivered];
            data.push(b);
            proof {
                assert(self.incoming@.subrange(
                    old(self).delivered as int,
                    self.delivered + 1,
                ) =~= self.incoming@.subrange(old(self).delivered as int, self.delivered as int).push(
                    self.incoming@[self.delivered as int],
                ));
            }
            self.delivered = self.delivered + 1;
            i = i + 1;
        }
        proof {
            assert(self.taken() =~= old(self).taken() + data@);
        }
        IoOutcome::Done(data)
    }

    fn flush(&mut self) -> (r: IoOutcome<(), IoFault>) {
        IoOutcome::Done(())
    }

    fn shutdown(&mut self) -> (r: IoOutcome<(), IoFault>) {
        self.shut = true;
        IoOutcome::Done(())
    }
}

/// An in-memory encrypted session over a [`MemTransport`]: the model
/// stand-in for a backend TLS engine. Each accepted plaintext byte is
/// masked with [`SESSION_MASK`] and appended to the raw transport, so
/// what crosses the wire differs from the plaintext until a matching
/// peer unmasks it; the clean-closure signal is [`CLOSE_MARKER`].
pub struct MemSession {
    /// The raw transport beneath the session.
    pub raw: MemTransport,
    /// The plaintext bytes accepted for encryption.
    pub plain_out: Vec<u8>,
    /// The scripted plaintext bytes the decrypt path delivers.
    pub plain_in: Vec<u8>,
    /// How many of the scripted plaintext bytes were handed out.
    pub plain_delivered: usize,
    /// Whether the clean-closure signal was fully sent.
    pub closed: bool,
    /// How many of the next close attempts report "would block".
    pub stall_close: usize,
    /// The closing events in the order they happened, as [`EV_CLOSE`]
    /// and [`EV_RAW_SHUTDOWN`] codes.
    pub log: Vec<u8>,
}

impl MemSession {
    /// A fresh session over a raw transport, with these plaintext bytes
    /// waiting on its decrypt path.
    pub fn over(raw: MemTransport, plain_in: Vec<u8>) -> (r: Self)
        ensures
            r.raw == raw,
            r.plain_out@ == Seq::<u8>::empty(),
            r.plain_in == plain_in,
            r.plain_delivered == 0,
            !r.closed,
            r.stall_close == 0,
            r.log@ == Seq::<u8>::empty(),
    {
        MemSession {
            raw,
            plain_out: Vec::new(),
            plain_in,
            plain_delivered: 0,
            closed: false,
            stall_close: 0,
            log: Vec::new(),
        }
    }
}

impl TlsSession for MemSession {
    type Err = IoFault;

    open spec fn plain_sent(&self) -> Seq<u8> {
        self.plain_out@
    }

    open spec fn plain_taken(&self) -> Seq<u8> {
        self.plain_in@.take(
            vstd::math::min(self.plain_delivered as int, self.plain_in@.len() as int),
        )
    }

    open spec fn close_sent(&self) -> bool {
        self.closed
    }

    open spec fn raw_shut(&self) -> bool {
        self.raw.shut
    }

    fn write(&mut self, buf: &[u8]) -> (r: IoOutcome<usize, IoFault>) {
        if self.closed {
            IoOutcome::Failed(IoFault { code: FAULT_CLOSED })
        } else {
            let mut i: usize = 0;
            while i < buf.len()
                invariant
                    i <= buf@.len(),
                    self.plain_out@ == old(self).plain_out@ + buf@.take(i as int),
                    self.plain_in == old(self).plain_in,
                    self.plain_delivered == old(self).plain_delivered,
                    self.closed == old(self).closed,
                    self.stall_close == old(self).stall_close,
                    self.log == old(self).log,
                    self.raw.incoming == old(self).raw.incoming,
                    self.raw.delivered == old(self).raw.delivered,
                    self.raw.shut == old(self).raw.shut,
                    self.raw.stall_writes == old(self).raw.stall_writes,
                    self.raw.outgoing@.len() == old(self).raw.outgoing@.len() + i,
                decreases buf@.len() - i,
            {
                let b = buf[i];
                self.plain_out.push(b);
                self.raw.outgoing.push(b ^ SESSION_MASK);
                proof {
                    assert(buf@.take(i + 1) =~= buf@.take(i as int).push(buf@[i as int]));
                }
                i = i + 1;
            }
            proof {
                assert(buf@.take(buf@.len() as int) =~= buf@);
            }
            IoOutcome::Done(buf.len())
        }
    }

    fn read(&mut self, max: usize) -> (r: IoOutcome<Vec<u8>, IoFault>) {
        if self.plain_delivered >= self.plain_in.len() {
            let data: Vec<u8> = Vec::new();
            proof {
                assert(self.plain_taken() + data@ =~= self.plain_taken());
            }
            return IoOutcome::Done(data);
        }
        let mut data: Vec<u8> = Vec::new();
        let mut i: usize = 0;
        proof {
            assert(self.plain_in@.subrange(
                self.plain_delivered as int,
                self.plain_delivered as int,
            ) =~= Seq::<u8>::empty());
        }
        while i < max && self.plain_delivered < self.plain_in.len()
            invariant
                i <= max,
                old(self).plain_delivered <= self.plain_delivered,
                self.plain_delivered <= self.plain_in@.len(),
                data@ == self.plain_in@.subrange(
                    old(self).plain_delivered as int,
                    self.plain_delivered as int,
                ),
                data@.len() <= i,
                self.raw == old(self).raw,
                self.plain_out == old(self).plain_out,
                self.plain_in == old(self).plain_in,
                self.closed == old(self).closed,
                self.stall_close == old(self).stall_close,
                self.log == old(self).log,
            decreases max - i,
        {
            let b = self.plain_in[self.plain_delivered];
            data.push(b);
            proof {
                assert(self.plain_in@.subrange(
                    old(self).plain_delivered as int,
                    self.plain_delivered + 1,
                ) =~= self.plain_in@.subrange(
                    old(self).plain_delivered as int,
                    self.plain_delivered as int,
                ).push(self.plain_in@[self.plain_delivered as int]));
            }
            self.plain_delivered = self.plain_delivered + 1;
            i = i + 1;
        }
        proof {
            assert(self.plain_taken() =~= old(self).plain_taken() + data@);
        }
        IoOutcome::Done(data)
    }

    fn flush(&mut self) -> (r: IoOutcome<(), IoFault>) {
        IoOutcome::Done(())
    }

    fn close(&mut self) -> (r: IoOutcome<(), IoFault>) {
        self.log.push(EV_CLOSE);
        if self.stall_close > 0 {
            self.stall_close = self.stall_close - 1;
            IoOutcome::WouldBlock
        } else {
            if !self.closed {
                self.closed = true;
                self.raw.outgoing.push(CLOSE_MARKER);
            }
            IoOutcome::Done(())
        }
    }

    fn shutdown_raw(&mut self) -> (r: IoOutcome<(), IoFault>) {
        self.log.push(EV_RAW_SHUTDOWN);
        self.raw.shut = true;
        IoOutcome::Done(())
    }
}

} // verus!
