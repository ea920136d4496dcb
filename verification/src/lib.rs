//! An HTTPS connector core: policy-checked connection establishment,
//! a poll-driven TLS handshake state machine, and a dual-mode (plaintext
//! or TLS-protected) byte-stream transport with ordered two-phase shutdown.
//!
//! All network and TLS backend work is abstracted behind capability traits;
//! the decision logic over their outcomes is verified here.

pub mod connector;
pub mod handshake;
pub mod mem;
pub mod outcome;
pub mod transport;

use vstd::prelude::*;

verus! {

} // verus!
