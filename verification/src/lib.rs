//! Accounting core of a ticket-based lottery.
//!
//! The core validates purchase requests, prices a ticket count in lamports,
//! splits the total between a platform-fee treasury and a prize vault, and
//! records each participant's per-epoch ticket holdings. Everything else —
//! signer authorization, account storage, deterministic address derivation,
//! and the actual movement of lamports — is an external collaborator that
//! the host runtime provides; the core only hands it exact amounts.

pub mod error;
pub mod fees;
pub mod ops;
pub mod state;
