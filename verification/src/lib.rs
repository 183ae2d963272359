//! A two-party token-escrow state machine.
//!
//! A depositor locks a quantity of a fungible asset in a custody account
//! whose authority is the escrow record itself, an address derived from the
//! depositor's key and a nonce that no private key controls.  Before release
//! only the depositor may reclaim the funds; after release only the recorded
//! counterparty may claim them.  Cancel and withdraw are terminal and
//! mutually exclusive: each moves the full custody balance and closes both
//! the custody account and the record.
//!
//! - [`keys`] — opaque 32-byte principal and account identifiers;
//! - [`accounts`] — the token-account and escrow-record data model;
//! - [`errors`] — the named failure conditions;
//! - [`derivation`] — derived custody authorities and their proofs;
//! - [`handlers`] — the four state-transition handlers and their exact
//!   decision procedures;
//! - [`lifecycle`] — one escrow's life from deposit to its terminal state;
//! - [`laws`] — the protocol-wide guarantees, stated and proved.

pub mod accounts;
pub mod derivation;
pub mod errors;
pub mod handlers;
pub mod keys;
pub mod laws;
pub mod lifecycle;
