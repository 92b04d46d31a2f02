//! Two-party conditional asset swap. A depositor locks an asset in a custody
//! account held by an address that only the program can sign for; a taker who
//! offers exactly what the depositor demands gets the locked asset, and the
//! depositor gets the offer.
//!
//! The entry points decide and issue; they move nothing themselves.
//! [`init::init_escrow`] writes the record and issues the call that hands the
//! custody account to the derived authority. [`exchange::exchange`] checks an
//! offer against the record and issues the instructions that settle it.
//! [`ledger`] models the token ledger and the record store on which those
//! instructions take effect, and [`laws`] proves what the entry points
//! achieve there.

pub mod address;
pub mod authority;
pub mod error;
pub mod exchange;
pub mod init;
pub mod instruction;
pub mod laws;
pub mod ledger;
pub mod state;
