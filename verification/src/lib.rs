//! An escrowed token sale: an administrator deposits a fixed supply into a
//! holding account that only the sale's own derived address controls, buyers
//! exchange a payment for a share of it at a fixed rate, and the administrator
//! may cancel the sale and take back what is unsold.
//!
//! The controller decides and never talks to the ledger itself. Each operation
//! turns what the sale's address holds and a request into the record that
//! follows and the instructions that the ledger must carry out as one unit;
//! `commit` then keeps or drops the new record by the ledger's answer.

pub mod address;
pub mod error;
pub mod escrow;
pub mod laws;
pub mod layout;
pub mod ledger;
pub mod sale;

pub use address::{address_with_bump, derive_address, escrow_tag, Address};
pub use error::TokenSaleError;
pub use escrow::EscrowAccount;
pub use layout::{decode, encode};
pub use ledger::{apply_to_balance, settle_balance, Authority, LedgerInstruction};
pub use sale::{
    cancel, cancel_at, commit, exchange, exchange_at, initialize, initialize_at, Cancel, Exchange,
    Initialize, Step, TokenAccount,
};
