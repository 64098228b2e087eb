//! Verified core of a multisig governance program, the token compliance
//! engine it controls, and a presale with oracle-priced purchases.
//!
//! Every instruction handler is a function from the current records and plain
//! inputs (signer address, clock reading, oracle round) to the new records or a
//! typed error. On error no record is changed, mirroring the all-or-nothing
//! commit of the host ledger.

pub mod address;
pub mod codec;
pub mod layout;
pub mod governance;
pub mod presale;
pub mod token;
pub mod recover;
