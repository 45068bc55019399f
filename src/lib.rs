//! An escrow book: records of funds held between a sender and a receiver,
//! numbered from 1, that may be released once or cancelled once.

pub mod escrow;
pub mod registry;

pub use escrow::{Escrow, EscrowBook, EscrowError, EscrowModel, EscrowStatus};
pub use registry::DecentralizedEscrowContract;
