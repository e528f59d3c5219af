//! A counter that only the holder of one secp256k1 key can advance.
//!
//! A [`Counter`] is bound to an Ethereum-style address when it is created.
//! It advances inside a Solana transaction of two instructions: a secp256k1
//! instruction that recovers the signer of a message, and the increment right
//! behind it. [`increment`] accepts the transaction if the recovered address
//! is the counter's and the message is the counter's nonce, eight bytes with
//! the most significant first. Every accepted increment moves the nonce on,
//! so no signature works twice.
//!
//! [`increment`] reads the transaction from the instructions sysvar;
//! [`increment_at`] takes the position of the increment and the instruction
//! in front of it as values. What each returns is given by a specification
//! function, `increment_outcome` and `increment_verdict`, and the rules of
//! the protocol are proved of those.

pub mod authorize;
pub mod error;
pub mod nonce;
pub mod payload;
pub mod state;
pub mod sysvar;

pub use crate::authorize::increment;
pub use crate::authorize::increment_at;
pub use crate::error::ErrorCodes;
pub use crate::error::IncrementError;
pub use crate::state::create;
pub use crate::state::Counter;
pub use crate::sysvar::InstructionView;
pub use crate::sysvar::SysvarAccount;
