//! Composer of unsigned Step staking transactions.
//!
//! Given a wallet address, an amount typed by a person and, optionally, the
//! mint of a token to swap from, the composer produces the ordered list of
//! instructions that creates the wallet's token accounts, swaps into STEP
//! where asked to, and stakes the result for xSTEP. The composer never signs
//! and never talks to the network itself: `composer::stake` is a transition
//! function that tells its caller which request to perform next.

pub mod address;
pub mod amount;
pub mod assemble;
pub mod composer;
pub mod derive;
pub mod encode;
pub mod error;
pub mod instruction;
pub mod mint;
pub mod quote;
pub mod text;
pub mod wire;
