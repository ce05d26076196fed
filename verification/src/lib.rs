//! Rules of a wallet utility for token accounts: deriving the associated
//! token account of a mint, closing the accounts that hold nothing in
//! batches of bounded size, and decoding base58 text.

pub mod address;
pub mod base58;
pub mod batch;
pub mod endpoint;
pub mod instruction;
pub mod submit;
