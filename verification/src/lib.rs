//! Vanity commit search: find a commit object whose SHA-1 identifier begins
//! with a chosen hexadecimal prefix by varying a nonce in its serialization.

pub mod candidate;
pub mod digest;
pub mod gitminer;
pub mod numeral;
pub mod timestamp;
pub mod worker;
