//! An echo program: it stores caller-supplied bytes in accounts under three
//! access policies (open write-once, authority-gated and payment-gated).

pub mod address;
pub mod codec;
pub mod error;
pub mod guarantees;
pub mod instruction;
pub mod processor;
pub mod state;
