//! Verified core of the strip vault: the dividend-harvesting arithmetic, the
//! Token-2022 Scaled UI Amount mint parser, the yield-position state and the
//! decision logic of every vault instruction.
pub mod errors;
pub mod events;
pub mod instructions;
pub mod state;
pub mod utils;
