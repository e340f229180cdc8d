//! The ephemerality program.
pub mod token_burn;
