//! The core program: ephemeral mints and memberships.
pub mod membership_create;
pub mod token_mint;
