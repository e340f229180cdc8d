//! Verified account rules and instruction plans of the epplex Solana programs.
use vstd::prelude::*;

pub mod action;
pub mod error;
pub mod key;
pub mod parse;
pub mod pda;
pub mod run;
pub mod epplex_shared;
pub mod token22;
pub mod ephemerality;
pub mod epplex_burger;
pub mod epplex_core;
