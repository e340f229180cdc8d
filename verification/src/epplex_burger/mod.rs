//! The burger program: the game played with ephemeral tokens.
pub mod collection_mint;
pub mod state;
pub mod token_burn;
pub mod token_game_reset;
