pub mod initialize;
pub mod launch;
pub mod mint_tokens;
pub mod revoke_freeze;
pub mod revoke_mint;
pub mod update_fee;
