//! The operations of the pool, one module each. Every operation decides
//! and updates the pool in memory; the caller then moves custody or tokens
//! as the result says and stores the pool only when all of that succeeded.
pub mod claim_cnft;
pub mod deposit_cnft;
pub mod deposit_token;
pub mod init_pool;
pub mod swap_cnft_to_token;
pub mod swap_token_to_cnft;
