//! A hybrid pool that trades compressed items for a fungible token at a
//! fixed price and back: metadata and collection checks before custody
//! moves, the pool's inventory ledger, the allocation of pooled items to
//! redeemers, and the decisions of the pool's operations. Moving custody and
//! tokens is left to the caller, which performs what each operation returns.
pub mod allocation;
pub mod bubblegum;
pub mod errors;
pub mod instructions;
pub mod metadata;
pub mod state;

pub use errors::ErrorCode;
pub use instructions::claim_cnft::handler as claim_cnft;
pub use instructions::claim_cnft::ClaimCnftArgs;
pub use instructions::deposit_cnft::handler as deposit_cnft;
pub use instructions::deposit_cnft::DepositCnftArgs;
pub use instructions::deposit_token::handler as deposit_tokens;
pub use instructions::init_pool::handler as init_pool;
pub use instructions::swap_cnft_to_token::handler as swap_cnft_to_token;
pub use instructions::swap_cnft_to_token::SwapCnftArgs;
pub use instructions::swap_token_to_cnft::handler as swap_token_to_cnft;
pub use metadata::{AnchorMetadataArgs, Collection, Creator, TokenProgramVersion, TokenStandard, UseMethod, Uses};
pub use state::{Address, CnftClaimCoupon, HybridPoolConfig, NftStore};
