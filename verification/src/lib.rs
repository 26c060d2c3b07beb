//! Cores: shared accounts governed by the weighted vote of the holders of their
//! shares, with the ledger of those shares and the components around them.

pub mod codec;
pub mod core_assets;
pub mod dispatch;
pub mod donations;
pub mod hashing;
pub mod inv4;
pub mod mock;
pub mod nft_origins;
pub mod primitives;
pub mod rules;
pub mod storage;
pub mod transaction_payment;
