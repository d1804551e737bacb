//! Accounting core of a token sale on Solana: the record of a sale, the three
//! operations on it, and the transfers that each of them asks its host to make.

pub mod data;
pub mod error;
pub mod ico;
pub mod instruction;
pub mod laws;
pub mod pricing;
pub mod pubkey;
pub mod transfer;

pub use data::Data;
pub use error::ErrorCode;
pub use ico::{
    buy_tokens, create_ico_ata, deposit_ico_in_ata, BuyTokens, CreateIcoATA, DepositIcoInATA,
    PendingDelivery, PendingDeposit, PendingPayment,
};
pub use instruction::{AccountMeta, Instruction};
pub use pricing::{raw_amount, sol_amount, LAMPORTS_PER_TOKEN, TOKEN_DECIMALS};
pub use pubkey::Pubkey;
pub use transfer::{Authority, Payment, TokenTransfer, TransferOutcome};
