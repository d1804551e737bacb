//! The three operations on a sale.
//!
//! An operation checks and computes first, and then names a transfer for its
//! host to make. It goes on only when the host reports how that transfer
//! ended, and it hands out a record to store only after every transfer that
//! it asked for was accepted. An operation that ends in an error hands out
//! no record: what the host has stored stays as it is.

use vstd::prelude::*;
use crate::data::Data;
use crate::error::ErrorCode;
use crate::instruction::{spec_is_system_transfer, system_transfer, Instruction};
use crate::pricing::{
    raw_amount, sol_amount, spec_raw_amount, spec_raw_amount_fits, spec_sol_amount,
    spec_sol_amount_fits,
};
use crate::pubkey::Pubkey;
use crate::transfer::{Authority, Payment, TokenTransfer, TransferOutcome};

verus! {

/// The accounts of the operation that opens a sale.
#[derive(Clone, Copy, Debug, PartialEq, Eq)]
pub struct CreateIcoATA {
    /// The token account that holds the tokens for sale.
    pub ico_ata_for_ico_program: Pubkey,
    /// The record that is already stored for this sale, if there is one.
    pub data: Option<Data>,
    /// The administrator's token account, from which the tokens come.
    pub ico_ata_for_admin: Pubkey,
    /// The caller, who becomes the administrator of the sale.
    pub admin: Pubkey,
}

/// The accounts of the operation that adds tokens to a sale.
#[derive(Clone, Copy, Debug, PartialEq, Eq)]
pub struct DepositIcoInATA {
    /// The token account that holds the tokens for sale.
    pub ico_ata_for_ico_program: Pubkey,
    /// The record of the sale.
    pub data: Data,
    /// The caller's token account, from which the tokens come.
    pub ico_ata_for_admin: Pubkey,
    /// The caller.
    pub admin: Pubkey,
}

/// The accounts of a purchase.
#[derive(Clone, Copy, Debug, PartialEq, Eq)]
pub struct BuyTokens {
    /// The token account that holds the tokens for sale. It is its own
    /// authority: a program address derived from the mint.
    pub ico_ata_for_ico_program: Pubkey,
    /// The record of the sale.
    pub data: Data,
    /// The mint of the token that is sold.
    pub ico_mint: Pubkey,
    /// The buyer's token account, which receives the tokens.
    pub ico_ata_for_user: Pubkey,
    /// The buyer, who pays.
    pub user: Pubkey,
    /// The account that is paid. It is taken as given and is not compared
    /// with the administrator that the record names.
    pub admin: Pubkey,
}

/// A deposit that waits for its tokens to be moved into the holding account.
#[derive(Clone, Copy, Debug, PartialEq, Eq)]
pub struct PendingDeposit {
    /// The transfer that the host is asked to make.
    pub transfer: TokenTransfer,
    /// The record to store once the transfer was accepted.
    pub data: Data,
}

/// A purchase whose tokens wait to be moved to the buyer.
#[derive(Clone, Copy, Debug, PartialEq, Eq)]
pub struct PendingDelivery {
    /// The transfer that the host is asked to make.
    pub transfer: TokenTransfer,
    /// The record of the sale as it is stored.
    pub data: Data,
    /// The whole tokens that are bought.
    pub token_amount: u64,
}

/// A purchase that waits for its payment.
#[derive(Clone, Debug, PartialEq, Eq)]
pub struct PendingPayment {
    /// The payment that the host is asked to make.
    pub payment: Payment,
    /// The instruction that makes this payment.
    pub instruction: Instruction,
    /// What follows once the payment was accepted.
    pub delivery: PendingDelivery,
}

/// The transfer that opens or tops up a sale: `ico_amount` whole tokens, in
/// smallest units, from the administrator's token account into the holding
/// account, signed by the administrator.
pub open spec fn spec_deposit_transfer(
    ico_ata_for_admin: Pubkey,
    ico_ata_for_ico_program: Pubkey,
    admin: Pubkey,
    ico_amount: u64,
) -> TokenTransfer {
    TokenTransfer {
        from: ico_ata_for_admin,
        to: ico_ata_for_ico_program,
        authority: Authority::Signer(admin),
        amount: spec_raw_amount(ico_amount) as u64,
    }
}

/// What opening a sale with `ico_amount` whole tokens comes to, before any
/// transfer.
pub open spec fn spec_create_ico_ata(ctx: CreateIcoATA, ico_amount: u64) -> Result<
    PendingDeposit,
    ErrorCode,
> {
    if ctx.data is Some {
        Err(ErrorCode::AlreadyInitialized)
    } else if !spec_raw_amount_fits(ico_amount) {
        Err(ErrorCode::Overflow)
    } else {
        Ok(
            PendingDeposit {
                transfer: spec_deposit_transfer(
                    ctx.ico_ata_for_admin,
                    ctx.ico_ata_for_ico_program,
                    ctx.admin,
                    ico_amount,
                ),
                data: Data { admin: ctx.admin, total_tokens: ico_amount, tokens_sold: 0 },
            },
        )
    }
}

/// What adding `ico_amount` whole tokens to a sale comes to, before any
/// transfer.
pub open spec fn spec_deposit_ico_in_ata(ctx: DepositIcoInATA, ico_amount: u64) -> Result<
    PendingDeposit,
    ErrorCode,
> {
    if ctx.data.admin != ctx.admin {
        Err(ErrorCode::InvalidAdmin)
    } else if !spec_raw_amount_fits(ico_amount) {
        Err(ErrorCode::Overflow)
    } else if ctx.data.total_tokens + ico_amount > u64::MAX {
        Err(ErrorCode::Overflow)
    } else {
        Ok(
            PendingDeposit {
                transfer: spec_deposit_transfer(
                    ctx.ico_ata_for_admin,
                    ctx.ico_ata_for_ico_program,
                    ctx.admin,
                    ico_amount,
                ),
                data: Data {
                    admin: ctx.data.admin,
                    total_tokens: (ctx.data.total_tokens + ico_amount) as u64,
                    tokens_sold: ctx.data.tokens_sold,
                },
            },
        )
    }
}

/// The payment of a purchase of `token_amount` whole tokens: their price,
/// from the buyer to the account that is paid.
pub open spec fn spec_buy_payment(ctx: BuyTokens, token_amount: u64) -> Payment {
    Payment { from: ctx.user, to: ctx.admin, lamports: spec_sol_amount(token_amount) as u64 }
}

/// The delivery of a purchase of `token_amount` whole tokens: that many, in
/// smallest units, from the holding account to the buyer's token account. The
/// holding account is its own authority, derived from the mint and `bump`.
pub open spec fn spec_buy_delivery(ctx: BuyTokens, bump: u8, token_amount: u64) -> PendingDelivery {
    PendingDelivery {
        transfer: TokenTransfer {
            from: ctx.ico_ata_for_ico_program,
            to: ctx.ico_ata_for_user,
            authority: Authority::Derived {
                address: ctx.ico_ata_for_ico_program,
                seed: ctx.ico_mint,
                bump,
            },
            amount: spec_raw_amount(token_amount) as u64,
        },
        data: ctx.data,
        token_amount,
    }
}

/// Whether a purchase of `token_amount` whole tokens gets as far as asking
/// for its payment: both products fit. Nothing else is asked: not who is
/// paid, and not whether that many tokens are left to sell.
pub open spec fn spec_buy_tokens_accepted(token_amount: u64) -> bool {
    spec_raw_amount_fits(token_amount) && spec_sol_amount_fits(token_amount)
}

impl PendingDeposit {
    /// What the deposit comes to once the host reports on its transfer.
    pub open spec fn spec_settle(self, outcome: TransferOutcome) -> Result<Data, ErrorCode> {
        match outcome {
            TransferOutcome::Accepted => Ok(self.data),
            TransferOutcome::Rejected => Err(ErrorCode::TransferRejected),
        }
    }

    /// Ends the deposit: the record to store where the transfer was
    /// accepted, `TransferRejected` where it was not.
    pub fn settle(self, outcome: TransferOutcome) -> (r: Result<Data, ErrorCode>)
        ensures
            r == self.spec_settle(outcome),
    {
        match outcome {
            TransferOutcome::Accepted => Ok(self.data),
            TransferOutcome::Rejected => Err(ErrorCode::TransferRejected),
        }
    }
}

impl PendingDelivery {
    /// What the purchase comes to once the host reports on the delivery.
    pub open spec fn spec_settle(self, outcome: TransferOutcome) -> Result<Data, ErrorCode> {
        match outcome {
            TransferOutcome::Rejected => Err(ErrorCode::TransferRejected),
            TransferOutcome::Accepted => if self.data.tokens_sold + self.token_amount > u64::MAX {
                Err(ErrorCode::Overflow)
            } else {
                Ok(
                    Data {
                        admin: self.data.admin,
                        total_tokens: self.data.total_tokens,
                        tokens_sold: (self.data.tokens_sold + self.token_amount) as u64,
                    },
                )
            },
        }
    }

    /// Ends the purchase. Where the delivery was refused: `TransferRejected`.
    /// Where it was accepted: the record with the tokens added to those
    /// sold, or `Overflow` where that count would leave `u64`.
    pub fn settle(self, outcome: TransferOutcome) -> (r: Result<Data, ErrorCode>)
        ensures
            r == self.spec_settle(outcome),
    {
        match outcome {
            TransferOutcome::Rejected => Err(ErrorCode::TransferRejected),
            TransferOutcome::Accepted => match self.data.tokens_sold.checked_add(
                self.token_amount,
            ) {
                Some(tokens_sold) => Ok(
                    Data {
                        admin: self.data.admin,
                        total_tokens: self.data.total_tokens,
                        tokens_sold,
                    },
                ),
                None => Err(ErrorCode::Overflow),
            },
        }
    }
}

impl PendingPayment {
    /// What follows the payment once the host reports on it.
    pub open spec fn spec_settle(self, outcome: TransferOutcome) -> Result<
        PendingDelivery,
        ErrorCode,
    > {
        match outcome {
            TransferOutcome::Accepted => Ok(self.delivery),
            TransferOutcome::Rejected => Err(ErrorCode::TransferRejected),
        }
    }

    /// Goes on after the payment: the delivery to ask for where the payment
    /// was accepted, `TransferRejected` where it was not.
    pub fn settle(self, outcome: TransferOutcome) -> (r: Result<PendingDelivery, ErrorCode>)
        ensures
            r == self.spec_settle(outcome),
    {
        match outcome {
            TransferOutcome::Accepted => Ok(self.delivery),
            TransferOutcome::Rejected => Err(ErrorCode::TransferRejected),
        }
    }
}

/// Opens a sale with `ico_amount` whole tokens.
///
/// Fails with `AlreadyInitialized` where a record is stored already, and
/// with `Overflow` where the amount in smallest units leaves `u64`. Else it
/// asks for the tokens to be moved into the holding account; the record it
/// then hands out names the caller as administrator, `ico_amount` tokens in
/// all and none sold.
pub fn create_ico_ata(ctx: &CreateIcoATA, ico_amount: u64) -> (r: Result<
    PendingDeposit,
    ErrorCode,
>)
    ensures
        r == spec_create_ico_ata(*ctx, ico_amount),
{
    if ctx.data.is_some() {
        return Err(ErrorCode::AlreadyInitialized);
    }
    let raw = raw_amount(ico_amount)?;
    Ok(
        PendingDeposit {
            transfer: TokenTransfer {
                from: ctx.ico_ata_for_admin,
                to: ctx.ico_ata_for_ico_program,
                authority: Authority::Signer(ctx.admin),
                amount: raw,
            },
            data: Data { admin: ctx.admin, total_tokens: ico_amount, tokens_sold: 0 },
        },
    )
}

/// Adds `ico_amount` whole tokens to a sale.
///
/// Fails with `InvalidAdmin` where the caller is not the administrator that
/// the record names; then with `Overflow` where the amount in smallest units,
/// or the new count of tokens, leaves `u64`. All of this is settled before
/// any transfer is asked for, so that no deposit is moved that the record
/// could not count. Else it asks for the tokens to be moved into the holding
/// account; the record it then hands out counts `ico_amount` tokens more.
pub fn deposit_ico_in_ata(ctx: &DepositIcoInATA, ico_amount: u64) -> (r: Result<
    PendingDeposit,
    ErrorCode,
>)
    ensures
        r == spec_deposit_ico_in_ata(*ctx, ico_amount),
{
    if ctx.data.admin != ctx.admin {
        return Err(ErrorCode::InvalidAdmin);
    }
    let raw = raw_amount(ico_amount)?;
    let total_tokens = match ctx.data.total_tokens.checked_add(ico_amount) {
        Some(total_tokens) => total_tokens,
        None => { return Err(ErrorCode::Overflow); },
    };
    Ok(
        PendingDeposit {
            transfer: TokenTransfer {
                from: ctx.ico_ata_for_admin,
                to: ctx.ico_ata_for_ico_program,
                authority: Authority::Signer(ctx.admin),
                amount: raw,
            },
            data: Data {
                admin: ctx.data.admin,
                total_tokens,
                tokens_sold: ctx.data.tokens_sold,
            },
        },
    )
}

/// Starts a purchase of `token_amount` whole tokens.
///
/// Fails with `Overflow` where the amount in smallest units or its price
/// leaves `u64`. Else it asks for the price to be paid by the buyer, with the
/// instruction that pays it, and names the delivery that follows: the tokens,
/// from the holding account to the buyer, signed for with the mint and
/// `ico_ata_for_ico_program_bump`. It does not ask whether that many tokens
/// are left to sell: a sale can sell more than was deposited, where the token
/// ledger lets the delivery through.
pub fn buy_tokens(
    ctx: &BuyTokens,
    ico_ata_for_ico_program_bump: u8,
    token_amount: u64,
) -> (r: Result<PendingPayment, ErrorCode>)
    ensures
        r is Ok <==> spec_buy_tokens_accepted(token_amount),
        r is Err ==> r == Err::<PendingPayment, ErrorCode>(ErrorCode::Overflow),
        r matches Ok(pending) ==> {
            &&& pending.payment == spec_buy_payment(*ctx, token_amount)
            &&& pending.delivery == spec_buy_delivery(
                *ctx,
                ico_ata_for_ico_program_bump,
                token_amount,
            )
            &&& spec_is_system_transfer(
                pending.instruction@,
                pending.payment.from,
                pending.payment.to,
                pending.payment.lamports,
            )
        },
{
    let raw = raw_amount(token_amount)?;
    let lamports = sol_amount(token_amount)?;
    let instruction = system_transfer(&ctx.user, &ctx.admin, lamports);
    Ok(
        PendingPayment {
            payment: Payment { from: ctx.user, to: ctx.admin, lamports },
            instruction,
            delivery: PendingDelivery {
                transfer: TokenTransfer {
                    from: ctx.ico_ata_for_ico_program,
                    to: ctx.ico_ata_for_user,
                    authority: Authority::Derived {
                        address: ctx.ico_ata_for_ico_program,
                        seed: ctx.ico_mint,
                        bump: ico_ata_for_ico_program_bump,
                    },
                    amount: raw,
                },
                data: ctx.data,
                token_amount,
            },
        },
    )
}

} // verus!
