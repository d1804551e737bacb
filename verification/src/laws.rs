//! What holds of the operations taken together.

use vstd::prelude::*;
use crate::data::Data;
use crate::error::ErrorCode;
use crate::ico::{
    spec_buy_delivery, spec_buy_payment, spec_buy_tokens_accepted, spec_create_ico_ata,
    spec_deposit_ico_in_ata, BuyTokens, CreateIcoATA, DepositIcoInATA,
};
use crate::pricing::{
    lemma_price_fits_when_raw_fits, spec_raw_amount, spec_raw_amount_fits, spec_sol_amount,
};
use crate::transfer::TransferOutcome;

verus! {

/// What opening a sale comes to in the end, given how its transfer ended.
pub open spec fn spec_create_outcome(
    ctx: CreateIcoATA,
    ico_amount: u64,
    deposited: TransferOutcome,
) -> Result<Data, ErrorCode> {
    match spec_create_ico_ata(ctx, ico_amount) {
        Ok(pending) => pending.spec_settle(deposited),
        Err(e) => Err(e),
    }
}

/// What adding tokens comes to in the end, given how its transfer ended.
pub open spec fn spec_deposit_outcome(
    ctx: DepositIcoInATA,
    ico_amount: u64,
    deposited: TransferOutcome,
) -> Result<Data, ErrorCode> {
    match spec_deposit_ico_in_ata(ctx, ico_amount) {
        Ok(pending) => pending.spec_settle(deposited),
        Err(e) => Err(e),
    }
}

/// What a purchase comes to in the end, given how its payment and its
/// delivery ended. The delivery's outcome counts only where the payment was
/// accepted, since it is asked for only then.
pub open spec fn spec_buy_outcome(
    ctx: BuyTokens,
    bump: u8,
    token_amount: u64,
    paid: TransferOutcome,
    delivered: TransferOutcome,
) -> Result<Data, ErrorCode> {
    if !spec_buy_tokens_accepted(token_amount) {
        Err(ErrorCode::Overflow)
    } else {
        match paid {
            TransferOutcome::Rejected => Err(ErrorCode::TransferRejected),
            TransferOutcome::Accepted => spec_buy_delivery(ctx, bump, token_amount).spec_settle(
                delivered,
            ),
        }
    }
}

/// The record that is stored after an operation: the one it handed out, or
/// the one that was there where it ended in an error.
pub open spec fn spec_stored_after(before: Data, outcome: Result<Data, ErrorCode>) -> Data {
    match outcome {
        Ok(data) => data,
        Err(_) => before,
    }
}

/// A sale that was opened with an amount whose smallest units fit, and whose
/// deposit was accepted, has a record with that amount in all, none sold and
/// the caller as administrator; the deposit moved exactly that amount.
pub proof fn lemma_create_then_read(ctx: CreateIcoATA, ico_amount: u64)
    requires
        ctx.data is None,
        spec_raw_amount_fits(ico_amount),
    ensures
        spec_create_outcome(ctx, ico_amount, TransferOutcome::Accepted) == Ok::<Data, ErrorCode>(
            Data { admin: ctx.admin, total_tokens: ico_amount, tokens_sold: 0 },
        ),
        spec_create_ico_ata(ctx, ico_amount)->Ok_0.transfer.amount == spec_raw_amount(ico_amount),
{
}

/// Opening a sale never ends well without its deposit: where the transfer
/// was refused no record is handed out.
pub proof fn lemma_create_needs_deposit(ctx: CreateIcoATA, ico_amount: u64)
    ensures
        spec_create_outcome(ctx, ico_amount, TransferOutcome::Rejected) is Err,
        spec_create_ico_ata(ctx, ico_amount) is Ok ==> spec_create_outcome(
            ctx,
            ico_amount,
            TransferOutcome::Rejected,
        ) == Err::<Data, ErrorCode>(ErrorCode::TransferRejected),
{
}

/// A sale is opened once: with a record stored, opening it again ends in
/// `AlreadyInitialized` before any transfer, whatever the amount and the
/// accounts, and the stored record stays.
pub proof fn lemma_create_twice(
    first: CreateIcoATA,
    first_amount: u64,
    second: CreateIcoATA,
    second_amount: u64,
    deposited: TransferOutcome,
)
    requires
        spec_create_outcome(first, first_amount, TransferOutcome::Accepted) is Ok,
        second.data == Some(
            spec_create_outcome(first, first_amount, TransferOutcome::Accepted)->Ok_0,
        ),
    ensures
        spec_create_ico_ata(second, second_amount) == Err::<crate::ico::PendingDeposit, ErrorCode>(
            ErrorCode::AlreadyInitialized,
        ),
        spec_stored_after(
            second.data->Some_0,
            spec_create_outcome(second, second_amount, deposited),
        ) == second.data->Some_0,
{
}

/// Tokens are added only by the administrator: a caller who is not the one
/// that the record names gets `InvalidAdmin` before any transfer, and no one
/// else gets it; the stored record stays.
pub proof fn lemma_deposit_needs_admin(
    ctx: DepositIcoInATA,
    ico_amount: u64,
    deposited: TransferOutcome,
)
    ensures
        ctx.data.admin != ctx.admin <==> spec_deposit_ico_in_ata(ctx, ico_amount) == Err::<
            crate::ico::PendingDeposit,
            ErrorCode,
        >(ErrorCode::InvalidAdmin),
        spec_deposit_outcome(ctx, ico_amount, deposited) is Ok ==> ctx.data.admin == ctx.admin,
        ctx.data.admin != ctx.admin ==> spec_stored_after(
            ctx.data,
            spec_deposit_outcome(ctx, ico_amount, deposited),
        ) == ctx.data,
{
}

/// When adding tokens ends well, and what it then leaves: the caller is the
/// administrator, both the smallest units and the new count fit, and the
/// transfer was accepted; the record counts `ico_amount` more in all, and
/// exactly that amount was moved.
pub proof fn lemma_deposit_adds(ctx: DepositIcoInATA, ico_amount: u64, deposited: TransferOutcome)
    ensures
        spec_deposit_outcome(ctx, ico_amount, deposited) is Ok <==> {
            &&& ctx.data.admin == ctx.admin
            &&& spec_raw_amount_fits(ico_amount)
            &&& ctx.data.total_tokens + ico_amount <= u64::MAX
            &&& deposited == TransferOutcome::Accepted
        },
        spec_deposit_outcome(ctx, ico_amount, deposited) matches Ok(data) ==> {
            &&& data.admin == ctx.data.admin
            &&& data.total_tokens == ctx.data.total_tokens + ico_amount
            &&& data.tokens_sold == ctx.data.tokens_sold
            &&& spec_deposit_ico_in_ata(ctx, ico_amount)->Ok_0.transfer.amount == (
            data.total_tokens - ctx.data.total_tokens) * crate::pricing::TOKEN_DECIMALS
        },
{
}

/// An amount whose smallest units leave `u64` stops every operation with
/// `Overflow` before any transfer is asked for: a purchase always, opening a
/// sale where no record is stored yet, adding tokens where the caller is the
/// administrator.
pub proof fn lemma_overflow_stops_before_transfer(
    create: CreateIcoATA,
    deposit: DepositIcoInATA,
    buy: BuyTokens,
    amount: u64,
)
    requires
        !spec_raw_amount_fits(amount),
    ensures
        !spec_buy_tokens_accepted(amount),
        create.data is None ==> spec_create_ico_ata(create, amount) == Err::<
            crate::ico::PendingDeposit,
            ErrorCode,
        >(ErrorCode::Overflow),
        deposit.data.admin == deposit.admin ==> spec_deposit_ico_in_ata(deposit, amount) == Err::<
            crate::ico::PendingDeposit,
            ErrorCode,
        >(ErrorCode::Overflow),
{
}

/// A purchase is asked to pay exactly when its smallest units fit: the price
/// then fits too.
pub proof fn lemma_buy_accepted_when_raw_fits(token_amount: u64)
    ensures
        spec_buy_tokens_accepted(token_amount) <==> spec_raw_amount_fits(token_amount),
{
    if spec_raw_amount_fits(token_amount) {
        lemma_price_fits_when_raw_fits(token_amount);
    }
}

/// When a purchase ends well, and what it then leaves: its smallest units
/// fit, both transfers were accepted and the new count of tokens sold fits;
/// the record counts `token_amount` more sold and is the same otherwise; the
/// buyer paid the price of exactly that many tokens and was sent exactly
/// that many.
pub proof fn lemma_buy_sells(
    ctx: BuyTokens,
    bump: u8,
    token_amount: u64,
    paid: TransferOutcome,
    delivered: TransferOutcome,
)
    ensures
        spec_buy_outcome(ctx, bump, token_amount, paid, delivered) is Ok <==> {
            &&& spec_raw_amount_fits(token_amount)
            &&& paid == TransferOutcome::Accepted
            &&& delivered == TransferOutcome::Accepted
            &&& ctx.data.tokens_sold + token_amount <= u64::MAX
        },
        spec_buy_outcome(ctx, bump, token_amount, paid, delivered) matches Ok(data) ==> {
            &&& data.admin == ctx.data.admin
            &&& data.total_tokens == ctx.data.total_tokens
            &&& data.tokens_sold == ctx.data.tokens_sold + token_amount
            &&& spec_buy_payment(ctx, token_amount).lamports == (data.tokens_sold
                - ctx.data.tokens_sold) * crate::pricing::LAMPORTS_PER_TOKEN
            &&& spec_buy_delivery(ctx, bump, token_amount).transfer.amount == (data.tokens_sold
                - ctx.data.tokens_sold) * crate::pricing::TOKEN_DECIMALS
        },
{
    lemma_buy_accepted_when_raw_fits(token_amount);
}

/// A purchase that ends in an error names which: `Overflow` where the
/// smallest units do not fit; else `TransferRejected` where the payment, or
/// after it the delivery, was refused; else `Overflow` where the count of
/// tokens sold would leave `u64`.
pub proof fn lemma_buy_errors(
    ctx: BuyTokens,
    bump: u8,
    token_amount: u64,
    paid: TransferOutcome,
    delivered: TransferOutcome,
)
    ensures
        spec_buy_outcome(ctx, bump, token_amount, paid, delivered) == Err::<Data, ErrorCode>(
            ErrorCode::TransferRejected,
        ) <==> spec_raw_amount_fits(token_amount) && (paid == TransferOutcome::Rejected
            || delivered == TransferOutcome::Rejected),
        spec_buy_outcome(ctx, bump, token_amount, paid, delivered) == Err::<Data, ErrorCode>(
            ErrorCode::Overflow,
        ) <==> !spec_raw_amount_fits(token_amount) || (paid == TransferOutcome::Accepted
            && delivered == TransferOutcome::Accepted && ctx.data.tokens_sold + token_amount
            > u64::MAX),
{
    lemma_buy_accepted_when_raw_fits(token_amount);
}

/// Purchases add up: after one purchase that ended well and a second one on
/// the record that the first left, the tokens sold are those sold before and
/// both amounts.
pub proof fn lemma_purchases_accumulate(
    first: BuyTokens,
    first_bump: u8,
    first_amount: u64,
    second: BuyTokens,
    second_bump: u8,
    second_amount: u64,
)
    requires
        spec_buy_outcome(
            first,
            first_bump,
            first_amount,
            TransferOutcome::Accepted,
            TransferOutcome::Accepted,
        ) is Ok,
        second.data == spec_buy_outcome(
            first,
            first_bump,
            first_amount,
            TransferOutcome::Accepted,
            TransferOutcome::Accepted,
        )->Ok_0,
        spec_buy_outcome(
            second,
            second_bump,
            second_amount,
            TransferOutcome::Accepted,
            TransferOutcome::Accepted,
        ) is Ok,
    ensures
        spec_buy_outcome(
            second,
            second_bump,
            second_amount,
            TransferOutcome::Accepted,
            TransferOutcome::Accepted,
        )->Ok_0 == (Data {
            admin: first.data.admin,
            total_tokens: first.data.total_tokens,
            tokens_sold: (first.data.tokens_sold + first_amount + second_amount) as u64,
        }),
        first.data.tokens_sold + first_amount + second_amount <= u64::MAX,
{
}

/// A purchase is not held to what was deposited: whether it ends well does
/// not depend on the tokens left to sell, and where both transfers were
/// accepted it sells also what the record does not have. Only the token
/// ledger, by refusing the delivery, keeps a sale from selling too much.
pub proof fn lemma_buy_not_bounded_by_total(
    ctx: BuyTokens,
    bump: u8,
    token_amount: u64,
    paid: TransferOutcome,
    delivered: TransferOutcome,
    other_total: u64,
)
    ensures
        ({
            let other = BuyTokens {
                data: Data { total_tokens: other_total, ..ctx.data },
                ..ctx
            };
            let here = spec_buy_outcome(ctx, bump, token_amount, paid, delivered);
            let there = spec_buy_outcome(other, bump, token_amount, paid, delivered);
            &&& here is Ok <==> there is Ok
            &&& here is Err ==> there == here
            &&& here is Ok ==> there->Ok_0.tokens_sold == here->Ok_0.tokens_sold
        }),
        spec_raw_amount_fits(token_amount) && ctx.data.tokens_sold + token_amount <= u64::MAX
            && ctx.data.tokens_sold + token_amount > ctx.data.total_tokens ==> spec_buy_outcome(
            ctx,
            bump,
            token_amount,
            TransferOutcome::Accepted,
            TransferOutcome::Accepted,
        ) is Ok,
{
    lemma_buy_accepted_when_raw_fits(token_amount);
}

/// The record of a sale only grows: whatever an operation on a stored record
/// comes to, the record stored after it has the same administrator and
/// counts that are no smaller.
pub proof fn lemma_record_only_grows(
    deposit: DepositIcoInATA,
    buy: BuyTokens,
    bump: u8,
    amount: u64,
    first: TransferOutcome,
    second: TransferOutcome,
)
    ensures
        spec_stored_after(
            deposit.data,
            spec_deposit_outcome(deposit, amount, first),
        ).spec_follows(deposit.data),
        spec_stored_after(
            buy.data,
            spec_buy_outcome(buy, bump, amount, first, second),
        ).spec_follows(buy.data),
{
}

/// What the holding account is owed stays covered by what was moved: opening
/// a sale moves in the smallest units of all its tokens; adding tokens moves
/// in those of the tokens added; a purchase moves out those of the tokens
/// that it adds to the count sold.
pub proof fn lemma_transfers_match_record(
    create: CreateIcoATA,
    deposit: DepositIcoInATA,
    buy: BuyTokens,
    bump: u8,
    amount: u64,
)
    ensures
        spec_create_outcome(create, amount, TransferOutcome::Accepted) matches Ok(data) ==> {
            &&& spec_create_ico_ata(create, amount)->Ok_0.transfer.to
                == create.ico_ata_for_ico_program
            &&& spec_create_ico_ata(create, amount)->Ok_0.transfer.amount == data.spec_unsold()
                * crate::pricing::TOKEN_DECIMALS
        },
        spec_deposit_outcome(deposit, amount, TransferOutcome::Accepted) matches Ok(data) ==> {
            &&& spec_deposit_ico_in_ata(deposit, amount)->Ok_0.transfer.to
                == deposit.ico_ata_for_ico_program
            &&& spec_deposit_ico_in_ata(deposit, amount)->Ok_0.transfer.amount == (
            data.spec_unsold() - deposit.data.spec_unsold()) * crate::pricing::TOKEN_DECIMALS
        },
        spec_buy_outcome(
            buy,
            bump,
            amount,
            TransferOutcome::Accepted,
            TransferOutcome::Accepted,
        ) matches Ok(data) ==> {
            &&& spec_buy_delivery(buy, bump, amount).transfer.from == buy.ico_ata_for_ico_program
            &&& spec_buy_delivery(buy, bump, amount).transfer.amount == (
            buy.data.spec_unsold() - data.spec_unsold()) * crate::pricing::TOKEN_DECIMALS
        },
{
    lemma_buy_accepted_when_raw_fits(amount);
}

} // verus!
