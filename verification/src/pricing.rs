//! The fixed price and scale of the sale.

use vstd::prelude::*;

verus! {

/// Lamports that a buyer pays for one whole token.
pub const LAMPORTS_PER_TOKEN: u64 = 1_000_000;

/// Smallest token units in one whole token.
pub const TOKEN_DECIMALS: u64 = 1_000_000_000;

/// Smallest token units in `tokens` whole tokens, as a mathematical integer.
pub open spec fn spec_raw_amount(tokens: u64) -> int {
    tokens * TOKEN_DECIMALS
}

/// Lamports owed for `tokens` whole tokens, as a mathematical integer.
pub open spec fn spec_sol_amount(tokens: u64) -> int {
    tokens * LAMPORTS_PER_TOKEN
}

/// Whether `tokens` whole tokens can be written in smallest units within `u64`.
pub open spec fn spec_raw_amount_fits(tokens: u64) -> bool {
    spec_raw_amount(tokens) <= u64::MAX
}

/// Whether the price of `tokens` whole tokens can be written within `u64`.
pub open spec fn spec_sol_amount_fits(tokens: u64) -> bool {
    spec_sol_amount(tokens) <= u64::MAX
}

/// Scales whole tokens to smallest units; `Overflow` where the product leaves `u64`.
pub fn raw_amount(tokens: u64) -> (r: Result<u64, crate::error::ErrorCode>)
    ensures
        spec_raw_amount_fits(tokens) ==> r == Ok::<u64, crate::error::ErrorCode>(
            spec_raw_amount(tokens) as u64,
        ),
        !spec_raw_amount_fits(tokens) ==> r == Err::<u64, crate::error::ErrorCode>(
            crate::error::ErrorCode::Overflow,
        ),
{
    match tokens.checked_mul(TOKEN_DECIMALS) {
        Some(raw) => Ok(raw),
        None => Err(crate::error::ErrorCode::Overflow),
    }
}

/// Prices whole tokens in lamports; `Overflow` where the product leaves `u64`.
pub fn sol_amount(tokens: u64) -> (r: Result<u64, crate::error::ErrorCode>)
    ensures
        spec_sol_amount_fits(tokens) ==> r == Ok::<u64, crate::error::ErrorCode>(
            spec_sol_amount(tokens) as u64,
        ),
        !spec_sol_amount_fits(tokens) ==> r == Err::<u64, crate::error::ErrorCode>(
            crate::error::ErrorCode::Overflow,
        ),
{
    match tokens.checked_mul(LAMPORTS_PER_TOKEN) {
        Some(lamports) => Ok(lamports),
        None => Err(crate::error::ErrorCode::Overflow),
    }
}

/// An amount whose smallest units fit has a price that fits: the price of a
/// token is below its scale.
pub proof fn lemma_price_fits_when_raw_fits(tokens: u64)
    requires
        spec_raw_amount_fits(tokens),
    ensures
        spec_sol_amount_fits(tokens),
        spec_sol_amount(tokens) <= spec_raw_amount(tokens),
{
    assert(tokens * LAMPORTS_PER_TOKEN <= tokens * TOKEN_DECIMALS) by (nonlinear_arith)
        requires
            LAMPORTS_PER_TOKEN <= TOKEN_DECIMALS,
            tokens >= 0,
    ;
}

} // verus!
