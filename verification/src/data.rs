//! The record of a sale.

use vstd::prelude::*;
use crate::pubkey::Pubkey;

verus! {

/// What is kept of one sale: who administers it, how many whole tokens were
/// ever deposited for it, and how many were sold.
#[derive(Clone, Copy, Debug, PartialEq, Eq)]
pub struct Data {
    pub admin: Pubkey,
    pub total_tokens: u64,
    pub tokens_sold: u64,
}

impl Data {
    /// Whether `self` can follow `before` as the record of one sale: the
    /// administrator is the same and neither count has gone down.
    pub open spec fn spec_follows(self, before: Data) -> bool {
        &&& self.admin == before.admin
        &&& self.total_tokens >= before.total_tokens
        &&& self.tokens_sold >= before.tokens_sold
    }

    /// Whole tokens deposited and not yet sold; negative once more were sold
    /// than were deposited.
    pub open spec fn spec_unsold(self) -> int {
        self.total_tokens - self.tokens_sold
    }
}

} // verus!
