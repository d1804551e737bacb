//! The transfers that the sale asks its host to make, and what the host
//! reports back.

use vstd::prelude::*;
use crate::pubkey::Pubkey;

verus! {

/// Who allows a move of tokens out of an account.
#[derive(Clone, Copy, Debug, PartialEq, Eq)]
pub enum Authority {
    /// The holder of this address, who signed the request.
    Signer(Pubkey),
    /// A program address: it has no key, and the program signs for it with
    /// the seed and the bump that derive it.
    Derived { address: Pubkey, seed: Pubkey, bump: u8 },
}

impl Authority {
    /// The address that the token ledger sees as the authority.
    pub open spec fn spec_address(self) -> Pubkey {
        match self {
            Authority::Signer(key) => key,
            Authority::Derived { address, .. } => address,
        }
    }

    /// The seeds that sign for the authority: none for a signer, the seed
    /// followed by the bump for a program address.
    pub open spec fn spec_signer_seeds(self) -> Seq<Seq<u8>> {
        match self {
            Authority::Signer(_) => Seq::<Seq<u8>>::empty(),
            Authority::Derived { seed, bump, .. } => seq![seed@, seq![bump]],
        }
    }

    /// The address that the token ledger sees as the authority.
    pub fn address(&self) -> (key: Pubkey)
        ensures
            key == self.spec_address(),
    {
        match self {
            Authority::Signer(key) => *key,
            Authority::Derived { address, .. } => *address,
        }
    }

    /// The seeds that sign for the authority, in the order in which they
    /// derive its address.
    pub fn signer_seeds(&self) -> (seeds: Vec<Vec<u8>>)
        ensures
            seeds@.len() == self.spec_signer_seeds().len(),
            forall|i: int| 0 <= i < seeds@.len() ==> seeds@[i]@ == self.spec_signer_seeds()[i],
    {
        let mut seeds: Vec<Vec<u8>> = Vec::new();
        match self {
            Authority::Signer(_) => {},
            Authority::Derived { seed, bump, .. } => {
                let mut first: Vec<u8> = Vec::new();
                let mut i: usize = 0;
                while i < 32
                    invariant
                        i <= 32,
                        first@.len() == i,
                        forall|j: int| 0 <= j < i ==> first@[j] == seed.bytes[j],
                    decreases 32 - i,
                {
                    first.push(seed.bytes[i]);
                    i += 1;
                }
                assert(first@ =~= seed@);
                let mut last: Vec<u8> = Vec::new();
                last.push(*bump);
                assert(last@ =~= seq![*bump]);
                seeds.push(first);
                seeds.push(last);
            },
        }
        seeds
    }
}

/// A move of tokens, counted in smallest units, between two token accounts.
#[derive(Clone, Copy, Debug, PartialEq, Eq)]
pub struct TokenTransfer {
    pub from: Pubkey,
    pub to: Pubkey,
    pub authority: Authority,
    pub amount: u64,
}

/// A payment of lamports from one account to another.
#[derive(Clone, Copy, Debug, PartialEq, Eq)]
pub struct Payment {
    pub from: Pubkey,
    pub to: Pubkey,
    pub lamports: u64,
}

/// What the host reports of a transfer that it was asked to make.
#[derive(Clone, Copy, Debug, PartialEq, Eq, Structural)]
pub enum TransferOutcome {
    /// The transfer was made.
    Accepted,
    /// The transfer was refused and nothing moved.
    Rejected,
}

} // verus!
