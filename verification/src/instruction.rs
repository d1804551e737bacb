//! Instructions for other programs, as plain values.

use vstd::prelude::*;
use crate::pubkey::Pubkey;

verus! {

/// One account that an instruction names, and how it is used.
#[derive(Clone, Copy, Debug, PartialEq, Eq)]
pub struct AccountMeta {
    pub pubkey: Pubkey,
    pub is_signer: bool,
    pub is_writable: bool,
}

/// A request to a program: the program, the accounts it works on, its input.
#[derive(Clone, Debug, PartialEq, Eq)]
pub struct Instruction {
    pub program_id: Pubkey,
    pub accounts: Vec<AccountMeta>,
    pub data: Vec<u8>,
}

/// What an [`Instruction`] holds, as mathematical values.
pub struct InstructionView {
    pub program_id: Pubkey,
    pub accounts: Seq<AccountMeta>,
    pub data: Seq<u8>,
}

impl View for Instruction {
    type V = InstructionView;

    open spec fn view(&self) -> InstructionView {
        InstructionView { program_id: self.program_id, accounts: self.accounts@, data: self.data@ }
    }
}

/// The input bytes of the system program's transfer of `lamports`, as
/// `system_instruction::transfer` encodes them.
pub uninterp spec fn system_transfer_data(lamports: u64) -> Seq<u8>;

/// The address of the system program: 32 zero bytes.
pub open spec fn spec_system_program_id() -> Seq<u8> {
    Seq::new(32, |i: int| 0u8)
}

/// The accounts of a transfer by the system program: the payer signs and is
/// written, the payee is written.
pub open spec fn spec_system_transfer_accounts(from: Pubkey, to: Pubkey) -> Seq<AccountMeta> {
    seq![
        AccountMeta { pubkey: from, is_signer: true, is_writable: true },
        AccountMeta { pubkey: to, is_signer: false, is_writable: true },
    ]
}

/// Whether `ix` is the system program's transfer of `lamports` from `from` to `to`.
pub open spec fn spec_is_system_transfer(
    ix: InstructionView,
    from: Pubkey,
    to: Pubkey,
    lamports: u64,
) -> bool {
    &&& ix.program_id@ == spec_system_program_id()
    &&& ix.accounts == spec_system_transfer_accounts(from, to)
    &&& ix.data == system_transfer_data(lamports)
}

/// Calls `solana_program::system_instruction::transfer` and hands its result
/// out field by field. Trusted: the instruction is addressed to the system
/// program, names the payer as a writable signer and then the payee as
/// writable, and its input is what that function encodes for `lamports`.
#[verifier::external_body]
pub(crate) fn system_transfer(from: &Pubkey, to: &Pubkey, lamports: u64) -> (ix: Instruction)
    ensures
        ix.program_id@ == spec_system_program_id(),
        ix.accounts@ == spec_system_transfer_accounts(*from, *to),
        ix.data@ == system_transfer_data(lamports),
{
    let made = anchor_lang::solana_program::system_instruction::transfer(
        &anchor_lang::solana_program::pubkey::Pubkey::new_from_array(from.bytes),
        &anchor_lang::solana_program::pubkey::Pubkey::new_from_array(to.bytes),
        lamports,
    );
    Instruction {
        program_id: Pubkey { bytes: made.program_id.to_bytes() },
        accounts: made.accounts.iter().map(|meta| AccountMeta {
            pubkey: Pubkey { bytes: meta.pubkey.to_bytes() },
            is_signer: meta.is_signer,
            is_writable: meta.is_writable,
        }).collect(),
        data: made.data,
    }
}

} // verus!
