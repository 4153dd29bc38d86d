//! Instructions for the system program, which moves lamports between
//! accounts on behalf of their owners.

use vstd::prelude::*;
use anchor_lang::solana_program::pubkey::Pubkey as SolanaPubkey;
use anchor_lang::solana_program::system_instruction::transfer as solana_transfer;
use crate::pubkey::Pubkey;

verus! {

/// An account that an instruction names, and what the instruction needs of
/// it.
#[derive(Clone, Copy, Debug, PartialEq, Eq)]
pub struct AccountMeta {
    pub pubkey: Pubkey,
    pub is_signer: bool,
    pub is_writable: bool,
}

/// A request to a program: the program, the accounts it is to work on, and
/// the data that tells it what to do.
#[derive(Debug, PartialEq, Eq)]
pub struct Instruction {
    pub program_id: Pubkey,
    pub accounts: Vec<AccountMeta>,
    pub data: Vec<u8>,
}

/// The data of the system program's transfer instruction for an amount of
/// lamports, as `solana_program::system_instruction::transfer` encodes it.
pub uninterp spec fn transfer_data(lamports: u64) -> Seq<u8>;

/// The account that pays in a transfer: it has to sign and is written to.
pub open spec fn payer(from: Pubkey) -> AccountMeta {
    AccountMeta { pubkey: from, is_signer: true, is_writable: true }
}

/// The account that is paid in a transfer: it is written to.
pub open spec fn payee(to: Pubkey) -> AccountMeta {
    AccountMeta { pubkey: to, is_signer: false, is_writable: true }
}

impl Instruction {
    /// The instruction asks the system program to move `lamports` from one
    /// account to another.
    pub open spec fn is_transfer(self, from: Pubkey, to: Pubkey, lamports: u64) -> bool {
        &&& self.program_id.is_default()
        &&& self.accounts@ == seq![payer(from), payee(to)]
        &&& self.data@ == transfer_data(lamports)
    }
}

/// Builds the instruction that moves `lamports` from one account to another
/// by calling `solana_program::system_instruction::transfer`.
///
/// Taken on trust: the instruction is addressed to the system program,
/// whose identity is all zero; it names the paying account first, as a
/// writable signer, and the receiving account second, as writable; and its
/// data depends on the amount alone.
#[verifier::external_body]
pub(crate) fn transfer(from: &Pubkey, to: &Pubkey, lamports: u64) -> (instruction: Instruction)
    ensures
        instruction.program_id.is_default(),
        instruction.accounts@ == seq![payer(*from), payee(*to)],
        instruction.data@ == transfer_data(lamports),
{
    let from = SolanaPubkey::new_from_array(from.bytes);
    let to = SolanaPubkey::new_from_array(to.bytes);
    let built = solana_transfer(&from, &to, lamports);
    let mut accounts: Vec<AccountMeta> = Vec::new();
    for meta in built.accounts.iter() {
        let pubkey = Pubkey { bytes: meta.pubkey.to_bytes() };
        accounts.push(AccountMeta { pubkey, is_signer: meta.is_signer, is_writable: meta.is_writable });
    }
    Instruction { program_id: Pubkey { bytes: built.program_id.to_bytes() }, accounts, data: built.data }
}

} // verus!
