//! What an order asks of the settlement backend: one transfer of the
//! system program, from the payer of the order to its payee.
//!
//! The price of an order is counted in ticks of a billionth, which is what a
//! lamport is, so an order moves as many lamports as its reference price has
//! ticks.

use crate::controller::{OrderRequest, Side};
use solana_sdk::pubkey::Pubkey;
use vstd::bytes::spec_u64_to_le_bytes;
use vstd::prelude::*;

verus! {

/// The address of an account: the 32 bytes of its public key.
#[derive(Clone, Copy, Debug, PartialEq, Eq)]
pub struct Address {
    pub bytes: [u8; 32],
}

/// One account that an instruction names, and what the instruction may do
/// with it.
#[derive(Clone, Copy, Debug, PartialEq, Eq)]
pub struct AccountEntry {
    pub address: Address,
    pub is_signer: bool,
    pub is_writable: bool,
}

/// An instruction for the settlement backend: the program that carries it
/// out, the accounts it names, and the bytes handed to the program.
#[derive(Debug, PartialEq, Eq)]
pub struct SettlementInstruction {
    pub program: Address,
    pub accounts: Vec<AccountEntry>,
    pub data: Vec<u8>,
}

/// The address of the system program: 32 zero bytes.
pub open spec fn system_program_address() -> Seq<u8> {
    Seq::new(32, |i: int| 0u8)
}

/// The bytes that ask the system program for a transfer of `lamports`: the
/// number 2 in four bytes, then the amount in eight, both with the lowest
/// byte first.
pub open spec fn transfer_data(lamports: u64) -> Seq<u8> {
    seq![2u8, 0u8, 0u8, 0u8] + spec_u64_to_le_bytes(lamports)
}

impl AccountEntry {
    /// This entry names `address`, with these permissions.
    pub open spec fn names(self, address: Address, is_signer: bool, is_writable: bool) -> bool {
        &&& self.address.bytes@ == address.bytes@
        &&& self.is_signer == is_signer
        &&& self.is_writable == is_writable
    }
}

impl SettlementInstruction {
    /// This instruction asks the system program to move `lamports` from
    /// `from` to `to`: `from` signs and both accounts may change.
    pub open spec fn transfers(self, from: Address, to: Address, lamports: u64) -> bool {
        &&& self.program.bytes@ == system_program_address()
        &&& self.accounts@.len() == 2
        &&& self.accounts@[0].names(from, true, true)
        &&& self.accounts@[1].names(to, false, true)
        &&& self.data@ == transfer_data(lamports)
    }
}

impl OrderRequest {
    /// The account that pays for this order: the wallet where it buys, the
    /// counterparty where it sells.
    pub open spec fn payer(self, wallet: Address, counterparty: Address) -> Address {
        match self.side {
            Side::Buy => wallet,
            Side::Sell => counterparty,
        }
    }

    /// The account that this order pays: the counterparty where it buys, the
    /// wallet where it sells.
    pub open spec fn payee(self, wallet: Address, counterparty: Address) -> Address {
        match self.side {
            Side::Buy => counterparty,
            Side::Sell => wallet,
        }
    }
}

/// Calls `solana_sdk::system_instruction::transfer` and copies what it
/// returns, field by field.
///
/// Trusted: the instruction is for the system program, whose address is 32
/// zero bytes. It names two accounts, `from` first as a writable signer, then
/// `to` as writable and no signer. Its data is the transfer request as
/// bincode writes it: the index of the request among the system program's
/// requests, which is 2, in four bytes, then `lamports` in eight, the lowest
/// byte first in both.
#[verifier::external_body]
fn system_transfer(from: &Address, to: &Address, lamports: u64) -> (instruction:
    SettlementInstruction)
    ensures
        instruction.program.bytes@ == system_program_address(),
        instruction.accounts@.len() == 2,
        instruction.accounts@[0].address.bytes@ == from.bytes@,
        instruction.accounts@[0].is_signer,
        instruction.accounts@[0].is_writable,
        instruction.accounts@[1].address.bytes@ == to.bytes@,
        !instruction.accounts@[1].is_signer,
        instruction.accounts@[1].is_writable,
        instruction.data@ == transfer_data(lamports),
{
    let from_key = Pubkey::new_from_array(from.bytes);
    let to_key = Pubkey::new_from_array(to.bytes);
    let built = solana_sdk::system_instruction::transfer(&from_key, &to_key, lamports);
    let accounts = built.accounts.iter().map(|meta| AccountEntry {
        address: Address { bytes: meta.pubkey.to_bytes() },
        is_signer: meta.is_signer,
        is_writable: meta.is_writable,
    }).collect();
    let program = Address { bytes: built.program_id.to_bytes() };
    SettlementInstruction { program, accounts, data: built.data }
}

/// The instruction that settles `request` between `wallet` and
/// `counterparty`.
///
/// A buy moves the reference price, in lamports, from the wallet to the
/// counterparty; a sell moves it from the counterparty to the wallet.
pub fn settlement_instruction(
    request: &OrderRequest,
    wallet: &Address,
    counterparty: &Address,
) -> (instruction: SettlementInstruction)
    ensures
        instruction.transfers(
            request.payer(*wallet, *counterparty),
            request.payee(*wallet, *counterparty),
            request.reference_price,
        ),
        request.side == Side::Buy ==> instruction.transfers(
            *wallet,
            *counterparty,
            request.reference_price,
        ),
        request.side == Side::Sell ==> instruction.transfers(
            *counterparty,
            *wallet,
            request.reference_price,
        ),
{
    match request.side {
        Side::Buy => system_transfer(wallet, counterparty, request.reference_price),
        Side::Sell => system_transfer(counterparty, wallet, request.reference_price),
    }
}

} // verus!
