use solana_sdk::pubkey::Pubkey;
use trading_controller::controller::{OrderRequest, Side};
use trading_controller::settlement::{
    settlement_instruction, AccountEntry, Address, SettlementInstruction,
};

fn wallet() -> Address {
    Address { bytes: [7u8; 32] }
}

fn counterparty() -> Address {
    let mut bytes = [0u8; 32];
    bytes[0] = 1;
    bytes[31] = 255;
    Address { bytes }
}

#[test]
fn buy_moves_lamports_from_the_wallet() {
    let request = OrderRequest { side: Side::Buy, reference_price: 96_000_000_000 };
    let instruction = settlement_instruction(&request, &wallet(), &counterparty());
    assert_eq!(
        instruction,
        SettlementInstruction {
            program: Address { bytes: [0u8; 32] },
            accounts: vec![
                AccountEntry { address: wallet(), is_signer: true, is_writable: true },
                AccountEntry { address: counterparty(), is_signer: false, is_writable: true },
            ],
            data: vec![2, 0, 0, 0, 0x00, 0xc0, 0x0b, 0x5a, 0x16, 0x00, 0x00, 0x00],
        }
    );
}

#[test]
fn sell_moves_lamports_to_the_wallet() {
    let request = OrderRequest { side: Side::Sell, reference_price: 1 };
    let instruction = settlement_instruction(&request, &wallet(), &counterparty());
    assert_eq!(
        instruction,
        SettlementInstruction {
            program: Address { bytes: [0u8; 32] },
            accounts: vec![
                AccountEntry { address: counterparty(), is_signer: true, is_writable: true },
                AccountEntry { address: wallet(), is_signer: false, is_writable: true },
            ],
            data: vec![2, 0, 0, 0, 1, 0, 0, 0, 0, 0, 0, 0],
        }
    );
}

#[test]
fn amount_is_written_lowest_byte_first() {
    let request = OrderRequest { side: Side::Buy, reference_price: 0x0102_0304_0506_0708 };
    let instruction = settlement_instruction(&request, &wallet(), &counterparty());
    assert_eq!(instruction.data, vec![2, 0, 0, 0, 8, 7, 6, 5, 4, 3, 2, 1]);
    let request = OrderRequest { side: Side::Buy, reference_price: u64::MAX };
    let instruction = settlement_instruction(&request, &wallet(), &counterparty());
    assert_eq!(instruction.data, vec![2, 0, 0, 0, 255, 255, 255, 255, 255, 255, 255, 255]);
    let request = OrderRequest { side: Side::Sell, reference_price: 0 };
    let instruction = settlement_instruction(&request, &wallet(), &counterparty());
    assert_eq!(instruction.data, vec![2, 0, 0, 0, 0, 0, 0, 0, 0, 0, 0, 0]);
}

#[test]
fn instruction_is_the_one_the_system_program_takes() {
    let request = OrderRequest { side: Side::Buy, reference_price: 123_456_789 };
    let instruction = settlement_instruction(&request, &wallet(), &counterparty());
    let expected = solana_sdk::system_instruction::transfer(
        &Pubkey::new_from_array(wallet().bytes),
        &Pubkey::new_from_array(counterparty().bytes),
        123_456_789,
    );
    assert_eq!(instruction.program.bytes, expected.program_id.to_bytes());
    assert_eq!(instruction.program.bytes, solana_sdk::system_program::id().to_bytes());
    assert_eq!(instruction.data, expected.data);
    assert_eq!(instruction.accounts.len(), expected.accounts.len());
    let mut i: usize = 0;
    while i < expected.accounts.len() {
        assert_eq!(instruction.accounts[i].address.bytes, expected.accounts[i].pubkey.to_bytes());
        assert_eq!(instruction.accounts[i].is_signer, expected.accounts[i].is_signer);
        assert_eq!(instruction.accounts[i].is_writable, expected.accounts[i].is_writable);
        i += 1;
    }
}

#[test]
fn same_wallet_on_both_sides_is_named_twice() {
    let request = OrderRequest { side: Side::Sell, reference_price: 5 };
    let instruction = settlement_instruction(&request, &wallet(), &wallet());
    assert_eq!(instruction.accounts.len(), 2);
    assert_eq!(instruction.accounts[0].address, wallet());
    assert_eq!(instruction.accounts[1].address, wallet());
    assert!(instruction.accounts[0].is_signer);
    assert!(!instruction.accounts[1].is_signer);
}
