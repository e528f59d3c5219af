use secp_counter::authorize::increment;
use secp_counter::error::ErrorCodes;
use secp_counter::error::IncrementError;
use secp_counter::state::create;
use secp_counter::state::Counter;
use secp_counter::sysvar::SysvarAccount;
use solana_program::pubkey::Pubkey;
use solana_program::sysvar::instructions::construct_instructions_data;
use solana_program::sysvar::instructions::store_current_index;
use solana_program::sysvar::instructions::BorrowedAccountMeta;
use solana_program::sysvar::instructions::BorrowedInstruction;

const OWNER: [u8; 20] = [0x11; 20];

fn secp_data(address: [u8; 20], message: &[u8]) -> Vec<u8> {
    let mut data: Vec<u8> = vec![0; 97];
    data[0] = 1;
    data[12..32].copy_from_slice(&address);
    data.extend_from_slice(message);
    data
}

/// The instructions sysvar of a transaction of two instructions, the first to
/// `first_program` with `first_data`, while the instruction at `current` runs.
fn sysvar_of(first_program: &Pubkey, first_data: &[u8], current: u16) -> SysvarAccount {
    let counter_program = Pubkey::new_from_array([7; 32]);
    let counter_account = Pubkey::new_from_array([8; 32]);
    let sysvar_id = solana_program::sysvar::instructions::id();
    let batch = [
        BorrowedInstruction { program_id: first_program, accounts: Vec::new(), data: first_data },
        BorrowedInstruction {
            program_id: &counter_program,
            accounts: vec![
                BorrowedAccountMeta { pubkey: &counter_account, is_signer: false, is_writable: true },
                BorrowedAccountMeta { pubkey: &sysvar_id, is_signer: false, is_writable: false },
            ],
            data: &[11, 18, 104, 9, 104, 174, 59, 33],
        },
    ];
    let mut data = construct_instructions_data(&batch);
    store_current_index(&mut data, current);
    SysvarAccount { key: sysvar_id.to_bytes(), data }
}

#[test]
fn secp256k1_program_has_the_address_the_library_states() {
    assert_eq!(
        solana_program::secp256k1_program::id().to_bytes(),
        [
            4, 198, 252, 32, 240, 80, 204, 240, 85, 132, 215, 33, 28, 159, 140, 245, 158, 193, 71,
            133, 187, 22, 106, 30, 40, 48, 232, 18, 32, 0, 0, 0
        ]
    );
    assert_eq!(
        solana_program::sysvar::instructions::id().to_bytes(),
        [
            6, 167, 213, 23, 24, 123, 209, 102, 53, 218, 212, 4, 85, 253, 194, 192, 193, 36, 198,
            143, 33, 86, 117, 165, 219, 186, 203, 95, 8, 0, 0, 0
        ]
    );
}

#[test]
fn transaction_with_signed_nonce_is_accepted_once() {
    let secp = solana_program::secp256k1_program::id();
    let sysvar = sysvar_of(&secp, &secp_data([0x11; 20], &0u64.to_be_bytes()), 1);
    let mut counter = create([0x11; 20]);
    assert_eq!(increment(&mut counter, &sysvar), Ok(()));
    assert_eq!(counter, Counter { signer_address: [0x11; 20], count: 1, nonce: 1 });
    assert_eq!(
        increment(&mut counter, &sysvar),
        Err(IncrementError::Rejected(ErrorCodes::InvalidSecpNonce))
    );
    assert_eq!(counter, Counter { signer_address: [0x11; 20], count: 1, nonce: 1 });
    let next = sysvar_of(&secp, &secp_data([0x11; 20], &1u64.to_be_bytes()), 1);
    assert_eq!(increment(&mut counter, &next), Ok(()));
    assert_eq!(counter, Counter { signer_address: [0x11; 20], count: 2, nonce: 2 });
}

#[test]
fn account_with_another_address_is_no_sysvar() {
    let secp = solana_program::secp256k1_program::id();
    let mut sysvar = sysvar_of(&secp, &secp_data(OWNER, &0u64.to_be_bytes()), 1);
    sysvar.key[0] ^= 1;
    let mut counter = create(OWNER);
    assert_eq!(increment(&mut counter, &sysvar), Err(IncrementError::UnsupportedSysvar));
    assert_eq!(counter, create(OWNER));
    let empty = SysvarAccount { key: [0; 32], data: Vec::new() };
    assert_eq!(increment(&mut counter, &empty), Err(IncrementError::UnsupportedSysvar));
    assert_eq!(counter, create(OWNER));
}

#[test]
fn current_index_other_than_one_is_refused() {
    let secp = solana_program::secp256k1_program::id();
    for current in [0u16, 2, 256, 257, u16::MAX] {
        let sysvar = sysvar_of(&secp, &secp_data(OWNER, &0u64.to_be_bytes()), current);
        let mut counter = create(OWNER);
        assert_eq!(
            increment(&mut counter, &sysvar),
            Err(IncrementError::Rejected(ErrorCodes::InstructionAtWrongIndex))
        );
        assert_eq!(counter, create(OWNER));
    }
}

#[test]
fn wrong_index_comes_before_reading_the_instruction() {
    let key = solana_program::sysvar::instructions::id().to_bytes();
    let sysvar = SysvarAccount { key, data: vec![0, 0] };
    let mut counter = create(OWNER);
    assert_eq!(
        increment(&mut counter, &sysvar),
        Err(IncrementError::Rejected(ErrorCodes::InstructionAtWrongIndex))
    );
}

#[test]
fn unreadable_instruction_is_invalid_account_data() {
    let key = solana_program::sysvar::instructions::id().to_bytes();
    let mut counter = create(OWNER);
    let no_instructions = SysvarAccount { key, data: vec![0, 0, 1, 0] };
    assert_eq!(increment(&mut counter, &no_instructions), Err(IncrementError::InvalidAccountData));
    let only_index = SysvarAccount { key, data: vec![1, 0] };
    assert_eq!(increment(&mut counter, &only_index), Err(IncrementError::InvalidAccountData));
    let secp = solana_program::secp256k1_program::id();
    let mut cut = sysvar_of(&secp, &secp_data(OWNER, &0u64.to_be_bytes()), 1);
    cut.data.truncate(40);
    store_current_index(&mut cut.data, 1);
    assert_eq!(increment(&mut counter, &cut), Err(IncrementError::InvalidAccountData));
    assert_eq!(counter, create(OWNER));
}

#[test]
fn instruction_to_another_program_is_refused() {
    let other = Pubkey::new_from_array([3; 32]);
    let sysvar = sysvar_of(&other, &secp_data(OWNER, &0u64.to_be_bytes()), 1);
    let mut counter = create(OWNER);
    assert_eq!(
        increment(&mut counter, &sysvar),
        Err(IncrementError::Rejected(ErrorCodes::InvalidSecpInstruction))
    );
    assert_eq!(counter, create(OWNER));
}

#[test]
fn decoded_data_decides_the_checks() {
    let secp = solana_program::secp256k1_program::id();
    let mut counter = Counter { signer_address: OWNER, count: 4, nonce: 4 };
    let no_entry = sysvar_of(&secp, &[0, 0], 1);
    assert_eq!(
        increment(&mut counter, &no_entry),
        Err(IncrementError::Rejected(ErrorCodes::InvalidSecpInstruction))
    );
    let other_signer = sysvar_of(&secp, &secp_data([0x22; 20], &4u64.to_be_bytes()), 1);
    assert_eq!(
        increment(&mut counter, &other_signer),
        Err(IncrementError::Rejected(ErrorCodes::InvalidSecpSignature))
    );
    let old_nonce = sysvar_of(&secp, &secp_data(OWNER, &3u64.to_be_bytes()), 1);
    assert_eq!(
        increment(&mut counter, &old_nonce),
        Err(IncrementError::Rejected(ErrorCodes::InvalidSecpNonce))
    );
    assert_eq!(counter, Counter { signer_address: OWNER, count: 4, nonce: 4 });
    let signed = sysvar_of(&secp, &secp_data(OWNER, &4u64.to_be_bytes()), 1);
    assert_eq!(increment(&mut counter, &signed), Ok(()));
    assert_eq!(counter, Counter { signer_address: OWNER, count: 5, nonce: 5 });
}
