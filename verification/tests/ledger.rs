use pda_ledger::address::{derive_pool_wallet_address, derive_user_wallet_address, Address};
use pda_ledger::codec::{encode_u64, PoolWallet, UserWallet};
use pda_ledger::error::LedgerError;
use pda_ledger::instruction::Instruction;
use pda_ledger::provision::{
    plan_pool_wallet_creation, plan_user_wallet_creation, write_initial_record,
};
use pda_ledger::slot::Slot;
use pda_ledger::transfer::{deposit, withdraw, withdraw_to_external};

fn addr(byte: u8) -> Address {
    Address::from_bytes(vec![byte; 32]).unwrap()
}

fn slot(owner_byte: u8, balance: u64) -> Slot {
    let mut data = encode_u64(balance);
    data.resize(128, 0);
    Slot {
        owner: addr(owner_byte),
        data,
    }
}

fn balance_of(s: &Slot) -> u64 {
    UserWallet::decode(&s.data).unwrap().balance
}

#[test]
fn codec_round_trip() {
    for v in [0u64, 1, 30, 255, 256, 1 << 40, u64::MAX - 1, u64::MAX] {
        let w = UserWallet { balance: v };
        let bytes = w.encode();
        assert_eq!(bytes.len(), 8);
        assert_eq!(UserWallet::decode(&bytes).unwrap().balance, v);
        let p = PoolWallet { total_balance: v };
        assert_eq!(PoolWallet::decode(&p.encode()).unwrap().total_balance, v);
    }
}

#[test]
fn codec_is_little_endian() {
    assert_eq!(encode_u64(1), vec![1, 0, 0, 0, 0, 0, 0, 0]);
    assert_eq!(
        encode_u64(0x0102030405060708),
        vec![8, 7, 6, 5, 4, 3, 2, 1]
    );
    assert_eq!(encode_u64(300), 300u64.to_le_bytes().to_vec());
}

#[test]
fn codec_matches_observed_record_format() {
    // The on-slot format is what the observed records used: the single
    // balance field in borsh's fixed-width little-endian layout.
    for v in [0u64, 42, u64::MAX] {
        assert_eq!(encode_u64(v), borsh::to_vec(&v).unwrap());
    }
}

#[test]
fn decode_short_buffer_fails() {
    assert!(UserWallet::decode(&vec![1u8; 7]).is_none());
    assert!(PoolWallet::decode(&vec![]).is_none());
    assert!(UserWallet::decode(&vec![9u8; 8]).is_some());
}

#[test]
fn derive_is_deterministic() {
    let owner = addr(3);
    let authority = addr(9);
    let first = derive_user_wallet_address(&owner, &authority).unwrap();
    let second = derive_user_wallet_address(&owner, &authority).unwrap();
    assert_eq!(first.0.bytes, second.0.bytes);
    assert_eq!(first.1, second.1);
    let pool_first = derive_pool_wallet_address(&authority).unwrap();
    let pool_second = derive_pool_wallet_address(&authority).unwrap();
    assert_eq!(pool_first.0.bytes, pool_second.0.bytes);
    assert_eq!(pool_first.1, pool_second.1);
}

#[test]
fn derive_matches_host_derivation() {
    let owner = addr(3);
    let authority = addr(9);
    let (derived, bump) = derive_user_wallet_address(&owner, &authority).unwrap();
    let pid = solana_program::pubkey::Pubkey::new_from_array([9u8; 32]);
    let (expected, expected_bump) = solana_program::pubkey::Pubkey::find_program_address(
        &[b"user_wallet", &[3u8; 32]],
        &pid,
    );
    assert_eq!(derived.bytes, expected.to_bytes().to_vec());
    assert_eq!(bump, expected_bump);

    let (pool_addr, pool_bump) = derive_pool_wallet_address(&authority).unwrap();
    let (expected_pool, expected_pool_bump) =
        solana_program::pubkey::Pubkey::find_program_address(&[b"pool_wallet"], &pid);
    assert_eq!(pool_addr.bytes, expected_pool.to_bytes().to_vec());
    assert_eq!(pool_bump, expected_pool_bump);
}

#[test]
fn derive_separates_domains() {
    let authority = addr(9);
    let wallet = derive_user_wallet_address(&addr(3), &authority).unwrap();
    let other_owner = derive_user_wallet_address(&addr(4), &authority).unwrap();
    let pool = derive_pool_wallet_address(&authority).unwrap();
    assert_ne!(wallet.0.bytes, other_owner.0.bytes);
    assert_ne!(wallet.0.bytes, pool.0.bytes);
}

#[test]
fn deposit_from_empty_pool_fails_unchanged() {
    let authority = addr(7);
    let mut wallet = slot(7, 0);
    let mut pool = slot(7, 0);
    let wallet_before = wallet.data.clone();
    let pool_before = pool.data.clone();
    let r = deposit(&authority, &mut wallet, &mut pool, 10);
    assert_eq!(r, Err(LedgerError::InsufficientFunds));
    assert_eq!(wallet.data, wallet_before);
    assert_eq!(pool.data, pool_before);
}

#[test]
fn deposit_moves_balance() {
    let authority = addr(7);
    let mut wallet = slot(7, 0);
    let mut pool = slot(7, 100);
    assert_eq!(deposit(&authority, &mut wallet, &mut pool, 30), Ok(()));
    assert_eq!(balance_of(&wallet), 30);
    assert_eq!(balance_of(&pool), 70);
    // padding beyond the record is untouched
    assert_eq!(&wallet.data[8..], &[0u8; 120][..]);
}

#[test]
fn withdraw_round_trips_to_original_state() {
    let authority = addr(7);
    let mut wallet = slot(7, 0);
    let mut pool = slot(7, 100);
    assert_eq!(deposit(&authority, &mut wallet, &mut pool, 30), Ok(()));
    assert_eq!(withdraw(&authority, &mut wallet, &mut pool, 30), Ok(()));
    assert_eq!(balance_of(&wallet), 0);
    assert_eq!(balance_of(&pool), 100);
}

#[test]
fn zero_amount_deposit_is_a_no_op() {
    let authority = addr(7);
    let mut wallet = slot(7, 5);
    let mut pool = slot(7, 100);
    assert_eq!(deposit(&authority, &mut wallet, &mut pool, 0), Ok(()));
    assert_eq!(balance_of(&wallet), 5);
    assert_eq!(balance_of(&pool), 100);
}

#[test]
fn conservation_across_operation_sequences() {
    let authority = addr(7);
    let mut wallets = vec![slot(7, 10), slot(7, 20)];
    let mut pool = slot(7, 1000);
    let total = 10 + 20 + 1000;
    let ops: [(usize, u64, bool); 6] = [
        (0, 500, true),
        (1, 200, true),
        (0, 505, false),
        (1, 220, false),
        (0, 2000, true),
        (1, 0, false),
    ];
    for (i, amount, is_deposit) in ops {
        if is_deposit {
            let _ = deposit(&authority, &mut wallets[i], &mut pool, amount);
        } else {
            let _ = withdraw(&authority, &mut wallets[i], &mut pool, amount);
        }
        let sum: u64 = wallets.iter().map(balance_of).sum::<u64>() + balance_of(&pool);
        assert_eq!(sum, total);
    }
}

#[test]
fn overflowing_deposit_fails_unchanged() {
    let authority = addr(7);
    let mut wallet = slot(7, u64::MAX);
    let mut pool = slot(7, 100);
    let wallet_before = wallet.data.clone();
    let pool_before = pool.data.clone();
    assert_eq!(
        deposit(&authority, &mut wallet, &mut pool, 1),
        Err(LedgerError::BalanceOverflow)
    );
    assert_eq!(wallet.data, wallet_before);
    assert_eq!(pool.data, pool_before);
}

#[test]
fn overflowing_withdraw_fails_unchanged() {
    let authority = addr(7);
    let mut wallet = slot(7, 100);
    let mut pool = slot(7, u64::MAX);
    let pool_before = pool.data.clone();
    assert_eq!(
        withdraw(&authority, &mut wallet, &mut pool, 1),
        Err(LedgerError::BalanceOverflow)
    );
    assert_eq!(balance_of(&wallet), 100);
    assert_eq!(pool.data, pool_before);
}

#[test]
fn foreign_owner_is_rejected() {
    let authority = addr(7);
    let mut wallet = slot(8, 50);
    let mut pool = slot(7, 100);
    let wallet_before = wallet.data.clone();
    assert_eq!(
        deposit(&authority, &mut wallet, &mut pool, 10),
        Err(LedgerError::UnauthorizedOwner)
    );
    assert_eq!(
        withdraw(&authority, &mut wallet, &mut pool, 10),
        Err(LedgerError::UnauthorizedOwner)
    );
    assert_eq!(wallet.data, wallet_before);
    let mut foreign_pool = slot(6, 100);
    assert_eq!(
        deposit(&authority, &mut wallet, &mut foreign_pool, 10),
        Err(LedgerError::UnauthorizedOwner)
    );
}

#[test]
fn malformed_record_is_rejected() {
    let authority = addr(7);
    let mut wallet = Slot {
        owner: addr(7),
        data: vec![1, 2, 3],
    };
    let mut pool = slot(7, 100);
    assert_eq!(
        deposit(&authority, &mut wallet, &mut pool, 10),
        Err(LedgerError::MalformedRecord)
    );
    assert_eq!(wallet.data, vec![1, 2, 3]);
}

#[test]
fn external_withdraw_debits_wallet_only() {
    let authority = addr(7);
    let mut wallet = slot(7, 50);
    assert_eq!(withdraw_to_external(&authority, &mut wallet, 20), Ok(20));
    assert_eq!(balance_of(&wallet), 30);
    assert_eq!(
        withdraw_to_external(&authority, &mut wallet, 31),
        Err(LedgerError::InsufficientFunds)
    );
    assert_eq!(balance_of(&wallet), 30);
}

#[test]
fn instruction_decode_tags() {
    let (ix, rest) = Instruction::decode(&[0u8]).unwrap();
    assert_eq!(ix, Instruction::CreateAccount);
    assert!(rest.is_empty());

    let mut data = vec![1u8];
    data.extend_from_slice(&30u64.to_le_bytes());
    let (ix, rest) = Instruction::decode(&data).unwrap();
    assert_eq!(ix, Instruction::Deposit(30));
    assert_eq!(rest, &30u64.to_le_bytes()[..]);

    let mut data = vec![2u8];
    data.extend_from_slice(&7u64.to_le_bytes());
    let (ix, _) = Instruction::decode(&data).unwrap();
    assert_eq!(ix, Instruction::Withdraw(7));

    let (ix, _) = Instruction::decode(&[3u8, 9, 9]).unwrap();
    assert_eq!(ix, Instruction::PoolAccount);
}

#[test]
fn instruction_decode_rejects_malformed_streams() {
    assert_eq!(
        Instruction::decode(&[]),
        Err(LedgerError::InvalidInstruction)
    );
    assert_eq!(
        Instruction::decode(&[4u8]),
        Err(LedgerError::InvalidInstruction)
    );
    // amount payloads must be exactly 8 bytes
    assert_eq!(
        Instruction::decode(&[1u8, 1, 2, 3]),
        Err(LedgerError::InvalidInstruction)
    );
    assert_eq!(
        Instruction::decode(&[2u8, 1, 2, 3, 4, 5, 6, 7, 8, 9]),
        Err(LedgerError::InvalidInstruction)
    );
}

#[test]
fn planning_prices_the_slot_and_checks_the_payer() {
    let owner = addr(3);
    let authority = addr(9);
    let expected_rent = solana_program::rent::Rent::default()
        .try_minimum_balance(128)
        .unwrap();
    // the default pricing: (storage overhead 128 + size 128) bytes at the
    // default per-byte rate
    assert_eq!(expected_rent, 1_781_760);

    let request = plan_user_wallet_creation(&owner, &authority, expected_rent).unwrap();
    assert_eq!(request.lamports, expected_rent);
    assert_eq!(request.space, 128);
    assert_eq!(request.seeds.len(), 2);
    assert_eq!(request.seeds[0], b"user_wallet".to_vec());
    assert_eq!(request.seeds[1], vec![3u8; 32]);
    let (expected_addr, expected_bump) = derive_user_wallet_address(&owner, &authority).unwrap();
    assert_eq!(request.new_address.bytes, expected_addr.bytes);
    assert_eq!(request.bump, expected_bump);

    assert_eq!(
        plan_user_wallet_creation(&owner, &authority, expected_rent - 1)
            .map(|_| ())
            .unwrap_err(),
        LedgerError::InsufficientFunds
    );

    let pool_request = plan_pool_wallet_creation(&authority, expected_rent).unwrap();
    assert_eq!(pool_request.seeds.len(), 1);
    assert_eq!(pool_request.seeds[0], b"pool_wallet".to_vec());
    assert_eq!(pool_request.lamports, expected_rent);
}

#[test]
fn initial_record_is_zero_and_padding_kept() {
    let mut fresh = Slot {
        owner: addr(9),
        data: vec![0xFF; 128],
    };
    assert_eq!(write_initial_record(&mut fresh), Ok(()));
    assert_eq!(balance_of(&fresh), 0);
    assert_eq!(PoolWallet::decode(&fresh.data).unwrap().total_balance, 0);
    assert_eq!(&fresh.data[..8], &[0u8; 8][..]);
    assert_eq!(&fresh.data[8..], &[0xFFu8; 120][..]);

    let mut tiny = Slot {
        owner: addr(9),
        data: vec![0xFF; 4],
    };
    assert_eq!(write_initial_record(&mut tiny), Err(LedgerError::SlotTooSmall));
    assert_eq!(tiny.data, vec![0xFF; 4]);
}
