use deposit_pool::handlers::{
    checked_pay_out, deposit_handler, init_handler, pay_out, system_program_name, token_program_name,
    withdraw_handler, PoolAction,
};
use deposit_pool::pool::{
    mint_seed, LAMPORTS_PER_SOL, MINT_DECIMALS, pool_seed, pool_signer_seeds, DepositPool, LoadedDepositPool,
};
use deposit_pool::program::{deposit, init, init_associated_token_account, withdraw};
use deposit_pool::seahorse_util::{
    checked_wrapped_index, same_name, wrapped_index, Empty, ProgramsMap,
};

#[test]
fn wrapped_index_keeps_positive_index() {
    assert_eq!(wrapped_index(3, 10), 3);
    assert_eq!(wrapped_index(42, 10), 42);
}

#[test]
fn wrapped_index_counts_negative_index_from_end() {
    assert_eq!(wrapped_index(-1, 10), 9);
    assert_eq!(wrapped_index(-10, 10), 0);
    assert_eq!(wrapped_index(-3, 5), 2);
}

#[test]
fn wrapped_index_of_zero_is_length() {
    assert_eq!(wrapped_index(0, 7), 7);
    assert_eq!(wrapped_index(0, 0), 0);
}

#[test]
fn same_name_compares_text() {
    assert!(same_name("token_program", "token_program"));
    assert!(!same_name("token_program", "system_program"));
    assert!(!same_name("token", "token_program"));
    assert!(same_name("", ""));
}

#[test]
fn programs_map_gives_back_what_was_registered() {
    let mut programs: ProgramsMap<u32> = ProgramsMap::new();
    programs.insert("token_program", 1);
    programs.insert("system_program", 2);
    assert_eq!(programs.get("token_program"), 1);
    assert_eq!(programs.get("system_program"), 2);
    assert_eq!(programs.0.len(), 2);
}

#[test]
fn programs_map_insert_replaces_same_name() {
    let mut programs: ProgramsMap<u32> = ProgramsMap::new();
    programs.insert("token_program", 1);
    programs.insert("system_program", 2);
    programs.insert("token_program", 7);
    assert_eq!(programs.get("token_program"), 7);
    assert_eq!(programs.get("system_program"), 2);
    assert_eq!(programs.0.len(), 2);
}

#[test]
fn seeds_are_the_declared_strings() {
    assert_eq!(pool_seed(), b"dep-pool".to_vec());
    assert_eq!(mint_seed(), b"pool-token-mint".to_vec());
}

#[test]
fn pool_signs_with_seed_and_bump() {
    let seeds = pool_signer_seeds(254);
    assert_eq!(seeds, vec![b"dep-pool".to_vec(), vec![254u8]]);
}

#[test]
fn load_and_store_copy_the_bump() {
    let account = DepositPool { bump: 251 };
    let loaded = DepositPool::load(&account);
    assert_eq!(loaded, LoadedDepositPool { bump: 251 });
    let mut other = DepositPool { bump: 3 };
    DepositPool::store(&loaded, &mut other);
    assert_eq!(other, account);
}

#[test]
fn init_handler_records_bump() {
    let mut pool = Empty { account: LoadedDepositPool { bump: 0 }, bump: Some(253) };
    init_handler(&mut pool);
    assert_eq!(pool.account.bump, 253);
    assert_eq!(pool.bump, Some(253));
}

#[test]
fn deposit_handler_mints_then_takes_lamports() {
    let actions = deposit_handler(&LoadedDepositPool { bump: 250 }, 1_500_000_000);
    assert_eq!(
        actions,
        vec![
            PoolAction::MintTo { amount: 1_500_000_000, authority_bump: 250 },
            PoolAction::SystemTransfer { amount: 1_500_000_000 },
            PoolAction::LogDeposit { lamports: 1_500_000_000 },
        ]
    );
}

#[test]
fn withdraw_handler_takes_tokens_then_pays_out() {
    let actions = withdraw_handler(&LoadedDepositPool { bump: 250 }, 42);
    assert_eq!(
        actions,
        vec![
            PoolAction::TokenTransfer { amount: 42 },
            PoolAction::PayOut { amount: 42 },
            PoolAction::LogWithdraw { lamports: 42 },
        ]
    );
}

#[test]
fn pay_out_moves_lamports_and_keeps_the_total() {
    let (pool, user) = pay_out(5_000, 100, 1_200);
    assert_eq!((pool, user), (3_800, 1_300));
    assert_eq!(pool + user, 5_000 + 100);
    assert_eq!(pay_out(10, 0, 10), (0, 10));
}

#[test]
fn actions_name_their_programs() {
    assert_eq!(PoolAction::MintTo { amount: 1, authority_bump: 1 }.program(), Some("token_program"));
    assert_eq!(PoolAction::TokenTransfer { amount: 1 }.program(), Some("token_program"));
    assert_eq!(PoolAction::SystemTransfer { amount: 1 }.program(), Some("system_program"));
    assert_eq!(PoolAction::PayOut { amount: 1 }.program(), None);
    assert_eq!(PoolAction::LogDeposit { lamports: 1 }.program(), None);
    assert_eq!(token_program_name(), "token_program");
    assert_eq!(system_program_name(), "system_program");
}

#[test]
fn init_records_bump_and_registers_programs() {
    let mut pool = DepositPool { bump: 0 };
    let programs = init("token", "system", &mut pool, Some(255));
    assert_eq!(pool.bump, 255);
    assert_eq!(programs.get("token_program"), "token");
    assert_eq!(programs.get("system_program"), "system");
}

#[test]
fn init_associated_token_account_registers_programs() {
    let programs = init_associated_token_account(10u8, 20u8);
    assert_eq!(programs.get("token_program"), 10);
    assert_eq!(programs.get("system_program"), 20);
}

#[test]
fn every_deposit_call_finds_its_program() {
    let mut pool = DepositPool { bump: 249 };
    let (programs, actions) = deposit(1u8, 2u8, &mut pool, 77);
    assert_eq!(pool, DepositPool { bump: 249 });
    assert_eq!(actions[0], PoolAction::MintTo { amount: 77, authority_bump: 249 });
    for action in &actions {
        if let Some(name) = action.program() {
            let handle = programs.get(name);
            assert!(handle == 1 || handle == 2);
        }
    }
    assert_eq!(programs.get("system_program"), 1);
    assert_eq!(programs.get("token_program"), 2);
}

#[test]
fn every_withdraw_call_finds_its_program() {
    let mut pool = DepositPool { bump: 249 };
    let (programs, actions) = withdraw(9u8, &mut pool, 5);
    assert_eq!(pool, DepositPool { bump: 249 });
    assert_eq!(programs.0.len(), 1);
    for action in &actions {
        if let Some(name) = action.program() {
            assert_eq!(programs.get(name), 9);
        }
    }
}

#[test]
fn deposit_and_withdraw_exchange_one_for_one() {
    // What the user pays in equals what is minted; what the user hands back
    // equals what is paid out.
    let dep = deposit_handler(&LoadedDepositPool { bump: 1 }, 1_000);
    let wd = withdraw_handler(&LoadedDepositPool { bump: 1 }, 1_000);
    let minted = match dep[0] { PoolAction::MintTo { amount, .. } => amount, _ => 0 };
    let paid_in = match dep[1] { PoolAction::SystemTransfer { amount } => amount, _ => 0 };
    let handed_back = match wd[0] { PoolAction::TokenTransfer { amount } => amount, _ => 0 };
    let paid_out = match wd[1] { PoolAction::PayOut { amount } => amount, _ => 0 };
    assert_eq!(minted, paid_in);
    assert_eq!(handed_back, paid_out);
    // A user starting with 5_000 lamports and no token, and a pool holding
    // 2_000 lamports, end where they started after the round trip.
    let (user_after_deposit, pool_after_deposit) = (5_000u64 - paid_in, 2_000u64 + paid_in);
    let (pool_end, user_end) = pay_out(pool_after_deposit, user_after_deposit, paid_out);
    assert_eq!((pool_end, user_end), (2_000, 5_000));
}

#[test]
fn checked_wrapped_index_refuses_what_does_not_fit() {
    assert_eq!(checked_wrapped_index(-1, 10), Some(9));
    assert_eq!(checked_wrapped_index(4, 2), Some(4));
    assert_eq!(checked_wrapped_index(-11, 10), None);
    assert_eq!(checked_wrapped_index(i128::MIN, usize::MAX), None);
    assert_eq!(checked_wrapped_index(i128::MAX, 0), None);
    assert_eq!(checked_wrapped_index(usize::MAX as i128, 0), Some(usize::MAX));
}

#[test]
fn checked_pay_out_refuses_overdraft_and_overflow() {
    assert_eq!(checked_pay_out(100, 5, 40), Some((60, 45)));
    assert_eq!(checked_pay_out(100, 5, 101), None);
    assert_eq!(checked_pay_out(100, u64::MAX - 10, 11), None);
    assert_eq!(checked_pay_out(100, u64::MAX - 10, 10), Some((90, u64::MAX)));
}

#[test]
fn programs_map_contains_only_registered_names() {
    let mut programs: ProgramsMap<u8> = ProgramsMap::new();
    assert!(!programs.contains("token_program"));
    programs.insert("token_program", 3);
    assert!(programs.contains("token_program"));
    assert!(!programs.contains("system_program"));
}

#[test]
fn token_base_unit_is_one_lamport() {
    assert_eq!(10u64.pow(MINT_DECIMALS as u32), LAMPORTS_PER_SOL);
    assert_eq!(LAMPORTS_PER_SOL, 1_000_000_000);
}

#[test]
fn bump_recorded_at_init_signs_every_later_deposit() {
    let mut pool = DepositPool { bump: 0 };
    let _ = init(0u8, 0u8, &mut pool, Some(252));
    let (_, first) = deposit(0u8, 0u8, &mut pool, 10);
    let _ = withdraw(0u8, &mut pool, 4);
    let (_, second) = deposit(0u8, 0u8, &mut pool, 6);
    assert_eq!(pool.bump, 252);
    assert_eq!(first[0], PoolAction::MintTo { amount: 10, authority_bump: 252 });
    assert_eq!(second[0], PoolAction::MintTo { amount: 6, authority_bump: 252 });
}
