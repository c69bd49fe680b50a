use marinade_sdk::accounts::{token_program_id, AccountInfo};
use marinade_sdk::error::{CommonError, ProgramError, STAKING_CAP_REACHED};
use marinade_sdk::fee::Fee;
use marinade_sdk::marinade::{Marinade, StakeSystem, ValidatorSystem};
use marinade_sdk::pubkey::Pubkey;
use solana_program::program_pack::Pack;

fn key(b: u8) -> Pubkey {
    Pubkey::new_from_array([b; 32])
}

fn ledger() -> Marinade {
    Marinade {
        msol_mint: key(1),
        admin_authority: key(2),
        operational_sol_account: key(3),
        treasury_msol_account: key(4),
        reserve_bump_seed: 255,
        msol_mint_authority_bump_seed: 254,
        rent_exempt_for_token_acc: 2_039_280,
        reward_fee: Fee::from_basis_points(200),
        stake_system: StakeSystem { stake_list: key(5), delayed_unstake_cooling_down: 0 },
        validator_system: ValidatorSystem { validator_list: key(6), total_active_balance: 0 },
        available_reserve_balance: 0,
        msol_supply: 0,
        msol_price: 0,
        circulating_ticket_count: 0,
        circulating_ticket_balance: 0,
        lent_from_reserve: 0,
        min_deposit: 1,
        min_withdraw: 1,
        staking_sol_cap: u64::MAX,
        emergency_cooling_down: 0,
    }
}

fn token_account_data(mint: [u8; 32]) -> Vec<u8> {
    let account = spl_token::state::Account {
        mint: solana_program::pubkey::Pubkey::new_from_array(mint),
        owner: solana_program::pubkey::Pubkey::new_from_array([7; 32]),
        amount: 42,
        state: spl_token::state::AccountState::Initialized,
        ..Default::default()
    };
    let mut data = vec![0u8; spl_token::state::Account::LEN];
    spl_token::state::Account::pack(account, &mut data).unwrap();
    data
}

#[test]
fn stake_delta_positive_is_stakeable() {
    let mut m = ledger();
    m.stake_system.delayed_unstake_cooling_down = 100;
    m.circulating_ticket_balance = 50;
    m.emergency_cooling_down = 0;
    assert_eq!(m.stake_delta(m.rent_exempt_for_token_acc), 50);
}

#[test]
fn stake_delta_negative_counts_emergency() {
    let mut m = ledger();
    m.stake_system.delayed_unstake_cooling_down = 100;
    m.circulating_ticket_balance = 200;
    m.emergency_cooling_down = 0;
    assert_eq!(m.stake_delta(m.rent_exempt_for_token_acc), -100);
    m.emergency_cooling_down = 30;
    assert_eq!(m.stake_delta(m.rent_exempt_for_token_acc), -70);
}

#[test]
fn stake_delta_clamped_at_zero_with_emergency() {
    let mut m = ledger();
    m.stake_system.delayed_unstake_cooling_down = 100;
    m.circulating_ticket_balance = 200;
    m.emergency_cooling_down = 500;
    assert_eq!(m.stake_delta(m.rent_exempt_for_token_acc), 0);
}

#[test]
fn stake_delta_ignores_emergency_when_positive() {
    let mut m = ledger();
    m.emergency_cooling_down = 1_000;
    m.stake_system.delayed_unstake_cooling_down = 10;
    assert_eq!(m.stake_delta(m.rent_exempt_for_token_acc + 90), 100);
    assert_eq!(m.stake_delta(u64::MAX), (u64::MAX - 2_039_280) as i128 + 10);
}

#[test]
fn under_control_is_sum_of_counters() {
    let mut m = ledger();
    m.validator_system.total_active_balance = 1_000;
    m.stake_system.delayed_unstake_cooling_down = 200;
    m.emergency_cooling_down = 30;
    m.available_reserve_balance = 4;
    assert_eq!(m.total_cooling_down(), 230);
    assert_eq!(m.total_lamports_under_control(), 1_234);
    m.on_transfer_to_reserve(66);
    assert_eq!(m.total_lamports_under_control(), 1_300);
    assert_eq!(m.on_transfer_from_reserve(70), Ok(()));
    assert_eq!(m.total_lamports_under_control(), 1_230);
    m.on_msol_mint(500);
    assert_eq!(m.total_lamports_under_control(), 1_230);
    assert_eq!(m.on_msol_burn(100), Ok(()));
    assert_eq!(m.total_lamports_under_control(), 1_230);
    assert_eq!(m.msol_supply, 400);
}

#[test]
fn virtual_staked_clamped_and_repeatable() {
    let mut m = ledger();
    m.validator_system.total_active_balance = 1_000;
    m.circulating_ticket_balance = 300;
    let first = m.total_virtual_staked_lamports();
    let second = m.total_virtual_staked_lamports();
    assert_eq!(first, 700);
    assert_eq!(first, second);
    m.circulating_ticket_balance = 5_000;
    assert_eq!(m.total_virtual_staked_lamports(), 0);
}

#[test]
fn burn_more_than_supply_fails() {
    let mut m = ledger();
    assert_eq!(m.msol_supply, 0);
    assert_eq!(
        m.on_msol_burn(1),
        Err(ProgramError::Common(CommonError::CalculationFailure))
    );
    assert_eq!(m.msol_supply, 0);
}

#[test]
fn transfer_from_reserve_underflow_fails() {
    let mut m = ledger();
    m.available_reserve_balance = 10;
    assert_eq!(
        m.on_transfer_from_reserve(11),
        Err(ProgramError::Common(CommonError::CalculationFailure))
    );
    assert_eq!(m.available_reserve_balance, 10);
    assert_eq!(m.on_transfer_from_reserve(10), Ok(()));
    assert_eq!(m.available_reserve_balance, 0);
}

#[test]
fn staking_cap() {
    let mut m = ledger();
    m.validator_system.total_active_balance = 900;
    m.staking_sol_cap = 1_000;
    assert_eq!(m.check_staking_cap(100), Ok(()));
    assert_eq!(m.check_staking_cap(101), Err(ProgramError::Custom(STAKING_CAP_REACHED)));
    assert_eq!(m.check_staking_cap(u64::MAX), Err(ProgramError::Custom(STAKING_CAP_REACHED)));
}

#[test]
fn staking_cap_sum_past_u64_is_capacity_error() {
    let mut m = ledger();
    m.available_reserve_balance = u64::MAX;
    m.staking_sol_cap = u64::MAX;
    assert_eq!(m.check_staking_cap(0), Ok(()));
    assert_eq!(m.check_staking_cap(1), Err(ProgramError::Custom(STAKING_CAP_REACHED)));
}

#[test]
fn stake_delta_reserve_below_rent_minimum() {
    let mut m = ledger();
    m.rent_exempt_for_token_acc = 10;
    m.stake_system.delayed_unstake_cooling_down = 100;
    m.circulating_ticket_balance = 0;
    assert_eq!(m.stake_delta(0), 90);
    m.stake_system.delayed_unstake_cooling_down = 5;
    m.emergency_cooling_down = 2;
    // 0 - 10 + 5 = -5, then -5 + 2 = -3
    assert_eq!(m.stake_delta(0), -3);
}

#[test]
fn share_price_from_ledger() {
    let mut m = ledger();
    assert_eq!(m.calc_msol_from_lamports(1_000), Ok(1_000));
    assert_eq!(
        m.calc_lamports_from_msol_amount(1_000),
        Err(CommonError::CalculationFailure)
    );
    m.validator_system.total_active_balance = 3_000;
    m.circulating_ticket_balance = 1_000;
    m.msol_supply = 1_000;
    assert_eq!(m.calc_msol_from_lamports(1_000), Ok(500));
    assert_eq!(m.calc_lamports_from_msol_amount(500), Ok(1_000));
    assert_eq!(m.calc_lamports_from_msol_amount(3), Ok(6));
}

#[test]
fn authority_checks() {
    let mut m = ledger();
    assert_eq!(m.check_admin_authority(&key(2)), Ok(()));
    assert_eq!(m.check_admin_authority(&key(3)), Err(ProgramError::InvalidArgument));
    assert_eq!(m.check_operational_sol_account(&key(3)), Ok(()));
    assert_eq!(m.check_operational_sol_account(&key(2)), Err(ProgramError::InvalidArgument));
    assert_eq!(m.check_msol_mint(&key(1)), Ok(()));
    assert_eq!(m.check_msol_mint(&key(9)), Err(ProgramError::InvalidArgument));
}

#[test]
fn token_program_id_matches_token_crate() {
    assert_eq!(token_program_id().to_bytes(), spl_token::ID.to_bytes());
}

#[test]
fn treasury_account_checks() {
    let m = ledger();
    let good = AccountInfo {
        key: key(4),
        owner: token_program_id(),
        data: token_account_data([1; 32]),
    };
    assert_eq!(m.check_treasury_msol_account(&good), Ok(true));
    let wrong_key = AccountInfo { key: key(5), ..good.clone() };
    assert_eq!(m.check_treasury_msol_account(&wrong_key), Err(ProgramError::InvalidArgument));
    let wrong_owner = AccountInfo { owner: key(8), ..good.clone() };
    assert_eq!(m.check_treasury_msol_account(&wrong_owner), Ok(false));
    let wrong_mint = AccountInfo { data: token_account_data([2; 32]), ..good.clone() };
    assert_eq!(m.check_treasury_msol_account(&wrong_mint), Ok(false));
    let short = AccountInfo { data: vec![1; 64], ..good.clone() };
    assert_eq!(m.check_treasury_msol_account(&short), Ok(false));
    let mut uninit_data = token_account_data([1; 32]);
    uninit_data[108] = 0;
    let uninit = AccountInfo { data: uninit_data, ..good.clone() };
    assert_eq!(m.check_treasury_msol_account(&uninit), Ok(false));
}

#[test]
fn common_error_converts() {
    assert_eq!(
        ProgramError::from(CommonError::NumberTooLow),
        ProgramError::Common(CommonError::NumberTooLow)
    );
}
