use vstd::prelude::*;
use crate::accounts::{
    is_token_account_data, token_program_id, token_program_key, unpack_token_account, AccountInfo,
};
use crate::calc::{shares_from_value, shares_result, value_from_shares, value_result};
use crate::checks::check_address;
use crate::error::{CommonError, ProgramError, ProgramResult, STAKING_CAP_REACHED};
use crate::fee::Fee;
use crate::pubkey::Pubkey;

verus! {

/// Stake accounts managed by the pool, and value deactivating through delayed unstake.
#[derive(Clone, Copy, Debug)]
pub struct StakeSystem {
    pub stake_list: Pubkey,
    pub delayed_unstake_cooling_down: u64,
}

/// Validators the pool delegates to, and value currently delegated and earning rewards.
#[derive(Clone, Copy, Debug)]
pub struct ValidatorSystem {
    pub validator_list: Pubkey,
    pub total_active_balance: u64,
}

/// The pool's ledger record.
#[derive(Clone, Copy, Debug)]
pub struct Marinade {
    pub msol_mint: Pubkey,
    pub admin_authority: Pubkey,
    /// Receives the rent reserve withdrawn by operations.
    pub operational_sol_account: Pubkey,
    /// Token account of the share mint that receives treasury fees.
    pub treasury_msol_account: Pubkey,
    pub reserve_bump_seed: u8,
    pub msol_mint_authority_bump_seed: u8,
    /// Minimum balance kept in the reserve so that it stays rent exempt.
    pub rent_exempt_for_token_acc: u64,
    /// Fee applied on staking rewards.
    pub reward_fee: Fee,
    pub stake_system: StakeSystem,
    pub validator_system: ValidatorSystem,
    /// Reserve balance net of the rent-exempt minimum, as last recorded.
    pub available_reserve_balance: u64,
    /// Share supply as last recorded through mint and burn notifications.
    pub msol_supply: u64,
    /// Informational share price; never used for amount calculations.
    pub msol_price: u64,
    /// Number of delayed-unstake tickets not yet claimed.
    pub circulating_ticket_count: u64,
    /// Total value owed on delayed-unstake tickets not yet claimed.
    pub circulating_ticket_balance: u64,
    pub lent_from_reserve: u64,
    pub min_deposit: u64,
    pub min_withdraw: u64,
    pub staking_sol_cap: u64,
    /// Value deactivating through emergency unstake.
    pub emergency_cooling_down: u64,
}

/// Denominator of the informational share price.
pub const PRICE_DENOMINATOR: u64 = 0x1_0000_0000;

impl Marinade {
    /// Value deactivating through either unstake path.
    pub open spec fn cooling_down(&self) -> int {
        self.stake_system.delayed_unstake_cooling_down + self.emergency_cooling_down
    }

    /// Active stake, value cooling down, and the available reserve.
    pub open spec fn lamports_under_control(&self) -> int {
        self.validator_system.total_active_balance + self.cooling_down()
            + self.available_reserve_balance
    }

    /// The value under control fits in 64 bits; reading it cannot overflow.
    pub open spec fn totals_fit(&self) -> bool {
        self.lamports_under_control() <= u64::MAX
    }

    /// Value backing the shares: what is under control beyond what tickets
    /// are owed, never below zero.
    pub open spec fn virtual_staked(&self) -> int {
        let d = self.lamports_under_control() - self.circulating_ticket_balance;
        if d > 0 {
            d
        } else {
            0
        }
    }

    /// Value that may be newly delegated (positive) or must be recovered from
    /// delegation (negative), for a reserve that holds `reserve_balance`.
    /// Value in emergency cooldown only ever reduces a need to unstake.
    pub open spec fn stake_delta_of(&self, reserve_balance: u64) -> int {
        let raw = reserve_balance - self.rent_exempt_for_token_acc
            + self.stake_system.delayed_unstake_cooling_down
            - self.circulating_ticket_balance;
        if raw >= 0 {
            raw
        } else if raw + self.emergency_cooling_down < 0 {
            raw + self.emergency_cooling_down
        } else {
            0
        }
    }

    /// Outcome of the staking-cap check for an incoming `transfering_lamports`.
    pub open spec fn staking_cap_outcome(&self, transfering_lamports: u64) -> ProgramResult {
        if self.lamports_under_control() + transfering_lamports > self.staking_sol_cap {
            Err(ProgramError::Custom(STAKING_CAP_REACHED))
        } else {
            Ok(())
        }
    }

    /// Outcome of the treasury check: a wrong address is an error; an account
    /// that is not a token account of the share mint is reported as `false`.
    pub open spec fn treasury_outcome(&self, account: AccountInfo) -> Result<bool, ProgramError> {
        if account.key.key() != self.treasury_msol_account.key() {
            Err(ProgramError::InvalidArgument)
        } else if account.owner.key() != token_program_key() {
            Ok(false)
        } else if !is_token_account_data(account.data@) {
            Ok(false)
        } else {
            Ok(account.data@.subrange(0, 32) == self.msol_mint.key())
        }
    }

    pub fn check_admin_authority(&self, admin_authority: &Pubkey) -> (r: ProgramResult)
        ensures
            r is Ok <==> admin_authority.key() == self.admin_authority.key(),
            r is Err ==> r == Err::<(), ProgramError>(ProgramError::InvalidArgument),
    {
        check_address(admin_authority, &self.admin_authority)
    }

    pub fn check_operational_sol_account(&self, operational_sol_account: &Pubkey) -> (r:
        ProgramResult)
        ensures
            r is Ok <==> operational_sol_account.key() == self.operational_sol_account.key(),
            r is Err ==> r == Err::<(), ProgramError>(ProgramError::InvalidArgument),
    {
        check_address(operational_sol_account, &self.operational_sol_account)
    }

    /// Checks the account offered as treasury fee destination. Only a wrong
    /// address fails; an account the pool cannot pay fees into yields
    /// `Ok(false)` so that the caller may skip the fee transfer.
    pub fn check_treasury_msol_account(&self, treasury_msol_account: &AccountInfo) -> (r: Result<
        bool,
        ProgramError,
    >)
        ensures
            r == self.treasury_outcome(*treasury_msol_account),
    {
        check_address(&treasury_msol_account.key, &self.treasury_msol_account)?;
        let token_program = token_program_id();
        if !treasury_msol_account.owner.same_as(&token_program) {
            return Ok(false);
        }
        match unpack_token_account(treasury_msol_account.data.as_slice()) {
            Some(token_account) => Ok(token_account.mint.same_as(&self.msol_mint)),
            None => Ok(false),
        }
    }

    pub fn check_msol_mint(&mut self, msol_mint: &Pubkey) -> (r: ProgramResult)
        ensures
            *final(self) == *old(self),
            r is Ok <==> msol_mint.key() == old(self).msol_mint.key(),
            r is Err ==> r == Err::<(), ProgramError>(ProgramError::InvalidArgument),
    {
        check_address(msol_mint, &self.msol_mint)
    }

    pub fn total_cooling_down(&self) -> (r: u64)
        requires
            self.cooling_down() <= u64::MAX,
        ensures
            r == self.cooling_down(),
    {
        self.stake_system.delayed_unstake_cooling_down + self.emergency_cooling_down
    }

    /// Total active balance, plus value cooling down, plus the available reserve,
    /// computed afresh from the four counters.
    pub fn total_lamports_under_control(&self) -> (r: u64)
        requires
            self.totals_fit(),
        ensures
            r == self.validator_system.total_active_balance
                + self.stake_system.delayed_unstake_cooling_down + self.emergency_cooling_down
                + self.available_reserve_balance,
    {
        self.validator_system.total_active_balance + self.total_cooling_down()
            + self.available_reserve_balance
    }

    /// Fails with the staking-cap error when the value under control plus
    /// `transfering_lamports` would exceed the cap; a sum past the 64-bit
    /// range exceeds any cap.
    pub fn check_staking_cap(&self, transfering_lamports: u64) -> (r: ProgramResult)
        requires
            self.totals_fit(),
        ensures
            r == self.staking_cap_outcome(transfering_lamports),
    {
        let total = self.total_lamports_under_control();
        let result_amount = match total.checked_add(transfering_lamports) {
            Some(v) => v,
            None => {
                return Err(ProgramError::Custom(STAKING_CAP_REACHED));
            },
        };
        if result_amount > self.staking_sol_cap {
            return Err(ProgramError::Custom(STAKING_CAP_REACHED));
        }
        Ok(())
    }

    pub fn total_virtual_staked_lamports(&self) -> (r: u64)
        requires
            self.totals_fit(),
        ensures
            r == self.virtual_staked(),
    {
        self.total_lamports_under_control().saturating_sub(self.circulating_ticket_balance)
    }

    /// Shares owed for a deposit of `stake_lamports` at the current price.
    pub fn calc_msol_from_lamports(&self, stake_lamports: u64) -> (r: Result<u64, CommonError>)
        requires
            self.totals_fit(),
        ensures
            r == shares_result(stake_lamports, self.virtual_staked() as u64, self.msol_supply),
    {
        shares_from_value(stake_lamports, self.total_virtual_staked_lamports(), self.msol_supply)
    }

    /// Value owed for `msol_amount` shares at the current price.
    pub fn calc_lamports_from_msol_amount(&self, msol_amount: u64) -> (r: Result<u64, CommonError>)
        requires
            self.totals_fit(),
        ensures
            r == value_result(msol_amount, self.virtual_staked() as u64, self.msol_supply),
    {
        value_from_shares(msol_amount, self.total_virtual_staked_lamports(), self.msol_supply)
    }

    /// Value eligible to be delegated (positive) or to be recovered from
    /// delegation (negative), given the reserve's real balance.
    pub fn stake_delta(&self, reserve_balance: u64) -> (r: i128)
        ensures
            r == self.stake_delta_of(reserve_balance),
    {
        let raw: i128 = reserve_balance as i128 - self.rent_exempt_for_token_acc as i128
            + self.stake_system.delayed_unstake_cooling_down as i128
            - self.circulating_ticket_balance as i128;
        if raw >= 0 {
            raw
        } else {
            let with_emergency: i128 = raw + self.emergency_cooling_down as i128;
            if with_emergency < 0 {
                with_emergency
            } else {
                0
            }
        }
    }

    pub fn on_transfer_to_reserve(&mut self, amount: u64)
        requires
            old(self).available_reserve_balance + amount <= u64::MAX,
        ensures
            *final(self) == (Marinade {
                available_reserve_balance: (old(self).available_reserve_balance + amount) as u64,
                ..*old(self)
            }),
            final(self).lamports_under_control() == old(self).lamports_under_control() + amount,
    {
        self.available_reserve_balance = self.available_reserve_balance + amount;
    }

    /// Fails with `CalculationFailure`, leaving the record unchanged, when the
    /// reserve holds less than `amount`.
    pub fn on_transfer_from_reserve(&mut self, amount: u64) -> (r: ProgramResult)
        ensures
            r is Ok <==> amount <= old(self).available_reserve_balance,
            r is Err ==> r == Err::<(), ProgramError>(
                ProgramError::Common(CommonError::CalculationFailure),
            ) && *final(self) == *old(self),
            r is Ok ==> *final(self) == (Marinade {
                available_reserve_balance: (old(self).available_reserve_balance - amount) as u64,
                ..*old(self)
            }) && final(self).lamports_under_control() == old(self).lamports_under_control()
                - amount,
    {
        match self.available_reserve_balance.checked_sub(amount) {
            Some(v) => {
                self.available_reserve_balance = v;
                Ok(())
            },
            None => Err(ProgramError::Common(CommonError::CalculationFailure)),
        }
    }

    pub fn on_msol_mint(&mut self, amount: u64)
        requires
            old(self).msol_supply + amount <= u64::MAX,
        ensures
            *final(self) == (Marinade {
                msol_supply: (old(self).msol_supply + amount) as u64,
                ..*old(self)
            }),
    {
        self.msol_supply = self.msol_supply + amount;
    }

    /// Fails with `CalculationFailure`, leaving the record unchanged, when the
    /// recorded supply is below `amount`.
    pub fn on_msol_burn(&mut self, amount: u64) -> (r: ProgramResult)
        ensures
            r is Ok <==> amount <= old(self).msol_supply,
            r is Err ==> r == Err::<(), ProgramError>(
                ProgramError::Common(CommonError::CalculationFailure),
            ) && *final(self) == *old(self),
            r is Ok ==> *final(self) == (Marinade {
                msol_supply: (old(self).msol_supply - amount) as u64,
                ..*old(self)
            }),
    {
        match self.msol_supply.checked_sub(amount) {
            Some(v) => {
                self.msol_supply = v;
                Ok(())
            },
            None => Err(ProgramError::Common(CommonError::CalculationFailure)),
        }
    }
}

/// Reading the value backing the shares twice, with no change to the record
/// in between, gives the same amount both times.
pub proof fn lemma_virtual_staked_repeatable(marinade: Marinade, first: u64, second: u64)
    requires
        marinade.totals_fit(),
        first == marinade.virtual_staked(),
        second == marinade.virtual_staked(),
    ensures
        first == second,
{
}

} // verus!
