use vstd::prelude::*;
use crate::accounts::{AccountInfo, Mint, StakeState, TokenAccount};
use crate::error::{CommonError, ProgramError, ProgramResult};
use crate::pubkey::Pubkey;

verus! {

/// Fails with `NumberTooLow` when `amount` is below `min_amount`.
pub fn check_min_amount(amount: u64, min_amount: u64) -> (r: ProgramResult)
    ensures
        r == (if amount >= min_amount {
            Ok(())
        } else {
            Err(ProgramError::Common(CommonError::NumberTooLow))
        }),
{
    if amount >= min_amount {
        Ok(())
    } else {
        Err(ProgramError::Common(CommonError::NumberTooLow))
    }
}

/// Fails with `InvalidArgument` when the two addresses differ.
pub fn check_address(actual_address: &Pubkey, reference_address: &Pubkey) -> (r: ProgramResult)
    ensures
        r == (if actual_address.key() == reference_address.key() {
            Ok(())
        } else {
            Err(ProgramError::InvalidArgument)
        }),
{
    if actual_address.same_as(reference_address) {
        Ok(())
    } else {
        Err(ProgramError::InvalidArgument)
    }
}

/// Fails with `InvalidArgument` when the account is not owned by `owner`.
pub fn check_owner_program(account: &AccountInfo, owner: &Pubkey) -> (r: ProgramResult)
    ensures
        r == (if account.owner.key() == owner.key() {
            Ok(())
        } else {
            Err(ProgramError::InvalidArgument)
        }),
{
    if account.owner.same_as(owner) {
        Ok(())
    } else {
        Err(ProgramError::InvalidArgument)
    }
}

/// Fails with `InvalidAccountData` unless the mint's authority is present and is `mint_authority`.
pub fn check_mint_authority(mint: &Mint, mint_authority: Pubkey) -> (r: ProgramResult)
    ensures
        r == (if mint.mint_authority matches Some(a) && a.key() == mint_authority.key() {
            Ok(())
        } else {
            Err(ProgramError::InvalidAccountData)
        }),
{
    match &mint.mint_authority {
        Some(a) => {
            if a.same_as(&mint_authority) {
                Ok(())
            } else {
                Err(ProgramError::InvalidAccountData)
            }
        },
        None => Err(ProgramError::InvalidAccountData),
    }
}

/// Fails with `InvalidAccountData` when the mint has a freeze authority.
pub fn check_freeze_authority(mint: &Mint) -> (r: ProgramResult)
    ensures
        r == (if mint.freeze_authority is None {
            Ok(())
        } else {
            Err(ProgramError::InvalidAccountData)
        }),
{
    if mint.freeze_authority.is_none() {
        Ok(())
    } else {
        Err(ProgramError::InvalidAccountData)
    }
}

/// Fails with `InvalidAccountData` when the mint has a non-zero supply.
pub fn check_mint_empty(mint: &Mint) -> (r: ProgramResult)
    ensures
        r == (if mint.supply == 0 {
            Ok(())
        } else {
            Err(ProgramError::InvalidAccountData)
        }),
{
    if mint.supply == 0 {
        Ok(())
    } else {
        Err(ProgramError::InvalidAccountData)
    }
}

/// Fails with `InvalidAccountData` when the token account holds another mint.
pub fn check_token_mint(token: &TokenAccount, mint: Pubkey) -> (r: ProgramResult)
    ensures
        r == (if token.mint.key() == mint.key() {
            Ok(())
        } else {
            Err(ProgramError::InvalidAccountData)
        }),
{
    if token.mint.same_as(&mint) {
        Ok(())
    } else {
        Err(ProgramError::InvalidAccountData)
    }
}

/// Fails with `InvalidAccountData` when the token account has another owner.
pub fn check_token_owner(token: &TokenAccount, owner: &Pubkey) -> (r: ProgramResult)
    ensures
        r == (if token.owner.key() == owner.key() {
            Ok(())
        } else {
            Err(ProgramError::InvalidAccountData)
        }),
{
    if token.owner.same_as(owner) {
        Ok(())
    } else {
        Err(ProgramError::InvalidAccountData)
    }
}

/// The outcome of checking a stake account against the validator it should be
/// delegated to and the amount last recorded for it.
pub open spec fn stake_check_outcome(
    stake_state: StakeState,
    expected_stake_amount: u64,
    validator_vote: Pubkey,
) -> ProgramResult {
    match stake_state.delegation_of() {
        None => Err(ProgramError::Common(CommonError::StakeNotDelegated)),
        Some(d) => if d.voter_pubkey.key() != validator_vote.key() {
            Err(ProgramError::InvalidInstructionData)
        } else if d.stake != expected_stake_amount {
            Err(ProgramError::Common(CommonError::StakeAccountNotUpdatedYet))
        } else {
            Ok(())
        },
    }
}

/// Checks that the stake account is delegated, to the expected validator, and
/// that its delegated amount is the one last recorded.
pub fn check_stake_amount_and_validator(
    stake_state: &StakeState,
    expected_stake_amount: u64,
    validator_vote_pubkey: &Pubkey,
) -> (r: ProgramResult)
    ensures
        r == stake_check_outcome(*stake_state, expected_stake_amount, *validator_vote_pubkey),
{
    let currently_staked = match stake_state.delegation() {
        Some(delegation) => {
            if !delegation.voter_pubkey.same_as(validator_vote_pubkey) {
                return Err(ProgramError::InvalidInstructionData);
            }
            delegation.stake
        },
        None => {
            return Err(ProgramError::Common(CommonError::StakeNotDelegated));
        },
    };
    if currently_staked != expected_stake_amount {
        return Err(ProgramError::Common(CommonError::StakeAccountNotUpdatedYet));
    }
    Ok(())
}

} // verus!
