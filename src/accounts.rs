use vstd::prelude::*;
use crate::pubkey::Pubkey;

verus! {

/// What the guards read of an account: its address, its owning program and its data.
#[derive(Clone, Debug)]
pub struct AccountInfo {
    pub key: Pubkey,
    pub owner: Pubkey,
    pub data: Vec<u8>,
}

/// What the guards read of a token mint.
#[derive(Clone, Copy, Debug)]
pub struct Mint {
    pub mint_authority: Option<Pubkey>,
    pub supply: u64,
    pub freeze_authority: Option<Pubkey>,
}

/// What the guards read of a token account: which mint it holds and who owns it.
#[derive(Clone, Copy, Debug)]
pub struct TokenAccount {
    pub mint: Pubkey,
    pub owner: Pubkey,
}

/// An active delegation of a stake account: the vote account it is
/// delegated to and the delegated amount.
#[derive(Clone, Copy, Debug)]
pub struct Delegation {
    pub voter_pubkey: Pubkey,
    pub stake: u64,
}

/// The states a stake account can be in; only a delegated stake carries a delegation.
#[derive(Clone, Copy, Debug)]
pub enum StakeState {
    Uninitialized,
    Initialized,
    Stake(Delegation),
    RewardsPool,
}

impl StakeState {
    pub open spec fn delegation_of(&self) -> Option<Delegation> {
        match self {
            StakeState::Stake(d) => Some(*d),
            _ => None,
        }
    }

    pub fn delegation(&self) -> (r: Option<Delegation>)
        ensures
            r == self.delegation_of(),
    {
        match self {
            StakeState::Stake(d) => Some(*d),
            _ => None,
        }
    }
}

/// Address of the token program that owns every token account.
pub open spec fn token_program_key() -> Seq<u8> {
    seq![
        6u8, 221, 246, 225, 215, 101, 161, 147, 217, 203, 225, 70, 206, 235, 121, 172, 28, 180,
        133, 237, 95, 91, 55, 145, 58, 140, 245, 133, 126, 255, 0, 169,
    ]
}

pub fn token_program_id() -> (r: Pubkey)
    ensures
        r.key() == token_program_key(),
{
    let bytes: [u8; 32] = [
        6, 221, 246, 225, 215, 101, 161, 147, 217, 203, 225, 70, 206, 235, 121, 172, 28, 180, 133,
        237, 95, 91, 55, 145, 58, 140, 245, 133, 126, 255, 0, 169,
    ];
    assert(bytes@ =~= token_program_key());
    Pubkey { bytes }
}

/// Byte length of a packed token account.
pub const TOKEN_ACCOUNT_LEN: usize = 165;

/// A four-byte little-endian optional tag at `at`: zero for absent, one for present.
pub open spec fn option_tag_ok(data: Seq<u8>, at: int) -> bool {
    (data[at] == 0 || data[at] == 1) && data[at + 1] == 0 && data[at + 2] == 0 && data[at + 3] == 0
}

/// Packed token-account layout: mint (32 bytes), owner (32), amount (8),
/// optional delegate (4 + 32), state (1), optional native amount (4 + 8),
/// delegated amount (8), optional close authority (4 + 32). The data unpacks
/// when its length is exact, every optional tag is valid and the state is
/// initialized or frozen.
pub open spec fn is_token_account_data(data: Seq<u8>) -> bool {
    &&& data.len() == TOKEN_ACCOUNT_LEN
    &&& option_tag_ok(data, 72)
    &&& (data[108] == 1 || data[108] == 2)
    &&& option_tag_ok(data, 109)
    &&& option_tag_ok(data, 129)
}

/// Relies on spl_token's `Account::unpack` (the `Pack` trait of solana_program):
/// it accepts exactly the data described by `is_token_account_data`, and reads
/// the mint from the first 32 bytes and the owner from the next 32.
#[verifier::external_body]
pub(crate) fn unpack_token_account(data: &[u8]) -> (r: Option<TokenAccount>)
    ensures
        r is Some <==> is_token_account_data(data@),
        r matches Some(t) ==> t.mint.key() == data@.subrange(0, 32) && t.owner.key()
            == data@.subrange(32, 64),
{
    match <spl_token::state::Account as solana_program::program_pack::Pack>::unpack(data) {
        Ok(a) => Some(
            TokenAccount { mint: Pubkey { bytes: a.mint.to_bytes() }, owner: Pubkey { bytes: a.owner.to_bytes() } },
        ),
        Err(_) => None,
    }
}

} // verus!
