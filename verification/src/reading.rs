//! Reading accounts as the ledger stores them.
//!
//! The token program keeps a token account and the description of an asset
//! as packed bytes in accounts that it owns. This module has them unpacked
//! by the token program's own code and hands the transitions what they read.

use vstd::prelude::*;
use anchor_lang::prelude::{Account, AccountInfo, Pubkey};
use anchor_spl::token::{Mint, TokenAccount as PackedTokenAccount};
use crate::keys::Key;
use crate::ledger::{MintSlot, TokenAccount, TokenSlot};

verus! {

/// An account as the ledger stores it.
#[derive(Debug, PartialEq, Eq)]
pub struct RawAccount {
    pub key: Key,
    /// The program that owns the account.
    pub owner: Key,
    pub lamports: u64,
    pub data: Vec<u8>,
}

/// The token account that an account holds, as asset, owner and amount; or
/// nothing where the account holds none.
pub uninterp spec fn token_account_in(key: Seq<u8>, owner: Seq<u8>, lamports: u64, data: Seq<u8>) -> Option<(Seq<u8>, Seq<u8>, u64)>;

/// Whether an account holds the description of an asset.
pub uninterp spec fn mint_in(key: Seq<u8>, owner: Seq<u8>, lamports: u64, data: Seq<u8>) -> bool;

/// Whether `account` is what the account `raw` holds.
pub open spec fn holds(raw: RawAccount, account: Option<TokenAccount>) -> bool {
    match account {
        Some(t) => token_account_in(raw.key@, raw.owner@, raw.lamports, raw.data@) == Some(
            (t.mint@, t.owner@, t.amount),
        ),
        None => token_account_in(raw.key@, raw.owner@, raw.lamports, raw.data@) is None,
    }
}

/// Calls `Account::<TokenAccount>::try_from` of the account framework on an
/// account made of the given parts, and hands out asset, owner and amount
/// of what it unpacked. The contract claims only that the answer depends on
/// nothing but the four arguments.
#[verifier::external_body]
fn unpack_token_account(key: &[u8; 32], owner: &[u8; 32], lamports: u64, data: &Vec<u8>) -> (r:
    Option<TokenAccount>)
    ensures
        match r {
            Some(t) => token_account_in(key@, owner@, lamports, data@) == Some(
                (t.mint@, t.owner@, t.amount),
            ),
            None => token_account_in(key@, owner@, lamports, data@) is None,
        },
{
    let key = Pubkey::new_from_array(*key);
    let owner = Pubkey::new_from_array(*owner);
    let mut lamports = lamports;
    let mut data = data.clone();
    let info = AccountInfo::new(&key, false, false, &mut lamports, &mut data, &owner, false, 0);
    Account::<PackedTokenAccount>::try_from(&info).ok().map(
        |a| TokenAccount {
            mint: Key::new(a.mint.to_bytes()),
            owner: Key::new(a.owner.to_bytes()),
            amount: a.amount,
        },
    )
}

/// Calls `Account::<Mint>::try_from` of the account framework on an account
/// made of the given parts, and says whether it unpacked the description
/// of an asset. The contract claims only that the answer depends on nothing
/// but the four arguments.
#[verifier::external_body]
fn unpack_mint(key: &[u8; 32], owner: &[u8; 32], lamports: u64, data: &Vec<u8>) -> (r: bool)
    ensures
        r == mint_in(key@, owner@, lamports, data@),
{
    let key = Pubkey::new_from_array(*key);
    let owner = Pubkey::new_from_array(*owner);
    let mut lamports = lamports;
    let mut data = data.clone();
    let info = AccountInfo::new(&key, false, false, &mut lamports, &mut data, &owner, false, 0);
    Account::<Mint>::try_from(&info).is_ok()
}

impl TokenSlot {
    /// What a transition is shown of the account `raw`: its address, its
    /// base deposit and the token account that it holds, if any.
    pub fn read(raw: &RawAccount) -> (slot: TokenSlot)
        ensures
            slot.key == raw.key,
            slot.lamports == raw.lamports,
            holds(*raw, slot.account),
    {
        TokenSlot {
            key: raw.key,
            account: unpack_token_account(&raw.key.bytes, &raw.owner.bytes, raw.lamports, &raw.data),
            lamports: raw.lamports,
        }
    }
}

impl MintSlot {
    /// What a transition is shown of the account `raw`: its address and
    /// whether it holds the description of an asset.
    pub fn read(raw: &RawAccount) -> (slot: MintSlot)
        ensures
            slot.key == raw.key,
            slot.initialized == mint_in(raw.key@, raw.owner@, raw.lamports, raw.data@),
    {
        MintSlot {
            key: raw.key,
            initialized: unpack_mint(&raw.key.bytes, &raw.owner.bytes, raw.lamports, &raw.data),
        }
    }
}

} // verus!
