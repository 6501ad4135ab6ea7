//! Checks of supplied accounts that every transition shares.

use vstd::prelude::*;
use crate::errors::{AccessError, DealError, ErrorCodes};
use crate::keys::Key;
use crate::ledger::{only_if, push_when, Intent, TokenAccount, TokenSlot};

verus! {

/// The request to create the token account `ata` of `mint` for `authority`.
pub fn init_ata(payer: &Key, mint: &Key, authority: &Key, ata: &Key) -> (r: Intent)
    ensures
        r == (Intent::CreateAccount { payer: *payer, mint: *mint, owner: *authority, account: *ata }),
{
    Intent::CreateAccount { payer: *payer, mint: *mint, owner: *authority, account: *ata }
}

/// What `check_ta` answers.
pub open spec fn spec_check_ta(
    token_account: TokenAccount,
    expected_mint: Key,
    expected_owner: Key,
) -> Result<(), ErrorCodes> {
    if token_account.mint != expected_mint {
        Err(ErrorCodes::InvalidMint)
    } else if token_account.owner != expected_owner {
        Err(ErrorCodes::InvalidOwner)
    } else {
        Ok(())
    }
}

/// Checks that a token account holds the expected asset and belongs to the
/// expected owner: `InvalidMint` for another asset, else `InvalidOwner` for
/// another owner.
pub fn check_ta(token_account: &TokenAccount, expected_mint: &Key, expected_owner: &Key) -> (r:
    Result<(), ErrorCodes>)
    ensures
        r == spec_check_ta(*token_account, *expected_mint, *expected_owner),
{
    if !token_account.mint.same(expected_mint) {
        return Err(ErrorCodes::InvalidMint);
    }
    if !token_account.owner.same(expected_owner) {
        return Err(ErrorCodes::InvalidOwner);
    }
    Ok(())
}

impl TokenSlot {
    /// Whether the slot can serve as the account of `mint` that belongs to
    /// `owner`: an initialized account must hold that asset for that owner,
    /// an empty slot serves only where the account need not exist yet.
    pub open spec fn spec_fits(&self, mint: Key, owner: Key, must_exist: bool) -> bool {
        match self.account {
            Some(a) => spec_check_ta(a, mint, owner) is Ok,
            None => !must_exist,
        }
    }

    /// Whether the slot can serve as the account of `mint` that belongs to `owner`.
    pub fn fits(&self, mint: &Key, owner: &Key, must_exist: bool) -> (r: bool)
        ensures
            r == self.spec_fits(*mint, *owner, must_exist),
    {
        match &self.account {
            Some(a) => check_ta(a, mint, owner).is_ok(),
            None => !must_exist,
        }
    }

    /// What `validate` answers.
    pub open spec fn spec_validate(&self, mint: Key, owner: Key, must_exist: bool) -> Result<
        (),
        DealError,
    > {
        match self.account {
            Some(a) => match spec_check_ta(a, mint, owner) {
                Ok(_) => Ok(()),
                Err(e) => Err(DealError::Code(e)),
            },
            None => if must_exist {
                Err(DealError::Access(AccessError::NotInitialized))
            } else {
                Ok(())
            },
        }
    }

    /// Validates a supplied account against the asset and owner that the
    /// deal expects, and says which of the two is wrong.
    pub fn validate(&self, mint: &Key, owner: &Key, must_exist: bool) -> (r: Result<(), DealError>)
        ensures
            r == self.spec_validate(*mint, *owner, must_exist),
    {
        match &self.account {
            Some(a) => match check_ta(a, mint, owner) {
                Ok(_) => Ok(()),
                Err(e) => Err(DealError::Code(e)),
            },
            None => if must_exist {
                Err(DealError::Access(AccessError::NotInitialized))
            } else {
                Ok(())
            },
        }
    }

    /// The creation that an empty slot needs before it can be used.
    pub open spec fn creation(&self, payer: Key, mint: Key, owner: Key) -> Seq<Intent> {
        only_if(
            self.account is None,
            Intent::CreateAccount { payer, mint, owner, account: self.key },
        )
    }

    /// Appends to `plan` the creation of the account where the slot is empty.
    pub fn create_if_absent(&self, payer: &Key, mint: &Key, owner: &Key, plan: &mut Vec<Intent>)
        ensures
            final(plan)@ == old(plan)@ + self.creation(*payer, *mint, *owner),
    {
        push_when(plan, self.account.is_none(), init_ata(payer, mint, owner, &self.key));
    }
}

} // verus!
