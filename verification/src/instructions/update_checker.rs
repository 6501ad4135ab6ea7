//! Checker update: the assignment of an arbitrator and its fee.

use vstd::prelude::*;
use crate::constants::Config;
use crate::errors::{AccessError, DealError, ErrorCodes};
use crate::keys::Key;
use crate::state::{Checker, DealState};

verus! {

/// A party named in a request, and whether it has signed the request.
#[derive(Clone, Copy, Debug, PartialEq, Eq)]
pub struct Party {
    pub key: Key,
    pub is_signer: bool,
}

/// The accounts that a request to assign a checker supplies.
#[derive(Clone, Copy, Debug, PartialEq, Eq)]
pub struct UpdateChecker {
    /// Who asks.
    pub initializer: Key,
    pub client: Party,
    pub executor: Party,
    pub new_checker: Key,
}

impl UpdateChecker {
    /// What is wrong with the parties that the request names.
    pub open spec fn accounts_error(&self, deal: DealState) -> Option<DealError> {
        if self.client.key != deal.client_key {
            Some(DealError::Access(AccessError::ClientMismatch))
        } else if self.executor.key != deal.executor_key {
            Some(DealError::Access(AccessError::ExecutorMismatch))
        } else {
            None
        }
    }

    /// Checks that the request names the parties of the deal.
    pub fn check_accounts(&self, deal: &DealState) -> (r: Result<(), DealError>)
        ensures
            match self.accounts_error(*deal) {
                Some(e) => r == Err::<(), DealError>(e),
                None => r is Ok,
            },
    {
        if !self.client.key.same(&deal.client_key) {
            return Err(DealError::Access(AccessError::ClientMismatch));
        }
        if !self.executor.key.same(&deal.executor_key) {
            return Err(DealError::Access(AccessError::ExecutorMismatch));
        }
        Ok(())
    }
}

/// Why a checker cannot be assigned: the request names other parties; or,
/// unless the service identity asks, client and executor have not both
/// signed, or the deal has a checker already; or principal and fee together
/// are more than an account can hold.
pub open spec fn update_checker_error(
    config: Config,
    deal: DealState,
    ctx: UpdateChecker,
    new_checker_fee: u64,
) -> Option<DealError> {
    let privileged = ctx.initializer == config.service_account_address;
    if ctx.accounts_error(deal) is Some {
        ctx.accounts_error(deal)
    } else if !privileged && !(ctx.client.is_signer && ctx.executor.is_signer) {
        Some(DealError::Access(AccessError::NotSigner))
    } else if !privileged && deal.checker is Some {
        Some(DealError::Code(ErrorCodes::DealStateWithChecker))
    } else if deal.amount + new_checker_fee > u64::MAX {
        Some(DealError::Code(ErrorCodes::AmountOverflow))
    } else {
        None
    }
}

/// The record after the checker was assigned.
pub open spec fn with_new_checker(deal: DealState, ctx: UpdateChecker, new_checker_fee: u64) -> DealState {
    DealState {
        checker: Some(Checker { checker_fee: new_checker_fee, checker_key: ctx.new_checker }),
        ..deal
    }
}

/// Assigns the checker and its fee. On success the record names the new
/// checker and stays well formed; on refusal it is left as it was.
pub fn handle(
    config: &Config,
    record: &mut Option<DealState>,
    ctx: &UpdateChecker,
    new_checker_fee: u64,
) -> (r: Result<(), DealError>)
    ensures
        match *old(record) {
            None => r == Err::<(), DealError>(DealError::Access(AccessError::RecordNotFound))
                && *final(record) == *old(record),
            Some(deal) => match update_checker_error(*config, deal, *ctx, new_checker_fee) {
                Some(e) => r == Err::<(), DealError>(e) && *final(record) == *old(record),
                None => r is Ok && *final(record) == Some(
                    with_new_checker(deal, *ctx, new_checker_fee),
                ) && (deal.wf() ==> final(record)->Some_0.wf()),
            },
        },
{
    let mut deal = match record {
        None => {
            return Err(DealError::Access(AccessError::RecordNotFound));
        },
        Some(deal) => *deal,
    };
    ctx.check_accounts(&deal)?;
    if !ctx.initializer.same(&config.service_account_address) {
        if !ctx.client.is_signer || !ctx.executor.is_signer {
            return Err(DealError::Access(AccessError::NotSigner));
        }
        if deal.checker.is_some() {
            return Err(DealError::Code(ErrorCodes::DealStateWithChecker));
        }
    }
    if new_checker_fee > u64::MAX - deal.amount {
        return Err(DealError::Code(ErrorCodes::AmountOverflow));
    }
    deal.checker = Some(Checker { checker_fee: new_checker_fee, checker_key: ctx.new_checker });
    *record = Some(deal);
    Ok(())
}

} // verus!
