//! Cancel: the terminal transition of a deal that was abandoned.

use vstd::prelude::*;
use crate::constants::Config;
use crate::errors::{AccessError, DealError, ErrorCodes, InvalidAccount};
use crate::instructions::{
    bond_accounts_error, bond_closes, bond_creation, bond_return, check_bond_accounts,
    create_bond_target,
    client_bond_refusals, close_bond_custody, close_principal_custody, executor_bond_refusals,
    principal_close, return_bond, stored_after, BondRefusals, Initializer,
};
use crate::keys::Key;
use crate::ledger::{transfer, Intent, TokenSlot};
use crate::state::DealState;

verus! {

/// The accounts that a request to cancel a deal supplies.
#[derive(Clone, Copy, Debug, PartialEq, Eq)]
pub struct Cancel {
    /// Who asks.
    pub initializer: Key,
    pub checker: Key,
    /// Who pays for accounts that have to be created.
    pub payer: Key,
    /// The address of the deal record, the authority over its custody accounts.
    pub deal_state: Key,
    pub deal_state_deal_ta: TokenSlot,
    pub client_deal_ta: TokenSlot,
    pub client_bond_ta: TokenSlot,
    pub executor_bond_ta: TokenSlot,
    pub deal_state_client_bond_ta: TokenSlot,
    pub deal_state_executor_bond_ta: TokenSlot,
    pub client_bond_mint: Key,
    pub executor_bond_mint: Key,
}

impl Cancel {
    /// The first thing that is wrong with the supplied accounts, in the
    /// order: principal custody, client's account, checker, client's bond,
    /// executor's bond.
    pub open spec fn accounts_error(&self, deal: DealState) -> Option<DealError> {
        let custody = self.deal_state_deal_ta.spec_validate(
            deal.deal_token_mint,
            self.deal_state,
            true,
        );
        let client = self.client_deal_ta.spec_validate(deal.deal_token_mint, deal.client_key, false);
        let client_bond = bond_accounts_error(
            deal.client_bond,
            self.client_bond_mint,
            self.deal_state_client_bond_ta,
            self.client_bond_ta,
            self.deal_state,
            deal.client_key,
            client_bond_refusals(),
        );
        if custody is Err {
            Some(custody->Err_0)
        } else if client is Err {
            Some(client->Err_0)
        } else if deal.checker is Some && self.checker != deal.checker->Some_0.checker_key {
            Some(DealError::Account(InvalidAccount::Checker))
        } else if client_bond is Some {
            client_bond
        } else {
            bond_accounts_error(
                deal.executor_bond,
                self.executor_bond_mint,
                self.deal_state_executor_bond_ta,
                self.executor_bond_ta,
                self.deal_state,
                deal.executor_key,
                executor_bond_refusals(),
            )
        }
    }

    /// The accounts that are created because they are missing: those that
    /// receive the refund and the bonds.
    pub open spec fn creations(&self, deal: DealState) -> Seq<Intent> {
        self.client_deal_ta.creation(self.payer, deal.deal_token_mint, deal.client_key)
            + bond_creation(deal.client_bond, self.client_bond_ta, self.payer, deal.client_key)
            + bond_creation(deal.executor_bond, self.executor_bond_ta, self.payer, deal.executor_key)
    }

    /// Checks the supplied accounts against the deal.
    fn find_accounts_error(&self, deal: &DealState) -> (r: Result<(), DealError>)
        ensures
            match self.accounts_error(*deal) {
                Some(e) => r == Err::<(), DealError>(e),
                None => r is Ok,
            },
    {
        self.deal_state_deal_ta.validate(&deal.deal_token_mint, &self.deal_state, true)?;
        self.client_deal_ta.validate(&deal.deal_token_mint, &deal.client_key, false)?;
        match &deal.checker {
            None => {},
            Some(c) => {
                if !self.checker.same(&c.checker_key) {
                    return Err(DealError::Account(InvalidAccount::Checker));
                }
            },
        }
        check_bond_accounts(
            &deal.client_bond,
            &self.client_bond_mint,
            &self.deal_state_client_bond_ta,
            &self.client_bond_ta,
            &self.deal_state,
            &deal.client_key,
            BondRefusals::client(),
        )?;
        check_bond_accounts(
            &deal.executor_bond,
            &self.executor_bond_mint,
            &self.deal_state_executor_bond_ta,
            &self.executor_bond_ta,
            &self.deal_state,
            &deal.executor_key,
            BondRefusals::executor(),
        )
    }

    /// Checks the supplied accounts against the deal and plans the creation
    /// of those that are missing and may be. A refusal leaves the plan as it was.
    pub fn check_accounts(&self, deal: &DealState, plan: &mut Vec<Intent>) -> (r: Result<
        (),
        DealError,
    >)
        ensures
            match self.accounts_error(*deal) {
                Some(e) => r == Err::<(), DealError>(e) && final(plan)@ == old(plan)@,
                None => r is Ok && final(plan)@ == old(plan)@ + self.creations(*deal),
            },
    {
        self.find_accounts_error(deal)?;
        self.client_deal_ta.create_if_absent(
            &self.payer,
            &deal.deal_token_mint,
            &deal.client_key,
            plan,
        );
        create_bond_target(
            &deal.client_bond,
            &self.client_bond_ta,
            &self.payer,
            &deal.client_key,
            plan,
        );
        create_bond_target(
            &deal.executor_bond,
            &self.executor_bond_ta,
            &self.payer,
            &deal.executor_key,
            plan,
        );
        assert(plan@ =~= old(plan)@ + self.creations(*deal));
        Ok(())
    }

    /// Refuses to cancel before a deadline that the deal has.
    pub fn check_deadline(&self, deal: &DealState, now: i64) -> (r: Result<(), ErrorCodes>)
        ensures
            deal.spec_before_deadline(now) ==> r == Err::<(), ErrorCodes>(
                ErrorCodes::DeadlineNotExpired,
            ),
            !deal.spec_before_deadline(now) ==> r is Ok,
    {
        if deal.before_deadline(now) {
            return Err(ErrorCodes::DeadlineNotExpired);
        }
        Ok(())
    }

    /// The refund of the principal and of the checker's fee to the client.
    pub open spec fn refund(&self, deal: DealState) -> Seq<Intent>
        recommends
            deal.amount + deal.checker_fee() <= u64::MAX,
    {
        seq![
            transfer(
                self.deal_state_deal_ta.key,
                self.client_deal_ta.key,
                self.deal_state,
                (deal.amount + deal.checker_fee()) as u64,
            ),
        ]
    }

    /// Plans the refund of the principal and of the checker's fee, which
    /// was never earned, to the client; `AmountOverflow` where the two
    /// together are more than an account can hold.
    pub fn transfer_deposit(&self, deal: &DealState, plan: &mut Vec<Intent>) -> (r: Result<
        (),
        ErrorCodes,
    >)
        ensures
            deal.amount + deal.checker_fee() > u64::MAX ==> r == Err::<(), ErrorCodes>(
                ErrorCodes::AmountOverflow,
            ) && final(plan)@ == old(plan)@,
            deal.amount + deal.checker_fee() <= u64::MAX ==> r is Ok && final(plan)@ == old(plan)@
                + self.refund(*deal),
    {
        let fee: u64 = match &deal.checker {
            Some(c) => c.checker_fee,
            None => 0,
        };
        match deal.amount.checked_add(fee) {
            None => Err(ErrorCodes::AmountOverflow),
            Some(amount) => {
                plan.push(
                    Intent::Transfer {
                        from: self.deal_state_deal_ta.key,
                        to: self.client_deal_ta.key,
                        authority: self.deal_state,
                        amount,
                    },
                );
                assert(plan@ =~= old(plan)@ + self.refund(*deal));
                Ok(())
            },
        }
    }

    /// The return of both bonds to their owners and the closing of their
    /// custody accounts in favour of the client.
    pub open spec fn bonds(&self, deal: DealState) -> Seq<Intent> {
        bond_return(
            deal.client_bond,
            self.deal_state_client_bond_ta.key,
            self.client_bond_ta.key,
            self.deal_state,
        ) + bond_return(
            deal.executor_bond,
            self.deal_state_executor_bond_ta.key,
            self.executor_bond_ta.key,
            self.deal_state,
        ) + bond_closes(
            deal,
            self.deal_state_client_bond_ta.key,
            self.deal_state_executor_bond_ta.key,
            deal.client_key,
            self.deal_state,
        )
    }

    /// Plans the return of the bonds and the closing of their custody accounts.
    pub fn transfer_bonds(&self, deal: &DealState, plan: &mut Vec<Intent>)
        ensures
            final(plan)@ == old(plan)@ + self.bonds(*deal),
    {
        return_bond(
            &deal.client_bond,
            &self.deal_state_client_bond_ta.key,
            &self.client_bond_ta.key,
            &self.deal_state,
            plan,
        );
        return_bond(
            &deal.executor_bond,
            &self.deal_state_executor_bond_ta.key,
            &self.executor_bond_ta.key,
            &self.deal_state,
            plan,
        );
        close_bond_custody(
            deal,
            &self.deal_state_client_bond_ta.key,
            &self.deal_state_executor_bond_ta.key,
            &deal.client_key,
            &self.deal_state,
            plan,
        );
        assert(plan@ =~= old(plan)@ + self.bonds(*deal));
    }

    /// Plans the closing of the principal custody account in favour of the
    /// service fee recipient.
    pub fn close_deal_state_ta(&self, config: &Config, deal: &DealState, plan: &mut Vec<Intent>)
        ensures
            final(plan)@ == old(plan)@ + principal_close(
                *deal,
                self.deal_state_deal_ta,
                self.deal_state_client_bond_ta.key,
                self.deal_state_executor_bond_ta.key,
                config.service_fee_owner,
                self.deal_state,
            ),
    {
        close_principal_custody(
            deal,
            &self.deal_state_deal_ta,
            &self.deal_state_client_bond_ta.key,
            &self.deal_state_executor_bond_ta.key,
            &config.service_fee_owner,
            &self.deal_state,
            plan,
        );
    }
}

/// Why a deal cannot be cancelled on this request at this time: an account
/// does not fit; or the one who asks plays no part in the deal; or the
/// deadline has not come; or the refund is more than an account can hold.
pub open spec fn cancel_error(config: Config, deal: DealState, ctx: Cancel, now: i64) -> Option<
    DealError,
> {
    if ctx.accounts_error(deal) is Some {
        ctx.accounts_error(deal)
    } else if Initializer::spec_try_from(config, deal, ctx.initializer) is None {
        Some(DealError::Account(InvalidAccount::Initializer))
    } else if deal.spec_before_deadline(now) {
        Some(DealError::Code(ErrorCodes::DeadlineNotExpired))
    } else if deal.amount + deal.checker_fee() > u64::MAX {
        Some(DealError::Code(ErrorCodes::AmountOverflow))
    } else {
        None
    }
}

/// The movements of a cancellation, in order: missing accounts are
/// created, principal and checker's fee go back to the client, the bonds go
/// back and their custody is closed, the principal custody is closed, the
/// record is destroyed in favour of the one who asked.
pub open spec fn cancel_plan(config: Config, deal: DealState, ctx: Cancel) -> Seq<Intent> {
    ctx.creations(deal) + ctx.refund(deal) + ctx.bonds(deal) + principal_close(
        deal,
        ctx.deal_state_deal_ta,
        ctx.deal_state_client_bond_ta.key,
        ctx.deal_state_executor_bond_ta.key,
        config.service_fee_owner,
        ctx.deal_state,
    ) + seq![Intent::CloseRecord { record: ctx.deal_state, destination: ctx.initializer }]
}

/// What a request to cancel comes to, for the record that is stored: a
/// refusal, or the plan whose execution unwinds the deal.
pub open spec fn cancel_outcome(config: Config, record: Option<DealState>, ctx: Cancel, now: i64) -> Result<
    Seq<Intent>,
    DealError,
> {
    match record {
        None => Err(DealError::Access(AccessError::RecordNotFound)),
        Some(deal) => match cancel_error(config, deal, ctx, now) {
            Some(e) => Err(e),
            None => Ok(cancel_plan(config, deal, ctx)),
        },
    }
}

/// Cancels the deal. On success the record is destroyed and the plan is
/// returned; on refusal the record is left as it was.
pub fn handle(config: &Config, record: &mut Option<DealState>, ctx: &Cancel, now: i64) -> (r:
    Result<Vec<Intent>, DealError>)
    ensures
        match cancel_outcome(*config, *old(record), *ctx, now) {
            Ok(plan) => r is Ok && r->Ok_0@ == plan,
            Err(e) => r == Err::<Vec<Intent>, DealError>(e),
        },
        *final(record) == stored_after(*old(record), cancel_outcome(*config, *old(record), *ctx, now)),
{
    let deal = match record {
        None => {
            return Err(DealError::Access(AccessError::RecordNotFound));
        },
        Some(deal) => *deal,
    };
    let mut plan: Vec<Intent> = Vec::new();
    ctx.check_accounts(&deal, &mut plan)?;
    Initializer::try_from(config, &deal, &ctx.initializer)?;
    match ctx.check_deadline(&deal, now) {
        Err(e) => {
            return Err(DealError::Code(e));
        },
        Ok(_) => {},
    }
    match ctx.transfer_deposit(&deal, &mut plan) {
        Err(e) => {
            return Err(DealError::Code(e));
        },
        Ok(_) => {},
    }
    ctx.transfer_bonds(&deal, &mut plan);
    ctx.close_deal_state_ta(config, &deal, &mut plan);
    plan.push(Intent::CloseRecord { record: ctx.deal_state, destination: ctx.initializer });
    *record = None;
    assert(plan@ =~= cancel_plan(*config, deal, *ctx));
    Ok(plan)
}

} // verus!
