//! Finish: the terminal transition of a deal that was completed.

use vstd::prelude::*;
use crate::constants::Config;
use crate::errors::{AccessError, DealError, ErrorCodes, InvalidAccount};
use crate::instructions::{
    bond_accounts_error, bond_closes, bond_creation, bond_return, check_bond_accounts,
    create_bond_target,
    client_bond_refusals, close_bond_custody, close_principal_custody, executor_bond_refusals,
    principal_close, return_bond, stored_after, BondRefusals, Initializer,
};
use crate::keys::Key;
use crate::ledger::{only_if, push_when, transfer, Intent, TokenSlot};
use crate::state::DealState;

verus! {

/// The accounts that a request to finish a deal supplies.
#[derive(Clone, Copy, Debug, PartialEq, Eq)]
pub struct Finish {
    /// Who asks.
    pub initializer: Key,
    pub checker: Key,
    /// Who pays for accounts that have to be created.
    pub payer: Key,
    /// The address of the deal record, the authority over its custody accounts.
    pub deal_state: Key,
    pub deal_state_deal_ta: TokenSlot,
    pub deal_state_holder_ta: TokenSlot,
    pub client_holder_ta: TokenSlot,
    pub executor_deal_ta: TokenSlot,
    pub checker_deal_ta: TokenSlot,
    pub deal_state_client_bond_ta: TokenSlot,
    pub deal_state_executor_bond_ta: TokenSlot,
    pub client_bond_ta: TokenSlot,
    pub executor_bond_ta: TokenSlot,
    pub client_bond_mint: Key,
    pub executor_bond_mint: Key,
}

impl Finish {
    /// What is wrong with the accounts of the holder stake: where the deal
    /// was made in holder mode, the stake's custody account must exist, and
    /// the client's holder account must fit where it exists.
    pub open spec fn holder_error(&self, config: Config, deal: DealState) -> Option<DealError> {
        if deal.holder_mode is None {
            None
        } else if !self.deal_state_holder_ta.spec_fits(config.holder_mint, self.deal_state, true) {
            Some(DealError::Account(InvalidAccount::DealStateHolderTokenAccount))
        } else if !self.client_holder_ta.spec_fits(config.holder_mint, deal.client_key, false) {
            Some(DealError::Account(InvalidAccount::DealStateHolderTokenAccount))
        } else {
            None
        }
    }

    /// What is wrong with the accounts of the checker: where the deal has a
    /// checker, the supplied checker must be that one, and its account of
    /// the deal asset must fit where it exists.
    pub open spec fn checker_error(&self, deal: DealState) -> Option<DealError> {
        match deal.checker {
            None => None,
            Some(c) => if self.checker != c.checker_key {
                Some(DealError::Account(InvalidAccount::Checker))
            } else if !self.checker_deal_ta.spec_fits(deal.deal_token_mint, c.checker_key, false) {
                Some(DealError::Account(InvalidAccount::CheckerDealTokenAccount))
            } else {
                None
            },
        }
    }

    /// The first thing that is wrong with the supplied accounts, in the
    /// order: principal custody, executor's account, holder stake, checker,
    /// client's bond, executor's bond.
    pub open spec fn accounts_error(&self, config: Config, deal: DealState) -> Option<DealError> {
        let custody = self.deal_state_deal_ta.spec_validate(
            deal.deal_token_mint,
            self.deal_state,
            true,
        );
        let executor = self.executor_deal_ta.spec_validate(
            deal.deal_token_mint,
            deal.executor_key,
            false,
        );
        let client_bond = bond_accounts_error(
            deal.client_bond,
            self.client_bond_mint,
            self.deal_state_client_bond_ta,
            self.client_bond_ta,
            self.deal_state,
            deal.client_key,
            client_bond_refusals(),
        );
        if custody is Err {
            Some(custody->Err_0)
        } else if executor is Err {
            Some(executor->Err_0)
        } else if self.holder_error(config, deal) is Some {
            self.holder_error(config, deal)
        } else if self.checker_error(deal) is Some {
            self.checker_error(deal)
        } else if client_bond is Some {
            client_bond
        } else {
            bond_accounts_error(
                deal.executor_bond,
                self.executor_bond_mint,
                self.deal_state_executor_bond_ta,
                self.executor_bond_ta,
                self.deal_state,
                deal.executor_key,
                executor_bond_refusals(),
            )
        }
    }

    /// The accounts that are created because they are missing: those that
    /// receive the payment, the holder stake, the checker's fee and the bonds.
    pub open spec fn creations(&self, config: Config, deal: DealState) -> Seq<Intent> {
        self.executor_deal_ta.creation(self.payer, deal.deal_token_mint, deal.executor_key)
            + match deal.holder_mode {
            Some(_) => self.client_holder_ta.creation(self.payer, config.holder_mint, deal.client_key),
            None => Seq::empty(),
        } + match deal.checker {
            Some(c) => self.checker_deal_ta.creation(self.payer, deal.deal_token_mint, c.checker_key),
            None => Seq::empty(),
        } + bond_creation(deal.client_bond, self.client_bond_ta, self.payer, deal.client_key)
            + bond_creation(deal.executor_bond, self.executor_bond_ta, self.payer, deal.executor_key)
    }

    /// Checks the supplied accounts against the deal.
    fn find_accounts_error(&self, config: &Config, deal: &DealState) -> (r: Result<(), DealError>)
        ensures
            match self.accounts_error(*config, *deal) {
                Some(e) => r == Err::<(), DealError>(e),
                None => r is Ok,
            },
    {
        self.deal_state_deal_ta.validate(&deal.deal_token_mint, &self.deal_state, true)?;
        self.executor_deal_ta.validate(&deal.deal_token_mint, &deal.executor_key, false)?;
        if deal.holder_mode.is_some() {
            if !self.deal_state_holder_ta.fits(&config.holder_mint, &self.deal_state, true) {
                return Err(DealError::Account(InvalidAccount::DealStateHolderTokenAccount));
            }
            if !self.client_holder_ta.fits(&config.holder_mint, &deal.client_key, false) {
                return Err(DealError::Account(InvalidAccount::DealStateHolderTokenAccount));
            }
        }
        match &deal.checker {
            None => {},
            Some(c) => {
                if !self.checker.same(&c.checker_key) {
                    return Err(DealError::Account(InvalidAccount::Checker));
                }
                if !self.checker_deal_ta.fits(&deal.deal_token_mint, &c.checker_key, false) {
                    return Err(DealError::Account(InvalidAccount::CheckerDealTokenAccount));
                }
            },
        }
        check_bond_accounts(
            &deal.client_bond,
            &self.client_bond_mint,
            &self.deal_state_client_bond_ta,
            &self.client_bond_ta,
            &self.deal_state,
            &deal.client_key,
            BondRefusals::client(),
        )?;
        check_bond_accounts(
            &deal.executor_bond,
            &self.executor_bond_mint,
            &self.deal_state_executor_bond_ta,
            &self.executor_bond_ta,
            &self.deal_state,
            &deal.executor_key,
            BondRefusals::executor(),
        )
    }

    /// Checks the supplied accounts against the deal and plans the creation
    /// of those that are missing and may be. A refusal leaves the plan as it was.
    pub fn check_accounts(&self, config: &Config, deal: &DealState, plan: &mut Vec<Intent>) -> (r:
        Result<(), DealError>)
        ensures
            match self.accounts_error(*config, *deal) {
                Some(e) => r == Err::<(), DealError>(e) && final(plan)@ == old(plan)@,
                None => r is Ok && final(plan)@ == old(plan)@ + self.creations(*config, *deal),
            },
    {
        self.find_accounts_error(config, deal)?;
        self.executor_deal_ta.create_if_absent(
            &self.payer,
            &deal.deal_token_mint,
            &deal.executor_key,
            plan,
        );
        if deal.holder_mode.is_some() {
            self.client_holder_ta.create_if_absent(
                &self.payer,
                &config.holder_mint,
                &deal.client_key,
                plan,
            );
        }
        match &deal.checker {
            None => {},
            Some(c) => {
                self.checker_deal_ta.create_if_absent(
                    &self.payer,
                    &deal.deal_token_mint,
                    &c.checker_key,
                    plan,
                );
            },
        }
        create_bond_target(
            &deal.client_bond,
            &self.client_bond_ta,
            &self.payer,
            &deal.client_key,
            plan,
        );
        create_bond_target(
            &deal.executor_bond,
            &self.executor_bond_ta,
            &self.payer,
            &deal.executor_key,
            plan,
        );
        assert(plan@ =~= old(plan)@ + self.creations(*config, *deal));
        Ok(())
    }

    /// The payment of what is still owed to the executor.
    pub open spec fn payment(&self, deal: DealState) -> Seq<Intent> {
        only_if(
            deal.outstanding() > 0,
            transfer(
                self.deal_state_deal_ta.key,
                self.executor_deal_ta.key,
                self.deal_state,
                deal.outstanding() as u64,
            ),
        )
    }

    /// Plans the payment of what is still owed to the executor.
    pub fn transfer_payment(&self, deal: &DealState, plan: &mut Vec<Intent>)
        ensures
            final(plan)@ == old(plan)@ + self.payment(*deal),
    {
        let amount_to_transfer = deal.remaining();
        push_when(
            plan,
            amount_to_transfer > 0,
            Intent::Transfer {
                from: self.deal_state_deal_ta.key,
                to: self.executor_deal_ta.key,
                authority: self.deal_state,
                amount: amount_to_transfer,
            },
        );
    }

    /// The payment of the checker's fee.
    pub open spec fn checker_fee(&self, deal: DealState) -> Seq<Intent> {
        match deal.checker {
            None => Seq::empty(),
            Some(c) => only_if(
                c.checker_fee > 0,
                transfer(
                    self.deal_state_deal_ta.key,
                    self.checker_deal_ta.key,
                    self.deal_state,
                    c.checker_fee,
                ),
            ),
        }
    }

    /// Plans the payment of the checker's fee.
    pub fn transfer_checker_fee(&self, deal: &DealState, plan: &mut Vec<Intent>)
        ensures
            final(plan)@ == old(plan)@ + self.checker_fee(*deal),
    {
        match &deal.checker {
            None => {
                assert(plan@ =~= old(plan)@ + Seq::<Intent>::empty());
            },
            Some(c) => {
                push_when(
                    plan,
                    c.checker_fee > 0,
                    Intent::Transfer {
                        from: self.deal_state_deal_ta.key,
                        to: self.checker_deal_ta.key,
                        authority: self.deal_state,
                        amount: c.checker_fee,
                    },
                );
            },
        }
    }

    /// The return of both bonds to their owners and the closing of their
    /// custody accounts in favour of the service fee recipient.
    pub open spec fn bonds(&self, config: Config, deal: DealState) -> Seq<Intent> {
        bond_return(
            deal.client_bond,
            self.deal_state_client_bond_ta.key,
            self.client_bond_ta.key,
            self.deal_state,
        ) + bond_return(
            deal.executor_bond,
            self.deal_state_executor_bond_ta.key,
            self.executor_bond_ta.key,
            self.deal_state,
        ) + bond_closes(
            deal,
            self.deal_state_client_bond_ta.key,
            self.deal_state_executor_bond_ta.key,
            config.service_fee_owner,
            self.deal_state,
        )
    }

    /// Plans the return of the bonds and the closing of their custody accounts.
    pub fn transfer_bonds(&self, config: &Config, deal: &DealState, plan: &mut Vec<Intent>)
        ensures
            final(plan)@ == old(plan)@ + self.bonds(*config, *deal),
    {
        return_bond(
            &deal.client_bond,
            &self.deal_state_client_bond_ta.key,
            &self.client_bond_ta.key,
            &self.deal_state,
            plan,
        );
        return_bond(
            &deal.executor_bond,
            &self.deal_state_executor_bond_ta.key,
            &self.executor_bond_ta.key,
            &self.deal_state,
            plan,
        );
        close_bond_custody(
            deal,
            &self.deal_state_client_bond_ta.key,
            &self.deal_state_executor_bond_ta.key,
            &config.service_fee_owner,
            &self.deal_state,
            plan,
        );
        assert(plan@ =~= old(plan)@ + self.bonds(*config, *deal));
    }

    /// The return of the holder stake to the client.
    pub open spec fn holder_refund(&self, deal: DealState) -> Seq<Intent> {
        match deal.holder_mode {
            None => Seq::empty(),
            Some(amount) => seq![
                transfer(
                    self.deal_state_holder_ta.key,
                    self.client_holder_ta.key,
                    self.deal_state,
                    amount,
                ),
            ],
        }
    }

    /// Plans the return of the holder stake to the client.
    pub fn handle_holder_mode(&self, deal: &DealState, plan: &mut Vec<Intent>)
        ensures
            final(plan)@ == old(plan)@ + self.holder_refund(*deal),
    {
        match deal.holder_mode {
            None => {
                assert(plan@ =~= old(plan)@ + Seq::<Intent>::empty());
            },
            Some(amount) => {
                plan.push(
                    Intent::Transfer {
                        from: self.deal_state_holder_ta.key,
                        to: self.client_holder_ta.key,
                        authority: self.deal_state,
                        amount,
                    },
                );
                assert(plan@ =~= old(plan)@ + self.holder_refund(*deal));
            },
        }
    }

    /// Plans the closing of the principal custody account in favour of the
    /// service fee recipient.
    pub fn close_deal_state_ta(&self, config: &Config, deal: &DealState, plan: &mut Vec<Intent>)
        ensures
            final(plan)@ == old(plan)@ + principal_close(
                *deal,
                self.deal_state_deal_ta,
                self.deal_state_client_bond_ta.key,
                self.deal_state_executor_bond_ta.key,
                config.service_fee_owner,
                self.deal_state,
            ),
    {
        close_principal_custody(
            deal,
            &self.deal_state_deal_ta,
            &self.deal_state_client_bond_ta.key,
            &self.deal_state_executor_bond_ta.key,
            &config.service_fee_owner,
            &self.deal_state,
            plan,
        );
    }
}

/// Why a deal cannot be finished on this request at this time: the one who
/// asks is neither the executor nor the checker; or it is the checker and
/// the deadline has not come; or an account does not fit.
pub open spec fn finish_error(config: Config, deal: DealState, ctx: Finish, now: i64) -> Option<
    DealError,
> {
    let part = Initializer::spec_try_from(config, deal, ctx.initializer);
    if part != Some(Initializer::Executor) && part != Some(Initializer::Checker) {
        Some(DealError::Account(InvalidAccount::Initializer))
    } else if part == Some(Initializer::Checker) && deal.spec_before_deadline(now) {
        Some(DealError::Code(ErrorCodes::DeadlineNotExpired))
    } else {
        ctx.accounts_error(config, deal)
    }
}

/// The movements of a finish, in order: missing accounts are created, the
/// executor is paid what is still owed, the checker its fee, the bonds go
/// back and their custody is closed, the holder stake goes back, the
/// principal custody is closed, the record is destroyed.
pub open spec fn finish_plan(config: Config, deal: DealState, ctx: Finish) -> Seq<Intent> {
    ctx.creations(config, deal) + ctx.payment(deal) + ctx.checker_fee(deal) + ctx.bonds(
        config,
        deal,
    ) + ctx.holder_refund(deal) + principal_close(
        deal,
        ctx.deal_state_deal_ta,
        ctx.deal_state_client_bond_ta.key,
        ctx.deal_state_executor_bond_ta.key,
        config.service_fee_owner,
        ctx.deal_state,
    ) + seq![Intent::CloseRecord { record: ctx.deal_state, destination: config.service_fee_owner }]
}

/// What a request to finish comes to, for the record that is stored: a
/// refusal, or the plan whose execution completes the deal.
pub open spec fn finish_outcome(config: Config, record: Option<DealState>, ctx: Finish, now: i64) -> Result<
    Seq<Intent>,
    DealError,
> {
    match record {
        None => Err(DealError::Access(AccessError::RecordNotFound)),
        Some(deal) => match finish_error(config, deal, ctx, now) {
            Some(e) => Err(e),
            None => Ok(finish_plan(config, deal, ctx)),
        },
    }
}

/// Finishes the deal. On success the record is destroyed and the plan is
/// returned; on refusal the record is left as it was.
pub fn handle(config: &Config, record: &mut Option<DealState>, ctx: &Finish, now: i64) -> (r:
    Result<Vec<Intent>, DealError>)
    ensures
        match finish_outcome(*config, *old(record), *ctx, now) {
            Ok(plan) => r is Ok && r->Ok_0@ == plan,
            Err(e) => r == Err::<Vec<Intent>, DealError>(e),
        },
        *final(record) == stored_after(*old(record), finish_outcome(*config, *old(record), *ctx, now)),
{
    let deal = match record {
        None => {
            return Err(DealError::Access(AccessError::RecordNotFound));
        },
        Some(deal) => *deal,
    };
    let part = Initializer::try_from(config, &deal, &ctx.initializer)?;
    match part {
        Initializer::Executor => {},
        Initializer::Checker => {
            if deal.before_deadline(now) {
                return Err(DealError::Code(ErrorCodes::DeadlineNotExpired));
            }
        },
        _ => {
            return Err(DealError::Account(InvalidAccount::Initializer));
        },
    }
    let mut plan: Vec<Intent> = Vec::new();
    ctx.check_accounts(config, &deal, &mut plan)?;
    ctx.transfer_payment(&deal, &mut plan);
    ctx.transfer_checker_fee(&deal, &mut plan);
    ctx.transfer_bonds(config, &deal, &mut plan);
    ctx.handle_holder_mode(&deal, &mut plan);
    ctx.close_deal_state_ta(config, &deal, &mut plan);
    plan.push(Intent::CloseRecord { record: ctx.deal_state, destination: config.service_fee_owner });
    *record = None;
    assert(plan@ =~= finish_plan(*config, deal, *ctx));
    Ok(plan)
}

} // verus!
