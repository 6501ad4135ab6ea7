//! Partial payment: the client pays the executor a part of the principal
//! from its own account, before the deal is finished.

use vstd::prelude::*;
use crate::errors::{AccessError, DealError, ErrorCodes};
use crate::keys::Key;
use crate::ledger::{transfer, Intent, TokenSlot};
use crate::state::DealState;

verus! {

/// How much the client pays now.
#[derive(Clone, Copy, Debug, PartialEq, Eq)]
pub struct PartiallyPayArgs {
    pub amount: u64,
}

/// The accounts that a request for a partial payment supplies.
#[derive(Clone, Copy, Debug, PartialEq, Eq)]
pub struct PartiallyPay {
    /// Who asks, and pays.
    pub client: Key,
    pub executor: Key,
    /// Who pays for accounts that have to be created.
    pub payer: Key,
    pub client_deal_ta: TokenSlot,
    pub executor_deal_ta: TokenSlot,
}

impl PartiallyPay {
    /// The first thing that is wrong with the request: who asks is not the
    /// client of the deal; the executor is not the deal's; the client's
    /// account is missing or does not fit; the executor's account does not fit.
    pub open spec fn accounts_error(&self, deal: DealState) -> Option<DealError> {
        let client = self.client_deal_ta.spec_validate(deal.deal_token_mint, deal.client_key, true);
        let executor = self.executor_deal_ta.spec_validate(
            deal.deal_token_mint,
            deal.executor_key,
            false,
        );
        if self.client != deal.client_key {
            Some(DealError::Access(AccessError::ClientMismatch))
        } else if self.executor != deal.executor_key {
            Some(DealError::Access(AccessError::ExecutorMismatch))
        } else if client is Err {
            Some(client->Err_0)
        } else if executor is Err {
            Some(executor->Err_0)
        } else {
            None
        }
    }

    /// Checks the request against the deal and plans the creation of the
    /// executor's account where it is missing. A refusal leaves the plan as
    /// it was.
    pub fn check_accounts(&self, deal: &DealState, plan: &mut Vec<Intent>) -> (r: Result<
        (),
        DealError,
    >)
        ensures
            match self.accounts_error(*deal) {
                Some(e) => r == Err::<(), DealError>(e) && final(plan)@ == old(plan)@,
                None => r is Ok && final(plan)@ == old(plan)@ + self.executor_deal_ta.creation(
                    self.payer,
                    deal.deal_token_mint,
                    deal.executor_key,
                ),
            },
    {
        if !self.client.same(&deal.client_key) {
            return Err(DealError::Access(AccessError::ClientMismatch));
        }
        if !self.executor.same(&deal.executor_key) {
            return Err(DealError::Access(AccessError::ExecutorMismatch));
        }
        self.client_deal_ta.validate(&deal.deal_token_mint, &deal.client_key, true)?;
        self.executor_deal_ta.validate(&deal.deal_token_mint, &deal.executor_key, false)?;
        self.executor_deal_ta.create_if_absent(
            &self.payer,
            &deal.deal_token_mint,
            &deal.executor_key,
            plan,
        );
        Ok(())
    }

    /// Books a payment of `amount` against the record;
    /// `AdvancePaymentExceeded` where more would be paid than is owed.
    pub fn update_deal_state(&self, deal: &mut DealState, amount: u64) -> (r: Result<
        (),
        ErrorCodes,
    >)
        ensures
            old(deal).paid_amount + amount > old(deal).amount ==> r == Err::<(), ErrorCodes>(
                ErrorCodes::AdvancePaymentExceeded,
            ) && *final(deal) == *old(deal),
            old(deal).paid_amount + amount <= old(deal).amount ==> r is Ok && *final(deal) == paid(
                *old(deal),
                amount,
            ),
    {
        match deal.paid_amount.checked_add(amount) {
            None => Err(ErrorCodes::AdvancePaymentExceeded),
            Some(total) => {
                if total > deal.amount {
                    return Err(ErrorCodes::AdvancePaymentExceeded);
                }
                deal.paid_amount = total;
                Ok(())
            },
        }
    }

    /// The payment of `amount` from the client's own account to the executor.
    pub open spec fn payment(&self, amount: u64) -> Seq<Intent> {
        seq![transfer(self.client_deal_ta.key, self.executor_deal_ta.key, self.client, amount)]
    }

    /// Plans the payment of `amount` from the client to the executor.
    pub fn transfer_payment(&self, amount: u64, plan: &mut Vec<Intent>)
        ensures
            final(plan)@ == old(plan)@ + self.payment(amount),
    {
        plan.push(
            Intent::Transfer {
                from: self.client_deal_ta.key,
                to: self.executor_deal_ta.key,
                authority: self.client,
                amount,
            },
        );
        assert(plan@ =~= old(plan)@ + self.payment(amount));
    }
}

/// The record after a payment of `amount` was booked.
pub open spec fn paid(deal: DealState, amount: u64) -> DealState
    recommends
        deal.paid_amount + amount <= deal.amount,
{
    DealState { paid_amount: (deal.paid_amount + amount) as u64, ..deal }
}

/// Why a partial payment is refused: the request does not fit the deal, or
/// more would be paid than is owed.
pub open spec fn partially_pay_error(deal: DealState, ctx: PartiallyPay, args: PartiallyPayArgs) -> Option<
    DealError,
> {
    if ctx.accounts_error(deal) is Some {
        ctx.accounts_error(deal)
    } else if deal.paid_amount + args.amount > deal.amount {
        Some(DealError::Code(ErrorCodes::AdvancePaymentExceeded))
    } else {
        None
    }
}

/// The movements of a partial payment: the executor's account is created
/// where it is missing, and the client pays.
pub open spec fn partially_pay_plan(deal: DealState, ctx: PartiallyPay, args: PartiallyPayArgs) -> Seq<
    Intent,
> {
    ctx.executor_deal_ta.creation(ctx.payer, deal.deal_token_mint, deal.executor_key)
        + ctx.payment(args.amount)
}

/// Pays a part of the principal. On success the record has the payment
/// booked and stays well formed; on refusal it is left as it was.
pub fn handle(record: &mut Option<DealState>, ctx: &PartiallyPay, args: &PartiallyPayArgs) -> (r:
    Result<Vec<Intent>, DealError>)
    ensures
        match *old(record) {
            None => r == Err::<Vec<Intent>, DealError>(
                DealError::Access(AccessError::RecordNotFound),
            ) && *final(record) == *old(record),
            Some(deal) => match partially_pay_error(deal, *ctx, *args) {
                Some(e) => r == Err::<Vec<Intent>, DealError>(e) && *final(record) == *old(record),
                None => r is Ok && r->Ok_0@ == partially_pay_plan(deal, *ctx, *args)
                    && *final(record) == Some(paid(deal, args.amount))
                    && (deal.wf() ==> final(record)->Some_0.wf()),
            },
        },
{
    let mut deal = match record {
        None => {
            return Err(DealError::Access(AccessError::RecordNotFound));
        },
        Some(deal) => *deal,
    };
    let mut plan: Vec<Intent> = Vec::new();
    ctx.check_accounts(&deal, &mut plan)?;
    match ctx.update_deal_state(&mut deal, args.amount) {
        Err(e) => {
            return Err(DealError::Code(e));
        },
        Ok(_) => {},
    }
    ctx.transfer_payment(args.amount, &mut plan);
    *record = Some(deal);
    assert(plan@ =~= partially_pay_plan(old(record)->Some_0, *ctx, *args));
    Ok(plan)
}

} // verus!
