//! Escrow deals between a client and an executor: the deal record, its
//! transitions and the ledger movements that each transition asks for.
//!
//! A deal is created once, may take partial payments and a checker, and is
//! consumed by exactly one of two terminal transitions: finish, which pays
//! the executor and the checker, or cancel, which refunds the client. Each
//! transition reads the stored record and the accounts of the request, and
//! answers with the record's next state and a plan of ledger movements.

pub mod constants;
pub mod errors;
pub mod instructions;
pub mod keys;
pub mod laws;
pub mod ledger;
pub mod reading;
pub mod state;
pub mod utils;

use vstd::prelude::*;
use crate::constants::Config;
use crate::errors::{AccessError, DealError};
use crate::instructions::cancel::{cancel_outcome, Cancel};
use crate::instructions::finish::{finish_outcome, Finish};
use crate::instructions::initialize::{
    initialize_error, initialize_plan, new_deal, Initialize, InitializeArgs,
};
use crate::instructions::partially_pay::{
    paid, partially_pay_error, partially_pay_plan, PartiallyPay, PartiallyPayArgs,
};
use crate::instructions::stored_after;
use crate::instructions::update_checker::{update_checker_error, with_new_checker, UpdateChecker};
use crate::laws::{stored_next, Request};
use crate::ledger::Intent;
use crate::state::DealState;

verus! {

/// Creates a deal at the address that `record` stands for.
pub fn initialize(
    config: &Config,
    record: &mut Option<DealState>,
    ctx: &Initialize,
    args: &InitializeArgs,
    now: i64,
) -> (r: Result<Vec<Intent>, DealError>)
    ensures
        match initialize_error(*config, *old(record), *ctx, *args, now) {
            Some(e) => r == Err::<Vec<Intent>, DealError>(e) && *final(record) == *old(record),
            None => r is Ok && r->Ok_0@ == initialize_plan(*config, *ctx, *args) && *final(record)
                == Some(new_deal(*config, *ctx, *args)) && final(record)->Some_0.wf(),
        },
        *final(record) == stored_next(*config, *old(record), Request::Initialize(*ctx, *args, now)),
{
    instructions::initialize::handle(config, record, ctx, args, now)
}

/// Finishes the deal that `record` holds and destroys the record.
pub fn finish(config: &Config, record: &mut Option<DealState>, ctx: &Finish, now: i64) -> (r:
    Result<Vec<Intent>, DealError>)
    ensures
        match finish_outcome(*config, *old(record), *ctx, now) {
            Ok(plan) => r is Ok && r->Ok_0@ == plan,
            Err(e) => r == Err::<Vec<Intent>, DealError>(e),
        },
        *final(record) == stored_after(*old(record), finish_outcome(*config, *old(record), *ctx, now)),
        *final(record) == stored_next(*config, *old(record), Request::Finish(*ctx, now)),
{
    instructions::finish::handle(config, record, ctx, now)
}

/// Cancels the deal that `record` holds and destroys the record.
pub fn cancel(config: &Config, record: &mut Option<DealState>, ctx: &Cancel, now: i64) -> (r:
    Result<Vec<Intent>, DealError>)
    ensures
        match cancel_outcome(*config, *old(record), *ctx, now) {
            Ok(plan) => r is Ok && r->Ok_0@ == plan,
            Err(e) => r == Err::<Vec<Intent>, DealError>(e),
        },
        *final(record) == stored_after(*old(record), cancel_outcome(*config, *old(record), *ctx, now)),
        *final(record) == stored_next(*config, *old(record), Request::Cancel(*ctx, now)),
{
    instructions::cancel::handle(config, record, ctx, now)
}

/// Assigns a checker and its fee to the deal that `record` holds.
pub fn update_checker(
    config: &Config,
    record: &mut Option<DealState>,
    ctx: &UpdateChecker,
    new_checker_fee: u64,
) -> (r: Result<(), DealError>)
    ensures
        match *old(record) {
            None => r == Err::<(), DealError>(DealError::Access(AccessError::RecordNotFound))
                && *final(record) == *old(record),
            Some(deal) => match update_checker_error(*config, deal, *ctx, new_checker_fee) {
                Some(e) => r == Err::<(), DealError>(e) && *final(record) == *old(record),
                None => r is Ok && *final(record) == Some(
                    with_new_checker(deal, *ctx, new_checker_fee),
                ) && (deal.wf() ==> final(record)->Some_0.wf()),
            },
        },
        *final(record) == stored_next(
            *config,
            *old(record),
            Request::UpdateChecker(*ctx, new_checker_fee),
        ),
{
    instructions::update_checker::handle(config, record, ctx, new_checker_fee)
}

/// Books and plans a partial payment on the deal that `record` holds.
pub fn partially_pay(record: &mut Option<DealState>, ctx: &PartiallyPay, args: &PartiallyPayArgs) -> (r:
    Result<Vec<Intent>, DealError>)
    ensures
        match *old(record) {
            None => r == Err::<Vec<Intent>, DealError>(
                DealError::Access(AccessError::RecordNotFound),
            ) && *final(record) == *old(record),
            Some(deal) => match partially_pay_error(deal, *ctx, *args) {
                Some(e) => r == Err::<Vec<Intent>, DealError>(e) && *final(record) == *old(record),
                None => r is Ok && r->Ok_0@ == partially_pay_plan(deal, *ctx, *args)
                    && *final(record) == Some(paid(deal, args.amount))
                    && (deal.wf() ==> final(record)->Some_0.wf()),
            },
        },
        forall|config: Config|
            *final(record) == #[trigger] stored_next(
                config,
                *old(record),
                Request::PartiallyPay(*ctx, *args),
            ),
{
    instructions::partially_pay::handle(record, ctx, args)
}

} // verus!

