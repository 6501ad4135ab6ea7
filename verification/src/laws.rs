//! What holds of every deal: the laws that relate the transitions to each
//! other and to the value that they move.

use vstd::prelude::*;
use crate::constants::Config;
use crate::errors::{AccessError, DealError};
use crate::instructions::cancel::{cancel_error, cancel_outcome, cancel_plan, Cancel};
use crate::instructions::finish::{finish_error, finish_outcome, finish_plan, Finish};
use crate::instructions::initialize::{
    bond_posting, initialize_error, initialize_plan, new_deal, Initialize, InitializeArgs,
};
use crate::instructions::partially_pay::{paid, partially_pay_error, PartiallyPay, PartiallyPayArgs};
use crate::instructions::update_checker::{update_checker_error, with_new_checker, UpdateChecker};
use crate::instructions::{
    bond_closes, bond_creation, bond_return, closes_executor_custody, closes_principal_custody,
    principal_close, stored_after, Initializer,
};
use crate::keys::Key;
use crate::ledger::{
    close, counts_transfers, credit_to, debit_from, drawn_by, inflow, lemma_total_concat,
    lemma_total_only_if, lemma_total_small, only_if, outflow, signed_by, spent_by, total, transfer,
    withdrawn, Intent, TokenSlot,
};
use crate::state::{Bond, DealState};

verus! {

/// What a bond is worth: its amount, and nothing where there is none.
pub open spec fn bond_value(bond: Option<Bond>) -> nat {
    match bond {
        Some(b) => b.amount as nat,
        None => 0,
    }
}

/// What a posted amount is worth: itself, and nothing where there is none.
pub open spec fn posted_value(bond: Option<u64>) -> nat {
    match bond {
        Some(amount) => amount as nat,
        None => 0,
    }
}

/// The holder stake of a deal, and nothing where it was not made in holder mode.
pub open spec fn stake(deal: DealState) -> nat {
    match deal.holder_mode {
        Some(amount) => amount as nat,
        None => 0,
    }
}

/// `amount` where `here` is `there`, else nothing.
pub open spec fn at(here: Key, there: Key, amount: nat) -> int {
    if here == there {
        amount as int
    } else {
        0
    }
}

/// `amount` where the account `here` is `there` and the signer `who` is
/// `whom`, else nothing.
pub open spec fn at_both(here: Key, who: Key, there: Key, whom: Key, amount: nat) -> int {
    if here == there && who == whom {
        amount as int
    } else {
        0
    }
}

/// The weight that counts what a transfer moves, whoever gives and gets it.
pub open spec fn moved() -> spec_fn(Intent) -> int {
    |i: Intent|
        match i {
            Intent::Transfer { amount, .. } => amount as int,
            _ => 0,
        }
}

proof fn lemma_weights_count_transfers(k: Key)
    ensures
        counts_transfers(credit_to(k)),
        counts_transfers(debit_from(k)),
        counts_transfers(signed_by(k)),
        counts_transfers(moved()),
{
}

proof fn lemma_creation_weighs_nothing(
    slot: TokenSlot,
    payer: Key,
    mint: Key,
    owner: Key,
    weight: spec_fn(Intent) -> int,
)
    requires
        counts_transfers(weight),
    ensures
        total(slot.creation(payer, mint, owner), weight) == 0,
{
    let intent = Intent::CreateAccount { payer, mint, owner, account: slot.key };
    lemma_total_only_if(slot.account is None, intent, weight);
    assert(!(intent is Transfer));
}

proof fn lemma_bond_creation_weighs_nothing(
    bond: Option<Bond>,
    target: TokenSlot,
    payer: Key,
    owner: Key,
    weight: spec_fn(Intent) -> int,
)
    requires
        counts_transfers(weight),
    ensures
        total(bond_creation(bond, target, payer, owner), weight) == 0,
{
    match bond {
        Some(b) => lemma_creation_weighs_nothing(target, payer, b.mint, owner, weight),
        None => {},
    }
}

proof fn lemma_close_weighs_nothing(
    cond: bool,
    account: Key,
    destination: Key,
    record: Key,
    weight: spec_fn(Intent) -> int,
)
    requires
        counts_transfers(weight),
    ensures
        total(only_if(cond, close(account, destination, record)), weight) == 0,
{
    lemma_total_only_if(cond, close(account, destination, record), weight);
    assert(!(close(account, destination, record) is Transfer));
}

proof fn lemma_bond_closes_weigh_nothing(
    deal: DealState,
    client_custody: Key,
    executor_custody: Key,
    destination: Key,
    record: Key,
    weight: spec_fn(Intent) -> int,
)
    requires
        counts_transfers(weight),
    ensures
        total(bond_closes(deal, client_custody, executor_custody, destination, record), weight)
            == 0,
{
    let first = only_if(deal.client_bond is Some, close(client_custody, destination, record));
    let second = only_if(
        closes_executor_custody(deal, client_custody, executor_custody),
        close(executor_custody, destination, record),
    );
    lemma_close_weighs_nothing(
        deal.client_bond is Some,
        client_custody,
        destination,
        record,
        weight,
    );
    lemma_close_weighs_nothing(
        closes_executor_custody(deal, client_custody, executor_custody),
        executor_custody,
        destination,
        record,
        weight,
    );
    lemma_total_concat(first, second, weight);
}

proof fn lemma_bond_return_credit(bond: Option<Bond>, custody: Key, target: Key, record: Key, k: Key)
    ensures
        total(bond_return(bond, custody, target, record), credit_to(k)) == at(
            k,
            target,
            bond_value(bond),
        ),
        total(bond_return(bond, custody, target, record), debit_from(k)) == at(
            k,
            custody,
            bond_value(bond),
        ),
        total(bond_return(bond, custody, target, record), signed_by(k)) == at(
            k,
            record,
            bond_value(bond),
        ),
        total(bond_return(bond, custody, target, record), moved()) == bond_value(bond),
{
    match bond {
        Some(b) => {
            lemma_total_only_if(b.amount > 0, transfer(custody, target, record, b.amount), signed_by(k));
            lemma_total_only_if(b.amount > 0, transfer(custody, target, record, b.amount), credit_to(k));
            lemma_total_only_if(b.amount > 0, transfer(custody, target, record, b.amount), debit_from(k));
            lemma_total_only_if(b.amount > 0, transfer(custody, target, record, b.amount), moved());
        },
        None => {},
    }
}

/// What the return of both bonds pays into `k`, and what it moves in all.
proof fn lemma_returns(
    deal: DealState,
    client_custody: Key,
    client_target: Key,
    executor_custody: Key,
    executor_target: Key,
    destination: Key,
    record: Key,
    k: Key,
)
    ensures
        total(
            bond_return(deal.client_bond, client_custody, client_target, record) + bond_return(
                deal.executor_bond,
                executor_custody,
                executor_target,
                record,
            ) + bond_closes(deal, client_custody, executor_custody, destination, record),
            credit_to(k),
        ) == at(k, client_target, bond_value(deal.client_bond)) + at(
            k,
            executor_target,
            bond_value(deal.executor_bond),
        ),
        total(
            bond_return(deal.client_bond, client_custody, client_target, record) + bond_return(
                deal.executor_bond,
                executor_custody,
                executor_target,
                record,
            ) + bond_closes(deal, client_custody, executor_custody, destination, record),
            moved(),
        ) == bond_value(deal.client_bond) + bond_value(deal.executor_bond),
        total(
            bond_return(deal.client_bond, client_custody, client_target, record) + bond_return(
                deal.executor_bond,
                executor_custody,
                executor_target,
                record,
            ) + bond_closes(deal, client_custody, executor_custody, destination, record),
            debit_from(k),
        ) == at(k, client_custody, bond_value(deal.client_bond)) + at(
            k,
            executor_custody,
            bond_value(deal.executor_bond),
        ),
        total(
            bond_return(deal.client_bond, client_custody, client_target, record) + bond_return(
                deal.executor_bond,
                executor_custody,
                executor_target,
                record,
            ) + bond_closes(deal, client_custody, executor_custody, destination, record),
            signed_by(k),
        ) == at(k, record, bond_value(deal.client_bond) + bond_value(deal.executor_bond)),
{
    let a = bond_return(deal.client_bond, client_custody, client_target, record);
    let b = bond_return(deal.executor_bond, executor_custody, executor_target, record);
    let c = bond_closes(deal, client_custody, executor_custody, destination, record);
    lemma_weights_count_transfers(k);
    lemma_bond_return_credit(deal.client_bond, client_custody, client_target, record, k);
    lemma_bond_return_credit(deal.executor_bond, executor_custody, executor_target, record, k);
    lemma_bond_closes_weigh_nothing(
        deal,
        client_custody,
        executor_custody,
        destination,
        record,
        credit_to(k),
    );
    lemma_bond_closes_weigh_nothing(
        deal,
        client_custody,
        executor_custody,
        destination,
        record,
        moved(),
    );
    lemma_total_concat(a, b, credit_to(k));
    lemma_total_concat(a + b, c, credit_to(k));
    lemma_total_concat(a, b, moved());
    lemma_total_concat(a + b, c, moved());
    lemma_bond_closes_weigh_nothing(
        deal,
        client_custody,
        executor_custody,
        destination,
        record,
        debit_from(k),
    );
    lemma_total_concat(a, b, debit_from(k));
    lemma_total_concat(a + b, c, debit_from(k));
    lemma_bond_closes_weigh_nothing(
        deal,
        client_custody,
        executor_custody,
        destination,
        record,
        signed_by(k),
    );
    lemma_total_concat(a, b, signed_by(k));
    lemma_total_concat(a + b, c, signed_by(k));
}

proof fn lemma_finish_creations_weigh_nothing(
    config: Config,
    deal: DealState,
    ctx: Finish,
    weight: spec_fn(Intent) -> int,
)
    requires
        counts_transfers(weight),
    ensures
        total(ctx.creations(config, deal), weight) == 0,
{
    let a = ctx.executor_deal_ta.creation(ctx.payer, deal.deal_token_mint, deal.executor_key);
    let b = match deal.holder_mode {
        Some(_) => ctx.client_holder_ta.creation(ctx.payer, config.holder_mint, deal.client_key),
        None => Seq::empty(),
    };
    let c = match deal.checker {
        Some(c) => ctx.checker_deal_ta.creation(ctx.payer, deal.deal_token_mint, c.checker_key),
        None => Seq::empty(),
    };
    let d = bond_creation(deal.client_bond, ctx.client_bond_ta, ctx.payer, deal.client_key);
    let e = bond_creation(deal.executor_bond, ctx.executor_bond_ta, ctx.payer, deal.executor_key);
    lemma_creation_weighs_nothing(
        ctx.executor_deal_ta,
        ctx.payer,
        deal.deal_token_mint,
        deal.executor_key,
        weight,
    );
    lemma_creation_weighs_nothing(
        ctx.client_holder_ta,
        ctx.payer,
        config.holder_mint,
        deal.client_key,
        weight,
    );
    if deal.checker is Some {
        lemma_creation_weighs_nothing(
            ctx.checker_deal_ta,
            ctx.payer,
            deal.deal_token_mint,
            deal.checker->Some_0.checker_key,
            weight,
        );
    }
    lemma_bond_creation_weighs_nothing(
        deal.client_bond,
        ctx.client_bond_ta,
        ctx.payer,
        deal.client_key,
        weight,
    );
    lemma_bond_creation_weighs_nothing(
        deal.executor_bond,
        ctx.executor_bond_ta,
        ctx.payer,
        deal.executor_key,
        weight,
    );
    lemma_total_concat(a, b, weight);
    lemma_total_concat(a + b, c, weight);
    lemma_total_concat(a + b + c, d, weight);
    lemma_total_concat(a + b + c + d, e, weight);
}

/// What a finish pays into the token account `k`: what is still owed into
/// the executor's account, the fee into the checker's, each bond into its
/// owner's, the stake into the client's holder account.
pub open spec fn finish_receipts(deal: DealState, ctx: Finish, k: Key) -> int {
    at(k, ctx.executor_deal_ta.key, deal.outstanding()) + at(
        k,
        ctx.checker_deal_ta.key,
        deal.checker_fee(),
    ) + at(k, ctx.client_bond_ta.key, bond_value(deal.client_bond)) + at(
        k,
        ctx.executor_bond_ta.key,
        bond_value(deal.executor_bond),
    ) + at(k, ctx.client_holder_ta.key, stake(deal))
}

/// Finish pays into every account exactly what `finish_receipts` names:
/// the executor gets what is still owed, the principal less what was paid
/// before, and never the whole principal twice; each bond goes to the
/// account of its owner in full; no other account gets anything.
pub proof fn law_finish_receipts(config: Config, deal: DealState, ctx: Finish, k: Key)
    ensures
        inflow(finish_plan(config, deal, ctx), k) == finish_receipts(deal, ctx, k),
        deal.wf() ==> deal.outstanding() == deal.amount - deal.paid_amount,
{
    let w = credit_to(k);
    lemma_weights_count_transfers(k);
    let c = ctx.creations(config, deal);
    let p = ctx.payment(deal);
    let f = ctx.checker_fee(deal);
    let b = ctx.bonds(config, deal);
    let h = ctx.holder_refund(deal);
    let pc = principal_close(
        deal,
        ctx.deal_state_deal_ta,
        ctx.deal_state_client_bond_ta.key,
        ctx.deal_state_executor_bond_ta.key,
        config.service_fee_owner,
        ctx.deal_state,
    );
    let last = Intent::CloseRecord { record: ctx.deal_state, destination: config.service_fee_owner };
    let r = seq![last];
    lemma_finish_creations_weigh_nothing(config, deal, ctx, w);
    lemma_total_only_if(
        deal.outstanding() > 0,
        transfer(
            ctx.deal_state_deal_ta.key,
            ctx.executor_deal_ta.key,
            ctx.deal_state,
            deal.outstanding() as u64,
        ),
        w,
    );
    if deal.checker is Some {
        let fee = deal.checker->Some_0.checker_fee;
        lemma_total_only_if(
            fee > 0,
            transfer(ctx.deal_state_deal_ta.key, ctx.checker_deal_ta.key, ctx.deal_state, fee),
            w,
        );
    }
    lemma_returns(
        deal,
        ctx.deal_state_client_bond_ta.key,
        ctx.client_bond_ta.key,
        ctx.deal_state_executor_bond_ta.key,
        ctx.executor_bond_ta.key,
        config.service_fee_owner,
        ctx.deal_state,
        k,
    );
    if deal.holder_mode is Some {
        lemma_total_small(
            transfer(
                ctx.deal_state_holder_ta.key,
                ctx.client_holder_ta.key,
                ctx.deal_state,
                deal.holder_mode->Some_0,
            ),
            w,
        );
    }
    lemma_close_weighs_nothing(
        closes_principal_custody(
            deal,
            ctx.deal_state_deal_ta,
            ctx.deal_state_client_bond_ta.key,
            ctx.deal_state_executor_bond_ta.key,
        ),
        ctx.deal_state_deal_ta.key,
        config.service_fee_owner,
        ctx.deal_state,
        w,
    );
    lemma_total_small(last, w);
    lemma_total_concat(c, p, w);
    lemma_total_concat(c + p, f, w);
    lemma_total_concat(c + p + f, b, w);
    lemma_total_concat(c + p + f + b, h, w);
    lemma_total_concat(c + p + f + b + h, pc, w);
    lemma_total_concat(c + p + f + b + h + pc, r, w);
}

/// What a finish takes out of the token account `k`: what is still owed
/// and the checker's fee out of principal custody, each bond out of its
/// custody, the stake out of holder custody.
pub open spec fn finish_releases(deal: DealState, ctx: Finish, k: Key) -> int {
    at(k, ctx.deal_state_deal_ta.key, deal.outstanding() + deal.checker_fee()) + at(
        k,
        ctx.deal_state_client_bond_ta.key,
        bond_value(deal.client_bond),
    ) + at(k, ctx.deal_state_executor_bond_ta.key, bond_value(deal.executor_bond)) + at(
        k,
        ctx.deal_state_holder_ta.key,
        stake(deal),
    )
}

/// Finish takes out of every account exactly what `finish_releases` names:
/// principal custody gives up what is still owed and the checker's fee,
/// and not what was paid before.
pub proof fn law_finish_releases(config: Config, deal: DealState, ctx: Finish, k: Key)
    ensures
        outflow(finish_plan(config, deal, ctx), k) == finish_releases(deal, ctx, k),
{
    let w = debit_from(k);
    lemma_weights_count_transfers(k);
    let c = ctx.creations(config, deal);
    let p = ctx.payment(deal);
    let f = ctx.checker_fee(deal);
    let b = ctx.bonds(config, deal);
    let h = ctx.holder_refund(deal);
    let pc = principal_close(
        deal,
        ctx.deal_state_deal_ta,
        ctx.deal_state_client_bond_ta.key,
        ctx.deal_state_executor_bond_ta.key,
        config.service_fee_owner,
        ctx.deal_state,
    );
    let last = Intent::CloseRecord { record: ctx.deal_state, destination: config.service_fee_owner };
    let r = seq![last];
    lemma_finish_creations_weigh_nothing(config, deal, ctx, w);
    lemma_total_only_if(
        deal.outstanding() > 0,
        transfer(
            ctx.deal_state_deal_ta.key,
            ctx.executor_deal_ta.key,
            ctx.deal_state,
            deal.outstanding() as u64,
        ),
        w,
    );
    if deal.checker is Some {
        let fee = deal.checker->Some_0.checker_fee;
        lemma_total_only_if(
            fee > 0,
            transfer(ctx.deal_state_deal_ta.key, ctx.checker_deal_ta.key, ctx.deal_state, fee),
            w,
        );
    }
    lemma_returns(
        deal,
        ctx.deal_state_client_bond_ta.key,
        ctx.client_bond_ta.key,
        ctx.deal_state_executor_bond_ta.key,
        ctx.executor_bond_ta.key,
        config.service_fee_owner,
        ctx.deal_state,
        k,
    );
    if deal.holder_mode is Some {
        lemma_total_small(
            transfer(
                ctx.deal_state_holder_ta.key,
                ctx.client_holder_ta.key,
                ctx.deal_state,
                deal.holder_mode->Some_0,
            ),
            w,
        );
    }
    lemma_close_weighs_nothing(
        closes_principal_custody(
            deal,
            ctx.deal_state_deal_ta,
            ctx.deal_state_client_bond_ta.key,
            ctx.deal_state_executor_bond_ta.key,
        ),
        ctx.deal_state_deal_ta.key,
        config.service_fee_owner,
        ctx.deal_state,
        w,
    );
    lemma_total_small(last, w);
    lemma_total_concat(c, p, w);
    lemma_total_concat(c + p, f, w);
    lemma_total_concat(c + p + f, b, w);
    lemma_total_concat(c + p + f + b, h, w);
    lemma_total_concat(c + p + f + b + h, pc, w);
    lemma_total_concat(c + p + f + b + h + pc, r, w);
}

/// What a cancellation pays into the token account `k`: principal and
/// checker's fee into the client's account, each bond into its owner's.
pub open spec fn cancel_receipts(deal: DealState, ctx: Cancel, k: Key) -> int {
    at(k, ctx.client_deal_ta.key, deal.amount as nat + deal.checker_fee()) + at(
        k,
        ctx.client_bond_ta.key,
        bond_value(deal.client_bond),
    ) + at(k, ctx.executor_bond_ta.key, bond_value(deal.executor_bond))
}

/// Cancel pays into every account exactly what `cancel_receipts` names: the
/// client gets the principal with the checker's fee, each bond goes to the
/// account of its owner in full, and no other account gets anything, so
/// that neither executor nor checker is paid.
pub proof fn law_cancel_receipts(config: Config, deal: DealState, ctx: Cancel, k: Key)
    requires
        deal.amount + deal.checker_fee() <= u64::MAX,
    ensures
        inflow(cancel_plan(config, deal, ctx), k) == cancel_receipts(deal, ctx, k),
{
    let w = credit_to(k);
    lemma_weights_count_transfers(k);
    let c1 = ctx.client_deal_ta.creation(ctx.payer, deal.deal_token_mint, deal.client_key);
    let c2 = bond_creation(deal.client_bond, ctx.client_bond_ta, ctx.payer, deal.client_key);
    let c3 = bond_creation(deal.executor_bond, ctx.executor_bond_ta, ctx.payer, deal.executor_key);
    let c = ctx.creations(deal);
    let p = ctx.refund(deal);
    let b = ctx.bonds(deal);
    let pc = principal_close(
        deal,
        ctx.deal_state_deal_ta,
        ctx.deal_state_client_bond_ta.key,
        ctx.deal_state_executor_bond_ta.key,
        config.service_fee_owner,
        ctx.deal_state,
    );
    let last = Intent::CloseRecord { record: ctx.deal_state, destination: ctx.initializer };
    let r = seq![last];
    lemma_creation_weighs_nothing(
        ctx.client_deal_ta,
        ctx.payer,
        deal.deal_token_mint,
        deal.client_key,
        w,
    );
    lemma_bond_creation_weighs_nothing(
        deal.client_bond,
        ctx.client_bond_ta,
        ctx.payer,
        deal.client_key,
        w,
    );
    lemma_bond_creation_weighs_nothing(
        deal.executor_bond,
        ctx.executor_bond_ta,
        ctx.payer,
        deal.executor_key,
        w,
    );
    lemma_total_concat(c1, c2, w);
    lemma_total_concat(c1 + c2, c3, w);
    lemma_total_small(
        transfer(
            ctx.deal_state_deal_ta.key,
            ctx.client_deal_ta.key,
            ctx.deal_state,
            (deal.amount + deal.checker_fee()) as u64,
        ),
        w,
    );
    lemma_returns(
        deal,
        ctx.deal_state_client_bond_ta.key,
        ctx.client_bond_ta.key,
        ctx.deal_state_executor_bond_ta.key,
        ctx.executor_bond_ta.key,
        deal.client_key,
        ctx.deal_state,
        k,
    );
    lemma_close_weighs_nothing(
        closes_principal_custody(
            deal,
            ctx.deal_state_deal_ta,
            ctx.deal_state_client_bond_ta.key,
            ctx.deal_state_executor_bond_ta.key,
        ),
        ctx.deal_state_deal_ta.key,
        config.service_fee_owner,
        ctx.deal_state,
        w,
    );
    lemma_total_small(last, w);
    lemma_total_concat(c, p, w);
    lemma_total_concat(c + p, b, w);
    lemma_total_concat(c + p + b, pc, w);
    lemma_total_concat(c + p + b + pc, r, w);
}

/// What a cancellation takes out of the token account `k`: principal and
/// checker's fee out of principal custody, each bond out of its custody.
pub open spec fn cancel_releases(deal: DealState, ctx: Cancel, k: Key) -> int {
    at(k, ctx.deal_state_deal_ta.key, deal.amount as nat + deal.checker_fee()) + at(
        k,
        ctx.deal_state_client_bond_ta.key,
        bond_value(deal.client_bond),
    ) + at(k, ctx.deal_state_executor_bond_ta.key, bond_value(deal.executor_bond))
}

/// Cancel takes out of every account exactly what `cancel_releases` names.
pub proof fn law_cancel_releases(config: Config, deal: DealState, ctx: Cancel, k: Key)
    requires
        deal.amount + deal.checker_fee() <= u64::MAX,
    ensures
        outflow(cancel_plan(config, deal, ctx), k) == cancel_releases(deal, ctx, k),
{
    let w = debit_from(k);
    lemma_weights_count_transfers(k);
    let c1 = ctx.client_deal_ta.creation(ctx.payer, deal.deal_token_mint, deal.client_key);
    let c2 = bond_creation(deal.client_bond, ctx.client_bond_ta, ctx.payer, deal.client_key);
    let c3 = bond_creation(deal.executor_bond, ctx.executor_bond_ta, ctx.payer, deal.executor_key);
    let c = ctx.creations(deal);
    let p = ctx.refund(deal);
    let b = ctx.bonds(deal);
    let pc = principal_close(
        deal,
        ctx.deal_state_deal_ta,
        ctx.deal_state_client_bond_ta.key,
        ctx.deal_state_executor_bond_ta.key,
        config.service_fee_owner,
        ctx.deal_state,
    );
    let last = Intent::CloseRecord { record: ctx.deal_state, destination: ctx.initializer };
    let r = seq![last];
    lemma_creation_weighs_nothing(
        ctx.client_deal_ta,
        ctx.payer,
        deal.deal_token_mint,
        deal.client_key,
        w,
    );
    lemma_bond_creation_weighs_nothing(
        deal.client_bond,
        ctx.client_bond_ta,
        ctx.payer,
        deal.client_key,
        w,
    );
    lemma_bond_creation_weighs_nothing(
        deal.executor_bond,
        ctx.executor_bond_ta,
        ctx.payer,
        deal.executor_key,
        w,
    );
    lemma_total_concat(c1, c2, w);
    lemma_total_concat(c1 + c2, c3, w);
    lemma_total_small(
        transfer(
            ctx.deal_state_deal_ta.key,
            ctx.client_deal_ta.key,
            ctx.deal_state,
            (deal.amount + deal.checker_fee()) as u64,
        ),
        w,
    );
    lemma_returns(
        deal,
        ctx.deal_state_client_bond_ta.key,
        ctx.client_bond_ta.key,
        ctx.deal_state_executor_bond_ta.key,
        ctx.executor_bond_ta.key,
        deal.client_key,
        ctx.deal_state,
        k,
    );
    lemma_close_weighs_nothing(
        closes_principal_custody(
            deal,
            ctx.deal_state_deal_ta,
            ctx.deal_state_client_bond_ta.key,
            ctx.deal_state_executor_bond_ta.key,
        ),
        ctx.deal_state_deal_ta.key,
        config.service_fee_owner,
        ctx.deal_state,
        w,
    );
    lemma_total_small(last, w);
    lemma_total_concat(c, p, w);
    lemma_total_concat(c + p, b, w);
    lemma_total_concat(c + p + b, pc, w);
    lemma_total_concat(c + p + b + pc, r, w);
}

/// The record is the only authority over what it holds: whatever a finish
/// or a cancellation moves, it moves under the signature of the record,
/// and nobody else signs for anything.
pub proof fn law_the_record_signs(config: Config, deal: DealState, finished_with: Finish, cancelled_with: Cancel, k: Key)
    requires
        deal.amount + deal.checker_fee() <= u64::MAX,
    ensures
        spent_by(finish_plan(config, deal, finished_with), k) == at(
            k,
            finished_with.deal_state,
            deal.outstanding() + deal.checker_fee() + bond_value(deal.client_bond) + bond_value(
                deal.executor_bond,
            ) + stake(deal),
        ),
        spent_by(cancel_plan(config, deal, cancelled_with), k) == at(
            k,
            cancelled_with.deal_state,
            deal.amount as nat + deal.checker_fee() + bond_value(deal.client_bond) + bond_value(
                deal.executor_bond,
            ),
        ),
{
    let w = signed_by(k);
    lemma_weights_count_transfers(k);
    {
        let ctx = finished_with;
        let c = ctx.creations(config, deal);
        let p = ctx.payment(deal);
        let f = ctx.checker_fee(deal);
        let b = ctx.bonds(config, deal);
        let h = ctx.holder_refund(deal);
        let pc = principal_close(
            deal,
            ctx.deal_state_deal_ta,
            ctx.deal_state_client_bond_ta.key,
            ctx.deal_state_executor_bond_ta.key,
            config.service_fee_owner,
            ctx.deal_state,
        );
        let last = Intent::CloseRecord {
            record: ctx.deal_state,
            destination: config.service_fee_owner,
        };
        let r = seq![last];
        lemma_finish_creations_weigh_nothing(config, deal, ctx, w);
        lemma_total_only_if(
            deal.outstanding() > 0,
            transfer(
                ctx.deal_state_deal_ta.key,
                ctx.executor_deal_ta.key,
                ctx.deal_state,
                deal.outstanding() as u64,
            ),
            w,
        );
        if deal.checker is Some {
            let fee = deal.checker->Some_0.checker_fee;
            lemma_total_only_if(
                fee > 0,
                transfer(ctx.deal_state_deal_ta.key, ctx.checker_deal_ta.key, ctx.deal_state, fee),
                w,
            );
        }
        lemma_returns(
            deal,
            ctx.deal_state_client_bond_ta.key,
            ctx.client_bond_ta.key,
            ctx.deal_state_executor_bond_ta.key,
            ctx.executor_bond_ta.key,
            config.service_fee_owner,
            ctx.deal_state,
            k,
        );
        if deal.holder_mode is Some {
            lemma_total_small(
                transfer(
                    ctx.deal_state_holder_ta.key,
                    ctx.client_holder_ta.key,
                    ctx.deal_state,
                    deal.holder_mode->Some_0,
                ),
                w,
            );
        }
        lemma_close_weighs_nothing(
            closes_principal_custody(
                deal,
                ctx.deal_state_deal_ta,
                ctx.deal_state_client_bond_ta.key,
                ctx.deal_state_executor_bond_ta.key,
            ),
            ctx.deal_state_deal_ta.key,
            config.service_fee_owner,
            ctx.deal_state,
            w,
        );
        lemma_total_small(last, w);
        lemma_total_concat(c, p, w);
        lemma_total_concat(c + p, f, w);
        lemma_total_concat(c + p + f, b, w);
        lemma_total_concat(c + p + f + b, h, w);
        lemma_total_concat(c + p + f + b + h, pc, w);
        lemma_total_concat(c + p + f + b + h + pc, r, w);
    }
    {
        let ctx = cancelled_with;
        let c1 = ctx.client_deal_ta.creation(ctx.payer, deal.deal_token_mint, deal.client_key);
        let c2 = bond_creation(deal.client_bond, ctx.client_bond_ta, ctx.payer, deal.client_key);
        let c3 = bond_creation(
            deal.executor_bond,
            ctx.executor_bond_ta,
            ctx.payer,
            deal.executor_key,
        );
        let c = ctx.creations(deal);
        let p = ctx.refund(deal);
        let b = ctx.bonds(deal);
        let pc = principal_close(
            deal,
            ctx.deal_state_deal_ta,
            ctx.deal_state_client_bond_ta.key,
            ctx.deal_state_executor_bond_ta.key,
            config.service_fee_owner,
            ctx.deal_state,
        );
        let last = Intent::CloseRecord { record: ctx.deal_state, destination: ctx.initializer };
        let r = seq![last];
        lemma_creation_weighs_nothing(
            ctx.client_deal_ta,
            ctx.payer,
            deal.deal_token_mint,
            deal.client_key,
            w,
        );
        lemma_bond_creation_weighs_nothing(
            deal.client_bond,
            ctx.client_bond_ta,
            ctx.payer,
            deal.client_key,
            w,
        );
        lemma_bond_creation_weighs_nothing(
            deal.executor_bond,
            ctx.executor_bond_ta,
            ctx.payer,
            deal.executor_key,
            w,
        );
        lemma_total_concat(c1, c2, w);
        lemma_total_concat(c1 + c2, c3, w);
        lemma_total_small(
            transfer(
                ctx.deal_state_deal_ta.key,
                ctx.client_deal_ta.key,
                ctx.deal_state,
                (deal.amount + deal.checker_fee()) as u64,
            ),
            w,
        );
        lemma_returns(
            deal,
            ctx.deal_state_client_bond_ta.key,
            ctx.client_bond_ta.key,
            ctx.deal_state_executor_bond_ta.key,
            ctx.executor_bond_ta.key,
            deal.client_key,
            ctx.deal_state,
            k,
        );
        lemma_close_weighs_nothing(
            closes_principal_custody(
                deal,
                ctx.deal_state_deal_ta,
                ctx.deal_state_client_bond_ta.key,
                ctx.deal_state_executor_bond_ta.key,
            ),
            ctx.deal_state_deal_ta.key,
            config.service_fee_owner,
            ctx.deal_state,
            w,
        );
        lemma_total_small(last, w);
        lemma_total_concat(c, p, w);
        lemma_total_concat(c + p, b, w);
        lemma_total_concat(c + p + b, pc, w);
        lemma_total_concat(c + p + b + pc, r, w);
    }
}

/// What the client gives for the service: the stake in holder mode, else the fee.
pub open spec fn service_charge(config: Config, args: InitializeArgs) -> nat {
    if args.holder_mode {
        config.holder_mode_amount as nat
    } else {
        args.service_fee as nat
    }
}

/// What an initialization moves under the signature of `k`: the client
/// gives principal, checker's fee, service charge and its bond; the
/// executor gives its bond; the record releases the advance.
pub open spec fn initialize_spending(config: Config, ctx: Initialize, args: InitializeArgs, k: Key) -> int {
    at(
        k,
        ctx.client,
        args.deal_amount as nat + args.fee() + service_charge(config, args) + posted_value(
            args.client_bond,
        ),
    ) + at(k, ctx.executor, posted_value(args.executor_bond)) + at(
        k,
        ctx.deal_state,
        args.advance_payment_amount as nat,
    )
}

proof fn lemma_initialize_creations_weigh_nothing(
    config: Config,
    ctx: Initialize,
    args: InitializeArgs,
    weight: spec_fn(Intent) -> int,
)
    requires
        counts_transfers(weight),
    ensures
        total(ctx.creations(config, args), weight) == 0,
{
    let a1 = ctx.service_fee_ta.creation(ctx.payer, ctx.service_mint, config.service_fee_owner);
    let a2 = ctx.client_deal_ta.creation(ctx.payer, ctx.deal_mint, ctx.client);
    let a3 = ctx.executor_deal_ta.creation(ctx.payer, ctx.deal_mint, ctx.executor);
    let a4 = ctx.deal_state_deal_ta.creation(ctx.payer, ctx.deal_mint, ctx.deal_state);
    lemma_creation_weighs_nothing(
        ctx.service_fee_ta,
        ctx.payer,
        ctx.service_mint,
        config.service_fee_owner,
        weight,
    );
    lemma_creation_weighs_nothing(ctx.client_deal_ta, ctx.payer, ctx.deal_mint, ctx.client, weight);
    lemma_creation_weighs_nothing(
        ctx.executor_deal_ta,
        ctx.payer,
        ctx.deal_mint,
        ctx.executor,
        weight,
    );
    lemma_creation_weighs_nothing(
        ctx.deal_state_deal_ta,
        ctx.payer,
        ctx.deal_mint,
        ctx.deal_state,
        weight,
    );
    lemma_total_concat(a1, a2, weight);
    lemma_total_concat(a1 + a2, a3, weight);
    lemma_total_concat(a1 + a2 + a3, a4, weight);
    let a = ctx.deal_creations(config);
    let b = ctx.client_posting_creation(args);
    let c = ctx.executor_posting_creation(args);
    let d = ctx.holder_creation(config, args);
    lemma_creation_weighs_nothing(
        ctx.deal_state_client_bond_ta,
        ctx.payer,
        ctx.client_bond_mint.key,
        ctx.deal_state,
        weight,
    );
    lemma_creation_weighs_nothing(
        ctx.deal_state_executor_bond_ta,
        ctx.payer,
        ctx.executor_bond_mint.key,
        ctx.deal_state,
        weight,
    );
    lemma_creation_weighs_nothing(
        ctx.deal_state_holder_ta,
        ctx.payer,
        config.holder_mint,
        ctx.deal_state,
        weight,
    );
    lemma_total_concat(a, b, weight);
    lemma_total_concat(a + b, c, weight);
    lemma_total_concat(a + b + c, d, weight);
}

proof fn lemma_posting_weight(bond: Option<u64>, source: Key, custody: Key, owner: Key, k: Key)
    ensures
        total(bond_posting(bond, source, custody, owner), signed_by(k)) == at(
            k,
            owner,
            posted_value(bond),
        ),
        total(bond_posting(bond, source, custody, owner), credit_to(k)) == at(
            k,
            custody,
            posted_value(bond),
        ),
        total(bond_posting(bond, source, custody, owner), debit_from(k)) == at(
            k,
            source,
            posted_value(bond),
        ),
        total(bond_posting(bond, source, custody, owner), moved()) == posted_value(bond),
        forall|f: Key, a: Key| #[trigger]
            total(bond_posting(bond, source, custody, owner), drawn_by(f, a)) == at_both(
                f,
                a,
                source,
                owner,
                posted_value(bond),
            ),
{
    assert forall|f: Key, a: Key| #[trigger]
        total(bond_posting(bond, source, custody, owner), drawn_by(f, a)) == at_both(
            f,
            a,
            source,
            owner,
            posted_value(bond),
        ) by {
        match bond {
            Some(amount) => {
                lemma_total_only_if(
                    amount > 0,
                    transfer(source, custody, owner, amount),
                    drawn_by(f, a),
                );
            },
            None => {},
        }
    }
    match bond {
        Some(amount) => {
            lemma_total_only_if(amount > 0, transfer(source, custody, owner, amount), debit_from(k));
            lemma_total_only_if(amount > 0, transfer(source, custody, owner, amount), signed_by(k));
            lemma_total_only_if(amount > 0, transfer(source, custody, owner, amount), credit_to(k));
            lemma_total_only_if(amount > 0, transfer(source, custody, owner, amount), moved());
        },
        None => {},
    }
}

/// For every valid initialization, what leaves the client is the
/// principal, the checker's fee, the service charge and the client's bond;
/// what leaves the executor is the executor's bond; the record releases
/// the advance; and nobody else gives anything.
pub proof fn law_initialize_spending(
    config: Config,
    ctx: Initialize,
    args: InitializeArgs,
    now: i64,
    k: Key,
)
    requires
        initialize_error(config, None, ctx, args, now) is None,
    ensures
        spent_by(initialize_plan(config, ctx, args), k) == initialize_spending(
            config,
            ctx,
            args,
            k,
        ),
{
    let w = signed_by(k);
    lemma_weights_count_transfers(k);
    let c = ctx.creations(config, args);
    let s = ctx.service_fee(config, args.holder_mode, args.service_fee);
    let d = ctx.deposit((args.deal_amount + args.fee()) as u64);
    let b1 = bond_posting(
        args.client_bond,
        ctx.client_bond_ta.key,
        ctx.deal_state_client_bond_ta.key,
        ctx.client,
    );
    let b2 = bond_posting(
        args.executor_bond,
        ctx.executor_bond_ta.key,
        ctx.deal_state_executor_bond_ta.key,
        ctx.executor,
    );
    let b = ctx.bonds(args.client_bond, args.executor_bond);
    let a = ctx.advance_payment(args.advance_payment_amount);
    lemma_initialize_creations_weigh_nothing(config, ctx, args, w);
    if args.holder_mode {
        lemma_total_small(
            transfer(
                ctx.client_holder_ta.key,
                ctx.deal_state_holder_ta.key,
                ctx.client,
                config.holder_mode_amount,
            ),
            w,
        );
    } else {
        lemma_total_only_if(
            args.service_fee > 0,
            transfer(ctx.client_deal_ta.key, ctx.service_fee_ta.key, ctx.client, args.service_fee),
            w,
        );
    }
    lemma_total_small(
        transfer(
            ctx.client_deal_ta.key,
            ctx.deal_state_deal_ta.key,
            ctx.client,
            (args.deal_amount + args.fee()) as u64,
        ),
        w,
    );
    lemma_posting_weight(
        args.client_bond,
        ctx.client_bond_ta.key,
        ctx.deal_state_client_bond_ta.key,
        ctx.client,
        k,
    );
    lemma_posting_weight(
        args.executor_bond,
        ctx.executor_bond_ta.key,
        ctx.deal_state_executor_bond_ta.key,
        ctx.executor,
        k,
    );
    lemma_total_concat(b1, b2, w);
    lemma_total_only_if(
        args.advance_payment_amount > 0,
        transfer(
            ctx.deal_state_deal_ta.key,
            ctx.executor_deal_ta.key,
            ctx.deal_state,
            args.advance_payment_amount,
        ),
        w,
    );
    lemma_total_concat(c, s, w);
    lemma_total_concat(c + s, d, w);
    lemma_total_concat(c + s + d, b, w);
    lemma_total_concat(c + s + d + b, a, w);
}

/// What an initialization pays into the token account `k`: principal and
/// checker's fee into principal custody, the flat fee into the account of
/// the service fee recipient or the stake into holder custody, each bond
/// into its custody, the advance into the executor's account.
pub open spec fn initialize_receipts(config: Config, ctx: Initialize, args: InitializeArgs, k: Key) -> int {
    at(k, ctx.deal_state_deal_ta.key, args.deal_amount as nat + args.fee()) + at(
        k,
        ctx.service_fee_ta.key,
        if args.holder_mode {
            0
        } else {
            args.service_fee as nat
        },
    ) + at(
        k,
        ctx.deal_state_holder_ta.key,
        if args.holder_mode {
            config.holder_mode_amount as nat
        } else {
            0
        },
    ) + at(k, ctx.deal_state_client_bond_ta.key, posted_value(args.client_bond)) + at(
        k,
        ctx.deal_state_executor_bond_ta.key,
        posted_value(args.executor_bond),
    ) + at(k, ctx.executor_deal_ta.key, args.advance_payment_amount as nat)
}

/// For every valid initialization, every account receives exactly what
/// `initialize_receipts` names, and no other account receives anything.
pub proof fn law_initialize_receipts(
    config: Config,
    ctx: Initialize,
    args: InitializeArgs,
    now: i64,
    k: Key,
)
    requires
        initialize_error(config, None, ctx, args, now) is None,
    ensures
        inflow(initialize_plan(config, ctx, args), k) == initialize_receipts(config, ctx, args, k),
{
    let w = credit_to(k);
    lemma_weights_count_transfers(k);
    let c = ctx.creations(config, args);
    let s = ctx.service_fee(config, args.holder_mode, args.service_fee);
    let d = ctx.deposit((args.deal_amount + args.fee()) as u64);
    let b1 = bond_posting(
        args.client_bond,
        ctx.client_bond_ta.key,
        ctx.deal_state_client_bond_ta.key,
        ctx.client,
    );
    let b2 = bond_posting(
        args.executor_bond,
        ctx.executor_bond_ta.key,
        ctx.deal_state_executor_bond_ta.key,
        ctx.executor,
    );
    let b = ctx.bonds(args.client_bond, args.executor_bond);
    let a = ctx.advance_payment(args.advance_payment_amount);
    lemma_initialize_creations_weigh_nothing(config, ctx, args, w);
    if args.holder_mode {
        lemma_total_small(
            transfer(
                ctx.client_holder_ta.key,
                ctx.deal_state_holder_ta.key,
                ctx.client,
                config.holder_mode_amount,
            ),
            w,
        );
    } else {
        lemma_total_only_if(
            args.service_fee > 0,
            transfer(ctx.client_deal_ta.key, ctx.service_fee_ta.key, ctx.client, args.service_fee),
            w,
        );
    }
    lemma_total_small(
        transfer(
            ctx.client_deal_ta.key,
            ctx.deal_state_deal_ta.key,
            ctx.client,
            (args.deal_amount + args.fee()) as u64,
        ),
        w,
    );
    lemma_posting_weight(
        args.client_bond,
        ctx.client_bond_ta.key,
        ctx.deal_state_client_bond_ta.key,
        ctx.client,
        k,
    );
    lemma_posting_weight(
        args.executor_bond,
        ctx.executor_bond_ta.key,
        ctx.deal_state_executor_bond_ta.key,
        ctx.executor,
        k,
    );
    lemma_total_concat(b1, b2, w);
    lemma_total_only_if(
        args.advance_payment_amount > 0,
        transfer(
            ctx.deal_state_deal_ta.key,
            ctx.executor_deal_ta.key,
            ctx.deal_state,
            args.advance_payment_amount,
        ),
        w,
    );
    lemma_total_concat(c, s, w);
    lemma_total_concat(c + s, d, w);
    lemma_total_concat(c + s + d, b, w);
    lemma_total_concat(c + s + d + b, a, w);
}

/// What an initialization gives in all under the signature of the client.
pub open spec fn client_gives(config: Config, args: InitializeArgs) -> nat {
    args.deal_amount as nat + args.fee() + service_charge(config, args) + posted_value(
        args.client_bond,
    )
}

/// For every valid initialization, the transfers out of the client come
/// to the principal, the checker's fee, the service charge and the
/// client's bond; the transfers out of the executor come to the executor's
/// bond; the record releases the advance; and there is no other transfer.
/// A valid initialization has three different signers: client and executor
/// differ, and the record stands at the key of neither.
pub proof fn law_initialize_takes_from_each_party(
    config: Config,
    ctx: Initialize,
    args: InitializeArgs,
    now: i64,
    k: Key,
)
    requires
        initialize_error(config, None, ctx, args, now) is None,
    ensures
        ctx.client != ctx.executor,
        ctx.deal_state != ctx.client,
        ctx.deal_state != ctx.executor,
        spent_by(initialize_plan(config, ctx, args), ctx.client) == client_gives(config, args),
        spent_by(initialize_plan(config, ctx, args), ctx.executor) == posted_value(
            args.executor_bond,
        ),
        spent_by(initialize_plan(config, ctx, args), ctx.deal_state)
            == args.advance_payment_amount,
        k != ctx.client && k != ctx.executor && k != ctx.deal_state ==> spent_by(
            initialize_plan(config, ctx, args),
            k,
        ) == 0,
{
    law_initialize_spending(config, ctx, args, now, ctx.client);
    law_initialize_spending(config, ctx, args, now, ctx.executor);
    law_initialize_spending(config, ctx, args, now, ctx.deal_state);
    law_initialize_spending(config, ctx, args, now, k);
}

/// What an initialization takes out of the token account `k`: principal,
/// checker's fee and flat fee out of the client's account of the deal
/// asset, the stake out of the client's holder account, each bond out of
/// the account of the party that posts it, the advance out of principal
/// custody.
pub open spec fn initialize_releases(config: Config, ctx: Initialize, args: InitializeArgs, k: Key) -> int {
    at(
        k,
        ctx.client_deal_ta.key,
        args.deal_amount as nat + args.fee() + if args.holder_mode {
            0
        } else {
            args.service_fee as nat
        },
    ) + at(
        k,
        ctx.client_holder_ta.key,
        if args.holder_mode {
            config.holder_mode_amount as nat
        } else {
            0
        },
    ) + at(k, ctx.client_bond_ta.key, posted_value(args.client_bond)) + at(
        k,
        ctx.executor_bond_ta.key,
        posted_value(args.executor_bond),
    ) + at(k, ctx.deal_state_deal_ta.key, args.advance_payment_amount as nat)
}

/// For every valid initialization, every account gives exactly what
/// `initialize_releases` names, and no other account gives anything.
pub proof fn law_initialize_releases(
    config: Config,
    ctx: Initialize,
    args: InitializeArgs,
    now: i64,
    k: Key,
)
    requires
        initialize_error(config, None, ctx, args, now) is None,
    ensures
        outflow(initialize_plan(config, ctx, args), k) == initialize_releases(config, ctx, args, k),
{
    let w = debit_from(k);
    lemma_weights_count_transfers(k);
    let c = ctx.creations(config, args);
    let s = ctx.service_fee(config, args.holder_mode, args.service_fee);
    let d = ctx.deposit((args.deal_amount + args.fee()) as u64);
    let b1 = bond_posting(
        args.client_bond,
        ctx.client_bond_ta.key,
        ctx.deal_state_client_bond_ta.key,
        ctx.client,
    );
    let b2 = bond_posting(
        args.executor_bond,
        ctx.executor_bond_ta.key,
        ctx.deal_state_executor_bond_ta.key,
        ctx.executor,
    );
    let b = ctx.bonds(args.client_bond, args.executor_bond);
    let a = ctx.advance_payment(args.advance_payment_amount);
    lemma_initialize_creations_weigh_nothing(config, ctx, args, w);
    if args.holder_mode {
        lemma_total_small(
            transfer(
                ctx.client_holder_ta.key,
                ctx.deal_state_holder_ta.key,
                ctx.client,
                config.holder_mode_amount,
            ),
            w,
        );
    } else {
        lemma_total_only_if(
            args.service_fee > 0,
            transfer(ctx.client_deal_ta.key, ctx.service_fee_ta.key, ctx.client, args.service_fee),
            w,
        );
    }
    lemma_total_small(
        transfer(
            ctx.client_deal_ta.key,
            ctx.deal_state_deal_ta.key,
            ctx.client,
            (args.deal_amount + args.fee()) as u64,
        ),
        w,
    );
    lemma_posting_weight(
        args.client_bond,
        ctx.client_bond_ta.key,
        ctx.deal_state_client_bond_ta.key,
        ctx.client,
        k,
    );
    lemma_posting_weight(
        args.executor_bond,
        ctx.executor_bond_ta.key,
        ctx.deal_state_executor_bond_ta.key,
        ctx.executor,
        k,
    );
    lemma_total_concat(b1, b2, w);
    lemma_total_only_if(
        args.advance_payment_amount > 0,
        transfer(
            ctx.deal_state_deal_ta.key,
            ctx.executor_deal_ta.key,
            ctx.deal_state,
            args.advance_payment_amount,
        ),
        w,
    );
    lemma_total_concat(c, s, w);
    lemma_total_concat(c + s, d, w);
    lemma_total_concat(c + s + d, b, w);
    lemma_total_concat(c + s + d + b, a, w);
}

/// What an initialization takes out of the token account `from` under the
/// signature of `who`: the client signs for its account of the deal asset,
/// its holder account and the account of its bond; the executor signs for
/// the account of its bond; the record signs for principal custody.
pub open spec fn initialize_draws(
    config: Config,
    ctx: Initialize,
    args: InitializeArgs,
    from: Key,
    who: Key,
) -> int {
    at_both(
        from,
        who,
        ctx.client_deal_ta.key,
        ctx.client,
        args.deal_amount as nat + args.fee() + if args.holder_mode {
            0
        } else {
            args.service_fee as nat
        },
    ) + at_both(
        from,
        who,
        ctx.client_holder_ta.key,
        ctx.client,
        if args.holder_mode {
            config.holder_mode_amount as nat
        } else {
            0
        },
    ) + at_both(from, who, ctx.client_bond_ta.key, ctx.client, posted_value(args.client_bond))
        + at_both(
        from,
        who,
        ctx.executor_bond_ta.key,
        ctx.executor,
        posted_value(args.executor_bond),
    ) + at_both(
        from,
        who,
        ctx.deal_state_deal_ta.key,
        ctx.deal_state,
        args.advance_payment_amount as nat,
    )
}

/// For every valid initialization, every account gives under every
/// signature exactly what `initialize_draws` names. With
/// `law_initialize_sources_belong`: whatever leaves an account leaves it
/// under the signature of the party to which the account belongs, and the
/// accounts of the client give, in all, what `client_gives` names.
pub proof fn law_initialize_draws(
    config: Config,
    ctx: Initialize,
    args: InitializeArgs,
    now: i64,
    from: Key,
    who: Key,
)
    requires
        initialize_error(config, None, ctx, args, now) is None,
    ensures
        withdrawn(initialize_plan(config, ctx, args), from, who) == initialize_draws(
            config,
            ctx,
            args,
            from,
            who,
        ),
        initialize_draws(config, ctx, args, ctx.client_deal_ta.key, ctx.client)
            + (if ctx.client_holder_ta.key != ctx.client_deal_ta.key {
            initialize_draws(config, ctx, args, ctx.client_holder_ta.key, ctx.client)
        } else {
            0
        }) + (if ctx.client_bond_ta.key != ctx.client_deal_ta.key && ctx.client_bond_ta.key
            != ctx.client_holder_ta.key {
            initialize_draws(config, ctx, args, ctx.client_bond_ta.key, ctx.client)
        } else {
            0
        }) == client_gives(config, args),
{
    let w = drawn_by(from, who);
    assert(counts_transfers(w));
    let c = ctx.creations(config, args);
    let s = ctx.service_fee(config, args.holder_mode, args.service_fee);
    let d = ctx.deposit((args.deal_amount + args.fee()) as u64);
    let b1 = bond_posting(
        args.client_bond,
        ctx.client_bond_ta.key,
        ctx.deal_state_client_bond_ta.key,
        ctx.client,
    );
    let b2 = bond_posting(
        args.executor_bond,
        ctx.executor_bond_ta.key,
        ctx.deal_state_executor_bond_ta.key,
        ctx.executor,
    );
    let b = ctx.bonds(args.client_bond, args.executor_bond);
    let a = ctx.advance_payment(args.advance_payment_amount);
    lemma_initialize_creations_weigh_nothing(config, ctx, args, w);
    if args.holder_mode {
        lemma_total_small(
            transfer(
                ctx.client_holder_ta.key,
                ctx.deal_state_holder_ta.key,
                ctx.client,
                config.holder_mode_amount,
            ),
            w,
        );
    } else {
        lemma_total_only_if(
            args.service_fee > 0,
            transfer(ctx.client_deal_ta.key, ctx.service_fee_ta.key, ctx.client, args.service_fee),
            w,
        );
    }
    lemma_total_small(
        transfer(
            ctx.client_deal_ta.key,
            ctx.deal_state_deal_ta.key,
            ctx.client,
            (args.deal_amount + args.fee()) as u64,
        ),
        w,
    );
    lemma_posting_weight(
        args.client_bond,
        ctx.client_bond_ta.key,
        ctx.deal_state_client_bond_ta.key,
        ctx.client,
        from,
    );
    lemma_posting_weight(
        args.executor_bond,
        ctx.executor_bond_ta.key,
        ctx.deal_state_executor_bond_ta.key,
        ctx.executor,
        from,
    );
    lemma_total_concat(b1, b2, w);
    lemma_total_only_if(
        args.advance_payment_amount > 0,
        transfer(
            ctx.deal_state_deal_ta.key,
            ctx.executor_deal_ta.key,
            ctx.deal_state,
            args.advance_payment_amount,
        ),
        w,
    );
    lemma_total_concat(c, s, w);
    lemma_total_concat(c + s, d, w);
    lemma_total_concat(c + s + d, b, w);
    lemma_total_concat(c + s + d + b, a, w);
}

/// For every valid initialization, each account that gives belongs to the
/// one who signs for it: the client's accounts of the deal asset, of the
/// holder asset and of its bond hold that asset for the client, the
/// executor's account of its bond holds it for the executor, and principal
/// custody holds the deal asset for the record. The client's account of
/// the deal asset and principal custody are created for their owner where
/// they do not exist; the others exist.
pub proof fn law_initialize_sources_belong(
    config: Config,
    ctx: Initialize,
    args: InitializeArgs,
    now: i64,
)
    requires
        initialize_error(config, None, ctx, args, now) is None,
    ensures
        ctx.client_deal_ta.spec_fits(ctx.deal_mint, ctx.client, false),
        ctx.deal_state_deal_ta.spec_fits(ctx.deal_mint, ctx.deal_state, false),
        args.holder_mode ==> ctx.client_holder_ta.spec_fits(config.holder_mint, ctx.client, true),
        args.client_bond is Some ==> ctx.client_bond_ta.spec_fits(
            ctx.client_bond_mint.key,
            ctx.client,
            true,
        ),
        args.executor_bond is Some ==> ctx.executor_bond_ta.spec_fits(
            ctx.executor_bond_mint.key,
            ctx.executor,
            true,
        ),
{
}

/// The bonds that were posted when a deal was created leave custody in
/// full when the deal ends, by finish as by cancel: what the postings move
/// is what the returns move, the worth of both bonds.
pub proof fn law_bonds_are_returned(
    config: Config,
    created_with: Initialize,
    args: InitializeArgs,
    finished_with: Finish,
    cancelled_with: Cancel,
)
    ensures
        ({
            let deal = new_deal(config, created_with, args);
            let worth = bond_value(deal.client_bond) + bond_value(deal.executor_bond);
            &&& total(created_with.bonds(args.client_bond, args.executor_bond), moved()) == worth
            &&& total(finished_with.bonds(config, deal), moved()) == worth
            &&& total(cancelled_with.bonds(deal), moved()) == worth
        }),
{
    let deal = new_deal(config, created_with, args);
    let b1 = bond_posting(
        args.client_bond,
        created_with.client_bond_ta.key,
        created_with.deal_state_client_bond_ta.key,
        created_with.client,
    );
    let b2 = bond_posting(
        args.executor_bond,
        created_with.executor_bond_ta.key,
        created_with.deal_state_executor_bond_ta.key,
        created_with.executor,
    );
    lemma_posting_weight(
        args.client_bond,
        created_with.client_bond_ta.key,
        created_with.deal_state_client_bond_ta.key,
        created_with.client,
        created_with.client,
    );
    lemma_posting_weight(
        args.executor_bond,
        created_with.executor_bond_ta.key,
        created_with.deal_state_executor_bond_ta.key,
        created_with.executor,
        created_with.client,
    );
    lemma_total_concat(b1, b2, moved());
    lemma_returns(
        deal,
        finished_with.deal_state_client_bond_ta.key,
        finished_with.client_bond_ta.key,
        finished_with.deal_state_executor_bond_ta.key,
        finished_with.executor_bond_ta.key,
        config.service_fee_owner,
        finished_with.deal_state,
        created_with.client,
    );
    lemma_returns(
        deal,
        cancelled_with.deal_state_client_bond_ta.key,
        cancelled_with.client_bond_ta.key,
        cancelled_with.deal_state_executor_bond_ta.key,
        cancelled_with.executor_bond_ta.key,
        deal.client_key,
        cancelled_with.deal_state,
        created_with.client,
    );
}

/// Where a terminal transition is accepted, each account that receives a
/// bond holds, if it exists, the bond's asset for the party that posted
/// it; an account that does not exist is created for that party.
pub proof fn law_bonds_reach_their_owners(
    config: Config,
    deal: DealState,
    finished_with: Finish,
    cancelled_with: Cancel,
    now: i64,
)
    ensures
        finish_error(config, deal, finished_with, now) is None ==> {
            &&& deal.client_bond matches Some(b) ==> finished_with.client_bond_ta.spec_fits(
                b.mint,
                deal.client_key,
                false,
            )
            &&& deal.executor_bond matches Some(b) ==> finished_with.executor_bond_ta.spec_fits(
                b.mint,
                deal.executor_key,
                false,
            )
        },
        cancel_error(config, deal, cancelled_with, now) is None ==> {
            &&& deal.client_bond matches Some(b) ==> cancelled_with.client_bond_ta.spec_fits(
                b.mint,
                deal.client_key,
                false,
            )
            &&& deal.executor_bond matches Some(b) ==> cancelled_with.executor_bond_ta.spec_fits(
                b.mint,
                deal.executor_key,
                false,
            )
        },
{
}

/// A request for one of the two terminal transitions.
pub enum Terminal {
    Finish(Finish),
    Cancel(Cancel),
}

/// What a terminal request comes to.
pub open spec fn terminal_outcome(config: Config, record: Option<DealState>, request: Terminal, now: i64) -> Result<
    Seq<Intent>,
    DealError,
> {
    match request {
        Terminal::Finish(ctx) => finish_outcome(config, record, ctx, now),
        Terminal::Cancel(ctx) => cancel_outcome(config, record, ctx, now),
    }
}

/// What is stored after a terminal request.
pub open spec fn after_terminal(config: Config, record: Option<DealState>, request: Terminal, now: i64) -> Option<
    DealState,
> {
    stored_after(record, terminal_outcome(config, record, request, now))
}

/// Of finish and cancel at most one is ever accepted for a deal: once one
/// was, the record is gone, and every later attempt at either, by whomever
/// and whenever, is refused because no record is found.
pub proof fn law_terminal_once(
    config: Config,
    record: Option<DealState>,
    first: Terminal,
    first_time: i64,
    second: Terminal,
    second_time: i64,
)
    requires
        terminal_outcome(config, record, first, first_time) is Ok,
    ensures
        after_terminal(config, record, first, first_time) is None,
        terminal_outcome(
            config,
            after_terminal(config, record, first, first_time),
            second,
            second_time,
        ) == Err::<Seq<Intent>, DealError>(DealError::Access(AccessError::RecordNotFound)),
{
}

/// No deal is finished by its checker, and none is cancelled by anybody,
/// before a deadline that the deal has.
pub proof fn law_deadline_gates(
    config: Config,
    deal: DealState,
    finished_with: Finish,
    cancelled_with: Cancel,
    now: i64,
)
    requires
        deal.deadline_ts is Some,
    ensures
        finish_outcome(config, Some(deal), finished_with, now) is Ok && Initializer::spec_try_from(
            config,
            deal,
            finished_with.initializer,
        ) == Some(Initializer::Checker) ==> now >= deal.deadline_ts->Some_0,
        cancel_outcome(config, Some(deal), cancelled_with, now) is Ok ==> now
            >= deal.deadline_ts->Some_0,
{
}

/// What was paid never shrinks and never exceeds the principal: a partial
/// payment that is accepted adds its amount and stays within the
/// principal, and the assignment of a checker leaves both untouched.
pub proof fn law_paid_amount_grows(
    config: Config,
    deal: DealState,
    payment: PartiallyPay,
    args: PartiallyPayArgs,
    update: UpdateChecker,
    new_checker_fee: u64,
)
    requires
        deal.wf(),
    ensures
        partially_pay_error(deal, payment, args) is None ==> {
            let next = paid(deal, args.amount);
            &&& next.paid_amount == deal.paid_amount + args.amount
            &&& next.paid_amount <= next.amount
            &&& next.amount == deal.amount
            &&& next.wf()
        },
        update_checker_error(config, deal, update, new_checker_fee) is None ==> {
            let next = with_new_checker(deal, update, new_checker_fee);
            &&& next.paid_amount == deal.paid_amount
            &&& next.amount == deal.amount
            &&& next.wf()
        },
{
}

/// A request for any transition, with the time at which it is made.
pub enum Request {
    Initialize(Initialize, InitializeArgs, i64),
    PartiallyPay(PartiallyPay, PartiallyPayArgs),
    UpdateChecker(UpdateChecker, u64),
    Finish(Finish, i64),
    Cancel(Cancel, i64),
}

/// What is stored after a request, accepted or refused.
pub open spec fn stored_next(config: Config, record: Option<DealState>, request: Request) -> Option<
    DealState,
> {
    match request {
        Request::Initialize(ctx, args, now) => if initialize_error(config, record, ctx, args, now)
            is None {
            Some(new_deal(config, ctx, args))
        } else {
            record
        },
        Request::PartiallyPay(ctx, args) => match record {
            Some(deal) => if partially_pay_error(deal, ctx, args) is None {
                Some(paid(deal, args.amount))
            } else {
                record
            },
            None => None,
        },
        Request::UpdateChecker(ctx, fee) => match record {
            Some(deal) => if update_checker_error(config, deal, ctx, fee) is None {
                Some(with_new_checker(deal, ctx, fee))
            } else {
                record
            },
            None => None,
        },
        Request::Finish(ctx, now) => stored_after(record, finish_outcome(config, record, ctx, now)),
        Request::Cancel(ctx, now) => stored_after(record, cancel_outcome(config, record, ctx, now)),
    }
}

/// What is stored after a row of requests, one after the other.
pub open spec fn stored_at_last(config: Config, record: Option<DealState>, requests: Seq<Request>) -> Option<
    DealState,
>
    decreases requests.len(),
{
    if requests.len() == 0 {
        record
    } else {
        stored_next(config, stored_at_last(config, record, requests.drop_last()), requests.last())
    }
}

/// Whether nothing is stored or what is stored is well formed.
pub open spec fn sound(record: Option<DealState>) -> bool {
    match record {
        Some(deal) => deal.wf(),
        None => true,
    }
}

/// No request, accepted or refused, leaves a record that is not well
/// formed; and as long as the same deal is stored, what was paid has not
/// shrunk and the principal has not changed.
pub proof fn law_requests_keep_records_sound(
    config: Config,
    record: Option<DealState>,
    request: Request,
)
    requires
        sound(record),
    ensures
        sound(stored_next(config, record, request)),
        record is Some && stored_next(config, record, request) is Some ==> {
            let before = record->Some_0;
            let after = stored_next(config, record, request)->Some_0;
            &&& before.paid_amount <= after.paid_amount
            &&& before.amount == after.amount
            &&& before.client_key == after.client_key
            &&& before.executor_key == after.executor_key
        },
{
}

/// Whatever requests are made in whatever order, starting from nothing,
/// every record that is ever stored is well formed: its parties differ, it
/// has a principal, and what was paid does not exceed the principal.
pub proof fn law_every_stored_record_is_sound(config: Config, requests: Seq<Request>)
    ensures
        sound(stored_at_last(config, None, requests)),
    decreases requests.len(),
{
    if requests.len() > 0 {
        law_every_stored_record_is_sound(config, requests.drop_last());
        law_requests_keep_records_sound(
            config,
            stored_at_last(config, None, requests.drop_last()),
            requests.last(),
        );
    }
}

/// Every record that an initialization writes is well formed, has as paid
/// what was released in advance, and has a deadline, if any, that is still
/// to come.
pub proof fn law_new_deal_is_well_formed(
    config: Config,
    ctx: Initialize,
    args: InitializeArgs,
    now: i64,
)
    requires
        initialize_error(config, None, ctx, args, now) is None,
    ensures
        new_deal(config, ctx, args).wf(),
        new_deal(config, ctx, args).paid_amount == args.advance_payment_amount,
        new_deal(config, ctx, args).paid_amount < new_deal(config, ctx, args).amount,
        !new_deal(config, ctx, args).spec_deadline_expired(now),
        args.deadline_ts is Some ==> new_deal(config, ctx, args).spec_before_deadline(now),
{
}

/// A deadline has come from its own instant on, for creation as for the
/// terminal transitions: a deal with a deadline is, at any time, either
/// before its deadline or expired, and never both. So a deal cannot be
/// created at a time at which it could be cancelled at once.
pub proof fn law_one_deadline(
    config: Config,
    created_with: Initialize,
    args: InitializeArgs,
    cancelled_with: Cancel,
    deal: DealState,
    now: i64,
)
    ensures
        deal.deadline_ts is Some ==> (deal.spec_deadline_expired(now) <==> now
            >= deal.deadline_ts->Some_0),
        deal.deadline_ts is Some ==> (deal.spec_before_deadline(now) <==> !deal.spec_deadline_expired(
            now,
        )),
        args.deadline_ts is Some && initialize_error(config, None, created_with, args, now)
            is None ==> cancel_outcome(
            config,
            Some(new_deal(config, created_with, args)),
            cancelled_with,
            now,
        ) is Err,
{
}

} // verus!
