//! What a transition sees of the ledger, and what it asks the ledger to do.
//!
//! A transition never moves value itself. It reads the accounts that the
//! request supplies and answers with a plan: the movements that the ledger
//! is to carry out, in order, all or none.

use vstd::prelude::*;
use crate::keys::Key;

verus! {

/// The data of an initialized token account.
#[derive(Clone, Copy, Debug, PartialEq, Eq)]
pub struct TokenAccount {
    pub mint: Key,
    pub owner: Key,
    pub amount: u64,
}

/// An address at which a token account exists or may be created.
#[derive(Clone, Copy, Debug, PartialEq, Eq)]
pub struct TokenSlot {
    pub key: Key,
    /// The token account at this address, if one is initialized.
    pub account: Option<TokenAccount>,
    /// The base deposit that the address holds.
    pub lamports: u64,
}

/// An address at which the description of an asset is expected.
#[derive(Clone, Copy, Debug, PartialEq, Eq)]
pub struct MintSlot {
    pub key: Key,
    /// Whether the address holds the description of an asset.
    pub initialized: bool,
}

/// One movement that the ledger is asked to carry out.
#[derive(Clone, Copy, Debug, PartialEq, Eq)]
pub enum Intent {
    /// Create the token account `account` for `mint`, owned by `owner`, at the cost of `payer`.
    CreateAccount { payer: Key, mint: Key, owner: Key, account: Key },
    /// Move `amount` from the token account `from` to `to`, signed by `authority`.
    Transfer { from: Key, to: Key, authority: Key, amount: u64 },
    /// Close the token account `account` and send its base deposit to `destination`.
    CloseAccount { account: Key, destination: Key, authority: Key },
    /// Destroy the deal record and send its storage deposit to `destination`.
    CloseRecord { record: Key, destination: Key },
}

/// What `intent` adds to the token account `to`.
pub open spec fn credit(intent: Intent, to: Key) -> int {
    match intent {
        Intent::Transfer { to: t, amount, .. } => if t == to { amount as int } else { 0 },
        _ => 0,
    }
}

/// What `intent` takes out of the token account `from`.
pub open spec fn debit(intent: Intent, from: Key) -> int {
    match intent {
        Intent::Transfer { from: f, amount, .. } => if f == from { amount as int } else { 0 },
        _ => 0,
    }
}

/// What `intent` moves under the signature of `authority`.
pub open spec fn signed(intent: Intent, authority: Key) -> int {
    match intent {
        Intent::Transfer { authority: a, amount, .. } => if a == authority { amount as int } else { 0 },
        _ => 0,
    }
}

/// What `intent` takes out of the token account `from` under the signature
/// of `authority`.
pub open spec fn drawn(intent: Intent, from: Key, authority: Key) -> int {
    match intent {
        Intent::Transfer { from: f, authority: a, amount, .. } => if f == from && a == authority {
            amount as int
        } else {
            0
        },
        _ => 0,
    }
}

/// The sum of `weight` over a plan.
pub open spec fn total(plan: Seq<Intent>, weight: spec_fn(Intent) -> int) -> int
    decreases plan.len(),
{
    if plan.len() == 0 {
        0
    } else {
        total(plan.drop_last(), weight) + weight(plan.last())
    }
}

/// The weight that counts what goes into the token account `to`.
pub open spec fn credit_to(to: Key) -> spec_fn(Intent) -> int {
    |i: Intent| credit(i, to)
}

/// The weight that counts what leaves the token account `from`.
pub open spec fn debit_from(from: Key) -> spec_fn(Intent) -> int {
    |i: Intent| debit(i, from)
}

/// The weight that counts what moves under the signature of `authority`.
pub open spec fn signed_by(authority: Key) -> spec_fn(Intent) -> int {
    |i: Intent| signed(i, authority)
}

/// The weight that counts what leaves the token account `from` under the
/// signature of `authority`.
pub open spec fn drawn_by(from: Key, authority: Key) -> spec_fn(Intent) -> int {
    |i: Intent| drawn(i, from, authority)
}

/// Everything that a plan moves out of the token account `from` under the
/// signature of `authority`.
pub open spec fn withdrawn(plan: Seq<Intent>, from: Key, authority: Key) -> int {
    total(plan, drawn_by(from, authority))
}

/// Everything that a plan moves into the token account `to`.
pub open spec fn inflow(plan: Seq<Intent>, to: Key) -> int {
    total(plan, credit_to(to))
}

/// Everything that a plan moves out of the token account `from`.
pub open spec fn outflow(plan: Seq<Intent>, from: Key) -> int {
    total(plan, debit_from(from))
}

/// Everything that a plan moves under the signature of `authority`.
pub open spec fn spent_by(plan: Seq<Intent>, authority: Key) -> int {
    total(plan, signed_by(authority))
}

/// Whether a weight counts transfers only.
pub open spec fn counts_transfers(weight: spec_fn(Intent) -> int) -> bool {
    forall|i: Intent| !(i is Transfer) ==> #[trigger] weight(i) == 0
}

/// What an intent that is planned on a condition weighs.
pub proof fn lemma_total_only_if(cond: bool, intent: Intent, weight: spec_fn(Intent) -> int)
    ensures
        total(only_if(cond, intent), weight) == if cond {
            weight(intent)
        } else {
            0
        },
{
    lemma_total_small(intent, weight);
}

/// The sum over an empty plan is zero; over a plan of one intent, its weight.
pub proof fn lemma_total_small(intent: Intent, weight: spec_fn(Intent) -> int)
    ensures
        total(Seq::<Intent>::empty(), weight) == 0,
        total(seq![intent], weight) == weight(intent),
{
    assert(seq![intent].drop_last() =~= Seq::<Intent>::empty());
    assert(seq![intent].last() == intent);
}

/// The sum over two plans in a row is the sum of their sums.
pub proof fn lemma_total_concat(a: Seq<Intent>, b: Seq<Intent>, weight: spec_fn(Intent) -> int)
    ensures
        total(a + b, weight) == total(a, weight) + total(b, weight),
    decreases b.len(),
{
    if b.len() == 0 {
        assert(a + b =~= a);
    } else {
        lemma_total_concat(a, b.drop_last(), weight);
        assert((a + b).drop_last() =~= a + b.drop_last());
        assert((a + b).last() == b.last());
    }
}

/// Plans in a row read the same however they are grouped.
pub proof fn lemma_concat_assoc(a: Seq<Intent>, b: Seq<Intent>, c: Seq<Intent>)
    ensures
        (a + b) + c == a + (b + c),
{
    assert((a + b) + c =~= a + (b + c));
}

/// The request to move `amount` from `from` to `to` under `authority`.
pub open spec fn transfer(from: Key, to: Key, authority: Key, amount: u64) -> Intent {
    Intent::Transfer { from, to, authority, amount }
}

/// The request to close `account` in favour of `destination`.
pub open spec fn close(account: Key, destination: Key, authority: Key) -> Intent {
    Intent::CloseAccount { account, destination, authority }
}

/// A plan of one intent where `cond` holds, the empty plan where it does not.
pub open spec fn only_if(cond: bool, intent: Intent) -> Seq<Intent> {
    if cond {
        seq![intent]
    } else {
        Seq::empty()
    }
}

/// Appends `intent` to `plan` where `cond` holds.
pub fn push_when(plan: &mut Vec<Intent>, cond: bool, intent: Intent)
    ensures
        final(plan)@ == old(plan)@ + only_if(cond, intent),
{
    if cond {
        plan.push(intent);
        assert(plan@ =~= old(plan)@ + only_if(cond, intent));
    } else {
        assert(plan@ =~= old(plan)@ + only_if(cond, intent));
    }
}

} // verus!
