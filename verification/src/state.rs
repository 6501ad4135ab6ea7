//! The deal record.

use vstd::prelude::*;
use crate::constants::DEAL_STATE_SEED;
use crate::errors::ErrorCodes;
use crate::keys::Key;

verus! {

/// Collateral that one party has posted.
#[derive(Clone, Copy, Debug, PartialEq, Eq)]
pub struct Bond {
    pub mint: Key,
    pub amount: u64,
}

/// The arbitrator of a deal and the fee it earns when the deal is finished.
#[derive(Clone, Copy, Debug, PartialEq, Eq)]
pub struct Checker {
    pub checker_fee: u64,
    pub checker_key: Key,
}

/// One escrow agreement between a client and an executor.
#[derive(Clone, Copy, Debug, PartialEq, Eq)]
pub struct DealState {
    pub id: [u8; 16],
    pub client_key: Key,
    pub executor_key: Key,
    pub deal_token_mint: Key,
    pub client_bond: Option<Bond>,
    pub executor_bond: Option<Bond>,
    pub checker: Option<Checker>,
    pub holder_mode: Option<u64>,
    pub amount: u64,
    pub paid_amount: u64,
    pub deadline_ts: Option<i64>,
    pub bump: [u8; 1],
}

/// The number that bytes spell, least significant byte first.
pub open spec fn le_value(bytes: Seq<u8>) -> nat
    decreases bytes.len(),
{
    if bytes.len() == 0 {
        0
    } else {
        bytes[0] as nat + 256 * le_value(bytes.drop_first())
    }
}

/// 256 to the power of `n`: one more than the largest number of `n` bytes.
pub open spec fn pow256(n: nat) -> nat
    decreases n,
{
    if n == 0 {
        1
    } else {
        256 * pow256((n - 1) as nat)
    }
}

proof fn lemma_pow256_grows(m: nat, n: nat)
    requires
        m <= n,
    ensures
        pow256(m) <= pow256(n),
        pow256(m) >= 1,
    decreases n,
{
    if m < n {
        lemma_pow256_grows(m, (n - 1) as nat);
    } else if m > 0 {
        lemma_pow256_grows((m - 1) as nat, (n - 1) as nat);
    }
}

proof fn lemma_pow256_sixteen()
    ensures
        pow256(16) == u128::MAX + 1,
{
    reveal_with_fuel(pow256, 17);
}

/// Copies an array of bytes into a vector.
fn bytes_of<const N: usize>(a: &[u8; N]) -> (v: Vec<u8>)
    ensures
        v@ == a@,
{
    let mut v: Vec<u8> = Vec::new();
    let mut i: usize = 0;
    while i < N
        invariant
            i <= N,
            a@.len() == N,
            v@ == a@.subrange(0, i as int),
        decreases N - i,
    {
        v.push(a[i]);
        i += 1;
        assert(v@ =~= a@.subrange(0, i as int));
    }
    assert(a@.subrange(0, N as int) =~= a@);
    v
}

impl DealState {
    /// The fee of the checker, zero where the deal has none.
    pub open spec fn checker_fee(&self) -> nat {
        match self.checker {
            Some(c) => c.checker_fee as nat,
            None => 0,
        }
    }

    /// What is still owed to the executor: the principal less what was
    /// paid already, and nothing where more was paid than was owed.
    pub open spec fn outstanding(&self) -> nat {
        if self.paid_amount <= self.amount {
            (self.amount - self.paid_amount) as nat
        } else {
            0
        }
    }

    /// What is still owed to the executor.
    pub fn remaining(&self) -> (r: u64)
        ensures
            r == self.outstanding(),
    {
        self.amount.saturating_sub(self.paid_amount)
    }

    /// What holds of every record that a transition wrote.
    pub open spec fn wf(&self) -> bool {
        &&& self.client_key != self.executor_key
        &&& self.amount > 0
        &&& self.paid_amount <= self.amount
        &&& self.amount + self.checker_fee() <= u64::MAX
    }

    /// Tests whether this record is one that a transition could have written.
    pub fn is_well_formed(&self) -> (r: bool)
        ensures
            r == self.wf(),
    {
        let fee: u64 = match self.checker {
            Some(c) => c.checker_fee,
            None => 0,
        };
        !self.client_key.same(&self.executor_key) && self.amount > 0 && self.paid_amount
            <= self.amount && fee <= u64::MAX - self.amount
    }

    /// The deal identifier read as a number, least significant byte first.
    pub fn id(&self) -> (r: u128)
        ensures
            r == le_value(self.id@),
    {
        let mut acc: u128 = 0;
        let mut i: usize = 16;
        while i > 0
            invariant
                i <= 16,
                acc == le_value(self.id@.subrange(i as int, 16)),
                acc < pow256((16 - i) as nat),
            decreases i,
        {
            i -= 1;
            proof {
                let rest = self.id@.subrange(i as int, 16);
                assert(rest.drop_first() =~= self.id@.subrange(i + 1, 16));
                assert(rest[0] == self.id@[i as int]);
                lemma_pow256_grows((16 - i) as nat, 16);
                lemma_pow256_sixteen();
            }
            acc = acc * 256 + self.id[i] as u128;
        }
        assert(self.id@.subrange(0, 16) =~= self.id@);
        acc
    }

    /// The derivation salt of the record's address.
    pub fn bump(&self) -> (r: u8)
        ensures
            r == self.bump@[0],
    {
        self.bump[0]
    }

    /// The byte strings from which the record's address is derived, in order.
    pub open spec fn spec_seeds(&self) -> Seq<Seq<u8>> {
        seq![self.id@, DEAL_STATE_SEED@, self.client_key@, self.executor_key@, self.bump@]
    }

    /// The byte strings with which the record signs for its custody
    /// accounts: identifier, label, client, executor, salt.
    pub fn seeds(&self) -> (r: Vec<Vec<u8>>)
        ensures
            r@.len() == 5,
            forall|i: int| 0 <= i < 5 ==> (#[trigger] r@[i])@ == self.spec_seeds()[i],
    {
        let mut r: Vec<Vec<u8>> = Vec::new();
        r.push(bytes_of(&self.id));
        r.push(bytes_of(&DEAL_STATE_SEED));
        r.push(bytes_of(&self.client_key.bytes));
        r.push(bytes_of(&self.executor_key.bytes));
        r.push(bytes_of(&self.bump));
        r
    }

    /// The client's bond, or `NoClientBond`.
    pub fn client_bond(&self) -> (r: Result<&Bond, ErrorCodes>)
        ensures
            match self.client_bond {
                Some(b) => r == Ok::<&Bond, ErrorCodes>(&b),
                None => r == Err::<&Bond, ErrorCodes>(ErrorCodes::NoClientBond),
            },
    {
        match &self.client_bond {
            Some(b) => Ok(b),
            None => Err(ErrorCodes::NoClientBond),
        }
    }

    /// The executor's bond, or `NoExecutorBond`.
    pub fn executor_bond(&self) -> (r: Result<&Bond, ErrorCodes>)
        ensures
            match self.executor_bond {
                Some(b) => r == Ok::<&Bond, ErrorCodes>(&b),
                None => r == Err::<&Bond, ErrorCodes>(ErrorCodes::NoExecutorBond),
            },
    {
        match &self.executor_bond {
            Some(b) => Ok(b),
            None => Err(ErrorCodes::NoExecutorBond),
        }
    }

    /// The checker, or `DealStateNotWithChecker`.
    pub fn with_checker(&self) -> (r: Result<&Checker, ErrorCodes>)
        ensures
            match self.checker {
                Some(c) => r == Ok::<&Checker, ErrorCodes>(&c),
                None => r == Err::<&Checker, ErrorCodes>(ErrorCodes::DealStateNotWithChecker),
            },
    {
        match &self.checker {
            Some(c) => Ok(c),
            None => Err(ErrorCodes::DealStateNotWithChecker),
        }
    }

    /// The client's bond for writing, or `NoClientBond`. What the caller
    /// writes through the reference is the record's new bond; nothing else
    /// of the record changes.
    pub fn client_bond_mut(&mut self) -> (r: Result<&mut Bond, ErrorCodes>)
        ensures
            match r {
                Ok(b) => old(self).client_bond == Some(*b) && *final(self) == (DealState {
                    client_bond: Some(*final(b)),
                    ..*old(self)
                }),
                Err(e) => e == ErrorCodes::NoClientBond && old(self).client_bond is None
                    && *final(self) == *old(self),
            },
    {
        match &mut self.client_bond {
            Some(b) => Ok(b),
            None => Err(ErrorCodes::NoClientBond),
        }
    }

    /// The executor's bond for writing, or `NoExecutorBond`.
    pub fn executor_bond_mut(&mut self) -> (r: Result<&mut Bond, ErrorCodes>)
        ensures
            match r {
                Ok(b) => old(self).executor_bond == Some(*b) && *final(self) == (DealState {
                    executor_bond: Some(*final(b)),
                    ..*old(self)
                }),
                Err(e) => e == ErrorCodes::NoExecutorBond && old(self).executor_bond is None
                    && *final(self) == *old(self),
            },
    {
        match &mut self.executor_bond {
            Some(b) => Ok(b),
            None => Err(ErrorCodes::NoExecutorBond),
        }
    }

    /// The checker for writing, or `DealStateNotWithChecker`.
    pub fn with_checker_mut(&mut self) -> (r: Result<&mut Checker, ErrorCodes>)
        ensures
            match r {
                Ok(c) => old(self).checker == Some(*c) && *final(self) == (DealState {
                    checker: Some(*final(c)),
                    ..*old(self)
                }),
                Err(e) => e == ErrorCodes::DealStateNotWithChecker && old(self).checker is None
                    && *final(self) == *old(self),
            },
    {
        match &mut self.checker {
            Some(c) => Ok(c),
            None => Err(ErrorCodes::DealStateNotWithChecker),
        }
    }

    /// Whether the deadline has come: `now` is the time of the deadline or
    /// a later one. A deal without a deadline never expires.
    pub open spec fn spec_deadline_expired(&self, now: i64) -> bool {
        match self.deadline_ts {
            Some(deadline_ts) => deadline_ts <= now,
            None => false,
        }
    }

    /// Whether the deadline has come.
    pub fn deadline_expired(&self, now: i64) -> (r: bool)
        ensures
            r == self.spec_deadline_expired(now),
    {
        match self.deadline_ts {
            Some(deadline_ts) => deadline_ts <= now,
            None => false,
        }
    }

    /// Whether the deal has a deadline that has not come yet: the time in
    /// which the deal is expected to complete.
    pub open spec fn spec_before_deadline(&self, now: i64) -> bool {
        self.deadline_ts is Some && !self.spec_deadline_expired(now)
    }

    /// Whether the deal has a deadline that has not come yet.
    pub fn before_deadline(&self, now: i64) -> (r: bool)
        ensures
            r == self.spec_before_deadline(now),
    {
        self.deadline_ts.is_some() && !self.deadline_expired(now)
    }
}

} // verus!
