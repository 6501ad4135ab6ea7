//! The transitions of a deal, and what the two terminal ones share.

pub mod cancel;
pub mod finish;
pub mod initialize;
pub mod partially_pay;
pub mod update_checker;

use vstd::prelude::*;
use crate::constants::Config;
use crate::errors::{DealError, InvalidAccount};
use crate::keys::Key;
use crate::ledger::{close, only_if, push_when, transfer, Intent, TokenSlot};
use crate::state::{Bond, DealState};

verus! {

/// The part in which somebody asks for a terminal transition.
#[derive(Clone, Copy, Debug, PartialEq, Eq)]
pub enum Initializer {
    Client,
    Executor,
    Checker,
    Service,
}

impl Initializer {
    /// The part that `who` plays in the deal: its checker before its client,
    /// its client before its executor, and the service identity last.
    pub open spec fn spec_try_from(config: Config, deal: DealState, who: Key) -> Option<
        Initializer,
    > {
        if deal.checker is Some && who == deal.checker->Some_0.checker_key {
            Some(Initializer::Checker)
        } else if who == deal.client_key {
            Some(Initializer::Client)
        } else if who == deal.executor_key {
            Some(Initializer::Executor)
        } else if who == config.service_account_address {
            Some(Initializer::Service)
        } else {
            None
        }
    }

    /// Finds the part that `who` plays in the deal, or refuses who plays none.
    pub fn try_from(config: &Config, deal: &DealState, who: &Key) -> (r: Result<
        Initializer,
        DealError,
    >)
        ensures
            match Initializer::spec_try_from(*config, *deal, *who) {
                Some(part) => r == Ok::<Initializer, DealError>(part),
                None => r == Err::<Initializer, DealError>(
                    DealError::Account(InvalidAccount::Initializer),
                ),
            },
    {
        let is_checker = match &deal.checker {
            Some(c) => who.same(&c.checker_key),
            None => false,
        };
        if is_checker {
            Ok(Initializer::Checker)
        } else if who.same(&deal.client_key) {
            Ok(Initializer::Client)
        } else if who.same(&deal.executor_key) {
            Ok(Initializer::Executor)
        } else if who.same(&config.service_account_address) {
            Ok(Initializer::Service)
        } else {
            Err(DealError::Account(InvalidAccount::Initializer))
        }
    }
}

/// What is stored after a request for a terminal transition: nothing
/// where it was accepted, the record as it was where it was refused.
pub open spec fn stored_after(record: Option<DealState>, outcome: Result<Seq<Intent>, DealError>) -> Option<
    DealState,
> {
    if outcome is Ok {
        None
    } else {
        record
    }
}

/// The names under which the accounts of one party's bond are refused.
#[derive(Clone, Copy, Debug, PartialEq, Eq)]
pub struct BondRefusals {
    pub mint: InvalidAccount,
    pub custody: InvalidAccount,
    pub target: InvalidAccount,
}

/// The refusals for the accounts of the client's bond.
pub open spec fn client_bond_refusals() -> BondRefusals {
    BondRefusals {
        mint: InvalidAccount::ClientBondMint,
        custody: InvalidAccount::DealStateClientBondTokenAccount,
        target: InvalidAccount::ClientBondTokenAccount,
    }
}

/// The refusals for the accounts of the executor's bond.
pub open spec fn executor_bond_refusals() -> BondRefusals {
    BondRefusals {
        mint: InvalidAccount::ExecutorBondMint,
        custody: InvalidAccount::DealStateExecutorBondTokenAccount,
        target: InvalidAccount::ExecutorBondTokenAccount,
    }
}

impl BondRefusals {
    /// The refusals for the accounts of the client's bond.
    pub fn client() -> (r: BondRefusals)
        ensures
            r == client_bond_refusals(),
    {
        BondRefusals {
            mint: InvalidAccount::ClientBondMint,
            custody: InvalidAccount::DealStateClientBondTokenAccount,
            target: InvalidAccount::ClientBondTokenAccount,
        }
    }

    /// The refusals for the accounts of the executor's bond.
    pub fn executor() -> (r: BondRefusals)
        ensures
            r == executor_bond_refusals(),
    {
        BondRefusals {
            mint: InvalidAccount::ExecutorBondMint,
            custody: InvalidAccount::DealStateExecutorBondTokenAccount,
            target: InvalidAccount::ExecutorBondTokenAccount,
        }
    }
}

/// What is wrong with the accounts through which a bond is to be returned:
/// the supplied asset must be the bond's, the custody account must exist,
/// hold that asset and belong to the record, and the account that receives
/// the bond must, where it exists, hold that asset and belong to `owner`.
pub open spec fn bond_accounts_error(
    bond: Option<Bond>,
    mint: Key,
    custody: TokenSlot,
    target: TokenSlot,
    record: Key,
    owner: Key,
    refusals: BondRefusals,
) -> Option<DealError> {
    match bond {
        None => None,
        Some(b) => if mint != b.mint {
            Some(DealError::Account(refusals.mint))
        } else if !custody.spec_fits(b.mint, record, true) {
            Some(DealError::Account(refusals.custody))
        } else if !target.spec_fits(b.mint, owner, false) {
            Some(DealError::Account(refusals.target))
        } else {
            None
        },
    }
}

/// The creation of the account that receives a bond, where it is missing.
pub open spec fn bond_creation(bond: Option<Bond>, target: TokenSlot, payer: Key, owner: Key) -> Seq<
    Intent,
> {
    match bond {
        None => Seq::empty(),
        Some(b) => target.creation(payer, b.mint, owner),
    }
}

/// Checks the accounts through which a bond is to be returned.
pub fn check_bond_accounts(
    bond: &Option<Bond>,
    mint: &Key,
    custody: &TokenSlot,
    target: &TokenSlot,
    record: &Key,
    owner: &Key,
    refusals: BondRefusals,
) -> (r: Result<(), DealError>)
    ensures
        match bond_accounts_error(*bond, *mint, *custody, *target, *record, *owner, refusals) {
            Some(e) => r == Err::<(), DealError>(e),
            None => r is Ok,
        },
{
    match bond {
        None => Ok(()),
        Some(b) => {
            if !mint.same(&b.mint) {
                return Err(DealError::Account(refusals.mint));
            }
            if !custody.fits(&b.mint, record, true) {
                return Err(DealError::Account(refusals.custody));
            }
            if !target.fits(&b.mint, owner, false) {
                return Err(DealError::Account(refusals.target));
            }
            Ok(())
        },
    }
}

/// Plans the creation of the account that receives a bond, where it is missing.
pub fn create_bond_target(
    bond: &Option<Bond>,
    target: &TokenSlot,
    payer: &Key,
    owner: &Key,
    plan: &mut Vec<Intent>,
)
    ensures
        final(plan)@ == old(plan)@ + bond_creation(*bond, *target, *payer, *owner),
{
    match bond {
        None => {
            assert(plan@ =~= old(plan)@ + Seq::<Intent>::empty());
        },
        Some(b) => {
            target.create_if_absent(payer, &b.mint, owner, plan);
        },
    }
}

/// The return of a bond from its custody account to the account of its owner.
pub open spec fn bond_return(bond: Option<Bond>, custody: Key, target: Key, record: Key) -> Seq<
    Intent,
> {
    match bond {
        None => Seq::empty(),
        Some(b) => only_if(b.amount > 0, transfer(custody, target, record, b.amount)),
    }
}

/// Plans the return of a bond to its owner.
pub fn return_bond(
    bond: &Option<Bond>,
    custody: &Key,
    target: &Key,
    record: &Key,
    plan: &mut Vec<Intent>,
)
    ensures
        final(plan)@ == old(plan)@ + bond_return(*bond, *custody, *target, *record),
{
    match bond {
        None => {
            assert(plan@ =~= old(plan)@ + Seq::<Intent>::empty());
        },
        Some(b) => {
            push_when(
                plan,
                b.amount > 0,
                Intent::Transfer { from: *custody, to: *target, authority: *record, amount: b.amount },
            );
        },
    }
}

/// Whether the executor's bond custody is closed by a request of its own:
/// not where it is the very account that was closed for the client's bond.
pub open spec fn closes_executor_custody(deal: DealState, client_custody: Key, executor_custody: Key) -> bool {
    deal.executor_bond is Some && !(deal.client_bond is Some && client_custody
        == executor_custody)
}

/// The closing of the custody accounts of the bonds that a deal has, each
/// account once.
pub open spec fn bond_closes(
    deal: DealState,
    client_custody: Key,
    executor_custody: Key,
    destination: Key,
    record: Key,
) -> Seq<Intent> {
    only_if(deal.client_bond is Some, close(client_custody, destination, record)) + only_if(
        closes_executor_custody(deal, client_custody, executor_custody),
        close(executor_custody, destination, record),
    )
}

/// Plans the closing of the bond custody accounts.
pub fn close_bond_custody(
    deal: &DealState,
    client_custody: &Key,
    executor_custody: &Key,
    destination: &Key,
    record: &Key,
    plan: &mut Vec<Intent>,
)
    ensures
        final(plan)@ == old(plan)@ + bond_closes(
            *deal,
            *client_custody,
            *executor_custody,
            *destination,
            *record,
        ),
{
    let with_client = deal.client_bond.is_some();
    push_when(
        plan,
        with_client,
        Intent::CloseAccount {
            account: *client_custody,
            destination: *destination,
            authority: *record,
        },
    );
    let same = client_custody.same(executor_custody);
    push_when(
        plan,
        deal.executor_bond.is_some() && !(with_client && same),
        Intent::CloseAccount {
            account: *executor_custody,
            destination: *destination,
            authority: *record,
        },
    );
    assert(plan@ =~= old(plan)@ + bond_closes(
        *deal,
        *client_custody,
        *executor_custody,
        *destination,
        *record,
    ));
}

/// Whether the principal custody account is still to be closed after the
/// bonds were handled: it holds a base deposit and was not closed as the
/// custody account of a bond.
pub open spec fn closes_principal_custody(
    deal: DealState,
    custody: TokenSlot,
    client_custody: Key,
    executor_custody: Key,
) -> bool {
    &&& custody.lamports > 0
    &&& !(deal.client_bond is Some && client_custody == custody.key)
    &&& !(deal.executor_bond is Some && executor_custody == custody.key)
}

/// The closing of the principal custody account.
pub open spec fn principal_close(
    deal: DealState,
    custody: TokenSlot,
    client_custody: Key,
    executor_custody: Key,
    destination: Key,
    record: Key,
) -> Seq<Intent> {
    only_if(
        closes_principal_custody(deal, custody, client_custody, executor_custody),
        close(custody.key, destination, record),
    )
}

/// Plans the closing of the principal custody account.
pub fn close_principal_custody(
    deal: &DealState,
    custody: &TokenSlot,
    client_custody: &Key,
    executor_custody: &Key,
    destination: &Key,
    record: &Key,
    plan: &mut Vec<Intent>,
)
    ensures
        final(plan)@ == old(plan)@ + principal_close(
            *deal,
            *custody,
            *client_custody,
            *executor_custody,
            *destination,
            *record,
        ),
{
    let with_client = deal.client_bond.is_some() && client_custody.same(&custody.key);
    let with_executor = deal.executor_bond.is_some() && executor_custody.same(&custody.key);
    push_when(
        plan,
        custody.lamports > 0 && !with_client && !with_executor,
        Intent::CloseAccount { account: custody.key, destination: *destination, authority: *record },
    );
}

} // verus!
