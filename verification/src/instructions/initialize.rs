//! Initialize: the creation of a deal.

use vstd::prelude::*;
use crate::constants::Config;
use crate::errors::{AccessError, DealError, ErrorCodes, InvalidAccount};
use crate::instructions::BondRefusals;
use crate::instructions::{client_bond_refusals, executor_bond_refusals};
use crate::keys::Key;
use crate::ledger::{
    lemma_concat_assoc, only_if, push_when, transfer, Intent, MintSlot, TokenSlot,
};
use crate::state::{Bond, Checker, DealState};

verus! {

/// The terms of a new deal.
#[derive(Clone, Copy, Debug, PartialEq, Eq)]
pub struct InitializeArgs {
    pub id: [u8; 16],
    pub deal_amount: u64,
    pub service_fee: u64,
    pub deadline_ts: Option<i64>,
    pub holder_mode: bool,
    pub client_bond: Option<u64>,
    pub executor_bond: Option<u64>,
    pub checker_fee: Option<u64>,
    pub advance_payment_amount: u64,
}

/// The accounts that a request to create a deal supplies.
#[derive(Clone, Copy, Debug, PartialEq, Eq)]
pub struct Initialize {
    pub client: Key,
    pub executor: Key,
    /// Who pays for accounts that have to be created.
    pub payer: Key,
    pub checker: Key,
    pub deal_mint: Key,
    pub client_bond_mint: MintSlot,
    pub executor_bond_mint: MintSlot,
    pub service_mint: Key,
    pub service_fee_ta: TokenSlot,
    pub client_deal_ta: TokenSlot,
    pub executor_deal_ta: TokenSlot,
    pub deal_state_deal_ta: TokenSlot,
    pub client_bond_ta: TokenSlot,
    pub executor_bond_ta: TokenSlot,
    pub deal_state_client_bond_ta: TokenSlot,
    pub deal_state_executor_bond_ta: TokenSlot,
    pub client_holder_ta: TokenSlot,
    pub deal_state_holder_ta: TokenSlot,
    /// The address at which the record is created, the authority over its custody accounts.
    pub deal_state: Key,
    /// The derivation salt of that address.
    pub bump: u8,
}

impl InitializeArgs {
    /// The checker's fee, zero where the deal has no checker.
    pub open spec fn fee(&self) -> nat {
        match self.checker_fee {
            Some(fee) => fee as nat,
            None => 0,
        }
    }

    /// The checker's fee, zero where the deal has no checker.
    pub fn checker_fee_or_zero(&self) -> (r: u64)
        ensures
            r == self.fee(),
    {
        match self.checker_fee {
            Some(fee) => fee,
            None => 0,
        }
    }
}

/// What is wrong with the accounts through which a bond is posted: the
/// asset must exist, the owner's account must exist, hold that asset and
/// belong to `owner`, and the custody account must, where it exists, hold
/// that asset and belong to the record.
pub open spec fn posting_error(
    bond: Option<u64>,
    mint: MintSlot,
    source: TokenSlot,
    custody: TokenSlot,
    owner: Key,
    record: Key,
    refusals: BondRefusals,
) -> Option<DealError> {
    if bond is None {
        None
    } else if !mint.initialized {
        Some(DealError::Account(refusals.mint))
    } else if !source.spec_fits(mint.key, owner, true) {
        Some(DealError::Account(refusals.target))
    } else if !custody.spec_fits(mint.key, record, false) {
        Some(DealError::Account(refusals.custody))
    } else {
        None
    }
}

/// The creation of the custody account of a bond, where it is missing.
pub open spec fn posting_creation(
    bond: Option<u64>,
    mint: MintSlot,
    custody: TokenSlot,
    payer: Key,
    record: Key,
) -> Seq<Intent> {
    if bond is None {
        Seq::empty()
    } else {
        custody.creation(payer, mint.key, record)
    }
}

/// Checks the accounts through which a bond is posted.
pub fn check_posting_accounts(
    bond: &Option<u64>,
    mint: &MintSlot,
    source: &TokenSlot,
    custody: &TokenSlot,
    owner: &Key,
    record: &Key,
    refusals: BondRefusals,
) -> (r: Result<(), DealError>)
    ensures
        match posting_error(*bond, *mint, *source, *custody, *owner, *record, refusals) {
            Some(e) => r == Err::<(), DealError>(e),
            None => r is Ok,
        },
{
    if bond.is_none() {
        return Ok(());
    }
    if !mint.initialized {
        return Err(DealError::Account(refusals.mint));
    }
    if !source.fits(&mint.key, owner, true) {
        return Err(DealError::Account(refusals.target));
    }
    if !custody.fits(&mint.key, record, false) {
        return Err(DealError::Account(refusals.custody));
    }
    Ok(())
}

/// Plans the creation of the custody account of a bond, where it is missing.
pub fn create_posting_custody(
    bond: &Option<u64>,
    mint: &MintSlot,
    custody: &TokenSlot,
    payer: &Key,
    record: &Key,
    plan: &mut Vec<Intent>,
)
    ensures
        final(plan)@ == old(plan)@ + posting_creation(*bond, *mint, *custody, *payer, *record),
{
    if bond.is_none() {
        assert(plan@ =~= old(plan)@ + Seq::<Intent>::empty());
    } else {
        custody.create_if_absent(payer, &mint.key, record, plan);
    }
}

/// The posting of a bond from its owner's account into custody.
pub open spec fn bond_posting(bond: Option<u64>, source: Key, custody: Key, owner: Key) -> Seq<
    Intent,
> {
    match bond {
        None => Seq::empty(),
        Some(amount) => only_if(amount > 0, transfer(source, custody, owner, amount)),
    }
}

impl Initialize {
    /// What is wrong with the accounts of the holder stake, where holder
    /// mode is asked for: the client's holder account must exist and fit,
    /// the deal must be made in the asset that is eligible for the waiver,
    /// the client must hold the stake, and the stake's custody account must
    /// fit where it exists.
    pub open spec fn holder_error(&self, config: Config, args: InitializeArgs) -> Option<
        DealError,
    > {
        if !args.holder_mode {
            None
        } else if !self.client_holder_ta.spec_fits(config.holder_mint, self.client, true) {
            Some(DealError::Account(InvalidAccount::ClientHolderTokenAccount))
        } else if self.deal_mint != config.service_fee_mint {
            Some(DealError::Code(ErrorCodes::HolderModeUnavailable))
        } else if self.client_holder_ta.account->Some_0.amount < config.holder_mode_amount {
            Some(DealError::Code(ErrorCodes::HolderModeUnavailable))
        } else if !self.deal_state_holder_ta.spec_fits(config.holder_mint, self.deal_state, false) {
            Some(DealError::Account(InvalidAccount::DealStateHolderTokenAccount))
        } else {
            None
        }
    }

    /// What is wrong with one of the four accounts of the deal asset and of
    /// the service fee, each of which is created where it is missing.
    pub open spec fn deal_accounts_error(&self, config: Config) -> Option<DealError> {
        let service = self.service_fee_ta.spec_validate(
            self.service_mint,
            config.service_fee_owner,
            false,
        );
        let client = self.client_deal_ta.spec_validate(self.deal_mint, self.client, false);
        let executor = self.executor_deal_ta.spec_validate(self.deal_mint, self.executor, false);
        let custody = self.deal_state_deal_ta.spec_validate(self.deal_mint, self.deal_state, false);
        if service is Err {
            Some(service->Err_0)
        } else if client is Err {
            Some(client->Err_0)
        } else if executor is Err {
            Some(executor->Err_0)
        } else if custody is Err {
            Some(custody->Err_0)
        } else {
            None
        }
    }

    /// The posting error of the client's bond.
    pub open spec fn client_posting_error(&self, args: InitializeArgs) -> Option<DealError> {
        posting_error(
            args.client_bond,
            self.client_bond_mint,
            self.client_bond_ta,
            self.deal_state_client_bond_ta,
            self.client,
            self.deal_state,
            client_bond_refusals(),
        )
    }

    /// The posting error of the executor's bond.
    pub open spec fn executor_posting_error(&self, args: InitializeArgs) -> Option<DealError> {
        posting_error(
            args.executor_bond,
            self.executor_bond_mint,
            self.executor_bond_ta,
            self.deal_state_executor_bond_ta,
            self.executor,
            self.deal_state,
            executor_bond_refusals(),
        )
    }

    /// The first thing that is wrong with the supplied accounts, in the
    /// order: accounts of the deal asset, client's bond, executor's bond,
    /// holder stake.
    pub open spec fn accounts_error(&self, config: Config, args: InitializeArgs) -> Option<
        DealError,
    > {
        if self.deal_accounts_error(config) is Some {
            self.deal_accounts_error(config)
        } else if self.client_posting_error(args) is Some {
            self.client_posting_error(args)
        } else if self.executor_posting_error(args) is Some {
            self.executor_posting_error(args)
        } else {
            self.holder_error(config, args)
        }
    }

    /// The creation of those of the four accounts of the deal asset and of
    /// the service fee that are missing.
    pub open spec fn deal_creations(&self, config: Config) -> Seq<Intent> {
        self.service_fee_ta.creation(self.payer, self.service_mint, config.service_fee_owner)
            + self.client_deal_ta.creation(self.payer, self.deal_mint, self.client)
            + self.executor_deal_ta.creation(self.payer, self.deal_mint, self.executor)
            + self.deal_state_deal_ta.creation(self.payer, self.deal_mint, self.deal_state)
    }

    /// The creation of the custody account of the holder stake, where
    /// holder mode is asked for and the account is missing.
    pub open spec fn holder_creation(&self, config: Config, args: InitializeArgs) -> Seq<Intent> {
        if args.holder_mode {
            self.deal_state_holder_ta.creation(self.payer, config.holder_mint, self.deal_state)
        } else {
            Seq::empty()
        }
    }

    /// The creation of the custody account of the client's bond.
    pub open spec fn client_posting_creation(&self, args: InitializeArgs) -> Seq<Intent> {
        posting_creation(
            args.client_bond,
            self.client_bond_mint,
            self.deal_state_client_bond_ta,
            self.payer,
            self.deal_state,
        )
    }

    /// The creation of the custody account of the executor's bond.
    pub open spec fn executor_posting_creation(&self, args: InitializeArgs) -> Seq<Intent> {
        posting_creation(
            args.executor_bond,
            self.executor_bond_mint,
            self.deal_state_executor_bond_ta,
            self.payer,
            self.deal_state,
        )
    }

    /// The accounts that are created because they are missing.
    pub open spec fn creations(&self, config: Config, args: InitializeArgs) -> Seq<Intent> {
        self.deal_creations(config) + self.client_posting_creation(args)
            + self.executor_posting_creation(args) + self.holder_creation(config, args)
    }

    /// Checks the four accounts of the deal asset and of the service fee.
    fn check_deal_accounts(&self, config: &Config) -> (r: Result<(), DealError>)
        ensures
            match self.deal_accounts_error(*config) {
                Some(e) => r == Err::<(), DealError>(e),
                None => r is Ok,
            },
    {
        self.service_fee_ta.validate(&self.service_mint, &config.service_fee_owner, false)?;
        self.client_deal_ta.validate(&self.deal_mint, &self.client, false)?;
        self.executor_deal_ta.validate(&self.deal_mint, &self.executor, false)?;
        self.deal_state_deal_ta.validate(&self.deal_mint, &self.deal_state, false)
    }

    /// Plans the creation of those of the four accounts that are missing.
    fn create_deal_accounts(&self, config: &Config, plan: &mut Vec<Intent>)
        ensures
            final(plan)@ == old(plan)@ + self.deal_creations(*config),
    {
        self.service_fee_ta.create_if_absent(
            &self.payer,
            &self.service_mint,
            &config.service_fee_owner,
            plan,
        );
        self.client_deal_ta.create_if_absent(&self.payer, &self.deal_mint, &self.client, plan);
        self.executor_deal_ta.create_if_absent(&self.payer, &self.deal_mint, &self.executor, plan);
        self.deal_state_deal_ta.create_if_absent(
            &self.payer,
            &self.deal_mint,
            &self.deal_state,
            plan,
        );
        assert(plan@ =~= old(plan)@ + self.deal_creations(*config));
    }

    /// Checks the accounts of the holder stake where holder mode is asked for.
    fn check_holder_accounts(&self, config: &Config, args: &InitializeArgs) -> (r: Result<
        (),
        DealError,
    >)
        ensures
            match self.holder_error(*config, *args) {
                Some(e) => r == Err::<(), DealError>(e),
                None => r is Ok,
            },
    {
        if !args.holder_mode {
            return Ok(());
        }
        if !self.client_holder_ta.fits(&config.holder_mint, &self.client, true) {
            return Err(DealError::Account(InvalidAccount::ClientHolderTokenAccount));
        }
        if !self.deal_mint.same(&config.service_fee_mint) {
            return Err(DealError::Code(ErrorCodes::HolderModeUnavailable));
        }
        let held: u64 = match &self.client_holder_ta.account {
            Some(a) => a.amount,
            None => 0,
        };
        if held < config.holder_mode_amount {
            return Err(DealError::Code(ErrorCodes::HolderModeUnavailable));
        }
        if !self.deal_state_holder_ta.fits(&config.holder_mint, &self.deal_state, false) {
            return Err(DealError::Account(InvalidAccount::DealStateHolderTokenAccount));
        }
        Ok(())
    }

    /// Checks the supplied accounts against the terms.
    fn find_accounts_error(&self, config: &Config, args: &InitializeArgs) -> (r: Result<
        (),
        DealError,
    >)
        ensures
            match self.accounts_error(*config, *args) {
                Some(e) => r == Err::<(), DealError>(e),
                None => r is Ok,
            },
    {
        self.check_deal_accounts(config)?;
        check_posting_accounts(
            &args.client_bond,
            &self.client_bond_mint,
            &self.client_bond_ta,
            &self.deal_state_client_bond_ta,
            &self.client,
            &self.deal_state,
            BondRefusals::client(),
        )?;
        check_posting_accounts(
            &args.executor_bond,
            &self.executor_bond_mint,
            &self.executor_bond_ta,
            &self.deal_state_executor_bond_ta,
            &self.executor,
            &self.deal_state,
            BondRefusals::executor(),
        )?;
        self.check_holder_accounts(config, args)
    }

    /// Checks the supplied accounts against the terms and plans the
    /// creation of those that are missing and may be. A refusal leaves the
    /// plan as it was.
    pub fn check_accounts(&self, config: &Config, args: &InitializeArgs, plan: &mut Vec<Intent>) -> (r:
        Result<(), DealError>)
        ensures
            match self.accounts_error(*config, *args) {
                Some(e) => r == Err::<(), DealError>(e) && final(plan)@ == old(plan)@,
                None => r is Ok && final(plan)@ == old(plan)@ + self.creations(*config, *args),
            },
    {
        self.find_accounts_error(config, args)?;
        let ghost a = self.deal_creations(*config);
        let ghost b = self.client_posting_creation(*args);
        let ghost c = self.executor_posting_creation(*args);
        let ghost d = self.holder_creation(*config, *args);
        self.create_deal_accounts(config, plan);
        create_posting_custody(
            &args.client_bond,
            &self.client_bond_mint,
            &self.deal_state_client_bond_ta,
            &self.payer,
            &self.deal_state,
            plan,
        );
        create_posting_custody(
            &args.executor_bond,
            &self.executor_bond_mint,
            &self.deal_state_executor_bond_ta,
            &self.payer,
            &self.deal_state,
            plan,
        );
        if args.holder_mode {
            self.deal_state_holder_ta.create_if_absent(
                &self.payer,
                &config.holder_mint,
                &self.deal_state,
                plan,
            );
        } else {
            assert(plan@ =~= plan@ + Seq::<Intent>::empty());
        }
        proof {
            lemma_concat_assoc(old(plan)@, a, b);
            lemma_concat_assoc(old(plan)@, a + b, c);
            lemma_concat_assoc(old(plan)@, a + b + c, d);
        }
        Ok(())
    }

    /// Refuses a deal whose deadline has come already.
    pub fn check_deadline(&self, deal: &DealState, now: i64) -> (r: Result<(), ErrorCodes>)
        ensures
            deal.spec_deadline_expired(now) ==> r == Err::<(), ErrorCodes>(
                ErrorCodes::DeadlineExpired,
            ),
            !deal.spec_deadline_expired(now) ==> r is Ok,
    {
        if deal.deadline_expired(now) {
            return Err(ErrorCodes::DeadlineExpired);
        }
        Ok(())
    }

    /// Refuses a deal without a principal.
    pub fn check_deal_amount(&self, deal_amount: u64) -> (r: Result<(), ErrorCodes>)
        ensures
            deal_amount == 0 ==> r == Err::<(), ErrorCodes>(ErrorCodes::AmountTooLow),
            deal_amount != 0 ==> r is Ok,
    {
        if deal_amount == 0 {
            return Err(ErrorCodes::AmountTooLow);
        }
        Ok(())
    }

    /// What the client gives for the service: in holder mode the stake,
    /// which goes into custody; otherwise the flat fee, which goes to the
    /// service fee recipient.
    pub open spec fn service_fee(&self, config: Config, holder_mode: bool, service_fee: u64) -> Seq<
        Intent,
    > {
        if holder_mode {
            seq![
                transfer(
                    self.client_holder_ta.key,
                    self.deal_state_holder_ta.key,
                    self.client,
                    config.holder_mode_amount,
                ),
            ]
        } else {
            only_if(
                service_fee > 0,
                transfer(self.client_deal_ta.key, self.service_fee_ta.key, self.client, service_fee),
            )
        }
    }

    /// Plans what the client gives for the service; `FeeIsTooLow` where
    /// neither holder mode nor a fee is offered.
    pub fn handle_service_fee(
        &self,
        config: &Config,
        holder_mode: bool,
        service_fee: u64,
        plan: &mut Vec<Intent>,
    ) -> (r: Result<(), ErrorCodes>)
        ensures
            !holder_mode && service_fee == 0 ==> r == Err::<(), ErrorCodes>(
                ErrorCodes::FeeIsTooLow,
            ) && final(plan)@ == old(plan)@,
            holder_mode || service_fee != 0 ==> r is Ok && final(plan)@ == old(plan)@
                + self.service_fee(*config, holder_mode, service_fee),
    {
        if !holder_mode && service_fee == 0 {
            return Err(ErrorCodes::FeeIsTooLow);
        }
        if holder_mode {
            plan.push(
                Intent::Transfer {
                    from: self.client_holder_ta.key,
                    to: self.deal_state_holder_ta.key,
                    authority: self.client,
                    amount: config.holder_mode_amount,
                },
            );
            assert(plan@ =~= old(plan)@ + self.service_fee(*config, holder_mode, service_fee));
        } else {
            push_when(
                plan,
                service_fee > 0,
                Intent::Transfer {
                    from: self.client_deal_ta.key,
                    to: self.service_fee_ta.key,
                    authority: self.client,
                    amount: service_fee,
                },
            );
        }
        Ok(())
    }

    /// The deposit of `amount` from the client into principal custody.
    pub open spec fn deposit(&self, amount: u64) -> Seq<Intent> {
        seq![transfer(self.client_deal_ta.key, self.deal_state_deal_ta.key, self.client, amount)]
    }

    /// Plans the deposit of `amount` from the client into principal custody.
    pub fn transfer_deposit(&self, amount: u64, plan: &mut Vec<Intent>)
        ensures
            final(plan)@ == old(plan)@ + self.deposit(amount),
    {
        plan.push(
            Intent::Transfer {
                from: self.client_deal_ta.key,
                to: self.deal_state_deal_ta.key,
                authority: self.client,
                amount,
            },
        );
        assert(plan@ =~= old(plan)@ + self.deposit(amount));
    }

    /// The posting of both bonds, each from its owner into its own custody.
    pub open spec fn bonds(&self, client_bond: Option<u64>, executor_bond: Option<u64>) -> Seq<
        Intent,
    > {
        bond_posting(
            client_bond,
            self.client_bond_ta.key,
            self.deal_state_client_bond_ta.key,
            self.client,
        ) + bond_posting(
            executor_bond,
            self.executor_bond_ta.key,
            self.deal_state_executor_bond_ta.key,
            self.executor,
        )
    }

    /// Plans the posting of both bonds.
    pub fn transfer_bonds(
        &self,
        client_bond: Option<u64>,
        executor_bond: Option<u64>,
        plan: &mut Vec<Intent>,
    )
        ensures
            final(plan)@ == old(plan)@ + self.bonds(client_bond, executor_bond),
    {
        match client_bond {
            None => {},
            Some(amount) => {
                push_when(
                    plan,
                    amount > 0,
                    Intent::Transfer {
                        from: self.client_bond_ta.key,
                        to: self.deal_state_client_bond_ta.key,
                        authority: self.client,
                        amount,
                    },
                );
            },
        }
        match executor_bond {
            None => {},
            Some(amount) => {
                push_when(
                    plan,
                    amount > 0,
                    Intent::Transfer {
                        from: self.executor_bond_ta.key,
                        to: self.deal_state_executor_bond_ta.key,
                        authority: self.executor,
                        amount,
                    },
                );
            },
        }
        assert(plan@ =~= old(plan)@ + self.bonds(client_bond, executor_bond));
    }

    /// The release of an advance from principal custody to the executor.
    pub open spec fn advance_payment(&self, amount: u64) -> Seq<Intent> {
        only_if(
            amount > 0,
            transfer(self.deal_state_deal_ta.key, self.executor_deal_ta.key, self.deal_state, amount),
        )
    }

    /// Plans the release of an advance to the executor.
    pub fn transfer_advance_payment(&self, amount: u64, plan: &mut Vec<Intent>)
        ensures
            final(plan)@ == old(plan)@ + self.advance_payment(amount),
    {
        push_when(
            plan,
            amount > 0,
            Intent::Transfer {
                from: self.deal_state_deal_ta.key,
                to: self.executor_deal_ta.key,
                authority: self.deal_state,
                amount,
            },
        );
    }
}

/// The record that a request creates.
pub open spec fn new_deal(config: Config, ctx: Initialize, args: InitializeArgs) -> DealState {
    DealState {
        id: args.id,
        client_key: ctx.client,
        executor_key: ctx.executor,
        deal_token_mint: ctx.deal_mint,
        client_bond: match args.client_bond {
            Some(amount) => Some(Bond { mint: ctx.client_bond_mint.key, amount }),
            None => None,
        },
        executor_bond: match args.executor_bond {
            Some(amount) => Some(Bond { mint: ctx.executor_bond_mint.key, amount }),
            None => None,
        },
        checker: match args.checker_fee {
            Some(checker_fee) => Some(Checker { checker_fee, checker_key: ctx.checker }),
            None => None,
        },
        holder_mode: if args.holder_mode {
            Some(config.holder_mode_amount)
        } else {
            None
        },
        amount: args.deal_amount,
        paid_amount: args.advance_payment_amount,
        deadline_ts: args.deadline_ts,
        bump: [ctx.bump],
    }
}

/// Why the terms are refused, once the accounts were found to fit: the
/// deadline has come already; there is no principal; neither holder mode nor a
/// fee is offered; the advance is not less than the principal without the
/// checker's fee; principal and fee together are more than an account can
/// hold.
pub open spec fn terms_error(args: InitializeArgs, now: i64) -> Option<ErrorCodes> {
    if args.deadline_ts is Some && args.deadline_ts->Some_0 <= now {
        Some(ErrorCodes::DeadlineExpired)
    } else if args.deal_amount == 0 {
        Some(ErrorCodes::AmountTooLow)
    } else if !args.holder_mode && args.service_fee == 0 {
        Some(ErrorCodes::FeeIsTooLow)
    } else if !(args.advance_payment_amount < args.deal_amount - args.fee()) {
        Some(ErrorCodes::AdvancePaymentExceeded)
    } else if args.deal_amount + args.fee() > u64::MAX {
        Some(ErrorCodes::AmountOverflow)
    } else {
        None
    }
}

/// Why a deal cannot be created on this request at this time: a record
/// exists already; client and executor are one; the record would stand at
/// the key of a party, where it could not be the sole authority over its
/// custody; an account does not fit; the terms are refused.
pub open spec fn initialize_error(
    config: Config,
    record: Option<DealState>,
    ctx: Initialize,
    args: InitializeArgs,
    now: i64,
) -> Option<DealError> {
    if record is Some {
        Some(DealError::Access(AccessError::RecordExists))
    } else if ctx.client == ctx.executor {
        Some(DealError::Access(AccessError::SameParty))
    } else if ctx.deal_state == ctx.client || ctx.deal_state == ctx.executor {
        Some(DealError::Access(AccessError::RecordAddress))
    } else if ctx.accounts_error(config, args) is Some {
        ctx.accounts_error(config, args)
    } else {
        match terms_error(args, now) {
            Some(e) => Some(DealError::Code(e)),
            None => None,
        }
    }
}

/// The movements of an initialization, in order: missing accounts are
/// created, the client gives the stake or the service fee, deposits the
/// principal with the checker's fee, both bonds are posted, and the advance
/// is released to the executor.
pub open spec fn initialize_plan(config: Config, ctx: Initialize, args: InitializeArgs) -> Seq<
    Intent,
>
    recommends
        args.deal_amount + args.fee() <= u64::MAX,
{
    ctx.creations(config, args) + ctx.service_fee(config, args.holder_mode, args.service_fee)
        + ctx.deposit((args.deal_amount + args.fee()) as u64) + ctx.bonds(
        args.client_bond,
        args.executor_bond,
    ) + ctx.advance_payment(args.advance_payment_amount)
}

/// Whether the advance is less than the principal without the checker's fee.
fn advance_allowed(args: &InitializeArgs) -> (r: bool)
    ensures
        r == (args.advance_payment_amount < args.deal_amount - args.fee()),
{
    let fee = args.checker_fee_or_zero();
    fee <= args.deal_amount && args.advance_payment_amount < args.deal_amount - fee
}

/// Builds the record that a request creates.
fn build_deal(config: &Config, ctx: &Initialize, args: &InitializeArgs) -> (deal: DealState)
    ensures
        deal == new_deal(*config, *ctx, *args),
{
    DealState {
        id: args.id,
        client_key: ctx.client,
        executor_key: ctx.executor,
        deal_token_mint: ctx.deal_mint,
        client_bond: match args.client_bond {
            Some(amount) => Some(Bond { mint: ctx.client_bond_mint.key, amount }),
            None => None,
        },
        executor_bond: match args.executor_bond {
            Some(amount) => Some(Bond { mint: ctx.executor_bond_mint.key, amount }),
            None => None,
        },
        checker: match args.checker_fee {
            Some(checker_fee) => Some(Checker { checker_fee, checker_key: ctx.checker }),
            None => None,
        },
        holder_mode: if args.holder_mode {
            Some(config.holder_mode_amount)
        } else {
            None
        },
        amount: args.deal_amount,
        paid_amount: args.advance_payment_amount,
        deadline_ts: args.deadline_ts,
        bump: [ctx.bump],
    }
}

/// Creates the deal. On success the record is written, well formed, and the
/// plan is returned; on refusal no record is written.
pub fn handle(
    config: &Config,
    record: &mut Option<DealState>,
    ctx: &Initialize,
    args: &InitializeArgs,
    now: i64,
) -> (r: Result<Vec<Intent>, DealError>)
    ensures
        match initialize_error(*config, *old(record), *ctx, *args, now) {
            Some(e) => r == Err::<Vec<Intent>, DealError>(e) && *final(record) == *old(record),
            None => r is Ok && r->Ok_0@ == initialize_plan(*config, *ctx, *args) && *final(record)
                == Some(new_deal(*config, *ctx, *args)) && final(record)->Some_0.wf(),
        },
{
    if record.is_some() {
        return Err(DealError::Access(AccessError::RecordExists));
    }
    if ctx.client.same(&ctx.executor) {
        return Err(DealError::Access(AccessError::SameParty));
    }
    if ctx.deal_state.same(&ctx.client) || ctx.deal_state.same(&ctx.executor) {
        return Err(DealError::Access(AccessError::RecordAddress));
    }
    let mut plan: Vec<Intent> = Vec::new();
    ctx.check_accounts(config, args, &mut plan)?;
    let deal = build_deal(config, ctx, args);
    match ctx.check_deadline(&deal, now) {
        Err(e) => {
            return Err(DealError::Code(e));
        },
        Ok(_) => {},
    }
    match ctx.check_deal_amount(args.deal_amount) {
        Err(e) => {
            return Err(DealError::Code(e));
        },
        Ok(_) => {},
    }
    match ctx.handle_service_fee(config, args.holder_mode, args.service_fee, &mut plan) {
        Err(e) => {
            return Err(DealError::Code(e));
        },
        Ok(_) => {},
    }
    if !advance_allowed(args) {
        return Err(DealError::Code(ErrorCodes::AdvancePaymentExceeded));
    }
    let deposit = match args.deal_amount.checked_add(args.checker_fee_or_zero()) {
        None => {
            return Err(DealError::Code(ErrorCodes::AmountOverflow));
        },
        Some(deposit) => deposit,
    };
    ctx.transfer_deposit(deposit, &mut plan);
    ctx.transfer_bonds(args.client_bond, args.executor_bond, &mut plan);
    ctx.transfer_advance_payment(args.advance_payment_amount, &mut plan);
    *record = Some(deal);
    assert(plan@ =~= initialize_plan(*config, *ctx, *args));
    Ok(plan)
}

} // verus!
