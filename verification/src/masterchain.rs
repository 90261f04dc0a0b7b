//! How the masterchain zerostate is made: which outside work is asked for, in which order, and what
//! each answer leads to.
//!
//! Keys, contracts and the state itself are beyond this module. It asks for one [`McAction`] at a
//! time and is told of the outcome by an [`McEvent`].
use vstd::prelude::*;

use crate::accounts;
use crate::accounts::AccountBook;
use crate::config::{Account, Address, Validator, ZerostateConfig};
use crate::plan;
use crate::plan::plan_state;
use crate::steps;
use crate::steps::Step;

verus! {

/// A piece of outside work.
#[derive(Clone, Copy, Debug, PartialEq, Eq)]
pub enum McAction {
    /// Find out whether the minter's key is a public key.
    CheckMinterKey { key: [u8; 32] },
    /// Find out whether the configuration's key is a public key.
    CheckConfigKey { key: [u8; 32] },
    /// Start with an empty masterchain state.
    OpenState,
    /// Build the account that mints currencies.
    BuildMinter { key: [u8; 32] },
    /// Build the account that runs with every block.
    BuildTickTock,
    /// Build the account that keeps the parameters.
    BuildConfigAccount { address: Address, key: [u8; 32] },
    /// Build the account that elects validators.
    BuildElectorAccount { address: Address },
    /// Add the account's balance to the total.
    AddBalance { account: Account },
    /// Wrap the account for the state, with its last transaction.
    MakeShardAccount { account: Account, last_trans_hash: [u8; 32], last_trans_lt: u64 },
    /// Put the wrapped account into the state.
    InsertAccount { address: Address },
    /// Find out whether a validator's key is a public key.
    CheckValidatorKey { key: [u8; 32] },
    /// Build a validator's wallet.
    BuildWallet { key: [u8; 32], balance: u64 },
    /// Put the wrapped wallet into the state.
    InsertWallet { address: Address },
    /// Write to the state.
    Write(Step),
    /// Nothing: the state is complete.
    Finished,
}

/// How a piece of outside work went.
#[derive(Clone, Copy, Debug, PartialEq, Eq)]
pub enum McEvent {
    KeyAccepted,
    KeyRejected,
    AccountBuilt { account: Account },
    AccountBuiltAt { address: Address, account: Account },
    Done,
    Failed,
}

/// Where the work stands.
#[derive(Clone, Copy, Debug, PartialEq, Eq)]
pub enum McPhase {
    MinterKey,
    ConfigKey,
    Opening,
    Minter,
    TickTock,
    ConfigAccount,
    ElectorAccount,
    /// The account at this place of the book is next.
    Balance(usize),
    Wrapping(usize),
    Inserting(usize),
    /// The validator at this place is next.
    ValidatorKey(usize),
    Wallet(usize),
    WrappingWallet { validator: usize, address: Address, account: Account },
    InsertingWallet { validator: usize, address: Address },
    /// The write at this place of the plan is next.
    Writing(usize),
    Finished,
}

/// Everything that decides what comes next.
#[verifier::ext_equal]
pub ghost struct McState {
    pub minter_key: [u8; 32],
    pub config_key: [u8; 32],
    pub config_address: Address,
    pub elector_address: Address,
    pub validators: Seq<Validator>,
    pub book: Seq<(Address, Account)>,
    pub steps: Seq<Step>,
    pub phase: McPhase,
}

/// The address that the minter is put under, and the hash of a transaction that never was.
pub const ZERO: [u8; 32] = [
    0, 0, 0, 0, 0, 0, 0, 0, 0, 0, 0, 0, 0, 0, 0, 0, 0, 0, 0, 0, 0, 0, 0, 0, 0, 0, 0, 0, 0, 0, 0, 0,
];

/// The state of a job that has just been started.
pub open spec fn mc_start(data: ZerostateConfig) -> McState {
    McState {
        minter_key: data.minter_public_key,
        config_key: data.config_public_key,
        config_address: data.config.config_address,
        elector_address: data.config.elector_address,
        validators: data.config.validator_set.validators@,
        book: accounts::book_of(data.accounts@),
        steps: plan::state_steps(data),
        phase: McPhase::MinterKey,
    }
}

/// The work that is asked for.
pub open spec fn mc_action(state: McState) -> McAction {
    let validators = state.validators;
    match state.phase {
        McPhase::MinterKey => McAction::CheckMinterKey { key: state.minter_key },
        McPhase::ConfigKey => McAction::CheckConfigKey { key: state.config_key },
        McPhase::Opening => McAction::OpenState,
        McPhase::Minter => McAction::BuildMinter { key: state.minter_key },
        McPhase::TickTock => McAction::BuildTickTock,
        McPhase::ConfigAccount => McAction::BuildConfigAccount {
            address: state.config_address,
            key: state.config_key,
        },
        McPhase::ElectorAccount => McAction::BuildElectorAccount {
            address: state.elector_address,
        },
        McPhase::Balance(i) => McAction::AddBalance { account: state.book[i as int].1 },
        McPhase::Wrapping(i) => mc_wrap(state.book[i as int].1),
        McPhase::Inserting(i) => McAction::InsertAccount { address: state.book[i as int].0 },
        McPhase::ValidatorKey(i) => McAction::CheckValidatorKey {
            key: validators[i as int].public_key,
        },
        McPhase::Wallet(i) => McAction::BuildWallet {
            key: validators[i as int].public_key,
            balance: validators[i as int].initial_balance,
        },
        McPhase::WrappingWallet { account, .. } => mc_wrap(account),
        McPhase::InsertingWallet { address, .. } => McAction::InsertWallet { address },
        McPhase::Writing(i) => McAction::Write(state.steps[i as int]),
        McPhase::Finished => McAction::Finished,
    }
}

/// An account is wrapped as one that has had no transaction.
pub open spec fn mc_wrap(account: Account) -> McAction {
    McAction::MakeShardAccount { account, last_trans_hash: ZERO, last_trans_lt: 0 }
}

/// Whether an event can be the outcome of a piece of work.
pub open spec fn mc_fits(action: McAction, event: McEvent) -> bool {
    match action {
        McAction::CheckMinterKey { .. }
        | McAction::CheckConfigKey { .. }
        | McAction::CheckValidatorKey { .. } => event is KeyAccepted || event is KeyRejected,
        McAction::BuildMinter { .. }
        | McAction::BuildConfigAccount { .. }
        | McAction::BuildElectorAccount { .. } => event is AccountBuilt || event is Failed,
        McAction::BuildTickTock | McAction::BuildWallet { .. } => event is AccountBuiltAt
            || event is Failed,
        McAction::Finished => false,
        _ => event is Done || event is Failed,
    }
}

/// The phase in which the accounts from a place on are dealt with. Empty entries are passed over;
/// after the accounts come the validators.
pub open spec fn account_phase(state: McState, from: int) -> McPhase {
    let place = accounts::next_existing(state.book, from);
    if place < state.book.len() {
        McPhase::Balance(place as usize)
    } else {
        validator_phase(state, 0)
    }
}

/// The phase in which the validators from a place on are dealt with. After them comes the plan.
pub open spec fn validator_phase(state: McState, from: int) -> McPhase {
    if from < state.validators.len() {
        McPhase::ValidatorKey(from as usize)
    } else {
        writing_phase(state, 0)
    }
}

/// The phase in which the plan is carried out from a place on.
pub open spec fn writing_phase(state: McState, from: int) -> McPhase {
    if from < state.steps.len() {
        McPhase::Writing(from as usize)
    } else {
        McPhase::Finished
    }
}

/// The state in another phase.
pub open spec fn at_phase(state: McState, phase: McPhase) -> McState {
    McState { phase, ..state }
}

/// The state with one more account in its book.
pub open spec fn with_entry(state: McState, address: Address, account: Account) -> McState {
    McState { book: accounts::with_account(state.book, address, account), ..state }
}

/// Where the state goes on after work that went well.
pub open spec fn mc_onward(state: McState, event: McEvent) -> McState {
    match state.phase {
        McPhase::MinterKey => at_phase(state, McPhase::ConfigKey),
        McPhase::ConfigKey => at_phase(state, McPhase::Opening),
        McPhase::Opening => at_phase(state, McPhase::Minter),
        McPhase::Minter => at_phase(
            with_entry(state, ZERO, event->AccountBuilt_account),
            McPhase::TickTock,
        ),
        McPhase::TickTock => at_phase(
            with_entry(state, event->address, event->AccountBuiltAt_account),
            McPhase::ConfigAccount,
        ),
        McPhase::ConfigAccount => at_phase(
            with_entry(state, state.config_address, event->AccountBuilt_account),
            McPhase::ElectorAccount,
        ),
        McPhase::ElectorAccount => {
            let complete = with_entry(
                state,
                state.elector_address,
                event->AccountBuilt_account,
            );
            at_phase(complete, account_phase(complete, 0))
        },
        McPhase::Balance(i) => at_phase(state, McPhase::Wrapping(i)),
        McPhase::Wrapping(i) => at_phase(state, McPhase::Inserting(i)),
        McPhase::Inserting(i) => at_phase(state, account_phase(state, i + 1)),
        McPhase::ValidatorKey(i) => if event is KeyAccepted {
            at_phase(state, McPhase::Wallet(i))
        } else {
            at_phase(state, validator_phase(state, i + 1))
        },
        McPhase::Wallet(i) => at_phase(
            state,
            McPhase::WrappingWallet {
                validator: i,
                address: event->address,
                account: event->AccountBuiltAt_account,
            },
        ),
        McPhase::WrappingWallet { validator, address, .. } => at_phase(
            state,
            McPhase::InsertingWallet { validator, address },
        ),
        McPhase::InsertingWallet { validator, .. } => at_phase(
            state,
            validator_phase(state, validator + 1),
        ),
        McPhase::Writing(i) => at_phase(state, writing_phase(state, i + 1)),
        McPhase::Finished => state,
    }
}

/// What an outcome leads to: the next state, or the end, at the work that did not succeed. A
/// validator's key that is no key is no failure: the validator gets no wallet.
pub open spec fn mc_next(state: McState, event: McEvent) -> Result<McState, McAction> {
    let action = mc_action(state);
    if event is Failed || (event is KeyRejected && !(action is CheckValidatorKey)) {
        Err(action)
    } else {
        Ok(mc_onward(state, event))
    }
}

/// What is told of work that did not succeed, on top of the failure itself.
pub open spec fn mc_context(action: McAction) -> Option<Seq<char>> {
    match action {
        McAction::CheckMinterKey { .. } => Some("Invalid minter public key"@),
        McAction::CheckConfigKey { .. } => Some("Invalid config public key"@),
        McAction::BuildMinter { .. } => Some("Failed to build minter state"@),
        McAction::BuildTickTock => Some("Failed to build tick tock"@),
        McAction::BuildConfigAccount { .. } => Some("Failed to build config state"@),
        McAction::BuildElectorAccount { .. } => Some("Failed to build config state"@),
        McAction::AddBalance { .. } => Some("Failed to get total balance"@),
        McAction::MakeShardAccount { .. } => Some("Failed to create shard account"@),
        McAction::InsertAccount { .. } => Some("Failed to insert account"@),
        McAction::BuildWallet { .. } => Some("Failed to build validator wallet"@),
        McAction::InsertWallet { .. } => Some("Failed to insert validator account"@),
        McAction::Write(step) => steps::step_context(step),
        _ => None,
    }
}

/// The phase points at something that is there.
pub open spec fn mc_well_formed(state: McState) -> bool {
    let validators = state.validators;
    &&& accounts::distinct_addresses(state.book)
    &&& match state.phase {
        McPhase::Balance(i) | McPhase::Wrapping(i) | McPhase::Inserting(i) => i < state.book.len()
            && state.book[i as int].1.exists,
        McPhase::ValidatorKey(i) | McPhase::Wallet(i) => i < validators.len(),
        McPhase::WrappingWallet { validator, .. }
        | McPhase::InsertingWallet { validator, .. } => validator < validators.len(),
        McPhase::Writing(i) => i < state.steps.len(),
        _ => true,
    }
}

impl McAction {
    /// What is told of the work if it did not succeed, on top of the failure itself.
    pub fn context(&self) -> (text: Option<&'static str>)
        ensures
            steps::reads(text, mc_context(*self)),
    {
        match self {
            McAction::CheckMinterKey { .. } => Some("Invalid minter public key"),
            McAction::CheckConfigKey { .. } => Some("Invalid config public key"),
            McAction::BuildMinter { .. } => Some("Failed to build minter state"),
            McAction::BuildTickTock => Some("Failed to build tick tock"),
            McAction::BuildConfigAccount { .. } => Some("Failed to build config state"),
            McAction::BuildElectorAccount { .. } => Some("Failed to build config state"),
            McAction::AddBalance { .. } => Some("Failed to get total balance"),
            McAction::MakeShardAccount { .. } => Some("Failed to create shard account"),
            McAction::InsertAccount { .. } => Some("Failed to insert account"),
            McAction::BuildWallet { .. } => Some("Failed to build validator wallet"),
            McAction::InsertWallet { .. } => Some("Failed to insert validator account"),
            McAction::Write(step) => step.context(),
            _ => None,
        }
    }
}

/// A masterchain zerostate in the making.
pub struct McJob {
    data: ZerostateConfig,
    book: AccountBook,
    steps: Vec<Step>,
    phase: McPhase,
}

impl View for McJob {
    type V = McState;

    closed spec fn view(&self) -> McState {
        McState {
            minter_key: self.data.minter_public_key,
            config_key: self.data.config_public_key,
            config_address: self.data.config.config_address,
            elector_address: self.data.config.elector_address,
            validators: self.data.config.validator_set.validators@,
            book: self.book@,
            steps: self.steps@,
            phase: self.phase,
        }
    }
}

/// Starts to make the masterchain zerostate that is described.
pub fn prepare_mc_zerostate(data: ZerostateConfig) -> (job: McJob)
    ensures
        job@ == mc_start(data),
        mc_well_formed(job@),
{
    let book = AccountBook::from_entries(&data.accounts);
    let steps = plan_state(&data);
    McJob { data, book, steps, phase: McPhase::MinterKey }
}

fn wrap(account: Account) -> (action: McAction)
    ensures
        action == mc_wrap(account),
{
    McAction::MakeShardAccount { account, last_trans_hash: ZERO, last_trans_lt: 0 }
}

impl McJob {
    #[verifier::type_invariant]
    spec fn well_formed(self) -> bool {
        mc_well_formed(self@)
    }

    /// The work that is asked for.
    pub fn action(&self) -> (action: McAction)
        ensures
            action == mc_action(self@),
    {
        proof {
            use_type_invariant(self);
        }
        match self.phase {
            McPhase::MinterKey => McAction::CheckMinterKey { key: self.data.minter_public_key },
            McPhase::ConfigKey => McAction::CheckConfigKey { key: self.data.config_public_key },
            McPhase::Opening => McAction::OpenState,
            McPhase::Minter => McAction::BuildMinter { key: self.data.minter_public_key },
            McPhase::TickTock => McAction::BuildTickTock,
            McPhase::ConfigAccount => McAction::BuildConfigAccount {
                address: self.data.config.config_address,
                key: self.data.config_public_key,
            },
            McPhase::ElectorAccount => McAction::BuildElectorAccount {
                address: self.data.config.elector_address,
            },
            McPhase::Balance(i) => McAction::AddBalance { account: self.book.get(i).1 },
            McPhase::Wrapping(i) => wrap(self.book.get(i).1),
            McPhase::Inserting(i) => McAction::InsertAccount { address: self.book.get(i).0 },
            McPhase::ValidatorKey(i) => McAction::CheckValidatorKey {
                key: self.data.config.validator_set.validators[i].public_key,
            },
            McPhase::Wallet(i) => McAction::BuildWallet {
                key: self.data.config.validator_set.validators[i].public_key,
                balance: self.data.config.validator_set.validators[i].initial_balance,
            },
            McPhase::WrappingWallet { account, .. } => wrap(account),
            McPhase::InsertingWallet { address, .. } => McAction::InsertWallet { address },
            McPhase::Writing(i) => McAction::Write(self.steps[i]),
            McPhase::Finished => McAction::Finished,
        }
    }

    /// Whether an event can be the outcome of the work that is asked for.
    pub fn accepts(&self, event: &McEvent) -> (accepted: bool)
        ensures
            accepted == mc_fits(mc_action(self@), *event),
    {
        match self.action() {
            McAction::CheckMinterKey { .. }
            | McAction::CheckConfigKey { .. }
            | McAction::CheckValidatorKey { .. } => match event {
                McEvent::KeyAccepted | McEvent::KeyRejected => true,
                _ => false,
            },
            McAction::BuildMinter { .. }
            | McAction::BuildConfigAccount { .. }
            | McAction::BuildElectorAccount { .. } => match event {
                McEvent::AccountBuilt { .. } | McEvent::Failed => true,
                _ => false,
            },
            McAction::BuildTickTock | McAction::BuildWallet { .. } => match event {
                McEvent::AccountBuiltAt { .. } | McEvent::Failed => true,
                _ => false,
            },
            McAction::Finished => false,
            _ => match event {
                McEvent::Done | McEvent::Failed => true,
                _ => false,
            },
        }
    }

    /// Takes in how the work went. The result is the job as it goes on, or the work that did not
    /// succeed, with which it ends.
    pub fn advance(self, event: McEvent) -> (result: Result<McJob, McAction>)
        requires
            mc_fits(mc_action(self@), event),
        ensures
            match result {
                Ok(job) => mc_next(self@, event) == Ok::<McState, McAction>(job@)
                    && mc_well_formed(job@),
                Err(action) => mc_next(self@, event) == Err::<McState, McAction>(action),
            },
    {
        proof {
            use_type_invariant(&self);
        }
        let action = self.action();
        let ghost before = self@;
        let McJob { data, book, steps, phase } = self;
        let validators: usize = data.config.validator_set.validators.len();
        let writes: usize = steps.len();
        let _accounts: usize = book.len();
        proof {
            if mc_onward(before, event).book == before.book {
                law_mc_stays_well_formed(before, event);
            }
        }
        match event {
            McEvent::Failed => Err(action),
            McEvent::KeyRejected => match phase {
                McPhase::ValidatorKey(i) => {
                    let phase = next_validator(i + 1, validators, writes);
                    Ok(McJob { data, book, steps, phase })
                },
                _ => Err(action),
            },
            McEvent::KeyAccepted => {
                let phase = match phase {
                    McPhase::MinterKey => McPhase::ConfigKey,
                    McPhase::ConfigKey => McPhase::Opening,
                    McPhase::ValidatorKey(i) => McPhase::Wallet(i),
                    _ => phase,
                };
                Ok(McJob { data, book, steps, phase })
            },
            McEvent::AccountBuilt { account } => match phase {
                McPhase::Minter => {
                    let book = book.insert(ZERO, account);
                    let _accounts: usize = book.len();
                    proof {
                        law_mc_stays_well_formed(before, event);
                    }
                    Ok(McJob { data, book, steps, phase: McPhase::TickTock })
                },
                McPhase::ConfigAccount => {
                    let book = book.insert(data.config.config_address, account);
                    let _accounts: usize = book.len();
                    proof {
                        law_mc_stays_well_formed(before, event);
                    }
                    Ok(McJob { data, book, steps, phase: McPhase::ElectorAccount })
                },
                _ => {
                    let book = book.insert(data.config.elector_address, account);
                    let _accounts: usize = book.len();
                    proof {
                        law_mc_stays_well_formed(before, event);
                    }
                    let phase = next_account(&book, 0, validators, writes);
                    Ok(McJob { data, book, steps, phase })
                },
            },
            McEvent::AccountBuiltAt { address, account } => match phase {
                McPhase::Wallet(i) => {
                    let phase = McPhase::WrappingWallet { validator: i, address, account };
                    Ok(McJob { data, book, steps, phase })
                },
                _ => {
                    let book = book.insert(address, account);
                    let _accounts: usize = book.len();
                    proof {
                        law_mc_stays_well_formed(before, event);
                    }
                    Ok(McJob { data, book, steps, phase: McPhase::ConfigAccount })
                },
            },
            McEvent::Done => {
                let phase = match phase {
                    McPhase::Opening => McPhase::Minter,
                    McPhase::Balance(i) => McPhase::Wrapping(i),
                    McPhase::Wrapping(i) => McPhase::Inserting(i),
                    McPhase::Inserting(i) => next_account(&book, i + 1, validators, writes),
                    McPhase::WrappingWallet { validator, address, .. } => McPhase::InsertingWallet {
                        validator,
                        address,
                    },
                    McPhase::InsertingWallet { validator, .. } => next_validator(
                        validator + 1,
                        validators,
                        writes,
                    ),
                    McPhase::Writing(i) => next_write(i + 1, writes),
                    _ => phase,
                };
                Ok(McJob { data, book, steps, phase })
            },
        }
    }
}

/// The phase for the writes from a place on.
fn next_write(from: usize, steps: usize) -> (phase: McPhase)
    ensures
        forall|state: McState|
            state.steps.len() == steps ==> phase == #[trigger] writing_phase(state, from as int),
{
    if from < steps {
        McPhase::Writing(from)
    } else {
        McPhase::Finished
    }
}

/// The phase for the validators from a place on.
fn next_validator(from: usize, validators: usize, steps: usize) -> (phase: McPhase)
    ensures
        forall|state: McState|
            state.steps.len() == steps && state.validators.len() == validators ==> phase
                == #[trigger] validator_phase(state, from as int),
{
    if from < validators {
        McPhase::ValidatorKey(from)
    } else {
        next_write(0, steps)
    }
}

/// The phase for the accounts from a place on.
fn next_account(
    book: &AccountBook,
    from: usize,
    validators: usize,
    steps: usize,
) -> (phase: McPhase)
    requires
        from <= book@.len(),
    ensures
        forall|state: McState|
            state.steps.len() == steps && state.book == book@ && state.validators.len() == validators
                ==> phase == #[trigger] account_phase(state, from as int),
{
    let place = book.next_existing(from);
    if place < book.len() {
        McPhase::Balance(place)
    } else {
        next_validator(0, validators, steps)
    }
}

/// Every answer keeps the job in order, as long as the book and the plan fit into memory.
pub proof fn law_mc_stays_well_formed(state: McState, event: McEvent)
    requires
        mc_well_formed(state),
        mc_fits(mc_action(state), event),
        mc_onward(state, event).book.len() <= usize::MAX,
        state.steps.len() <= usize::MAX,
    ensures
        mc_next(state, event) matches Ok(next) ==> mc_well_formed(next),
{
    let next = mc_onward(state, event);
    match state.phase {
        McPhase::Minter | McPhase::ConfigAccount | McPhase::ElectorAccount => {
            let address = match state.phase {
                McPhase::Minter => ZERO,
                McPhase::ConfigAccount => state.config_address,
                _ => state.elector_address,
            };
            accounts::law_put_keeps_addresses_distinct(
                state.book,
                address,
                event->AccountBuilt_account,
            );
            accounts::lemma_next_existing(next.book, 0);
        },
        McPhase::TickTock => {
            accounts::law_put_keeps_addresses_distinct(
                state.book,
                event->address,
                event->AccountBuiltAt_account,
            );
        },
        McPhase::Inserting(i) => {
            accounts::lemma_next_existing(state.book, i + 1);
        },
        _ => {},
    }
}

/// An account goes into the state as one that has had no transaction: the hash is all zeros, and so
/// is the time.
pub proof fn law_accounts_are_new(account: Account)
    ensures
        mc_wrap(account) matches McAction::MakeShardAccount {
            account: wrapped,
            last_trans_hash,
            last_trans_lt,
        } && wrapped == account && last_trans_lt == 0 && forall|i: int|
            0 <= i < 32 ==> (#[trigger] last_trans_hash@[i]) == 0,
        forall|i: int| 0 <= i < 32 ==> (#[trigger] ZERO@[i]) == 0,
{
}

/// Every outcome belongs to the work that it can be an outcome of, and to no other.
pub proof fn law_mc_outcomes(action: McAction, account: Account, address: Address)
    ensures
        ({
            let on_key = action is CheckMinterKey || action is CheckConfigKey || action
                is CheckValidatorKey;
            let builds = action is BuildMinter || action is BuildConfigAccount || action
                is BuildElectorAccount;
            let builds_at = action is BuildTickTock || action is BuildWallet;
            &&& mc_fits(action, McEvent::KeyAccepted) <==> on_key
            &&& mc_fits(action, McEvent::KeyRejected) <==> on_key
            &&& mc_fits(action, McEvent::AccountBuilt { account }) <==> builds
            &&& mc_fits(action, McEvent::AccountBuiltAt { address, account }) <==> builds_at
            &&& mc_fits(action, McEvent::Failed) <==> !on_key && !(action is Finished)
            &&& mc_fits(action, McEvent::Done) <==> !on_key && !builds && !builds_at && !(action
                is Finished)
        }),
{
}

/// Work that did not succeed ends the job and is named, and so does a refused key of the minter or
/// the configuration; a validator's refused key does not, and nothing else does.
pub proof fn law_mc_failures(state: McState, event: McEvent)
    requires
        mc_fits(mc_action(state), event),
    ensures
        ({
            let action = mc_action(state);
            let ends = event is Failed || (event is KeyRejected && (action is CheckMinterKey || action
                is CheckConfigKey));
            &&& ends ==> mc_next(state, event) == Err::<McState, McAction>(action)
            &&& !ends ==> mc_next(state, event) is Ok
        }),
{
}

/// Which work is told with a text of its own when it does not succeed.
pub proof fn law_mc_told(action: McAction)
    ensures
        mc_context(action) is None <==> (action is OpenState || action is CheckValidatorKey || action
            is Finished || (action matches McAction::Write(step) && steps::step_context(step)
            is None)),
        action matches McAction::Write(step) ==> mc_context(action) == steps::step_context(step),
{
}

} // verus!
