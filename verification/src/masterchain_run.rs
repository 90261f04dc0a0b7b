//! What a whole run of a masterchain job asks for.
use vstd::prelude::*;

use crate::accounts;
use crate::config::{
    Account, Address, NetworkConfig, Validator, ValidatorSet, ZerostateConfig,
};
use crate::gather;
use crate::masterchain;
use crate::masterchain::{McAction, McEvent, McPhase};
use crate::plan;
use crate::plan_read;
use crate::steps::Step;

verus! {

/// The outside's answers where nothing fails: which keys are keys, and what is built.
pub ghost struct McAnswers {
    pub is_key: spec_fn([u8; 32]) -> bool,
    pub minter: Account,
    pub tick_tock: (Address, Account),
    pub config_account: Account,
    pub elector_account: Account,
    pub wallet: spec_fn([u8; 32], u64) -> (Address, Account),
}

/// The answer to a piece of work.
pub open spec fn mc_answer(answers: McAnswers, action: McAction) -> McEvent {
    match action {
        McAction::CheckMinterKey { key }
        | McAction::CheckConfigKey { key }
        | McAction::CheckValidatorKey { key } => if (answers.is_key)(key) {
            McEvent::KeyAccepted
        } else {
            McEvent::KeyRejected
        },
        McAction::BuildMinter { .. } => McEvent::AccountBuilt { account: answers.minter },
        McAction::BuildTickTock => McEvent::AccountBuiltAt {
            address: answers.tick_tock.0,
            account: answers.tick_tock.1,
        },
        McAction::BuildConfigAccount { .. } => McEvent::AccountBuilt {
            account: answers.config_account,
        },
        McAction::BuildElectorAccount { .. } => McEvent::AccountBuilt {
            account: answers.elector_account,
        },
        McAction::BuildWallet { key, balance } => McEvent::AccountBuiltAt {
            address: (answers.wallet)(key, balance).0,
            account: (answers.wallet)(key, balance).1,
        },
        _ => McEvent::Done,
    }
}

/// How many accounts are still to be put into the book.
pub open spec fn puts_left(phase: McPhase) -> nat {
    match phase {
        McPhase::MinterKey | McPhase::ConfigKey | McPhase::Opening | McPhase::Minter => 4,
        McPhase::TickTock => 3,
        McPhase::ConfigAccount => 2,
        McPhase::ElectorAccount => 1,
        _ => 0,
    }
}

/// The book, once complete, and the plan fit into memory.
pub open spec fn mc_bounded(state: masterchain::McState) -> bool {
    &&& state.book.len() + puts_left(state.phase) <= usize::MAX
    &&& state.steps.len() <= usize::MAX
    &&& state.validators.len() <= usize::MAX
}

/// At most how many pieces of work are still to be asked for.
pub open spec fn mc_remaining(state: masterchain::McState) -> int {
    let accounts = 3 * (state.book.len() + puts_left(state.phase));
    let validators = state.validators.len() as int;
    let writes = state.steps.len() as int;
    match state.phase {
        McPhase::MinterKey => 7 + accounts + 4 * validators + writes,
        McPhase::ConfigKey => 6 + accounts + 4 * validators + writes,
        McPhase::Opening => 5 + accounts + 4 * validators + writes,
        McPhase::Minter => 4 + accounts + 4 * validators + writes,
        McPhase::TickTock => 3 + accounts + 4 * validators + writes,
        McPhase::ConfigAccount => 2 + accounts + 4 * validators + writes,
        McPhase::ElectorAccount => 1 + accounts + 4 * validators + writes,
        McPhase::Balance(i) => accounts - 3 * i + 4 * validators + writes,
        McPhase::Wrapping(i) => accounts - 3 * i - 1 + 4 * validators + writes,
        McPhase::Inserting(i) => accounts - 3 * i - 2 + 4 * validators + writes,
        McPhase::ValidatorKey(i) => 4 * (validators - i) + writes,
        McPhase::Wallet(i) => 4 * (validators - i) - 1 + writes,
        McPhase::WrappingWallet { validator, .. } => 4 * (validators - validator) - 2 + writes,
        McPhase::InsertingWallet { validator, .. } => 4 * (validators - validator) - 3 + writes,
        McPhase::Writing(i) => writes - i,
        McPhase::Finished => 0,
    }
}

/// How much there is left where the accounts from a place on are next.
proof fn lemma_account_phase_remaining(state: masterchain::McState, from: int)
    requires
        0 <= from <= state.book.len() <= usize::MAX,
        state.steps.len() <= usize::MAX,
    ensures
        ({
            let next = masterchain::at_phase(state, masterchain::account_phase(state, from));
            &&& puts_left(next.phase) == 0
            &&& 0 <= mc_remaining(next) <= 3 * (state.book.len() - from) + 4
                * state.validators.len() + state.steps.len()
        }),
{
    accounts::lemma_next_existing(state.book, from);
}

/// Every answer brings the end nearer: a job asks for no more than [`mc_remaining`] pieces of work.
pub proof fn law_mc_progress(state: masterchain::McState, event: McEvent)
    requires
        masterchain::mc_well_formed(state),
        mc_bounded(state),
        masterchain::mc_fits(masterchain::mc_action(state), event),
    ensures
        mc_remaining(state) > 0,
        masterchain::mc_next(state, event) matches Ok(next) ==> {
            &&& 0 <= mc_remaining(next) < mc_remaining(state)
            &&& masterchain::mc_well_formed(next)
            &&& mc_bounded(next)
        },
{
    let next = masterchain::mc_onward(state, event);
    let book = state.book;
    match state.phase {
        McPhase::Minter => {
            let account = event->AccountBuilt_account;
            accounts::lemma_put_adds_one(book, masterchain::ZERO, account);
        },
        McPhase::TickTock => {
            let account = event->AccountBuiltAt_account;
            accounts::lemma_put_adds_one(book, event->address, account);
        },
        McPhase::ConfigAccount => {
            let account = event->AccountBuilt_account;
            accounts::lemma_put_adds_one(book, state.config_address, account);
        },
        McPhase::ElectorAccount => {
            let account = event->AccountBuilt_account;
            accounts::lemma_put_adds_one(book, state.elector_address, account);
        },
        _ => {},
    }
    masterchain::law_mc_stays_well_formed(state, event);
    match state.phase {
        McPhase::ElectorAccount => {
            let address = state.elector_address;
            let account = event->AccountBuilt_account;
            lemma_account_phase_remaining(masterchain::with_entry(state, address, account), 0);
        },
        McPhase::Inserting(i) => {
            lemma_account_phase_remaining(state, i + 1);
        },
        _ => {},
    }
}

/// All that a job asks for from here on, under the given answers.
#[verifier::opaque]
pub open spec fn mc_run(state: masterchain::McState, answers: McAnswers) -> Seq<McAction>
    decreases mc_remaining(state),
    when masterchain::mc_well_formed(state) && mc_bounded(state)
    via mc_run_terminates
{
    let action = masterchain::mc_action(state);
    if action is Finished {
        seq![]
    } else {
        match masterchain::mc_next(state, mc_answer(answers, action)) {
            Ok(next) => seq![action] + mc_run(next, answers),
            Err(_) => seq![action],
        }
    }
}

#[via_fn]
proof fn mc_run_terminates(state: masterchain::McState, answers: McAnswers) {
    let action = masterchain::mc_action(state);
    if !(action is Finished) {
        law_mc_progress(state, mc_answer(answers, action));
    }
}

/// The work on the accounts of a book from a place on: each account that exists is added to the
/// total, wrapped and inserted.
pub open spec fn account_actions(book: Seq<(Address, Account)>, from: int) -> Seq<McAction>
    decreases book.len() - from,
{
    if from >= book.len() {
        seq![]
    } else if book[from].1.exists {
        seq![
            McAction::AddBalance { account: book[from].1 },
            masterchain::mc_wrap(book[from].1),
            McAction::InsertAccount { address: book[from].0 },
        ] + account_actions(book, from + 1)
    } else {
        account_actions(book, from + 1)
    }
}

/// The work on the validators from a place on: each whose key is a key gets a wallet.
pub open spec fn validator_actions(
    validators: Seq<Validator>,
    answers: McAnswers,
    from: int,
) -> Seq<McAction>
    decreases validators.len() - from,
{
    if from >= validators.len() {
        seq![]
    } else {
        let key = validators[from].public_key;
        let balance = validators[from].initial_balance;
        let wallet = (answers.wallet)(key, balance);
        let check = seq![McAction::CheckValidatorKey { key }];
        let rest = validator_actions(validators, answers, from + 1);
        if (answers.is_key)(key) {
            check + seq![
                McAction::BuildWallet { key, balance },
                masterchain::mc_wrap(wallet.1),
                McAction::InsertWallet { address: wallet.0 },
            ] + rest
        } else {
            check + rest
        }
    }
}

/// The writes from a place on.
pub open spec fn write_actions(steps: Seq<Step>, from: int) -> Seq<McAction> {
    steps.skip(from).map_values(|step: Step| McAction::Write(step))
}

/// The work before the accounts go into the state.
pub open spec fn system_actions(start: masterchain::McState) -> Seq<McAction> {
    seq![
        McAction::CheckMinterKey { key: start.minter_key },
        McAction::CheckConfigKey { key: start.config_key },
        McAction::OpenState,
        McAction::BuildMinter { key: start.minter_key },
        McAction::BuildTickTock,
        McAction::BuildConfigAccount { address: start.config_address, key: start.config_key },
        McAction::BuildElectorAccount { address: start.elector_address },
    ]
}

/// The accounts of the zerostate: those described, and over them the minter, the account that runs
/// with every block, the configuration and the elector, each over those before it.
pub open spec fn complete_book(
    start: masterchain::McState,
    answers: McAnswers,
) -> Seq<(Address, Account)> {
    let b1 = accounts::with_account(start.book, masterchain::ZERO, answers.minter);
    let b2 = accounts::with_account(b1, answers.tick_tock.0, answers.tick_tock.1);
    let b3 = accounts::with_account(b2, start.config_address, answers.config_account);
    accounts::with_account(b3, start.elector_address, answers.elector_account)
}

/// A description whose book and plan fit into memory.
pub open spec fn fits_memory(data: ZerostateConfig) -> bool {
    &&& data.accounts@.len() + 4 <= usize::MAX
    &&& plan::state_steps(data).len() <= usize::MAX
    &&& data.config.validator_set.validators@.len() <= usize::MAX
}

/// The run of `state` is one piece of work and then the run of `next`, which is in order.
spec fn follows(
    state: masterchain::McState,
    next: masterchain::McState,
    answers: McAnswers,
) -> bool {
    &&& mc_run(state, answers) == seq![masterchain::mc_action(state)] + mc_run(next, answers)
    &&& masterchain::mc_well_formed(next)
    &&& mc_bounded(next)
}

/// One step of a run.
proof fn lemma_run_step(state: masterchain::McState, answers: McAnswers, next: masterchain::McState)
    requires
        masterchain::mc_well_formed(state),
        mc_bounded(state),
        !(state.phase is Finished),
        masterchain::mc_next(state, mc_answer(answers, masterchain::mc_action(state))) == Ok::<
            masterchain::McState,
            McAction,
        >(next),
    ensures
        follows(state, next, answers),
{
    reveal_with_fuel(mc_run, 1);
    law_mc_progress(state, mc_answer(answers, masterchain::mc_action(state)));
}

proof fn lemma_run_writes(state: masterchain::McState, answers: McAnswers, from: int)
    requires
        masterchain::mc_well_formed(state),
        mc_bounded(state),
        0 <= from <= state.steps.len(),
        state.phase == masterchain::writing_phase(state, from),
    ensures
        mc_run(state, answers) == write_actions(state.steps, from),
    decreases state.steps.len() - from,
{
    if from < state.steps.len() {
        let next = masterchain::at_phase(state, masterchain::writing_phase(state, from + 1));
        assert(follows(state, next, answers)) by {
            lemma_run_step(state, answers, next);
        }
        lemma_run_writes(next, answers, from + 1);
    } else {
        reveal_with_fuel(mc_run, 1);
    }
    assert(mc_run(state, answers) =~= write_actions(state.steps, from));
}

/// The work on one validator whose key is a key.
proof fn lemma_run_wallet(state: masterchain::McState, answers: McAnswers, i: usize)
    requires
        masterchain::mc_well_formed(state),
        mc_bounded(state),
        state.phase == McPhase::ValidatorKey(i),
        (answers.is_key)(state.validators[i as int].public_key),
    ensures
        ({
            let validator = state.validators[i as int];
            let wallet = (answers.wallet)(validator.public_key, validator.initial_balance);
            let next = masterchain::at_phase(state, masterchain::validator_phase(state, i + 1));
            &&& mc_run(state, answers) == seq![
                McAction::CheckValidatorKey { key: validator.public_key },
                McAction::BuildWallet {
                    key: validator.public_key,
                    balance: validator.initial_balance,
                },
                masterchain::mc_wrap(wallet.1),
                McAction::InsertWallet { address: wallet.0 },
            ] + mc_run(next, answers)
            &&& masterchain::mc_well_formed(next)
            &&& mc_bounded(next)
        }),
{
    let validator = state.validators[i as int];
    let wallet = (answers.wallet)(validator.public_key, validator.initial_balance);
    let s1 = masterchain::at_phase(state, McPhase::Wallet(i));
    let s2 = masterchain::at_phase(
        state,
        McPhase::WrappingWallet { validator: i, address: wallet.0, account: wallet.1 },
    );
    let s3 = masterchain::at_phase(
        state,
        McPhase::InsertingWallet { validator: i, address: wallet.0 },
    );
    let s4 = masterchain::at_phase(state, masterchain::validator_phase(state, i + 1));
    assert(follows(state, s1, answers)) by {
        lemma_run_step(state, answers, s1);
    }
    assert(follows(s1, s2, answers)) by {
        lemma_run_step(s1, answers, s2);
    }
    assert(follows(s2, s3, answers)) by {
        lemma_run_step(s2, answers, s3);
    }
    assert(follows(s3, s4, answers)) by {
        lemma_run_step(s3, answers, s4);
    }
    assert(mc_run(state, answers) =~= seq![
        McAction::CheckValidatorKey { key: validator.public_key },
        McAction::BuildWallet { key: validator.public_key, balance: validator.initial_balance },
        masterchain::mc_wrap(wallet.1),
        McAction::InsertWallet { address: wallet.0 },
    ] + mc_run(s4, answers));
}

proof fn lemma_run_validators(state: masterchain::McState, answers: McAnswers, from: int)
    requires
        masterchain::mc_well_formed(state),
        mc_bounded(state),
        0 <= from <= state.validators.len(),
        state.phase == masterchain::validator_phase(state, from),
    ensures
        mc_run(state, answers) == validator_actions(
            state.validators,
            answers,
            from,
        ) + write_actions(state.steps, 0),
    decreases state.validators.len() - from,
{
    let validators = state.validators;
    let writes = write_actions(state.steps, 0);
    if from < validators.len() {
        let next = masterchain::at_phase(state, masterchain::validator_phase(state, from + 1));
        if (answers.is_key)(validators[from].public_key) {
            lemma_run_wallet(state, answers, from as usize);
        } else {
            assert(follows(state, next, answers)) by {
                lemma_run_step(state, answers, next);
            }
        }
        lemma_run_validators(next, answers, from + 1);
        assert(mc_run(state, answers) =~= validator_actions(validators, answers, from) + writes);
    } else {
        lemma_run_writes(state, answers, 0);
        assert(validator_actions(validators, answers, from) + writes =~= writes);
    }
}

proof fn lemma_empty_entries_ask_nothing(book: Seq<(Address, Account)>, from: int)
    requires
        0 <= from <= book.len(),
    ensures
        account_actions(book, from) == account_actions(book, accounts::next_existing(book, from)),
    decreases book.len() - from,
{
    if from < book.len() && !book[from].1.exists {
        lemma_empty_entries_ask_nothing(book, from + 1);
    }
}

/// The work on one account that exists.
proof fn lemma_run_account(state: masterchain::McState, answers: McAnswers, i: usize)
    requires
        masterchain::mc_well_formed(state),
        mc_bounded(state),
        state.phase == McPhase::Balance(i),
    ensures
        ({
            let entry = state.book[i as int];
            let next = masterchain::at_phase(state, masterchain::account_phase(state, i + 1));
            &&& mc_run(state, answers) == seq![
                McAction::AddBalance { account: entry.1 },
                masterchain::mc_wrap(entry.1),
                McAction::InsertAccount { address: entry.0 },
            ] + mc_run(next, answers)
            &&& masterchain::mc_well_formed(next)
            &&& mc_bounded(next)
        }),
{
    let entry = state.book[i as int];
    let s1 = masterchain::at_phase(state, McPhase::Wrapping(i));
    let s2 = masterchain::at_phase(state, McPhase::Inserting(i));
    let s3 = masterchain::at_phase(state, masterchain::account_phase(state, i + 1));
    assert(follows(state, s1, answers)) by {
        lemma_run_step(state, answers, s1);
    }
    assert(follows(s1, s2, answers)) by {
        lemma_run_step(s1, answers, s2);
    }
    assert(follows(s2, s3, answers)) by {
        lemma_run_step(s2, answers, s3);
    }
    assert(mc_run(state, answers) =~= seq![
        McAction::AddBalance { account: entry.1 },
        masterchain::mc_wrap(entry.1),
        McAction::InsertAccount { address: entry.0 },
    ] + mc_run(s3, answers));
}

proof fn lemma_run_accounts(state: masterchain::McState, answers: McAnswers, from: int)
    requires
        masterchain::mc_well_formed(state),
        mc_bounded(state),
        0 <= from <= state.book.len(),
        state.phase == masterchain::account_phase(state, from),
    ensures
        mc_run(state, answers) == account_actions(state.book, from) + (validator_actions(
            state.validators,
            answers,
            0,
        ) + write_actions(state.steps, 0)),
    decreases state.book.len() - from,
{
    let validators = state.validators;
    let rest = validator_actions(validators, answers, 0) + write_actions(state.steps, 0);
    let place = accounts::next_existing(state.book, from);
    accounts::lemma_next_existing(state.book, from);
    lemma_empty_entries_ask_nothing(state.book, from);
    if place < state.book.len() {
        let next = masterchain::at_phase(state, masterchain::account_phase(state, place + 1));
        lemma_run_account(state, answers, place as usize);
        lemma_run_accounts(next, answers, place + 1);
        assert(mc_run(state, answers) =~= account_actions(state.book, place) + rest);
    } else {
        lemma_run_validators(state, answers, 0);
        assert(account_actions(state.book, place) + rest =~= rest);
    }
}

/// A job starts in order.
pub proof fn lemma_start(data: ZerostateConfig)
    requires
        fits_memory(data),
    ensures
        masterchain::mc_well_formed(masterchain::mc_start(data)),
        mc_bounded(masterchain::mc_start(data)),
{
    accounts::lemma_book_of(data.accounts@);
}

/// The end of a run at work that did not succeed.
proof fn lemma_run_stops(state: masterchain::McState, answers: McAnswers)
    requires
        masterchain::mc_well_formed(state),
        mc_bounded(state),
        !(state.phase is Finished),
        masterchain::mc_next(state, mc_answer(answers, masterchain::mc_action(state))) is Err,
    ensures
        mc_run(state, answers) == seq![masterchain::mc_action(state)],
{
    reveal_with_fuel(mc_run, 1);
}

/// The work on the keys, and the opening of the state.
proof fn lemma_run_keys(s0: masterchain::McState, answers: McAnswers)
    requires
        masterchain::mc_well_formed(s0),
        mc_bounded(s0),
        s0.phase == McPhase::MinterKey,
        (answers.is_key)(s0.minter_key),
        (answers.is_key)(s0.config_key),
    ensures
        ({
            let s3 = masterchain::at_phase(s0, McPhase::Minter);
            &&& mc_run(s0, answers) == system_actions(s0).take(3) + mc_run(s3, answers)
            &&& masterchain::mc_well_formed(s3)
            &&& mc_bounded(s3)
        }),
{
    let s1 = masterchain::at_phase(s0, McPhase::ConfigKey);
    let s2 = masterchain::at_phase(s0, McPhase::Opening);
    let s3 = masterchain::at_phase(s0, McPhase::Minter);
    assert(follows(s0, s1, answers)) by {
        lemma_run_step(s0, answers, s1);
    }
    assert(follows(s1, s2, answers)) by {
        lemma_run_step(s1, answers, s2);
    }
    assert(follows(s2, s3, answers)) by {
        lemma_run_step(s2, answers, s3);
    }
    assert(mc_run(s0, answers) =~= system_actions(s0).take(3) + mc_run(s3, answers));
}

/// The work on the system's accounts.
proof fn lemma_run_system(s3: masterchain::McState, answers: McAnswers)
    requires
        masterchain::mc_well_formed(s3),
        mc_bounded(s3),
        s3.phase == McPhase::Minter,
    ensures
        ({
            let complete = masterchain::McState { book: complete_book(s3, answers), ..s3 };
            let s7 = masterchain::at_phase(complete, masterchain::account_phase(complete, 0));
            &&& mc_run(s3, answers) == system_actions(s3).skip(3) + mc_run(s7, answers)
            &&& masterchain::mc_well_formed(s7)
            &&& mc_bounded(s7)
        }),
{
    let b4 = masterchain::with_entry(s3, masterchain::ZERO, answers.minter);
    let s4 = masterchain::at_phase(b4, McPhase::TickTock);
    let b5 = masterchain::with_entry(s4, answers.tick_tock.0, answers.tick_tock.1);
    let s5 = masterchain::at_phase(b5, McPhase::ConfigAccount);
    let b6 = masterchain::with_entry(s5, s3.config_address, answers.config_account);
    let s6 = masterchain::at_phase(b6, McPhase::ElectorAccount);
    let b7 = masterchain::with_entry(s6, s3.elector_address, answers.elector_account);
    let s7 = masterchain::at_phase(b7, masterchain::account_phase(b7, 0));
    assert(follows(s3, s4, answers)) by {
        lemma_run_step(s3, answers, s4);
    }
    assert(follows(s4, s5, answers)) by {
        lemma_run_step(s4, answers, s5);
    }
    assert(follows(s5, s6, answers)) by {
        lemma_run_step(s5, answers, s6);
    }
    assert(follows(s6, s7, answers)) by {
        lemma_run_step(s6, answers, s7);
    }
    assert(mc_run(s3, answers) =~= system_actions(s3).skip(3) + mc_run(s7, answers));
}

/// A run in which nothing fails asks for exactly this, in this order: the two keys, the state, the
/// system's accounts, every account that exists, a wallet for every validator with a proper key, and
/// the plan.
pub proof fn law_mc_run(data: ZerostateConfig, answers: McAnswers)
    requires
        fits_memory(data),
        (answers.is_key)(data.minter_public_key),
        (answers.is_key)(data.config_public_key),
    ensures
        ({
            let start = masterchain::mc_start(data);
            mc_run(start, answers) == system_actions(start) + account_actions(
                complete_book(start, answers),
                0,
            ) + validator_actions(data.config.validator_set.validators@, answers, 0)
                + write_actions(plan::state_steps(data), 0)
        }),
{
    let s0 = masterchain::mc_start(data);
    let s3 = masterchain::at_phase(s0, McPhase::Minter);
    let complete = masterchain::McState { book: complete_book(s3, answers), ..s3 };
    let s7 = masterchain::at_phase(complete, masterchain::account_phase(complete, 0));
    lemma_start(data);
    lemma_run_keys(s0, answers);
    lemma_run_system(s3, answers);
    assert(s7.phase == masterchain::account_phase(s7, 0));
    lemma_run_accounts(s7, answers, 0);
    let system = system_actions(s0);
    assert(system_actions(s3) == system);
    assert(system.take(3) + system.skip(3) =~= system);
    assert(mc_run(s0, answers) =~= system + account_actions(complete_book(s0, answers), 0)
        + validator_actions(data.config.validator_set.validators@, answers, 0) + write_actions(
        plan::state_steps(data),
        0,
    ));
}

/// A job whose keys are refused asks for nothing beyond the first key that is refused.
pub proof fn law_mc_run_stops_at_bad_keys(data: ZerostateConfig, answers: McAnswers)
    requires
        fits_memory(data),
    ensures
        ({
            let start = masterchain::mc_start(data);
            let minter = (answers.is_key)(data.minter_public_key);
            let config = (answers.is_key)(data.config_public_key);
            &&& !minter ==> mc_run(start, answers) == system_actions(start).take(1)
            &&& minter && !config ==> mc_run(start, answers) == system_actions(start).take(2)
        }),
{
    let s0 = masterchain::mc_start(data);
    let s1 = masterchain::at_phase(s0, McPhase::ConfigKey);
    lemma_start(data);
    if !(answers.is_key)(data.minter_public_key) {
        lemma_run_stops(s0, answers);
        assert(mc_run(s0, answers) =~= system_actions(s0).take(1));
    } else if !(answers.is_key)(data.config_public_key) {
        assert(follows(s0, s1, answers)) by {
            lemma_run_step(s0, answers, s1);
        }
        lemma_run_stops(s1, answers);
        assert(mc_run(s0, answers) =~= system_actions(s0).take(2));
    }
}

/// The account whose balance a piece of work adds to the total, if it adds any.
pub open spec fn added_balance() -> spec_fn(McAction) -> Option<Account> {
    |action: McAction|
        match action {
            McAction::AddBalance { account } => Some(account),
            _ => None,
        }
}

/// The address under which a piece of work puts an account into the state, if it does.
pub open spec fn inserted_address() -> spec_fn(McAction) -> Option<Address> {
    |action: McAction|
        match action {
            McAction::InsertAccount { address } => Some(address),
            McAction::InsertWallet { address } => Some(address),
            _ => None,
        }
}

/// The account of an entry, if it exists.
pub open spec fn existing_account() -> spec_fn((Address, Account)) -> Option<Account> {
    |entry: (Address, Account)|
        if entry.1.exists {
            Some(entry.1)
        } else {
            None
        }
}

/// The address of an entry whose account exists.
pub open spec fn existing_address() -> spec_fn((Address, Account)) -> Option<Address> {
    |entry: (Address, Account)|
        if entry.1.exists {
            Some(entry.0)
        } else {
            None
        }
}

/// The address of a validator's wallet, if its key is a key.
pub open spec fn wallet_address(answers: McAnswers) -> spec_fn(Validator) -> Option<Address> {
    |validator: Validator|
        if (answers.is_key)(validator.public_key) {
            Some((answers.wallet)(validator.public_key, validator.initial_balance).0)
        } else {
            None
        }
}

/// Picking from a list item by item from its front.
proof fn lemma_gathered_front<A, B>(items: Seq<A>, from: int, pick: spec_fn(A) -> Option<B>)
    requires
        0 <= from < items.len(),
    ensures
        gather::gathered(items.skip(from), pick) == gather::picked(pick(items[from]))
            + gather::gathered(items.skip(from + 1), pick),
{
    let first = seq![items[from]];
    assert(items.skip(from) =~= first + items.skip(from + 1));
    gather::lemma_gathered_add(first, items.skip(from + 1), pick);
    gather::lemma_gathered_single(items[from], pick);
}

proof fn lemma_account_picks(book: Seq<(Address, Account)>, from: int)
    requires
        0 <= from <= book.len(),
    ensures
        gather::gathered(account_actions(book, from), added_balance()) == gather::gathered(
            book.skip(from),
            existing_account(),
        ),
        gather::gathered(account_actions(book, from), inserted_address()) == gather::gathered(
            book.skip(from),
            existing_address(),
        ),
    decreases book.len() - from,
{
    if from < book.len() {
        lemma_account_picks(book, from + 1);
        lemma_gathered_front(book, from, existing_account());
        lemma_gathered_front(book, from, existing_address());
        if book[from].1.exists {
            let first = seq![
                McAction::AddBalance { account: book[from].1 },
                masterchain::mc_wrap(book[from].1),
                McAction::InsertAccount { address: book[from].0 },
            ];
            let rest = account_actions(book, from + 1);
            gather::lemma_gathered_add(first, rest, added_balance());
            gather::lemma_gathered_add(first, rest, inserted_address());
            assert(gather::gathered(first, added_balance()) =~= seq![book[from].1]) by {
                gather::lemma_gathered_one(first, 0, added_balance());
            }
            assert(gather::gathered(first, inserted_address()) =~= seq![book[from].0]) by {
                gather::lemma_gathered_one(first, 2, inserted_address());
            }
        } else {
            assert(gather::picked::<Account>(None) + gather::gathered(
                book.skip(from + 1),
                existing_account(),
            ) =~= gather::gathered(book.skip(from + 1), existing_account()));
            assert(gather::picked::<Address>(None) + gather::gathered(
                book.skip(from + 1),
                existing_address(),
            ) =~= gather::gathered(book.skip(from + 1), existing_address()));
        }
    } else {
        assert(book.skip(from) =~= seq![]);
    }
}

proof fn lemma_validator_picks(validators: Seq<Validator>, answers: McAnswers, from: int)
    requires
        0 <= from <= validators.len(),
    ensures
        gather::gathered(validator_actions(validators, answers, from), added_balance()) == Seq::<
            Account,
        >::empty(),
        gather::gathered(validator_actions(validators, answers, from), inserted_address())
            == gather::gathered(validators.skip(from), wallet_address(answers)),
    decreases validators.len() - from,
{
    if from < validators.len() {
        lemma_validator_picks(validators, answers, from + 1);
        lemma_gathered_front(validators, from, wallet_address(answers));
        let key = validators[from].public_key;
        let balance = validators[from].initial_balance;
        let wallet = (answers.wallet)(key, balance);
        let check = seq![McAction::CheckValidatorKey { key }];
        let rest = validator_actions(validators, answers, from + 1);
        gather::lemma_gathered_none(check, added_balance());
        gather::lemma_gathered_none(check, inserted_address());
        if (answers.is_key)(key) {
            let work = seq![
                McAction::BuildWallet { key, balance },
                masterchain::mc_wrap(wallet.1),
                McAction::InsertWallet { address: wallet.0 },
            ];
            gather::lemma_gathered_none(work, added_balance());
            assert(gather::gathered(work, inserted_address()) =~= seq![wallet.0]) by {
                gather::lemma_gathered_one(work, 2, inserted_address());
            }
            gather::lemma_gathered_add(check, work, added_balance());
            gather::lemma_gathered_add(check, work, inserted_address());
            gather::lemma_gathered_add(check + work, rest, added_balance());
            gather::lemma_gathered_add(check + work, rest, inserted_address());
        } else {
            gather::lemma_gathered_add(check, rest, added_balance());
            gather::lemma_gathered_add(check, rest, inserted_address());
        }
        assert(gather::gathered(validator_actions(validators, answers, from), added_balance())
            =~= Seq::<Account>::empty());
        assert(gather::gathered(validator_actions(validators, answers, from), inserted_address())
            =~= gather::gathered(validators.skip(from), wallet_address(answers)));
    } else {
        assert(validators.skip(from) =~= seq![]);
    }
}

/// The total balance counts every account of the complete book that exists, once, and nothing else:
/// what the validators' wallets hold is not in it. The accounts that go into the state are those of
/// the book that exist, and then a wallet for every validator with a proper key.
pub proof fn law_total_and_accounts(data: ZerostateConfig, answers: McAnswers)
    requires
        fits_memory(data),
        (answers.is_key)(data.minter_public_key),
        (answers.is_key)(data.config_public_key),
    ensures
        ({
            let start = masterchain::mc_start(data);
            let run = mc_run(start, answers);
            let book = complete_book(start, answers);
            &&& gather::gathered(run, added_balance()) == gather::gathered(book, existing_account())
            &&& gather::gathered(run, inserted_address()) == gather::gathered(
                book,
                existing_address(),
            ) + gather::gathered(
                data.config.validator_set.validators@,
                wallet_address(answers),
            )
        }),
{
    let start = masterchain::mc_start(data);
    let run = mc_run(start, answers);
    let book = complete_book(start, answers);
    let validators = data.config.validator_set.validators@;
    let system = system_actions(start);
    let on_accounts = account_actions(book, 0);
    let on_validators = validator_actions(validators, answers, 0);
    let writes = write_actions(plan::state_steps(data), 0);
    law_mc_run(data, answers);
    assert(book.skip(0) =~= book);
    assert(validators.skip(0) =~= validators);
    lemma_account_picks(book, 0);
    lemma_validator_picks(validators, answers, 0);
    gather::lemma_gathered_none(system, added_balance());
    gather::lemma_gathered_none(system, inserted_address());
    gather::lemma_gathered_none(writes, added_balance());
    gather::lemma_gathered_none(writes, inserted_address());
    gather::lemma_gathered_add(system, on_accounts, added_balance());
    gather::lemma_gathered_add(system + on_accounts, on_validators, added_balance());
    gather::lemma_gathered_add(system + on_accounts + on_validators, writes, added_balance());
    gather::lemma_gathered_add(system, on_accounts, inserted_address());
    gather::lemma_gathered_add(system + on_accounts, on_validators, inserted_address());
    gather::lemma_gathered_add(system + on_accounts + on_validators, writes, inserted_address());
    assert(gather::gathered(run, added_balance()) =~= gather::gathered(book, existing_account()));
    assert(gather::gathered(run, inserted_address()) =~= gather::gathered(book, existing_address())
        + gather::gathered(validators, wallet_address(answers)));
}

/// Whatever accounts are described, the system's own take their places, and where two of these share
/// an address the later one does: the elector over the configuration, over the account that runs
/// with every block, over the minter. The minter is under the zero address, whatever the address
/// that the parameters give it. Every other account stays as described.
pub proof fn law_system_accounts_prevail(
    start: masterchain::McState,
    answers: McAnswers,
    address: Address,
)
    ensures
        accounts::account_at(complete_book(start, answers), address) == (if address
            == start.elector_address {
            Some(answers.elector_account)
        } else if address == start.config_address {
            Some(answers.config_account)
        } else if address == answers.tick_tock.0 {
            Some(answers.tick_tock.1)
        } else if address == masterchain::ZERO {
            Some(answers.minter)
        } else {
            accounts::account_at(start.book, address)
        }),
{
    let b1 = accounts::with_account(start.book, masterchain::ZERO, answers.minter);
    let b2 = accounts::with_account(b1, answers.tick_tock.0, answers.tick_tock.1);
    let b3 = accounts::with_account(b2, start.config_address, answers.config_account);
    accounts::law_put_then_look_up(start.book, masterchain::ZERO, answers.minter, address);
    accounts::law_put_then_look_up(b1, answers.tick_tock.0, answers.tick_tock.1, address);
    accounts::law_put_then_look_up(b2, start.config_address, answers.config_account, address);
    accounts::law_put_then_look_up(b3, start.elector_address, answers.elector_account, address);
}

/// Two descriptions that say the same, but for the order in which they list the accounts, none of
/// which is listed twice.
pub open spec fn same_but_account_order(left: ZerostateConfig, right: ZerostateConfig) -> bool {
    &&& left == (ZerostateConfig { accounts: left.accounts, ..right })
    &&& left.accounts@.to_multiset() == right.accounts@.to_multiset()
    &&& accounts::distinct_addresses(left.accounts@)
}

/// The order in which a description lists the accounts is without effect on the accounts of the
/// zerostate: every address finds the same account, the entries are the same, and so are the accounts
/// that exist and their addresses.
pub proof fn law_account_order_is_without_effect(
    left: ZerostateConfig,
    right: ZerostateConfig,
    answers: McAnswers,
)
    requires
        same_but_account_order(left, right),
    ensures
        ({
            let left_book = complete_book(masterchain::mc_start(left), answers);
            let right_book = complete_book(masterchain::mc_start(right), answers);
            &&& forall|address: Address| #[trigger]
                accounts::account_at(left_book, address) == accounts::account_at(right_book, address)
            &&& left_book.to_multiset() == right_book.to_multiset()
            &&& gather::gathered(left_book, existing_account()).to_multiset() == gather::gathered(
                right_book,
                existing_account(),
            ).to_multiset()
            &&& gather::gathered(left_book, existing_address()).to_multiset() == gather::gathered(
                right_book,
                existing_address(),
            ).to_multiset()
        }),
{
    let left_start = masterchain::mc_start(left);
    let right_start = masterchain::mc_start(right);
    let left_book = complete_book(left_start, answers);
    let right_book = complete_book(right_start, answers);
    accounts::lemma_permuted_stays_distinct(left.accounts@, right.accounts@);
    accounts::lemma_book_of_distinct(left.accounts@);
    accounts::lemma_book_of_distinct(right.accounts@);
    assert forall|address: Address| #[trigger]
        accounts::account_at(left_book, address) == accounts::account_at(right_book, address) by {
        accounts::law_order_does_not_matter(left.accounts@, right.accounts@, address);
        law_system_accounts_prevail(left_start, answers, address);
        law_system_accounts_prevail(right_start, answers, address);
    }
    lemma_complete_book_distinct(left_start, answers);
    lemma_complete_book_distinct(right_start, answers);
    accounts::law_same_look_ups_same_entries(left_book, right_book);
    gather::lemma_gathered_permuted(left_book, right_book, existing_account());
    gather::lemma_gathered_permuted(left_book, right_book, existing_address());
}

proof fn lemma_complete_book_distinct(start: masterchain::McState, answers: McAnswers)
    requires
        accounts::distinct_addresses(start.book),
    ensures
        accounts::distinct_addresses(complete_book(start, answers)),
{
    let b1 = accounts::with_account(start.book, masterchain::ZERO, answers.minter);
    let b2 = accounts::with_account(b1, answers.tick_tock.0, answers.tick_tock.1);
    let b3 = accounts::with_account(b2, start.config_address, answers.config_account);
    accounts::law_put_keeps_addresses_distinct(start.book, masterchain::ZERO, answers.minter);
    accounts::law_put_keeps_addresses_distinct(b1, answers.tick_tock.0, answers.tick_tock.1);
    accounts::law_put_keeps_addresses_distinct(b2, start.config_address, answers.config_account);
    accounts::law_put_keeps_addresses_distinct(b3, start.elector_address, answers.elector_account);
}

/// The work on a book from a place on is the work on what is left of it.
proof fn lemma_account_actions_skip(book: Seq<(Address, Account)>, cut: int, from: int)
    requires
        0 <= cut <= book.len(),
        0 <= from,
    ensures
        account_actions(book.skip(cut), from) == account_actions(book, cut + from),
    decreases book.len() - cut - from,
{
    if cut + from < book.len() {
        assert(book.skip(cut)[from] == book[cut + from]);
        lemma_account_actions_skip(book, cut, from + 1);
    }
}

/// The work on two books in a row.
proof fn lemma_account_actions_add(left: Seq<(Address, Account)>, right: Seq<(Address, Account)>)
    ensures
        account_actions(left + right, 0) == account_actions(left, 0) + account_actions(right, 0),
    decreases left.len(),
{
    let both = left + right;
    if left.len() > 0 {
        assert(both[0] == left[0]);
        assert(both.skip(1) =~= left.skip(1) + right);
        lemma_account_actions_add(left.skip(1), right);
        lemma_account_actions_skip(both, 1, 0);
        lemma_account_actions_skip(left, 1, 0);
    } else {
        assert(both =~= right);
    }
    assert(account_actions(both, 0) =~= account_actions(left, 0) + account_actions(right, 0));
}

/// The work on a book, with one entry in the middle taken out.
proof fn lemma_account_actions_without(book: Seq<(Address, Account)>, place: int)
    requires
        0 <= place < book.len(),
    ensures
        account_actions(book, 0).to_multiset() == account_actions(
            book.remove(place),
            0,
        ).to_multiset().add(account_actions(seq![book[place]], 0).to_multiset()),
{
    let before = book.take(place);
    let entry = seq![book[place]];
    let after = book.skip(place + 1);
    assert(book =~= before + entry + after);
    assert(book.remove(place) =~= before + after);
    lemma_account_actions_add(before, entry);
    lemma_account_actions_add(before + entry, after);
    lemma_account_actions_add(before, after);
    let b = account_actions(before, 0);
    let e = account_actions(entry, 0);
    let a = account_actions(after, 0);
    vstd::seq_lib::lemma_multiset_commutative(b, e);
    vstd::seq_lib::lemma_multiset_commutative(b + e, a);
    vstd::seq_lib::lemma_multiset_commutative(b, a);
    assert((b + e + a).to_multiset() =~= (b + a).to_multiset().add(e.to_multiset()));
}

/// The same entries in another order ask for the same work, in another order.
proof fn lemma_account_actions_permuted(
    left: Seq<(Address, Account)>,
    right: Seq<(Address, Account)>,
)
    requires
        left.to_multiset() == right.to_multiset(),
    ensures
        account_actions(left, 0).to_multiset() == account_actions(right, 0).to_multiset(),
    decreases left.len(),
{
    left.to_multiset_ensures();
    right.to_multiset_ensures();
    if left.len() > 0 {
        let entry = left.last();
        assert(left.contains(entry));
        assert(right.to_multiset().count(entry) > 0);
        let place = right.index_of(entry);
        assert(left.remove(left.len() - 1) =~= left.drop_last());
        assert(left.drop_last().to_multiset() == right.remove(place).to_multiset());
        lemma_account_actions_permuted(left.drop_last(), right.remove(place));
        lemma_account_actions_without(left, left.len() - 1);
        lemma_account_actions_without(right, place);
    } else {
        assert(left =~= right);
    }
}

/// Descriptions that differ in the order of the accounts alone ask for the same work, which differs
/// in the order of the work on the accounts alone: what comes before and after it is the same.
pub proof fn law_account_order_in_a_run(
    left: ZerostateConfig,
    right: ZerostateConfig,
    answers: McAnswers,
)
    requires
        same_but_account_order(left, right),
        fits_memory(left),
        (answers.is_key)(left.minter_public_key),
        (answers.is_key)(left.config_public_key),
    ensures
        ({
            let left_start = masterchain::mc_start(left);
            let right_start = masterchain::mc_start(right);
            let left_work = account_actions(complete_book(left_start, answers), 0);
            let right_work = account_actions(complete_book(right_start, answers), 0);
            let before = system_actions(left_start);
            let after = validator_actions(left.config.validator_set.validators@, answers, 0)
                + write_actions(plan::state_steps(left), 0);
            &&& fits_memory(right)
            &&& mc_run(left_start, answers) == before + left_work + after
            &&& mc_run(right_start, answers) == before + right_work + after
            &&& left_work.to_multiset() == right_work.to_multiset()
        }),
{
    let left_start = masterchain::mc_start(left);
    let right_start = masterchain::mc_start(right);
    left.accounts@.to_multiset_ensures();
    right.accounts@.to_multiset_ensures();
    assert(plan::state_steps(left) == plan::state_steps(right)) by {
        reveal(plan::state_steps);
    }
    law_account_order_is_without_effect(left, right, answers);
    lemma_account_actions_permuted(
        complete_book(left_start, answers),
        complete_book(right_start, answers),
    );
    law_mc_run(left, answers);
    law_mc_run(right, answers);
    let before = system_actions(left_start);
    let validators = validator_actions(left.config.validator_set.validators@, answers, 0);
    let writes = write_actions(plan::state_steps(left), 0);
    let left_work = account_actions(complete_book(left_start, answers), 0);
    let right_work = account_actions(complete_book(right_start, answers), 0);
    assert(before + left_work + validators + writes =~= before + left_work + (validators + writes));
    assert(before + right_work + validators + writes =~= before + right_work + (validators
        + writes));
}

/// Two descriptions that say the same, but for what the validators' wallets start with.
pub open spec fn same_but_wallet_balances(left: ZerostateConfig, right: ZerostateConfig) -> bool {
    let ours = left.config.validator_set.validators;
    let theirs = right.config.validator_set.validators@;
    let set = ValidatorSet { validators: ours, ..right.config.validator_set };
    let config = NetworkConfig { validator_set: set, ..right.config };
    &&& left == (ZerostateConfig { config, ..right })
    &&& ours@.len() == theirs.len()
    &&& forall|i: int|
        0 <= i < theirs.len() ==> (#[trigger] ours@[i]).public_key == theirs[i].public_key
            && ours@[i].weight == theirs[i].weight
}

/// What the validators' wallets start with affects nothing but the wallets: the total counts the same
/// accounts, the plan, and with it every parameter, is the same, and of all the work only that on the
/// wallets may differ.
pub proof fn law_wallet_balances_affect_wallets_alone(
    left: ZerostateConfig,
    right: ZerostateConfig,
    answers: McAnswers,
)
    requires
        same_but_wallet_balances(left, right),
        fits_memory(left),
        (answers.is_key)(left.minter_public_key),
        (answers.is_key)(left.config_public_key),
    ensures
        ({
            let left_run = mc_run(masterchain::mc_start(left), answers);
            let right_run = mc_run(masterchain::mc_start(right), answers);
            let left_wallets = validator_actions(
                left.config.validator_set.validators@,
                answers,
                0,
            );
            let right_wallets = validator_actions(
                right.config.validator_set.validators@,
                answers,
                0,
            );
            let start = masterchain::mc_start(left);
            let before = system_actions(start) + account_actions(complete_book(start, answers), 0);
            let after = write_actions(plan::state_steps(left), 0);
            &&& fits_memory(right)
            &&& plan::state_steps(left) == plan::state_steps(right)
            &&& gather::gathered(left_run, added_balance()) == gather::gathered(
                right_run,
                added_balance(),
            )
            &&& left_run == before + left_wallets + after
            &&& right_run == before + right_wallets + after
        }),
{
    lemma_same_plan(left, right);
    law_mc_run(left, answers);
    law_mc_run(right, answers);
    law_total_and_accounts(left, answers);
    law_total_and_accounts(right, answers);
}

/// The plan does not depend on what the validators' wallets start with.
proof fn lemma_same_plan(left: ZerostateConfig, right: ZerostateConfig)
    requires
        same_but_wallet_balances(left, right),
    ensures
        plan::state_steps(left) == plan::state_steps(right),
{
    reveal(plan::state_steps);
    assert(plan::validator_steps(left.config.validator_set) =~= plan::validator_steps(
        right.config.validator_set,
    ));
}

/// The first pieces of work are on what the description gives: the minter's key and the
/// configuration's, each for its own account, and the addresses of the configuration and the elector.
pub proof fn law_system_comes_first(data: ZerostateConfig, answers: McAnswers)
    requires
        fits_memory(data),
        (answers.is_key)(data.minter_public_key),
        (answers.is_key)(data.config_public_key),
    ensures
        mc_run(masterchain::mc_start(data), answers).take(7) == seq![
            McAction::CheckMinterKey { key: data.minter_public_key },
            McAction::CheckConfigKey { key: data.config_public_key },
            McAction::OpenState,
            McAction::BuildMinter { key: data.minter_public_key },
            McAction::BuildTickTock,
            McAction::BuildConfigAccount {
                address: data.config.config_address,
                key: data.config_public_key,
            },
            McAction::BuildElectorAccount { address: data.config.elector_address },
        ],
{
    law_mc_run(data, answers);
    assert(mc_run(masterchain::mc_start(data), answers).take(7) =~= system_actions(
        masterchain::mc_start(data),
    ));
}

/// Under every address of the complete book is what belongs there: the elector, the configuration,
/// the account that runs with every block and the minter under their own, and otherwise what the
/// description lists last, if it lists anything.
pub proof fn law_accounts_of_the_zerostate(
    data: ZerostateConfig,
    answers: McAnswers,
    address: Address,
    place: int,
)
    requires
        0 <= place < data.accounts@.len() ==> data.accounts@[place].0 == address,
        forall|i: int|
            0 <= i < data.accounts@.len() && i > place ==> (#[trigger] data.accounts@[i]).0
                != address,
        -1 <= place < data.accounts@.len(),
    ensures
        ({
            let book = complete_book(masterchain::mc_start(data), answers);
            let zero = forall|i: int| 0 <= i < 32 ==> (#[trigger] address@[i]) == 0;
            &&& accounts::distinct_addresses(book)
            &&& accounts::account_at(book, address) == (if address == data.config.elector_address {
                Some(answers.elector_account)
            } else if address == data.config.config_address {
                Some(answers.config_account)
            } else if address == answers.tick_tock.0 {
                Some(answers.tick_tock.1)
            } else if zero {
                Some(answers.minter)
            } else if place >= 0 {
                Some(data.accounts@[place].1)
            } else {
                None
            })
        }),
{
    let start = masterchain::mc_start(data);
    accounts::lemma_book_of(data.accounts@);
    lemma_complete_book_distinct(start, answers);
    law_system_accounts_prevail(start, answers, address);
    if place >= 0 {
        accounts::law_last_listed_counts(data.accounts@, place);
    } else {
        accounts::law_nothing_else_is_listed(data.accounts@, address);
    }
    if forall|i: int| 0 <= i < 32 ==> (#[trigger] address@[i]) == 0 {
        assert(address@ =~= masterchain::ZERO@);
        assert(address =~= masterchain::ZERO);
    }
}

/// The address that a piece of work puts as a parameter, with the parameter's number, if it puts any.
pub open spec fn address_written() -> spec_fn(McAction) -> Option<(u32, Address)> {
    |action: McAction|
        match action {
            McAction::Write(step) => (plan_read::address_put())(step),
            _ => None,
        }
}

/// The address that the configuration's account or the elector's is built for, with the number of the
/// parameter that names it.
pub open spec fn address_built_for() -> spec_fn(McAction) -> Option<(u32, Address)> {
    |action: McAction|
        match action {
            McAction::BuildConfigAccount { address, .. } => Some((0u32, address)),
            McAction::BuildElectorAccount { address } => Some((1u32, address)),
            _ => None,
        }
}

proof fn lemma_addresses_written(steps: Seq<Step>)
    ensures
        gather::gathered(write_actions(steps, 0), address_written()) == gather::gathered(
            steps,
            plan_read::address_put(),
        ),
    decreases steps.len(),
{
    assert(steps.skip(0) =~= steps);
    if steps.len() > 0 {
        let rest = steps.drop_last();
        lemma_addresses_written(rest);
        assert(rest.skip(0) =~= rest);
        assert(write_actions(steps, 0).drop_last() =~= write_actions(rest, 0));
        assert(write_actions(steps, 0).last() == McAction::Write(steps.last()));
    }
}

proof fn lemma_account_actions_plain(book: Seq<(Address, Account)>, from: int)
    requires
        0 <= from,
    ensures
        forall|i: int|
            #![trigger account_actions(book, from)[i]]
            0 <= i < account_actions(book, from).len() ==> {
                let action = account_actions(book, from)[i];
                action is AddBalance || action is MakeShardAccount || action is InsertAccount
            },
    decreases book.len() - from,
{
    if from < book.len() {
        lemma_account_actions_plain(book, from + 1);
    }
}

proof fn lemma_validator_actions_plain(validators: Seq<Validator>, answers: McAnswers, from: int)
    requires
        0 <= from,
    ensures
        forall|i: int|
            #![trigger validator_actions(validators, answers, from)[i]]
            0 <= i < validator_actions(validators, answers, from).len() ==> {
                let action = validator_actions(validators, answers, from)[i];
                action is CheckValidatorKey || action is BuildWallet || action is MakeShardAccount
                    || action is InsertWallet
            },
    decreases validators.len() - from,
{
    if from < validators.len() {
        lemma_validator_actions_plain(validators, answers, from + 1);
        let all = validator_actions(validators, answers, from);
        let rest = validator_actions(validators, answers, from + 1);
        let n = all.len() - rest.len();
        assert forall|i: int| #![trigger all[i]] 0 <= i < all.len() implies {
            let action = all[i];
            action is CheckValidatorKey || action is BuildWallet || action is MakeShardAccount
                || action is InsertWallet
        } by {
            if i >= n {
                assert(all[i] == rest[i - n]);
            }
        }
    }
}

/// The network looks for its configuration and its elector where they are: the addresses that the
/// parameters name are those that the two accounts are built for and are found under in the complete
/// book, unless the elector takes the configuration's place.
pub proof fn law_parameters_name_the_accounts(data: ZerostateConfig, answers: McAnswers)
    requires
        fits_memory(data),
        (answers.is_key)(data.minter_public_key),
        (answers.is_key)(data.config_public_key),
    ensures
        ({
            let start = masterchain::mc_start(data);
            let run = mc_run(start, answers);
            let book = complete_book(start, answers);
            let named = gather::gathered(run, address_written());
            let built = gather::gathered(run, address_built_for());
            &&& named == seq![
                (0u32, data.config.config_address),
                (1u32, data.config.elector_address),
                (2u32, data.config.minter_address),
            ]
            &&& built == named.take(2)
            &&& accounts::account_at(book, named[1].1) == Some(answers.elector_account)
            &&& named[0].1 != named[1].1 ==> accounts::account_at(book, named[0].1) == Some(
                answers.config_account,
            )
        }),
{
    let start = masterchain::mc_start(data);
    let run = mc_run(start, answers);
    let book = complete_book(start, answers);
    let validators = data.config.validator_set.validators@;
    let steps = plan::state_steps(data);
    let system = system_actions(start);
    let on_accounts = account_actions(book, 0);
    let on_validators = validator_actions(validators, answers, 0);
    let writes = write_actions(steps, 0);
    law_mc_run(data, answers);
    lemma_account_actions_plain(book, 0);
    lemma_validator_actions_plain(validators, answers, 0);
    lemma_addresses_written(steps);
    plan_read::law_addresses_put(data);
    let w = address_written();
    let b = address_built_for();
    gather::lemma_gathered_none(system, w);
    gather::lemma_gathered_none(on_accounts, w);
    gather::lemma_gathered_none(on_validators, w);
    gather::lemma_gathered_add(system, on_accounts, w);
    gather::lemma_gathered_add(system + on_accounts, on_validators, w);
    gather::lemma_gathered_add(system + on_accounts + on_validators, writes, w);
    assert(gather::gathered(run, w) =~= gather::gathered(writes, w));
    assert(system =~= system.take(5) + system.skip(5));
    gather::lemma_gathered_none(system.take(5), b);
    gather::lemma_gathered_all(system.skip(5), b);
    gather::lemma_gathered_add(system.take(5), system.skip(5), b);
    gather::lemma_gathered_none(on_accounts, b);
    gather::lemma_gathered_none(on_validators, b);
    gather::lemma_gathered_none(writes, b);
    gather::lemma_gathered_add(system, on_accounts, b);
    gather::lemma_gathered_add(system + on_accounts, on_validators, b);
    gather::lemma_gathered_add(system + on_accounts + on_validators, writes, b);
    assert(gather::gathered(run, b) =~= gather::gathered(run, w).take(2));
    law_system_accounts_prevail(start, answers, data.config.elector_address);
    law_system_accounts_prevail(start, answers, data.config.config_address);
}

/// Whatever is put into the state is the account that is wrapped just before, under its own address:
/// the accounts of the book under theirs, and the wallets under those they are built with, each with
/// the key and the balance of its validator.
pub proof fn law_each_under_its_address(
    data: ZerostateConfig,
    answers: McAnswers,
    place: int,
)
    requires
        fits_memory(data),
        (answers.is_key)(data.minter_public_key),
        (answers.is_key)(data.config_public_key),
        0 < place < mc_run(masterchain::mc_start(data), answers).len(),
    ensures
        ({
            let run = mc_run(masterchain::mc_start(data), answers);
            let book = complete_book(masterchain::mc_start(data), answers);
            let validators = data.config.validator_set.validators@;
            let before = run[place - 1];
            &&& run[place] matches McAction::InsertAccount { address } ==> before
                is MakeShardAccount && book.contains((address, before->MakeShardAccount_account))
                && before->MakeShardAccount_account.exists
            &&& run[place] matches McAction::InsertWallet { address } ==> before
                is MakeShardAccount && exists|v: int| #![trigger validators[v]]
                0 <= v < validators.len() && (answers.is_key)(validators[v].public_key) && (
                address,
                before->MakeShardAccount_account,
            ) == (answers.wallet)(validators[v].public_key, validators[v].initial_balance)
        }),
{
    let start = masterchain::mc_start(data);
    let run = mc_run(start, answers);
    let book = complete_book(start, answers);
    let validators = data.config.validator_set.validators@;
    let system = system_actions(start);
    let on_accounts = account_actions(book, 0);
    let on_validators = validator_actions(validators, answers, 0);
    let writes = write_actions(plan::state_steps(data), 0);
    law_mc_run(data, answers);
    lemma_account_actions_plain(book, 0);
    lemma_validator_actions_plain(validators, answers, 0);
    let a = place - 7;
    let v = a - on_accounts.len();
    if place >= 7 && a < on_accounts.len() {
        assert(run[place] == on_accounts[a]);
        lemma_inserted_accounts(book, 0, a);
        if a > 0 {
            assert(run[place - 1] == on_accounts[a - 1]);
        }
    } else if place >= 7 && v < on_validators.len() {
        assert(run[place] == on_validators[v]);
        lemma_inserted_wallets(validators, answers, 0, v);
        if v > 0 {
            assert(run[place - 1] == on_validators[v - 1]);
        }
    } else if place >= 7 {
        assert(run[place] == writes[v - on_validators.len()]);
    }
}

proof fn lemma_inserted_accounts(book: Seq<(Address, Account)>, from: int, place: int)
    requires
        0 <= from,
        0 <= place < account_actions(book, from).len(),
    ensures
        account_actions(book, from)[place] matches McAction::InsertAccount { address } ==> place > 0
            && account_actions(book, from)[place - 1] is MakeShardAccount && book.contains(
            (address, account_actions(book, from)[place - 1]->MakeShardAccount_account),
        ) && account_actions(book, from)[place - 1]->MakeShardAccount_account.exists,
        !(account_actions(book, from)[place] is InsertWallet),
        place == 0 ==> !(account_actions(book, from)[place] is InsertAccount),
    decreases book.len() - from,
{
    let all = account_actions(book, from);
    let rest = account_actions(book, from + 1);
    if from < book.len() {
        if !book[from].1.exists {
            lemma_inserted_accounts(book, from + 1, place);
        } else if place >= 3 {
            assert(all[place] == rest[place - 3]);
            lemma_inserted_accounts(book, from + 1, place - 3);
            if place > 3 {
                assert(all[place - 1] == rest[place - 4]);
            }
        } else {
            assert(book[from] == (book[from].0, book[from].1));
            assert(book.contains(book[from]));
        }
    }
}

proof fn lemma_inserted_wallets(
    validators: Seq<Validator>,
    answers: McAnswers,
    from: int,
    place: int,
)
    requires
        0 <= from,
        0 <= place < validator_actions(validators, answers, from).len(),
    ensures
        ({
            let all = validator_actions(validators, answers, from);
            &&& all[place] matches McAction::InsertWallet { address } ==> place > 0 && all[place - 1]
                is MakeShardAccount && exists|v: int| #![trigger validators[v]]
                0 <= v < validators.len() && (answers.is_key)(validators[v].public_key) && (
                address,
                all[place - 1]->MakeShardAccount_account,
            ) == (answers.wallet)(validators[v].public_key, validators[v].initial_balance)
            &&& !(all[place] is InsertAccount)
            &&& place == 0 ==> !(all[place] is InsertWallet)
        }),
    decreases validators.len() - from,
{
    let all = validator_actions(validators, answers, from);
    let rest = validator_actions(validators, answers, from + 1);
    if from < validators.len() {
        let n: int = if (answers.is_key)(validators[from].public_key) { 4 } else { 1 };
        if place >= n {
            assert(all[place] == rest[place - n]);
            lemma_inserted_wallets(validators, answers, from + 1, place - n);
            if place > n {
                assert(all[place - 1] == rest[place - n - 1]);
            }
        } else if n == 4 && place == 3 {
            let wallet = (answers.wallet)(
                validators[from].public_key,
                validators[from].initial_balance,
            );
            assert(all[3] == McAction::InsertWallet { address: wallet.0 });
            assert(all[2] == masterchain::mc_wrap(wallet.1));
            assert((wallet.0, wallet.1) == wallet);
            assert(0 <= from < validators.len());
        }
    }
}

} // verus!
