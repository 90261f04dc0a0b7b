use betterscale::accounts::AccountBook;
use betterscale::config::{
    Account, BlockCreationFees, BlockLimits, BlockLimitsEntry, BlockLimitsParam, CatchainParams,
    ConfigVotingParams, ConsensusParams, Currency, ElectorParams, GasPrices, GasPricesEntry,
    MsgForwardPrices, MsgForwardPricesEntry, NetworkConfig, StakeParams, StoragePricesEntry, Validator,
    ValidatorCount, ValidatorSet, VotingSetup, Workchain, ZerostateConfig,
};
use betterscale::masterchain::{prepare_mc_zerostate, McAction, McEvent, McJob};
use betterscale::plan::plan_state;
use betterscale::publication::{
    file_name, zero_state_json, PubAction, PubEvent, PubFailure, Publication, SHARD_FULL,
};
use betterscale::steps::{Param, Step};
use betterscale::zerostates::{
    prepare_zerostates, ZerostateAction, ZerostateEvent, ZerostateFailure, Zerostates,
};

fn gas(price: u64) -> GasPricesEntry {
    GasPricesEntry {
        gas_price: price,
        gas_limit: price + 1,
        special_gas_limit: price + 2,
        gas_credit: price + 3,
        block_gas_limit: price + 4,
        freeze_due_limit: price + 5,
        delete_due_limit: price + 6,
        flat_gas_limit: price + 7,
        flat_gas_price: price + 8,
    }
}

fn limit(mark: u32) -> BlockLimitsParam {
    BlockLimitsParam { underload: mark, soft_limit: mark + 1, hard_limit: mark + 2 }
}

fn limits(mark: u32) -> BlockLimitsEntry {
    BlockLimitsEntry { bytes: limit(mark), gas: limit(mark + 10), lt_delta: limit(mark + 20) }
}

fn forward(price: u64) -> MsgForwardPricesEntry {
    MsgForwardPricesEntry {
        lump_price: price,
        bit_price: price + 1,
        cell_price: price + 2,
        ihr_price_factor: 3,
        first_frac: 4,
        next_frac: 5,
    }
}

fn voting(rounds: u8) -> ConfigVotingParams {
    ConfigVotingParams {
        min_total_rounds: rounds,
        max_total_rounds: rounds + 1,
        min_wins: 2,
        max_losses: 3,
        min_store_sec: 4,
        max_store_sec: 5,
        bit_price: 6,
        cell_price: 7,
    }
}

fn validator(key: u8) -> Validator {
    Validator { public_key: [key; 32], weight: key as u64, initial_balance: 1000 + key as u64 }
}

fn workchain(workchain_id: i32) -> Workchain {
    Workchain {
        workchain_id,
        enabled_since: 11,
        min_split: 1,
        max_split: 2,
        flags: 3,
        active: true,
        accept_msgs: false,
        vm_version: -1,
        vm_mode: 4,
    }
}

fn description() -> ZerostateConfig {
    ZerostateConfig {
        global_id: -42,
        gen_utime: 1_600_000_000,
        minter_public_key: [1; 32],
        config_public_key: [2; 32],
        accounts: vec![
            ([0x70; 32], Account { id: 0, exists: true }),
            ([0x71; 32], Account { id: 1, exists: false }),
            ([0x55; 32], Account { id: 2, exists: true }),
        ],
        config: NetworkConfig {
            config_address: [0x55; 32],
            elector_address: [0x33; 32],
            minter_address: [0x11; 32],
            currencies: vec![Currency { id: 7, total_supply: 100 }, Currency { id: 7, total_supply: 9 }],
            global_version: 5,
            global_capabilities: 46,
            mandatory_params: vec![0, 1],
            critical_params: vec![10],
            voting_setup: Some(VotingSetup { normal_params: voting(2), critical_params: voting(4) }),
            workchains: vec![workchain(0), workchain(1)],
            block_creation_fees: BlockCreationFees {
                masterchain_block_fee: 17,
                basechain_block_fee: 10,
            },
            elector_params: ElectorParams {
                validators_elected_for: 1,
                elections_start_before: 2,
                elections_end_before: 3,
                stake_held_for: 4,
            },
            validator_count: ValidatorCount {
                max_validators: 100,
                max_main_validators: 50,
                min_validators: 3,
            },
            stake_params: StakeParams {
                min_stake: 1,
                max_stake: 2,
                min_total_stake: 3,
                max_stake_factor: 4,
            },
            storage_prices: vec![
                StoragePricesEntry {
                    utime_since: 0,
                    bit_price_ps: 1,
                    cell_price_ps: 2,
                    mc_bit_price_ps: 3,
                    mc_cell_price_ps: 4,
                },
                StoragePricesEntry {
                    utime_since: 9,
                    bit_price_ps: 5,
                    cell_price_ps: 6,
                    mc_bit_price_ps: 7,
                    mc_cell_price_ps: 8,
                },
            ],
            gas_prices: GasPrices { masterchain: gas(100), basechain: gas(200) },
            block_limits: BlockLimits { masterchain: limits(1000), basechain: limits(2000) },
            msg_forward_prices: MsgForwardPrices { masterchain: forward(10), basechain: forward(20) },
            catchain_params: CatchainParams {
                isolate_mc_validators: false,
                shuffle_mc_validators: true,
                mc_catchain_lifetime: 1,
                shard_catchain_lifetime: 2,
                shard_validators_lifetime: 3,
                shard_validators_num: 4,
            },
            consensus_params: ConsensusParams {
                new_catchain_ids: true,
                round_candidates: 1,
                next_candidate_delay_ms: 2,
                consensus_timeout_ms: 3,
                fast_attempts: 4,
                attempt_duration: 5,
                catchain_max_deps: 6,
                max_block_bytes: 7,
                max_collated_bytes: 8,
            },
            fundamental_addresses: vec![[0x55; 32], [0x33; 32]],
            validator_set: ValidatorSet {
                utime_since: 1,
                utime_until: 2,
                main: 3,
                validators: vec![validator(21), validator(22)],
            },
        },
    }
}

/// Answers as an outside where nothing fails: every key but the second validator's is a key.
fn answer(action: McAction) -> McEvent {
    match action {
        McAction::CheckMinterKey { .. } | McAction::CheckConfigKey { .. } => McEvent::KeyAccepted,
        McAction::CheckValidatorKey { key } => {
            if key == [22; 32] {
                McEvent::KeyRejected
            } else {
                McEvent::KeyAccepted
            }
        }
        McAction::BuildMinter { .. } => McEvent::AccountBuilt { account: Account { id: 10, exists: true } },
        McAction::BuildTickTock => McEvent::AccountBuiltAt {
            address: [0x77; 32],
            account: Account { id: 11, exists: true },
        },
        McAction::BuildConfigAccount { .. } => {
            McEvent::AccountBuilt { account: Account { id: 12, exists: true } }
        }
        McAction::BuildElectorAccount { .. } => {
            McEvent::AccountBuilt { account: Account { id: 13, exists: true } }
        }
        McAction::BuildWallet { key, .. } => McEvent::AccountBuiltAt {
            address: [key[0] + 100; 32],
            account: Account { id: key[0] as u64, exists: true },
        },
        _ => McEvent::Done,
    }
}

fn advanced(job: McJob, event: McEvent) -> McJob {
    assert!(job.accepts(&event));
    match job.advance(event) {
        Ok(job) => job,
        Err(action) => panic!("{:?}", action),
    }
}

fn whole_run() -> Vec<McAction> {
    run_of(description())
}

fn run_of(description: ZerostateConfig) -> Vec<McAction> {
    let mut actions = Vec::new();
    let mut job = prepare_mc_zerostate(description);
    loop {
        let action = job.action();
        if action == McAction::Finished {
            return actions;
        }
        actions.push(action);
        job = advanced(job, answer(action));
    }
}

/// The work at which a run ends when the work that is picked fails.
fn failing_at(pick: fn(&McAction) -> bool) -> McAction {
    let mut job = prepare_mc_zerostate(description());
    loop {
        let action = job.action();
        if pick(&action) {
            let event = match action {
                McAction::CheckMinterKey { .. } | McAction::CheckConfigKey { .. } => McEvent::KeyRejected,
                _ => McEvent::Failed,
            };
            assert!(job.accepts(&event));
            return match job.advance(event) {
                Ok(job) => panic!("{:?}", job.action()),
                Err(action) => action,
            };
        }
        job = advanced(job, answer(action));
    }
}

#[test]
fn the_system_comes_first() {
    let run = whole_run();
    assert_eq!(
        run[..7],
        [
            McAction::CheckMinterKey { key: [1; 32] },
            McAction::CheckConfigKey { key: [2; 32] },
            McAction::OpenState,
            McAction::BuildMinter { key: [1; 32] },
            McAction::BuildTickTock,
            McAction::BuildConfigAccount { address: [0x55; 32], key: [2; 32] },
            McAction::BuildElectorAccount { address: [0x33; 32] },
        ]
    );
}

#[test]
fn accounts_that_exist_are_added_up_and_inserted() {
    let run = whole_run();
    let mut balances: Vec<u64> = run
        .iter()
        .filter_map(|action| match action {
            McAction::AddBalance { account } => Some(account.id),
            _ => None,
        })
        .collect();
    balances.sort();
    // The account described under the configuration's address gives way; no wallet is counted.
    assert_eq!(balances, [0, 10, 11, 12, 13]);
    let mut addresses: Vec<[u8; 32]> = run
        .iter()
        .filter_map(|action| match action {
            McAction::InsertAccount { address } => Some(*address),
            _ => None,
        })
        .collect();
    addresses.sort();
    assert_eq!(addresses, [[0; 32], [0x33; 32], [0x55; 32], [0x70; 32], [0x77; 32]]);
    let wrapped = McAction::MakeShardAccount {
        account: Account { id: 12, exists: true },
        last_trans_hash: [0; 32],
        last_trans_lt: 0,
    };
    let place = run.iter().position(|action| *action == wrapped).unwrap();
    assert_eq!(run[place - 1], McAction::AddBalance { account: Account { id: 12, exists: true } });
    assert_eq!(run[place + 1], McAction::InsertAccount { address: [0x55; 32] });
}

#[test]
fn the_order_of_the_accounts_is_without_effect() {
    let mut reversed = description();
    reversed.accounts.reverse();
    let left = whole_run();
    let right = run_of(reversed);
    assert_ne!(left, right);
    let triples = |run: &[McAction]| -> Vec<String> {
        let mut triples: Vec<String> =
            run[7..22].chunks(3).map(|triple| format!("{:?}", triple)).collect();
        triples.sort();
        triples
    };
    assert_eq!(triples(&left), triples(&right));
    assert_eq!(left[..7], right[..7]);
    assert_eq!(left[22..], right[22..]);
}

#[test]
fn wallet_balances_affect_wallets_alone() {
    let mut richer = description();
    richer.config.validator_set.validators[0].initial_balance = 5;
    assert_eq!(plan_state(&richer), plan_state(&description()));
    let left = whole_run();
    let right = run_of(richer);
    let differing: Vec<usize> = (0..left.len()).filter(|i| left[*i] != right[*i]).collect();
    assert_eq!(left.len(), right.len());
    assert_eq!(differing.len(), 1);
    assert_eq!(left[differing[0]], McAction::BuildWallet { key: [21; 32], balance: 1021 });
    assert_eq!(right[differing[0]], McAction::BuildWallet { key: [21; 32], balance: 5 });
}

#[test]
fn validators_with_proper_keys_get_wallets() {
    let run = whole_run();
    let place = run
        .iter()
        .position(|action| *action == McAction::CheckValidatorKey { key: [21; 32] })
        .unwrap();
    assert_eq!(
        run[place + 1..place + 5],
        [
            McAction::BuildWallet { key: [21; 32], balance: 1021 },
            McAction::MakeShardAccount {
                account: Account { id: 21, exists: true },
                last_trans_hash: [0; 32],
                last_trans_lt: 0,
            },
            McAction::InsertWallet { address: [121; 32] },
            McAction::CheckValidatorKey { key: [22; 32] },
        ]
    );
    assert_eq!(run[place + 5], McAction::Write(Step::SetMinRefMcSeqno(u32::MAX)));
}

#[test]
fn the_plan_comes_last() {
    let run = whole_run();
    let plan: Vec<McAction> = plan_state(&description()).into_iter().map(McAction::Write).collect();
    assert_eq!(run[run.len() - plan.len()..], plan[..]);
    assert_eq!(run.len(), 7 + 3 * 5 + 4 + 1 + plan.len());
}

#[test]
fn parameters_are_put_in_order() {
    let numbers = |config: &ZerostateConfig| -> Vec<u32> {
        plan_state(config)
            .iter()
            .filter_map(|step| match step {
                Step::Put(param) => Some(param.number()),
                _ => None,
            })
            .collect()
    };
    let mut config = description();
    assert_eq!(
        numbers(&config),
        [
            0, 1, 2, 7, 8, 9, 10, 11, 12, 14, 15, 16, 17, 18, 20, 21, 22, 23, 24, 25, 28, 29, 31, 34
        ]
    );
    config.config.voting_setup = None;
    assert_eq!(
        numbers(&config),
        [0, 1, 2, 7, 8, 9, 10, 12, 14, 15, 16, 17, 18, 20, 21, 22, 23, 24, 25, 28, 29, 31, 34]
    );
}

#[test]
fn the_plan_holds_what_is_described() {
    let plan = plan_state(&description());
    assert_eq!(
        plan[..5],
        [
            Step::SetMinRefMcSeqno(u32::MAX),
            Step::SetGlobalId(-42),
            Step::SetGenTime(1_600_000_000),
            Step::SetTotalBalance,
            Step::SetConfigAddress([0x55; 32]),
        ]
    );
    let place = |wanted: Step| plan.iter().position(|step| *step == wanted).unwrap();
    assert_eq!(plan[7], Step::Put(Param::MinterAddress([0x11; 32])));
    assert_eq!(plan[8], Step::AddCurrency(Currency { id: 7, total_supply: 100 }));
    assert_eq!(plan[9], Step::AddCurrency(Currency { id: 7, total_supply: 9 }));
    assert_eq!(plan[11], Step::Put(Param::GlobalVersion { version: 5, capabilities: 46 }));
    assert!(place(Step::AddMandatoryParam(1)) < place(Step::Put(Param::MandatoryParams)));
    assert!(place(Step::AddCriticalParam(10)) < place(Step::Put(Param::CriticalParams)));
    assert_eq!(
        plan[place(Step::Put(Param::VotingSetup)) - 1],
        Step::MakeVotingSetup { normal: voting(2), critical: voting(4) }
    );
    let workchains = place(Step::Put(Param::Workchains));
    assert_eq!(
        plan[workchains - 4..workchains],
        [
            Step::StartWorkchain { enabled_since: 11 },
            Step::SetMinSplit(1),
            Step::SetMaxSplit(2),
            Step::AddWorkchain {
                workchain_id: 1,
                flags: 3,
                active: true,
                accept_msgs: false,
                vm_version: -1,
                vm_mode: 4,
            },
        ]
    );
    let prices = place(Step::Put(Param::StoragePrices));
    match plan[prices - 1] {
        Step::AddStoragePrices { index, prices } => {
            assert_eq!((index, prices.utime_since, prices.mc_cell_price_ps), (1, 9, 8));
        }
        step => panic!("{:?}", step),
    }
    match plan[prices + 1] {
        Step::Put(Param::MasterchainGas(gas)) => {
            assert_eq!((gas.gas_price, gas.flat_gas_price, gas.max_gas_threshold), (100, 108, 0));
        }
        step => panic!("{:?}", step),
    }
    let blocks = place(Step::Put(Param::BasechainBlockLimits));
    assert_eq!(
        plan[blocks - 3..blocks],
        [
            Step::AddBlockLimit(limit(2000)),
            Step::AddBlockLimit(limit(2010)),
            Step::AddBlockLimit(limit(2020)),
        ]
    );
    assert_eq!(plan[blocks + 1], Step::Put(Param::MasterchainForwardPrices(forward(10))));
    let last = plan.len();
    assert_eq!(
        plan[last - 8..],
        [
            Step::AddValidator { public_key: [21; 32], weight: 21 },
            Step::AddValidator { public_key: [22; 32], weight: 22 },
            Step::MakeValidatorSet { utime_since: 1, utime_until: 2, main: 3 },
            Step::Put(Param::CurrentValidators),
            Step::SetValidatorInfo {
                validator_list_hash_short: 0,
                catchain_seqno: 0,
                nx_cc_updated: true,
            },
            Step::SetGlobalBalance,
            Step::SetAfterKeyBlock(true),
            Step::WriteExtra,
        ]
    );
}

#[test]
fn masterchain_work_fails_with_its_context() {
    let told = |pick: fn(&McAction) -> bool| failing_at(pick).context();
    assert_eq!(
        told(|a| matches!(a, McAction::CheckMinterKey { .. })),
        Some("Invalid minter public key")
    );
    assert_eq!(
        told(|a| matches!(a, McAction::CheckConfigKey { .. })),
        Some("Invalid config public key")
    );
    assert_eq!(
        told(|a| matches!(a, McAction::BuildMinter { .. })),
        Some("Failed to build minter state")
    );
    assert_eq!(told(|a| matches!(a, McAction::BuildTickTock)), Some("Failed to build tick tock"));
    assert_eq!(
        told(|a| matches!(a, McAction::BuildConfigAccount { .. })),
        Some("Failed to build config state")
    );
    assert_eq!(
        told(|a| matches!(a, McAction::BuildElectorAccount { .. })),
        Some("Failed to build config state")
    );
    assert_eq!(
        told(|a| matches!(a, McAction::AddBalance { .. })),
        Some("Failed to get total balance")
    );
    assert_eq!(
        told(|a| matches!(a, McAction::MakeShardAccount { .. })),
        Some("Failed to create shard account")
    );
    assert_eq!(
        told(|a| matches!(a, McAction::InsertAccount { .. })),
        Some("Failed to insert account")
    );
    assert_eq!(
        told(|a| matches!(a, McAction::BuildWallet { .. })),
        Some("Failed to build validator wallet")
    );
    assert_eq!(
        told(|a| matches!(a, McAction::InsertWallet { .. })),
        Some("Failed to insert validator account")
    );
    assert_eq!(told(|a| matches!(a, McAction::OpenState)), None);
}

#[test]
fn writes_fail_with_their_context() {
    let told = |pick: fn(&McAction) -> bool| failing_at(pick).context();
    assert_eq!(
        told(|a| matches!(a, McAction::Write(Step::AddCurrency(_)))),
        Some("Failed to set currency")
    );
    assert_eq!(
        told(|a| matches!(a, McAction::Write(Step::AddMandatoryParam(_)))),
        Some("Failed to construct mandatory params")
    );
    assert_eq!(
        told(|a| matches!(a, McAction::Write(Step::AddCriticalParam(_)))),
        Some("Failed to construct critical params")
    );
    assert_eq!(
        told(|a| matches!(a, McAction::Write(Step::MakeVotingSetup { .. }))),
        Some("Failed to create config param 11")
    );
    assert_eq!(
        told(|a| matches!(a, McAction::Write(Step::SetMinSplit(_)))),
        Some("Failed to set workchain min split")
    );
    assert_eq!(
        told(|a| matches!(a, McAction::Write(Step::SetMaxSplit(_)))),
        Some("Failed to set workchain max split")
    );
    assert_eq!(
        told(|a| matches!(a, McAction::Write(Step::AddWorkchain { .. }))),
        Some("Failed to set workchain")
    );
    assert_eq!(
        told(|a| matches!(a, McAction::Write(Step::AddBlockLimit(_)))),
        Some("Failed to set block limits param")
    );
    assert_eq!(
        told(|a| matches!(a, McAction::Write(Step::MakeValidatorSet { .. }))),
        Some("Failed to build validators list")
    );
    assert_eq!(
        told(|a| matches!(a, McAction::Write(Step::WriteExtra))),
        Some("Failed to write McStateExtra")
    );
    assert_eq!(told(|a| matches!(a, McAction::Write(Step::Put(_)))), None);
}

#[test]
fn a_book_keeps_the_last_account_under_an_address() {
    let account = |id: u64| Account { id, exists: true };
    let entries = vec![([1; 32], account(1)), ([2; 32], account(2)), ([1; 32], account(3))];
    let book = AccountBook::from_entries(&entries);
    assert_eq!(book.len(), 2);
    assert_eq!(book.get(0), ([1; 32], account(3)));
    let book = book.insert([2; 32], Account { id: 4, exists: false });
    assert_eq!(book.len(), 2);
    assert_eq!(book.get(1), ([2; 32], Account { id: 4, exists: false }));
    let book = book.insert([3; 32], account(5));
    assert_eq!(book.len(), 3);
    assert_eq!(book.next_existing(0), 0);
    assert_eq!(book.next_existing(1), 2);
    assert_eq!(book.next_existing(3), 3);
}

#[test]
fn mc_events_that_answer_nothing_are_told_apart() {
    let job = prepare_mc_zerostate(description());
    assert!(job.accepts(&McEvent::KeyAccepted));
    assert!(!job.accepts(&McEvent::Done));
    assert!(!job.accepts(&McEvent::Failed));
    assert!(!job.accepts(&McEvent::AccountBuilt { account: Account { id: 0, exists: true } }));
}

fn workchain_hashes(place: u8) -> ([u8; 32], [u8; 32]) {
    ([place + 1; 32], [place + 0xa0; 32])
}

/// Answers as an outside with two workchains where nothing fails.
fn publish_answer(action: PubAction, place: &mut u8) -> PubEvent {
    match action {
        PubAction::ReadWorkchains => PubEvent::Workchains(vec![0, 1]),
        PubAction::SerializeWorkchainState => {
            PubEvent::Serialized { root_hash: workchain_hashes(*place).0 }
        }
        PubAction::PackWorkchainState => {
            *place += 1;
            PubEvent::Packed { file_hash: workchain_hashes(*place - 1).1 }
        }
        PubAction::ComputeSubset { .. } => PubEvent::Subset { hash_short: 77 },
        PubAction::SerializeState => PubEvent::Serialized { root_hash: [0; 32] },
        PubAction::PackState => PubEvent::Packed { file_hash: [0xff; 32] },
        _ => PubEvent::Done,
    }
}

fn published(publication: Publication, event: PubEvent) -> Publication {
    assert!(publication.accepts(&event));
    match publication.advance(event) {
        Ok(publication) => publication,
        Err(failure) => panic!("{:?}", failure),
    }
}

fn publish_failing_at(pick: fn(&PubAction) -> bool) -> PubFailure {
    let mut publication = Publication::start(5, 6);
    let mut place = 0;
    loop {
        let action = publication.action();
        if pick(&action) {
            assert!(publication.accepts(&PubEvent::Failed));
            return match publication.advance(PubEvent::Failed) {
                Ok(publication) => panic!("{:?}", publication.action()),
                Err(failure) => failure,
            };
        }
        publication = published(publication, publish_answer(action, &mut place));
    }
}

#[test]
fn a_publication_writes_all_states() {
    let mut publication = Publication::start(5, -6);
    let mut actions = Vec::new();
    let mut place = 0;
    while !matches!(publication.action(), PubAction::Finished { .. }) {
        let action = publication.action();
        actions.push(action);
        publication = published(publication, publish_answer(action, &mut place));
    }
    actions.push(publication.action());
    let mut expected = vec![PubAction::ReadExtra, PubAction::ReadWorkchains];
    for place in 0..2u8 {
        let (root_hash, file_hash) = workchain_hashes(place);
        expected.push(PubAction::MakeWorkchainState {
            workchain_id: place as i32,
            shard: SHARD_FULL,
            gen_time: 5,
            global_id: -6,
            min_ref_mc_seqno: u32::MAX,
        });
        expected.push(PubAction::SerializeWorkchainState);
        expected.push(PubAction::PackWorkchainState);
        expected.push(PubAction::UpdateWorkchain { workchain_id: place as i32, root_hash, file_hash });
        expected.push(PubAction::WriteWorkchainFile { file_hash });
    }
    expected.push(PubAction::PutWorkchains { param: 12 });
    expected.push(PubAction::ReadCatchainConfig);
    expected.push(PubAction::ReadValidatorSet);
    expected.push(PubAction::ComputeSubset {
        shard: 0x8000_0000_0000_0000,
        workchain_id: -1,
        catchain_seqno: 0,
        time: 5,
    });
    expected.push(PubAction::SetValidatorInfo {
        validator_list_hash_short: 77,
        nx_cc_updated: true,
        catchain_seqno: 0,
    });
    expected.push(PubAction::WriteExtra);
    expected.push(PubAction::UpdateConfigContract);
    expected.push(PubAction::SerializeState);
    expected.push(PubAction::PackState);
    expected.push(PubAction::WriteStateFile { file_hash: [0xff; 32] });
    expected.push(PubAction::Finished { root_hash: [0; 32], file_hash: [0xff; 32] });
    assert_eq!(actions, expected);
}

#[test]
fn a_publication_fails_with_its_context() {
    let told = |pick: fn(&PubAction) -> bool| publish_failing_at(pick).context();
    assert_eq!(told(|a| *a == PubAction::ReadExtra), Some("Failed to read McStateExtra"));
    assert_eq!(told(|a| *a == PubAction::ReadWorkchains), None);
    assert_eq!(told(|a| matches!(a, PubAction::MakeWorkchainState { .. })), None);
    assert_eq!(
        told(|a| *a == PubAction::SerializeWorkchainState),
        Some("Failed to serialize workchain state")
    );
    assert_eq!(told(|a| *a == PubAction::PackWorkchainState), None);
    assert_eq!(
        told(|a| matches!(a, PubAction::UpdateWorkchain { .. })),
        Some("Failed to update workchain info")
    );
    assert_eq!(
        told(|a| matches!(a, PubAction::WriteWorkchainFile { .. })),
        Some("Failed to write workchain zerostate")
    );
    assert_eq!(
        told(|a| *a == PubAction::ReadCatchainConfig),
        Some("Failed to read catchain config")
    );
    assert_eq!(told(|a| *a == PubAction::ReadValidatorSet), Some("Failed to read validator set"));
    assert_eq!(
        told(|a| matches!(a, PubAction::ComputeSubset { .. })),
        Some("Failed to compute validator subset")
    );
    assert_eq!(told(|a| *a == PubAction::WriteExtra), Some("Failed to write custom"));
    assert_eq!(
        told(|a| *a == PubAction::UpdateConfigContract),
        Some("Failed to update config smc")
    );
    assert_eq!(
        told(|a| *a == PubAction::SerializeState),
        Some("Failed to serialize masterchain zerostate")
    );
    assert_eq!(
        told(|a| *a == PubAction::PackState),
        Some("Failed to serialize masterchain zerostate")
    );
    assert_eq!(
        told(|a| matches!(a, PubAction::WriteStateFile { .. })),
        Some("Failed to write masterchain zerostate")
    );
    let failure = Publication::start(0, 0).advance(PubEvent::Missing).err();
    assert_eq!(failure, Some(PubFailure::NoExtra));
    assert_eq!(PubFailure::NoExtra.context(), Some("McStateExtra not found"));
}

#[test]
fn files_are_named_after_their_hashes() {
    let mut hash = [0x0f; 32];
    hash[0] = 0xe1;
    assert_eq!(file_name(&hash), format!("e1{}.boc", "0f".repeat(31)));
    assert_ne!(file_name(&hash), file_name(&[0x0f; 32]));
}

#[test]
fn the_zerostate_is_told_in_json() {
    let expected = "{
  \"zero_state\": {
    \"file_hash\": \"//////////////////////////////////////////8=\",
    \"root_hash\": \"AAAAAAAAAAAAAAAAAAAAAAAAAAAAAAAAAAAAAAAAAAA=\",
    \"seqno\": 0,
    \"shard\": -9223372036854775808,
    \"workchain\": -1
  }
}";
    assert_eq!(zero_state_json(&[0; 32], &[0xff; 32]), expected);
}

fn zerostates_on(zerostates: Zerostates, event: ZerostateEvent) -> Zerostates {
    assert!(zerostates.accepts(&event));
    match zerostates.advance(event) {
        Ok(zerostates) => zerostates,
        Err(failure) => panic!("{:?}", failure),
    }
}

#[test]
fn zerostates_go_from_the_description_to_the_files() {
    let mut zerostates = prepare_zerostates(description());
    let mut place = 0;
    let mut masterchain = Vec::new();
    let mut files = Vec::new();
    let text = loop {
        if let Some(text) = zerostates.outcome() {
            break text;
        }
        let event = match zerostates.action() {
            ZerostateAction::Masterchain(action) => {
                assert!(files.is_empty());
                masterchain.push(action);
                ZerostateEvent::Masterchain(answer(action))
            }
            ZerostateAction::Publication(action) => {
                match action {
                    PubAction::WriteWorkchainFile { file_hash } => files.push(file_hash),
                    PubAction::WriteStateFile { file_hash } => files.push(file_hash),
                    PubAction::MakeWorkchainState { gen_time, global_id, .. } => {
                        assert_eq!((gen_time, global_id), (1_600_000_000, -42));
                    }
                    _ => {}
                }
                ZerostateEvent::Publication(publish_answer(action, &mut place))
            }
        };
        zerostates = zerostates_on(zerostates, event);
    };
    assert_eq!(masterchain, whole_run());
    assert_eq!(files, [[0xa0; 32], [0xa1; 32], [0xff; 32]]);
    assert_eq!(text, zero_state_json(&[0; 32], &[0xff; 32]));
}

#[test]
fn zerostates_fail_with_all_contexts() {
    let zerostates = prepare_zerostates(description());
    assert!(!zerostates.accepts(&ZerostateEvent::Publication(PubEvent::Done)));
    let failure = zerostates.advance(ZerostateEvent::Masterchain(McEvent::KeyRejected)).err().unwrap();
    assert_eq!(
        failure.contexts(),
        ["Failed to prepare masterchain zerostate", "Invalid minter public key"]
    );
    assert_eq!(
        ZerostateFailure::Masterchain(McAction::Write(Step::SetTotalBalance)).contexts(),
        ["Failed to prepare masterchain zerostate"]
    );
    assert_eq!(
        ZerostateFailure::Description.contexts(),
        ["Failed to prepare masterchain zerostate", "Failed to parse state config"]
    );
    assert_eq!(
        ZerostateFailure::Publication(PubFailure::NoExtra).contexts(),
        ["McStateExtra not found"]
    );
    assert!(ZerostateFailure::Publication(PubFailure::At(PubAction::ReadWorkchains))
        .contexts()
        .is_empty());
}
