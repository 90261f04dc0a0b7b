//! Which writes make the masterchain state out of its description, and in which order.
use vstd::prelude::*;

use crate::config::{
    Address, BlockLimitsEntry, Currency, GasPricesEntry, NetworkConfig, Validator, ValidatorSet,
    VotingSetup, Workchain, ZerostateConfig,
};
use crate::gather;
use crate::steps;
use crate::steps::{GasLimitsPrices, Param, Step};

verus! {

/// The state's own fields and the addresses of the system's accounts.
pub open spec fn opening_steps(data: ZerostateConfig) -> Seq<Step> {
    seq![
        Step::SetMinRefMcSeqno(u32::MAX),
        Step::SetGlobalId(data.global_id),
        Step::SetGenTime(data.gen_utime),
        Step::SetTotalBalance,
        Step::SetConfigAddress(data.config.config_address),
        Step::Put(Param::ConfigAddress(data.config.config_address)),
        Step::Put(Param::ElectorAddress(data.config.elector_address)),
        Step::Put(Param::MinterAddress(data.config.minter_address)),
    ]
}

/// The currencies to mint, and the version.
pub open spec fn currency_steps(config: NetworkConfig) -> Seq<Step> {
    config.currencies@.map_values(|currency: Currency| Step::AddCurrency(currency)) + seq![
        Step::Put(Param::ToMint),
        Step::Put(
            Param::GlobalVersion {
                version: config.global_version,
                capabilities: config.global_capabilities,
            },
        ),
    ]
}

/// Which parameters must be there, and which are critical.
pub open spec fn param_list_steps(config: NetworkConfig) -> Seq<Step> {
    config.mandatory_params@.map_values(|param: u32| Step::AddMandatoryParam(param)) + seq![
        Step::Put(Param::MandatoryParams),
    ] + config.critical_params@.map_values(|param: u32| Step::AddCriticalParam(param)) + seq![
        Step::Put(Param::CriticalParams),
    ]
}

/// How proposals are voted on, where that is set up.
pub open spec fn voting_steps(setup: Option<VotingSetup>) -> Seq<Step> {
    match setup {
        Some(setup) => seq![
            Step::MakeVotingSetup { normal: setup.normal_params, critical: setup.critical_params },
            Step::Put(Param::VotingSetup),
        ],
        None => seq![],
    }
}

/// One workchain.
pub open spec fn workchain_steps(workchain: Workchain) -> Seq<Step> {
    seq![
        Step::StartWorkchain { enabled_since: workchain.enabled_since },
        Step::SetMinSplit(workchain.min_split),
        Step::SetMaxSplit(workchain.max_split),
        Step::AddWorkchain {
            workchain_id: workchain.workchain_id,
            flags: workchain.flags,
            active: workchain.active,
            accept_msgs: workchain.accept_msgs,
            vm_version: workchain.vm_version,
            vm_mode: workchain.vm_mode,
        },
    ]
}

/// All workchains in turn.
pub open spec fn all_workchain_steps(workchains: Seq<Workchain>) -> Seq<Step>
    decreases workchains.len(),
{
    if workchains.len() == 0 {
        seq![]
    } else {
        all_workchain_steps(workchains.drop_last()) + workchain_steps(workchains.last())
    }
}

/// The workchains, and the plain parameters that follow them.
pub open spec fn workchain_section(config: NetworkConfig) -> Seq<Step> {
    all_workchain_steps(config.workchains@) + seq![
        Step::Put(Param::Workchains),
        Step::Put(Param::BlockCreateFees(config.block_creation_fees)),
        Step::Put(Param::Elections(config.elector_params)),
        Step::Put(Param::ValidatorCount(config.validator_count)),
        Step::Put(Param::Stakes(config.stake_params)),
    ]
}

/// What gas costs in one chain, as the parameter keeps it.
pub open spec fn gas_limits_prices(prices: GasPricesEntry) -> GasLimitsPrices {
    GasLimitsPrices {
        gas_price: prices.gas_price,
        gas_limit: prices.gas_limit,
        special_gas_limit: prices.special_gas_limit,
        gas_credit: prices.gas_credit,
        block_gas_limit: prices.block_gas_limit,
        freeze_due_limit: prices.freeze_due_limit,
        delete_due_limit: prices.delete_due_limit,
        flat_gas_limit: prices.flat_gas_limit,
        flat_gas_price: prices.flat_gas_price,
        max_gas_threshold: 0,
    }
}

/// What storage and gas cost. Storage prices are numbered in the order in which they are given.
pub open spec fn price_steps(config: NetworkConfig) -> Seq<Step> {
    Seq::new(
        config.storage_prices@.len(),
        |i: int|
            Step::AddStoragePrices { index: i as u32, prices: config.storage_prices@[i] },
    ) + seq![
        Step::Put(Param::StoragePrices),
        Step::Put(Param::MasterchainGas(gas_limits_prices(config.gas_prices.masterchain))),
        Step::Put(Param::BasechainGas(gas_limits_prices(config.gas_prices.basechain))),
    ]
}

/// How large the blocks of one chain may become.
pub open spec fn block_limit_steps(limits: BlockLimitsEntry, param: Param) -> Seq<Step> {
    seq![
        Step::AddBlockLimit(limits.bytes),
        Step::AddBlockLimit(limits.gas),
        Step::AddBlockLimit(limits.lt_delta),
        Step::Put(param),
    ]
}

/// Blocks, messages and agreement.
pub open spec fn limit_steps(config: NetworkConfig) -> Seq<Step> {
    block_limit_steps(config.block_limits.masterchain, Param::MasterchainBlockLimits)
        + block_limit_steps(config.block_limits.basechain, Param::BasechainBlockLimits) + seq![
        Step::Put(Param::MasterchainForwardPrices(config.msg_forward_prices.masterchain)),
        Step::Put(Param::BasechainForwardPrices(config.msg_forward_prices.basechain)),
        Step::Put(Param::Catchain(config.catchain_params)),
        Step::Put(Param::Consensus(config.consensus_params)),
    ]
}

/// The fundamental contracts.
pub open spec fn fundamental_steps(config: NetworkConfig) -> Seq<Step> {
    config.fundamental_addresses@.map_values(
        |address: Address| Step::AddFundamentalAddress(address),
    ) + seq![Step::Put(Param::FundamentalAddresses)]
}

/// The validators.
pub open spec fn validator_steps(set: ValidatorSet) -> Seq<Step> {
    set.validators@.map_values(
        |validator: Validator|
            Step::AddValidator { public_key: validator.public_key, weight: validator.weight },
    ) + seq![
        Step::MakeValidatorSet {
            utime_since: set.utime_since,
            utime_until: set.utime_until,
            main: set.main,
        },
        Step::Put(Param::CurrentValidators),
    ]
}

/// The masterchain's own part.
pub open spec fn closing_steps() -> Seq<Step> {
    seq![
        Step::SetValidatorInfo {
            validator_list_hash_short: 0,
            catchain_seqno: 0,
            nx_cc_updated: true,
        },
        Step::SetGlobalBalance,
        Step::SetAfterKeyBlock(true),
        Step::WriteExtra,
    ]
}

/// All writes that make the masterchain state, once its accounts are in it.
#[verifier::opaque]
pub open spec fn state_steps(data: ZerostateConfig) -> Seq<Step> {
    let config = data.config;
    opening_steps(data) + currency_steps(config) + param_list_steps(config) + voting_steps(
        config.voting_setup,
    ) + workchain_section(config) + price_steps(config) + limit_steps(config) + fundamental_steps(
        config,
    ) + validator_steps(config.validator_set) + closing_steps()
}

fn push_opening(steps: &mut Vec<Step>, data: &ZerostateConfig)
    ensures
        final(steps)@ == old(steps)@ + opening_steps(*data),
{
    steps.push(Step::SetMinRefMcSeqno(u32::MAX));
    steps.push(Step::SetGlobalId(data.global_id));
    steps.push(Step::SetGenTime(data.gen_utime));
    steps.push(Step::SetTotalBalance);
    steps.push(Step::SetConfigAddress(data.config.config_address));
    steps.push(Step::Put(Param::ConfigAddress(data.config.config_address)));
    steps.push(Step::Put(Param::ElectorAddress(data.config.elector_address)));
    steps.push(Step::Put(Param::MinterAddress(data.config.minter_address)));
    assert(steps@ =~= old(steps)@ + opening_steps(*data));
}

fn push_currencies(steps: &mut Vec<Step>, config: &NetworkConfig)
    ensures
        final(steps)@ == old(steps)@ + currency_steps(*config),
{
    let ghost added = config.currencies@.map_values(|currency: Currency| Step::AddCurrency(currency));
    let mut i: usize = 0;
    while i < config.currencies.len()
        invariant
            i <= config.currencies@.len(),
            added == config.currencies@.map_values(
                |currency: Currency| Step::AddCurrency(currency),
            ),
            steps@ == old(steps)@ + added.take(i as int),
        decreases config.currencies@.len() - i,
    {
        steps.push(Step::AddCurrency(config.currencies[i]));
        i += 1;
        assert(steps@ =~= old(steps)@ + added.take(i as int));
    }
    steps.push(Step::Put(Param::ToMint));
    steps.push(
        Step::Put(
            Param::GlobalVersion {
                version: config.global_version,
                capabilities: config.global_capabilities,
            },
        ),
    );
    assert(steps@ =~= old(steps)@ + currency_steps(*config));
}

fn push_param_lists(steps: &mut Vec<Step>, config: &NetworkConfig)
    ensures
        final(steps)@ == old(steps)@ + param_list_steps(*config),
{
    let ghost mandatory = config.mandatory_params@.map_values(
        |param: u32| Step::AddMandatoryParam(param),
    );
    let mut i: usize = 0;
    while i < config.mandatory_params.len()
        invariant
            i <= config.mandatory_params@.len(),
            mandatory == config.mandatory_params@.map_values(
                |param: u32| Step::AddMandatoryParam(param),
            ),
            steps@ == old(steps)@ + mandatory.take(i as int),
        decreases config.mandatory_params@.len() - i,
    {
        steps.push(Step::AddMandatoryParam(config.mandatory_params[i]));
        i += 1;
        assert(steps@ =~= old(steps)@ + mandatory.take(i as int));
    }
    steps.push(Step::Put(Param::MandatoryParams));
    let ghost before = steps@;
    let ghost critical = config.critical_params@.map_values(
        |param: u32| Step::AddCriticalParam(param),
    );
    let mut i: usize = 0;
    while i < config.critical_params.len()
        invariant
            i <= config.critical_params@.len(),
            critical == config.critical_params@.map_values(
                |param: u32| Step::AddCriticalParam(param),
            ),
            steps@ == before + critical.take(i as int),
        decreases config.critical_params@.len() - i,
    {
        steps.push(Step::AddCriticalParam(config.critical_params[i]));
        i += 1;
        assert(steps@ =~= before + critical.take(i as int));
    }
    steps.push(Step::Put(Param::CriticalParams));
    assert(steps@ =~= old(steps)@ + param_list_steps(*config));
}

fn push_voting(steps: &mut Vec<Step>, setup: &Option<VotingSetup>)
    ensures
        final(steps)@ == old(steps)@ + voting_steps(*setup),
{
    if let Some(setup) = setup {
        steps.push(
            Step::MakeVotingSetup { normal: setup.normal_params, critical: setup.critical_params },
        );
        steps.push(Step::Put(Param::VotingSetup));
    }
    assert(steps@ =~= old(steps)@ + voting_steps(*setup));
}

fn push_workchains(steps: &mut Vec<Step>, config: &NetworkConfig)
    ensures
        final(steps)@ == old(steps)@ + workchain_section(*config),
{
    let mut i: usize = 0;
    while i < config.workchains.len()
        invariant
            i <= config.workchains@.len(),
            steps@ == old(steps)@ + all_workchain_steps(config.workchains@.take(i as int)),
        decreases config.workchains@.len() - i,
    {
        let ghost before = steps@;
        let workchain = config.workchains[i];
        steps.push(Step::StartWorkchain { enabled_since: workchain.enabled_since });
        steps.push(Step::SetMinSplit(workchain.min_split));
        steps.push(Step::SetMaxSplit(workchain.max_split));
        steps.push(
            Step::AddWorkchain {
                workchain_id: workchain.workchain_id,
                flags: workchain.flags,
                active: workchain.active,
                accept_msgs: workchain.accept_msgs,
                vm_version: workchain.vm_version,
                vm_mode: workchain.vm_mode,
            },
        );
        assert(steps@ =~= before + workchain_steps(workchain));
        assert(config.workchains@.take(i + 1).drop_last() =~= config.workchains@.take(i as int));
        i += 1;
        assert(steps@ =~= old(steps)@ + all_workchain_steps(config.workchains@.take(i as int)));
    }
    assert(config.workchains@.take(i as int) =~= config.workchains@);
    steps.push(Step::Put(Param::Workchains));
    steps.push(Step::Put(Param::BlockCreateFees(config.block_creation_fees)));
    steps.push(Step::Put(Param::Elections(config.elector_params)));
    steps.push(Step::Put(Param::ValidatorCount(config.validator_count)));
    steps.push(Step::Put(Param::Stakes(config.stake_params)));
    assert(steps@ =~= old(steps)@ + workchain_section(*config));
}

fn make_gas_prices(prices: &GasPricesEntry) -> (result: GasLimitsPrices)
    ensures
        result == gas_limits_prices(*prices),
{
    GasLimitsPrices {
        gas_price: prices.gas_price,
        gas_limit: prices.gas_limit,
        special_gas_limit: prices.special_gas_limit,
        gas_credit: prices.gas_credit,
        block_gas_limit: prices.block_gas_limit,
        freeze_due_limit: prices.freeze_due_limit,
        delete_due_limit: prices.delete_due_limit,
        flat_gas_limit: prices.flat_gas_limit,
        flat_gas_price: prices.flat_gas_price,
        max_gas_threshold: 0,
    }
}

fn push_prices(steps: &mut Vec<Step>, config: &NetworkConfig)
    ensures
        final(steps)@ == old(steps)@ + price_steps(*config),
{
    let ghost added = Seq::new(
        config.storage_prices@.len(),
        |i: int| Step::AddStoragePrices { index: i as u32, prices: config.storage_prices@[i] },
    );
    let mut i: usize = 0;
    while i < config.storage_prices.len()
        invariant
            i <= config.storage_prices@.len(),
            added == Seq::new(
                config.storage_prices@.len(),
                |i: int|
                    Step::AddStoragePrices { index: i as u32, prices: config.storage_prices@[i] },
            ),
            steps@ == old(steps)@ + added.take(i as int),
        decreases config.storage_prices@.len() - i,
    {
        steps.push(
            Step::AddStoragePrices {
                index: #[verifier::truncate] (i as u32),
                prices: config.storage_prices[i],
            },
        );
        i += 1;
        assert(steps@ =~= old(steps)@ + added.take(i as int));
    }
    steps.push(Step::Put(Param::StoragePrices));
    steps.push(Step::Put(Param::MasterchainGas(make_gas_prices(&config.gas_prices.masterchain))));
    steps.push(Step::Put(Param::BasechainGas(make_gas_prices(&config.gas_prices.basechain))));
    assert(steps@ =~= old(steps)@ + price_steps(*config));
}

fn push_block_limits(steps: &mut Vec<Step>, limits: &BlockLimitsEntry, param: Param)
    ensures
        final(steps)@ == old(steps)@ + block_limit_steps(*limits, param),
{
    steps.push(Step::AddBlockLimit(limits.bytes));
    steps.push(Step::AddBlockLimit(limits.gas));
    steps.push(Step::AddBlockLimit(limits.lt_delta));
    steps.push(Step::Put(param));
    assert(steps@ =~= old(steps)@ + block_limit_steps(*limits, param));
}

fn push_limits(steps: &mut Vec<Step>, config: &NetworkConfig)
    ensures
        final(steps)@ == old(steps)@ + limit_steps(*config),
{
    push_block_limits(steps, &config.block_limits.masterchain, Param::MasterchainBlockLimits);
    push_block_limits(steps, &config.block_limits.basechain, Param::BasechainBlockLimits);
    steps.push(
        Step::Put(Param::MasterchainForwardPrices(config.msg_forward_prices.masterchain)),
    );
    steps.push(Step::Put(Param::BasechainForwardPrices(config.msg_forward_prices.basechain)));
    steps.push(Step::Put(Param::Catchain(config.catchain_params)));
    steps.push(Step::Put(Param::Consensus(config.consensus_params)));
    assert(steps@ =~= old(steps)@ + limit_steps(*config));
}

fn push_fundamental(steps: &mut Vec<Step>, config: &NetworkConfig)
    ensures
        final(steps)@ == old(steps)@ + fundamental_steps(*config),
{
    let ghost added = config.fundamental_addresses@.map_values(
        |address: Address| Step::AddFundamentalAddress(address),
    );
    let mut i: usize = 0;
    while i < config.fundamental_addresses.len()
        invariant
            i <= config.fundamental_addresses@.len(),
            added == config.fundamental_addresses@.map_values(
                |address: Address| Step::AddFundamentalAddress(address),
            ),
            steps@ == old(steps)@ + added.take(i as int),
        decreases config.fundamental_addresses@.len() - i,
    {
        steps.push(Step::AddFundamentalAddress(config.fundamental_addresses[i]));
        i += 1;
        assert(steps@ =~= old(steps)@ + added.take(i as int));
    }
    steps.push(Step::Put(Param::FundamentalAddresses));
    assert(steps@ =~= old(steps)@ + fundamental_steps(*config));
}

fn push_validators(steps: &mut Vec<Step>, set: &ValidatorSet)
    ensures
        final(steps)@ == old(steps)@ + validator_steps(*set),
{
    let ghost added = set.validators@.map_values(
        |validator: Validator|
            Step::AddValidator { public_key: validator.public_key, weight: validator.weight },
    );
    let mut i: usize = 0;
    while i < set.validators.len()
        invariant
            i <= set.validators@.len(),
            added == set.validators@.map_values(
                |validator: Validator|
                    Step::AddValidator {
                        public_key: validator.public_key,
                        weight: validator.weight,
                    },
            ),
            steps@ == old(steps)@ + added.take(i as int),
        decreases set.validators@.len() - i,
    {
        let validator = set.validators[i];
        steps.push(
            Step::AddValidator { public_key: validator.public_key, weight: validator.weight },
        );
        i += 1;
        assert(steps@ =~= old(steps)@ + added.take(i as int));
    }
    steps.push(
        Step::MakeValidatorSet {
            utime_since: set.utime_since,
            utime_until: set.utime_until,
            main: set.main,
        },
    );
    steps.push(Step::Put(Param::CurrentValidators));
    assert(steps@ =~= old(steps)@ + validator_steps(*set));
}

fn push_closing(steps: &mut Vec<Step>)
    ensures
        final(steps)@ == old(steps)@ + closing_steps(),
{
    steps.push(
        Step::SetValidatorInfo {
            validator_list_hash_short: 0,
            catchain_seqno: 0,
            nx_cc_updated: true,
        },
    );
    steps.push(Step::SetGlobalBalance);
    steps.push(Step::SetAfterKeyBlock(true));
    steps.push(Step::WriteExtra);
    assert(steps@ =~= old(steps)@ + closing_steps());
}

/// Lists the writes that make the masterchain state, once its accounts are in it.
pub fn plan_state(data: &ZerostateConfig) -> (steps: Vec<Step>)
    ensures
        steps@ == state_steps(*data),
{
    let mut steps: Vec<Step> = Vec::new();
    push_opening(&mut steps, data);
    push_currencies(&mut steps, &data.config);
    push_param_lists(&mut steps, &data.config);
    push_voting(&mut steps, &data.config.voting_setup);
    push_workchains(&mut steps, &data.config);
    push_prices(&mut steps, &data.config);
    push_limits(&mut steps, &data.config);
    push_fundamental(&mut steps, &data.config);
    push_validators(&mut steps, &data.config.validator_set);
    push_closing(&mut steps);
    reveal(state_steps);
    assert(Seq::<Step>::empty() + opening_steps(*data) =~= opening_steps(*data));
    steps
}

/// The numbers of the parameters that steps put into the configuration, in order.
pub open spec fn put_numbers(steps: Seq<Step>) -> Seq<u32> {
    gather::gathered(steps, put_number())
}

/// The number of the parameter that a step puts, if it puts any.
pub open spec fn put_number() -> spec_fn(Step) -> Option<u32> {
    |step: Step|
        match step {
            Step::Put(param) => Some(steps::param_number(param)),
            _ => None,
        }
}

/// The parameters of a zerostate, with or without a voting setup.
pub open spec fn zerostate_params(with_voting: bool) -> Seq<u32> {
    seq![0u32, 1, 2, 7, 8, 9, 10] + (if with_voting {
        seq![11u32]
    } else {
        seq![]
    }) + seq![12u32, 14, 15, 16, 17, 18, 20, 21, 22, 23, 24, 25, 28, 29, 31, 34]
}

proof fn lemma_workchains_put_nothing(workchains: Seq<Workchain>)
    ensures
        put_numbers(all_workchain_steps(workchains)) == Seq::<u32>::empty(),
    decreases workchains.len(),
{
    if workchains.len() > 0 {
        lemma_workchains_put_nothing(workchains.drop_last());
        gather::lemma_gathered_none(workchain_steps(workchains.last()), put_number());
        gather::lemma_gathered_add(
            all_workchain_steps(workchains.drop_last()),
            workchain_steps(workchains.last()), put_number());
    }
    assert(put_numbers(all_workchain_steps(workchains)) =~= Seq::<u32>::empty());
}

proof fn lemma_currency_puts(config: NetworkConfig)
    ensures
        put_numbers(currency_steps(config)) == seq![7u32, 8],
{
    let added = config.currencies@.map_values(|currency: Currency| Step::AddCurrency(currency));
    let rest = seq![
        Step::Put(Param::ToMint),
        Step::Put(
            Param::GlobalVersion {
                version: config.global_version,
                capabilities: config.global_capabilities,
            },
        ),
    ];
    assert(put_numbers(rest) =~= seq![7u32, 8]) by {
        gather::lemma_gathered_all(rest, put_number());
    }
    gather::lemma_gathered_none(added, put_number());
    gather::lemma_gathered_add(added, rest, put_number());
    assert(put_numbers(currency_steps(config)) =~= seq![7u32, 8]);
}

proof fn lemma_param_list_puts(config: NetworkConfig)
    ensures
        put_numbers(param_list_steps(config)) == seq![9u32, 10],
{
    let mandatory = config.mandatory_params@.map_values(|param: u32| Step::AddMandatoryParam(param));
    let critical = config.critical_params@.map_values(|param: u32| Step::AddCriticalParam(param));
    let first = seq![Step::Put(Param::MandatoryParams)];
    let second = seq![Step::Put(Param::CriticalParams)];
    assert(put_numbers(first) =~= seq![9u32]) by {
        gather::lemma_gathered_all(first, put_number());
    }
    assert(put_numbers(second) =~= seq![10u32]) by {
        gather::lemma_gathered_all(second, put_number());
    }
    gather::lemma_gathered_none(mandatory, put_number());
    gather::lemma_gathered_none(critical, put_number());
    gather::lemma_gathered_add(mandatory, first, put_number());
    gather::lemma_gathered_add(mandatory + first, critical, put_number());
    gather::lemma_gathered_add(mandatory + first + critical, second, put_number());
    assert(put_numbers(param_list_steps(config)) =~= seq![9u32, 10]);
}

proof fn lemma_voting_puts(setup: Option<VotingSetup>)
    ensures
        put_numbers(voting_steps(setup)) == (if setup is Some {
            seq![11u32]
        } else {
            seq![]
        }),
{
    assert(put_numbers(voting_steps(setup)) =~= if setup is Some {
        seq![11u32]
    } else {
        seq![]
    }) by {
        if setup is Some {
            gather::lemma_gathered_one(voting_steps(setup), 1, put_number());
        }
    }
}

proof fn lemma_workchain_puts(config: NetworkConfig)
    ensures
        put_numbers(workchain_section(config)) == seq![12u32, 14, 15, 16, 17],
{
    let rest = seq![
        Step::Put(Param::Workchains),
        Step::Put(Param::BlockCreateFees(config.block_creation_fees)),
        Step::Put(Param::Elections(config.elector_params)),
        Step::Put(Param::ValidatorCount(config.validator_count)),
        Step::Put(Param::Stakes(config.stake_params)),
    ];
    assert(put_numbers(rest) =~= seq![12u32, 14, 15, 16, 17]) by {
        gather::lemma_gathered_all(rest, put_number());
    }
    lemma_workchains_put_nothing(config.workchains@);
    gather::lemma_gathered_add(all_workchain_steps(config.workchains@), rest, put_number());
    assert(put_numbers(workchain_section(config)) =~= seq![12u32, 14, 15, 16, 17]);
}

proof fn lemma_price_puts(config: NetworkConfig)
    ensures
        put_numbers(price_steps(config)) == seq![18u32, 20, 21],
{
    let added = Seq::new(
        config.storage_prices@.len(),
        |i: int| Step::AddStoragePrices { index: i as u32, prices: config.storage_prices@[i] },
    );
    let rest = seq![
        Step::Put(Param::StoragePrices),
        Step::Put(Param::MasterchainGas(gas_limits_prices(config.gas_prices.masterchain))),
        Step::Put(Param::BasechainGas(gas_limits_prices(config.gas_prices.basechain))),
    ];
    assert(put_numbers(rest) =~= seq![18u32, 20, 21]) by {
        gather::lemma_gathered_all(rest, put_number());
    }
    gather::lemma_gathered_none(added, put_number());
    gather::lemma_gathered_add(added, rest, put_number());
    assert(put_numbers(price_steps(config)) =~= seq![18u32, 20, 21]);
}

proof fn lemma_limit_puts(config: NetworkConfig)
    ensures
        put_numbers(limit_steps(config)) == seq![22u32, 23, 24, 25, 28, 29],
{
    let first = block_limit_steps(config.block_limits.masterchain, Param::MasterchainBlockLimits);
    let second = block_limit_steps(config.block_limits.basechain, Param::BasechainBlockLimits);
    let rest = seq![
        Step::Put(Param::MasterchainForwardPrices(config.msg_forward_prices.masterchain)),
        Step::Put(Param::BasechainForwardPrices(config.msg_forward_prices.basechain)),
        Step::Put(Param::Catchain(config.catchain_params)),
        Step::Put(Param::Consensus(config.consensus_params)),
    ];
    assert(put_numbers(first) =~= seq![22u32]) by {
        gather::lemma_gathered_one(first, 3, put_number());
    }
    assert(put_numbers(second) =~= seq![23u32]) by {
        gather::lemma_gathered_one(second, 3, put_number());
    }
    assert(put_numbers(rest) =~= seq![24u32, 25, 28, 29]) by {
        gather::lemma_gathered_all(rest, put_number());
    }
    gather::lemma_gathered_add(first, second, put_number());
    gather::lemma_gathered_add(first + second, rest, put_number());
    assert(put_numbers(limit_steps(config)) =~= seq![22u32, 23, 24, 25, 28, 29]);
}

proof fn lemma_fundamental_puts(config: NetworkConfig)
    ensures
        put_numbers(fundamental_steps(config)) == seq![31u32],
{
    let added = config.fundamental_addresses@.map_values(
        |address: Address| Step::AddFundamentalAddress(address),
    );
    let rest = seq![Step::Put(Param::FundamentalAddresses)];
    assert(put_numbers(rest) =~= seq![31u32]) by {
        gather::lemma_gathered_all(rest, put_number());
    }
    gather::lemma_gathered_none(added, put_number());
    gather::lemma_gathered_add(added, rest, put_number());
    assert(put_numbers(fundamental_steps(config)) =~= seq![31u32]);
}

proof fn lemma_validator_puts(set: ValidatorSet)
    ensures
        put_numbers(validator_steps(set)) == seq![34u32],
{
    let added = set.validators@.map_values(
        |validator: Validator|
            Step::AddValidator { public_key: validator.public_key, weight: validator.weight },
    );
    let rest = seq![
        Step::MakeValidatorSet {
            utime_since: set.utime_since,
            utime_until: set.utime_until,
            main: set.main,
        },
        Step::Put(Param::CurrentValidators),
    ];
    assert(put_numbers(rest) =~= seq![34u32]) by {
        gather::lemma_gathered_one(rest, 1, put_number());
    }
    gather::lemma_gathered_none(added, put_number());
    gather::lemma_gathered_add(added, rest, put_number());
    assert(put_numbers(validator_steps(set)) =~= seq![34u32]);
}

proof fn lemma_opening_puts(data: ZerostateConfig)
    ensures
        put_numbers(opening_steps(data)) == seq![0u32, 1, 2],
{
    let opening = opening_steps(data);
    assert(opening =~= opening.take(5) + opening.skip(5));
    gather::lemma_gathered_none(opening.take(5), put_number());
    gather::lemma_gathered_all(opening.skip(5), put_number());
    gather::lemma_gathered_add(opening.take(5), opening.skip(5), put_number());
    assert(put_numbers(opening) =~= seq![0u32, 1, 2]);
}

/// The parameters that five lists of steps in a row put.
proof fn lemma_five_lists_put(
    a: Seq<Step>,
    b: Seq<Step>,
    c: Seq<Step>,
    d: Seq<Step>,
    e: Seq<Step>,
)
    ensures
        put_numbers(a + b + c + d + e) == put_numbers(a) + put_numbers(b) + put_numbers(c)
            + put_numbers(d) + put_numbers(e),
{
    gather::lemma_gathered_add(a, b, put_number());
    gather::lemma_gathered_add(a + b, c, put_number());
    gather::lemma_gathered_add(a + b + c, d, put_number());
    gather::lemma_gathered_add(a + b + c + d, e, put_number());
}

/// The plan up to the workchains.
spec fn first_half(data: ZerostateConfig) -> Seq<Step> {
    let config = data.config;
    opening_steps(data) + currency_steps(config) + param_list_steps(config) + voting_steps(
        config.voting_setup,
    ) + workchain_section(config)
}

proof fn lemma_first_half_puts(data: ZerostateConfig)
    ensures
        put_numbers(first_half(data)) == seq![0u32, 1, 2, 7, 8, 9, 10] + (
        if data.config.voting_setup is Some {
            seq![11u32]
        } else {
            seq![]
        }) + seq![12u32, 14, 15, 16, 17],
{
    let config = data.config;
    lemma_opening_puts(data);
    lemma_currency_puts(config);
    lemma_param_list_puts(config);
    lemma_voting_puts(config.voting_setup);
    lemma_workchain_puts(config);
    lemma_five_lists_put(
        opening_steps(data),
        currency_steps(config),
        param_list_steps(config),
        voting_steps(config.voting_setup),
        workchain_section(config),
    );
    assert(seq![0u32, 1, 2] + seq![7u32, 8] + seq![9u32, 10] =~= seq![0u32, 1, 2, 7, 8, 9, 10]);
}

/// The plan from the prices on.
spec fn second_half(config: NetworkConfig) -> Seq<Step> {
    price_steps(config) + limit_steps(config) + fundamental_steps(config) + validator_steps(
        config.validator_set,
    ) + closing_steps()
}

proof fn lemma_second_half_puts(config: NetworkConfig)
    ensures
        put_numbers(second_half(config)) == seq![
            18u32,
            20,
            21,
            22,
            23,
            24,
            25,
            28,
            29,
            31,
            34,
        ],
{
    lemma_price_puts(config);
    lemma_limit_puts(config);
    lemma_fundamental_puts(config);
    lemma_validator_puts(config.validator_set);
    gather::lemma_gathered_none(closing_steps(), put_number());
    lemma_five_lists_put(
        price_steps(config),
        limit_steps(config),
        fundamental_steps(config),
        validator_steps(config.validator_set),
        closing_steps(),
    );
    assert(seq![18u32, 20, 21] + seq![22u32, 23, 24, 25, 28, 29] + seq![31u32] + seq![34u32]
        + Seq::<u32>::empty() =~= seq![18u32, 20, 21, 22, 23, 24, 25, 28, 29, 31, 34]);
}

proof fn lemma_halves(data: ZerostateConfig)
    ensures
        state_steps(data) == first_half(data) + second_half(data.config),
{
    reveal(state_steps);
    let config = data.config;
    lemma_regroup(
        first_half(data),
        price_steps(config),
        limit_steps(config),
        fundamental_steps(config),
        validator_steps(config.validator_set),
        closing_steps(),
    );
}

/// Putting lists in a row does not depend on how they are grouped.
proof fn lemma_regroup(
    a: Seq<Step>,
    b: Seq<Step>,
    c: Seq<Step>,
    d: Seq<Step>,
    e: Seq<Step>,
    f: Seq<Step>,
)
    ensures
        a + b + c + d + e + f == a + (b + c + d + e + f),
{
    assert(a + b + c + d + e + f =~= a + (b + c + d + e + f));
}

/// Whatever the description says, the plan puts the same parameters in the same order; only the
/// voting setup depends on whether there is one.
pub proof fn law_params_put(data: ZerostateConfig)
    ensures
        put_numbers(state_steps(data)) == zerostate_params(data.config.voting_setup is Some),
{
    lemma_halves(data);
    lemma_first_half_puts(data);
    lemma_second_half_puts(data.config);
    gather::lemma_gathered_add(first_half(data), second_half(data.config), put_number());
    assert(put_numbers(state_steps(data)) =~= zerostate_params(data.config.voting_setup is Some));
}

/// No parameter is put twice: their numbers rise.
pub proof fn law_params_put_once(data: ZerostateConfig)
    ensures
        forall|i: int, j: int|
            0 <= i < j < put_numbers(state_steps(data)).len() ==> put_numbers(state_steps(data))[i]
                < put_numbers(state_steps(data))[j],
{
    law_params_put(data);
}

} // verus!
