//! The plan read back: what its writes leave in the masterchain state, against what is described.
use vstd::prelude::*;

use crate::config::{
    Address, BlockLimitsParam, ConfigVotingParams, Currency, GasPricesEntry, StoragePricesEntry,
    Validator, Workchain, ZerostateConfig,
};
use crate::gather;
use crate::plan;
use crate::steps::{Param, Step};

verus! {

/// For every step that puts something, all that the steps before it have collected, on top of what
/// was there.
pub open spec fn collected<B>(
    there: Seq<B>,
    steps: Seq<Step>,
    item: spec_fn(Step) -> Option<B>,
    put: spec_fn(Step) -> bool,
) -> Seq<Seq<B>>
    decreases steps.len(),
{
    if steps.len() == 0 {
        seq![]
    } else {
        let rest = steps.drop_last();
        if put(steps.last()) {
            collected(there, rest, item, put).push(there + gather::gathered(rest, item))
        } else {
            collected(there, rest, item, put)
        }
    }
}

proof fn lemma_collected_add<B>(
    there: Seq<B>,
    left: Seq<Step>,
    right: Seq<Step>,
    item: spec_fn(Step) -> Option<B>,
    put: spec_fn(Step) -> bool,
)
    ensures
        collected(there, left + right, item, put) == collected(there, left, item, put) + collected(
            there + gather::gathered(left, item),
            right,
            item,
            put,
        ),
    decreases right.len(),
{
    if right.len() == 0 {
        assert(left + right =~= left);
    } else {
        let rest = right.drop_last();
        assert((left + right).drop_last() =~= left + rest);
        assert((left + right).last() == right.last());
        lemma_collected_add(there, left, rest, item, put);
        gather::lemma_gathered_add(left, rest, item);
        assert(there + (gather::gathered(left, item) + gather::gathered(rest, item)) =~= there
            + gather::gathered(left, item) + gather::gathered(rest, item));
    }
    assert(collected(there, left + right, item, put) =~= collected(there, left, item, put)
        + collected(there + gather::gathered(left, item), right, item, put));
}

proof fn lemma_collected_none<B>(
    there: Seq<B>,
    steps: Seq<Step>,
    item: spec_fn(Step) -> Option<B>,
    put: spec_fn(Step) -> bool,
)
    requires
        forall|i: int| 0 <= i < steps.len() ==> !put(#[trigger] steps[i]),
    ensures
        collected(there, steps, item, put) == Seq::<Seq<B>>::empty(),
    decreases steps.len(),
{
    if steps.len() > 0 {
        lemma_collected_none(there, steps.drop_last(), item, put);
    }
}

/// Steps that collect, one that puts, and steps that do neither.
proof fn lemma_collected_once<B>(
    before: Seq<Step>,
    step: Step,
    after: Seq<Step>,
    item: spec_fn(Step) -> Option<B>,
    put: spec_fn(Step) -> bool,
)
    requires
        forall|i: int| 0 <= i < before.len() ==> !put(#[trigger] before[i]),
        put(step),
        forall|i: int| 0 <= i < after.len() ==> !put(#[trigger] after[i]),
    ensures
        collected(seq![], before + seq![step] + after, item, put) == seq![
            gather::gathered(before, item),
        ],
{
    let none = Seq::<B>::empty();
    let first = before.push(step);
    assert(before + seq![step] =~= first);
    assert(first.drop_last() =~= before);
    lemma_collected_none(none, before, item, put);
    assert(none + gather::gathered(before, item) =~= gather::gathered(before, item));
    lemma_collected_add(none, first, after, item, put);
    lemma_collected_none(none + gather::gathered(first, item), after, item, put);
    assert(collected(none, first + after, item, put) =~= seq![gather::gathered(before, item)]);
}

/// Steps each of which adds one item.
proof fn lemma_gathered_each<B>(
    items: Seq<B>,
    steps: Seq<Step>,
    item: spec_fn(Step) -> Option<B>,
)
    requires
        items.len() == steps.len(),
        forall|i: int| 0 <= i < steps.len() ==> item(#[trigger] steps[i]) == Some(items[i]),
    ensures
        gather::gathered(steps, item) == items,
{
    gather::lemma_gathered_all(steps, item);
    assert(gather::gathered(steps, item) =~= items);
}

/// The part of the plan that a step belongs to.
spec fn part(step: Step) -> int {
    match step {
        Step::SetMinRefMcSeqno(_)
        | Step::SetGlobalId(_)
        | Step::SetGenTime(_)
        | Step::SetTotalBalance
        | Step::SetConfigAddress(_) => 0,
        Step::AddCurrency(_) => 1,
        Step::AddMandatoryParam(_) | Step::AddCriticalParam(_) => 2,
        Step::MakeVotingSetup { .. } => 3,
        Step::StartWorkchain { .. }
        | Step::SetMinSplit(_)
        | Step::SetMaxSplit(_)
        | Step::AddWorkchain { .. } => 4,
        Step::AddStoragePrices { .. } => 5,
        Step::AddBlockLimit(_) => 6,
        Step::AddFundamentalAddress(_) => 7,
        Step::AddValidator { .. } | Step::MakeValidatorSet { .. } => 8,
        Step::Put(param) => match param {
            Param::ConfigAddress(_) | Param::ElectorAddress(_) | Param::MinterAddress(_) => 0,
            Param::ToMint | Param::GlobalVersion { .. } => 1,
            Param::MandatoryParams | Param::CriticalParams => 2,
            Param::VotingSetup => 3,
            Param::Workchains
            | Param::BlockCreateFees(_)
            | Param::Elections(_)
            | Param::ValidatorCount(_)
            | Param::Stakes(_) => 4,
            Param::StoragePrices | Param::MasterchainGas(_) | Param::BasechainGas(_) => 5,
            Param::MasterchainBlockLimits
            | Param::BasechainBlockLimits
            | Param::MasterchainForwardPrices(_)
            | Param::BasechainForwardPrices(_)
            | Param::Catchain(_)
            | Param::Consensus(_) => 6,
            Param::FundamentalAddresses => 7,
            Param::CurrentValidators => 8,
        },
        _ => 9,
    }
}

/// The plan's parts.
spec fn section(data: ZerostateConfig, k: int) -> Seq<Step> {
    let config = data.config;
    if k == 0 {
        plan::opening_steps(data)
    } else if k == 1 {
        plan::currency_steps(config)
    } else if k == 2 {
        plan::param_list_steps(config)
    } else if k == 3 {
        plan::voting_steps(config.voting_setup)
    } else if k == 4 {
        plan::workchain_section(config)
    } else if k == 5 {
        plan::price_steps(config)
    } else if k == 6 {
        plan::limit_steps(config)
    } else if k == 7 {
        plan::fundamental_steps(config)
    } else if k == 8 {
        plan::validator_steps(config.validator_set)
    } else {
        plan::closing_steps()
    }
}

/// All steps belong to one part.
spec fn all_in(steps: Seq<Step>, k: int) -> bool {
    forall|i: int| 0 <= i < steps.len() ==> part(#[trigger] steps[i]) == k
}

proof fn lemma_workchains_in(workchains: Seq<Workchain>)
    ensures
        all_in(plan::all_workchain_steps(workchains), 4),
    decreases workchains.len(),
{
    if workchains.len() > 0 {
        lemma_workchains_in(workchains.drop_last());
    }
}

proof fn lemma_section_in(data: ZerostateConfig, k: int)
    requires
        0 <= k < 10,
    ensures
        all_in(section(data, k), k),
{
    if k == 4 {
        lemma_workchains_in(data.config.workchains@);
    }
}

/// The plan from one part up to another.
#[verifier::opaque]
spec fn parts(data: ZerostateConfig, from: int, to: int) -> Seq<Step>
    decreases to - from,
{
    if to <= from {
        seq![]
    } else {
        parts(data, from, to - 1) + section(data, to - 1)
    }
}

proof fn lemma_parts_split(data: ZerostateConfig, from: int, mid: int, to: int)
    requires
        from <= mid <= to,
    ensures
        parts(data, from, to) == parts(data, from, mid) + parts(data, mid, to),
    decreases to - mid,
{
    reveal_with_fuel(parts, 1);
    if mid < to {
        lemma_parts_split(data, from, mid, to - 1);
    }
    assert(parts(data, from, to) =~= parts(data, from, mid) + parts(data, mid, to));
}

proof fn lemma_parts_in(data: ZerostateConfig, from: int, to: int)
    requires
        0 <= from <= to <= 10,
    ensures
        forall|i: int|
            0 <= i < parts(data, from, to).len() ==> from <= part(#[trigger] parts(data, from, to)[i])
                < to,
    decreases to - from,
{
    reveal_with_fuel(parts, 1);
    if from < to {
        lemma_parts_in(data, from, to - 1);
        lemma_section_in(data, to - 1);
        let rest = parts(data, from, to - 1);
        let last = section(data, to - 1);
        assert forall|i: int| 0 <= i < parts(data, from, to).len() implies from <= part(
            #[trigger] parts(data, from, to)[i],
        ) < to by {
            if i < rest.len() {
                assert(parts(data, from, to)[i] == rest[i]);
            } else {
                assert(parts(data, from, to)[i] == last[i - rest.len()]);
            }
        }
    }
}

proof fn lemma_parts_push(data: ZerostateConfig, k: int)
    requires
        0 <= k,
    ensures
        parts(data, 0, k + 1) == parts(data, 0, k) + section(data, k),
{
    reveal_with_fuel(parts, 1);
}

proof fn lemma_all_parts(data: ZerostateConfig)
    ensures
        parts(data, 0, 10) == plan::state_steps(data),
{
    reveal(plan::state_steps);
    assert(parts(data, 0, 0) == Seq::<Step>::empty()) by {
        reveal_with_fuel(parts, 1);
    }
    lemma_parts_push(data, 0);
    lemma_parts_push(data, 1);
    lemma_parts_push(data, 2);
    lemma_parts_push(data, 3);
    lemma_parts_push(data, 4);
    lemma_parts_push(data, 5);
    lemma_parts_push(data, 6);
    lemma_parts_push(data, 7);
    lemma_parts_push(data, 8);
    lemma_parts_push(data, 9);
    assert(Seq::<Step>::empty() + section(data, 0) =~= section(data, 0));
}

/// The plan is what comes before a part, the part, and what comes after it.
proof fn lemma_around(data: ZerostateConfig, k: int)
    requires
        0 <= k < 10,
    ensures
        plan::state_steps(data) == parts(data, 0, k) + section(data, k) + parts(data, k + 1, 10),
        forall|i: int|
            0 <= i < parts(data, 0, k).len() ==> part(#[trigger] parts(data, 0, k)[i]) < k,
        forall|i: int|
            0 <= i < parts(data, k + 1, 10).len() ==> part(#[trigger] parts(data, k + 1, 10)[i])
                > k,
{
    lemma_all_parts(data);
    lemma_parts_split(data, 0, k + 1, 10);
    lemma_parts_push(data, k);
    lemma_parts_in(data, 0, k);
    lemma_parts_in(data, k + 1, 10);
}

/// What can only be picked from one part is picked from there.
proof fn lemma_confined<B>(data: ZerostateConfig, k: int, pick: spec_fn(Step) -> Option<B>)
    requires
        0 <= k < 10,
        forall|step: Step| (#[trigger] pick(step)) is Some ==> part(step) == k,
    ensures
        gather::gathered(plan::state_steps(data), pick) == gather::gathered(section(data, k), pick),
{
    let before = parts(data, 0, k);
    let here = section(data, k);
    let after = parts(data, k + 1, 10);
    lemma_around(data, k);
    gather::lemma_gathered_none(before, pick);
    gather::lemma_gathered_none(after, pick);
    gather::lemma_gathered_add(before, here, pick);
    gather::lemma_gathered_add(before + here, after, pick);
    assert(gather::gathered(plan::state_steps(data), pick) =~= gather::gathered(here, pick));
}

/// What is only added and put in one part is collected there.
proof fn lemma_collected_in<B>(
    data: ZerostateConfig,
    k: int,
    item: spec_fn(Step) -> Option<B>,
    put: spec_fn(Step) -> bool,
)
    requires
        0 <= k < 10,
        forall|step: Step| (#[trigger] item(step)) is Some ==> part(step) == k,
        forall|step: Step| #[trigger] put(step) ==> part(step) == k,
    ensures
        collected(seq![], plan::state_steps(data), item, put) == collected(
            seq![],
            section(data, k),
            item,
            put,
        ),
{
    let none = Seq::<B>::empty();
    let before = parts(data, 0, k);
    let here = section(data, k);
    let after = parts(data, k + 1, 10);
    lemma_around(data, k);
    gather::lemma_gathered_none(before, item);
    lemma_collected_none(none, before, item, put);
    lemma_collected_add(none, before, here, item, put);
    lemma_collected_add(none, before + here, after, item, put);
    lemma_collected_none(none + gather::gathered(before + here, item), after, item, put);
    assert(none + none =~= none);
    assert(collected(none, plan::state_steps(data), item, put) =~= collected(none, here, item, put));
}

/// Whether a step puts this parameter.
pub open spec fn puts(param: Param) -> spec_fn(Step) -> bool {
    |step: Step| step == Step::Put(param)
}

/// The three addresses that the parameters name are those that the description gives the
/// configuration, the elector and the minter.
pub proof fn law_addresses_put(data: ZerostateConfig)
    ensures
        gather::gathered(plan::state_steps(data), address_put()) == seq![
            (0u32, data.config.config_address),
            (1u32, data.config.elector_address),
            (2u32, data.config.minter_address),
        ],
{
    lemma_confined(data, 0, address_put());
    let steps = plan::opening_steps(data);
    assert(steps =~= steps.take(5) + steps.skip(5));
    gather::lemma_gathered_none(steps.take(5), address_put());
    gather::lemma_gathered_all(steps.skip(5), address_put());
    gather::lemma_gathered_add(steps.take(5), steps.skip(5), address_put());
    assert(gather::gathered(steps, address_put()) =~= seq![
        (0u32, data.config.config_address),
        (1u32, data.config.elector_address),
        (2u32, data.config.minter_address),
    ]);
}

/// The address that a step puts as a parameter, with the parameter's number, if it puts any.
pub open spec fn address_put() -> spec_fn(Step) -> Option<(u32, Address)> {
    |step: Step|
        match step {
            Step::Put(Param::ConfigAddress(address)) => Some((0u32, address)),
            Step::Put(Param::ElectorAddress(address)) => Some((1u32, address)),
            Step::Put(Param::MinterAddress(address)) => Some((2u32, address)),
            _ => None,
        }
}

/// A step that writes a field of the state itself or of the masterchain's own part.
pub open spec fn own_field() -> spec_fn(Step) -> Option<Step> {
    |step: Step|
        match step {
            Step::SetMinRefMcSeqno(_)
            | Step::SetGlobalId(_)
            | Step::SetGenTime(_)
            | Step::SetTotalBalance
            | Step::SetConfigAddress(_)
            | Step::SetValidatorInfo { .. }
            | Step::SetGlobalBalance
            | Step::SetAfterKeyBlock(_)
            | Step::WriteExtra => Some(step),
            _ => None,
        }
}

/// The state's own fields hold the network and the time that are described and the account that
/// keeps the parameters; the state refers to no block, the validators' list is not yet known, and
/// the masterchain's own part goes in once, as the very last.
pub proof fn law_own_fields(data: ZerostateConfig)
    ensures
        gather::gathered(plan::state_steps(data), own_field()) == seq![
            Step::SetMinRefMcSeqno(0xffff_ffff),
            Step::SetGlobalId(data.global_id),
            Step::SetGenTime(data.gen_utime),
            Step::SetTotalBalance,
            Step::SetConfigAddress(data.config.config_address),
            Step::SetValidatorInfo {
                validator_list_hash_short: 0,
                catchain_seqno: 0,
                nx_cc_updated: true,
            },
            Step::SetGlobalBalance,
            Step::SetAfterKeyBlock(true),
            Step::WriteExtra,
        ],
        plan::state_steps(data).len() > 0,
        plan::state_steps(data).last() == Step::WriteExtra,
{
    let first = section(data, 0);
    let mid = parts(data, 1, 9);
    let last = section(data, 9);
    lemma_all_parts(data);
    lemma_parts_split(data, 0, 1, 9);
    lemma_parts_push(data, 0);
    lemma_parts_push(data, 9);
    lemma_parts_in(data, 1, 9);
    assert(parts(data, 0, 0) == Seq::<Step>::empty()) by {
        reveal_with_fuel(parts, 1);
    }
    assert(Seq::<Step>::empty() + first =~= first);
    assert(plan::state_steps(data) == first + mid + last);
    gather::lemma_gathered_none(mid, own_field());
    gather::lemma_gathered_add(first, mid, own_field());
    gather::lemma_gathered_add(first + mid, last, own_field());
    assert(first =~= first.take(5) + first.skip(5));
    gather::lemma_gathered_all(first.take(5), own_field());
    gather::lemma_gathered_none(first.skip(5), own_field());
    gather::lemma_gathered_add(first.take(5), first.skip(5), own_field());
    gather::lemma_gathered_all(last, own_field());
    assert(gather::gathered(plan::state_steps(data), own_field()) =~= seq![
        Step::SetMinRefMcSeqno(0xffff_ffff),
        Step::SetGlobalId(data.global_id),
        Step::SetGenTime(data.gen_utime),
        Step::SetTotalBalance,
        Step::SetConfigAddress(data.config.config_address),
        Step::SetValidatorInfo {
            validator_list_hash_short: 0,
            catchain_seqno: 0,
            nx_cc_updated: true,
        },
        Step::SetGlobalBalance,
        Step::SetAfterKeyBlock(true),
        Step::WriteExtra,
    ]);
    assert((first + mid + last).last() == last.last());
}

/// A currency that a step adds, if it adds any.
pub open spec fn currency_added() -> spec_fn(Step) -> Option<Currency> {
    |step: Step|
        match step {
            Step::AddCurrency(currency) => Some(currency),
            _ => None,
        }
}

/// The currencies to mint are put once, and are exactly those described.
pub proof fn law_currencies_put(data: ZerostateConfig)
    ensures
        collected(seq![], plan::state_steps(data), currency_added(), puts(Param::ToMint)) == seq![
            data.config.currencies@,
        ],
        gather::gathered(plan::state_steps(data), currency_added()) == data.config.currencies@,
{
    let steps = section(data, 1);
    let n = data.config.currencies@.len() as int;
    let items = data.config.currencies@;
    lemma_collected_in(data, 1, currency_added(), puts(Param::ToMint));
    lemma_confined(data, 1, currency_added());
    assert(steps =~= steps.take(n) + seq![steps[n]] + steps.skip(n + 1));
    lemma_gathered_each(items, steps.take(n), currency_added());
    lemma_collected_once(
        steps.take(n),
        steps[n],
        steps.skip(n + 1),
        currency_added(),
        puts(Param::ToMint),
    );
    assert(steps =~= steps.take(n) + steps.skip(n));
    gather::lemma_gathered_none(steps.skip(n), currency_added());
    gather::lemma_gathered_add(steps.take(n), steps.skip(n), currency_added());
    assert(gather::gathered(steps, currency_added()) =~= items);
}

/// A mandatory parameter that a step adds, if it adds any.
pub open spec fn mandatory_added() -> spec_fn(Step) -> Option<u32> {
    |step: Step|
        match step {
            Step::AddMandatoryParam(param) => Some(param),
            _ => None,
        }
}

/// A critical parameter that a step adds, if it adds any.
pub open spec fn critical_added() -> spec_fn(Step) -> Option<u32> {
    |step: Step|
        match step {
            Step::AddCriticalParam(param) => Some(param),
            _ => None,
        }
}

/// The mandatory and the critical parameters are put once each, and are exactly those described.
pub proof fn law_param_lists_put(data: ZerostateConfig)
    ensures
        collected(
            seq![],
            plan::state_steps(data),
            mandatory_added(),
            puts(Param::MandatoryParams),
        ) == seq![data.config.mandatory_params@],
        collected(
            seq![],
            plan::state_steps(data),
            critical_added(),
            puts(Param::CriticalParams),
        ) == seq![data.config.critical_params@],
{
    lemma_collected_in(data, 2, mandatory_added(), puts(Param::MandatoryParams));
    lemma_collected_in(data, 2, critical_added(), puts(Param::CriticalParams));
    lemma_mandatory_collected(data);
    lemma_critical_collected(data);
}

proof fn lemma_mandatory_collected(data: ZerostateConfig)
    ensures
        collected(seq![], section(data, 2), mandatory_added(), puts(Param::MandatoryParams))
            == seq![data.config.mandatory_params@],
{
    let steps = section(data, 2);
    let items = data.config.mandatory_params@;
    let n = items.len() as int;
    assert(steps =~= steps.take(n) + seq![steps[n]] + steps.skip(n + 1));
    lemma_gathered_each(items, steps.take(n), mandatory_added());
    lemma_collected_once(
        steps.take(n),
        steps[n],
        steps.skip(n + 1),
        mandatory_added(),
        puts(Param::MandatoryParams),
    );
}

proof fn lemma_critical_collected(data: ZerostateConfig)
    ensures
        collected(seq![], section(data, 2), critical_added(), puts(Param::CriticalParams)) == seq![
            data.config.critical_params@,
        ],
{
    let steps = section(data, 2);
    let items = data.config.critical_params@;
    let n = data.config.mandatory_params@.len() as int;
    let m = items.len() as int;
    let before = steps.take(n + 1 + m);
    let first = steps.take(n + 1);
    let second = steps.skip(n + 1).take(m);
    assert(steps =~= before + seq![steps[n + 1 + m]] + Seq::<Step>::empty());
    assert(before =~= first + second);
    gather::lemma_gathered_none(first, critical_added());
    lemma_gathered_each(items, second, critical_added());
    gather::lemma_gathered_add(first, second, critical_added());
    assert(gather::gathered(before, critical_added()) =~= items);
    lemma_collected_once(
        before,
        steps[n + 1 + m],
        Seq::<Step>::empty(),
        critical_added(),
        puts(Param::CriticalParams),
    );
}

/// The voting rules that a step makes up, if it makes any: for normal proposals, and for critical
/// ones.
pub open spec fn voting_made() -> spec_fn(
    Step,
) -> Option<(ConfigVotingParams, ConfigVotingParams)> {
    |step: Step|
        match step {
            Step::MakeVotingSetup { normal, critical } => Some((normal, critical)),
            _ => None,
        }
}

/// The voting rules are put once and as described, where any are; otherwise there are none.
pub proof fn law_voting_put(data: ZerostateConfig)
    ensures
        collected(seq![], plan::state_steps(data), voting_made(), puts(Param::VotingSetup)) == (
        match data.config.voting_setup {
            Some(setup) => seq![seq![(setup.normal_params, setup.critical_params)]],
            None => seq![],
        }),
        data.config.voting_setup is None ==> gather::gathered(
            plan::state_steps(data),
            voting_made(),
        ).len() == 0,
{
    let steps = section(data, 3);
    lemma_collected_in(data, 3, voting_made(), puts(Param::VotingSetup));
    lemma_confined(data, 3, voting_made());
    if let Some(setup) = data.config.voting_setup {
        let made = seq![(setup.normal_params, setup.critical_params)];
        let before = steps.take(1);
        assert(steps =~= before + seq![steps[1]] + Seq::<Step>::empty());
        lemma_gathered_each(made, before, voting_made());
        lemma_collected_once(
            before,
            steps[1],
            Seq::<Step>::empty(),
            voting_made(),
            puts(Param::VotingSetup),
        );
    }
}

/// A workchain's description that a step leaves, out of the one before.
pub open spec fn drafted(draft: Workchain, step: Step) -> Workchain {
    match step {
        Step::StartWorkchain { enabled_since } => Workchain {
            workchain_id: 0,
            enabled_since,
            min_split: 0,
            max_split: 0,
            flags: 0,
            active: false,
            accept_msgs: false,
            vm_version: 0,
            vm_mode: 0,
        },
        Step::SetMinSplit(min_split) => Workchain { min_split, ..draft },
        Step::SetMaxSplit(max_split) => Workchain { max_split, ..draft },
        Step::AddWorkchain { workchain_id, flags, active, accept_msgs, vm_version, vm_mode } => {
            Workchain { workchain_id, flags, active, accept_msgs, vm_version, vm_mode, ..draft }
        },
        _ => draft,
    }
}

/// The description that steps leave, out of one before them.
pub open spec fn draft_after(draft: Workchain, steps: Seq<Step>) -> Workchain
    decreases steps.len(),
{
    if steps.len() == 0 {
        draft
    } else {
        drafted(draft_after(draft, steps.drop_last()), steps.last())
    }
}

/// The workchains that steps add, each as its description stands then.
pub open spec fn workchains_added(draft: Workchain, steps: Seq<Step>) -> Seq<Workchain>
    decreases steps.len(),
{
    if steps.len() == 0 {
        seq![]
    } else {
        let rest = workchains_added(draft, steps.drop_last());
        if steps.last() is AddWorkchain {
            rest.push(draft_after(draft, steps))
        } else {
            rest
        }
    }
}

proof fn lemma_workchains_added_add(draft: Workchain, left: Seq<Step>, right: Seq<Step>)
    ensures
        draft_after(draft, left + right) == draft_after(draft_after(draft, left), right),
        workchains_added(draft, left + right) == workchains_added(draft, left)
            + workchains_added(draft_after(draft, left), right),
    decreases right.len(),
{
    if right.len() == 0 {
        assert(left + right =~= left);
    } else {
        assert((left + right).drop_last() =~= left + right.drop_last());
        assert((left + right).last() == right.last());
        lemma_workchains_added_add(draft, left, right.drop_last());
    }
    assert(workchains_added(draft, left + right) =~= workchains_added(draft, left)
        + workchains_added(draft_after(draft, left), right));
}

proof fn lemma_no_workchains_added(draft: Workchain, steps: Seq<Step>)
    requires
        forall|i: int| 0 <= i < steps.len() ==> !((#[trigger] steps[i]) is AddWorkchain),
    ensures
        workchains_added(draft, steps) == Seq::<Workchain>::empty(),
    decreases steps.len(),
{
    if steps.len() > 0 {
        lemma_no_workchains_added(draft, steps.drop_last());
    }
}

proof fn lemma_one_workchain_added(draft: Workchain, workchain: Workchain)
    ensures
        workchains_added(draft, plan::workchain_steps(workchain)) == seq![workchain],
        draft_after(draft, plan::workchain_steps(workchain)) == workchain,
{
    let s4 = plan::workchain_steps(workchain);
    let s3 = s4.drop_last();
    let s2 = s3.drop_last();
    let s1 = s2.drop_last();
    let s0 = s1.drop_last();
    assert(s0.len() == 0);
    let d1 = drafted(draft, s1.last());
    assert(draft_after(draft, s1) == d1);
    assert(draft_after(draft, s2) == drafted(d1, s2.last()));
    assert(draft_after(draft, s3) == drafted(drafted(d1, s2.last()), s3.last()));
    assert(draft_after(draft, s4) == workchain);
    lemma_no_workchains_added(draft, s3);
    assert(workchains_added(draft, s4) =~= seq![workchain]);
}

proof fn lemma_all_workchains_added(draft: Workchain, workchains: Seq<Workchain>)
    ensures
        workchains_added(draft, plan::all_workchain_steps(workchains)) == workchains,
    decreases workchains.len(),
{
    if workchains.len() > 0 {
        let rest = plan::all_workchain_steps(workchains.drop_last());
        lemma_all_workchains_added(draft, workchains.drop_last());
        lemma_workchains_added_add(draft, rest, plan::workchain_steps(workchains.last()));
        lemma_one_workchain_added(draft_after(draft, rest), workchains.last());
    }
    assert(workchains_added(draft, plan::all_workchain_steps(workchains)) =~= workchains);
}

/// A step that adds a workchain, with the workchain's number, if it adds any.
pub open spec fn workchain_id_added() -> spec_fn(Step) -> Option<i32> {
    |step: Step|
        match step {
            Step::AddWorkchain { workchain_id, .. } => Some(workchain_id),
            _ => None,
        }
}

/// The workchains read back from the plan are exactly those described, whole and in order, and they
/// are put once, when all of them are there.
pub proof fn law_workchains_put(data: ZerostateConfig, draft: Workchain)
    ensures
        workchains_added(draft, plan::state_steps(data)) == data.config.workchains@,
        collected(
            seq![],
            plan::state_steps(data),
            workchain_id_added(),
            puts(Param::Workchains),
        ) == seq![data.config.workchains@.map_values(|workchain: Workchain| workchain.workchain_id)],
{
    let before = parts(data, 0, 4);
    let here = section(data, 4);
    let after = parts(data, 5, 10);
    let adds = plan::all_workchain_steps(data.config.workchains@);
    let n = adds.len() as int;
    let rest = here.skip(n);
    lemma_around(data, 4);
    lemma_workchains_in(data.config.workchains@);
    assert(here =~= adds + rest);
    lemma_workchains_added_add(draft, before, here);
    lemma_workchains_added_add(draft, before + here, after);
    lemma_no_workchains_added(draft, before);
    lemma_no_workchains_added(draft_after(draft, before + here), after);
    let d = draft_after(draft, before);
    lemma_workchains_added_add(d, adds, rest);
    lemma_all_workchains_added(d, data.config.workchains@);
    lemma_no_workchains_added(draft_after(d, adds), rest);
    assert(workchains_added(draft, plan::state_steps(data)) =~= data.config.workchains@);
    lemma_collected_in(data, 4, workchain_id_added(), puts(Param::Workchains));
    lemma_ids_added(data.config.workchains@);
    assert(here =~= adds + seq![here[n]] + here.skip(n + 1));
    lemma_no_put_among_workchains(data.config.workchains@);
    lemma_collected_once(
        adds,
        here[n],
        here.skip(n + 1),
        workchain_id_added(),
        puts(Param::Workchains),
    );
}

proof fn lemma_ids_added(workchains: Seq<Workchain>)
    ensures
        gather::gathered(plan::all_workchain_steps(workchains), workchain_id_added())
            == workchains.map_values(|workchain: Workchain| workchain.workchain_id),
    decreases workchains.len(),
{
    if workchains.len() > 0 {
        let rest = plan::all_workchain_steps(workchains.drop_last());
        let last = plan::workchain_steps(workchains.last());
        lemma_ids_added(workchains.drop_last());
        gather::lemma_gathered_one(last, 3, workchain_id_added());
        gather::lemma_gathered_add(rest, last, workchain_id_added());
    }
    assert(gather::gathered(plan::all_workchain_steps(workchains), workchain_id_added())
        =~= workchains.map_values(|workchain: Workchain| workchain.workchain_id));
}

proof fn lemma_no_put_among_workchains(workchains: Seq<Workchain>)
    ensures
        forall|i: int|
            0 <= i < plan::all_workchain_steps(workchains).len() ==> !((
            #[trigger] plan::all_workchain_steps(workchains)[i]) is Put),
    decreases workchains.len(),
{
    if workchains.len() > 0 {
        lemma_no_put_among_workchains(workchains.drop_last());
    }
}

/// Storage prices that a step adds, with their number, if it adds any.
pub open spec fn prices_added() -> spec_fn(Step) -> Option<(u32, StoragePricesEntry)> {
    |step: Step|
        match step {
            Step::AddStoragePrices { index, prices } => Some((index, prices)),
            _ => None,
        }
}

/// The storage prices are put once; they are those described, numbered from zero.
pub proof fn law_storage_prices_put(data: ZerostateConfig)
    ensures
        ({
            let items = data.config.storage_prices@;
            let found = collected(
                seq![],
                plan::state_steps(data),
                prices_added(),
                puts(Param::StoragePrices),
            );
            &&& found.len() == 1
            &&& found[0].len() == items.len()
            &&& forall|i: int|
                0 <= i < items.len() ==> (#[trigger] found[0][i]).1 == items[i] && (i
                    < 0x1_0000_0000 ==> found[0][i].0 == i)
        }),
{
    let steps = section(data, 5);
    let n = data.config.storage_prices@.len() as int;
    let items = Seq::new(
        data.config.storage_prices@.len(),
        |i: int| (i as u32, data.config.storage_prices@[i]),
    );
    lemma_collected_in(data, 5, prices_added(), puts(Param::StoragePrices));
    assert(steps =~= steps.take(n) + seq![steps[n]] + steps.skip(n + 1));
    lemma_gathered_each(items, steps.take(n), prices_added());
    lemma_collected_once(
        steps.take(n),
        steps[n],
        steps.skip(n + 1),
        prices_added(),
        puts(Param::StoragePrices),
    );
}

/// The gas prices that are described can be read back from what the parameter keeps, which has no
/// threshold besides.
pub proof fn law_gas_prices_kept(prices: GasPricesEntry)
    ensures
        ({
            let kept = plan::gas_limits_prices(prices);
            &&& kept.max_gas_threshold == 0
            &&& prices == GasPricesEntry {
                gas_price: kept.gas_price,
                gas_limit: kept.gas_limit,
                special_gas_limit: kept.special_gas_limit,
                gas_credit: kept.gas_credit,
                block_gas_limit: kept.block_gas_limit,
                freeze_due_limit: kept.freeze_due_limit,
                delete_due_limit: kept.delete_due_limit,
                flat_gas_limit: kept.flat_gas_limit,
                flat_gas_price: kept.flat_gas_price,
            }
        }),
{
}

/// Marks for a block's measure that a step adds, if it adds any.
pub open spec fn limit_added() -> spec_fn(Step) -> Option<BlockLimitsParam> {
    |step: Step|
        match step {
            Step::AddBlockLimit(limit) => Some(limit),
            _ => None,
        }
}

/// The last three marks before the masterchain's block limits are put are those described for it, in
/// the order bytes, gas, logical time, and likewise for the basechain. Each is put once, and there
/// are no other marks.
pub proof fn law_block_limits_put(data: ZerostateConfig)
    ensures
        ({
            let limits = data.config.block_limits;
            let first = seq![
                limits.masterchain.bytes,
                limits.masterchain.gas,
                limits.masterchain.lt_delta,
            ];
            let second = seq![
                limits.basechain.bytes,
                limits.basechain.gas,
                limits.basechain.lt_delta,
            ];
            &&& collected(
                seq![],
                plan::state_steps(data),
                limit_added(),
                puts(Param::MasterchainBlockLimits),
            ) == seq![first]
            &&& collected(
                seq![],
                plan::state_steps(data),
                limit_added(),
                puts(Param::BasechainBlockLimits),
            ) == seq![first + second]
            &&& gather::gathered(plan::state_steps(data), limit_added()) == first + second
        }),
{
    let limits = data.config.block_limits;
    let first = seq![
        limits.masterchain.bytes,
        limits.masterchain.gas,
        limits.masterchain.lt_delta,
    ];
    let second = seq![limits.basechain.bytes, limits.basechain.gas, limits.basechain.lt_delta];
    let steps = section(data, 6);
    lemma_collected_in(data, 6, limit_added(), puts(Param::MasterchainBlockLimits));
    lemma_collected_in(data, 6, limit_added(), puts(Param::BasechainBlockLimits));
    lemma_confined(data, 6, limit_added());
    let a = steps.take(3);
    let b = steps.skip(4).take(3);
    let rest = steps.skip(7);
    lemma_gathered_each(first, a, limit_added());
    lemma_gathered_each(second, b, limit_added());
    assert(steps =~= a + seq![steps[3]] + steps.skip(4));
    lemma_collected_once(
        a,
        steps[3],
        steps.skip(4),
        limit_added(),
        puts(Param::MasterchainBlockLimits),
    );
    let before = a + seq![steps[3]] + b;
    gather::lemma_gathered_single(steps[3], limit_added());
    gather::lemma_gathered_add(a, seq![steps[3]], limit_added());
    gather::lemma_gathered_add(a + seq![steps[3]], b, limit_added());
    assert(gather::gathered(before, limit_added()) =~= first + second);
    assert(steps =~= before + seq![steps[7]] + steps.skip(8));
    lemma_collected_once(
        before,
        steps[7],
        steps.skip(8),
        limit_added(),
        puts(Param::BasechainBlockLimits),
    );
    assert(steps =~= before + rest);
    gather::lemma_gathered_none(rest, limit_added());
    gather::lemma_gathered_add(before, rest, limit_added());
    assert(gather::gathered(steps, limit_added()) =~= first + second);
}

/// A fundamental contract's address that a step adds, if it adds any.
pub open spec fn fundamental_added() -> spec_fn(Step) -> Option<Address> {
    |step: Step|
        match step {
            Step::AddFundamentalAddress(address) => Some(address),
            _ => None,
        }
}

/// The fundamental contracts are put once, and are exactly those described.
pub proof fn law_fundamental_put(data: ZerostateConfig)
    ensures
        collected(
            seq![],
            plan::state_steps(data),
            fundamental_added(),
            puts(Param::FundamentalAddresses),
        ) == seq![data.config.fundamental_addresses@],
{
    let steps = section(data, 7);
    let items = data.config.fundamental_addresses@;
    let n = items.len() as int;
    lemma_collected_in(data, 7, fundamental_added(), puts(Param::FundamentalAddresses));
    assert(steps =~= steps.take(n) + seq![steps[n]] + Seq::<Step>::empty());
    lemma_gathered_each(items, steps.take(n), fundamental_added());
    lemma_collected_once(
        steps.take(n),
        steps[n],
        Seq::<Step>::empty(),
        fundamental_added(),
        puts(Param::FundamentalAddresses),
    );
}

/// A validator that a step adds, by its key and weight, if it adds any.
pub open spec fn validator_added() -> spec_fn(Step) -> Option<([u8; 32], u64)> {
    |step: Step|
        match step {
            Step::AddValidator { public_key, weight } => Some((public_key, weight)),
            _ => None,
        }
}

/// A validator set that a step makes of the validators there are, by its two times and the number of
/// its main validators, if it makes any.
pub open spec fn set_made() -> spec_fn(Step) -> Option<(u32, u32, u16)> {
    |step: Step|
        match step {
            Step::MakeValidatorSet { utime_since, utime_until, main } => Some(
                (utime_since, utime_until, main),
            ),
            _ => None,
        }
}

/// Whether a step makes a validator set.
pub open spec fn makes_set() -> spec_fn(Step) -> bool {
    |step: Step| step is MakeValidatorSet
}

/// The validator set is made once, of exactly the validators described, each with its own weight, for
/// the time described, and is put once, as made.
pub proof fn law_validators_put(data: ZerostateConfig)
    ensures
        ({
            let set = data.config.validator_set;
            &&& collected(seq![], plan::state_steps(data), validator_added(), makes_set()) == seq![
                set.validators@.map_values(
                    |validator: Validator| (validator.public_key, validator.weight),
                ),
            ]
            &&& collected(
                seq![],
                plan::state_steps(data),
                set_made(),
                puts(Param::CurrentValidators),
            ) == seq![seq![(set.utime_since, set.utime_until, set.main)]]
        }),
{
    let set = data.config.validator_set;
    let steps = section(data, 8);
    let items = set.validators@.map_values(
        |validator: Validator| (validator.public_key, validator.weight),
    );
    let n = set.validators@.len() as int;
    lemma_collected_in(data, 8, validator_added(), makes_set());
    lemma_collected_in(data, 8, set_made(), puts(Param::CurrentValidators));
    assert(steps =~= steps.take(n) + seq![steps[n]] + steps.skip(n + 1));
    lemma_gathered_each(items, steps.take(n), validator_added());
    lemma_collected_once(
        steps.take(n),
        steps[n],
        steps.skip(n + 1),
        validator_added(),
        makes_set(),
    );
    let before = steps.take(n + 1);
    assert(steps =~= before + seq![steps[n + 1]] + Seq::<Step>::empty());
    gather::lemma_gathered_one(before, n, set_made());
    lemma_collected_once(
        before,
        steps[n + 1],
        Seq::<Step>::empty(),
        set_made(),
        puts(Param::CurrentValidators),
    );
}

/// A parameter that is put with its contents, but for the three addresses.
pub open spec fn plain_param() -> spec_fn(Step) -> Option<Param> {
    |step: Step|
        match step {
            Step::Put(param) => match param {
                Param::GlobalVersion { .. }
                | Param::BlockCreateFees(_)
                | Param::Elections(_)
                | Param::ValidatorCount(_)
                | Param::Stakes(_)
                | Param::MasterchainGas(_)
                | Param::BasechainGas(_)
                | Param::MasterchainForwardPrices(_)
                | Param::BasechainForwardPrices(_)
                | Param::Catchain(_)
                | Param::Consensus(_) => Some(param),
                _ => None,
            },
            _ => None,
        }
}

/// The parameters from one part of the plan.
spec fn plain_of(data: ZerostateConfig, k: int) -> Seq<Param> {
    gather::gathered(section(data, k), plain_param())
}

proof fn lemma_plain_parts(data: ZerostateConfig, to: int)
    requires
        0 <= to <= 10,
    ensures
        to == 0 ==> gather::gathered(parts(data, 0, to), plain_param()) == Seq::<Param>::empty(),
        to > 0 ==> gather::gathered(parts(data, 0, to), plain_param()) == gather::gathered(
            parts(data, 0, to - 1),
            plain_param(),
        ) + plain_of(data, to - 1),
{
    reveal_with_fuel(parts, 1);
    if to > 0 {
        gather::lemma_gathered_add(
            parts(data, 0, to - 1),
            section(data, to - 1),
            plain_param(),
        );
    }
}

proof fn lemma_plain_currency(data: ZerostateConfig)
    ensures
        plain_of(data, 1) == seq![
            Param::GlobalVersion {
                version: data.config.global_version,
                capabilities: data.config.global_capabilities,
            },
        ],
{
    let steps = section(data, 1);
    gather::lemma_gathered_one(steps, steps.len() - 1, plain_param());
}

proof fn lemma_plain_workchains(data: ZerostateConfig)
    ensures
        plain_of(data, 4) == seq![
            Param::BlockCreateFees(data.config.block_creation_fees),
            Param::Elections(data.config.elector_params),
            Param::ValidatorCount(data.config.validator_count),
            Param::Stakes(data.config.stake_params),
        ],
{
    let steps = section(data, 4);
    let n = plan::all_workchain_steps(data.config.workchains@).len() as int;
    lemma_no_put_among_workchains(data.config.workchains@);
    let before = steps.take(n + 1);
    let rest = steps.skip(n + 1);
    assert(steps =~= before + rest);
    let pick = plain_param();
    assert forall|i: int| 0 <= i < before.len() implies pick(#[trigger] before[i]) is None by {
        if i < n {
            assert(before[i] == plan::all_workchain_steps(data.config.workchains@)[i]);
        }
    }
    gather::lemma_gathered_none(before, plain_param());
    gather::lemma_gathered_all(rest, plain_param());
    gather::lemma_gathered_add(before, rest, plain_param());
    assert(plain_of(data, 4) =~= seq![
        Param::BlockCreateFees(data.config.block_creation_fees),
        Param::Elections(data.config.elector_params),
        Param::ValidatorCount(data.config.validator_count),
        Param::Stakes(data.config.stake_params),
    ]);
}

proof fn lemma_plain_prices(data: ZerostateConfig)
    ensures
        plain_of(data, 5) == seq![
            Param::MasterchainGas(plan::gas_limits_prices(data.config.gas_prices.masterchain)),
            Param::BasechainGas(plan::gas_limits_prices(data.config.gas_prices.basechain)),
        ],
{
    let steps = section(data, 5);
    let n = steps.len() - 2;
    assert(steps =~= steps.take(n) + steps.skip(n));
    gather::lemma_gathered_none(steps.take(n), plain_param());
    gather::lemma_gathered_all(steps.skip(n), plain_param());
    gather::lemma_gathered_add(steps.take(n), steps.skip(n), plain_param());
    assert(plain_of(data, 5) =~= seq![
        Param::MasterchainGas(plan::gas_limits_prices(data.config.gas_prices.masterchain)),
        Param::BasechainGas(plan::gas_limits_prices(data.config.gas_prices.basechain)),
    ]);
}

proof fn lemma_plain_limits(data: ZerostateConfig)
    ensures
        plain_of(data, 6) == seq![
            Param::MasterchainForwardPrices(data.config.msg_forward_prices.masterchain),
            Param::BasechainForwardPrices(data.config.msg_forward_prices.basechain),
            Param::Catchain(data.config.catchain_params),
            Param::Consensus(data.config.consensus_params),
        ],
{
    let steps = section(data, 6);
    assert(steps =~= steps.take(8) + steps.skip(8));
    gather::lemma_gathered_none(steps.take(8), plain_param());
    gather::lemma_gathered_all(steps.skip(8), plain_param());
    gather::lemma_gathered_add(steps.take(8), steps.skip(8), plain_param());
    assert(plain_of(data, 6) =~= seq![
        Param::MasterchainForwardPrices(data.config.msg_forward_prices.masterchain),
        Param::BasechainForwardPrices(data.config.msg_forward_prices.basechain),
        Param::Catchain(data.config.catchain_params),
        Param::Consensus(data.config.consensus_params),
    ]);
}

proof fn lemma_no_plain(data: ZerostateConfig, k: int)
    requires
        k == 0 || k == 2 || k == 3 || k == 7 || k == 8 || k == 9,
    ensures
        plain_of(data, k) == Seq::<Param>::empty(),
{
    gather::lemma_gathered_none(section(data, k), plain_param());
}

/// Every other parameter is put once, with what the description says of it, each chain's with that
/// chain's.
pub proof fn law_plain_params_put(data: ZerostateConfig)
    ensures
        gather::gathered(plan::state_steps(data), plain_param()) == seq![
            Param::GlobalVersion {
                version: data.config.global_version,
                capabilities: data.config.global_capabilities,
            },
        ] + seq![
            Param::BlockCreateFees(data.config.block_creation_fees),
            Param::Elections(data.config.elector_params),
            Param::ValidatorCount(data.config.validator_count),
            Param::Stakes(data.config.stake_params),
        ] + seq![
            Param::MasterchainGas(plan::gas_limits_prices(data.config.gas_prices.masterchain)),
            Param::BasechainGas(plan::gas_limits_prices(data.config.gas_prices.basechain)),
        ] + seq![
            Param::MasterchainForwardPrices(data.config.msg_forward_prices.masterchain),
            Param::BasechainForwardPrices(data.config.msg_forward_prices.basechain),
            Param::Catchain(data.config.catchain_params),
            Param::Consensus(data.config.consensus_params),
        ],
{
    lemma_all_parts(data);
    lemma_plain_parts(data, 0);
    lemma_plain_parts(data, 1);
    lemma_plain_parts(data, 2);
    lemma_plain_parts(data, 3);
    lemma_plain_parts(data, 4);
    lemma_plain_parts(data, 5);
    lemma_plain_parts(data, 6);
    lemma_plain_parts(data, 7);
    lemma_plain_parts(data, 8);
    lemma_plain_parts(data, 9);
    lemma_plain_parts(data, 10);
    lemma_no_plain(data, 0);
    lemma_no_plain(data, 2);
    lemma_no_plain(data, 3);
    lemma_no_plain(data, 7);
    lemma_no_plain(data, 8);
    lemma_no_plain(data, 9);
    lemma_plain_currency(data);
    lemma_plain_workchains(data);
    lemma_plain_prices(data);
    lemma_plain_limits(data);
    lemma_with_gaps(plain_of(data, 1), plain_of(data, 4), plain_of(data, 5), plain_of(data, 6));
}

/// Empty lists in a row of lists make no difference.
proof fn lemma_with_gaps(a: Seq<Param>, b: Seq<Param>, c: Seq<Param>, d: Seq<Param>)
    ensures
        ({
            let e = Seq::<Param>::empty();
            e + e + a + e + e + b + c + d + e + e + e == a + b + c + d
        }),
{
    let e = Seq::<Param>::empty();
    assert(e + e + a + e + e + b + c + d + e + e + e =~= a + b + c + d);
}

} // verus!
