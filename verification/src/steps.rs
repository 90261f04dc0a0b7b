//! The masterchain state's own fields and the network's parameters, as the calls that write them.
use vstd::prelude::*;

use crate::config::{
    Address, BlockCreationFees, BlockLimitsParam, CatchainParams, ConfigVotingParams, ConsensusParams,
    Currency, ElectorParams, MsgForwardPricesEntry, StakeParams, StoragePricesEntry, ValidatorCount,
};

verus! {

/// What gas costs in one chain, as the parameter keeps it.
#[derive(Clone, Copy, Debug, PartialEq, Eq)]
pub struct GasLimitsPrices {
    pub gas_price: u64,
    pub gas_limit: u64,
    pub special_gas_limit: u64,
    pub gas_credit: u64,
    pub block_gas_limit: u64,
    pub freeze_due_limit: u64,
    pub delete_due_limit: u64,
    pub flat_gas_limit: u64,
    pub flat_gas_price: u64,
    pub max_gas_threshold: u64,
}

/// A parameter of the network. One that holds a dictionary or a list names no contents: it takes
/// what the steps before it have collected.
#[derive(Clone, Copy, Debug, PartialEq, Eq)]
pub enum Param {
    ConfigAddress(Address),
    ElectorAddress(Address),
    MinterAddress(Address),
    ToMint,
    GlobalVersion { version: u32, capabilities: u64 },
    MandatoryParams,
    CriticalParams,
    VotingSetup,
    Workchains,
    BlockCreateFees(BlockCreationFees),
    Elections(ElectorParams),
    ValidatorCount(ValidatorCount),
    Stakes(StakeParams),
    StoragePrices,
    MasterchainGas(GasLimitsPrices),
    BasechainGas(GasLimitsPrices),
    MasterchainBlockLimits,
    BasechainBlockLimits,
    MasterchainForwardPrices(MsgForwardPricesEntry),
    BasechainForwardPrices(MsgForwardPricesEntry),
    Catchain(CatchainParams),
    Consensus(ConsensusParams),
    FundamentalAddresses,
    CurrentValidators,
}

/// One write to the masterchain state.
#[derive(Clone, Copy, Debug, PartialEq, Eq)]
pub enum Step {
    /// The least masterchain block that the state refers to.
    SetMinRefMcSeqno(u32),
    SetGlobalId(i32),
    SetGenTime(u32),
    /// The state's balance becomes the sum of the balances added up before.
    SetTotalBalance,
    /// The account that keeps the parameters.
    SetConfigAddress(Address),
    /// One more entry of the currencies to mint.
    AddCurrency(Currency),
    AddMandatoryParam(u32),
    AddCriticalParam(u32),
    MakeVotingSetup { normal: ConfigVotingParams, critical: ConfigVotingParams },
    /// A description of a workchain, blank but for the time.
    StartWorkchain { enabled_since: u32 },
    SetMinSplit(u8),
    SetMaxSplit(u8),
    /// The description is completed and put under its workchain.
    AddWorkchain {
        workchain_id: i32,
        flags: u16,
        active: bool,
        accept_msgs: bool,
        vm_version: i32,
        vm_mode: u64,
    },
    AddStoragePrices { index: u32, prices: StoragePricesEntry },
    /// Marks for the next of a block's measures: bytes, gas, logical time.
    AddBlockLimit(BlockLimitsParam),
    AddFundamentalAddress(Address),
    AddValidator { public_key: [u8; 32], weight: u64 },
    MakeValidatorSet { utime_since: u32, utime_until: u32, main: u16 },
    /// Puts a parameter into the configuration.
    Put(Param),
    SetValidatorInfo {
        validator_list_hash_short: u32,
        catchain_seqno: u32,
        nx_cc_updated: bool,
    },
    /// The network's balance becomes the state's balance in the main currency.
    SetGlobalBalance,
    SetAfterKeyBlock(bool),
    /// The masterchain's own part goes into the state.
    WriteExtra,
}

/// The number that a parameter goes by.
pub open spec fn param_number(param: Param) -> u32 {
    match param {
        Param::ConfigAddress(_) => 0,
        Param::ElectorAddress(_) => 1,
        Param::MinterAddress(_) => 2,
        Param::ToMint => 7,
        Param::GlobalVersion { .. } => 8,
        Param::MandatoryParams => 9,
        Param::CriticalParams => 10,
        Param::VotingSetup => 11,
        Param::Workchains => 12,
        Param::BlockCreateFees(_) => 14,
        Param::Elections(_) => 15,
        Param::ValidatorCount(_) => 16,
        Param::Stakes(_) => 17,
        Param::StoragePrices => 18,
        Param::MasterchainGas(_) => 20,
        Param::BasechainGas(_) => 21,
        Param::MasterchainBlockLimits => 22,
        Param::BasechainBlockLimits => 23,
        Param::MasterchainForwardPrices(_) => 24,
        Param::BasechainForwardPrices(_) => 25,
        Param::Catchain(_) => 28,
        Param::Consensus(_) => 29,
        Param::FundamentalAddresses => 31,
        Param::CurrentValidators => 34,
    }
}

impl Param {
    /// The number that the parameter goes by.
    pub fn number(&self) -> (number: u32)
        ensures
            number == param_number(*self),
    {
        match self {
            Param::ConfigAddress(_) => 0,
            Param::ElectorAddress(_) => 1,
            Param::MinterAddress(_) => 2,
            Param::ToMint => 7,
            Param::GlobalVersion { .. } => 8,
            Param::MandatoryParams => 9,
            Param::CriticalParams => 10,
            Param::VotingSetup => 11,
            Param::Workchains => 12,
            Param::BlockCreateFees(_) => 14,
            Param::Elections(_) => 15,
            Param::ValidatorCount(_) => 16,
            Param::Stakes(_) => 17,
            Param::StoragePrices => 18,
            Param::MasterchainGas(_) => 20,
            Param::BasechainGas(_) => 21,
            Param::MasterchainBlockLimits => 22,
            Param::BasechainBlockLimits => 23,
            Param::MasterchainForwardPrices(_) => 24,
            Param::BasechainForwardPrices(_) => 25,
            Param::Catchain(_) => 28,
            Param::Consensus(_) => 29,
            Param::FundamentalAddresses => 31,
            Param::CurrentValidators => 34,
        }
    }
}

/// What is told of a step that failed, on top of the failure itself.
pub open spec fn step_context(step: Step) -> Option<Seq<char>> {
    match step {
        Step::AddCurrency(_) => Some("Failed to set currency"@),
        Step::AddMandatoryParam(_) => Some("Failed to construct mandatory params"@),
        Step::AddCriticalParam(_) => Some("Failed to construct critical params"@),
        Step::MakeVotingSetup { .. } => Some("Failed to create config param 11"@),
        Step::SetMinSplit(_) => Some("Failed to set workchain min split"@),
        Step::SetMaxSplit(_) => Some("Failed to set workchain max split"@),
        Step::AddWorkchain { .. } => Some("Failed to set workchain"@),
        Step::AddBlockLimit(_) => Some("Failed to set block limits param"@),
        Step::MakeValidatorSet { .. } => Some("Failed to build validators list"@),
        Step::WriteExtra => Some("Failed to write McStateExtra"@),
        _ => None,
    }
}

/// A text that is there or not, against what it should read.
pub open spec fn reads(text: Option<&str>, expected: Option<Seq<char>>) -> bool {
    match text {
        Some(t) => expected == Some(t@),
        None => expected is None,
    }
}

impl Step {
    /// What is told of the step if it failed, on top of the failure itself.
    pub fn context(&self) -> (text: Option<&'static str>)
        ensures
            reads(text, step_context(*self)),
    {
        match self {
            Step::AddCurrency(_) => Some("Failed to set currency"),
            Step::AddMandatoryParam(_) => Some("Failed to construct mandatory params"),
            Step::AddCriticalParam(_) => Some("Failed to construct critical params"),
            Step::MakeVotingSetup { .. } => Some("Failed to create config param 11"),
            Step::SetMinSplit(_) => Some("Failed to set workchain min split"),
            Step::SetMaxSplit(_) => Some("Failed to set workchain max split"),
            Step::AddWorkchain { .. } => Some("Failed to set workchain"),
            Step::AddBlockLimit(_) => Some("Failed to set block limits param"),
            Step::MakeValidatorSet { .. } => Some("Failed to build validators list"),
            Step::WriteExtra => Some("Failed to write McStateExtra"),
            _ => None,
        }
    }
}

/// Which steps are told with a text of their own when they fail.
pub proof fn law_steps_told(step: Step)
    ensures
        step_context(step) is Some <==> (step is AddCurrency || step is AddMandatoryParam || step
            is AddCriticalParam || step is MakeVotingSetup || step is SetMinSplit || step
            is SetMaxSplit || step is AddWorkchain || step is AddBlockLimit || step
            is MakeValidatorSet || step is WriteExtra),
{
}

/// A text reads as expected exactly if it is there where one is expected, with the same characters.
pub proof fn law_reads(text: &str, expected: Seq<char>)
    ensures
        reads(Some(text), Some(expected)) <==> text@ == expected,
        !reads(Some(text), None),
        !reads(None, Some(expected)),
        reads(None, None),
{
}

} // verus!
