//! What an operator says about the network to be started.
use vstd::prelude::*;

verus! {

/// The 256-bit address of an account in the masterchain.
pub type Address = [u8; 32];

/// An account as the zerostate's logic sees it.
#[derive(Clone, Copy, Debug, PartialEq, Eq)]
pub struct Account {
    /// By which the holder of the account's contents finds them again.
    pub id: u64,
    /// Whether there is an account at all, and not just an empty entry.
    pub exists: bool,
}

/// The whole description of a zerostate.
#[derive(Debug, PartialEq, Eq)]
pub struct ZerostateConfig {
    pub global_id: i32,
    /// When the zerostate counts as made, in Unix seconds.
    pub gen_utime: u32,
    pub minter_public_key: [u8; 32],
    pub config_public_key: [u8; 32],
    /// Accounts to start with besides the system's own.
    pub accounts: Vec<(Address, Account)>,
    pub config: NetworkConfig,
}

/// The parameters of the network.
#[derive(Debug, PartialEq, Eq)]
pub struct NetworkConfig {
    pub config_address: Address,
    pub elector_address: Address,
    pub minter_address: Address,
    pub currencies: Vec<Currency>,
    pub global_version: u32,
    pub global_capabilities: u64,
    pub mandatory_params: Vec<u32>,
    pub critical_params: Vec<u32>,
    pub voting_setup: Option<VotingSetup>,
    pub workchains: Vec<Workchain>,
    pub block_creation_fees: BlockCreationFees,
    pub elector_params: ElectorParams,
    pub validator_count: ValidatorCount,
    pub stake_params: StakeParams,
    pub storage_prices: Vec<StoragePricesEntry>,
    pub gas_prices: GasPrices,
    pub block_limits: BlockLimits,
    pub msg_forward_prices: MsgForwardPrices,
    pub catchain_params: CatchainParams,
    pub consensus_params: ConsensusParams,
    pub fundamental_addresses: Vec<Address>,
    pub validator_set: ValidatorSet,
}

/// An extra currency and how much of it there is to be.
#[derive(Clone, Copy, Debug, PartialEq, Eq)]
pub struct Currency {
    pub id: u32,
    pub total_supply: u64,
}

/// How proposals to change parameters are voted on.
#[derive(Clone, Copy, Debug, PartialEq, Eq)]
pub struct VotingSetup {
    pub normal_params: ConfigVotingParams,
    pub critical_params: ConfigVotingParams,
}

/// The rules for one class of proposals.
#[derive(Clone, Copy, Debug, PartialEq, Eq)]
pub struct ConfigVotingParams {
    pub min_total_rounds: u8,
    pub max_total_rounds: u8,
    pub min_wins: u8,
    pub max_losses: u8,
    pub min_store_sec: u32,
    pub max_store_sec: u32,
    pub bit_price: u32,
    pub cell_price: u32,
}

/// A workchain.
#[derive(Clone, Copy, Debug, PartialEq, Eq)]
pub struct Workchain {
    pub workchain_id: i32,
    pub enabled_since: u32,
    pub min_split: u8,
    pub max_split: u8,
    pub flags: u16,
    pub active: bool,
    pub accept_msgs: bool,
    pub vm_version: i32,
    pub vm_mode: u64,
}

/// What making a block earns.
#[derive(Clone, Copy, Debug, PartialEq, Eq)]
pub struct BlockCreationFees {
    pub masterchain_block_fee: u64,
    pub basechain_block_fee: u64,
}

/// When validators are elected and for how long.
#[derive(Clone, Copy, Debug, PartialEq, Eq)]
pub struct ElectorParams {
    pub validators_elected_for: u32,
    pub elections_start_before: u32,
    pub elections_end_before: u32,
    pub stake_held_for: u32,
}

/// How many validators there may be.
#[derive(Clone, Copy, Debug, PartialEq, Eq)]
pub struct ValidatorCount {
    pub max_validators: u16,
    pub max_main_validators: u16,
    pub min_validators: u16,
}

/// What validators may stake.
#[derive(Clone, Copy, Debug, PartialEq, Eq)]
pub struct StakeParams {
    pub min_stake: u64,
    pub max_stake: u64,
    pub min_total_stake: u64,
    pub max_stake_factor: u32,
}

/// What storage costs from some time on.
#[derive(Clone, Copy, Debug, PartialEq, Eq)]
pub struct StoragePricesEntry {
    pub utime_since: u32,
    pub bit_price_ps: u64,
    pub cell_price_ps: u64,
    pub mc_bit_price_ps: u64,
    pub mc_cell_price_ps: u64,
}

/// What gas costs in each chain.
#[derive(Clone, Copy, Debug, PartialEq, Eq)]
pub struct GasPrices {
    pub masterchain: GasPricesEntry,
    pub basechain: GasPricesEntry,
}

/// What gas costs in one chain.
#[derive(Clone, Copy, Debug, PartialEq, Eq)]
pub struct GasPricesEntry {
    pub gas_price: u64,
    pub gas_limit: u64,
    pub special_gas_limit: u64,
    pub gas_credit: u64,
    pub block_gas_limit: u64,
    pub freeze_due_limit: u64,
    pub delete_due_limit: u64,
    pub flat_gas_limit: u64,
    pub flat_gas_price: u64,
}

/// How large blocks may become in each chain.
#[derive(Clone, Copy, Debug, PartialEq, Eq)]
pub struct BlockLimits {
    pub masterchain: BlockLimitsEntry,
    pub basechain: BlockLimitsEntry,
}

/// How large blocks may become in one chain.
#[derive(Clone, Copy, Debug, PartialEq, Eq)]
pub struct BlockLimitsEntry {
    pub bytes: BlockLimitsParam,
    pub gas: BlockLimitsParam,
    pub lt_delta: BlockLimitsParam,
}

/// Three marks for one measure of a block's size.
#[derive(Clone, Copy, Debug, PartialEq, Eq)]
pub struct BlockLimitsParam {
    pub underload: u32,
    pub soft_limit: u32,
    pub hard_limit: u32,
}

/// What forwarding messages costs in each chain.
#[derive(Clone, Copy, Debug, PartialEq, Eq)]
pub struct MsgForwardPrices {
    pub masterchain: MsgForwardPricesEntry,
    pub basechain: MsgForwardPricesEntry,
}

/// What forwarding messages costs in one chain.
#[derive(Clone, Copy, Debug, PartialEq, Eq)]
pub struct MsgForwardPricesEntry {
    pub lump_price: u64,
    pub bit_price: u64,
    pub cell_price: u64,
    pub ihr_price_factor: u32,
    pub first_frac: u16,
    pub next_frac: u16,
}

/// How validator groups are formed.
#[derive(Clone, Copy, Debug, PartialEq, Eq)]
pub struct CatchainParams {
    pub isolate_mc_validators: bool,
    pub shuffle_mc_validators: bool,
    pub mc_catchain_lifetime: u32,
    pub shard_catchain_lifetime: u32,
    pub shard_validators_lifetime: u32,
    pub shard_validators_num: u32,
}

/// How validators agree on blocks.
#[derive(Clone, Copy, Debug, PartialEq, Eq)]
pub struct ConsensusParams {
    pub new_catchain_ids: bool,
    pub round_candidates: u32,
    pub next_candidate_delay_ms: u32,
    pub consensus_timeout_ms: u32,
    pub fast_attempts: u32,
    pub attempt_duration: u32,
    pub catchain_max_deps: u32,
    pub max_block_bytes: u32,
    pub max_collated_bytes: u32,
}

/// The validators to start with.
#[derive(Debug, PartialEq, Eq)]
pub struct ValidatorSet {
    pub utime_since: u32,
    pub utime_until: u32,
    pub main: u16,
    pub validators: Vec<Validator>,
}

/// A validator.
#[derive(Clone, Copy, Debug, PartialEq, Eq)]
pub struct Validator {
    pub public_key: [u8; 32],
    pub weight: u64,
    /// What its wallet starts with.
    pub initial_balance: u64,
}

} // verus!
