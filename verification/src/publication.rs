//! How a finished masterchain state becomes the zerostates of all chains: the workchains' states are
//! made and recorded in it, it is completed, and everything is written to files.
use vstd::prelude::*;

use crate::base64_text;
use crate::hex_text;
use crate::hex_text::to_hex;
use crate::json;
use crate::json::{new_object, print_object, put_int, put_object, put_text};
use crate::steps;

verus! {

/// The shard that is a whole workchain.
pub const SHARD_FULL: u64 = 0x8000_0000_0000_0000;

/// The masterchain among the workchains.
pub const MASTERCHAIN_ID: i32 = -1;

/// The parameter that describes the workchains.
pub const WORKCHAINS_PARAM: u32 = 12;

/// A piece of outside work.
#[derive(Clone, Copy, Debug, PartialEq, Eq)]
pub enum PubAction {
    /// Read the masterchain's own part from its state.
    ReadExtra,
    /// Read which workchains the configuration describes.
    ReadWorkchains,
    /// Make the state of a workchain.
    MakeWorkchainState {
        workchain_id: i32,
        shard: u64,
        gen_time: u32,
        global_id: i32,
        min_ref_mc_seqno: u32,
    },
    /// Turn that state into cells.
    SerializeWorkchainState,
    /// Turn those cells into bytes.
    PackWorkchainState,
    /// Record the two hashes in the workchain's description.
    UpdateWorkchain { workchain_id: i32, root_hash: [u8; 32], file_hash: [u8; 32] },
    /// Write those bytes to the file that is named after their hash.
    WriteWorkchainFile { file_hash: [u8; 32] },
    /// Put the descriptions back into the configuration.
    PutWorkchains { param: u32 },
    ReadCatchainConfig,
    ReadValidatorSet,
    /// Find the validators of a shard, and the short hash of their list.
    ComputeSubset { shard: u64, workchain_id: i32, catchain_seqno: u32, time: u32 },
    SetValidatorInfo {
        validator_list_hash_short: u32,
        nx_cc_updated: bool,
        catchain_seqno: u32,
    },
    /// Put the masterchain's own part back into its state.
    WriteExtra,
    /// Bring the account that keeps the parameters up to date.
    UpdateConfigContract,
    /// Turn the masterchain state into cells.
    SerializeState,
    /// Turn those cells into bytes.
    PackState,
    /// Write those bytes to the file that is named after their hash.
    WriteStateFile { file_hash: [u8; 32] },
    /// Nothing: everything is written. The hashes are those of the masterchain state.
    Finished { root_hash: [u8; 32], file_hash: [u8; 32] },
}

/// How a piece of outside work went.
#[derive(Debug, PartialEq, Eq)]
pub enum PubEvent {
    Done,
    /// There is no such part in the state.
    Missing,
    /// The workchains, in the order of the dictionary that describes them.
    Workchains(Vec<i32>),
    /// The hash of the root cell.
    Serialized { root_hash: [u8; 32] },
    /// The hash of the bytes.
    Packed { file_hash: [u8; 32] },
    Subset { hash_short: u32 },
    Failed,
}

/// Why the work ended early.
#[derive(Clone, Copy, Debug, PartialEq, Eq)]
pub enum PubFailure {
    /// This did not succeed.
    At(PubAction),
    /// The state has no part of the masterchain's own.
    NoExtra,
}

/// Where the work stands.
#[derive(Clone, Copy, Debug, PartialEq, Eq)]
pub enum PubPhase {
    Extra,
    Workchains,
    /// The workchain at this place is next.
    Make(usize),
    Serialize(usize),
    Pack { place: usize, root_hash: [u8; 32] },
    Update { place: usize, root_hash: [u8; 32], file_hash: [u8; 32] },
    WriteFile { place: usize, file_hash: [u8; 32] },
    Put,
    Catchain,
    Validators,
    Subset,
    Info { hash_short: u32 },
    WriteExtra,
    Contract,
    SerializeState,
    PackState { root_hash: [u8; 32] },
    WriteStateFile { root_hash: [u8; 32], file_hash: [u8; 32] },
    Finished { root_hash: [u8; 32], file_hash: [u8; 32] },
}

/// Everything that decides what comes next.
#[verifier::ext_equal]
pub ghost struct PubState {
    pub gen_time: u32,
    pub global_id: i32,
    pub workchains: Seq<i32>,
    pub phase: PubPhase,
}

/// The work that is asked for.
pub open spec fn pub_action(state: PubState) -> PubAction {
    match state.phase {
        PubPhase::Extra => PubAction::ReadExtra,
        PubPhase::Workchains => PubAction::ReadWorkchains,
        PubPhase::Make(i) => PubAction::MakeWorkchainState {
            workchain_id: state.workchains[i as int],
            shard: SHARD_FULL,
            gen_time: state.gen_time,
            global_id: state.global_id,
            min_ref_mc_seqno: u32::MAX,
        },
        PubPhase::Serialize(_) => PubAction::SerializeWorkchainState,
        PubPhase::Pack { .. } => PubAction::PackWorkchainState,
        PubPhase::Update { place, root_hash, file_hash } => PubAction::UpdateWorkchain {
            workchain_id: state.workchains[place as int],
            root_hash,
            file_hash,
        },
        PubPhase::WriteFile { file_hash, .. } => PubAction::WriteWorkchainFile { file_hash },
        PubPhase::Put => PubAction::PutWorkchains { param: WORKCHAINS_PARAM },
        PubPhase::Catchain => PubAction::ReadCatchainConfig,
        PubPhase::Validators => PubAction::ReadValidatorSet,
        PubPhase::Subset => PubAction::ComputeSubset {
            shard: SHARD_FULL,
            workchain_id: MASTERCHAIN_ID,
            catchain_seqno: 0,
            time: state.gen_time,
        },
        PubPhase::Info { hash_short } => PubAction::SetValidatorInfo {
            validator_list_hash_short: hash_short,
            nx_cc_updated: true,
            catchain_seqno: 0,
        },
        PubPhase::WriteExtra => PubAction::WriteExtra,
        PubPhase::Contract => PubAction::UpdateConfigContract,
        PubPhase::SerializeState => PubAction::SerializeState,
        PubPhase::PackState { .. } => PubAction::PackState,
        PubPhase::WriteStateFile { file_hash, .. } => PubAction::WriteStateFile { file_hash },
        PubPhase::Finished { root_hash, file_hash } => PubAction::Finished { root_hash, file_hash },
    }
}

/// Whether an event can be the outcome of a piece of work.
pub open spec fn pub_fits(action: PubAction, event: PubEvent) -> bool {
    match action {
        PubAction::ReadExtra => event is Done || event is Missing || event is Failed,
        PubAction::ReadWorkchains => event is Workchains || event is Failed,
        PubAction::SerializeWorkchainState | PubAction::SerializeState => event is Serialized
            || event is Failed,
        PubAction::PackWorkchainState | PubAction::PackState => event is Packed || event is Failed,
        PubAction::ComputeSubset { .. } => event is Subset || event is Failed,
        PubAction::Finished { .. } => false,
        _ => event is Done || event is Failed,
    }
}

/// The phase in which the workchains from a place on are dealt with. After them comes the rest of
/// the masterchain state.
pub open spec fn workchain_phase(workchains: Seq<i32>, from: int) -> PubPhase {
    if from < workchains.len() {
        PubPhase::Make(from as usize)
    } else {
        PubPhase::Put
    }
}

/// Where the work goes on after work that went well.
pub open spec fn pub_onward(state: PubState, event: PubEvent) -> PubState {
    let workchains = match event {
        PubEvent::Workchains(found) => found@,
        _ => state.workchains,
    };
    let phase = match state.phase {
        PubPhase::Extra => PubPhase::Workchains,
        PubPhase::Workchains => workchain_phase(workchains, 0),
        PubPhase::Make(i) => PubPhase::Serialize(i),
        PubPhase::Serialize(i) => PubPhase::Pack { place: i, root_hash: event->root_hash },
        PubPhase::Pack { place, root_hash } => PubPhase::Update {
            place,
            root_hash,
            file_hash: event->file_hash,
        },
        PubPhase::Update { place, file_hash, .. } => PubPhase::WriteFile { place, file_hash },
        PubPhase::WriteFile { place, .. } => workchain_phase(workchains, place + 1),
        PubPhase::Put => PubPhase::Catchain,
        PubPhase::Catchain => PubPhase::Validators,
        PubPhase::Validators => PubPhase::Subset,
        PubPhase::Subset => PubPhase::Info { hash_short: event->hash_short },
        PubPhase::Info { .. } => PubPhase::WriteExtra,
        PubPhase::WriteExtra => PubPhase::Contract,
        PubPhase::Contract => PubPhase::SerializeState,
        PubPhase::SerializeState => PubPhase::PackState { root_hash: event->root_hash },
        PubPhase::PackState { root_hash } => PubPhase::WriteStateFile {
            root_hash,
            file_hash: event->file_hash,
        },
        PubPhase::WriteStateFile { root_hash, file_hash } => PubPhase::Finished {
            root_hash,
            file_hash,
        },
        PubPhase::Finished { root_hash, file_hash } => PubPhase::Finished { root_hash, file_hash },
    };
    PubState { workchains, phase, ..state }
}

/// What an outcome leads to: the next state, or the end.
pub open spec fn pub_next(state: PubState, event: PubEvent) -> Result<PubState, PubFailure> {
    match event {
        PubEvent::Failed => Err(PubFailure::At(pub_action(state))),
        PubEvent::Missing => Err(PubFailure::NoExtra),
        _ => Ok(pub_onward(state, event)),
    }
}

/// What is told of an early end, on top of the failure itself.
pub open spec fn pub_context(failure: PubFailure) -> Option<Seq<char>> {
    match failure {
        PubFailure::NoExtra => Some("McStateExtra not found"@),
        PubFailure::At(action) => match action {
            PubAction::ReadExtra => Some("Failed to read McStateExtra"@),
            PubAction::SerializeWorkchainState => Some("Failed to serialize workchain state"@),
            PubAction::UpdateWorkchain { .. } => Some("Failed to update workchain info"@),
            PubAction::WriteWorkchainFile { .. } => Some("Failed to write workchain zerostate"@),
            PubAction::ReadCatchainConfig => Some("Failed to read catchain config"@),
            PubAction::ReadValidatorSet => Some("Failed to read validator set"@),
            PubAction::ComputeSubset { .. } => Some("Failed to compute validator subset"@),
            PubAction::WriteExtra => Some("Failed to write custom"@),
            PubAction::UpdateConfigContract => Some("Failed to update config smc"@),
            PubAction::SerializeState => Some("Failed to serialize masterchain zerostate"@),
            PubAction::PackState => Some("Failed to serialize masterchain zerostate"@),
            PubAction::WriteStateFile { .. } => Some("Failed to write masterchain zerostate"@),
            _ => None,
        },
    }
}

/// The phase points at a workchain that is there.
pub open spec fn pub_well_formed(state: PubState) -> bool {
    match state.phase {
        PubPhase::Make(i) | PubPhase::Serialize(i) => i < state.workchains.len(),
        PubPhase::Pack { place, .. }
        | PubPhase::Update { place, .. }
        | PubPhase::WriteFile { place, .. } => place < state.workchains.len(),
        _ => true,
    }
}

/// The name of the file that bytes with this hash go into.
pub open spec fn file_name_text(file_hash: Seq<u8>) -> Seq<char> {
    hex_text::hex_text(file_hash) + ".boc"@
}

/// The fields that tell of the masterchain's zerostate.
pub open spec fn zero_state_fields(
    root_hash: Seq<u8>,
    file_hash: Seq<u8>,
) -> Map<Seq<char>, json::Field> {
    let root = json::Field::Text(base64_text::base64_text(root_hash));
    let file = json::Field::Text(base64_text::base64_text(file_hash));
    let inner = json::no_fields().insert("workchain"@, json::Field::Int(-1)).insert(
        "shard"@,
        json::Field::Int(i64::MIN as int),
    ).insert("seqno"@, json::Field::Int(0)).insert("root_hash"@, root).insert(
        "file_hash"@,
        file,
    );
    json::no_fields().insert("zero_state"@, json::Field::Object(inner))
}

/// The name of the file that bytes with this hash go into.
pub fn file_name(file_hash: &[u8; 32]) -> (name: String)
    ensures
        name@ == file_name_text(file_hash@),
{
    let mut name = to_hex(file_hash.as_slice());
    name.append(".boc");
    name
}

/// Tells of the masterchain's zerostate, in JSON.
pub fn zero_state_json(root_hash: &[u8; 32], file_hash: &[u8; 32]) -> (text: String)
    ensures
        text@ == json::pretty_text(zero_state_fields(root_hash@, file_hash@)),
{
    let root = base64_text::encode_base64(root_hash.as_slice());
    let file = base64_text::encode_base64(file_hash.as_slice());
    let mut inner = new_object();
    put_int(&mut inner, "workchain", -1);
    assert(SHARD_FULL as i64 == i64::MIN) by (bit_vector);
    put_int(&mut inner, "shard", #[verifier::truncate] (SHARD_FULL as i64));
    put_int(&mut inner, "seqno", 0);
    put_text(&mut inner, "root_hash", root.as_str());
    put_text(&mut inner, "file_hash", file.as_str());
    let mut outer = new_object();
    put_object(&mut outer, "zero_state", inner);
    print_object(&outer)
}

impl PubFailure {
    /// What is told of the early end, on top of the failure itself.
    pub fn context(&self) -> (text: Option<&'static str>)
        ensures
            steps::reads(text, pub_context(*self)),
    {
        match self {
            PubFailure::NoExtra => Some("McStateExtra not found"),
            PubFailure::At(action) => match action {
                PubAction::ReadExtra => Some("Failed to read McStateExtra"),
                PubAction::SerializeWorkchainState => Some("Failed to serialize workchain state"),
                PubAction::UpdateWorkchain { .. } => Some("Failed to update workchain info"),
                PubAction::WriteWorkchainFile { .. } => Some("Failed to write workchain zerostate"),
                PubAction::ReadCatchainConfig => Some("Failed to read catchain config"),
                PubAction::ReadValidatorSet => Some("Failed to read validator set"),
                PubAction::ComputeSubset { .. } => Some("Failed to compute validator subset"),
                PubAction::WriteExtra => Some("Failed to write custom"),
                PubAction::UpdateConfigContract => Some("Failed to update config smc"),
                PubAction::SerializeState => Some("Failed to serialize masterchain zerostate"),
                PubAction::PackState => Some("Failed to serialize masterchain zerostate"),
                PubAction::WriteStateFile { .. } => Some("Failed to write masterchain zerostate"),
                _ => None,
            },
        }
    }
}

/// Zerostates on their way to files.
pub struct Publication {
    gen_time: u32,
    global_id: i32,
    workchains: Vec<i32>,
    phase: PubPhase,
}

impl View for Publication {
    type V = PubState;

    closed spec fn view(&self) -> PubState {
        PubState {
            gen_time: self.gen_time,
            global_id: self.global_id,
            workchains: self.workchains@,
            phase: self.phase,
        }
    }
}

/// The state of a publication that has just been started.
pub open spec fn pub_start(gen_time: u32, global_id: i32) -> PubState {
    PubState { gen_time, global_id, workchains: seq![], phase: PubPhase::Extra }
}

/// The phase for the workchains from a place on.
fn next_workchain(workchains: &Vec<i32>, from: usize) -> (phase: PubPhase)
    ensures
        phase == workchain_phase(workchains@, from as int),
{
    if from < workchains.len() {
        PubPhase::Make(from)
    } else {
        PubPhase::Put
    }
}

impl Publication {
    #[verifier::type_invariant]
    spec fn well_formed(self) -> bool {
        pub_well_formed(self@)
    }

    /// Starts to publish a masterchain state that was made at `gen_time` for the network `global_id`.
    pub fn start(gen_time: u32, global_id: i32) -> (publication: Publication)
        ensures
            publication@ == pub_start(gen_time, global_id),
    {
        let workchains: Vec<i32> = Vec::new();
        assert(workchains@ =~= seq![]);
        Publication { gen_time, global_id, workchains, phase: PubPhase::Extra }
    }

    /// The work that is asked for.
    pub fn action(&self) -> (action: PubAction)
        ensures
            action == pub_action(self@),
    {
        proof {
            use_type_invariant(self);
        }
        match self.phase {
            PubPhase::Extra => PubAction::ReadExtra,
            PubPhase::Workchains => PubAction::ReadWorkchains,
            PubPhase::Make(i) => PubAction::MakeWorkchainState {
                workchain_id: self.workchains[i],
                shard: SHARD_FULL,
                gen_time: self.gen_time,
                global_id: self.global_id,
                min_ref_mc_seqno: u32::MAX,
            },
            PubPhase::Serialize(_) => PubAction::SerializeWorkchainState,
            PubPhase::Pack { .. } => PubAction::PackWorkchainState,
            PubPhase::Update { place, root_hash, file_hash } => PubAction::UpdateWorkchain {
                workchain_id: self.workchains[place],
                root_hash,
                file_hash,
            },
            PubPhase::WriteFile { file_hash, .. } => PubAction::WriteWorkchainFile { file_hash },
            PubPhase::Put => PubAction::PutWorkchains { param: WORKCHAINS_PARAM },
            PubPhase::Catchain => PubAction::ReadCatchainConfig,
            PubPhase::Validators => PubAction::ReadValidatorSet,
            PubPhase::Subset => PubAction::ComputeSubset {
                shard: SHARD_FULL,
                workchain_id: MASTERCHAIN_ID,
                catchain_seqno: 0,
                time: self.gen_time,
            },
            PubPhase::Info { hash_short } => PubAction::SetValidatorInfo {
                validator_list_hash_short: hash_short,
                nx_cc_updated: true,
                catchain_seqno: 0,
            },
            PubPhase::WriteExtra => PubAction::WriteExtra,
            PubPhase::Contract => PubAction::UpdateConfigContract,
            PubPhase::SerializeState => PubAction::SerializeState,
            PubPhase::PackState { .. } => PubAction::PackState,
            PubPhase::WriteStateFile { file_hash, .. } => PubAction::WriteStateFile { file_hash },
            PubPhase::Finished { root_hash, file_hash } => PubAction::Finished {
                root_hash,
                file_hash,
            },
        }
    }

    /// Whether an event can be the outcome of the work that is asked for.
    pub fn accepts(&self, event: &PubEvent) -> (accepted: bool)
        ensures
            accepted == pub_fits(pub_action(self@), *event),
    {
        match self.action() {
            PubAction::ReadExtra => match event {
                PubEvent::Done | PubEvent::Missing | PubEvent::Failed => true,
                _ => false,
            },
            PubAction::ReadWorkchains => match event {
                PubEvent::Workchains(_) | PubEvent::Failed => true,
                _ => false,
            },
            PubAction::SerializeWorkchainState | PubAction::SerializeState => match event {
                PubEvent::Serialized { .. } | PubEvent::Failed => true,
                _ => false,
            },
            PubAction::PackWorkchainState | PubAction::PackState => match event {
                PubEvent::Packed { .. } | PubEvent::Failed => true,
                _ => false,
            },
            PubAction::ComputeSubset { .. } => match event {
                PubEvent::Subset { .. } | PubEvent::Failed => true,
                _ => false,
            },
            PubAction::Finished { .. } => false,
            _ => match event {
                PubEvent::Done | PubEvent::Failed => true,
                _ => false,
            },
        }
    }

    /// Takes in how the work went. The result is the publication as it goes on, or why it ends.
    pub fn advance(self, event: PubEvent) -> (result: Result<Publication, PubFailure>)
        requires
            pub_fits(pub_action(self@), event),
        ensures
            match result {
                Ok(publication) => pub_next(self@, event) == Ok::<PubState, PubFailure>(
                    publication@,
                ) && pub_well_formed(publication@),
                Err(failure) => pub_next(self@, event) == Err::<PubState, PubFailure>(failure),
            },
    {
        proof {
            use_type_invariant(&self);
        }
        let action = self.action();
        let Publication { gen_time, global_id, workchains, phase } = self;
        let count: usize = workchains.len();
        match event {
            PubEvent::Failed => Err(PubFailure::At(action)),
            PubEvent::Missing => Err(PubFailure::NoExtra),
            PubEvent::Workchains(found) => {
                let phase = next_workchain(&found, 0);
                Ok(Publication { gen_time, global_id, workchains: found, phase })
            },
            PubEvent::Serialized { root_hash } => {
                let phase = match phase {
                    PubPhase::Serialize(i) => PubPhase::Pack { place: i, root_hash },
                    _ => PubPhase::PackState { root_hash },
                };
                Ok(Publication { gen_time, global_id, workchains, phase })
            },
            PubEvent::Packed { file_hash } => {
                let phase = match phase {
                    PubPhase::Pack { place, root_hash } => PubPhase::Update {
                        place,
                        root_hash,
                        file_hash,
                    },
                    PubPhase::PackState { root_hash } => PubPhase::WriteStateFile {
                        root_hash,
                        file_hash,
                    },
                    _ => phase,
                };
                Ok(Publication { gen_time, global_id, workchains, phase })
            },
            PubEvent::Subset { hash_short } => {
                let phase = PubPhase::Info { hash_short };
                Ok(Publication { gen_time, global_id, workchains, phase })
            },
            PubEvent::Done => {
                let phase = match phase {
                    PubPhase::Extra => PubPhase::Workchains,
                    PubPhase::Make(i) => PubPhase::Serialize(i),
                    PubPhase::Update { place, file_hash, .. } => PubPhase::WriteFile {
                        place,
                        file_hash,
                    },
                    PubPhase::WriteFile { place, .. } => next_workchain(&workchains, place + 1),
                    PubPhase::Put => PubPhase::Catchain,
                    PubPhase::Catchain => PubPhase::Validators,
                    PubPhase::Validators => PubPhase::Subset,
                    PubPhase::Info { .. } => PubPhase::WriteExtra,
                    PubPhase::WriteExtra => PubPhase::Contract,
                    PubPhase::Contract => PubPhase::SerializeState,
                    PubPhase::WriteStateFile { root_hash, file_hash } => PubPhase::Finished {
                        root_hash,
                        file_hash,
                    },
                    _ => phase,
                };
                Ok(Publication { gen_time, global_id, workchains, phase })
            },
        }
    }
}

/// Different hashes name different files.
pub proof fn law_file_names_differ(left: Seq<u8>, right: Seq<u8>)
    requires
        file_name_text(left) == file_name_text(right),
    ensures
        left == right,
{
    let l = hex_text::hex_text(left);
    let r = hex_text::hex_text(right);
    assert(file_name_text(left).len() == file_name_text(right).len());
    assert(l =~= file_name_text(left).take(l.len() as int));
    assert(r =~= file_name_text(right).take(r.len() as int));
    hex_text::law_hex_round_trip(left);
    hex_text::law_hex_round_trip(right);
}

/// A file's name is the lower-case hexadecimal text of the hash, two digits a byte, from which the
/// hash can be read back, and then `.boc`.
pub proof fn law_file_name_spells_the_hash(file_hash: Seq<u8>)
    ensures
        ({
            let name = file_name_text(file_hash);
            let digits = name.take(2 * file_hash.len() as int);
            &&& name == digits + ".boc"@
            &&& hex_text::hex_bytes(digits) == Some(file_hash)
            &&& forall|i: int|
                0 <= i < digits.len() ==> '0' <= (#[trigger] digits[i]) <= '9' || 'a' <= digits[i]
                    <= 'f'
        }),
{
    let name = file_name_text(file_hash);
    let digits = name.take(2 * file_hash.len() as int);
    hex_text::law_hex_round_trip(file_hash);
    hex_text::law_hex_is_lower_case(file_hash);
    assert(digits =~= hex_text::hex_text(file_hash));
}

/// Whether a field holds a text that stands in base64, with its padding, for these bytes.
pub open spec fn holds_bytes(field: json::Field, bytes: Seq<u8>) -> bool {
    field matches json::Field::Text(text) && base64_text::base64_text_cut(text, bytes, 0)
        && base64_text::base64_bytes(text) == Some(bytes)
}

/// The object that is printed has one field, the zerostate's, and this has five: the masterchain's
/// number, its only shard, the first block's number, and texts from which exactly the root hash and
/// the file hash can be read.
pub proof fn law_zero_state_told(root_hash: Seq<u8>, file_hash: Seq<u8>)
    ensures
        ({
            let outer = zero_state_fields(root_hash, file_hash);
            let inner = outer["zero_state"@]->Object_0;
            &&& outer.dom() == set!["zero_state"@]
            &&& outer["zero_state"@] is Object
            &&& inner.dom() == set![
                "workchain"@,
                "shard"@,
                "seqno"@,
                "root_hash"@,
                "file_hash"@,
            ]
            &&& inner["workchain"@] == json::Field::Int(-1)
            &&& inner["shard"@] == json::Field::Int(-0x8000_0000_0000_0000)
            &&& inner["seqno"@] == json::Field::Int(0)
            &&& holds_bytes(inner["root_hash"@], root_hash)
            &&& holds_bytes(inner["file_hash"@], file_hash)
        }),
{
    reveal_strlit("workchain");
    reveal_strlit("shard");
    reveal_strlit("seqno");
    reveal_strlit("root_hash");
    reveal_strlit("file_hash");
    assert("workchain"@.len() == 9 && "shard"@.len() == 5 && "seqno"@.len() == 5);
    assert("root_hash"@.len() == 9 && "file_hash"@.len() == 9);
    assert("workchain"@[0] == 'w' && "root_hash"@[0] == 'r' && "file_hash"@[0] == 'f');
    assert("shard"@[1] == 'h' && "seqno"@[1] == 'e');
    lemma_base64_read_back(root_hash);
    lemma_base64_read_back(file_hash);
    let outer = zero_state_fields(root_hash, file_hash);
    let inner = outer["zero_state"@]->Object_0;
    assert(outer.dom() =~= set!["zero_state"@]);
    assert(inner.dom() =~= set!["workchain"@, "shard"@, "seqno"@, "root_hash"@, "file_hash"@]);
}

/// The padded base64 text of any bytes stands for them.
pub proof fn lemma_base64_read_back(bytes: Seq<u8>)
    ensures
        holds_bytes(json::Field::Text(base64_text::base64_text(bytes)), bytes),
{
    let text = base64_text::base64_text(bytes);
    assert(text.take(text.len() as int) =~= text);
    base64_text::law_base64_round_trip(bytes, 0);
}

/// Different hashes are never told alike.
pub proof fn law_zero_states_are_told_apart(
    root_hash: Seq<u8>,
    file_hash: Seq<u8>,
    other_root_hash: Seq<u8>,
    other_file_hash: Seq<u8>,
)
    requires
        zero_state_fields(root_hash, file_hash) == zero_state_fields(
            other_root_hash,
            other_file_hash,
        ),
    ensures
        root_hash == other_root_hash,
        file_hash == other_file_hash,
{
    law_zero_state_told(root_hash, file_hash);
    law_zero_state_told(other_root_hash, other_file_hash);
}

/// The whole shard's mark is the top bit alone, the masterchain has the number -1, and the workchains
/// are put back under the number that their parameter has.
pub proof fn law_constants()
    ensures
        SHARD_FULL == 0x8000_0000_0000_0000u64,
        MASTERCHAIN_ID == -1i32,
        WORKCHAINS_PARAM == 12u32,
        WORKCHAINS_PARAM == steps::param_number(steps::Param::Workchains),
{
}

/// Every outcome belongs to the work that it can be an outcome of, and to no other.
pub proof fn law_pub_outcomes(action: PubAction)
    ensures
        forall|found: Vec<i32>|
            #[trigger] pub_fits(action, PubEvent::Workchains(found)) <==> action is ReadWorkchains,
        forall|root_hash: [u8; 32]|
            #[trigger] pub_fits(action, PubEvent::Serialized { root_hash }) <==> (action
                is SerializeWorkchainState || action is SerializeState),
        forall|file_hash: [u8; 32]|
            #[trigger] pub_fits(action, PubEvent::Packed { file_hash }) <==> (action
                is PackWorkchainState || action is PackState),
        forall|hash_short: u32|
            #[trigger] pub_fits(action, PubEvent::Subset { hash_short }) <==> action
                is ComputeSubset,
        pub_fits(action, PubEvent::Missing) <==> action is ReadExtra,
        pub_fits(action, PubEvent::Failed) <==> !(action is Finished),
        pub_fits(action, PubEvent::Done) <==> (action is ReadExtra || action is MakeWorkchainState
            || action is UpdateWorkchain || action is WriteWorkchainFile || action is PutWorkchains
            || action is ReadCatchainConfig || action is ReadValidatorSet || action
            is SetValidatorInfo || action is WriteExtra || action is UpdateConfigContract || action
            is WriteStateFile),
{
}

/// Work that did not succeed ends the publication and is named; a state without a part of the
/// masterchain's own ends it too; nothing else does.
pub proof fn law_pub_failures(state: PubState, event: PubEvent)
    requires
        pub_fits(pub_action(state), event),
    ensures
        event is Failed ==> pub_next(state, event) == Err::<PubState, PubFailure>(
            PubFailure::At(pub_action(state)),
        ),
        event is Missing ==> pub_next(state, event) == Err::<PubState, PubFailure>(
            PubFailure::NoExtra,
        ),
        !(event is Failed) && !(event is Missing) ==> pub_next(state, event) is Ok,
{
}

/// Which failures are told with a text of their own.
pub proof fn law_pub_told(action: PubAction)
    ensures
        pub_context(PubFailure::NoExtra) is Some,
        pub_context(PubFailure::At(action)) is None <==> (action is ReadWorkchains || action
            is MakeWorkchainState || action is PackWorkchainState || action is PutWorkchains
            || action is SetValidatorInfo || action is Finished),
{
}

} // verus!
