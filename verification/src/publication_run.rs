//! What a whole run of a publication asks for.
use vstd::prelude::*;

use crate::gather;
use crate::publication;
use crate::publication::{PubAction, PubEvent, PubPhase};

verus! {

/// The outside's answers where nothing fails: which workchains there are, and what is computed.
pub ghost struct PubAnswers {
    pub workchains: Vec<i32>,
    /// The root and file hashes of the state of the workchain at a place.
    pub workchain_hashes: spec_fn(int) -> ([u8; 32], [u8; 32]),
    pub hash_short: u32,
    /// The root and file hashes of the masterchain state.
    pub state_hashes: ([u8; 32], [u8; 32]),
}

/// The answer to the work that is asked for.
pub open spec fn pub_answer(answers: PubAnswers, phase: PubPhase) -> PubEvent {
    match phase {
        PubPhase::Workchains => PubEvent::Workchains(answers.workchains),
        PubPhase::Serialize(i) => PubEvent::Serialized {
            root_hash: (answers.workchain_hashes)(i as int).0,
        },
        PubPhase::Pack { place, .. } => PubEvent::Packed {
            file_hash: (answers.workchain_hashes)(place as int).1,
        },
        PubPhase::Subset => PubEvent::Subset { hash_short: answers.hash_short },
        PubPhase::SerializeState => PubEvent::Serialized { root_hash: answers.state_hashes.0 },
        PubPhase::PackState { .. } => PubEvent::Packed { file_hash: answers.state_hashes.1 },
        _ => PubEvent::Done,
    }
}

/// At most how many pieces of work are still to be asked for, when there are `count` workchains.
pub open spec fn pub_remaining(phase: PubPhase, count: int) -> int {
    match phase {
        PubPhase::Extra => 12 + 5 * count,
        PubPhase::Workchains => 11 + 5 * count,
        PubPhase::Make(i) => 10 + 5 * (count - i),
        PubPhase::Serialize(i) => 9 + 5 * (count - i),
        PubPhase::Pack { place, .. } => 8 + 5 * (count - place),
        PubPhase::Update { place, .. } => 7 + 5 * (count - place),
        PubPhase::WriteFile { place, .. } => 6 + 5 * (count - place),
        PubPhase::Put => 10,
        PubPhase::Catchain => 9,
        PubPhase::Validators => 8,
        PubPhase::Subset => 7,
        PubPhase::Info { .. } => 6,
        PubPhase::WriteExtra => 5,
        PubPhase::Contract => 4,
        PubPhase::SerializeState => 3,
        PubPhase::PackState { .. } => 2,
        PubPhase::WriteStateFile { .. } => 1,
        PubPhase::Finished { .. } => 0,
    }
}

/// The workchains are those that the answers give, as soon as they have been read.
pub open spec fn agrees(state: publication::PubState, answers: PubAnswers) -> bool {
    &&& publication::pub_well_formed(state)
    &&& answers.workchains@.len() <= usize::MAX
    &&& state.phase is Extra || state.phase is Workchains || state.workchains
        == answers.workchains@
}

/// Every answer brings the end nearer: with `count` workchains, a publication asks for no more than
/// [`pub_remaining`] pieces of work.
pub proof fn law_pub_progress(state: publication::PubState, answers: PubAnswers)
    requires
        agrees(state, answers),
        !(state.phase is Finished),
    ensures
        ({
            let event = pub_answer(answers, state.phase);
            let count = answers.workchains@.len() as int;
            let next = publication::pub_onward(state, event);
            &&& publication::pub_fits(publication::pub_action(state), event)
            &&& publication::pub_next(state, event) == Ok::<
                publication::PubState,
                publication::PubFailure,
            >(next)
            &&& agrees(next, answers)
            &&& 0 <= pub_remaining(next.phase, count) < pub_remaining(state.phase, count)
        }),
{
}

/// All that a publication asks for from here on, to the end, under the given answers.
#[verifier::opaque]
pub open spec fn pub_run(state: publication::PubState, answers: PubAnswers) -> Seq<PubAction>
    decreases pub_remaining(state.phase, answers.workchains@.len() as int),
    when agrees(state, answers)
    via pub_run_terminates
{
    let action = publication::pub_action(state);
    if state.phase is Finished {
        seq![action]
    } else {
        seq![action] + pub_run(
            publication::pub_onward(state, pub_answer(answers, state.phase)),
            answers,
        )
    }
}

#[via_fn]
proof fn pub_run_terminates(state: publication::PubState, answers: PubAnswers) {
    if !(state.phase is Finished) {
        law_pub_progress(state, answers);
    }
}

/// The work on the workchains from a place on. The hashes that are recorded are those of the state
/// that is written, under the name of its file hash.
pub open spec fn workchain_actions(
    state: publication::PubState,
    answers: PubAnswers,
    from: int,
) -> Seq<PubAction>
    decreases answers.workchains@.len() - from,
{
    if from >= answers.workchains@.len() {
        seq![]
    } else {
        let workchain_id = answers.workchains@[from];
        let (root_hash, file_hash) = (answers.workchain_hashes)(from);
        seq![
            PubAction::MakeWorkchainState {
                workchain_id,
                shard: publication::SHARD_FULL,
                gen_time: state.gen_time,
                global_id: state.global_id,
                min_ref_mc_seqno: u32::MAX,
            },
            PubAction::SerializeWorkchainState,
            PubAction::PackWorkchainState,
            PubAction::UpdateWorkchain { workchain_id, root_hash, file_hash },
            PubAction::WriteWorkchainFile { file_hash },
        ] + workchain_actions(state, answers, from + 1)
    }
}

/// The work on the masterchain state after the workchains.
pub open spec fn state_actions(state: publication::PubState, answers: PubAnswers) -> Seq<PubAction> {
    let (root_hash, file_hash) = answers.state_hashes;
    seq![
        PubAction::PutWorkchains { param: publication::WORKCHAINS_PARAM },
        PubAction::ReadCatchainConfig,
        PubAction::ReadValidatorSet,
        PubAction::ComputeSubset {
            shard: publication::SHARD_FULL,
            workchain_id: publication::MASTERCHAIN_ID,
            catchain_seqno: 0,
            time: state.gen_time,
        },
        PubAction::SetValidatorInfo {
            validator_list_hash_short: answers.hash_short,
            nx_cc_updated: true,
            catchain_seqno: 0,
        },
        PubAction::WriteExtra,
        PubAction::UpdateConfigContract,
        PubAction::SerializeState,
        PubAction::PackState,
        PubAction::WriteStateFile { file_hash },
        PubAction::Finished { root_hash, file_hash },
    ]
}

/// A state in another phase.
spec fn at_phase(state: publication::PubState, phase: PubPhase) -> publication::PubState {
    publication::PubState { phase, ..state }
}

/// The run of `state` is one piece of work and then the run of `next`, which is in order.
spec fn follows(
    state: publication::PubState,
    next: publication::PubState,
    answers: PubAnswers,
) -> bool {
    &&& pub_run(state, answers) == seq![publication::pub_action(state)] + pub_run(next, answers)
    &&& agrees(next, answers)
}

proof fn lemma_run_step(
    state: publication::PubState,
    answers: PubAnswers,
    next: publication::PubState,
)
    requires
        agrees(state, answers),
        !(state.phase is Finished),
        next == publication::pub_onward(state, pub_answer(answers, state.phase)),
    ensures
        follows(state, next, answers),
{
    reveal_with_fuel(pub_run, 1);
    law_pub_progress(state, answers);
}

proof fn lemma_run_state(state: publication::PubState, answers: PubAnswers)
    requires
        agrees(state, answers),
        state.phase is Put,
    ensures
        pub_run(state, answers) == state_actions(state, answers),
{
    let (root_hash, file_hash) = answers.state_hashes;
    let s1 = at_phase(state, PubPhase::Catchain);
    let s2 = at_phase(state, PubPhase::Validators);
    let s3 = at_phase(state, PubPhase::Subset);
    let s4 = at_phase(state, PubPhase::Info { hash_short: answers.hash_short });
    let s5 = at_phase(state, PubPhase::WriteExtra);
    let s6 = at_phase(state, PubPhase::Contract);
    let s7 = at_phase(state, PubPhase::SerializeState);
    let s8 = at_phase(state, PubPhase::PackState { root_hash });
    let s9 = at_phase(state, PubPhase::WriteStateFile { root_hash, file_hash });
    let s10 = at_phase(state, PubPhase::Finished { root_hash, file_hash });
    lemma_run_step(state, answers, s1);
    lemma_run_step(s1, answers, s2);
    lemma_run_step(s2, answers, s3);
    lemma_run_step(s3, answers, s4);
    lemma_run_step(s4, answers, s5);
    lemma_run_step(s5, answers, s6);
    lemma_run_step(s6, answers, s7);
    lemma_run_step(s7, answers, s8);
    lemma_run_step(s8, answers, s9);
    lemma_run_step(s9, answers, s10);
    assert(pub_run(s10, answers) == seq![publication::pub_action(s10)]) by {
        reveal_with_fuel(pub_run, 1);
    }
    assert(pub_run(state, answers) =~= state_actions(state, answers));
}

proof fn lemma_run_workchains(state: publication::PubState, answers: PubAnswers, from: int)
    requires
        agrees(state, answers),
        0 <= from <= answers.workchains@.len(),
        state.workchains == answers.workchains@,
        state.phase == publication::workchain_phase(answers.workchains@, from),
    ensures
        pub_run(state, answers) == workchain_actions(state, answers, from) + state_actions(
            state,
            answers,
        ),
    decreases answers.workchains@.len() - from,
{
    if from < answers.workchains@.len() {
        let place = from as usize;
        let (root_hash, file_hash) = (answers.workchain_hashes)(from);
        let s1 = at_phase(state, PubPhase::Serialize(place));
        let s2 = at_phase(state, PubPhase::Pack { place, root_hash });
        let s3 = at_phase(state, PubPhase::Update { place, root_hash, file_hash });
        let s4 = at_phase(state, PubPhase::WriteFile { place, file_hash });
        let s5 = at_phase(state, publication::workchain_phase(answers.workchains@, from + 1));
        lemma_run_step(state, answers, s1);
        lemma_run_step(s1, answers, s2);
        lemma_run_step(s2, answers, s3);
        lemma_run_step(s3, answers, s4);
        lemma_run_step(s4, answers, s5);
        lemma_run_workchains(s5, answers, from + 1);
        lemma_actions_ignore_phase(state, s5, answers, from + 1);
    } else {
        lemma_run_state(state, answers);
    }
    assert(pub_run(state, answers) =~= workchain_actions(state, answers, from) + state_actions(
        state,
        answers,
    ));
}

proof fn lemma_actions_ignore_phase(
    left: publication::PubState,
    right: publication::PubState,
    answers: PubAnswers,
    from: int,
)
    requires
        left.gen_time == right.gen_time,
        left.global_id == right.global_id,
    ensures
        workchain_actions(left, answers, from) == workchain_actions(right, answers, from),
        state_actions(left, answers) == state_actions(right, answers),
    decreases answers.workchains@.len() - from,
{
    if from < answers.workchains@.len() {
        lemma_actions_ignore_phase(left, right, answers, from + 1);
    }
}

/// A run in which nothing fails asks for exactly this, in this order, and ends with the hashes of the
/// masterchain state that was written.
pub proof fn law_pub_run(gen_time: u32, global_id: i32, answers: PubAnswers)
    requires
        answers.workchains@.len() <= usize::MAX,
    ensures
        ({
            let start = publication::pub_start(gen_time, global_id);
            pub_run(start, answers) == seq![PubAction::ReadExtra, PubAction::ReadWorkchains]
                + workchain_actions(start, answers, 0) + state_actions(start, answers)
        }),
{
    let s0 = publication::pub_start(gen_time, global_id);
    let s1 = at_phase(s0, PubPhase::Workchains);
    let s2 = publication::PubState {
        workchains: answers.workchains@,
        phase: publication::workchain_phase(answers.workchains@, 0),
        ..s0
    };
    lemma_run_step(s0, answers, s1);
    lemma_run_step(s1, answers, s2);
    lemma_run_workchains(s2, answers, 0);
    lemma_actions_ignore_phase(s0, s2, answers, 0);
    assert(pub_run(s0, answers) =~= seq![PubAction::ReadExtra, PubAction::ReadWorkchains]
        + workchain_actions(s0, answers, 0) + state_actions(s0, answers));
}

/// The hash after which a piece of work names a file that it writes, if it writes any.
pub open spec fn written_file() -> spec_fn(PubAction) -> Option<[u8; 32]> {
    |action: PubAction|
        match action {
            PubAction::WriteWorkchainFile { file_hash } => Some(file_hash),
            PubAction::WriteStateFile { file_hash } => Some(file_hash),
            _ => None,
        }
}

/// The files of the workchains from a place on.
pub open spec fn workchain_files(answers: PubAnswers, from: int) -> Seq<[u8; 32]> {
    Seq::new(
        (answers.workchains@.len() - from) as nat,
        |i: int| (answers.workchain_hashes)(from + i).1,
    )
}

proof fn lemma_workchain_files(state: publication::PubState, answers: PubAnswers, from: int)
    requires
        0 <= from <= answers.workchains@.len(),
    ensures
        gather::gathered(workchain_actions(state, answers, from), written_file())
            == workchain_files(answers, from),
    decreases answers.workchains@.len() - from,
{
    if from < answers.workchains@.len() {
        let file_hash = (answers.workchain_hashes)(from).1;
        let all = workchain_actions(state, answers, from);
        let first = all.take(5);
        let rest = workchain_actions(state, answers, from + 1);
        assert(all =~= first + rest);
        lemma_workchain_files(state, answers, from + 1);
        assert(gather::gathered(first, written_file()) =~= seq![file_hash]) by {
            gather::lemma_gathered_one(first, 4, written_file());
        }
        gather::lemma_gathered_add(first, rest, written_file());
    }
    assert(gather::gathered(workchain_actions(state, answers, from), written_file())
        =~= workchain_files(answers, from));
}

/// A run in which nothing fails writes one file for each workchain and then one for the masterchain
/// state, each under the hash of what is in it, and ends with the masterchain state's hashes.
pub proof fn law_files_written(gen_time: u32, global_id: i32, answers: PubAnswers)
    requires
        answers.workchains@.len() <= usize::MAX,
    ensures
        ({
            let run = pub_run(publication::pub_start(gen_time, global_id), answers);
            let (root_hash, file_hash) = answers.state_hashes;
            &&& gather::gathered(run, written_file()) == workchain_files(answers, 0).push(file_hash)
            &&& run.len() > 0
            &&& run.last() == PubAction::Finished { root_hash, file_hash }
        }),
{
    let start = publication::pub_start(gen_time, global_id);
    let first = seq![PubAction::ReadExtra, PubAction::ReadWorkchains];
    let on_workchains = workchain_actions(start, answers, 0);
    let on_state = state_actions(start, answers);
    law_pub_run(gen_time, global_id, answers);
    lemma_workchain_files(start, answers, 0);
    assert(gather::gathered(on_state, written_file()) =~= seq![answers.state_hashes.1]) by {
        gather::lemma_gathered_one(on_state, 9, written_file());
    }
    gather::lemma_gathered_none(first, written_file());
    gather::lemma_gathered_add(first, on_workchains, written_file());
    gather::lemma_gathered_add(first + on_workchains, on_state, written_file());
    assert(gather::gathered(pub_run(start, answers), written_file()) =~= workchain_files(
        answers,
        0,
    ).push(answers.state_hashes.1));
}

/// The state that a piece of work makes, if it makes any: for which workchain and shard, of when, for
/// which network, and the least masterchain block that it refers to.
pub open spec fn state_made() -> spec_fn(PubAction) -> Option<(i32, u64, u32, i32, u32)> {
    |action: PubAction|
        match action {
            PubAction::MakeWorkchainState {
                workchain_id,
                shard,
                gen_time,
                global_id,
                min_ref_mc_seqno,
            } => Some((workchain_id, shard, gen_time, global_id, min_ref_mc_seqno)),
            _ => None,
        }
}

/// The two hashes that a piece of work records for a workchain, if it records any.
pub open spec fn hashes_recorded() -> spec_fn(PubAction) -> Option<(i32, [u8; 32], [u8; 32])> {
    |action: PubAction|
        match action {
            PubAction::UpdateWorkchain { workchain_id, root_hash, file_hash } => Some(
                (workchain_id, root_hash, file_hash),
            ),
            _ => None,
        }
}

/// The states that are made for the workchains from a place on.
pub open spec fn states_due(
    gen_time: u32,
    global_id: i32,
    answers: PubAnswers,
    from: int,
) -> Seq<(i32, u64, u32, i32, u32)> {
    Seq::new(
        (answers.workchains@.len() - from) as nat,
        |i: int|
            (
                answers.workchains@[from + i],
                0x8000_0000_0000_0000u64,
                gen_time,
                global_id,
                0xffff_ffffu32,
            ),
    )
}

/// The hashes that are recorded for the workchains from a place on.
pub open spec fn records_due(answers: PubAnswers, from: int) -> Seq<(i32, [u8; 32], [u8; 32])> {
    Seq::new(
        (answers.workchains@.len() - from) as nat,
        |i: int|
            (
                answers.workchains@[from + i],
                (answers.workchain_hashes)(from + i).0,
                (answers.workchain_hashes)(from + i).1,
            ),
    )
}

proof fn lemma_workchain_work(state: publication::PubState, answers: PubAnswers, from: int)
    requires
        0 <= from <= answers.workchains@.len(),
    ensures
        gather::gathered(workchain_actions(state, answers, from), state_made()) == states_due(
            state.gen_time,
            state.global_id,
            answers,
            from,
        ),
        gather::gathered(workchain_actions(state, answers, from), hashes_recorded())
            == records_due(answers, from),
        gather::gathered(workchain_actions(state, answers, from), on_state()) == Seq::<
            PubAction,
        >::empty(),
    decreases answers.workchains@.len() - from,
{
    let all = workchain_actions(state, answers, from);
    if from < answers.workchains@.len() {
        let first = all.take(5);
        let rest = workchain_actions(state, answers, from + 1);
        assert(all =~= first + rest);
        lemma_workchain_work(state, answers, from + 1);
        gather::lemma_gathered_one(first, 0, state_made());
        gather::lemma_gathered_one(first, 3, hashes_recorded());
        gather::lemma_gathered_none(first, on_state());
        gather::lemma_gathered_add(first, rest, state_made());
        gather::lemma_gathered_add(first, rest, hashes_recorded());
        gather::lemma_gathered_add(first, rest, on_state());
    }
    assert(gather::gathered(all, state_made()) =~= states_due(
        state.gen_time,
        state.global_id,
        answers,
        from,
    ));
    assert(gather::gathered(all, hashes_recorded()) =~= records_due(answers, from));
    assert(gather::gathered(all, on_state()) =~= Seq::<PubAction>::empty());
}

/// Work on the masterchain state that is given something to go by.
pub open spec fn on_state() -> spec_fn(PubAction) -> Option<PubAction> {
    |action: PubAction|
        match action {
            PubAction::PutWorkchains { .. }
            | PubAction::ComputeSubset { .. }
            | PubAction::SetValidatorInfo { .. } => Some(action),
            _ => None,
        }
}

/// Every workchain gets a state of the same time and network as the masterchain's, for its whole
/// shard, and has the hashes of that state recorded. Then the workchains are put back, the
/// masterchain's validators at that time are found, and their list's short hash is recorded.
pub proof fn law_what_is_made_and_recorded(gen_time: u32, global_id: i32, answers: PubAnswers)
    requires
        answers.workchains@.len() <= usize::MAX,
    ensures
        ({
            let run = pub_run(publication::pub_start(gen_time, global_id), answers);
            &&& gather::gathered(run, state_made()) == states_due(gen_time, global_id, answers, 0)
            &&& gather::gathered(run, hashes_recorded()) == records_due(answers, 0)
            &&& gather::gathered(run, on_state()) == seq![
                PubAction::PutWorkchains { param: 12 },
                PubAction::ComputeSubset {
                    shard: 0x8000_0000_0000_0000,
                    workchain_id: (-1int) as i32,
                    catchain_seqno: 0,
                    time: gen_time,
                },
                PubAction::SetValidatorInfo {
                    validator_list_hash_short: answers.hash_short,
                    nx_cc_updated: true,
                    catchain_seqno: 0,
                },
            ]
        }),
{
    let start = publication::pub_start(gen_time, global_id);
    let first = seq![PubAction::ReadExtra, PubAction::ReadWorkchains];
    let on_workchains = workchain_actions(start, answers, 0);
    let last = state_actions(start, answers);
    let run = pub_run(start, answers);
    law_pub_run(gen_time, global_id, answers);
    lemma_workchain_work(start, answers, 0);
    gather::lemma_gathered_none(first, state_made());
    gather::lemma_gathered_none(last, state_made());
    gather::lemma_gathered_add(first, on_workchains, state_made());
    gather::lemma_gathered_add(first + on_workchains, last, state_made());
    assert(gather::gathered(run, state_made()) =~= states_due(gen_time, global_id, answers, 0));
    gather::lemma_gathered_none(first, hashes_recorded());
    gather::lemma_gathered_none(last, hashes_recorded());
    gather::lemma_gathered_add(first, on_workchains, hashes_recorded());
    gather::lemma_gathered_add(first + on_workchains, last, hashes_recorded());
    assert(gather::gathered(run, hashes_recorded()) =~= records_due(answers, 0));
    gather::lemma_gathered_none(first, on_state());
    gather::lemma_gathered_add(first, on_workchains, on_state());
    gather::lemma_gathered_add(first + on_workchains, last, on_state());
    let put = last.take(1);
    let reads = last.skip(1).take(2);
    let info = last.skip(3).take(2);
    let rest = last.skip(5);
    assert(last =~= put + reads + info + rest);
    gather::lemma_gathered_all(put, on_state());
    gather::lemma_gathered_none(reads, on_state());
    gather::lemma_gathered_all(info, on_state());
    gather::lemma_gathered_none(rest, on_state());
    gather::lemma_gathered_add(put, reads, on_state());
    gather::lemma_gathered_add(put + reads, info, on_state());
    gather::lemma_gathered_add(put + reads + info, rest, on_state());
    assert(gather::gathered(run, on_state()) =~= seq![
        PubAction::PutWorkchains { param: 12 },
        PubAction::ComputeSubset {
            shard: 0x8000_0000_0000_0000,
            workchain_id: (-1int) as i32,
            catchain_seqno: 0,
            time: gen_time,
        },
        PubAction::SetValidatorInfo {
            validator_list_hash_short: answers.hash_short,
            nx_cc_updated: true,
            catchain_seqno: 0,
        },
    ]);
}

} // verus!
