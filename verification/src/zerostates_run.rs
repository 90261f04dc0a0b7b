//! What making the zerostates asks for, from the description to the last file.
use vstd::prelude::*;

use crate::config::ZerostateConfig;
use crate::gather;
use crate::masterchain;
use crate::masterchain::McAction;
use crate::masterchain_run;
use crate::plan;
use crate::publication;
use crate::publication::PubAction;
use crate::publication_run;
use crate::zerostates;
use crate::zerostates::{ZerostateAction, ZerostateEvent};

verus! {

/// The outside's answers where nothing fails.
pub ghost struct ZerostateAnswers {
    pub masterchain: masterchain_run::McAnswers,
    pub publication: publication_run::PubAnswers,
}

/// The answer to the work that is asked for.
pub open spec fn zerostate_answer(
    answers: ZerostateAnswers,
    state: zerostates::ZerostateState,
) -> ZerostateEvent {
    match state.stage {
        zerostates::ZerostateStage::Masterchain(mc) => ZerostateEvent::Masterchain(
            masterchain_run::mc_answer(answers.masterchain, masterchain::mc_action(mc)),
        ),
        zerostates::ZerostateStage::Publication(publication) => ZerostateEvent::Publication(
            publication_run::pub_answer(answers.publication, publication.phase),
        ),
    }
}

/// The state is in order.
pub open spec fn in_order(state: zerostates::ZerostateState, answers: ZerostateAnswers) -> bool {
    &&& answers.publication.workchains@.len() <= usize::MAX
    &&& match state.stage {
        zerostates::ZerostateStage::Masterchain(mc) => {
            &&& masterchain::mc_well_formed(mc)
            &&& masterchain_run::mc_bounded(mc)
            &&& !(mc.phase is Finished)
        },
        zerostates::ZerostateStage::Publication(publication) => publication_run::agrees(
            publication,
            answers.publication,
        ),
    }
}

/// At most how much there is left to ask for in the present stage.
pub open spec fn zerostate_remaining(
    state: zerostates::ZerostateState,
    answers: ZerostateAnswers,
) -> int {
    match state.stage {
        zerostates::ZerostateStage::Masterchain(mc) => masterchain_run::mc_remaining(mc),
        zerostates::ZerostateStage::Publication(publication) => publication_run::pub_remaining(
            publication.phase,
            answers.publication.workchains@.len() as int,
        ),
    }
}

/// How many stages follow the present one.
pub open spec fn stages_left(state: zerostates::ZerostateState) -> int {
    if state.stage is Masterchain {
        1
    } else {
        0
    }
}

/// All that is asked for from here on, to the end, under the given answers.
#[verifier::opaque]
pub open spec fn zerostate_run(
    state: zerostates::ZerostateState,
    answers: ZerostateAnswers,
) -> Seq<ZerostateAction>
    decreases stages_left(state), zerostate_remaining(state, answers),
    when in_order(state, answers)
    via zerostate_run_terminates
{
    let action = zerostates::zerostate_action(state);
    if zerostates::zerostate_fits(action, zerostate_answer(answers, state)) {
        match zerostates::zerostate_next(state, zerostate_answer(answers, state)) {
            Ok(next) => seq![action] + zerostate_run(next, answers),
            Err(_) => seq![action],
        }
    } else {
        seq![action]
    }
}

#[via_fn]
proof fn zerostate_run_terminates(state: zerostates::ZerostateState, answers: ZerostateAnswers) {
    match state.stage {
        zerostates::ZerostateStage::Masterchain(mc) => {
            masterchain_run::law_mc_progress(
                mc,
                masterchain_run::mc_answer(answers.masterchain, masterchain::mc_action(mc)),
            );
        },
        zerostates::ZerostateStage::Publication(publication) => {
            if !(publication.phase is Finished) {
                publication_run::law_pub_progress(publication, answers.publication);
            }
        },
    }
}

/// Work for the masterchain state, as work for the zerostates.
pub open spec fn masterchain_part(actions: Seq<McAction>) -> Seq<ZerostateAction> {
    actions.map_values(|action: McAction| ZerostateAction::Masterchain(action))
}

/// Work for the files, as work for the zerostates.
pub open spec fn publication_part(actions: Seq<PubAction>) -> Seq<ZerostateAction> {
    actions.map_values(|action: PubAction| ZerostateAction::Publication(action))
}

proof fn lemma_publication_part(
    state: zerostates::ZerostateState,
    publication: publication::PubState,
    answers: ZerostateAnswers,
)
    requires
        in_order(state, answers),
        state.stage == zerostates::ZerostateStage::Publication(publication),
    ensures
        zerostate_run(state, answers) == publication_part(
            publication_run::pub_run(publication, answers.publication),
        ),
    decreases
            publication_run::pub_remaining(
                publication.phase,
                answers.publication.workchains@.len() as int,
            ),
{
    reveal_with_fuel(zerostate_run, 1);
    reveal_with_fuel(publication_run::pub_run, 1);
    if !(publication.phase is Finished) {
        publication_run::law_pub_progress(publication, answers.publication);
        let event = publication_run::pub_answer(answers.publication, publication.phase);
        let next = publication::pub_onward(publication, event);
        let onward = zerostates::ZerostateState {
            stage: zerostates::ZerostateStage::Publication(next),
            ..state
        };
        lemma_publication_part(onward, next, answers);
    }
    assert(zerostate_run(state, answers) =~= publication_part(
        publication_run::pub_run(publication, answers.publication),
    ));
}

proof fn lemma_masterchain_part(
    state: zerostates::ZerostateState,
    mc: masterchain::McState,
    answers: ZerostateAnswers,
)
    requires
        in_order(state, answers),
        state.stage == zerostates::ZerostateStage::Masterchain(mc),
        (answers.masterchain.is_key)(mc.minter_key),
        (answers.masterchain.is_key)(mc.config_key),
    ensures
        zerostate_run(state, answers) == masterchain_part(
            masterchain_run::mc_run(mc, answers.masterchain),
        ) + publication_part(
            publication_run::pub_run(
                publication::pub_start(state.gen_time, state.global_id),
                answers.publication,
            ),
        ),
    decreases masterchain_run::mc_remaining(mc),
{
    let event = masterchain_run::mc_answer(answers.masterchain, masterchain::mc_action(mc));
    let next = masterchain::mc_onward(mc, event);
    let start = publication::pub_start(state.gen_time, state.global_id);
    let onward = zerostates::ZerostateState {
        stage: zerostates::stage_after(state, next),
        ..state
    };
    let publishing = publication_part(publication_run::pub_run(start, answers.publication));
    masterchain_run::law_mc_progress(mc, event);
    assert(masterchain::mc_next(mc, event) == Ok::<masterchain::McState, McAction>(next));
    assert(next.minter_key == mc.minter_key && next.config_key == mc.config_key);
    assert(zerostate_run(state, answers) == seq![zerostates::zerostate_action(state)]
        + zerostate_run(onward, answers)) by {
        reveal_with_fuel(zerostate_run, 1);
    }
    assert(masterchain_run::mc_run(mc, answers.masterchain) == seq![masterchain::mc_action(mc)]
        + masterchain_run::mc_run(next, answers.masterchain)) by {
        reveal_with_fuel(masterchain_run::mc_run, 1);
    }
    if next.phase is Finished {
        assert(masterchain_run::mc_run(next, answers.masterchain) == Seq::<McAction>::empty()) by {
            reveal_with_fuel(masterchain_run::mc_run, 1);
        }
        lemma_publication_part(onward, start, answers);
    } else {
        lemma_masterchain_part(onward, next, answers);
    }
    assert(zerostate_run(state, answers) =~= masterchain_part(
        masterchain_run::mc_run(mc, answers.masterchain),
    ) + publishing);
}

/// Where nothing fails, all work for the masterchain state comes first, and then all work for the
/// workchains and the files, with the time and the network that the description gives.
pub proof fn law_zerostate_run(data: ZerostateConfig, answers: ZerostateAnswers)
    requires
        masterchain_run::fits_memory(data),
        answers.publication.workchains@.len() <= usize::MAX,
        (answers.masterchain.is_key)(data.minter_public_key),
        (answers.masterchain.is_key)(data.config_public_key),
    ensures
        zerostate_run(zerostates::zerostate_start(data), answers) == masterchain_part(
            masterchain_run::mc_run(masterchain::mc_start(data), answers.masterchain),
        ) + publication_part(
            publication_run::pub_run(
                publication::pub_start(data.gen_utime, data.global_id),
                answers.publication,
            ),
        ),
{
    masterchain_run::lemma_start(data);
    lemma_masterchain_part(
        zerostates::zerostate_start(data),
        masterchain::mc_start(data),
        answers,
    );
}

/// The hash after which a piece of work names a file that it writes, if it writes any.
pub open spec fn written_file() -> spec_fn(ZerostateAction) -> Option<[u8; 32]> {
    |action: ZerostateAction|
        match action {
            ZerostateAction::Masterchain(_) => None,
            ZerostateAction::Publication(action) => (publication_run::written_file())(action),
        }
}

proof fn lemma_publication_files(actions: Seq<PubAction>)
    ensures
        gather::gathered(publication_part(actions), written_file()) == gather::gathered(
            actions,
            publication_run::written_file(),
        ),
    decreases actions.len(),
{
    if actions.len() > 0 {
        lemma_publication_files(actions.drop_last());
        assert(publication_part(actions).drop_last() =~= publication_part(actions.drop_last()));
        assert(publication_part(actions).last() == ZerostateAction::Publication(actions.last()));
    }
}

/// Where nothing fails, one file is written for each workchain and then one for the masterchain
/// state, each under the hash of what is in it, and the hashes that are told are the masterchain
/// state's.
pub proof fn law_zerostate_files(data: ZerostateConfig, answers: ZerostateAnswers)
    requires
        masterchain_run::fits_memory(data),
        answers.publication.workchains@.len() <= usize::MAX,
        (answers.masterchain.is_key)(data.minter_public_key),
        (answers.masterchain.is_key)(data.config_public_key),
    ensures
        ({
            let run = zerostate_run(zerostates::zerostate_start(data), answers);
            let (root_hash, file_hash) = answers.publication.state_hashes;
            &&& gather::gathered(run, written_file()) == publication_run::workchain_files(
                answers.publication,
                0,
            ).push(file_hash)
            &&& run.len() > 0
            &&& run.last() == ZerostateAction::Publication(
                PubAction::Finished { root_hash, file_hash },
            )
        }),
{
    let before = masterchain_part(
        masterchain_run::mc_run(masterchain::mc_start(data), answers.masterchain),
    );
    let actions = publication_run::pub_run(
        publication::pub_start(data.gen_utime, data.global_id),
        answers.publication,
    );
    law_zerostate_run(data, answers);
    publication_run::law_files_written(data.gen_utime, data.global_id, answers.publication);
    lemma_publication_files(actions);
    gather::lemma_gathered_none(before, written_file());
    gather::lemma_gathered_add(before, publication_part(actions), written_file());
    assert(gather::gathered(before + publication_part(actions), written_file())
        =~= gather::gathered(publication_part(actions), written_file()));
}

/// Work for the masterchain state in another order is work for the zerostates in another order.
proof fn lemma_masterchain_part_permuted(left: Seq<McAction>, right: Seq<McAction>)
    requires
        left.to_multiset() == right.to_multiset(),
    ensures
        masterchain_part(left).to_multiset() == masterchain_part(right).to_multiset(),
{
    let pick = |action: McAction| Some(ZerostateAction::Masterchain(action));
    lemma_masterchain_part_is_gathered(left, pick);
    lemma_masterchain_part_is_gathered(right, pick);
    gather::lemma_gathered_permuted(left, right, pick);
}

proof fn lemma_masterchain_part_is_gathered(
    actions: Seq<McAction>,
    pick: spec_fn(McAction) -> Option<ZerostateAction>,
)
    requires
        forall|action: McAction| #[trigger]
            pick(action) == Some(ZerostateAction::Masterchain(action)),
    ensures
        gather::gathered(actions, pick) == masterchain_part(actions),
    decreases actions.len(),
{
    if actions.len() > 0 {
        lemma_masterchain_part_is_gathered(actions.drop_last(), pick);
    }
    assert(gather::gathered(actions, pick) =~= masterchain_part(actions));
}

/// The zerostates depend on what is described and not on the order in which the accounts are listed:
/// where the outside answers the same, the same work is asked for, the same files are written in the
/// same order, and the same is told in the end.
pub proof fn law_zerostates_depend_on_what_is_described(
    left: ZerostateConfig,
    right: ZerostateConfig,
    answers: ZerostateAnswers,
)
    requires
        masterchain_run::same_but_account_order(left, right),
        masterchain_run::fits_memory(left),
        answers.publication.workchains@.len() <= usize::MAX,
        (answers.masterchain.is_key)(left.minter_public_key),
        (answers.masterchain.is_key)(left.config_public_key),
    ensures
        ({
            let left_run = zerostate_run(zerostates::zerostate_start(left), answers);
            let right_run = zerostate_run(zerostates::zerostate_start(right), answers);
            &&& left_run.to_multiset() == right_run.to_multiset()
            &&& gather::gathered(left_run, written_file()) == gather::gathered(
                right_run,
                written_file(),
            )
            &&& left_run.last() == right_run.last()
        }),
{
    let left_start = masterchain::mc_start(left);
    let right_start = masterchain::mc_start(right);
    let left_mc = masterchain_run::mc_run(left_start, answers.masterchain);
    let right_mc = masterchain_run::mc_run(right_start, answers.masterchain);
    masterchain_run::law_account_order_in_a_run(left, right, answers.masterchain);
    law_zerostate_run(left, answers);
    law_zerostate_run(right, answers);
    law_zerostate_files(left, answers);
    law_zerostate_files(right, answers);
    let before = masterchain_run::system_actions(left_start);
    let after = masterchain_run::validator_actions(
        left.config.validator_set.validators@,
        answers.masterchain,
        0,
    ) + masterchain_run::write_actions(plan::state_steps(left), 0);
    let left_work = masterchain_run::account_actions(
        masterchain_run::complete_book(left_start, answers.masterchain),
        0,
    );
    let right_work = masterchain_run::account_actions(
        masterchain_run::complete_book(right_start, answers.masterchain),
        0,
    );
    assert(left_mc.to_multiset() == right_mc.to_multiset()) by {
        vstd::seq_lib::lemma_multiset_commutative(before, left_work);
        vstd::seq_lib::lemma_multiset_commutative(before + left_work, after);
        vstd::seq_lib::lemma_multiset_commutative(before, right_work);
        vstd::seq_lib::lemma_multiset_commutative(before + right_work, after);
    }
    lemma_masterchain_part_permuted(left_mc, right_mc);
    let publishing = publication_part(
        publication_run::pub_run(
            publication::pub_start(left.gen_utime, left.global_id),
            answers.publication,
        ),
    );
    vstd::seq_lib::lemma_multiset_commutative(masterchain_part(left_mc), publishing);
    vstd::seq_lib::lemma_multiset_commutative(masterchain_part(right_mc), publishing);
}

} // verus!
