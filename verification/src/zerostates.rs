//! The zerostates of a network, from their description to the files.
use vstd::prelude::*;

use crate::config::ZerostateConfig;
use crate::gather;
use crate::json;
use crate::masterchain;
use crate::masterchain::{prepare_mc_zerostate, McAction, McEvent, McJob};
use crate::publication;
use crate::publication::{zero_state_json, PubAction, PubEvent, PubFailure, Publication};

verus! {

/// A piece of outside work.
#[derive(Clone, Copy, Debug, PartialEq, Eq)]
pub enum ZerostateAction {
    /// For the masterchain state.
    Masterchain(McAction),
    /// For the workchains' states and the files.
    Publication(PubAction),
}

/// How a piece of outside work went.
#[derive(Debug, PartialEq, Eq)]
pub enum ZerostateEvent {
    Masterchain(McEvent),
    Publication(PubEvent),
}

/// Why there are no zerostates.
#[derive(Clone, Copy, Debug, PartialEq, Eq)]
pub enum ZerostateFailure {
    /// The description cannot be read.
    Description,
    Masterchain(McAction),
    Publication(PubFailure),
}

/// How far the zerostates are.
pub ghost enum ZerostateStage {
    Masterchain(masterchain::McState),
    Publication(publication::PubState),
}

/// Everything that decides what comes next.
pub ghost struct ZerostateState {
    pub gen_time: u32,
    pub global_id: i32,
    pub stage: ZerostateStage,
}

/// The state of zerostates that have just been started.
pub open spec fn zerostate_start(data: ZerostateConfig) -> ZerostateState {
    ZerostateState {
        gen_time: data.gen_utime,
        global_id: data.global_id,
        stage: ZerostateStage::Masterchain(masterchain::mc_start(data)),
    }
}

/// The work that is asked for.
pub open spec fn zerostate_action(state: ZerostateState) -> ZerostateAction {
    match state.stage {
        ZerostateStage::Masterchain(mc) => ZerostateAction::Masterchain(masterchain::mc_action(mc)),
        ZerostateStage::Publication(publication) => ZerostateAction::Publication(
            publication::pub_action(publication),
        ),
    }
}

/// Whether an event can be the outcome of a piece of work.
pub open spec fn zerostate_fits(action: ZerostateAction, event: ZerostateEvent) -> bool {
    match action {
        ZerostateAction::Masterchain(action) => event matches ZerostateEvent::Masterchain(event)
            && masterchain::mc_fits(action, event),
        ZerostateAction::Publication(action) => event matches ZerostateEvent::Publication(event)
            && publication::pub_fits(action, event),
    }
}

/// The stage after a step on the masterchain state: once that is complete, it is published.
pub open spec fn stage_after(state: ZerostateState, mc: masterchain::McState) -> ZerostateStage {
    if mc.phase is Finished {
        ZerostateStage::Publication(publication::pub_start(state.gen_time, state.global_id))
    } else {
        ZerostateStage::Masterchain(mc)
    }
}

/// What an outcome leads to: the next state, or the end.
pub open spec fn zerostate_next(
    state: ZerostateState,
    event: ZerostateEvent,
) -> Result<ZerostateState, ZerostateFailure> {
    match state.stage {
        ZerostateStage::Masterchain(mc) => match masterchain::mc_next(mc, event->Masterchain_0) {
            Ok(next) => Ok(ZerostateState { stage: stage_after(state, next), ..state }),
            Err(action) => Err(ZerostateFailure::Masterchain(action)),
        },
        ZerostateStage::Publication(publication) => match publication::pub_next(
            publication,
            event->Publication_0,
        ) {
            Ok(next) => Ok(ZerostateState { stage: ZerostateStage::Publication(next), ..state }),
            Err(failure) => Err(ZerostateFailure::Publication(failure)),
        },
    }
}

/// What is told of a failure, on top of the failure itself, the widest first.
pub open spec fn zerostate_contexts(failure: ZerostateFailure) -> Seq<Seq<char>> {
    match failure {
        ZerostateFailure::Description => seq![
            "Failed to prepare masterchain zerostate"@,
            "Failed to parse state config"@,
        ],
        ZerostateFailure::Masterchain(action) => seq!["Failed to prepare masterchain zerostate"@]
            + gather::picked(masterchain::mc_context(action)),
        ZerostateFailure::Publication(failure) => gather::picked(
            publication::pub_context(failure),
        ),
    }
}

/// Texts in place of strings.
pub open spec fn texts(strings: Seq<&str>) -> Seq<Seq<char>> {
    strings.map_values(|string: &str| string@)
}

fn push_context(contexts: &mut Vec<&'static str>, context: Option<&'static str>)
    ensures
        texts(final(contexts)@) == texts(old(contexts)@) + gather::picked(
            (match context {
                Some(text) => Some(text@),
                None => None,
            }),
        ),
{
    if let Some(text) = context {
        contexts.push(text);
    }
    assert(texts(contexts@) =~= texts(old(contexts)@) + gather::picked(
        (match context {
            Some(text) => Some(text@),
            None => None,
        }),
    ));
}

impl ZerostateFailure {
    /// What is told of the failure, on top of the failure itself, the widest first.
    pub fn contexts(&self) -> (contexts: Vec<&'static str>)
        ensures
            texts(contexts@) == zerostate_contexts(*self),
    {
        let mut contexts: Vec<&'static str> = Vec::new();
        match self {
            ZerostateFailure::Description => {
                contexts.push("Failed to prepare masterchain zerostate");
                contexts.push("Failed to parse state config");
            },
            ZerostateFailure::Masterchain(action) => {
                contexts.push("Failed to prepare masterchain zerostate");
                push_context(&mut contexts, action.context());
            },
            ZerostateFailure::Publication(failure) => {
                push_context(&mut contexts, failure.context());
            },
        }
        assert(texts(contexts@) =~= zerostate_contexts(*self));
        contexts
    }
}

enum Stage {
    Masterchain(McJob),
    Publication(Publication),
}

/// Zerostates in the making.
pub struct Zerostates {
    gen_time: u32,
    global_id: i32,
    stage: Stage,
}

impl View for Zerostates {
    type V = ZerostateState;

    closed spec fn view(&self) -> ZerostateState {
        ZerostateState {
            gen_time: self.gen_time,
            global_id: self.global_id,
            stage: match self.stage {
                Stage::Masterchain(job) => ZerostateStage::Masterchain(job@),
                Stage::Publication(publication) => ZerostateStage::Publication(publication@),
            },
        }
    }
}

/// Starts to make the zerostates that are described.
pub fn prepare_zerostates(config: ZerostateConfig) -> (zerostates: Zerostates)
    ensures
        zerostates@ == zerostate_start(config),
{
    let gen_time = config.gen_utime;
    let global_id = config.global_id;
    Zerostates { gen_time, global_id, stage: Stage::Masterchain(prepare_mc_zerostate(config)) }
}

impl Zerostates {
    /// The work that is asked for.
    pub fn action(&self) -> (action: ZerostateAction)
        ensures
            action == zerostate_action(self@),
    {
        match &self.stage {
            Stage::Masterchain(job) => ZerostateAction::Masterchain(job.action()),
            Stage::Publication(publication) => ZerostateAction::Publication(publication.action()),
        }
    }

    /// Whether an event can be the outcome of the work that is asked for.
    pub fn accepts(&self, event: &ZerostateEvent) -> (accepted: bool)
        ensures
            accepted == zerostate_fits(zerostate_action(self@), *event),
    {
        match (&self.stage, event) {
            (Stage::Masterchain(job), ZerostateEvent::Masterchain(event)) => job.accepts(event),
            (Stage::Publication(publication), ZerostateEvent::Publication(event)) => {
                publication.accepts(event)
            },
            _ => false,
        }
    }

    /// Takes in how the work went. The result is the zerostates as they go on, or why they end.
    pub fn advance(self, event: ZerostateEvent) -> (result: Result<Zerostates, ZerostateFailure>)
        requires
            zerostate_fits(zerostate_action(self@), event),
        ensures
            match result {
                Ok(zerostates) => zerostate_next(self@, event) == Ok::<
                    ZerostateState,
                    ZerostateFailure,
                >(zerostates@),
                Err(failure) => zerostate_next(self@, event) == Err::<
                    ZerostateState,
                    ZerostateFailure,
                >(failure),
            },
    {
        let Zerostates { gen_time, global_id, stage } = self;
        match (stage, event) {
            (Stage::Masterchain(job), ZerostateEvent::Masterchain(event)) => {
                match job.advance(event) {
                    Ok(job) => {
                        let stage = match job.action() {
                            McAction::Finished => Stage::Publication(
                                Publication::start(gen_time, global_id),
                            ),
                            _ => Stage::Masterchain(job),
                        };
                        Ok(Zerostates { gen_time, global_id, stage })
                    },
                    Err(action) => Err(ZerostateFailure::Masterchain(action)),
                }
            },
            (Stage::Publication(publication), ZerostateEvent::Publication(event)) => {
                match publication.advance(event) {
                    Ok(publication) => {
                        let stage = Stage::Publication(publication);
                        Ok(Zerostates { gen_time, global_id, stage })
                    },
                    Err(failure) => Err(ZerostateFailure::Publication(failure)),
                }
            },
            (stage, _) => Ok(Zerostates { gen_time, global_id, stage }),
        }
    }

    /// What is told of the zerostates once they are all written.
    pub fn outcome(&self) -> (outcome: Option<String>)
        ensures
            match outcome {
                Some(text) => zerostate_action(self@) matches ZerostateAction::Publication(
                    PubAction::Finished { root_hash, file_hash },
                ) && text@ == json::pretty_text(
                    publication::zero_state_fields(root_hash@, file_hash@),
                ),
                None => !(zerostate_action(self@) matches ZerostateAction::Publication(
                    PubAction::Finished { .. },
                )),
            },
    {
        match self.action() {
            ZerostateAction::Publication(PubAction::Finished { root_hash, file_hash }) => {
                Some(zero_state_json(&root_hash, &file_hash))
            },
            _ => None,
        }
    }
}

/// An outcome answers the work of the part that it belongs to.
pub proof fn law_zerostate_outcomes(
    mc_action: McAction,
    mc_event: McEvent,
    pub_action: PubAction,
    pub_event: PubEvent,
)
    ensures
        ({
            let masterchain = ZerostateAction::Masterchain(mc_action);
            let publication = ZerostateAction::Publication(pub_action);
            &&& zerostate_fits(masterchain, ZerostateEvent::Masterchain(mc_event))
                <==> masterchain::mc_fits(mc_action, mc_event)
            &&& zerostate_fits(publication, ZerostateEvent::Publication(pub_event))
                <==> publication::pub_fits(pub_action, pub_event)
            &&& !zerostate_fits(masterchain, ZerostateEvent::Publication(pub_event))
            &&& !zerostate_fits(publication, ZerostateEvent::Masterchain(mc_event))
        }),
{
}

/// The zerostates end where one of their parts does, for its reason.
pub proof fn law_zerostate_failures(state: ZerostateState, event: ZerostateEvent)
    requires
        zerostate_fits(zerostate_action(state), event),
    ensures
        state.stage matches ZerostateStage::Masterchain(mc) ==> match masterchain::mc_next(
            mc,
            event->Masterchain_0,
        ) {
            Ok(_) => zerostate_next(state, event) is Ok,
            Err(action) => zerostate_next(state, event) == Err::<ZerostateState, ZerostateFailure>(
                ZerostateFailure::Masterchain(action),
            ),
        },
        state.stage matches ZerostateStage::Publication(publication) ==> match publication::pub_next(
            publication,
            event->Publication_0,
        ) {
            Ok(_) => zerostate_next(state, event) is Ok,
            Err(failure) => zerostate_next(state, event) == Err::<ZerostateState, ZerostateFailure>(
                ZerostateFailure::Publication(failure),
            ),
        },
{
}

/// All failures before the masterchain state is complete are told as such first, and then by their
/// own text, if they have one; the later ones by their own text alone.
pub proof fn law_contexts_told(action: McAction, failure: PubFailure)
    ensures
        ({
            let first = zerostate_contexts(ZerostateFailure::Masterchain(action));
            let later = zerostate_contexts(ZerostateFailure::Publication(failure));
            &&& first[0] == "Failed to prepare masterchain zerostate"@
            &&& first[0] == zerostate_contexts(ZerostateFailure::Description)[0]
            &&& match masterchain::mc_context(action) {
                Some(text) => first.len() == 2 && first[1] == text,
                None => first.len() == 1,
            }
            &&& match publication::pub_context(failure) {
                Some(text) => later.len() == 1 && later[0] == text,
                None => later.len() == 0,
            }
        }),
{
}

/// Texts are those of the strings, one for one and in order.
pub proof fn law_texts(strings: Seq<&str>)
    ensures
        texts(strings).len() == strings.len(),
        forall|i: int| 0 <= i < strings.len() ==> (#[trigger] texts(strings)[i]) == strings[i]@,
{
}

} // verus!
