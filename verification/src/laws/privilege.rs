//! The exclusive configuration privilege.

use vstd::prelude::*;
use crate::run::{
    actions_of, is_resource_query, lemma_once, lemma_run_in_order, lemma_stage_never_goes_back,
    lemma_stage_was_reached, stage, state_after,
};
use crate::session::{Action, Outcome, Phase};

verus! {

/// The configuration privilege is asked for at most once and given back at
/// most once in a run. It is asked for before the resource graph is read for
/// the first time, and given back only after the plane commit. A run that
/// ends with the picture on the screen has done both.
pub proof fn lemma_master_lock_discipline(
    first_card: u32,
    last_card: u32,
    outcomes: Seq<Outcome>,
)
    ensures
        ({
            let actions = actions_of(first_card, last_card, outcomes);
            &&& forall|i: int, j: int|
                0 <= i < actions.len() && 0 <= j < actions.len() && #[trigger] actions[i]
                    == Action::AcquireMaster && #[trigger] actions[j] == Action::AcquireMaster
                    ==> i == j
            &&& forall|i: int, j: int|
                0 <= i < actions.len() && 0 <= j < actions.len() && #[trigger] actions[i]
                    == Action::ReleaseMaster && #[trigger] actions[j] == Action::ReleaseMaster
                    ==> i == j
            &&& forall|j: int|
                0 <= j < actions.len() && is_resource_query(#[trigger] actions[j]) ==> exists|
                    i: int,
                | 0 <= i < j && #[trigger] actions[i] == Action::AcquireMaster
            &&& forall|i: int, j: int|
                0 <= i < actions.len() && 0 <= j < actions.len() && #[trigger] actions[i]
                    == Action::AcquireMaster && is_resource_query(#[trigger] actions[j]) ==> i < j
            &&& forall|j: int|
                0 <= j < actions.len() && #[trigger] actions[j] == Action::ReleaseMaster
                    ==> exists|i: int| 0 <= i < j && #[trigger] actions[i] is SetPlane
            &&& forall|i: int, j: int|
                0 <= i < actions.len() && 0 <= j < actions.len() && #[trigger] actions[i]
                    is SetPlane && #[trigger] actions[j] == Action::ReleaseMaster ==> i < j
            &&& state_after(first_card, last_card, outcomes).phase == Phase::Presented ==> {
                &&& exists|i: int|
                    0 <= i < actions.len() && #[trigger] actions[i] == Action::AcquireMaster
                &&& exists|j: int|
                    0 <= j < actions.len() && #[trigger] actions[j] == Action::ReleaseMaster
            }
        }),
{
    let actions = actions_of(first_card, last_card, outcomes);
    lemma_run_in_order(first_card, last_card, outcomes);
    assert forall|i: int, j: int|
        0 <= i < actions.len() && 0 <= j < actions.len() && #[trigger] actions[i]
            == Action::AcquireMaster && #[trigger] actions[j]
            == Action::AcquireMaster implies i == j by {
        lemma_once(first_card, actions, i, j);
    }
    assert forall|i: int, j: int|
        0 <= i < actions.len() && 0 <= j < actions.len() && #[trigger] actions[i]
            == Action::ReleaseMaster && #[trigger] actions[j]
            == Action::ReleaseMaster implies i == j by {
        lemma_once(first_card, actions, i, j);
    }
    assert forall|j: int|
        0 <= j < actions.len() && is_resource_query(#[trigger] actions[j]) implies exists|i: int|
        0 <= i < j && #[trigger] actions[i] == Action::AcquireMaster by {
        lemma_stage_was_reached(first_card, actions, j, 1);
        let i = choose|i: int| 0 <= i <= j && stage(#[trigger] actions[i]) == 1;
        assert(actions[i] == Action::AcquireMaster);
    }
    assert forall|i: int, j: int|
        0 <= i < actions.len() && 0 <= j < actions.len() && #[trigger] actions[i]
            == Action::AcquireMaster && is_resource_query(#[trigger] actions[j]) implies i < j by {
        if j <= i {
            lemma_stage_never_goes_back(first_card, actions, j, i);
        }
    }
    assert forall|j: int|
        0 <= j < actions.len() && #[trigger] actions[j] == Action::ReleaseMaster implies exists|
        i: int,
    | 0 <= i < j && #[trigger] actions[i] is SetPlane by {
        lemma_stage_was_reached(first_card, actions, j, 13);
        let i = choose|i: int| 0 <= i <= j && stage(#[trigger] actions[i]) == 13;
        assert(actions[i] is SetPlane);
    }
    assert forall|i: int, j: int|
        0 <= i < actions.len() && 0 <= j < actions.len() && #[trigger] actions[i] is SetPlane
            && #[trigger] actions[j] == Action::ReleaseMaster implies i < j by {
        if j <= i {
            lemma_stage_never_goes_back(first_card, actions, j, i);
        }
    }
    if state_after(first_card, last_card, outcomes).phase == Phase::Presented {
        let end = actions.len() - 1;
        assert(actions[end] == Action::Hold);
        lemma_stage_was_reached(first_card, actions, end, 1);
        let i = choose|i: int| 0 <= i <= end && stage(#[trigger] actions[i]) == 1;
        assert(actions[i] == Action::AcquireMaster);
        lemma_stage_was_reached(first_card, actions, end, 14);
        let j = choose|j: int| 0 <= j <= end && stage(#[trigger] actions[j]) == 14;
        assert(actions[j] == Action::ReleaseMaster);
    }
}

} // verus!
