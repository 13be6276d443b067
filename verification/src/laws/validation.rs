//! The validation of the plane's pixel format.

use vstd::prelude::*;
use crate::failure::Failure;
use crate::run::{
    actions_of, lemma_abort_stays, lemma_answer, lemma_comes_right_after, lemma_first_abort,
    lemma_run_in_order, lemma_stage_never_goes_back, stage, state_after,
};
use crate::session::{Action, Outcome, Phase, SessionModel};

verus! {

/// The session asks for the picture to be decoded only in answer to a plane
/// that is free for the CRTC and scans out ARGB8888, and it gives the run up
/// in answer to a plane that is free for the CRTC and does not.
pub proof fn lemma_plane_is_validated(session: SessionModel, outcome: Outcome)
    ensures
        session.react(outcome).1 == Action::DecodePicture ==> {
            &&& session.phase matches Phase::Searching { crtc, .. }
            &&& outcome matches Outcome::Plane { plane }
            &&& plane.is_free_for(crtc)
            &&& plane.supports_argb8888()
        },
        ({
            &&& session.phase matches Phase::Searching { crtc, .. }
            &&& outcome matches Outcome::Plane { plane }
            &&& plane.is_free_for(crtc)
            &&& !plane.supports_argb8888()
        }) ==> session.react(outcome) == session.give_up(Failure::UnsupportedFormat),
{
}

/// A pixel buffer is allocated only right after the picture was decoded, and
/// the picture is decoded only in answer to a plane that scans out ARGB8888.
pub proof fn lemma_format_checked_before_allocation(
    first_card: u32,
    last_card: u32,
    outcomes: Seq<Outcome>,
    j: int,
)
    requires
        0 <= j < actions_of(first_card, last_card, outcomes).len(),
        actions_of(first_card, last_card, outcomes)[j] is CreateBuffer,
    ensures
        2 <= j,
        actions_of(first_card, last_card, outcomes)[j - 1] == Action::DecodePicture,
        outcomes[j - 2] matches Outcome::Plane { plane } && plane.supports_argb8888(),
{
    let actions = actions_of(first_card, last_card, outcomes);
    lemma_run_in_order(first_card, last_card, outcomes);
    lemma_comes_right_after(first_card, actions, j);
    assert(actions[j - 1] == Action::DecodePicture);
    lemma_comes_right_after(first_card, actions, j - 1);
    lemma_answer(first_card, last_card, outcomes, j - 2);
    lemma_plane_is_validated(
        state_after(first_card, last_card, outcomes.take(j - 2)),
        outcomes[j - 2],
    );
}

/// A run that is given up because the plane does not scan out ARGB8888 has
/// not gone beyond the look at the planes: the picture was not decoded and no
/// buffer was allocated, and neither happens later.
pub proof fn lemma_rejected_plane_never_allocates(
    first_card: u32,
    last_card: u32,
    outcomes: Seq<Outcome>,
    at: int,
)
    requires
        0 <= at < actions_of(first_card, last_card, outcomes).len(),
        actions_of(first_card, last_card, outcomes)[at] == (Action::Abort {
            failure: Failure::UnsupportedFormat,
        }),
    ensures
        forall|j: int|
            0 <= j < actions_of(first_card, last_card, outcomes).len() ==> {
                let action = #[trigger] actions_of(first_card, last_card, outcomes)[j];
                stage(action) <= 7 || action == Action::Abort {
                    failure: Failure::UnsupportedFormat,
                }
            },
{
    let actions = actions_of(first_card, last_card, outcomes);
    lemma_run_in_order(first_card, last_card, outcomes);
    let first = lemma_first_abort(first_card, actions, at);
    assert(first > 0);
    assert(actions[first - 1] is QueryPlane);
    assert forall|j: int| 0 <= j < actions.len() implies {
        let action = #[trigger] actions[j];
        stage(action) <= 7 || action == Action::Abort { failure: Failure::UnsupportedFormat }
    } by {
        if j < first {
            lemma_stage_never_goes_back(first_card, actions, j, first - 1);
        } else {
            lemma_abort_stays(first_card, actions, first, j);
        }
    }
}

} // verus!
