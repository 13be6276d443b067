//! What is put on the screen.

use vstd::prelude::*;
use crate::blit::layout_fits;
use crate::format::{ARGB8888, BITS_PER_PIXEL};
use crate::model::ConnectorState;
use crate::present::full_extent;
use crate::run::{
    actions_of, lemma_actions_of_prefix, lemma_answer, lemma_run_in_order, state_after,
};
use crate::session::{Action, Outcome, Phase, SessionModel};

verus! {

/// The CRTC that a session has settled on, from the moment it is known until
/// the commit is composed.
pub open spec fn crtc_in_use(phase: Phase) -> Option<u32> {
    match phase {
        Phase::ListingPlanes { crtc } => Some(crtc),
        Phase::Searching { crtc, .. } => Some(crtc),
        Phase::Decoding { crtc, .. } => Some(crtc),
        Phase::Allocating { crtc, .. } => Some(crtc),
        Phase::Mapping { crtc, .. } => Some(crtc),
        Phase::Writing { crtc, .. } => Some(crtc),
        Phase::Registering { crtc, .. } => Some(crtc),
        _ => None,
    }
}

/// Whether the outcome at position `k` of a run reports the CRTC `crtc`, at
/// the end of the chain that leads to it: a connected connector, the encoder
/// that this connector names, and the CRTC that this encoder names.
pub open spec fn output_resolved_at(
    outcomes: Seq<Outcome>,
    actions: Seq<Action>,
    k: int,
    crtc: u32,
) -> bool {
    &&& 2 <= k < outcomes.len()
    &&& outcomes[k - 2] matches Outcome::Connector { connector }
    &&& connector.state == ConnectorState::Connected
    &&& actions[k - 1] matches Action::QueryEncoder { handle: encoder_asked }
    &&& connector.current_encoder == Some(encoder_asked)
    &&& outcomes[k - 1] matches Outcome::Encoder { encoder }
    &&& actions[k] matches Action::QueryCrtc { handle: crtc_asked }
    &&& encoder.crtc == Some(crtc_asked)
    &&& outcomes[k] matches Outcome::Crtc { crtc: reported }
    &&& reported.handle == crtc
    &&& actions[k + 1] == Action::QueryPlaneHandles
}

/// Whether the action at position `j` of a run commits what the run has
/// resolved and filled: the plane that was validated, for the CRTC that it is
/// free for, with the framebuffer that was registered, over the whole extent
/// of the buffer that was allocated for the picture and written with a layout
/// that fits its mapping.
pub open spec fn commit_shown_at(outcomes: Seq<Outcome>, actions: Seq<Action>, j: int) -> bool {
    &&& 6 <= j < actions.len()
    &&& actions[j] matches Action::SetPlane { commit }
    &&& outcomes[j - 6] matches Outcome::Plane { plane }
    &&& plane.is_free_for(commit.crtc)
    &&& plane.supports_argb8888()
    &&& plane.handle == commit.plane
    &&& actions[j - 5] == Action::DecodePicture
    &&& outcomes[j - 5] matches Outcome::Picture { width: columns, height: rows }
    &&& actions[j - 4] == Action::CreateBuffer {
        width: columns,
        height: rows,
        format: ARGB8888,
        bits_per_pixel: BITS_PER_PIXEL,
    }
    &&& outcomes[j - 4] matches Outcome::Buffer { width, height, pitch }
    &&& actions[j - 3] == Action::MapBuffer
    &&& outcomes[j - 3] matches Outcome::Mapped { len }
    &&& layout_fits(width, height, pitch, len)
    &&& actions[j - 2] == Action::WritePixels { width, height, pitch }
    &&& outcomes[j - 2] == Outcome::Done
    &&& actions[j - 1] == Action::AddFramebuffer {
        depth: BITS_PER_PIXEL,
        bits_per_pixel: BITS_PER_PIXEL,
    }
    &&& outcomes[j - 1] matches Outcome::Framebuffer { handle }
    &&& commit == full_extent(plane.handle, commit.crtc, handle, width, height)
}

/// One step back from a session that fills the buffer or registers it: what
/// the session was told last, and what it had settled on before.
proof fn lemma_filling_step(session: SessionModel, outcome: Outcome)
    ensures
        ({
            let (next, action) = session.react(outcome);
            &&& next.phase matches Phase::Registering { plane, crtc, width, height } ==> {
                &&& session.phase == Phase::Writing { plane, crtc, width, height }
                &&& outcome == Outcome::Done
                &&& action == Action::AddFramebuffer {
                    depth: BITS_PER_PIXEL,
                    bits_per_pixel: BITS_PER_PIXEL,
                }
            }
            &&& next.phase matches Phase::Writing { plane, crtc, width, height } ==> {
                &&& session.phase matches Phase::Mapping {
                    plane: chosen,
                    crtc: driven,
                    width: columns,
                    height: rows,
                    pitch,
                }
                &&& chosen == plane && driven == crtc && columns == width && rows == height
                &&& outcome matches Outcome::Mapped { len }
                &&& layout_fits(width, height, pitch, len)
                &&& action == Action::WritePixels { width, height, pitch }
            }
            &&& next.phase matches Phase::Mapping { plane, crtc, width, height, pitch } ==> {
                &&& session.phase == Phase::Allocating { plane, crtc }
                &&& outcome == Outcome::Buffer { width, height, pitch }
                &&& action == Action::MapBuffer
            }
            &&& next.phase matches Phase::Allocating { plane, crtc } ==> {
                &&& session.phase == Phase::Decoding { plane, crtc }
                &&& outcome matches Outcome::Picture { width, height }
                &&& action == Action::CreateBuffer {
                    width,
                    height,
                    format: ARGB8888,
                    bits_per_pixel: BITS_PER_PIXEL,
                }
            }
            &&& next.phase matches Phase::Decoding { plane, crtc } ==> {
                &&& session.phase matches Phase::Searching { crtc: driven, .. }
                &&& driven == crtc
                &&& outcome matches Outcome::Plane { plane: found }
                &&& found.handle == plane
                &&& found.is_free_for(crtc)
                &&& found.supports_argb8888()
                &&& action == Action::DecodePicture
            }
        }),
{
}

/// One step back from a session that resolves the output: what the session
/// was told last, and what it asked for in answer.
proof fn lemma_resolving_step(session: SessionModel, outcome: Outcome)
    ensures
        ({
            let (next, action) = session.react(outcome);
            &&& next.phase is FetchingCrtc ==> {
                &&& session.phase is FetchingEncoder
                &&& outcome matches Outcome::Encoder { encoder }
                &&& action matches Action::QueryCrtc { handle }
                &&& encoder.crtc == Some(handle)
            }
            &&& next.phase is FetchingEncoder ==> {
                &&& session.phase is Probing
                &&& outcome matches Outcome::Connector { connector }
                &&& connector.state == ConnectorState::Connected
                &&& action matches Action::QueryEncoder { handle }
                &&& connector.current_encoder == Some(handle)
            }
            &&& crtc_in_use(next.phase) matches Some(crtc) ==> {
                ||| crtc_in_use(session.phase) == Some(crtc)
                ||| {
                    &&& session.phase is FetchingCrtc
                    &&& outcome matches Outcome::Crtc { crtc: reported }
                    &&& reported.handle == crtc
                    &&& action == Action::QueryPlaneHandles
                }
            }
        }),
{
}

/// The CRTC that a run has settled on is the one that the device reported at
/// the end of the chain from a connected connector: the connector names the
/// encoder that was asked for, and the encoder names the CRTC that was asked
/// for.
pub proof fn lemma_crtc_drives_a_connected_output(
    first_card: u32,
    last_card: u32,
    outcomes: Seq<Outcome>,
)
    requires
        crtc_in_use(state_after(first_card, last_card, outcomes).phase) is Some,
    ensures
        exists|k: int|
            output_resolved_at(
                outcomes,
                actions_of(first_card, last_card, outcomes),
                k,
                crtc_in_use(state_after(first_card, last_card, outcomes).phase)->0,
            ),
    decreases outcomes.len(),
{
    let actions = actions_of(first_card, last_card, outcomes);
    let crtc = crtc_in_use(state_after(first_card, last_card, outcomes).phase)->0;
    lemma_run_in_order(first_card, last_card, outcomes);
    assert(outcomes.len() > 0);
    let earlier = outcomes.drop_last();
    let at = outcomes.len() - 1;
    assert(outcomes.take(at) =~= earlier);
    lemma_answer(first_card, last_card, outcomes, at);
    assert(outcomes.take(at + 1) =~= outcomes);
    let before = state_after(first_card, last_card, earlier);
    lemma_resolving_step(before, outcomes[at]);
    if crtc_in_use(before.phase) == Some(crtc) {
        lemma_crtc_drives_a_connected_output(first_card, last_card, earlier);
        let k = choose|k: int|
            output_resolved_at(earlier, actions_of(first_card, last_card, earlier), k, crtc);
        lemma_actions_of_prefix(first_card, last_card, outcomes, at);
        assert(output_resolved_at(outcomes, actions, k, crtc));
    } else {
        // the CRTC was reported last: look at the two steps before
        assert(before.phase is FetchingCrtc);
        assert(at >= 1);
        lemma_answer(first_card, last_card, outcomes, at - 1);
        let second = state_after(first_card, last_card, outcomes.take(at - 1));
        lemma_resolving_step(second, outcomes[at - 1]);
        assert(second.phase is FetchingEncoder);
        assert(at >= 2);
        lemma_answer(first_card, last_card, outcomes, at - 2);
        let third = state_after(first_card, last_card, outcomes.take(at - 2));
        lemma_resolving_step(third, outcomes[at - 2]);
        assert(output_resolved_at(outcomes, actions, at, crtc));
    }
}

/// Whatever a run commits is what it has resolved and filled: the commit
/// names the plane that was validated six steps before, the framebuffer that
/// was registered last, and the whole extent of the buffer that was
/// allocated, mapped and written in between; and its CRTC is the one that
/// drives a connected output.
pub proof fn lemma_commit_shows_what_was_resolved(
    first_card: u32,
    last_card: u32,
    outcomes: Seq<Outcome>,
    j: int,
)
    requires
        0 <= j < actions_of(first_card, last_card, outcomes).len(),
        actions_of(first_card, last_card, outcomes)[j] is SetPlane,
    ensures
        commit_shown_at(outcomes, actions_of(first_card, last_card, outcomes), j),
        exists|k: int|
            k < j - 6 && output_resolved_at(
                outcomes,
                actions_of(first_card, last_card, outcomes),
                k,
                actions_of(first_card, last_card, outcomes)[j]->commit.crtc,
            ),
{
    let actions = actions_of(first_card, last_card, outcomes);
    lemma_run_in_order(first_card, last_card, outcomes);
    assert(j >= 1);
    lemma_answer(first_card, last_card, outcomes, j - 1);
    let s1 = state_after(first_card, last_card, outcomes.take(j - 1));
    assert(s1.phase is Registering);
    assert(outcomes.take(0) =~= Seq::<Outcome>::empty());
    assert(j >= 2);
    lemma_answer(first_card, last_card, outcomes, j - 2);
    let s2 = state_after(first_card, last_card, outcomes.take(j - 2));
    lemma_filling_step(s2, outcomes[j - 2]);
    assert(j >= 3);
    lemma_answer(first_card, last_card, outcomes, j - 3);
    let s3 = state_after(first_card, last_card, outcomes.take(j - 3));
    lemma_filling_step(s3, outcomes[j - 3]);
    assert(j >= 4);
    lemma_answer(first_card, last_card, outcomes, j - 4);
    let s4 = state_after(first_card, last_card, outcomes.take(j - 4));
    lemma_filling_step(s4, outcomes[j - 4]);
    assert(j >= 5);
    lemma_answer(first_card, last_card, outcomes, j - 5);
    let s5 = state_after(first_card, last_card, outcomes.take(j - 5));
    lemma_filling_step(s5, outcomes[j - 5]);
    assert(j >= 6);
    lemma_answer(first_card, last_card, outcomes, j - 6);
    let s6 = state_after(first_card, last_card, outcomes.take(j - 6));
    lemma_filling_step(s6, outcomes[j - 6]);
    assert(commit_shown_at(outcomes, actions, j));

    let crtc = actions[j]->commit.crtc;
    let told = outcomes.take(j - 6);
    assert(crtc_in_use(s6.phase) == Some(crtc));
    lemma_crtc_drives_a_connected_output(first_card, last_card, told);
    let k = choose|k: int|
        output_resolved_at(told, actions_of(first_card, last_card, told), k, crtc);
    lemma_actions_of_prefix(first_card, last_card, outcomes, j - 6);
    assert(output_resolved_at(outcomes, actions, k, crtc));
}

} // verus!
