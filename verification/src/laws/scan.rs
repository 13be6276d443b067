//! The scan of the device nodes.

use vstd::prelude::*;
use crate::failure::Failure;
use crate::run::{
    actions_of, answers_from, lemma_answers_len, lemma_run_in_order, lemma_stage_never_goes_back,
    stage, state_after, state_from,
};
use crate::session::{Action, Outcome, Phase, SessionModel};

verus! {

/// Whether an action belongs to the scan of the device nodes, or gives the
/// run up.
pub open spec fn is_scan_or_abort(action: Action) -> bool {
    action is OpenDevice || action is ReportOpenFailure || action is Abort
}

/// A session that scans, and is told of no node that opened, goes on
/// scanning or gives up.
pub proof fn lemma_scanning_goes_on(session: SessionModel, outcomes: Seq<Outcome>)
    requires
        session.phase is Scanning || session.phase is Reporting || session.phase is Failed,
        forall|k: int| 0 <= k < outcomes.len() ==> !(#[trigger] outcomes[k] is Opened),
    ensures
        answers_from(session, outcomes).len() == outcomes.len(),
        forall|j: int|
            0 <= j < outcomes.len() ==> is_scan_or_abort(#[trigger] answers_from(session, outcomes)[j]),
        ({
            let phase = state_from(session, outcomes).phase;
            phase is Scanning || phase is Reporting || phase is Failed
        }),
    decreases outcomes.len(),
{
    lemma_answers_len(session, outcomes);
    if outcomes.len() > 0 {
        let earlier = outcomes.drop_last();
        assert forall|k: int| 0 <= k < earlier.len() implies !(#[trigger] earlier[k] is Opened) by {
            assert(earlier[k] == outcomes[k]);
        }
        lemma_scanning_goes_on(session, earlier);
        assert(!(outcomes[outcomes.len() - 1] is Opened));
    }
}

/// As long as no device node has opened, the session does nothing but scan:
/// it opens nodes, reports refusals, or gives up. It asks for no privilege
/// and reads nothing of the device.
pub proof fn lemma_nothing_without_a_device(
    first_card: u32,
    last_card: u32,
    outcomes: Seq<Outcome>,
)
    requires
        forall|k: int| 0 <= k < outcomes.len() ==> !(#[trigger] outcomes[k] is Opened),
    ensures
        forall|j: int|
            0 <= j < actions_of(first_card, last_card, outcomes).len() ==> is_scan_or_abort(
                #[trigger] actions_of(first_card, last_card, outcomes)[j],
            ),
        ({
            let phase = state_after(first_card, last_card, outcomes).phase;
            phase is Scanning || phase is Reporting || phase is Failed
        }),
{
    let (session, first) = SessionModel::begin(first_card, last_card);
    lemma_scanning_goes_on(session, outcomes);
    let actions = actions_of(first_card, last_card, outcomes);
    assert forall|j: int| 0 <= j < actions.len() implies is_scan_or_abort(#[trigger] actions[j]) by {
        if j > 0 {
            assert(actions[j] == answers_from(session, outcomes)[j - 1]);
        }
    }
}

/// What the driver reports while it scans device nodes of which none opens:
/// for a node that does not exist, that it is absent; for a node that exists,
/// that it was refused and then that this has been reported.
pub open spec fn closed_nodes(refused: Seq<bool>) -> Seq<Outcome>
    decreases refused.len(),
{
    if refused.len() == 0 {
        Seq::empty()
    } else if refused.last() {
        closed_nodes(refused.drop_last()).push(Outcome::Refused).push(Outcome::Done)
    } else {
        closed_nodes(refused.drop_last()).push(Outcome::Absent)
    }
}

/// None of the reports of closed nodes says that a node has opened.
pub proof fn lemma_closed_nodes_never_open(refused: Seq<bool>)
    ensures
        forall|k: int|
            0 <= k < closed_nodes(refused).len() ==> !(#[trigger] closed_nodes(refused)[k]
                is Opened),
    decreases refused.len(),
{
    if refused.len() > 0 {
        lemma_closed_nodes_never_open(refused.drop_last());
    }
}

/// While nodes of the range are left, a scan that has found the nodes so far
/// closed is at the next node; once the last node of the range has been found
/// closed, the run is given up for want of a device.
pub proof fn lemma_scan_of_closed_nodes(first_card: u32, last_card: u32, refused: Seq<bool>)
    requires
        first_card <= last_card,
        refused.len() <= last_card - first_card + 1,
    ensures
        ({
            let outcomes = closed_nodes(refused);
            let session = state_after(first_card, last_card, outcomes);
            let actions = actions_of(first_card, last_card, outcomes);
            if refused.len() <= last_card - first_card {
                &&& session.phase == Phase::Scanning { card: (first_card + refused.len()) as u32 }
                &&& actions.last() == Action::OpenDevice {
                    card: (first_card + refused.len()) as u32,
                }
            } else {
                &&& session.phase == Phase::Failed { failure: Failure::NoDevice }
                &&& actions.last() == Action::Abort { failure: Failure::NoDevice }
            }
        }),
    decreases refused.len(),
{
    let origin = SessionModel::begin(first_card, last_card).0;
    if refused.len() > 0 {
        let before = closed_nodes(refused.drop_last());
        lemma_scan_of_closed_nodes(first_card, last_card, refused.drop_last());
        lemma_run_in_order(first_card, last_card, before);
        lemma_answers_len(origin, before);
        if refused.last() {
            let between = before.push(Outcome::Refused);
            assert(between.drop_last() =~= before);
            assert(between.push(Outcome::Done).drop_last() =~= between);
            lemma_answers_len(origin, between);
            lemma_answers_len(origin, between.push(Outcome::Done));
        } else {
            assert(before.push(Outcome::Absent).drop_last() =~= before);
            lemma_answers_len(origin, before.push(Outcome::Absent));
        }
    }
}

/// If no device node of the range opens, the run is given up for want of a
/// device, and up to then the session has done nothing but scan: in
/// particular it has looked at no connector.
pub proof fn lemma_no_device(first_card: u32, last_card: u32, refused: Seq<bool>)
    requires
        first_card <= last_card,
        refused.len() == last_card - first_card + 1,
    ensures
        state_after(first_card, last_card, closed_nodes(refused)).phase == (Phase::Failed {
            failure: Failure::NoDevice,
        }),
        actions_of(first_card, last_card, closed_nodes(refused)).last() == (Action::Abort {
            failure: Failure::NoDevice,
        }),
        forall|j: int|
            0 <= j < actions_of(first_card, last_card, closed_nodes(refused)).len()
                ==> is_scan_or_abort(
                #[trigger] actions_of(first_card, last_card, closed_nodes(refused))[j],
            ),
{
    lemma_scan_of_closed_nodes(first_card, last_card, refused);
    lemma_closed_nodes_never_open(refused);
    lemma_nothing_without_a_device(first_card, last_card, closed_nodes(refused));
}

/// A run uses one device: once the privilege has been asked for, no further
/// device node is opened.
pub proof fn lemma_one_device(
    first_card: u32,
    last_card: u32,
    outcomes: Seq<Outcome>,
    i: int,
    j: int,
)
    requires
        0 <= i <= j < actions_of(first_card, last_card, outcomes).len(),
        actions_of(first_card, last_card, outcomes)[i] == Action::AcquireMaster,
    ensures
        !(actions_of(first_card, last_card, outcomes)[j] is OpenDevice),
{
    lemma_run_in_order(first_card, last_card, outcomes);
    lemma_stage_never_goes_back(first_card, actions_of(first_card, last_card, outcomes), i, j);
    assert(stage(actions_of(first_card, last_card, outcomes)[j]) >= 1);
}

} // verus!
