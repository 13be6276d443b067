//! Runs, and the order that every run keeps.
//!
//! A run is a sequence of outcomes. The session answers each with one action,
//! after the first action that starts the run, so that the action at
//! position `i + 1` of a run is the answer to the outcome at position `i`.

use vstd::prelude::*;
use crate::failure::Failure;
use crate::format::{ARGB8888, BITS_PER_PIXEL};
use crate::session::{Action, Outcome, Phase, SessionModel};

verus! {

/// The session after it has been told `outcomes`, one after the other.
pub open spec fn state_from(session: SessionModel, outcomes: Seq<Outcome>) -> SessionModel
    decreases outcomes.len(),
{
    if outcomes.len() == 0 {
        session
    } else {
        state_from(session, outcomes.drop_last()).react(outcomes.last()).0
    }
}

/// The answers of the session to `outcomes`, one for each.
pub open spec fn answers_from(session: SessionModel, outcomes: Seq<Outcome>) -> Seq<Action>
    decreases outcomes.len(),
{
    if outcomes.len() == 0 {
        Seq::empty()
    } else {
        answers_from(session, outcomes.drop_last()).push(
            state_from(session, outcomes.drop_last()).react(outcomes.last()).1,
        )
    }
}

/// The session after the driver has reported `outcomes`, in a run that scans
/// the device nodes `first_card` to `last_card`.
pub open spec fn state_after(first_card: u32, last_card: u32, outcomes: Seq<Outcome>) -> SessionModel {
    state_from(SessionModel::begin(first_card, last_card).0, outcomes)
}

/// The actions that the session has handed out once the driver has reported
/// `outcomes`: the one that starts the run, then one for each outcome.
pub open spec fn actions_of(first_card: u32, last_card: u32, outcomes: Seq<Outcome>) -> Seq<Action> {
    seq![SessionModel::begin(first_card, last_card).1] + answers_from(
        SessionModel::begin(first_card, last_card).0,
        outcomes,
    )
}

/// How far into the fixed sequence of a run an action is.
pub open spec fn stage(action: Action) -> int {
    match action {
        Action::OpenDevice { .. } => 0,
        Action::ReportOpenFailure { .. } => 0,
        Action::AcquireMaster => 1,
        Action::QueryResources => 2,
        Action::QueryConnector { .. } => 3,
        Action::QueryEncoder { .. } => 4,
        Action::QueryCrtc { .. } => 5,
        Action::QueryPlaneHandles => 6,
        Action::QueryPlane { .. } => 7,
        Action::DecodePicture => 8,
        Action::CreateBuffer { .. } => 9,
        Action::MapBuffer => 10,
        Action::WritePixels { .. } => 11,
        Action::AddFramebuffer { .. } => 12,
        Action::SetPlane { .. } => 13,
        Action::ReleaseMaster => 14,
        Action::Hold => 15,
        Action::Abort { .. } => 16,
    }
}

/// Whether an action reads the resource graph of the device.
pub open spec fn is_resource_query(action: Action) -> bool {
    2 <= stage(action) <= 7
}

/// The failures for which a run can be given up right after `action`.
pub open spec fn may_fail_with(action: Action, failure: Failure) -> bool {
    failure == Failure::UnexpectedEvent || match action {
        Action::OpenDevice { .. } => failure == Failure::NoDevice,
        Action::ReportOpenFailure { .. } => failure == Failure::NoDevice,
        Action::AcquireMaster => failure == Failure::MasterAcquire,
        Action::QueryResources => failure == Failure::ResourceQuery || failure
            == Failure::NoConnectedOutput,
        Action::QueryConnector { .. } => failure == Failure::NoConnectedOutput || failure
            == Failure::NoActiveEncoder,
        Action::QueryEncoder { .. } => failure == Failure::EncoderQuery || failure
            == Failure::NoActiveCrtc,
        Action::QueryCrtc { .. } => failure == Failure::CrtcQuery,
        Action::QueryPlaneHandles => failure == Failure::PlaneQuery || failure
            == Failure::NoSuitablePlane,
        Action::QueryPlane { .. } => failure == Failure::PlaneQuery || failure
            == Failure::NoSuitablePlane || failure == Failure::UnsupportedFormat,
        Action::DecodePicture => failure == Failure::Decode,
        Action::CreateBuffer { .. } => failure == Failure::BufferCreate,
        Action::MapBuffer => failure == Failure::BufferMap || failure == Failure::BufferLayout,
        Action::WritePixels { .. } => false,
        Action::AddFramebuffer { .. } => failure == Failure::FramebufferAdd,
        Action::SetPlane { .. } => failure == Failure::PlaneCommit,
        Action::ReleaseMaster => failure == Failure::MasterRelease,
        Action::Hold => false,
        Action::Abort { failure: earlier } => failure == earlier,
    }
}

/// The order of a run: whether `after` can be the action that comes right
/// after `before`.
///
/// The scan goes from one device node to the next, with a report in between
/// where a node was refused. Connectors are looked at one after the other, and
/// so are planes. Everything else happens once and in one order. A run can be
/// given up after any action but the last, and what ends a run stays.
pub open spec fn may_follow(before: Action, after: Action) -> bool {
    match before {
        Action::Abort { .. } => after == before,
        Action::Hold => after == before,
        Action::OpenDevice { card } => {
            ||| after matches Action::Abort { failure } && may_fail_with(before, failure)
            ||| after == Action::ReportOpenFailure { card }
            ||| after == Action::AcquireMaster
            ||| after matches Action::OpenDevice { card: following } && following == card + 1
        },
        Action::ReportOpenFailure { card } => {
            ||| after matches Action::Abort { failure } && may_fail_with(before, failure)
            ||| after matches Action::OpenDevice { card: following } && following == card + 1
        },
        _ => {
            ||| after matches Action::Abort { failure } && may_fail_with(before, failure)
            ||| stage(after) == stage(before) + 1
            ||| before is QueryConnector && after is QueryConnector
            ||| before is QueryPlane && after is QueryPlane
        },
    }
}

/// Whether each action of a sequence can come right after the one before it.
#[verifier::opaque]
pub open spec fn chained(actions: Seq<Action>) -> bool {
    forall|j: int| 0 < j < actions.len() ==> may_follow(actions[j - 1], #[trigger] actions[j])
}

/// Whether a sequence of actions is in the order of a run that starts its
/// scan at `first_card`.
pub open spec fn in_order(first_card: u32, actions: Seq<Action>) -> bool {
    &&& actions.len() > 0
    &&& actions[0] == Action::OpenDevice { card: first_card } || actions[0] == Action::Abort {
        failure: Failure::NoDevice,
    }
    &&& chained(actions)
}

/// Whether `action` is what `session` has handed out last: the action whose
/// outcome the session waits for, with the details that its phase fixes.
pub open spec fn awaits(session: SessionModel, action: Action) -> bool {
    match session.phase {
        Phase::Scanning { card } => card <= session.last_card && action == Action::OpenDevice {
            card,
        },
        Phase::Reporting { card } => card <= session.last_card && action
            == Action::ReportOpenFailure { card },
        Phase::Acquiring => action == Action::AcquireMaster,
        Phase::ListingOutputs => action == Action::QueryResources,
        Phase::Probing { index } => index < session.connectors.len() && action
            == Action::QueryConnector {
            handle: session.connectors[index as int],
            force_probe: false,
        },
        Phase::FetchingEncoder => action is QueryEncoder,
        Phase::FetchingCrtc => action is QueryCrtc,
        Phase::ListingPlanes { .. } => action == Action::QueryPlaneHandles,
        Phase::Searching { index, .. } => index < session.planes.len() && action
            == Action::QueryPlane { handle: session.planes[index as int] },
        Phase::Decoding { .. } => action == Action::DecodePicture,
        Phase::Allocating { .. } => action matches Action::CreateBuffer {
            format,
            bits_per_pixel,
            ..
        } && format == ARGB8888 && bits_per_pixel == BITS_PER_PIXEL,
        Phase::Mapping { .. } => action == Action::MapBuffer,
        Phase::Writing { width, height, .. } => action matches Action::WritePixels {
            width: columns,
            height: rows,
            ..
        } && columns == width && rows == height,
        Phase::Registering { .. } => action == Action::AddFramebuffer {
            depth: BITS_PER_PIXEL,
            bits_per_pixel: BITS_PER_PIXEL,
        },
        Phase::Committing => action is SetPlane,
        Phase::Releasing => action == Action::ReleaseMaster,
        Phase::Presented => action == Action::Hold,
        Phase::Failed { failure } => action == Action::Abort { failure },
    }
}

/// A run begins with an action that the session then awaits the outcome of.
pub proof fn lemma_begin_awaits(first_card: u32, last_card: u32)
    ensures
        awaits(
            SessionModel::begin(first_card, last_card).0,
            SessionModel::begin(first_card, last_card).1,
        ),
        SessionModel::begin(first_card, last_card).0.last_card == last_card,
{
}

/// One step keeps the order: the answer of a session may follow the action
/// that the session had handed out before, and is what the session awaits the
/// outcome of next. No step changes the range of the scan.
pub proof fn lemma_step_in_order(session: SessionModel, last: Action, outcome: Outcome)
    requires
        awaits(session, last),
    ensures
        may_follow(last, session.react(outcome).1),
        awaits(session.react(outcome).0, session.react(outcome).1),
        session.react(outcome).0.last_card == session.last_card,
{
}

/// There is one answer for each outcome.
pub proof fn lemma_answers_len(session: SessionModel, outcomes: Seq<Outcome>)
    ensures
        answers_from(session, outcomes).len() == outcomes.len(),
    decreases outcomes.len(),
{
    if outcomes.len() > 0 {
        lemma_answers_len(session, outcomes.drop_last());
    }
}

/// A run can be cut in two: the second part goes on from the session that the
/// first part has left.
pub proof fn lemma_run_split(session: SessionModel, first: Seq<Outcome>, second: Seq<Outcome>)
    ensures
        state_from(session, first + second) == state_from(state_from(session, first), second),
        answers_from(session, first + second) == answers_from(session, first) + answers_from(
            state_from(session, first),
            second,
        ),
    decreases second.len(),
{
    if second.len() == 0 {
        assert(first + second =~= first);
        assert(answers_from(session, first) + Seq::<Action>::empty() =~= answers_from(
            session,
            first,
        ));
    } else {
        lemma_run_split(session, first, second.drop_last());
        assert((first + second).drop_last() =~= first + second.drop_last());
        assert(answers_from(session, first + second) =~= answers_from(session, first)
            + answers_from(state_from(session, first), second));
    }
}

/// The answer at position `k` is the answer to the outcome at position `k`,
/// given by the session that has been told the outcomes before it.
pub proof fn lemma_answer_at(session: SessionModel, outcomes: Seq<Outcome>, k: int)
    requires
        0 <= k < outcomes.len(),
    ensures
        answers_from(session, outcomes).len() == outcomes.len(),
        answers_from(session, outcomes)[k] == state_from(session, outcomes.take(k)).react(
            outcomes[k],
        ).1,
        state_from(session, outcomes.take(k + 1)) == state_from(session, outcomes.take(k)).react(
            outcomes[k],
        ).0,
    decreases outcomes.len(),
{
    let earlier = outcomes.drop_last();
    lemma_answers_len(session, outcomes);
    lemma_answers_len(session, earlier);
    assert(outcomes.take(k + 1).drop_last() =~= outcomes.take(k));
    if k == outcomes.len() - 1 {
        assert(outcomes.take(k) =~= earlier);
    } else {
        lemma_answer_at(session, earlier, k);
        assert(earlier.take(k) =~= outcomes.take(k));
    }
}

/// Answers keep the order, from any session on: after the action that the
/// session awaits the outcome of, its answers are chained, and it awaits the
/// outcome of the last of them.
pub proof fn lemma_answers_in_order(session: SessionModel, last: Action, outcomes: Seq<Outcome>)
    requires
        awaits(session, last),
    ensures
        chained(seq![last] + answers_from(session, outcomes)),
        awaits(state_from(session, outcomes), (seq![last] + answers_from(session, outcomes)).last()),
        state_from(session, outcomes).last_card == session.last_card,
    decreases outcomes.len(),
{
    reveal(chained);
    if outcomes.len() > 0 {
        let earlier = outcomes.drop_last();
        lemma_answers_in_order(session, last, earlier);
        lemma_answers_len(session, earlier);
        let before = seq![last] + answers_from(session, earlier);
        lemma_step_in_order(state_from(session, earlier), before.last(), outcomes.last());
        let all = seq![last] + answers_from(session, outcomes);
        assert(all =~= before.push(state_from(session, earlier).react(outcomes.last()).1));
    }
}

/// The actions of a run are in order: there is one more of them than there
/// are outcomes, and the session awaits the outcome of the last.
pub proof fn lemma_run_in_order(first_card: u32, last_card: u32, outcomes: Seq<Outcome>)
    ensures
        actions_of(first_card, last_card, outcomes).len() == outcomes.len() + 1,
        in_order(first_card, actions_of(first_card, last_card, outcomes)),
        awaits(
            state_after(first_card, last_card, outcomes),
            actions_of(first_card, last_card, outcomes).last(),
        ),
        state_after(first_card, last_card, outcomes).last_card == last_card,
{
    let (session, first) = SessionModel::begin(first_card, last_card);
    lemma_begin_awaits(first_card, last_card);
    lemma_answers_len(session, outcomes);
    lemma_answers_in_order(session, first, outcomes);
}

/// The action at position `k + 1` of a run is the answer to the outcome at
/// position `k`, given by the session that has seen the outcomes before it.
pub proof fn lemma_answer(first_card: u32, last_card: u32, outcomes: Seq<Outcome>, k: int)
    requires
        0 <= k < outcomes.len(),
    ensures
        actions_of(first_card, last_card, outcomes).len() == outcomes.len() + 1,
        actions_of(first_card, last_card, outcomes)[k + 1] == state_after(
            first_card,
            last_card,
            outcomes.take(k),
        ).react(outcomes[k]).1,
        state_after(first_card, last_card, outcomes.take(k + 1)) == state_after(
            first_card,
            last_card,
            outcomes.take(k),
        ).react(outcomes[k]).0,
{
    lemma_answer_at(SessionModel::begin(first_card, last_card).0, outcomes, k);
}

/// The actions of the beginning of a run are the beginning of its actions.
pub proof fn lemma_actions_of_prefix(
    first_card: u32,
    last_card: u32,
    outcomes: Seq<Outcome>,
    n: int,
)
    requires
        0 <= n <= outcomes.len(),
    ensures
        actions_of(first_card, last_card, outcomes).len() == outcomes.len() + 1,
        actions_of(first_card, last_card, outcomes.take(n)) == actions_of(
            first_card,
            last_card,
            outcomes,
        ).take(n + 1),
{
    let session = SessionModel::begin(first_card, last_card).0;
    lemma_run_split(session, outcomes.take(n), outcomes.skip(n));
    assert(outcomes.take(n) + outcomes.skip(n) =~= outcomes);
    lemma_answers_len(session, outcomes);
    lemma_answers_len(session, outcomes.take(n));
    assert(actions_of(first_card, last_card, outcomes.take(n)) =~= actions_of(
        first_card,
        last_card,
        outcomes,
    ).take(n + 1));
}

/// Along a run in order the stage never goes back.
pub proof fn lemma_stage_never_goes_back(first_card: u32, actions: Seq<Action>, i: int, j: int)
    requires
        in_order(first_card, actions),
        0 <= i <= j < actions.len(),
    ensures
        stage(actions[i]) <= stage(actions[j]),
    decreases j - i,
{
    reveal(chained);
    if i < j {
        lemma_stage_never_goes_back(first_card, actions, i, j - 1);
        assert(may_follow(actions[j - 1], actions[j]));
    }
}

/// A run in order that has come to a stage without being given up has gone
/// through every stage before it.
pub proof fn lemma_stage_was_reached(first_card: u32, actions: Seq<Action>, j: int, earlier: int)
    requires
        in_order(first_card, actions),
        0 <= j < actions.len(),
        !(actions[j] is Abort),
        0 <= earlier <= stage(actions[j]),
    ensures
        exists|i: int| 0 <= i <= j && stage(#[trigger] actions[i]) == earlier,
    decreases j,
{
    reveal(chained);
    if stage(actions[j]) == earlier {
    } else {
        assert(j > 0);
        assert(may_follow(actions[j - 1], actions[j]));
        lemma_stage_was_reached(first_card, actions, j - 1, earlier);
    }
}

/// What happens once in a run happens at one position only: everything but
/// the scan of the device nodes, the look at the connectors and the look at
/// the planes, and but what ends the run.
pub proof fn lemma_once(first_card: u32, actions: Seq<Action>, i: int, j: int)
    requires
        in_order(first_card, actions),
        0 <= i < actions.len(),
        0 <= j < actions.len(),
        stage(actions[i]) == stage(actions[j]),
        stage(actions[i]) != 0,
        stage(actions[i]) != 3,
        stage(actions[i]) != 7,
        stage(actions[i]) < 15,
    ensures
        i == j,
{
    reveal(chained);
    if i < j {
        assert(may_follow(actions[i], actions[i + 1]));
        lemma_stage_never_goes_back(first_card, actions, i + 1, j);
    } else if j < i {
        assert(may_follow(actions[j], actions[j + 1]));
        lemma_stage_never_goes_back(first_card, actions, j + 1, i);
    }
}

/// What happens once in a run comes right after what happens once before it.
pub proof fn lemma_comes_right_after(first_card: u32, actions: Seq<Action>, j: int)
    requires
        in_order(first_card, actions),
        0 <= j < actions.len(),
        8 <= stage(actions[j]) <= 15,
    ensures
        j > 0,
        stage(actions[j - 1]) == stage(actions[j]) - 1 || (actions[j] == Action::Hold
            && actions[j - 1] == Action::Hold),
{
    reveal(chained);
    assert(j > 0);
    assert(may_follow(actions[j - 1], actions[j]));
}

/// The position at which a run that was given up was given up.
pub proof fn lemma_first_abort(first_card: u32, actions: Seq<Action>, at: int) -> (first: int)
    requires
        in_order(first_card, actions),
        0 <= at < actions.len(),
        actions[at] is Abort,
    ensures
        0 <= first <= at,
        actions[first] == actions[at],
        first > 0 ==> !(actions[first - 1] is Abort) && may_follow(
            actions[first - 1],
            actions[first],
        ),
    decreases at,
{
    reveal(chained);
    if at > 0 && actions[at - 1] is Abort {
        assert(may_follow(actions[at - 1], actions[at]));
        lemma_first_abort(first_card, actions, at - 1)
    } else {
        if at > 0 {
            assert(may_follow(actions[at - 1], actions[at]));
        }
        at
    }
}

/// Once a run is given up, every further action gives it up for the same
/// reason.
pub proof fn lemma_abort_stays(first_card: u32, actions: Seq<Action>, at: int, later: int)
    requires
        in_order(first_card, actions),
        0 <= at <= later < actions.len(),
        actions[at] is Abort,
    ensures
        actions[later] == actions[at],
    decreases later - at,
{
    reveal(chained);
    if at < later {
        lemma_abort_stays(first_card, actions, at, later - 1);
        assert(may_follow(actions[later - 1], actions[later]));
    }
}

} // verus!
