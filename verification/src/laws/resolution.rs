//! The choice of the connector and of the plane.

use vstd::prelude::*;
use crate::failure::Failure;
use crate::model::ConnectorState;
use crate::run::{answers_from, lemma_answers_len, state_from};
use crate::session::{Action, Outcome, Phase, SessionModel};

verus! {

/// Whether an outcome tells of a connector that is of no use: one that could
/// not be fetched, or one without a display.
pub open spec fn is_unconnected(outcome: Outcome) -> bool {
    ||| outcome is Failed
    ||| outcome matches Outcome::Connector { connector } && connector.state
        != ConnectorState::Connected
}

/// Whether an outcome tells of a plane that is of no use for `crtc`: one that
/// is claimed already or cannot be attached to it.
pub open spec fn is_unsuitable(outcome: Outcome, crtc: u32) -> bool {
    outcome matches Outcome::Plane { plane } && !plane.is_free_for(crtc)
}

/// Connectors are looked at in the order of the catalog, and those of no use
/// are passed over: after as many useless reports the session is at the next
/// connector, and behind the last one it finds no connected output.
pub proof fn lemma_unconnected_are_passed_over(session: SessionModel, reports: Seq<Outcome>)
    requires
        session.phase matches Phase::Probing { index } && index + reports.len()
            <= session.connectors.len(),
        session.connectors.len() <= usize::MAX,
        forall|k: int| 0 <= k < reports.len() ==> is_unconnected(#[trigger] reports[k]),
    ensures
        state_from(session, reports).connectors == session.connectors,
        answers_from(session, reports).len() == reports.len(),
        session.phase matches Phase::Probing { index } && {
            let reached = index + reports.len();
            &&& forall|k: int|
                0 <= k < reports.len() && index + k + 1 < session.connectors.len()
                    ==> #[trigger] answers_from(session, reports)[k] == (Action::QueryConnector {
                    handle: session.connectors[index + k + 1],
                    force_probe: false,
                })
            &&& reached < session.connectors.len() ==> state_from(session, reports).phase
                == Phase::Probing { index: reached as usize }
            &&& reached == session.connectors.len() && reports.len() > 0 ==> {
                &&& state_from(session, reports).phase == Phase::Failed {
                    failure: Failure::NoConnectedOutput,
                }
                &&& answers_from(session, reports).last() == Action::Abort {
                    failure: Failure::NoConnectedOutput,
                }
            }
        },
    decreases reports.len(),
{
    lemma_answers_len(session, reports);
    if reports.len() > 0 {
        let earlier = reports.drop_last();
        assert forall|k: int| 0 <= k < earlier.len() implies is_unconnected(
            #[trigger] earlier[k],
        ) by {
            assert(earlier[k] == reports[k]);
        }
        lemma_unconnected_are_passed_over(session, earlier);
        lemma_answers_len(session, earlier);
        assert(is_unconnected(reports[reports.len() - 1]));
    }
}

/// The first connected connector decides the output: when the connectors
/// before it were of no use, the session goes on with the encoder that the
/// connected one names, and gives up if it names none. No further connector
/// is looked at.
pub proof fn lemma_first_connected_decides(
    session: SessionModel,
    reports: Seq<Outcome>,
    found: Outcome,
)
    requires
        session.phase matches Phase::Probing { index } && index + reports.len()
            < session.connectors.len(),
        session.connectors.len() <= usize::MAX,
        forall|k: int| 0 <= k < reports.len() ==> is_unconnected(#[trigger] reports[k]),
        found matches Outcome::Connector { connector } && connector.state
            == ConnectorState::Connected,
    ensures
        found matches Outcome::Connector { connector } && match connector.current_encoder {
            Some(handle) => {
                &&& state_from(session, reports.push(found)).phase == Phase::FetchingEncoder
                &&& answers_from(session, reports.push(found)).last() == Action::QueryEncoder {
                    handle,
                }
            },
            None => {
                &&& state_from(session, reports.push(found)).phase == Phase::Failed {
                    failure: Failure::NoActiveEncoder,
                }
                &&& answers_from(session, reports.push(found)).last() == Action::Abort {
                    failure: Failure::NoActiveEncoder,
                }
            },
        },
{
    lemma_unconnected_are_passed_over(session, reports);
    assert(reports.push(found).drop_last() =~= reports);
    lemma_answers_len(session, reports.push(found));
}

/// The catalog that the device reports is probed from its first connector
/// on, and a catalog without connectors has no connected output.
pub proof fn lemma_probing_starts_at_the_first(session: SessionModel, connectors: Seq<u32>)
    requires
        session.phase == Phase::ListingOutputs,
    ensures
        ({
            let (next, action) = session.react(Outcome::Resources { connectors });
            &&& next.connectors == connectors
            &&& connectors.len() > 0 ==> {
                &&& next.phase == Phase::Probing { index: 0 }
                &&& action == Action::QueryConnector { handle: connectors[0], force_probe: false }
            }
            &&& connectors.len() == 0 ==> {
                &&& next.phase == Phase::Failed { failure: Failure::NoConnectedOutput }
                &&& action == Action::Abort { failure: Failure::NoConnectedOutput }
            }
        }),
{
}

/// Planes are looked at in the order in which the device lists them, and
/// those of no use for the CRTC are passed over: after as many useless
/// reports the session is at the next plane, and behind the last one it finds
/// no suitable plane.
pub proof fn lemma_unsuitable_are_passed_over(session: SessionModel, reports: Seq<Outcome>)
    requires
        session.phase matches Phase::Searching { crtc, index } && index + reports.len()
            <= session.planes.len() && forall|k: int|
            0 <= k < reports.len() ==> is_unsuitable(#[trigger] reports[k], crtc),
        session.planes.len() <= usize::MAX,
    ensures
        state_from(session, reports).planes == session.planes,
        answers_from(session, reports).len() == reports.len(),
        session.phase matches Phase::Searching { crtc, index } && {
            let reached = index + reports.len();
            &&& forall|k: int|
                0 <= k < reports.len() && index + k + 1 < session.planes.len()
                    ==> #[trigger] answers_from(session, reports)[k] == (Action::QueryPlane {
                    handle: session.planes[index + k + 1],
                })
            &&& reached < session.planes.len() ==> state_from(session, reports).phase
                == Phase::Searching { crtc, index: reached as usize }
            &&& reached == session.planes.len() && reports.len() > 0 ==> {
                &&& state_from(session, reports).phase == Phase::Failed {
                    failure: Failure::NoSuitablePlane,
                }
                &&& answers_from(session, reports).last() == Action::Abort {
                    failure: Failure::NoSuitablePlane,
                }
            }
        },
    decreases reports.len(),
{
    lemma_answers_len(session, reports);
    if reports.len() > 0 {
        let earlier = reports.drop_last();
        let crtc = session.phase->Searching_crtc;
        assert forall|k: int| 0 <= k < earlier.len() implies is_unsuitable(
            #[trigger] earlier[k],
            crtc,
        ) by {
            assert(earlier[k] == reports[k]);
        }
        lemma_unsuitable_are_passed_over(session, earlier);
        lemma_answers_len(session, earlier);
        assert(is_unsuitable(reports[reports.len() - 1], crtc));
    }
}

/// The first plane that is free for the CRTC is the one that is chosen: when
/// the planes before it were of no use, the session has the picture decoded
/// for it if it scans out ARGB8888, and gives up if it does not. No further
/// plane is looked at.
pub proof fn lemma_first_free_plane_is_chosen(
    session: SessionModel,
    reports: Seq<Outcome>,
    found: Outcome,
)
    requires
        session.phase matches Phase::Searching { crtc, index } && index + reports.len()
            < session.planes.len() && (forall|k: int|
            0 <= k < reports.len() ==> is_unsuitable(#[trigger] reports[k], crtc)) && (
        found matches Outcome::Plane { plane } && plane.is_free_for(crtc)),
        session.planes.len() <= usize::MAX,
    ensures
        session.phase matches Phase::Searching { crtc, .. } && found matches Outcome::Plane {
            plane,
        } && if plane.supports_argb8888() {
            &&& state_from(session, reports.push(found)).phase == Phase::Decoding {
                plane: plane.handle,
                crtc,
            }
            &&& answers_from(session, reports.push(found)).last() == Action::DecodePicture
        } else {
            &&& state_from(session, reports.push(found)).phase == Phase::Failed {
                failure: Failure::UnsupportedFormat,
            }
            &&& answers_from(session, reports.push(found)).last() == Action::Abort {
                failure: Failure::UnsupportedFormat,
            }
        },
{
    lemma_unsuitable_are_passed_over(session, reports);
    assert(reports.push(found).drop_last() =~= reports);
    lemma_answers_len(session, reports.push(found));
}

/// The list of planes that the device reports is searched from its first
/// plane on, and a device without planes has no suitable plane.
pub proof fn lemma_search_starts_at_the_first(session: SessionModel, planes: Seq<u32>)
    requires
        session.phase is ListingPlanes,
    ensures
        ({
            let (next, action) = session.react(Outcome::PlaneHandles { planes });
            let crtc = session.phase->ListingPlanes_crtc;
            &&& next.planes == planes
            &&& planes.len() > 0 ==> {
                &&& next.phase == Phase::Searching { crtc, index: 0 }
                &&& action == Action::QueryPlane { handle: planes[0] }
            }
            &&& planes.len() == 0 ==> {
                &&& next.phase == Phase::Failed { failure: Failure::NoSuitablePlane }
                &&& action == Action::Abort { failure: Failure::NoSuitablePlane }
            }
        }),
{
}

} // verus!
