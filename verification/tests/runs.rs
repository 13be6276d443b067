use kms_present::blit::write_pixels;
use kms_present::failure::{Failure, FailureClass};
use kms_present::format::ARGB8888;
use kms_present::locator::{FIRST_CARD, LAST_CARD};
use kms_present::model::{ConnectorInfo, ConnectorState, CrtcInfo, EncoderInfo, PlaneInfo};
use kms_present::picture::Picture;
use kms_present::present::{PlaneCommit, ScreenRect, SourceRect};
use kms_present::session::{Action, Event, Phase, Session};

const XRGB8888: u32 = 0x34325258;

fn connector(handle: u32, state: ConnectorState, encoder: Option<u32>) -> Event {
    Event::Connector { connector: ConnectorInfo { handle, state, current_encoder: encoder } }
}

fn encoder(handle: u32, crtc: Option<u32>) -> Event {
    Event::Encoder { encoder: EncoderInfo { handle, crtc } }
}

fn crtc(handle: u32) -> Event {
    Event::Crtc { crtc: CrtcInfo { handle } }
}

fn plane(handle: u32, attached: Option<u32>, possible: &[u32], formats: &[u32]) -> Event {
    Event::Plane {
        plane: PlaneInfo {
            handle,
            crtc: attached,
            possible_crtcs: possible.to_vec(),
            formats: formats.to_vec(),
        },
    }
}

/// The actions of a run: the one that starts it, then the answer to each event.
fn run_from(first: u32, last: u32, events: Vec<Event>) -> (Session, Vec<Action>) {
    let (mut session, action) = Session::begin(first, last);
    let mut actions = vec![action];
    for event in events {
        actions.push(session.step(event));
    }
    (session, actions)
}

fn run(events: Vec<Event>) -> (Session, Vec<Action>) {
    run_from(FIRST_CARD, LAST_CARD, events)
}

/// A session that has opened card 0 and holds the privilege, with the events
/// that brought it there.
fn claimed() -> Vec<Event> {
    vec![Event::Opened, Event::Done]
}

/// Events up to the point where the CRTC 41 is known and the planes are asked for.
fn resolved() -> Vec<Event> {
    let mut events = claimed();
    events.push(Event::Resources { connectors: vec![11] });
    events.push(connector(11, ConnectorState::Connected, Some(21)));
    events.push(encoder(21, Some(41)));
    events.push(crtc(41));
    events
}

/// Events up to the point where plane 31 is chosen and the picture is asked for.
fn validated() -> Vec<Event> {
    let mut events = resolved();
    events.push(Event::PlaneHandles { planes: vec![31] });
    events.push(plane(31, None, &[41], &[ARGB8888]));
    events
}

fn last(actions: &[Action]) -> Action {
    *actions.last().expect("a run has a first action")
}

fn abort(failure: Failure) -> Action {
    Action::Abort { failure }
}

#[test]
fn run_starts_with_the_first_card() {
    let (session, actions) = run(vec![]);
    assert_eq!(actions, vec![Action::OpenDevice { card: 0 }]);
    assert_eq!(session.phase(), Phase::Scanning { card: 0 });
}

#[test]
fn empty_scan_range_has_no_device() {
    let (session, actions) = run_from(5, 4, vec![]);
    assert_eq!(actions, vec![abort(Failure::NoDevice)]);
    assert_eq!(session.phase(), Phase::Failed { failure: Failure::NoDevice });
}

#[test]
fn absent_card_is_passed_over_silently() {
    let (_, actions) = run(vec![Event::Absent, Event::Absent]);
    assert_eq!(
        actions,
        vec![
            Action::OpenDevice { card: 0 },
            Action::OpenDevice { card: 1 },
            Action::OpenDevice { card: 2 },
        ]
    );
}

#[test]
fn refused_card_is_reported_and_the_scan_goes_on() {
    let (_, actions) = run(vec![Event::Refused, Event::Done, Event::Absent]);
    assert_eq!(
        actions,
        vec![
            Action::OpenDevice { card: 0 },
            Action::ReportOpenFailure { card: 0 },
            Action::OpenDevice { card: 1 },
            Action::OpenDevice { card: 2 },
        ]
    );
}

#[test]
fn first_card_that_opens_is_used() {
    let (session, actions) = run(vec![Event::Absent, Event::Refused, Event::Done, Event::Opened]);
    assert_eq!(last(&actions), Action::AcquireMaster);
    assert_eq!(session.phase(), Phase::Acquiring);
    assert_eq!(actions.iter().filter(|a| matches!(a, Action::OpenDevice { .. })).count(), 3);
}

#[test]
fn scan_of_absent_cards_ends_without_a_device() {
    let events: Vec<Event> = (0..256).map(|_| Event::Absent).collect();
    let (session, actions) = run(events);
    assert_eq!(actions.len(), 257);
    for (card, action) in actions[..256].iter().enumerate() {
        assert_eq!(*action, Action::OpenDevice { card: card as u32 });
    }
    assert_eq!(actions[256], abort(Failure::NoDevice));
    assert_eq!(session.phase(), Phase::Failed { failure: Failure::NoDevice });
    assert_eq!(Failure::NoDevice.message(), "Failed to open any card, terminating");
}

#[test]
fn scan_of_closed_cards_reads_nothing_of_a_device() {
    let mut events = Vec::new();
    for card in 0..256 {
        if card % 3 == 0 {
            events.push(Event::Refused);
            events.push(Event::Done);
        } else {
            events.push(Event::Absent);
        }
    }
    let (session, actions) = run(events);
    assert_eq!(last(&actions), abort(Failure::NoDevice));
    assert_eq!(session.phase(), Phase::Failed { failure: Failure::NoDevice });
    for action in &actions {
        assert!(matches!(
            action,
            Action::OpenDevice { .. } | Action::ReportOpenFailure { .. } | Action::Abort { .. }
        ));
    }
    let reports = actions.iter().filter(|a| matches!(a, Action::ReportOpenFailure { .. })).count();
    assert_eq!(reports, 86);
}

#[test]
fn short_scan_range_ends_at_its_last_card() {
    let (_, actions) = run_from(3, 4, vec![Event::Absent, Event::Absent]);
    assert_eq!(
        actions,
        vec![
            Action::OpenDevice { card: 3 },
            Action::OpenDevice { card: 4 },
            abort(Failure::NoDevice),
        ]
    );
    let (_, actions) = run_from(u32::MAX, u32::MAX, vec![Event::Refused, Event::Done]);
    assert_eq!(last(&actions), abort(Failure::NoDevice));
}

#[test]
fn refused_privilege_is_fatal() {
    let (_, actions) = run(vec![Event::Opened, Event::Failed]);
    assert_eq!(last(&actions), abort(Failure::MasterAcquire));
}

#[test]
fn privilege_comes_before_the_resources() {
    let (session, actions) = run(claimed());
    assert_eq!(
        actions,
        vec![Action::OpenDevice { card: 0 }, Action::AcquireMaster, Action::QueryResources]
    );
    assert_eq!(session.phase(), Phase::ListingOutputs);
}

#[test]
fn failed_resource_query_is_fatal() {
    let mut events = claimed();
    events.push(Event::Failed);
    assert_eq!(last(&run(events).1), abort(Failure::ResourceQuery));
}

#[test]
fn device_without_connectors_has_no_output() {
    let mut events = claimed();
    events.push(Event::Resources { connectors: vec![] });
    assert_eq!(last(&run(events).1), abort(Failure::NoConnectedOutput));
    assert_eq!(Failure::NoConnectedOutput.message(), "Failed to find any connected output");
}

#[test]
fn connectors_are_probed_in_catalog_order() {
    let mut events = claimed();
    events.push(Event::Resources { connectors: vec![13, 11, 12] });
    events.push(connector(13, ConnectorState::Disconnected, None));
    events.push(connector(11, ConnectorState::Unknown, Some(21)));
    let (session, actions) = run(events);
    assert_eq!(
        actions[3..],
        [
            Action::QueryConnector { handle: 13, force_probe: false },
            Action::QueryConnector { handle: 11, force_probe: false },
            Action::QueryConnector { handle: 12, force_probe: false },
        ]
    );
    assert_eq!(session.phase(), Phase::Probing { index: 2 });
}

#[test]
fn first_connected_connector_ends_the_probing() {
    let mut events = claimed();
    events.push(Event::Resources { connectors: vec![11, 12, 13] });
    events.push(connector(11, ConnectorState::Disconnected, None));
    events.push(connector(12, ConnectorState::Connected, Some(22)));
    let (session, actions) = run(events);
    assert_eq!(last(&actions), Action::QueryEncoder { handle: 22 });
    assert_eq!(session.phase(), Phase::FetchingEncoder);
    assert!(!actions.contains(&Action::QueryConnector { handle: 13, force_probe: false }));
}

#[test]
fn connector_that_cannot_be_fetched_is_passed_over() {
    let mut events = claimed();
    events.push(Event::Resources { connectors: vec![11, 12] });
    events.push(Event::Failed);
    let (_, actions) = run(events.clone());
    assert_eq!(last(&actions), Action::QueryConnector { handle: 12, force_probe: false });
    events.push(Event::Failed);
    assert_eq!(last(&run(events).1), abort(Failure::NoConnectedOutput));
}

#[test]
fn no_connected_connector_is_fatal() {
    let mut events = claimed();
    events.push(Event::Resources { connectors: vec![11, 12] });
    events.push(connector(11, ConnectorState::Disconnected, Some(21)));
    events.push(connector(12, ConnectorState::Unknown, Some(22)));
    let (session, actions) = run(events);
    assert_eq!(last(&actions), abort(Failure::NoConnectedOutput));
    assert_eq!(session.phase(), Phase::Failed { failure: Failure::NoConnectedOutput });
}

#[test]
fn connected_connector_without_encoder_is_fatal() {
    let mut events = claimed();
    events.push(Event::Resources { connectors: vec![11, 12] });
    events.push(connector(11, ConnectorState::Connected, None));
    let (_, actions) = run(events);
    assert_eq!(last(&actions), abort(Failure::NoActiveEncoder));
    assert_eq!(Failure::NoActiveEncoder.message(), "connector has no active encoder");
}

#[test]
fn failed_encoder_query_is_fatal() {
    let mut events = claimed();
    events.push(Event::Resources { connectors: vec![11] });
    events.push(connector(11, ConnectorState::Connected, Some(21)));
    events.push(Event::Failed);
    assert_eq!(last(&run(events).1), abort(Failure::EncoderQuery));
}

#[test]
fn encoder_without_crtc_is_fatal() {
    let mut events = claimed();
    events.push(Event::Resources { connectors: vec![11] });
    events.push(connector(11, ConnectorState::Connected, Some(21)));
    events.push(encoder(21, None));
    assert_eq!(last(&run(events).1), abort(Failure::NoActiveCrtc));
}

#[test]
fn failed_crtc_query_is_fatal() {
    let mut events = claimed();
    events.push(Event::Resources { connectors: vec![11] });
    events.push(connector(11, ConnectorState::Connected, Some(21)));
    events.push(encoder(21, Some(41)));
    let (_, actions) = run(events.clone());
    assert_eq!(last(&actions), Action::QueryCrtc { handle: 41 });
    events.push(Event::Failed);
    assert_eq!(last(&run(events).1), abort(Failure::CrtcQuery));
}

#[test]
fn planes_are_listed_once_the_crtc_is_known() {
    let (session, actions) = run(resolved());
    assert_eq!(last(&actions), Action::QueryPlaneHandles);
    assert_eq!(session.phase(), Phase::ListingPlanes { crtc: 41 });
}

#[test]
fn failed_plane_listing_is_fatal() {
    let mut events = resolved();
    events.push(Event::Failed);
    assert_eq!(last(&run(events).1), abort(Failure::PlaneQuery));
}

#[test]
fn failed_plane_query_is_fatal() {
    let mut events = resolved();
    events.push(Event::PlaneHandles { planes: vec![31, 32] });
    events.push(Event::Failed);
    let (_, actions) = run(events);
    assert_eq!(last(&actions), abort(Failure::PlaneQuery));
    assert!(!actions.contains(&Action::QueryPlane { handle: 32 }));
}

#[test]
fn device_without_planes_has_no_suitable_plane() {
    let mut events = resolved();
    events.push(Event::PlaneHandles { planes: vec![] });
    assert_eq!(last(&run(events).1), abort(Failure::NoSuitablePlane));
    assert_eq!(Failure::NoSuitablePlane.message(), "Failed to find a suitable plane for crtc");
}

#[test]
fn claimed_and_foreign_planes_are_passed_over() {
    let mut events = resolved();
    events.push(Event::PlaneHandles { planes: vec![31, 32, 33] });
    events.push(plane(31, Some(41), &[41], &[ARGB8888]));
    events.push(plane(32, None, &[40, 42], &[ARGB8888]));
    let (_, actions) = run(events.clone());
    assert_eq!(last(&actions), Action::QueryPlane { handle: 33 });
    events.push(plane(33, Some(40), &[41], &[ARGB8888]));
    assert_eq!(last(&run(events).1), abort(Failure::NoSuitablePlane));
}

#[test]
fn first_free_plane_is_chosen() {
    let mut events = resolved();
    events.push(Event::PlaneHandles { planes: vec![31, 32, 33] });
    events.push(plane(31, Some(41), &[41], &[ARGB8888]));
    events.push(plane(32, None, &[40, 41], &[XRGB8888, ARGB8888]));
    let (session, actions) = run(events);
    assert_eq!(last(&actions), Action::DecodePicture);
    assert_eq!(session.phase(), Phase::Decoding { plane: 32, crtc: 41 });
    assert!(!actions.contains(&Action::QueryPlane { handle: 33 }));
}

#[test]
fn plane_without_argb8888_is_rejected_before_any_allocation() {
    let mut events = resolved();
    events.push(Event::PlaneHandles { planes: vec![31, 32] });
    events.push(plane(31, None, &[41], &[XRGB8888, 0x36314752]));
    // whatever the driver reports from here on, nothing is decoded or allocated
    events.push(Event::Picture { width: 2, height: 2 });
    events.push(Event::Buffer { width: 2, height: 2, pitch: 8 });
    events.push(Event::Done);
    let (session, actions) = run(events);
    assert_eq!(actions[8], abort(Failure::UnsupportedFormat));
    assert_eq!(last(&actions), abort(Failure::UnsupportedFormat));
    assert_eq!(session.phase(), Phase::Failed { failure: Failure::UnsupportedFormat });
    for action in &actions {
        assert!(!matches!(
            action,
            Action::DecodePicture | Action::CreateBuffer { .. } | Action::MapBuffer
        ));
    }
    assert!(!actions.contains(&Action::QueryPlane { handle: 32 }));
    assert_eq!(
        Failure::UnsupportedFormat.message(),
        "Failed to find suitable format in plane."
    );
}

#[test]
fn failed_decoding_is_fatal() {
    let mut events = validated();
    events.push(Event::Failed);
    assert_eq!(last(&run(events).1), abort(Failure::Decode));
}

#[test]
fn buffer_is_created_with_the_size_of_the_picture() {
    let mut events = validated();
    events.push(Event::Picture { width: 640, height: 480 });
    let (session, actions) = run(events);
    assert_eq!(
        last(&actions),
        Action::CreateBuffer { width: 640, height: 480, format: ARGB8888, bits_per_pixel: 32 }
    );
    assert_eq!(session.phase(), Phase::Allocating { plane: 31, crtc: 41 });
}

#[test]
fn refused_allocation_is_fatal() {
    let mut events = validated();
    events.push(Event::Picture { width: 640, height: 480 });
    events.push(Event::Failed);
    assert_eq!(last(&run(events).1), abort(Failure::BufferCreate));
}

#[test]
fn failed_mapping_is_fatal() {
    let mut events = validated();
    events.push(Event::Picture { width: 640, height: 480 });
    events.push(Event::Buffer { width: 640, height: 480, pitch: 2560 });
    let (_, actions) = run(events.clone());
    assert_eq!(last(&actions), Action::MapBuffer);
    events.push(Event::Failed);
    assert_eq!(last(&run(events).1), abort(Failure::BufferMap));
}

#[test]
fn mapping_that_is_too_short_is_fatal() {
    let mut events = validated();
    events.push(Event::Picture { width: 640, height: 480 });
    events.push(Event::Buffer { width: 640, height: 480, pitch: 2560 });
    events.push(Event::Mapped { len: 2560 * 480 - 1 });
    assert_eq!(last(&run(events).1), abort(Failure::BufferLayout));
}

#[test]
fn pitch_that_is_too_narrow_is_fatal() {
    let mut events = validated();
    events.push(Event::Picture { width: 640, height: 480 });
    events.push(Event::Buffer { width: 640, height: 480, pitch: 2559 });
    events.push(Event::Mapped { len: 4096 * 480 });
    assert_eq!(last(&run(events).1), abort(Failure::BufferLayout));
}

#[test]
fn pixels_are_written_with_the_geometry_of_the_buffer() {
    let mut events = validated();
    events.push(Event::Picture { width: 640, height: 480 });
    events.push(Event::Buffer { width: 640, height: 480, pitch: 2624 });
    events.push(Event::Mapped { len: 2624 * 480 });
    let (session, actions) = run(events);
    assert_eq!(last(&actions), Action::WritePixels { width: 640, height: 480, pitch: 2624 });
    assert_eq!(session.phase(), Phase::Writing { plane: 31, crtc: 41, width: 640, height: 480 });
}

fn written() -> Vec<Event> {
    let mut events = validated();
    events.push(Event::Picture { width: 640, height: 480 });
    events.push(Event::Buffer { width: 640, height: 480, pitch: 2560 });
    events.push(Event::Mapped { len: 2560 * 480 });
    events.push(Event::Done);
    events
}

#[test]
fn framebuffer_is_registered_with_32_bits() {
    let (_, actions) = run(written());
    assert_eq!(last(&actions), Action::AddFramebuffer { depth: 32, bits_per_pixel: 32 });
}

#[test]
fn refused_framebuffer_is_fatal() {
    let mut events = written();
    events.push(Event::Failed);
    assert_eq!(last(&run(events).1), abort(Failure::FramebufferAdd));
}

#[test]
fn commit_shows_the_whole_buffer() {
    let mut events = written();
    events.push(Event::Framebuffer { handle: 77 });
    let (session, actions) = run(events);
    assert_eq!(
        last(&actions),
        Action::SetPlane {
            commit: PlaneCommit {
                plane: 31,
                crtc: 41,
                framebuffer: 77,
                flags: 0,
                dest: ScreenRect { x: 0, y: 0, width: 640, height: 480 },
                source: SourceRect { x: 0, y: 0, width: 41943040, height: 31457280 },
            }
        }
    );
    assert_eq!(session.phase(), Phase::Committing);
}

#[test]
fn rejected_commit_is_fatal() {
    let mut events = written();
    events.push(Event::Framebuffer { handle: 77 });
    events.push(Event::Failed);
    assert_eq!(last(&run(events).1), abort(Failure::PlaneCommit));
}

#[test]
fn failed_release_is_fatal() {
    let mut events = written();
    events.push(Event::Framebuffer { handle: 77 });
    events.push(Event::Done);
    let (_, actions) = run(events.clone());
    assert_eq!(last(&actions), Action::ReleaseMaster);
    events.push(Event::Failed);
    assert_eq!(last(&run(events).1), abort(Failure::MasterRelease));
}

#[test]
fn successful_run_holds_the_display() {
    let mut events = written();
    events.push(Event::Framebuffer { handle: 77 });
    events.push(Event::Done);
    events.push(Event::Done);
    let (mut session, actions) = run(events);
    assert_eq!(last(&actions), Action::Hold);
    assert_eq!(session.phase(), Phase::Presented);
    assert_eq!(session.step(Event::Failed), Action::Hold);
    assert_eq!(session.step(Event::Opened), Action::Hold);
    assert_eq!(session.phase(), Phase::Presented);
}

#[test]
fn privilege_is_taken_once_and_returned_once() {
    let mut events = vec![Event::Absent, Event::Refused, Event::Done];
    events.extend(claimed());
    events.push(Event::Resources { connectors: vec![10, 11] });
    events.push(connector(10, ConnectorState::Disconnected, None));
    events.push(connector(11, ConnectorState::Connected, Some(21)));
    events.push(encoder(21, Some(41)));
    events.push(crtc(41));
    events.push(Event::PlaneHandles { planes: vec![30, 31] });
    events.push(plane(30, Some(41), &[41], &[ARGB8888]));
    events.push(plane(31, None, &[41], &[ARGB8888]));
    events.push(Event::Picture { width: 2, height: 2 });
    events.push(Event::Buffer { width: 2, height: 2, pitch: 8 });
    events.push(Event::Mapped { len: 4096 });
    events.push(Event::Done);
    events.push(Event::Framebuffer { handle: 77 });
    events.push(Event::Done);
    events.push(Event::Done);
    events.push(Event::Done);
    let (_, actions) = run(events);
    assert_eq!(last(&actions), Action::Hold);
    let position = |wanted: fn(&Action) -> bool| -> Vec<usize> {
        actions.iter().enumerate().filter(|(_, a)| wanted(a)).map(|(i, _)| i).collect()
    };
    let acquired = position(|a| *a == Action::AcquireMaster);
    let released = position(|a| *a == Action::ReleaseMaster);
    let committed = position(|a| matches!(a, Action::SetPlane { .. }));
    let queried = position(|a| {
        matches!(
            a,
            Action::QueryResources
                | Action::QueryConnector { .. }
                | Action::QueryEncoder { .. }
                | Action::QueryCrtc { .. }
                | Action::QueryPlaneHandles
                | Action::QueryPlane { .. }
        )
    });
    assert_eq!(acquired.len(), 1);
    assert_eq!(released.len(), 1);
    assert_eq!(committed.len(), 1);
    assert_eq!(queried.len(), 8);
    assert!(queried.iter().all(|&q| acquired[0] < q));
    assert!(committed[0] < released[0]);
    assert_eq!(released[0] + 1, actions.len() - 2);
}

#[test]
fn outcome_that_answers_nothing_ends_the_run() {
    assert_eq!(last(&run(vec![Event::Done]).1), abort(Failure::UnexpectedEvent));
    assert_eq!(last(&run(vec![Event::Refused, Event::Absent]).1), abort(Failure::UnexpectedEvent));
    let mut events = claimed();
    events.push(crtc(41));
    assert_eq!(last(&run(events).1), abort(Failure::UnexpectedEvent));
    let mut events = validated();
    events.push(Event::Done);
    assert_eq!(last(&run(events).1), abort(Failure::UnexpectedEvent));
    let mut events = written();
    events.pop();
    events.push(Event::Failed);
    assert_eq!(last(&run(events).1), abort(Failure::UnexpectedEvent));
}

#[test]
fn failed_run_stays_failed() {
    let (mut session, actions) = run(vec![Event::Opened, Event::Failed]);
    assert_eq!(last(&actions), abort(Failure::MasterAcquire));
    assert_eq!(session.step(Event::Done), abort(Failure::MasterAcquire));
    assert_eq!(session.step(Event::Opened), abort(Failure::MasterAcquire));
    assert_eq!(session.phase(), Phase::Failed { failure: Failure::MasterAcquire });
}

#[test]
fn every_failure_has_its_own_message() {
    let failures = [
        Failure::NoDevice,
        Failure::MasterAcquire,
        Failure::ResourceQuery,
        Failure::NoConnectedOutput,
        Failure::NoActiveEncoder,
        Failure::EncoderQuery,
        Failure::NoActiveCrtc,
        Failure::CrtcQuery,
        Failure::PlaneQuery,
        Failure::NoSuitablePlane,
        Failure::UnsupportedFormat,
        Failure::Decode,
        Failure::BufferCreate,
        Failure::BufferMap,
        Failure::BufferLayout,
        Failure::FramebufferAdd,
        Failure::PlaneCommit,
        Failure::MasterRelease,
        Failure::UnexpectedEvent,
    ];
    for (i, one) in failures.iter().enumerate() {
        assert!(!one.message().is_empty());
        for other in &failures[i + 1..] {
            assert_ne!(one.message(), other.message());
        }
    }
}

#[test]
fn second_plane_is_resolved_and_a_two_by_two_picture_is_shown() {
    let red = [200u8, 10, 20, 255];
    let green = [11, 201, 21, 254];
    let blue = [12, 22, 202, 253];
    let grey = [90, 91, 92, 128];
    let mut samples = Vec::new();
    for pixel in [red, green, blue, grey] {
        samples.extend_from_slice(&pixel);
    }
    let picture = Picture::from_raw(2, 2, samples).expect("four pixels");
    let pitch = 16u32;
    let mut mapping = vec![0u8; 32];

    let (mut session, mut action) = Session::begin(FIRST_CARD, LAST_CARD);
    let mut actions = vec![action];
    let mut written = false;
    loop {
        let event = match action {
            Action::OpenDevice { card: 0 } => Event::Opened,
            Action::AcquireMaster => Event::Done,
            Action::QueryResources => Event::Resources { connectors: vec![11] },
            Action::QueryConnector { handle: 11, force_probe: false } => {
                connector(11, ConnectorState::Connected, Some(21))
            }
            Action::QueryEncoder { handle: 21 } => encoder(21, Some(41)),
            Action::QueryCrtc { handle: 41 } => crtc(41),
            Action::QueryPlaneHandles => Event::PlaneHandles { planes: vec![31, 32] },
            Action::QueryPlane { handle: 31 } => plane(31, Some(41), &[41], &[XRGB8888]),
            Action::QueryPlane { handle: 32 } => plane(32, None, &[41], &[XRGB8888, ARGB8888]),
            Action::DecodePicture => {
                let (width, height) = picture.dimensions();
                Event::Picture { width, height }
            }
            Action::CreateBuffer { width: 2, height: 2, format: ARGB8888, bits_per_pixel: 32 } => {
                Event::Buffer { width: 2, height: 2, pitch }
            }
            Action::MapBuffer => Event::Mapped { len: mapping.len() },
            Action::WritePixels { width, height, pitch } => {
                write_pixels(&picture, width, height, pitch, &mut mapping);
                written = true;
                Event::Done
            }
            Action::AddFramebuffer { depth: 32, bits_per_pixel: 32 } => {
                Event::Framebuffer { handle: 77 }
            }
            Action::SetPlane { commit } => {
                assert!(written);
                assert_eq!(commit.plane, 32);
                assert_eq!(commit.crtc, 41);
                assert_eq!(commit.framebuffer, 77);
                assert_eq!(commit.flags, 0);
                assert_eq!(commit.dest, ScreenRect { x: 0, y: 0, width: 2, height: 2 });
                assert_eq!(
                    commit.source,
                    SourceRect { x: 0, y: 0, width: 131072, height: 131072 }
                );
                Event::Done
            }
            Action::ReleaseMaster => Event::Done,
            Action::Hold => break,
            other => panic!("the run took an unexpected turn: {other:?}"),
        };
        action = session.step(event);
        actions.push(action);
    }
    assert_eq!(session.phase(), Phase::Presented);
    assert_eq!(actions.len(), 17);
    let first_row = [20, 10, 200, 255, 21, 201, 11, 254, 0, 0, 0, 0, 0, 0, 0, 0];
    let second_row = [202, 22, 12, 253, 92, 91, 90, 128, 0, 0, 0, 0, 0, 0, 0, 0];
    assert_eq!(mapping[..16], first_row);
    assert_eq!(mapping[16..], second_row);
    assert_eq!(mapping.iter().filter(|&&byte| byte != 0).count(), 16);
}

#[test]
fn failures_fall_into_their_classes() {
    assert_eq!(Failure::NoDevice.class(), FailureClass::DeviceNotFound);
    assert_eq!(Failure::MasterAcquire.class(), FailureClass::Privilege);
    assert_eq!(Failure::MasterRelease.class(), FailureClass::Privilege);
    for failure in [
        Failure::ResourceQuery,
        Failure::NoConnectedOutput,
        Failure::NoActiveEncoder,
        Failure::EncoderQuery,
        Failure::NoActiveCrtc,
        Failure::CrtcQuery,
        Failure::PlaneQuery,
        Failure::NoSuitablePlane,
    ] {
        assert_eq!(failure.class(), FailureClass::ResourceGraph);
    }
    assert_eq!(Failure::UnsupportedFormat.class(), FailureClass::FormatIncompatibility);
    assert_eq!(Failure::BufferCreate.class(), FailureClass::Allocation);
    assert_eq!(Failure::BufferMap.class(), FailureClass::Allocation);
    assert_eq!(Failure::BufferLayout.class(), FailureClass::Allocation);
    assert_eq!(Failure::FramebufferAdd.class(), FailureClass::Presentation);
    assert_eq!(Failure::PlaneCommit.class(), FailureClass::Presentation);
    assert_eq!(Failure::Decode.class(), FailureClass::ImageDecode);
    assert_eq!(Failure::UnexpectedEvent.class(), FailureClass::Protocol);
}
