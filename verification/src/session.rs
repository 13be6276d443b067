//! The run as a state machine.
//!
//! A run alternates device operations with decisions. The operations are the
//! driver's: it performs the [`Action`] that the session hands out and reports
//! what came of it as an [`Event`]. The decisions are the session's: which
//! node to open next, which connector, encoder, CRTC and plane to use, when to
//! give up and why. A run starts with [`Session::begin`] and goes on with
//! [`Session::step`] until the action is [`Action::Hold`] or
//! [`Action::Abort`].

use vstd::prelude::*;
use crate::blit::{check_layout, layout_fits};
use crate::failure::Failure;
use crate::format::{argb8888_fourcc, ARGB8888, BITS_PER_PIXEL};
use crate::model::{ConnectorInfo, ConnectorState, CrtcInfo, EncoderInfo, PlaneInfo, PlaneModel};
use crate::present::{full_extent, plane_commit, PlaneCommit};

verus! {

/// What the driver is to do next.
#[derive(Clone, Copy, Debug, PartialEq, Eq, Structural)]
pub enum Action {
    /// Open the device node with this number for reading and writing.
    OpenDevice { card: u32 },
    /// Tell the user that the node with this number exists but did not open.
    ReportOpenFailure { card: u32 },
    /// Ask the device for exclusive configuration privilege.
    AcquireMaster,
    /// Fetch the catalog of the device's resources.
    QueryResources,
    /// Fetch the details of a connector. A forced probe makes the kernel look
    /// at the connector anew, which the session never asks for.
    QueryConnector { handle: u32, force_probe: bool },
    /// Fetch the details of an encoder.
    QueryEncoder { handle: u32 },
    /// Fetch the details of a CRTC.
    QueryCrtc { handle: u32 },
    /// List the planes of the device.
    QueryPlaneHandles,
    /// Fetch the details of a plane.
    QueryPlane { handle: u32 },
    /// Decode the picture.
    DecodePicture,
    /// Allocate a pixel buffer.
    CreateBuffer { width: u32, height: u32, format: u32, bits_per_pixel: u32 },
    /// Map the pixel buffer into memory.
    MapBuffer,
    /// Copy the picture into the mapping, then release the mapping.
    WritePixels { width: u32, height: u32, pitch: u32 },
    /// Register the pixel buffer as a framebuffer.
    AddFramebuffer { depth: u32, bits_per_pixel: u32 },
    /// Put the framebuffer on the plane.
    SetPlane { commit: PlaneCommit },
    /// Give the configuration privilege back.
    ReleaseMaster,
    /// The picture is on the screen: wait to be terminated.
    Hold,
    /// Give the run up.
    Abort { failure: Failure },
}

/// What came of the last action.
#[derive(Clone, Debug, PartialEq, Eq)]
pub enum Event {
    /// The device node opened.
    Opened,
    /// There is no such device node.
    Absent,
    /// The device node exists but did not open.
    Refused,
    /// The action succeeded and has nothing to report.
    Done,
    /// The action failed.
    Failed,
    /// The connectors of the device, in the order of its catalog.
    Resources { connectors: Vec<u32> },
    /// The details of the connector that was asked for.
    Connector { connector: ConnectorInfo },
    /// The details of the encoder that was asked for.
    Encoder { encoder: EncoderInfo },
    /// The details of the CRTC that was asked for.
    Crtc { crtc: CrtcInfo },
    /// The planes of the device, in the order in which it lists them.
    PlaneHandles { planes: Vec<u32> },
    /// The details of the plane that was asked for, with its possible CRTCs
    /// resolved against the catalog.
    Plane { plane: PlaneInfo },
    /// The picture was decoded and has this size in pixels.
    Picture { width: u32, height: u32 },
    /// The pixel buffer was allocated with this geometry.
    Buffer { width: u32, height: u32, pitch: u32 },
    /// The pixel buffer was mapped as this many bytes.
    Mapped { len: usize },
    /// The framebuffer was registered under this handle.
    Framebuffer { handle: u32 },
}

/// The mathematical model of an event.
pub ghost enum Outcome {
    Opened,
    Absent,
    Refused,
    Done,
    Failed,
    Resources { connectors: Seq<u32> },
    Connector { connector: ConnectorInfo },
    Encoder { encoder: EncoderInfo },
    Crtc { crtc: CrtcInfo },
    PlaneHandles { planes: Seq<u32> },
    Plane { plane: PlaneModel },
    Picture { width: u32, height: u32 },
    Buffer { width: u32, height: u32, pitch: u32 },
    Mapped { len: nat },
    Framebuffer { handle: u32 },
}

impl View for Event {
    type V = Outcome;

    open spec fn view(&self) -> Outcome {
        match *self {
            Event::Opened => Outcome::Opened,
            Event::Absent => Outcome::Absent,
            Event::Refused => Outcome::Refused,
            Event::Done => Outcome::Done,
            Event::Failed => Outcome::Failed,
            Event::Resources { connectors } => Outcome::Resources { connectors: connectors@ },
            Event::Connector { connector } => Outcome::Connector { connector },
            Event::Encoder { encoder } => Outcome::Encoder { encoder },
            Event::Crtc { crtc } => Outcome::Crtc { crtc },
            Event::PlaneHandles { planes } => Outcome::PlaneHandles { planes: planes@ },
            Event::Plane { plane } => Outcome::Plane { plane: plane@ },
            Event::Picture { width, height } => Outcome::Picture { width, height },
            Event::Buffer { width, height, pitch } => Outcome::Buffer { width, height, pitch },
            Event::Mapped { len } => Outcome::Mapped { len: len as nat },
            Event::Framebuffer { handle } => Outcome::Framebuffer { handle },
        }
    }
}

/// Where a run stands: which outcome the session waits for.
#[derive(Clone, Copy, Debug, PartialEq, Eq, Structural)]
pub enum Phase {
    /// The device node `card` is being opened.
    Scanning { card: u32 },
    /// The failure to open node `card` is being reported.
    Reporting { card: u32 },
    /// The configuration privilege has been asked for.
    Acquiring,
    /// The resource catalog is being fetched.
    ListingOutputs,
    /// The connector at `index` of the catalog is being looked at.
    Probing { index: usize },
    /// The encoder of the connected connector is being fetched.
    FetchingEncoder,
    /// The CRTC of the encoder is being fetched.
    FetchingCrtc,
    /// The planes are being listed.
    ListingPlanes { crtc: u32 },
    /// The plane at `index` of the list is being looked at.
    Searching { crtc: u32, index: usize },
    /// The picture is being decoded.
    Decoding { plane: u32, crtc: u32 },
    /// The pixel buffer is being allocated.
    Allocating { plane: u32, crtc: u32 },
    /// The pixel buffer is being mapped.
    Mapping { plane: u32, crtc: u32, width: u32, height: u32, pitch: u32 },
    /// The picture is being copied into the mapping.
    Writing { plane: u32, crtc: u32, width: u32, height: u32 },
    /// The framebuffer is being registered.
    Registering { plane: u32, crtc: u32, width: u32, height: u32 },
    /// The plane commit is under way.
    Committing,
    /// The configuration privilege is being given back.
    Releasing,
    /// The picture is on the screen.
    Presented,
    /// The run was given up.
    Failed { failure: Failure },
}

/// The decisions of one run.
pub struct Session {
    last_card: u32,
    phase: Phase,
    connectors: Vec<u32>,
    planes: Vec<u32>,
}

/// The mathematical model of a session.
pub ghost struct SessionModel {
    /// The number of the last device node that the scan tries.
    pub last_card: u32,
    pub phase: Phase,
    /// The connectors of the device, once they are known.
    pub connectors: Seq<u32>,
    /// The planes of the device, once they are known.
    pub planes: Seq<u32>,
}

impl View for Session {
    type V = SessionModel;

    closed spec fn view(&self) -> SessionModel {
        SessionModel {
            last_card: self.last_card,
            phase: self.phase,
            connectors: self.connectors@,
            planes: self.planes@,
        }
    }
}

impl SessionModel {
    /// The session before anything is known about the device, and the first
    /// action of the run: the scan of the device nodes `first_card` to
    /// `last_card` starts with the first, and an empty range has no device.
    pub open spec fn begin(first_card: u32, last_card: u32) -> (SessionModel, Action) {
        let fresh = SessionModel {
            last_card,
            phase: Phase::Scanning { card: first_card },
            connectors: Seq::empty(),
            planes: Seq::empty(),
        };
        if first_card <= last_card {
            (fresh, Action::OpenDevice { card: first_card })
        } else {
            fresh.give_up(Failure::NoDevice)
        }
    }

    /// Goes on to `phase` with `action`.
    pub open spec fn go(self, phase: Phase, action: Action) -> (SessionModel, Action) {
        (SessionModel { phase, ..self }, action)
    }

    /// Gives the run up.
    pub open spec fn give_up(self, failure: Failure) -> (SessionModel, Action) {
        self.go(Phase::Failed { failure }, Action::Abort { failure })
    }

    /// Node `card` did not open: the next node is tried, and after the last
    /// one there is no device.
    pub open spec fn scan_after(self, card: u32) -> (SessionModel, Action) {
        if card < self.last_card {
            let next = (card + 1) as u32;
            self.go(Phase::Scanning { card: next }, Action::OpenDevice { card: next })
        } else {
            self.give_up(Failure::NoDevice)
        }
    }

    /// The connector at `index` is looked at, if the catalog has one there;
    /// behind the last connector there is no connected output.
    pub open spec fn probe(self, index: usize) -> (SessionModel, Action) {
        if index < self.connectors.len() {
            self.go(
                Phase::Probing { index },
                Action::QueryConnector { handle: self.connectors[index as int], force_probe: false },
            )
        } else {
            self.give_up(Failure::NoConnectedOutput)
        }
    }

    /// The connector behind the one at `index` is looked at.
    pub open spec fn probe_after(self, index: usize) -> (SessionModel, Action) {
        if index < usize::MAX {
            self.probe((index + 1) as usize)
        } else {
            self.give_up(Failure::NoConnectedOutput)
        }
    }

    /// The plane at `index` is looked at, if the list has one there; behind
    /// the last plane there is no suitable plane.
    pub open spec fn search(self, crtc: u32, index: usize) -> (SessionModel, Action) {
        if index < self.planes.len() {
            self.go(
                Phase::Searching { crtc, index },
                Action::QueryPlane { handle: self.planes[index as int] },
            )
        } else {
            self.give_up(Failure::NoSuitablePlane)
        }
    }

    /// The plane behind the one at `index` is looked at.
    pub open spec fn search_after(self, crtc: u32, index: usize) -> (SessionModel, Action) {
        if index < usize::MAX {
            self.search(crtc, (index + 1) as usize)
        } else {
            self.give_up(Failure::NoSuitablePlane)
        }
    }

    /// A connector was fetched: the first connected one decides the output,
    /// and it must name its encoder. Any other is passed over.
    pub open spec fn on_connector(self, index: usize, info: ConnectorInfo) -> (
        SessionModel,
        Action,
    ) {
        if info.state == ConnectorState::Connected {
            match info.current_encoder {
                Some(handle) => self.go(Phase::FetchingEncoder, Action::QueryEncoder { handle }),
                None => self.give_up(Failure::NoActiveEncoder),
            }
        } else {
            self.probe_after(index)
        }
    }

    /// A plane was fetched: the first one that is unclaimed and attachable to
    /// the CRTC is chosen, and it must scan out ARGB8888. Any other is passed
    /// over.
    pub open spec fn on_plane(self, crtc: u32, index: usize, info: PlaneModel) -> (
        SessionModel,
        Action,
    ) {
        if info.is_free_for(crtc) {
            if info.supports_argb8888() {
                self.go(Phase::Decoding { plane: info.handle, crtc }, Action::DecodePicture)
            } else {
                self.give_up(Failure::UnsupportedFormat)
            }
        } else {
            self.search_after(crtc, index)
        }
    }

    /// What the session decides when `outcome` is reported: the session
    /// afterwards, and the next action.
    pub open spec fn react(self, outcome: Outcome) -> (SessionModel, Action) {
        match self.phase {
            Phase::Scanning { card } => match outcome {
                Outcome::Opened => self.go(Phase::Acquiring, Action::AcquireMaster),
                Outcome::Absent => self.scan_after(card),
                Outcome::Refused => self.go(
                    Phase::Reporting { card },
                    Action::ReportOpenFailure { card },
                ),
                _ => self.give_up(Failure::UnexpectedEvent),
            },
            Phase::Reporting { card } => match outcome {
                Outcome::Done => self.scan_after(card),
                _ => self.give_up(Failure::UnexpectedEvent),
            },
            Phase::Acquiring => match outcome {
                Outcome::Done => self.go(Phase::ListingOutputs, Action::QueryResources),
                Outcome::Failed => self.give_up(Failure::MasterAcquire),
                _ => self.give_up(Failure::UnexpectedEvent),
            },
            Phase::ListingOutputs => match outcome {
                Outcome::Resources { connectors } => (SessionModel { connectors, ..self }).probe(0),
                Outcome::Failed => self.give_up(Failure::ResourceQuery),
                _ => self.give_up(Failure::UnexpectedEvent),
            },
            Phase::Probing { index } => match outcome {
                Outcome::Connector { connector: info } => self.on_connector(index, info),
                Outcome::Failed => self.probe_after(index),
                _ => self.give_up(Failure::UnexpectedEvent),
            },
            Phase::FetchingEncoder => match outcome {
                Outcome::Encoder { encoder: info } => match info.crtc {
                    Some(handle) => self.go(Phase::FetchingCrtc, Action::QueryCrtc { handle }),
                    None => self.give_up(Failure::NoActiveCrtc),
                },
                Outcome::Failed => self.give_up(Failure::EncoderQuery),
                _ => self.give_up(Failure::UnexpectedEvent),
            },
            Phase::FetchingCrtc => match outcome {
                Outcome::Crtc { crtc: info } => self.go(
                    Phase::ListingPlanes { crtc: info.handle },
                    Action::QueryPlaneHandles,
                ),
                Outcome::Failed => self.give_up(Failure::CrtcQuery),
                _ => self.give_up(Failure::UnexpectedEvent),
            },
            Phase::ListingPlanes { crtc } => match outcome {
                Outcome::PlaneHandles { planes } => (SessionModel { planes, ..self }).search(
                    crtc,
                    0,
                ),
                Outcome::Failed => self.give_up(Failure::PlaneQuery),
                _ => self.give_up(Failure::UnexpectedEvent),
            },
            Phase::Searching { crtc, index } => match outcome {
                Outcome::Plane { plane: info } => self.on_plane(crtc, index, info),
                Outcome::Failed => self.give_up(Failure::PlaneQuery),
                _ => self.give_up(Failure::UnexpectedEvent),
            },
            Phase::Decoding { plane, crtc } => match outcome {
                Outcome::Picture { width, height } => self.go(
                    Phase::Allocating { plane, crtc },
                    Action::CreateBuffer {
                        width,
                        height,
                        format: ARGB8888,
                        bits_per_pixel: BITS_PER_PIXEL,
                    },
                ),
                Outcome::Failed => self.give_up(Failure::Decode),
                _ => self.give_up(Failure::UnexpectedEvent),
            },
            Phase::Allocating { plane, crtc } => match outcome {
                Outcome::Buffer { width, height, pitch } => self.go(
                    Phase::Mapping { plane, crtc, width, height, pitch },
                    Action::MapBuffer,
                ),
                Outcome::Failed => self.give_up(Failure::BufferCreate),
                _ => self.give_up(Failure::UnexpectedEvent),
            },
            Phase::Mapping { plane, crtc, width, height, pitch } => match outcome {
                Outcome::Mapped { len } => if layout_fits(width, height, pitch, len) {
                    self.go(
                        Phase::Writing { plane, crtc, width, height },
                        Action::WritePixels { width, height, pitch },
                    )
                } else {
                    self.give_up(Failure::BufferLayout)
                },
                Outcome::Failed => self.give_up(Failure::BufferMap),
                _ => self.give_up(Failure::UnexpectedEvent),
            },
            Phase::Writing { plane, crtc, width, height } => match outcome {
                Outcome::Done => self.go(
                    Phase::Registering { plane, crtc, width, height },
                    Action::AddFramebuffer {
                        depth: BITS_PER_PIXEL,
                        bits_per_pixel: BITS_PER_PIXEL,
                    },
                ),
                _ => self.give_up(Failure::UnexpectedEvent),
            },
            Phase::Registering { plane, crtc, width, height } => match outcome {
                Outcome::Framebuffer { handle } => self.go(
                    Phase::Committing,
                    Action::SetPlane { commit: full_extent(plane, crtc, handle, width, height) },
                ),
                Outcome::Failed => self.give_up(Failure::FramebufferAdd),
                _ => self.give_up(Failure::UnexpectedEvent),
            },
            Phase::Committing => match outcome {
                Outcome::Done => self.go(Phase::Releasing, Action::ReleaseMaster),
                Outcome::Failed => self.give_up(Failure::PlaneCommit),
                _ => self.give_up(Failure::UnexpectedEvent),
            },
            Phase::Releasing => match outcome {
                Outcome::Done => self.go(Phase::Presented, Action::Hold),
                Outcome::Failed => self.give_up(Failure::MasterRelease),
                _ => self.give_up(Failure::UnexpectedEvent),
            },
            Phase::Presented => (self, Action::Hold),
            Phase::Failed { failure } => (self, Action::Abort { failure }),
        }
    }
}

impl Session {
    /// Starts a run that scans the device nodes `first_card` to `last_card`.
    pub fn begin(first_card: u32, last_card: u32) -> (start: (Session, Action))
        ensures
            (start.0@, start.1) == SessionModel::begin(first_card, last_card),
    {
        let mut session = Session {
            last_card,
            phase: Phase::Scanning { card: first_card },
            connectors: Vec::new(),
            planes: Vec::new(),
        };
        if first_card <= last_card {
            (session, Action::OpenDevice { card: first_card })
        } else {
            let action = session.give_up(Failure::NoDevice);
            (session, action)
        }
    }

    /// Where the run stands.
    pub fn phase(&self) -> (phase: Phase)
        ensures
            phase == self@.phase,
    {
        self.phase
    }

    fn go(&mut self, phase: Phase, action: Action) -> (next: Action)
        ensures
            (final(self)@, next) == old(self)@.go(phase, action),
    {
        self.phase = phase;
        action
    }

    fn give_up(&mut self, failure: Failure) -> (next: Action)
        ensures
            (final(self)@, next) == old(self)@.give_up(failure),
    {
        self.go(Phase::Failed { failure }, Action::Abort { failure })
    }

    fn scan_after(&mut self, card: u32) -> (next: Action)
        ensures
            (final(self)@, next) == old(self)@.scan_after(card),
    {
        if card < self.last_card {
            let following: u32 = card + 1;
            self.go(Phase::Scanning { card: following }, Action::OpenDevice { card: following })
        } else {
            self.give_up(Failure::NoDevice)
        }
    }

    fn probe(&mut self, index: usize) -> (next: Action)
        ensures
            (final(self)@, next) == old(self)@.probe(index),
    {
        if index < self.connectors.len() {
            let handle = self.connectors[index];
            self.go(Phase::Probing { index }, Action::QueryConnector { handle, force_probe: false })
        } else {
            self.give_up(Failure::NoConnectedOutput)
        }
    }

    fn probe_after(&mut self, index: usize) -> (next: Action)
        ensures
            (final(self)@, next) == old(self)@.probe_after(index),
    {
        if index < self.connectors.len() {
            self.probe(index + 1)
        } else {
            self.give_up(Failure::NoConnectedOutput)
        }
    }

    fn search(&mut self, crtc: u32, index: usize) -> (next: Action)
        ensures
            (final(self)@, next) == old(self)@.search(crtc, index),
    {
        if index < self.planes.len() {
            let handle = self.planes[index];
            self.go(Phase::Searching { crtc, index }, Action::QueryPlane { handle })
        } else {
            self.give_up(Failure::NoSuitablePlane)
        }
    }

    fn search_after(&mut self, crtc: u32, index: usize) -> (next: Action)
        ensures
            (final(self)@, next) == old(self)@.search_after(crtc, index),
    {
        if index < self.planes.len() {
            self.search(crtc, index + 1)
        } else {
            self.give_up(Failure::NoSuitablePlane)
        }
    }

    fn on_connector(&mut self, index: usize, info: ConnectorInfo) -> (next: Action)
        ensures
            (final(self)@, next) == old(self)@.on_connector(index, info),
    {
        if info.is_connected() {
            match info.current_encoder {
                Some(handle) => self.go(Phase::FetchingEncoder, Action::QueryEncoder { handle }),
                None => self.give_up(Failure::NoActiveEncoder),
            }
        } else {
            self.probe_after(index)
        }
    }

    fn on_plane(&mut self, crtc: u32, index: usize, info: &PlaneInfo) -> (next: Action)
        ensures
            (final(self)@, next) == old(self)@.on_plane(crtc, index, info@),
    {
        if info.is_free_for(crtc) {
            if info.supports_argb8888() {
                self.go(Phase::Decoding { plane: info.handle, crtc }, Action::DecodePicture)
            } else {
                self.give_up(Failure::UnsupportedFormat)
            }
        } else {
            self.search_after(crtc, index)
        }
    }

    /// The part of [`Session::step`] that locates and claims the device.
    fn step_locating(&mut self, event: Event) -> (next: Action)
        requires
            old(self)@.phase is Scanning || old(self)@.phase is Reporting || old(self)@.phase
                is Acquiring,
        ensures
            (final(self)@, next) == old(self)@.react(event@),
    {
        match self.phase {
            Phase::Scanning { card } => match event {
                Event::Opened => self.go(Phase::Acquiring, Action::AcquireMaster),
                Event::Absent => self.scan_after(card),
                Event::Refused => self.go(
                    Phase::Reporting { card },
                    Action::ReportOpenFailure { card },
                ),
                _ => self.give_up(Failure::UnexpectedEvent),
            },
            Phase::Reporting { card } => match event {
                Event::Done => self.scan_after(card),
                _ => self.give_up(Failure::UnexpectedEvent),
            },
            _ => match event {
                Event::Done => self.go(Phase::ListingOutputs, Action::QueryResources),
                Event::Failed => self.give_up(Failure::MasterAcquire),
                _ => self.give_up(Failure::UnexpectedEvent),
            },
        }
    }

    /// The part of [`Session::step`] that finds the connected output and the
    /// CRTC behind it.
    fn step_resolving_output(&mut self, event: Event) -> (next: Action)
        requires
            old(self)@.phase is ListingOutputs || old(self)@.phase is Probing || old(self)@.phase
                is FetchingEncoder || old(self)@.phase is FetchingCrtc,
        ensures
            (final(self)@, next) == old(self)@.react(event@),
    {
        match self.phase {
            Phase::ListingOutputs => match event {
                Event::Resources { connectors } => {
                    self.connectors = connectors;
                    self.probe(0)
                },
                Event::Failed => self.give_up(Failure::ResourceQuery),
                _ => self.give_up(Failure::UnexpectedEvent),
            },
            Phase::Probing { index } => match event {
                Event::Connector { connector: info } => self.on_connector(index, info),
                Event::Failed => self.probe_after(index),
                _ => self.give_up(Failure::UnexpectedEvent),
            },
            Phase::FetchingEncoder => match event {
                Event::Encoder { encoder: info } => match info.crtc {
                    Some(handle) => self.go(Phase::FetchingCrtc, Action::QueryCrtc { handle }),
                    None => self.give_up(Failure::NoActiveCrtc),
                },
                Event::Failed => self.give_up(Failure::EncoderQuery),
                _ => self.give_up(Failure::UnexpectedEvent),
            },
            _ => match event {
                Event::Crtc { crtc: info } => self.go(
                    Phase::ListingPlanes { crtc: info.handle },
                    Action::QueryPlaneHandles,
                ),
                Event::Failed => self.give_up(Failure::CrtcQuery),
                _ => self.give_up(Failure::UnexpectedEvent),
            },
        }
    }

    /// The part of [`Session::step`] that finds and validates the plane.
    fn step_resolving_plane(&mut self, event: Event) -> (next: Action)
        requires
            old(self)@.phase is ListingPlanes || old(self)@.phase is Searching,
        ensures
            (final(self)@, next) == old(self)@.react(event@),
    {
        match self.phase {
            Phase::ListingPlanes { crtc } => match event {
                Event::PlaneHandles { planes } => {
                    self.planes = planes;
                    self.search(crtc, 0)
                },
                Event::Failed => self.give_up(Failure::PlaneQuery),
                _ => self.give_up(Failure::UnexpectedEvent),
            },
            Phase::Searching { crtc, index } => match event {
                Event::Plane { plane: info } => self.on_plane(crtc, index, &info),
                Event::Failed => self.give_up(Failure::PlaneQuery),
                _ => self.give_up(Failure::UnexpectedEvent),
            },
            _ => self.give_up(Failure::UnexpectedEvent),
        }
    }

    /// The part of [`Session::step`] that fills the pixel buffer.
    fn step_filling(&mut self, event: Event) -> (next: Action)
        requires
            old(self)@.phase is Decoding || old(self)@.phase is Allocating || old(self)@.phase
                is Mapping || old(self)@.phase is Writing,
        ensures
            (final(self)@, next) == old(self)@.react(event@),
    {
        match self.phase {
            Phase::Decoding { plane, crtc } => match event {
                Event::Picture { width, height } => self.go(
                    Phase::Allocating { plane, crtc },
                    Action::CreateBuffer {
                        width,
                        height,
                        format: argb8888_fourcc(),
                        bits_per_pixel: BITS_PER_PIXEL,
                    },
                ),
                Event::Failed => self.give_up(Failure::Decode),
                _ => self.give_up(Failure::UnexpectedEvent),
            },
            Phase::Allocating { plane, crtc } => match event {
                Event::Buffer { width, height, pitch } => self.go(
                    Phase::Mapping { plane, crtc, width, height, pitch },
                    Action::MapBuffer,
                ),
                Event::Failed => self.give_up(Failure::BufferCreate),
                _ => self.give_up(Failure::UnexpectedEvent),
            },
            Phase::Mapping { plane, crtc, width, height, pitch } => match event {
                Event::Mapped { len } => if check_layout(width, height, pitch, len) {
                    self.go(
                        Phase::Writing { plane, crtc, width, height },
                        Action::WritePixels { width, height, pitch },
                    )
                } else {
                    self.give_up(Failure::BufferLayout)
                },
                Event::Failed => self.give_up(Failure::BufferMap),
                _ => self.give_up(Failure::UnexpectedEvent),
            },
            Phase::Writing { plane, crtc, width, height } => match event {
                Event::Done => self.go(
                    Phase::Registering { plane, crtc, width, height },
                    Action::AddFramebuffer {
                        depth: BITS_PER_PIXEL,
                        bits_per_pixel: BITS_PER_PIXEL,
                    },
                ),
                _ => self.give_up(Failure::UnexpectedEvent),
            },
            _ => self.give_up(Failure::UnexpectedEvent),
        }
    }

    /// The part of [`Session::step`] that puts the buffer on the screen.
    fn step_presenting(&mut self, event: Event) -> (next: Action)
        requires
            old(self)@.phase is Registering || old(self)@.phase is Committing || old(self)@.phase
                is Releasing,
        ensures
            (final(self)@, next) == old(self)@.react(event@),
    {
        match self.phase {
            Phase::Registering { plane, crtc, width, height } => match event {
                Event::Framebuffer { handle } => {
                    let commit = plane_commit(plane, crtc, handle, width, height);
                    self.go(Phase::Committing, Action::SetPlane { commit })
                },
                Event::Failed => self.give_up(Failure::FramebufferAdd),
                _ => self.give_up(Failure::UnexpectedEvent),
            },
            Phase::Committing => match event {
                Event::Done => self.go(Phase::Releasing, Action::ReleaseMaster),
                Event::Failed => self.give_up(Failure::PlaneCommit),
                _ => self.give_up(Failure::UnexpectedEvent),
            },
            _ => match event {
                Event::Done => self.go(Phase::Presented, Action::Hold),
                Event::Failed => self.give_up(Failure::MasterRelease),
                _ => self.give_up(Failure::UnexpectedEvent),
            },
        }
    }

    /// Takes the outcome of the last action and decides on the next one.
    ///
    /// An outcome that does not answer the last action ends the run. Once the
    /// action is [`Action::Hold`] or [`Action::Abort`] it stays so whatever is
    /// reported.
    pub fn step(&mut self, event: Event) -> (next: Action)
        ensures
            (final(self)@, next) == old(self)@.react(event@),
    {
        match self.phase {
            Phase::Scanning { .. } | Phase::Reporting { .. } | Phase::Acquiring => {
                self.step_locating(event)
            },
            Phase::ListingOutputs
            | Phase::Probing { .. }
            | Phase::FetchingEncoder
            | Phase::FetchingCrtc => self.step_resolving_output(event),
            Phase::ListingPlanes { .. } | Phase::Searching { .. } => self.step_resolving_plane(
                event,
            ),
            Phase::Decoding { .. }
            | Phase::Allocating { .. }
            | Phase::Mapping { .. }
            | Phase::Writing { .. } => self.step_filling(event),
            Phase::Registering { .. } | Phase::Committing | Phase::Releasing => {
                self.step_presenting(event)
            },
            Phase::Presented => Action::Hold,
            Phase::Failed { failure } => Action::Abort { failure },
        }
    }
}

} // verus!
