//! Why a run ends without a picture on the screen.

use vstd::prelude::*;

verus! {

/// The reasons for which a run is given up. Every one of them is fatal: there
/// is no retry, no fallback device and no partial success.
#[derive(Clone, Copy, Debug, PartialEq, Eq, Structural)]
pub enum Failure {
    /// No device node of the scanned range could be opened.
    NoDevice,
    /// The device refused exclusive configuration privilege.
    MasterAcquire,
    /// The catalog of connectors could not be fetched.
    ResourceQuery,
    /// No connector of the catalog reports a connected display.
    NoConnectedOutput,
    /// The connected connector names no encoder that drives it.
    NoActiveEncoder,
    /// The encoder's details could not be fetched.
    EncoderQuery,
    /// The encoder names no CRTC that drives it.
    NoActiveCrtc,
    /// The CRTC's details could not be fetched.
    CrtcQuery,
    /// The planes could not be listed, or the details of one could not be
    /// fetched.
    PlaneQuery,
    /// No plane is free and attachable to the CRTC.
    NoSuitablePlane,
    /// The chosen plane does not scan out ARGB8888.
    UnsupportedFormat,
    /// The picture could not be decoded.
    Decode,
    /// The device refused to allocate the pixel buffer.
    BufferCreate,
    /// The pixel buffer could not be mapped into memory.
    BufferMap,
    /// The mapping is too small for the rows that the buffer declares.
    BufferLayout,
    /// The device refused to register the buffer as a framebuffer.
    FramebufferAdd,
    /// The device rejected the plane commit.
    PlaneCommit,
    /// The device refused to take the configuration privilege back.
    MasterRelease,
    /// The driver reported an outcome that does not answer the last action.
    UnexpectedEvent,
}

/// The kinds of failure, by what went wrong.
#[derive(Clone, Copy, Debug, PartialEq, Eq, Structural)]
pub enum FailureClass {
    /// No device node opened.
    DeviceNotFound,
    /// The configuration privilege was not granted or not taken back.
    Privilege,
    /// The resource graph lacks what the presentation needs: a connected
    /// output, a reference from it to an encoder and on to a CRTC, a free
    /// plane; or it could not be read.
    ResourceGraph,
    /// The plane lacks the pixel format.
    FormatIncompatibility,
    /// The pixel buffer could not be allocated or mapped.
    Allocation,
    /// The framebuffer or the plane commit was rejected.
    Presentation,
    /// The picture could not be decoded.
    ImageDecode,
    /// The driver did not keep to the order of the run.
    Protocol,
}

impl Failure {
    /// The kind of this failure.
    pub open spec fn class_of(self) -> FailureClass {
        match self {
            Failure::NoDevice => FailureClass::DeviceNotFound,
            Failure::MasterAcquire | Failure::MasterRelease => FailureClass::Privilege,
            Failure::ResourceQuery
            | Failure::NoConnectedOutput
            | Failure::NoActiveEncoder
            | Failure::EncoderQuery
            | Failure::NoActiveCrtc
            | Failure::CrtcQuery
            | Failure::PlaneQuery
            | Failure::NoSuitablePlane => FailureClass::ResourceGraph,
            Failure::UnsupportedFormat => FailureClass::FormatIncompatibility,
            Failure::BufferCreate | Failure::BufferMap | Failure::BufferLayout => {
                FailureClass::Allocation
            },
            Failure::FramebufferAdd | Failure::PlaneCommit => FailureClass::Presentation,
            Failure::Decode => FailureClass::ImageDecode,
            Failure::UnexpectedEvent => FailureClass::Protocol,
        }
    }

    /// The kind of this failure.
    pub fn class(self) -> (class: FailureClass)
        ensures
            class == self.class_of(),
    {
        match self {
            Failure::NoDevice => FailureClass::DeviceNotFound,
            Failure::MasterAcquire | Failure::MasterRelease => FailureClass::Privilege,
            Failure::ResourceQuery
            | Failure::NoConnectedOutput
            | Failure::NoActiveEncoder
            | Failure::EncoderQuery
            | Failure::NoActiveCrtc
            | Failure::CrtcQuery
            | Failure::PlaneQuery
            | Failure::NoSuitablePlane => FailureClass::ResourceGraph,
            Failure::UnsupportedFormat => FailureClass::FormatIncompatibility,
            Failure::BufferCreate | Failure::BufferMap | Failure::BufferLayout => {
                FailureClass::Allocation
            },
            Failure::FramebufferAdd | Failure::PlaneCommit => FailureClass::Presentation,
            Failure::Decode => FailureClass::ImageDecode,
            Failure::UnexpectedEvent => FailureClass::Protocol,
        }
    }

    /// The text of the diagnostic for this failure.
    pub open spec fn message_text(self) -> Seq<char> {
        match self {
            Failure::NoDevice => "Failed to open any card, terminating"@,
            Failure::MasterAcquire => "Failed to acquire the master lock"@,
            Failure::ResourceQuery => "Failed to fetch the resource handles"@,
            Failure::NoConnectedOutput => "Failed to find any connected output"@,
            Failure::NoActiveEncoder => "connector has no active encoder"@,
            Failure::EncoderQuery => "Failed to fetch the encoder"@,
            Failure::NoActiveCrtc => "encoder has no active CRTC"@,
            Failure::CrtcQuery => "Failed to fetch the CRTC"@,
            Failure::PlaneQuery => "Failed to fetch the planes"@,
            Failure::NoSuitablePlane => "Failed to find a suitable plane for crtc"@,
            Failure::UnsupportedFormat => "Failed to find suitable format in plane."@,
            Failure::Decode => "Failed to decode the image"@,
            Failure::BufferCreate => "Failed to create the dumb buffer"@,
            Failure::BufferMap => "Failed to map the dumb buffer"@,
            Failure::BufferLayout => "The mapped buffer is smaller than its rows"@,
            Failure::FramebufferAdd => "Failed to add the framebuffer"@,
            Failure::PlaneCommit => "Failed to set the plane"@,
            Failure::MasterRelease => "Failed to release the master lock"@,
            Failure::UnexpectedEvent => "Unexpected outcome of a device operation"@,
        }
    }

    /// The diagnostic for this failure.
    pub fn message(self) -> (text: &'static str)
        ensures
            text@ == self.message_text(),
    {
        match self {
            Failure::NoDevice => "Failed to open any card, terminating",
            Failure::MasterAcquire => "Failed to acquire the master lock",
            Failure::ResourceQuery => "Failed to fetch the resource handles",
            Failure::NoConnectedOutput => "Failed to find any connected output",
            Failure::NoActiveEncoder => "connector has no active encoder",
            Failure::EncoderQuery => "Failed to fetch the encoder",
            Failure::NoActiveCrtc => "encoder has no active CRTC",
            Failure::CrtcQuery => "Failed to fetch the CRTC",
            Failure::PlaneQuery => "Failed to fetch the planes",
            Failure::NoSuitablePlane => "Failed to find a suitable plane for crtc",
            Failure::UnsupportedFormat => "Failed to find suitable format in plane.",
            Failure::Decode => "Failed to decode the image",
            Failure::BufferCreate => "Failed to create the dumb buffer",
            Failure::BufferMap => "Failed to map the dumb buffer",
            Failure::BufferLayout => "The mapped buffer is smaller than its rows",
            Failure::FramebufferAdd => "Failed to add the framebuffer",
            Failure::PlaneCommit => "Failed to set the plane",
            Failure::MasterRelease => "Failed to release the master lock",
            Failure::UnexpectedEvent => "Unexpected outcome of a device operation",
        }
    }
}

} // verus!
