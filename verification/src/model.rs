//! What the device reports about its display objects, as plain values.
//!
//! Objects are named by their kernel handles, which are nonzero 32-bit
//! numbers. A reference that an object may lack is an `Option`.

use vstd::prelude::*;
use crate::format::supports_argb8888;
use crate::format::ARGB8888;

verus! {

/// Whether a display is plugged into a connector.
#[derive(Clone, Copy, Debug, PartialEq, Eq, Structural)]
pub enum ConnectorState {
    Connected,
    Disconnected,
    Unknown,
}

/// A physical output port.
#[derive(Clone, Copy, Debug, PartialEq, Eq)]
pub struct ConnectorInfo {
    pub handle: u32,
    pub state: ConnectorState,
    /// The encoder that currently drives the connector, if any.
    pub current_encoder: Option<u32>,
}

/// The stage that converts the signal of a CRTC for a connector.
#[derive(Clone, Copy, Debug, PartialEq, Eq)]
pub struct EncoderInfo {
    pub handle: u32,
    /// The CRTC that currently drives the encoder, if any.
    pub crtc: Option<u32>,
}

/// A display controller.
#[derive(Clone, Copy, Debug, PartialEq, Eq)]
pub struct CrtcInfo {
    pub handle: u32,
}

/// A scanout surface.
#[derive(Clone, Debug, PartialEq, Eq)]
pub struct PlaneInfo {
    pub handle: u32,
    /// The CRTC that the plane is attached to, if any.
    pub crtc: Option<u32>,
    /// The CRTCs of the device that the plane can be attached to.
    pub possible_crtcs: Vec<u32>,
    /// The fourcc codes of the pixel formats that the plane can scan out.
    pub formats: Vec<u32>,
}

/// The mathematical model of a plane.
pub ghost struct PlaneModel {
    pub handle: u32,
    pub crtc: Option<u32>,
    pub possible_crtcs: Seq<u32>,
    pub formats: Seq<u32>,
}

impl PlaneModel {
    /// Whether the plane is unclaimed and can be attached to `crtc`.
    pub open spec fn is_free_for(self, crtc: u32) -> bool {
        self.crtc is None && self.possible_crtcs.contains(crtc)
    }

    /// Whether the plane can scan out ARGB8888.
    pub open spec fn supports_argb8888(self) -> bool {
        self.formats.contains(ARGB8888)
    }
}

impl View for PlaneInfo {
    type V = PlaneModel;

    open spec fn view(&self) -> PlaneModel {
        PlaneModel {
            handle: self.handle,
            crtc: self.crtc,
            possible_crtcs: self.possible_crtcs@,
            formats: self.formats@,
        }
    }
}

impl ConnectorInfo {
    /// Whether a display is plugged into the connector.
    pub fn is_connected(&self) -> (connected: bool)
        ensures
            connected == (self.state == ConnectorState::Connected),
    {
        self.state == ConnectorState::Connected
    }
}

impl PlaneInfo {
    /// Whether the plane is unclaimed and can be attached to `crtc`.
    pub fn is_free_for(&self, crtc: u32) -> (free: bool)
        ensures
            free == self@.is_free_for(crtc),
    {
        if self.crtc.is_some() {
            return false;
        }
        let mut i: usize = 0;
        while i < self.possible_crtcs.len()
            invariant
                i <= self.possible_crtcs.len(),
                self.crtc is None,
                forall|j: int| 0 <= j < i ==> self.possible_crtcs@[j] != crtc,
            decreases self.possible_crtcs.len() - i,
        {
            if self.possible_crtcs[i] == crtc {
                return true;
            }
            i += 1;
        }
        false
    }

    /// Whether the plane can scan out ARGB8888.
    pub fn supports_argb8888(&self) -> (supported: bool)
        ensures
            supported == self@.supports_argb8888(),
    {
        supports_argb8888(self.formats.as_slice())
    }
}

} // verus!
