//! Decision logic for showing one still picture full-screen through the
//! kernel's display-configuration interface (DRM/KMS).
//!
//! The crate holds no device access of its own. A driver program performs the
//! device operations and reports their outcomes; the library decides what is
//! done next, validates the chosen plane, lays the picture out in the scanout
//! buffer and composes the final plane commit.
//!
//! * [`session`] is the run as a state machine: actions out, events in.
//! * [`run`] defines runs and the order that all of them keep, and [`laws`]
//!   proves what follows for the scan, the privilege, the resolution of the
//!   output, the validation of the plane and the commit.
//! * [`locator`] names the device nodes, [`model`] describes the display
//!   objects, [`format`] holds the pixel format, [`picture`] the decoded
//!   picture, [`blit`] the copy into the scanout buffer, [`present`] the plane
//!   commit and [`failure`] the reasons for giving up.

pub mod blit;
pub mod failure;
pub mod format;
pub mod laws;
pub mod locator;
pub mod model;
pub mod picture;
pub mod present;
pub mod run;
pub mod session;
