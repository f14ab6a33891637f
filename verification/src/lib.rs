//! Decision logic of a single-camera face detection loop.
//!
//! The tool pulls frames from a camera, shrinks each one, looks for faces
//! in it, draws a box around every face and shows the frame in a window,
//! until the Escape key is pressed. This crate holds everything the tool
//! decides, and nothing that it does to a device:
//!
//! - [`config`] settles which camera is opened and the frame size asked of
//!   it, from defaults and textual overrides, with [`decimal`] reading the
//!   numbers;
//! - [`scale`] holds the factor by which frames are shrunk and the integer
//!   by which detections are mapped back;
//! - [`detection`] holds what the detector is asked, how its answers are
//!   mapped to the original frame and how the boxes are drawn;
//! - [`settings`] gathers the fixed choices of the tool;
//! - [`session`] sequences one run: it hands out one action at a time and
//!   takes in what came of it;
//! - [`laws`] proves what holds of every run.
//!
//! A driver around the crate owns the camera, the detector and the window.
//! It starts a [`session::Session`], carries out each [`session::Action`]
//! and reports the outcome as a [`session::Event`], until the session hands
//! out [`session::Action::Finish`].

pub mod config;
pub mod decimal;
pub mod detection;
pub mod geometry;
pub mod laws;
pub mod scale;
pub mod session;
pub mod settings;
