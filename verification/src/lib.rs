//! Frame-by-frame zoom and pan for screen recordings.
//!
//! A recording is placed on a gradient background, and a virtual camera
//! zooms toward the mouse during marked intervals.  This crate holds what
//! is decided about each frame, verified with Verus:
//!
//! * [`gradient`] computes the background once per run;
//! * [`compositor`] builds the canvas of a frame: background and inset;
//! * [`camera`] is the state machine that yields the crop rectangle of
//!   each frame, with [`animation`] as its filter and [`focus`] as its
//!   choice of a focal point; [`single_zoom`] proves how a run with one
//!   zoom interval goes;
//! * [`sampler`] cuts the crop out of the canvas and stamps the frame;
//! * [`pipeline`] orders the work of a run around the codecs;
//! * [`session`] ties these together for one run;
//! * [`config`], [`frame`] and [`error`] hold the data;
//! * [`smoothing`] offers a moving mean with shake detection.
//!
//! Decoding, resampling, encoding and all files stay with the caller.
//!
//! Numbers that are not whole are fixed-point millionths in an `i64`, see
//! [`fixed`]: the arithmetic is exact, and every rounding is stated.

pub mod animation;
pub mod camera;
pub mod compositor;
pub mod config;
pub mod error;
pub mod fixed;
pub mod focus;
pub mod frame;
pub mod gradient;
pub mod pipeline;
pub mod sampler;
pub mod session;
pub mod single_zoom;
pub mod smoothing;
