//! Turns a video into terminal animation.
//!
//! The crate holds the decisions of two cooperating parts:
//!
//! * the frame source, which walks a media container packet by packet,
//!   samples the decoded frames at the chosen [`rate::FrameRate`] and
//!   collects them as RGB frames of one common size, and
//! * the playback driver, which hands the frames to a renderer in order and
//!   paces the glyph grids it gets back.
//!
//! Decoding, rendering, the terminal and the clock are outside this crate.
//! Both parts are written as state machines: the caller performs the
//! request a machine hands out and reports what happened.
pub mod error;
pub mod frame;
pub mod playback;
pub mod rate;
pub mod screen;
pub mod source;
pub mod trace;

pub use error::ExtractError;
pub use frame::Frame;
pub use rate::FrameRate;
