//! Rule-based flame detection on the regions of a video frame: a tracker
//! that confirms a detection once the dominant region has stayed in place
//! for several frames, a validator that picks the regions to mark, and the
//! decisions of the capture loop around them.

pub mod config;
pub mod geometry;
pub mod pipeline;
pub mod region;
pub mod session;
pub mod tracker;
pub mod validator;
