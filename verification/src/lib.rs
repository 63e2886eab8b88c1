//! Decision logic of an interactive Euler-spiral spline editor: pointer
//! gesture recognition, spline editing modes, viewport scrolling, change
//! notification, GPU draw limits and asset lookup.

pub mod pointer;
pub mod line;
pub mod section;
pub mod mailbox;
pub mod renderer;
pub mod viewport;
pub mod asset;
