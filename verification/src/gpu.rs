//! The render targets and the frame graph that is recorded into them.

pub mod context;
pub mod passes;
pub mod targets;
