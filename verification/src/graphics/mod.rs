//! The graphics backend as the frame sees it.

pub mod wgpu;
