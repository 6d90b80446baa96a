//! A real-time application loop: a fixed-rate simulation tick decoupled from
//! a display-rate render pass, and a three-stage frame (prepare, render,
//! flush) that orders surface reconfiguration, drawing and submission.

pub mod application;
pub mod graphics;
pub mod plugins;
pub mod resources;
pub mod timestep_scheduler;
