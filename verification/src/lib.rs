//! Native bootstrap and surface-lifecycle controller for a containerized
//! guest: decides, on each host notification, whether to run the one-time
//! bootstrap (device permissions, input init, render worker, guest launch)
//! or the routine re-registration of a sub-window, and pins down the
//! geometry, frame-rate and launch policies those paths follow.

pub mod geometry;
pub mod coordinator;
pub mod launch;
pub mod laws;
