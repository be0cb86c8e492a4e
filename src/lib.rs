//! Immediate-mode vector shapes: a paint configuration stack, fixed-layout GPU records with
//! their byte encoding, off-screen canvases with a redraw policy, per-target batches, and
//! child scopes that link their shapes to a parent in one step.

pub mod flags;
pub mod matrix;
pub mod config;
pub mod record;
pub mod canvas;
pub mod painter;
pub mod quad_bezier;
pub mod children;
pub mod frame;
