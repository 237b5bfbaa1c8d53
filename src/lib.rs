//! A diagnostic overlay's logic: which readout panels stand on screen and in
//! what order, how the renderer is set up for each target, and the text that
//! each readout line shows.
pub mod decimal;
pub mod readout;
pub mod setup;
