//! Setup of a kernel submission/completion ring pair: flag validation, ring
//! geometry, offset resolution and the all-or-nothing setup sequence, stated
//! over plain values so that the process side only has to perform the calls.
pub mod flags;
pub mod params;
pub mod geometry;
pub mod queues;
pub mod setup;
