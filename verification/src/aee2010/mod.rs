//! Frames of the AEE2010 electrical architecture.
pub mod infodiv;
