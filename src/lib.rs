//! Batch conversion of `.m4a` audio files to `.mp3` through an external
//! transcoder: the decisions of the tool (which files to convert, where the
//! results go, what is logged, how progress advances) as verified functions.

pub mod naming;
pub mod discovery;
pub mod runner;
pub mod batch;
pub mod cli;
