//! Launches a program suspended under a cover parent, loads libraries into it
//! before its entry point runs, and resumes it.
//!
//! The crate holds the decisions of that pipeline: which operating-system
//! request comes next, what each reply leads to, and what is owed on every
//! exit path. The caller performs the requests and hands the replies back.

pub mod config;
pub mod history;
pub mod injector;
pub mod launcher;
pub mod pipeline;
pub mod wide;
