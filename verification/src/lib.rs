//! The decisions of a batch file downloader: how the command line is read, which URLs an input
//! stands for, when a failed request is tried again, under which name a file is stored, and
//! whether a finished transfer counts as a success.
//!
//! Every function here works on plain values. Requests, files and the terminal belong to the
//! program around the library, which carries out the step that the library names and hands back
//! what came of it.

pub mod batch;
pub mod cli;
pub mod filename;
pub mod input;
pub mod number;
pub mod outside;
pub mod request;
pub mod retry;
pub mod runs;
pub mod task;
pub mod task_error;
pub mod text;
pub mod transitions;
pub mod urls;
