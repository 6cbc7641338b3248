//! Decoders for the text that `git` prints, and the patches built from them.
//!
//! The library reads the output of `git status`, `git diff`, `git log`,
//! `git reflog` and the conflict markers of a file into typed values, and
//! builds the commands that `git` is to run, among them the patch that
//! stages or unstages one hunk. It runs nothing itself: a command is a
//! value, and what a process printed comes in as text.
//!
//! Each decoder is described by a spec function over `Seq<char>`; the
//! modules whose names end in `_laws` hold what is proved of every decoded
//! value.

pub mod text;
pub mod search;
pub mod split;
pub mod number;
pub mod rejoin;
pub mod command;
pub mod runner;
pub mod diff;
pub mod diff_laws;
pub mod status;
pub mod status_laws;
pub mod merge;
pub mod merge_laws;
pub mod merge_ops;
pub mod log;
pub mod reflog;
pub mod stash;
pub mod branch;
pub mod remote;
pub mod config;
pub mod github;
pub mod device_auth;
pub mod ai;
pub mod mentor;
pub mod keychain;
pub mod commit;
pub mod views;
pub mod app_state;
pub mod merge_resolve;
pub mod pull_requests;
