//! Job execution core of a continuous-delivery command line tool: which
//! change to build, where its workspace lives, which phases run with which
//! privilege, and how a run is handed to a container.
pub mod error;
pub mod change;
pub mod workspace;
pub mod job;
pub mod docker;
pub mod command;
pub mod token;
pub mod files;
