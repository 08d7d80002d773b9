//! Decision logic for a launcher that manages a local n8n container stack
//! through the Docker and docker-compose command-line tools.
//!
//! The library holds everything that can be stated and proved about the
//! launcher: which candidate binaries and directories are probed and in what
//! order, how command outcomes drive the retry loops, how the layered health
//! check classifies results, and the exact text of every message the launcher
//! reports. Running processes, touching the filesystem and speaking HTTP are
//! left to the surrounding application, which feeds plain values into the
//! state machines defined here.

pub mod attempt;
pub mod compose;
pub mod docker;
pub mod health;
pub mod paths;
pub mod status;
pub mod text;
