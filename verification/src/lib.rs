//! Facts about the version-control repository that a directory lies in: its
//! branch, its upstream, the status of its working tree, the operation that it
//! is in the middle of, and the commit that is checked out.
//!
//! The library reads no file and runs no program. It says what is to be
//! asked of the outside world, as a [`git::Request`], takes the answer, and
//! keeps the fact that the answer gives. Every function is verified against
//! its contract; what is believed without proof are the calls into
//! `once_cell` (in `cells`) and into `std::path` (in `paths`).

pub mod cells;
pub mod git;
pub mod head;
pub mod modules;
pub mod paths;
pub mod remote;
pub mod state;
pub mod status;
pub mod text;
