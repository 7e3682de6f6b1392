pub mod git_commit;
pub mod git_state;
