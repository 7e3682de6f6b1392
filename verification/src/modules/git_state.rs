//! What to show of the operation that a repository is in the middle of.

use crate::state::GitState;
use vstd::prelude::*;

verus! {

/// The label to show for each operation.
#[derive(Debug)]
pub struct GitStateConfig {
    pub rebase: String,
    pub merge: String,
    pub revert: String,
    pub cherry_pick: String,
    pub bisect: String,
    pub am: String,
    pub am_or_rebase: String,
}

/// What to show of an operation: its label and, where the operation goes in
/// steps, the number of the current step and the number of steps.
#[derive(Debug)]
pub struct StateDescription<'a> {
    pub label: &'a str,
    pub current: Option<usize>,
    pub total: Option<usize>,
}

/// A description as a value.
pub struct StateDescriptionView {
    pub label: Seq<char>,
    pub current: Option<usize>,
    pub total: Option<usize>,
}

impl<'a> View for StateDescription<'a> {
    type V = StateDescriptionView;

    open spec fn view(&self) -> StateDescriptionView {
        StateDescriptionView { label: self.label@, current: self.current, total: self.total }
    }
}

impl GitStateConfig {
    /// Whether the labels are the usual ones.
    pub open spec fn is_default(self) -> bool {
        &&& self.rebase@ == "REBASING"@
        &&& self.merge@ == "MERGING"@
        &&& self.revert@ == "REVERTING"@
        &&& self.cherry_pick@ == "CHERRY-PICKING"@
        &&& self.bisect@ == "BISECTING"@
        &&& self.am@ == "AM"@
        &&& self.am_or_rebase@ == "AM/REBASE"@
    }
}

impl Default for GitStateConfig {
    fn default() -> (config: GitStateConfig)
        ensures
            config.is_default(),
    {
        GitStateConfig {
            rebase: "REBASING".to_owned(),
            merge: "MERGING".to_owned(),
            revert: "REVERTING".to_owned(),
            cherry_pick: "CHERRY-PICKING".to_owned(),
            bisect: "BISECTING".to_owned(),
            am: "AM".to_owned(),
            am_or_rebase: "AM/REBASE".to_owned(),
        }
    }
}

/// A description with a label and no steps.
pub open spec fn plain(label: Seq<char>) -> StateDescriptionView {
    StateDescriptionView { label, current: None, total: None }
}

/// What to show of `state` with the labels of `config`: nothing of a clean
/// repository; else the label of the operation, with the step that it is at
/// where it is a rebase or a patch series.
pub open spec fn description_of(state: GitState, config: GitStateConfig) -> Option<
    StateDescriptionView,
> {
    match state {
        GitState::Clean => None,
        GitState::Merge => Some(plain(config.merge@)),
        GitState::Revert => Some(plain(config.revert@)),
        GitState::CherryPick => Some(plain(config.cherry_pick@)),
        GitState::Bisect => Some(plain(config.bisect@)),
        GitState::ApplyMailbox(progress) => Some(
            StateDescriptionView {
                label: config.am@,
                current: Some(progress.current),
                total: Some(progress.total),
            },
        ),
        GitState::ApplyMailboxOrRebase => Some(plain(config.am_or_rebase@)),
        GitState::Rebase(progress) => Some(
            StateDescriptionView {
                label: config.rebase@,
                current: Some(progress.current),
                total: Some(progress.total),
            },
        ),
    }
}

/// What to show of the state of the repository that the current directory
/// lies in: nothing where it lies in none, or in a clean one.
pub fn module<'a>(state: Option<&GitState>, config: &'a GitStateConfig) -> (description: Option<
    StateDescription<'a>,
>)
    ensures
        match description {
            Some(shown) => state matches Some(found) && description_of(*found, *config) == Some(
                shown@,
            ),
            None => state matches Some(found) ==> description_of(*found, *config) is None,
        },
{
    match state {
        Some(repo_state) => get_state_description(repo_state, config),
        None => None,
    }
}

/// What to show of `state` with the labels of `config`.
pub fn get_state_description<'a>(state: &GitState, config: &'a GitStateConfig) -> (description:
    Option<StateDescription<'a>>)
    ensures
        match description {
            Some(shown) => description_of(*state, *config) == Some(shown@),
            None => description_of(*state, *config) is None,
        },
{
    match state {
        GitState::Clean => None,
        GitState::Merge => Some(
            StateDescription { label: config.merge.as_str(), current: None, total: None },
        ),
        GitState::Revert => Some(
            StateDescription { label: config.revert.as_str(), current: None, total: None },
        ),
        GitState::CherryPick => Some(
            StateDescription { label: config.cherry_pick.as_str(), current: None, total: None },
        ),
        GitState::Bisect => Some(
            StateDescription { label: config.bisect.as_str(), current: None, total: None },
        ),
        GitState::ApplyMailbox(progress) => Some(
            StateDescription {
                label: config.am.as_str(),
                current: Some(progress.current),
                total: Some(progress.total),
            },
        ),
        GitState::ApplyMailboxOrRebase => Some(
            StateDescription { label: config.am_or_rebase.as_str(), current: None, total: None },
        ),
        GitState::Rebase(progress) => Some(
            StateDescription {
                label: config.rebase.as_str(),
                current: Some(progress.current),
                total: Some(progress.total),
            },
        ),
    }
}

} // verus!
