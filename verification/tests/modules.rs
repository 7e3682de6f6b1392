use git_facts::modules::git_commit::{self, CommitFacts, GitCommitConfig};
use git_facts::modules::git_state::{self, get_state_description, GitStateConfig};
use git_facts::state::{GitState, RebaseProgress};

fn on_a_branch() -> CommitFacts {
    CommitFacts {
        detached: false,
        hash: Some("3d158f4448b6e7ebcff704621225dac93c28f510".to_string()),
        tag: None,
    }
}

fn detached() -> CommitFacts {
    CommitFacts { detached: true, ..on_a_branch() }
}

fn shown(state: GitState) -> Option<String> {
    let config = GitStateConfig::default();
    git_state::module(Some(&state), &config).map(|description| {
        match (description.current, description.total) {
            (Some(current), Some(total)) => format!("{} {}/{}", description.label, current, total),
            _ => description.label.to_string(),
        }
    })
}

#[test]
fn git_commit_show_nothing_on_empty_dir() {
    let actual = git_commit::module(None, &GitCommitConfig::default());

    assert!(actual.is_none());
}

#[test]
fn test_render_commit_hash_only_detached_on_branch() {
    let repo = on_a_branch();

    let actual = git_commit::module(Some(&repo), &GitCommitConfig::default());

    assert!(actual.is_none());
}

#[test]
fn commit_hash_is_shown_on_a_branch_if_asked() {
    let config = GitCommitConfig { only_detached: false, ..Default::default() };
    let actual = git_commit::module(Some(&on_a_branch()), &config).unwrap();
    assert_eq!(actual.hash, Some("3d158f4".to_string()));
    assert_eq!(actual.tag, None);
}

#[test]
fn commit_hash_length_can_be_set() {
    let config =
        GitCommitConfig { only_detached: false, commit_hash_length: 14, ..Default::default() };
    let actual = git_commit::module(Some(&on_a_branch()), &config).unwrap();
    assert_eq!(actual.hash, Some("3d158f4448b6e7".to_string()));
}

#[test]
fn commit_hash_is_shown_while_detached() {
    let actual = git_commit::module(Some(&detached()), &GitCommitConfig::default()).unwrap();
    assert_eq!(actual.hash, Some("3d158f4".to_string()));
    assert_eq!(actual.tag, None);
}

#[test]
fn short_commit_hash_is_shown_whole() {
    let repo = CommitFacts { detached: true, hash: Some("abc".to_string()), tag: None };
    let actual = git_commit::module(Some(&repo), &GitCommitConfig::default()).unwrap();
    assert_eq!(actual.hash, Some("abc".to_string()));
    let config = GitCommitConfig { commit_hash_length: 0, ..Default::default() };
    let actual = git_commit::module(Some(&repo), &config).unwrap();
    assert_eq!(actual.hash, Some(String::new()));
    assert_eq!(git_commit::shorten("h\u{e9}llo", 2), "h\u{e9}");
}

#[test]
fn missing_commit_hash_is_shown_as_none() {
    let repo = CommitFacts { detached: true, hash: None, tag: None };
    let actual = git_commit::module(Some(&repo), &GitCommitConfig::default()).unwrap();
    assert_eq!(actual.hash, None);
}

#[test]
fn tag_is_shown_behind_its_symbol_if_enabled() {
    let repo = CommitFacts { tag: Some("v1".to_string()), ..detached() };
    let disabled = git_commit::module(Some(&repo), &GitCommitConfig::default()).unwrap();
    assert_eq!(disabled.tag, None);
    let config =
        GitCommitConfig { tag_disabled: false, tag_symbol: "#".to_string(), ..Default::default() };
    let enabled = git_commit::module(Some(&repo), &config).unwrap();
    assert_eq!(enabled.tag, Some(" #v1".to_string()));
    let config =
        GitCommitConfig { tag_disabled: false, tag_symbol: String::new(), ..Default::default() };
    let enabled = git_commit::module(Some(&repo), &config).unwrap();
    assert_eq!(enabled.tag, Some(" v1".to_string()));
    let enabled = git_commit::module(Some(&detached()), &config).unwrap();
    assert_eq!(enabled.tag, None);
}

#[test]
fn default_commit_settings() {
    let config = GitCommitConfig::default();
    assert_eq!(config.commit_hash_length, 7);
    assert!(config.only_detached);
    assert!(config.tag_disabled);
    assert_eq!(config.tag_symbol, "\u{1F3F7} ");
}

#[test]
fn git_state_show_nothing_on_empty_dir() {
    let config = GitStateConfig::default();

    let actual = git_state::module(None, &config);

    assert!(actual.is_none());
}

#[test]
fn show_nothing_in_a_clean_repository() {
    assert_eq!(shown(GitState::Clean), None);
    let config = GitStateConfig::default();
    assert!(get_state_description(&GitState::Clean, &config).is_none());
}

#[test]
fn shows_rebasing() {
    let actual = shown(GitState::Rebase(RebaseProgress::default()));

    let expected = Some("REBASING 1/1".to_string());

    assert_eq!(expected, actual);
}

#[test]
fn shows_merging() {
    let actual = shown(GitState::Merge);

    let expected = Some("MERGING".to_string());

    assert_eq!(expected, actual);
}

#[test]
fn shows_cherry_picking() {
    let actual = shown(GitState::CherryPick);

    let expected = Some("CHERRY-PICKING".to_string());

    assert_eq!(expected, actual);
}

#[test]
fn shows_bisecting() {
    let actual = shown(GitState::Bisect);

    let expected = Some("BISECTING".to_string());

    assert_eq!(expected, actual);
}

#[test]
fn shows_reverting() {
    let actual = shown(GitState::Revert);

    let expected = Some("REVERTING".to_string());

    assert_eq!(expected, actual);
}

#[test]
fn shows_applying_with_its_progress() {
    let actual = shown(GitState::ApplyMailbox(RebaseProgress { current: 3, total: 8 }));
    assert_eq!(actual, Some("AM 3/8".to_string()));
    assert_eq!(shown(GitState::ApplyMailboxOrRebase), Some("AM/REBASE".to_string()));
    assert_eq!(
        shown(GitState::Rebase(RebaseProgress { current: 2, total: 5 })),
        Some("REBASING 2/5".to_string())
    );
}

#[test]
fn labels_come_from_the_settings() {
    let config = GitStateConfig { merge: "merge!".to_string(), ..Default::default() };
    let description = get_state_description(&GitState::Merge, &config).unwrap();
    assert_eq!(description.label, "merge!");
    assert_eq!(description.current, None);
    assert_eq!(description.total, None);
}
