use git_facts::git::{Discovery, Repository, Request};
use git_facts::head::branch_name;
use git_facts::remote::Remote;
use git_facts::state::{Answer, GitState, RebaseProgress, Scan};
use git_facts::status::GitStatus;

/// Searches upwards from `start`, where `existing` are the metadata
/// directories that exist.
fn discover_in(start: &str, existing: &[&str]) -> Option<Repository> {
    let mut path = start.to_string();
    loop {
        let found = match Repository::scan_request(&path) {
            Request::Exists(candidate) => existing.contains(&candidate.as_str()),
            other => panic!("unexpected request {:?}", other),
        };
        match Repository::discover(&path, found) {
            Discovery::Found(repository) => return Some(repository),
            Discovery::Ascend(above) => {
                assert!(above.len() < path.len());
                path = above;
            }
            Discovery::Absent => return None,
        }
    }
}

fn repository() -> Repository {
    Repository::scan("/work/project", true).unwrap()
}

fn arguments_of(request: Option<Request>) -> Vec<String> {
    match request {
        Some(Request::Run { program, arguments }) => {
            assert_eq!(program, "git");
            arguments
        }
        other => panic!("unexpected request {:?}", other),
    }
}

#[test]
fn discovery_without_any_metadata_directory_finds_nothing() {
    assert!(discover_in("/work/project/src", &[]).is_none());
    assert!(discover_in("/", &[]).is_none());
    assert!(discover_in("relative/path", &[]).is_none());
    assert!(discover_in("", &[]).is_none());
}

#[test]
fn discovery_finds_the_repository_of_the_parent() {
    let found = discover_in("/work/project/src", &["/work/project/.git"]).unwrap();
    assert_eq!(found.root_dir(), "/work/project");
    assert_eq!(found.git_dir(), "/work/project/.git");
}

#[test]
fn discovery_finds_the_repository_of_the_directory_itself() {
    let found = discover_in("/work/project", &["/work/project/.git"]).unwrap();
    assert_eq!(found.root_dir(), "/work/project");
}

#[test]
fn discovery_takes_the_nearest_repository() {
    let existing = ["/.git", "/work/.git", "/work/project/.git"];
    let found = discover_in("/work/project/src/deep", &existing).unwrap();
    assert_eq!(found.root_dir(), "/work/project");
    let found = discover_in("/work/other", &existing).unwrap();
    assert_eq!(found.root_dir(), "/work");
    let found = discover_in("/elsewhere", &existing).unwrap();
    assert_eq!(found.root_dir(), "/");
    assert_eq!(found.git_dir(), "/.git");
}

#[test]
fn discovery_ignores_repositories_beside_the_path() {
    let existing = ["/work/other/.git", "/work/project/src/.git"];
    assert!(discover_in("/work/project", &existing).is_none());
}

#[test]
fn discover_steps_to_the_parent() {
    match Repository::discover("/work/project", false) {
        Discovery::Ascend(above) => assert_eq!(above, "/work"),
        other => panic!("unexpected step {:?}", other),
    }
    match Repository::discover("/", false) {
        Discovery::Absent => {}
        other => panic!("unexpected step {:?}", other),
    }
    match Repository::discover("/", true) {
        Discovery::Found(found) => assert_eq!(found.root_dir(), "/"),
        other => panic!("unexpected step {:?}", other),
    }
}

#[test]
fn discovery_decides_from_what_it_is_given() {
    match Discovery::after(None, Some("/up".to_string())) {
        Discovery::Ascend(above) => assert_eq!(above, "/up"),
        other => panic!("unexpected step {:?}", other),
    }
    match Discovery::after(None, None) {
        Discovery::Absent => {}
        other => panic!("unexpected step {:?}", other),
    }
    match Discovery::after(Some(repository()), Some("/up".to_string())) {
        Discovery::Found(found) => assert_eq!(found.root_dir(), "/work/project"),
        other => panic!("unexpected step {:?}", other),
    }
}

#[test]
fn scan_asks_for_the_metadata_directory() {
    match Repository::scan_request("/work/project") {
        Request::Exists(path) => assert_eq!(path, "/work/project/.git"),
        other => panic!("unexpected request {:?}", other),
    }
}

#[test]
fn scan_without_metadata_directory_gives_nothing() {
    assert!(Repository::scan("/work/project", false).is_none());
}

#[test]
fn a_new_repository_asks_for_everything() {
    let repo = repository();
    assert_eq!(
        arguments_of(repo.status_request()),
        vec!["--git-dir", "/work/project/.git", "status", "--porcelain"]
    );
    assert_eq!(
        arguments_of(repo.remote_request()),
        vec!["--git-dir", "/work/project/.git", "rev-parse", "--symbolic-full-name", "HEAD@{u}"]
    );
    assert_eq!(
        arguments_of(repo.commit_hash_request()),
        vec!["--git-dir", "/work/project/.git", "rev-parse", "HEAD"]
    );
    match repo.branch_request() {
        Some(Request::Read(path)) => assert_eq!(path, "/work/project/.git/HEAD"),
        other => panic!("unexpected request {:?}", other),
    }
    match repo.state_request(&Scan::new()) {
        Some(Request::Exists(path)) => assert_eq!(path, "/work/project/.git/MERGE_HEAD"),
        other => panic!("unexpected request {:?}", other),
    }
}

#[test]
fn status_is_asked_for_once() {
    let mut repo = repository();
    let mut invocations = 0;
    let mut seen = Vec::new();
    for _ in 0..3 {
        let output = match repo.status_request() {
            Some(_) => {
                invocations += 1;
                Some(" M a\n?? b\n".to_string())
            }
            None => None,
        };
        let status = repo.status(output);
        seen.push(format!("{:?}", status));
    }
    assert_eq!(invocations, 1);
    assert_eq!(seen[0], seen[1]);
    assert_eq!(seen[1], seen[2]);
    let expected = GitStatus { modified: 1, conflicted: 1, ..Default::default() };
    assert_eq!(*repo.status(None), expected);
}

#[test]
fn a_later_answer_does_not_change_the_status() {
    let mut repo = repository();
    repo.status(Some(" M a".to_string()));
    let later = repo.status(Some(" D a\n D b".to_string()));
    assert_eq!(*later, GitStatus { modified: 1, ..Default::default() });
}

#[test]
fn failed_tool_gives_the_empty_status_and_is_not_asked_again() {
    let mut repo = repository();
    assert_eq!(*repo.status(None), GitStatus::default());
    assert!(repo.status_request().is_none());
    assert_eq!(*repo.status(Some(" M a".to_string())), GitStatus::default());
}

#[test]
fn get_status_tallies_or_gives_zeros() {
    assert_eq!(Repository::get_status(None), GitStatus::default());
    assert_eq!(
        Repository::get_status(Some(" A x".to_string())),
        GitStatus { added: 1, ..Default::default() }
    );
}

#[test]
fn branch_is_what_follows_the_last_slash() {
    let mut repo = repository();
    assert_eq!(repo.branch(Some("ref: refs/heads/feature/x".to_string())), "x");
    let mut repo = repository();
    let head = "ref: refs/heads/libgit-to-git-cli\n".to_string();
    assert_eq!(repo.branch(Some(head)), "libgit-to-git-cli");
    let mut repo = repository();
    assert_eq!(repo.branch(Some("ref: refs/heads/main\r\n\n".to_string())), "main");
}

#[test]
fn branch_name_drops_line_endings_only() {
    assert_eq!(branch_name("ref: refs/heads/feature/x"), Some("x".to_string()));
    assert_eq!(branch_name("a/b \n"), Some("b ".to_string()));
    assert_eq!(branch_name("a/\n"), Some(String::new()));
    assert_eq!(branch_name("a/b\nc"), Some("b\nc".to_string()));
    assert_eq!(branch_name("no slash"), None);
    assert_eq!(branch_name(""), None);
}

#[test]
fn detached_head_gives_the_fallback_and_the_commit_hash() {
    let id = "3d158f4448b6e7ebcff704621225dac93c28f510";
    let mut repo = repository();
    assert_eq!(repo.branch(Some(id.to_string())), "HEAD");
    // The commit id is known now: nothing is to be asked for it.
    assert!(repo.commit_hash_request().is_none());
    assert_eq!(*repo.commit_hash(None), Some(id.to_string()));
    assert_eq!(*repo.commit_hash(Some("other".to_string())), Some(id.to_string()));
}

#[test]
fn detached_head_does_not_replace_a_known_commit_hash() {
    let mut repo = repository();
    repo.commit_hash(Some("first\n".to_string()));
    assert_eq!(repo.branch(Some("second".to_string())), "HEAD");
    assert_eq!(*repo.commit_hash(None), Some("first\n".to_string()));
}

#[test]
fn unreadable_head_gives_the_fallback_and_no_commit_hash() {
    let mut repo = repository();
    assert_eq!(repo.branch(None), "HEAD");
    assert!(repo.branch_request().is_none());
    assert!(repo.commit_hash_request().is_some());
    assert_eq!(repo.branch(Some("ref: refs/heads/main".to_string())), "HEAD");
}

#[test]
fn branch_on_a_branch_leaves_the_commit_hash_open() {
    let mut repo = repository();
    repo.branch(Some("ref: refs/heads/main".to_string()));
    assert!(repo.commit_hash_request().is_some());
    assert_eq!(*repo.commit_hash(None), None);
}

#[test]
fn a_kept_branch_seeds_nothing() {
    let mut repo = repository();
    repo.branch(Some("ref: refs/heads/main".to_string()));
    assert_eq!(repo.branch(Some("0123456789abcdef".to_string())), "main");
    assert!(repo.commit_hash_request().is_some());
}

#[test]
fn get_branch_reads_the_head() {
    assert_eq!(Repository::get_branch(&None), None);
    assert_eq!(Repository::get_branch(&Some("abc".to_string())), None);
    assert_eq!(Repository::get_branch(&Some("x/y\n".to_string())), Some("y".to_string()));
}

#[test]
fn remote_is_read_from_the_upstream_reference() {
    let mut repo = repository();
    let remote = repo.remote(Some("refs/remotes/origin/libgit-to-git-cli".to_string()));
    let remote = remote.as_ref().unwrap();
    assert_eq!(remote.name, "origin");
    assert_eq!(remote.branch, "libgit-to-git-cli");
    assert!(repo.remote_request().is_none());
    let again = repo.remote(None).as_ref().unwrap();
    assert_eq!(again.name, "origin");
}

#[test]
fn remote_branch_is_all_that_follows_the_third_slash() {
    let remote = Remote::parse("refs/remotes/upstream/feature/x\n").unwrap();
    assert_eq!(remote.name, "upstream");
    assert_eq!(remote.branch, "feature/x\n");
    let remote = Remote::parse("a/b/c/").unwrap();
    assert_eq!(remote.name, "c");
    assert_eq!(remote.branch, "");
    let remote = Remote::parse("///").unwrap();
    assert_eq!(remote.name, "");
    assert_eq!(remote.branch, "");
}

#[test]
fn remote_needs_three_slashes() {
    assert!(Remote::parse("").is_none());
    assert!(Remote::parse("refs").is_none());
    assert!(Remote::parse("refs/remotes").is_none());
    assert!(Remote::parse("refs/remotes/origin").is_none());
    assert!(Repository::get_remote(None).is_none());
    assert!(Repository::get_remote(Some(String::new())).is_none());
    let mut repo = repository();
    assert!(repo.remote(None).is_none());
    assert!(repo.remote_request().is_none());
    assert!(repo.remote(Some("refs/remotes/origin/main".to_string())).is_none());
}

#[test]
fn remote_agrees_with_splitting_in_four() {
    let samples = ["refs/remotes/origin/main", "a/b", "a/b/c", "a/b/c/d/e/f", "/", "////", "x", ""];
    for sample in samples {
        let mut elements = sample.splitn(4, '/');
        let expected = match (elements.nth(2), elements.last()) {
            (Some(name), Some(branch)) => Some((name.to_string(), branch.to_string())),
            _ => None,
        };
        let found = Remote::parse(sample).map(|remote| (remote.name, remote.branch));
        assert_eq!(found, expected);
    }
}

#[test]
fn commit_hash_is_kept_as_it_came() {
    let mut repo = repository();
    let output = "3d158f4448b6e7ebcff704621225dac93c28f510\n".to_string();
    assert_eq!(*repo.commit_hash(Some(output.clone())), Some(output.clone()));
    assert!(repo.commit_hash_request().is_none());
    assert_eq!(*repo.commit_hash(None), Some(output));
}

#[test]
fn failed_tool_gives_no_commit_hash() {
    let mut repo = repository();
    assert_eq!(*repo.commit_hash(None), None);
    assert!(repo.commit_hash_request().is_none());
    assert_eq!(*repo.commit_hash(Some("late".to_string())), None);
    assert_eq!(Repository::get_commit_hash(Some("x".to_string())), Some("x".to_string()));
}

#[test]
fn there_is_never_a_tag() {
    let mut repo = repository();
    assert_eq!(*repo.commit_tag(), None);
    assert_eq!(*repo.commit_tag(), None);
    assert_eq!(Repository::get_commit_tag(), None);
}

#[test]
fn state_is_asked_for_marker_by_marker() {
    let mut repo = repository();
    let mut scan = Scan::new();
    let mut asked = Vec::new();
    while let Some(request) = repo.state_request(&scan) {
        let answer = match request {
            Request::Exists(path) => {
                let there = path == "/work/project/.git/rebase-merge";
                asked.push(path);
                Answer::Exists(there)
            }
            Request::Read(path) => {
                let contents = if path.ends_with("msgnum") { "2" } else { "5" };
                asked.push(path);
                Answer::Contents(Some(contents.to_string()))
            }
            other => panic!("unexpected request {:?}", other),
        };
        scan = scan.step(&answer);
    }
    assert_eq!(
        asked,
        vec![
            "/work/project/.git/MERGE_HEAD",
            "/work/project/.git/BISECT_LOG",
            "/work/project/.git/rebase-merge",
            "/work/project/.git/rebase-merge/msgnum",
            "/work/project/.git/rebase-merge/end",
        ]
    );
    assert_eq!(*repo.state(&scan), GitState::Rebase(RebaseProgress { current: 2, total: 5 }));
    // Kept: nothing more is asked, and another scan changes nothing.
    assert!(repo.state_request(&Scan::new()).is_none());
    assert_eq!(
        *repo.state(&Scan::Done(GitState::Clean)),
        GitState::Rebase(RebaseProgress { current: 2, total: 5 })
    );
}

#[test]
fn a_scan_that_found_nothing_gives_clean() {
    let mut repo = repository();
    assert_eq!(*repo.state(&Scan::new()), GitState::Clean);
    assert_eq!(Repository::get_state(&Scan::RebaseApply), GitState::Clean);
    assert_eq!(Repository::get_state(&Scan::Done(GitState::Bisect)), GitState::Bisect);
}

#[test]
fn facts_do_not_disturb_each_other() {
    let mut repo = repository();
    repo.status(Some(" M a".to_string()));
    repo.remote(Some("refs/remotes/origin/main".to_string()));
    repo.state(&Scan::Done(GitState::Merge));
    repo.commit_tag();
    repo.branch(Some("ref: refs/heads/main\n".to_string()));
    repo.commit_hash(Some("abc".to_string()));
    assert_eq!(repo.git_dir(), "/work/project/.git");
    assert_eq!(repo.root_dir(), "/work/project");
    assert_eq!(*repo.status(None), GitStatus { modified: 1, ..Default::default() });
    assert_eq!(repo.remote(None).as_ref().unwrap().branch, "main");
    assert_eq!(*repo.state(&Scan::new()), GitState::Merge);
    assert_eq!(*repo.commit_tag(), None);
    assert_eq!(repo.branch(None), "main");
    assert_eq!(*repo.commit_hash(None), Some("abc".to_string()));
}

/// Stands in for the outside world and counts what it is asked.
struct Outside {
    invocations: usize,
}

impl Outside {
    fn text(&mut self, request: Option<Request>) -> Option<String> {
        match request {
            Some(Request::Run { arguments, .. }) => {
                self.invocations += 1;
                match arguments.last().map(String::as_str) {
                    Some("--porcelain") => Some(" M a\n D b\n".to_string()),
                    Some("HEAD@{u}") => Some("refs/remotes/origin/main".to_string()),
                    Some("HEAD") => Some("0123456789012345678901234567890123456789".to_string()),
                    _ => None,
                }
            }
            Some(Request::Read(_)) => {
                self.invocations += 1;
                Some("ref: refs/heads/main\n".to_string())
            }
            Some(Request::Exists(_)) => panic!("no text answers this"),
            None => None,
        }
    }
}

#[test]
fn every_fact_is_asked_for_at_most_once() {
    let mut repo = repository();
    let mut outside = Outside { invocations: 0 };
    let mut seen = Vec::new();
    for _ in 0..2 {
        let output = outside.text(repo.status_request());
        let status = format!("{:?}", repo.status(output));
        let head = outside.text(repo.branch_request());
        let branch = repo.branch(head).clone();
        let upstream = outside.text(repo.remote_request());
        let remote = format!("{:?}", repo.remote(upstream));
        let id = outside.text(repo.commit_hash_request());
        let hash = repo.commit_hash(id).clone();
        let tag = repo.commit_tag().clone();
        seen.push((status, branch, remote, hash, tag));
    }
    // Status, branch, upstream and commit id: one invocation each.
    assert_eq!(outside.invocations, 4);
    assert_eq!(seen[0], seen[1]);
    assert_eq!(seen[0].1, "main");
    assert_eq!(seen[0].3, Some("0123456789012345678901234567890123456789".to_string()));
    assert_eq!(seen[0].4, None);
}

#[test]
fn detached_head_saves_the_invocation_for_the_commit_hash() {
    let mut repo = repository();
    let mut invocations = 0;
    if repo.branch_request().is_some() {
        invocations += 1;
    }
    repo.branch(Some("0123456789012345678901234567890123456789".to_string()));
    if repo.commit_hash_request().is_some() {
        invocations += 1;
    }
    let hash = repo.commit_hash(None).clone();
    assert_eq!(invocations, 1);
    assert_eq!(hash, Some("0123456789012345678901234567890123456789".to_string()));
}
