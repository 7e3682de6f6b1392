//! A repository and the facts about it. Each fact is found out once, from
//! what the outside world answers to a request, and then kept: the
//! repository says what it needs to be asked, the caller asks, and the
//! repository takes the answer.

use crate::cells::{
    cell_get, cell_get_or_init, cell_set, held_optional_text, held_remote, held_state, held_status,
    held_text, new_optional_text_cell, new_remote_cell, new_state_cell, new_status_cell,
    new_text_cell,
};
use crate::head::{branch_label, branch_name, branch_of, has_slash, no_branch};
use crate::paths::{join, joined, parent, parent_of};
pub use crate::remote::Remote;
use crate::remote::{remote_of, RemoteView};
pub use crate::state::{GitState, RebaseProgress};
use crate::state::{Probe, Scan};
pub use crate::status::GitStatus;
use crate::status::{parse_porcelain_output, status_of};
use crate::text::text_of;
use once_cell::sync::OnceCell;
use vstd::prelude::*;

verus! {

/// A working copy: the directory at its root, the metadata directory in it,
/// and the facts found out about it so far.
#[derive(Debug)]
pub struct Repository {
    git_dir: String,
    root_dir: String,
    branch: OnceCell<String>,
    status: OnceCell<GitStatus>,
    state: OnceCell<GitState>,
    hash: OnceCell<Option<String>>,
    remote: OnceCell<Option<Remote>>,
    tag: OnceCell<Option<String>>,
}

/// A repository as a value: its two paths, and each fact as far as it is
/// known. A fact that is known may itself be the absence of a remote, of a
/// commit id or of a tag.
pub struct RepositoryView {
    pub git_dir: Seq<char>,
    pub root_dir: Seq<char>,
    pub branch: Option<Seq<char>>,
    pub status: Option<GitStatus>,
    pub state: Option<GitState>,
    pub hash: Option<Option<Seq<char>>>,
    pub remote: Option<Option<RemoteView>>,
    pub tag: Option<Option<Seq<char>>>,
}

/// Something to ask of the outside world.
#[derive(Debug)]
pub enum Request {
    /// Run a program with arguments, and hand back what it wrote to its
    /// standard output; nothing if it could not be run or failed.
    Run { program: String, arguments: Vec<String> },
    /// Read a file as text; nothing if it cannot be read.
    Read(String),
    /// Tell whether a path exists.
    Exists(String),
}

/// A request as a value.
pub enum RequestView {
    Run { program: Seq<char>, arguments: Seq<Seq<char>> },
    Read(Seq<char>),
    Exists(Seq<char>),
}

impl View for Request {
    type V = RequestView;

    open spec fn view(&self) -> RequestView {
        match *self {
            Request::Run { program, arguments } => RequestView::Run {
                program: program@,
                arguments: arguments.deep_view(),
            },
            Request::Read(path) => RequestView::Read(path@),
            Request::Exists(path) => RequestView::Exists(path@),
        }
    }
}

/// How far the search for a repository has come after one directory.
#[derive(Debug)]
pub enum Discovery {
    /// The directory is the root of this repository.
    Found(Repository),
    /// It is not: the search goes on in its parent, which is this.
    Ascend(String),
    /// It is not, and it has no parent: there is no repository.
    Absent,
}

/// The name of the metadata directory.
pub open spec fn metadata_name() -> Seq<char> {
    ".git"@
}

/// The name of the head reference in the metadata directory.
pub open spec fn head_name() -> Seq<char> {
    "HEAD"@
}

/// The value of an optional remote.
pub open spec fn remote_view_of(value: Option<Remote>) -> Option<RemoteView> {
    match value {
        Some(remote) => Some(remote@),
        None => None,
    }
}

/// The request to run the version-control tool on the metadata directory
/// `git_dir` with the arguments `rest`.
pub open spec fn tool_request(git_dir: Seq<char>, rest: Seq<Seq<char>>) -> RequestView {
    RequestView::Run { program: "git"@, arguments: seq!["--git-dir"@, git_dir] + rest }
}

/// The status that the answer to the status request gives: the tally of the
/// output, or all zeros where the tool failed.
pub open spec fn status_from(output: Option<Seq<char>>) -> GitStatus {
    match output {
        Some(porcelain) => status_of(porcelain),
        None => GitStatus::zero(),
    }
}

/// The upstream that the answer to the remote request gives.
pub open spec fn remote_from(output: Option<Seq<char>>) -> Option<RemoteView> {
    match output {
        Some(reference) => remote_of(reference),
        None => None,
    }
}

impl RepositoryView {
    /// What holds of every repository: the metadata directory is the fixed
    /// name under the root, and the tag, once it has been asked for, is none.
    pub open spec fn wf(self) -> bool {
        &&& self.git_dir == joined(self.root_dir, metadata_name())
        &&& self.tag is None || self.tag == Some(None::<Seq<char>>)
    }

    /// Whether two repositories have the same root and metadata directory.
    pub open spec fn same_paths(self, other: RepositoryView) -> bool {
        self.git_dir == other.git_dir && self.root_dir == other.root_dir
    }

    /// The repository at `root_dir` of which nothing is known yet.
    pub open spec fn fresh(root_dir: Seq<char>) -> RepositoryView {
        RepositoryView {
            git_dir: joined(root_dir, metadata_name()),
            root_dir,
            branch: None,
            status: None,
            state: None,
            hash: None,
            remote: None,
            tag: None,
        }
    }

    /// What to ask in order to learn the status; nothing once it is known.
    pub open spec fn status_request(self) -> Option<RequestView> {
        if self.status is Some {
            None
        } else {
            Some(tool_request(self.git_dir, seq!["status"@, "--porcelain"@]))
        }
    }

    /// The repository after the answer to the status request.
    pub open spec fn after_status(self, output: Option<Seq<char>>) -> RepositoryView {
        if self.status is Some {
            self
        } else {
            RepositoryView { status: Some(status_from(output)), ..self }
        }
    }

    /// What to ask in order to learn the branch; nothing once it is known.
    pub open spec fn branch_request(self) -> Option<RequestView> {
        if self.branch is Some {
            None
        } else {
            Some(RequestView::Read(joined(self.git_dir, head_name())))
        }
    }

    /// The repository after the answer to the branch request. Contents of
    /// the head reference that name no branch are a commit id, and become
    /// the commit id of the repository unless that is known already.
    pub open spec fn after_branch(self, head: Option<Seq<char>>) -> RepositoryView {
        if self.branch is Some {
            self
        } else {
            RepositoryView {
                branch: Some(branch_label(head)),
                hash: match head {
                    Some(contents) if !has_slash(contents) && self.hash is None => Some(
                        Some(contents),
                    ),
                    _ => self.hash,
                },
                ..self
            }
        }
    }

    /// What to ask in order to learn the upstream; nothing once it is known.
    pub open spec fn remote_request(self) -> Option<RequestView> {
        if self.remote is Some {
            None
        } else {
            Some(
                tool_request(
                    self.git_dir,
                    seq!["rev-parse"@, "--symbolic-full-name"@, "HEAD@{u}"@],
                ),
            )
        }
    }

    /// The repository after the answer to the remote request.
    pub open spec fn after_remote(self, output: Option<Seq<char>>) -> RepositoryView {
        if self.remote is Some {
            self
        } else {
            RepositoryView { remote: Some(remote_from(output)), ..self }
        }
    }

    /// What to ask in order to learn the commit id; nothing once it is known.
    pub open spec fn commit_hash_request(self) -> Option<RequestView> {
        if self.hash is Some {
            None
        } else {
            Some(tool_request(self.git_dir, seq!["rev-parse"@, "HEAD"@]))
        }
    }

    /// The repository after the answer to the commit id request.
    pub open spec fn after_commit_hash(self, output: Option<Seq<char>>) -> RepositoryView {
        if self.hash is Some {
            self
        } else {
            RepositoryView { hash: Some(output), ..self }
        }
    }

    /// The repository after it was asked for the tag: there is none.
    pub open spec fn after_commit_tag(self) -> RepositoryView {
        if self.tag is Some {
            self
        } else {
            RepositoryView { tag: Some(None), ..self }
        }
    }

    /// What to ask next in order to learn the state, where `scan` is how far
    /// the asking has come; nothing once the state is known or found.
    pub open spec fn state_request(self, scan: Scan) -> Option<RequestView> {
        if self.state is Some {
            None
        } else {
            match scan.probe() {
                Some(Probe::Exists(marker)) => Some(
                    RequestView::Exists(joined(self.git_dir, marker.path())),
                ),
                Some(Probe::Read(marker)) => Some(
                    RequestView::Read(joined(self.git_dir, marker.path())),
                ),
                None => None,
            }
        }
    }

    /// The repository after the asking for the state has come to `scan`.
    pub open spec fn after_state(self, scan: Scan) -> RepositoryView {
        if self.state is Some {
            self
        } else {
            RepositoryView { state: Some(scan.verdict()), ..self }
        }
    }
}

impl View for Repository {
    type V = RepositoryView;

    closed spec fn view(&self) -> RepositoryView {
        RepositoryView {
            git_dir: self.git_dir@,
            root_dir: self.root_dir@,
            branch: text_of(held_text(self.branch)),
            status: held_status(self.status),
            state: held_state(self.state),
            hash: match held_optional_text(self.hash) {
                Some(hash) => Some(text_of(hash)),
                None => None,
            },
            remote: match held_remote(self.remote) {
                Some(remote) => Some(remote_view_of(remote)),
                None => None,
            },
            tag: match held_optional_text(self.tag) {
                Some(tag) => Some(text_of(tag)),
                None => None,
            },
        }
    }
}

/// A step of the search as a value.
pub enum DiscoveryView {
    Found(RepositoryView),
    Ascend(Seq<char>),
    Absent,
}

impl View for Discovery {
    type V = DiscoveryView;

    open spec fn view(&self) -> DiscoveryView {
        match *self {
            Discovery::Found(repository) => DiscoveryView::Found(repository@),
            Discovery::Ascend(above) => DiscoveryView::Ascend(above@),
            Discovery::Absent => DiscoveryView::Absent,
        }
    }
}

impl Discovery {
    /// The outcome of looking at one directory: the repository, if the
    /// directory is the root of one; else its parent, if it has one.
    pub open spec fn outcome(
        found: Option<RepositoryView>,
        parent: Option<Seq<char>>,
    ) -> DiscoveryView {
        match found {
            Some(repository) => DiscoveryView::Found(repository),
            None => match parent {
                Some(above) => DiscoveryView::Ascend(above),
                None => DiscoveryView::Absent,
            },
        }
    }

    /// Decides how the search goes on from a directory, given the repository
    /// that was found there, if any, and the directory's parent, if any.
    pub fn after(found: Option<Repository>, parent: Option<String>) -> (discovery: Discovery)
        ensures
            discovery@ == Discovery::outcome(
                match found {
                    Some(repository) => Some(repository@),
                    None => None,
                },
                text_of(parent),
            ),
    {
        match found {
            Some(repository) => Discovery::Found(repository),
            None => match parent {
                Some(above) => Discovery::Ascend(above),
                None => Discovery::Absent,
            },
        }
    }
}

/// The directory `steps` levels above `path`, if there is one; `path` itself
/// for no steps.
pub open spec fn ancestor(path: Seq<char>, steps: nat) -> Option<Seq<char>>
    decreases steps,
{
    if steps == 0 {
        Some(path)
    } else {
        match parent_of(path) {
            Some(above) => ancestor(above, (steps - 1) as nat),
            None => None,
        }
    }
}

/// One step of the search from `path`, where `roots` are the directories that
/// hold a metadata directory.
pub open spec fn search_step(path: Seq<char>, roots: Set<Seq<char>>) -> DiscoveryView {
    Discovery::outcome(
        if roots.contains(path) {
            Some(RepositoryView::fresh(path))
        } else {
            None
        },
        parent_of(path),
    )
}

/// Where the search from `path` has come after one step and at most `steps`
/// more, each one taken from the parent that the step before has given.
pub open spec fn search(path: Seq<char>, roots: Set<Seq<char>>, steps: nat) -> DiscoveryView
    decreases steps,
{
    match search_step(path, roots) {
        DiscoveryView::Ascend(above) if steps > 0 => search(above, roots, (steps - 1) as nat),
        outcome => outcome,
    }
}

/// The search goes through the directories above `path` one by one, from
/// `path` itself upwards, and `levels` is how far it has come. It finds the
/// nearest directory that holds a metadata directory, and the repository that
/// it gives is the one rooted there, with nothing known of it. It finds
/// nothing only where no directory up to the topmost one holds any.
pub proof fn lemma_search_finds_nearest(
    path: Seq<char>,
    roots: Set<Seq<char>>,
    steps: nat,
) -> (levels: nat)
    ensures
        levels <= steps,
        forall|nearer: nat|
            nearer < levels ==> (#[trigger] ancestor(path, nearer) matches Some(passed)
                && !roots.contains(passed)),
        ancestor(path, levels) matches Some(reached) && match search(path, roots, steps) {
            DiscoveryView::Found(repository) => roots.contains(reached) && repository
                == RepositoryView::fresh(reached),
            DiscoveryView::Absent => !roots.contains(reached) && parent_of(reached) is None,
            DiscoveryView::Ascend(above) => !roots.contains(reached) && levels == steps
                && parent_of(reached) == Some(above),
        },
    decreases steps,
{
    match search_step(path, roots) {
        DiscoveryView::Ascend(above) if steps > 0 => {
            let further = lemma_search_finds_nearest(above, roots, (steps - 1) as nat);
            let levels = further + 1;
            assert forall|nearer: nat| nearer < levels implies (#[trigger] ancestor(
                path,
                nearer,
            ) matches Some(passed) && !roots.contains(passed)) by {
                if nearer > 0 {
                    assert(ancestor(path, nearer) == ancestor(above, (nearer - 1) as nat));
                }
            }
            assert(ancestor(path, levels) == ancestor(above, further));
            levels
        },
        _ => 0,
    }
}

/// The arguments that run the tool on the metadata directory `git_dir`.
fn tool_arguments(git_dir: &String) -> (arguments: Vec<String>)
    ensures
        arguments.deep_view() == seq!["--git-dir"@, git_dir@],
{
    let mut arguments: Vec<String> = Vec::new();
    arguments.push("--git-dir".to_owned());
    arguments.push(git_dir.clone());
    assert(arguments.deep_view() =~= seq!["--git-dir"@, git_dir@]);
    arguments
}

/// The request to run the tool with `arguments`.
fn run_tool(arguments: Vec<String>) -> (request: Request)
    ensures
        request@ == (RequestView::Run { program: "git"@, arguments: arguments.deep_view() }),
{
    Request::Run { program: "git".to_owned(), arguments }
}

impl Repository {
    #[verifier::type_invariant]
    spec fn well_formed(&self) -> bool {
        self@.wf()
    }

    /// The metadata directory: the fixed name under the root.
    pub fn git_dir(&self) -> (path: &String)
        ensures
            path@ == self@.git_dir,
            self@.wf(),
    {
        proof {
            use_type_invariant(self);
        }
        &self.git_dir
    }

    /// The directory that holds the metadata directory.
    pub fn root_dir(&self) -> (path: &String)
        ensures
            path@ == self@.root_dir,
            self@.wf(),
    {
        proof {
            use_type_invariant(self);
        }
        &self.root_dir
    }

    /// What to ask before `scan` can tell whether `path` is the root of a
    /// repository: whether the metadata directory exists in it.
    pub fn scan_request(path: &str) -> (request: Request)
        ensures
            request@ == RequestView::Exists(joined(path@, metadata_name())),
    {
        Request::Exists(join(path, ".git"))
    }

    /// The repository rooted at `path`, if `found` says that the metadata
    /// directory exists in it.
    pub fn scan(path: &str, found: bool) -> (repository: Option<Repository>)
        ensures
            match repository {
                Some(rooted) => found && rooted@ == RepositoryView::fresh(path@) && rooted@.wf(),
                None => !found,
            },
    {
        if !found {
            return None;
        }
        Some(
            Repository {
                git_dir: join(path, ".git"),
                root_dir: path.to_owned(),
                branch: new_text_cell(),
                status: new_status_cell(),
                state: new_state_cell(),
                hash: new_optional_text_cell(),
                remote: new_remote_cell(),
                tag: new_optional_text_cell(),
            },
        )
    }

    /// One step of the search for the repository that `path` lies in, given
    /// whether the metadata directory exists in `path`: the repository rooted
    /// there if it does, else the parent directory to go on with, which is
    /// shorter than `path`, else the end of the search.
    pub fn discover(path: &str, found: bool) -> (discovery: Discovery)
        ensures
            discovery@ == Discovery::outcome(
                if found {
                    Some(RepositoryView::fresh(path@))
                } else {
                    None
                },
                parent_of(path@),
            ),
            discovery matches Discovery::Ascend(above) ==> above@.len() < path@.len(),
    {
        match Repository::scan(path, found) {
            Some(repository) => Discovery::after(Some(repository), None),
            None => Discovery::after(None, parent(path)),
        }
    }

    /// What to ask in order to learn the status; nothing once it is known.
    pub fn status_request(&self) -> (request: Option<Request>)
        ensures
            match request {
                Some(asked) => self@.status_request() == Some(asked@),
                None => self@.status_request() is None,
            },
    {
        if cell_get(&self.status).is_some() {
            return None;
        }
        let mut arguments = tool_arguments(&self.git_dir);
        arguments.push("status".to_owned());
        arguments.push("--porcelain".to_owned());
        assert(arguments.deep_view() =~= seq!["--git-dir"@, self.git_dir@] + seq![
            "status"@,
            "--porcelain"@,
        ]);
        Some(run_tool(arguments))
    }

    /// The status of the working tree. The first call takes `output`, the
    /// answer to the status request, and keeps the status that it gives;
    /// every later call returns that status, whatever it is handed.
    pub fn status(&mut self, output: Option<String>) -> (status: &GitStatus)
        ensures
            final(self)@ == old(self)@.after_status(text_of(output)),
            final(self)@.status == Some(*status),
    {
        proof {
            use_type_invariant(&*self);
        }
        cell_get_or_init(&mut self.status, Repository::get_status(output))
    }

    /// The status that the output of the tool gives: its tally, or all zeros
    /// where the tool failed.
    pub fn get_status(output: Option<String>) -> (status: GitStatus)
        ensures
            status == status_from(text_of(output)),
    {
        match output {
            Some(porcelain) => parse_porcelain_output(porcelain.as_str()),
            None => Default::default(),
        }
    }

    /// What to ask in order to learn the branch; nothing once it is known.
    pub fn branch_request(&self) -> (request: Option<Request>)
        ensures
            match request {
                Some(asked) => self@.branch_request() == Some(asked@),
                None => self@.branch_request() is None,
            },
    {
        if cell_get(&self.branch).is_some() {
            return None;
        }
        Some(Request::Read(join(self.git_dir.as_str(), "HEAD")))
    }

    /// The name of the current branch. The first call takes `head`, the
    /// answer to the branch request, and keeps the branch that it names, or
    /// `HEAD` where it names none or could not be read; contents that name
    /// no branch are kept as the commit id, unless that is known already.
    /// Every later call returns the branch that was kept and changes nothing.
    pub fn branch(&mut self, head: Option<String>) -> (branch: &String)
        ensures
            final(self)@ == old(self)@.after_branch(text_of(head)),
            final(self)@.branch == Some(branch@),
    {
        proof {
            use_type_invariant(&*self);
        }
        let fresh: bool = cell_get(&self.branch).is_none();
        let name = match Repository::get_branch(&head) {
            Some(name) => name,
            None => {
                if fresh && head.is_some() {
                    let _ = cell_set(&mut self.hash, head);
                }
                "HEAD".to_owned()
            },
        };
        cell_get_or_init(&mut self.branch, name)
    }

    /// The branch that the contents of the head reference name, if they could
    /// be read and name one.
    pub fn get_branch(head: &Option<String>) -> (name: Option<String>)
        ensures
            match name {
                Some(found) => head matches Some(contents) && branch_of(contents@) == Some(
                    found@,
                ),
                None => head matches Some(contents) ==> !has_slash(contents@),
            },
    {
        match head {
            Some(contents) => branch_name(contents.as_str()),
            None => None,
        }
    }

    /// What to ask in order to learn the upstream; nothing once it is known.
    pub fn remote_request(&self) -> (request: Option<Request>)
        ensures
            match request {
                Some(asked) => self@.remote_request() == Some(asked@),
                None => self@.remote_request() is None,
            },
    {
        if cell_get(&self.remote).is_some() {
            return None;
        }
        let mut arguments = tool_arguments(&self.git_dir);
        arguments.push("rev-parse".to_owned());
        arguments.push("--symbolic-full-name".to_owned());
        arguments.push("HEAD@{u}".to_owned());
        assert(arguments.deep_view() =~= seq!["--git-dir"@, self.git_dir@] + seq![
            "rev-parse"@,
            "--symbolic-full-name"@,
            "HEAD@{u}"@,
        ]);
        Some(run_tool(arguments))
    }

    /// The upstream of the current branch. The first call takes `output`,
    /// the answer to the remote request, and keeps the upstream that it
    /// names, if any; every later call returns what was kept.
    pub fn remote(&mut self, output: Option<String>) -> (remote: &Option<Remote>)
        ensures
            final(self)@ == old(self)@.after_remote(text_of(output)),
            final(self)@.remote == Some(remote_view_of(*remote)),
    {
        proof {
            use_type_invariant(&*self);
        }
        cell_get_or_init(&mut self.remote, Repository::get_remote(output))
    }

    /// The upstream that the output of the tool names, if the tool gave any
    /// and it names one.
    pub fn get_remote(output: Option<String>) -> (remote: Option<Remote>)
        ensures
            remote_view_of(remote) == remote_from(text_of(output)),
    {
        match output {
            Some(reference) => Remote::parse(reference.as_str()),
            None => None,
        }
    }

    /// What to ask next in order to learn the state, where `scan` is how far
    /// the asking has come; nothing once the state is known or found.
    pub fn state_request(&self, scan: &Scan) -> (request: Option<Request>)
        ensures
            match request {
                Some(asked) => self@.state_request(*scan) == Some(asked@),
                None => self@.state_request(*scan) is None,
            },
    {
        if cell_get(&self.state).is_some() {
            return None;
        }
        match scan.pending() {
            Some(Probe::Exists(marker)) => Some(
                Request::Exists(join(self.git_dir.as_str(), marker.relative_path())),
            ),
            Some(Probe::Read(marker)) => Some(
                Request::Read(join(self.git_dir.as_str(), marker.relative_path())),
            ),
            None => None,
        }
    }

    /// The operation that the repository is in the middle of. The first call
    /// takes `scan`, the asking as far as it has come, and keeps the state
    /// that it has found, or `Clean` if it has found none; every later call
    /// returns what was kept.
    pub fn state(&mut self, scan: &Scan) -> (state: &GitState)
        ensures
            final(self)@ == old(self)@.after_state(*scan),
            final(self)@.state == Some(*state),
    {
        proof {
            use_type_invariant(&*self);
        }
        cell_get_or_init(&mut self.state, Repository::get_state(scan))
    }

    /// The state that the asking has found; `Clean` as long as it has found
    /// none.
    pub fn get_state(scan: &Scan) -> (state: GitState)
        ensures
            state == scan.verdict(),
    {
        match scan.outcome() {
            Some(state) => state,
            None => GitState::Clean,
        }
    }

    /// What to ask in order to learn the commit id; nothing once it is known.
    pub fn commit_hash_request(&self) -> (request: Option<Request>)
        ensures
            match request {
                Some(asked) => self@.commit_hash_request() == Some(asked@),
                None => self@.commit_hash_request() is None,
            },
    {
        if cell_get(&self.hash).is_some() {
            return None;
        }
        let mut arguments = tool_arguments(&self.git_dir);
        arguments.push("rev-parse".to_owned());
        arguments.push("HEAD".to_owned());
        assert(arguments.deep_view() =~= seq!["--git-dir"@, self.git_dir@] + seq![
            "rev-parse"@,
            "HEAD"@,
        ]);
        Some(run_tool(arguments))
    }

    /// The id of the commit that is checked out. The first call takes
    /// `output`, the answer to the commit id request, and keeps it as it is;
    /// every later call returns what was kept. Nothing is asked, and
    /// `output` not looked at, where `branch` has kept the id already.
    pub fn commit_hash(&mut self, output: Option<String>) -> (hash: &Option<String>)
        ensures
            final(self)@ == old(self)@.after_commit_hash(text_of(output)),
            final(self)@.hash == Some(text_of(*hash)),
    {
        proof {
            use_type_invariant(&*self);
        }
        cell_get_or_init(&mut self.hash, Repository::get_commit_hash(output))
    }

    /// The commit id that the output of the tool gives: the output as it is.
    pub fn get_commit_hash(output: Option<String>) -> (hash: Option<String>)
        ensures
            hash == output,
    {
        output
    }

    /// The tag of the commit that is checked out: there is never one.
    pub fn commit_tag(&mut self) -> (tag: &Option<String>)
        ensures
            final(self)@ == old(self)@.after_commit_tag(),
            final(self)@.tag == Some(text_of(*tag)),
            *tag is None,
    {
        proof {
            use_type_invariant(&*self);
        }
        cell_get_or_init(&mut self.tag, Repository::get_commit_tag())
    }

    /// The tag that is found for the commit: none.
    pub fn get_commit_tag() -> (tag: Option<String>)
        ensures
            tag is None,
    {
        None
    }
}

/// A fact that is known stays as it is: whatever answer comes after the
/// first, the repository is as the first one left it, and it asks for
/// nothing more on that fact.
pub proof fn lemma_facts_are_kept(
    repository: RepositoryView,
    first: Option<Seq<char>>,
    second: Option<Seq<char>>,
)
    ensures
        repository.after_status(first).after_status(second) == repository.after_status(first),
        repository.after_status(first).status_request() is None,
        repository.after_branch(first).after_branch(second) == repository.after_branch(first),
        repository.after_branch(first).branch_request() is None,
        repository.after_remote(first).after_remote(second) == repository.after_remote(first),
        repository.after_remote(first).remote_request() is None,
        repository.after_commit_hash(first).after_commit_hash(second)
            == repository.after_commit_hash(first),
        repository.after_commit_hash(first).commit_hash_request() is None,
        repository.after_commit_tag().after_commit_tag() == repository.after_commit_tag(),
{
}

/// The same of the state: once a scan has been taken, no other changes the
/// state, and nothing more is asked of the metadata directory.
pub proof fn lemma_state_is_kept(repository: RepositoryView, first: Scan, second: Scan)
    ensures
        repository.after_state(first).after_state(second) == repository.after_state(first),
        repository.after_state(first).state_request(second) is None,
{
}

/// Where no branch is checked out, the head reference holds a commit id and
/// no slash. Taking it as the answer to the branch request gives the label
/// for no branch, and makes the commit id known: nothing is asked for it
/// afterwards, and no later answer replaces it.
pub proof fn lemma_detached_head_gives_commit_hash(
    repository: RepositoryView,
    head: Seq<char>,
    later: Option<Seq<char>>,
)
    requires
        repository.branch is None,
        repository.hash is None,
        !has_slash(head),
    ensures
        repository.after_branch(Some(head)).branch == Some(no_branch()),
        repository.after_branch(Some(head)).commit_hash_request() is None,
        repository.after_branch(Some(head)).after_commit_hash(later).hash == Some(Some(head)),
{
}

/// Taking an answer changes neither path of a repository and leaves a well
/// formed repository well formed.
pub proof fn lemma_answers_keep_paths(
    repository: RepositoryView,
    answer: Option<Seq<char>>,
    scan: Scan,
)
    requires
        repository.wf(),
    ensures
        repository.after_status(answer).wf(),
        repository.after_branch(answer).wf(),
        repository.after_remote(answer).wf(),
        repository.after_commit_hash(answer).wf(),
        repository.after_commit_tag().wf(),
        repository.after_state(scan).wf(),
        repository.after_status(answer).same_paths(repository),
        repository.after_branch(answer).same_paths(repository),
        repository.after_remote(answer).same_paths(repository),
        repository.after_commit_hash(answer).same_paths(repository),
        repository.after_commit_tag().same_paths(repository),
        repository.after_state(scan).same_paths(repository),
{
}

} // verus!
