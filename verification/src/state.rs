//! The operation that a repository is in the middle of, and the protocol that
//! finds it out: which marker of the metadata directory to look at next, and
//! what each answer leads to.

use crate::text::{parse_count, parsed_count};
use vstd::prelude::*;

verus! {

/// Step `current` of `total` in an operation that replays several commits.
#[derive(Clone, Copy, PartialEq, Eq, Debug, Structural)]
pub struct RebaseProgress {
    pub current: usize,
    pub total: usize,
}

/// The operation that a repository is in the middle of.
#[derive(Clone, Copy, PartialEq, Eq, Debug, Structural)]
pub enum GitState {
    Clean,
    Merge,
    Revert,
    CherryPick,
    Bisect,
    ApplyMailboxOrRebase,
    ApplyMailbox(RebaseProgress),
    Rebase(RebaseProgress),
}

impl RebaseProgress {
    /// The progress that stands in where the counters cannot be told: step
    /// one of one.
    pub open spec fn unknown() -> RebaseProgress {
        RebaseProgress { current: 1, total: 1 }
    }

    /// Whether both numbers are at least one, as the numbers of a step are.
    pub open spec fn is_step(self) -> bool {
        self.current >= 1 && self.total >= 1
    }

    /// The progress that two counters give: the counters themselves where
    /// both could be read, step one of one otherwise.
    pub open spec fn of(current: Option<usize>, total: Option<usize>) -> RebaseProgress {
        match (current, total) {
            (Some(current), Some(total)) => RebaseProgress { current, total },
            _ => RebaseProgress::unknown(),
        }
    }
}

impl Default for RebaseProgress {
    fn default() -> (progress: RebaseProgress)
        ensures
            progress == RebaseProgress::unknown(),
    {
        RebaseProgress { current: 1, total: 1 }
    }
}

/// The files and directories of the metadata directory that tell of an
/// operation in progress.
#[derive(Clone, Copy, PartialEq, Eq, Debug, Structural)]
pub enum Marker {
    /// The file that a merge in progress leaves.
    MergeHead,
    /// The log of a bisect session.
    BisectLog,
    /// The directory of an interactive rebase.
    RebaseMerge,
    /// In it, the number of the current step.
    RebaseMergeMsgnum,
    /// In it, the number of steps.
    RebaseMergeEnd,
    /// The directory of a patch series being applied, or of a classic rebase.
    RebaseApply,
    /// In it, the number of the next patch.
    RebaseApplyNext,
    /// In it, the number of the last patch.
    RebaseApplyLast,
    /// In it, the file that tells of a rebase.
    RebaseApplyRebasing,
    /// In it, the file that tells of patches being applied.
    RebaseApplyApplying,
}

impl Marker {
    /// The marker's path below the metadata directory.
    pub open spec fn path(self) -> Seq<char> {
        match self {
            Marker::MergeHead => "MERGE_HEAD"@,
            Marker::BisectLog => "BISECT_LOG"@,
            Marker::RebaseMerge => "rebase-merge"@,
            Marker::RebaseMergeMsgnum => "rebase-merge/msgnum"@,
            Marker::RebaseMergeEnd => "rebase-merge/end"@,
            Marker::RebaseApply => "rebase-apply"@,
            Marker::RebaseApplyNext => "rebase-apply/next"@,
            Marker::RebaseApplyLast => "rebase-apply/last"@,
            Marker::RebaseApplyRebasing => "rebase-apply/rebasing"@,
            Marker::RebaseApplyApplying => "rebase-apply/applying"@,
        }
    }

    /// The marker's path below the metadata directory.
    pub fn relative_path(self) -> (path: &'static str)
        ensures
            path@ == self.path(),
    {
        match self {
            Marker::MergeHead => "MERGE_HEAD",
            Marker::BisectLog => "BISECT_LOG",
            Marker::RebaseMerge => "rebase-merge",
            Marker::RebaseMergeMsgnum => "rebase-merge/msgnum",
            Marker::RebaseMergeEnd => "rebase-merge/end",
            Marker::RebaseApply => "rebase-apply",
            Marker::RebaseApplyNext => "rebase-apply/next",
            Marker::RebaseApplyLast => "rebase-apply/last",
            Marker::RebaseApplyRebasing => "rebase-apply/rebasing",
            Marker::RebaseApplyApplying => "rebase-apply/applying",
        }
    }
}

/// What the protocol asks of the metadata directory.
#[derive(Clone, Copy, PartialEq, Eq, Debug, Structural)]
pub enum Probe {
    /// Whether the marker exists.
    Exists(Marker),
    /// What the marker file holds.
    Read(Marker),
}

/// What came back for a probe.
#[derive(Debug)]
pub enum Answer {
    /// Whether the marker exists.
    Exists(bool),
    /// What the marker file holds; nothing where it could not be read.
    Contents(Option<String>),
}

impl Answer {
    /// Whether the answer shows the marker to be there. A file that was read
    /// is there.
    pub open spec fn found(self) -> bool {
        match self {
            Answer::Exists(exists) => exists,
            Answer::Contents(contents) => contents is Some,
        }
    }

    /// The counter that the answer holds, if it holds one.
    pub open spec fn count(self) -> Option<usize> {
        match self {
            Answer::Contents(Some(contents)) => parsed_count(contents@),
            _ => None,
        }
    }
}

/// Where the protocol stands: the question that is open, with what the
/// answers so far have settled, or the state that it has arrived at.
#[derive(Clone, Copy, PartialEq, Eq, Debug, Structural)]
pub enum Scan {
    /// Is a merge in progress?
    MergeHead,
    /// Is a bisect session open?
    BisectLog,
    /// Is an interactive rebase in progress?
    RebaseMerge,
    /// It is: which step is it at?
    MergeCurrent,
    /// And of how many?
    MergeTotal(usize),
    /// Is a patch series or a classic rebase in progress?
    RebaseApply,
    /// It is: which patch is next?
    ApplyCurrent,
    /// And which is the last?
    ApplyTotal(usize),
    /// With that progress: is it a rebase?
    ApplyRebasing(RebaseProgress),
    /// If not: are patches being applied?
    ApplyApplying(RebaseProgress),
    /// The state has been found.
    Done(GitState),
}

impl Scan {
    /// The question that is open, if any.
    pub open spec fn probe(self) -> Option<Probe> {
        match self {
            Scan::MergeHead => Some(Probe::Exists(Marker::MergeHead)),
            Scan::BisectLog => Some(Probe::Exists(Marker::BisectLog)),
            Scan::RebaseMerge => Some(Probe::Exists(Marker::RebaseMerge)),
            Scan::MergeCurrent => Some(Probe::Read(Marker::RebaseMergeMsgnum)),
            Scan::MergeTotal(_) => Some(Probe::Read(Marker::RebaseMergeEnd)),
            Scan::RebaseApply => Some(Probe::Exists(Marker::RebaseApply)),
            Scan::ApplyCurrent => Some(Probe::Read(Marker::RebaseApplyNext)),
            Scan::ApplyTotal(_) => Some(Probe::Read(Marker::RebaseApplyLast)),
            Scan::ApplyRebasing(_) => Some(Probe::Exists(Marker::RebaseApplyRebasing)),
            Scan::ApplyApplying(_) => Some(Probe::Exists(Marker::RebaseApplyApplying)),
            Scan::Done(_) => None,
        }
    }

    /// Where the protocol stands after an answer to the open question:
    /// `found` where the question was whether the marker exists, `count`
    /// where it was what counter the marker holds.
    pub open spec fn next(self, found: bool, count: Option<usize>) -> Scan {
        match self {
            Scan::MergeHead => if found {
                Scan::Done(GitState::Merge)
            } else {
                Scan::BisectLog
            },
            Scan::BisectLog => if found {
                Scan::Done(GitState::Bisect)
            } else {
                Scan::RebaseMerge
            },
            Scan::RebaseMerge => if found {
                Scan::MergeCurrent
            } else {
                Scan::RebaseApply
            },
            Scan::MergeCurrent => match count {
                Some(current) => Scan::MergeTotal(current),
                None => Scan::Done(GitState::Rebase(RebaseProgress::unknown())),
            },
            Scan::MergeTotal(current) => Scan::Done(
                GitState::Rebase(RebaseProgress::of(Some(current), count)),
            ),
            Scan::RebaseApply => if found {
                Scan::ApplyCurrent
            } else {
                Scan::Done(GitState::Clean)
            },
            Scan::ApplyCurrent => match count {
                Some(current) => Scan::ApplyTotal(current),
                None => Scan::ApplyRebasing(RebaseProgress::unknown()),
            },
            Scan::ApplyTotal(current) => Scan::ApplyRebasing(
                RebaseProgress::of(Some(current), count),
            ),
            Scan::ApplyRebasing(progress) => if found {
                Scan::Done(GitState::Rebase(progress))
            } else {
                Scan::ApplyApplying(progress)
            },
            Scan::ApplyApplying(progress) => if found {
                Scan::Done(GitState::ApplyMailbox(progress))
            } else {
                Scan::Done(GitState::ApplyMailboxOrRebase)
            },
            Scan::Done(state) => Scan::Done(state),
        }
    }

    /// The state that the protocol has arrived at; `Clean` as long as nothing
    /// has been found.
    pub open spec fn verdict(self) -> GitState {
        match self {
            Scan::Done(state) => state,
            _ => GitState::Clean,
        }
    }

    /// The protocol at its start: nothing asked yet.
    pub fn new() -> (scan: Scan)
        ensures
            scan == Scan::MergeHead,
    {
        Scan::MergeHead
    }

    /// What to ask the metadata directory next; nothing once the state is
    /// found.
    pub fn pending(&self) -> (probe: Option<Probe>)
        ensures
            probe == self.probe(),
    {
        match self {
            Scan::MergeHead => Some(Probe::Exists(Marker::MergeHead)),
            Scan::BisectLog => Some(Probe::Exists(Marker::BisectLog)),
            Scan::RebaseMerge => Some(Probe::Exists(Marker::RebaseMerge)),
            Scan::MergeCurrent => Some(Probe::Read(Marker::RebaseMergeMsgnum)),
            Scan::MergeTotal(_) => Some(Probe::Read(Marker::RebaseMergeEnd)),
            Scan::RebaseApply => Some(Probe::Exists(Marker::RebaseApply)),
            Scan::ApplyCurrent => Some(Probe::Read(Marker::RebaseApplyNext)),
            Scan::ApplyTotal(_) => Some(Probe::Read(Marker::RebaseApplyLast)),
            Scan::ApplyRebasing(_) => Some(Probe::Exists(Marker::RebaseApplyRebasing)),
            Scan::ApplyApplying(_) => Some(Probe::Exists(Marker::RebaseApplyApplying)),
            Scan::Done(_) => None,
        }
    }

    /// Takes the answer to the open question and moves on.
    pub fn step(self, answer: &Answer) -> (scan: Scan)
        ensures
            scan == self.next(answer.found(), answer.count()),
    {
        match self {
            Scan::MergeHead => if answer_found(answer) {
                Scan::Done(GitState::Merge)
            } else {
                Scan::BisectLog
            },
            Scan::BisectLog => if answer_found(answer) {
                Scan::Done(GitState::Bisect)
            } else {
                Scan::RebaseMerge
            },
            Scan::RebaseMerge => if answer_found(answer) {
                Scan::MergeCurrent
            } else {
                Scan::RebaseApply
            },
            Scan::MergeCurrent => match file_to_usize(answer) {
                Some(current) => Scan::MergeTotal(current),
                None => Scan::Done(GitState::Rebase(RebaseProgress::default())),
            },
            Scan::MergeTotal(current) => Scan::Done(
                GitState::Rebase(paths_to_rebase_progress(current, file_to_usize(answer))),
            ),
            Scan::RebaseApply => if answer_found(answer) {
                Scan::ApplyCurrent
            } else {
                Scan::Done(GitState::Clean)
            },
            Scan::ApplyCurrent => match file_to_usize(answer) {
                Some(current) => Scan::ApplyTotal(current),
                None => Scan::ApplyRebasing(RebaseProgress::default()),
            },
            Scan::ApplyTotal(current) => Scan::ApplyRebasing(
                paths_to_rebase_progress(current, file_to_usize(answer)),
            ),
            Scan::ApplyRebasing(progress) => if answer_found(answer) {
                Scan::Done(GitState::Rebase(progress))
            } else {
                Scan::ApplyApplying(progress)
            },
            Scan::ApplyApplying(progress) => if answer_found(answer) {
                Scan::Done(GitState::ApplyMailbox(progress))
            } else {
                Scan::Done(GitState::ApplyMailboxOrRebase)
            },
            Scan::Done(state) => Scan::Done(state),
        }
    }

    /// The state that was found, once it is.
    pub fn outcome(&self) -> (state: Option<GitState>)
        ensures
            state == match *self {
                Scan::Done(found) => Some(found),
                _ => None,
            },
    {
        match self {
            Scan::Done(state) => Some(*state),
            _ => None,
        }
    }
}

/// Whether the answer shows the marker to be there.
fn answer_found(answer: &Answer) -> (found: bool)
    ensures
        found == answer.found(),
{
    match answer {
        Answer::Exists(exists) => *exists,
        Answer::Contents(contents) => contents.is_some(),
    }
}

/// The counter in a marker file's contents: the trimmed contents as an
/// unsigned decimal number. Nothing where the file could not be read or holds
/// no such number.
pub fn file_to_usize(answer: &Answer) -> (quantity: Option<usize>)
    ensures
        quantity == answer.count(),
{
    match answer {
        Answer::Contents(Some(contents)) => parse_count(contents.as_str()),
        _ => None,
    }
}

/// The progress that a current step and the counter of steps give.
pub fn paths_to_rebase_progress(current: usize, total: Option<usize>) -> (progress: RebaseProgress)
    ensures
        progress == RebaseProgress::of(Some(current), total),
{
    match total {
        Some(total) => RebaseProgress { current, total },
        None => RebaseProgress::default(),
    }
}

/// What a metadata directory holds, as far as the protocol looks: the markers
/// that exist, and the contents of those that can be read.
pub struct Markers {
    pub present: Set<Marker>,
    pub contents: Map<Marker, Seq<char>>,
}

impl Markers {
    /// The counter that a marker file holds, if it can be read and holds one.
    pub open spec fn count(self, marker: Marker) -> Option<usize> {
        if self.contents.dom().contains(marker) {
            parsed_count(self.contents[marker])
        } else {
            None
        }
    }

    /// The progress that a pair of marker files gives.
    pub open spec fn progress(self, current: Marker, total: Marker) -> RebaseProgress {
        RebaseProgress::of(self.count(current), self.count(total))
    }

    /// Whether the directory shows `probe`'s marker to be there.
    pub open spec fn found(self, probe: Probe) -> bool {
        match probe {
            Probe::Exists(marker) => self.present.contains(marker),
            Probe::Read(marker) => self.contents.dom().contains(marker),
        }
    }

    /// The counter that the directory gives for `probe`.
    pub open spec fn read(self, probe: Probe) -> Option<usize> {
        match probe {
            Probe::Exists(_) => None,
            Probe::Read(marker) => self.count(marker),
        }
    }

    /// The state of a repository with this metadata directory. The first of
    /// these that holds decides: a merge is in progress; a bisect session is
    /// open; an interactive rebase is in progress; a patch series or classic
    /// rebase is, and then it is a rebase where the directory says so, a
    /// patch series where it says that, and one of the two where it says
    /// neither. Without any of them the repository is clean.
    pub open spec fn state(self) -> GitState {
        if self.present.contains(Marker::MergeHead) {
            GitState::Merge
        } else if self.present.contains(Marker::BisectLog) {
            GitState::Bisect
        } else if self.present.contains(Marker::RebaseMerge) {
            GitState::Rebase(self.progress(Marker::RebaseMergeMsgnum, Marker::RebaseMergeEnd))
        } else if self.present.contains(Marker::RebaseApply) {
            if self.present.contains(Marker::RebaseApplyRebasing) {
                GitState::Rebase(self.progress(Marker::RebaseApplyNext, Marker::RebaseApplyLast))
            } else if self.present.contains(Marker::RebaseApplyApplying) {
                GitState::ApplyMailbox(
                    self.progress(Marker::RebaseApplyNext, Marker::RebaseApplyLast),
                )
            } else {
                GitState::ApplyMailboxOrRebase
            }
        } else {
            GitState::Clean
        }
    }

    /// Where the protocol stands after `steps` questions answered from this
    /// directory, starting at `scan`.
    pub open spec fn run(self, scan: Scan, steps: nat) -> Scan
        decreases steps,
    {
        match scan.probe() {
            Some(probe) if steps > 0 => self.run(
                scan.next(self.found(probe), self.read(probe)),
                (steps - 1) as nat,
            ),
            _ => scan,
        }
    }
}

/// The longest chain of questions that the protocol asks.
pub open spec fn max_probes() -> nat {
    8
}

/// Whatever the metadata directory holds, the protocol arrives at the state of
/// that directory, and it asks at most eight questions on the way.
pub proof fn lemma_scan_finds_state(markers: Markers)
    ensures
        markers.run(Scan::MergeHead, max_probes()) == Scan::Done(markers.state()),
{
    reveal_with_fuel(Markers::run, 9);
}

/// Once the state is found, no answer changes it and nothing more is asked.
pub proof fn lemma_done_is_final(state: GitState, found: bool, count: Option<usize>)
    ensures
        Scan::Done(state).probe() is None,
        Scan::Done(state).next(found, count) == Scan::Done(state),
{
}

/// The protocol never arrives at a revert or a cherry-pick.
pub proof fn lemma_never_revert_or_cherry_pick(markers: Markers)
    ensures
        markers.state() != GitState::Revert,
        markers.state() != GitState::CherryPick,
{
}

/// Counters that are both at least one give the progress of a step, and so
/// does the progress that stands in for unreadable ones.
pub proof fn lemma_progress_is_step(current: Option<usize>, total: Option<usize>)
    requires
        current matches Some(c) ==> c >= 1,
        total matches Some(t) ==> t >= 1,
    ensures
        RebaseProgress::of(current, total).is_step(),
        RebaseProgress::unknown().is_step(),
{
}

} // verus!
