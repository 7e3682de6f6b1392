//! The working-tree status: counters per kind of change, tallied from the
//! line-oriented, machine-readable status text.

use crate::text::chars_of;
use vstd::prelude::*;

verus! {

/// How many paths of the working tree fall under each kind of change.
#[derive(Debug, PartialEq, Eq, Structural)]
pub struct GitStatus {
    pub untracked: usize,
    pub added: usize,
    pub modified: usize,
    pub renamed: usize,
    pub deleted: usize,
    pub stashed: usize,
    pub unmerged: usize,
    pub ahead: usize,
    pub behind: usize,
    pub diverged: usize,
    pub conflicted: usize,
    pub staged: usize,
}

/// The kinds of change that a status line can be tallied under.
pub enum Change {
    Untracked,
    Added,
    Modified,
    Renamed,
    Deleted,
    Conflicted,
}

/// The kind of change that a status letter stands for, if any.
pub open spec fn change_of_letter(letter: char) -> Option<Change> {
    if letter == 'A' || letter == 'C' {
        Some(Change::Added)
    } else if letter == 'M' || letter == 'U' {
        Some(Change::Modified)
    } else if letter == 'D' {
        Some(Change::Deleted)
    } else if letter == 'R' {
        Some(Change::Renamed)
    } else if letter == '?' {
        Some(Change::Untracked)
    } else {
        None
    }
}

/// The two-letter code of a line: its first two characters, a space standing
/// for each one that the line is too short to have.
pub open spec fn code_of(line: Seq<char>) -> (char, char) {
    (
        if line.len() > 0 {
            line[0]
        } else {
            ' '
        },
        if line.len() > 1 {
            line[1]
        } else {
            ' '
        },
    )
}

/// Whether a line's code marks a conflict: twice the same letter, not a space.
pub open spec fn is_conflict(line: Seq<char>) -> bool {
    line.len() > 0 && code_of(line).0 == code_of(line).1 && code_of(line).0 != ' '
}

/// The kind of change that a line is tallied under. An empty line counts for
/// nothing; a conflict counts as such; any other line counts by the second
/// letter of its code.
pub open spec fn change_of_line(line: Seq<char>) -> Option<Change> {
    if line.len() == 0 {
        None
    } else if is_conflict(line) {
        Some(Change::Conflicted)
    } else {
        change_of_letter(code_of(line).1)
    }
}

/// How many of `lines` are tallied under `change`.
pub open spec fn count(lines: Seq<Seq<char>>, change: Change) -> nat
    decreases lines.len(),
{
    if lines.len() == 0 {
        0
    } else {
        count(lines.drop_last(), change) + if change_of_line(lines.last()) == Some(change) {
            1nat
        } else {
            0nat
        }
    }
}

/// How many characters precede the first line feed of `s`: all of them if it
/// has none.
pub open spec fn line_end(s: Seq<char>) -> nat
    decreases s.len(),
{
    if s.len() == 0 || s[0] == '\n' {
        0
    } else {
        1 + line_end(s.drop_first())
    }
}

/// The first line of `s`: what precedes its first line feed, less a carriage
/// return that stands right before that line feed.
pub open spec fn first_line(s: Seq<char>) -> Seq<char> {
    let n = line_end(s) as int;
    if 0 < n < s.len() && s[n - 1] == '\r' {
        s.take(n - 1)
    } else {
        s.take(n)
    }
}

/// What follows the first line of `s` and the line feed that ends it.
pub open spec fn after_first_line(s: Seq<char>) -> Seq<char> {
    let n = line_end(s) as int;
    if n < s.len() {
        s.skip(n + 1)
    } else {
        Seq::empty()
    }
}

/// The lines of `s`. A line ends at a line feed, or at a carriage return
/// followed by one, or where `s` ends; a line feed at the very end starts no
/// further line.
pub open spec fn lines(s: Seq<char>) -> Seq<Seq<char>>
    decreases s.len(),
{
    if s.len() == 0 {
        Seq::empty()
    } else {
        seq![first_line(s)] + lines(after_first_line(s))
    }
}

impl GitStatus {
    /// The status with every counter at zero.
    pub open spec fn zero() -> GitStatus {
        GitStatus {
            untracked: 0,
            added: 0,
            modified: 0,
            renamed: 0,
            deleted: 0,
            stashed: 0,
            unmerged: 0,
            ahead: 0,
            behind: 0,
            diverged: 0,
            conflicted: 0,
            staged: 0,
        }
    }

    /// Whether this status is the tally of `lines`.
    pub open spec fn tallies(self, lines: Seq<Seq<char>>) -> bool {
        &&& self.untracked == count(lines, Change::Untracked)
        &&& self.added == count(lines, Change::Added)
        &&& self.modified == count(lines, Change::Modified)
        &&& self.renamed == count(lines, Change::Renamed)
        &&& self.deleted == count(lines, Change::Deleted)
        &&& self.conflicted == count(lines, Change::Conflicted)
        &&& self.stashed == 0
        &&& self.unmerged == 0
        &&& self.ahead == 0
        &&& self.behind == 0
        &&& self.diverged == 0
        &&& self.staged == 0
    }

    /// The counter that `change` is tallied in.
    pub open spec fn counter(self, change: Change) -> usize {
        match change {
            Change::Untracked => self.untracked,
            Change::Added => self.added,
            Change::Modified => self.modified,
            Change::Renamed => self.renamed,
            Change::Deleted => self.deleted,
            Change::Conflicted => self.conflicted,
        }
    }

    /// This status with the counter of `change` set to `value`.
    pub open spec fn with_counter(self, change: Change, value: usize) -> GitStatus {
        match change {
            Change::Untracked => GitStatus { untracked: value, ..self },
            Change::Added => GitStatus { added: value, ..self },
            Change::Modified => GitStatus { modified: value, ..self },
            Change::Renamed => GitStatus { renamed: value, ..self },
            Change::Deleted => GitStatus { deleted: value, ..self },
            Change::Conflicted => GitStatus { conflicted: value, ..self },
        }
    }

    /// This status after one more path of the kind that `letter` stands for;
    /// unchanged where the letter stands for none.
    pub open spec fn bumped(self, letter: char) -> GitStatus {
        match change_of_letter(letter) {
            Some(change) => self.with_counter(change, (self.counter(change) + 1) as usize),
            None => self,
        }
    }
}

impl Default for GitStatus {
    fn default() -> (status: GitStatus)
        ensures
            status == GitStatus::zero(),
    {
        GitStatus {
            untracked: 0,
            added: 0,
            modified: 0,
            renamed: 0,
            deleted: 0,
            stashed: 0,
            unmerged: 0,
            ahead: 0,
            behind: 0,
            diverged: 0,
            conflicted: 0,
            staged: 0,
        }
    }
}

/// The status that the status text `porcelain` amounts to: the tally of its
/// lines.
pub open spec fn status_of(porcelain: Seq<char>) -> GitStatus {
    GitStatus {
        untracked: count(lines(porcelain), Change::Untracked) as usize,
        added: count(lines(porcelain), Change::Added) as usize,
        modified: count(lines(porcelain), Change::Modified) as usize,
        renamed: count(lines(porcelain), Change::Renamed) as usize,
        deleted: count(lines(porcelain), Change::Deleted) as usize,
        conflicted: count(lines(porcelain), Change::Conflicted) as usize,
        ..GitStatus::zero()
    }
}

/// No more lines are tallied under a kind of change than there are lines.
pub proof fn lemma_count_bounded(lines: Seq<Seq<char>>, change: Change)
    ensures
        count(lines, change) <= lines.len(),
    decreases lines.len(),
{
    if lines.len() > 0 {
        lemma_count_bounded(lines.drop_last(), change);
    }
}

/// Where the first `k` characters of `s` hold no line feed and `s` ends there
/// or goes on with one, the first line feed is at `k`.
pub proof fn lemma_line_end_at(s: Seq<char>, k: int)
    requires
        0 <= k <= s.len(),
        forall|i: int| 0 <= i < k ==> #[trigger] s[i] != '\n',
        k < s.len() ==> s[k] == '\n',
    ensures
        line_end(s) == k,
    decreases k,
{
    if k > 0 {
        assert(s[0] != '\n');
        assert forall|i: int| 0 <= i < k - 1 implies #[trigger] s.drop_first()[i] != '\n' by {
            assert(s.drop_first()[i] == s[i + 1]);
        }
        if k < s.len() {
            assert(s.drop_first()[k - 1] == s[k]);
        }
        lemma_line_end_at(s.drop_first(), k - 1);
    }
}

/// The first line feed of a text is within the text.
pub proof fn lemma_line_end_bounded(s: Seq<char>)
    ensures
        line_end(s) <= s.len(),
        line_end(s) < s.len() ==> s[line_end(s) as int] == '\n',
        forall|i: int| 0 <= i < line_end(s) ==> #[trigger] s[i] != '\n',
    decreases s.len(),
{
    if s.len() > 0 && s[0] != '\n' {
        lemma_line_end_bounded(s.drop_first());
        assert forall|i: int| 0 <= i < line_end(s) implies #[trigger] s[i] != '\n' by {
            if i > 0 {
                assert(s.drop_first()[i - 1] == s[i]);
            }
        }
    }
}

/// The lines of two texts, the first of which ends with a line feed or is
/// empty, are the lines of the first followed by the lines of the second.
pub proof fn lemma_lines_of_joined_texts(a: Seq<char>, b: Seq<char>)
    requires
        a.len() == 0 || a.last() == '\n',
    ensures
        lines(a + b) == lines(a) + lines(b),
    decreases a.len(),
{
    if a.len() == 0 {
        assert(a + b =~= b);
        assert(lines(a) + lines(b) =~= lines(b));
    } else {
        let n = line_end(a) as int;
        lemma_line_end_bounded(a);
        assert(n < a.len()) by {
            if n == a.len() {
                assert(a[a.len() - 1] != '\n');
            }
        }
        assert forall|i: int| 0 <= i < n implies #[trigger] (a + b)[i] != '\n' by {
            assert((a + b)[i] == a[i]);
        }
        assert((a + b)[n] == a[n]);
        lemma_line_end_at(a + b, n);
        assert(first_line(a + b) =~= first_line(a)) by {
            if n > 0 {
                assert((a + b)[n - 1] == a[n - 1]);
            }
        }
        let rest = after_first_line(a);
        assert(after_first_line(a + b) =~= rest + b);
        assert(rest.len() == 0 || rest.last() == '\n') by {
            if rest.len() > 0 {
                assert(rest.last() == a.last());
            }
        }
        lemma_lines_of_joined_texts(rest, b);
        assert(lines(a + b) =~= lines(a) + lines(b));
    }
}

/// A text without a line feed, and not empty, is one line: itself.
pub proof fn lemma_single_line(line: Seq<char>)
    requires
        line.len() > 0,
        forall|i: int| 0 <= i < line.len() ==> #[trigger] line[i] != '\n',
    ensures
        lines(line) == seq![line],
{
    lemma_line_end_at(line, line.len() as int);
    assert(first_line(line) =~= line);
    assert(after_first_line(line).len() == 0);
    assert(lines(after_first_line(line)) =~= Seq::<Seq<char>>::empty());
    assert(lines(line) =~= seq![line]);
}

/// Adds one to the counter that the status letter `letter` stands for: `A` and
/// `C` count as added, `M` and `U` as modified, `D` as deleted, `R` as renamed,
/// `?` as untracked. Any other letter leaves the status as it is.
pub fn increment_git_status(vcs_status: &mut GitStatus, letter: char)
    requires
        change_of_letter(letter) matches Some(change) ==> old(vcs_status).counter(change)
            < usize::MAX,
    ensures
        *final(vcs_status) == old(vcs_status).bumped(letter),
{
    match letter {
        'A' => vcs_status.added += 1,
        'M' => vcs_status.modified += 1,
        'D' => vcs_status.deleted += 1,
        'R' => vcs_status.renamed += 1,
        'C' => vcs_status.added += 1,
        'U' => vcs_status.modified += 1,
        '?' => vcs_status.untracked += 1,
        _ => (),
    }
}

/// Tallies the status text of the version-control tool, one path per line,
/// each line starting with a two-letter code.
pub fn parse_porcelain_output(porcelain: &str) -> (vcs_status: GitStatus)
    ensures
        vcs_status == status_of(porcelain@),
        vcs_status.tallies(lines(porcelain@)),
{
    let text = chars_of(porcelain);
    let n: usize = text.len();
    let mut vcs_status: GitStatus = Default::default();
    let mut pos: usize = 0;
    let ghost mut done: Seq<Seq<char>> = Seq::empty();
    proof {
        assert(text@.skip(0) =~= text@);
        assert(done + lines(text@) =~= lines(text@));
    }
    while pos < n
        invariant
            pos <= n,
            n == text.len(),
            text@ == porcelain@,
            done.len() <= pos,
            lines(text@) == done + lines(text@.skip(pos as int)),
            vcs_status.tallies(done),
        decreases n - pos,
    {
        let ghost rest = text@.skip(pos as int);
        let mut end: usize = pos;
        while end < n && text[end] != '\n'
            invariant
                pos <= end <= n,
                n == text.len(),
                forall|i: int| pos <= i < end ==> #[trigger] text@[i] != '\n',
            decreases n - end,
        {
            end += 1;
        }
        let stop: usize = if end < n && end > pos && text[end - 1] == '\r' {
            (end - 1) as usize
        } else {
            end
        };
        let first: char = if pos < stop {
            text[pos]
        } else {
            ' '
        };
        let second: char = if stop - pos > 1 {
            text[pos + 1]
        } else {
            ' '
        };
        let ghost line = text@.subrange(pos as int, stop as int);
        proof {
            assert forall|i: int| 0 <= i < end - pos implies #[trigger] rest[i] != '\n' by {
                assert(rest[i] == text@[i + pos]);
            }
            lemma_line_end_at(rest, end - pos);
            assert(first_line(rest) =~= line);
            assert(code_of(line) == (first, second));
            assert(done.push(line).drop_last() =~= done);
            lemma_count_bounded(done, Change::Untracked);
            lemma_count_bounded(done, Change::Added);
            lemma_count_bounded(done, Change::Modified);
            lemma_count_bounded(done, Change::Renamed);
            lemma_count_bounded(done, Change::Deleted);
            lemma_count_bounded(done, Change::Conflicted);
        }
        if pos < stop {
            if first == second && first != ' ' {
                vcs_status.conflicted += 1;
            } else {
                // The first column falls under the staged mark, which is not counted.
                increment_git_status(&mut vcs_status, 'S');
                increment_git_status(&mut vcs_status, second);
            }
        }
        let next: usize = if end < n {
            end + 1
        } else {
            end
        };
        proof {
            assert(after_first_line(rest) =~= text@.skip(next as int));
            assert(done + lines(rest) =~= done.push(line) + lines(text@.skip(next as int)));
            done = done.push(line);
        }
        pos = next;
    }
    proof {
        assert(text@.skip(n as int) =~= Seq::<char>::empty());
        assert(done + Seq::<Seq<char>>::empty() =~= done);
        lemma_count_bounded(done, Change::Untracked);
        lemma_count_bounded(done, Change::Added);
        lemma_count_bounded(done, Change::Modified);
        lemma_count_bounded(done, Change::Renamed);
        lemma_count_bounded(done, Change::Deleted);
        lemma_count_bounded(done, Change::Conflicted);
    }
    vcs_status
}

/// A line whose code is twice the same letter, other than a space, adds one
/// to the count of conflicts and nothing to any other count, whatever else
/// the line holds and whatever lines came before it.
pub proof fn lemma_conflict_line_counts_once(before: Seq<Seq<char>>, line: Seq<char>)
    requires
        line.len() >= 2,
        line[0] == line[1],
        line[0] != ' ',
    ensures
        count(before.push(line), Change::Conflicted) == count(before, Change::Conflicted) + 1,
        count(before.push(line), Change::Untracked) == count(before, Change::Untracked),
        count(before.push(line), Change::Added) == count(before, Change::Added),
        count(before.push(line), Change::Modified) == count(before, Change::Modified),
        count(before.push(line), Change::Renamed) == count(before, Change::Renamed),
        count(before.push(line), Change::Deleted) == count(before, Change::Deleted),
{
    assert(before.push(line).drop_last() =~= before);
    assert(change_of_line(line) == Some(Change::Conflicted));
}

/// The same of a status text: where a text of whole lines is followed by one
/// more line whose code is twice the same letter, other than a space, the
/// tally of the longer text has one conflict more and is the same otherwise.
pub proof fn lemma_conflict_line_in_text(before: Seq<char>, line: Seq<char>)
    requires
        before.len() == 0 || before.last() == '\n',
        forall|i: int| 0 <= i < line.len() ==> #[trigger] line[i] != '\n',
        line.len() >= 2,
        line[0] == line[1],
        line[0] != ' ',
    ensures
        count(lines(before + line), Change::Conflicted) == count(
            lines(before),
            Change::Conflicted,
        ) + 1,
        count(lines(before + line), Change::Untracked) == count(lines(before), Change::Untracked),
        count(lines(before + line), Change::Added) == count(lines(before), Change::Added),
        count(lines(before + line), Change::Modified) == count(lines(before), Change::Modified),
        count(lines(before + line), Change::Renamed) == count(lines(before), Change::Renamed),
        count(lines(before + line), Change::Deleted) == count(lines(before), Change::Deleted),
{
    lemma_lines_of_joined_texts(before, line);
    lemma_single_line(line);
    assert(lines(before) + seq![line] =~= lines(before).push(line));
    lemma_conflict_line_counts_once(lines(before), line);
}

/// An empty status text amounts to the status with every counter at zero.
pub proof fn lemma_empty_text_is_zero()
    ensures
        status_of(Seq::<char>::empty()) == GitStatus::zero(),
{
}

} // verus!
