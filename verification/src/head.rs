//! The head reference: the file of the metadata directory that names the
//! current branch, or holds a bare commit id while no branch is checked out.

use crate::text::{chars_of, drop_line_endings, is_line_ending, lemma_drop_line_endings_suffix};
use vstd::prelude::*;

verus! {

/// How many characters follow the last slash of `s`: all of them if it has
/// none.
pub open spec fn tail_len(s: Seq<char>) -> nat
    decreases s.len(),
{
    if s.len() == 0 || s.last() == '/' {
        0
    } else {
        1 + tail_len(s.drop_last())
    }
}

/// Whether `s` holds a slash.
pub open spec fn has_slash(s: Seq<char>) -> bool {
    tail_len(s) < s.len()
}

/// The branch that the contents of the head reference name: what follows
/// their last slash, without the line endings at its end. Contents without a
/// slash name no branch.
pub open spec fn branch_of(head: Seq<char>) -> Option<Seq<char>> {
    if has_slash(head) {
        Some(drop_line_endings(head.skip(head.len() - tail_len(head))))
    } else {
        None
    }
}

/// The label that stands for the branch where none is named.
pub open spec fn no_branch() -> Seq<char> {
    "HEAD"@
}

/// The branch label for what was read of the head reference: the branch that
/// it names, or the label for none where it names none or could not be read.
pub open spec fn branch_label(head: Option<Seq<char>>) -> Seq<char> {
    match head {
        Some(contents) => match branch_of(contents) {
            Some(name) => name,
            None => no_branch(),
        },
        None => no_branch(),
    }
}

/// Where the last `k` characters of `s` hold no slash and `s` starts there or
/// has one right before them, `k` characters follow the last slash.
pub proof fn lemma_tail_len(s: Seq<char>, k: int)
    requires
        0 <= k <= s.len(),
        forall|i: int| s.len() - k <= i < s.len() ==> #[trigger] s[i] != '/',
        k < s.len() ==> s[s.len() - k - 1] == '/',
    ensures
        tail_len(s) == k,
    decreases k,
{
    if k > 0 {
        assert(s.last() != '/');
        lemma_tail_len(s.drop_last(), k - 1);
    }
}

/// Reads the branch out of the contents of the head reference.
pub fn branch_name(head: &str) -> (name: Option<String>)
    ensures
        match name {
            Some(found) => branch_of(head@) == Some(found@),
            None => branch_of(head@) is None,
        },
{
    let text = chars_of(head);
    let n: usize = text.len();
    let mut start: usize = n;
    while start > 0 && text[start - 1] != '/'
        invariant
            start <= n,
            n == text.len(),
            forall|i: int| start <= i < n ==> #[trigger] text@[i] != '/',
        decreases start,
    {
        start -= 1;
    }
    proof {
        lemma_tail_len(text@, n - start);
    }
    if start == 0 {
        return None;
    }
    let mut end: usize = n;
    while end > start && (text[end - 1] == '\n' || text[end - 1] == '\r')
        invariant
            start <= end <= n,
            n == text.len(),
            forall|i: int| end <= i < n ==> is_line_ending(#[trigger] text@[i]),
        decreases end,
    {
        end -= 1;
    }
    proof {
        let tail = text@.skip(start as int);
        assert forall|i: int| end - start <= i < tail.len() implies is_line_ending(
            #[trigger] tail[i],
        ) by {
            assert(tail[i] == text@[i + start]);
        }
        lemma_drop_line_endings_suffix(tail, end - start);
        let kept = tail.take(end - start);
        assert(kept =~= head@.subrange(start as int, end as int));
        assert(drop_line_endings(kept) == kept) by {
            if kept.len() > 0 {
                assert(kept.last() == text@[end - 1]);
            }
        }
    }
    Some(head.substring_char(start, end).to_owned())
}

} // verus!
