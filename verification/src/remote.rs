//! The upstream that the current branch tracks.

use crate::text::chars_of;
use vstd::prelude::*;

verus! {

/// The upstream of the current branch: a remote and a branch on it.
#[derive(Debug)]
pub struct Remote {
    pub name: String,
    pub branch: String,
}

/// A remote as a pair of texts.
pub struct RemoteView {
    pub name: Seq<char>,
    pub branch: Seq<char>,
}

impl View for Remote {
    type V = RemoteView;

    open spec fn view(&self) -> RemoteView {
        RemoteView { name: self.name@, branch: self.branch@ }
    }
}

/// How many characters precede the first slash of `s`: all of them if it has
/// none.
pub open spec fn slash_at(s: Seq<char>) -> nat
    decreases s.len(),
{
    if s.len() == 0 || s[0] == '/' {
        0
    } else {
        1 + slash_at(s.drop_first())
    }
}

/// What follows the first slash of `s`, if it has one.
pub open spec fn after_slash(s: Seq<char>) -> Option<Seq<char>> {
    let n = slash_at(s) as int;
    if n < s.len() {
        Some(s.skip(n + 1))
    } else {
        None
    }
}

/// The upstream that a full reference name stands for. The name is cut at its
/// first three slashes, as in `refs/remotes/<remote>/<branch>`: the third part
/// names the remote, and all that follows the third slash names the branch.
/// A name with fewer than three slashes stands for none.
pub open spec fn remote_of(reference: Seq<char>) -> Option<RemoteView> {
    match after_slash(reference) {
        Some(second) => match after_slash(second) {
            Some(third) => match after_slash(third) {
                Some(rest) => Some(
                    RemoteView { name: third.take(slash_at(third) as int), branch: rest },
                ),
                None => None,
            },
            None => None,
        },
        None => None,
    }
}

/// Where the first `k` characters of `s` hold no slash and `s` ends there or
/// goes on with one, the first slash is at `k`.
pub proof fn lemma_slash_at(s: Seq<char>, k: int)
    requires
        0 <= k <= s.len(),
        forall|i: int| 0 <= i < k ==> #[trigger] s[i] != '/',
        k < s.len() ==> s[k] == '/',
    ensures
        slash_at(s) == k,
    decreases k,
{
    if k > 0 {
        assert(s[0] != '/');
        assert forall|i: int| 0 <= i < k - 1 implies #[trigger] s.drop_first()[i] != '/' by {
            assert(s.drop_first()[i] == s[i + 1]);
        }
        if k < s.len() {
            assert(s.drop_first()[k - 1] == s[k]);
        }
        lemma_slash_at(s.drop_first(), k - 1);
    }
}

/// The index of the first slash of `text` at or behind `from`; the length of
/// `text` if there is none.
fn find_slash(text: &Vec<char>, from: usize) -> (at: usize)
    requires
        from <= text.len(),
    ensures
        from <= at <= text.len(),
        at - from == slash_at(text@.skip(from as int)),
{
    let n: usize = text.len();
    let mut at: usize = from;
    while at < n && text[at] != '/'
        invariant
            from <= at <= n,
            n == text.len(),
            forall|i: int| from <= i < at ==> #[trigger] text@[i] != '/',
        decreases n - at,
    {
        at += 1;
    }
    proof {
        let rest = text@.skip(from as int);
        assert forall|i: int| 0 <= i < at - from implies #[trigger] rest[i] != '/' by {
            assert(rest[i] == text@[i + from]);
        }
        lemma_slash_at(rest, at - from);
    }
    at
}

impl Remote {
    /// Reads the upstream out of the full name of the reference that the
    /// current branch tracks.
    pub fn parse(reference: &str) -> (remote: Option<Remote>)
        ensures
            match remote {
                Some(found) => remote_of(reference@) == Some(found@),
                None => remote_of(reference@) is None,
            },
    {
        let text = chars_of(reference);
        let n: usize = text.len();
        let first: usize = find_slash(&text, 0);
        assert(text@.skip(0) =~= text@);
        if first >= n {
            return None;
        }
        let ghost second_part = text@.skip(first + 1);
        let second: usize = find_slash(&text, first + 1);
        if second >= n {
            return None;
        }
        let ghost third_part = text@.skip(second + 1);
        assert(second_part.skip(second - first) =~= third_part);
        let third: usize = find_slash(&text, second + 1);
        if third >= n {
            return None;
        }
        let ghost rest = text@.skip(third + 1);
        assert(third_part.skip(third - second) =~= rest);
        let name = reference.substring_char(second + 1, third).to_owned();
        let branch = reference.substring_char(third + 1, n).to_owned();
        assert(third_part.take(third - second - 1) =~= reference@.subrange(
            second + 1,
            third as int,
        ));
        assert(rest =~= reference@.subrange(third + 1, n as int));
        Some(Remote { name, branch })
    }
}

} // verus!
