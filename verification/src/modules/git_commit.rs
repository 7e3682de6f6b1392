//! What to show of the commit that is checked out.

use crate::text::text_of;
use vstd::prelude::*;
use vstd::string::StringExecFns;

verus! {

/// How to show a commit.
#[derive(Debug)]
pub struct GitCommitConfig {
    /// How many characters of the commit id to show.
    pub commit_hash_length: usize,
    /// Whether to show the commit only while no branch is checked out.
    pub only_detached: bool,
    /// Whether to leave the tag out.
    pub tag_disabled: bool,
    /// What to show in front of the tag.
    pub tag_symbol: String,
}

/// What is known of the commit that is checked out.
#[derive(Debug)]
pub struct CommitFacts {
    /// Whether no branch is checked out.
    pub detached: bool,
    /// The commit id, if it could be found.
    pub hash: Option<String>,
    /// The tag of the commit, if it has one.
    pub tag: Option<String>,
}

/// What to show of a commit: the start of its id, and its tag behind a
/// symbol.
#[derive(Debug)]
pub struct CommitDescription {
    pub hash: Option<String>,
    pub tag: Option<String>,
}

/// A description as a value.
pub struct CommitDescriptionView {
    pub hash: Option<Seq<char>>,
    pub tag: Option<Seq<char>>,
}

impl View for CommitDescription {
    type V = CommitDescriptionView;

    open spec fn view(&self) -> CommitDescriptionView {
        CommitDescriptionView {
            hash: match self.hash {
                Some(hash) => Some(hash@),
                None => None,
            },
            tag: match self.tag {
                Some(tag) => Some(tag@),
                None => None,
            },
        }
    }
}

impl GitCommitConfig {
    /// Whether the settings are the usual ones: seven characters of the id,
    /// only while no branch is checked out, and no tag.
    pub open spec fn is_default(self) -> bool {
        &&& self.commit_hash_length == 7
        &&& self.only_detached
        &&& self.tag_disabled
        &&& self.tag_symbol@ == "\u{1F3F7} "@
    }
}

impl Default for GitCommitConfig {
    fn default() -> (config: GitCommitConfig)
        ensures
            config.is_default(),
    {
        GitCommitConfig {
            commit_hash_length: 7,
            only_detached: true,
            tag_disabled: true,
            tag_symbol: "\u{1F3F7} ".to_owned(),
        }
    }
}

/// The first `length` characters of `hash`; all of it where it has no more.
pub open spec fn shortened(hash: Seq<char>, length: usize) -> Seq<char> {
    if length < hash.len() {
        hash.take(length as int)
    } else {
        hash
    }
}

/// A tag as it is shown: a space, the symbol, the tag.
pub open spec fn tag_text(symbol: Seq<char>, tag: Seq<char>) -> Seq<char> {
    " "@ + symbol + tag
}

/// What to show of a commit under `config`. Nothing while a branch is
/// checked out and the commit is to be shown only without one. Else the start
/// of the commit id, if there is an id; and the tag, if there is one and tags
/// are not left out.
pub open spec fn description_of(
    detached: bool,
    hash: Option<Seq<char>>,
    tag: Option<Seq<char>>,
    config: GitCommitConfig,
) -> Option<CommitDescriptionView> {
    if config.only_detached && !detached {
        None
    } else {
        Some(
            CommitDescriptionView {
                hash: match hash {
                    Some(id) => Some(shortened(id, config.commit_hash_length)),
                    None => None,
                },
                tag: match tag {
                    Some(name) if !config.tag_disabled => Some(
                        tag_text(config.tag_symbol@, name),
                    ),
                    _ => None,
                },
            },
        )
    }
}

/// The first `length` characters of `hash`.
pub fn shorten(hash: &str, length: usize) -> (short: String)
    ensures
        short@ == shortened(hash@, length),
{
    let len: usize = hash.unicode_len();
    if length < len {
        hash.substring_char(0, length).to_owned()
    } else {
        hash.to_owned()
    }
}

/// What to show of the commit of the repository that the current directory
/// lies in: nothing where it lies in none, and else as `description_of` says.
pub fn module(repository: Option<&CommitFacts>, config: &GitCommitConfig) -> (description: Option<
    CommitDescription,
>)
    ensures
        match description {
            Some(shown) => repository matches Some(facts) && description_of(
                facts.detached,
                text_of(facts.hash),
                text_of(facts.tag),
                *config,
            ) == Some(shown@),
            None => repository matches Some(facts) ==> description_of(
                facts.detached,
                text_of(facts.hash),
                text_of(facts.tag),
                *config,
            ) is None,
        },
{
    let facts = match repository {
        Some(facts) => facts,
        None => {
            return None;
        },
    };
    if config.only_detached && !facts.detached {
        return None;
    }
    let hash = match &facts.hash {
        Some(id) => Some(shorten(id.as_str(), config.commit_hash_length)),
        None => None,
    };
    let tag = match &facts.tag {
        Some(name) => if !config.tag_disabled {
            let mut text = " ".to_owned();
            text.append(config.tag_symbol.as_str());
            text.append(name.as_str());
            Some(text)
        } else {
            None
        },
        None => None,
    };
    Some(CommitDescription { hash, tag })
}

} // verus!
