//! Detection of the branch that is checked out, from what was read of the
//! repository.

use crate::config_reader::text_of;
use vstd::prelude::*;
use vstd::string::{StrSliceExecFns, StringExecFns};

verus! {

/// What was read of a repository's head.
pub struct RepositoryHead {
    /// Whether the reference that the head resolves to is a local branch.
    /// False where the head is detached or could not be read.
    pub is_branch: bool,
    /// The short name of the reference that the head resolves to, where the
    /// head could be read. It is a branch name only where `is_branch` holds.
    pub shorthand: Option<String>,
    /// The raw text of the file `HEAD` in the repository's metadata
    /// directory, where that file could be read.
    pub head_file: Option<String>,
}

/// The texts that were read of a repository's head.
pub struct HeadTexts {
    pub is_branch: bool,
    pub shorthand: Option<Seq<char>>,
    pub head_file: Option<Seq<char>>,
}

impl View for RepositoryHead {
    type V = HeadTexts;

    open spec fn view(&self) -> HeadTexts {
        HeadTexts {
            is_branch: self.is_branch,
            shorthand: text_of(self.shorthand),
            head_file: text_of(self.head_file),
        }
    }
}

/// The texts of a repository's head, where one was found.
pub open spec fn head_texts(repository: Option<RepositoryHead>) -> Option<HeadTexts> {
    match repository {
        Some(head) => Some(head@),
        None => None,
    }
}

/// Whether `c` is white space: a character with the Unicode property
/// `White_Space`.
pub open spec fn is_white_space(c: char) -> bool {
    ||| '\u{9}' <= c <= '\u{d}'
    ||| c == ' '
    ||| c == '\u{85}'
    ||| c == '\u{a0}'
    ||| c == '\u{1680}'
    ||| '\u{2000}' <= c <= '\u{200a}'
    ||| c == '\u{2028}'
    ||| c == '\u{2029}'
    ||| c == '\u{202f}'
    ||| c == '\u{205f}'
    ||| c == '\u{3000}'
}

/// `text` without the white space at its end.
pub open spec fn trimmed_end(text: Seq<char>) -> Seq<char>
    decreases text.len(),
{
    if text.len() > 0 && is_white_space(text.last()) {
        trimmed_end(text.drop_last())
    } else {
        text
    }
}

/// What a head file starts with when the head is on a branch.
pub open spec fn branch_prefix() -> Seq<char> {
    "ref: refs/heads/"@
}

/// The branch that the text of a head file names: what follows the prefix
/// `ref: refs/heads/`, without the white space at its end. None where the
/// text does not start with that prefix.
pub open spec fn head_file_branch(content: Seq<char>) -> Option<Seq<char>> {
    if branch_prefix().is_prefix_of(content) {
        Some(trimmed_end(content.skip(branch_prefix().len() as int)))
    } else {
        None
    }
}

/// The branch that the head of a repository resolves to: its short name,
/// where the head is a branch and the name could be read.
pub open spec fn resolved_branch(head: HeadTexts) -> Option<Seq<char>> {
    if head.is_branch {
        head.shorthand
    } else {
        None
    }
}

/// The branch that is checked out: the branch that the head resolves to,
/// else the branch that the head file names. None where no repository was
/// found or neither gives a branch, as on a detached head.
pub open spec fn current_branch(repository: Option<HeadTexts>) -> Option<Seq<char>> {
    match repository {
        None => None,
        Some(head) => match resolved_branch(head) {
            Some(name) => Some(name),
            None => match head.head_file {
                Some(content) => head_file_branch(content),
                None => None,
            },
        },
    }
}

/// The number of characters of the prefix `ref: refs/heads/`.
const PREFIX_LENGTH: usize = 16;

fn white_space(c: char) -> (yes: bool)
    ensures
        yes == is_white_space(c),
{
    ('\u{9}' <= c && c <= '\u{d}') || c == ' ' || c == '\u{85}' || c == '\u{a0}'
        || c == '\u{1680}' || ('\u{2000}' <= c && c <= '\u{200a}') || c == '\u{2028}'
        || c == '\u{2029}' || c == '\u{202f}' || c == '\u{205f}' || c == '\u{3000}'
}

/// Reads the branch name out of the text of a head file.
pub fn branch_of_head_file(content: &str) -> (branch: Option<String>)
    ensures
        text_of(branch) == head_file_branch(content@),
{
    let prefix = "ref: refs/heads/";
    proof {
        reveal_strlit("ref: refs/heads/");
    }
    let length = content.unicode_len();
    if length < PREFIX_LENGTH {
        return None;
    }
    // `seen` counts the characters read; `end` is where the name ends if
    // nothing but white space follows.
    let mut seen: usize = 0;
    let mut end: usize = PREFIX_LENGTH;
    for c in it: content.chars()
        invariant
            length == content@.len(),
            PREFIX_LENGTH <= length,
            prefix@ == branch_prefix(),
            prefix@.len() == PREFIX_LENGTH,
            seen == it.index(),
            it.seq() == content@,
            seen <= length,
            seen <= PREFIX_LENGTH ==> end == PREFIX_LENGTH,
            seen <= PREFIX_LENGTH ==> content@.take(seen as int) == prefix@.take(seen as int),
            seen >= PREFIX_LENGTH ==> prefix@.is_prefix_of(content@),
            seen >= PREFIX_LENGTH ==> PREFIX_LENGTH <= end <= seen,
            seen >= PREFIX_LENGTH ==> content@.subrange(PREFIX_LENGTH as int, end as int)
                == trimmed_end(content@.subrange(PREFIX_LENGTH as int, seen as int)),
    {
        if seen < PREFIX_LENGTH {
            if c != prefix.get_char(seen) {
                return None;
            }
            assert(content@.take(seen + 1) == prefix@.take(seen + 1));
        } else {
            let ghost before = content@.subrange(PREFIX_LENGTH as int, seen as int);
            let ghost after = content@.subrange(PREFIX_LENGTH as int, seen + 1);
            assert(after.drop_last() == before);
            if !white_space(c) {
                end = seen + 1;
            }
        }
        seen = seen + 1;
    }
    assert(content@.subrange(PREFIX_LENGTH as int, length as int) == content@.skip(
        PREFIX_LENGTH as int,
    ));
    let name = content.substring_char(PREFIX_LENGTH, end);
    Some(String::from_str(name))
}

/// The name of the branch that is checked out, if what was read of the
/// repository gives one.
pub fn get_current_branch_name(repository: Option<RepositoryHead>) -> (branch: Option<String>)
    ensures
        text_of(branch) == current_branch(head_texts(repository)),
{
    match repository {
        Some(head) => {
            let resolved = if head.is_branch {
                head.shorthand
            } else {
                None
            };
            match resolved {
                Some(name) => Some(name),
                None => match head.head_file {
                    Some(content) => branch_of_head_file(content.as_str()),
                    None => None,
                },
            }
        },
        None => None,
    }
}

} // verus!
