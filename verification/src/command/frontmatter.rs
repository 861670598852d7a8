//! Command files: a heading between lines of hyphens, and a body.
use vstd::prelude::*;

use crate::text;
use crate::text::{after_prefix, find_text, trim_start_text, trim_text};

verus! {

/// What the heading of a command file says.
#[derive(Debug, PartialEq, Eq)]
pub struct Frontmatter {
    pub name: Option<String>,
    pub description: Option<String>,
    pub argument_hint: Option<String>,
}

impl Default for Frontmatter {
    fn default() -> (result: Self)
        ensures
            result.name is None,
            result.description is None,
            result.argument_hint is None,
    {
        Frontmatter { name: None, description: None, argument_hint: None }
    }
}

/// A command file in parts: the text of its heading, if it has one, and its body.
#[derive(Debug, PartialEq, Eq)]
pub struct SplitContent {
    pub heading: Option<String>,
    pub body: String,
}

/// What stands behind the hyphens that open a heading.
pub open spec fn opened(content: Seq<char>) -> Option<Seq<char>> {
    let trimmed = text::trimmed_start(content);
    if "---"@.is_prefix_of(trimmed) {
        Some(trimmed.skip("---"@.len() as int))
    } else {
        None
    }
}

/// Where the line that closes the heading begins, behind the hyphens that open it.
pub open spec fn closed_at(content: Seq<char>) -> Option<int> {
    match opened(content) {
        Some(rest) => text::first_occurrence(rest, "\n---"@),
        None => None,
    }
}

/// The text of the heading: from the second character behind the opening hyphens on, up to and
/// with the line feed before the closing ones.
pub open spec fn heading_text(content: Seq<char>) -> Option<Seq<char>> {
    match closed_at(content) {
        Some(end) => Some(opened(content)->0.subrange(1, end + 1)),
        None => None,
    }
}

/// The body: what follows the closing hyphens, without the white space around it. A file without a
/// heading is all body, but for its leading white space.
pub open spec fn body_text(content: Seq<char>) -> Seq<char> {
    match closed_at(content) {
        Some(end) => text::trimmed(opened(content)->0.skip(end + 4)),
        None => text::trimmed_start(content),
    }
}

/// Behind the opening hyphens of a closed heading stands a character of one byte, so that the
/// heading can be cut behind it.
pub open spec fn heading_can_be_cut(content: Seq<char>) -> bool {
    closed_at(content) is Some ==> (opened(content)->0[0] as int) < 128
}

/// What the first occurrence of a text says of its place.
pub proof fn lemma_first_from(whole: Seq<char>, needle: Seq<char>, from: int)
    requires
        0 <= from,
    ensures
        text::first_from(whole, needle, from) matches Some(at) ==> from <= at && at + needle.len()
            <= whole.len() && text::occurs_at(whole, needle, at),
    decreases whole.len() - from,
{
    if from + needle.len() <= whole.len() && !text::occurs_at(whole, needle, from) && from
        < whole.len() {
        lemma_first_from(whole, needle, from + 1);
    }
}

/// Parts a command file into heading and body.
pub fn split_content(content: &str) -> (result: SplitContent)
    requires
        heading_can_be_cut(content@),
    ensures
        result.body@ == body_text(content@),
        match heading_text(content@) {
            Some(heading) => result.heading is Some && result.heading->0@ == heading,
            None => result.heading is None,
        },
{
    let trimmed = trim_start_text(content);
    let rest = match after_prefix(trimmed.as_str(), "---") {
        Some(rest) => rest,
        None => {
            return SplitContent { heading: None, body: trimmed };
        },
    };
    proof {
        assert("---"@.is_prefix_of(trimmed@)) by {
            assert(trimmed@.subrange(0, "---"@.len() as int) =~= "---"@);
        }
        assert(trimmed@.skip("---"@.len() as int) =~= rest@);
        lemma_first_from(rest@, "\n---"@, 0);
    }
    let end: usize = match find_text(rest.as_str(), "\n---") {
        Some(end) => end,
        None => {
            return SplitContent { heading: None, body: trimmed };
        },
    };
    proof {
        reveal_strlit("\n---");
        assert("\n---"@.len() == 4);
    }
    let length: usize = rest.as_str().unicode_len();
    let heading = rest.as_str().substring_char(1, end + 1).to_owned();
    let body = trim_text(rest.as_str().substring_char(end + 4, length));
    assert(rest@.subrange(end + 4, rest@.len() as int) =~= rest@.skip(end + 4));
    SplitContent { heading: Some(heading), body }
}

/// What a command file says of its command, and its body.
#[derive(Debug, PartialEq, Eq)]
pub struct ParsedContent {
    pub frontmatter: Frontmatter,
    pub body: String,
}

/// What a heading says that says nothing.
pub open spec fn says_nothing(heading: Frontmatter) -> bool {
    heading.name is None && heading.description is None && heading.argument_hint is None
}

/// Nothing is said by a file without a heading, nor by one whose heading cannot be read; otherwise
/// what was read holds.
pub open spec fn says(content: Seq<char>, read: Option<Frontmatter>, heading: Frontmatter) -> bool {
    match read {
        Some(read) if heading_text(content) is Some => heading == read,
        _ => says_nothing(heading),
    }
}

/// What a command file says. `read` is what its heading was read as, where it has one that can be
/// read.
pub fn parse_frontmatter(content: &str, read: Option<Frontmatter>) -> (result: ParsedContent)
    requires
        heading_can_be_cut(content@),
    ensures
        result.body@ == body_text(content@),
        says(content@, read, result.frontmatter),
{
    let split = split_content(content);
    let frontmatter = if split.heading.is_some() {
        match read {
            Some(read) => read,
            None => Frontmatter::default(),
        }
    } else {
        Frontmatter::default()
    };
    ParsedContent { frontmatter, body: split.body }
}

} // verus!
