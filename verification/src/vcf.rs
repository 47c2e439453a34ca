//! Lines of a variant call file.

use vstd::prelude::*;
use vstd::string::StringExecFns;

use crate::text::decimal;
use crate::text::decimal_string;
use crate::text::to_chars;

verus! {

/// One physical line: its number, counted from 1, and its text without the
/// white space at its end.
#[derive(Debug, Hash)]
pub struct Content(pub usize, pub String);

impl View for Content {
    type V = (usize, Seq<char>);

    open spec fn view(&self) -> (usize, Seq<char>) {
        (self.0, self.1@)
    }
}

impl PartialEq for Content {
    /// Two lines are equal when their numbers and their texts are.
    fn eq(&self, other: &Self) -> (same: bool) {
        self.0 == other.0 && self.1 == other.1
    }
}

impl Eq for Content {

}

impl vstd::std_specs::cmp::PartialEqSpecImpl for Content {
    open spec fn obeys_eq_spec() -> bool {
        true
    }

    open spec fn eq_spec(&self, other: &Self) -> bool {
        self.0 == other.0 && self.1@ == other.1@
    }
}

impl Clone for Content {
    /// A line with the same number and text.
    fn clone(&self) -> (c: Self)
        ensures
            c == *self,
    {
        Content(self.0, self.1.clone())
    }
}

impl Content {
    /// The line as it is shown to a reader: `L`, the number, a colon and a
    /// blank, and the text.
    pub open spec fn shown(&self) -> Seq<char> {
        "L"@ + decimal(self.0 as nat) + ": "@ + self.1@
    }

    /// Whether this line stands before `other` in the file: lines are
    /// ordered by their numbers.
    pub fn precedes(&self, other: &Content) -> (before: bool)
        ensures
            before == (self.0 < other.0),
    {
        self.0 < other.0
    }

    /// The line as it is shown to a reader.
    pub fn to_string(&self) -> (shown: String)
        ensures
            shown@ == self.shown(),
    {
        let mut shown = String::from_str("L");
        shown.append(decimal_string(self.0).as_str());
        shown.append(": ");
        shown.append(self.1.as_str());
        shown
    }
}

/// The number and text of a line that may be absent.
pub open spec fn line_of(content: Option<Content>) -> Option<(usize, Seq<char>)> {
    match content {
        Some(c) => Some(c@),
        None => None,
    }
}

/// The numbers and texts of a run of lines.
pub open spec fn lines_of(contents: Seq<Content>) -> Seq<(usize, Seq<char>)> {
    Seq::new(contents.len(), |i: int| contents[i]@)
}

/// The three kinds of line.
#[derive(Debug, Copy, Clone, PartialEq, Eq, Structural)]
pub enum LineKind {
    /// A line of the preamble: it begins with `##`.
    MetaInformation,
    /// A line that names the columns: it begins with `#`, not with `##`.
    Header,
    /// Any other line: a data record.
    Record,
}

/// `text` begins with the marker `#`, as header and meta-information lines
/// do.
pub open spec fn is_marked(text: Seq<char>) -> bool {
    text.len() >= 1 && text[0] == '#'
}

/// The kind of a line with the text `text`.
pub open spec fn kind_of(text: Seq<char>) -> LineKind {
    if text.len() >= 2 && text[0] == '#' && text[1] == '#' {
        LineKind::MetaInformation
    } else if is_marked(text) {
        LineKind::Header
    } else {
        LineKind::Record
    }
}

/// Tells the kind of a line by the markers at its beginning.
pub fn classify(text: &str) -> (kind: LineKind)
    ensures
        kind == kind_of(text@),
{
    let chars = to_chars(text);
    if chars.len() >= 2 && chars[0] == '#' && chars[1] == '#' {
        LineKind::MetaInformation
    } else if chars.len() >= 1 && chars[0] == '#' {
        LineKind::Header
    } else {
        LineKind::Record
    }
}

/// Whether `text` begins with the marker `#`.
pub fn starts_with_marker(text: &str) -> (marked: bool)
    ensures
        marked == is_marked(text@),
{
    let chars = to_chars(text);
    chars.len() >= 1 && chars[0] == '#'
}

} // verus!
