//! The parser facade: resolves a location to its line of text through a
//! line-source collaborator, then runs the cursor-aware matcher on it.

use vstd::prelude::*;
use vstd::string::*;
use crate::grammar::{parse_at, QueryKind};
use crate::matcher::{entity_parts_ok, info_ok, MDLinkParser};
use crate::query::{BlockLinkCmdQuery, NamedRefCmdQuery, QueryMetadata};

verus! {

/// The cursor position a caller wants resolved: a document path, a
/// zero-indexed line number, and a character offset in that line.
#[derive(Debug, Clone)]
pub struct Location {
    pub path: String,
    pub line: u32,
    pub character: u32,
}

/// The line-source collaborator: yields the text of one line of one
/// document, without its line terminator, if the line exists.  Tests wire
/// an in-memory store; a real document store implements the same method.
pub trait LineSource {
    /// The line's text, as this source would hand it out.
    spec fn line_at(&self, path: Seq<char>, line: int) -> Option<Seq<char>>;

    /// Fetches the text of the given line, if it exists.
    fn select_line_text(&self, path: &str, line: u32) -> (r: Option<String>)
        ensures
            (match (r, self.line_at(path@, line as int)) {
                (Some(t), Some(l)) => t@ == l,
                (None, None) => true,
                _ => false,
            }),
    ;
}

/// Character-for-character equality of two string slices.
fn str_eq(a: &str, b: &str) -> (r: bool)
    ensures
        r == (a@ == b@),
{
    let na = a.unicode_len();
    let nb = b.unicode_len();
    if na != nb {
        return false;
    }
    let mut i: usize = 0;
    while i < na
        invariant
            i <= na,
            na == a@.len(),
            nb == b@.len(),
            na == nb,
            forall|k: int| 0 <= k < i ==> a@[k] == b@[k],
        decreases na - i,
    {
        if a.get_char(i) != b.get_char(i) {
            return false;
        }
        i = i + 1;
    }
    proof {
        assert(a@ =~= b@);
    }
    true
}

/// An in-memory line source holding the lines of a single document.
pub struct InMemorySource {
    pub path: String,
    pub lines: Vec<String>,
}

impl LineSource for InMemorySource {
    open spec fn line_at(&self, path: Seq<char>, line: int) -> Option<Seq<char>> {
        if path == self.path@ && 0 <= line < self.lines@.len() {
            Some(self.lines@[line]@)
        } else {
            None
        }
    }

    fn select_line_text(&self, path: &str, line: u32) -> (r: Option<String>) {
        if str_eq(path, self.path.as_str()) && (line as usize) < self.lines.len() {
            Some(self.lines[line as usize].clone())
        } else {
            None
        }
    }
}

/// The parser facade over a line source.
pub struct Parser<'a, S: LineSource> {
    memfs: &'a S,
}

impl<'a, S: LineSource> Parser<'a, S> {
    /// The line source this parser reads from.
    pub closed spec fn src(&self) -> &'a S {
        self.memfs
    }

    pub fn new(source: &'a S) -> (r: Parser<'a, S>)
        ensures
            r.src() == source,
    {
        Parser { memfs: source }
    }

    /// The text of the line the location points into, if it exists.
    pub fn line_string(&self, location: &Location) -> (r: Option<String>)
        ensures
            (match (r, self.src().line_at(location.path@, location.line as int)) {
                (Some(t), Some(l)) => t@ == l,
                (None, None) => true,
                _ => false,
            }),
    {
        self.memfs.select_line_text(location.path.as_str(), location.line)
    }

    /// Parses an entity reference query at the location's cursor.  Yields
    /// nothing when the line does not exist or no reference contains the
    /// cursor; otherwise the typed query and its metadata.
    pub fn parse_entity_query(&self, location: Location) -> (r: Option<
        (NamedRefCmdQuery, QueryMetadata),
    >)
        requires
            (match self.src().line_at(location.path@, location.line as int) {
                Some(l) => location.character <= l.len(),
                None => true,
            }),
        ensures
            (match self.src().line_at(location.path@, location.line as int) {
                None => r is None,
                Some(l) => (match (r, parse_at(l, location.character as int, QueryKind::Entity)) {
                    (None, None) => true,
                    (Some((q, md)), Some(o)) => entity_parts_ok(l, &q, o.m)
                        && md.char_range.start == o.m.start
                        && md.char_range.end == o.m.end
                        && info_ok(l, &md.query_syntax_info, o)
                        && md.line == location.line
                        && md.cursor == location.character
                        && md.path@ == location.path@,
                    _ => false,
                }),
            }),
            r matches Some((q, md)) ==> md.char_range.start <= location.character
                <= md.char_range.end,
    {
        let line = match self.memfs.select_line_text(location.path.as_str(), location.line) {
            Some(l) => l,
            None => {
                return None;
            },
        };
        let matcher = MDLinkParser::new(line.as_str(), location.character as usize);
        match matcher.parse_entity() {
            None => None,
            Some((q, range, info)) => {
                let md = QueryMetadata::new(location, range, info);
                Some((q, md))
            },
        }
    }

    /// Parses a block search query at the location's cursor, in the same
    /// way.
    pub fn parse_block_query(&self, location: Location) -> (r: Option<
        (BlockLinkCmdQuery, QueryMetadata),
    >)
        requires
            (match self.src().line_at(location.path@, location.line as int) {
                Some(l) => location.character <= l.len(),
                None => true,
            }),
        ensures
            (match self.src().line_at(location.path@, location.line as int) {
                None => r is None,
                Some(l) => (match (r, parse_at(l, location.character as int, QueryKind::Block)) {
                    (None, None) => true,
                    (Some((q, md)), Some(o)) => q.grep_string@ == l.subrange(o.m.q_start, o.m.q_end)
                        && md.char_range.start == o.m.start
                        && md.char_range.end == o.m.end
                        && info_ok(l, &md.query_syntax_info, o)
                        && md.line == location.line
                        && md.cursor == location.character
                        && md.path@ == location.path@,
                    _ => false,
                }),
            }),
            r matches Some((q, md)) ==> md.char_range.start <= location.character
                <= md.char_range.end,
    {
        let line = match self.memfs.select_line_text(location.path.as_str(), location.line) {
            Some(l) => l,
            None => {
                return None;
            },
        };
        let matcher = MDLinkParser::new(line.as_str(), location.character as usize);
        match matcher.parse_block() {
            None => None,
            Some((q, range, info)) => {
                let md = QueryMetadata::new(location, range, info);
                Some((q, md))
            },
        }
    }
}

} // verus!
