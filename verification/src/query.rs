//! The typed query values and the metadata handed to a completion
//! component: captured texts, the recognized span, and the syntax used.

use vstd::prelude::*;
use vstd::string::*;
use crate::parser::Location;

verus! {

/// Half-open character span `[start, end)` of a reference within its line.
#[derive(Clone, Copy, PartialEq, Eq, Structural, Debug)]
pub struct CharRange {
    pub start: usize,
    pub end: usize,
}

/// In-file narrowing of an entity reference.  `Heading` excludes the `#`,
/// `Index` excludes the `#^`; either payload may be empty, which is
/// distinct from no `#` suffix at all.
#[derive(Debug, PartialEq)]
pub enum EntityInfileQuery {
    Heading(String),
    Index(String),
}

/// The typed query of an entity reference: the file target typed so far
/// and the optional in-file part.
#[derive(Debug, PartialEq)]
pub struct NamedRefCmdQuery {
    pub file_query: String,
    pub infile_query: Option<EntityInfileQuery>,
}

/// The combined search text of an entity query: `file`, `file#heading`,
/// or `file#^index`.
pub open spec fn entity_grep_seq(q: &NamedRefCmdQuery) -> Seq<char> {
    match q.infile_query {
        Some(EntityInfileQuery::Heading(h)) => q.file_query@ + seq!['#'] + h@,
        Some(EntityInfileQuery::Index(i)) => q.file_query@ + seq!['#', '^'] + i@,
        None => q.file_query@,
    }
}

impl NamedRefCmdQuery {
    /// The text to search for, joining the file part and the in-file part
    /// back together with their separators.
    pub fn grep_string(&self) -> (r: String)
        ensures
            r@ == entity_grep_seq(self),
    {
        proof {
            reveal_strlit("#");
            reveal_strlit("#^");
        }
        match &self.infile_query {
            Some(EntityInfileQuery::Heading(h)) => {
                let mut out = self.file_query.clone();
                out.append("#");
                out.append(h.as_str());
                proof {
                    assert(out@ =~= entity_grep_seq(self));
                }
                out
            },
            Some(EntityInfileQuery::Index(i)) => {
                let mut out = self.file_query.clone();
                out.append("#^");
                out.append(i.as_str());
                proof {
                    assert(out@ =~= entity_grep_seq(self));
                }
                out
            },
            None => self.file_query.clone(),
        }
    }
}

/// One unescaping pass: every `\` immediately followed by the bracket `b`
/// is replaced, together with the bracket, by `rep`; every other character
/// is kept.  Pairs are consumed left to right and never rescanned.
pub open spec fn strip_pairs(s: Seq<char>, b: char, rep: Seq<char>) -> Seq<char>
    decreases s.len(),
{
    if s.len() >= 2 && s[0] == '\\' && s[1] == b {
        rep + strip_pairs(s.skip(2), b, rep)
    } else if s.len() >= 1 {
        seq![s[0]] + strip_pairs(s.skip(1), b, rep)
    } else {
        Seq::<char>::empty()
    }
}

/// The search form of a raw block query: escaped brackets made literal,
/// `\[` then `\]` in turn.
pub open spec fn unescaped_grep(s: Seq<char>) -> Seq<char> {
    strip_pairs(strip_pairs(s, '[', seq!['[']), ']', seq![']'])
}

/// The display form of a raw block query: escape markers and their
/// brackets removed entirely, `\[` then `\]` in turn.
pub open spec fn display_grep(s: Seq<char>) -> Seq<char> {
    strip_pairs(strip_pairs(s, '[', Seq::<char>::empty()), ']', Seq::<char>::empty())
}

/// One unescaping pass over `s`, replacing each `\` + `b` pair by `rep`.
fn strip_pass(s: &str, b: char, rep: &str) -> (r: String)
    ensures
        r@ == strip_pairs(s@, b, rep@),
{
    let n = s.unicode_len();
    let mut out = String::new();
    let mut i: usize = 0;
    proof {
        assert(s@.skip(0) =~= s@);
        assert(out@ + strip_pairs(s@.skip(0), b, rep@) =~= strip_pairs(s@, b, rep@));
    }
    while i < n
        invariant
            i <= n,
            n == s@.len(),
            out@ + strip_pairs(s@.skip(i as int), b, rep@) == strip_pairs(s@, b, rep@),
        decreases n - i,
    {
        let c = s.get_char(i);
        proof {
            assert(s@.skip(i as int)[0] == s@[i as int]);
        }
        if c == '\\' && i + 1 < n && s.get_char(i + 1) == b {
            out.append(rep);
            proof {
                assert(s@.skip(i as int)[1] == s@[i as int + 1]);
                assert(s@.skip(i as int).skip(2) =~= s@.skip(i as int + 2));
                assert(strip_pairs(s@.skip(i as int), b, rep@) =~= rep@ + strip_pairs(
                    s@.skip(i as int + 2),
                    b,
                    rep@,
                ));
                assert(out@ + strip_pairs(s@.skip(i as int + 2), b, rep@) =~= strip_pairs(
                    s@,
                    b,
                    rep@,
                ));
            }
            i = i + 2;
        } else {
            let piece = s.substring_char(i, i + 1);
            out.append(piece);
            proof {
                if i as int + 1 < n {
                    assert(s@.skip(i as int)[1] == s@[i as int + 1]);
                }
                assert(piece@ =~= seq![s@[i as int]]);
                assert(s@.skip(i as int).skip(1) =~= s@.skip(i as int + 1));
                assert(strip_pairs(s@.skip(i as int), b, rep@) =~= seq![s@[i as int]]
                    + strip_pairs(s@.skip(i as int + 1), b, rep@));
                assert(out@ + strip_pairs(s@.skip(i as int + 1), b, rep@) =~= strip_pairs(
                    s@,
                    b,
                    rep@,
                ));
            }
            i = i + 1;
        }
    }
    proof {
        assert(s@.skip(n as int) =~= Seq::<char>::empty());
        assert(out@ =~= strip_pairs(s@, b, rep@));
    }
    out
}

/// The raw captured text of a block/anonymous search query.  The text may
/// still hold `\[` and `\]` escape sequences for literal brackets.
#[derive(Debug, PartialEq)]
pub struct BlockLinkCmdQuery {
    pub grep_string: String,
}

impl BlockLinkCmdQuery {
    /// The search form: every escaped bracket becomes the literal bracket.
    pub fn grep_string(&self) -> (r: String)
        ensures
            r@ == unescaped_grep(self.grep_string@),
    {
        proof {
            reveal_strlit("[");
            reveal_strlit("]");
            assert("["@ =~= seq!['[']);
            assert("]"@ =~= seq![']']);
        }
        let first = strip_pass(self.grep_string.as_str(), '[', "[");
        let second = strip_pass(first.as_str(), ']', "]");
        second
    }

    /// The display form: escape markers and their brackets are stripped
    /// out entirely.
    pub fn display_grep_string(&self) -> (r: String)
        ensures
            r@ == display_grep(self.grep_string@),
    {
        proof {
            reveal_strlit("");
            assert(""@ =~= Seq::<char>::empty());
        }
        let first = strip_pass(self.grep_string.as_str(), '[', "");
        let second = strip_pass(first.as_str(), ']', "");
        second
    }
}

/// Which syntax the reference was typed in, with its display text.  For
/// markdown the display is always present (possibly empty); for wiki it is
/// present exactly when a `|display` section was typed, and may be empty.
#[derive(Debug, PartialEq, Clone)]
pub enum QuerySyntaxTypeInfo {
    Markdown { display: String },
    Wiki { display: Option<String> },
}

/// Syntax information attached to a recognized reference.
#[derive(Debug, Clone)]
pub struct QuerySyntaxInfo {
    pub syntax_type_info: QuerySyntaxTypeInfo,
}

/// The display text of a reference, if one was typed.
pub open spec fn spec_display(info: &QuerySyntaxInfo) -> Option<Seq<char>> {
    match info.syntax_type_info {
        QuerySyntaxTypeInfo::Markdown { display } => Some(display@),
        QuerySyntaxTypeInfo::Wiki { display: Some(d) } => Some(d@),
        QuerySyntaxTypeInfo::Wiki { display: None } => None,
    }
}

impl QuerySyntaxInfo {
    /// The display text typed for the reference.  For markdown syntax the
    /// result is always present, possibly empty.
    pub fn display(&self) -> (r: Option<&str>)
        ensures
            (match r {
                Some(d) => spec_display(self) == Some(d@),
                None => spec_display(self) is None,
            }),
            self.syntax_type_info is Markdown ==> r is Some,
    {
        match &self.syntax_type_info {
            QuerySyntaxTypeInfo::Markdown { display } => Some(display.as_str()),
            QuerySyntaxTypeInfo::Wiki { display: Some(d) } => Some(d.as_str()),
            QuerySyntaxTypeInfo::Wiki { display: None } => None,
        }
    }
}

/// Everything a completion component needs besides the typed query: where
/// the reference stands and how it was typed.
#[derive(Debug, Clone)]
pub struct QueryMetadata {
    pub line: u32,
    pub char_range: CharRange,
    pub query_syntax_info: QuerySyntaxInfo,
    pub path: String,
    pub cursor: u32,
}

impl QueryMetadata {
    /// Packages the location, the recognized span and the syntax info.
    pub fn new(location: Location, char_range: CharRange, info: QuerySyntaxInfo) -> (r: QueryMetadata)
        ensures
            r.line == location.line,
            r.char_range == char_range,
            r.query_syntax_info == info,
            r.path@ == location.path@,
            r.cursor == location.character,
    {
        QueryMetadata {
            line: location.line,
            char_range: char_range,
            query_syntax_info: info,
            path: location.path,
            cursor: location.character,
        }
    }
}

} // verus!
