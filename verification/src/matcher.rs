//! The cursor-aware matcher: executable code for the grammar of
//! `crate::grammar`, proved to return exactly what the spec functions
//! there define, plus the public `MDLinkParser` entry point that turns a
//! raw match into typed query values.

use vstd::prelude::*;
use vstd::string::*;
use vstd::pervasive::unreached;
use crate::grammar::{
    closed_tail, display_search, entity_cont, entity_search, find_from, heading_hit, is_plain,
    is_sq, md_cont, md_search, parse_at, payload_hit, run_search, select_closed, sq_close_at,
    tail_hit, wiki_hit, Hit, Infile, Outcome, QueryKind, RefMatch, Syntax, TailHit, TailKind,
};
use crate::grammar::{lemma_display_search_wf, lemma_find_from_wf, lemma_parse_at_wf};
use crate::query::{
    BlockLinkCmdQuery, CharRange, EntityInfileQuery, NamedRefCmdQuery, QuerySyntaxInfo,
    QuerySyntaxTypeInfo,
};

verus! {

/// A matched tail, with `usize` offsets.
#[derive(Clone, Copy, Debug)]
pub(crate) struct RawTail {
    pub end: usize,
    pub display: Option<(usize, usize)>,
}

/// An in-file span, with `usize` offsets.
#[derive(Clone, Copy, Debug)]
pub(crate) enum RawInfile {
    Heading(usize, usize),
    Index(usize, usize),
}

/// A matched payload, with `usize` offsets.
#[derive(Clone, Copy, Debug)]
pub(crate) struct RawHit {
    pub q_end: usize,
    pub infile: Option<RawInfile>,
    pub end: usize,
    pub display: Option<(usize, usize)>,
}

/// A whole matched reference, with `usize` offsets.
#[derive(Clone, Copy, Debug)]
pub(crate) struct RawRef {
    pub start: usize,
    pub end: usize,
    pub q_start: usize,
    pub q_end: usize,
    pub infile: Option<RawInfile>,
    pub display: Option<(usize, usize)>,
}

pub(crate) open spec fn abs_span(d: Option<(usize, usize)>) -> Option<(int, int)> {
    match d {
        Some((a, b)) => Some((a as int, b as int)),
        None => None,
    }
}

pub(crate) open spec fn abs_pos(r: Option<usize>) -> Option<int> {
    match r {
        Some(a) => Some(a as int),
        None => None,
    }
}

pub(crate) open spec fn abs_tail(r: Option<RawTail>) -> Option<TailHit> {
    match r {
        Some(x) => Some((TailHit { end: x.end as int, display: abs_span(x.display) })),
        None => None,
    }
}

pub(crate) open spec fn abs_infile1(x: RawInfile) -> Infile {
    match x {
        RawInfile::Heading(a, b) => Infile::Heading(a as int, b as int),
        RawInfile::Index(a, b) => Infile::Index(a as int, b as int),
    }
}

pub(crate) open spec fn abs_infile(x: Option<RawInfile>) -> Option<Infile> {
    match x {
        Some(y) => Some(abs_infile1(y)),
        None => None,
    }
}

pub(crate) open spec fn abs_hit1(h: RawHit) -> Hit {
    Hit {
        q_end: h.q_end as int,
        infile: abs_infile(h.infile),
        end: h.end as int,
        display: abs_span(h.display),
    }
}

pub(crate) open spec fn abs_hit(h: Option<RawHit>) -> Option<Hit> {
    match h {
        Some(x) => Some(abs_hit1(x)),
        None => None,
    }
}

pub(crate) open spec fn abs_dhit(r: Option<(usize, RawHit)>) -> Option<(int, Hit)> {
    match r {
        Some((d, h)) => Some((d as int, abs_hit1(h))),
        None => None,
    }
}

pub(crate) open spec fn abs_ref1(m: RawRef) -> RefMatch {
    RefMatch {
        start: m.start as int,
        end: m.end as int,
        q_start: m.q_start as int,
        q_end: m.q_end as int,
        infile: abs_infile(m.infile),
        display: abs_span(m.display),
    }
}

pub(crate) open spec fn abs_ref(m: Option<RawRef>) -> Option<RefMatch> {
    match m {
        Some(x) => Some(abs_ref1(x)),
        None => None,
    }
}

pub(crate) open spec fn abs_out(r: Option<(RawRef, bool, Syntax)>) -> Option<Outcome> {
    match r {
        Some((m, c, sy)) => Some((Outcome { m: abs_ref1(m), closed: c, syn: sy })),
        None => None,
    }
}

/// The line's characters, in order.
fn to_chars(s: &str) -> (r: Vec<char>)
    ensures
        r@ == s@,
{
    let n = s.unicode_len();
    let mut v: Vec<char> = Vec::new();
    let mut i: usize = 0;
    while i < n
        invariant
            i <= n,
            n == s@.len(),
            v@ == s@.subrange(0, i as int),
        decreases n - i,
    {
        let c = s.get_char(i);
        v.push(c);
        proof {
            assert(v@ =~= s@.subrange(0, i as int + 1));
        }
        i = i + 1;
    }
    proof {
        assert(v@ =~= s@);
    }
    v
}

fn is_plain_x(c: char) -> (r: bool)
    ensures
        r == is_plain(c),
{
    c != '[' && c != ']' && c != '(' && c != ')'
}

fn is_sq_x(c: char) -> (r: bool)
    ensures
        r == is_sq(c),
{
    c == '[' || c == ']'
}

fn sq_close_at_x(s: &Vec<char>, limit: usize, d: usize) -> (r: bool)
    requires
        d <= limit <= s@.len(),
    ensures
        r == sq_close_at(s@, limit as int, d as int),
{
    d < limit && d + 1 < limit && s[d] == ']' && s[d + 1] == ']'
}

fn display_search_x(s: &Vec<char>, limit: usize, j: usize) -> (r: Option<usize>)
    requires
        j <= limit <= s@.len(),
    ensures
        abs_pos(r) == display_search(s@, limit as int, j as int),
    decreases limit - j,
{
    if sq_close_at_x(s, limit, j) {
        Some(j)
    } else if j >= limit {
        None
    } else if !is_plain_x(s[j]) {
        None
    } else if j + 1 < limit && is_sq_x(s[j + 1]) {
        match display_search_x(s, limit, j + 2) {
            Some(d) => Some(d),
            None => if sq_close_at_x(s, limit, j + 1) {
                Some(j + 1)
            } else {
                None
            },
        }
    } else {
        display_search_x(s, limit, j + 1)
    }
}

fn tail_x(s: &Vec<char>, limit: usize, q: usize, t: TailKind) -> (r: Option<RawTail>)
    requires
        q <= limit <= s@.len(),
    ensures
        abs_tail(r) == tail_hit(s@, limit as int, q as int, t),
{
    match t {
        TailKind::LineEnd => if q == limit {
            Some(RawTail { end: q, display: None })
        } else {
            None
        },
        TailKind::ParenClose => if q < limit && s[q] == ')' {
            Some(RawTail { end: q + 1, display: None })
        } else {
            None
        },
        TailKind::WikiClose => if q < limit && s[q] == '|' {
            match display_search_x(s, limit, q + 1) {
                Some(d) => {
                    proof {
                        lemma_display_search_wf(s@, limit as int, q as int + 1);
                    }
                    Some(RawTail { end: d + 2, display: Some((q + 1, d)) })
                },
                None => None,
            }
        } else if sq_close_at_x(s, limit, q) {
            Some(RawTail { end: q + 2, display: None })
        } else {
            None
        },
    }
}

/// A plain run stopping at `k` followed by the tail, as a payload hit.
fn run_cont_x(s: &Vec<char>, limit: usize, k: usize, t: TailKind) -> (r: Option<RawHit>)
    requires
        k <= limit <= s@.len(),
    ensures
        abs_hit(r) == crate::grammar::run_cont(s@, limit as int, k as int, t),
{
    match tail_x(s, limit, k, t) {
        Some(th) => Some(RawHit { q_end: k, infile: None, end: th.end, display: th.display }),
        None => None,
    }
}

fn run_search_x(s: &Vec<char>, limit: usize, j: usize, t: TailKind) -> (r: Option<RawHit>)
    requires
        j <= limit <= s@.len(),
    ensures
        abs_hit(r) == run_search(s@, limit as int, j as int, t),
    decreases limit - j,
{
    match run_cont_x(s, limit, j, t) {
        Some(h) => Some(h),
        None => if j >= limit {
            None
        } else if !is_plain_x(s[j]) {
            None
        } else if j + 1 < limit && is_sq_x(s[j + 1]) {
            match run_search_x(s, limit, j + 2, t) {
                Some(h) => Some(h),
                None => run_cont_x(s, limit, j + 1, t),
            }
        } else {
            run_search_x(s, limit, j + 1, t)
        },
    }
}

fn heading_x(s: &Vec<char>, limit: usize, k: usize, t: TailKind) -> (r: Option<RawHit>)
    requires
        k < limit <= s@.len(),
    ensures
        abs_hit(r) == heading_hit(s@, limit as int, k as int, t),
{
    match run_search_x(s, limit, k + 1, t) {
        Some(h) => Some(
            RawHit {
                q_end: k,
                infile: Some(RawInfile::Heading(k + 1, h.q_end)),
                end: h.end,
                display: h.display,
            },
        ),
        None => None,
    }
}

fn entity_cont_x(s: &Vec<char>, limit: usize, k: usize, t: TailKind) -> (r: Option<RawHit>)
    requires
        k <= limit <= s@.len(),
    ensures
        abs_hit(r) == entity_cont(s@, limit as int, k as int, t),
{
    match tail_x(s, limit, k, t) {
        Some(th) => Some(RawHit { q_end: k, infile: None, end: th.end, display: th.display }),
        None => if k < limit && s[k] == '#' {
            if k + 1 < limit && s[k + 1] == '^' {
                match run_search_x(s, limit, k + 2, t) {
                    Some(h) => Some(
                        RawHit {
                            q_end: k,
                            infile: Some(RawInfile::Index(k + 2, h.q_end)),
                            end: h.end,
                            display: h.display,
                        },
                    ),
                    None => heading_x(s, limit, k, t),
                }
            } else {
                heading_x(s, limit, k, t)
            }
        } else {
            None
        },
    }
}

fn entity_search_x(s: &Vec<char>, limit: usize, j: usize, t: TailKind) -> (r: Option<RawHit>)
    requires
        j <= limit <= s@.len(),
    ensures
        abs_hit(r) == entity_search(s@, limit as int, j as int, t),
    decreases limit - j,
{
    match entity_cont_x(s, limit, j, t) {
        Some(h) => Some(h),
        None => if j >= limit {
            None
        } else if !is_plain_x(s[j]) {
            None
        } else if j + 1 < limit && is_sq_x(s[j + 1]) {
            match entity_search_x(s, limit, j + 2, t) {
                Some(h) => Some(h),
                None => entity_cont_x(s, limit, j + 1, t),
            }
        } else {
            entity_search_x(s, limit, j + 1, t)
        },
    }
}

fn payload_x(s: &Vec<char>, limit: usize, j: usize, kind: QueryKind, t: TailKind) -> (r: Option<
    RawHit,
>)
    requires
        j <= limit <= s@.len(),
    ensures
        abs_hit(r) == payload_hit(s@, limit as int, j as int, kind, t),
{
    match kind {
        QueryKind::Entity => entity_search_x(s, limit, j, t),
        QueryKind::Block => if j < limit && s[j] == ' ' {
            run_search_x(s, limit, j + 1, t)
        } else {
            None
        },
    }
}

fn wiki_x(s: &Vec<char>, limit: usize, p: usize, kind: QueryKind, t: TailKind) -> (r: Option<
    RawRef,
>)
    requires
        p <= limit <= s@.len(),
    ensures
        abs_ref(r) == wiki_hit(s@, limit as int, p as int, kind, t),
{
    if p < limit && p + 1 < limit && s[p] == '[' && s[p + 1] == '[' {
        match payload_x(s, limit, p + 2, kind, t) {
            Some(h) => {
                let q_start: usize = match kind {
                    QueryKind::Entity => p + 2,
                    QueryKind::Block => {
                        proof {
                            assert(payload_hit(s@, limit as int, p as int + 2, kind, t) is Some);
                            assert(p + 2 < limit);
                        }
                        p + 3
                    },
                };
                Some(
                    RawRef {
                        start: p,
                        end: h.end,
                        q_start: q_start,
                        q_end: h.q_end,
                        infile: h.infile,
                        display: h.display,
                    },
                )
            },
            None => None,
        }
    } else {
        None
    }
}

fn md_cont_x(s: &Vec<char>, limit: usize, d: usize, kind: QueryKind, t: TailKind) -> (r: Option<
    (usize, RawHit),
>)
    requires
        d <= limit <= s@.len(),
    ensures
        abs_dhit(r) == md_cont(s@, limit as int, d as int, kind, t),
{
    if d < limit && d + 1 < limit && s[d] == ']' && s[d + 1] == '(' {
        match payload_x(s, limit, d + 2, kind, t) {
            Some(h) => Some((d, h)),
            None => None,
        }
    } else {
        None
    }
}

fn md_search_x(s: &Vec<char>, limit: usize, j: usize, kind: QueryKind, t: TailKind) -> (r: Option<
    (usize, RawHit),
>)
    requires
        j <= limit <= s@.len(),
    ensures
        abs_dhit(r) == md_search(s@, limit as int, j as int, kind, t),
    decreases limit - j,
{
    match md_cont_x(s, limit, j, kind, t) {
        Some(r0) => Some(r0),
        None => if j >= limit {
            None
        } else if !is_plain_x(s[j]) {
            None
        } else if j + 1 < limit && is_sq_x(s[j + 1]) {
            match md_search_x(s, limit, j + 2, kind, t) {
                Some(r0) => Some(r0),
                None => md_cont_x(s, limit, j + 1, kind, t),
            }
        } else {
            md_search_x(s, limit, j + 1, kind, t)
        },
    }
}

fn md_x(s: &Vec<char>, limit: usize, p: usize, kind: QueryKind, t: TailKind) -> (r: Option<RawRef>)
    requires
        p <= limit <= s@.len(),
    ensures
        abs_ref(r) == crate::grammar::md_hit(s@, limit as int, p as int, kind, t),
{
    if p < limit && s[p] == '[' {
        match md_search_x(s, limit, p + 1, kind, t) {
            Some((d, h)) => {
                proof {
                    crate::grammar::lemma_md_search_wf(s@, limit as int, p as int + 1, kind, t);
                }
                let q_start: usize = match kind {
                    QueryKind::Entity => d + 2,
                    QueryKind::Block => d + 3,
                };
                Some(
                    RawRef {
                        start: p,
                        end: h.end,
                        q_start: q_start,
                        q_end: h.q_end,
                        infile: h.infile,
                        display: Some((p + 1, d)),
                    },
                )
            },
            None => None,
        }
    } else {
        None
    }
}

fn find_from_x(s: &Vec<char>, limit: usize, from: usize, kind: QueryKind, syn: Syntax, t: TailKind) -> (r:
    Option<RawRef>)
    requires
        from <= limit <= s@.len(),
    ensures
        abs_ref(r) == find_from(s@, limit as int, from as int, kind, syn, t),
    decreases limit - from,
{
    if from >= limit {
        None
    } else {
        let m = match syn {
            Syntax::Wiki => wiki_x(s, limit, from, kind, t),
            Syntax::Markdown => md_x(s, limit, from, kind, t),
        };
        match m {
            Some(mm) => Some(mm),
            None => find_from_x(s, limit, from + 1, kind, syn, t),
        }
    }
}

fn select_closed_x(s: &Vec<char>, n: usize, from: usize, cursor: usize, kind: QueryKind, syn: Syntax) -> (r:
    Option<RawRef>)
    requires
        from <= n == s@.len(),
    ensures
        abs_ref(r) == select_closed(s@, n as int, from as int, cursor as int, kind, syn),
    decreases n - from,
{
    let t = match syn {
        Syntax::Wiki => TailKind::WikiClose,
        Syntax::Markdown => TailKind::ParenClose,
    };
    proof {
        assert(t == closed_tail(syn));
    }
    match find_from_x(s, n, from, kind, syn, t) {
        None => None,
        Some(m) => {
            proof {
                lemma_find_from_wf(s@, n as int, from as int, kind, syn, closed_tail(syn));
            }
            if m.start <= cursor && cursor <= m.end {
                Some(m)
            } else {
                select_closed_x(s, n, m.end, cursor, kind, syn)
            }
        },
    }
}

/// Runs the four grammars in priority order and returns the chosen raw
/// match, its closure state, and its syntax.
fn parse_exec(s: &Vec<char>, cursor: usize, kind: QueryKind) -> (r: Option<(RawRef, bool, Syntax)>)
    requires
        cursor <= s@.len(),
    ensures
        abs_out(r) == parse_at(s@, cursor as int, kind),
{
    let n = s.len();
    match select_closed_x(s, n, 0, cursor, kind, Syntax::Wiki) {
        Some(m) => Some((m, true, Syntax::Wiki)),
        None => match find_from_x(s, cursor, 0, kind, Syntax::Wiki, TailKind::LineEnd) {
            Some(m) => Some((m, false, Syntax::Wiki)),
            None => match select_closed_x(s, n, 0, cursor, kind, Syntax::Markdown) {
                Some(m) => Some((m, true, Syntax::Markdown)),
                None => match find_from_x(s, cursor, 0, kind, Syntax::Markdown, TailKind::LineEnd) {
                    Some(m) => Some((m, false, Syntax::Markdown)),
                    None => None,
                },
            },
        },
    }
}

/// One captured substring of the line, copied out as owned text.
fn take_sub(hay: &str, a: usize, b: usize) -> (r: String)
    requires
        a <= b <= hay@.len(),
    ensures
        r@ == hay@.subrange(a as int, b as int),
{
    hay.substring_char(a, b).to_owned()
}

/// Builds the syntax info of a match: wiki display is optional, markdown
/// display is always present.
fn build_info(hay: &str, m: RawRef, syn: Syntax) -> (info: QuerySyntaxInfo)
    requires
        (match m.display {
            Some((a, b)) => a <= b && b <= hay@.len(),
            None => true,
        }),
        syn == Syntax::Markdown ==> m.display is Some,
    ensures
        (match syn {
            Syntax::Wiki => (match (info.syntax_type_info, m.display) {
                (QuerySyntaxTypeInfo::Wiki { display: None }, None) => true,
                (QuerySyntaxTypeInfo::Wiki { display: Some(d) }, Some((a, b))) => d@ == hay@.subrange(
                    a as int,
                    b as int,
                ),
                _ => false,
            }),
            Syntax::Markdown => (match (info.syntax_type_info, m.display) {
                (QuerySyntaxTypeInfo::Markdown { display: d }, Some((a, b))) => d@ == hay@.subrange(
                    a as int,
                    b as int,
                ),
                _ => false,
            }),
        }),
{
    match syn {
        Syntax::Wiki => {
            let display = match m.display {
                Some((a, b)) => Some(take_sub(hay, a, b)),
                None => None,
            };
            QuerySyntaxInfo { syntax_type_info: QuerySyntaxTypeInfo::Wiki { display } }
        },
        Syntax::Markdown => match m.display {
            Some((a, b)) => QuerySyntaxInfo {
                syntax_type_info: QuerySyntaxTypeInfo::Markdown { display: take_sub(hay, a, b) },
            },
            None => unreached(),
        },
    }
}

/// Does the typed entity query hold exactly the captured substrings of the
/// match?
pub open spec fn entity_parts_ok(s: Seq<char>, q: &NamedRefCmdQuery, m: RefMatch) -> bool {
    &&& q.file_query@ == s.subrange(m.q_start, m.q_end)
    &&& (match (q.infile_query, m.infile) {
        (None, None) => true,
        (Some(EntityInfileQuery::Heading(h)), Some(Infile::Heading(a, b))) => h@ == s.subrange(a, b),
        (Some(EntityInfileQuery::Index(x)), Some(Infile::Index(a, b))) => x@ == s.subrange(a, b),
        _ => false,
    })
}

/// Does the syntax info hold exactly the display capture of the outcome?
pub open spec fn info_ok(s: Seq<char>, info: &QuerySyntaxInfo, o: Outcome) -> bool {
    match o.syn {
        Syntax::Wiki => (match (info.syntax_type_info, o.m.display) {
            (QuerySyntaxTypeInfo::Wiki { display: None }, None) => true,
            (QuerySyntaxTypeInfo::Wiki { display: Some(d) }, Some((a, b))) => d@ == s.subrange(a, b),
            _ => false,
        }),
        Syntax::Markdown => (match (info.syntax_type_info, o.m.display) {
            (QuerySyntaxTypeInfo::Markdown { display: d }, Some((a, b))) => d@ == s.subrange(a, b),
            _ => false,
        }),
    }
}

/// The returned range is the outcome's span.
pub open spec fn range_ok(r: CharRange, m: RefMatch) -> bool {
    r.start == m.start && r.end == m.end
}

/// The full contract of `parse_entity`: the result exists exactly when the
/// grammar dispatch yields an outcome, and then carries its captures.
pub open spec fn entity_result_ok(s: Seq<char>, cursor: int, r: Option<
    (NamedRefCmdQuery, CharRange, QuerySyntaxInfo),
>) -> bool {
    match (r, parse_at(s, cursor, QueryKind::Entity)) {
        (None, None) => true,
        (Some((q, range, info)), Some(o)) => entity_parts_ok(s, &q, o.m) && range_ok(range, o.m)
            && info_ok(s, &info, o),
        _ => false,
    }
}

/// The full contract of `parse_block`.
pub open spec fn block_result_ok(s: Seq<char>, cursor: int, r: Option<
    (BlockLinkCmdQuery, CharRange, QuerySyntaxInfo),
>) -> bool {
    match (r, parse_at(s, cursor, QueryKind::Block)) {
        (None, None) => true,
        (Some((q, range, info)), Some(o)) => q.grep_string@ == s.subrange(o.m.q_start, o.m.q_end)
            && range_ok(range, o.m) && info_ok(s, &info, o),
        _ => false,
    }
}

/// The cursor-aware matcher over one line of text.
pub struct MDLinkParser<'a> {
    hay: &'a str,
    character: usize,
}

impl<'a> MDLinkParser<'a> {
    /// The line under scrutiny.
    pub closed spec fn line(&self) -> Seq<char> {
        self.hay@
    }

    /// The cursor offset within the line.
    pub closed spec fn cursor(&self) -> int {
        self.character as int
    }

    pub fn new(string: &'a str, character: usize) -> (r: MDLinkParser<'a>)
        ensures
            r.line() == string@,
            r.cursor() == character as int,
    {
        MDLinkParser { hay: string, character }
    }

    /// Parses an entity reference query at the cursor, if one is there.
    pub fn parse_entity(&self) -> (r: Option<(NamedRefCmdQuery, CharRange, QuerySyntaxInfo)>)
        requires
            self.cursor() <= self.line().len(),
        ensures
            entity_result_ok(self.line(), self.cursor(), r),
            r matches Some((q, range, info)) ==> range.start <= self.cursor() <= range.end,
    {
        let chars = to_chars(self.hay);
        match parse_exec(&chars, self.character, QueryKind::Entity) {
            None => None,
            Some((m, _closed, syn)) => {
                proof {
                    lemma_parse_at_wf(self.line(), self.cursor(), QueryKind::Entity);
                }
                let file_query = take_sub(self.hay, m.q_start, m.q_end);
                let infile_query = match m.infile {
                    None => None,
                    Some(RawInfile::Heading(a, b)) => Some(
                        EntityInfileQuery::Heading(take_sub(self.hay, a, b)),
                    ),
                    Some(RawInfile::Index(a, b)) => Some(
                        EntityInfileQuery::Index(take_sub(self.hay, a, b)),
                    ),
                };
                let q = NamedRefCmdQuery { file_query, infile_query };
                let range = CharRange { start: m.start, end: m.end };
                let info = build_info(self.hay, m, syn);
                Some((q, range, info))
            },
        }
    }

    /// Parses a block search query at the cursor, if one is there.
    pub fn parse_block(&self) -> (r: Option<(BlockLinkCmdQuery, CharRange, QuerySyntaxInfo)>)
        requires
            self.cursor() <= self.line().len(),
        ensures
            block_result_ok(self.line(), self.cursor(), r),
            r matches Some((q, range, info)) ==> range.start <= self.cursor() <= range.end,
    {
        let chars = to_chars(self.hay);
        match parse_exec(&chars, self.character, QueryKind::Block) {
            None => None,
            Some((m, _closed, syn)) => {
                proof {
                    lemma_parse_at_wf(self.line(), self.cursor(), QueryKind::Block);
                }
                let grep = take_sub(self.hay, m.q_start, m.q_end);
                let q = BlockLinkCmdQuery { grep_string: grep };
                let range = CharRange { start: m.start, end: m.end };
                let info = build_info(self.hay, m, syn);
                Some((q, range, info))
            },
        }
    }
}

} // verus!
