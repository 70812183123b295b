//! The reference grammar, as mathematics.
//!
//! A reference is a bracket-delimited span on one line, in one of two
//! syntaxes (wiki `[[target]]` / `[[target|display]]`, or markdown
//! `[display](target)`), each either closed or still being typed.  The
//! functions here define, over a `Seq<char>`, exactly which span and which
//! capture groups a given line and cursor yield.  Free text inside a
//! reference is a run of "units": a plain character (not one of `[ ] ( )`)
//! optionally followed by a single square bracket.  Runs are matched
//! shortest-first; inside a unit the optional bracket is preferred, so the
//! stop between a plain character and a following bracket is tried only
//! after every longer stop.  The `*_search` functions below encode that
//! trial order directly.

use vstd::prelude::*;

verus! {

/// Which payload the reference carries: a file target with an optional
/// in-file part, or a free-text block search (a space then the text).
#[derive(Clone, Copy, PartialEq, Eq, Debug)]
pub enum QueryKind {
    Entity,
    Block,
}

/// How a candidate match must end: `]]` with an optional `|display` before
/// it, a single `)`, or the end of the (possibly truncated) input.
#[derive(Clone, Copy, PartialEq, Eq, Debug)]
pub enum TailKind {
    WikiClose,
    ParenClose,
    LineEnd,
}

/// The two reference syntaxes.
#[derive(Clone, Copy, PartialEq, Eq, Debug)]
pub enum Syntax {
    Wiki,
    Markdown,
}

/// A successfully matched tail: where the whole match ends, and the span of
/// a `|display` section if the tail carried one.
pub struct TailHit {
    pub end: int,
    pub display: Option<(int, int)>,
}

/// The span of an in-file part: a `#heading` or a `#^index` suffix.
/// Bounds are half-open `[a, b)` character offsets into the line.
pub enum Infile {
    Heading(int, int),
    Index(int, int),
}

/// A matched payload: end of the main captured run, the in-file span if
/// one was taken, the end of the whole match, and a display span if the
/// tail carried one.
pub struct Hit {
    pub q_end: int,
    pub infile: Option<Infile>,
    pub end: int,
    pub display: Option<(int, int)>,
}

/// A whole recognized reference: its span `[start, end)`, the span
/// `[q_start, q_end)` of the main captured text, the in-file span, and the
/// display span.
pub struct RefMatch {
    pub start: int,
    pub end: int,
    pub q_start: int,
    pub q_end: int,
    pub infile: Option<Infile>,
    pub display: Option<(int, int)>,
}

/// The outcome of the whole dispatch: the chosen match, whether it was a
/// closed reference, and which syntax matched.
pub struct Outcome {
    pub m: RefMatch,
    pub closed: bool,
    pub syn: Syntax,
}

/// A character that may stand inside reference text without ending it.
pub open spec fn is_plain(c: char) -> bool {
    c != '[' && c != ']' && c != '(' && c != ')'
}

/// A square bracket; one may follow a plain character inside a unit.
pub open spec fn is_sq(c: char) -> bool {
    c == '[' || c == ']'
}

/// The closing `]]` of a wiki reference stands at `d`.
pub open spec fn sq_close_at(s: Seq<char>, limit: int, d: int) -> bool {
    d + 1 < limit && s[d] == ']' && s[d + 1] == ']'
}

/// First stop of a display run, from `j`, at which `]]` follows.  Stops are
/// tried shortest-first, except that the stop between a plain character and
/// a bracket it could absorb comes after every stop beyond the bracket.
pub open spec fn display_search(s: Seq<char>, limit: int, j: int) -> Option<int>
    recommends
        0 <= j <= limit <= s.len(),
    decreases limit - j,
        when j <= limit
{
    if sq_close_at(s, limit, j) {
        Some(j)
    } else if j >= limit || !is_plain(s[j]) {
        None
    } else if j + 1 < limit && is_sq(s[j + 1]) {
        match display_search(s, limit, j + 2) {
            Some(d) => Some(d),
            None => if sq_close_at(s, limit, j + 1) {
                Some(j + 1)
            } else {
                None
            },
        }
    } else {
        display_search(s, limit, j + 1)
    }
}

/// Does the tail of a candidate match begin at `q`?  For `WikiClose` an
/// optional `|display` section is taken, greedily, before the `]]`.
pub open spec fn tail_hit(s: Seq<char>, limit: int, q: int, t: TailKind) -> Option<TailHit>
    recommends
        0 <= q <= limit <= s.len(),
{
    match t {
        TailKind::LineEnd => if q == limit {
            Some((TailHit { end: q, display: None }))
        } else {
            None
        },
        TailKind::ParenClose => if q < limit && s[q] == ')' {
            Some((TailHit { end: q + 1, display: None }))
        } else {
            None
        },
        TailKind::WikiClose => if q < limit && s[q] == '|' {
            match display_search(s, limit, q + 1) {
                Some(d) => Some((TailHit { end: d + 2, display: Some((q + 1, d)) })),
                None => None,
            }
        } else if sq_close_at(s, limit, q) {
            Some((TailHit { end: q + 2, display: None }))
        } else {
            None
        },
    }
}

/// A plain run stopping at `k`, immediately followed by the tail.
pub open spec fn run_cont(s: Seq<char>, limit: int, k: int, t: TailKind) -> Option<Hit> {
    match tail_hit(s, limit, k, t) {
        Some(th) => Some((Hit { q_end: k, infile: None, end: th.end, display: th.display })),
        None => None,
    }
}

/// First stop of a plain run from `j` whose tail matches, in trial order.
pub open spec fn run_search(s: Seq<char>, limit: int, j: int, t: TailKind) -> Option<Hit>
    recommends
        0 <= j <= limit <= s.len(),
    decreases limit - j,
        when j <= limit
{
    match run_cont(s, limit, j, t) {
        Some(h) => Some(h),
        None => if j >= limit || !is_plain(s[j]) {
            None
        } else if j + 1 < limit && is_sq(s[j + 1]) {
            match run_search(s, limit, j + 2, t) {
                Some(h) => Some(h),
                None => run_cont(s, limit, j + 1, t),
            }
        } else {
            run_search(s, limit, j + 1, t)
        },
    }
}

/// The `#heading` alternative: file text ends at `k`, the heading run
/// starts after the `#`.
pub open spec fn heading_hit(s: Seq<char>, limit: int, k: int, t: TailKind) -> Option<Hit> {
    match run_search(s, limit, k + 1, t) {
        Some(h) => Some(
            (Hit {
                q_end: k,
                infile: Some(Infile::Heading(k + 1, h.q_end)),
                end: h.end,
                display: h.display,
            }),
        ),
        None => None,
    }
}

/// The entity payload's continuation at file-text stop `k`: first try no
/// in-file part at all, then `#^index`, then `#heading`.
pub open spec fn entity_cont(s: Seq<char>, limit: int, k: int, t: TailKind) -> Option<Hit> {
    match tail_hit(s, limit, k, t) {
        Some(th) => Some((Hit { q_end: k, infile: None, end: th.end, display: th.display })),
        None => if k < limit && s[k] == '#' {
            if k + 1 < limit && s[k + 1] == '^' {
                match run_search(s, limit, k + 2, t) {
                    Some(h) => Some(
                        (Hit {
                            q_end: k,
                            infile: Some(Infile::Index(k + 2, h.q_end)),
                            end: h.end,
                            display: h.display,
                        }),
                    ),
                    None => heading_hit(s, limit, k, t),
                }
            } else {
                heading_hit(s, limit, k, t)
            }
        } else {
            None
        },
    }
}

/// First stop of the entity file-text run from `j` whose continuation
/// matches, in trial order.
pub open spec fn entity_search(s: Seq<char>, limit: int, j: int, t: TailKind) -> Option<Hit>
    recommends
        0 <= j <= limit <= s.len(),
    decreases limit - j,
        when j <= limit
{
    match entity_cont(s, limit, j, t) {
        Some(h) => Some(h),
        None => if j >= limit || !is_plain(s[j]) {
            None
        } else if j + 1 < limit && is_sq(s[j + 1]) {
            match entity_search(s, limit, j + 2, t) {
                Some(h) => Some(h),
                None => entity_cont(s, limit, j + 1, t),
            }
        } else {
            entity_search(s, limit, j + 1, t)
        },
    }
}

/// The payload of a reference, starting at `j` (just after `[[` or `](`).
/// A block payload demands a literal space before its text.
pub open spec fn payload_hit(s: Seq<char>, limit: int, j: int, kind: QueryKind, t: TailKind) -> Option<Hit>
    recommends
        0 <= j <= limit <= s.len(),
{
    match kind {
        QueryKind::Entity => entity_search(s, limit, j, t),
        QueryKind::Block => if j < limit && s[j] == ' ' {
            run_search(s, limit, j + 1, t)
        } else {
            None
        },
    }
}

/// Where the main captured text starts when the payload starts at `j`.
pub open spec fn q_start_of(kind: QueryKind, j: int) -> int {
    match kind {
        QueryKind::Entity => j,
        QueryKind::Block => j + 1,
    }
}

/// A wiki reference starting exactly at `p`: `[[` then the payload.
pub open spec fn wiki_hit(s: Seq<char>, limit: int, p: int, kind: QueryKind, t: TailKind) -> Option<RefMatch>
    recommends
        0 <= p <= limit <= s.len(),
{
    if p + 1 < limit && s[p] == '[' && s[p + 1] == '[' {
        match payload_hit(s, limit, p + 2, kind, t) {
            Some(h) => Some(
                (RefMatch {
                    start: p,
                    end: h.end,
                    q_start: q_start_of(kind, p + 2),
                    q_end: h.q_end,
                    infile: h.infile,
                    display: h.display,
                }),
            ),
            None => None,
        }
    } else {
        None
    }
}

/// The markdown display run stopping at `d`, where `](` must follow and
/// then the payload.
pub open spec fn md_cont(s: Seq<char>, limit: int, d: int, kind: QueryKind, t: TailKind) -> Option<(int, Hit)>
    recommends
        0 <= d <= limit <= s.len(),
{
    if d + 1 < limit && s[d] == ']' && s[d + 1] == '(' {
        match payload_hit(s, limit, d + 2, kind, t) {
            Some(h) => Some((d, h)),
            None => None,
        }
    } else {
        None
    }
}

/// First stop of the markdown display run from `j` whose continuation
/// matches, in trial order.
pub open spec fn md_search(s: Seq<char>, limit: int, j: int, kind: QueryKind, t: TailKind) -> Option<(int, Hit)>
    recommends
        0 <= j <= limit <= s.len(),
    decreases limit - j,
        when j <= limit
{
    match md_cont(s, limit, j, kind, t) {
        Some(r) => Some(r),
        None => if j >= limit || !is_plain(s[j]) {
            None
        } else if j + 1 < limit && is_sq(s[j + 1]) {
            match md_search(s, limit, j + 2, kind, t) {
                Some(r) => Some(r),
                None => md_cont(s, limit, j + 1, kind, t),
            }
        } else {
            md_search(s, limit, j + 1, kind, t)
        },
    }
}

/// A markdown reference starting exactly at `p`: `[display](` then the
/// payload.  The display span is always present.
pub open spec fn md_hit(s: Seq<char>, limit: int, p: int, kind: QueryKind, t: TailKind) -> Option<RefMatch>
    recommends
        0 <= p <= limit <= s.len(),
{
    if p < limit && s[p] == '[' {
        match md_search(s, limit, p + 1, kind, t) {
            Some((d, h)) => Some(
                (RefMatch {
                    start: p,
                    end: h.end,
                    q_start: q_start_of(kind, d + 2),
                    q_end: h.q_end,
                    infile: h.infile,
                    display: Some((p + 1, d)),
                }),
            ),
            None => None,
        }
    } else {
        None
    }
}

/// A reference of the given syntax starting exactly at `p`.
pub open spec fn hit_at(s: Seq<char>, limit: int, p: int, kind: QueryKind, syn: Syntax, t: TailKind) -> Option<RefMatch>
    recommends
        0 <= p <= limit <= s.len(),
{
    match syn {
        Syntax::Wiki => wiki_hit(s, limit, p, kind, t),
        Syntax::Markdown => md_hit(s, limit, p, kind, t),
    }
}

/// The leftmost reference starting at or after `from`.
pub open spec fn find_from(s: Seq<char>, limit: int, from: int, kind: QueryKind, syn: Syntax, t: TailKind) -> Option<RefMatch>
    recommends
        0 <= from <= limit <= s.len(),
    decreases limit - from,
        when from <= limit
{
    if from >= limit {
        None
    } else {
        match hit_at(s, limit, from, kind, syn, t) {
            Some(m) => Some(m),
            None => find_from(s, limit, from + 1, kind, syn, t),
        }
    }
}

/// The tail a closed reference of the given syntax ends with.
pub open spec fn closed_tail(syn: Syntax) -> TailKind {
    match syn {
        Syntax::Wiki => TailKind::WikiClose,
        Syntax::Markdown => TailKind::ParenClose,
    }
}

/// Walk the non-overlapping closed matches left to right and keep the first
/// whose span contains the cursor, inclusive of both ends.
pub open spec fn select_closed(s: Seq<char>, n: int, from: int, cursor: int, kind: QueryKind, syn: Syntax) -> Option<RefMatch>
    recommends
        0 <= from <= n == s.len(),
    decreases n - from,
        when from <= n
{
    match find_from(s, n, from, kind, syn, closed_tail(syn)) {
        Some(m) => if m.start <= cursor <= m.end {
            Some(m)
        } else if from < m.end <= n {
            select_closed(s, n, m.end, cursor, kind, syn)
        } else {
            None
        },
        None => None,
    }
}

/// The whole dispatch: wiki closed, then wiki unclosed on the line
/// truncated at the cursor, then markdown closed, then markdown unclosed.
/// The first grammar to produce a match decides the outcome.
pub open spec fn parse_at(s: Seq<char>, cursor: int, kind: QueryKind) -> Option<Outcome>
    recommends
        0 <= cursor <= s.len(),
{
    match select_closed(s, s.len() as int, 0, cursor, kind, Syntax::Wiki) {
        Some(m) => Some((Outcome { m: m, closed: true, syn: Syntax::Wiki })),
        None => match find_from(s, cursor, 0, kind, Syntax::Wiki, TailKind::LineEnd) {
            Some(m) => Some((Outcome { m: m, closed: false, syn: Syntax::Wiki })),
            None => match select_closed(s, s.len() as int, 0, cursor, kind, Syntax::Markdown) {
                Some(m) => Some((Outcome { m: m, closed: true, syn: Syntax::Markdown })),
                None => match find_from(s, cursor, 0, kind, Syntax::Markdown, TailKind::LineEnd) {
                    Some(m) => Some((Outcome { m: m, closed: false, syn: Syntax::Markdown })),
                    None => None,
                },
            },
        },
    }
}

/// Bounds a display span carried by a tail: it opens right after the stop
/// and the match ends right after its closing `]]`.
pub open spec fn display_wf(limit: int, q_end: int, end: int, d: Option<(int, int)>) -> bool {
    match d {
        Some((a, b)) => q_end < a && a <= b && b + 2 == end && b + 1 < limit,
        None => true,
    }
}

/// Bounds of a payload hit found from `j`.
pub open spec fn hit_wf(limit: int, j: int, t: TailKind, h: Hit) -> bool {
    &&& j <= h.q_end <= limit
    &&& h.q_end <= h.end <= limit
    &&& (t == TailKind::LineEnd ==> h.end == limit)
    &&& (match h.infile {
        Some(Infile::Heading(a, b)) => a == h.q_end + 1 && a <= b <= limit && b <= h.end,
        Some(Infile::Index(a, b)) => a == h.q_end + 2 && a <= b <= limit && b <= h.end,
        None => true,
    })
    &&& display_wf(limit, h.q_end, h.end, h.display)
}

/// Bounds of a whole reference match.
pub open spec fn match_wf(limit: int, m: RefMatch) -> bool {
    &&& 0 <= m.start
    &&& m.start + 2 <= m.q_start
    &&& m.q_start <= m.q_end <= limit
    &&& m.q_end <= m.end <= limit
    &&& m.start < m.end
    &&& (match m.infile {
        Some(Infile::Heading(a, b)) => m.q_end < a && a <= b <= limit && b <= m.end,
        Some(Infile::Index(a, b)) => m.q_end < a && a <= b <= limit && b <= m.end,
        None => true,
    })
    &&& (match m.display {
        Some((a, b)) => 0 <= a && a <= b <= limit,
        None => true,
    })
}

pub proof fn lemma_display_search_wf(s: Seq<char>, limit: int, j: int)
    requires
        0 <= j <= limit <= s.len(),
    ensures
        (match display_search(s, limit, j) {
            Some(d) => j <= d && d + 1 < limit && s[d] == ']' && s[d + 1] == ']',
            None => true,
        }),
    decreases limit - j,
{
    if sq_close_at(s, limit, j) {
    } else if j >= limit || !is_plain(s[j]) {
    } else if j + 1 < limit && is_sq(s[j + 1]) {
        lemma_display_search_wf(s, limit, j + 2);
    } else {
        lemma_display_search_wf(s, limit, j + 1);
    }
}

pub proof fn lemma_tail_wf(s: Seq<char>, limit: int, q: int, t: TailKind)
    requires
        0 <= q <= limit <= s.len(),
    ensures
        (match tail_hit(s, limit, q, t) {
            Some(th) => q <= th.end <= limit && (t == TailKind::LineEnd ==> th.end == limit)
                && display_wf(limit, q, th.end, th.display),
            None => true,
        }),
{
    if t == TailKind::WikiClose && q < limit && s[q] == '|' {
        lemma_display_search_wf(s, limit, q + 1);
    }
}

pub proof fn lemma_run_search_wf(s: Seq<char>, limit: int, j: int, t: TailKind)
    requires
        0 <= j <= limit <= s.len(),
    ensures
        (match run_search(s, limit, j, t) {
            Some(h) => hit_wf(limit, j, t, h) && h.infile is None,
            None => true,
        }),
    decreases limit - j,
{
    lemma_tail_wf(s, limit, j, t);
    if run_cont(s, limit, j, t) is Some {
    } else if j >= limit || !is_plain(s[j]) {
    } else if j + 1 < limit && is_sq(s[j + 1]) {
        lemma_run_search_wf(s, limit, j + 2, t);
        lemma_tail_wf(s, limit, j + 1, t);
    } else {
        lemma_run_search_wf(s, limit, j + 1, t);
    }
}

pub proof fn lemma_entity_cont_wf(s: Seq<char>, limit: int, k: int, t: TailKind)
    requires
        0 <= k <= limit <= s.len(),
    ensures
        (match entity_cont(s, limit, k, t) {
            Some(h) => hit_wf(limit, k, t, h) && h.q_end == k,
            None => true,
        }),
{
    lemma_tail_wf(s, limit, k, t);
    if tail_hit(s, limit, k, t) is None && k < limit && s[k] == '#' {
        if k + 1 < limit && s[k + 1] == '^' {
            lemma_run_search_wf(s, limit, k + 2, t);
        }
        lemma_run_search_wf(s, limit, k + 1, t);
    }
}

pub proof fn lemma_entity_search_wf(s: Seq<char>, limit: int, j: int, t: TailKind)
    requires
        0 <= j <= limit <= s.len(),
    ensures
        (match entity_search(s, limit, j, t) {
            Some(h) => hit_wf(limit, j, t, h),
            None => true,
        }),
    decreases limit - j,
{
    lemma_entity_cont_wf(s, limit, j, t);
    if entity_cont(s, limit, j, t) is Some {
    } else if j >= limit || !is_plain(s[j]) {
    } else if j + 1 < limit && is_sq(s[j + 1]) {
        lemma_entity_search_wf(s, limit, j + 2, t);
        lemma_entity_cont_wf(s, limit, j + 1, t);
    } else {
        lemma_entity_search_wf(s, limit, j + 1, t);
    }
}

pub proof fn lemma_payload_wf(s: Seq<char>, limit: int, j: int, kind: QueryKind, t: TailKind)
    requires
        0 <= j <= limit <= s.len(),
    ensures
        (match payload_hit(s, limit, j, kind, t) {
            Some(h) => j <= q_start_of(kind, j) && hit_wf(limit, q_start_of(kind, j), t, h),
            None => true,
        }),
{
    match kind {
        QueryKind::Entity => lemma_entity_search_wf(s, limit, j, t),
        QueryKind::Block => if j < limit && s[j] == ' ' {
            lemma_run_search_wf(s, limit, j + 1, t);
        },
    }
}

pub proof fn lemma_md_search_wf(s: Seq<char>, limit: int, j: int, kind: QueryKind, t: TailKind)
    requires
        0 <= j <= limit <= s.len(),
    ensures
        (match md_search(s, limit, j, kind, t) {
            Some((d, h)) => j <= d && d + 1 < limit && hit_wf(limit, q_start_of(kind, d + 2), t, h),
            None => true,
        }),
    decreases limit - j,
{
    if j + 1 < limit {
        lemma_payload_wf(s, limit, j + 2, kind, t);
    }
    if md_cont(s, limit, j, kind, t) is Some {
    } else if j >= limit || !is_plain(s[j]) {
    } else if j + 1 < limit && is_sq(s[j + 1]) {
        lemma_md_search_wf(s, limit, j + 2, kind, t);
        if j + 2 < limit {
            lemma_payload_wf(s, limit, j + 3, kind, t);
        }
    } else {
        lemma_md_search_wf(s, limit, j + 1, kind, t);
    }
}

pub proof fn lemma_hit_at_wf(s: Seq<char>, limit: int, p: int, kind: QueryKind, syn: Syntax, t: TailKind)
    requires
        0 <= p <= limit <= s.len(),
    ensures
        (match hit_at(s, limit, p, kind, syn, t) {
            Some(m) => m.start == p && match_wf(limit, m)
                && (t == TailKind::LineEnd ==> m.end == limit)
                && (syn == Syntax::Markdown ==> m.display is Some),
            None => true,
        }),
{
    match syn {
        Syntax::Wiki => {
            if p + 1 < limit && s[p] == '[' && s[p + 1] == '[' {
                lemma_payload_wf(s, limit, p + 2, kind, t);
            }
        },
        Syntax::Markdown => {
            if p < limit && s[p] == '[' {
                lemma_md_search_wf(s, limit, p + 1, kind, t);
            }
        },
    }
}

pub proof fn lemma_find_from_wf(s: Seq<char>, limit: int, from: int, kind: QueryKind, syn: Syntax, t: TailKind)
    requires
        0 <= from <= limit <= s.len(),
    ensures
        (match find_from(s, limit, from, kind, syn, t) {
            Some(m) => from <= m.start && match_wf(limit, m)
                && (t == TailKind::LineEnd ==> m.end == limit)
                && (syn == Syntax::Markdown ==> m.display is Some),
            None => true,
        }),
    decreases limit - from,
{
    if from >= limit {
    } else {
        lemma_hit_at_wf(s, limit, from, kind, syn, t);
        if hit_at(s, limit, from, kind, syn, t) is None {
            lemma_find_from_wf(s, limit, from + 1, kind, syn, t);
        }
    }
}

pub proof fn lemma_select_closed_wf(s: Seq<char>, n: int, from: int, cursor: int, kind: QueryKind, syn: Syntax)
    requires
        0 <= from <= n == s.len(),
    ensures
        (match select_closed(s, n, from, cursor, kind, syn) {
            Some(m) => from <= m.start && match_wf(n, m) && m.start <= cursor <= m.end
                && (syn == Syntax::Markdown ==> m.display is Some),
            None => true,
        }),
    decreases n - from,
{
    lemma_find_from_wf(s, n, from, kind, syn, closed_tail(syn));
    match find_from(s, n, from, kind, syn, closed_tail(syn)) {
        Some(m) => {
            if m.start <= cursor <= m.end {
            } else if from < m.end <= n {
                lemma_select_closed_wf(s, n, m.end, cursor, kind, syn);
            }
        },
        None => {},
    }
}

/// Every returned match is well formed, its span contains the cursor
/// inclusively on both ends, an unclosed match ends exactly at the cursor,
/// and a markdown match always carries a display span.
pub proof fn lemma_parse_at_wf(s: Seq<char>, cursor: int, kind: QueryKind)
    requires
        0 <= cursor <= s.len(),
    ensures
        (match parse_at(s, cursor, kind) {
            Some(o) => match_wf(s.len() as int, o.m) && o.m.start <= cursor <= o.m.end
                && (!o.closed ==> o.m.end == cursor)
                && (o.syn == Syntax::Markdown ==> o.m.display is Some),
            None => true,
        }),
{
    lemma_select_closed_wf(s, s.len() as int, 0, cursor, kind, Syntax::Wiki);
    lemma_find_from_wf(s, cursor, 0, kind, Syntax::Wiki, TailKind::LineEnd);
    lemma_select_closed_wf(s, s.len() as int, 0, cursor, kind, Syntax::Markdown);
    lemma_find_from_wf(s, cursor, 0, kind, Syntax::Markdown, TailKind::LineEnd);
}

/// LAW: whenever a result is returned, the recognized span contains the
/// cursor: `start <= cursor <= end`.
pub proof fn lemma_result_spans_cursor(s: Seq<char>, cursor: int, kind: QueryKind)
    requires
        0 <= cursor <= s.len(),
        parse_at(s, cursor, kind) is Some,
    ensures
        ({
            let o = parse_at(s, cursor, kind)->Some_0;
            o.m.start <= cursor <= o.m.end
        }),
{
    lemma_parse_at_wf(s, cursor, kind);
}

/// LAW: an unclosed match's span always ends exactly at the cursor offset,
/// never beyond it, whatever text follows on the line.
pub proof fn lemma_unclosed_span_ends_at_cursor(s: Seq<char>, cursor: int, kind: QueryKind)
    requires
        0 <= cursor <= s.len(),
        parse_at(s, cursor, kind) is Some,
        !parse_at(s, cursor, kind)->Some_0.closed,
    ensures
        parse_at(s, cursor, kind)->Some_0.m.end == cursor,
{
    lemma_parse_at_wf(s, cursor, kind);
}

/// LAW: priority of the grammars.  When no closed wiki reference contains
/// the cursor but an unclosed wiki reference is found before it, the
/// dispatch returns that unclosed wiki match and never falls through to a
/// markdown match.
pub proof fn lemma_wiki_unclosed_priority(s: Seq<char>, cursor: int, kind: QueryKind, m: RefMatch)
    requires
        0 <= cursor <= s.len(),
        select_closed(s, s.len() as int, 0, cursor, kind, Syntax::Wiki) is None,
        find_from(s, cursor, 0, kind, Syntax::Wiki, TailKind::LineEnd) == Some(m),
    ensures
        parse_at(s, cursor, kind) == Some((Outcome { m: m, closed: false, syn: Syntax::Wiki })),
{
}

/// LAW: a markdown match always carries its display span; the grammar
/// requires the display brackets before the opening parenthesis.
pub proof fn lemma_markdown_display_present(s: Seq<char>, cursor: int, kind: QueryKind)
    requires
        0 <= cursor <= s.len(),
        parse_at(s, cursor, kind) is Some,
        parse_at(s, cursor, kind)->Some_0.syn == Syntax::Markdown,
    ensures
        parse_at(s, cursor, kind)->Some_0.m.display is Some,
{
    lemma_parse_at_wf(s, cursor, kind);
}

} // verus!
