//! The parser-combinator execution contract.
//!
//! Every production parser is a pure function from a cursor over the
//! pre-processed character stream to either a node plus the remaining
//! cursor, or a classified failure.  Failures come in exactly two kinds:
//! *soft* (non-consuming: "this alternative does not match here", the safe
//! backtrack signal) and *hard* ("an alternative started matching but the
//! input is malformed partway through", which must propagate past any
//! enclosing alternation).  The spec-level outcome [`Step`] and the
//! alternation combinator [`alt2`] pin this discipline; the lemmas below
//! state the backtracking and cut laws once for every alternation.

use vstd::prelude::*;
use crate::span::Locate;

verus! {

/// A cursor into the source: character position and line number.
#[derive(Debug, Clone, Copy, PartialEq, Eq, Structural)]
pub struct Cursor {
    pub pos: usize,
    pub line: u32,
}

/// A classified parse failure: its class and the position it reports.
/// A soft failure always reports the position the production started at;
/// a hard failure reports where the malformed input was found.
#[derive(Debug, Clone, Copy, PartialEq, Eq, Structural)]
pub struct ParseFail {
    pub hard: bool,
    pub offset: usize,
    pub line: u32,
}

/// The spec-level outcome of running one production at one position:
/// success consuming up to `end`, a soft miss, or a hard failure at `at`.
pub enum Step {
    Done { end: int },
    Miss,
    Halt { at: int },
}

/// Ordered alternation over outcomes: the first alternative that does not
/// miss decides; a miss lets the next alternative try from the same
/// position.
pub open spec fn alt2(a: Step, b: Step) -> Step {
    match a {
        Step::Miss => b,
        _ => a,
    }
}

/// The cut of sequencing: once a composite production has consumed input,
/// a soft miss of a later field becomes a hard failure at the position
/// where that field was attempted — it may no longer backtrack past the
/// enclosing alternation.  A failure that is already hard keeps its own
/// position: no failure is ever downgraded.
pub open spec fn cut_from(s: Step, at: int) -> Step {
    match s {
        Step::Miss => Step::Halt { at },
        _ => s,
    }
}

/// The outcome of an optional field: a soft miss of the sub-production
/// yields the absent case, consuming nothing; success and hard failure
/// pass through.
pub open spec fn opt_step(s: Step, pos: int) -> Step {
    match s {
        Step::Miss => Step::Done { end: pos },
        _ => s,
    }
}

/// The end position of a successful outcome (meaningful only for `Done`).
pub open spec fn step_end(s: Step) -> int {
    match s {
        Step::Done { end } => end,
        Step::Miss => 0,
        Step::Halt { at } => at,
    }
}

/// Backtracking law: when alternative A fails without consuming input (a
/// soft miss), the alternation behaves exactly as if only the remaining
/// alternatives had been tried from the same cursor.
pub proof fn lemma_alt_backtrack(b: Step)
    ensures
        alt2(Step::Miss, b) == b,
{
}

/// Cut law: when alternative A consumes input and then fails (a hard
/// failure), the alternation fails with that same hard failure, whatever
/// the remaining alternatives would have produced — they are never
/// attempted.
pub proof fn lemma_alt_cut(at: int, b: Step)
    ensures
        alt2((Step::Halt { at }), b) == (Step::Halt { at }),
{
}

/// Ordered choice: a successful first alternative decides the alternation,
/// whatever the remaining alternatives would have produced.
pub proof fn lemma_alt_first(end: int, b: Step)
    ensures
        alt2((Step::Done { end }), b) == (Step::Done { end }),
{
}

/// The source is small enough that every line number fits the span model.
pub open spec fn wf_src(src: Seq<char>) -> bool {
    src.len() < 0xffff_ffff
}

/// The line number at a position: one more than the newlines before it.
pub open spec fn line_at(src: Seq<char>, pos: int) -> int
    decreases pos,
{
    if pos <= 0 {
        1
    } else {
        line_at(src, pos - 1) + (if 0 <= pos - 1 < src.len() && src[pos - 1] == '\n' {
            1int
        } else {
            0int
        })
    }
}

pub proof fn lemma_line_at_le(src: Seq<char>, pos: int)
    requires
        pos >= 0,
    ensures
        1 <= line_at(src, pos) <= pos + 1,
    decreases pos,
{
    if pos > 0 {
        lemma_line_at_le(src, pos - 1);
    }
}

pub proof fn lemma_line_at_stable(src: Seq<char>, a: int, b: int)
    requires
        0 <= a <= b,
        forall|i: int| a <= i < b ==> (0 <= i < src.len() ==> src[i] != '\n'),
    ensures
        line_at(src, b) == line_at(src, a),
    decreases b - a,
{
    if b > a {
        lemma_line_at_stable(src, a, b - 1);
    }
}

/// A cursor is well-formed when it lies inside the source and its line
/// field agrees with the newlines before it.
pub open spec fn wf_cursor(c: Cursor, src: Seq<char>) -> bool {
    c.pos <= src.len() && c.line as int == line_at(src, c.pos as int)
}

/// The cursor standing at position `p`.
pub open spec fn cur_at(src: Seq<char>, p: int) -> Cursor {
    Cursor { pos: p as usize, line: line_at(src, p) as u32 }
}

/// The span of a lexeme of `n` characters matched at position `p`, with no
/// detached text: exactly what a successful terminal parse returns.
pub open spec fn tok(src: Seq<char>, p: int, n: int) -> Locate {
    Locate { offset: p as usize, line: line_at(src, p) as u32, len: n as usize, val: None }
}

/// The execution contract tying an executable parse result to its
/// spec-level outcome: success lands the cursor exactly at `end`, which
/// never moves backward and never leaves the source; a miss is a soft
/// failure reporting the entry position; a halt is a hard failure
/// reporting the malformed position.
pub open spec fn obeys<T>(
    r: Result<(Cursor, T), ParseFail>,
    src: Seq<char>,
    c: Cursor,
    s: Step,
) -> bool {
    match s {
        Step::Done { end } => r matches Ok(p) && p.0 == cur_at(src, end) && c.pos <= end
            <= src.len(),
        Step::Miss => r matches Err(f) && !f.hard && f.offset == c.pos && f.line == c.line,
        Step::Halt { at } => r matches Err(f) && f.hard && f.offset as int == at && f.line as int
            == line_at(src, at),
    }
}

/// Whitespace of the pre-processed stream.
pub open spec fn is_ws(ch: char) -> bool {
    ch == ' ' || ch == '\t' || ch == '\n' || ch == '\r'
}

/// Where the whitespace run starting at `pos` ends.
pub open spec fn ws_end(src: Seq<char>, pos: int) -> int
    decreases src.len() - pos,
{
    if 0 <= pos < src.len() && is_ws(src[pos]) {
        ws_end(src, pos + 1)
    } else {
        pos
    }
}

pub proof fn lemma_ws_end_bounds(src: Seq<char>, pos: int)
    requires
        0 <= pos <= src.len(),
    ensures
        pos <= ws_end(src, pos) <= src.len(),
    decreases src.len() - pos,
{
    if pos < src.len() && is_ws(src[pos]) {
        lemma_ws_end_bounds(src, pos + 1);
    }
}

/// A character that may continue an identifier or keyword.
pub open spec fn is_ident_char(ch: char) -> bool {
    (97 <= ch as u32 && ch as u32 <= 122) || (65 <= ch as u32 && ch as u32 <= 90) || (48
        <= ch as u32 && ch as u32 <= 57) || ch == '_' || ch == '$'
}

fn is_ws_at(src: &Vec<char>, i: usize) -> (b: bool)
    requires
        i < src@.len(),
    ensures
        b == is_ws(src@[i as int]),
{
    let ch = src[i];
    ch == ' ' || ch == '\t' || ch == '\n' || ch == '\r'
}

fn is_ident_char_at(src: &Vec<char>, i: usize) -> (b: bool)
    requires
        i < src@.len(),
    ensures
        b == is_ident_char(src@[i as int]),
{
    let u = src[i] as u32;
    (97 <= u && u <= 122) || (65 <= u && u <= 90) || (48 <= u && u <= 57) || src[i] == '_'
        || src[i] == '$'
}

/// Advances the cursor over whitespace, keeping the line count exact.
pub fn skip_ws(src: &Vec<char>, c: Cursor) -> (r: Cursor)
    requires
        wf_src(src@),
        wf_cursor(c, src@),
    ensures
        r == cur_at(src@, ws_end(src@, c.pos as int)),
        wf_cursor(r, src@),
        c.pos <= r.pos <= src@.len(),
{
    let mut pos = c.pos;
    let mut line = c.line;
    while pos < src.len() && is_ws_at(src, pos)
        invariant
            wf_src(src@),
            c.pos <= pos <= src@.len(),
            ws_end(src@, pos as int) == ws_end(src@, c.pos as int),
            line as int == line_at(src@, pos as int),
        decreases src@.len() - pos,
    {
        proof {
            lemma_line_at_le(src@, pos + 1);
        }
        if src[pos] == '\n' {
            line = line + 1;
        }
        pos = pos + 1;
    }
    proof {
        lemma_ws_end_bounds(src@, c.pos as int);
    }
    Cursor { pos, line }
}

/// A keyword matches at `p` when its characters stand there and no
/// identifier character follows them (the word-boundary rule that keeps
/// `int` from matching inside `integer`).
pub open spec fn kw_at(src: Seq<char>, p: int, kw: Seq<char>) -> bool {
    &&& 0 <= p
    &&& p + kw.len() <= src.len()
    &&& src.subrange(p, p + kw.len() as int) == kw
    &&& (p + kw.len() == src.len() || !is_ident_char(src[p + kw.len()]))
}

/// The outcome of a keyword terminal at `pos`: leading whitespace is
/// consumed, then the keyword must match with a word boundary.
pub open spec fn spec_keyword(src: Seq<char>, pos: int, kw: Seq<char>) -> Step {
    let p = ws_end(src, pos);
    if kw_at(src, p, kw) {
        Step::Done { end: p + kw.len() }
    } else {
        Step::Miss
    }
}

/// The keyword terminal parser.  On success the returned span bounds the
/// consumed lexeme exactly: its text is the keyword itself.
pub fn keyword(src: &Vec<char>, c: Cursor, kw: &str) -> (r: Result<(Cursor, Locate), ParseFail>)
    requires
        wf_src(src@),
        wf_cursor(c, src@),
        1 <= kw@.len(),
        forall|i: int| 0 <= i < kw@.len() ==> kw@[i] != '\n',
    ensures
        obeys(r, src@, c, spec_keyword(src@, c.pos as int, kw@)),
        r matches Ok(p) ==> p.1 == tok(src@, ws_end(src@, c.pos as int), kw@.len() as int)
            && p.1.text_of(src@) == kw@ && p.1.wf(src@) && wf_cursor(p.0, src@) && c.pos < p.0.pos,
{
    let cw = skip_ws(src, c);
    proof {
        lemma_ws_end_bounds(src@, c.pos as int);
        assert(cw.pos as int == ws_end(src@, c.pos as int));
    }
    let n = kw.unicode_len();
    let len = src.len();
    if n > len - cw.pos {
        proof {
            assert(!kw_at(src@, cw.pos as int, kw@));
        }
        return Err(ParseFail { hard: false, offset: c.pos, line: c.line });
    }
    let mut i: usize = 0;
    while i < n
        invariant
            i <= n,
            n == kw@.len(),
            1 <= kw@.len(),
            forall|k: int| 0 <= k < kw@.len() ==> kw@[k] != '\n',
            wf_src(src@),
            wf_cursor(c, src@),
            wf_cursor(cw, src@),
            cw == cur_at(src@, ws_end(src@, c.pos as int)),
            cw.pos + n <= src@.len(),
            forall|j: int| 0 <= j < i ==> src@[cw.pos + j] == kw@[j],
        decreases n - i,
    {
        if src[cw.pos + i] != kw.get_char(i) {
            proof {
                assert(!kw_at(src@, cw.pos as int, kw@)) by {
                    if src@.subrange(cw.pos as int, cw.pos + kw@.len() as int) == kw@ {
                        assert(src@.subrange(cw.pos as int, cw.pos + kw@.len() as int)[i as int]
                            == src@[cw.pos + i]);
                    }
                }
            }
            return Err(ParseFail { hard: false, offset: c.pos, line: c.line });
        }
        i = i + 1;
    }
    if cw.pos + n < len && is_ident_char_at(src, cw.pos + n) {
        proof {
            assert(!kw_at(src@, cw.pos as int, kw@));
        }
        return Err(ParseFail { hard: false, offset: c.pos, line: c.line });
    }
    proof {
        assert(src@.subrange(cw.pos as int, cw.pos + kw@.len() as int) =~= kw@);
        assert(kw_at(src@, cw.pos as int, kw@));
        assert forall|k: int| cw.pos <= k < cw.pos + n implies (0 <= k < src@.len() ==> src@[k]
            != '\n') by {
            assert(src@[k] == kw@[k - cw.pos]);
        }
        lemma_line_at_stable(src@, cw.pos as int, cw.pos + n as int);
        lemma_line_at_le(src@, cw.pos + n as int);
        assert(cur_at(src@, cw.pos + n as int) == (Cursor {
            pos: (cw.pos + n) as usize,
            line: cw.line,
        }));
        assert(Locate { offset: cw.pos, line: cw.line, len: n, val: None::<Vec<char>> }.text_of(
            src@,
        ) =~= kw@);
    }
    Ok(
        (
            Cursor { pos: cw.pos + n, line: cw.line },
            Locate { offset: cw.pos, line: cw.line, len: n, val: None },
        ),
    )
}

/// A punctuation symbol matches at `p` when its characters stand there;
/// unlike a keyword it needs no word boundary after it.
pub open spec fn sym_at(src: Seq<char>, p: int, sym: Seq<char>) -> bool {
    &&& 0 <= p
    &&& p + sym.len() <= src.len()
    &&& src.subrange(p, p + sym.len() as int) == sym
}

/// The outcome of a punctuation terminal at `pos`: leading whitespace is
/// consumed, then the symbol must match.
pub open spec fn spec_sym(src: Seq<char>, pos: int, sym: Seq<char>) -> Step {
    let p = ws_end(src, pos);
    if sym_at(src, p, sym) {
        Step::Done { end: p + sym.len() }
    } else {
        Step::Miss
    }
}

/// The punctuation terminal parser.  On success the returned span bounds
/// the consumed lexeme exactly: its text is the symbol itself.
pub fn symbol(src: &Vec<char>, c: Cursor, sym: &str) -> (r: Result<(Cursor, Locate), ParseFail>)
    requires
        wf_src(src@),
        wf_cursor(c, src@),
        1 <= sym@.len(),
        forall|i: int| 0 <= i < sym@.len() ==> sym@[i] != '\n',
    ensures
        obeys(r, src@, c, spec_sym(src@, c.pos as int, sym@)),
        r matches Ok(p) ==> p.1 == tok(src@, ws_end(src@, c.pos as int), sym@.len() as int)
            && p.1.text_of(src@) == sym@ && p.1.wf(src@) && wf_cursor(p.0, src@) && c.pos < p.0.pos,
{
    let cw = skip_ws(src, c);
    proof {
        lemma_ws_end_bounds(src@, c.pos as int);
        assert(cw.pos as int == ws_end(src@, c.pos as int));
    }
    let n = sym.unicode_len();
    let len = src.len();
    if n > len - cw.pos {
        proof {
            assert(!sym_at(src@, cw.pos as int, sym@));
        }
        return Err(ParseFail { hard: false, offset: c.pos, line: c.line });
    }
    let mut i: usize = 0;
    while i < n
        invariant
            i <= n,
            n == sym@.len(),
            1 <= sym@.len(),
            forall|k: int| 0 <= k < sym@.len() ==> sym@[k] != '\n',
            wf_src(src@),
            wf_cursor(c, src@),
            wf_cursor(cw, src@),
            cw == cur_at(src@, ws_end(src@, c.pos as int)),
            cw.pos + n <= src@.len(),
            forall|j: int| 0 <= j < i ==> src@[cw.pos + j] == sym@[j],
        decreases n - i,
    {
        if src[cw.pos + i] != sym.get_char(i) {
            proof {
                assert(!sym_at(src@, cw.pos as int, sym@)) by {
                    if src@.subrange(cw.pos as int, cw.pos + sym@.len() as int) == sym@ {
                        assert(src@.subrange(cw.pos as int, cw.pos + sym@.len() as int)[i as int]
                            == src@[cw.pos + i]);
                    }
                }
            }
            return Err(ParseFail { hard: false, offset: c.pos, line: c.line });
        }
        i = i + 1;
    }
    proof {
        assert(src@.subrange(cw.pos as int, cw.pos + sym@.len() as int) =~= sym@);
        assert(sym_at(src@, cw.pos as int, sym@));
        assert forall|k: int| cw.pos <= k < cw.pos + n implies (0 <= k < src@.len() ==> src@[k]
            != '\n') by {
            assert(src@[k] == sym@[k - cw.pos]);
        }
        lemma_line_at_stable(src@, cw.pos as int, cw.pos + n as int);
        lemma_line_at_le(src@, cw.pos + n as int);
        assert(cur_at(src@, cw.pos + n as int) == (Cursor {
            pos: (cw.pos + n) as usize,
            line: cw.line,
        }));
        assert(Locate { offset: cw.pos, line: cw.line, len: n, val: None::<Vec<char>> }.text_of(
            src@,
        ) =~= sym@);
    }
    Ok(
        (
            Cursor { pos: cw.pos + n, line: cw.line },
            Locate { offset: cw.pos, line: cw.line, len: n, val: None },
        ),
    )
}

/// A character that may open an identifier: a letter or an underscore.
pub open spec fn is_ident_start(ch: char) -> bool {
    (97 <= ch as u32 && ch as u32 <= 122) || (65 <= ch as u32 && ch as u32 <= 90) || ch == '_'
}

/// A decimal digit.
pub open spec fn is_digit(ch: char) -> bool {
    48 <= ch as u32 && ch as u32 <= 57
}

/// Where the identifier-character run starting at `p` ends.
pub open spec fn ident_end(src: Seq<char>, p: int) -> int
    decreases src.len() - p,
{
    if 0 <= p < src.len() && is_ident_char(src[p]) {
        ident_end(src, p + 1)
    } else {
        p
    }
}

pub proof fn lemma_ident_end_bounds(src: Seq<char>, p: int)
    requires
        0 <= p <= src.len(),
    ensures
        p <= ident_end(src, p) <= src.len(),
    decreases src.len() - p,
{
    if p < src.len() && is_ident_char(src[p]) {
        lemma_ident_end_bounds(src, p + 1);
    }
}

/// Where the digit run starting at `p` ends.
pub open spec fn digit_end(src: Seq<char>, p: int) -> int
    decreases src.len() - p,
{
    if 0 <= p < src.len() && is_digit(src[p]) {
        digit_end(src, p + 1)
    } else {
        p
    }
}

pub proof fn lemma_digit_end_bounds(src: Seq<char>, p: int)
    requires
        0 <= p <= src.len(),
    ensures
        p <= digit_end(src, p) <= src.len(),
    decreases src.len() - p,
{
    if p < src.len() && is_digit(src[p]) {
        lemma_digit_end_bounds(src, p + 1);
    }
}

/// The outcome of the identifier terminal at `pos`: after the whitespace,
/// a letter or underscore must stand, and the lexeme extends greedily over
/// every identifier character that follows.
pub open spec fn spec_ident(src: Seq<char>, pos: int) -> Step {
    let p = ws_end(src, pos);
    if p < src.len() && is_ident_start(src[p]) {
        Step::Done { end: ident_end(src, p) }
    } else {
        Step::Miss
    }
}

/// The span the identifier terminal returns on success.
pub open spec fn ident_tok(src: Seq<char>, pos: int) -> Locate {
    let p = ws_end(src, pos);
    tok(src, p, ident_end(src, p) - p)
}

/// The identifier terminal parser: a letter or underscore, then greedily
/// every following letter, digit, underscore or dollar sign.  On success
/// the returned span bounds the consumed lexeme exactly.
pub fn ident_token(src: &Vec<char>, c: Cursor) -> (r: Result<(Cursor, Locate), ParseFail>)
    requires
        wf_src(src@),
        wf_cursor(c, src@),
    ensures
        obeys(r, src@, c, spec_ident(src@, c.pos as int)),
        r matches Ok(p) ==> p.1 == ident_tok(src@, c.pos as int) && p.1.wf(src@) && wf_cursor(
            p.0,
            src@,
        ) && c.pos < p.0.pos,
{
    let cw = skip_ws(src, c);
    proof {
        lemma_ws_end_bounds(src@, c.pos as int);
    }
    if cw.pos >= src.len() {
        return Err(ParseFail { hard: false, offset: c.pos, line: c.line });
    }
    let ch = src[cw.pos];
    let u = ch as u32;
    if !((97 <= u && u <= 122) || (65 <= u && u <= 90) || ch == '_') {
        proof {
            assert(!is_ident_start(src@[cw.pos as int]));
        }
        return Err(ParseFail { hard: false, offset: c.pos, line: c.line });
    }
    let mut i: usize = cw.pos;
    while i < src.len() && is_ident_char_at(src, i)
        invariant
            wf_src(src@),
            cw.pos <= i <= src@.len(),
            ident_end(src@, i as int) == ident_end(src@, cw.pos as int),
            forall|k: int| cw.pos <= k < i ==> is_ident_char(src@[k]),
        decreases src@.len() - i,
    {
        i = i + 1;
    }
    proof {
        assert(ident_end(src@, i as int) == i);
        assert(is_ident_start(src@[cw.pos as int]));
        assert(is_ident_char(src@[cw.pos as int]));
        assert(i > cw.pos);
        assert forall|k: int| cw.pos <= k < i implies (0 <= k < src@.len() ==> src@[k] != '\n') by {
            assert(is_ident_char(src@[k]));
            assert('\n' as u32 == 10);
        }
        lemma_line_at_stable(src@, cw.pos as int, i as int);
        lemma_line_at_le(src@, i as int);
        assert(cur_at(src@, i as int) == (Cursor { pos: i, line: cw.line }));
        assert(tok(src@, cw.pos as int, i - cw.pos) == (Locate {
            offset: cw.pos,
            line: cw.line,
            len: (i - cw.pos) as usize,
            val: None::<Vec<char>>,
        }));
    }
    Ok(
        (
            Cursor { pos: i, line: cw.line },
            Locate { offset: cw.pos, line: cw.line, len: i - cw.pos, val: None },
        ),
    )
}

fn is_digit_at(src: &Vec<char>, i: usize) -> (b: bool)
    requires
        i < src@.len(),
    ensures
        b == is_digit(src@[i as int]),
{
    let u = src[i] as u32;
    48 <= u && u <= 57
}

/// The outcome of the integral-number terminal at `pos`: after the
/// whitespace, a digit must stand, and the lexeme extends greedily over
/// every digit that follows.
pub open spec fn spec_number(src: Seq<char>, pos: int) -> Step {
    let p = ws_end(src, pos);
    if p < src.len() && is_digit(src[p]) {
        Step::Done { end: digit_end(src, p) }
    } else {
        Step::Miss
    }
}

/// The span the integral-number terminal returns on success.
pub open spec fn number_tok(src: Seq<char>, pos: int) -> Locate {
    let p = ws_end(src, pos);
    tok(src, p, digit_end(src, p) - p)
}

/// The integral-number terminal parser: one digit, then greedily every
/// digit that follows.  On success the returned span bounds the consumed
/// lexeme exactly.
pub fn number_token(src: &Vec<char>, c: Cursor) -> (r: Result<(Cursor, Locate), ParseFail>)
    requires
        wf_src(src@),
        wf_cursor(c, src@),
    ensures
        obeys(r, src@, c, spec_number(src@, c.pos as int)),
        r matches Ok(p) ==> p.1 == number_tok(src@, c.pos as int) && p.1.wf(src@) && wf_cursor(
            p.0,
            src@,
        ) && c.pos < p.0.pos,
{
    let cw = skip_ws(src, c);
    proof {
        lemma_ws_end_bounds(src@, c.pos as int);
    }
    if cw.pos >= src.len() || !is_digit_at(src, cw.pos) {
        return Err(ParseFail { hard: false, offset: c.pos, line: c.line });
    }
    let mut i: usize = cw.pos;
    while i < src.len() && is_digit_at(src, i)
        invariant
            wf_src(src@),
            cw.pos <= i <= src@.len(),
            digit_end(src@, i as int) == digit_end(src@, cw.pos as int),
            forall|k: int| cw.pos <= k < i ==> is_digit(src@[k]),
        decreases src@.len() - i,
    {
        i = i + 1;
    }
    proof {
        assert(digit_end(src@, i as int) == i);
        assert(i > cw.pos);
        assert forall|k: int| cw.pos <= k < i implies (0 <= k < src@.len() ==> src@[k] != '\n') by {
            assert(is_digit(src@[k]));
            assert('\n' as u32 == 10);
        }
        lemma_line_at_stable(src@, cw.pos as int, i as int);
        lemma_line_at_le(src@, i as int);
        assert(cur_at(src@, i as int) == (Cursor { pos: i, line: cw.line }));
        assert(tok(src@, cw.pos as int, i - cw.pos) == (Locate {
            offset: cw.pos,
            line: cw.line,
            len: (i - cw.pos) as usize,
            val: None::<Vec<char>>,
        }));
    }
    Ok(
        (
            Cursor { pos: i, line: cw.line },
            Locate { offset: cw.pos, line: cw.line, len: i - cw.pos, val: None },
        ),
    )
}

} // verus!
