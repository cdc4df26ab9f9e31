//! Terminal-level node productions and the small composites they build:
//! identifiers, integral numbers, constant primaries and expressions,
//! constant ranges and packed dimensions.
//!
//! These are the first productions in which the sequencing cut becomes
//! executable: once `[` has been consumed, a malformed range or a missing
//! `]` is a hard failure that propagates past every enclosing alternation.
//! The packed-dimension repetition realizes the zero-or-more rule: it
//! applies its sub-parser greedily, stops at the first soft miss, never
//! fails softly itself, and never loops on a zero-width match.

use vstd::prelude::*;
use crate::combinator::{
    alt2, cut_from, ident_tok, number_tok, obeys, spec_ident, spec_number, spec_sym, step_end,
    symbol, ident_token, number_token, tok, wf_cursor, wf_src, ws_end, Cursor, ParseFail, Step,
};
use crate::nodes::{
    ConstantExpression, ConstantPrimary, ConstantRange, Expression, Identifier, IntegralNumber,
    PackedDimension, Symbol,
};

verus! {

/// The symbol node a punctuation or keyword terminal builds at `pos`.
pub open spec fn sym_val(src: Seq<char>, pos: int, sym: Seq<char>) -> Symbol {
    Symbol { nodes: (tok(src, ws_end(src, pos), sym.len() as int),) }
}

/// The node the identifier production builds on success.
pub open spec fn identifier_val(src: Seq<char>, pos: int) -> Identifier {
    Identifier { nodes: (ident_tok(src, pos),) }
}

/// Parses an identifier into its terminal node.
pub fn identifier(src: &Vec<char>, c: Cursor) -> (r: Result<(Cursor, Identifier), ParseFail>)
    requires
        wf_src(src@),
        wf_cursor(c, src@),
    ensures
        obeys(r, src@, c, spec_ident(src@, c.pos as int)),
        r matches Ok(p) ==> p.1 == identifier_val(src@, c.pos as int) && wf_cursor(p.0, src@)
            && c.pos < p.0.pos,
{
    match ident_token(src, c) {
        Ok(p) => Ok((p.0, Identifier { nodes: (p.1,) })),
        Err(f) => Err(f),
    }
}

/// The node the integral-number production builds on success.
pub open spec fn integral_number_val(src: Seq<char>, pos: int) -> IntegralNumber {
    IntegralNumber { nodes: (number_tok(src, pos),) }
}

/// Parses an integral number into its terminal node.
pub fn integral_number(src: &Vec<char>, c: Cursor) -> (r: Result<
    (Cursor, IntegralNumber),
    ParseFail,
>)
    requires
        wf_src(src@),
        wf_cursor(c, src@),
    ensures
        obeys(r, src@, c, spec_number(src@, c.pos as int)),
        r matches Ok(p) ==> p.1 == integral_number_val(src@, c.pos as int) && wf_cursor(p.0, src@)
            && c.pos < p.0.pos,
{
    match number_token(src, c) {
        Ok(p) => Ok((p.0, IntegralNumber { nodes: (p.1,) })),
        Err(f) => Err(f),
    }
}

/// The outcome of the constant-primary production: a number or an
/// identifier lexeme, tried in that declared order.
pub open spec fn spec_constant_primary(src: Seq<char>, pos: int) -> Step {
    alt2(spec_number(src, pos), spec_ident(src, pos))
}

/// The node the constant-primary production builds on success.
pub open spec fn constant_primary_val(src: Seq<char>, pos: int) -> ConstantPrimary {
    if spec_number(src, pos) is Done {
        ConstantPrimary { nodes: (number_tok(src, pos),) }
    } else {
        ConstantPrimary { nodes: (ident_tok(src, pos),) }
    }
}

/// Parses a constant primary: a number, or else an identifier.
pub fn constant_primary(src: &Vec<char>, c: Cursor) -> (r: Result<
    (Cursor, ConstantPrimary),
    ParseFail,
>)
    requires
        wf_src(src@),
        wf_cursor(c, src@),
    ensures
        obeys(r, src@, c, spec_constant_primary(src@, c.pos as int)),
        r matches Ok(p) ==> p.1 == constant_primary_val(src@, c.pos as int) && wf_cursor(p.0, src@)
            && c.pos < p.0.pos,
{
    match number_token(src, c) {
        Ok(p) => { return Ok((p.0, ConstantPrimary { nodes: (p.1,) })); },
        Err(f) => {
            if f.hard {
                return Err(f);
            }
        },
    }
    match ident_token(src, c) {
        Ok(p) => { return Ok((p.0, ConstantPrimary { nodes: (p.1,) })); },
        Err(f) => {
            if f.hard {
                return Err(f);
            }
        },
    }
    Err(ParseFail { hard: false, offset: c.pos, line: c.line })
}

/// The outcome of the constant-expression production; in this family a
/// constant expression is a single constant primary.
pub open spec fn spec_constant_expression(src: Seq<char>, pos: int) -> Step {
    spec_constant_primary(src, pos)
}

/// The node the constant-expression production builds on success.
pub open spec fn constant_expression_val(src: Seq<char>, pos: int) -> ConstantExpression {
    ConstantExpression { nodes: (constant_primary_val(src, pos),) }
}

/// Parses a constant expression.
pub fn constant_expression(src: &Vec<char>, c: Cursor) -> (r: Result<
    (Cursor, ConstantExpression),
    ParseFail,
>)
    requires
        wf_src(src@),
        wf_cursor(c, src@),
    ensures
        obeys(r, src@, c, spec_constant_expression(src@, c.pos as int)),
        r matches Ok(p) ==> p.1 == constant_expression_val(src@, c.pos as int) && wf_cursor(
            p.0,
            src@,
        ) && c.pos < p.0.pos,
{
    match constant_primary(src, c) {
        Ok(p) => Ok((p.0, ConstantExpression { nodes: (p.1,) })),
        Err(f) => Err(f),
    }
}

/// The outcome of the expression production; in this family an expression
/// is a single constant primary.
pub open spec fn spec_expression(src: Seq<char>, pos: int) -> Step {
    spec_constant_primary(src, pos)
}

/// The node the expression production builds on success.
pub open spec fn expression_val(src: Seq<char>, pos: int) -> Expression {
    Expression { nodes: (constant_primary_val(src, pos),) }
}

/// Parses an expression.
pub fn expression(src: &Vec<char>, c: Cursor) -> (r: Result<(Cursor, Expression), ParseFail>)
    requires
        wf_src(src@),
        wf_cursor(c, src@),
    ensures
        obeys(r, src@, c, spec_expression(src@, c.pos as int)),
        r matches Ok(p) ==> p.1 == expression_val(src@, c.pos as int) && wf_cursor(p.0, src@)
            && c.pos < p.0.pos,
{
    match constant_primary(src, c) {
        Ok(p) => Ok((p.0, Expression { nodes: (p.1,) })),
        Err(f) => Err(f),
    }
}

/// The outcome of the constant-range production `msb : lsb`.  A miss of
/// the leading expression is a soft miss of the whole production; once it
/// has consumed input, a missing `:` or second bound is a hard failure at
/// the position where that field was attempted.
pub open spec fn spec_constant_range(src: Seq<char>, pos: int) -> Step {
    match spec_constant_expression(src, pos) {
        Step::Done { end: e1 } => match cut_from(spec_sym(src, e1, ":"@), e1) {
            Step::Done { end: e2 } => cut_from(spec_constant_expression(src, e2), e2),
            s => s,
        },
        s => s,
    }
}

/// The node the constant-range production builds on success.
pub open spec fn constant_range_val(src: Seq<char>, pos: int) -> ConstantRange {
    let e1 = step_end(spec_constant_expression(src, pos));
    let e2 = step_end(spec_sym(src, e1, ":"@));
    ConstantRange {
        nodes: (constant_expression_val(src, pos), sym_val(src, e1, ":"@), constant_expression_val(
            src,
            e2,
        )),
    }
}

/// Parses `msb : lsb`.
pub fn constant_range(src: &Vec<char>, c: Cursor) -> (r: Result<(Cursor, ConstantRange), ParseFail>)
    requires
        wf_src(src@),
        wf_cursor(c, src@),
    ensures
        obeys(r, src@, c, spec_constant_range(src@, c.pos as int)),
        r matches Ok(p) ==> p.1 == constant_range_val(src@, c.pos as int) && wf_cursor(p.0, src@)
            && c.pos < p.0.pos,
{
    proof {
        reveal_strlit(":");
    }
    let a = match constant_expression(src, c) {
        Ok(p) => p,
        Err(f) => { return Err(f); },
    };
    let colon = match symbol(src, a.0, ":") {
        Ok(p) => p,
        Err(f) => {
            if f.hard {
                return Err(f);
            }
            return Err(ParseFail { hard: true, offset: a.0.pos, line: a.0.line });
        },
    };
    let b = match constant_expression(src, colon.0) {
        Ok(p) => p,
        Err(f) => {
            if f.hard {
                return Err(f);
            }
            return Err(ParseFail { hard: true, offset: colon.0.pos, line: colon.0.line });
        },
    };
    Ok((b.0, ConstantRange { nodes: (a.1, Symbol { nodes: (colon.1,) }, b.1) }))
}

/// The outcome of the packed-dimension production `[ msb : lsb ]`.  A miss
/// of `[` is soft; after it, every failure is hard.
pub open spec fn spec_packed_dimension(src: Seq<char>, pos: int) -> Step {
    match spec_sym(src, pos, "["@) {
        Step::Done { end: e1 } => match cut_from(spec_constant_range(src, e1), e1) {
            Step::Done { end: e2 } => cut_from(spec_sym(src, e2, "]"@), e2),
            s => s,
        },
        s => s,
    }
}

/// The node the packed-dimension production builds on success.
pub open spec fn packed_dimension_val(src: Seq<char>, pos: int) -> PackedDimension {
    let e1 = step_end(spec_sym(src, pos, "["@));
    let e2 = step_end(spec_constant_range(src, e1));
    PackedDimension {
        nodes: (sym_val(src, pos, "["@), constant_range_val(src, e1), sym_val(src, e2, "]"@)),
    }
}

/// Parses `[ msb : lsb ]`.
pub fn packed_dimension(src: &Vec<char>, c: Cursor) -> (r: Result<
    (Cursor, PackedDimension),
    ParseFail,
>)
    requires
        wf_src(src@),
        wf_cursor(c, src@),
    ensures
        obeys(r, src@, c, spec_packed_dimension(src@, c.pos as int)),
        r matches Ok(p) ==> p.1 == packed_dimension_val(src@, c.pos as int) && wf_cursor(p.0, src@)
            && c.pos < p.0.pos,
{
    proof {
        reveal_strlit("[");
        reveal_strlit("]");
    }
    let open = match symbol(src, c, "[") {
        Ok(p) => p,
        Err(f) => { return Err(f); },
    };
    let range = match constant_range(src, open.0) {
        Ok(p) => p,
        Err(f) => {
            if f.hard {
                return Err(f);
            }
            return Err(ParseFail { hard: true, offset: open.0.pos, line: open.0.line });
        },
    };
    let close = match symbol(src, range.0, "]") {
        Ok(p) => p,
        Err(f) => {
            if f.hard {
                return Err(f);
            }
            return Err(ParseFail { hard: true, offset: range.0.pos, line: range.0.line });
        },
    };
    Ok(
        (
            close.0,
            PackedDimension {
                nodes: (Symbol { nodes: (open.1,) }, range.1, Symbol { nodes: (close.1,) }),
            },
        ),
    )
}

/// The outcome of the packed-dimension repetition: greedily as many
/// dimensions as match.  It never misses — zero matches succeed consuming
/// nothing — and it stops rather than loop when a match is zero-width; a
/// hard failure inside a dimension propagates.
pub open spec fn spec_packed_dimensions(src: Seq<char>, pos: int) -> Step
    decreases src.len() - pos,
{
    match spec_packed_dimension(src, pos) {
        Step::Miss => Step::Done { end: pos },
        Step::Halt { at } => Step::Halt { at },
        Step::Done { end } => if pos < end <= src.len() {
            spec_packed_dimensions(src, end)
        } else {
            Step::Done { end: pos }
        },
    }
}

/// The nodes the packed-dimension repetition builds: one per match, in
/// source order.
pub open spec fn packed_dimensions_val(src: Seq<char>, pos: int) -> Seq<PackedDimension>
    decreases src.len() - pos,
{
    match spec_packed_dimension(src, pos) {
        Step::Done { end } => if pos < end <= src.len() {
            seq![packed_dimension_val(src, pos)] + packed_dimensions_val(src, end)
        } else {
            Seq::empty()
        },
        _ => Seq::empty(),
    }
}

/// Parses zero or more packed dimensions, greedily.  Termination: every
/// dimension consumes at least one character, so the match count is the
/// maximal greedy one and the loop is finite.
pub fn packed_dimensions(src: &Vec<char>, c: Cursor) -> (r: Result<
    (Cursor, Vec<PackedDimension>),
    ParseFail,
>)
    requires
        wf_src(src@),
        wf_cursor(c, src@),
    ensures
        obeys(r, src@, c, spec_packed_dimensions(src@, c.pos as int)),
        r matches Ok(p) ==> p.1@ == packed_dimensions_val(src@, c.pos as int) && wf_cursor(
            p.0,
            src@,
        ) && c.pos <= p.0.pos,
        r matches Err(f) ==> f.hard,
{
    let mut cur = c;
    let mut v: Vec<PackedDimension> = Vec::new();
    loop
        invariant
            wf_src(src@),
            wf_cursor(cur, src@),
            c.pos <= cur.pos,
            spec_packed_dimensions(src@, c.pos as int) == spec_packed_dimensions(
                src@,
                cur.pos as int,
            ),
            packed_dimensions_val(src@, c.pos as int) =~= v@ + packed_dimensions_val(
                src@,
                cur.pos as int,
            ),
        decreases src@.len() - cur.pos,
    {
        match packed_dimension(src, cur) {
            Ok(p) => {
                proof {
                    assert(packed_dimensions_val(src@, cur.pos as int) =~= seq![
                        packed_dimension_val(src@, cur.pos as int),
                    ] + packed_dimensions_val(src@, p.0.pos as int));
                }
                v.push(p.1);
                cur = p.0;
            },
            Err(f) => {
                if f.hard {
                    return Err(f);
                }
                proof {
                    assert(v@ + packed_dimensions_val(src@, cur.pos as int) =~= v@);
                }
                return Ok((cur, v));
            },
        }
    }
}

} // verus!
