//! Production parsers of the data-type / net-type family.
//!
//! Each production is a pure function from a cursor to either a node plus
//! the remaining cursor or a classified failure, and is proved against a
//! spec-level model built from the alternation combinator
//! [`alt2`](crate::combinator::alt2), so the backtracking and cut laws of
//! the combinator contract apply to it by construction.  Alternatives are
//! tried in declared order; a keyword matches only on a word boundary, so
//! `int` never matches inside `integer`.

use vstd::prelude::*;
use crate::combinator::{
    alt2, cut_from, keyword, kw_at, obeys, opt_step, spec_ident, spec_keyword, spec_number,
    spec_sym, step_end, symbol, tok, wf_cursor, wf_src, ws_end, Cursor, ParseFail, Step,
};
use crate::primaries::{
    constant_expression, constant_expression_val, constant_primary, constant_primary_val,
    expression, expression_val, identifier, spec_constant_primary,
    identifier_val, integral_number, integral_number_val, packed_dimension, packed_dimension_val,
    packed_dimensions, packed_dimensions_val, spec_constant_expression, spec_expression,
    spec_packed_dimension, spec_packed_dimensions, sym_val,
};
use crate::nodes::{
    AttributeInstance, CastingType, ClassScope, ClassType, ConstantExpression, DataType,
    DataTypeAtom, DataTypeEnum, DataTypeOrImplicit, DataTypeOrVoid, DataTypeType, DataTypeUnion,
    DataTypeVector, DataTypeVirtual, EnumBaseType, EnumBaseTypeAtom, EnumBaseTypeType,
    EnumBaseTypeVector, EnumBody, EnumNameDeclaration, EnumNameRange, Identifier,
    ImplicitDataType, IntegerAtomType, IntegerType, IntegerVectorType, IntegralNumber, Interface,
    ListOfVariableDeclAssignments, NetPortType, NetPortTypeDataType, NetPortTypeInterconnect,
    NetType, NonIntegerType, Packed, PackageScope, PackageScopeOrClassScope, PackedDimension,
    ParameterValueAssignment, RandomQualifier, Signing, SimpleType, StructUnion, StructUnionBody,
    StructUnionMember, Symbol, TypeReference, TypeReferenceDataType, TypeReferenceExpression,
    VarDataType, VarDataTypeVar, VariablePortType,
};

verus! {

/// The outcome of the signing production: `signed` or `unsigned`.
pub open spec fn spec_signing(src: Seq<char>, pos: int) -> Step {
    alt2(spec_keyword(src, pos, "signed"@), spec_keyword(src, pos, "unsigned"@))
}

/// The node the signing production builds on success.
pub open spec fn signing_val(src: Seq<char>, pos: int) -> Signing {
    let at = ws_end(src, pos);
    if kw_at(src, at, "signed"@) {
        Signing::Signed(Symbol { nodes: (tok(src, at, 6),) })
    } else {
        Signing::Unsigned(Symbol { nodes: (tok(src, at, 8),) })
    }
}

/// Parses `signed` or `unsigned`, in that declared order.  On success the
/// node wraps a span bounding exactly the consumed keyword; otherwise the
/// failure is soft and reports the entry cursor.
pub fn signing(src: &Vec<char>, c: Cursor) -> (r: Result<(Cursor, Signing), ParseFail>)
    requires
        wf_src(src@),
        wf_cursor(c, src@),
    ensures
        obeys(r, src@, c, spec_signing(src@, c.pos as int)),
        (r matches Ok(p) ==> p.1 == signing_val(src@, c.pos as int)),
        (r matches Ok(p) ==> wf_cursor(p.0, src@) && c.pos < p.0.pos),
{
    proof {
        reveal_strlit("signed");
        reveal_strlit("unsigned");
    }
    match keyword(src, c, "signed") {
        Ok(p) => { return Ok((p.0, Signing::Signed(Symbol { nodes: (p.1,) }))); },
        Err(_) => {},
    }
    match keyword(src, c, "unsigned") {
        Ok(p) => { return Ok((p.0, Signing::Unsigned(Symbol { nodes: (p.1,) }))); },
        Err(_) => {},
    }
    Err(ParseFail { hard: false, offset: c.pos, line: c.line })
}

/// The outcome of the integer-vector-type production: `bit`, `logic` or
/// `reg`.
pub open spec fn spec_integer_vector_type(src: Seq<char>, pos: int) -> Step {
    alt2(
        spec_keyword(src, pos, "bit"@),
        alt2(spec_keyword(src, pos, "logic"@), spec_keyword(src, pos, "reg"@)),
    )
}

/// The node the integer-vector-type production builds on success.
pub open spec fn integer_vector_type_val(src: Seq<char>, pos: int) -> IntegerVectorType {
    let at = ws_end(src, pos);
    if kw_at(src, at, "bit"@) {
        IntegerVectorType::Bit(Symbol { nodes: (tok(src, at, 3),) })
    } else if kw_at(src, at, "logic"@) {
        IntegerVectorType::Logic(Symbol { nodes: (tok(src, at, 5),) })
    } else {
        IntegerVectorType::Reg(Symbol { nodes: (tok(src, at, 3),) })
    }
}

/// Parses `bit`, `logic` or `reg`, in that declared order.
pub fn integer_vector_type(src: &Vec<char>, c: Cursor) -> (r: Result<
    (Cursor, IntegerVectorType),
    ParseFail,
>)
    requires
        wf_src(src@),
        wf_cursor(c, src@),
    ensures
        obeys(r, src@, c, spec_integer_vector_type(src@, c.pos as int)),
        (r matches Ok(p) ==> p.1 == integer_vector_type_val(src@, c.pos as int)),
        (r matches Ok(p) ==> wf_cursor(p.0, src@) && c.pos < p.0.pos),
{
    proof {
        reveal_strlit("bit");
        reveal_strlit("logic");
        reveal_strlit("reg");
    }
    match keyword(src, c, "bit") {
        Ok(p) => { return Ok((p.0, IntegerVectorType::Bit(Symbol { nodes: (p.1,) }))); },
        Err(_) => {},
    }
    match keyword(src, c, "logic") {
        Ok(p) => { return Ok((p.0, IntegerVectorType::Logic(Symbol { nodes: (p.1,) }))); },
        Err(_) => {},
    }
    match keyword(src, c, "reg") {
        Ok(p) => { return Ok((p.0, IntegerVectorType::Reg(Symbol { nodes: (p.1,) }))); },
        Err(_) => {},
    }
    Err(ParseFail { hard: false, offset: c.pos, line: c.line })
}

/// The outcome of the integer-atom-type production: `byte`, `shortint`,
/// `int`, `longint`, `integer` or `time`.
pub open spec fn spec_integer_atom_type(src: Seq<char>, pos: int) -> Step {
    alt2(
        spec_keyword(src, pos, "byte"@),
        alt2(
            spec_keyword(src, pos, "shortint"@),
            alt2(
                spec_keyword(src, pos, "int"@),
                alt2(
                    spec_keyword(src, pos, "longint"@),
                    alt2(spec_keyword(src, pos, "integer"@), spec_keyword(src, pos, "time"@)),
                ),
            ),
        ),
    )
}

/// The node the integer-atom-type production builds on success.
pub open spec fn integer_atom_type_val(src: Seq<char>, pos: int) -> IntegerAtomType {
    let at = ws_end(src, pos);
    if kw_at(src, at, "byte"@) {
        IntegerAtomType::Byte(Symbol { nodes: (tok(src, at, 4),) })
    } else if kw_at(src, at, "shortint"@) {
        IntegerAtomType::Shortint(Symbol { nodes: (tok(src, at, 8),) })
    } else if kw_at(src, at, "int"@) {
        IntegerAtomType::Int(Symbol { nodes: (tok(src, at, 3),) })
    } else if kw_at(src, at, "longint"@) {
        IntegerAtomType::Longint(Symbol { nodes: (tok(src, at, 7),) })
    } else if kw_at(src, at, "integer"@) {
        IntegerAtomType::Integer(Symbol { nodes: (tok(src, at, 7),) })
    } else {
        IntegerAtomType::Time(Symbol { nodes: (tok(src, at, 4),) })
    }
}

/// Parses `byte`, `shortint`, `int`, `longint`, `integer` or `time`, in
/// that declared order.  The word-boundary rule keeps `int` from matching
/// the prefix of `integer`, so the declared order resolves the ambiguity.
pub fn integer_atom_type(src: &Vec<char>, c: Cursor) -> (r: Result<
    (Cursor, IntegerAtomType),
    ParseFail,
>)
    requires
        wf_src(src@),
        wf_cursor(c, src@),
    ensures
        obeys(r, src@, c, spec_integer_atom_type(src@, c.pos as int)),
        (r matches Ok(p) ==> p.1 == integer_atom_type_val(src@, c.pos as int)),
        (r matches Ok(p) ==> wf_cursor(p.0, src@) && c.pos < p.0.pos),
{
    proof {
        reveal_strlit("byte");
        reveal_strlit("shortint");
        reveal_strlit("int");
        reveal_strlit("longint");
        reveal_strlit("integer");
        reveal_strlit("time");
    }
    match keyword(src, c, "byte") {
        Ok(p) => { return Ok((p.0, IntegerAtomType::Byte(Symbol { nodes: (p.1,) }))); },
        Err(_) => {},
    }
    match keyword(src, c, "shortint") {
        Ok(p) => { return Ok((p.0, IntegerAtomType::Shortint(Symbol { nodes: (p.1,) }))); },
        Err(_) => {},
    }
    match keyword(src, c, "int") {
        Ok(p) => { return Ok((p.0, IntegerAtomType::Int(Symbol { nodes: (p.1,) }))); },
        Err(_) => {},
    }
    match keyword(src, c, "longint") {
        Ok(p) => { return Ok((p.0, IntegerAtomType::Longint(Symbol { nodes: (p.1,) }))); },
        Err(_) => {},
    }
    match keyword(src, c, "integer") {
        Ok(p) => { return Ok((p.0, IntegerAtomType::Integer(Symbol { nodes: (p.1,) }))); },
        Err(_) => {},
    }
    match keyword(src, c, "time") {
        Ok(p) => { return Ok((p.0, IntegerAtomType::Time(Symbol { nodes: (p.1,) }))); },
        Err(_) => {},
    }
    Err(ParseFail { hard: false, offset: c.pos, line: c.line })
}

/// The outcome of the non-integer-type production: `shortreal`, `real` or
/// `realtime`.
pub open spec fn spec_non_integer_type(src: Seq<char>, pos: int) -> Step {
    alt2(
        spec_keyword(src, pos, "shortreal"@),
        alt2(spec_keyword(src, pos, "real"@), spec_keyword(src, pos, "realtime"@)),
    )
}

/// The node the non-integer-type production builds on success.
pub open spec fn non_integer_type_val(src: Seq<char>, pos: int) -> NonIntegerType {
    let at = ws_end(src, pos);
    if kw_at(src, at, "shortreal"@) {
        NonIntegerType::Shortreal(Symbol { nodes: (tok(src, at, 9),) })
    } else if kw_at(src, at, "real"@) {
        NonIntegerType::Real(Symbol { nodes: (tok(src, at, 4),) })
    } else {
        NonIntegerType::Realtime(Symbol { nodes: (tok(src, at, 8),) })
    }
}

/// Parses `shortreal`, `real` or `realtime`, in that declared order; the
/// word boundary keeps `real` from matching inside `realtime`.
pub fn non_integer_type(src: &Vec<char>, c: Cursor) -> (r: Result<
    (Cursor, NonIntegerType),
    ParseFail,
>)
    requires
        wf_src(src@),
        wf_cursor(c, src@),
    ensures
        obeys(r, src@, c, spec_non_integer_type(src@, c.pos as int)),
        (r matches Ok(p) ==> p.1 == non_integer_type_val(src@, c.pos as int)),
        (r matches Ok(p) ==> wf_cursor(p.0, src@) && c.pos < p.0.pos),
{
    proof {
        reveal_strlit("shortreal");
        reveal_strlit("real");
        reveal_strlit("realtime");
    }
    match keyword(src, c, "shortreal") {
        Ok(p) => { return Ok((p.0, NonIntegerType::Shortreal(Symbol { nodes: (p.1,) }))); },
        Err(_) => {},
    }
    match keyword(src, c, "real") {
        Ok(p) => { return Ok((p.0, NonIntegerType::Real(Symbol { nodes: (p.1,) }))); },
        Err(_) => {},
    }
    match keyword(src, c, "realtime") {
        Ok(p) => { return Ok((p.0, NonIntegerType::Realtime(Symbol { nodes: (p.1,) }))); },
        Err(_) => {},
    }
    Err(ParseFail { hard: false, offset: c.pos, line: c.line })
}

/// The outcome of the integer-type production: a vector type or an atom
/// type, tried in that declared order.
pub open spec fn spec_integer_type(src: Seq<char>, pos: int) -> Step {
    alt2(spec_integer_vector_type(src, pos), spec_integer_atom_type(src, pos))
}

/// Parses an integer type: first the vector alternative, then the atom
/// alternative, from the same cursor — soft misses let the next
/// alternative try, exactly the backtracking law.
pub fn integer_type(src: &Vec<char>, c: Cursor) -> (r: Result<(Cursor, IntegerType), ParseFail>)
    requires
        wf_src(src@),
        wf_cursor(c, src@),
    ensures
        obeys(r, src@, c, spec_integer_type(src@, c.pos as int)),
        (r matches Ok(p) ==> p.1 == (if spec_integer_vector_type(src@, c.pos as int) is Done {
            IntegerType::IntegerVectorType(integer_vector_type_val(src@, c.pos as int))
        } else {
            IntegerType::IntegerAtomType(integer_atom_type_val(src@, c.pos as int))
        })),
        (r matches Ok(p) ==> wf_cursor(p.0, src@) && c.pos < p.0.pos),
{
    match integer_vector_type(src, c) {
        Ok(p) => { return Ok((p.0, IntegerType::IntegerVectorType(p.1))); },
        Err(f) => {
            if f.hard {
                return Err(f);
            }
        },
    }
    match integer_atom_type(src, c) {
        Ok(p) => { return Ok((p.0, IntegerType::IntegerAtomType(p.1))); },
        Err(f) => {
            if f.hard {
                return Err(f);
            }
        },
    }
    Err(ParseFail { hard: false, offset: c.pos, line: c.line })
}

/// The outcome of the net-type production: one of the twelve net-type
/// keywords, tried in declared order.
pub open spec fn spec_net_type(src: Seq<char>, pos: int) -> Step {
    alt2(
        spec_keyword(src, pos, "supply0"@),
        alt2(
            spec_keyword(src, pos, "supply1"@),
            alt2(
                spec_keyword(src, pos, "tri"@),
                alt2(
                    spec_keyword(src, pos, "triand"@),
                    alt2(
                        spec_keyword(src, pos, "trior"@),
                        alt2(
                            spec_keyword(src, pos, "trireg"@),
                            alt2(
                                spec_keyword(src, pos, "tri0"@),
                                alt2(
                                    spec_keyword(src, pos, "tri1"@),
                                    alt2(
                                        spec_keyword(src, pos, "uwire"@),
                                        alt2(
                                            spec_keyword(src, pos, "wire"@),
                                            alt2(
                                                spec_keyword(src, pos, "wand"@),
                                                spec_keyword(src, pos, "wor"@),
                                            ),
                                        ),
                                    ),
                                ),
                            ),
                        ),
                    ),
                ),
            ),
        ),
    )
}

/// The node the net-type production builds on success.
pub open spec fn net_type_val(src: Seq<char>, pos: int) -> NetType {
    let at = ws_end(src, pos);
    if kw_at(src, at, "supply0"@) {
        NetType::Supply0(Symbol { nodes: (tok(src, at, 7),) })
    } else if kw_at(src, at, "supply1"@) {
        NetType::Supply1(Symbol { nodes: (tok(src, at, 7),) })
    } else if kw_at(src, at, "tri"@) {
        NetType::Tri(Symbol { nodes: (tok(src, at, 3),) })
    } else if kw_at(src, at, "triand"@) {
        NetType::Triand(Symbol { nodes: (tok(src, at, 6),) })
    } else if kw_at(src, at, "trior"@) {
        NetType::Trior(Symbol { nodes: (tok(src, at, 5),) })
    } else if kw_at(src, at, "trireg"@) {
        NetType::Trireg(Symbol { nodes: (tok(src, at, 6),) })
    } else if kw_at(src, at, "tri0"@) {
        NetType::Tri0(Symbol { nodes: (tok(src, at, 4),) })
    } else if kw_at(src, at, "tri1"@) {
        NetType::Tri1(Symbol { nodes: (tok(src, at, 4),) })
    } else if kw_at(src, at, "uwire"@) {
        NetType::Uwire(Symbol { nodes: (tok(src, at, 5),) })
    } else if kw_at(src, at, "wire"@) {
        NetType::Wire(Symbol { nodes: (tok(src, at, 4),) })
    } else if kw_at(src, at, "wand"@) {
        NetType::Wand(Symbol { nodes: (tok(src, at, 4),) })
    } else {
        NetType::Wor(Symbol { nodes: (tok(src, at, 3),) })
    }
}

/// Parses one of the twelve net-type keywords, in declared order; the
/// word-boundary rule keeps `tri` from matching inside `triand`, `trior`,
/// `trireg`, `tri0` or `tri1`.
pub fn net_type(src: &Vec<char>, c: Cursor) -> (r: Result<(Cursor, NetType), ParseFail>)
    requires
        wf_src(src@),
        wf_cursor(c, src@),
    ensures
        obeys(r, src@, c, spec_net_type(src@, c.pos as int)),
        (r matches Ok(p) ==> p.1 == net_type_val(src@, c.pos as int)),
        (r matches Ok(p) ==> wf_cursor(p.0, src@) && c.pos < p.0.pos),
{
    proof {
        reveal_strlit("supply0");
        reveal_strlit("supply1");
        reveal_strlit("tri");
        reveal_strlit("triand");
        reveal_strlit("trior");
        reveal_strlit("trireg");
        reveal_strlit("tri0");
        reveal_strlit("tri1");
        reveal_strlit("uwire");
        reveal_strlit("wire");
        reveal_strlit("wand");
        reveal_strlit("wor");
    }
    match keyword(src, c, "supply0") {
        Ok(p) => { return Ok((p.0, NetType::Supply0(Symbol { nodes: (p.1,) }))); },
        Err(_) => {},
    }
    match keyword(src, c, "supply1") {
        Ok(p) => { return Ok((p.0, NetType::Supply1(Symbol { nodes: (p.1,) }))); },
        Err(_) => {},
    }
    match keyword(src, c, "tri") {
        Ok(p) => { return Ok((p.0, NetType::Tri(Symbol { nodes: (p.1,) }))); },
        Err(_) => {},
    }
    match keyword(src, c, "triand") {
        Ok(p) => { return Ok((p.0, NetType::Triand(Symbol { nodes: (p.1,) }))); },
        Err(_) => {},
    }
    match keyword(src, c, "trior") {
        Ok(p) => { return Ok((p.0, NetType::Trior(Symbol { nodes: (p.1,) }))); },
        Err(_) => {},
    }
    match keyword(src, c, "trireg") {
        Ok(p) => { return Ok((p.0, NetType::Trireg(Symbol { nodes: (p.1,) }))); },
        Err(_) => {},
    }
    match keyword(src, c, "tri0") {
        Ok(p) => { return Ok((p.0, NetType::Tri0(Symbol { nodes: (p.1,) }))); },
        Err(_) => {},
    }
    match keyword(src, c, "tri1") {
        Ok(p) => { return Ok((p.0, NetType::Tri1(Symbol { nodes: (p.1,) }))); },
        Err(_) => {},
    }
    match keyword(src, c, "uwire") {
        Ok(p) => { return Ok((p.0, NetType::Uwire(Symbol { nodes: (p.1,) }))); },
        Err(_) => {},
    }
    match keyword(src, c, "wire") {
        Ok(p) => { return Ok((p.0, NetType::Wire(Symbol { nodes: (p.1,) }))); },
        Err(_) => {},
    }
    match keyword(src, c, "wand") {
        Ok(p) => { return Ok((p.0, NetType::Wand(Symbol { nodes: (p.1,) }))); },
        Err(_) => {},
    }
    match keyword(src, c, "wor") {
        Ok(p) => { return Ok((p.0, NetType::Wor(Symbol { nodes: (p.1,) }))); },
        Err(_) => {},
    }
    Err(ParseFail { hard: false, offset: c.pos, line: c.line })
}


/// The optional-signing field as a value: present exactly when the signing
/// production succeeds at `pos`.
pub open spec fn signing_opt_val(src: Seq<char>, pos: int) -> Option<Signing> {
    if spec_signing(src, pos) is Done {
        Some(signing_val(src, pos))
    } else {
        None
    }
}

/// Parses an optional signing: a soft miss yields the absent case without
/// consuming input.
pub fn opt_signing(src: &Vec<char>, c: Cursor) -> (r: Result<(Cursor, Option<Signing>), ParseFail>)
    requires
        wf_src(src@),
        wf_cursor(c, src@),
    ensures
        obeys(r, src@, c, opt_step(spec_signing(src@, c.pos as int), c.pos as int)),
        r matches Ok(p) ==> p.1 == signing_opt_val(src@, c.pos as int) && wf_cursor(p.0, src@)
            && c.pos <= p.0.pos,
        r matches Err(f) ==> f.hard,
{
    match signing(src, c) {
        Ok(p) => Ok((p.0, Some(p.1))),
        Err(f) => if f.hard {
            Err(f)
        } else {
            Ok((c, None))
        },
    }
}

/// The optional-packed-dimension field as a value.
pub open spec fn packed_dimension_opt_val(src: Seq<char>, pos: int) -> Option<PackedDimension> {
    if spec_packed_dimension(src, pos) is Done {
        Some(packed_dimension_val(src, pos))
    } else {
        None
    }
}

/// Parses an optional packed dimension; a hard failure inside the
/// dimension propagates.
pub fn opt_packed_dimension(src: &Vec<char>, c: Cursor) -> (r: Result<
    (Cursor, Option<PackedDimension>),
    ParseFail,
>)
    requires
        wf_src(src@),
        wf_cursor(c, src@),
    ensures
        obeys(r, src@, c, opt_step(spec_packed_dimension(src@, c.pos as int), c.pos as int)),
        r matches Ok(p) ==> p.1 == packed_dimension_opt_val(src@, c.pos as int) && wf_cursor(
            p.0,
            src@,
        ) && c.pos <= p.0.pos,
        r matches Err(f) ==> f.hard,
{
    match packed_dimension(src, c) {
        Ok(p) => Ok((p.0, Some(p.1))),
        Err(f) => if f.hard {
            Err(f)
        } else {
            Ok((c, None))
        },
    }
}

/// The node the integer-type production builds on success.
pub open spec fn integer_type_val(src: Seq<char>, pos: int) -> IntegerType {
    if spec_integer_vector_type(src, pos) is Done {
        IntegerType::IntegerVectorType(integer_vector_type_val(src, pos))
    } else {
        IntegerType::IntegerAtomType(integer_atom_type_val(src, pos))
    }
}

/// The outcome of the vector data-type shape: kind, optional signing,
/// packed dimensions.  Once the kind keyword has matched, the two
/// remaining fields cannot miss, so the shape succeeds.
pub open spec fn spec_data_type_vector(src: Seq<char>, pos: int) -> Step {
    match spec_integer_vector_type(src, pos) {
        Step::Done { end: e1 } => match opt_step(spec_signing(src, e1), e1) {
            Step::Done { end: e2 } => spec_packed_dimensions(src, e2),
            s => s,
        },
        s => s,
    }
}

/// What the vector data-type shape builds, field by field.
pub open spec fn is_data_type_vector_val(x: DataTypeVector, src: Seq<char>, pos: int) -> bool {
    let e1 = step_end(spec_integer_vector_type(src, pos));
    let e2 = step_end(opt_step(spec_signing(src, e1), e1));
    &&& x.nodes.0 == integer_vector_type_val(src, pos)
    &&& x.nodes.1 == signing_opt_val(src, e1)
    &&& x.nodes.2@ == packed_dimensions_val(src, e2)
}

/// Parses a vector data type: `bit`/`logic`/`reg`, optional signing, zero
/// or more packed dimensions.
pub fn data_type_vector(src: &Vec<char>, c: Cursor) -> (r: Result<
    (Cursor, DataTypeVector),
    ParseFail,
>)
    requires
        wf_src(src@),
        wf_cursor(c, src@),
    ensures
        obeys(r, src@, c, spec_data_type_vector(src@, c.pos as int)),
        r matches Ok(p) ==> is_data_type_vector_val(p.1, src@, c.pos as int) && wf_cursor(
            p.0,
            src@,
        ) && c.pos < p.0.pos,
{
    let kind = match integer_vector_type(src, c) {
        Ok(p) => p,
        Err(f) => { return Err(f); },
    };
    let sg = match opt_signing(src, kind.0) {
        Ok(p) => p,
        Err(f) => { return Err(f); },
    };
    let dims = match packed_dimensions(src, sg.0) {
        Ok(p) => p,
        Err(f) => { return Err(f); },
    };
    Ok((dims.0, DataTypeVector { nodes: (kind.1, sg.1, dims.1) }))
}

/// The outcome of the atom data-type shape: kind, optional signing.
pub open spec fn spec_data_type_atom(src: Seq<char>, pos: int) -> Step {
    match spec_integer_atom_type(src, pos) {
        Step::Done { end: e1 } => opt_step(spec_signing(src, e1), e1),
        s => s,
    }
}

/// The node the atom data-type shape builds on success.
pub open spec fn data_type_atom_val(src: Seq<char>, pos: int) -> DataTypeAtom {
    let e1 = step_end(spec_integer_atom_type(src, pos));
    DataTypeAtom { nodes: (integer_atom_type_val(src, pos), signing_opt_val(src, e1)) }
}

/// Parses an atom data type: `byte`/`shortint`/`int`/`longint`/`integer`/
/// `time`, optional signing.
pub fn data_type_atom(src: &Vec<char>, c: Cursor) -> (r: Result<(Cursor, DataTypeAtom), ParseFail>)
    requires
        wf_src(src@),
        wf_cursor(c, src@),
    ensures
        obeys(r, src@, c, spec_data_type_atom(src@, c.pos as int)),
        r matches Ok(p) ==> p.1 == data_type_atom_val(src@, c.pos as int) && wf_cursor(p.0, src@)
            && c.pos < p.0.pos,
{
    let kind = match integer_atom_type(src, c) {
        Ok(p) => p,
        Err(f) => { return Err(f); },
    };
    let sg = match opt_signing(src, kind.0) {
        Ok(p) => p,
        Err(f) => { return Err(f); },
    };
    Ok((sg.0, DataTypeAtom { nodes: (kind.1, sg.1) }))
}

/// The outcome of the implicit data type: optional signing, packed
/// dimensions.  Both fields may be absent, so the production succeeds on
/// any input — this is the one semantically empty shape of the family,
/// allowed to succeed without consuming input.
pub open spec fn spec_implicit_data_type(src: Seq<char>, pos: int) -> Step {
    match opt_step(spec_signing(src, pos), pos) {
        Step::Done { end: e1 } => spec_packed_dimensions(src, e1),
        s => s,
    }
}

/// What the implicit data type builds, field by field.
pub open spec fn is_implicit_data_type_val(x: ImplicitDataType, src: Seq<char>, pos: int) -> bool {
    let e1 = step_end(opt_step(spec_signing(src, pos), pos));
    &&& x.nodes.0 == signing_opt_val(src, pos)
    &&& x.nodes.1@ == packed_dimensions_val(src, e1)
}

/// Parses an implicit data type: optional signing, zero or more packed
/// dimensions; may consume nothing.
pub fn implicit_data_type(src: &Vec<char>, c: Cursor) -> (r: Result<
    (Cursor, ImplicitDataType),
    ParseFail,
>)
    requires
        wf_src(src@),
        wf_cursor(c, src@),
    ensures
        obeys(r, src@, c, spec_implicit_data_type(src@, c.pos as int)),
        r matches Ok(p) ==> is_implicit_data_type_val(p.1, src@, c.pos as int) && wf_cursor(
            p.0,
            src@,
        ) && c.pos <= p.0.pos,
        r matches Err(f) ==> f.hard,
{
    let sg = match opt_signing(src, c) {
        Ok(p) => p,
        Err(f) => { return Err(f); },
    };
    let dims = match packed_dimensions(src, sg.0) {
        Ok(p) => p,
        Err(f) => { return Err(f); },
    };
    Ok((dims.0, ImplicitDataType { nodes: (sg.1, dims.1) }))
}

/// The outcome of the atom shape of an enum base type.
pub open spec fn spec_enum_base_type_atom(src: Seq<char>, pos: int) -> Step {
    match spec_integer_atom_type(src, pos) {
        Step::Done { end: e1 } => opt_step(spec_signing(src, e1), e1),
        s => s,
    }
}

/// The outcome of the vector shape of an enum base type.
pub open spec fn spec_enum_base_type_vector(src: Seq<char>, pos: int) -> Step {
    match spec_integer_vector_type(src, pos) {
        Step::Done { end: e1 } => match opt_step(spec_signing(src, e1), e1) {
            Step::Done { end: e2 } => opt_step(spec_packed_dimension(src, e2), e2),
            s => s,
        },
        s => s,
    }
}

/// The outcome of the named shape of an enum base type.
pub open spec fn spec_enum_base_type_type(src: Seq<char>, pos: int) -> Step {
    match spec_ident(src, pos) {
        Step::Done { end: e1 } => opt_step(spec_packed_dimension(src, e1), e1),
        s => s,
    }
}

/// The outcome of the enum-base-type production: the atom, vector and
/// named shapes, tried in that declared order.
pub open spec fn spec_enum_base_type(src: Seq<char>, pos: int) -> Step {
    alt2(
        spec_enum_base_type_atom(src, pos),
        alt2(spec_enum_base_type_vector(src, pos), spec_enum_base_type_type(src, pos)),
    )
}

/// The node the enum-base-type production builds on success.
pub open spec fn enum_base_type_val(src: Seq<char>, pos: int) -> EnumBaseType {
    if spec_enum_base_type_atom(src, pos) is Done {
        let e1 = step_end(spec_integer_atom_type(src, pos));
        EnumBaseType::Atom(
            EnumBaseTypeAtom { nodes: (integer_atom_type_val(src, pos), signing_opt_val(src, e1)) },
        )
    } else if spec_enum_base_type_vector(src, pos) is Done {
        let e1 = step_end(spec_integer_vector_type(src, pos));
        let e2 = step_end(opt_step(spec_signing(src, e1), e1));
        EnumBaseType::Vector(
            EnumBaseTypeVector {
                nodes: (integer_vector_type_val(src, pos), signing_opt_val(src, e1),
                packed_dimension_opt_val(src, e2)),
            },
        )
    } else {
        let e1 = step_end(spec_ident(src, pos));
        EnumBaseType::Type(
            EnumBaseTypeType { nodes: (identifier_val(src, pos), packed_dimension_opt_val(src, e1)) },
        )
    }
}

/// Parses an enum base type: an atom type, a vector type with an optional
/// dimension, or a named type with an optional dimension, in that order.
pub fn enum_base_type(src: &Vec<char>, c: Cursor) -> (r: Result<(Cursor, EnumBaseType), ParseFail>)
    requires
        wf_src(src@),
        wf_cursor(c, src@),
    ensures
        obeys(r, src@, c, spec_enum_base_type(src@, c.pos as int)),
        r matches Ok(p) ==> p.1 == enum_base_type_val(src@, c.pos as int) && wf_cursor(p.0, src@)
            && c.pos < p.0.pos,
{
    match integer_atom_type(src, c) {
        Ok(kind) => {
            let sg = match opt_signing(src, kind.0) {
                Ok(p) => p,
                Err(f) => { return Err(f); },
            };
            return Ok((sg.0, EnumBaseType::Atom(EnumBaseTypeAtom { nodes: (kind.1, sg.1) })));
        },
        Err(f) => {
            if f.hard {
                return Err(f);
            }
        },
    }
    match integer_vector_type(src, c) {
        Ok(kind) => {
            let sg = match opt_signing(src, kind.0) {
                Ok(p) => p,
                Err(f) => { return Err(f); },
            };
            let dim = match opt_packed_dimension(src, sg.0) {
                Ok(p) => p,
                Err(f) => { return Err(f); },
            };
            return Ok(
                (dim.0, EnumBaseType::Vector(EnumBaseTypeVector { nodes: (kind.1, sg.1, dim.1) })),
            );
        },
        Err(f) => {
            if f.hard {
                return Err(f);
            }
        },
    }
    match identifier(src, c) {
        Ok(name) => {
            let dim = match opt_packed_dimension(src, name.0) {
                Ok(p) => p,
                Err(f) => { return Err(f); },
            };
            return Ok((dim.0, EnumBaseType::Type(EnumBaseTypeType { nodes: (name.1, dim.1) })));
        },
        Err(f) => {
            if f.hard {
                return Err(f);
            }
        },
    }
    Err(ParseFail { hard: false, offset: c.pos, line: c.line })
}


/// The outcome of the optional index part `: n` inside an enum name range.
pub open spec fn spec_colon_number(src: Seq<char>, pos: int) -> Step {
    match spec_sym(src, pos, ":"@) {
        Step::Done { end: e1 } => cut_from(spec_number(src, e1), e1),
        s => s,
    }
}

/// The optional `: n` part as a value.
pub open spec fn colon_number_opt_val(src: Seq<char>, pos: int) -> Option<(Symbol, IntegralNumber)> {
    if spec_colon_number(src, pos) is Done {
        Some((sym_val(src, pos, ":"@), integral_number_val(src, step_end(spec_sym(src, pos, ":"@)))))
    } else {
        None
    }
}

/// The outcome of the enum-name-range production `[ n ]` or `[ n : m ]`;
/// committed once `[` is consumed.
pub open spec fn spec_enum_name_range(src: Seq<char>, pos: int) -> Step {
    match spec_sym(src, pos, "["@) {
        Step::Done { end: e1 } => match cut_from(spec_number(src, e1), e1) {
            Step::Done { end: e2 } => match opt_step(spec_colon_number(src, e2), e2) {
                Step::Done { end: e3 } => cut_from(spec_sym(src, e3, "]"@), e3),
                s => s,
            },
            s => s,
        },
        s => s,
    }
}

/// The node the enum-name-range production builds on success.
pub open spec fn enum_name_range_val(src: Seq<char>, pos: int) -> EnumNameRange {
    let e1 = step_end(spec_sym(src, pos, "["@));
    let e2 = step_end(spec_number(src, e1));
    let e3 = step_end(opt_step(spec_colon_number(src, e2), e2));
    EnumNameRange {
        nodes: (sym_val(src, pos, "["@), integral_number_val(src, e1), colon_number_opt_val(
            src,
            e2,
        ), sym_val(src, e3, "]"@)),
    }
}

/// Parses `[ n ]` or `[ n : m ]` after an enum name.
pub fn enum_name_range(src: &Vec<char>, c: Cursor) -> (r: Result<(Cursor, EnumNameRange), ParseFail>)
    requires
        wf_src(src@),
        wf_cursor(c, src@),
    ensures
        obeys(r, src@, c, spec_enum_name_range(src@, c.pos as int)),
        r matches Ok(p) ==> p.1 == enum_name_range_val(src@, c.pos as int) && wf_cursor(p.0, src@)
            && c.pos < p.0.pos,
{
    proof {
        reveal_strlit("[");
        reveal_strlit("]");
        reveal_strlit(":");
    }
    let open = match symbol(src, c, "[") {
        Ok(p) => p,
        Err(f) => { return Err(f); },
    };
    let first = match integral_number(src, open.0) {
        Ok(p) => p,
        Err(f) => {
            if f.hard {
                return Err(f);
            }
            return Err(ParseFail { hard: true, offset: open.0.pos, line: open.0.line });
        },
    };
    let (c2, second) = match symbol(src, first.0, ":") {
        Ok(cl) => match integral_number(src, cl.0) {
            Ok(n) => (n.0, Some((Symbol { nodes: (cl.1,) }, n.1))),
            Err(f) => {
                if f.hard {
                    return Err(f);
                }
                return Err(ParseFail { hard: true, offset: cl.0.pos, line: cl.0.line });
            },
        },
        Err(f) => {
            if f.hard {
                return Err(f);
            }
            (first.0, None)
        },
    };
    let close = match symbol(src, c2, "]") {
        Ok(p) => p,
        Err(f) => {
            if f.hard {
                return Err(f);
            }
            return Err(ParseFail { hard: true, offset: c2.pos, line: c2.line });
        },
    };
    Ok(
        (
            close.0,
            EnumNameRange {
                nodes: (Symbol { nodes: (open.1,) }, first.1, second, Symbol { nodes: (close.1,) }),
            },
        ),
    )
}

/// The optional enum-name range as a value.
pub open spec fn enum_name_range_opt_val(src: Seq<char>, pos: int) -> Option<EnumNameRange> {
    if spec_enum_name_range(src, pos) is Done {
        Some(enum_name_range_val(src, pos))
    } else {
        None
    }
}

/// The outcome of the optional initializer `= expr` of an enum name;
/// committed once `=` is consumed.
pub open spec fn spec_eq_init(src: Seq<char>, pos: int) -> Step {
    match spec_sym(src, pos, "="@) {
        Step::Done { end: e1 } => cut_from(spec_constant_expression(src, e1), e1),
        s => s,
    }
}

/// The optional initializer as a value.
pub open spec fn eq_init_opt_val(src: Seq<char>, pos: int) -> Option<(Symbol, ConstantExpression)> {
    if spec_eq_init(src, pos) is Done {
        Some(
            (sym_val(src, pos, "="@), constant_expression_val(
                src,
                step_end(spec_sym(src, pos, "="@)),
            )),
        )
    } else {
        None
    }
}

/// The outcome of the enum-name-declaration production: a name, an
/// optional range, an optional initializer.
pub open spec fn spec_enum_name_declaration(src: Seq<char>, pos: int) -> Step {
    match spec_ident(src, pos) {
        Step::Done { end: e1 } => match opt_step(spec_enum_name_range(src, e1), e1) {
            Step::Done { end: e2 } => opt_step(spec_eq_init(src, e2), e2),
            s => s,
        },
        s => s,
    }
}

/// The node the enum-name-declaration production builds on success.
pub open spec fn enum_name_declaration_val(src: Seq<char>, pos: int) -> EnumNameDeclaration {
    let e1 = step_end(spec_ident(src, pos));
    let e2 = step_end(opt_step(spec_enum_name_range(src, e1), e1));
    EnumNameDeclaration {
        nodes: (identifier_val(src, pos), enum_name_range_opt_val(src, e1), eq_init_opt_val(
            src,
            e2,
        )),
    }
}

/// Parses one declared enum name with its optional range and optional
/// initializer.
pub fn enum_name_declaration(src: &Vec<char>, c: Cursor) -> (r: Result<
    (Cursor, EnumNameDeclaration),
    ParseFail,
>)
    requires
        wf_src(src@),
        wf_cursor(c, src@),
    ensures
        obeys(r, src@, c, spec_enum_name_declaration(src@, c.pos as int)),
        r matches Ok(p) ==> p.1 == enum_name_declaration_val(src@, c.pos as int) && wf_cursor(
            p.0,
            src@,
        ) && c.pos < p.0.pos,
{
    proof {
        reveal_strlit("=");
    }
    let name = match identifier(src, c) {
        Ok(p) => p,
        Err(f) => { return Err(f); },
    };
    let (c1, rng) = match enum_name_range(src, name.0) {
        Ok(p) => (p.0, Some(p.1)),
        Err(f) => {
            if f.hard {
                return Err(f);
            }
            (name.0, None)
        },
    };
    let (c2, init) = match symbol(src, c1, "=") {
        Ok(eq) => match constant_expression(src, eq.0) {
            Ok(e) => (e.0, Some((Symbol { nodes: (eq.1,) }, e.1))),
            Err(f) => {
                if f.hard {
                    return Err(f);
                }
                return Err(ParseFail { hard: true, offset: eq.0.pos, line: eq.0.line });
            },
        },
        Err(f) => {
            if f.hard {
                return Err(f);
            }
            (c1, None)
        },
    };
    Ok((c2, EnumNameDeclaration { nodes: (name.1, rng, init) }))
}

/// The outcome of the `, name-declaration` tail of an enum body: zero or
/// more comma-led declarations.  A comma not followed by a declaration is
/// left unconsumed and ends the tail — the list itself never fails softly
/// and never loops on a zero-width match.
pub open spec fn spec_enum_tail(src: Seq<char>, pos: int) -> Step
    decreases src.len() - pos,
{
    match spec_sym(src, pos, ","@) {
        Step::Done { end: e1 } => match spec_enum_name_declaration(src, e1) {
            Step::Done { end: e2 } => if pos < e2 <= src.len() {
                spec_enum_tail(src, e2)
            } else {
                Step::Done { end: pos }
            },
            Step::Halt { at } => Step::Halt { at },
            Step::Miss => Step::Done { end: pos },
        },
        Step::Halt { at } => Step::Halt { at },
        Step::Miss => Step::Done { end: pos },
    }
}

/// The pairs the enum tail builds, in source order.
pub open spec fn enum_tail_val(src: Seq<char>, pos: int) -> Seq<(Symbol, EnumNameDeclaration)>
    decreases src.len() - pos,
{
    match spec_sym(src, pos, ","@) {
        Step::Done { end: e1 } => match spec_enum_name_declaration(src, e1) {
            Step::Done { end: e2 } => if pos < e2 <= src.len() {
                seq![(sym_val(src, pos, ","@), enum_name_declaration_val(src, e1))] + enum_tail_val(
                    src,
                    e2,
                )
            } else {
                Seq::empty()
            },
            _ => Seq::empty(),
        },
        _ => Seq::empty(),
    }
}

/// Parses the `, name-declaration` tail of an enum body.
#[verifier::rlimit(100)]
#[verifier::spinoff_prover]
pub fn enum_tail(src: &Vec<char>, c: Cursor) -> (r: Result<
    (Cursor, Vec<(Symbol, EnumNameDeclaration)>),
    ParseFail,
>)
    requires
        wf_src(src@),
        wf_cursor(c, src@),
    ensures
        obeys(r, src@, c, spec_enum_tail(src@, c.pos as int)),
        r matches Ok(p) ==> p.1@ == enum_tail_val(src@, c.pos as int) && wf_cursor(p.0, src@)
            && c.pos <= p.0.pos,
        r matches Err(f) ==> f.hard,
{
    proof {
        reveal_strlit(",");
    }
    let mut cur = c;
    let mut v: Vec<(Symbol, EnumNameDeclaration)> = Vec::new();
    loop
        invariant
            wf_src(src@),
            wf_cursor(cur, src@),
            c.pos <= cur.pos,
            spec_enum_tail(src@, c.pos as int) == spec_enum_tail(src@, cur.pos as int),
            enum_tail_val(src@, c.pos as int) =~= v@ + enum_tail_val(src@, cur.pos as int),
        decreases src@.len() - cur.pos,
    {
        proof {
            reveal_strlit(",");
        }
        let cm = match symbol(src, cur, ",") {
            Ok(p) => p,
            Err(f) => {
                if f.hard {
                    return Err(f);
                }
                proof {
                    assert(v@ + enum_tail_val(src@, cur.pos as int) =~= v@);
                }
                return Ok((cur, v));
            },
        };
        match enum_name_declaration(src, cm.0) {
            Ok(d) => {
                proof {
                    assert(enum_tail_val(src@, cur.pos as int) =~= seq![
                        (sym_val(src@, cur.pos as int, ","@), enum_name_declaration_val(
                            src@,
                            cm.0.pos as int,
                        )),
                    ] + enum_tail_val(src@, d.0.pos as int));
                }
                v.push((Symbol { nodes: (cm.1,) }, d.1));
                cur = d.0;
            },
            Err(f) => {
                if f.hard {
                    return Err(f);
                }
                proof {
                    assert(v@ + enum_tail_val(src@, cur.pos as int) =~= v@);
                }
                return Ok((cur, v));
            },
        }
    }
}

/// The outcome of the enum-body production `{ decl (, decl)* }`;
/// committed once `{` is consumed.
pub open spec fn spec_enum_body(src: Seq<char>, pos: int) -> Step {
    match spec_sym(src, pos, "{"@) {
        Step::Done { end: e1 } => match cut_from(spec_enum_name_declaration(src, e1), e1) {
            Step::Done { end: e2 } => match spec_enum_tail(src, e2) {
                Step::Done { end: e3 } => cut_from(spec_sym(src, e3, "}"@), e3),
                s => s,
            },
            s => s,
        },
        s => s,
    }
}

/// What the enum-body production builds, field by field.
pub open spec fn is_enum_body_val(x: EnumBody, src: Seq<char>, pos: int) -> bool {
    let e1 = step_end(spec_sym(src, pos, "{"@));
    let e2 = step_end(spec_enum_name_declaration(src, e1));
    let e3 = step_end(spec_enum_tail(src, e2));
    &&& x.nodes.0 == sym_val(src, pos, "{"@)
    &&& x.nodes.1 == enum_name_declaration_val(src, e1)
    &&& x.nodes.2@ == enum_tail_val(src, e2)
    &&& x.nodes.3 == sym_val(src, e3, "}"@)
}

/// Parses the braced name list of an enum.
pub fn enum_body(src: &Vec<char>, c: Cursor) -> (r: Result<(Cursor, EnumBody), ParseFail>)
    requires
        wf_src(src@),
        wf_cursor(c, src@),
    ensures
        obeys(r, src@, c, spec_enum_body(src@, c.pos as int)),
        r matches Ok(p) ==> is_enum_body_val(p.1, src@, c.pos as int) && wf_cursor(p.0, src@)
            && c.pos < p.0.pos,
{
    proof {
        reveal_strlit("{");
        reveal_strlit("}");
    }
    let open = match symbol(src, c, "{") {
        Ok(p) => p,
        Err(f) => { return Err(f); },
    };
    let first = match enum_name_declaration(src, open.0) {
        Ok(p) => p,
        Err(f) => {
            if f.hard {
                return Err(f);
            }
            return Err(ParseFail { hard: true, offset: open.0.pos, line: open.0.line });
        },
    };
    let rest = match enum_tail(src, first.0) {
        Ok(p) => p,
        Err(f) => { return Err(f); },
    };
    let close = match symbol(src, rest.0, "}") {
        Ok(p) => p,
        Err(f) => {
            if f.hard {
                return Err(f);
            }
            return Err(ParseFail { hard: true, offset: rest.0.pos, line: rest.0.line });
        },
    };
    Ok(
        (
            close.0,
            EnumBody {
                nodes: (Symbol { nodes: (open.1,) }, first.1, rest.1, Symbol { nodes: (close.1,) }),
            },
        ),
    )
}

/// The optional enum base type as a value.
pub open spec fn enum_base_type_opt_val(src: Seq<char>, pos: int) -> Option<EnumBaseType> {
    if spec_enum_base_type(src, pos) is Done {
        Some(enum_base_type_val(src, pos))
    } else {
        None
    }
}

/// The outcome of the enum data-type shape: the `enum` keyword, an
/// optional base type, the braced name list, packed dimensions; committed
/// once `enum` is consumed.
pub open spec fn spec_data_type_enum(src: Seq<char>, pos: int) -> Step {
    match spec_keyword(src, pos, "enum"@) {
        Step::Done { end: e1 } => match opt_step(spec_enum_base_type(src, e1), e1) {
            Step::Done { end: e2 } => match cut_from(spec_enum_body(src, e2), e2) {
                Step::Done { end: e3 } => spec_packed_dimensions(src, e3),
                s => s,
            },
            s => s,
        },
        s => s,
    }
}

/// What the enum data-type shape builds, field by field.
pub open spec fn is_data_type_enum_val(x: DataTypeEnum, src: Seq<char>, pos: int) -> bool {
    let e1 = step_end(spec_keyword(src, pos, "enum"@));
    let e2 = step_end(opt_step(spec_enum_base_type(src, e1), e1));
    let e3 = step_end(spec_enum_body(src, e2));
    &&& x.nodes.0 == sym_val(src, pos, "enum"@)
    &&& x.nodes.1 == enum_base_type_opt_val(src, e1)
    &&& is_enum_body_val(x.nodes.2, src, e2)
    &&& x.nodes.3@ == packed_dimensions_val(src, e3)
}

/// Parses an enum data type.
#[verifier::rlimit(100)]
#[verifier::spinoff_prover]
pub fn data_type_enum(src: &Vec<char>, c: Cursor) -> (r: Result<(Cursor, DataTypeEnum), ParseFail>)
    requires
        wf_src(src@),
        wf_cursor(c, src@),
    ensures
        obeys(r, src@, c, spec_data_type_enum(src@, c.pos as int)),
        r matches Ok(p) ==> is_data_type_enum_val(p.1, src@, c.pos as int) && wf_cursor(p.0, src@)
            && c.pos < p.0.pos,
{
    proof {
        reveal_strlit("enum");
    }
    let kw = match keyword(src, c, "enum") {
        Ok(p) => p,
        Err(f) => { return Err(f); },
    };
    let (c1, base) = match enum_base_type(src, kw.0) {
        Ok(p) => (p.0, Some(p.1)),
        Err(f) => {
            if f.hard {
                return Err(f);
            }
            (kw.0, None)
        },
    };
    let body = match enum_body(src, c1) {
        Ok(p) => p,
        Err(f) => {
            if f.hard {
                return Err(f);
            }
            return Err(ParseFail { hard: true, offset: c1.pos, line: c1.line });
        },
    };
    let dims = match packed_dimensions(src, body.0) {
        Ok(p) => p,
        Err(f) => { return Err(f); },
    };
    Ok((dims.0, DataTypeEnum { nodes: (Symbol { nodes: (kw.1,) }, base, body.1, dims.1) }))
}

/// The outcome of the `union` alternative of the struct-union production:
/// the keyword with an optional `tagged` after it.
pub open spec fn spec_union_part(src: Seq<char>, pos: int) -> Step {
    match spec_keyword(src, pos, "union"@) {
        Step::Done { end: e1 } => opt_step(spec_keyword(src, e1, "tagged"@), e1),
        s => s,
    }
}

/// The outcome of the struct-union production: `struct`, or `union` with
/// an optional `tagged`.
pub open spec fn spec_struct_union(src: Seq<char>, pos: int) -> Step {
    alt2(spec_keyword(src, pos, "struct"@), spec_union_part(src, pos))
}

/// The node the struct-union production builds on success.
pub open spec fn struct_union_val(src: Seq<char>, pos: int) -> StructUnion {
    if spec_keyword(src, pos, "struct"@) is Done {
        StructUnion::Struct(sym_val(src, pos, "struct"@))
    } else {
        let e1 = step_end(spec_keyword(src, pos, "union"@));
        if spec_keyword(src, e1, "tagged"@) is Done {
            StructUnion::UnionTagged((sym_val(src, pos, "union"@), sym_val(src, e1, "tagged"@)))
        } else {
            StructUnion::Union(sym_val(src, pos, "union"@))
        }
    }
}

/// Parses `struct`, `union` or `union tagged`.
pub fn struct_union(src: &Vec<char>, c: Cursor) -> (r: Result<(Cursor, StructUnion), ParseFail>)
    requires
        wf_src(src@),
        wf_cursor(c, src@),
    ensures
        obeys(r, src@, c, spec_struct_union(src@, c.pos as int)),
        r matches Ok(p) ==> p.1 == struct_union_val(src@, c.pos as int) && wf_cursor(p.0, src@)
            && c.pos < p.0.pos,
{
    proof {
        reveal_strlit("struct");
        reveal_strlit("union");
        reveal_strlit("tagged");
    }
    match keyword(src, c, "struct") {
        Ok(p) => { return Ok((p.0, StructUnion::Struct(Symbol { nodes: (p.1,) }))); },
        Err(_) => {},
    }
    let un = match keyword(src, c, "union") {
        Ok(p) => p,
        Err(f) => { return Err(f); },
    };
    match keyword(src, un.0, "tagged") {
        Ok(tg) => Ok(
            (
                tg.0,
                StructUnion::UnionTagged((Symbol { nodes: (un.1,) }, Symbol { nodes: (tg.1,) })),
            ),
        ),
        Err(_) => Ok((un.0, StructUnion::Union(Symbol { nodes: (un.1,) }))),
    }
}

/// The outcome of the random-qualifier production: `rand` or `randc`, in
/// that declared order; the word boundary keeps `rand` from matching
/// inside `randc`.
pub open spec fn spec_random_qualifier(src: Seq<char>, pos: int) -> Step {
    alt2(spec_keyword(src, pos, "rand"@), spec_keyword(src, pos, "randc"@))
}

/// The node the random-qualifier production builds on success.
pub open spec fn random_qualifier_val(src: Seq<char>, pos: int) -> RandomQualifier {
    if spec_keyword(src, pos, "rand"@) is Done {
        RandomQualifier::Rand(sym_val(src, pos, "rand"@))
    } else {
        RandomQualifier::Randc(sym_val(src, pos, "randc"@))
    }
}

/// Parses `rand` or `randc`.
pub fn random_qualifier(src: &Vec<char>, c: Cursor) -> (r: Result<
    (Cursor, RandomQualifier),
    ParseFail,
>)
    requires
        wf_src(src@),
        wf_cursor(c, src@),
    ensures
        obeys(r, src@, c, spec_random_qualifier(src@, c.pos as int)),
        r matches Ok(p) ==> p.1 == random_qualifier_val(src@, c.pos as int) && wf_cursor(p.0, src@)
            && c.pos < p.0.pos,
{
    proof {
        reveal_strlit("rand");
        reveal_strlit("randc");
    }
    match keyword(src, c, "rand") {
        Ok(p) => { return Ok((p.0, RandomQualifier::Rand(Symbol { nodes: (p.1,) }))); },
        Err(_) => {},
    }
    match keyword(src, c, "randc") {
        Ok(p) => { return Ok((p.0, RandomQualifier::Randc(Symbol { nodes: (p.1,) }))); },
        Err(_) => {},
    }
    Err(ParseFail { hard: false, offset: c.pos, line: c.line })
}

/// The outcome of one attribute instance `(* name *)`; committed once
/// `(*` is consumed.
pub open spec fn spec_attribute_instance(src: Seq<char>, pos: int) -> Step {
    match spec_sym(src, pos, "(*"@) {
        Step::Done { end: e1 } => match cut_from(spec_ident(src, e1), e1) {
            Step::Done { end: e2 } => cut_from(spec_sym(src, e2, "*)"@), e2),
            s => s,
        },
        s => s,
    }
}

/// The node one attribute instance builds on success.
pub open spec fn attribute_instance_val(src: Seq<char>, pos: int) -> AttributeInstance {
    let e1 = step_end(spec_sym(src, pos, "(*"@));
    let e2 = step_end(spec_ident(src, e1));
    AttributeInstance {
        nodes: (sym_val(src, pos, "(*"@), identifier_val(src, e1), sym_val(src, e2, "*)"@)),
    }
}

/// Parses one attribute instance `(* name *)`.
pub fn attribute_instance(src: &Vec<char>, c: Cursor) -> (r: Result<
    (Cursor, AttributeInstance),
    ParseFail,
>)
    requires
        wf_src(src@),
        wf_cursor(c, src@),
    ensures
        obeys(r, src@, c, spec_attribute_instance(src@, c.pos as int)),
        r matches Ok(p) ==> p.1 == attribute_instance_val(src@, c.pos as int) && wf_cursor(
            p.0,
            src@,
        ) && c.pos < p.0.pos,
{
    proof {
        reveal_strlit("(*");
        reveal_strlit("*)");
    }
    let open = match symbol(src, c, "(*") {
        Ok(p) => p,
        Err(f) => { return Err(f); },
    };
    let name = match identifier(src, open.0) {
        Ok(p) => p,
        Err(f) => {
            if f.hard {
                return Err(f);
            }
            return Err(ParseFail { hard: true, offset: open.0.pos, line: open.0.line });
        },
    };
    let close = match symbol(src, name.0, "*)") {
        Ok(p) => p,
        Err(f) => {
            if f.hard {
                return Err(f);
            }
            return Err(ParseFail { hard: true, offset: name.0.pos, line: name.0.line });
        },
    };
    Ok(
        (
            close.0,
            AttributeInstance {
                nodes: (Symbol { nodes: (open.1,) }, name.1, Symbol { nodes: (close.1,) }),
            },
        ),
    )
}

/// The outcome of the attribute-instance repetition.
pub open spec fn spec_attribute_instances(src: Seq<char>, pos: int) -> Step
    decreases src.len() - pos,
{
    match spec_attribute_instance(src, pos) {
        Step::Miss => Step::Done { end: pos },
        Step::Halt { at } => Step::Halt { at },
        Step::Done { end } => if pos < end <= src.len() {
            spec_attribute_instances(src, end)
        } else {
            Step::Done { end: pos }
        },
    }
}

/// The nodes the attribute-instance repetition builds, in source order.
pub open spec fn attribute_instances_val(src: Seq<char>, pos: int) -> Seq<AttributeInstance>
    decreases src.len() - pos,
{
    match spec_attribute_instance(src, pos) {
        Step::Done { end } => if pos < end <= src.len() {
            seq![attribute_instance_val(src, pos)] + attribute_instances_val(src, end)
        } else {
            Seq::empty()
        },
        _ => Seq::empty(),
    }
}

/// Parses zero or more attribute instances, greedily.
pub fn attribute_instances(src: &Vec<char>, c: Cursor) -> (r: Result<
    (Cursor, Vec<AttributeInstance>),
    ParseFail,
>)
    requires
        wf_src(src@),
        wf_cursor(c, src@),
    ensures
        obeys(r, src@, c, spec_attribute_instances(src@, c.pos as int)),
        r matches Ok(p) ==> p.1@ == attribute_instances_val(src@, c.pos as int) && wf_cursor(
            p.0,
            src@,
        ) && c.pos <= p.0.pos,
        r matches Err(f) ==> f.hard,
{
    let mut cur = c;
    let mut v: Vec<AttributeInstance> = Vec::new();
    loop
        invariant
            wf_src(src@),
            wf_cursor(cur, src@),
            c.pos <= cur.pos,
            spec_attribute_instances(src@, c.pos as int) == spec_attribute_instances(
                src@,
                cur.pos as int,
            ),
            attribute_instances_val(src@, c.pos as int) =~= v@ + attribute_instances_val(
                src@,
                cur.pos as int,
            ),
        decreases src@.len() - cur.pos,
    {
        match attribute_instance(src, cur) {
            Ok(p) => {
                proof {
                    assert(attribute_instances_val(src@, cur.pos as int) =~= seq![
                        attribute_instance_val(src@, cur.pos as int),
                    ] + attribute_instances_val(src@, p.0.pos as int));
                }
                v.push(p.1);
                cur = p.0;
            },
            Err(f) => {
                if f.hard {
                    return Err(f);
                }
                proof {
                    assert(v@ + attribute_instances_val(src@, cur.pos as int) =~= v@);
                }
                return Ok((cur, v));
            },
        }
    }
}

/// The outcome of the `, name` tail of a variable-name list: a comma not
/// followed by a name is left unconsumed and ends the tail.
pub open spec fn spec_var_decl_tail(src: Seq<char>, pos: int) -> Step
    decreases src.len() - pos,
{
    match spec_sym(src, pos, ","@) {
        Step::Done { end: e1 } => match spec_ident(src, e1) {
            Step::Done { end: e2 } => if pos < e2 <= src.len() {
                spec_var_decl_tail(src, e2)
            } else {
                Step::Done { end: pos }
            },
            Step::Halt { at } => Step::Halt { at },
            Step::Miss => Step::Done { end: pos },
        },
        Step::Halt { at } => Step::Halt { at },
        Step::Miss => Step::Done { end: pos },
    }
}

/// The pairs the variable-name tail builds, in source order.
pub open spec fn var_decl_tail_val(src: Seq<char>, pos: int) -> Seq<(Symbol, Identifier)>
    decreases src.len() - pos,
{
    match spec_sym(src, pos, ","@) {
        Step::Done { end: e1 } => match spec_ident(src, e1) {
            Step::Done { end: e2 } => if pos < e2 <= src.len() {
                seq![(sym_val(src, pos, ","@), identifier_val(src, e1))] + var_decl_tail_val(
                    src,
                    e2,
                )
            } else {
                Seq::empty()
            },
            _ => Seq::empty(),
        },
        _ => Seq::empty(),
    }
}

/// Parses the `, name` tail of a variable-name list.
pub fn var_decl_tail(src: &Vec<char>, c: Cursor) -> (r: Result<
    (Cursor, Vec<(Symbol, Identifier)>),
    ParseFail,
>)
    requires
        wf_src(src@),
        wf_cursor(c, src@),
    ensures
        obeys(r, src@, c, spec_var_decl_tail(src@, c.pos as int)),
        r matches Ok(p) ==> p.1@ == var_decl_tail_val(src@, c.pos as int) && wf_cursor(p.0, src@)
            && c.pos <= p.0.pos,
        r matches Err(f) ==> f.hard,
{
    proof {
        reveal_strlit(",");
    }
    let mut cur = c;
    let mut v: Vec<(Symbol, Identifier)> = Vec::new();
    loop
        invariant
            wf_src(src@),
            wf_cursor(cur, src@),
            c.pos <= cur.pos,
            spec_var_decl_tail(src@, c.pos as int) == spec_var_decl_tail(src@, cur.pos as int),
            var_decl_tail_val(src@, c.pos as int) =~= v@ + var_decl_tail_val(src@, cur.pos as int),
        decreases src@.len() - cur.pos,
    {
        proof {
            reveal_strlit(",");
        }
        let cm = match symbol(src, cur, ",") {
            Ok(p) => p,
            Err(f) => {
                if f.hard {
                    return Err(f);
                }
                proof {
                    assert(v@ + var_decl_tail_val(src@, cur.pos as int) =~= v@);
                }
                return Ok((cur, v));
            },
        };
        match identifier(src, cm.0) {
            Ok(d) => {
                proof {
                    assert(var_decl_tail_val(src@, cur.pos as int) =~= seq![
                        (sym_val(src@, cur.pos as int, ","@), identifier_val(src@, cm.0.pos as int)),
                    ] + var_decl_tail_val(src@, d.0.pos as int));
                }
                v.push((Symbol { nodes: (cm.1,) }, d.1));
                cur = d.0;
            },
            Err(f) => {
                if f.hard {
                    return Err(f);
                }
                proof {
                    assert(v@ + var_decl_tail_val(src@, cur.pos as int) =~= v@);
                }
                return Ok((cur, v));
            },
        }
    }
}

/// The outcome of the variable-name-list production `name (, name)*`.
pub open spec fn spec_list_of_variable_decl_assignments(src: Seq<char>, pos: int) -> Step {
    match spec_ident(src, pos) {
        Step::Done { end: e1 } => spec_var_decl_tail(src, e1),
        s => s,
    }
}

/// What the variable-name-list production builds, field by field.
pub open spec fn is_list_of_variable_decl_assignments_val(
    x: ListOfVariableDeclAssignments,
    src: Seq<char>,
    pos: int,
) -> bool {
    let e1 = step_end(spec_ident(src, pos));
    &&& x.nodes.0 == identifier_val(src, pos)
    &&& x.nodes.1@ == var_decl_tail_val(src, e1)
}

/// Parses the declared variable names of one member.
pub fn list_of_variable_decl_assignments(src: &Vec<char>, c: Cursor) -> (r: Result<
    (Cursor, ListOfVariableDeclAssignments),
    ParseFail,
>)
    requires
        wf_src(src@),
        wf_cursor(c, src@),
    ensures
        obeys(r, src@, c, spec_list_of_variable_decl_assignments(src@, c.pos as int)),
        r matches Ok(p) ==> is_list_of_variable_decl_assignments_val(p.1, src@, c.pos as int)
            && wf_cursor(p.0, src@) && c.pos < p.0.pos,
{
    let name = match identifier(src, c) {
        Ok(p) => p,
        Err(f) => { return Err(f); },
    };
    let rest = match var_decl_tail(src, name.0) {
        Ok(p) => p,
        Err(f) => { return Err(f); },
    };
    Ok((rest.0, ListOfVariableDeclAssignments { nodes: (name.1, rest.1) }))
}

/// The outcome of the parameter-value-assignment production `# ( expr )`;
/// committed once `#` is consumed.
pub open spec fn spec_pva(src: Seq<char>, pos: int) -> Step {
    match spec_sym(src, pos, "#"@) {
        Step::Done { end: e1 } => match cut_from(spec_sym(src, e1, "("@), e1) {
            Step::Done { end: e2 } => match cut_from(spec_expression(src, e2), e2) {
                Step::Done { end: e3 } => cut_from(spec_sym(src, e3, ")"@), e3),
                s => s,
            },
            s => s,
        },
        s => s,
    }
}

/// The node the parameter-value-assignment production builds on success.
pub open spec fn pva_val(src: Seq<char>, pos: int) -> ParameterValueAssignment {
    let e1 = step_end(spec_sym(src, pos, "#"@));
    let e2 = step_end(spec_sym(src, e1, "("@));
    let e3 = step_end(spec_expression(src, e2));
    ParameterValueAssignment {
        nodes: (sym_val(src, pos, "#"@), sym_val(src, e1, "("@), expression_val(src, e2), sym_val(
            src,
            e3,
            ")"@,
        )),
    }
}

/// The optional parameter value assignment as a value.
pub open spec fn pva_opt_val(src: Seq<char>, pos: int) -> Option<ParameterValueAssignment> {
    if spec_pva(src, pos) is Done {
        Some(pva_val(src, pos))
    } else {
        None
    }
}

/// Parses `# ( expr )`.
pub fn parameter_value_assignment(src: &Vec<char>, c: Cursor) -> (r: Result<
    (Cursor, ParameterValueAssignment),
    ParseFail,
>)
    requires
        wf_src(src@),
        wf_cursor(c, src@),
    ensures
        obeys(r, src@, c, spec_pva(src@, c.pos as int)),
        r matches Ok(p) ==> p.1 == pva_val(src@, c.pos as int) && wf_cursor(p.0, src@) && c.pos
            < p.0.pos,
{
    proof {
        reveal_strlit("#");
        reveal_strlit("(");
        reveal_strlit(")");
    }
    let hash = match symbol(src, c, "#") {
        Ok(p) => p,
        Err(f) => { return Err(f); },
    };
    let open = match symbol(src, hash.0, "(") {
        Ok(p) => p,
        Err(f) => {
            if f.hard {
                return Err(f);
            }
            return Err(ParseFail { hard: true, offset: hash.0.pos, line: hash.0.line });
        },
    };
    let ex = match expression(src, open.0) {
        Ok(p) => p,
        Err(f) => {
            if f.hard {
                return Err(f);
            }
            return Err(ParseFail { hard: true, offset: open.0.pos, line: open.0.line });
        },
    };
    let close = match symbol(src, ex.0, ")") {
        Ok(p) => p,
        Err(f) => {
            if f.hard {
                return Err(f);
            }
            return Err(ParseFail { hard: true, offset: ex.0.pos, line: ex.0.line });
        },
    };
    Ok(
        (
            close.0,
            ParameterValueAssignment {
                nodes: (Symbol { nodes: (hash.1,) }, Symbol { nodes: (open.1,) }, ex.1, Symbol {
                    nodes: (close.1,),
                }),
            },
        ),
    )
}

/// Parses an optional `# ( expr )`; a hard failure inside it propagates.
pub fn opt_pva(src: &Vec<char>, c: Cursor) -> (r: Result<
    (Cursor, Option<ParameterValueAssignment>),
    ParseFail,
>)
    requires
        wf_src(src@),
        wf_cursor(c, src@),
    ensures
        obeys(r, src@, c, opt_step(spec_pva(src@, c.pos as int), c.pos as int)),
        r matches Ok(p) ==> p.1 == pva_opt_val(src@, c.pos as int) && wf_cursor(p.0, src@)
            && c.pos <= p.0.pos,
        r matches Err(f) ==> f.hard,
{
    match parameter_value_assignment(src, c) {
        Ok(p) => Ok((p.0, Some(p.1))),
        Err(f) => if f.hard {
            Err(f)
        } else {
            Ok((c, None))
        },
    }
}


/// The outcome of the package-scope production `name ::`.  Not committed:
/// a missing `::` is a soft miss, so an unscoped name can be tried by the
/// next alternative from the same cursor.
pub open spec fn spec_package_scope(src: Seq<char>, pos: int) -> Step {
    match spec_ident(src, pos) {
        Step::Done { end: e1 } => spec_sym(src, e1, "::"@),
        s => s,
    }
}

/// The node the package-scope production builds on success.
pub open spec fn package_scope_val(src: Seq<char>, pos: int) -> PackageScope {
    let e1 = step_end(spec_ident(src, pos));
    PackageScope { nodes: (identifier_val(src, pos), sym_val(src, e1, "::"@)) }
}

/// Parses `name ::`.
pub fn package_scope(src: &Vec<char>, c: Cursor) -> (r: Result<(Cursor, PackageScope), ParseFail>)
    requires
        wf_src(src@),
        wf_cursor(c, src@),
    ensures
        obeys(r, src@, c, spec_package_scope(src@, c.pos as int)),
        r matches Ok(p) ==> p.1 == package_scope_val(src@, c.pos as int) && wf_cursor(p.0, src@)
            && c.pos < p.0.pos,
{
    proof {
        reveal_strlit("::");
    }
    let name = match identifier(src, c) {
        Ok(p) => p,
        Err(f) => { return Err(f); },
    };
    let col = match symbol(src, name.0, "::") {
        Ok(p) => p,
        Err(f) => {
            if f.hard {
                return Err(f);
            }
            return Err(ParseFail { hard: false, offset: c.pos, line: c.line });
        },
    };
    Ok((col.0, PackageScope { nodes: (name.1, Symbol { nodes: (col.1,) }) }))
}

/// The outcome of one `:: name #(..)?` link of a class type.  Not
/// committed: a `::` not followed by a name is a soft miss, which leaves
/// the `::` unconsumed — exactly what lets a class-scope's own trailing
/// `::` match after the links end.
pub open spec fn spec_ct_link(src: Seq<char>, pos: int) -> Step {
    match spec_sym(src, pos, "::"@) {
        Step::Done { end: e1 } => match spec_ident(src, e1) {
            Step::Done { end: e2 } => opt_step(spec_pva(src, e2), e2),
            Step::Halt { at } => Step::Halt { at },
            Step::Miss => Step::Miss,
        },
        s => s,
    }
}

/// One link as a value.
pub open spec fn ct_link_val(src: Seq<char>, pos: int) -> (
    Symbol,
    Identifier,
    Option<ParameterValueAssignment>,
) {
    let e1 = step_end(spec_sym(src, pos, "::"@));
    let e2 = step_end(spec_ident(src, e1));
    (sym_val(src, pos, "::"@), identifier_val(src, e1), pva_opt_val(src, e2))
}

/// Parses one `:: name #(..)?` link.
pub fn ct_link(src: &Vec<char>, c: Cursor) -> (r: Result<
    (Cursor, (Symbol, Identifier, Option<ParameterValueAssignment>)),
    ParseFail,
>)
    requires
        wf_src(src@),
        wf_cursor(c, src@),
    ensures
        obeys(r, src@, c, spec_ct_link(src@, c.pos as int)),
        r matches Ok(p) ==> p.1 == ct_link_val(src@, c.pos as int) && wf_cursor(p.0, src@)
            && c.pos < p.0.pos,
{
    proof {
        reveal_strlit("::");
    }
    let col = match symbol(src, c, "::") {
        Ok(p) => p,
        Err(f) => { return Err(f); },
    };
    let name = match identifier(src, col.0) {
        Ok(p) => p,
        Err(f) => {
            if f.hard {
                return Err(f);
            }
            return Err(ParseFail { hard: false, offset: c.pos, line: c.line });
        },
    };
    let pva = match opt_pva(src, name.0) {
        Ok(p) => p,
        Err(f) => { return Err(f); },
    };
    Ok((pva.0, (Symbol { nodes: (col.1,) }, name.1, pva.1)))
}

/// The outcome of the link repetition of a class type.
pub open spec fn spec_ct_links(src: Seq<char>, pos: int) -> Step
    decreases src.len() - pos,
{
    match spec_ct_link(src, pos) {
        Step::Miss => Step::Done { end: pos },
        Step::Halt { at } => Step::Halt { at },
        Step::Done { end } => if pos < end <= src.len() {
            spec_ct_links(src, end)
        } else {
            Step::Done { end: pos }
        },
    }
}

/// The links the repetition builds, in source order.
pub open spec fn ct_links_val(src: Seq<char>, pos: int) -> Seq<
    (Symbol, Identifier, Option<ParameterValueAssignment>),
>
    decreases src.len() - pos,
{
    match spec_ct_link(src, pos) {
        Step::Done { end } => if pos < end <= src.len() {
            seq![ct_link_val(src, pos)] + ct_links_val(src, end)
        } else {
            Seq::empty()
        },
        _ => Seq::empty(),
    }
}

/// Parses zero or more `:: name #(..)?` links, greedily.
#[verifier::rlimit(100)]
#[verifier::spinoff_prover]
pub fn ct_links(src: &Vec<char>, c: Cursor) -> (r: Result<
    (Cursor, Vec<(Symbol, Identifier, Option<ParameterValueAssignment>)>),
    ParseFail,
>)
    requires
        wf_src(src@),
        wf_cursor(c, src@),
    ensures
        obeys(r, src@, c, spec_ct_links(src@, c.pos as int)),
        r matches Ok(p) ==> p.1@ == ct_links_val(src@, c.pos as int) && wf_cursor(p.0, src@)
            && c.pos <= p.0.pos,
        r matches Err(f) ==> f.hard,
{
    let mut cur = c;
    let mut v: Vec<(Symbol, Identifier, Option<ParameterValueAssignment>)> = Vec::new();
    loop
        invariant
            wf_src(src@),
            wf_cursor(cur, src@),
            c.pos <= cur.pos,
            spec_ct_links(src@, c.pos as int) == spec_ct_links(src@, cur.pos as int),
            ct_links_val(src@, c.pos as int) =~= v@ + ct_links_val(src@, cur.pos as int),
        decreases src@.len() - cur.pos,
    {
        match ct_link(src, cur) {
            Ok(p) => {
                proof {
                    assert(ct_links_val(src@, cur.pos as int) =~= seq![
                        ct_link_val(src@, cur.pos as int),
                    ] + ct_links_val(src@, p.0.pos as int));
                }
                v.push(p.1);
                cur = p.0;
            },
            Err(f) => {
                if f.hard {
                    return Err(f);
                }
                proof {
                    assert(v@ + ct_links_val(src@, cur.pos as int) =~= v@);
                }
                return Ok((cur, v));
            },
        }
    }
}

/// The outcome of the class-type production `name #(..)? (:: name
/// #(..)?)*`.
pub open spec fn spec_class_type(src: Seq<char>, pos: int) -> Step {
    match spec_ident(src, pos) {
        Step::Done { end: e1 } => match opt_step(spec_pva(src, e1), e1) {
            Step::Done { end: e2 } => spec_ct_links(src, e2),
            s => s,
        },
        s => s,
    }
}

/// What the class-type production builds, field by field.
pub open spec fn is_class_type_val(x: ClassType, src: Seq<char>, pos: int) -> bool {
    let e1 = step_end(spec_ident(src, pos));
    let e2 = step_end(opt_step(spec_pva(src, e1), e1));
    &&& x.nodes.0 == identifier_val(src, pos)
    &&& x.nodes.1 == pva_opt_val(src, e1)
    &&& x.nodes.2@ == ct_links_val(src, e2)
}

/// Parses a possibly scoped class type.
pub fn class_type(src: &Vec<char>, c: Cursor) -> (r: Result<(Cursor, ClassType), ParseFail>)
    requires
        wf_src(src@),
        wf_cursor(c, src@),
    ensures
        obeys(r, src@, c, spec_class_type(src@, c.pos as int)),
        r matches Ok(p) ==> is_class_type_val(p.1, src@, c.pos as int) && wf_cursor(p.0, src@)
            && c.pos < p.0.pos,
{
    let name = match identifier(src, c) {
        Ok(p) => p,
        Err(f) => { return Err(f); },
    };
    let pva = match opt_pva(src, name.0) {
        Ok(p) => p,
        Err(f) => { return Err(f); },
    };
    let links = match ct_links(src, pva.0) {
        Ok(p) => p,
        Err(f) => { return Err(f); },
    };
    Ok((links.0, ClassType { nodes: (name.1, pva.1, links.1) }))
}

/// The outcome of the class-scope production `class_type ::`.  Not
/// committed: a missing trailing `::` is a soft miss.
pub open spec fn spec_class_scope(src: Seq<char>, pos: int) -> Step {
    match spec_class_type(src, pos) {
        Step::Done { end: e1 } => spec_sym(src, e1, "::"@),
        s => s,
    }
}

/// What the class-scope production builds, field by field.
pub open spec fn is_class_scope_val(x: ClassScope, src: Seq<char>, pos: int) -> bool {
    let e1 = step_end(spec_class_type(src, pos));
    &&& is_class_type_val(x.nodes.0, src, pos)
    &&& x.nodes.1 == sym_val(src, e1, "::"@)
}

/// Parses `class_type ::`.
pub fn class_scope(src: &Vec<char>, c: Cursor) -> (r: Result<(Cursor, ClassScope), ParseFail>)
    requires
        wf_src(src@),
        wf_cursor(c, src@),
    ensures
        obeys(r, src@, c, spec_class_scope(src@, c.pos as int)),
        r matches Ok(p) ==> is_class_scope_val(p.1, src@, c.pos as int) && wf_cursor(p.0, src@)
            && c.pos < p.0.pos,
{
    proof {
        reveal_strlit("::");
    }
    let ct = match class_type(src, c) {
        Ok(p) => p,
        Err(f) => { return Err(f); },
    };
    let col = match symbol(src, ct.0, "::") {
        Ok(p) => p,
        Err(f) => {
            if f.hard {
                return Err(f);
            }
            return Err(ParseFail { hard: false, offset: c.pos, line: c.line });
        },
    };
    Ok((col.0, ClassScope { nodes: (ct.1, Symbol { nodes: (col.1,) }) }))
}

/// The outcome of the scope-prefix production: a package scope or a class
/// scope, tried in that declared order.
pub open spec fn spec_pscs(src: Seq<char>, pos: int) -> Step {
    alt2(spec_package_scope(src, pos), spec_class_scope(src, pos))
}

/// What the scope-prefix production builds: the alternative that matched,
/// with its exact fields.
pub open spec fn is_pscs_val(x: PackageScopeOrClassScope, src: Seq<char>, pos: int) -> bool {
    if spec_package_scope(src, pos) is Done {
        x matches PackageScopeOrClassScope::PackageScope(p) && p == package_scope_val(src, pos)
    } else {
        x matches PackageScopeOrClassScope::ClassScope(b) && is_class_scope_val(*b, src, pos)
    }
}

/// Parses a package or class scope prefix.
pub fn package_scope_or_class_scope(src: &Vec<char>, c: Cursor) -> (r: Result<
    (Cursor, PackageScopeOrClassScope),
    ParseFail,
>)
    requires
        wf_src(src@),
        wf_cursor(c, src@),
    ensures
        obeys(r, src@, c, spec_pscs(src@, c.pos as int)),
        r matches Ok(p) ==> is_pscs_val(p.1, src@, c.pos as int) && wf_cursor(p.0, src@) && c.pos
            < p.0.pos,
{
    match package_scope(src, c) {
        Ok(p) => { return Ok((p.0, PackageScopeOrClassScope::PackageScope(p.1))); },
        Err(f) => {
            if f.hard {
                return Err(f);
            }
        },
    }
    match class_scope(src, c) {
        Ok(p) => { return Ok((p.0, PackageScopeOrClassScope::ClassScope(Box::new(p.1)))); },
        Err(f) => {
            if f.hard {
                return Err(f);
            }
        },
    }
    Err(ParseFail { hard: false, offset: c.pos, line: c.line })
}

/// The outcome of the named data-type shape `scope? name dimension*`.
/// With no scope prefix a missing name is a soft miss; once a scope has
/// been consumed the name is owed, so its miss is a hard failure.
pub open spec fn spec_data_type_type(src: Seq<char>, pos: int) -> Step {
    match opt_step(spec_pscs(src, pos), pos) {
        Step::Done { end: e1 } => match (if e1 == pos {
            spec_ident(src, e1)
        } else {
            cut_from(spec_ident(src, e1), e1)
        }) {
            Step::Done { end: e2 } => spec_packed_dimensions(src, e2),
            s => s,
        },
        s => s,
    }
}

/// What the named data-type shape builds, field by field.
pub open spec fn is_data_type_type_val(x: DataTypeType, src: Seq<char>, pos: int) -> bool {
    let e1 = step_end(opt_step(spec_pscs(src, pos), pos));
    let e2 = step_end(spec_ident(src, e1));
    &&& (if spec_pscs(src, pos) is Done {
        x.nodes.0 matches Some(sc) && is_pscs_val(sc, src, pos)
    } else {
        x.nodes.0 is None
    })
    &&& x.nodes.1 == identifier_val(src, e1)
    &&& x.nodes.2@ == packed_dimensions_val(src, e2)
}

/// Parses `scope? name dimension*`.
#[verifier::rlimit(100)]
#[verifier::spinoff_prover]
pub fn data_type_type(src: &Vec<char>, c: Cursor) -> (r: Result<(Cursor, DataTypeType), ParseFail>)
    requires
        wf_src(src@),
        wf_cursor(c, src@),
    ensures
        obeys(r, src@, c, spec_data_type_type(src@, c.pos as int)),
        r matches Ok(p) ==> is_data_type_type_val(p.1, src@, c.pos as int) && wf_cursor(p.0, src@)
            && c.pos < p.0.pos,
{
    let (c1, scope) = match package_scope_or_class_scope(src, c) {
        Ok(p) => (p.0, Some(p.1)),
        Err(f) => {
            if f.hard {
                return Err(f);
            }
            (c, None)
        },
    };
    let name = match identifier(src, c1) {
        Ok(p) => p,
        Err(f) => {
            if f.hard {
                return Err(f);
            }
            match scope {
                Some(_) => { return Err(ParseFail { hard: true, offset: c1.pos, line: c1.line }); },
                None => { return Err(ParseFail { hard: false, offset: c.pos, line: c.line }); },
            }
        },
    };
    let dims = match packed_dimensions(src, name.0) {
        Ok(p) => p,
        Err(f) => { return Err(f); },
    };
    Ok((dims.0, DataTypeType { nodes: (scope, name.1, dims.1) }))
}

/// The outcome of the optional `. modport` suffix of a virtual interface
/// type; committed once `.` is consumed.
pub open spec fn spec_dot_modport(src: Seq<char>, pos: int) -> Step {
    match spec_sym(src, pos, "."@) {
        Step::Done { end: e1 } => cut_from(spec_ident(src, e1), e1),
        s => s,
    }
}

/// The optional `. modport` suffix as a value.
pub open spec fn dot_modport_opt_val(src: Seq<char>, pos: int) -> Option<(Symbol, Identifier)> {
    if spec_dot_modport(src, pos) is Done {
        Some((sym_val(src, pos, "."@), identifier_val(src, step_end(spec_sym(src, pos, "."@)))))
    } else {
        None
    }
}

/// The optional `interface` keyword as a value.
pub open spec fn interface_opt_val(src: Seq<char>, pos: int) -> Option<Interface> {
    if spec_keyword(src, pos, "interface"@) is Done {
        Some(Interface { nodes: (sym_val(src, pos, "interface"@),) })
    } else {
        None
    }
}

/// The outcome of the virtual-interface data-type shape; committed once
/// `virtual` is consumed.
pub open spec fn spec_data_type_virtual(src: Seq<char>, pos: int) -> Step {
    match spec_keyword(src, pos, "virtual"@) {
        Step::Done { end: e1 } => match opt_step(spec_keyword(src, e1, "interface"@), e1) {
            Step::Done { end: e2 } => match cut_from(spec_ident(src, e2), e2) {
                Step::Done { end: e3 } => match opt_step(spec_pva(src, e3), e3) {
                    Step::Done { end: e4 } => opt_step(spec_dot_modport(src, e4), e4),
                    s => s,
                },
                s => s,
            },
            s => s,
        },
        s => s,
    }
}

/// The node the virtual-interface shape builds on success.
pub open spec fn data_type_virtual_val(src: Seq<char>, pos: int) -> DataTypeVirtual {
    let e1 = step_end(spec_keyword(src, pos, "virtual"@));
    let e2 = step_end(opt_step(spec_keyword(src, e1, "interface"@), e1));
    let e3 = step_end(spec_ident(src, e2));
    let e4 = step_end(opt_step(spec_pva(src, e3), e3));
    DataTypeVirtual {
        nodes: (sym_val(src, pos, "virtual"@), interface_opt_val(src, e1), identifier_val(
            src,
            e2,
        ), pva_opt_val(src, e3), dot_modport_opt_val(src, e4)),
    }
}

/// Parses `virtual interface? name #(..)? (. modport)?`.
#[verifier::rlimit(100)]
#[verifier::spinoff_prover]
pub fn data_type_virtual(src: &Vec<char>, c: Cursor) -> (r: Result<
    (Cursor, DataTypeVirtual),
    ParseFail,
>)
    requires
        wf_src(src@),
        wf_cursor(c, src@),
    ensures
        obeys(r, src@, c, spec_data_type_virtual(src@, c.pos as int)),
        r matches Ok(p) ==> p.1 == data_type_virtual_val(src@, c.pos as int) && wf_cursor(
            p.0,
            src@,
        ) && c.pos < p.0.pos,
{
    proof {
        reveal_strlit("virtual");
        reveal_strlit("interface");
        reveal_strlit(".");
    }
    let kw = match keyword(src, c, "virtual") {
        Ok(p) => p,
        Err(f) => { return Err(f); },
    };
    let (c1, iface) = match keyword(src, kw.0, "interface") {
        Ok(p) => (p.0, Some(Interface { nodes: (Symbol { nodes: (p.1,) },) })),
        Err(_) => (kw.0, None),
    };
    let name = match identifier(src, c1) {
        Ok(p) => p,
        Err(f) => {
            if f.hard {
                return Err(f);
            }
            return Err(ParseFail { hard: true, offset: c1.pos, line: c1.line });
        },
    };
    let pva = match opt_pva(src, name.0) {
        Ok(p) => p,
        Err(f) => { return Err(f); },
    };
    let (c2, modp) = match symbol(src, pva.0, ".") {
        Ok(dot) => match identifier(src, dot.0) {
            Ok(m) => (m.0, Some((Symbol { nodes: (dot.1,) }, m.1))),
            Err(f) => {
                if f.hard {
                    return Err(f);
                }
                return Err(ParseFail { hard: true, offset: dot.0.pos, line: dot.0.line });
            },
        },
        Err(f) => {
            if f.hard {
                return Err(f);
            }
            (pva.0, None)
        },
    };
    Ok((c2, DataTypeVirtual { nodes: (Symbol { nodes: (kw.1,) }, iface, name.1, pva.1, modp) }))
}


/// The optional `packed signing?` group of a struct or union.
pub open spec fn spec_packed_signing(src: Seq<char>, pos: int) -> Step {
    match spec_keyword(src, pos, "packed"@) {
        Step::Done { end: e1 } => opt_step(spec_signing(src, e1), e1),
        s => s,
    }
}

/// The optional `packed signing?` group as a value.
pub open spec fn packed_signing_opt_val(src: Seq<char>, pos: int) -> Option<
    (Packed, Option<Signing>),
> {
    if spec_packed_signing(src, pos) is Done {
        let e1 = step_end(spec_keyword(src, pos, "packed"@));
        Some((Packed { nodes: (sym_val(src, pos, "packed"@),) }, signing_opt_val(src, e1)))
    } else {
        None
    }
}

/// The optional random qualifier as a value.
pub open spec fn random_qualifier_opt_val(src: Seq<char>, pos: int) -> Option<RandomQualifier> {
    if spec_random_qualifier(src, pos) is Done {
        Some(random_qualifier_val(src, pos))
    } else {
        None
    }
}

// --- the mutually recursive family ---------------------------------------
//
// A data type can hold a struct or union whose members again hold data
// types, and a type reference parenthesizes a data type.  The spec-level
// outcomes of this family terminate lexicographically: the remaining
// input shrinks across every consuming step (each entry into the cycle
// stands behind a consumed keyword or bracket, guarded explicitly), and
// at equal positions the production rank falls.  The guards also encode
// the zero-or-more rule: a sub-parse that consumed nothing ends the
// enclosing repetition instead of looping.

/// The outcome of the data-type production.  Alternatives led by a
/// distinguishing keyword are tried before the identifier-led ones —
/// this fragment's identifier terminal does not exclude reserved words,
/// so the keyword-led shapes must come first to stay reachable; within
/// each group the declared order of the shapes is kept.
#[verifier::opaque]
pub open spec fn spec_data_type(src: Seq<char>, pos: int) -> Step
    decreases src.len() - pos, 3int,
{
    alt2(
        spec_data_type_vector(src, pos),
        alt2(
            spec_data_type_atom(src, pos),
            alt2(
                spec_non_integer_type(src, pos),
                alt2(
                    spec_data_type_union(src, pos),
                    alt2(
                        spec_data_type_enum(src, pos),
                        alt2(
                            spec_keyword(src, pos, "string"@),
                            alt2(
                                spec_keyword(src, pos, "chandle"@),
                                alt2(
                                    spec_data_type_virtual(src, pos),
                                    alt2(
                                        spec_keyword(src, pos, "event"@),
                                        alt2(
                                            spec_type_reference(src, pos),
                                            alt2(
                                                spec_data_type_type(src, pos),
                                                alt2(
                                                    spec_class_type(src, pos),
                                                    spec_ident(src, pos),
                                                ),
                                            ),
                                        ),
                                    ),
                                ),
                            ),
                        ),
                    ),
                ),
            ),
        ),
    )
}

/// The outcome of the struct/union data-type shape; committed once its
/// body's `{` is consumed (inside the body).
#[verifier::opaque]
pub open spec fn spec_data_type_union(src: Seq<char>, pos: int) -> Step
    decreases src.len() - pos, 1int,
{
    match spec_struct_union(src, pos) {
        Step::Done { end: e1 } => match opt_step(spec_packed_signing(src, e1), e1) {
            Step::Done { end: e2 } => if pos < e2 <= src.len() {
                match cut_from(spec_struct_union_body(src, e2), e2) {
                    Step::Done { end: e3 } => spec_packed_dimensions(src, e3),
                    s => s,
                }
            } else {
                Step::Halt { at: e2 }
            },
            s => s,
        },
        s => s,
    }
}

/// The outcome of the struct/union body `{ member member* }`; committed
/// once `{` is consumed.
#[verifier::opaque]
pub open spec fn spec_struct_union_body(src: Seq<char>, pos: int) -> Step
    decreases src.len() - pos, 1int,
{
    match spec_sym(src, pos, "{"@) {
        Step::Done { end: e1 } => if pos < e1 <= src.len() {
            match cut_from(spec_struct_union_member(src, e1), e1) {
                Step::Done { end: e2 } => if pos < e2 <= src.len() {
                    match spec_sum_members(src, e2) {
                        Step::Done { end: e3 } => cut_from(spec_sym(src, e3, "}"@), e3),
                        s => s,
                    }
                } else {
                    Step::Halt { at: e1 }
                },
                s => s,
            }
        } else {
            Step::Halt { at: e1 }
        },
        s => s,
    }
}

/// The outcome of the member repetition of a struct/union body.
#[verifier::opaque]
pub open spec fn spec_sum_members(src: Seq<char>, pos: int) -> Step
    decreases src.len() - pos, 6int,
{
    match spec_struct_union_member(src, pos) {
        Step::Miss => Step::Done { end: pos },
        Step::Halt { at } => Step::Halt { at },
        Step::Done { end } => if pos < end <= src.len() {
            spec_sum_members(src, end)
        } else {
            Step::Done { end: pos }
        },
    }
}

/// The outcome of one struct/union member: attributes, an optional random
/// qualifier, a type or `void`, declared names, `;`.  With nothing
/// consumed a missing type is a soft miss (it ends the member list); once
/// an attribute or qualifier has been consumed the type is owed.
#[verifier::opaque]
pub open spec fn spec_struct_union_member(src: Seq<char>, pos: int) -> Step
    decreases src.len() - pos, 5int,
{
    match spec_attribute_instances(src, pos) {
        Step::Done { end: e1 } => match opt_step(spec_random_qualifier(src, e1), e1) {
            Step::Done { end: e2 } => if pos <= e2 <= src.len() {
                match spec_data_type_or_void(src, e2) {
                    Step::Done { end: e3 } => match cut_from(
                        spec_list_of_variable_decl_assignments(src, e3),
                        e3,
                    ) {
                        Step::Done { end: e4 } => cut_from(spec_sym(src, e4, ";"@), e4),
                        s => s,
                    },
                    Step::Halt { at } => Step::Halt { at },
                    Step::Miss => if e2 == pos {
                        Step::Miss
                    } else {
                        Step::Halt { at: e2 }
                    },
                }
            } else {
                Step::Miss
            },
            s => s,
        },
        s => s,
    }
}

/// The outcome of the data-type-or-void production.  `void` is tried
/// first: this fragment's identifier terminal does not exclude reserved
/// words, so the data-type alternative would otherwise swallow `void` as
/// a type name.
#[verifier::opaque]
pub open spec fn spec_data_type_or_void(src: Seq<char>, pos: int) -> Step
    decreases src.len() - pos, 4int,
{
    alt2(spec_keyword(src, pos, "void"@), spec_data_type(src, pos))
}

/// The outcome of the type-reference production; committed once `type (`
/// is consumed.  The parenthesized data type is tried before the
/// expression: an identifier between the parentheses is a named data
/// type, and only what cannot be a data type (a number) is an expression.
#[verifier::opaque]
pub open spec fn spec_type_reference(src: Seq<char>, pos: int) -> Step
    decreases src.len() - pos, 1int,
{
    match spec_keyword(src, pos, "type"@) {
        Step::Done { end: e1 } => match cut_from(spec_sym(src, e1, "("@), e1) {
            Step::Done { end: e2 } => if pos < e2 <= src.len() {
                match spec_data_type(src, e2) {
                    Step::Done { end: e3 } => cut_from(spec_sym(src, e3, ")"@), e3),
                    Step::Halt { at } => Step::Halt { at },
                    Step::Miss => match cut_from(spec_expression(src, e2), e2) {
                        Step::Done { end: e3 } => cut_from(spec_sym(src, e3, ")"@), e3),
                        s => s,
                    },
                }
            } else {
                Step::Halt { at: e2 }
            },
            s => s,
        },
        s => s,
    }
}

// --- the values the recursive family builds -------------------------------

/// What the data-type production builds: the first alternative whose
/// outcome is success, with its exact fields.
#[verifier::opaque]
pub open spec fn is_data_type_val(x: DataType, src: Seq<char>, pos: int) -> bool
    decreases src.len() - pos, 3int,
{
    if spec_data_type_vector(src, pos) is Done {
        x matches DataType::Vector(v) && is_data_type_vector_val(v, src, pos)
    } else if spec_data_type_atom(src, pos) is Done {
        x matches DataType::Atom(a) && a == data_type_atom_val(src, pos)
    } else if spec_non_integer_type(src, pos) is Done {
        x matches DataType::NonIntegerType(n) && n == non_integer_type_val(src, pos)
    } else if spec_data_type_union(src, pos) is Done {
        x matches DataType::Union(u) && is_data_type_union_val(*u, src, pos)
    } else if spec_data_type_enum(src, pos) is Done {
        x matches DataType::Enum(e) && is_data_type_enum_val(e, src, pos)
    } else if spec_keyword(src, pos, "string"@) is Done {
        x matches DataType::String(s) && s == sym_val(src, pos, "string"@)
    } else if spec_keyword(src, pos, "chandle"@) is Done {
        x matches DataType::Chandle(s) && s == sym_val(src, pos, "chandle"@)
    } else if spec_data_type_virtual(src, pos) is Done {
        x matches DataType::Virtual(v) && v == data_type_virtual_val(src, pos)
    } else if spec_keyword(src, pos, "event"@) is Done {
        x matches DataType::Event(s) && s == sym_val(src, pos, "event"@)
    } else if spec_type_reference(src, pos) is Done {
        x matches DataType::TypeReference(t) && is_type_reference_val(*t, src, pos)
    } else if spec_data_type_type(src, pos) is Done {
        x matches DataType::Type(t) && is_data_type_type_val(t, src, pos)
    } else if spec_class_type(src, pos) is Done {
        x matches DataType::ClassType(t) && is_class_type_val(t, src, pos)
    } else {
        x matches DataType::PsCovergroupIdentifier(i) && i == identifier_val(src, pos)
    }
}

/// What the struct/union shape builds, field by field.
#[verifier::opaque]
pub open spec fn is_data_type_union_val(x: DataTypeUnion, src: Seq<char>, pos: int) -> bool
    decreases src.len() - pos, 1int,
{
    let e1 = step_end(spec_struct_union(src, pos));
    let e2 = step_end(opt_step(spec_packed_signing(src, e1), e1));
    let e3 = step_end(spec_struct_union_body(src, e2));
    &&& x.nodes.0 == struct_union_val(src, pos)
    &&& x.nodes.1 == packed_signing_opt_val(src, e1)
    &&& (if pos < e2 <= src.len() {
        is_struct_union_body_val(x.nodes.2, src, e2)
    } else {
        true
    })
    &&& x.nodes.3@ == packed_dimensions_val(src, e3)
}

/// What the struct/union body builds, field by field.
#[verifier::opaque]
pub open spec fn is_struct_union_body_val(x: StructUnionBody, src: Seq<char>, pos: int) -> bool
    decreases src.len() - pos, 1int,
{
    let e1 = step_end(spec_sym(src, pos, "{"@));
    let e2 = step_end(spec_struct_union_member(src, e1));
    let e3 = step_end(spec_sum_members(src, e2));
    &&& x.nodes.0 == sym_val(src, pos, "{"@)
    &&& (if pos < e1 <= src.len() {
        is_struct_union_member_val(x.nodes.1, src, e1)
    } else {
        true
    })
    &&& (if pos < e2 <= src.len() {
        are_sum_members_val(x.nodes.2@, src, e2)
    } else {
        true
    })
    &&& x.nodes.3 == sym_val(src, e3, "}"@)
}

/// What the member repetition builds: one member per match, each with its
/// exact fields, in source order.
#[verifier::opaque]
pub open spec fn are_sum_members_val(ms: Seq<StructUnionMember>, src: Seq<char>, pos: int) -> bool
    decreases src.len() - pos, 6int,
{
    match spec_struct_union_member(src, pos) {
        Step::Done { end } => if pos < end <= src.len() {
            &&& ms.len() > 0
            &&& is_struct_union_member_val(ms[0], src, pos)
            &&& are_sum_members_val(ms.subrange(1, ms.len() as int), src, end)
        } else {
            ms.len() == 0
        },
        _ => ms.len() == 0,
    }
}

/// What one member builds, field by field.
#[verifier::opaque]
pub open spec fn is_struct_union_member_val(x: StructUnionMember, src: Seq<char>, pos: int) -> bool
    decreases src.len() - pos, 5int,
{
    let e1 = step_end(spec_attribute_instances(src, pos));
    let e2 = step_end(opt_step(spec_random_qualifier(src, e1), e1));
    let e3 = step_end(spec_data_type_or_void(src, e2));
    let e4 = step_end(spec_list_of_variable_decl_assignments(src, e3));
    &&& x.nodes.0@ == attribute_instances_val(src, pos)
    &&& x.nodes.1 == random_qualifier_opt_val(src, e1)
    &&& (if pos <= e2 <= src.len() {
        is_data_type_or_void_val(x.nodes.2, src, e2)
    } else {
        true
    })
    &&& is_list_of_variable_decl_assignments_val(x.nodes.3, src, e3)
    &&& x.nodes.4 == sym_val(src, e4, ";"@)
}

/// What the data-type-or-void production builds.
#[verifier::opaque]
pub open spec fn is_data_type_or_void_val(x: DataTypeOrVoid, src: Seq<char>, pos: int) -> bool
    decreases src.len() - pos, 4int,
{
    if spec_keyword(src, pos, "void"@) is Done {
        x matches DataTypeOrVoid::Void(s) && s == sym_val(src, pos, "void"@)
    } else {
        x matches DataTypeOrVoid::DataType(d) && is_data_type_val(d, src, pos)
    }
}

/// The node the expression shape of a type reference builds.
pub open spec fn type_reference_expression_val(src: Seq<char>, pos: int) -> TypeReferenceExpression {
    let e1 = step_end(spec_keyword(src, pos, "type"@));
    let e2 = step_end(spec_sym(src, e1, "("@));
    let e3 = step_end(spec_expression(src, e2));
    TypeReferenceExpression {
        nodes: (sym_val(src, pos, "type"@), sym_val(src, e1, "("@), expression_val(src, e2), sym_val(
            src,
            e3,
            ")"@,
        )),
    }
}

/// What the type-reference production builds: the parenthesized data type
/// when one matches, else the parenthesized expression.
#[verifier::opaque]
pub open spec fn is_type_reference_val(x: TypeReference, src: Seq<char>, pos: int) -> bool
    decreases src.len() - pos, 1int,
{
    let e1 = step_end(spec_keyword(src, pos, "type"@));
    let e2 = step_end(spec_sym(src, e1, "("@));
    if pos < e2 <= src.len() && spec_data_type(src, e2) is Done {
        let e3 = step_end(spec_data_type(src, e2));
        x matches TypeReference::DataType(d) && d.nodes.0 == sym_val(src, pos, "type"@)
            && d.nodes.1 == sym_val(src, e1, "("@) && is_data_type_val(*d.nodes.2, src, e2)
            && d.nodes.3 == sym_val(src, e3, ")"@)
    } else {
        x matches TypeReference::Expression(e) && e == type_reference_expression_val(src, pos)
    }
}

// --- the executable recursive family --------------------------------------

/// Parses a data type: the thirteen alternative shapes, keyword-led ones
/// first, each tried from the same cursor until one does not miss.
#[verifier::rlimit(100)]
#[verifier::spinoff_prover]
pub fn data_type(src: &Vec<char>, c: Cursor) -> (r: Result<(Cursor, DataType), ParseFail>)
    requires
        wf_src(src@),
        wf_cursor(c, src@),
    ensures
        obeys(r, src@, c, spec_data_type(src@, c.pos as int)),
        r matches Ok(p) ==> is_data_type_val(p.1, src@, c.pos as int) && wf_cursor(p.0, src@)
            && c.pos < p.0.pos,
    decreases src@.len() - c.pos, 3int,
{
    proof {
        reveal(spec_data_type);
        reveal(is_data_type_val);
        reveal_strlit("string");
        reveal_strlit("chandle");
        reveal_strlit("event");
    }
    match data_type_vector(src, c) {
        Ok(p) => { return Ok((p.0, DataType::Vector(p.1))); },
        Err(f) => {
            if f.hard {
                return Err(f);
            }
        },
    }
    match data_type_atom(src, c) {
        Ok(p) => { return Ok((p.0, DataType::Atom(p.1))); },
        Err(f) => {
            if f.hard {
                return Err(f);
            }
        },
    }
    match non_integer_type(src, c) {
        Ok(p) => { return Ok((p.0, DataType::NonIntegerType(p.1))); },
        Err(f) => {
            if f.hard {
                return Err(f);
            }
        },
    }
    match data_type_union(src, c) {
        Ok(p) => { return Ok((p.0, DataType::Union(Box::new(p.1)))); },
        Err(f) => {
            if f.hard {
                return Err(f);
            }
        },
    }
    match data_type_enum(src, c) {
        Ok(p) => { return Ok((p.0, DataType::Enum(p.1))); },
        Err(f) => {
            if f.hard {
                return Err(f);
            }
        },
    }
    match keyword(src, c, "string") {
        Ok(p) => { return Ok((p.0, DataType::String(Symbol { nodes: (p.1,) }))); },
        Err(_) => {},
    }
    match keyword(src, c, "chandle") {
        Ok(p) => { return Ok((p.0, DataType::Chandle(Symbol { nodes: (p.1,) }))); },
        Err(_) => {},
    }
    match data_type_virtual(src, c) {
        Ok(p) => { return Ok((p.0, DataType::Virtual(p.1))); },
        Err(f) => {
            if f.hard {
                return Err(f);
            }
        },
    }
    match keyword(src, c, "event") {
        Ok(p) => { return Ok((p.0, DataType::Event(Symbol { nodes: (p.1,) }))); },
        Err(_) => {},
    }
    match type_reference(src, c) {
        Ok(p) => { return Ok((p.0, DataType::TypeReference(Box::new(p.1)))); },
        Err(f) => {
            if f.hard {
                return Err(f);
            }
        },
    }
    match data_type_type(src, c) {
        Ok(p) => { return Ok((p.0, DataType::Type(p.1))); },
        Err(f) => {
            if f.hard {
                return Err(f);
            }
        },
    }
    match class_type(src, c) {
        Ok(p) => { return Ok((p.0, DataType::ClassType(p.1))); },
        Err(f) => {
            if f.hard {
                return Err(f);
            }
        },
    }
    match identifier(src, c) {
        Ok(p) => { return Ok((p.0, DataType::PsCovergroupIdentifier(p.1))); },
        Err(f) => {
            if f.hard {
                return Err(f);
            }
        },
    }
    Err(ParseFail { hard: false, offset: c.pos, line: c.line })
}

/// Parses a struct or union data type.
#[verifier::rlimit(100)]
#[verifier::spinoff_prover]
pub fn data_type_union(src: &Vec<char>, c: Cursor) -> (r: Result<(Cursor, DataTypeUnion), ParseFail>)
    requires
        wf_src(src@),
        wf_cursor(c, src@),
    ensures
        obeys(r, src@, c, spec_data_type_union(src@, c.pos as int)),
        r matches Ok(p) ==> is_data_type_union_val(p.1, src@, c.pos as int) && wf_cursor(
            p.0,
            src@,
        ) && c.pos < p.0.pos,
    decreases src@.len() - c.pos, 1int,
{
    proof {
        reveal(spec_data_type_union);
        reveal(is_data_type_union_val);
        reveal_strlit("packed");
    }
    let su = match struct_union(src, c) {
        Ok(p) => p,
        Err(f) => { return Err(f); },
    };
    let (c1, packed) = match keyword(src, su.0, "packed") {
        Ok(pk) => {
            let sg = match opt_signing(src, pk.0) {
                Ok(p) => p,
                Err(f) => { return Err(f); },
            };
            (sg.0, Some((Packed { nodes: (Symbol { nodes: (pk.1,) },) }, sg.1)))
        },
        Err(_) => (su.0, None),
    };
    let body = match struct_union_body(src, c1) {
        Ok(p) => p,
        Err(f) => {
            if f.hard {
                return Err(f);
            }
            return Err(ParseFail { hard: true, offset: c1.pos, line: c1.line });
        },
    };
    let dims = match packed_dimensions(src, body.0) {
        Ok(p) => p,
        Err(f) => { return Err(f); },
    };
    Ok((dims.0, DataTypeUnion { nodes: (su.1, packed, body.1, dims.1) }))
}

/// Parses the braced member list of a struct or union.
#[verifier::rlimit(100)]
#[verifier::spinoff_prover]
pub fn struct_union_body(src: &Vec<char>, c: Cursor) -> (r: Result<
    (Cursor, StructUnionBody),
    ParseFail,
>)
    requires
        wf_src(src@),
        wf_cursor(c, src@),
    ensures
        obeys(r, src@, c, spec_struct_union_body(src@, c.pos as int)),
        r matches Ok(p) ==> is_struct_union_body_val(p.1, src@, c.pos as int) && wf_cursor(
            p.0,
            src@,
        ) && c.pos < p.0.pos,
    decreases src@.len() - c.pos, 1int,
{
    proof {
        reveal(spec_struct_union_body);
        reveal(is_struct_union_body_val);
        reveal_strlit("{");
        reveal_strlit("}");
    }
    let open = match symbol(src, c, "{") {
        Ok(p) => p,
        Err(f) => { return Err(f); },
    };
    let first = match struct_union_member(src, open.0) {
        Ok(p) => p,
        Err(f) => {
            if f.hard {
                return Err(f);
            }
            return Err(ParseFail { hard: true, offset: open.0.pos, line: open.0.line });
        },
    };
    let rest = match sum_members(src, first.0) {
        Ok(p) => p,
        Err(f) => { return Err(f); },
    };
    let close = match symbol(src, rest.0, "}") {
        Ok(p) => p,
        Err(f) => {
            if f.hard {
                return Err(f);
            }
            return Err(ParseFail { hard: true, offset: rest.0.pos, line: rest.0.line });
        },
    };
    Ok(
        (
            close.0,
            StructUnionBody {
                nodes: (Symbol { nodes: (open.1,) }, first.1, rest.1, Symbol { nodes: (close.1,) }),
            },
        ),
    )
}

/// Parses zero or more further members, greedily.
#[verifier::rlimit(100)]
#[verifier::spinoff_prover]
pub fn sum_members(src: &Vec<char>, c: Cursor) -> (r: Result<
    (Cursor, Vec<StructUnionMember>),
    ParseFail,
>)
    requires
        wf_src(src@),
        wf_cursor(c, src@),
    ensures
        obeys(r, src@, c, spec_sum_members(src@, c.pos as int)),
        r matches Ok(p) ==> are_sum_members_val(p.1@, src@, c.pos as int) && wf_cursor(p.0, src@)
            && c.pos <= p.0.pos,
        r matches Err(f) ==> f.hard,
    decreases src@.len() - c.pos, 6int,
{
    proof {
        reveal(spec_sum_members);
        reveal(are_sum_members_val);
    }
    match struct_union_member(src, c) {
        Err(f) => {
            if f.hard {
                return Err(f);
            }
            let v: Vec<StructUnionMember> = Vec::new();
            Ok((c, v))
        },
        Ok(m) => {
            let mut rest = match sum_members(src, m.0) {
                Ok(p) => p,
                Err(f) => { return Err(f); },
            };
            let ghost rest_view = rest.1@;
            let mut v: Vec<StructUnionMember> = Vec::new();
            v.push(m.1);
            v.append(&mut rest.1);
            proof {
                assert(v@ =~= seq![m.1] + rest_view);
                assert(v@.subrange(1, v@.len() as int) =~= rest_view);
            }
            Ok((rest.0, v))
        },
    }
}

/// Parses one struct or union member.
#[verifier::rlimit(100)]
#[verifier::spinoff_prover]
pub fn struct_union_member(src: &Vec<char>, c: Cursor) -> (r: Result<
    (Cursor, StructUnionMember),
    ParseFail,
>)
    requires
        wf_src(src@),
        wf_cursor(c, src@),
    ensures
        obeys(r, src@, c, spec_struct_union_member(src@, c.pos as int)),
        r matches Ok(p) ==> is_struct_union_member_val(p.1, src@, c.pos as int) && wf_cursor(
            p.0,
            src@,
        ) && c.pos < p.0.pos,
    decreases src@.len() - c.pos, 5int,
{
    proof {
        reveal(spec_struct_union_member);
        reveal(is_struct_union_member_val);
        reveal_strlit(";");
    }
    let attrs = match attribute_instances(src, c) {
        Ok(p) => p,
        Err(f) => { return Err(f); },
    };
    let (c1, rq) = match random_qualifier(src, attrs.0) {
        Ok(p) => (p.0, Some(p.1)),
        Err(f) => {
            if f.hard {
                return Err(f);
            }
            (attrs.0, None)
        },
    };
    let ty = match data_type_or_void(src, c1) {
        Ok(p) => p,
        Err(f) => {
            if f.hard {
                return Err(f);
            }
            if c1.pos == c.pos {
                return Err(ParseFail { hard: false, offset: c.pos, line: c.line });
            }
            return Err(ParseFail { hard: true, offset: c1.pos, line: c1.line });
        },
    };
    let names = match list_of_variable_decl_assignments(src, ty.0) {
        Ok(p) => p,
        Err(f) => {
            if f.hard {
                return Err(f);
            }
            return Err(ParseFail { hard: true, offset: ty.0.pos, line: ty.0.line });
        },
    };
    let semi = match symbol(src, names.0, ";") {
        Ok(p) => p,
        Err(f) => {
            if f.hard {
                return Err(f);
            }
            return Err(ParseFail { hard: true, offset: names.0.pos, line: names.0.line });
        },
    };
    Ok(
        (
            semi.0,
            StructUnionMember {
                nodes: (attrs.1, rq, ty.1, names.1, Symbol { nodes: (semi.1,) }),
            },
        ),
    )
}

/// Parses a data type or `void`.
#[verifier::rlimit(100)]
#[verifier::spinoff_prover]
pub fn data_type_or_void(src: &Vec<char>, c: Cursor) -> (r: Result<
    (Cursor, DataTypeOrVoid),
    ParseFail,
>)
    requires
        wf_src(src@),
        wf_cursor(c, src@),
    ensures
        obeys(r, src@, c, spec_data_type_or_void(src@, c.pos as int)),
        r matches Ok(p) ==> is_data_type_or_void_val(p.1, src@, c.pos as int) && wf_cursor(
            p.0,
            src@,
        ) && c.pos < p.0.pos,
    decreases src@.len() - c.pos, 4int,
{
    proof {
        reveal(spec_data_type_or_void);
        reveal(is_data_type_or_void_val);
        reveal_strlit("void");
    }
    match keyword(src, c, "void") {
        Ok(p) => { return Ok((p.0, DataTypeOrVoid::Void(Symbol { nodes: (p.1,) }))); },
        Err(_) => {},
    }
    match data_type(src, c) {
        Ok(p) => Ok((p.0, DataTypeOrVoid::DataType(p.1))),
        Err(f) => Err(f),
    }
}

/// Parses `type ( data_type )` or `type ( expression )`.
#[verifier::rlimit(100)]
#[verifier::spinoff_prover]
pub fn type_reference(src: &Vec<char>, c: Cursor) -> (r: Result<(Cursor, TypeReference), ParseFail>)
    requires
        wf_src(src@),
        wf_cursor(c, src@),
    ensures
        obeys(r, src@, c, spec_type_reference(src@, c.pos as int)),
        r matches Ok(p) ==> is_type_reference_val(p.1, src@, c.pos as int) && wf_cursor(p.0, src@)
            && c.pos < p.0.pos,
    decreases src@.len() - c.pos, 1int,
{
    proof {
        reveal(spec_type_reference);
        reveal(is_type_reference_val);
        reveal_strlit("type");
        reveal_strlit("(");
        reveal_strlit(")");
    }
    let kw = match keyword(src, c, "type") {
        Ok(p) => p,
        Err(f) => { return Err(f); },
    };
    let open = match symbol(src, kw.0, "(") {
        Ok(p) => p,
        Err(f) => {
            if f.hard {
                return Err(f);
            }
            return Err(ParseFail { hard: true, offset: kw.0.pos, line: kw.0.line });
        },
    };
    match data_type(src, open.0) {
        Ok(d) => {
            let close = match symbol(src, d.0, ")") {
                Ok(p) => p,
                Err(f) => {
                    if f.hard {
                        return Err(f);
                    }
                    return Err(ParseFail { hard: true, offset: d.0.pos, line: d.0.line });
                },
            };
            return Ok(
                (
                    close.0,
                    TypeReference::DataType(
                        TypeReferenceDataType {
                            nodes: (Symbol { nodes: (kw.1,) }, Symbol { nodes: (open.1,) }, Box::new(
                                d.1,
                            ), Symbol { nodes: (close.1,) }),
                        },
                    ),
                ),
            );
        },
        Err(f) => {
            if f.hard {
                return Err(f);
            }
        },
    }
    let ex = match expression(src, open.0) {
        Ok(p) => p,
        Err(f) => {
            if f.hard {
                return Err(f);
            }
            return Err(ParseFail { hard: true, offset: open.0.pos, line: open.0.line });
        },
    };
    let close = match symbol(src, ex.0, ")") {
        Ok(p) => p,
        Err(f) => {
            if f.hard {
                return Err(f);
            }
            return Err(ParseFail { hard: true, offset: ex.0.pos, line: ex.0.line });
        },
    };
    Ok(
        (
            close.0,
            TypeReference::Expression(
                TypeReferenceExpression {
                    nodes: (Symbol { nodes: (kw.1,) }, Symbol { nodes: (open.1,) }, ex.1, Symbol {
                        nodes: (close.1,),
                    }),
                },
            ),
        ),
    )
}


/// The outcome of the data-type-or-implicit production.  The implicit
/// alternative may be empty, so the production succeeds on every input.
pub open spec fn spec_data_type_or_implicit(src: Seq<char>, pos: int) -> Step {
    alt2(spec_data_type(src, pos), spec_implicit_data_type(src, pos))
}

/// What the data-type-or-implicit production builds.
pub open spec fn is_data_type_or_implicit_val(
    x: DataTypeOrImplicit,
    src: Seq<char>,
    pos: int,
) -> bool {
    if spec_data_type(src, pos) is Done {
        x matches DataTypeOrImplicit::DataType(d) && is_data_type_val(d, src, pos)
    } else {
        x matches DataTypeOrImplicit::ImplicitDataType(i) && is_implicit_data_type_val(i, src, pos)
    }
}

/// Parses a data type, or else an implicit data type (possibly empty).
pub fn data_type_or_implicit(src: &Vec<char>, c: Cursor) -> (r: Result<
    (Cursor, DataTypeOrImplicit),
    ParseFail,
>)
    requires
        wf_src(src@),
        wf_cursor(c, src@),
    ensures
        obeys(r, src@, c, spec_data_type_or_implicit(src@, c.pos as int)),
        r matches Ok(p) ==> is_data_type_or_implicit_val(p.1, src@, c.pos as int) && wf_cursor(
            p.0,
            src@,
        ) && c.pos <= p.0.pos,
        r matches Err(f) ==> f.hard,
{
    match data_type(src, c) {
        Ok(p) => { return Ok((p.0, DataTypeOrImplicit::DataType(p.1))); },
        Err(f) => {
            if f.hard {
                return Err(f);
            }
        },
    }
    match implicit_data_type(src, c) {
        Ok(p) => Ok((p.0, DataTypeOrImplicit::ImplicitDataType(p.1))),
        Err(f) => Err(f),
    }
}

/// The outcome of the simple-type production.  The declared shape lists
/// the integer-type and identifier alternatives twice; under first-match
/// alternation the duplicates collapse, so the outcome is integer type or
/// identifier.
pub open spec fn spec_simple_type(src: Seq<char>, pos: int) -> Step {
    alt2(spec_integer_type(src, pos), spec_ident(src, pos))
}

/// The node the simple-type production builds on success.
pub open spec fn simple_type_val(src: Seq<char>, pos: int) -> SimpleType {
    if spec_integer_type(src, pos) is Done {
        SimpleType::IntegerType(integer_type_val(src, pos))
    } else {
        SimpleType::PsTypeIdentifier(identifier_val(src, pos))
    }
}

/// Parses a simple type: an integer type, or else a type identifier.
pub fn simple_type(src: &Vec<char>, c: Cursor) -> (r: Result<(Cursor, SimpleType), ParseFail>)
    requires
        wf_src(src@),
        wf_cursor(c, src@),
    ensures
        obeys(r, src@, c, spec_simple_type(src@, c.pos as int)),
        r matches Ok(p) ==> p.1 == simple_type_val(src@, c.pos as int) && wf_cursor(p.0, src@)
            && c.pos < p.0.pos,
{
    match integer_type(src, c) {
        Ok(p) => { return Ok((p.0, SimpleType::IntegerType(p.1))); },
        Err(f) => {
            if f.hard {
                return Err(f);
            }
        },
    }
    match identifier(src, c) {
        Ok(p) => { return Ok((p.0, SimpleType::PsTypeIdentifier(p.1))); },
        Err(f) => {
            if f.hard {
                return Err(f);
            }
        },
    }
    Err(ParseFail { hard: false, offset: c.pos, line: c.line })
}

/// The outcome of the casting-type production.  Keyword-led alternatives
/// (signing, `string`, `const`) are tried before the identifier-led ones,
/// since this fragment's identifier terminal does not exclude reserved
/// words; within each group the declared order is kept.
pub open spec fn spec_casting_type(src: Seq<char>, pos: int) -> Step {
    alt2(
        spec_signing(src, pos),
        alt2(
            spec_keyword(src, pos, "string"@),
            alt2(
                spec_keyword(src, pos, "const"@),
                alt2(spec_simple_type(src, pos), spec_constant_primary(src, pos)),
            ),
        ),
    )
}

/// What the casting-type production builds.
pub open spec fn is_casting_type_val(x: CastingType, src: Seq<char>, pos: int) -> bool {
    if spec_signing(src, pos) is Done {
        x matches CastingType::Signing(b) && *b == signing_val(src, pos)
    } else if spec_keyword(src, pos, "string"@) is Done {
        x matches CastingType::String(s) && s == sym_val(src, pos, "string"@)
    } else if spec_keyword(src, pos, "const"@) is Done {
        x matches CastingType::Const(s) && s == sym_val(src, pos, "const"@)
    } else if spec_simple_type(src, pos) is Done {
        x matches CastingType::SimpleType(b) && *b == simple_type_val(src, pos)
    } else {
        x matches CastingType::ConstantPrimary(b) && *b == constant_primary_val(src, pos)
    }
}

/// Parses a casting type.
pub fn casting_type(src: &Vec<char>, c: Cursor) -> (r: Result<(Cursor, CastingType), ParseFail>)
    requires
        wf_src(src@),
        wf_cursor(c, src@),
    ensures
        obeys(r, src@, c, spec_casting_type(src@, c.pos as int)),
        r matches Ok(p) ==> is_casting_type_val(p.1, src@, c.pos as int) && wf_cursor(p.0, src@)
            && c.pos < p.0.pos,
{
    proof {
        reveal_strlit("string");
        reveal_strlit("const");
    }
    match signing(src, c) {
        Ok(p) => { return Ok((p.0, CastingType::Signing(Box::new(p.1)))); },
        Err(f) => {
            if f.hard {
                return Err(f);
            }
        },
    }
    match keyword(src, c, "string") {
        Ok(p) => { return Ok((p.0, CastingType::String(Symbol { nodes: (p.1,) }))); },
        Err(_) => {},
    }
    match keyword(src, c, "const") {
        Ok(p) => { return Ok((p.0, CastingType::Const(Symbol { nodes: (p.1,) }))); },
        Err(_) => {},
    }
    match simple_type(src, c) {
        Ok(p) => { return Ok((p.0, CastingType::SimpleType(Box::new(p.1)))); },
        Err(f) => {
            if f.hard {
                return Err(f);
            }
        },
    }
    match constant_primary(src, c) {
        Ok(p) => { return Ok((p.0, CastingType::ConstantPrimary(Box::new(p.1)))); },
        Err(f) => {
            if f.hard {
                return Err(f);
            }
        },
    }
    Err(ParseFail { hard: false, offset: c.pos, line: c.line })
}

/// The optional net type as a value.
pub open spec fn net_type_opt_val(src: Seq<char>, pos: int) -> Option<NetType> {
    if spec_net_type(src, pos) is Done {
        Some(net_type_val(src, pos))
    } else {
        None
    }
}

/// The outcome of the net-port-type production.  Its first declared
/// alternative — an optional net type before a data type or implicit —
/// succeeds on every input, so the later alternatives (a bare net-type
/// identifier, an interconnect) can never be reached, and the contract
/// records the first.
pub open spec fn spec_net_port_type(src: Seq<char>, pos: int) -> Step {
    match opt_step(spec_net_type(src, pos), pos) {
        Step::Done { end: e1 } => spec_data_type_or_implicit(src, e1),
        s => s,
    }
}

/// What the net-port-type production builds.
pub open spec fn is_net_port_type_val(x: NetPortType, src: Seq<char>, pos: int) -> bool {
    let e1 = step_end(opt_step(spec_net_type(src, pos), pos));
    x matches NetPortType::DataType(d) && d.nodes.0 == net_type_opt_val(src, pos)
        && is_data_type_or_implicit_val(d.nodes.1, src, e1)
}

/// Parses a net port type: an optional net type, then a data type or
/// implicit.
pub fn net_port_type(src: &Vec<char>, c: Cursor) -> (r: Result<(Cursor, NetPortType), ParseFail>)
    requires
        wf_src(src@),
        wf_cursor(c, src@),
    ensures
        obeys(r, src@, c, spec_net_port_type(src@, c.pos as int)),
        r matches Ok(p) ==> is_net_port_type_val(p.1, src@, c.pos as int) && wf_cursor(p.0, src@)
            && c.pos <= p.0.pos,
        r matches Err(f) ==> f.hard,
{
    let (c1, nt) = match net_type(src, c) {
        Ok(p) => (p.0, Some(p.1)),
        Err(f) => {
            if f.hard {
                return Err(f);
            }
            (c, None)
        },
    };
    let ty = match data_type_or_implicit(src, c1) {
        Ok(p) => p,
        Err(f) => { return Err(f); },
    };
    Ok((ty.0, NetPortType::DataType(NetPortTypeDataType { nodes: (nt, ty.1) })))
}

/// The outcome of the `var data_type_or_implicit` alternative.
pub open spec fn spec_var_part(src: Seq<char>, pos: int) -> Step {
    match spec_keyword(src, pos, "var"@) {
        Step::Done { end: e1 } => spec_data_type_or_implicit(src, e1),
        s => s,
    }
}

/// The outcome of the var-data-type production.  The `var` keyword is
/// tried first: this fragment's identifier terminal does not exclude
/// reserved words, so the data-type alternative would otherwise swallow
/// `var` as a type name.
pub open spec fn spec_var_data_type(src: Seq<char>, pos: int) -> Step {
    alt2(spec_var_part(src, pos), spec_data_type(src, pos))
}

/// What the var-data-type production builds.
pub open spec fn is_var_data_type_val(x: VarDataType, src: Seq<char>, pos: int) -> bool {
    if spec_var_part(src, pos) is Done {
        let e1 = step_end(spec_keyword(src, pos, "var"@));
        x matches VarDataType::Var(v) && v.nodes.0 == sym_val(src, pos, "var"@)
            && is_data_type_or_implicit_val(v.nodes.1, src, e1)
    } else {
        x matches VarDataType::DataType(d) && is_data_type_val(d, src, pos)
    }
}

/// Parses a variable data type: `var` with a data type or implicit, or
/// else a data type.
pub fn var_data_type(src: &Vec<char>, c: Cursor) -> (r: Result<(Cursor, VarDataType), ParseFail>)
    requires
        wf_src(src@),
        wf_cursor(c, src@),
    ensures
        obeys(r, src@, c, spec_var_data_type(src@, c.pos as int)),
        r matches Ok(p) ==> is_var_data_type_val(p.1, src@, c.pos as int) && wf_cursor(p.0, src@)
            && c.pos < p.0.pos,
{
    proof {
        reveal_strlit("var");
    }
    match keyword(src, c, "var") {
        Ok(kw) => {
            let ty = match data_type_or_implicit(src, kw.0) {
                Ok(p) => p,
                Err(f) => { return Err(f); },
            };
            return Ok(
                (
                    ty.0,
                    VarDataType::Var(VarDataTypeVar { nodes: (Symbol { nodes: (kw.1,) }, ty.1) }),
                ),
            );
        },
        Err(_) => {},
    }
    match data_type(src, c) {
        Ok(p) => Ok((p.0, VarDataType::DataType(p.1))),
        Err(f) => Err(f),
    }
}

/// The outcome of the variable-port-type production.
pub open spec fn spec_variable_port_type(src: Seq<char>, pos: int) -> Step {
    spec_var_data_type(src, pos)
}

/// What the variable-port-type production builds.
pub open spec fn is_variable_port_type_val(x: VariablePortType, src: Seq<char>, pos: int) -> bool {
    is_var_data_type_val(x.nodes.0, src, pos)
}

/// Parses the type of a variable port.
pub fn variable_port_type(src: &Vec<char>, c: Cursor) -> (r: Result<
    (Cursor, VariablePortType),
    ParseFail,
>)
    requires
        wf_src(src@),
        wf_cursor(c, src@),
    ensures
        obeys(r, src@, c, spec_variable_port_type(src@, c.pos as int)),
        r matches Ok(p) ==> is_variable_port_type_val(p.1, src@, c.pos as int) && wf_cursor(
            p.0,
            src@,
        ) && c.pos < p.0.pos,
{
    match var_data_type(src, c) {
        Ok(p) => Ok((p.0, VariablePortType { nodes: (p.1,) })),
        Err(f) => Err(f),
    }
}

} // verus!
