//! The generic reference / tagged-union layer.
//!
//! Every node shape of the grammar has one case in the closed union
//! [`RefNode`], and every node can list its immediate children in source
//! order as values of that union (the [`Node`] trait) — the single
//! capability on which uniform depth-first walks rest, with no per-type
//! visitor code at any call site.
//!
//! The mathematical model of a tree is the ghost [`GNode`]: its tag, the
//! span when the node is a leaf, and the views of its children.  The spec
//! function [`preorder`] over this model pins the depth-first visit order
//! of a tree exactly — a node, then its children left to right — so any
//! walk proved against it is deterministic: repeated walks of the same
//! tree visit the same nodes in the same order.  The totality lemma below
//! states that this order reaches every node of the tree exactly once.

use vstd::prelude::*;
use crate::span::Locate;
use crate::nodes::{
    AttributeInstance, CastingType, ClassScope, ClassType, ConstantExpression, ConstantPrimary,
    ConstantRange, DataType, DataTypeAtom, DataTypeEnum, DataTypeOrImplicit, DataTypeOrVoid,
    DataTypeType, DataTypeUnion, DataTypeVector, DataTypeVirtual, EnumBaseType, EnumBaseTypeAtom,
    EnumBaseTypeType, EnumBaseTypeVector, EnumBody, EnumNameDeclaration, EnumNameRange, Expression,
    Identifier, ImplicitDataType, IntegerAtomType, IntegerType, IntegerVectorType, IntegralNumber,
    Interface, ListOfVariableDeclAssignments, NetPortType, NetPortTypeDataType,
    NetPortTypeInterconnect, NetType, NonIntegerType, Packed, PackageScope,
    PackageScopeOrClassScope, PackedDimension, ParameterValueAssignment, RandomQualifier, Signing,
    SimpleType, StructUnion, StructUnionBody, StructUnionMember, Symbol, TypeReference,
    TypeReferenceDataType, TypeReferenceExpression, VarDataType, VarDataTypeVar, VariablePortType,
};

verus! {

/// Which node shape a [`RefNode`] carries: one case per shape of the
/// grammar, plus the span leaf.
#[derive(Debug, Clone, Copy, PartialEq, Eq, Structural)]
pub enum Tag {
    Locate,
    Symbol,
    Identifier,
    IntegralNumber,
    ConstantPrimary,
    ConstantExpression,
    Expression,
    ConstantRange,
    PackedDimension,
    Signing,
    IntegerVectorType,
    IntegerAtomType,
    NonIntegerType,
    NetType,
    IntegerType,
    StructUnion,
    DataTypeVector,
    DataTypeAtom,
    Packed,
    RandomQualifier,
    AttributeInstance,
    ListOfVariableDeclAssignments,
    StructUnionMember,
    StructUnionBody,
    DataTypeUnion,
    EnumNameRange,
    EnumNameDeclaration,
    EnumBody,
    EnumBaseTypeAtom,
    EnumBaseTypeVector,
    EnumBaseTypeType,
    EnumBaseType,
    DataTypeEnum,
    Interface,
    ParameterValueAssignment,
    DataTypeVirtual,
    PackageScope,
    ClassType,
    ClassScope,
    PackageScopeOrClassScope,
    DataTypeType,
    TypeReferenceExpression,
    TypeReferenceDataType,
    TypeReference,
    DataType,
    ImplicitDataType,
    DataTypeOrImplicit,
    DataTypeOrVoid,
    CastingType,
    SimpleType,
    NetPortTypeDataType,
    NetPortTypeInterconnect,
    NetPortType,
    VarDataTypeVar,
    VarDataType,
    VariablePortType,
}

/// The ghost model of a node: its tag, its span when it is a span leaf,
/// and the models of its children in source order.
#[verifier::ext_equal]
pub struct GNode {
    pub tag: Tag,
    pub loc: Option<Locate>,
    pub children: Seq<GNode>,
}

/// The model of a span leaf.
pub open spec fn leaf(l: Locate) -> GNode {
    GNode { tag: Tag::Locate, loc: Some(l), children: Seq::empty() }
}

/// The model of a composite with the given children.
pub open spec fn comp(t: Tag, cs: Seq<GNode>) -> GNode {
    GNode { tag: t, loc: None, children: cs }
}

/// A tagged reference to any concrete node: the closed union over all node
/// shapes of the grammar.  Span leaves report no children.
#[derive(Debug, Clone, Copy)]
pub enum RefNode<'a> {
    Locate(&'a Locate),
    Symbol(&'a Symbol),
    Identifier(&'a Identifier),
    IntegralNumber(&'a IntegralNumber),
    ConstantPrimary(&'a ConstantPrimary),
    ConstantExpression(&'a ConstantExpression),
    Expression(&'a Expression),
    ConstantRange(&'a ConstantRange),
    PackedDimension(&'a PackedDimension),
    Signing(&'a Signing),
    IntegerVectorType(&'a IntegerVectorType),
    IntegerAtomType(&'a IntegerAtomType),
    NonIntegerType(&'a NonIntegerType),
    NetType(&'a NetType),
    IntegerType(&'a IntegerType),
    StructUnion(&'a StructUnion),
    DataTypeVector(&'a DataTypeVector),
    DataTypeAtom(&'a DataTypeAtom),
    Packed(&'a Packed),
    RandomQualifier(&'a RandomQualifier),
    AttributeInstance(&'a AttributeInstance),
    ListOfVariableDeclAssignments(&'a ListOfVariableDeclAssignments),
    StructUnionMember(&'a StructUnionMember),
    StructUnionBody(&'a StructUnionBody),
    DataTypeUnion(&'a DataTypeUnion),
    EnumNameRange(&'a EnumNameRange),
    EnumNameDeclaration(&'a EnumNameDeclaration),
    EnumBody(&'a EnumBody),
    EnumBaseTypeAtom(&'a EnumBaseTypeAtom),
    EnumBaseTypeVector(&'a EnumBaseTypeVector),
    EnumBaseTypeType(&'a EnumBaseTypeType),
    EnumBaseType(&'a EnumBaseType),
    DataTypeEnum(&'a DataTypeEnum),
    Interface(&'a Interface),
    ParameterValueAssignment(&'a ParameterValueAssignment),
    DataTypeVirtual(&'a DataTypeVirtual),
    PackageScope(&'a PackageScope),
    ClassType(&'a ClassType),
    ClassScope(&'a ClassScope),
    PackageScopeOrClassScope(&'a PackageScopeOrClassScope),
    DataTypeType(&'a DataTypeType),
    TypeReferenceExpression(&'a TypeReferenceExpression),
    TypeReferenceDataType(&'a TypeReferenceDataType),
    TypeReference(&'a TypeReference),
    DataType(&'a DataType),
    ImplicitDataType(&'a ImplicitDataType),
    DataTypeOrImplicit(&'a DataTypeOrImplicit),
    DataTypeOrVoid(&'a DataTypeOrVoid),
    CastingType(&'a CastingType),
    SimpleType(&'a SimpleType),
    NetPortTypeDataType(&'a NetPortTypeDataType),
    NetPortTypeInterconnect(&'a NetPortTypeInterconnect),
    NetPortType(&'a NetPortType),
    VarDataTypeVar(&'a VarDataTypeVar),
    VarDataType(&'a VarDataType),
    VariablePortType(&'a VariablePortType),
}

// --- ghost views of every node shape ------------------------------------
//
// One spec function per shape gives the shape's GNode model; the children
// sequence follows field declaration order.  The measures are ordered by a
// per-shape rank so that every call goes to a strictly smaller rank, except
// inside the one mutually recursive family (data types containing struct /
// union members and type references), whose members share one rank and
// descend on the node value itself.

pub open spec fn v_locate(l: &Locate) -> GNode
    decreases 0int, l, 0int,
{
    leaf(*l)
}

pub open spec fn v_symbol(x: &Symbol) -> GNode
    decreases 1int, x, 0int,
{
    comp(Tag::Symbol, seq![v_locate(&x.nodes.0)])
}

pub open spec fn v_identifier(x: &Identifier) -> GNode
    decreases 1int, x, 0int,
{
    comp(Tag::Identifier, seq![v_locate(&x.nodes.0)])
}

pub open spec fn v_integral_number(x: &IntegralNumber) -> GNode
    decreases 1int, x, 0int,
{
    comp(Tag::IntegralNumber, seq![v_locate(&x.nodes.0)])
}

pub open spec fn v_constant_primary(x: &ConstantPrimary) -> GNode
    decreases 1int, x, 0int,
{
    comp(Tag::ConstantPrimary, seq![v_locate(&x.nodes.0)])
}

pub open spec fn v_constant_expression(x: &ConstantExpression) -> GNode
    decreases 2int, x, 0int,
{
    comp(Tag::ConstantExpression, seq![v_constant_primary(&x.nodes.0)])
}

pub open spec fn v_expression(x: &Expression) -> GNode
    decreases 2int, x, 0int,
{
    comp(Tag::Expression, seq![v_constant_primary(&x.nodes.0)])
}

pub open spec fn v_signing(x: &Signing) -> GNode
    decreases 2int, x, 0int,
{
    match x {
        Signing::Signed(s) => comp(Tag::Signing, seq![v_symbol(s)]),
        Signing::Unsigned(s) => comp(Tag::Signing, seq![v_symbol(s)]),
    }
}

pub open spec fn v_integer_vector_type(x: &IntegerVectorType) -> GNode
    decreases 2int, x, 0int,
{
    match x {
        IntegerVectorType::Bit(s) => comp(Tag::IntegerVectorType, seq![v_symbol(s)]),
        IntegerVectorType::Logic(s) => comp(Tag::IntegerVectorType, seq![v_symbol(s)]),
        IntegerVectorType::Reg(s) => comp(Tag::IntegerVectorType, seq![v_symbol(s)]),
    }
}

pub open spec fn v_integer_atom_type(x: &IntegerAtomType) -> GNode
    decreases 2int, x, 0int,
{
    match x {
        IntegerAtomType::Byte(s) => comp(Tag::IntegerAtomType, seq![v_symbol(s)]),
        IntegerAtomType::Shortint(s) => comp(Tag::IntegerAtomType, seq![v_symbol(s)]),
        IntegerAtomType::Int(s) => comp(Tag::IntegerAtomType, seq![v_symbol(s)]),
        IntegerAtomType::Longint(s) => comp(Tag::IntegerAtomType, seq![v_symbol(s)]),
        IntegerAtomType::Integer(s) => comp(Tag::IntegerAtomType, seq![v_symbol(s)]),
        IntegerAtomType::Time(s) => comp(Tag::IntegerAtomType, seq![v_symbol(s)]),
    }
}

pub open spec fn v_non_integer_type(x: &NonIntegerType) -> GNode
    decreases 2int, x, 0int,
{
    match x {
        NonIntegerType::Shortreal(s) => comp(Tag::NonIntegerType, seq![v_symbol(s)]),
        NonIntegerType::Real(s) => comp(Tag::NonIntegerType, seq![v_symbol(s)]),
        NonIntegerType::Realtime(s) => comp(Tag::NonIntegerType, seq![v_symbol(s)]),
    }
}

pub open spec fn v_net_type(x: &NetType) -> GNode
    decreases 2int, x, 0int,
{
    match x {
        NetType::Supply0(s) => comp(Tag::NetType, seq![v_symbol(s)]),
        NetType::Supply1(s) => comp(Tag::NetType, seq![v_symbol(s)]),
        NetType::Tri(s) => comp(Tag::NetType, seq![v_symbol(s)]),
        NetType::Triand(s) => comp(Tag::NetType, seq![v_symbol(s)]),
        NetType::Trior(s) => comp(Tag::NetType, seq![v_symbol(s)]),
        NetType::Trireg(s) => comp(Tag::NetType, seq![v_symbol(s)]),
        NetType::Tri0(s) => comp(Tag::NetType, seq![v_symbol(s)]),
        NetType::Tri1(s) => comp(Tag::NetType, seq![v_symbol(s)]),
        NetType::Uwire(s) => comp(Tag::NetType, seq![v_symbol(s)]),
        NetType::Wire(s) => comp(Tag::NetType, seq![v_symbol(s)]),
        NetType::Wand(s) => comp(Tag::NetType, seq![v_symbol(s)]),
        NetType::Wor(s) => comp(Tag::NetType, seq![v_symbol(s)]),
    }
}

pub open spec fn v_packed(x: &Packed) -> GNode
    decreases 2int, x, 0int,
{
    comp(Tag::Packed, seq![v_symbol(&x.nodes.0)])
}

pub open spec fn v_interface(x: &Interface) -> GNode
    decreases 2int, x, 0int,
{
    comp(Tag::Interface, seq![v_symbol(&x.nodes.0)])
}

pub open spec fn v_random_qualifier(x: &RandomQualifier) -> GNode
    decreases 2int, x, 0int,
{
    match x {
        RandomQualifier::Rand(s) => comp(Tag::RandomQualifier, seq![v_symbol(s)]),
        RandomQualifier::Randc(s) => comp(Tag::RandomQualifier, seq![v_symbol(s)]),
    }
}

pub open spec fn v_struct_union(x: &StructUnion) -> GNode
    decreases 2int, x, 0int,
{
    match x {
        StructUnion::Struct(s) => comp(Tag::StructUnion, seq![v_symbol(s)]),
        StructUnion::Union(s) => comp(Tag::StructUnion, seq![v_symbol(s)]),
        StructUnion::UnionTagged(p) => comp(
            Tag::StructUnion,
            seq![v_symbol(&p.0), v_symbol(&p.1)],
        ),
    }
}

pub open spec fn v_attribute_instance(x: &AttributeInstance) -> GNode
    decreases 2int, x, 0int,
{
    comp(
        Tag::AttributeInstance,
        seq![v_symbol(&x.nodes.0), v_identifier(&x.nodes.1), v_symbol(&x.nodes.2)],
    )
}

pub open spec fn v_package_scope(x: &PackageScope) -> GNode
    decreases 2int, x, 0int,
{
    comp(Tag::PackageScope, seq![v_identifier(&x.nodes.0), v_symbol(&x.nodes.1)])
}

pub open spec fn v_constant_range(x: &ConstantRange) -> GNode
    decreases 3int, x, 0int,
{
    comp(
        Tag::ConstantRange,
        seq![
            v_constant_expression(&x.nodes.0),
            v_symbol(&x.nodes.1),
            v_constant_expression(&x.nodes.2),
        ],
    )
}

pub open spec fn v_integer_type(x: &IntegerType) -> GNode
    decreases 3int, x, 0int,
{
    match x {
        IntegerType::IntegerVectorType(t) => comp(
            Tag::IntegerType,
            seq![v_integer_vector_type(t)],
        ),
        IntegerType::IntegerAtomType(t) => comp(Tag::IntegerType, seq![v_integer_atom_type(t)]),
    }
}

pub open spec fn v_parameter_value_assignment(x: &ParameterValueAssignment) -> GNode
    decreases 3int, x, 0int,
{
    comp(
        Tag::ParameterValueAssignment,
        seq![
            v_symbol(&x.nodes.0),
            v_symbol(&x.nodes.1),
            v_expression(&x.nodes.2),
            v_symbol(&x.nodes.3),
        ],
    )
}

pub open spec fn v_enum_name_range(x: &EnumNameRange) -> GNode
    decreases 3int, x, 0int,
{
    comp(
        Tag::EnumNameRange,
        seq![v_symbol(&x.nodes.0), v_integral_number(&x.nodes.1)] + (match x.nodes.2 {
            Some(p) => seq![v_symbol(&p.0), v_integral_number(&p.1)],
            None => Seq::empty(),
        }) + seq![v_symbol(&x.nodes.3)],
    )
}

/// Children views of a `, name` tail of a variable-name list.
pub open spec fn v_si_pairs(s: Seq<(Symbol, Identifier)>, i: int) -> Seq<GNode>
    decreases 3int, s, s.len() - i,
{
    if 0 <= i < s.len() {
        seq![v_symbol(&s[i].0), v_identifier(&s[i].1)] + v_si_pairs(s, i + 1)
    } else {
        Seq::empty()
    }
}

pub open spec fn v_list_of_variable_decl_assignments(x: &ListOfVariableDeclAssignments) -> GNode
    decreases 4int, x, 0int,
{
    comp(
        Tag::ListOfVariableDeclAssignments,
        seq![v_identifier(&x.nodes.0)] + v_si_pairs(x.nodes.1@, 0),
    )
}

pub open spec fn v_packed_dimension(x: &PackedDimension) -> GNode
    decreases 4int, x, 0int,
{
    comp(
        Tag::PackedDimension,
        seq![v_symbol(&x.nodes.0), v_constant_range(&x.nodes.1), v_symbol(&x.nodes.2)],
    )
}

pub open spec fn v_enum_name_declaration(x: &EnumNameDeclaration) -> GNode
    decreases 4int, x, 0int,
{
    comp(
        Tag::EnumNameDeclaration,
        seq![v_identifier(&x.nodes.0)] + (match x.nodes.1 {
            Some(r) => seq![v_enum_name_range(&r)],
            None => Seq::empty(),
        }) + (match x.nodes.2 {
            Some(p) => seq![v_symbol(&p.0), v_constant_expression(&p.1)],
            None => Seq::empty(),
        }),
    )
}

pub open spec fn v_simple_type(x: &SimpleType) -> GNode
    decreases 4int, x, 0int,
{
    match x {
        SimpleType::IntegerType(t) => comp(Tag::SimpleType, seq![v_integer_type(t)]),
        SimpleType::NonNonIntegerType(t) => comp(Tag::SimpleType, seq![v_integer_type(t)]),
        SimpleType::PsTypeIdentifier(t) => comp(Tag::SimpleType, seq![v_identifier(t)]),
        SimpleType::PsParameterIdentifier(t) => comp(Tag::SimpleType, seq![v_identifier(t)]),
    }
}

pub open spec fn v_type_reference_expression(x: &TypeReferenceExpression) -> GNode
    decreases 4int, x, 0int,
{
    comp(
        Tag::TypeReferenceExpression,
        seq![
            v_symbol(&x.nodes.0),
            v_symbol(&x.nodes.1),
            v_expression(&x.nodes.2),
            v_symbol(&x.nodes.3),
        ],
    )
}

/// Children views of a packed-dimension list.
pub open spec fn v_pds(s: Seq<PackedDimension>, i: int) -> Seq<GNode>
    decreases 5int, s, s.len() - i,
{
    if 0 <= i < s.len() {
        seq![v_packed_dimension(&s[i])] + v_pds(s, i + 1)
    } else {
        Seq::empty()
    }
}

/// Children views of a `, decl` tail of an enum name list.
pub open spec fn v_end_pairs(s: Seq<(Symbol, EnumNameDeclaration)>, i: int) -> Seq<GNode>
    decreases 5int, s, s.len() - i,
{
    if 0 <= i < s.len() {
        seq![v_symbol(&s[i].0), v_enum_name_declaration(&s[i].1)] + v_end_pairs(s, i + 1)
    } else {
        Seq::empty()
    }
}

/// Children views of a `:: name #(..)?` tail of a class type.
pub open spec fn v_ct_links(
    s: Seq<(Symbol, Identifier, Option<ParameterValueAssignment>)>,
    i: int,
) -> Seq<GNode>
    decreases 5int, s, s.len() - i,
{
    if 0 <= i < s.len() {
        seq![v_symbol(&s[i].0), v_identifier(&s[i].1)] + (match s[i].2 {
            Some(p) => seq![v_parameter_value_assignment(&p)],
            None => Seq::empty(),
        }) + v_ct_links(s, i + 1)
    } else {
        Seq::empty()
    }
}

/// Children views of an attribute-instance list.
pub open spec fn v_ais(s: Seq<AttributeInstance>, i: int) -> Seq<GNode>
    decreases 5int, s, s.len() - i,
{
    if 0 <= i < s.len() {
        seq![v_attribute_instance(&s[i])] + v_ais(s, i + 1)
    } else {
        Seq::empty()
    }
}

pub open spec fn v_implicit_data_type(x: &ImplicitDataType) -> GNode
    decreases 6int, x, 0int,
{
    comp(
        Tag::ImplicitDataType,
        (match x.nodes.0 {
            Some(s) => seq![v_signing(&s)],
            None => Seq::empty(),
        }) + v_pds(x.nodes.1@, 0),
    )
}

pub open spec fn v_enum_base_type_atom(x: &EnumBaseTypeAtom) -> GNode
    decreases 6int, x, 0int,
{
    comp(
        Tag::EnumBaseTypeAtom,
        seq![v_integer_atom_type(&x.nodes.0)] + (match x.nodes.1 {
            Some(s) => seq![v_signing(&s)],
            None => Seq::empty(),
        }),
    )
}

pub open spec fn v_enum_base_type_vector(x: &EnumBaseTypeVector) -> GNode
    decreases 6int, x, 0int,
{
    comp(
        Tag::EnumBaseTypeVector,
        seq![v_integer_vector_type(&x.nodes.0)] + (match x.nodes.1 {
            Some(s) => seq![v_signing(&s)],
            None => Seq::empty(),
        }) + (match x.nodes.2 {
            Some(p) => seq![v_packed_dimension(&p)],
            None => Seq::empty(),
        }),
    )
}

pub open spec fn v_enum_base_type_type(x: &EnumBaseTypeType) -> GNode
    decreases 6int, x, 0int,
{
    comp(
        Tag::EnumBaseTypeType,
        seq![v_identifier(&x.nodes.0)] + (match x.nodes.1 {
            Some(p) => seq![v_packed_dimension(&p)],
            None => Seq::empty(),
        }),
    )
}

pub open spec fn v_enum_body(x: &EnumBody) -> GNode
    decreases 6int, x, 0int,
{
    comp(
        Tag::EnumBody,
        seq![v_symbol(&x.nodes.0), v_enum_name_declaration(&x.nodes.1)] + v_end_pairs(
            x.nodes.2@,
            0,
        ) + seq![v_symbol(&x.nodes.3)],
    )
}

pub open spec fn v_data_type_vector(x: &DataTypeVector) -> GNode
    decreases 6int, x, 0int,
{
    comp(
        Tag::DataTypeVector,
        seq![v_integer_vector_type(&x.nodes.0)] + (match x.nodes.1 {
            Some(s) => seq![v_signing(&s)],
            None => Seq::empty(),
        }) + v_pds(x.nodes.2@, 0),
    )
}

pub open spec fn v_data_type_atom(x: &DataTypeAtom) -> GNode
    decreases 6int, x, 0int,
{
    comp(
        Tag::DataTypeAtom,
        seq![v_integer_atom_type(&x.nodes.0)] + (match x.nodes.1 {
            Some(s) => seq![v_signing(&s)],
            None => Seq::empty(),
        }),
    )
}

pub open spec fn v_class_type(x: &ClassType) -> GNode
    decreases 6int, x, 0int,
{
    comp(
        Tag::ClassType,
        seq![v_identifier(&x.nodes.0)] + (match x.nodes.1 {
            Some(p) => seq![v_parameter_value_assignment(&p)],
            None => Seq::empty(),
        }) + v_ct_links(x.nodes.2@, 0),
    )
}

pub open spec fn v_data_type_virtual(x: &DataTypeVirtual) -> GNode
    decreases 6int, x, 0int,
{
    comp(
        Tag::DataTypeVirtual,
        seq![v_symbol(&x.nodes.0)] + (match x.nodes.1 {
            Some(i) => seq![v_interface(&i)],
            None => Seq::empty(),
        }) + seq![v_identifier(&x.nodes.2)] + (match x.nodes.3 {
            Some(p) => seq![v_parameter_value_assignment(&p)],
            None => Seq::empty(),
        }) + (match x.nodes.4 {
            Some(p) => seq![v_symbol(&p.0), v_identifier(&p.1)],
            None => Seq::empty(),
        }),
    )
}

pub open spec fn v_enum_base_type(x: &EnumBaseType) -> GNode
    decreases 7int, x, 0int,
{
    match x {
        EnumBaseType::Atom(a) => comp(Tag::EnumBaseType, seq![v_enum_base_type_atom(a)]),
        EnumBaseType::Vector(v) => comp(Tag::EnumBaseType, seq![v_enum_base_type_vector(v)]),
        EnumBaseType::Type(t) => comp(Tag::EnumBaseType, seq![v_enum_base_type_type(t)]),
    }
}

pub open spec fn v_class_scope(x: &ClassScope) -> GNode
    decreases 7int, x, 0int,
{
    comp(Tag::ClassScope, seq![v_class_type(&x.nodes.0), v_symbol(&x.nodes.1)])
}

pub open spec fn v_net_port_type_interconnect(x: &NetPortTypeInterconnect) -> GNode
    decreases 7int, x, 0int,
{
    comp(
        Tag::NetPortTypeInterconnect,
        seq![v_symbol(&x.nodes.0), v_implicit_data_type(&x.nodes.1)],
    )
}

pub open spec fn v_package_scope_or_class_scope(x: &PackageScopeOrClassScope) -> GNode
    decreases 8int, x, 0int,
{
    match x {
        PackageScopeOrClassScope::PackageScope(p) => comp(
            Tag::PackageScopeOrClassScope,
            seq![v_package_scope(p)],
        ),
        PackageScopeOrClassScope::ClassScope(c) => comp(
            Tag::PackageScopeOrClassScope,
            seq![v_class_scope(&**c)],
        ),
    }
}

pub open spec fn v_data_type_enum(x: &DataTypeEnum) -> GNode
    decreases 8int, x, 0int,
{
    comp(
        Tag::DataTypeEnum,
        seq![v_symbol(&x.nodes.0)] + (match x.nodes.1 {
            Some(b) => seq![v_enum_base_type(&b)],
            None => Seq::empty(),
        }) + seq![v_enum_body(&x.nodes.2)] + v_pds(x.nodes.3@, 0),
    )
}

pub open spec fn v_data_type_type(x: &DataTypeType) -> GNode
    decreases 9int, x, 0int,
{
    comp(
        Tag::DataTypeType,
        (match x.nodes.0 {
            Some(s) => seq![v_package_scope_or_class_scope(&s)],
            None => Seq::empty(),
        }) + seq![v_identifier(&x.nodes.1)] + v_pds(x.nodes.2@, 0),
    )
}

// --- the mutually recursive family: rank 10 ------------------------------

pub open spec fn v_data_type(x: &DataType) -> GNode
    decreases 10int, x, 0int,
{
    match x {
        DataType::Vector(v) => comp(Tag::DataType, seq![v_data_type_vector(v)]),
        DataType::Atom(a) => comp(Tag::DataType, seq![v_data_type_atom(a)]),
        DataType::NonIntegerType(n) => comp(Tag::DataType, seq![v_non_integer_type(n)]),
        DataType::Union(u) => comp(Tag::DataType, seq![v_data_type_union(&**u)]),
        DataType::Enum(e) => comp(Tag::DataType, seq![v_data_type_enum(e)]),
        DataType::String(s) => comp(Tag::DataType, seq![v_symbol(s)]),
        DataType::Chandle(s) => comp(Tag::DataType, seq![v_symbol(s)]),
        DataType::Virtual(v) => comp(Tag::DataType, seq![v_data_type_virtual(v)]),
        DataType::Type(t) => comp(Tag::DataType, seq![v_data_type_type(t)]),
        DataType::ClassType(c) => comp(Tag::DataType, seq![v_class_type(c)]),
        DataType::Event(s) => comp(Tag::DataType, seq![v_symbol(s)]),
        DataType::PsCovergroupIdentifier(i) => comp(Tag::DataType, seq![v_identifier(i)]),
        DataType::TypeReference(t) => comp(Tag::DataType, seq![v_type_reference(&**t)]),
    }
}

pub open spec fn v_data_type_union(x: &DataTypeUnion) -> GNode
    decreases 10int, x, 0int,
{
    comp(
        Tag::DataTypeUnion,
        seq![v_struct_union(&x.nodes.0)] + (match x.nodes.1 {
            Some(p) => seq![v_packed(&p.0)] + (match p.1 {
                Some(s) => seq![v_signing(&s)],
                None => Seq::empty(),
            }),
            None => Seq::empty(),
        }) + seq![v_struct_union_body(&x.nodes.2)] + v_pds(x.nodes.3@, 0),
    )
}

pub open spec fn v_struct_union_body(x: &StructUnionBody) -> GNode
    decreases 10int, x, 0int,
{
    comp(
        Tag::StructUnionBody,
        seq![v_symbol(&x.nodes.0), v_struct_union_member(&x.nodes.1)] + v_sums(x.nodes.2@, 0)
            + seq![v_symbol(&x.nodes.3)],
    )
}

/// Children views of a struct / union member list.
pub open spec fn v_sums(s: Seq<StructUnionMember>, i: int) -> Seq<GNode>
    decreases 10int, s, s.len() - i,
{
    if 0 <= i < s.len() {
        seq![v_struct_union_member(&s[i])] + v_sums(s, i + 1)
    } else {
        Seq::empty()
    }
}

pub open spec fn v_struct_union_member(x: &StructUnionMember) -> GNode
    decreases 10int, x, 1int,
{
    comp(
        Tag::StructUnionMember,
        v_ais(x.nodes.0@, 0) + (match x.nodes.1 {
            Some(q) => seq![v_random_qualifier(&q)],
            None => Seq::empty(),
        }) + seq![
            v_data_type_or_void(&x.nodes.2),
            v_list_of_variable_decl_assignments(&x.nodes.3),
            v_symbol(&x.nodes.4),
        ],
    )
}

pub open spec fn v_data_type_or_void(x: &DataTypeOrVoid) -> GNode
    decreases 10int, x, 0int,
{
    match x {
        DataTypeOrVoid::DataType(d) => comp(Tag::DataTypeOrVoid, seq![v_data_type(d)]),
        DataTypeOrVoid::Void(s) => comp(Tag::DataTypeOrVoid, seq![v_symbol(s)]),
    }
}

pub open spec fn v_type_reference(x: &TypeReference) -> GNode
    decreases 10int, x, 0int,
{
    match x {
        TypeReference::Expression(e) => comp(
            Tag::TypeReference,
            seq![v_type_reference_expression(e)],
        ),
        TypeReference::DataType(d) => comp(
            Tag::TypeReference,
            seq![v_type_reference_data_type(d)],
        ),
    }
}

pub open spec fn v_type_reference_data_type(x: &TypeReferenceDataType) -> GNode
    decreases 10int, x, 1int,
{
    comp(
        Tag::TypeReferenceDataType,
        seq![
            v_symbol(&x.nodes.0),
            v_symbol(&x.nodes.1),
            v_data_type(&*x.nodes.2),
            v_symbol(&x.nodes.3),
        ],
    )
}

// --- shapes above the recursive family -----------------------------------

pub open spec fn v_data_type_or_implicit(x: &DataTypeOrImplicit) -> GNode
    decreases 11int, x, 0int,
{
    match x {
        DataTypeOrImplicit::DataType(d) => comp(Tag::DataTypeOrImplicit, seq![v_data_type(d)]),
        DataTypeOrImplicit::ImplicitDataType(i) => comp(
            Tag::DataTypeOrImplicit,
            seq![v_implicit_data_type(i)],
        ),
    }
}

pub open spec fn v_casting_type(x: &CastingType) -> GNode
    decreases 11int, x, 0int,
{
    match x {
        CastingType::SimpleType(t) => comp(Tag::CastingType, seq![v_simple_type(&**t)]),
        CastingType::ConstantPrimary(p) => comp(Tag::CastingType, seq![v_constant_primary(&**p)]),
        CastingType::Signing(s) => comp(Tag::CastingType, seq![v_signing(&**s)]),
        CastingType::String(s) => comp(Tag::CastingType, seq![v_symbol(s)]),
        CastingType::Const(s) => comp(Tag::CastingType, seq![v_symbol(s)]),
    }
}

pub open spec fn v_net_port_type_data_type(x: &NetPortTypeDataType) -> GNode
    decreases 12int, x, 0int,
{
    comp(
        Tag::NetPortTypeDataType,
        (match x.nodes.0 {
            Some(n) => seq![v_net_type(&n)],
            None => Seq::empty(),
        }) + seq![v_data_type_or_implicit(&x.nodes.1)],
    )
}

pub open spec fn v_var_data_type_var(x: &VarDataTypeVar) -> GNode
    decreases 12int, x, 0int,
{
    comp(
        Tag::VarDataTypeVar,
        seq![v_symbol(&x.nodes.0), v_data_type_or_implicit(&x.nodes.1)],
    )
}

pub open spec fn v_net_port_type(x: &NetPortType) -> GNode
    decreases 13int, x, 0int,
{
    match x {
        NetPortType::DataType(d) => comp(Tag::NetPortType, seq![v_net_port_type_data_type(d)]),
        NetPortType::NetTypeIdentifier(i) => comp(Tag::NetPortType, seq![v_identifier(i)]),
        NetPortType::Interconnect(c) => comp(
            Tag::NetPortType,
            seq![v_net_port_type_interconnect(c)],
        ),
    }
}

pub open spec fn v_var_data_type(x: &VarDataType) -> GNode
    decreases 13int, x, 0int,
{
    match x {
        VarDataType::DataType(d) => comp(Tag::VarDataType, seq![v_data_type(d)]),
        VarDataType::Var(v) => comp(Tag::VarDataType, seq![v_var_data_type_var(v)]),
    }
}

pub open spec fn v_variable_port_type(x: &VariablePortType) -> GNode
    decreases 14int, x, 0int,
{
    comp(Tag::VariablePortType, seq![v_var_data_type(&x.nodes.0)])
}

/// The ghost view of any tagged reference.  Kept opaque: proofs reveal it
/// where they inspect a concrete case, so that contexts that treat nodes
/// symbolically stay small.
#[verifier::opaque]
pub open spec fn rview(r: RefNode) -> GNode {
    match r {
        RefNode::Locate(x) => v_locate(x),
        RefNode::Symbol(x) => v_symbol(x),
        RefNode::Identifier(x) => v_identifier(x),
        RefNode::IntegralNumber(x) => v_integral_number(x),
        RefNode::ConstantPrimary(x) => v_constant_primary(x),
        RefNode::ConstantExpression(x) => v_constant_expression(x),
        RefNode::Expression(x) => v_expression(x),
        RefNode::ConstantRange(x) => v_constant_range(x),
        RefNode::PackedDimension(x) => v_packed_dimension(x),
        RefNode::Signing(x) => v_signing(x),
        RefNode::IntegerVectorType(x) => v_integer_vector_type(x),
        RefNode::IntegerAtomType(x) => v_integer_atom_type(x),
        RefNode::NonIntegerType(x) => v_non_integer_type(x),
        RefNode::NetType(x) => v_net_type(x),
        RefNode::IntegerType(x) => v_integer_type(x),
        RefNode::StructUnion(x) => v_struct_union(x),
        RefNode::DataTypeVector(x) => v_data_type_vector(x),
        RefNode::DataTypeAtom(x) => v_data_type_atom(x),
        RefNode::Packed(x) => v_packed(x),
        RefNode::RandomQualifier(x) => v_random_qualifier(x),
        RefNode::AttributeInstance(x) => v_attribute_instance(x),
        RefNode::ListOfVariableDeclAssignments(x) => v_list_of_variable_decl_assignments(x),
        RefNode::StructUnionMember(x) => v_struct_union_member(x),
        RefNode::StructUnionBody(x) => v_struct_union_body(x),
        RefNode::DataTypeUnion(x) => v_data_type_union(x),
        RefNode::EnumNameRange(x) => v_enum_name_range(x),
        RefNode::EnumNameDeclaration(x) => v_enum_name_declaration(x),
        RefNode::EnumBody(x) => v_enum_body(x),
        RefNode::EnumBaseTypeAtom(x) => v_enum_base_type_atom(x),
        RefNode::EnumBaseTypeVector(x) => v_enum_base_type_vector(x),
        RefNode::EnumBaseTypeType(x) => v_enum_base_type_type(x),
        RefNode::EnumBaseType(x) => v_enum_base_type(x),
        RefNode::DataTypeEnum(x) => v_data_type_enum(x),
        RefNode::Interface(x) => v_interface(x),
        RefNode::ParameterValueAssignment(x) => v_parameter_value_assignment(x),
        RefNode::DataTypeVirtual(x) => v_data_type_virtual(x),
        RefNode::PackageScope(x) => v_package_scope(x),
        RefNode::ClassType(x) => v_class_type(x),
        RefNode::ClassScope(x) => v_class_scope(x),
        RefNode::PackageScopeOrClassScope(x) => v_package_scope_or_class_scope(x),
        RefNode::DataTypeType(x) => v_data_type_type(x),
        RefNode::TypeReferenceExpression(x) => v_type_reference_expression(x),
        RefNode::TypeReferenceDataType(x) => v_type_reference_data_type(x),
        RefNode::TypeReference(x) => v_type_reference(x),
        RefNode::DataType(x) => v_data_type(x),
        RefNode::ImplicitDataType(x) => v_implicit_data_type(x),
        RefNode::DataTypeOrImplicit(x) => v_data_type_or_implicit(x),
        RefNode::DataTypeOrVoid(x) => v_data_type_or_void(x),
        RefNode::CastingType(x) => v_casting_type(x),
        RefNode::SimpleType(x) => v_simple_type(x),
        RefNode::NetPortTypeDataType(x) => v_net_port_type_data_type(x),
        RefNode::NetPortTypeInterconnect(x) => v_net_port_type_interconnect(x),
        RefNode::NetPortType(x) => v_net_port_type(x),
        RefNode::VarDataTypeVar(x) => v_var_data_type_var(x),
        RefNode::VarDataType(x) => v_var_data_type(x),
        RefNode::VariablePortType(x) => v_variable_port_type(x),
    }
}

/// The ghost views of a sequence of tagged references, in order.
pub open spec fn rviews(s: Seq<RefNode>) -> Seq<GNode>
    decreases s.len(),
{
    if s.len() == 0 {
        Seq::empty()
    } else {
        rviews(s.drop_last()).push(rview(s.last()))
    }
}

#[verifier::rlimit(100)]
#[verifier::spinoff_prover]
pub broadcast proof fn lemma_rviews_push(s: Seq<RefNode>, x: RefNode)
    ensures
        #[trigger] rviews(s.push(x)) == rviews(s).push(rview(x)),
{
    assert(s.push(x).drop_last() =~= s);
    assert(s.push(x).last() == x);
}

#[verifier::rlimit(100)]
#[verifier::spinoff_prover]
pub broadcast proof fn lemma_rviews_index(s: Seq<RefNode>)
    ensures
        #[trigger] rviews(s).len() == s.len(),
        forall|i: int| 0 <= i < s.len() ==> rviews(s)[i] == rview(#[trigger] s[i]),
    decreases s.len(),
{
    if s.len() > 0 {
        lemma_rviews_index(s.drop_last());
        assert forall|i: int| 0 <= i < s.len() implies rviews(s)[i] == rview(s[i]) by {
            if i < s.len() - 1 {
                assert(s.drop_last()[i] == s[i]);
                assert(rviews(s)[i] == rviews(s.drop_last())[i]);
            } else {
                assert(s.last() == s[i]);
                assert(rviews(s)[i] == rview(s.last()));
            }
        }
    }
}

// --- the one traversal capability ----------------------------------------

/// Every node shape lists its immediate children, in source order, as
/// tagged references.  This is the single extension point of the layer:
/// a new shape adds one union case and one impl of this trait, and no
/// traversal call site changes.
pub trait Node {
    /// The ghost model of this node.
    spec fn gview(&self) -> GNode;

    /// The immediate children in source order; a span leaf has none.
    fn next<'a>(&'a self) -> (r: Vec<RefNode<'a>>)
        ensures
            rviews(r@) == self.gview().children,
    ;
}

impl Node for Locate {
    open spec fn gview(&self) -> GNode {
        v_locate(self)
    }

    fn next<'a>(&'a self) -> (r: Vec<RefNode<'a>>) {
        let r: Vec<RefNode<'a>> = Vec::new();
        r
    }
}


// --- preorder traversal ---------------------------------------------------

/// The preorder visit sequence of a model tree: the node itself, then the
/// sequences of its children, left to right, depth first.
pub open spec fn preorder(g: GNode) -> Seq<GNode>
    decreases g, 0int,
{
    seq![g] + preorder_all(g.children, 0)
}

/// The concatenated preorder sequences of the trees `cs[i ..]`.
pub open spec fn preorder_all(cs: Seq<GNode>, i: int) -> Seq<GNode>
    decreases cs, cs.len() - i,
{
    if 0 <= i < cs.len() {
        preorder(cs[i]) + preorder_all(cs, i + 1)
    } else {
        Seq::empty()
    }
}

/// How many nodes a model tree holds.
pub open spec fn gcount(g: GNode) -> int
    decreases g, 0int,
{
    1 + gcount_all(g.children, 0)
}

/// How many nodes the trees `cs[i ..]` hold together.
pub open spec fn gcount_all(cs: Seq<GNode>, i: int) -> int
    decreases cs, cs.len() - i,
{
    if 0 <= i < cs.len() {
        gcount(cs[i]) + gcount_all(cs, i + 1)
    } else {
        0
    }
}

/// Whether `d` is `g` itself or a node somewhere below it.
pub open spec fn in_tree(g: GNode, d: GNode) -> bool
    decreases g, 0int,
{
    d == g || in_forest(g.children, 0, d)
}

/// Whether `d` lies in one of the trees `cs[i ..]`.
pub open spec fn in_forest(cs: Seq<GNode>, i: int, d: GNode) -> bool
    decreases cs, cs.len() - i,
{
    0 <= i < cs.len() && (in_tree(cs[i], d) || in_forest(cs, i + 1, d))
}

/// Traversal totality and exactness: a preorder walk visits exactly the
/// nodes reachable from the root, and visits exactly as many nodes as the
/// tree holds — every node once, never an ancestor again.
pub proof fn lemma_preorder_total(g: GNode)
    ensures
        preorder(g).len() == gcount(g),
        forall|d: GNode| #[trigger] preorder(g).contains(d) <==> in_tree(g, d),
    decreases g, 0int,
{
    lemma_preorder_all_total(g.children, 0);
    assert forall|d: GNode| #[trigger] preorder(g).contains(d) <==> in_tree(g, d) by {
        if preorder(g).contains(d) {
            let k = choose|k: int| 0 <= k < preorder(g).len() && preorder(g)[k] == d;
            if k == 0 {
                assert(d == g);
            } else {
                assert(preorder_all(g.children, 0)[k - 1] == d);
                assert(preorder_all(g.children, 0).contains(d));
            }
        }
        if in_tree(g, d) {
            if d == g {
                assert(preorder(g)[0] == d);
                assert(preorder(g).contains(d));
            } else {
                assert(in_forest(g.children, 0, d));
                assert(preorder_all(g.children, 0).contains(d));
                let k = choose|k: int|
                    0 <= k < preorder_all(g.children, 0).len() && preorder_all(g.children, 0)[k]
                        == d;
                assert(preorder(g)[k + 1] == d);
                assert(preorder(g).contains(d));
            }
        }
    }
}

/// The forest form of [`lemma_preorder_total`].
pub proof fn lemma_preorder_all_total(cs: Seq<GNode>, i: int)
    ensures
        preorder_all(cs, i).len() == gcount_all(cs, i),
        forall|d: GNode| #[trigger] preorder_all(cs, i).contains(d) <==> in_forest(cs, i, d),
    decreases cs, cs.len() - i,
{
    if 0 <= i < cs.len() {
        lemma_preorder_total(cs[i]);
        lemma_preorder_all_total(cs, i + 1);
        let head = preorder(cs[i]);
        let tail = preorder_all(cs, i + 1);
        assert forall|d: GNode| #[trigger] preorder_all(cs, i).contains(d) <==> in_forest(
            cs,
            i,
            d,
        ) by {
            if preorder_all(cs, i).contains(d) {
                assert(preorder_all(cs, i) == head + tail);
                let k = choose|k: int|
                    0 <= k < preorder_all(cs, i).len() && preorder_all(cs, i)[k] == d;
                if k < head.len() {
                    assert(head[k] == (head + tail)[k]);
                    assert(head.contains(d));
                } else {
                    assert(tail[k - head.len()] == (head + tail)[k]);
                    assert(tail.contains(d));
                }
            }
            if in_forest(cs, i, d) {
                assert(preorder_all(cs, i) == head + tail);
                if in_tree(cs[i], d) {
                    assert(head.contains(d));
                    let k = choose|k: int| 0 <= k < head.len() && head[k] == d;
                    assert((head + tail)[k] == d);
                    assert(preorder_all(cs, i).contains(d));
                } else {
                    assert(in_forest(cs, i + 1, d));
                    assert(tail.contains(d));
                    let k = choose|k: int| 0 <= k < tail.len() && tail[k] == d;
                    assert((head + tail)[head.len() + k] == d);
                    assert(preorder_all(cs, i).contains(d));
                }
            }
        }
    }
}


} // verus!
