//! The node model for the data-type / net-type production family.
//!
//! Every grammar production is either a *terminal* (it wraps exactly one
//! [`Locate`](crate::span::Locate) span) or a *composite* (an ordered,
//! fixed-arity tuple of child fields, each a single child, an optional
//! child, an ordered sequence of children, or a tagged choice among fixed
//! alternative shapes).  Nodes are created once, by the production parser
//! that recognizes them, and never mutated afterwards; a node owns its
//! children exclusively, so every tree is a tree, not a graph.
//!
//! Generic containers of the source grammar (parenthesized, braced and
//! bracketed groups, separated lists) appear here inlined into the shapes
//! that use them, so that the whole set of node shapes is closed and
//! first-order.

use vstd::prelude::*;
use crate::span::Locate;

verus! {

/// A keyword or punctuation occurrence: a terminal owning one span.
#[derive(Debug)]
pub struct Symbol {
    pub nodes: (Locate,),
}

/// An identifier occurrence: a terminal owning one span.
#[derive(Debug)]
pub struct Identifier {
    pub nodes: (Locate,),
}

/// An integral literal occurrence: a terminal owning one span.
#[derive(Debug)]
pub struct IntegralNumber {
    pub nodes: (Locate,),
}

/// A primary of a constant expression: a number or an identifier lexeme.
#[derive(Debug)]
pub struct ConstantPrimary {
    pub nodes: (Locate,),
}

/// A constant expression; in this production family it is a single primary.
#[derive(Debug)]
pub struct ConstantExpression {
    pub nodes: (ConstantPrimary,),
}

/// An expression; in this production family it is a single primary.
#[derive(Debug)]
pub struct Expression {
    pub nodes: (ConstantPrimary,),
}

/// `msb : lsb` — two constant bounds around a colon.
#[derive(Debug)]
pub struct ConstantRange {
    pub nodes: (ConstantExpression, Symbol, ConstantExpression),
}

/// `[ msb : lsb ]` — one packed dimension.
#[derive(Debug)]
pub struct PackedDimension {
    pub nodes: (Symbol, ConstantRange, Symbol),
}

/// `signed` or `unsigned`.
#[derive(Debug)]
pub enum Signing {
    Signed(Symbol),
    Unsigned(Symbol),
}

/// `bit`, `logic` or `reg`.
#[derive(Debug)]
pub enum IntegerVectorType {
    Bit(Symbol),
    Logic(Symbol),
    Reg(Symbol),
}

/// `byte`, `shortint`, `int`, `longint`, `integer` or `time`.
#[derive(Debug)]
pub enum IntegerAtomType {
    Byte(Symbol),
    Shortint(Symbol),
    Int(Symbol),
    Longint(Symbol),
    Integer(Symbol),
    Time(Symbol),
}

/// `shortreal`, `real` or `realtime`.
#[derive(Debug)]
pub enum NonIntegerType {
    Shortreal(Symbol),
    Real(Symbol),
    Realtime(Symbol),
}

/// The net-type keywords.
#[derive(Debug)]
pub enum NetType {
    Supply0(Symbol),
    Supply1(Symbol),
    Tri(Symbol),
    Triand(Symbol),
    Trior(Symbol),
    Trireg(Symbol),
    Tri0(Symbol),
    Tri1(Symbol),
    Uwire(Symbol),
    Wire(Symbol),
    Wand(Symbol),
    Wor(Symbol),
}

/// A vector type or an atom type.
#[derive(Debug)]
pub enum IntegerType {
    IntegerVectorType(IntegerVectorType),
    IntegerAtomType(IntegerAtomType),
}

/// `struct`, `union`, or `union tagged`.
#[derive(Debug)]
pub enum StructUnion {
    Struct(Symbol),
    Union(Symbol),
    UnionTagged((Symbol, Symbol)),
}

/// A vector data type: kind, optional signing, packed dimensions.
#[derive(Debug)]
pub struct DataTypeVector {
    pub nodes: (IntegerVectorType, Option<Signing>, Vec<PackedDimension>),
}

/// An atom data type: kind, optional signing.
#[derive(Debug)]
pub struct DataTypeAtom {
    pub nodes: (IntegerAtomType, Option<Signing>),
}

/// The `packed` keyword.
#[derive(Debug)]
pub struct Packed {
    pub nodes: (Symbol,),
}

/// `rand` or `randc`.
#[derive(Debug)]
pub enum RandomQualifier {
    Rand(Symbol),
    Randc(Symbol),
}

/// `(* name *)` — an attribute instance.
#[derive(Debug)]
pub struct AttributeInstance {
    pub nodes: (Symbol, Identifier, Symbol),
}

/// `name (, name)*` — declared variable names of one member.
#[derive(Debug)]
pub struct ListOfVariableDeclAssignments {
    pub nodes: (Identifier, Vec<(Symbol, Identifier)>),
}

/// One member of a struct or union body.
#[derive(Debug)]
pub struct StructUnionMember {
    pub nodes: (
        Vec<AttributeInstance>,
        Option<RandomQualifier>,
        DataTypeOrVoid,
        ListOfVariableDeclAssignments,
        Symbol,
    ),
}

/// `{ member member* }` — the braced body of a struct or union.
#[derive(Debug)]
pub struct StructUnionBody {
    pub nodes: (Symbol, StructUnionMember, Vec<StructUnionMember>, Symbol),
}

/// A struct or union data type.
#[derive(Debug)]
pub struct DataTypeUnion {
    pub nodes: (
        StructUnion,
        Option<(Packed, Option<Signing>)>,
        StructUnionBody,
        Vec<PackedDimension>,
    ),
}

/// `[ n ]` or `[ n : m ]` after an enum name.
#[derive(Debug)]
pub struct EnumNameRange {
    pub nodes: (Symbol, IntegralNumber, Option<(Symbol, IntegralNumber)>, Symbol),
}

/// One declared enum name, with optional range and optional initializer.
#[derive(Debug)]
pub struct EnumNameDeclaration {
    pub nodes: (
        Identifier,
        Option<EnumNameRange>,
        Option<(Symbol, ConstantExpression)>,
    ),
}

/// `{ decl (, decl)* }` — the braced name list of an enum.
#[derive(Debug)]
pub struct EnumBody {
    pub nodes: (Symbol, EnumNameDeclaration, Vec<(Symbol, EnumNameDeclaration)>, Symbol),
}

/// The base type of an enum: an atom shape.
#[derive(Debug)]
pub struct EnumBaseTypeAtom {
    pub nodes: (IntegerAtomType, Option<Signing>),
}

/// The base type of an enum: a vector shape.
#[derive(Debug)]
pub struct EnumBaseTypeVector {
    pub nodes: (IntegerVectorType, Option<Signing>, Option<PackedDimension>),
}

/// The base type of an enum: a named type shape.
#[derive(Debug)]
pub struct EnumBaseTypeType {
    pub nodes: (Identifier, Option<PackedDimension>),
}

/// The alternatives of an enum base type.
#[derive(Debug)]
pub enum EnumBaseType {
    Atom(EnumBaseTypeAtom),
    Vector(EnumBaseTypeVector),
    Type(EnumBaseTypeType),
}

/// An enum data type.
#[derive(Debug)]
pub struct DataTypeEnum {
    pub nodes: (Symbol, Option<EnumBaseType>, EnumBody, Vec<PackedDimension>),
}

/// The `interface` keyword of a virtual interface type.
#[derive(Debug)]
pub struct Interface {
    pub nodes: (Symbol,),
}

/// `# ( expression )` — a parameter value assignment.
#[derive(Debug)]
pub struct ParameterValueAssignment {
    pub nodes: (Symbol, Symbol, Expression, Symbol),
}

/// `virtual interface? name #(..)? (. modport)?`.
#[derive(Debug)]
pub struct DataTypeVirtual {
    pub nodes: (
        Symbol,
        Option<Interface>,
        Identifier,
        Option<ParameterValueAssignment>,
        Option<(Symbol, Identifier)>,
    ),
}

/// `package ::` — a package scope prefix.
#[derive(Debug)]
pub struct PackageScope {
    pub nodes: (Identifier, Symbol),
}

/// `name #(..)? (:: name #(..)?)*` — a (possibly scoped) class type.
#[derive(Debug)]
pub struct ClassType {
    pub nodes: (
        Identifier,
        Option<ParameterValueAssignment>,
        Vec<(Symbol, Identifier, Option<ParameterValueAssignment>)>,
    ),
}

/// `class_type ::` — a class scope prefix.
#[derive(Debug)]
pub struct ClassScope {
    pub nodes: (ClassType, Symbol),
}

/// A package or class scope prefix.
#[derive(Debug)]
pub enum PackageScopeOrClassScope {
    PackageScope(PackageScope),
    ClassScope(Box<ClassScope>),
}

/// `scope? name dimension*` — a named data type.
#[derive(Debug)]
pub struct DataTypeType {
    pub nodes: (Option<PackageScopeOrClassScope>, Identifier, Vec<PackedDimension>),
}

/// `type ( expression )` — a type reference over an expression.
#[derive(Debug)]
pub struct TypeReferenceExpression {
    pub nodes: (Symbol, Symbol, Expression, Symbol),
}

/// `type ( data_type )` — a type reference over a data type.
#[derive(Debug)]
pub struct TypeReferenceDataType {
    pub nodes: (Symbol, Symbol, Box<DataType>, Symbol),
}

/// The alternatives of a type reference.
#[derive(Debug)]
pub enum TypeReference {
    Expression(TypeReferenceExpression),
    DataType(TypeReferenceDataType),
}

/// The alternatives of a data type.
#[derive(Debug)]
pub enum DataType {
    Vector(DataTypeVector),
    Atom(DataTypeAtom),
    NonIntegerType(NonIntegerType),
    Union(Box<DataTypeUnion>),
    Enum(DataTypeEnum),
    String(Symbol),
    Chandle(Symbol),
    Virtual(DataTypeVirtual),
    Type(DataTypeType),
    ClassType(ClassType),
    Event(Symbol),
    PsCovergroupIdentifier(Identifier),
    TypeReference(Box<TypeReference>),
}

/// `signing? dimension*` — an implicit data type; may be empty.
#[derive(Debug)]
pub struct ImplicitDataType {
    pub nodes: (Option<Signing>, Vec<PackedDimension>),
}

/// A data type, or an implicit one.
#[derive(Debug)]
pub enum DataTypeOrImplicit {
    DataType(DataType),
    ImplicitDataType(ImplicitDataType),
}

/// A data type, or `void`.
#[derive(Debug)]
pub enum DataTypeOrVoid {
    DataType(DataType),
    Void(Symbol),
}

/// The alternatives of a casting type.
#[derive(Debug)]
pub enum CastingType {
    SimpleType(Box<SimpleType>),
    ConstantPrimary(Box<ConstantPrimary>),
    Signing(Box<Signing>),
    String(Symbol),
    Const(Symbol),
}

/// The alternatives of a simple type.
#[derive(Debug)]
pub enum SimpleType {
    IntegerType(IntegerType),
    NonNonIntegerType(IntegerType),
    PsTypeIdentifier(Identifier),
    PsParameterIdentifier(Identifier),
}

/// `net_type? data_type_or_implicit` — a net port type over a data type.
#[derive(Debug)]
pub struct NetPortTypeDataType {
    pub nodes: (Option<NetType>, DataTypeOrImplicit),
}

/// `interconnect implicit_data_type` — an interconnect net port type.
#[derive(Debug)]
pub struct NetPortTypeInterconnect {
    pub nodes: (Symbol, ImplicitDataType),
}

/// The alternatives of a net port type.
#[derive(Debug)]
pub enum NetPortType {
    DataType(NetPortTypeDataType),
    NetTypeIdentifier(Identifier),
    Interconnect(NetPortTypeInterconnect),
}

/// `var data_type_or_implicit`.
#[derive(Debug)]
pub struct VarDataTypeVar {
    pub nodes: (Symbol, DataTypeOrImplicit),
}

/// A variable data type: a data type, or `var` with an implicit one.
#[derive(Debug)]
pub enum VarDataType {
    DataType(DataType),
    Var(VarDataTypeVar),
}

/// The type of a variable port.
#[derive(Debug)]
pub struct VariablePortType {
    pub nodes: (VarDataType,),
}

} // verus!
