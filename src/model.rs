use vstd::prelude::*;

verus! {

/// A type of the interface language.
pub enum Type {
    Bool,
    U8,
    U16,
    U32,
    U64,
    U128,
    S8,
    S16,
    S32,
    S64,
    S128,
    Float32,
    Float64,
    Char,
    String,
    Tuple(Vec<Type>),
    List(Box<Type>),
    Option(Box<Type>),
    Result { ok: Option<Box<Type>>, err: Option<Box<Type>> },
    /// A reference to the type definition at this index.
    Id(usize),
}

pub struct RecordField {
    pub id: String,
    pub docs: String,
    pub ty: Type,
}

pub struct FlagsField {
    pub id: String,
    pub docs: String,
}

pub struct VariantCase {
    pub id: String,
    pub docs: String,
    pub ty: Option<Type>,
}

pub struct EnumCase {
    pub id: String,
    pub docs: String,
}

pub struct UnionCase {
    pub docs: String,
    pub ty: Type,
}

/// A callable operation: a free function or a method of a resource.
pub struct Function {
    pub id: String,
    pub docs: String,
    pub params: Vec<(String, Type)>,
    /// The result types; `None` where the function returns nothing.
    pub result: Option<Vec<Type>>,
    /// Whether the function may report a failure.
    pub throws: bool,
}

pub enum TypeDefKind {
    Alias(Type),
    Record(Vec<RecordField>),
    Flags(Vec<FlagsField>),
    Variant(Vec<VariantCase>),
    Enum(Vec<EnumCase>),
    Union(Vec<UnionCase>),
    Resource(Vec<Function>),
}

pub struct TypeDef {
    pub ident: String,
    pub docs: String,
    pub kind: TypeDefKind,
}

/// A resolved interface: its type definitions, referenced by index, and its functions.
pub struct Interface {
    pub ident: String,
    pub typedefs: Vec<TypeDef>,
    pub functions: Vec<Function>,
}

/// Where a type definition is used: as (part of) a parameter, as (part of) a result.
#[derive(Clone, Copy, PartialEq, Eq, Structural, Debug)]
pub struct TypeInfo {
    pub param: bool,
    pub result: bool,
}

/// The most fields a flags type can have: field `i` gets the value `2 << i` in a `u64`.
pub const MAX_FLAGS: usize = 63;

} // verus!
