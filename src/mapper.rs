use vstd::prelude::*;
use vstd::string::*;
use crate::model::{Type, TypeDef, TypeDefKind};
use crate::text::upper_camel_of;

verus! {

/// The dedicated typed-array name for a fixed-width numeric element type,
/// looking through at most `fuel` aliases.
pub open spec fn array_elem(defs: Seq<TypeDef>, t: Type, fuel: nat) -> Option<Seq<char>>
    decreases fuel,
{
    match t {
        Type::U8 => Some("Uint8Array"@),
        Type::S8 => Some("Int8Array"@),
        Type::U16 => Some("Uint16Array"@),
        Type::S16 => Some("Int16Array"@),
        Type::U32 => Some("Uint32Array"@),
        Type::S32 => Some("Int32Array"@),
        Type::U64 => Some("BigUint64Array"@),
        Type::S64 => Some("BigInt64Array"@),
        Type::Float32 => Some("Float32Array"@),
        Type::Float64 => Some("Float64Array"@),
        Type::Id(id) => if fuel > 0 && id < defs.len() {
            match defs[id as int].kind {
                TypeDefKind::Alias(a) => array_elem(defs, a, (fuel - 1) as nat),
                _ => None,
            }
        } else {
            None
        },
        _ => None,
    }
}

/// The typed array for a list of `t`, if `t` is (an alias chain to) a
/// fixed-width numeric type. An alias chain never needs more steps than there
/// are definitions.
pub open spec fn array_of(defs: Seq<TypeDef>, t: Type) -> Option<Seq<char>> {
    array_elem(defs, t, defs.len())
}

/// The TypeScript type expression for `t`. A reference is printed as the
/// upper camel case name of its definition; one that names no definition
/// prints as nothing.
pub open spec fn type_expr(defs: Seq<TypeDef>, t: Type) -> Seq<char>
    decreases t,
{
    match t {
        Type::Bool => "boolean"@,
        Type::U8 | Type::U16 | Type::U32 | Type::S8 | Type::S16 | Type::S32 | Type::Float32
        | Type::Float64 => "number"@,
        Type::U64 | Type::S64 | Type::U128 | Type::S128 => "bigint"@,
        Type::Char | Type::String => "string"@,
        Type::Tuple(ts) => "["@ + types_join(defs, ts@) + "]"@,
        Type::List(e) => match array_of(defs, *e) {
            Some(a) => a,
            None => type_expr(defs, *e) + "[]"@,
        },
        Type::Option(e) => type_expr(defs, *e) + " | null"@,
        Type::Result { ok, err } => "Result<"@ + match ok {
            Some(o) => type_expr(defs, *o),
            None => "null"@,
        } + ", "@ + match err {
            Some(e) => type_expr(defs, *e),
            None => "null"@,
        } + ">"@,
        Type::Id(id) => if id < defs.len() {
            upper_camel_of(defs[id as int].ident@)
        } else {
            Seq::empty()
        },
    }
}

/// The type expressions of `ts`, separated by `, `.
pub open spec fn types_join(defs: Seq<TypeDef>, ts: Seq<Type>) -> Seq<char>
    decreases ts,
{
    if ts.len() == 0 {
        Seq::empty()
    } else if ts.len() == 1 {
        type_expr(defs, ts[0])
    } else {
        types_join(defs, ts.drop_last()) + ", "@ + type_expr(defs, ts.last())
    }
}

} // verus!
