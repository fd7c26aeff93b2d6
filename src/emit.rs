use vstd::prelude::*;
use vstd::arithmetic::power::{lemma_pow1, lemma_pow_adds, lemma_pow_positive};
use vstd::arithmetic::power2::pow2;
use crate::model::{
    Interface, TypeInfo, MAX_FLAGS, EnumCase, FlagsField, Function, RecordField, Type, TypeDef, TypeDefKind, UnionCase,
    VariantCase,
};
use crate::mapper::{type_expr, types_join};
use crate::text::{
    concat, decimal_text, docs_text, join, kebab_of, lower_camel_of, snake_of, upper_camel_of,
};
use crate::typescript::Codec;

verus! {

/// The value of the flag at position `i`: `2 << i`, so bit 0 is never used.
pub open spec fn flag_bit(i: nat) -> nat
    decreases i,
{
    if i == 0 {
        2
    } else {
        2 * flag_bit((i - 1) as nat)
    }
}

/// The flag at position `i` has the value `2^(i+1)`.
pub proof fn lemma_flag_bit_pow2(i: nat)
    ensures
        flag_bit(i) == pow2(i + 1),
    decreases i,
{
    lemma_pow1(2);
    lemma_pow_positive(2, i);
    lemma_pow_positive(2, i + 1);
    if i > 0 {
        lemma_flag_bit_pow2((i - 1) as nat);
        lemma_pow_adds(2, i, 1);
    } else {
        lemma_pow_adds(2, 0, 1);
    }
}

pub open spec fn alias_text(defs: Seq<TypeDef>, docs: Seq<char>, ident: Seq<char>, ty: Type) -> Seq<char> {
    docs + "\nexport type "@ + ident + " = "@ + type_expr(defs, ty) + ";\n"@
}

pub open spec fn record_field_text(defs: Seq<TypeDef>, f: RecordField) -> Seq<char> {
    docs_text(f.docs@) + "\n"@ + lower_camel_of(f.id@) + ": "@ + type_expr(defs, f.ty) + ",\n"@
}

pub open spec fn record_text(defs: Seq<TypeDef>, docs: Seq<char>, ident: Seq<char>, fields: Seq<RecordField>) -> Seq<char> {
    docs + "\nexport interface "@ + ident + " { "@
        + concat(Seq::new(fields.len(), |k: int| record_field_text(defs, fields[k]))) + " }\n"@
}

pub open spec fn flags_field_text(i: nat, f: FlagsField) -> Seq<char> {
    docs_text(f.docs@) + "\n"@ + upper_camel_of(f.id@) + " = "@ + decimal_text(flag_bit(i)) + ",\n"@
}

pub open spec fn flags_text(docs: Seq<char>, ident: Seq<char>, fields: Seq<FlagsField>) -> Seq<char> {
    docs + "\nexport enum "@ + ident + " { "@
        + concat(Seq::new(fields.len(), |k: int| flags_field_text(k as nat, fields[k]))) + " }\n"@
}

/// The `value` member of a variant case's shape: present only with a payload.
pub open spec fn case_value_text(defs: Seq<TypeDef>, ty: Option<Type>) -> Seq<char> {
    match ty {
        Some(t) => ", value: "@ + type_expr(defs, t),
        None => Seq::empty(),
    }
}

/// The tagged shape of case `i` of a variant named `ident`.
pub open spec fn case_shape_text(defs: Seq<TypeDef>, ident: Seq<char>, i: nat, c: VariantCase) -> Seq<char> {
    docs_text(c.docs@) + "\nexport interface "@ + ident + upper_camel_of(c.id@) + " { tag: "@
        + decimal_text(i) + case_value_text(defs, c.ty) + " }\n"@
}

pub open spec fn case_ref_text(ident: Seq<char>, c: VariantCase) -> Seq<char> {
    docs_text(c.docs@) + "\n"@ + ident + upper_camel_of(c.id@)
}

pub open spec fn variant_text(defs: Seq<TypeDef>, docs: Seq<char>, ident: Seq<char>, cases: Seq<VariantCase>) -> Seq<char> {
    concat(Seq::new(cases.len(), |k: int| case_shape_text(defs, ident, k as nat, cases[k]))) + "\n"@
        + docs + "\nexport type "@ + ident + " = "@
        + join(Seq::new(cases.len(), |k: int| case_ref_text(ident, cases[k])), " | "@) + "\n"@
}

pub open spec fn enum_case_text(c: EnumCase) -> Seq<char> {
    docs_text(c.docs@) + "\n"@ + upper_camel_of(c.id@) + ",\n"@
}

pub open spec fn enum_text(docs: Seq<char>, ident: Seq<char>, cases: Seq<EnumCase>) -> Seq<char> {
    docs + "\nexport enum "@ + ident + " { "@
        + concat(Seq::new(cases.len(), |k: int| enum_case_text(cases[k]))) + " }\n"@
}

pub open spec fn union_case_text(defs: Seq<TypeDef>, c: UnionCase) -> Seq<char> {
    docs_text(c.docs@) + "\n"@ + type_expr(defs, c.ty) + "\n"@
}

pub open spec fn union_text(defs: Seq<TypeDef>, docs: Seq<char>, ident: Seq<char>, cases: Seq<UnionCase>) -> Seq<char> {
    docs + "\nexport type "@ + ident + " = "@
        + join(Seq::new(cases.len(), |k: int| union_case_text(defs, cases[k])), " | "@) + ";\n"@
}

pub open spec fn param_text(defs: Seq<TypeDef>, p: (String, Type)) -> Seq<char> {
    lower_camel_of(p.0@) + ": "@ + type_expr(defs, p.1)
}

pub open spec fn params_text(defs: Seq<TypeDef>, params: Seq<(String, Type)>) -> Seq<char> {
    join(Seq::new(params.len(), |k: int| param_text(defs, params[k])), ", "@)
}

/// The promise type of a call with these result types.
pub open spec fn result_text(defs: Seq<TypeDef>, ts: Seq<Type>) -> Seq<char> {
    if ts.len() == 0 {
        "Promise<void>"@
    } else if ts.len() == 1 {
        "Promise<"@ + type_expr(defs, ts[0]) + ">"@
    } else {
        "Promise<["@ + types_join(defs, ts) + "]>"@
    }
}

/// The parameter-encoding statements, one after another.
pub open spec fn encode_text(encode_params: Seq<String>) -> Seq<char> {
    join(Seq::new(encode_params.len(), |k: int| encode_params[k]@), ";\n"@)
}

/// The declared return type of a stub: a promise of the result, or of
/// nothing where there is none.
pub open spec fn function_return_text(defs: Seq<TypeDef>, func: Function) -> Seq<char> {
    match func.result {
        Some(ts) => result_text(defs, ts@),
        None => "Promise<void>"@,
    }
}

/// The stub of a free function of the interface named `intf_name`: it returns
/// the decoded result where there is one, and otherwise waits for the request.
pub open spec fn function_text(
    defs: Seq<TypeDef>,
    intf_name: Seq<char>,
    func: Function,
    encode_params: Seq<String>,
    decode_result: Seq<char>,
) -> Seq<char> {
    let result = function_return_text(defs, func);
    let has_result = func.result is Some;
    "\n"@ + docs_text(func.docs@) + "\nexport async function "@ + lower_camel_of(func.id@) + " ("@
        + params_text(defs, func.params@) + ") : "@ + result + " {\n    const out = []\n    "@
        + encode_text(encode_params) + "\n\n    "@ + (if has_result { "return"@ } else { "await"@ })
        + " fetch('ipc://localhost/"@ + intf_name + "/"@ + snake_of(func.id@)
        + "', { method: \"POST\", body: Uint8Array.from(out) })"@
        + (if has_result { decode_result } else { Seq::empty() }) + " "@
        + (if has_result { "as "@ + result } else { Seq::empty() }) + "\n}\n        "@
}

/// The statements that build a method's request body: the instance handle,
/// then each declared parameter.
pub open spec fn method_body_text(encode_params: Seq<String>) -> Seq<char> {
    "    const out = []\n    serializeU32(out, this.#id);\n    "@ + encode_text(encode_params)
}

/// The stub of one method of the resource `ident` of the interface `mod_ident`:
/// it waits for the request and returns the decoded result, if any.
pub open spec fn method_text(
    defs: Seq<TypeDef>,
    mod_ident: Seq<char>,
    ident: Seq<char>,
    func: Function,
    encode_params: Seq<String>,
    decode_result: Seq<char>,
) -> Seq<char> {
    let name = lower_camel_of(func.id@);
    docs_text(func.docs@) + "\nasync "@ + name + " ("@ + params_text(defs, func.params@) + ") : "@
        + function_return_text(defs, func) + " {\n"@ + method_body_text(encode_params)
        + "\n\n    "@ + (if func.result is Some { "return "@ } else { Seq::empty() })
        + "await fetch('ipc://localhost/"@ + snake_of(mod_ident) + "::resource::"@
        + snake_of(ident) + "/"@ + name
        + "', { method: \"POST\", body: Uint8Array.from(out), headers: { 'Content-Type': 'application/octet-stream' } })"@
        + (if func.result is Some { decode_result } else { Seq::empty() }) + "\n}\n"@
}

pub open spec fn resource_text(
    defs: Seq<TypeDef>,
    mod_ident: Seq<char>,
    docs: Seq<char>,
    ident: Seq<char>,
    funcs: Seq<Function>,
    codecs: Seq<crate::typescript::FunctionCodec>,
) -> Seq<char> {
    docs + "\nexport class "@ + ident + " {\n    #id: number;\n\n    "@
        + concat(Seq::new(funcs.len(), |k: int| method_text(
            defs, mod_ident, ident, funcs[k], codecs[k].encode_params@, codecs[k].decode_result@,
        ))) + "\n}"@
}

/// The declaration of the type definition at index `k`.
pub open spec fn typedef_text(iface: Interface, codec: Codec, k: int) -> Seq<char> {
    let defs = iface.typedefs@;
    let td = defs[k];
    let docs = docs_text(td.docs@);
    let ident = upper_camel_of(td.ident@);
    match td.kind {
        TypeDefKind::Alias(t) => alias_text(defs, docs, ident, t),
        TypeDefKind::Record(fields) => record_text(defs, docs, ident, fields@),
        TypeDefKind::Flags(fields) => flags_text(docs, ident, fields@),
        TypeDefKind::Variant(cases) => variant_text(defs, docs, ident, cases@),
        TypeDefKind::Enum(cases) => enum_text(docs, ident, cases@),
        TypeDefKind::Union(cases) => union_text(defs, docs, ident, cases@),
        TypeDefKind::Resource(funcs) => resource_text(
            defs, iface.ident@, docs, ident, funcs@, codec.typedefs@[k].methods@,
        ),
    }
}

/// The interface, its usage flags and its codec text fit together: one flag
/// entry and one codec entry per definition, one stub codec per function and
/// per resource method, and no flags type with more fields than a `u64` holds.
pub open spec fn consistent(iface: Interface, infos: Seq<TypeInfo>, codec: Codec) -> bool {
    let defs = iface.typedefs@;
    &&& infos.len() == defs.len()
    &&& codec.typedefs@.len() == defs.len()
    &&& codec.functions@.len() == iface.functions@.len()
    &&& forall|k: int| 0 <= k < defs.len() ==> match #[trigger] defs[k].kind {
        TypeDefKind::Flags(fields) => fields@.len() <= MAX_FLAGS,
        TypeDefKind::Resource(funcs) => codec.typedefs@[k].methods@.len() == funcs@.len(),
        _ => true,
    }
}

/// Whether some function of the interface may report a failure.
pub open spec fn any_throws(funcs: Seq<Function>) -> bool {
    exists|k: int| 0 <= k < funcs.len() && #[trigger] funcs[k].throws
}

/// The generic result type that failing functions return.
pub open spec fn result_decl_text() -> Seq<char> {
    "export type Result<T, E> = { tag: 'ok', val: T } | { tag: 'err', val: E };\n"@
}

pub open spec fn result_decl_if_needed(funcs: Seq<Function>) -> Seq<char> {
    if any_throws(funcs) { result_decl_text() } else { Seq::empty() }
}

/// The decoders of the definitions that occur in a result position, in order.
pub open spec fn decoders_text(infos: Seq<TypeInfo>, codec: Codec) -> Seq<char> {
    concat(Seq::new(infos.len(), |k: int| if infos[k].result { codec.typedefs@[k].decoder@ } else { Seq::empty() }))
}

/// The encoders of the definitions that occur in a parameter position, in order.
pub open spec fn encoders_text(infos: Seq<TypeInfo>, codec: Codec) -> Seq<char> {
    concat(Seq::new(infos.len(), |k: int| if infos[k].param { codec.typedefs@[k].encoder@ } else { Seq::empty() }))
}

pub open spec fn typedefs_text(iface: Interface, codec: Codec) -> Seq<char> {
    concat(Seq::new(iface.typedefs@.len(), |k: int| typedef_text(iface, codec, k)))
}

pub open spec fn functions_text(iface: Interface, codec: Codec) -> Seq<char> {
    concat(Seq::new(iface.functions@.len(), |k: int| function_text(
        iface.typedefs@, snake_of(iface.ident@), iface.functions@[k],
        codec.functions@[k].encode_params@, codec.functions@[k].decode_result@,
    )))
}

/// The whole generated module, before any formatter runs.
pub open spec fn file_text(iface: Interface, infos: Seq<TypeInfo>, codec: Codec) -> Seq<char> {
    "// @ts-nocheck\n"@ + result_decl_if_needed(iface.functions@) + codec.utils@
        + decoders_text(infos, codec) + encoders_text(infos, codec) + "\n"@
        + typedefs_text(iface, codec) + "\n"@ + functions_text(iface, codec)
}

/// The path of the generated module.
pub open spec fn file_path(iface: Interface) -> Seq<char> {
    kebab_of(iface.ident@) + ".ts"@
}

} // verus!
