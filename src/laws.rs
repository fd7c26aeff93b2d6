use vstd::prelude::*;
use vstd::arithmetic::power2::pow2;
use crate::model::{FlagsField, Function, Interface, Type, TypeDef, TypeDefKind, TypeInfo, VariantCase};
use crate::mapper::type_expr;
use crate::emit::{
    any_throws, case_shape_text, decoders_text, encode_text, encoders_text, file_path, file_text, flag_bit,
    flags_field_text, function_text, functions_text, lemma_flag_bit_pow2, method_text,
    result_decl_text, result_text, typedefs_text,
};
use crate::text::{decimal_text, digit_char, docs_text, upper_camel_of};
use crate::typescript::Codec;

verus! {

/// Generation is deterministic: the same interface, usage flags and codec
/// text always give the same path and the same text.
pub proof fn lemma_generation_deterministic(
    iface1: Interface,
    infos1: Seq<TypeInfo>,
    codec1: Codec,
    iface2: Interface,
    infos2: Seq<TypeInfo>,
    codec2: Codec,
)
    requires
        iface1 == iface2,
        infos1 == infos2,
        codec1 == codec2,
    ensures
        file_path(iface1) == file_path(iface2),
        file_text(iface1, infos1, codec1) == file_text(iface2, infos2, codec2),
{
}

/// The member for the flag at position `i` has the value `2^(i+1)`: the
/// values are 2, 4, 8, ... in declaration order, and bit 0 is never used.
pub proof fn lemma_flag_values(i: nat, f: FlagsField)
    ensures
        flag_bit(i) == pow2(i + 1),
        flag_bit(i) % 2 == 0,
        flags_field_text(i, f) == docs_text(f.docs@) + "\n"@ + upper_camel_of(f.id@) + " = "@
            + decimal_text(pow2(i + 1)) + ",\n"@,
        i == 0 ==> flag_bit(i) == 2,
        i == 1 ==> flag_bit(i) == 4,
        i == 2 ==> flag_bit(i) == 8,
    decreases i,
{
    lemma_flag_bit_pow2(i);
    if i > 0 {
        lemma_flag_values((i - 1) as nat, f);
    }
    reveal_with_fuel(flag_bit, 3);
}

/// A list of `u8` and a list of an alias of `u8` both map to `Uint8Array`,
/// not to an array of numbers.
pub proof fn lemma_byte_list(defs: Seq<TypeDef>, plain: Type, aliased: Type, a: usize)
    requires
        a < defs.len(),
        defs[a as int].kind == TypeDefKind::Alias(Type::U8),
        plain is List && *plain->List_0 == Type::U8,
        aliased is List && *aliased->List_0 == Type::Id(a),
    ensures
        type_expr(defs, plain) == "Uint8Array"@,
        type_expr(defs, aliased) == "Uint8Array"@,
{
    reveal_with_fuel(crate::mapper::array_elem, 2);
}

/// A call with no result types returns `Promise<void>`; one with two result
/// types returns a promise of the pair of their types, in order.
pub proof fn lemma_result_arity(defs: Seq<TypeDef>, ts: Seq<Type>)
    ensures
        ts.len() == 0 ==> result_text(defs, ts) == "Promise<void>"@,
        ts.len() == 2 ==> result_text(defs, ts) == "Promise<["@ + type_expr(defs, ts[0]) + ", "@
            + type_expr(defs, ts[1]) + "]>"@,
{
    if ts.len() == 2 {
        assert(ts.drop_last().len() == 1);
        assert(ts.drop_last()[0] == ts[0]);
        reveal_with_fuel(crate::mapper::types_join, 2);
        assert(result_text(defs, ts) =~= "Promise<["@ + type_expr(defs, ts[0]) + ", "@
            + type_expr(defs, ts[1]) + "]>"@);
    }
}

/// A function without a result declares `Promise<void>`, and its stub waits
/// for the request, so it settles only when the request does, and fails when
/// the request fails.
pub proof fn lemma_no_result_stub(
    defs: Seq<TypeDef>,
    intf_name: Seq<char>,
    func: Function,
    encode_params: Seq<String>,
    decode_result: Seq<char>,
)
    requires
        func.result is None,
    ensures
        function_text(defs, intf_name, func, encode_params, decode_result)
            == "\n"@ + docs_text(func.docs@) + "\nexport async function "@
            + crate::text::lower_camel_of(func.id@) + " ("@
            + crate::emit::params_text(defs, func.params@) + ") : "@ + "Promise<void>"@
            + " {\n    const out = []\n    "@ + encode_text(encode_params) + "\n\n    "@
            + "await"@ + " fetch('ipc://localhost/"@ + intf_name + "/"@ + crate::text::snake_of(func.id@)
            + "', { method: \"POST\", body: Uint8Array.from(out) })"@ + " "@ + "\n}\n        "@,
{
    assert(forall|x: Seq<char>| #[trigger] (x + Seq::<char>::empty()) =~= x);
}

/// A resource method's request body starts with the instance handle, then
/// encodes the declared parameters in order.
pub proof fn lemma_method_handle_first(
    defs: Seq<TypeDef>,
    mod_ident: Seq<char>,
    ident: Seq<char>,
    func: Function,
    encode_params: Seq<String>,
    decode_result: Seq<char>,
)
    ensures
        exists|pre: Seq<char>, post: Seq<char>|
            method_text(defs, mod_ident, ident, func, encode_params, decode_result)
                == pre + "    const out = []\n    serializeU32(out, this.#id);\n    "@
                + encode_text(encode_params) + post,
{
    let name = crate::text::lower_camel_of(func.id@);
    let pre = docs_text(func.docs@) + "\nasync "@ + name + " ("@
        + crate::emit::params_text(defs, func.params@) + ") : "@
        + crate::emit::function_return_text(defs, func) + " {\n"@;
    let post = "\n\n    "@ + (if func.result is Some { "return "@ } else { Seq::empty() })
        + "await fetch('ipc://localhost/"@ + crate::text::snake_of(mod_ident) + "::resource::"@
        + crate::text::snake_of(ident) + "/"@ + name
        + "', { method: \"POST\", body: Uint8Array.from(out), headers: { 'Content-Type': 'application/octet-stream' } })"@
        + (if func.result is Some { decode_result } else { Seq::empty() }) + "\n}\n"@;
    assert(method_text(defs, mod_ident, ident, func, encode_params, decode_result)
        =~= pre + "    const out = []\n    serializeU32(out, this.#id);\n    "@
        + encode_text(encode_params) + post);
}

/// Where no function may fail, the module declares no generic result type:
/// the header is followed directly by the codec helpers. Where one may, the
/// declaration follows the header.
pub proof fn lemma_result_decl_conditional(iface: Interface, infos: Seq<TypeInfo>, codec: Codec)
    ensures
        !any_throws(iface.functions@) ==> file_text(iface, infos, codec)
            == "// @ts-nocheck\n"@ + codec.utils@ + decoders_text(infos, codec)
            + encoders_text(infos, codec) + "\n"@ + typedefs_text(iface, codec) + "\n"@
            + functions_text(iface, codec),
        any_throws(iface.functions@) ==> file_text(iface, infos, codec)
            == "// @ts-nocheck\n"@ + result_decl_text() + codec.utils@ + decoders_text(infos, codec)
            + encoders_text(infos, codec) + "\n"@ + typedefs_text(iface, codec) + "\n"@
            + functions_text(iface, codec),
{
    assert("// @ts-nocheck\n"@ + Seq::<char>::empty() =~= "// @ts-nocheck\n"@);
}

/// Different numbers have different numerals.
pub proof fn lemma_decimal_injective(i: nat, j: nat)
    requires
        decimal_text(i) == decimal_text(j),
    ensures
        i == j,
    decreases i,
{
    lemma_decimal_len(i);
    lemma_decimal_len(j);
    if i < 10 && j < 10 {
        assert(decimal_text(i)[0] == digit_char(i));
        assert(decimal_text(j)[0] == digit_char(j));
    } else if i >= 10 && j >= 10 {
        let a = decimal_text(i);
        let b = decimal_text(j);
        assert(a.last() == digit_char(i % 10));
        assert(b.last() == digit_char(j % 10));
        assert(a.drop_last() =~= decimal_text(i / 10));
        assert(b.drop_last() =~= decimal_text(j / 10));
        lemma_decimal_injective(i / 10, j / 10);
    }
}

proof fn lemma_decimal_len(n: nat)
    ensures
        n < 10 ==> decimal_text(n).len() == 1,
        n >= 10 ==> decimal_text(n).len() >= 2,
    decreases n,
{
    if n >= 10 {
        lemma_decimal_len(n / 10);
    }
}

/// The shape of case `i` of a variant carries the literal tag `i`, and a
/// `value` member exactly where the case has a payload; shapes of different
/// cases have different tags.
pub proof fn lemma_variant_shape(defs: Seq<TypeDef>, ident: Seq<char>, i: nat, j: nat, c: VariantCase, d: VariantCase)
    ensures
        case_shape_text(defs, ident, i, c) == docs_text(c.docs@) + "\nexport interface "@ + ident
            + upper_camel_of(c.id@) + " { tag: "@ + decimal_text(i)
            + (if c.ty is Some { ", value: "@ + type_expr(defs, c.ty->Some_0) } else { Seq::empty() })
            + " }\n"@,
        i != j ==> decimal_text(i) != decimal_text(j),
{
    if i != j && decimal_text(i) == decimal_text(j) {
        lemma_decimal_injective(i, j);
    }
}

/// A resource method with a result returns what the awaited request decodes to.
pub proof fn lemma_method_returns_result(
    defs: Seq<TypeDef>,
    mod_ident: Seq<char>,
    ident: Seq<char>,
    func: Function,
    encode_params: Seq<String>,
    decode_result: Seq<char>,
)
    requires
        func.result is Some,
    ensures
        exists|pre: Seq<char>, mid: Seq<char>|
            method_text(defs, mod_ident, ident, func, encode_params, decode_result)
                == pre + "\n\n    return await fetch('ipc://localhost/"@ + mid + decode_result + "\n}\n"@,
{
    let name = crate::text::lower_camel_of(func.id@);
    let pre = docs_text(func.docs@) + "\nasync "@ + name + " ("@
        + crate::emit::params_text(defs, func.params@) + ") : "@
        + crate::emit::function_return_text(defs, func) + " {\n"@
        + crate::emit::method_body_text(encode_params);
    let mid = crate::text::snake_of(mod_ident) + "::resource::"@ + crate::text::snake_of(ident) + "/"@ + name
        + "', { method: \"POST\", body: Uint8Array.from(out), headers: { 'Content-Type': 'application/octet-stream' } })"@;
    assert("\n\n    "@ + "return "@ + "await fetch('ipc://localhost/"@ =~= "\n\n    return await fetch('ipc://localhost/"@) by {
        reveal_strlit("\n\n    ");
        reveal_strlit("return ");
        reveal_strlit("await fetch('ipc://localhost/");
        reveal_strlit("\n\n    return await fetch('ipc://localhost/");
    }
    assert(method_text(defs, mod_ident, ident, func, encode_params, decode_result)
        =~= pre + "\n\n    return await fetch('ipc://localhost/"@ + mid + decode_result + "\n}\n"@);
}

} // verus!
