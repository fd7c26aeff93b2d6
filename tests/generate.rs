use tauri_bindgen_gen_guest_ts::{
    decimal, prettyprint_level, print_docs, verbosity_level, Builder, Codec, ConfigError, EnumCase,
    FlagsField, Formatter, Function, FunctionCodec, Interface, Level, RecordField, Type, TypeDef,
    TypeDefCodec, TypeDefKind, TypeInfo, UnionCase, VariantCase,
};

fn s(x: &str) -> String {
    x.to_string()
}

fn typedef(ident: &str, kind: TypeDefKind) -> TypeDef {
    TypeDef { ident: s(ident), docs: String::new(), kind }
}

fn func(id: &str, params: Vec<(String, Type)>, result: Option<Vec<Type>>, throws: bool) -> Function {
    Function { id: s(id), docs: String::new(), params, result, throws }
}

fn stub_codec(n_params: usize, decode: &str) -> FunctionCodec {
    FunctionCodec {
        encode_params: (0..n_params).map(|i| format!("enc{i}(out)")).collect(),
        decode_result: s(decode),
    }
}

fn typedef_codec(i: usize, methods: Vec<FunctionCodec>) -> TypeDefCodec {
    TypeDefCodec { encoder: format!("/*enc{i}*/"), decoder: format!("/*dec{i}*/"), methods }
}

/// Generates the module for an interface whose definitions are all unused,
/// with one stub codec per function and per resource method.
fn generate(ident: &str, typedefs: Vec<TypeDef>, functions: Vec<Function>) -> (String, String) {
    let infos = vec![TypeInfo { param: false, result: false }; typedefs.len()];
    generate_with(ident, typedefs, functions, infos)
}

fn generate_with(
    ident: &str,
    typedefs: Vec<TypeDef>,
    functions: Vec<Function>,
    infos: Vec<TypeInfo>,
) -> (String, String) {
    let codec = Codec {
        utils: s("/*utils*/"),
        typedefs: typedefs
            .iter()
            .enumerate()
            .map(|(i, td)| match &td.kind {
                TypeDefKind::Resource(fs) => {
                    typedef_codec(i, fs.iter().map(|f| stub_codec(f.params.len(), ".then(dec)")).collect())
                }
                _ => typedef_codec(i, vec![]),
            })
            .collect(),
        functions: functions.iter().map(|f| stub_codec(f.params.len(), ".then(dec)")).collect(),
    };
    let iface = Interface { ident: s(ident), typedefs, functions };
    let gen = Builder::default().build(iface, infos, codec).expect("consistent input");
    gen.to_file()
}

#[test]
fn record_field_is_camel_case_number() {
    let rec = typedef(
        "point",
        TypeDefKind::Record(vec![RecordField { id: s("fooBar"), docs: String::new(), ty: Type::U32 }]),
    );
    let (_, text) = generate("shapes", vec![rec], vec![]);
    assert!(text.contains("export interface Point { \nfooBar: number,\n }\n"), "{text}");
}

#[test]
fn flags_use_doubling_values_from_two() {
    let fields = ["read", "write", "exec"]
        .iter()
        .map(|n| FlagsField { id: s(n), docs: String::new() })
        .collect();
    let (_, text) = generate("perm", vec![typedef("mode", TypeDefKind::Flags(fields))], vec![]);
    assert!(text.contains("export enum Mode { \nRead = 2,\n\nWrite = 4,\n\nExec = 8,\n }\n"), "{text}");
    assert!(!text.contains("= 1,"));
}

#[test]
fn variant_cases_are_tagged_shapes() {
    let cases = vec![
        VariantCase { id: s("none"), docs: String::new(), ty: None },
        VariantCase { id: s("text"), docs: String::new(), ty: Some(Type::String) },
    ];
    let (_, text) = generate("v", vec![typedef("my-var", TypeDefKind::Variant(cases))], vec![]);
    assert!(text.contains("\nexport interface MyVarNone { tag: 0 }\n"), "{text}");
    assert!(text.contains("\nexport interface MyVarText { tag: 1, value: string }\n"), "{text}");
    assert!(text.contains("\nexport type MyVar = \nMyVarNone | \nMyVarText\n"), "{text}");
    assert_eq!(text.matches("value:").count(), 1);
}

#[test]
fn byte_lists_map_to_uint8array() {
    let alias = typedef("byte", TypeDefKind::Alias(Type::U8));
    let f = func(
        "send",
        vec![
            (s("plain"), Type::List(Box::new(Type::U8))),
            (s("aliased"), Type::List(Box::new(Type::Id(0)))),
            (s("words"), Type::List(Box::new(Type::String))),
        ],
        None,
        false,
    );
    let (_, text) = generate("io", vec![alias], vec![f]);
    assert!(text.contains("(plain: Uint8Array, aliased: Uint8Array, words: string[])"), "{text}");
    assert!(text.contains("export type Byte = number;"), "{text}");
}

#[test]
fn result_arity_shapes_the_promise() {
    let pair = func("pair", vec![], Some(vec![Type::U32, Type::String]), false);
    let single = func("single", vec![], Some(vec![Type::U64]), false);
    let nothing = func("nothing", vec![], None, false);
    let empty = func("empty", vec![], Some(vec![]), false);
    let (_, text) = generate("calls", vec![], vec![pair, single, nothing, empty]);
    assert!(text.contains("export async function pair () : Promise<[number, string]> {"), "{text}");
    assert!(text.contains("as Promise<[number, string]>"), "{text}");
    assert!(text.contains("export async function single () : Promise<bigint> {"), "{text}");
    assert!(text.contains("export async function nothing () : Promise<void> {"), "{text}");
    assert!(text.contains("\n    await fetch('ipc://localhost/calls/nothing'"), "{text}");
    assert!(text.contains("\n    return fetch('ipc://localhost/calls/pair', { method: \"POST\", body: Uint8Array.from(out) }).then(dec) as Promise<[number, string]>"), "{text}");
    assert!(text.contains("export async function empty () : Promise<void> {"), "{text}");
}

#[test]
fn resource_method_sends_handle_first() {
    let m = func("setValue", vec![(s("new-value"), Type::U32), (s("other"), Type::Bool)], None, false);
    let res = typedef("counter", TypeDefKind::Resource(vec![m]));
    let (_, text) = generate("MyApp", vec![res], vec![]);
    let handle = text.find("serializeU32(out, this.#id);").expect("handle");
    let first = text.find("enc0(out)").expect("first parameter");
    let second = text.find("enc1(out)").expect("second parameter");
    assert!(handle < first && first < second, "{text}");
    assert!(text.contains("export class Counter {\n    #id: number;"), "{text}");
    assert!(text.contains("async setValue (newValue: number, other: boolean) : Promise<void> {"), "{text}");
    assert!(text.contains("\n\n    await fetch('ipc://localhost/my_app::resource::counter/setValue'"), "{text}");
    assert!(text.contains("headers: { 'Content-Type': 'application/octet-stream' }"), "{text}");
}

#[test]
fn no_result_type_without_failing_functions() {
    let f = func("ping", vec![], None, false);
    let (_, text) = generate("net", vec![], vec![f]);
    assert!(text.starts_with("// @ts-nocheck\n/*utils*/"), "{text}");
    assert!(!text.contains("export type Result<T, E>"));
}

#[test]
fn result_type_with_failing_function() {
    let f = func("ping", vec![], Some(vec![Type::Result { ok: None, err: Some(Box::new(Type::String)) }]), true);
    let (_, text) = generate("net", vec![], vec![f]);
    assert!(text.starts_with(
        "// @ts-nocheck\nexport type Result<T, E> = { tag: 'ok', val: T } | { tag: 'err', val: E };\n/*utils*/"
    ));
    assert!(text.contains("Promise<Result<null, string>>"), "{text}");
}

#[test]
fn output_is_deterministic() {
    let make = || {
        let rec = typedef(
            "point",
            TypeDefKind::Record(vec![RecordField { id: s("x"), docs: s("the x"), ty: Type::S64 }]),
        );
        let f = func("get-point", vec![(s("id"), Type::Id(0))], Some(vec![Type::Id(0)]), false);
        generate("geo", vec![rec], vec![f])
    };
    assert_eq!(make(), make());
}

#[test]
fn path_and_function_address_use_case_conversions() {
    let f = func("doThing", vec![(s("some_arg"), Type::Char)], None, false);
    let (path, text) = generate("MyIface", vec![], vec![f]);
    assert_eq!(path, "my-iface.ts");
    assert!(text.contains("export async function doThing (someArg: string) : Promise<void> {"), "{text}");
    assert!(text.contains("fetch('ipc://localhost/my_iface/do_thing', { method: \"POST\", body: Uint8Array.from(out) })"), "{text}");
}

#[test]
fn codecs_follow_usage_flags() {
    let defs = vec![
        typedef("a", TypeDefKind::Alias(Type::Bool)),
        typedef("b", TypeDefKind::Alias(Type::Bool)),
        typedef("c", TypeDefKind::Alias(Type::Bool)),
    ];
    let infos = vec![
        TypeInfo { param: true, result: false },
        TypeInfo { param: false, result: true },
        TypeInfo { param: true, result: true },
    ];
    let (_, text) = generate_with("x", defs, vec![], infos);
    assert!(text.starts_with("// @ts-nocheck\n/*utils*//*dec1*//*dec2*//*enc0*//*enc2*/\n"), "{text}");
}

#[test]
fn compound_types_map() {
    let alias = typedef(
        "mix",
        TypeDefKind::Alias(Type::Tuple(vec![
            Type::Option(Box::new(Type::S8)),
            Type::Result { ok: Some(Box::new(Type::U128)), err: None },
            Type::List(Box::new(Type::Tuple(vec![]))),
        ])),
    );
    let (_, text) = generate("t", vec![alias], vec![]);
    assert!(text.contains("export type Mix = [number | null, Result<bigint, null>, [][]];"), "{text}");
}

#[test]
fn enum_and_union_declarations() {
    let e = typedef(
        "color",
        TypeDefKind::Enum(vec![
            EnumCase { id: s("light-red"), docs: String::new() },
            EnumCase { id: s("blue"), docs: String::new() },
        ]),
    );
    let u = typedef(
        "num-or-text",
        TypeDefKind::Union(vec![
            UnionCase { docs: String::new(), ty: Type::U16 },
            UnionCase { docs: String::new(), ty: Type::String },
        ]),
    );
    let (_, text) = generate("t", vec![e, u], vec![]);
    assert!(text.contains("export enum Color { \nLightRed,\n\nBlue,\n }\n"), "{text}");
    assert!(text.contains("export type NumOrText = \nnumber\n | \nstring\n;\n"), "{text}");
}

#[test]
fn docs_become_block_comments() {
    assert_eq!(print_docs(""), "");
    assert_eq!(print_docs("one line"), "/**\n * one line\n*/");
    assert_eq!(print_docs("first\nsecond"), "/**\n * first\n * second\n*/");
}

#[test]
fn decimal_numerals() {
    assert_eq!(decimal(0), "0");
    assert_eq!(decimal(7), "7");
    assert_eq!(decimal(1234), "1234");
    assert_eq!(decimal(u64::MAX), "18446744073709551615");
}

#[test]
fn inconsistent_input_is_refused() {
    let iface = Interface { ident: s("x"), typedefs: vec![typedef("a", TypeDefKind::Alias(Type::Bool))], functions: vec![] };
    let codec = Codec { utils: String::new(), typedefs: vec![typedef_codec(0, vec![])], functions: vec![] };
    assert!(Builder::default().build(iface, vec![], codec).is_none());
}

#[test]
fn too_many_flags_are_refused() {
    let fields: Vec<FlagsField> = (0..64).map(|i| FlagsField { id: format!("f{i}"), docs: String::new() }).collect();
    let iface = Interface { ident: s("x"), typedefs: vec![typedef("many", TypeDefKind::Flags(fields))], functions: vec![] };
    let codec = Codec { utils: String::new(), typedefs: vec![typedef_codec(0, vec![])], functions: vec![] };
    let infos = vec![TypeInfo { param: false, result: false }];
    assert!(Builder::default().build(iface, infos, codec).is_none());
}

#[test]
fn largest_flags_type_is_accepted() {
    let fields: Vec<FlagsField> = (0..63).map(|i| FlagsField { id: format!("f{i}"), docs: String::new() }).collect();
    let (_, text) = generate("x", vec![typedef("many", TypeDefKind::Flags(fields))], vec![]);
    assert!(text.contains("F62 = 9223372036854775808,"), "{text}");
}

#[test]
fn formatter_selection() {
    assert_eq!(Builder { prettier: false, romefmt: false }.formatter(), Ok(None));
    assert_eq!(Builder { prettier: true, romefmt: false }.formatter(), Ok(Some(Formatter::Prettier)));
    assert_eq!(Builder { prettier: false, romefmt: true }.formatter(), Ok(Some(Formatter::Rome)));
    assert_eq!(Builder { prettier: true, romefmt: true }.formatter(), Err(ConfigError::ConflictingFormatters));
}

#[test]
fn verbosity_levels() {
    assert_eq!(verbosity_level(0), Level::Info);
    assert_eq!(verbosity_level(1), Level::Debug);
    assert_eq!(verbosity_level(2), Level::Trace);
    assert_eq!(verbosity_level(200), Level::Trace);
    assert_eq!(prettyprint_level(Level::Error), "Error");
    assert_eq!(prettyprint_level(Level::Warn), "Warn");
    assert_eq!(prettyprint_level(Level::Trace), "Trace");
}

#[test]
fn resource_method_returns_decoded_result() {
    let m = func("get", vec![], Some(vec![Type::U32]), false);
    let res = typedef("counter", TypeDefKind::Resource(vec![m]));
    let (_, text) = generate("app", vec![res], vec![]);
    assert!(text.contains("async get () : Promise<number> {"), "{text}");
    assert!(text.contains(
        "\n\n    return await fetch('ipc://localhost/app::resource::counter/get', { method: \"POST\", body: Uint8Array.from(out), headers: { 'Content-Type': 'application/octet-stream' } }).then(dec)\n}\n"
    ), "{text}");
}
