use vstd::prelude::*;
use vstd::string::*;
use vstd::arithmetic::power2::lemma2_to64_rest;
use crate::model::{
    EnumCase, FlagsField, Function, Interface, RecordField, Type, TypeDef, TypeDefKind, TypeInfo,
    UnionCase, VariantCase, MAX_FLAGS,
};
use crate::emit::{
    alias_text, any_throws, case_ref_text, case_shape_text, case_value_text, consistent,
    encode_text, enum_case_text, enum_text, file_path, file_text, flag_bit, flags_field_text,
    flags_text, function_text, lemma_flag_bit_pow2, method_text, param_text, params_text,
    record_field_text, record_text, resource_text, result_text, typedef_text, union_case_text,
    union_text, variant_text,
};
use crate::mapper::{array_elem, array_of, type_expr, types_join};
use crate::text::{
    concat, decimal, decimal_text, docs_text, join, kebab, lemma_concat_step, lemma_join_step,
    lower_camel, print_docs, snake, snake_of, upper_camel, upper_camel_of,
};

verus! {

/// Options of the TypeScript generator: which formatter, if any, to run on the output.
#[derive(Clone, Copy, PartialEq, Eq, Structural, Debug, Default)]
pub struct Builder {
    /// Run `prettier` on the generated code.
    pub prettier: bool,
    /// Run `rome format` on the generated code.
    pub romefmt: bool,
}

/// An external tool that reformats the generated module.
#[derive(Clone, Copy, PartialEq, Eq, Structural, Debug)]
pub enum Formatter {
    Prettier,
    Rome,
}

/// A generator configuration that cannot be honoured.
#[derive(Clone, Copy, PartialEq, Eq, Structural, Debug)]
pub enum ConfigError {
    /// More than one formatter was selected.
    ConflictingFormatters,
}

impl Builder {
    /// The formatter to run on the output, if any; selecting both is an error.
    pub fn formatter(&self) -> (r: Result<Option<Formatter>, ConfigError>)
        ensures
            self.prettier && self.romefmt ==> r == Err::<Option<Formatter>, ConfigError>(ConfigError::ConflictingFormatters),
            self.prettier && !self.romefmt ==> r == Ok::<Option<Formatter>, ConfigError>(Some(Formatter::Prettier)),
            !self.prettier && self.romefmt ==> r == Ok::<Option<Formatter>, ConfigError>(Some(Formatter::Rome)),
            !self.prettier && !self.romefmt ==> r == Ok::<Option<Formatter>, ConfigError>(None),
    {
        if self.prettier && self.romefmt {
            Err(ConfigError::ConflictingFormatters)
        } else if self.prettier {
            Ok(Some(Formatter::Prettier))
        } else if self.romefmt {
            Ok(Some(Formatter::Rome))
        } else {
            Ok(None)
        }
    }

    /// The generator for `interface`, given where each definition is used
    /// and the codec text; `None` where these do not fit together.
    pub fn build(self, interface: Interface, infos: Vec<TypeInfo>, codec: Codec) -> (r: Option<TypeScript>)
        ensures
            r is Some == consistent(interface, infos@, codec),
            r matches Some(g) ==> {
                &&& g.wf()
                &&& g.opts() == self
                &&& *g.interface() == interface
                &&& g.infos() == infos@
                &&& *g.codec() == codec
            },
    {
        let n = interface.typedefs.len();
        if infos.len() != n || codec.typedefs.len() != n
            || codec.functions.len() != interface.functions.len() {
            return None;
        }
        let mut i: usize = 0;
        while i < n
            invariant
                n == interface.typedefs@.len() == codec.typedefs@.len(),
                i <= n,
                forall|k: int| 0 <= k < i ==> match #[trigger] interface.typedefs@[k].kind {
                    TypeDefKind::Flags(fields) => fields@.len() <= MAX_FLAGS,
                    TypeDefKind::Resource(funcs) => codec.typedefs@[k].methods@.len() == funcs@.len(),
                    _ => true,
                },
            decreases n - i,
        {
            let ok = match &interface.typedefs[i].kind {
                TypeDefKind::Flags(fields) => fields.len() <= MAX_FLAGS,
                TypeDefKind::Resource(funcs) => codec.typedefs[i].methods.len() == funcs.len(),
                _ => true,
            };
            if !ok {
                return None;
            }
            i = i + 1;
        }
        Some(TypeScript { opts: self, interface, infos, codec })
    }
}

/// Encoder and decoder text that the codec layer supplies for one call stub.
pub struct FunctionCodec {
    /// One statement per parameter, in order, that appends it to `out`.
    pub encode_params: Vec<String>,
    /// The promise chain that decodes the response; empty where nothing is returned.
    pub decode_result: String,
}

/// Codec text that the codec layer supplies for one type definition.
pub struct TypeDefCodec {
    pub encoder: String,
    pub decoder: String,
    /// For a resource, the stub codec of each method, in order.
    pub methods: Vec<FunctionCodec>,
}

/// All codec text of one interface.
pub struct Codec {
    /// The shared encode/decode helpers.
    pub utils: String,
    /// One entry per type definition, in order.
    pub typedefs: Vec<TypeDefCodec>,
    /// One entry per free function, in order.
    pub functions: Vec<FunctionCodec>,
}

/// The TypeScript generator for one interface.
pub struct TypeScript {
    opts: Builder,
    interface: Interface,
    infos: Vec<TypeInfo>,
    codec: Codec,
}

impl TypeScript {
    pub closed spec fn opts(&self) -> Builder {
        self.opts
    }

    pub closed spec fn interface(&self) -> &Interface {
        &self.interface
    }

    pub closed spec fn infos(&self) -> Seq<TypeInfo> {
        self.infos@
    }

    pub closed spec fn codec(&self) -> &Codec {
        &self.codec
    }

    /// The interface, flags and codec text fit together.
    pub closed spec fn wf(&self) -> bool {
        consistent(self.interface, self.infos@, self.codec)
    }

    pub open spec fn defs(&self) -> Seq<TypeDef> {
        self.interface().typedefs@
    }

    fn array_ty_fuel(&self, ty: &Type, fuel: usize) -> (r: Option<String>)
        ensures
            r.is_some() == array_elem(self.defs(), *ty, fuel as nat).is_some(),
            r matches Some(s) ==> s@ == array_elem(self.defs(), *ty, fuel as nat)->Some_0,
        decreases fuel,
    {
        match ty {
            Type::U8 => Some(String::from_str("Uint8Array")),
            Type::S8 => Some(String::from_str("Int8Array")),
            Type::U16 => Some(String::from_str("Uint16Array")),
            Type::S16 => Some(String::from_str("Int16Array")),
            Type::U32 => Some(String::from_str("Uint32Array")),
            Type::S32 => Some(String::from_str("Int32Array")),
            Type::U64 => Some(String::from_str("BigUint64Array")),
            Type::S64 => Some(String::from_str("BigInt64Array")),
            Type::Float32 => Some(String::from_str("Float32Array")),
            Type::Float64 => Some(String::from_str("Float64Array")),
            Type::Id(id) => {
                if fuel > 0 && *id < self.interface.typedefs.len() {
                    match &self.interface.typedefs[*id].kind {
                        TypeDefKind::Alias(t) => self.array_ty_fuel(t, fuel - 1),
                        _ => None,
                    }
                } else {
                    None
                }
            },
            _ => None,
        }
    }

    /// The typed-array name for a list of `ty`, where `ty` is, through any
    /// aliases, a fixed-width numeric type.
    pub fn array_ty(&self, ty: &Type) -> (r: Option<String>)
        ensures
            r.is_some() == array_of(self.defs(), *ty).is_some(),
            r matches Some(s) ==> s@ == array_of(self.defs(), *ty)->Some_0,
    {
        self.array_ty_fuel(ty, self.interface.typedefs.len())
    }

    pub fn print_type(&self, ty: &Type) -> (r: String)
        ensures
            r@ == type_expr(self.defs(), *ty),
        decreases ty,
    {
        match ty {
            Type::Bool => String::from_str("boolean"),
            Type::U8 | Type::U16 | Type::U32 | Type::S8 | Type::S16 | Type::S32 | Type::Float32
            | Type::Float64 => String::from_str("number"),
            Type::U64 | Type::S64 | Type::U128 | Type::S128 => String::from_str("bigint"),
            Type::Char | Type::String => String::from_str("string"),
            Type::Tuple(types) => {
                let mut r = String::from_str("[");
                let mut i: usize = 0;
                while i < types.len()
                    invariant
                        i <= types@.len(),
                        *ty == Type::Tuple(*types),
                        r@ == "["@ + types_join(self.defs(), types@.take(i as int)),
                    decreases types@.len() - i,
                {
                    if i > 0 {
                        r.append(", ");
                    }
                    proof {
                        vstd::std_specs::vec::axiom_vec_index_decreases(*types, i as int);
                        assert(decreases_to!(*ty => (*ty)->Tuple_0));
                        assert(decreases_to!(*types => types[i as int]));
                        assert(decreases_to!(*ty => types[i as int]));
                    }
                    let t = self.print_type(&types[i]);
                    r.append(t.as_str());
                    proof {
                        assert(types@.take(i + 1).drop_last() =~= types@.take(i as int));
                    }
                    i = i + 1;
                }
                assert(types@.take(types@.len() as int) =~= types@);
                r.append("]");
                r
            },
            Type::List(e) => {
                match self.array_ty(e) {
                    Some(a) => a,
                    None => {
                        let mut r = self.print_type(e);
                        r.append("[]");
                        r
                    },
                }
            },
            Type::Option(e) => {
                let mut r = self.print_type(e);
                r.append(" | null");
                r
            },
            Type::Result { ok, err } => {
                let mut r = String::from_str("Result<");
                match ok {
                    Some(o) => {
                        let t = self.print_type(o);
                        r.append(t.as_str());
                    },
                    None => r.append("null"),
                }
                r.append(", ");
                match err {
                    Some(e) => {
                        let t = self.print_type(e);
                        r.append(t.as_str());
                    },
                    None => r.append("null"),
                }
                r.append(">");
                r
            },
            Type::Id(id) => {
                if *id < self.interface.typedefs.len() {
                    upper_camel(self.interface.typedefs[*id].ident.as_str())
                } else {
                    String::new()
                }
            },
        }
    }

    pub fn print_alias(&self, docs: &str, ident: &str, ty: &Type) -> (r: String)
        ensures
            r@ == alias_text(self.defs(), docs@, ident@, *ty),
    {
        let t = self.print_type(ty);
        let mut r = String::from_str(docs);
        r.append("\nexport type ");
        r.append(ident);
        r.append(" = ");
        r.append(t.as_str());
        r.append(";\n");
        r
    }

    pub fn print_record(&self, docs: &str, ident: &str, fields: &Vec<RecordField>) -> (r: String)
        ensures
            r@ == record_text(self.defs(), docs@, ident@, fields@),
    {
        let ghost pieces = Seq::new(fields@.len(), |k: int| record_field_text(self.defs(), fields@[k]));
        let mut acc = String::new();
        let mut i: usize = 0;
        while i < fields.len()
            invariant
                i <= fields@.len(),
                pieces == Seq::new(fields@.len(), |k: int| record_field_text(self.defs(), fields@[k])),
                acc@ == concat(pieces.take(i as int)),
            decreases fields@.len() - i,
        {
            let field = &fields[i];
            let d = print_docs(field.docs.as_str());
            let name = lower_camel(field.id.as_str());
            let t = self.print_type(&field.ty);
            let mut piece = d;
            piece.append("\n");
            piece.append(name.as_str());
            piece.append(": ");
            piece.append(t.as_str());
            piece.append(",\n");
            acc.append(piece.as_str());
            proof {
                lemma_concat_step(pieces, i as int);
            }
            i = i + 1;
        }
        assert(pieces.take(fields@.len() as int) =~= pieces);
        let mut r = String::from_str(docs);
        r.append("\nexport interface ");
        r.append(ident);
        r.append(" { ");
        r.append(acc.as_str());
        r.append(" }\n");
        r
    }

    pub fn print_flags(&self, docs: &str, ident: &str, fields: &Vec<FlagsField>) -> (r: String)
        requires
            fields@.len() <= MAX_FLAGS,
        ensures
            r@ == flags_text(docs@, ident@, fields@),
    {
        let ghost pieces = Seq::new(fields@.len(), |k: int| flags_field_text(k as nat, fields@[k]));
        let mut acc = String::new();
        let mut i: usize = 0;
        let mut value: u64 = 2;
        while i < fields.len()
            invariant
                i <= fields@.len() <= MAX_FLAGS,
                pieces == Seq::new(fields@.len(), |k: int| flags_field_text(k as nat, fields@[k])),
                acc@ == concat(pieces.take(i as int)),
                i < fields@.len() ==> value == flag_bit(i as nat),
            decreases fields@.len() - i,
        {
            let field = &fields[i];
            let d = print_docs(field.docs.as_str());
            let name = upper_camel(field.id.as_str());
            let v = decimal(value);
            let mut piece = d;
            piece.append("\n");
            piece.append(name.as_str());
            piece.append(" = ");
            piece.append(v.as_str());
            piece.append(",\n");
            acc.append(piece.as_str());
            proof {
                lemma_concat_step(pieces, i as int);
            }
            if i + 1 < fields.len() {
                proof {
                    lemma_flag_bit_bound(i as nat);
                }
                value = value * 2;
            }
            i = i + 1;
        }
        assert(pieces.take(fields@.len() as int) =~= pieces);
        let mut r = String::from_str(docs);
        r.append("\nexport enum ");
        r.append(ident);
        r.append(" { ");
        r.append(acc.as_str());
        r.append(" }\n");
        r
    }

    pub fn print_variant(&self, docs: &str, ident: &str, cases: &Vec<VariantCase>) -> (r: String)
        ensures
            r@ == variant_text(self.defs(), docs@, ident@, cases@),
    {
        let ghost shapes = Seq::new(cases@.len(), |k: int| case_shape_text(self.defs(), ident@, k as nat, cases@[k]));
        let mut interfaces = String::new();
        let mut i: usize = 0;
        while i < cases.len()
            invariant
                i <= cases@.len(),
                shapes == Seq::new(cases@.len(), |k: int| case_shape_text(self.defs(), ident@, k as nat, cases@[k])),
                interfaces@ == concat(shapes.take(i as int)),
            decreases cases@.len() - i,
        {
            let case = &cases[i];
            let d = print_docs(case.docs.as_str());
            let case_ident = upper_camel(case.id.as_str());
            let tag = decimal(i as u64);
            let mut piece = d;
            piece.append("\nexport interface ");
            piece.append(ident);
            piece.append(case_ident.as_str());
            piece.append(" { tag: ");
            piece.append(tag.as_str());
            match &case.ty {
                Some(t) => {
                    let ty = self.print_type(t);
                    let mut value = String::from_str(", value: ");
                    value.append(ty.as_str());
                    piece.append(value.as_str());
                },
                None => {},
            }
            proof {
                assert(case_value_text(self.defs(), case.ty) == if case.ty is Some {
                    ", value: "@ + type_expr(self.defs(), case.ty->Some_0)
                } else {
                    Seq::<char>::empty()
                });
                assert(piece@ =~= docs_text(case.docs@) + "\nexport interface "@ + ident@ + upper_camel_of(case.id@) + " { tag: "@
                    + decimal_text(i as nat) + case_value_text(self.defs(), case.ty));
            }
            piece.append(" }\n");
            interfaces.append(piece.as_str());
            proof {
                lemma_concat_step(shapes, i as int);
            }
            i = i + 1;
        }
        assert(shapes.take(cases@.len() as int) =~= shapes);

        let ghost refs = Seq::new(cases@.len(), |k: int| case_ref_text(ident@, cases@[k]));
        let mut alts = String::new();
        let mut j: usize = 0;
        while j < cases.len()
            invariant
                j <= cases@.len(),
                refs == Seq::new(cases@.len(), |k: int| case_ref_text(ident@, cases@[k])),
                alts@ == join(refs.take(j as int), " | "@),
            decreases cases@.len() - j,
        {
            let case = &cases[j];
            let d = print_docs(case.docs.as_str());
            let case_ident = upper_camel(case.id.as_str());
            let mut piece = d;
            piece.append("\n");
            piece.append(ident);
            piece.append(case_ident.as_str());
            if j > 0 {
                alts.append(" | ");
            }
            alts.append(piece.as_str());
            proof {
                lemma_join_step(refs, " | "@, j as int);
            }
            j = j + 1;
        }
        assert(refs.take(cases@.len() as int) =~= refs);
        let mut r = interfaces;
        r.append("\n");
        r.append(docs);
        r.append("\nexport type ");
        r.append(ident);
        r.append(" = ");
        r.append(alts.as_str());
        r.append("\n");
        r
    }

    pub fn print_enum(&self, docs: &str, ident: &str, cases: &Vec<EnumCase>) -> (r: String)
        ensures
            r@ == enum_text(docs@, ident@, cases@),
    {
        let ghost pieces = Seq::new(cases@.len(), |k: int| enum_case_text(cases@[k]));
        let mut acc = String::new();
        let mut i: usize = 0;
        while i < cases.len()
            invariant
                i <= cases@.len(),
                pieces == Seq::new(cases@.len(), |k: int| enum_case_text(cases@[k])),
                acc@ == concat(pieces.take(i as int)),
            decreases cases@.len() - i,
        {
            let case = &cases[i];
            let d = print_docs(case.docs.as_str());
            let name = upper_camel(case.id.as_str());
            let mut piece = d;
            piece.append("\n");
            piece.append(name.as_str());
            piece.append(",\n");
            acc.append(piece.as_str());
            proof {
                lemma_concat_step(pieces, i as int);
            }
            i = i + 1;
        }
        assert(pieces.take(cases@.len() as int) =~= pieces);
        let mut r = String::from_str(docs);
        r.append("\nexport enum ");
        r.append(ident);
        r.append(" { ");
        r.append(acc.as_str());
        r.append(" }\n");
        r
    }

    pub fn print_union(&self, docs: &str, ident: &str, cases: &Vec<UnionCase>) -> (r: String)
        ensures
            r@ == union_text(self.defs(), docs@, ident@, cases@),
    {
        let ghost pieces = Seq::new(cases@.len(), |k: int| union_case_text(self.defs(), cases@[k]));
        let mut acc = String::new();
        let mut i: usize = 0;
        while i < cases.len()
            invariant
                i <= cases@.len(),
                pieces == Seq::new(cases@.len(), |k: int| union_case_text(self.defs(), cases@[k])),
                acc@ == join(pieces.take(i as int), " | "@),
            decreases cases@.len() - i,
        {
            let case = &cases[i];
            let d = print_docs(case.docs.as_str());
            let t = self.print_type(&case.ty);
            let mut piece = d;
            piece.append("\n");
            piece.append(t.as_str());
            piece.append("\n");
            if i > 0 {
                acc.append(" | ");
            }
            acc.append(piece.as_str());
            proof {
                lemma_join_step(pieces, " | "@, i as int);
            }
            i = i + 1;
        }
        assert(pieces.take(cases@.len() as int) =~= pieces);
        let mut r = String::from_str(docs);
        r.append("\nexport type ");
        r.append(ident);
        r.append(" = ");
        r.append(acc.as_str());
        r.append(";\n");
        r
    }

    pub fn print_function_params(&self, params: &Vec<(String, Type)>) -> (r: String)
        ensures
            r@ == params_text(self.defs(), params@),
    {
        let ghost pieces = Seq::new(params@.len(), |k: int| param_text(self.defs(), params@[k]));
        let mut acc = String::new();
        let mut i: usize = 0;
        while i < params.len()
            invariant
                i <= params@.len(),
                pieces == Seq::new(params@.len(), |k: int| param_text(self.defs(), params@[k])),
                acc@ == join(pieces.take(i as int), ", "@),
            decreases params@.len() - i,
        {
            let name = lower_camel(params[i].0.as_str());
            let t = self.print_type(&params[i].1);
            let mut piece = name;
            piece.append(": ");
            piece.append(t.as_str());
            if i > 0 {
                acc.append(", ");
            }
            acc.append(piece.as_str());
            proof {
                lemma_join_step(pieces, ", "@, i as int);
            }
            i = i + 1;
        }
        assert(pieces.take(params@.len() as int) =~= pieces);
        acc
    }

    pub fn print_function_result(&self, result: &Vec<Type>) -> (r: String)
        ensures
            r@ == result_text(self.defs(), result@),
    {
        if result.len() == 0 {
            String::from_str("Promise<void>")
        } else if result.len() == 1 {
            let t = self.print_type(&result[0]);
            let mut r = String::from_str("Promise<");
            r.append(t.as_str());
            r.append(">");
            r
        } else {
            let mut acc = String::new();
            let mut i: usize = 0;
            while i < result.len()
                invariant
                    i <= result@.len(),
                    acc@ == types_join(self.defs(), result@.take(i as int)),
                decreases result@.len() - i,
            {
                if i > 0 {
                    acc.append(", ");
                }
                let t = self.print_type(&result[i]);
                acc.append(t.as_str());
                proof {
                    assert(result@.take(i + 1).drop_last() =~= result@.take(i as int));
                }
                i = i + 1;
            }
            assert(result@.take(result@.len() as int) =~= result@);
            let mut r = String::from_str("Promise<[");
            r.append(acc.as_str());
            r.append("]>");
            r
        }
    }

    /// The stub of a free function: it encodes the arguments with the
    /// statements of `codec`, posts them to
    /// `ipc://localhost/<intf_name>/<function>` and decodes the reply where
    /// the function has a result.
    pub fn print_function(&self, intf_name: &str, func: &Function, codec: &FunctionCodec) -> (r: String)
        ensures
            r@ == function_text(self.defs(), intf_name@, *func, codec.encode_params@, codec.decode_result@),
    {
        let docs = print_docs(func.docs.as_str());
        let ident = lower_camel(func.id.as_str());
        let name = snake(func.id.as_str());
        let params = self.print_function_params(&func.params);
        let result = match &func.result {
            Some(ts) => self.print_function_result(ts),
            None => String::from_str("Promise<void>"),
        };
        let serialize_params = join_encoded(&codec.encode_params);
        let mut r = String::from_str("\n");
        r.append(docs.as_str());
        r.append("\nexport async function ");
        r.append(ident.as_str());
        r.append(" (");
        r.append(params.as_str());
        r.append(") : ");
        r.append(result.as_str());
        r.append(" {\n    const out = []\n    ");
        r.append(serialize_params.as_str());
        r.append("\n\n    ");
        let has_result = func.result.is_some();
        if has_result {
            r.append("return");
        } else {
            r.append("await");
        }
        r.append(" fetch('ipc://localhost/");
        r.append(intf_name);
        r.append("/");
        r.append(name.as_str());
        r.append("', { method: \"POST\", body: Uint8Array.from(out) })");
        if has_result {
            r.append(codec.decode_result.as_str());
        }
        r.append(" ");
        if has_result {
            let mut as_ret = String::from_str("as ");
            as_ret.append(result.as_str());
            r.append(as_ret.as_str());
        }
        r.append("\n}\n        ");
        proof {
            let ghost e: Seq<char> = Seq::empty();
            assert(e + e =~= e);
            assert(forall|x: Seq<char>| #[trigger] (x + e) =~= x);
        }
        r
    }

    pub fn print_method(&self, mod_ident: &str, ident: &str, func: &Function, codec: &FunctionCodec) -> (r: String)
        ensures
            r@ == method_text(self.defs(), mod_ident@, ident@, *func, codec.encode_params@, codec.decode_result@),
    {
        let docs = print_docs(func.docs.as_str());
        let mod_name = snake(mod_ident);
        let resource_name = snake(ident);
        let name = lower_camel(func.id.as_str());
        let params = self.print_function_params(&func.params);
        let result = match &func.result {
            Some(ts) => self.print_function_result(ts),
            None => String::from_str("Promise<void>"),
        };
        let serialize_params = join_encoded(&codec.encode_params);
        let mut body = String::from_str("    const out = []\n    serializeU32(out, this.#id);\n    ");
        body.append(serialize_params.as_str());
        let mut r = docs;
        r.append("\nasync ");
        r.append(name.as_str());
        r.append(" (");
        r.append(params.as_str());
        r.append(") : ");
        r.append(result.as_str());
        r.append(" {\n");
        r.append(body.as_str());
        r.append("\n\n    ");
        if func.result.is_some() {
            r.append("return ");
        }
        r.append("await fetch('ipc://localhost/");
        r.append(mod_name.as_str());
        r.append("::resource::");
        r.append(resource_name.as_str());
        r.append("/");
        r.append(name.as_str());
        r.append("', { method: \"POST\", body: Uint8Array.from(out), headers: { 'Content-Type': 'application/octet-stream' } })");
        if func.result.is_some() {
            r.append(codec.decode_result.as_str());
        }
        r.append("\n}\n");
        proof {
            assert(forall|x: Seq<char>| #[trigger] (x + Seq::<char>::empty()) =~= x);
        }
        r
    }

    pub fn print_resource(
        &self,
        mod_ident: &str,
        docs: &str,
        ident: &str,
        functions: &Vec<Function>,
        codecs: &Vec<FunctionCodec>,
    ) -> (r: String)
        requires
            codecs@.len() == functions@.len(),
        ensures
            r@ == resource_text(self.defs(), mod_ident@, docs@, ident@, functions@, codecs@),
    {
        let ghost pieces = Seq::new(functions@.len(), |k: int| method_text(
            self.defs(), mod_ident@, ident@, functions@[k], codecs@[k].encode_params@, codecs@[k].decode_result@,
        ));
        let mut acc = String::new();
        let mut i: usize = 0;
        while i < functions.len()
            invariant
                i <= functions@.len() == codecs@.len(),
                pieces == Seq::new(functions@.len(), |k: int| method_text(
                    self.defs(), mod_ident@, ident@, functions@[k], codecs@[k].encode_params@, codecs@[k].decode_result@,
                )),
                acc@ == concat(pieces.take(i as int)),
            decreases functions@.len() - i,
        {
            let piece = self.print_method(mod_ident, ident, &functions[i], &codecs[i]);
            acc.append(piece.as_str());
            proof {
                lemma_concat_step(pieces, i as int);
            }
            i = i + 1;
        }
        assert(pieces.take(functions@.len() as int) =~= pieces);
        let mut r = String::from_str(docs);
        r.append("\nexport class ");
        r.append(ident);
        r.append(" {\n    #id: number;\n\n    ");
        r.append(acc.as_str());
        r.append("\n}");
        r
    }

    pub fn print_typedef(&self, id: usize) -> (r: String)
        requires
            self.wf(),
            id < self.defs().len(),
        ensures
            r@ == typedef_text(*self.interface(), *self.codec(), id as int),
    {
        let typedef = &self.interface.typedefs[id];
        let ident = upper_camel(typedef.ident.as_str());
        let docs = print_docs(typedef.docs.as_str());
        proof {
            let k = id as int;
            assert(match self.defs()[k].kind {
                TypeDefKind::Flags(fields) => fields@.len() <= MAX_FLAGS,
                TypeDefKind::Resource(funcs) => self.codec.typedefs@[k].methods@.len() == funcs@.len(),
                _ => true,
            });
        }
        match &typedef.kind {
            TypeDefKind::Alias(ty) => self.print_alias(docs.as_str(), ident.as_str(), ty),
            TypeDefKind::Record(fields) => self.print_record(docs.as_str(), ident.as_str(), fields),
            TypeDefKind::Flags(fields) => self.print_flags(docs.as_str(), ident.as_str(), fields),
            TypeDefKind::Variant(cases) => self.print_variant(docs.as_str(), ident.as_str(), cases),
            TypeDefKind::Enum(cases) => self.print_enum(docs.as_str(), ident.as_str(), cases),
            TypeDefKind::Union(cases) => self.print_union(docs.as_str(), ident.as_str(), cases),
            TypeDefKind::Resource(functions) => self.print_resource(
                self.interface.ident.as_str(),
                docs.as_str(),
                ident.as_str(),
                functions,
                &self.codec.typedefs[id].methods,
            ),
        }
    }

    /// The path and text of the generated module. Running a formatter over
    /// the text, as `opts` asks, is left to the caller.
    pub fn to_file(&self) -> (r: (String, String))
        requires
            self.wf(),
        ensures
            r.0@ == file_path(*self.interface()),
            r.1@ == file_text(*self.interface(), self.infos(), *self.codec()),
    {
        let iface = &self.interface;
        let mut contents = String::from_str("// @ts-nocheck\n");

        let mut throws = false;
        let mut i: usize = 0;
        while i < iface.functions.len()
            invariant
                i <= iface.functions@.len(),
                throws == exists|k: int| 0 <= k < i && #[trigger] iface.functions@[k].throws,
            decreases iface.functions@.len() - i,
        {
            if iface.functions[i].throws {
                throws = true;
            }
            i = i + 1;
        }
        assert(throws == any_throws(iface.functions@));
        if throws {
            contents.append("export type Result<T, E> = { tag: 'ok', val: T } | { tag: 'err', val: E };\n");
        }
        proof {
            assert(forall|x: Seq<char>| #[trigger] (x + Seq::<char>::empty()) =~= x);
        }
        contents.append(self.codec.utils.as_str());

        let n = iface.typedefs.len();
        let ghost decs = Seq::new(self.infos@.len(), |k: int| if self.infos@[k].result { self.codec.typedefs@[k].decoder@ } else { Seq::empty() });
        let mut decoders = String::new();
        let mut i: usize = 0;
        while i < n
            invariant
                self.wf(),
                n == iface.typedefs@.len() == self.infos@.len() == self.codec.typedefs@.len(),
                i <= n,
                decs == Seq::new(self.infos@.len(), |k: int| if self.infos@[k].result { self.codec.typedefs@[k].decoder@ } else { Seq::empty() }),
                decoders@ == concat(decs.take(i as int)),
            decreases n - i,
        {
            if self.infos[i].result {
                decoders.append(self.codec.typedefs[i].decoder.as_str());
            }
            proof {
                assert(forall|x: Seq<char>| #[trigger] (x + Seq::<char>::empty()) =~= x);
                lemma_concat_step(decs, i as int);
            }
            i = i + 1;
        }
        assert(decs.take(n as int) =~= decs);

        let ghost encs = Seq::new(self.infos@.len(), |k: int| if self.infos@[k].param { self.codec.typedefs@[k].encoder@ } else { Seq::empty() });
        let mut encoders = String::new();
        let mut i: usize = 0;
        while i < n
            invariant
                self.wf(),
                n == iface.typedefs@.len() == self.infos@.len() == self.codec.typedefs@.len(),
                i <= n,
                encs == Seq::new(self.infos@.len(), |k: int| if self.infos@[k].param { self.codec.typedefs@[k].encoder@ } else { Seq::empty() }),
                encoders@ == concat(encs.take(i as int)),
            decreases n - i,
        {
            if self.infos[i].param {
                encoders.append(self.codec.typedefs[i].encoder.as_str());
            }
            proof {
                assert(forall|x: Seq<char>| #[trigger] (x + Seq::<char>::empty()) =~= x);
                lemma_concat_step(encs, i as int);
            }
            i = i + 1;
        }
        assert(encs.take(n as int) =~= encs);

        let ghost tds = Seq::new(n as nat, |k: int| typedef_text(*self.interface(), *self.codec(), k));
        let mut typedefs = String::new();
        let mut i: usize = 0;
        while i < n
            invariant
                self.wf(),
                n == iface.typedefs@.len(),
                *iface == *self.interface(),
                i <= n,
                tds == Seq::new(n as nat, |k: int| typedef_text(*self.interface(), *self.codec(), k)),
                typedefs@ == concat(tds.take(i as int)),
            decreases n - i,
        {
            let piece = self.print_typedef(i);
            typedefs.append(piece.as_str());
            proof {
                lemma_concat_step(tds, i as int);
            }
            i = i + 1;
        }
        assert(tds.take(n as int) =~= tds);

        let intf_name = snake(iface.ident.as_str());
        let m = iface.functions.len();
        let ghost fns = Seq::new(m as nat, |k: int| function_text(
            self.defs(), snake_of(iface.ident@), iface.functions@[k],
            self.codec.functions@[k].encode_params@, self.codec.functions@[k].decode_result@,
        ));
        let mut functions = String::new();
        let mut i: usize = 0;
        while i < m
            invariant
                self.wf(),
                m == iface.functions@.len() == self.codec.functions@.len(),
                *iface == *self.interface(),
                intf_name@ == snake_of(iface.ident@),
                i <= m,
                fns == Seq::new(m as nat, |k: int| function_text(
                    self.defs(), snake_of(iface.ident@), iface.functions@[k],
                    self.codec.functions@[k].encode_params@, self.codec.functions@[k].decode_result@,
                )),
                functions@ == concat(fns.take(i as int)),
            decreases m - i,
        {
            let piece = self.print_function(intf_name.as_str(), &iface.functions[i], &self.codec.functions[i]);
            functions.append(piece.as_str());
            proof {
                lemma_concat_step(fns, i as int);
            }
            i = i + 1;
        }
        assert(fns.take(m as int) =~= fns);

        contents.append(decoders.as_str());
        contents.append(encoders.as_str());
        contents.append("\n");
        contents.append(typedefs.as_str());
        contents.append("\n");
        contents.append(functions.as_str());

        let mut path = kebab(iface.ident.as_str());
        path.append(".ts");
        (path, contents)
    }
}

/// The parameter-encoding statements, separated by `;` and a line break.
fn join_encoded(parts: &Vec<String>) -> (r: String)
    ensures
        r@ == encode_text(parts@),
{
    let ghost pieces = Seq::new(parts@.len(), |k: int| parts@[k]@);
    let mut acc = String::new();
    let mut i: usize = 0;
    while i < parts.len()
        invariant
            i <= parts@.len(),
            pieces == Seq::new(parts@.len(), |k: int| parts@[k]@),
            acc@ == join(pieces.take(i as int), ";\n"@),
        decreases parts@.len() - i,
    {
        if i > 0 {
            acc.append(";\n");
        }
        acc.append(parts[i].as_str());
        proof {
            lemma_join_step(pieces, ";\n"@, i as int);
        }
        i = i + 1;
    }
    assert(pieces.take(parts@.len() as int) =~= pieces);
    acc
}

/// Flag values grow with the position.
proof fn lemma_flag_bit_monotone(i: nat, j: nat)
    requires
        i <= j,
    ensures
        flag_bit(i) <= flag_bit(j),
    decreases j,
{
    if i < j {
        lemma_flag_bit_monotone(i, (j - 1) as nat);
    }
}

/// Flag values up to position 61 leave room for one more doubling in a `u64`.
proof fn lemma_flag_bit_bound(i: nat)
    requires
        i < 62,
    ensures
        flag_bit(i) <= 0x4000_0000_0000_0000,
{
    lemma_flag_bit_monotone(i, 61);
    lemma_flag_bit_pow2(61);
    lemma2_to64_rest();
}

} // verus!
