//! TypeScript guest bindings: maps a resolved interface onto TypeScript
//! declarations and emits call stubs that talk to the host over IPC.
mod text;
mod mapper;
pub mod emit;
pub mod laws;
pub mod logger;
pub mod model;
pub mod typescript;

pub use logger::{prettyprint_level, verbosity_level, Level};
pub use model::{
    EnumCase, FlagsField, Function, Interface, RecordField, Type, TypeDef, TypeDefKind, TypeInfo,
    UnionCase, VariantCase,
};
pub use text::{decimal, print_docs};
pub use typescript::{Builder, Codec, ConfigError, Formatter, FunctionCodec, TypeDefCodec, TypeScript};
