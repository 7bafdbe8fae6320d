//! The declaration data model: the input of the emission engine.
//!
//! The engine consumes an ordered stream of [`Decl`] values, one per source
//! item, already parsed by the caller.  Every name is carried verbatim; types
//! are carried as written, with aliases still unresolved (the engine resolves
//! them against its own environment).

use vstd::prelude::*;

verus! {

/// A primitive type of the source language with a fixed C layout.
#[derive(Clone, Copy, PartialEq, Eq, Structural, Debug)]
pub enum Prim {
    U8,
    I8,
    U16,
    I16,
    U32,
    I32,
    U64,
    I64,
    USize,
    ISize,
    Bool,
    /// The C character type, `c_char`.
    CChar,
    /// The C void type, `c_void`; meaningful only behind a pointer.
    CVoid,
}

/// The declared length of a fixed-size array: a literal, or a reference to a
/// named constant which must be preserved symbolically in the output.
#[derive(Debug)]
pub enum ArrayLen {
    Lit(u64),
    Named(String),
}

/// A source type as written at a use site.  Aliases appear as `Named` and are
/// resolved by the engine.
#[derive(Debug)]
pub enum RustType {
    Prim(Prim),
    /// A struct, enum, alias or opaque type referred to by name.
    Named(String),
    /// A single level of pointer indirection; `mutable` is true for `*mut`.
    Ptr { mutable: bool, target: Box<RustType> },
    /// A fixed-size array.
    Array { elem: Box<RustType>, len: ArrayLen },
}

/// One parameter of a callback function type; parameters may be anonymous.
#[derive(Debug)]
pub struct CbParam {
    pub name: Option<String>,
    pub ty: RustType,
}

/// The type of a function parameter: a plain type, or a C-ABI callback.
#[derive(Debug)]
pub enum ParamType {
    Plain(RustType),
    Callback(Vec<CbParam>),
}

/// A named function parameter.
#[derive(Debug)]
pub struct FnParam {
    pub name: String,
    pub ty: ParamType,
}

/// A struct field.
#[derive(Debug)]
pub struct Field {
    pub name: String,
    pub ty: RustType,
}

/// A struct declaration; `repr_c` records the C-layout annotation.
#[derive(Debug)]
pub struct StructDecl {
    pub name: String,
    pub repr_c: bool,
    pub fields: Vec<Field>,
}

/// An enum variant with its optional explicit value.
#[derive(Debug)]
pub struct Variant {
    pub name: String,
    pub value: Option<i64>,
}

/// An enum declaration; `repr_c` records the C-layout annotation.
#[derive(Debug)]
pub struct EnumDecl {
    pub name: String,
    pub repr_c: bool,
    pub variants: Vec<Variant>,
}

/// A type alias declaration, `type Name = Target;`.
#[derive(Debug)]
pub struct AliasDecl {
    pub name: String,
    pub target: RustType,
}

/// A function declaration.  `no_mangle` and `extern_c` record the two
/// annotations of the exported-symbol marker; a function lacking either is
/// skipped by the engine.
#[derive(Debug)]
pub struct FnDecl {
    pub name: String,
    pub no_mangle: bool,
    pub extern_c: bool,
    pub params: Vec<FnParam>,
    pub ret: Option<RustType>,
}

/// A scalar constant value.
#[derive(Debug)]
pub enum ConstScalar {
    Int(i64),
    Bool(bool),
    Str(String),
}

/// One field of a struct-literal constant.
#[derive(Debug)]
pub struct ConstField {
    pub name: String,
    pub value: ConstScalar,
}

/// The value of a top-level constant.
#[derive(Debug)]
pub enum ConstValue {
    Scalar(ConstScalar),
    /// A null pointer-to-character constant, emitted as an empty string.
    NullCharPtr,
    /// A fixed array of scalar values.
    Array(Vec<ConstScalar>),
    /// A struct literal, `Ty { field: value, .. }`.
    StructLit { ty_name: String, fields: Vec<ConstField> },
    /// A reference to a struct literal, `&Ty { field: value, .. }`.
    StructRef { ty_name: String, fields: Vec<ConstField> },
}

/// A top-level constant declaration.
#[derive(Debug)]
pub struct ConstDecl {
    pub name: String,
    pub ty: RustType,
    pub value: ConstValue,
}

/// One parsed source item, fed to the engine in source order.
#[derive(Debug)]
pub enum Decl {
    Struct(StructDecl),
    Enum(EnumDecl),
    Alias(AliasDecl),
    Func(FnDecl),
    Const(ConstDecl),
}

/// Severity of a diagnostic.
#[derive(Clone, Copy, PartialEq, Eq, Structural, Debug)]
pub enum Level {
    Warning,
    Error,
    Fatal,
}

/// A diagnostic carrying the offending declaration's identity.
#[derive(Debug)]
pub struct Error {
    pub level: Level,
    /// The name of the declaration the error belongs to, where one exists.
    pub span: Option<String>,
    pub message: String,
}

} // verus!
