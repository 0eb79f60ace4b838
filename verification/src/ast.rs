//! The program tree: statements, declarations and expressions of the
//! ECMAScript-superset grammar that the lowering touches, as plain owned
//! values, together with their mathematical views (`Spec*` mirrors over `Seq`
//! and `Seq<char>`).
//!
//! Statement kinds that the lowering never reads are carried through as
//! `Opaque` nodes holding an identifying tag.

use vstd::prelude::*;

verus! {

/// Whether an import or export is a runtime value or a type-only form.
#[derive(Clone, Copy, PartialEq, Eq, Structural, Debug)]
pub enum ImportOrExportKind {
    Value,
    Type,
}

impl ImportOrExportKind {
    pub open spec fn is_value(self) -> bool {
        self == ImportOrExportKind::Value
    }

    pub open spec fn is_type(self) -> bool {
        self == ImportOrExportKind::Type
    }
}

/// A half-open source region, kept through the rewrite for source mapping.
#[derive(Clone, Copy, PartialEq, Eq, Structural, Debug)]
pub struct Span {
    pub start: u32,
    pub end: u32,
}

impl Span {
    /// The span given to synthesized nodes that have no source of their own.
    pub fn synthetic() -> (s: Span)
        ensures
            s == (Span { start: 0, end: 0 }),
    {
        Span { start: 0, end: 0 }
    }
}

#[derive(Clone, Copy, PartialEq, Eq, Structural, Debug)]
pub enum VarKind {
    Var,
    Const,
}

// ---------------------------------------------------------------------------
// Expressions and statements
// ---------------------------------------------------------------------------

/// An expression. Only the forms the lowering builds or inspects are
/// distinguished; anything else is `Opaque`.
#[derive(Debug, PartialEq)]
pub enum Expr {
    NumberLiteral(u64),
    StringLiteral(String),
    Ident(String),
    /// `object.property`
    StaticMember(Box<Expr>, String),
    /// `object[key]`
    ComputedMember(Box<Expr>, Box<Expr>),
    /// `target = value`; the target is a member expression
    Assign(Box<Expr>, Box<Expr>),
    /// `left + right`
    Add(Box<Expr>, Box<Expr>),
    /// `left || right`
    LogicalOr(Box<Expr>, Box<Expr>),
    /// `callee(argument)` with a single argument
    Call(Box<Expr>, Box<Expr>),
    /// `(param) => { body }` with a single parameter
    Arrow(String, Vec<Stmt>),
    /// `{}`
    EmptyObject,
    Opaque(u64),
}

/// A statement of a program body or of a function body.
#[derive(Debug, PartialEq)]
pub enum Stmt {
    Decl(Decl),
    Module(ModuleDecl),
    /// An expression statement, with its span
    Expr(Span, Expr),
    Return(Expr),
    Opaque(u64),
}

// ---------------------------------------------------------------------------
// Declarations
// ---------------------------------------------------------------------------

#[derive(Debug, PartialEq)]
pub enum Decl {
    Var(VarDecl),
    Enum(EnumDecl),
    ImportEquals(ImportEqualsDecl),
    TsModule(TsModuleDecl),
    Interface(InterfaceDecl),
    TypeAlias(TypeAliasDecl),
    Opaque(OpaqueDecl),
}

#[derive(Debug, PartialEq)]
pub struct VarDecl {
    pub span: Span,
    pub kind: VarKind,
    pub declarators: Vec<Declarator>,
    pub declare: bool,
}

#[derive(Debug, PartialEq)]
pub struct Declarator {
    pub name: String,
    pub init: Option<Expr>,
}

#[derive(Debug, PartialEq)]
pub struct EnumDecl {
    pub span: Span,
    pub name: String,
    pub declare: bool,
    pub members: Vec<EnumMember>,
}

/// The key of an enum member. `Computed` and `Num` cannot occur in a program
/// that passed upstream parsing; the lowering rejects them by precondition.
#[derive(Debug, PartialEq)]
pub enum EnumMemberName {
    Ident(String),
    Str(String),
    Computed(u64),
    Num(u64),
}

#[derive(Debug, PartialEq)]
pub struct EnumMember {
    pub span: Span,
    pub id: EnumMemberName,
    pub initializer: Option<Expr>,
}

#[derive(Debug, PartialEq)]
pub struct TsModuleDecl {
    pub id: TsModuleDeclName,
    pub declare: bool,
    pub body: u64,
}

#[derive(Debug, PartialEq)]
pub enum TsModuleDeclName {
    Ident(String),
    Str(String),
}

#[derive(Debug, PartialEq)]
pub struct InterfaceDecl {
    pub name: String,
    pub declare: bool,
}

#[derive(Debug, PartialEq)]
pub struct TypeAliasDecl {
    pub name: String,
    pub declare: bool,
}

/// Any other declaration kind, untouched by the lowering; only its `declare`
/// modifier is ever read.
#[derive(Clone, Copy, PartialEq, Eq, Structural, Debug)]
pub struct OpaqueDecl {
    pub declare: bool,
    pub tag: u64,
}

// ---------------------------------------------------------------------------
// Import-equals declarations
// ---------------------------------------------------------------------------

/// A possibly qualified type name, `A` or `A.B.C`.
#[derive(Debug, PartialEq)]
pub enum TsTypeName {
    Ident(String),
    Qualified(Box<TsTypeName>, String),
}

#[derive(Debug, PartialEq)]
pub enum TsModuleReference {
    TypeName(TsTypeName),
    /// `require("module")`: the module's string literal
    External(String),
}

#[derive(Debug, PartialEq)]
pub struct ImportEqualsDecl {
    pub id: String,
    pub import_kind: ImportOrExportKind,
    pub module_reference: TsModuleReference,
}

// ---------------------------------------------------------------------------
// Module declarations
// ---------------------------------------------------------------------------

#[derive(Debug, PartialEq)]
pub enum ModuleDecl {
    Import(ImportDecl),
    ExportNamed(ExportNamedDecl),
    ExportDefault(ExportDefaultDecl),
    ExportAll(ExportAllDecl),
    Opaque(u64),
}

#[derive(Debug, PartialEq)]
pub struct ImportDecl {
    /// `None` for a bare side-effect import `import "m"`
    pub specifiers: Option<Vec<ImportSpecifier>>,
    pub source: String,
    pub import_kind: ImportOrExportKind,
}

#[derive(Debug, PartialEq)]
pub enum ImportSpecifier {
    Named(NamedImportSpecifier),
    Default(DefaultImportSpecifier),
    Namespace(NamespaceImportSpecifier),
}

#[derive(Debug, PartialEq)]
pub struct NamedImportSpecifier {
    pub imported: String,
    pub local: String,
    pub import_kind: ImportOrExportKind,
}

#[derive(Debug, PartialEq)]
pub struct DefaultImportSpecifier {
    pub local: String,
}

#[derive(Debug, PartialEq)]
pub struct NamespaceImportSpecifier {
    pub local: String,
}

#[derive(Debug, PartialEq)]
pub struct ExportNamedDecl {
    pub declaration: Option<Decl>,
    pub specifiers: Vec<ExportSpecifier>,
    pub source: Option<String>,
    pub export_kind: ImportOrExportKind,
}

#[derive(Debug, PartialEq)]
pub struct ExportSpecifier {
    pub local: String,
    pub exported: String,
    pub export_kind: ImportOrExportKind,
}

#[derive(Debug, PartialEq)]
pub struct ExportDefaultDecl {
    pub exported: String,
    pub body: u64,
}

#[derive(Debug, PartialEq)]
pub struct ExportAllDecl {
    pub exported: Option<String>,
    pub source: String,
    pub export_kind: ImportOrExportKind,
}

/// One file's program: an ordered sequence of top-level statements.
#[derive(Debug, PartialEq)]
pub struct Program {
    pub body: Vec<Stmt>,
}

} // verus!
