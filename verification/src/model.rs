//! Mathematical views of the program tree: each tree type has a `Spec*`
//! mirror over `Seq<char>` and `Seq`, and a `view_*` spec function mapping the
//! executable value to its mirror. All contracts of the transforms are stated
//! over these views.

use vstd::prelude::*;
use crate::ast::{
    Decl, Declarator, DefaultImportSpecifier, EnumDecl, EnumMember, EnumMemberName, ExportAllDecl,
    ExportDefaultDecl, ExportNamedDecl, ExportSpecifier, Expr, ImportDecl, ImportEqualsDecl,
    ImportOrExportKind, ImportSpecifier, InterfaceDecl, ModuleDecl, NamedImportSpecifier,
    NamespaceImportSpecifier, OpaqueDecl, Program, Span, Stmt, TsModuleDecl, TsModuleDeclName,
    TsModuleReference, TsTypeName, TypeAliasDecl, VarDecl, VarKind,
};

verus! {

pub enum SpecExpr {
    NumberLiteral(u64),
    StringLiteral(Seq<char>),
    Ident(Seq<char>),
    StaticMember(Box<SpecExpr>, Seq<char>),
    ComputedMember(Box<SpecExpr>, Box<SpecExpr>),
    Assign(Box<SpecExpr>, Box<SpecExpr>),
    Add(Box<SpecExpr>, Box<SpecExpr>),
    LogicalOr(Box<SpecExpr>, Box<SpecExpr>),
    Call(Box<SpecExpr>, Box<SpecExpr>),
    Arrow(Seq<char>, Seq<SpecStmt>),
    EmptyObject,
    Opaque(u64),
}

pub enum SpecStmt {
    Decl(SpecDecl),
    Module(SpecModuleDecl),
    Expr(Span, SpecExpr),
    Return(SpecExpr),
    Opaque(u64),
}

pub enum SpecDecl {
    Var(SpecVarDecl),
    Enum(SpecEnumDecl),
    ImportEquals(SpecImportEqualsDecl),
    TsModule(SpecTsModuleDecl),
    Interface(SpecInterfaceDecl),
    TypeAlias(SpecTypeAliasDecl),
    Opaque(OpaqueDecl),
}

pub struct SpecVarDecl {
    pub span: Span,
    pub kind: VarKind,
    pub declarators: Seq<SpecDeclarator>,
    pub declare: bool,
}

pub struct SpecDeclarator {
    pub name: Seq<char>,
    pub init: Option<SpecExpr>,
}

pub struct SpecEnumDecl {
    pub span: Span,
    pub name: Seq<char>,
    pub declare: bool,
    pub members: Seq<SpecEnumMember>,
}

pub enum SpecEnumMemberName {
    Ident(Seq<char>),
    Str(Seq<char>),
    Computed(u64),
    Num(u64),
}

pub struct SpecEnumMember {
    pub span: Span,
    pub id: SpecEnumMemberName,
    pub initializer: Option<SpecExpr>,
}

pub struct SpecTsModuleDecl {
    pub id: SpecTsModuleDeclName,
    pub declare: bool,
    pub body: u64,
}

pub enum SpecTsModuleDeclName {
    Ident(Seq<char>),
    Str(Seq<char>),
}

pub struct SpecInterfaceDecl {
    pub name: Seq<char>,
    pub declare: bool,
}

pub struct SpecTypeAliasDecl {
    pub name: Seq<char>,
    pub declare: bool,
}

pub enum SpecTsTypeName {
    Ident(Seq<char>),
    Qualified(Box<SpecTsTypeName>, Seq<char>),
}

pub enum SpecTsModuleReference {
    TypeName(SpecTsTypeName),
    External(Seq<char>),
}

pub struct SpecImportEqualsDecl {
    pub id: Seq<char>,
    pub import_kind: ImportOrExportKind,
    pub module_reference: SpecTsModuleReference,
}

pub enum SpecModuleDecl {
    Import(SpecImportDecl),
    ExportNamed(SpecExportNamedDecl),
    ExportDefault(SpecExportDefaultDecl),
    ExportAll(SpecExportAllDecl),
    Opaque(u64),
}

pub struct SpecImportDecl {
    pub specifiers: Option<Seq<SpecImportSpecifier>>,
    pub source: Seq<char>,
    pub import_kind: ImportOrExportKind,
}

pub enum SpecImportSpecifier {
    Named(SpecNamedImportSpecifier),
    Default(SpecDefaultImportSpecifier),
    Namespace(SpecNamespaceImportSpecifier),
}

pub struct SpecNamedImportSpecifier {
    pub imported: Seq<char>,
    pub local: Seq<char>,
    pub import_kind: ImportOrExportKind,
}

pub struct SpecDefaultImportSpecifier {
    pub local: Seq<char>,
}

pub struct SpecNamespaceImportSpecifier {
    pub local: Seq<char>,
}

pub struct SpecExportNamedDecl {
    pub declaration: Option<SpecDecl>,
    pub specifiers: Seq<SpecExportSpecifier>,
    pub source: Option<Seq<char>>,
    pub export_kind: ImportOrExportKind,
}

pub struct SpecExportSpecifier {
    pub local: Seq<char>,
    pub exported: Seq<char>,
    pub export_kind: ImportOrExportKind,
}

pub struct SpecExportDefaultDecl {
    pub exported: Seq<char>,
    pub body: u64,
}

pub struct SpecExportAllDecl {
    pub exported: Option<Seq<char>>,
    pub source: Seq<char>,
    pub export_kind: ImportOrExportKind,
}

// ---------------------------------------------------------------------------
// Views of the non-recursive pieces
// ---------------------------------------------------------------------------

pub open spec fn view_opt_string(s: Option<String>) -> Option<Seq<char>> {
    match s {
        Option::None => Option::None,
        Option::Some(x) => Option::Some(x@),
    }
}

pub open spec fn view_type_name(t: TsTypeName) -> SpecTsTypeName
    decreases t,
{
    match t {
        TsTypeName::Ident(name) => SpecTsTypeName::Ident(name@),
        TsTypeName::Qualified(left, right) => SpecTsTypeName::Qualified(
            Box::new(view_type_name(*left)),
            right@,
        ),
    }
}

pub open spec fn view_module_reference(r: TsModuleReference) -> SpecTsModuleReference {
    match r {
        TsModuleReference::TypeName(t) => SpecTsModuleReference::TypeName(view_type_name(t)),
        TsModuleReference::External(s) => SpecTsModuleReference::External(s@),
    }
}

pub open spec fn view_import_equals(d: ImportEqualsDecl) -> SpecImportEqualsDecl {
    SpecImportEqualsDecl {
        id: d.id@,
        import_kind: d.import_kind,
        module_reference: view_module_reference(d.module_reference),
    }
}

pub open spec fn view_import_specifier(s: ImportSpecifier) -> SpecImportSpecifier {
    match s {
        ImportSpecifier::Named(n) => SpecImportSpecifier::Named(SpecNamedImportSpecifier {
            imported: n.imported@,
            local: n.local@,
            import_kind: n.import_kind,
        }),
        ImportSpecifier::Default(d) => SpecImportSpecifier::Default(SpecDefaultImportSpecifier {
            local: d.local@,
        }),
        ImportSpecifier::Namespace(n) => SpecImportSpecifier::Namespace(
            SpecNamespaceImportSpecifier { local: n.local@ },
        ),
    }
}

pub open spec fn view_import_specifiers(ss: Seq<ImportSpecifier>) -> Seq<SpecImportSpecifier> {
    Seq::new(ss.len(), |i: int| view_import_specifier(ss[i]))
}

pub open spec fn view_import_decl(d: ImportDecl) -> SpecImportDecl {
    SpecImportDecl {
        specifiers: match d.specifiers {
            Option::None => Option::None,
            Option::Some(v) => Option::Some(view_import_specifiers(v@)),
        },
        source: d.source@,
        import_kind: d.import_kind,
    }
}

pub open spec fn view_export_specifier(s: ExportSpecifier) -> SpecExportSpecifier {
    SpecExportSpecifier { local: s.local@, exported: s.exported@, export_kind: s.export_kind }
}

pub open spec fn view_export_specifiers(ss: Seq<ExportSpecifier>) -> Seq<SpecExportSpecifier> {
    Seq::new(ss.len(), |i: int| view_export_specifier(ss[i]))
}

pub open spec fn view_export_default(d: ExportDefaultDecl) -> SpecExportDefaultDecl {
    SpecExportDefaultDecl { exported: d.exported@, body: d.body }
}

pub open spec fn view_export_all(d: ExportAllDecl) -> SpecExportAllDecl {
    SpecExportAllDecl {
        exported: view_opt_string(d.exported),
        source: d.source@,
        export_kind: d.export_kind,
    }
}

pub open spec fn view_ts_module_name(n: TsModuleDeclName) -> SpecTsModuleDeclName {
    match n {
        TsModuleDeclName::Ident(s) => SpecTsModuleDeclName::Ident(s@),
        TsModuleDeclName::Str(s) => SpecTsModuleDeclName::Str(s@),
    }
}

pub open spec fn view_ts_module_decl(d: TsModuleDecl) -> SpecTsModuleDecl {
    SpecTsModuleDecl { id: view_ts_module_name(d.id), declare: d.declare, body: d.body }
}

pub open spec fn view_enum_member_name(n: EnumMemberName) -> SpecEnumMemberName {
    match n {
        EnumMemberName::Ident(s) => SpecEnumMemberName::Ident(s@),
        EnumMemberName::Str(s) => SpecEnumMemberName::Str(s@),
        EnumMemberName::Computed(t) => SpecEnumMemberName::Computed(t),
        EnumMemberName::Num(t) => SpecEnumMemberName::Num(t),
    }
}

// ---------------------------------------------------------------------------
// Views of the mutually recursive pieces
// ---------------------------------------------------------------------------

pub open spec fn view_expr(e: Expr) -> SpecExpr
    decreases e,
{
    match e {
        Expr::NumberLiteral(n) => SpecExpr::NumberLiteral(n),
        Expr::StringLiteral(s) => SpecExpr::StringLiteral(s@),
        Expr::Ident(s) => SpecExpr::Ident(s@),
        Expr::StaticMember(obj, prop) => SpecExpr::StaticMember(
            Box::new(view_expr(*obj)),
            prop@,
        ),
        Expr::ComputedMember(obj, key) => SpecExpr::ComputedMember(
            Box::new(view_expr(*obj)),
            Box::new(view_expr(*key)),
        ),
        Expr::Assign(t, v) => SpecExpr::Assign(Box::new(view_expr(*t)), Box::new(view_expr(*v))),
        Expr::Add(l, r) => SpecExpr::Add(Box::new(view_expr(*l)), Box::new(view_expr(*r))),
        Expr::LogicalOr(l, r) => SpecExpr::LogicalOr(
            Box::new(view_expr(*l)),
            Box::new(view_expr(*r)),
        ),
        Expr::Call(c, a) => SpecExpr::Call(Box::new(view_expr(*c)), Box::new(view_expr(*a))),
        Expr::Arrow(param, body) => SpecExpr::Arrow(param@, view_stmts(body@)),
        Expr::EmptyObject => SpecExpr::EmptyObject,
        Expr::Opaque(t) => SpecExpr::Opaque(t),
    }
}

pub open spec fn view_opt_expr(e: Option<Expr>) -> Option<SpecExpr>
    decreases e,
{
    match e {
        Option::None => Option::None,
        Option::Some(x) => Option::Some(view_expr(x)),
    }
}

pub open spec fn view_declarator(d: Declarator) -> SpecDeclarator
    decreases d,
{
    SpecDeclarator { name: d.name@, init: view_opt_expr(d.init) }
}

pub open spec fn view_declarators(ds: Seq<Declarator>) -> Seq<SpecDeclarator>
    decreases ds,
{
    if ds.len() == 0 {
        Seq::empty()
    } else {
        seq![view_declarator(ds[0])] + view_declarators(ds.subrange(1, ds.len() as int))
    }
}

pub open spec fn view_enum_member(m: EnumMember) -> SpecEnumMember
    decreases m,
{
    SpecEnumMember {
        span: m.span,
        id: view_enum_member_name(m.id),
        initializer: view_opt_expr(m.initializer),
    }
}

pub open spec fn view_enum_members(ms: Seq<EnumMember>) -> Seq<SpecEnumMember>
    decreases ms,
{
    if ms.len() == 0 {
        Seq::empty()
    } else {
        seq![view_enum_member(ms[0])] + view_enum_members(ms.subrange(1, ms.len() as int))
    }
}

pub open spec fn view_var_decl(d: VarDecl) -> SpecVarDecl
    decreases d,
{
    SpecVarDecl {
        span: d.span,
        kind: d.kind,
        declarators: view_declarators(d.declarators@),
        declare: d.declare,
    }
}

pub open spec fn view_enum_decl(d: EnumDecl) -> SpecEnumDecl
    decreases d,
{
    SpecEnumDecl {
        span: d.span,
        name: d.name@,
        declare: d.declare,
        members: view_enum_members(d.members@),
    }
}

pub open spec fn view_decl(d: Decl) -> SpecDecl
    decreases d,
{
    match d {
        Decl::Var(v) => SpecDecl::Var(view_var_decl(v)),
        Decl::Enum(e) => SpecDecl::Enum(view_enum_decl(e)),
        Decl::ImportEquals(i) => SpecDecl::ImportEquals(view_import_equals(i)),
        Decl::TsModule(m) => SpecDecl::TsModule(view_ts_module_decl(m)),
        Decl::Interface(i) => SpecDecl::Interface(SpecInterfaceDecl {
            name: i.name@,
            declare: i.declare,
        }),
        Decl::TypeAlias(t) => SpecDecl::TypeAlias(SpecTypeAliasDecl {
            name: t.name@,
            declare: t.declare,
        }),
        Decl::Opaque(o) => SpecDecl::Opaque(o),
    }
}

pub open spec fn view_export_named(d: ExportNamedDecl) -> SpecExportNamedDecl
    decreases d,
{
    SpecExportNamedDecl {
        declaration: match d.declaration {
            Option::None => Option::None,
            Option::Some(x) => Option::Some(view_decl(x)),
        },
        specifiers: view_export_specifiers(d.specifiers@),
        source: view_opt_string(d.source),
        export_kind: d.export_kind,
    }
}

pub open spec fn view_module_decl(d: ModuleDecl) -> SpecModuleDecl
    decreases d,
{
    match d {
        ModuleDecl::Import(i) => SpecModuleDecl::Import(view_import_decl(i)),
        ModuleDecl::ExportNamed(e) => SpecModuleDecl::ExportNamed(view_export_named(e)),
        ModuleDecl::ExportDefault(e) => SpecModuleDecl::ExportDefault(view_export_default(e)),
        ModuleDecl::ExportAll(e) => SpecModuleDecl::ExportAll(view_export_all(e)),
        ModuleDecl::Opaque(t) => SpecModuleDecl::Opaque(t),
    }
}

pub open spec fn view_stmt(s: Stmt) -> SpecStmt
    decreases s,
{
    match s {
        Stmt::Decl(d) => SpecStmt::Decl(view_decl(d)),
        Stmt::Module(m) => SpecStmt::Module(view_module_decl(m)),
        Stmt::Expr(span, e) => SpecStmt::Expr(span, view_expr(e)),
        Stmt::Return(e) => SpecStmt::Return(view_expr(e)),
        Stmt::Opaque(t) => SpecStmt::Opaque(t),
    }
}

pub open spec fn view_stmts(ss: Seq<Stmt>) -> Seq<SpecStmt>
    decreases ss,
{
    if ss.len() == 0 {
        Seq::empty()
    } else {
        seq![view_stmt(ss[0])] + view_stmts(ss.subrange(1, ss.len() as int))
    }
}

pub open spec fn view_program(p: Program) -> Seq<SpecStmt> {
    view_stmts(p.body@)
}

// ---------------------------------------------------------------------------
// Lemmas about the sequence views
// ---------------------------------------------------------------------------

pub proof fn lemma_view_stmts_index(ss: Seq<Stmt>)
    ensures
        view_stmts(ss).len() == ss.len(),
        forall|i: int| 0 <= i < ss.len() ==> view_stmts(ss)[i] == view_stmt(ss[i]),
    decreases ss,
{
    if ss.len() > 0 {
        lemma_view_stmts_index(ss.subrange(1, ss.len() as int));
    }
}

pub proof fn lemma_view_stmts_push(ss: Seq<Stmt>, s: Stmt)
    ensures
        view_stmts(ss.push(s)) =~= view_stmts(ss).push(view_stmt(s)),
    decreases ss,
{
    lemma_view_stmts_index(ss);
    lemma_view_stmts_index(ss.push(s));
    assert(view_stmts(ss.push(s)).len() == ss.len() + 1);
    assert forall|i: int| 0 <= i < ss.len() + 1 implies view_stmts(ss.push(s))[i] == view_stmts(
        ss,
    ).push(view_stmt(s))[i] by {
        if i < ss.len() {
            assert(ss.push(s)[i] == ss[i]);
        } else {
            assert(ss.push(s)[i] == s);
        }
    }
}

pub proof fn lemma_view_declarators_index(ds: Seq<Declarator>)
    ensures
        view_declarators(ds).len() == ds.len(),
        forall|i: int| 0 <= i < ds.len() ==> view_declarators(ds)[i] == view_declarator(ds[i]),
    decreases ds,
{
    if ds.len() > 0 {
        lemma_view_declarators_index(ds.subrange(1, ds.len() as int));
    }
}

pub proof fn lemma_view_enum_members_index(ms: Seq<EnumMember>)
    ensures
        view_enum_members(ms).len() == ms.len(),
        forall|i: int| 0 <= i < ms.len() ==> view_enum_members(ms)[i] == view_enum_member(ms[i]),
    decreases ms,
{
    if ms.len() > 0 {
        lemma_view_enum_members_index(ms.subrange(1, ms.len() as int));
    }
}

} // verus!
