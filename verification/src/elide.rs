//! Type-only import/export elision: a whole-program, two-pass algorithm.
//!
//! Pass one classifies every re-exported import-binding-only name as a value
//! export or a type export. Pass two filters specifiers, records type-only
//! import names, and deletes declarations that became empty or were type-only;
//! if at least one module declaration existed and all were deleted, an empty
//! `export {}` is appended so the file stays an ES module.

use vstd::prelude::*;
use vstd::pervasive::VecAdditionalExecFns;
use crate::ast::{Decl, DefaultImportSpecifier, ExportNamedDecl, ExportSpecifier, ImportDecl,
    ImportOrExportKind, ImportSpecifier, ModuleDecl, Program, Stmt};
use crate::model::{SpecDecl, SpecExportNamedDecl, SpecExportSpecifier, SpecImportDecl,
    SpecImportSpecifier, SpecModuleDecl, SpecStmt, lemma_view_stmts_index, lemma_view_stmts_push,
    view_export_specifier, view_export_specifiers, view_import_specifier, view_import_specifiers,
    view_program, view_stmt, view_stmts};
use crate::sem::{SpecSymbol, spec_has_value_references, spec_is_import_binding_only, view_table};
use crate::transformer::{TypeScript, contains_name, name_in, view_names};

verus! {

/// Whether a declaration carries the `declare` modifier.
pub open spec fn spec_decl_declare(d: SpecDecl) -> bool {
    match d {
        SpecDecl::Var(v) => v.declare,
        SpecDecl::Enum(e) => e.declare,
        SpecDecl::ImportEquals(_) => false,
        SpecDecl::TsModule(m) => m.declare,
        SpecDecl::Interface(i) => i.declare,
        SpecDecl::TypeAlias(t) => t.declare,
        SpecDecl::Opaque(o) => o.declare,
    }
}

/// An inline declaration that keeps an emptied export-named declaration
/// deletable: ambient, or purely a type declaration.
pub open spec fn spec_type_like_decl(d: SpecDecl) -> bool {
    spec_decl_declare(d) || d is Interface || d is TypeAlias
}

// ---------------------------------------------------------------------------
// Pass one: classify export names
// ---------------------------------------------------------------------------

/// The value-export names a run of export-named specifiers contributes.
pub open spec fn spec_value_names_of_specs(
    d: SpecExportNamedDecl,
    sps: Seq<SpecExportSpecifier>,
    table: Seq<SpecSymbol>,
) -> Seq<Seq<char>>
    decreases sps,
{
    if sps.len() == 0 {
        Seq::empty()
    } else {
        let pre = spec_value_names_of_specs(d, sps.drop_last(), table);
        let sp = sps.last();
        if spec_is_import_binding_only(table, sp.exported) && d.export_kind.is_value()
            && sp.export_kind.is_value() {
            pre.push(sp.exported)
        } else {
            pre
        }
    }
}

/// The type-export names a run of export-named specifiers contributes.
pub open spec fn spec_type_names_of_specs(
    d: SpecExportNamedDecl,
    sps: Seq<SpecExportSpecifier>,
    table: Seq<SpecSymbol>,
) -> Seq<Seq<char>>
    decreases sps,
{
    if sps.len() == 0 {
        Seq::empty()
    } else {
        let pre = spec_type_names_of_specs(d, sps.drop_last(), table);
        let sp = sps.last();
        if spec_is_import_binding_only(table, sp.exported) && !(d.export_kind.is_value()
            && sp.export_kind.is_value()) {
            pre.push(sp.exported)
        } else {
            pre
        }
    }
}

/// The value-export names one statement contributes.
pub open spec fn spec_stmt_value_names(s: SpecStmt, table: Seq<SpecSymbol>) -> Seq<Seq<char>> {
    match s {
        SpecStmt::Module(md) => match md {
            SpecModuleDecl::ExportNamed(d) => spec_value_names_of_specs(d, d.specifiers, table),
            SpecModuleDecl::ExportDefault(d) => if spec_is_import_binding_only(
                table,
                d.exported,
            ) {
                seq![d.exported]
            } else {
                Seq::empty()
            },
            SpecModuleDecl::ExportAll(d) => match d.exported {
                Option::Some(alias) => if spec_is_import_binding_only(table, alias)
                    && d.export_kind.is_value() {
                    seq![alias]
                } else {
                    Seq::empty()
                },
                Option::None => Seq::empty(),
            },
            _ => Seq::empty(),
        },
        _ => Seq::empty(),
    }
}

/// The type-export names one statement contributes.
pub open spec fn spec_stmt_type_names(s: SpecStmt, table: Seq<SpecSymbol>) -> Seq<Seq<char>> {
    match s {
        SpecStmt::Module(md) => match md {
            SpecModuleDecl::ExportNamed(d) => spec_type_names_of_specs(d, d.specifiers, table),
            SpecModuleDecl::ExportAll(d) => match d.exported {
                Option::Some(alias) => if spec_is_import_binding_only(table, alias)
                    && !d.export_kind.is_value() {
                    seq![alias]
                } else {
                    Seq::empty()
                },
                Option::None => Seq::empty(),
            },
            _ => Seq::empty(),
        },
        _ => Seq::empty(),
    }
}

/// All value-export names of the program.
pub open spec fn spec_value_export_names(body: Seq<SpecStmt>, table: Seq<SpecSymbol>) -> Seq<Seq<char>>
    decreases body,
{
    if body.len() == 0 {
        Seq::empty()
    } else {
        spec_value_export_names(body.drop_last(), table) + spec_stmt_value_names(
            body.last(),
            table,
        )
    }
}

/// All type-export names of the program.
pub open spec fn spec_type_export_names(body: Seq<SpecStmt>, table: Seq<SpecSymbol>) -> Seq<Seq<char>>
    decreases body,
{
    if body.len() == 0 {
        Seq::empty()
    } else {
        spec_type_export_names(body.drop_last(), table) + spec_stmt_type_names(
            body.last(),
            table,
        )
    }
}

// ---------------------------------------------------------------------------
// Pass two: filter specifiers, record type-import names, delete declarations
// ---------------------------------------------------------------------------

/// An export specifier survives unless it is type-kind or its exported name
/// is a known type-only import.
pub open spec fn spec_keep_export_spec(sp: SpecExportSpecifier, itn: Seq<Seq<char>>) -> bool {
    !(sp.export_kind.is_type() || name_in(itn, sp.exported))
}

pub open spec fn spec_filter_export_specs(
    sps: Seq<SpecExportSpecifier>,
    itn: Seq<Seq<char>>,
) -> Seq<SpecExportSpecifier>
    decreases sps,
{
    if sps.len() == 0 {
        Seq::empty()
    } else {
        let pre = spec_filter_export_specs(sps.drop_last(), itn);
        if spec_keep_export_spec(sps.last(), itn) {
            pre.push(sps.last())
        } else {
            pre
        }
    }
}

/// An emptied or type-only export-named declaration is deleted; in
/// verbatim-module-syntax mode every export-named declaration is deleted.
pub open spec fn spec_delete_export_named(
    d: SpecExportNamedDecl,
    kept: Seq<SpecExportSpecifier>,
    verbatim: bool,
) -> bool {
    d.export_kind.is_type() || verbatim || ((match d.declaration {
        Option::None => true,
        Option::Some(dd) => spec_type_like_decl(dd),
    }) && kept.len() == 0)
}

pub open spec fn spec_import_spec_local(sp: SpecImportSpecifier) -> Seq<char> {
    match sp {
        SpecImportSpecifier::Named(s) => s.local,
        SpecImportSpecifier::Default(s) => s.local,
        SpecImportSpecifier::Namespace(s) => s.local,
    }
}

/// Whether a specifier's local name is recorded as a type-only import name.
pub open spec fn spec_record_import_spec(
    sp: SpecImportSpecifier,
    import_is_type: bool,
    verbatim: bool,
) -> bool {
    match sp {
        SpecImportSpecifier::Named(s) => import_is_type || s.import_kind.is_type(),
        SpecImportSpecifier::Default(_) => !verbatim && import_is_type,
        SpecImportSpecifier::Namespace(_) => !verbatim && import_is_type,
    }
}

/// Whether an import specifier survives the filter.
pub open spec fn spec_keep_import_spec(
    sp: SpecImportSpecifier,
    import_is_type: bool,
    verbatim: bool,
    vns: Seq<Seq<char>>,
    tns: Seq<Seq<char>>,
    table: Seq<SpecSymbol>,
) -> bool {
    match sp {
        SpecImportSpecifier::Named(s) => if import_is_type || s.import_kind.is_type() {
            false
        } else if name_in(tns, s.local) {
            false
        } else if verbatim {
            true
        } else {
            spec_has_value_references(table, s.local) || name_in(vns, s.local)
        },
        SpecImportSpecifier::Default(s) => if verbatim {
            true
        } else {
            spec_has_value_references(table, s.local) || name_in(vns, s.local)
        },
        SpecImportSpecifier::Namespace(s) => if verbatim {
            true
        } else {
            spec_has_value_references(table, s.local) || name_in(vns, s.local)
        },
    }
}

pub open spec fn spec_filter_import_specs(
    sps: Seq<SpecImportSpecifier>,
    import_is_type: bool,
    verbatim: bool,
    vns: Seq<Seq<char>>,
    tns: Seq<Seq<char>>,
    table: Seq<SpecSymbol>,
) -> Seq<SpecImportSpecifier>
    decreases sps,
{
    if sps.len() == 0 {
        Seq::empty()
    } else {
        let pre = spec_filter_import_specs(sps.drop_last(), import_is_type, verbatim, vns, tns,
            table);
        if spec_keep_import_spec(sps.last(), import_is_type, verbatim, vns, tns, table) {
            pre.push(sps.last())
        } else {
            pre
        }
    }
}

/// The type-import names after an import declaration's specifiers are walked.
pub open spec fn spec_record_imports(
    sps: Seq<SpecImportSpecifier>,
    import_is_type: bool,
    verbatim: bool,
    base: Seq<Seq<char>>,
) -> Seq<Seq<char>>
    decreases sps,
{
    if sps.len() == 0 {
        base
    } else {
        let pre = spec_record_imports(sps.drop_last(), import_is_type, verbatim, base);
        if spec_record_import_spec(sps.last(), import_is_type, verbatim) {
            pre.push(spec_import_spec_local(sps.last()))
        } else {
            pre
        }
    }
}

/// One pass-two step on one statement: the statement as kept (with filtered
/// specifiers) or nothing if deleted, and the updated type-import names.
pub open spec fn spec_step2(
    s: SpecStmt,
    itn: Seq<Seq<char>>,
    vns: Seq<Seq<char>>,
    tns: Seq<Seq<char>>,
    verbatim: bool,
    table: Seq<SpecSymbol>,
) -> (Option<SpecStmt>, Seq<Seq<char>>) {
    match s {
        SpecStmt::Module(md) => match md {
            SpecModuleDecl::ExportNamed(d) => {
                let kept = spec_filter_export_specs(d.specifiers, itn);
                if spec_delete_export_named(d, kept, verbatim) {
                    (Option::None, itn)
                } else {
                    (
                        Option::Some(
                            SpecStmt::Module(
                                SpecModuleDecl::ExportNamed(
                                    SpecExportNamedDecl { specifiers: kept, ..d },
                                ),
                            ),
                        ),
                        itn,
                    )
                }
            },
            SpecModuleDecl::Import(d) => {
                match d.specifiers {
                    Option::None => if d.import_kind.is_type() {
                        (Option::None, itn)
                    } else {
                        (Option::Some(s), itn)
                    },
                    Option::Some(sps) => {
                        let is_type = d.import_kind.is_type();
                        let itn2 = spec_record_imports(sps, is_type, verbatim, itn);
                        let kept = spec_filter_import_specs(sps, is_type, verbatim, vns, tns,
                            table);
                        if is_type || (sps.len() > 0 && kept.len() == 0) {
                            (Option::None, itn2)
                        } else {
                            (
                                Option::Some(
                                    SpecStmt::Module(
                                        SpecModuleDecl::Import(
                                            SpecImportDecl {
                                                specifiers: Option::Some(kept),
                                                ..d
                                            },
                                        ),
                                    ),
                                ),
                                itn2,
                            )
                        }
                    },
                }
            },
            _ => (Option::Some(s), itn),
        },
        _ => (Option::Some(s), itn),
    }
}

/// The outcome of pass two over a statement sequence.
pub struct SpecPassTwo {
    pub kept: Seq<SpecStmt>,
    pub itn: Seq<Seq<char>>,
    pub modules: int,
    pub deleted: int,
}

pub open spec fn spec_pass2(
    body: Seq<SpecStmt>,
    itn: Seq<Seq<char>>,
    vns: Seq<Seq<char>>,
    tns: Seq<Seq<char>>,
    verbatim: bool,
    table: Seq<SpecSymbol>,
) -> SpecPassTwo
    decreases body,
{
    if body.len() == 0 {
        SpecPassTwo { kept: Seq::empty(), itn, modules: 0, deleted: 0 }
    } else {
        let step = spec_step2(body[0], itn, vns, tns, verbatim, table);
        let rest = spec_pass2(body.subrange(1, body.len() as int), step.1, vns, tns, verbatim,
            table);
        SpecPassTwo {
            kept: (match step.0 {
                Option::Some(s) => seq![s],
                Option::None => Seq::empty(),
            }) + rest.kept,
            itn: rest.itn,
            modules: (if body[0] is Module {
                1int
            } else {
                0int
            }) + rest.modules,
            deleted: (if step.0 is None {
                1int
            } else {
                0int
            }) + rest.deleted,
        }
    }
}

/// The synthesized `export {}` keeping an emptied file an ES module.
pub open spec fn spec_esm_marker() -> SpecStmt {
    SpecStmt::Module(
        SpecModuleDecl::ExportNamed(
            SpecExportNamedDecl {
                declaration: Option::None,
                specifiers: Seq::empty(),
                source: Option::None,
                export_kind: ImportOrExportKind::Value,
            },
        ),
    )
}

/// The whole elision pass over a program body.
pub open spec fn spec_transform_program(
    body: Seq<SpecStmt>,
    table: Seq<SpecSymbol>,
    verbatim: bool,
) -> Seq<SpecStmt> {
    let vns = spec_value_export_names(body, table);
    let tns = spec_type_export_names(body, table);
    let r = spec_pass2(body, Seq::empty(), vns, tns, verbatim, table);
    if r.modules > 0 && r.modules == r.deleted {
        r.kept.push(spec_esm_marker())
    } else {
        r.kept
    }
}

} // verus!

// ---------------------------------------------------------------------------
// Executable pass
// ---------------------------------------------------------------------------

verus! {

impl TypeScript {
    /// Whether an inline declaration keeps an emptied export deletable.
    pub fn is_type_like_decl(&self, d: &Decl) -> (r: bool)
        ensures
            r == spec_type_like_decl(crate::model::view_decl(*d)),
    {
        match d {
            Decl::Var(v) => v.declare,
            Decl::Enum(e) => e.declare,
            Decl::ImportEquals(_) => false,
            Decl::TsModule(m) => m.declare,
            Decl::Interface(_) => true,
            Decl::TypeAlias(_) => true,
            Decl::Opaque(o) => o.declare,
        }
    }

    /// Records the export-name classifications of one export-named
    /// declaration's specifiers.
    pub fn collect_named_spec_names(
        &self,
        d: &ExportNamedDecl,
        vns: &mut Vec<String>,
        tns: &mut Vec<String>,
    )
        ensures
            view_names(final(vns)@) == view_names(old(vns)@) + spec_value_names_of_specs(
                crate::model::view_export_named(*d),
                view_export_specifiers(d.specifiers@),
                view_table(self.symbols),
            ),
            view_names(final(tns)@) == view_names(old(tns)@) + spec_type_names_of_specs(
                crate::model::view_export_named(*d),
                view_export_specifiers(d.specifiers@),
                view_table(self.symbols),
            ),
    {
        let ghost vd = crate::model::view_export_named(*d);
        let ghost full = view_export_specifiers(d.specifiers@);
        let ghost table = view_table(self.symbols);
        let ghost vseq0 = view_names(old(vns)@);
        let ghost tseq0 = view_names(old(tns)@);
        proof {
            assert(vd.specifiers == full);
            assert(full.subrange(0, 0) =~= Seq::<SpecExportSpecifier>::empty());
            assert(view_names(vns@) =~= vseq0 + spec_value_names_of_specs(
                vd,
                full.subrange(0, 0),
                table,
            ));
            assert(view_names(tns@) =~= tseq0 + spec_type_names_of_specs(
                vd,
                full.subrange(0, 0),
                table,
            ));
        }
        let m: usize = d.specifiers.len();
        let mut j: usize = 0;
        while j < m
            invariant
                0 <= j <= m,
                m == d.specifiers@.len(),
                vd == crate::model::view_export_named(*d),
                full == view_export_specifiers(d.specifiers@),
                full.len() == m,
                table == view_table(self.symbols),
                view_names(vns@) == vseq0 + spec_value_names_of_specs(
                    vd,
                    full.subrange(0, j as int),
                    table,
                ),
                view_names(tns@) == tseq0 + spec_type_names_of_specs(
                    vd,
                    full.subrange(0, j as int),
                    table,
                ),
            decreases m - j,
        {
            let ghost spre = full.subrange(0, j as int);
            let ghost snext = full.subrange(0, j + 1);
            proof {
                assert(snext.drop_last() =~= spre);
                assert(snext.last() == full[j as int]);
                assert(full[j as int] == view_export_specifier(d.specifiers@[j as int]));
            }
            let sp = &d.specifiers[j];
            if self.is_import_binding_only(&sp.exported) {
                if d.export_kind == ImportOrExportKind::Value && sp.export_kind
                    == ImportOrExportKind::Value {
                    let ghost v0 = view_names(vns@);
                    vns.push(sp.exported.clone());
                    proof {
                        assert(view_names(vns@) =~= v0.push(sp.exported@));
                    }
                } else {
                    let ghost t0 = view_names(tns@);
                    tns.push(sp.exported.clone());
                    proof {
                        assert(view_names(tns@) =~= t0.push(sp.exported@));
                    }
                }
            }
            proof {
                assert(view_names(vns@) =~= vseq0 + spec_value_names_of_specs(
                    vd,
                    snext,
                    table,
                ));
                assert(view_names(tns@) =~= tseq0 + spec_type_names_of_specs(
                    vd,
                    snext,
                    table,
                ));
            }
            j = j + 1;
        }
        proof {
            assert(full.subrange(0, m as int) =~= full);
        }
    }

    /// Records the export-name classifications of one statement.
    pub fn collect_stmt_names(&self, stmt: &Stmt, vns: &mut Vec<String>, tns: &mut Vec<String>)
        ensures
            view_names(final(vns)@) == view_names(old(vns)@) + spec_stmt_value_names(
                view_stmt(*stmt),
                view_table(self.symbols),
            ),
            view_names(final(tns)@) == view_names(old(tns)@) + spec_stmt_type_names(
                view_stmt(*stmt),
                view_table(self.symbols),
            ),
    {
        let ghost vseq0 = view_names(old(vns)@);
        let ghost tseq0 = view_names(old(tns)@);
        proof {
            reveal_with_fuel(view_stmt, 3);
        }
        match stmt {
            Stmt::Module(ModuleDecl::ExportNamed(d)) => {
                self.collect_named_spec_names(d, vns, tns);
            },
            Stmt::Module(ModuleDecl::ExportDefault(d)) => {
                if self.is_import_binding_only(&d.exported) {
                    vns.push(d.exported.clone());
                    proof {
                        assert(view_names(vns@) =~= vseq0.push(d.exported@));
                        assert(vseq0.push(d.exported@) =~= vseq0 + seq![d.exported@]);
                    }
                }
                proof {
                    assert(tseq0 + Seq::<Seq<char>>::empty() =~= tseq0);
                    assert(vseq0 + Seq::<Seq<char>>::empty() =~= vseq0);
                }
            },
            Stmt::Module(ModuleDecl::ExportAll(d)) => {
                match &d.exported {
                    Option::Some(alias) => {
                        if self.is_import_binding_only(alias) {
                            if d.export_kind == ImportOrExportKind::Value {
                                vns.push(alias.clone());
                                proof {
                                    assert(view_names(vns@) =~= vseq0.push(alias@));
                                    assert(vseq0.push(alias@) =~= vseq0 + seq![alias@]);
                                }
                            } else {
                                tns.push(alias.clone());
                                proof {
                                    assert(view_names(tns@) =~= tseq0.push(alias@));
                                    assert(tseq0.push(alias@) =~= tseq0 + seq![alias@]);
                                }
                            }
                        }
                    },
                    Option::None => {},
                }
                proof {
                    assert(tseq0 + Seq::<Seq<char>>::empty() =~= tseq0);
                    assert(vseq0 + Seq::<Seq<char>>::empty() =~= vseq0);
                }
            },
            _ => {
                proof {
                    assert(tseq0 + Seq::<Seq<char>>::empty() =~= tseq0);
                    assert(vseq0 + Seq::<Seq<char>>::empty() =~= vseq0);
                }
            },
        }
    }

    /// Pass one: the value-export and type-export name lists.
    pub fn collect_export_names(&self, program: &Program) -> (r: (Vec<String>, Vec<String>))
        ensures
            view_names(r.0@) == spec_value_export_names(
                view_program(*program),
                view_table(self.symbols),
            ),
            view_names(r.1@) == spec_type_export_names(
                view_program(*program),
                view_table(self.symbols),
            ),
    {
        let ghost vbody = view_program(*program);
        let ghost table = view_table(self.symbols);
        proof {
            lemma_view_stmts_index(program.body@);
            assert(vbody.subrange(0, 0) =~= Seq::<SpecStmt>::empty());
        }
        let mut vns: Vec<String> = Vec::new();
        let mut tns: Vec<String> = Vec::new();
        let n: usize = program.body.len();
        let mut i: usize = 0;
        proof {
            assert(view_names(vns@) =~= spec_value_export_names(vbody.subrange(0, 0), table));
            assert(view_names(tns@) =~= spec_type_export_names(vbody.subrange(0, 0), table));
        }
        while i < n
            invariant
                0 <= i <= n,
                n == program.body@.len(),
                vbody == view_stmts(program.body@),
                vbody.len() == n,
                forall|j: int| 0 <= j < n ==> vbody[j] == view_stmt(program.body@[j]),
                table == view_table(self.symbols),
                view_names(vns@) == spec_value_export_names(vbody.subrange(0, i as int), table),
                view_names(tns@) == spec_type_export_names(vbody.subrange(0, i as int), table),
            decreases n - i,
        {
            let ghost pre = vbody.subrange(0, i as int);
            self.collect_stmt_names(&program.body[i], &mut vns, &mut tns);
            proof {
                assert(vbody.subrange(0, i + 1).drop_last() =~= pre);
                assert(vbody.subrange(0, i + 1).last() == vbody[i as int]);
            }
            i = i + 1;
        }
        proof {
            assert(vbody.subrange(0, n as int) =~= vbody);
        }
        (vns, tns)
    }

    /// Drops every type-kind specifier and every specifier re-exporting a
    /// known type-only import name.
    pub fn filter_export_specifiers(&self, specifiers: Vec<ExportSpecifier>, itn: &Vec<String>) -> (r:
        Vec<ExportSpecifier>)
        ensures
            view_export_specifiers(r@) == spec_filter_export_specs(
                view_export_specifiers(specifiers@),
                view_names(itn@),
            ),
    {
        let ghost full = view_export_specifiers(specifiers@);
        let mut specifiers = specifiers;
        let mut out: Vec<ExportSpecifier> = Vec::new();
        let n: usize = specifiers.len();
        let mut i: usize = 0;
        proof {
            assert(full.subrange(0, 0) =~= Seq::<SpecExportSpecifier>::empty());
            assert(view_export_specifiers(out@) =~= spec_filter_export_specs(
                full.subrange(0, 0),
                view_names(itn@),
            ));
        }
        while i < n
            invariant
                0 <= i <= n,
                n == specifiers@.len(),
                full.len() == n,
                forall|j: int| i <= j < n ==> full[j] == view_export_specifier(specifiers@[j]),
                view_export_specifiers(out@) == spec_filter_export_specs(
                    full.subrange(0, i as int),
                    view_names(itn@),
                ),
            decreases n - i,
        {
            let ghost spre = full.subrange(0, i as int);
            let ghost snext = full.subrange(0, i + 1);
            proof {
                assert(snext.drop_last() =~= spre);
                assert(snext.last() == full[i as int]);
            }
            let mut sp = ExportSpecifier {
                local: String::new(),
                exported: String::new(),
                export_kind: ImportOrExportKind::Value,
            };
            specifiers.set_and_swap(i, &mut sp);
            let keep: bool = !(sp.export_kind == ImportOrExportKind::Type || contains_name(
                itn,
                &sp.exported,
            ));
            proof {
                assert(view_export_specifier(sp) == full[i as int]);
                assert(keep == spec_keep_export_spec(full[i as int], view_names(itn@)));
            }
            if keep {
                let ghost out0 = view_export_specifiers(out@);
                out.push(sp);
                proof {
                    assert(view_export_specifiers(out@) =~= out0.push(full[i as int]));
                }
            }
            proof {
                assert(view_export_specifiers(out@) =~= spec_filter_export_specs(
                    snext,
                    view_names(itn@),
                ));
            }
            i = i + 1;
        }
        proof {
            assert(full.subrange(0, n as int) =~= full);
        }
        out
    }

    /// Walks an import declaration's specifiers: records type-only local
    /// names and keeps only the value-used specifiers.
    #[verifier::rlimit(100)]
    pub fn filter_import_specifiers(
        &self,
        specifiers: Vec<ImportSpecifier>,
        import_is_type: bool,
        itn: &mut Vec<String>,
        vns: &Vec<String>,
        tns: &Vec<String>,
    ) -> (r: Vec<ImportSpecifier>)
        ensures
            view_import_specifiers(r@) == spec_filter_import_specs(
                view_import_specifiers(specifiers@),
                import_is_type,
                self.verbatim_module_syntax,
                view_names(vns@),
                view_names(tns@),
                view_table(self.symbols),
            ),
            view_names(final(itn)@) == spec_record_imports(
                view_import_specifiers(specifiers@),
                import_is_type,
                self.verbatim_module_syntax,
                view_names(old(itn)@),
            ),
    {
        let ghost full = view_import_specifiers(specifiers@);
        let ghost itn0 = view_names(old(itn)@);
        let ghost vnsq = view_names(vns@);
        let ghost tnsq = view_names(tns@);
        let ghost table = view_table(self.symbols);
        let verbatim = self.verbatim_module_syntax;
        let mut specifiers = specifiers;
        let mut out: Vec<ImportSpecifier> = Vec::new();
        let n: usize = specifiers.len();
        let mut i: usize = 0;
        proof {
            assert(full.subrange(0, 0) =~= Seq::<SpecImportSpecifier>::empty());
            assert(view_import_specifiers(out@) =~= spec_filter_import_specs(
                full.subrange(0, 0),
                import_is_type,
                verbatim,
                vnsq,
                tnsq,
                table,
            ));
        }
        while i < n
            invariant
                0 <= i <= n,
                n == specifiers@.len(),
                full.len() == n,
                forall|j: int| i <= j < n ==> full[j] == view_import_specifier(specifiers@[j]),
                verbatim == self.verbatim_module_syntax,
                vnsq == view_names(vns@),
                tnsq == view_names(tns@),
                table == view_table(self.symbols),
                view_import_specifiers(out@) == spec_filter_import_specs(
                    full.subrange(0, i as int),
                    import_is_type,
                    verbatim,
                    vnsq,
                    tnsq,
                    table,
                ),
                view_names(itn@) == spec_record_imports(
                    full.subrange(0, i as int),
                    import_is_type,
                    verbatim,
                    itn0,
                ),
            decreases n - i,
        {
            let ghost spre = full.subrange(0, i as int);
            let ghost snext = full.subrange(0, i + 1);
            proof {
                assert(snext.drop_last() =~= spre);
                assert(snext.last() == full[i as int]);
            }
            let mut sp = ImportSpecifier::Default(
                DefaultImportSpecifier { local: String::new() },
            );
            specifiers.set_and_swap(i, &mut sp);
            proof {
                assert(view_import_specifier(sp) == full[i as int]);
            }
            let record: bool;
            let keep: bool;
            match &sp {
                ImportSpecifier::Named(s) => {
                    record = import_is_type || s.import_kind == ImportOrExportKind::Type;
                    keep = if record {
                        false
                    } else if contains_name(tns, &s.local) {
                        false
                    } else if verbatim {
                        true
                    } else {
                        self.has_value_references(&s.local) || contains_name(vns, &s.local)
                    };
                },
                ImportSpecifier::Default(s) => {
                    record = !verbatim && import_is_type;
                    keep = if verbatim {
                        true
                    } else {
                        self.has_value_references(&s.local) || contains_name(vns, &s.local)
                    };
                },
                ImportSpecifier::Namespace(s) => {
                    record = !verbatim && import_is_type;
                    keep = if verbatim {
                        true
                    } else {
                        self.has_value_references(&s.local) || contains_name(vns, &s.local)
                    };
                },
            }
            proof {
                assert(record == spec_record_import_spec(full[i as int], import_is_type, verbatim));
                assert(keep == spec_keep_import_spec(
                    full[i as int],
                    import_is_type,
                    verbatim,
                    vnsq,
                    tnsq,
                    table,
                ));
            }
            if record {
                let local: String = match &sp {
                    ImportSpecifier::Named(s) => s.local.clone(),
                    ImportSpecifier::Default(s) => s.local.clone(),
                    ImportSpecifier::Namespace(s) => s.local.clone(),
                };
                let ghost itnpre = view_names(itn@);
                proof {
                    assert(local@ == spec_import_spec_local(full[i as int]));
                }
                itn.push(local);
                proof {
                    assert(view_names(itn@) =~= itnpre.push(spec_import_spec_local(
                        full[i as int],
                    )));
                }
            }
            if keep {
                let ghost out0 = view_import_specifiers(out@);
                out.push(sp);
                proof {
                    assert(view_import_specifiers(out@) =~= out0.push(full[i as int]));
                }
            }
            proof {
                assert(view_import_specifiers(out@) =~= spec_filter_import_specs(
                    snext,
                    import_is_type,
                    verbatim,
                    vnsq,
                    tnsq,
                    table,
                ));
                assert(view_names(itn@) =~= spec_record_imports(
                    snext,
                    import_is_type,
                    verbatim,
                    itn0,
                ));
            }
            i = i + 1;
        }
        proof {
            assert(full.subrange(0, n as int) =~= full);
        }
        out
    }
}

} // verus!

// ---------------------------------------------------------------------------
// The driver: one statement at a time, then the whole program
// ---------------------------------------------------------------------------

verus! {

impl TypeScript {
    /// Applies one pass-two step: returns the statement as kept (with its
    /// specifiers filtered) or nothing if it is deleted, recording type-only
    /// import names into `itn` on the way.
    #[verifier::rlimit(100)]
    fn step_statement(
        &self,
        stmt: Stmt,
        itn: &mut Vec<String>,
        vns: &Vec<String>,
        tns: &Vec<String>,
    ) -> (r: Option<Stmt>)
        ensures
            ({
                let st = spec_step2(
                    view_stmt(stmt),
                    view_names(old(itn)@),
                    view_names(vns@),
                    view_names(tns@),
                    self.verbatim_module_syntax,
                    view_table(self.symbols),
                );
                &&& (match r {
                    Option::Some(s2) => st.0 == Option::Some(view_stmt(s2)),
                    Option::None => st.0 is None,
                })
                &&& view_names(final(itn)@) == st.1
            }),
    {
        let ghost vstmt = view_stmt(stmt);
        let ghost itn0 = view_names(old(itn)@);
        let ghost vnsq = view_names(vns@);
        let ghost tnsq = view_names(tns@);
        let ghost table = view_table(self.symbols);
        match stmt {
            Stmt::Module(md) => match md {
                ModuleDecl::ExportNamed(d) => {
                    let ghost vd = crate::model::view_export_named(d);
                    proof {
                        reveal_with_fuel(view_stmt, 4);
                        assert(vstmt == SpecStmt::Module(SpecModuleDecl::ExportNamed(vd)));
                        assert(vd.specifiers == view_export_specifiers(d.specifiers@));
                    }
                    let ExportNamedDecl { declaration, specifiers, source, export_kind } = d;
                    let kept = self.filter_export_specifiers(specifiers, itn);
                    let ghost kept_spec = spec_filter_export_specs(vd.specifiers, itn0);
                    let type_like: bool = match &declaration {
                        Option::None => true,
                        Option::Some(dd) => self.is_type_like_decl(dd),
                    };
                    let is_del: bool = export_kind == ImportOrExportKind::Type
                        || self.verbatim_module_syntax || (type_like && kept.len() == 0);
                    proof {
                        assert(view_export_specifiers(kept@) == kept_spec);
                        assert(kept@.len() == kept_spec.len());
                        assert(is_del == spec_delete_export_named(
                            vd,
                            kept_spec,
                            self.verbatim_module_syntax,
                        ));
                    }
                    if is_del {
                        Option::None
                    } else {
                        let out = Stmt::Module(
                            ModuleDecl::ExportNamed(
                                ExportNamedDecl {
                                    declaration,
                                    specifiers: kept,
                                    source,
                                    export_kind,
                                },
                            ),
                        );
                        proof {
                            reveal_with_fuel(view_stmt, 4);
                            assert(view_stmt(out) == SpecStmt::Module(
                                SpecModuleDecl::ExportNamed(
                                    SpecExportNamedDecl { specifiers: kept_spec, ..vd },
                                ),
                            ));
                        }
                        Option::Some(out)
                    }
                },
                ModuleDecl::Import(d) => {
                    let ghost vd = crate::model::view_import_decl(d);
                    proof {
                        reveal_with_fuel(view_stmt, 4);
                        assert(vstmt == SpecStmt::Module(SpecModuleDecl::Import(vd)));
                    }
                    let ImportDecl { specifiers, source, import_kind } = d;
                    let is_type: bool = import_kind == ImportOrExportKind::Type;
                    match specifiers {
                        Option::None => {
                            if is_type {
                                Option::None
                            } else {
                                let out = Stmt::Module(
                                    ModuleDecl::Import(
                                        ImportDecl {
                                            specifiers: Option::None,
                                            source,
                                            import_kind,
                                        },
                                    ),
                                );
                                proof {
                                    reveal_with_fuel(view_stmt, 4);
                                    assert(view_stmt(out) == vstmt);
                                }
                                Option::Some(out)
                            }
                        },
                        Option::Some(sps) => {
                            let ghost vsps = view_import_specifiers(sps@);
                            proof {
                                assert(vd.specifiers == Option::Some(vsps));
                            }
                            let was_nonempty: bool = sps.len() > 0;
                            let kept = self.filter_import_specifiers(sps, is_type, itn, vns, tns);
                            let ghost kept_spec = spec_filter_import_specs(
                                vsps,
                                is_type,
                                self.verbatim_module_syntax,
                                vnsq,
                                tnsq,
                                table,
                            );
                            proof {
                                assert(view_import_specifiers(kept@) == kept_spec);
                                assert(kept@.len() == kept_spec.len());
                                assert(view_names(itn@) == spec_record_imports(
                                    vsps,
                                    is_type,
                                    self.verbatim_module_syntax,
                                    itn0,
                                ));
                            }
                            if is_type || (was_nonempty && kept.len() == 0) {
                                Option::None
                            } else {
                                let out = Stmt::Module(
                                    ModuleDecl::Import(
                                        ImportDecl {
                                            specifiers: Option::Some(kept),
                                            source,
                                            import_kind,
                                        },
                                    ),
                                );
                                proof {
                                    reveal_with_fuel(view_stmt, 4);
                                    assert(view_stmt(out) == SpecStmt::Module(
                                        SpecModuleDecl::Import(
                                            SpecImportDecl {
                                                specifiers: Option::Some(kept_spec),
                                                ..vd
                                            },
                                        ),
                                    ));
                                }
                                Option::Some(out)
                            }
                        },
                    }
                },
                other_md => {
                    let out = Stmt::Module(other_md);
                    proof {
                        reveal_with_fuel(view_stmt, 4);
                        assert(view_stmt(out) == vstmt);
                    }
                    Option::Some(out)
                },
            },
            other => {
                proof {
                    reveal_with_fuel(view_stmt, 4);
                }
                Option::Some(other)
            },
        }
    }

    /// Removes the top-level import/export statements that exist only for
    /// types, and appends `export {}` when every module declaration of the
    /// file was removed, so that the file is still recognized as an ES
    /// module.
    #[verifier::rlimit(100)]
    pub fn transform_program(&self, program: &mut Program)
        ensures
            view_program(*final(program)) == spec_transform_program(
                view_program(*old(program)),
                view_table(self.symbols),
                self.verbatim_module_syntax,
            ),
    {
        let ghost vbody = view_program(*old(program));
        let ghost table = view_table(self.symbols);
        let ghost verbatim = self.verbatim_module_syntax;
        let names = self.collect_export_names(program);
        let (vns, tns) = names;
        let ghost vnsq = view_names(vns@);
        let ghost tnsq = view_names(tns@);
        let ghost total = spec_pass2(vbody, Seq::empty(), vnsq, tnsq, verbatim, table);
        let mut old_body: Vec<Stmt> = Vec::new();
        core::mem::swap(&mut program.body, &mut old_body);
        let ghost morig = old_body@;
        proof {
            lemma_view_stmts_index(morig);
            assert(view_stmts(morig) == vbody);
        }
        let n: usize = old_body.len();
        let mut new_body: Vec<Stmt> = Vec::new();
        let mut itn: Vec<String> = Vec::new();
        let mut modules: usize = 0;
        let mut deleted: usize = 0;
        let mut i: usize = 0;
        proof {
            assert(view_names(itn@) =~= Seq::<Seq<char>>::empty());
            assert(vbody.subrange(0, n as int) =~= vbody);
            assert(view_stmts(new_body@) =~= Seq::<SpecStmt>::empty());
            assert(view_stmts(new_body@) + spec_pass2(
                vbody.subrange(0, n as int),
                view_names(itn@),
                vnsq,
                tnsq,
                verbatim,
                table,
            ).kept =~= total.kept);
        }
        while i < n
            invariant
                0 <= i <= n,
                n == old_body@.len(),
                morig.len() == n,
                forall|j: int| i <= j < n ==> old_body@[j] == morig[j],
                vbody.len() == n,
                forall|j: int| 0 <= j < n ==> vbody[j] == view_stmt(morig[j]),
                vnsq == view_names(vns@),
                tnsq == view_names(tns@),
                verbatim == self.verbatim_module_syntax,
                table == view_table(self.symbols),
                total == spec_pass2(vbody, Seq::empty(), vnsq, tnsq, verbatim, table),
                modules <= i,
                deleted <= modules,
                ({
                    let r = spec_pass2(
                        vbody.subrange(i as int, n as int),
                        view_names(itn@),
                        vnsq,
                        tnsq,
                        verbatim,
                        table,
                    );
                    &&& total.kept == view_stmts(new_body@) + r.kept
                    &&& total.modules == modules + r.modules
                    &&& total.deleted == deleted + r.deleted
                }),
            decreases n - i,
        {
            let ghost rem = vbody.subrange(i as int, n as int);
            let ghost itnq = view_names(itn@);
            let ghost step = spec_step2(rem[0], itnq, vnsq, tnsq, verbatim, table);
            let ghost kept0 = view_stmts(new_body@);
            let mut stmt: Stmt = Stmt::Opaque(0);
            old_body.set_and_swap(i, &mut stmt);
            proof {
                assert(stmt == morig[i as int]);
                assert(rem[0] == vbody[i as int]);
                assert(view_stmt(stmt) == rem[0]);
            }
            let is_module: bool = matches!(stmt, Stmt::Module(_));
            proof {
                reveal_with_fuel(view_stmt, 2);
                assert(is_module == (rem[0] is Module));
            }
            if is_module {
                modules = modules + 1;
            }
            let res = self.step_statement(stmt, &mut itn, &vns, &tns);
            let ghost vres = if res is Some {
                Option::Some(view_stmt(res->0))
            } else {
                Option::None::<SpecStmt>
            };
            match res {
                Option::Some(s2) => {
                    proof {
                        lemma_view_stmts_push(new_body@, s2);
                    }
                    new_body.push(s2);
                },
                Option::None => {
                    deleted = deleted + 1;
                },
            }
            proof {
                assert(rem.subrange(1, rem.len() as int) =~= vbody.subrange(i + 1, n as int));
                let r_cur = spec_pass2(rem, itnq, vnsq, tnsq, verbatim, table);
                let r_next = spec_pass2(
                    vbody.subrange(i + 1, n as int),
                    view_names(itn@),
                    vnsq,
                    tnsq,
                    verbatim,
                    table,
                );
                assert(r_cur.kept == (match step.0 {
                    Option::Some(s) => seq![s],
                    Option::None => Seq::<SpecStmt>::empty(),
                }) + r_next.kept);
                match vres {
                    Option::Some(vs2) => {
                        assert(step.0 == Option::Some(vs2));
                        assert(view_stmts(new_body@) =~= kept0.push(vs2));
                        assert(view_stmts(new_body@) + r_next.kept =~= kept0 + r_cur.kept);
                    },
                    Option::None => {
                        assert(view_stmts(new_body@) + r_next.kept =~= kept0 + r_cur.kept);
                    },
                }
                assert(total.kept == view_stmts(new_body@) + r_next.kept);
                assert(total.modules == modules + r_next.modules);
                assert(total.deleted == deleted + r_next.deleted);
            }
            i = i + 1;
        }
        proof {
            assert(vbody.subrange(n as int, n as int) =~= Seq::<SpecStmt>::empty());
            assert(total.kept =~= view_stmts(new_body@));
            assert(total.modules == modules);
            assert(total.deleted == deleted);
        }
        if modules > 0 && modules == deleted {
            let marker = Stmt::Module(
                ModuleDecl::ExportNamed(
                    ExportNamedDecl {
                        declaration: Option::None,
                        specifiers: Vec::new(),
                        source: Option::None,
                        export_kind: ImportOrExportKind::Value,
                    },
                ),
            );
            proof {
                reveal_with_fuel(view_stmt, 4);
                assert(view_export_specifiers(marker->Module_0->ExportNamed_0.specifiers@)
                    =~= Seq::<SpecExportSpecifier>::empty());
                assert(view_stmt(marker) == spec_esm_marker());
                lemma_view_stmts_push(new_body@, marker);
            }
            new_body.push(marker);
        }
        program.body = new_body;
        proof {
            assert(view_program(*program) == view_stmts(new_body@));
        }
    }
}

} // verus!

// ---------------------------------------------------------------------------
// Laws of the elision pass
// ---------------------------------------------------------------------------

verus! {

/// A wholly type-kind import declaration is always deleted by pass two,
/// whatever its specifiers and whatever names are known.
pub proof fn lemma_type_import_deleted(
    s: SpecStmt,
    itn: Seq<Seq<char>>,
    vns: Seq<Seq<char>>,
    tns: Seq<Seq<char>>,
    verbatim: bool,
    table: Seq<SpecSymbol>,
)
    requires
        s is Module,
        s->Module_0 is Import,
        s->Module_0->Import_0.import_kind.is_type(),
    ensures
        spec_step2(s, itn, vns, tns, verbatim, table).0 is None,
{
}

/// Pass two over a body of module declarations alone: every statement counts
/// as a module declaration, no more are deleted than exist, and if all were
/// deleted nothing is kept.
pub proof fn lemma_pass2_all_modules(
    body: Seq<SpecStmt>,
    itn: Seq<Seq<char>>,
    vns: Seq<Seq<char>>,
    tns: Seq<Seq<char>>,
    verbatim: bool,
    table: Seq<SpecSymbol>,
)
    requires
        forall|i: int| 0 <= i < body.len() ==> body[i] is Module,
    ensures
        ({
            let r = spec_pass2(body, itn, vns, tns, verbatim, table);
            &&& r.modules == body.len()
            &&& r.deleted <= r.modules
            &&& (r.deleted == r.modules ==> r.kept =~= Seq::<SpecStmt>::empty())
        }),
    decreases body,
{
    if body.len() > 0 {
        let rest = body.subrange(1, body.len() as int);
        assert forall|i: int| 0 <= i < rest.len() implies rest[i] is Module by {
            assert(rest[i] == body[i + 1]);
        }
        let step = spec_step2(body[0], itn, vns, tns, verbatim, table);
        lemma_pass2_all_modules(rest, step.1, vns, tns, verbatim, table);
        let r = spec_pass2(body, itn, vns, tns, verbatim, table);
        let rr = spec_pass2(rest, step.1, vns, tns, verbatim, table);
        if r.deleted == r.modules {
            assert(step.0 is None);
            assert(rr.deleted == rr.modules);
            assert(r.kept =~= Seq::<SpecStmt>::empty());
        }
    }
}

/// A file of import/export statements alone, all elided, keeps exactly one
/// statement: the synthesized empty `export {}`.
pub proof fn lemma_all_elided_leaves_esm_marker(
    body: Seq<SpecStmt>,
    table: Seq<SpecSymbol>,
    verbatim: bool,
)
    requires
        body.len() > 0,
        forall|i: int| 0 <= i < body.len() ==> body[i] is Module,
        ({
            let vns = spec_value_export_names(body, table);
            let tns = spec_type_export_names(body, table);
            let r = spec_pass2(body, Seq::empty(), vns, tns, verbatim, table);
            r.deleted == r.modules
        }),
    ensures
        spec_transform_program(body, table, verbatim) =~= seq![spec_esm_marker()],
{
    let vns = spec_value_export_names(body, table);
    let tns = spec_type_export_names(body, table);
    lemma_pass2_all_modules(body, Seq::empty(), vns, tns, verbatim, table);
    let r = spec_pass2(body, Seq::empty(), vns, tns, verbatim, table);
    assert(r.kept =~= Seq::<SpecStmt>::empty());
    assert(spec_transform_program(body, table, verbatim) =~= r.kept.push(spec_esm_marker()));
}

} // verus!
