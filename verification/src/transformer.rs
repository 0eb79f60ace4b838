//! The per-file transform state: the read-only symbol table, the
//! verbatim-module-syntax flag, and the set of names whose `export` modifier
//! has already been kept (merged-export deduplication).

use vstd::prelude::*;
use crate::ast::{Decl, ImportOrExportKind, ModuleDecl, OpaqueDecl, Stmt, TsModuleDeclName};
use crate::enum_lower::{spec_lower_enum, wf_members};
use crate::import_equals::spec_lower_import_equals;
use crate::model::{SpecDecl, SpecModuleDecl, SpecStmt, SpecTsModuleDeclName, view_decl,
    view_stmt};
use crate::sem::{SymbolTable, spec_find_binding, spec_has_value_references,
    spec_is_import_binding_only, view_table};

verus! {

/// Lowers TypeScript-only syntax in one file's program tree.
pub struct TypeScript {
    pub symbols: SymbolTable,
    pub verbatim_module_syntax: bool,
    pub export_name_set: Vec<String>,
}

/// The views of a sequence of names.
pub open spec fn view_names(ss: Seq<String>) -> Seq<Seq<char>> {
    Seq::new(ss.len(), |i: int| ss[i]@)
}

/// Membership of a name in a sequence of names.
pub open spec fn name_in(names: Seq<Seq<char>>, name: Seq<char>) -> bool {
    exists|i: int| 0 <= i < names.len() && names[i] == name
}

/// Linear-scan membership test, the executable side of `name_in`.
pub fn contains_name(names: &Vec<String>, name: &String) -> (r: bool)
    ensures
        r == name_in(view_names(names@), name@),
{
    let n: usize = names.len();
    let mut i: usize = 0;
    while i < n
        invariant
            0 <= i <= n,
            n == names@.len(),
            forall|j: int| 0 <= j < i ==> view_names(names@)[j] != name@,
        decreases n - i,
    {
        if names[i] == *name {
            assert(view_names(names@)[i as int] == name@);
            return true;
        }
        i = i + 1;
    }
    false
}

impl TypeScript {
    /// A fresh per-file transform over the given symbol table.
    pub fn new(symbols: SymbolTable, verbatim_module_syntax: bool) -> (r: TypeScript)
        ensures
            r.symbols == symbols,
            r.verbatim_module_syntax == verbatim_module_syntax,
            r.export_name_set@.len() == 0,
    {
        TypeScript { symbols, verbatim_module_syntax, export_name_set: Vec::new() }
    }

    /// The name's sole root-scope binding is an import binding, never
    /// re-declared as a runtime variable.
    pub fn is_import_binding_only(&self, name: &String) -> (r: bool)
        ensures
            r == spec_is_import_binding_only(view_table(self.symbols), name@),
    {
        match self.symbols.get_binding(name) {
            Option::Some(symbol) => symbol.import_binding && !symbol.function_scoped
                && !symbol.block_scoped,
            Option::None => false,
        }
    }

    /// The name is bound in the root scope and referenced at least once as a
    /// value.
    pub fn has_value_references(&self, name: &String) -> (r: bool)
        ensures
            r == spec_has_value_references(view_table(self.symbols), name@),
    {
        match self.symbols.get_binding(name) {
            Option::Some(symbol) => {
                let n: usize = symbol.references.len();
                let mut i: usize = 0;
                while i < n
                    invariant
                        0 <= i <= n,
                        n == symbol.references@.len(),
                        spec_find_binding(view_table(self.symbols), name@) == Option::Some(
                            crate::sem::view_symbol(*symbol),
                        ),
                        forall|j: int| 0 <= j < i ==> symbol.references@[j].is_type,
                    decreases n - i,
                {
                    if !symbol.references[i].is_type {
                        proof {
                            let fb = spec_find_binding(view_table(self.symbols), name@);
                            let s = fb->Some_0;
                            assert(s == crate::sem::view_symbol(*symbol));
                            assert(0 <= i < s.references.len() && !s.references[i as int].is_type);
                        }
                        return true;
                    }
                    i = i + 1;
                }
                false
            },
            Option::None => false,
        }
    }
}

} // verus!

// ---------------------------------------------------------------------------
// Per-declaration dispatch and merged-export deduplication
// ---------------------------------------------------------------------------

verus! {

/// An enum declaration reaching the transform has well-formed member keys.
pub open spec fn decl_input_ok(d: SpecDecl) -> bool {
    match d {
        SpecDecl::Enum(e) => wf_members(e.members),
        _ => true,
    }
}

/// What the per-declaration transform produces: import-equals and non-ambient
/// enum declarations are lowered, everything else is untouched.
pub open spec fn spec_transform_declaration(d: SpecDecl) -> SpecDecl {
    match d {
        SpecDecl::ImportEquals(ie) => if ie.import_kind.is_value() {
            spec_lower_import_equals(ie)
        } else {
            d
        },
        SpecDecl::Enum(e) => if !e.declare {
            spec_lower_enum(e)
        } else {
            d
        },
        _ => d,
    }
}

/// The merge key of a statement: the declared name of an exported, value-kind,
/// sourceless enum or namespace declaration.
pub open spec fn spec_dedup_key(s: SpecStmt) -> Option<Seq<char>> {
    match s {
        SpecStmt::Module(md) => match md {
            SpecModuleDecl::ExportNamed(d) => if d.declaration is Some && d.source is None
                && d.export_kind.is_value() {
                match d.declaration->0 {
                    SpecDecl::Enum(e) => Option::Some(e.name),
                    SpecDecl::TsModule(m) => match m.id {
                        SpecTsModuleDeclName::Ident(n) => Option::Some(n),
                        SpecTsModuleDeclName::Str(_) => Option::None,
                    },
                    _ => Option::None,
                }
            } else {
                Option::None
            },
            _ => Option::None,
        },
        _ => Option::None,
    }
}

/// The statement with its `export` removed: the bare inner declaration.
pub open spec fn spec_unexported(s: SpecStmt) -> SpecStmt {
    SpecStmt::Decl(s->Module_0->ExportNamed_0.declaration->0)
}

/// One dedup step: a first-seen merge key is recorded and the statement kept;
/// an already-seen key has the statement stripped of its `export`.
pub open spec fn spec_dedup_result(s: SpecStmt, names: Seq<Seq<char>>) -> (SpecStmt, Seq<
    Seq<char>,
>) {
    match spec_dedup_key(s) {
        Option::None => (s, names),
        Option::Some(n) => if name_in(names, n) {
            (spec_unexported(s), names)
        } else {
            (s, names.push(n))
        },
    }
}

/// Of two exported merge-candidate declarations sharing one name, only the
/// first keeps its `export` modifier; the second becomes the bare declaration.
pub proof fn lemma_merged_export_dedup(
    s1: SpecStmt,
    s2: SpecStmt,
    names: Seq<Seq<char>>,
    n: Seq<char>,
)
    requires
        spec_dedup_key(s1) == Option::Some(n),
        spec_dedup_key(s2) == Option::Some(n),
        !name_in(names, n),
    ensures
        spec_dedup_result(s1, names).0 == s1,
        spec_dedup_result(s2, spec_dedup_result(s1, names).1).0 == spec_unexported(s2),
{
    let names1 = spec_dedup_result(s1, names).1;
    assert(names1 == names.push(n));
    assert(names1[names.len() as int] == n);
    assert(name_in(names1, n));
}

impl TypeScript {
    /// Lowers a TypeScript-only declaration in place.
    pub fn transform_declaration(&mut self, decl: &mut Decl)
        requires
            decl_input_ok(view_decl(*old(decl))),
        ensures
            view_decl(*final(decl)) == spec_transform_declaration(view_decl(*old(decl))),
            *final(self) == *old(self),
    {
        let mut taken: Decl = Decl::Opaque(OpaqueDecl { declare: false, tag: 0 });
        core::mem::swap(decl, &mut taken);
        let out: Decl = match taken {
            Decl::ImportEquals(ie) => {
                if ie.import_kind == ImportOrExportKind::Value {
                    self.transform_ts_import_equals(&ie)
                } else {
                    Decl::ImportEquals(ie)
                }
            },
            Decl::Enum(e) => {
                if e.declare {
                    Decl::Enum(e)
                } else {
                    match self.transform_ts_enum(e) {
                        Option::Some(d) => d,
                        Option::None => {
                            proof {
                                assert(false);
                            }
                            Decl::Opaque(OpaqueDecl { declare: false, tag: 0 })
                        },
                    }
                }
            },
            other => other,
        };
        *decl = out;
    }

    /// Removes `export` from a merged declaration, keeping only the first
    /// exported occurrence of each enum or namespace name.
    pub fn transform_statement(&mut self, stmt: &mut Stmt)
        ensures
            ({
                let r = spec_dedup_result(
                    view_stmt(*old(stmt)),
                    view_names(old(self).export_name_set@),
                );
                &&& view_stmt(*final(stmt)) == r.0
                &&& view_names(final(self).export_name_set@) == r.1
            }),
            final(self).symbols == old(self).symbols,
            final(self).verbatim_module_syntax == old(self).verbatim_module_syntax,
    {
        let ghost k = spec_dedup_key(view_stmt(*old(stmt)));
        let name_opt: Option<String> = match &*stmt {
            Stmt::Module(ModuleDecl::ExportNamed(d)) => {
                if d.source.is_none() && d.export_kind == ImportOrExportKind::Value {
                    match &d.declaration {
                        Option::Some(Decl::Enum(e)) => Option::Some(e.name.clone()),
                        Option::Some(Decl::TsModule(m)) => match &m.id {
                            TsModuleDeclName::Ident(n) => Option::Some(n.clone()),
                            TsModuleDeclName::Str(_) => Option::None,
                        },
                        _ => Option::None,
                    }
                } else {
                    Option::None
                }
            },
            _ => Option::None,
        };
        proof {
            reveal_with_fuel(view_stmt, 6);
            assert(match name_opt {
                Option::Some(nm) => k == Option::Some(nm@),
                Option::None => k is None,
            });
        }
        match name_opt {
            Option::None => {},
            Option::Some(name) => {
                if contains_name(&self.export_name_set, &name) {
                    let mut taken: Stmt = Stmt::Opaque(0);
                    core::mem::swap(stmt, &mut taken);
                    match taken {
                        Stmt::Module(ModuleDecl::ExportNamed(d)) => {
                            match d.declaration {
                                Option::Some(inner) => {
                                    *stmt = Stmt::Decl(inner);
                                },
                                Option::None => {
                                    proof {
                                        assert(false);
                                    }
                                },
                            }
                        },
                        _ => {
                            proof {
                                assert(false);
                            }
                        },
                    }
                } else {
                    let ghost names0 = view_names(self.export_name_set@);
                    self.export_name_set.push(name);
                    proof {
                        assert(view_names(self.export_name_set@) =~= names0.push(name@));
                    }
                }
            },
        }
    }
}

} // verus!
