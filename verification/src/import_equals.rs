//! Lowering of `import X = ...` declarations to plain `var` declarations:
//! an external module reference becomes a `require("m")` call, a possibly
//! qualified type name becomes a left-associative member-access chain.

use vstd::prelude::*;
use vstd::string::StringExecFns;
use crate::ast::{Declarator, Decl, Expr, ImportEqualsDecl, Span, TsModuleReference, TsTypeName,
    VarDecl, VarKind};
use crate::model::{SpecDecl, SpecDeclarator, SpecExpr, SpecImportEqualsDecl, SpecTsModuleReference,
    SpecTsTypeName, SpecVarDecl, lemma_view_declarators_index, view_decl, view_expr,
    view_import_equals, view_type_name};
use crate::transformer::TypeScript;

verus! {

/// A bare name lowers to an identifier reference; `A.B` lowers to
/// `lower(A).B`, keeping the original left-to-right chain.
pub open spec fn spec_lower_type_name(t: SpecTsTypeName) -> SpecExpr
    decreases t,
{
    match t {
        SpecTsTypeName::Ident(name) => SpecExpr::Ident(name),
        SpecTsTypeName::Qualified(left, right) => SpecExpr::StaticMember(
            Box::new(spec_lower_type_name(*left)),
            right,
        ),
    }
}

/// `require("source")`
pub open spec fn spec_require_call(source: Seq<char>) -> SpecExpr {
    SpecExpr::Call(
        Box::new(SpecExpr::Ident("require"@)),
        Box::new(SpecExpr::StringLiteral(source)),
    )
}

/// The initializer of the synthesized `var`: the lowered type name, or the
/// `require` call for an external module reference.
pub open spec fn spec_import_equals_init(r: SpecTsModuleReference) -> SpecExpr {
    match r {
        SpecTsModuleReference::TypeName(t) => spec_lower_type_name(t),
        SpecTsModuleReference::External(source) => spec_require_call(source),
    }
}

/// `import X = ...` lowers to `var X = <init>`.
pub open spec fn spec_lower_import_equals(d: SpecImportEqualsDecl) -> SpecDecl {
    SpecDecl::Var(
        SpecVarDecl {
            span: Span { start: 0, end: 0 },
            kind: VarKind::Var,
            declarators: seq![
                SpecDeclarator {
                    name: d.id,
                    init: Option::Some(spec_import_equals_init(d.module_reference)),
                },
            ],
            declare: false,
        },
    )
}

impl TypeScript {
    /// Lowers a possibly qualified type name to an expression.
    pub fn transform_ts_type_name(&self, tname: &TsTypeName) -> (e: Expr)
        ensures
            view_expr(e) == spec_lower_type_name(view_type_name(*tname)),
        decreases *tname,
    {
        match tname {
            TsTypeName::Ident(name) => Expr::Ident(name.clone()),
            TsTypeName::Qualified(left, right) => Expr::StaticMember(
                Box::new(self.transform_ts_type_name(left)),
                right.clone(),
            ),
        }
    }

    /// Lowers a value-kind import-equals declaration to a `var` declaration
    /// binding the same name.
    pub fn transform_ts_import_equals(&self, decl: &ImportEqualsDecl) -> (r: Decl)
        ensures
            view_decl(r) == spec_lower_import_equals(view_import_equals(*decl)),
    {
        let init: Expr = match &decl.module_reference {
            TsModuleReference::TypeName(tname) => self.transform_ts_type_name(tname),
            TsModuleReference::External(source) => Expr::Call(
                Box::new(Expr::Ident(String::from_str("require"))),
                Box::new(Expr::StringLiteral(source.clone())),
            ),
        };
        let mut declarators: Vec<Declarator> = Vec::new();
        declarators.push(Declarator { name: decl.id.clone(), init: Option::Some(init) });
        proof {
            reveal_with_fuel(view_expr, 6);
            assert(view_expr(init) == spec_import_equals_init(
                view_import_equals(*decl).module_reference,
            ));
        }
        let out = Decl::Var(
            VarDecl {
                span: Span::synthetic(),
                kind: VarKind::Var,
                declarators,
                declare: false,
            },
        );
        proof {
            let goal = spec_lower_import_equals(view_import_equals(*decl));
            lemma_view_declarators_index(out->Var_0.declarators@);
            assert(crate::model::view_declarators(out->Var_0.declarators@) =~= seq![
                SpecDeclarator {
                    name: decl.id@,
                    init: Option::Some(spec_import_equals_init(view_import_equals(*decl).module_reference)),
                },
            ]);
            assert(view_decl(out) == goal);
        }
        out
    }
}

} // verus!
