use ts_lower::ast::{
    Decl, EnumDecl, EnumMember, EnumMemberName, Expr, ImportEqualsDecl, ImportOrExportKind,
    ModuleDecl, ExportNamedDecl, Span, Stmt, TsModuleReference, TsTypeName, VarKind,
};
use ts_lower::ident::is_valid_identifier;
use ts_lower::sem::{Reference, Symbol, SymbolTable};
use ts_lower::transformer::TypeScript;

fn fresh(verbatim: bool) -> TypeScript {
    TypeScript::new(SymbolTable { symbols: Vec::new() }, verbatim)
}

fn span0() -> Span {
    Span { start: 0, end: 0 }
}

#[test]
fn valid_identifiers() {
    assert!(is_valid_identifier("foo"));
    assert!(is_valid_identifier("_x1"));
    assert!(is_valid_identifier("$"));
    assert!(!is_valid_identifier(""));
    assert!(!is_valid_identifier("1abc"));
    assert!(!is_valid_identifier("a-b"));
    assert!(!is_valid_identifier("has space"));
}

#[test]
fn symbol_table_queries() {
    let table = SymbolTable {
        symbols: vec![
            Symbol {
                name: String::from("foo"),
                import_binding: true,
                function_scoped: false,
                block_scoped: false,
                references: vec![Reference { is_type: true }],
            },
            Symbol {
                name: String::from("bar"),
                import_binding: true,
                function_scoped: false,
                block_scoped: true,
                references: vec![Reference { is_type: true }, Reference { is_type: false }],
            },
        ],
    };
    let ts = TypeScript::new(table, false);
    assert!(ts.is_import_binding_only(&String::from("foo")));
    assert!(!ts.is_import_binding_only(&String::from("bar")));
    assert!(!ts.is_import_binding_only(&String::from("baz")));
    assert!(!ts.has_value_references(&String::from("foo")));
    assert!(ts.has_value_references(&String::from("bar")));
    assert!(!ts.has_value_references(&String::from("baz")));
}

#[test]
fn import_equals_require() {
    // import Alias = require("pkg")  =>  var Alias = require("pkg")
    let ts = fresh(false);
    let decl = ImportEqualsDecl {
        id: String::from("Alias"),
        import_kind: ImportOrExportKind::Value,
        module_reference: TsModuleReference::External(String::from("pkg")),
    };
    let out = ts.transform_ts_import_equals(&decl);
    match out {
        Decl::Var(v) => {
            assert_eq!(v.kind, VarKind::Var);
            assert!(!v.declare);
            assert_eq!(v.declarators.len(), 1);
            assert_eq!(v.declarators[0].name, "Alias");
            let init = v.declarators[0].init.as_ref().unwrap();
            match init {
                Expr::Call(callee, arg) => {
                    assert_eq!(**callee, Expr::Ident(String::from("require")));
                    assert_eq!(**arg, Expr::StringLiteral(String::from("pkg")));
                }
                other => panic!("expected a require call, got {:?}", other),
            }
        }
        other => panic!("expected a var declaration, got {:?}", other),
    }
}

#[test]
fn import_equals_qualified_name() {
    // import B = A.C.D  =>  var B = A.C.D (left-associative member chain)
    let ts = fresh(false);
    let decl = ImportEqualsDecl {
        id: String::from("B"),
        import_kind: ImportOrExportKind::Value,
        module_reference: TsModuleReference::TypeName(TsTypeName::Qualified(
            Box::new(TsTypeName::Qualified(
                Box::new(TsTypeName::Ident(String::from("A"))),
                String::from("C"),
            )),
            String::from("D"),
        )),
    };
    let out = ts.transform_ts_import_equals(&decl);
    match out {
        Decl::Var(v) => {
            assert_eq!(v.declarators[0].name, "B");
            let expected = Expr::StaticMember(
                Box::new(Expr::StaticMember(
                    Box::new(Expr::Ident(String::from("A"))),
                    String::from("C"),
                )),
                String::from("D"),
            );
            assert_eq!(v.declarators[0].init.as_ref().unwrap(), &expected);
        }
        other => panic!("expected a var declaration, got {:?}", other),
    }
}

fn member(name: &str, init: Option<Expr>) -> EnumMember {
    EnumMember {
        span: Span { start: 0, end: 0 },
        id: EnumMemberName::Ident(String::from(name)),
        initializer: init,
    }
}

fn enum_access(enum_name: &str, member_name: &str) -> Expr {
    Expr::ComputedMember(
        Box::new(Expr::Ident(String::from(enum_name))),
        Box::new(Expr::StringLiteral(String::from(member_name))),
    )
}

#[test]
fn enum_without_initializers() {
    // enum E { A, B, C }: A starts at literal 0, each next default is
    // 1 + previous member's const binding.
    let ts = fresh(false);
    let members = vec![member("A", None), member("B", None), member("C", None)];
    let stmts = ts.transform_ts_enum_members(members, &String::from("E"));
    // const X = v; E[E["X"] = X] = "X"; per member, then return E
    assert_eq!(stmts.len(), 7);
    // const A = 0;
    match &stmts[0] {
        Stmt::Decl(Decl::Var(v)) => {
            assert_eq!(v.kind, VarKind::Const);
            assert_eq!(v.declarators[0].name, "A");
            assert_eq!(v.declarators[0].init, Some(Expr::NumberLiteral(0)));
        }
        other => panic!("expected const A = 0, got {:?}", other),
    }
    // E[E["A"] = A] = "A";
    match &stmts[1] {
        Stmt::Expr(_, Expr::Assign(target, value)) => {
            let inner = Expr::Assign(
                Box::new(enum_access("E", "A")),
                Box::new(Expr::Ident(String::from("A"))),
            );
            assert_eq!(
                **target,
                Expr::ComputedMember(
                    Box::new(Expr::Ident(String::from("E"))),
                    Box::new(inner),
                )
            );
            assert_eq!(**value, Expr::StringLiteral(String::from("A")));
        }
        other => panic!("expected the bidirectional assignment, got {:?}", other),
    }
    // const B = 1 + A;
    match &stmts[2] {
        Stmt::Decl(Decl::Var(v)) => {
            assert_eq!(v.declarators[0].name, "B");
            assert_eq!(
                v.declarators[0].init,
                Some(Expr::Add(
                    Box::new(Expr::NumberLiteral(1)),
                    Box::new(Expr::Ident(String::from("A"))),
                ))
            );
        }
        other => panic!("expected const B, got {:?}", other),
    }
    // const C = 1 + B;
    match &stmts[4] {
        Stmt::Decl(Decl::Var(v)) => {
            assert_eq!(v.declarators[0].name, "C");
            assert_eq!(
                v.declarators[0].init,
                Some(Expr::Add(
                    Box::new(Expr::NumberLiteral(1)),
                    Box::new(Expr::Ident(String::from("B"))),
                ))
            );
        }
        other => panic!("expected const C, got {:?}", other),
    }
    assert_eq!(stmts[6], Stmt::Return(Expr::Ident(String::from("E"))));
}

#[test]
fn enum_string_members_have_no_reverse_map() {
    // enum E { A = "x", B = "y" }: only the forward assignment is emitted.
    let ts = fresh(false);
    let members = vec![
        member("A", Some(Expr::StringLiteral(String::from("x")))),
        member("B", Some(Expr::StringLiteral(String::from("y")))),
    ];
    let stmts = ts.transform_ts_enum_members(members, &String::from("E"));
    assert_eq!(stmts.len(), 5);
    // E["A"] = A  (a single forward assignment, no nesting)
    match &stmts[1] {
        Stmt::Expr(_, Expr::Assign(target, value)) => {
            assert_eq!(**target, enum_access("E", "A"));
            assert_eq!(**value, Expr::Ident(String::from("A")));
        }
        other => panic!("expected a forward-only assignment, got {:?}", other),
    }
    match &stmts[0] {
        Stmt::Decl(Decl::Var(v)) => {
            assert_eq!(v.declarators[0].init, Some(Expr::StringLiteral(String::from("x"))));
        }
        other => panic!("expected const A = \"x\", got {:?}", other),
    }
}

#[test]
fn enum_member_referencing_earlier_member() {
    // enum E { A, B = A + 1 }: A is a const binding usable in B's initializer.
    let ts = fresh(false);
    let members = vec![
        member("A", None),
        member(
            "B",
            Some(Expr::Add(
                Box::new(Expr::Ident(String::from("A"))),
                Box::new(Expr::NumberLiteral(1)),
            )),
        ),
    ];
    let stmts = ts.transform_ts_enum_members(members, &String::from("E"));
    assert_eq!(stmts.len(), 5);
    match &stmts[0] {
        Stmt::Decl(Decl::Var(v)) => {
            assert_eq!(v.declarators[0].name, "A");
            assert_eq!(v.declarators[0].init, Some(Expr::NumberLiteral(0)));
        }
        other => panic!("expected const A = 0, got {:?}", other),
    }
    match &stmts[2] {
        Stmt::Decl(Decl::Var(v)) => {
            assert_eq!(v.declarators[0].name, "B");
            // const B = A + 1, referencing the earlier binding by bare name
            assert_eq!(
                v.declarators[0].init,
                Some(Expr::Add(
                    Box::new(Expr::Ident(String::from("A"))),
                    Box::new(Expr::NumberLiteral(1)),
                ))
            );
        }
        other => panic!("expected const B = A + 1, got {:?}", other),
    }
}

#[test]
fn ambient_enum_yields_no_replacement() {
    let ts = fresh(false);
    let decl = EnumDecl {
        span: span0(),
        name: String::from("E"),
        declare: true,
        members: vec![member("A", None)],
    };
    assert!(ts.transform_ts_enum(decl).is_none());
}

#[test]
fn enum_lowers_to_iife_var() {
    let ts = fresh(false);
    let decl = EnumDecl {
        span: Span { start: 3, end: 17 },
        name: String::from("Foo"),
        declare: false,
        members: vec![member("X", None)],
    };
    let out = ts.transform_ts_enum(decl).unwrap();
    match out {
        Decl::Var(v) => {
            assert_eq!(v.kind, VarKind::Var);
            assert_eq!(v.span, Span { start: 3, end: 17 });
            assert_eq!(v.declarators[0].name, "Foo");
            match v.declarators[0].init.as_ref().unwrap() {
                Expr::Call(callee, arg) => {
                    match &**callee {
                        Expr::Arrow(param, body) => {
                            assert_eq!(param, "Foo");
                            assert_eq!(body.len(), 3);
                        }
                        other => panic!("expected an arrow callee, got {:?}", other),
                    }
                    assert_eq!(
                        **arg,
                        Expr::LogicalOr(
                            Box::new(Expr::Ident(String::from("Foo"))),
                            Box::new(Expr::EmptyObject),
                        )
                    );
                }
                other => panic!("expected an IIFE, got {:?}", other),
            }
        }
        other => panic!("expected a var declaration, got {:?}", other),
    }
}

fn exported_enum(name: &str) -> Stmt {
    Stmt::Module(ModuleDecl::ExportNamed(ExportNamedDecl {
        declaration: Some(Decl::Enum(EnumDecl {
            span: Span { start: 0, end: 0 },
            name: String::from(name),
            declare: false,
            members: Vec::new(),
        })),
        specifiers: Vec::new(),
        source: None,
        export_kind: ImportOrExportKind::Value,
    }))
}

#[test]
fn merged_export_keeps_only_first() {
    // export enum Foo {} / export enum Foo {}: the second loses `export`.
    let mut ts = fresh(false);
    let mut first = exported_enum("Foo");
    let mut second = exported_enum("Foo");
    ts.transform_statement(&mut first);
    assert_eq!(first, exported_enum("Foo"));
    ts.transform_statement(&mut second);
    match second {
        Stmt::Decl(Decl::Enum(e)) => assert_eq!(e.name, "Foo"),
        other => panic!("expected the bare enum declaration, got {:?}", other),
    }
    // a different name is unaffected
    let mut third = exported_enum("Bar");
    ts.transform_statement(&mut third);
    assert_eq!(third, exported_enum("Bar"));
}

#[test]
fn transform_declaration_dispatch() {
    let mut ts = fresh(false);
    // a value import-equals is replaced by a var declaration
    let mut d = Decl::ImportEquals(ImportEqualsDecl {
        id: String::from("X"),
        import_kind: ImportOrExportKind::Value,
        module_reference: TsModuleReference::External(String::from("m")),
    });
    ts.transform_declaration(&mut d);
    assert!(matches!(d, Decl::Var(_)));
    // a type import-equals is left alone
    let mut t = Decl::ImportEquals(ImportEqualsDecl {
        id: String::from("X"),
        import_kind: ImportOrExportKind::Type,
        module_reference: TsModuleReference::External(String::from("m")),
    });
    ts.transform_declaration(&mut t);
    assert!(matches!(t, Decl::ImportEquals(_)));
    // an ambient enum is left alone
    let mut a = Decl::Enum(EnumDecl {
        span: span0(),
        name: String::from("E"),
        declare: true,
        members: Vec::new(),
    });
    ts.transform_declaration(&mut a);
    assert!(matches!(a, Decl::Enum(_)));
}

use ts_lower::ast::{
    ExportAllDecl, ImportDecl, ImportSpecifier, NamedImportSpecifier, Program,
};

fn named_import(source: &str, local: &str, spec_kind: ImportOrExportKind, decl_kind: ImportOrExportKind) -> Stmt {
    Stmt::Module(ModuleDecl::Import(ImportDecl {
        specifiers: Some(vec![ImportSpecifier::Named(NamedImportSpecifier {
            imported: String::from(local),
            local: String::from(local),
            import_kind: spec_kind,
        })]),
        source: String::from(source),
        import_kind: decl_kind,
    }))
}

fn export_all(source: &str) -> Stmt {
    Stmt::Module(ModuleDecl::ExportAll(ExportAllDecl {
        exported: None,
        source: String::from(source),
        export_kind: ImportOrExportKind::Value,
    }))
}

fn esm_marker() -> Stmt {
    Stmt::Module(ModuleDecl::ExportNamed(ExportNamedDecl {
        declaration: None,
        specifiers: Vec::new(),
        source: None,
        export_kind: ImportOrExportKind::Value,
    }))
}

fn symbol(name: &str, refs: Vec<Reference>) -> Symbol {
    Symbol {
        name: String::from(name),
        import_binding: true,
        function_scoped: false,
        block_scoped: false,
        references: refs,
    }
}

#[test]
fn type_only_import_removed_entirely() {
    // import type { T } from "m" produces zero import statements, regardless
    // of T being referenced as a type.
    let ts = TypeScript::new(
        SymbolTable { symbols: vec![symbol("T", vec![Reference { is_type: true }])] },
        false,
    );
    let mut program = Program {
        body: vec![
            named_import("m", "T", ImportOrExportKind::Value, ImportOrExportKind::Type),
            export_all("n"),
            Stmt::Opaque(7),
        ],
    };
    ts.transform_program(&mut program);
    assert_eq!(program.body, vec![export_all("n"), Stmt::Opaque(7)]);
}

#[test]
fn value_referenced_import_is_kept() {
    // import { f } from "m"; f();  keeps the specifier for f.
    let ts = TypeScript::new(
        SymbolTable { symbols: vec![symbol("f", vec![Reference { is_type: false }])] },
        false,
    );
    let imp = || named_import("m", "f", ImportOrExportKind::Value, ImportOrExportKind::Value);
    let mut program = Program { body: vec![imp(), Stmt::Opaque(1)] };
    ts.transform_program(&mut program);
    assert_eq!(program.body, vec![imp(), Stmt::Opaque(1)]);
}

#[test]
fn unreferenced_import_is_removed() {
    // import { f } from "m" with no references and verbatim-module-syntax
    // disabled: the specifier goes, and with it the whole import.
    let ts = TypeScript::new(
        SymbolTable { symbols: vec![symbol("f", Vec::new())] },
        false,
    );
    let mut program = Program {
        body: vec![
            named_import("m", "f", ImportOrExportKind::Value, ImportOrExportKind::Value),
            export_all("n"),
        ],
    };
    ts.transform_program(&mut program);
    assert_eq!(program.body, vec![export_all("n")]);
}

#[test]
fn unreferenced_import_kept_under_verbatim_module_syntax() {
    let ts = TypeScript::new(
        SymbolTable { symbols: vec![symbol("f", Vec::new())] },
        true,
    );
    let imp = || named_import("m", "f", ImportOrExportKind::Value, ImportOrExportKind::Value);
    let mut program = Program { body: vec![imp()] };
    ts.transform_program(&mut program);
    assert_eq!(program.body, vec![imp()]);
}

#[test]
fn fully_elided_module_keeps_exactly_the_esm_marker() {
    // A file of only elidable import statements ends as exactly `export {}`.
    let ts = TypeScript::new(
        SymbolTable { symbols: vec![symbol("g", Vec::new())] },
        false,
    );
    let mut program = Program {
        body: vec![
            named_import("m", "T", ImportOrExportKind::Value, ImportOrExportKind::Type),
            named_import("n", "g", ImportOrExportKind::Value, ImportOrExportKind::Value),
        ],
    };
    ts.transform_program(&mut program);
    assert_eq!(program.body, vec![esm_marker()]);
}

#[test]
fn reserved_words_are_not_identifiers() {
    assert!(!is_valid_identifier("while"));
    assert!(!is_valid_identifier("let"));
    assert!(!is_valid_identifier("null"));
    assert!(!is_valid_identifier("yield"));
    // identifier validity is case-sensitive
    assert!(is_valid_identifier("While"));
    assert!(is_valid_identifier("lets"));
}

#[test]
fn enum_member_named_by_reserved_word_gets_no_const_binding() {
    // enum E { while, B }: "while" cannot be a binding name, so only the
    // bracketed form is emitted and B's default reads E["while"].
    let ts = fresh(false);
    let members = vec![member("while", None), member("B", None)];
    let stmts = ts.transform_ts_enum_members(members, &String::from("E"));
    assert_eq!(stmts.len(), 4);
    match &stmts[0] {
        Stmt::Expr(_, Expr::Assign(target, value)) => {
            let inner = Expr::Assign(
                Box::new(enum_access("E", "while")),
                Box::new(Expr::NumberLiteral(0)),
            );
            assert_eq!(
                **target,
                Expr::ComputedMember(Box::new(Expr::Ident(String::from("E"))), Box::new(inner)),
            );
            assert_eq!(**value, Expr::StringLiteral(String::from("while")));
        }
        other => panic!("expected the bidirectional assignment, got {:?}", other),
    }
    match &stmts[1] {
        Stmt::Decl(Decl::Var(v)) => {
            assert_eq!(v.declarators[0].name, "B");
            assert_eq!(
                v.declarators[0].init,
                Some(Expr::Add(
                    Box::new(Expr::NumberLiteral(1)),
                    Box::new(enum_access("E", "while")),
                ))
            );
        }
        other => panic!("expected const B, got {:?}", other),
    }
}
