//! Lowering of a non-ambient enum declaration to
//! `var Name = ((Name) => { ...members...; return Name; })(Name || {})`.
//!
//! Members are lowered in source order, threading one running default
//! initializer that starts as the literal `0` and after each member becomes
//! `1 + <self-reference>`.

use vstd::prelude::*;
use vstd::pervasive::VecAdditionalExecFns;
use crate::ast::{Decl, Declarator, EnumDecl, EnumMember, EnumMemberName, Expr, Span, Stmt,
    VarDecl, VarKind};
use crate::ident::{is_valid_identifier, is_valid_identifier_seq};
use crate::model::{SpecDecl, SpecDeclarator, SpecEnumDecl, SpecEnumMember, SpecEnumMemberName,
    SpecExpr, SpecStmt, SpecVarDecl, lemma_view_declarators_index, lemma_view_stmts_push,
    view_decl, view_enum_decl, view_enum_member, view_enum_members, view_expr, view_stmt,
    view_stmts};
use crate::transformer::TypeScript;

verus! {

/// An enum member's key is an identifier or a string literal; the computed
/// and numeric forms cannot occur after upstream parsing.
pub open spec fn member_name_ok(id: SpecEnumMemberName) -> bool {
    match id {
        SpecEnumMemberName::Ident(_) => true,
        SpecEnumMemberName::Str(_) => true,
        SpecEnumMemberName::Computed(_) => false,
        SpecEnumMemberName::Num(_) => false,
    }
}

/// The member's display name.
pub open spec fn spec_member_name(id: SpecEnumMemberName) -> Seq<char> {
    match id {
        SpecEnumMemberName::Ident(s) => s,
        SpecEnumMemberName::Str(s) => s,
        SpecEnumMemberName::Computed(_) => Seq::empty(),
        SpecEnumMemberName::Num(_) => Seq::empty(),
    }
}

/// Every member's key has a usable display name.
pub open spec fn wf_members(ms: Seq<SpecEnumMember>) -> bool {
    forall|i: int| 0 <= i < ms.len() ==> member_name_ok(ms[i].id)
}

/// The starting running default initializer: the literal `0`.
pub open spec fn spec_zero() -> SpecExpr {
    SpecExpr::NumberLiteral(0)
}

/// The member's value expression: its own initializer if present, otherwise
/// the running default.
pub open spec fn spec_member_value(m: SpecEnumMember, default_init: SpecExpr) -> SpecExpr {
    match m.initializer {
        Option::Some(e) => e,
        Option::None => default_init,
    }
}

/// `Name["member"]`
pub open spec fn spec_enum_access(enum_name: Seq<char>, name: Seq<char>) -> SpecExpr {
    SpecExpr::ComputedMember(
        Box::new(SpecExpr::Ident(enum_name)),
        Box::new(SpecExpr::StringLiteral(name)),
    )
}

/// The expression later members use to read this member's value back: the
/// bare identifier when the name is identifier-valid, else `Name["member"]`.
pub open spec fn spec_self_ref(enum_name: Seq<char>, name: Seq<char>) -> SpecExpr {
    if is_valid_identifier_seq(name) {
        SpecExpr::Ident(name)
    } else {
        spec_enum_access(enum_name, name)
    }
}

/// `const <name> = <value>;`
pub open spec fn spec_const_binding(name: Seq<char>, value: SpecExpr) -> SpecStmt {
    SpecStmt::Decl(
        SpecDecl::Var(
            SpecVarDecl {
                span: Span { start: 0, end: 0 },
                kind: VarKind::Const,
                declarators: seq![SpecDeclarator { name, init: Option::Some(value) }],
                declare: false,
            },
        ),
    )
}

/// `Name["member"] = value` for a string-valued member, otherwise the
/// bidirectional `Name[Name["member"] = value] = "member"`.
pub open spec fn spec_member_assignment(
    enum_name: Seq<char>,
    name: Seq<char>,
    value: SpecExpr,
    is_str: bool,
) -> SpecExpr {
    let forward = SpecExpr::Assign(Box::new(spec_enum_access(enum_name, name)), Box::new(value));
    if is_str {
        forward
    } else {
        SpecExpr::Assign(
            Box::new(
                SpecExpr::ComputedMember(Box::new(SpecExpr::Ident(enum_name)), Box::new(forward)),
            ),
            Box::new(SpecExpr::StringLiteral(name)),
        )
    }
}

/// The one or two statements a member lowers to: a `const` binding when the
/// name is identifier-valid (so later members can reference it by bare name),
/// then the assignment statement carrying the member's span.
pub open spec fn spec_member_stmts(
    m: SpecEnumMember,
    enum_name: Seq<char>,
    default_init: SpecExpr,
) -> Seq<SpecStmt> {
    let name = spec_member_name(m.id);
    let value0 = spec_member_value(m, default_init);
    let is_str = value0 is StringLiteral;
    if is_valid_identifier_seq(name) {
        seq![
            spec_const_binding(name, value0),
            SpecStmt::Expr(
                m.span,
                spec_member_assignment(enum_name, name, SpecExpr::Ident(name), is_str),
            ),
        ]
    } else {
        seq![
            SpecStmt::Expr(m.span, spec_member_assignment(enum_name, name, value0, is_str)),
        ]
    }
}

/// The running default after a member: `1 + <self-reference>`.
pub open spec fn spec_next_default(m: SpecEnumMember, enum_name: Seq<char>) -> SpecExpr {
    SpecExpr::Add(
        Box::new(SpecExpr::NumberLiteral(1)),
        Box::new(spec_self_ref(enum_name, spec_member_name(m.id))),
    )
}

/// The whole lowered body: each member's statements in source order, then
/// `return Name;`.
pub open spec fn spec_lower_members(
    ms: Seq<SpecEnumMember>,
    enum_name: Seq<char>,
    default_init: SpecExpr,
) -> Seq<SpecStmt>
    decreases ms,
{
    if ms.len() == 0 {
        seq![SpecStmt::Return(SpecExpr::Ident(enum_name))]
    } else {
        spec_member_stmts(ms[0], enum_name, default_init) + spec_lower_members(
            ms.subrange(1, ms.len() as int),
            enum_name,
            spec_next_default(ms[0], enum_name),
        )
    }
}

/// `((Name) => { ...body... })(Name || {})`
pub open spec fn spec_enum_iife(e: SpecEnumDecl) -> SpecExpr {
    SpecExpr::Call(
        Box::new(SpecExpr::Arrow(e.name, spec_lower_members(e.members, e.name, spec_zero()))),
        Box::new(
            SpecExpr::LogicalOr(Box::new(SpecExpr::Ident(e.name)), Box::new(SpecExpr::EmptyObject)),
        ),
    )
}

/// `var Name = <iife>;`, keeping the enum declaration's span.
pub open spec fn spec_lower_enum(e: SpecEnumDecl) -> SpecDecl {
    SpecDecl::Var(
        SpecVarDecl {
            span: e.span,
            kind: VarKind::Var,
            declarators: seq![
                SpecDeclarator { name: e.name, init: Option::Some(spec_enum_iife(e)) },
            ],
            declare: false,
        },
    )
}

impl TypeScript {
    /// Pushes `const <name> = <value>;` onto the body.
    fn push_const_binding(&self, member_name: &String, value0: Expr, statements: &mut Vec<Stmt>)
        ensures
            view_stmts(final(statements)@) == view_stmts(old(statements)@).push(
                spec_const_binding(member_name@, view_expr(value0)),
            ),
    {
        let ghost v0 = view_expr(value0);
        let mut decls: Vec<Declarator> = Vec::new();
        decls.push(Declarator { name: member_name.clone(), init: Option::Some(value0) });
        let const_stmt = Stmt::Decl(
            Decl::Var(
                VarDecl {
                    span: Span::synthetic(),
                    kind: VarKind::Const,
                    declarators: decls,
                    declare: false,
                },
            ),
        );
        proof {
            lemma_view_declarators_index(const_stmt->Decl_0->Var_0.declarators@);
            assert(crate::model::view_declarators(const_stmt->Decl_0->Var_0.declarators@) =~= seq![
                SpecDeclarator { name: member_name@, init: Option::Some(v0) },
            ]);
            assert(view_stmt(const_stmt) == spec_const_binding(member_name@, v0));
            lemma_view_stmts_push(statements@, const_stmt);
        }
        statements.push(const_stmt);
    }

    /// Builds the member's assignment statement.
    fn make_assignment(
        &self,
        enum_name: &String,
        member_name: &String,
        value: Expr,
        is_str: bool,
        span: Span,
    ) -> (s: Stmt)
        ensures
            view_stmt(s) == SpecStmt::Expr(
                span,
                spec_member_assignment(enum_name@, member_name@, view_expr(value), is_str),
            ),
    {
        let ghost av = view_expr(value);
        let forward = Expr::Assign(
            Box::new(
                Expr::ComputedMember(
                    Box::new(Expr::Ident(enum_name.clone())),
                    Box::new(Expr::StringLiteral(member_name.clone())),
                ),
            ),
            Box::new(value),
        );
        proof {
            reveal_with_fuel(view_expr, 6);
            assert(view_expr(forward) == SpecExpr::Assign(
                Box::new(spec_enum_access(enum_name@, member_name@)),
                Box::new(av),
            ));
        }
        let full: Expr = if is_str {
            forward
        } else {
            Expr::Assign(
                Box::new(
                    Expr::ComputedMember(
                        Box::new(Expr::Ident(enum_name.clone())),
                        Box::new(forward),
                    ),
                ),
                Box::new(Expr::StringLiteral(member_name.clone())),
            )
        };
        proof {
            reveal_with_fuel(view_expr, 6);
            assert(view_expr(full) == spec_member_assignment(enum_name@, member_name@, av, is_str));
        }
        Stmt::Expr(span, full)
    }

    /// Builds the next running default, `1 + <self-reference>`.
    fn make_next_default(&self, enum_name: &String, member_name: String, valid: bool) -> (e: Expr)
        requires
            valid == is_valid_identifier_seq(member_name@),
        ensures
            view_expr(e) == SpecExpr::Add(
                Box::new(SpecExpr::NumberLiteral(1)),
                Box::new(spec_self_ref(enum_name@, member_name@)),
            ),
    {
        let self_ref: Expr = if valid {
            Expr::Ident(member_name)
        } else {
            Expr::ComputedMember(
                Box::new(Expr::Ident(enum_name.clone())),
                Box::new(Expr::StringLiteral(member_name)),
            )
        };
        let next = Expr::Add(Box::new(Expr::NumberLiteral(1)), Box::new(self_ref));
        proof {
            reveal_with_fuel(view_expr, 4);
            assert(view_expr(next) == SpecExpr::Add(
                Box::new(SpecExpr::NumberLiteral(1)),
                Box::new(spec_self_ref(enum_name@, member_name@)),
            ));
        }
        next
    }

    /// Lowers one member: appends its one or two statements and returns the
    /// next running default initializer.
    fn lower_member(
        &self,
        member: EnumMember,
        enum_name: &String,
        default_init: Expr,
        statements: &mut Vec<Stmt>,
    ) -> (next: Expr)
        requires
            member_name_ok(view_enum_member(member).id),
        ensures
            view_stmts(final(statements)@) == view_stmts(old(statements)@) + spec_member_stmts(
                view_enum_member(member),
                enum_name@,
                view_expr(default_init),
            ),
            view_expr(next) == spec_next_default(view_enum_member(member), enum_name@),
    {
        let ghost m = view_enum_member(member);
        let ghost d0 = view_expr(default_init);
        let ghost sts0 = view_stmts(old(statements)@);
        let ghost name = spec_member_name(m.id);
        let EnumMember { span: member_span, id, initializer } = member;
        let member_name: String = match id {
            EnumMemberName::Ident(s) => s,
            EnumMemberName::Str(s) => s,
            EnumMemberName::Computed(_) => {
                proof {
                    assert(false);
                }
                String::new()
            },
            EnumMemberName::Num(_) => {
                proof {
                    assert(false);
                }
                String::new()
            },
        };
        proof {
            assert(member_name@ == name);
        }
        let value0: Expr = match initializer {
            Option::Some(e) => e,
            Option::None => default_init,
        };
        let ghost v0 = spec_member_value(m, d0);
        proof {
            assert(view_expr(value0) == v0);
        }
        let is_str: bool = matches!(value0, Expr::StringLiteral(_));
        proof {
            assert(is_str == (v0 is StringLiteral));
        }
        let valid: bool = is_valid_identifier(member_name.as_str());

        let assigned_value: Expr;
        if valid {
            // The assignment references the fresh `const` binding by name.
            self.push_const_binding(&member_name, value0, statements);
            assigned_value = Expr::Ident(member_name.clone());
        } else {
            assigned_value = value0;
        }
        let ghost av = if is_valid_identifier_seq(name) {
            SpecExpr::Ident(name)
        } else {
            v0
        };
        proof {
            assert(view_expr(assigned_value) == av);
        }
        let assign_stmt = self.make_assignment(
            enum_name,
            &member_name,
            assigned_value,
            is_str,
            member_span,
        );
        proof {
            lemma_view_stmts_push(statements@, assign_stmt);
        }
        statements.push(assign_stmt);
        proof {
            assert(view_stmts(statements@) =~= sts0 + spec_member_stmts(m, enum_name@, d0));
        }
        let next = self.make_next_default(enum_name, member_name, valid);
        proof {
            assert(view_expr(next) == spec_next_default(m, enum_name@));
        }
        next
    }

    /// Lowers the members of an enum to the statements of the IIFE body.
    pub fn transform_ts_enum_members(&self, members: Vec<EnumMember>, enum_name: &String) -> (r:
        Vec<Stmt>)
        requires
            wf_members(view_enum_members(members@)),
        ensures
            view_stmts(r@) == spec_lower_members(
                view_enum_members(members@),
                enum_name@,
                spec_zero(),
            ),
    {
        let ghost morig: Seq<EnumMember> = members@;
        let ghost vms: Seq<SpecEnumMember> = view_enum_members(members@);
        let ghost total: Seq<SpecStmt> = spec_lower_members(vms, enum_name@, spec_zero());
        proof {
            crate::model::lemma_view_enum_members_index(morig);
            assert(vms.subrange(0, morig.len() as int) =~= vms);
        }
        let mut members = members;
        let mut default_init: Expr = Expr::NumberLiteral(0);
        let mut statements: Vec<Stmt> = Vec::new();
        let n: usize = members.len();
        let mut idx: usize = 0;
        while idx < n
            invariant
                0 <= idx <= n,
                n == members@.len(),
                n == morig.len(),
                vms.len() == n,
                forall|j: int| 0 <= j < n ==> vms[j] == view_enum_member(morig[j]),
                wf_members(vms),
                forall|j: int| idx <= j < n ==> members@[j] == morig[j],
                total == spec_lower_members(vms, enum_name@, spec_zero()),
                view_stmts(statements@) + spec_lower_members(
                    vms.subrange(idx as int, n as int),
                    enum_name@,
                    view_expr(default_init),
                ) == total,
            decreases n - idx,
        {
            let ghost rem = vms.subrange(idx as int, n as int);
            let ghost d0 = view_expr(default_init);
            let ghost sts0 = view_stmts(statements@);
            let mut member: EnumMember = EnumMember {
                span: Span::synthetic(),
                id: EnumMemberName::Computed(0),
                initializer: Option::None,
            };
            members.set_and_swap(idx, &mut member);
            proof {
                assert(member == morig[idx as int]);
                assert(rem[0] == vms[idx as int]);
                assert(view_enum_member(member) == rem[0]);
                assert(member_name_ok(view_enum_member(member).id));
            }
            let ghost m = view_enum_member(member);
            let next = self.lower_member(member, enum_name, default_init, &mut statements);
            default_init = next;
            proof {
                assert(rem.subrange(1, rem.len() as int) =~= vms.subrange(
                    idx + 1,
                    n as int,
                ));
                assert(spec_lower_members(rem, enum_name@, d0) == spec_member_stmts(
                    m,
                    enum_name@,
                    d0,
                ) + spec_lower_members(
                    vms.subrange(idx + 1, n as int),
                    enum_name@,
                    spec_next_default(m, enum_name@),
                ));
                assert(view_stmts(statements@) + spec_lower_members(
                    vms.subrange(idx + 1, n as int),
                    enum_name@,
                    view_expr(default_init),
                ) =~= total);
            }
            idx = idx + 1;
        }
        let return_stmt = Stmt::Return(Expr::Ident(enum_name.clone()));
        proof {
            lemma_view_stmts_push(statements@, return_stmt);
            assert(vms.subrange(n as int, n as int) =~= Seq::<SpecEnumMember>::empty());
        }
        statements.push(return_stmt);
        proof {
            assert(view_stmts(statements@) =~= total);
        }
        statements
    }

    /// Lowers a non-ambient enum declaration to the IIFE-producing `var`
    /// declaration; an ambient (`declare`) enum yields no replacement.
    pub fn transform_ts_enum(&self, decl: EnumDecl) -> (r: Option<Decl>)
        requires
            wf_members(view_enum_members(decl.members@)),
        ensures
            view_enum_decl(decl).declare ==> r is None,
            !view_enum_decl(decl).declare ==> r is Some && view_decl(r->0) == spec_lower_enum(
                view_enum_decl(decl),
            ),
    {
        let ghost e: SpecEnumDecl = view_enum_decl(decl);
        if decl.declare {
            return Option::None;
        }
        let EnumDecl { span, name, declare: _, members } = decl;
        let statements: Vec<Stmt> = self.transform_ts_enum_members(members, &name);
        let callee = Expr::Arrow(name.clone(), statements);
        let argument = Expr::LogicalOr(
            Box::new(Expr::Ident(name.clone())),
            Box::new(Expr::EmptyObject),
        );
        let call = Expr::Call(Box::new(callee), Box::new(argument));
        let mut declarators: Vec<Declarator> = Vec::new();
        declarators.push(Declarator { name: name.clone(), init: Option::Some(call) });
        let out = Decl::Var(
            VarDecl { span, kind: VarKind::Var, declarators, declare: false },
        );
        proof {
            reveal_with_fuel(view_expr, 6);
            lemma_view_declarators_index(out->Var_0.declarators@);
            assert(view_expr(call) == spec_enum_iife(e));
            assert(crate::model::view_declarators(out->Var_0.declarators@) =~= seq![
                SpecDeclarator { name: e.name, init: Option::Some(spec_enum_iife(e)) },
            ]);
            assert(view_decl(out) == spec_lower_enum(e));
        }
        Option::Some(out)
    }
}

} // verus!
