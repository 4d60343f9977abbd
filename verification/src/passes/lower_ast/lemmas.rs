//! What holds of every lowered tree: a location is named by the id of an
//! item that was declared before the place where it is used.

use vstd::prelude::*;
use crate::ast::{
    AstView, BlockStatementView, DeclarationView, ExpressionNodeView, ExpressionView,
    ExternalDeclarationNodeView, ExternalDeclarationView, FunctionParamNodeView, Span,
    StatementNodeView, StatementView, SwitchCaseView, UnaryOperator, VariableDeclarationView,
};
use crate::diagnostic::Outcome;
use crate::ir::ctype::CType;
use crate::ir::expr::{ExprNodeView, ExprView, LvalueExprNodeView, LvalueExprView};
use crate::ir::stmt::{CaseView, RootView, StmtNodeView, StmtView};
use crate::ir::table::{Item, ItemId};
use crate::passes::lower_ast::expr::{
    Vars, lowered_args, lowered_expr, lowered_lvalue, passed_args, passed_type,
};
use crate::passes::lower_ast::symbol_table::{lemma_bound_is_listed, lemma_resolves_is_item};
use crate::passes::lower_ast::util::{FunctionScopeView, cast_to};
use crate::passes::lower_ast::{
    Step, body_scope, declared_item, declared_location, initialized_target, lowered_ast,
    lowered_cases, lowered_condition, lowered_control, lowered_declaration, lowered_external,
    lowered_globals, lowered_label, lowered_optional, lowered_optional_condition, lowered_params,
    lowered_scope, lowered_statement, lowered_statements,
};
use crate::settings::Settings;

verus! {

/// Every location that the expression names by id has an id below `n`.
pub open spec fn expr_ids_below(e: ExprNodeView, n: nat) -> bool
    decreases e, 1nat,
{
    match e.expr {
        ExprView::LvalueDeref(l) => lvalue_ids_below(*l, n),
        ExprView::Constant(_) => true,
        ExprView::Cast(x) => expr_ids_below(*x, n),
        ExprView::Binary(l, _, r) => expr_ids_below(*l, n) && expr_ids_below(*r, n),
        ExprView::Unary(_, x) => expr_ids_below(*x, n),
        ExprView::Reference(l) => lvalue_ids_below(*l, n),
        ExprView::Assign(l, x) => lvalue_ids_below(*l, n) && expr_ids_below(*x, n),
        ExprView::Printf(args) => all_ids_below(args, n),
    }
}

/// Every location that the location names by id has an id below `n`.
pub open spec fn lvalue_ids_below(l: LvalueExprNodeView, n: nat) -> bool
    decreases l, 1nat,
{
    match l.expr {
        LvalueExprView::Ident(id) => id < n,
        LvalueExprView::Dereference(x) => expr_ids_below(*x, n),
    }
}

/// Each of the expressions names locations with ids below `n` only.
pub open spec fn all_ids_below(args: Seq<ExprNodeView>, n: nat) -> bool
    decreases args, 0nat,
{
    forall|i: int| 0 <= i < args.len() ==> expr_ids_below(#[trigger] args[i], n)
}

/// A cast names the locations that its operand names.
pub proof fn lemma_cast_ids(x: ExprNodeView, ty: CType, n: nat)
    ensures
        expr_ids_below(cast_to(x, ty), n) == expr_ids_below(x, n),
{
}

/// A lowered location names only items that the variables hold.
pub proof fn lemma_lowered_lvalue_ids(e: ExpressionNodeView, vars: Vars, settings: Settings)
    requires
        vars.wf(),
    ensures
        lowered_lvalue(e, vars, settings).value matches Some(l) ==> lvalue_ids_below(
            l,
            vars.items.len(),
        ),
    decreases e, 0nat,
{
    match e.data {
        ExpressionView::Ident(ident) => {
            lemma_resolves_is_item(vars, ident.data);
        },
        ExpressionView::Unary(op, x) => {
            if op.data is Star {
                lemma_lowered_expr_ids(*x, vars, settings);
            }
        },
        _ => {},
    }
}

/// Lowered arguments name only items that the variables hold.
pub proof fn lemma_lowered_args_ids(
    args: Seq<ExpressionNodeView>,
    n: nat,
    vars: Vars,
    settings: Settings,
)
    requires
        vars.wf(),
    ensures
        lowered_args(args, n, vars, settings).value matches Some(lowered) ==> all_ids_below(
            lowered,
            vars.items.len(),
        ),
    decreases args, n,
{
    if n == 0 || n > args.len() {
    } else {
        lemma_lowered_args_ids(args, (n - 1) as nat, vars, settings);
        lemma_lowered_expr_ids(args[n - 1], vars, settings);
    }
}

/// A lowered expression names only items that the variables hold: every
/// identifier in it resolved to an item declared before.
pub proof fn lemma_lowered_expr_ids(e: ExpressionNodeView, vars: Vars, settings: Settings)
    requires
        vars.wf(),
    ensures
        lowered_expr(e, vars, settings).value matches Some(x) ==> expr_ids_below(
            x,
            vars.items.len(),
        ),
    decreases e, 1nat,
{
    let n = vars.items.len();
    assert forall|x: ExprNodeView, ty: CType| expr_ids_below(#[trigger] cast_to(x, ty), n)
        == expr_ids_below(x, n) by {
        lemma_cast_ids(x, ty, n);
    }
    match e.data {
        ExpressionView::Literal(_) => {},
        ExpressionView::Ident(_) => {
            lemma_lowered_lvalue_ids(e, vars, settings);
        },
        ExpressionView::Assignment(l, _, r) => {
            lemma_lowered_lvalue_ids(*l, vars, settings);
            lemma_lowered_expr_ids(*r, vars, settings);
        },
        ExpressionView::Binary(l, _, r) => {
            lemma_lowered_expr_ids(*l, vars, settings);
            lemma_lowered_expr_ids(*r, vars, settings);
        },
        ExpressionView::Unary(op, x) => {
            match op.data {
                UnaryOperator::Star => {
                    lemma_lowered_lvalue_ids(e, vars, settings);
                },
                UnaryOperator::Ampersand => {
                    lemma_lowered_lvalue_ids(*x, vars, settings);
                },
                _ => {
                    lemma_lowered_expr_ids(*x, vars, settings);
                },
            }
        },
        ExpressionView::Cast(_, x) => {
            lemma_lowered_expr_ids(*x, vars, settings);
        },
        ExpressionView::ArraySubscript(_, _) => {},
        ExpressionView::FunctionCall(call) => {
            lemma_lowered_args_ids(call.args, call.args.len(), vars, settings);
            match lowered_args(call.args, call.args.len(), vars, settings).value {
                Some(lowered) => {
                    let passed = passed_args(lowered, settings);
                    assert forall|i: int| 0 <= i < passed.len() implies expr_ids_below(
                        #[trigger] passed[i],
                        vars.items.len(),
                    ) by {
                        assert(expr_ids_below(lowered[i], vars.items.len()));
                    }
                    assert(all_ids_below(passed, n));
                },
                None => {},
            }
        },
    }
}

/// Self-reference: the initializer of a declaration is lowered under the
/// variables as they are before the declaration. Whatever it names was
/// declared earlier, while the declared variable gets the next id; in the
/// initializing assignment the target is the new item and the value names
/// older items only.
pub proof fn lemma_initializer_resolves_outside(
    v: VariableDeclarationView,
    span: Span,
    vars: Vars,
    settings: Settings,
)
    requires
        vars.wf(),
        v.initializer is Some,
        v.array_parts.len() == 0,
    ensures
        v.initializer matches Some((_, e)) && (lowered_expr(e, vars, settings).value matches Some(
            x,
        ) ==> expr_ids_below(x, vars.items.len())),
        vars.declare_result(v.ident.data) matches Ok(id) ==> id == vars.items.len(),
        lowered_declaration(DeclarationView::Variable(v), span, vars, settings).outcome.value
            matches Some(Some(stmt)) ==> stmt.stmt matches StmtView::Expr(a) && a.expr
            matches ExprView::Assign(to, value) && to.expr == LvalueExprView::Ident(
            vars.items.len() as ItemId,
        ) && expr_ids_below(*value, vars.items.len()),
{
    match v.initializer {
        Some((_, e)) => {
            lemma_lowered_expr_ids(e, vars, settings);
        },
        None => {},
    }
}

/// Default promotion is final: an argument that has the type it is passed as
/// gets no cast, and the type an argument is passed as is passed as itself.
pub proof fn lemma_passed_type_final(x: ExprNodeView, settings: Settings)
    ensures
        passed_type(passed_type(x.ty, settings), settings) == passed_type(x.ty, settings),
        x.ty == passed_type(x.ty, settings) ==> cast_to(x, passed_type(x.ty, settings)) == x,
        x.ty != passed_type(x.ty, settings) ==> cast_to(x, passed_type(x.ty, settings)).expr
            == ExprView::Cast(Box::new(x)),
{
}

// ---------------------------------------------------------------------------
// Every id in a lowered unit is the id of an item of its table
// ---------------------------------------------------------------------------

/// An optional expression names locations with ids below `n` only.
pub open spec fn optional_ids_below(e: Option<ExprNodeView>, n: nat) -> bool {
    match e {
        Some(e) => expr_ids_below(e, n),
        None => true,
    }
}

/// Every location that the statement names by id has an id below `n`.
pub open spec fn stmt_ids_below(s: StmtNodeView, n: nat) -> bool
    decreases s, 1nat,
{
    match s.stmt {
        StmtView::Expr(e) => expr_ids_below(e, n),
        StmtView::If(c, t, e) => expr_ids_below(c, n) && stmts_ids_below(t.0, n) && match e {
            Some(b) => stmts_ids_below(b.0, n),
            None => true,
        },
        StmtView::While(c, b) => expr_ids_below(c, n) && stmts_ids_below(b.0, n),
        StmtView::For(init, c, step, b) => (match init {
            Some(i) => stmt_ids_below(*i, n),
            None => true,
        }) && optional_ids_below(c, n) && optional_ids_below(step, n) && stmts_ids_below(b.0, n),
        StmtView::Switch(c, cases) => expr_ids_below(c, n) && cases_ids_below(cases, n),
        StmtView::Break => true,
        StmtView::Continue => true,
        StmtView::Return(e) => optional_ids_below(e, n),
        StmtView::Block(b) => stmts_ids_below(b.0, n),
        StmtView::Function(f) => (forall|i: int| 0 <= i < f.params.len() ==> #[trigger] f.params[i]
            < n) && stmts_ids_below(f.body.0, n),
    }
}

/// Each of the statements names locations with ids below `n` only.
pub open spec fn stmts_ids_below(stmts: Seq<StmtNodeView>, n: nat) -> bool
    decreases stmts, 0nat,
{
    forall|i: int| 0 <= i < stmts.len() ==> stmt_ids_below(#[trigger] stmts[i], n)
}

/// Each of the cases names locations with ids below `n` only.
pub open spec fn cases_ids_below(cases: Seq<CaseView>, n: nat) -> bool
    decreases cases, 0nat,
{
    forall|i: int|
        0 <= i < cases.len() ==> optional_ids_below((#[trigger] cases[i]).label, n)
            && stmts_ids_below(cases[i].body.0, n)
}

/// The ids of a lowered unit are ids of items of its table.
pub open spec fn root_ids_in_table(root: RootView) -> bool {
    stmts_ids_below(root.global.0, root.table.len())
}

/// What is below `n` is below every larger bound.
pub proof fn lemma_expr_ids_monotone(e: ExprNodeView, n: nat, m: nat)
    requires
        expr_ids_below(e, n),
        n <= m,
    ensures
        expr_ids_below(e, m),
    decreases e, 1nat,
{
    match e.expr {
        ExprView::LvalueDeref(l) => lemma_lvalue_ids_monotone(*l, n, m),
        ExprView::Constant(_) => {},
        ExprView::Cast(x) => lemma_expr_ids_monotone(*x, n, m),
        ExprView::Binary(l, _, r) => {
            lemma_expr_ids_monotone(*l, n, m);
            lemma_expr_ids_monotone(*r, n, m);
        },
        ExprView::Unary(_, x) => lemma_expr_ids_monotone(*x, n, m),
        ExprView::Reference(l) => lemma_lvalue_ids_monotone(*l, n, m),
        ExprView::Assign(l, x) => {
            lemma_lvalue_ids_monotone(*l, n, m);
            lemma_expr_ids_monotone(*x, n, m);
        },
        ExprView::Printf(args) => {
            assert(all_ids_below(args, n));
            assert forall|i: int| 0 <= i < args.len() implies expr_ids_below(
                #[trigger] args[i],
                m,
            ) by {
                lemma_expr_ids_monotone(args[i], n, m);
            }
            assert(all_ids_below(args, m));
        },
    }
}

/// What is below `n` is below every larger bound.
pub proof fn lemma_lvalue_ids_monotone(l: LvalueExprNodeView, n: nat, m: nat)
    requires
        lvalue_ids_below(l, n),
        n <= m,
    ensures
        lvalue_ids_below(l, m),
    decreases l, 1nat,
{
    match l.expr {
        LvalueExprView::Ident(_) => {},
        LvalueExprView::Dereference(x) => lemma_expr_ids_monotone(*x, n, m),
    }
}

/// What is below `n` is below every larger bound.
pub proof fn lemma_optional_ids_monotone(e: Option<ExprNodeView>, n: nat, m: nat)
    requires
        optional_ids_below(e, n),
        n <= m,
    ensures
        optional_ids_below(e, m),
{
    match e {
        Some(e) => lemma_expr_ids_monotone(e, n, m),
        None => {},
    }
}

/// What is below `n` is below every larger bound.
pub proof fn lemma_stmt_ids_monotone(s: StmtNodeView, n: nat, m: nat)
    requires
        stmt_ids_below(s, n),
        n <= m,
    ensures
        stmt_ids_below(s, m),
    decreases s, 1nat,
{
    match s.stmt {
        StmtView::Expr(e) => lemma_expr_ids_monotone(e, n, m),
        StmtView::If(c, t, e) => {
            lemma_expr_ids_monotone(c, n, m);
            lemma_stmts_ids_monotone(t.0, n, m);
            match e {
                Some(b) => lemma_stmts_ids_monotone(b.0, n, m),
                None => {},
            }
        },
        StmtView::While(c, b) => {
            lemma_expr_ids_monotone(c, n, m);
            lemma_stmts_ids_monotone(b.0, n, m);
        },
        StmtView::For(init, c, step, b) => {
            match init {
                Some(i) => lemma_stmt_ids_monotone(*i, n, m),
                None => {},
            }
            lemma_optional_ids_monotone(c, n, m);
            lemma_optional_ids_monotone(step, n, m);
            lemma_stmts_ids_monotone(b.0, n, m);
        },
        StmtView::Switch(c, cases) => {
            lemma_expr_ids_monotone(c, n, m);
            assert(cases_ids_below(cases, n));
            assert forall|i: int| 0 <= i < cases.len() implies optional_ids_below(
                (#[trigger] cases[i]).label,
                m,
            ) && stmts_ids_below(cases[i].body.0, m) by {
                lemma_optional_ids_monotone(cases[i].label, n, m);
                lemma_stmts_ids_monotone(cases[i].body.0, n, m);
            }
            assert(cases_ids_below(cases, m));
        },
        StmtView::Break => {},
        StmtView::Continue => {},
        StmtView::Return(e) => lemma_optional_ids_monotone(e, n, m),
        StmtView::Block(b) => lemma_stmts_ids_monotone(b.0, n, m),
        StmtView::Function(f) => lemma_stmts_ids_monotone(f.body.0, n, m),
    }
}

/// What is below `n` is below every larger bound.
pub proof fn lemma_stmts_ids_monotone(stmts: Seq<StmtNodeView>, n: nat, m: nat)
    requires
        stmts_ids_below(stmts, n),
        n <= m,
    ensures
        stmts_ids_below(stmts, m),
    decreases stmts, 0nat,
{
    assert forall|i: int| 0 <= i < stmts.len() implies stmt_ids_below(#[trigger] stmts[i], m) by {
        lemma_stmt_ids_monotone(stmts[i], n, m);
    }
}

/// A scope is open and every bound id is the id of an item.
pub open spec fn shaped(v: Vars) -> bool {
    &&& v.scopes.len() > 0
    &&& forall|s: int, b: int|
        0 <= s < v.scopes.len() && 0 <= b < v.scopes[s].len() ==> (#[trigger] v.scopes[s][b]).1
            < v.items.len()
}

/// `after` comes from `before` by declarations in scopes that were closed
/// again: it holds at least the items of `before` and has as many scopes
/// open.
pub open spec fn follows(before: Vars, after: Vars) -> bool {
    &&& shaped(after)
    &&& after.items.len() >= before.items.len()
    &&& after.scopes.len() == before.scopes.len()
}

/// A declaration adds at most one item and keeps the scopes in shape.
pub proof fn lemma_declared_follows(v: Vars, name: Seq<char>, item: Item)
    requires
        shaped(v),
    ensures
        follows(v, v.declared(name, item)),
        v.declare_result(name) matches Ok(id) ==> v.declared(name, item).items.len()
            == v.items.len() + 1 && (v.items.len() <= usize::MAX ==> id == v.items.len()),
        v.declare_result(name) matches Err(id) ==> id < v.items.len(),
{
    let d = v.declared(name, item);
    match v.declare_result(name) {
        Ok(_) => {
            let top = v.scopes.len() - 1;
            assert forall|s: int, b: int|
                0 <= s < d.scopes.len() && 0 <= b < d.scopes[s].len() implies (
            #[trigger] d.scopes[s][b]).1 < d.items.len() by {
                if s == top && b == v.scopes[top].len() {
                } else {
                    assert(d.scopes[s][b] == v.scopes[s][b]);
                }
            }
        },
        Err(_) => {
            lemma_bound_is_listed(v.innermost(), name);
        },
    }
}

/// Opening and closing a scope keep the scopes in shape.
pub proof fn lemma_scopes_shaped(v: Vars)
    requires
        shaped(v),
    ensures
        shaped(v.entered()),
        v.entered().scopes.len() == v.scopes.len() + 1,
        v.scopes.len() > 1 ==> shaped(v.left()) && v.left().scopes.len() == v.scopes.len() - 1,
{
    let e = v.entered();
    assert forall|s: int, b: int|
        0 <= s < e.scopes.len() && 0 <= b < e.scopes[s].len() implies (#[trigger] e.scopes[s][b]).1
        < e.items.len() by {
        assert(e.scopes[s][b] == v.scopes[s][b]);
    }
    if v.scopes.len() > 1 {
        let l = v.left();
        assert forall|s: int, b: int|
            0 <= s < l.scopes.len() && 0 <= b < l.scopes[s].len() implies (
        #[trigger] l.scopes[s][b]).1 < l.items.len() by {
            assert(l.scopes[s][b] == v.scopes[s][b]);
        }
    }
}

/// What a checked expression names, the unchecked expression names.
proof fn lemma_checked_ids(e: ExpressionNodeView, vars: Vars, settings: Settings)
    requires
        vars.wf(),
    ensures
        lowered_condition(e, vars, settings).value matches Some(x) ==> expr_ids_below(
            x,
            vars.items.len(),
        ),
        lowered_control(e, vars, settings).value matches Some(x) ==> expr_ids_below(
            x,
            vars.items.len(),
        ),
        forall|control: Option<CType>|
            (#[trigger] lowered_label(e, control, vars, settings)).value matches Some(x)
                ==> expr_ids_below(x, vars.items.len()),
        optional_ids_below(
            match lowered_optional(Some(e), vars, settings).value {
                Some(x) => x,
                None => None,
            },
            vars.items.len(),
        ),
        optional_ids_below(
            match lowered_optional_condition(Some(e), vars, settings).value {
                Some(x) => x,
                None => None,
            },
            vars.items.len(),
        ),
{
    let n = vars.items.len();
    lemma_lowered_expr_ids(e, vars, settings);
    assert forall|x: ExprNodeView, ty: CType| expr_ids_below(#[trigger] cast_to(x, ty), n)
        == expr_ids_below(x, n) by {
        lemma_cast_ids(x, ty, n);
    }
}

/// A lowered declaration names items of the table as it is afterwards.
pub proof fn lemma_declaration_ids(d: DeclarationView, span: Span, vars: Vars, settings: Settings)
    requires
        shaped(vars),
    ensures
        follows(vars, lowered_declaration(d, span, vars, settings).vars),
        lowered_declaration(d, span, vars, settings).vars.items.len() <= usize::MAX ==> (
        lowered_declaration(d, span, vars, settings).outcome.value matches Some(Some(s))
            ==> stmt_ids_below(s, lowered_declaration(d, span, vars, settings).vars.items.len())),
{
    match d {
        DeclarationView::Variable(v) => {
            if v.array_parts.len() == 0 {
                let item = declared_item(
                    v.ty,
                    v.ident,
                    v.initializer is Some,
                );
                lemma_declared_follows(vars, v.ident.data, item);
                let after = vars.declared(v.ident.data, item);
                if after.items.len() <= usize::MAX {
                    match v.initializer {
                        Some((_, e)) => {
                            lemma_lowered_expr_ids(e, vars, settings);
                            match lowered_expr(e, vars, settings).value {
                                Some(x) => {
                                    lemma_expr_ids_monotone(x, vars.items.len(), after.items.len());
                                    assert forall|ty: CType| expr_ids_below(
                                        #[trigger] cast_to(x, ty),
                                        after.items.len(),
                                    ) by {
                                        lemma_cast_ids(x, ty, after.items.len());
                                    }
                                    match lowered_declaration(d, span, vars, settings).outcome.value {
                                        Some(Some(s)) => {
                                            let to = declared_location(
                                                v.ty,
                                                v.ident,
                                                vars,
                                            ).value->0;
                                            let target =
                                                initialized_target(to);
                                            assert(lvalue_ids_below(target, after.items.len()));
                                            assert(s.stmt matches StmtView::Expr(a) && a.expr
                                                == ExprView::Assign(
                                                Box::new(target),
                                                Box::new(cast_to(x, to.ty)),
                                            ));
                                            assert(expr_ids_below(s.stmt->Expr_0, after.items.len()));
                                        },
                                        _ => {},
                                    }
                                },
                                None => {},
                            }
                        },
                        None => {},
                    }
                }
            }
        },
        DeclarationView::FunctionDeclaration(_) => {},
    }
}

/// A lowered statement names items of the table as it is afterwards, and
/// leaves the scopes as it found them.
pub proof fn lemma_statement_ids(s: StatementNodeView, scope: FunctionScopeView, settings: Settings)
    requires
        shaped(scope.vars),
    ensures
        follows(scope.vars, lowered_statement(s, scope, settings).vars),
        lowered_statement(s, scope, settings).vars.items.len() <= usize::MAX ==> (
        lowered_statement(s, scope, settings).outcome.value matches Some(Some(x))
            ==> stmt_ids_below(x, lowered_statement(s, scope, settings).vars.items.len())),
    decreases s, 0nat,
{
    let step = lowered_statement(s, scope, settings);
    let n = step.vars.items.len();
    match s.data {
        StatementView::Declaration(d) => {
            lemma_declaration_ids(d, s.span, scope.vars, settings);
        },
        StatementView::Expression(e) => {
            if n <= usize::MAX {
                lemma_lowered_expr_ids(e, scope.vars, settings);
            }
        },
        StatementView::If(i) => {
            lemma_scope_ids(i.if_body, scope, settings);
            let then_body = lowered_scope(i.if_body, scope, settings);
            match i.else_body {
                Some(b) => {
                    lemma_scope_ids(b, scope.with_vars(then_body.vars), settings);
                },
                None => {},
            }
            if n <= usize::MAX {
                lemma_checked_ids(i.condition, scope.vars, settings);
                match lowered_condition(i.condition, scope.vars, settings).value {
                    Some(c) => lemma_expr_ids_monotone(c, scope.vars.items.len(), n),
                    None => {},
                }
                lemma_stmts_ids_monotone(then_body.stmts, then_body.vars.items.len(), n);
            }
        },
        StatementView::While(w) => {
            lemma_scope_ids(w.body, scope.inside_loop(), settings);
            if n <= usize::MAX {
                lemma_checked_ids(w.condition, scope.vars, settings);
                match lowered_condition(w.condition, scope.vars, settings).value {
                    Some(c) => lemma_expr_ids_monotone(c, scope.vars.items.len(), n),
                    None => {},
                }
            }
        },
        StatementView::For(f) => {
            lemma_scopes_shaped(scope.vars);
            let outer = scope.nested();
            let init = match f.init {
                Some(init) => lowered_statement(*init, outer, settings),
                None => Step {
                    outcome: Outcome::success(None),
                    vars: outer.vars,
                },
            };
            match f.init {
                Some(i) => {
                    lemma_statement_ids(*i, outer, settings);
                },
                None => {},
            }
            let inner = outer.with_vars(init.vars).inside_loop();
            lemma_scope_ids(f.body, inner, settings);
            let body = lowered_scope(f.body, inner, settings);
            lemma_scopes_shaped(body.vars);
            if n <= usize::MAX {
                let k = init.vars.items.len();
                match f.condition {
                    Some(c) => lemma_checked_ids(c, init.vars, settings),
                    None => {},
                }
                match f.iter {
                    Some(c) => lemma_checked_ids(c, init.vars, settings),
                    None => {},
                }
                let condition = lowered_optional_condition(f.condition, init.vars, settings);
                let iter = lowered_optional(f.iter, init.vars, settings);
                match (init.outcome.value, condition.value, iter.value) {
                    (Some(i), Some(c), Some(st)) => {
                        match i {
                            Some(i) => lemma_stmt_ids_monotone(i, k, n),
                            None => {},
                        }
                        lemma_optional_ids_monotone(c, k, n);
                        lemma_optional_ids_monotone(st, k, n);
                    },
                    _ => {},
                }
            }
        },
        StatementView::Switch(sw) => {
            let control = lowered_control(sw.expr, scope.vars, settings);
            let control_type = match control.value {
                Some(c) => Some(c.ty),
                None => None,
            };
            lemma_cases_ids(sw.cases, sw.cases.len(), control_type, scope.inside_switch(), settings);
            if n <= usize::MAX {
                lemma_checked_ids(sw.expr, scope.vars, settings);
                match control.value {
                    Some(c) => lemma_expr_ids_monotone(c, scope.vars.items.len(), n),
                    None => {},
                }
            }
        },
        StatementView::Break => {},
        StatementView::Continue => {},
        StatementView::Return(keyword, e) => {
            if n <= usize::MAX {
                match e {
                    Some(x) => {
                        lemma_checked_ids(x, scope.vars, settings);
                        assert forall|v: ExprNodeView, ty: CType| expr_ids_below(
                            #[trigger] cast_to(v, ty),
                            n,
                        ) == expr_ids_below(v, n) by {
                            lemma_cast_ids(v, ty, n);
                        }
                    },
                    None => {},
                }
            }
        },
        StatementView::BlockStatement(b) => {
            lemma_scope_ids(b, scope, settings);
        },
    }
}

/// Lowered statements name items of the table as it is after them.
pub proof fn lemma_statements_ids(
    stmts: Seq<StatementNodeView>,
    n: nat,
    scope: FunctionScopeView,
    settings: Settings,
)
    requires
        shaped(scope.vars),
    ensures
        follows(scope.vars, lowered_statements(stmts, n, scope, settings).vars),
        lowered_statements(stmts, n, scope, settings).vars.items.len() <= usize::MAX
            ==> stmts_ids_below(
            lowered_statements(stmts, n, scope, settings).stmts,
            lowered_statements(stmts, n, scope, settings).vars.items.len(),
        ),
    decreases stmts, n,
{
    if n == 0 || n > stmts.len() {
    } else {
        let before = lowered_statements(stmts, (n - 1) as nat, scope, settings);
        lemma_statements_ids(stmts, (n - 1) as nat, scope, settings);
        lemma_statement_ids(stmts[n - 1], scope.with_vars(before.vars), settings);
        let step = lowered_statement(stmts[n - 1], scope.with_vars(before.vars), settings);
        let all = lowered_statements(stmts, n, scope, settings);
        if step.vars.items.len() <= usize::MAX {
            lemma_stmts_ids_monotone(before.stmts, before.vars.items.len(), step.vars.items.len());
            assert forall|i: int| 0 <= i < all.stmts.len() implies stmt_ids_below(
                #[trigger] all.stmts[i],
                step.vars.items.len(),
            ) by {
                if i < before.stmts.len() {
                    assert(all.stmts[i] == before.stmts[i]);
                }
            }
        }
    }
}

/// A block lowered in its own scope names items of the table as it is
/// afterwards.
pub proof fn lemma_scope_ids(b: BlockStatementView, scope: FunctionScopeView, settings: Settings)
    requires
        shaped(scope.vars),
    ensures
        follows(scope.vars, lowered_scope(b, scope, settings).vars),
        lowered_scope(b, scope, settings).vars.items.len() <= usize::MAX ==> stmts_ids_below(
            lowered_scope(b, scope, settings).stmts,
            lowered_scope(b, scope, settings).vars.items.len(),
        ),
    decreases b, 0nat,
{
    lemma_scopes_shaped(scope.vars);
    lemma_statements_ids(b.0, b.0.len(), scope.nested(), settings);
    lemma_scopes_shaped(lowered_statements(b.0, b.0.len(), scope.nested(), settings).vars);
}

/// Lowered cases name items of the table as it is after them.
pub proof fn lemma_cases_ids(
    cases: Seq<SwitchCaseView>,
    n: nat,
    control: Option<CType>,
    scope: FunctionScopeView,
    settings: Settings,
)
    requires
        shaped(scope.vars),
    ensures
        follows(scope.vars, lowered_cases(cases, n, control, scope, settings).vars),
        lowered_cases(cases, n, control, scope, settings).vars.items.len() <= usize::MAX ==> (
        lowered_cases(cases, n, control, scope, settings).cases matches Some(cs)
            ==> cases_ids_below(
            cs,
            lowered_cases(cases, n, control, scope, settings).vars.items.len(),
        )),
    decreases cases, n,
{
    if n == 0 || n > cases.len() {
    } else {
        let before = lowered_cases(cases, (n - 1) as nat, control, scope, settings);
        lemma_cases_ids(cases, (n - 1) as nat, control, scope, settings);
        let all = lowered_cases(cases, n, control, scope, settings);
        let m = all.vars.items.len();
        let body = match cases[n - 1] {
            SwitchCaseView::Expr(c) => c.body,
            SwitchCaseView::Default(c) => c.body,
        };
        lemma_scope_ids(body, scope.with_vars(before.vars), settings);
        if m <= usize::MAX {
            match cases[n - 1] {
                SwitchCaseView::Expr(c) => {
                    lemma_checked_ids(c.expr, before.vars, settings);
                    match lowered_label(c.expr, control, before.vars, settings).value {
                        Some(l) => lemma_expr_ids_monotone(l, before.vars.items.len(), m),
                        None => {},
                    }
                },
                SwitchCaseView::Default(_) => {},
            }
            match (before.cases, all.cases) {
                (Some(old), Some(cs)) => {
                    assert forall|i: int| 0 <= i < cs.len() implies optional_ids_below(
                        (#[trigger] cs[i]).label,
                        m,
                    ) && stmts_ids_below(cs[i].body.0, m) by {
                        if i < old.len() {
                            assert(cs[i] == old[i]);
                            lemma_optional_ids_monotone(old[i].label, before.vars.items.len(), m);
                            lemma_stmts_ids_monotone(old[i].body.0, before.vars.items.len(), m);
                        }
                    }
                },
                _ => {},
            }
        }
    }
}

/// Declared parameters have ids of items of the table as it is afterwards.
pub proof fn lemma_params_ids(params: Seq<FunctionParamNodeView>, n: nat, vars: Vars)
    requires
        shaped(vars),
    ensures
        follows(vars, lowered_params(params, n, vars).vars),
        lowered_params(params, n, vars).vars.items.len() <= usize::MAX ==> forall|i: int|
            0 <= i < lowered_params(params, n, vars).ids.len() ==> #[trigger] lowered_params(
                params,
                n,
                vars,
            ).ids[i] < lowered_params(params, n, vars).vars.items.len(),
    decreases n,
{
    if n == 0 || n > params.len() {
    } else {
        let before = lowered_params(params, (n - 1) as nat, vars);
        lemma_params_ids(params, (n - 1) as nat, vars);
        match params[n - 1].ident {
            Some(ident) => {
                lemma_declared_follows(
                    before.vars,
                    ident.data,
                    declared_item(params[n - 1].ty, ident, true),
                );
                let all = lowered_params(params, n, vars);
                if all.vars.items.len() <= usize::MAX {
                    assert forall|i: int| 0 <= i < all.ids.len() implies #[trigger] all.ids[i]
                        < all.vars.items.len() by {
                        if i < before.ids.len() {
                            assert(all.ids[i] == before.ids[i]);
                        }
                    }
                }
            },
            None => {},
        }
    }
}

/// A lowered top-level declaration names items of the table as it is
/// afterwards.
pub proof fn lemma_external_ids(d: ExternalDeclarationNodeView, vars: Vars, settings: Settings)
    requires
        shaped(vars),
    ensures
        follows(vars, lowered_external(d, vars, settings).vars),
        lowered_external(d, vars, settings).vars.items.len() <= usize::MAX ==> (lowered_external(
            d,
            vars,
            settings,
        ).outcome.value matches Some(Some(s)) ==> stmt_ids_below(
            s,
            lowered_external(d, vars, settings).vars.items.len(),
        )),
{
    match d.data {
        ExternalDeclarationView::FunctionDefinition(f) => {
            if !f.is_vararg {
                lemma_scopes_shaped(vars);
                lemma_params_ids(f.params, f.params.len(), vars.entered());
                let params = lowered_params(f.params, f.params.len(), vars.entered());
                lemma_statements_ids(f.body.0, f.body.0.len(), body_scope(f, vars), settings);
                let body = lowered_statements(
                    f.body.0,
                    f.body.0.len(),
                    body_scope(f, vars),
                    settings,
                );
                lemma_scopes_shaped(body.vars);
            }
        },
        ExternalDeclarationView::Declaration(decl) => {
            lemma_declaration_ids(decl, d.span, vars, settings);
        },
    }
}

/// Lowered top-level declarations name items of the table as it is after
/// them.
pub proof fn lemma_globals_ids(decls: Seq<ExternalDeclarationNodeView>, n: nat, settings: Settings)
    ensures
        shaped(lowered_globals(decls, n, settings).vars),
        lowered_globals(decls, n, settings).vars.items.len() <= usize::MAX ==> stmts_ids_below(
            lowered_globals(decls, n, settings).stmts,
            lowered_globals(decls, n, settings).vars.items.len(),
        ),
    decreases n,
{
    if n == 0 || n > decls.len() {
    } else {
        let before = lowered_globals(decls, (n - 1) as nat, settings);
        lemma_globals_ids(decls, (n - 1) as nat, settings);
        lemma_external_ids(decls[n - 1], before.vars, settings);
        let step = lowered_external(decls[n - 1], before.vars, settings);
        let all = lowered_globals(decls, n, settings);
        if step.vars.items.len() <= usize::MAX {
            lemma_stmts_ids_monotone(before.stmts, before.vars.items.len(), step.vars.items.len());
            assert forall|i: int| 0 <= i < all.stmts.len() implies stmt_ids_below(
                #[trigger] all.stmts[i],
                step.vars.items.len(),
            ) by {
                if i < before.stmts.len() {
                    assert(all.stmts[i] == before.stmts[i]);
                }
            }
        }
    }
}

/// Every location that a lowered unit names by id is an item of the table
/// of that unit: each identifier was resolved to a declaration. The table of
/// a unit that was lowered on a machine always fits that machine.
pub proof fn lemma_lowered_ids_in_table(a: AstView, settings: Settings)
    requires
        lowered_ast(a, settings).value->0.table.len() <= usize::MAX,
    ensures
        root_ids_in_table(lowered_ast(a, settings).value->0),
{
    lemma_globals_ids(a.global, a.global.len(), settings);
}

} // verus!
