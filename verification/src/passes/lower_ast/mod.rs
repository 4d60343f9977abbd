//! The lowering of the syntax tree into the typed intermediate
//! representation.
//!
//! Every top-level declaration is lowered in the root scope and every
//! function body in a scope of its own. A statement that cannot be lowered
//! is left out of the result and reported; the statements around it are
//! lowered all the same, so that one run reports every error.

pub mod expr;
pub mod lemmas;
pub mod symbol_table;
pub mod util;

use vstd::prelude::*;
use crate::ast::{
    Ast, AstView, BlockStatement, BlockStatementView, Declaration, DeclarationView, ExpressionNode,
    ExpressionNodeView, ExternalDeclaration, ExternalDeclarationNode, ExternalDeclarationNodeView,
    ExternalDeclarationView, FunctionDefinition, FunctionDefinitionView, FunctionParamNode,
    FunctionParamNodeView, IdentNode, IdentView, QualifiedTypeNode, Span, Statement, StatementNode,
    StatementNodeView, StatementView, SwitchCase, SwitchCaseView, optional_expression_view,
    param_views, switch_case_views,
};
use crate::diagnostic::{
    AggregateResult, Diagnostic, DiagnosticBuilder, DiagnosticKind, Feature, Outcome,
};
use crate::ir::ctype::{CType, type_of};
use crate::ir::expr::{
    ExprNode, ExprNodeView, LvalueExpr, LvalueExprNode, LvalueExprNodeView, LvalueExprView,
};
use crate::ir::stmt::{
    Block, BlockView, Case, CaseView, Function, FunctionView, Root, RootView, Stmt, StmtNode,
    StmtNodeView, StmtView, case_views, optional_expr_view, stmt_views,
};
use crate::ir::table::{Item, ItemId};
use crate::passes::lower_ast::expr::{
    Vars, assign, assigned, build_ir_expr, can_convert, converts, expr_outcome, lowered_expr,
    lvalue_outcome,
};
use crate::passes::lower_ast::lemmas::{lemma_lowered_ids_in_table, root_ids_in_table};
use crate::passes::lower_ast::symbol_table::{ScopedTable, ScopedTableView};
use crate::passes::lower_ast::util::{
    DeclarationType, FunctionScope, FunctionScopeView, cast_to, maybe_cast,
};
use crate::settings::Settings;

verus! {

// ---------------------------------------------------------------------------
// What lowering makes of declarations and statements
// ---------------------------------------------------------------------------

/// What lowering one statement gives: the statement, if it leaves one, with
/// the diagnostics, and the variables afterwards.
pub struct Step {
    pub outcome: Outcome<Option<StmtNodeView>>,
    pub vars: Vars,
}

/// What lowering a run of statements gives: those that were lowered, the
/// diagnostics of all of them, and the variables afterwards.
pub struct Progress {
    pub stmts: Seq<StmtNodeView>,
    pub diagnostics: Seq<Diagnostic>,
    pub vars: Vars,
}

/// The item that a declaration enters into the table.
pub open spec fn declared_item(ty: QualifiedTypeNode, ident: IdentView, will_init: bool) -> Item {
    Item {
        ty: DeclarationType::of(ty).ty,
        is_const: DeclarationType::of(ty).is_const,
        original_span: ident.span,
        initialized: will_init,
    }
}

/// The location that a declaration introduces, or the diagnostic that the
/// name is bound in the innermost scope already, which cites the identifier
/// of the earlier declaration.
pub open spec fn declared_location(
    ty: QualifiedTypeNode,
    ident: IdentView,
    vars: Vars,
) -> Outcome<LvalueExprNodeView> {
    match vars.declare_result(ident.data) {
        Ok(id) => Outcome::success(
            LvalueExprNodeView {
                span: ident.span,
                is_const: DeclarationType::of(ty).is_const,
                ty: DeclarationType::of(ty).ty,
                expr: LvalueExprView::Ident(id),
            },
        ),
        Err(id) => Outcome::failure(
            ident.span,
            DiagnosticKind::AlreadyDefined { original: vars.items[id as int].original_span },
        ),
    }
}

/// A location as the target of its initializing assignment, which is
/// allowed for a `const` object too.
pub open spec fn initialized_target(to: LvalueExprNodeView) -> LvalueExprNodeView {
    LvalueExprNodeView { span: to.span, is_const: false, ty: to.ty, expr: to.expr }
}

/// The statement that a declared location and its lowered initializer leave:
/// the initializing assignment, or nothing where there is no initializer.
pub open spec fn initialization(
    to: LvalueExprNodeView,
    init: Option<(Span, ExprNodeView)>,
    span: Span,
) -> Outcome<Option<StmtNodeView>> {
    match init {
        Some((eq, value)) => assigned(initialized_target(to), value, span, eq).map(
            |a: ExprNodeView| Some(StmtNodeView { span, stmt: StmtView::Expr(a) }),
        ),
        None => Outcome::success(None),
    }
}

/// A declaration lowered. The initializer of a variable is lowered under the
/// variables as they are before the declaration, so that it cannot refer to
/// the variable being declared; then the name is declared; then, where both
/// went well, the initializing assignment is built. Arrays and function
/// declarations are not lowered yet.
pub open spec fn lowered_declaration(
    d: DeclarationView,
    span: Span,
    vars: Vars,
    settings: Settings,
) -> Step {
    match d {
        DeclarationView::Variable(v) => if v.array_parts.len() > 0 {
            Step {
                outcome: Outcome::failure(span, DiagnosticKind::Unimplemented(Feature::Arrays)),
                vars,
            }
        } else {
            let init: Outcome<Option<(Span, ExprNodeView)>> = match v.initializer {
                Some((eq, e)) => lowered_expr(e, vars, settings).map(
                    |x: ExprNodeView| Some((eq, x)),
                ),
                None => Outcome::success(None),
            };
            Step {
                outcome: declared_location(v.ty, v.ident, vars).join(init).chain(
                    |p: (LvalueExprNodeView, Option<(Span, ExprNodeView)>)|
                        initialization(p.0, p.1, span),
                ),
                vars: vars.declared(
                    v.ident.data,
                    declared_item(v.ty, v.ident, v.initializer is Some),
                ),
            }
        },
        DeclarationView::FunctionDeclaration(_) => Step {
            outcome: Outcome::failure(
                span,
                DiagnosticKind::Unimplemented(Feature::FunctionDeclarations),
            ),
            vars,
        },
    }
}

/// A controlling expression: it has to be scalar.
pub open spec fn lowered_condition(e: ExpressionNodeView, vars: Vars, settings: Settings) -> Outcome<
    ExprNodeView,
> {
    lowered_expr(e, vars, settings).chain(
        |v: ExprNodeView|
            if v.ty is Scalar {
                Outcome::success(v)
            } else {
                Outcome::failure(e.span, DiagnosticKind::TypeMismatch)
            },
    )
}

/// An optional controlling expression.
pub open spec fn lowered_optional_condition(
    e: Option<ExpressionNodeView>,
    vars: Vars,
    settings: Settings,
) -> Outcome<Option<ExprNodeView>> {
    match e {
        Some(e) => lowered_condition(e, vars, settings).map(|v: ExprNodeView| Some(v)),
        None => Outcome::success(None),
    }
}

/// An optional expression evaluated for its effect.
pub open spec fn lowered_optional(
    e: Option<ExpressionNodeView>,
    vars: Vars,
    settings: Settings,
) -> Outcome<Option<ExprNodeView>> {
    match e {
        Some(e) => lowered_expr(e, vars, settings).map(|v: ExprNodeView| Some(v)),
        None => Outcome::success(None),
    }
}

/// The controlling expression of a `switch`: an integer, promoted.
pub open spec fn lowered_control(e: ExpressionNodeView, vars: Vars, settings: Settings) -> Outcome<
    ExprNodeView,
> {
    lowered_expr(e, vars, settings).chain(
        |v: ExprNodeView|
            match v.ty.as_arithmetic() {
                Some(a) => if a.integral() {
                    Outcome::success(cast_to(v, CType::arithmetic(a.promoted(settings))))
                } else {
                    Outcome::failure(e.span, DiagnosticKind::TypeMismatch)
                },
                None => Outcome::failure(e.span, DiagnosticKind::TypeMismatch),
            },
    )
}

/// The label of a case: an integer, cast to the type of the controlling
/// expression where that is known.
pub open spec fn lowered_label(
    e: ExpressionNodeView,
    control: Option<CType>,
    vars: Vars,
    settings: Settings,
) -> Outcome<ExprNodeView> {
    lowered_expr(e, vars, settings).chain(
        |v: ExprNodeView|
            match v.ty.as_arithmetic() {
                Some(a) => if a.integral() {
                    Outcome::success(
                        match control {
                            Some(ty) => cast_to(v, ty),
                            None => v,
                        },
                    )
                } else {
                    Outcome::failure(e.span, DiagnosticKind::TypeMismatch)
                },
                None => Outcome::failure(e.span, DiagnosticKind::TypeMismatch),
            },
    )
}

/// A `return` with the value that it returns: the value has to convert to
/// the return type of the function and is cast to it; without a value the
/// return type has to be `void`. The diagnostic is at the keyword.
pub open spec fn lowered_return(
    value: Option<ExprNodeView>,
    keyword: Span,
    return_type: CType,
) -> Outcome<StmtView> {
    match value {
        Some(v) => if converts(v.ty, return_type) {
            Outcome::success(StmtView::Return(Some(cast_to(v, return_type))))
        } else {
            Outcome::failure(keyword, DiagnosticKind::TypeMismatch)
        },
        None => if return_type is Void {
            Outcome::success(StmtView::Return(None))
        } else {
            Outcome::failure(keyword, DiagnosticKind::TypeMismatch)
        },
    }
}

/// A statement at `span` where there is one.
pub open spec fn at(span: Span, stmt: Option<StmtView>) -> Option<Option<StmtNodeView>> {
    match stmt {
        Some(stmt) => Some(Some(StmtNodeView { span, stmt })),
        None => None,
    }
}

/// A statement lowered under the context `scope`.
///
/// A nested block, the branches of an `if`, and the bodies of loops and
/// cases are each lowered in a scope of their own; a `for` has one more
/// around its initializing statement. `break` is accepted inside a loop or a
/// `switch`, `continue` inside a loop. Where a part of a statement fails, the
/// statement is left out, and its other parts are lowered all the same for
/// their diagnostics.
pub open spec fn lowered_statement(
    s: StatementNodeView,
    scope: FunctionScopeView,
    settings: Settings,
) -> Step
    decreases s, 0nat,
{
    match s.data {
        StatementView::Declaration(d) => lowered_declaration(d, s.span, scope.vars, settings),
        StatementView::Expression(e) => Step {
            outcome: lowered_expr(e, scope.vars, settings).map(
                |x: ExprNodeView| Some(StmtNodeView { span: s.span, stmt: StmtView::Expr(x) }),
            ),
            vars: scope.vars,
        },
        StatementView::If(i) => {
            let condition = lowered_condition(i.condition, scope.vars, settings);
            let then_body = lowered_scope(i.if_body, scope, settings);
            match i.else_body {
                Some(b) => {
                    let else_body = lowered_scope(b, scope.with_vars(then_body.vars), settings);
                    Step {
                        outcome: Outcome {
                            value: at(
                                s.span,
                                match condition.value {
                                    Some(c) => Some(
                                        StmtView::If(
                                            c,
                                            BlockView(then_body.stmts),
                                            Some(BlockView(else_body.stmts)),
                                        ),
                                    ),
                                    None => None,
                                },
                            ),
                            diagnostics: condition.diagnostics + then_body.diagnostics
                                + else_body.diagnostics,
                        },
                        vars: else_body.vars,
                    }
                },
                None => Step {
                    outcome: Outcome {
                        value: at(
                            s.span,
                            match condition.value {
                                Some(c) => Some(StmtView::If(c, BlockView(then_body.stmts), None)),
                                None => None,
                            },
                        ),
                        diagnostics: condition.diagnostics + then_body.diagnostics,
                    },
                    vars: then_body.vars,
                },
            }
        },
        StatementView::While(w) => {
            let condition = lowered_condition(w.condition, scope.vars, settings);
            let body = lowered_scope(w.body, scope.inside_loop(), settings);
            Step {
                outcome: Outcome {
                    value: at(
                        s.span,
                        match condition.value {
                            Some(c) => Some(StmtView::While(c, BlockView(body.stmts))),
                            None => None,
                        },
                    ),
                    diagnostics: condition.diagnostics + body.diagnostics,
                },
                vars: body.vars,
            }
        },
        StatementView::For(f) => {
            let outer = scope.nested();
            let init = match f.init {
                Some(init) => lowered_statement(*init, outer, settings),
                None => Step { outcome: Outcome::success(None), vars: outer.vars },
            };
            let condition = lowered_optional_condition(f.condition, init.vars, settings);
            let step = lowered_optional(f.iter, init.vars, settings);
            let body = lowered_scope(f.body, outer.with_vars(init.vars).inside_loop(), settings);
            Step {
                outcome: Outcome {
                    value: at(
                        s.span,
                        match (init.outcome.value, condition.value, step.value) {
                            (Some(i), Some(c), Some(st)) => Some(
                                StmtView::For(
                                    match i {
                                        Some(i) => Some(Box::new(i)),
                                        None => None,
                                    },
                                    c,
                                    st,
                                    BlockView(body.stmts),
                                ),
                            ),
                            _ => None,
                        },
                    ),
                    diagnostics: init.outcome.diagnostics + condition.diagnostics
                        + step.diagnostics + body.diagnostics,
                },
                vars: body.vars.left(),
            }
        },
        StatementView::Switch(sw) => {
            let control = lowered_control(sw.expr, scope.vars, settings);
            let control_type = match control.value {
                Some(c) => Some(c.ty),
                None => None,
            };
            let cases = lowered_cases(
                sw.cases,
                sw.cases.len(),
                control_type,
                scope.inside_switch(),
                settings,
            );
            Step {
                outcome: Outcome {
                    value: at(
                        s.span,
                        match (control.value, cases.cases) {
                            (Some(c), Some(cs)) => Some(StmtView::Switch(c, cs)),
                            _ => None,
                        },
                    ),
                    diagnostics: control.diagnostics + cases.diagnostics,
                },
                vars: cases.vars,
            }
        },
        StatementView::Break => Step {
            outcome: if scope.in_loop || scope.in_switch {
                Outcome::success(Some(StmtNodeView { span: s.span, stmt: StmtView::Break }))
            } else {
                Outcome::failure(s.span, DiagnosticKind::MisplacedBreak)
            },
            vars: scope.vars,
        },
        StatementView::Continue => Step {
            outcome: if scope.in_loop {
                Outcome::success(Some(StmtNodeView { span: s.span, stmt: StmtView::Continue }))
            } else {
                Outcome::failure(s.span, DiagnosticKind::MisplacedContinue)
            },
            vars: scope.vars,
        },
        StatementView::Return(keyword, e) => Step {
            outcome: lowered_optional(e, scope.vars, settings).chain(
                |v: Option<ExprNodeView>|
                    lowered_return(v, keyword, scope.func_return_type.1).map(
                        |r: StmtView| Some(StmtNodeView { span: s.span, stmt: r }),
                    ),
            ),
            vars: scope.vars,
        },
        StatementView::BlockStatement(b) => {
            let body = lowered_scope(b, scope, settings);
            Step {
                outcome: Outcome {
                    value: Some(
                        Some(
                            StmtNodeView { span: s.span, stmt: StmtView::Block(BlockView(body.stmts)) },
                        ),
                    ),
                    diagnostics: body.diagnostics,
                },
                vars: body.vars,
            }
        },
    }
}

/// The first `n` statements of a block lowered in order under `scope`, each
/// under the variables that those before it leave.
pub open spec fn lowered_statements(
    stmts: Seq<StatementNodeView>,
    n: nat,
    scope: FunctionScopeView,
    settings: Settings,
) -> Progress
    decreases stmts, n,
{
    if n == 0 || n > stmts.len() {
        Progress { stmts: Seq::empty(), diagnostics: Seq::empty(), vars: scope.vars }
    } else {
        let before = lowered_statements(stmts, (n - 1) as nat, scope, settings);
        let step = lowered_statement(stmts[n - 1], scope.with_vars(before.vars), settings);
        Progress {
            stmts: match step.outcome.value {
                Some(Some(s)) => before.stmts.push(s),
                _ => before.stmts,
            },
            diagnostics: before.diagnostics + step.outcome.diagnostics,
            vars: step.vars,
        }
    }
}

/// A block lowered in a scope of its own, nested in that of `scope`: the
/// names declared in it are gone afterwards, their items stay.
pub open spec fn lowered_scope(
    b: BlockStatementView,
    scope: FunctionScopeView,
    settings: Settings,
) -> Progress
    decreases b, 0nat,
{
    let inside = lowered_statements(b.0, b.0.len(), scope.nested(), settings);
    Progress { stmts: inside.stmts, diagnostics: inside.diagnostics, vars: inside.vars.left() }
}

/// What lowering the cases of a `switch` gives: the cases where every label
/// was lowered, the diagnostics of all of them, and the variables afterwards.
pub struct CaseProgress {
    pub cases: Option<Seq<CaseView>>,
    pub diagnostics: Seq<Diagnostic>,
    pub vars: Vars,
}

/// The first `n` cases of a `switch` lowered in order.
pub open spec fn lowered_cases(
    cases: Seq<SwitchCaseView>,
    n: nat,
    control: Option<CType>,
    scope: FunctionScopeView,
    settings: Settings,
) -> CaseProgress
    decreases cases, n,
{
    if n == 0 || n > cases.len() {
        CaseProgress { cases: Some(Seq::empty()), diagnostics: Seq::empty(), vars: scope.vars }
    } else {
        let before = lowered_cases(cases, (n - 1) as nat, control, scope, settings);
        match cases[n - 1] {
            SwitchCaseView::Expr(c) => {
                let label = lowered_label(c.expr, control, before.vars, settings);
                let body = lowered_scope(c.body, scope.with_vars(before.vars), settings);
                CaseProgress {
                    cases: match (before.cases, label.value) {
                        (Some(cs), Some(l)) => Some(
                            cs.push(CaseView { label: Some(l), body: BlockView(body.stmts) }),
                        ),
                        _ => None,
                    },
                    diagnostics: before.diagnostics + label.diagnostics + body.diagnostics,
                    vars: body.vars,
                }
            },
            SwitchCaseView::Default(c) => {
                let body = lowered_scope(c.body, scope.with_vars(before.vars), settings);
                CaseProgress {
                    cases: match before.cases {
                        Some(cs) => Some(
                            cs.push(CaseView { label: None, body: BlockView(body.stmts) }),
                        ),
                        None => None,
                    },
                    diagnostics: before.diagnostics + body.diagnostics,
                    vars: body.vars,
                }
            },
        }
    }
}

// ---------------------------------------------------------------------------
// The lowering of declarations and statements
// ---------------------------------------------------------------------------

/// The outcome that a result of lowering a statement stands for.
pub open spec fn stmt_outcome(r: &AggregateResult<Option<StmtNode>>) -> Outcome<
    Option<StmtNodeView>,
> {
    Outcome {
        value: match r.value {
            Some(Some(s)) => Some(Some(s@)),
            Some(None) => Some(None),
            None => None,
        },
        diagnostics: r.diagnostics@,
    }
}

/// A context with the flags of a loop or a `switch` set where asked for.
pub open spec fn flagged(
    scope: FunctionScopeView,
    enter_loop: bool,
    enter_switch: bool,
) -> FunctionScopeView {
    FunctionScopeView {
        vars: scope.vars,
        func_return_type: scope.func_return_type,
        in_switch: scope.in_switch || enter_switch,
        in_loop: scope.in_loop || enter_loop,
    }
}

/// Setting no flag changes nothing, and setting one is entering its
/// construct.
proof fn lemma_flagged(scope: FunctionScopeView)
    ensures
        scope.with_vars(scope.vars) == scope,
        flagged(scope, false, false) == scope,
        flagged(scope, true, false) == scope.inside_loop(),
        flagged(scope, false, true) == scope.inside_switch(),
{
}

fn push_stmt(done: &mut Vec<StmtNode>, s: StmtNode)
    ensures
        stmt_views(final(done)@) == stmt_views(old(done)@).push(s@),
{
    done.push(s);
    proof {
        assert(stmt_views(done@) =~= stmt_views(old(done)@).push(s@));
    }
}

fn push_case(done: &mut Vec<Case>, c: Case)
    ensures
        case_views(final(done)@) == case_views(old(done)@).push(c@),
{
    done.push(c);
    proof {
        assert(case_views(done@) =~= case_views(old(done)@).push(c@));
    }
}

/// Declares the variable of a declaration in the innermost scope and gives
/// the location it names, or the diagnostic that the name is taken.
pub fn declaration(
    ty: &QualifiedTypeNode,
    ident: &IdentNode,
    will_init: bool,
    scope: &mut ScopedTable<Item>,
) -> (r: AggregateResult<LvalueExprNode>)
    requires
        old(scope)@.wf(),
    ensures
        lvalue_outcome(&r) == declared_location(*ty, ident@, old(scope)@),
        final(scope)@ == old(scope)@.declared(ident@.data, declared_item(*ty, ident@, will_init)),
        final(scope)@.wf(),
        final(scope)@.scopes.len() == old(scope)@.scopes.len(),
{
    let declared = DeclarationType::from_ast_type(ty);
    let is_const = declared.is_const;
    let item = Item {
        ty: declared.ty.duplicate(),
        is_const,
        original_span: ident.span,
        initialized: will_init,
    };
    match scope.declare(ident.data.clone(), item) {
        Ok(id) => AggregateResult::new_ok(
            LvalueExprNode { span: ident.span, is_const, ty: declared.ty, expr: LvalueExpr::Ident(id) },
        ),
        Err(id) => {
            let original_span = scope.get(id).original_span;
            AggregateResult::new_err(
                DiagnosticBuilder::new(ident.span).build_already_defined(original_span),
            )
        },
    }
}

/// Lowers a declaration at `span`.
pub fn build_ir_from_declaration(
    decl: &Declaration,
    span: Span,
    vars: &mut ScopedTable<Item>,
    settings: &Settings,
) -> (r: AggregateResult<Option<StmtNode>>)
    requires
        old(vars)@.wf(),
    ensures
        stmt_outcome(&r) == lowered_declaration(decl@, span, old(vars)@, *settings).outcome,
        final(vars)@ == lowered_declaration(decl@, span, old(vars)@, *settings).vars,
        final(vars)@.wf(),
        final(vars)@.scopes.len() == old(vars)@.scopes.len(),
{
    match decl {
        Declaration::Variable(v) => {
            if v.array_parts.len() > 0 {
                return AggregateResult::fail(span, DiagnosticKind::Unimplemented(Feature::Arrays));
            }
            // the initializer comes first, while the name is not declared yet
            let init: AggregateResult<Option<(Span, ExprNode)>> = match &v.initializer {
                Some((eq, e)) => {
                    let AggregateResult { value, diagnostics } = build_ir_expr(e, vars, settings);
                    match value {
                        Some(x) => AggregateResult { value: Some(Some((*eq, x))), diagnostics },
                        None => AggregateResult { value: None, diagnostics },
                    }
                },
                None => AggregateResult::new_ok(None),
            };
            let to = declaration(&v.ty, &v.ident, v.initializer.is_some(), vars);
            let AggregateResult { value, diagnostics } = to.zip(init);
            match value {
                Some((to, init)) => {
                    let mut to = to;
                    // the initializing write is allowed for a const object too
                    to.is_const = false;
                    match init {
                        Some((eq, x)) => {
                            let AggregateResult { value: assigned, diagnostics: more } = assign(
                                to,
                                x,
                                span,
                                eq,
                            );
                            let r = match assigned {
                                Some(a) => AggregateResult {
                                    value: Some(Some(StmtNode { span, stmt: Stmt::Expr(a) })),
                                    diagnostics: more,
                                },
                                None => AggregateResult { value: None, diagnostics: more },
                            };
                            r.after(diagnostics)
                        },
                        None => {
                            proof {
                                assert(diagnostics@ + Seq::<Diagnostic>::empty() =~= diagnostics@);
                            }
                            AggregateResult { value: Some(None), diagnostics }
                        },
                    }
                },
                None => AggregateResult { value: None, diagnostics },
            }
        },
        Declaration::FunctionDeclaration(_) => AggregateResult::fail(
            span,
            DiagnosticKind::Unimplemented(Feature::FunctionDeclarations),
        ),
    }
}

/// The type of an expression that was lowered.
pub open spec fn type_where_lowered(e: &Option<ExprNode>) -> Option<CType> {
    match e {
        Some(e) => Some(e.ty),
        None => None,
    }
}

fn is_scalar(ty: &CType) -> (r: bool)
    ensures
        r == (*ty is Scalar),
{
    match ty {
        CType::Scalar(_) => true,
        CType::Void => false,
    }
}

fn build_ir_condition(e: &ExpressionNode, vars: &ScopedTable<Item>, settings: &Settings) -> (r:
    AggregateResult<ExprNode>)
    requires
        vars@.wf(),
    ensures
        expr_outcome(&r) == lowered_condition(e@, vars@, *settings),
{
    let AggregateResult { value, diagnostics } = build_ir_expr(e, vars, settings);
    match value {
        Some(v) => {
            let next = if is_scalar(&v.ty) {
                AggregateResult::new_ok(v)
            } else {
                AggregateResult::fail(e.span, DiagnosticKind::TypeMismatch)
            };
            next.after(diagnostics)
        },
        None => AggregateResult { value: None, diagnostics },
    }
}

/// The outcome that a result of lowering an optional expression stands for.
pub open spec fn optional_outcome(r: &AggregateResult<Option<ExprNode>>) -> Outcome<
    Option<ExprNodeView>,
> {
    Outcome {
        value: match r.value {
            Some(Some(e)) => Some(Some(e@)),
            Some(None) => Some(None),
            None => None,
        },
        diagnostics: r.diagnostics@,
    }
}

fn build_ir_optional(
    e: &Option<ExpressionNode>,
    condition: bool,
    vars: &ScopedTable<Item>,
    settings: &Settings,
) -> (r: AggregateResult<Option<ExprNode>>)
    requires
        vars@.wf(),
    ensures
        optional_outcome(&r) == if condition {
            lowered_optional_condition(optional_expression_view(*e), vars@, *settings)
        } else {
            lowered_optional(optional_expression_view(*e), vars@, *settings)
        },
{
    match e {
        Some(e) => {
            let AggregateResult { value, diagnostics } = if condition {
                build_ir_condition(e, vars, settings)
            } else {
                build_ir_expr(e, vars, settings)
            };
            match value {
                Some(v) => AggregateResult { value: Some(Some(v)), diagnostics },
                None => AggregateResult { value: None, diagnostics },
            }
        },
        None => AggregateResult::new_ok(None),
    }
}

fn build_ir_integer(
    e: &ExpressionNode,
    control: Option<&CType>,
    promote: bool,
    vars: &ScopedTable<Item>,
    settings: &Settings,
) -> (r: AggregateResult<ExprNode>)
    requires
        vars@.wf(),
        promote ==> control is None,
    ensures
        expr_outcome(&r) == if promote {
            lowered_control(e@, vars@, *settings)
        } else {
            lowered_label(
                e@,
                match control {
                    Some(ty) => Some(*ty),
                    None => None,
                },
                vars@,
                *settings,
            )
        },
{
    let AggregateResult { value, diagnostics } = build_ir_expr(e, vars, settings);
    match value {
        Some(v) => {
            let next = match v.ty.get_arithmetic() {
                Some(a) => {
                    if a.is_integral() {
                        if promote {
                            AggregateResult::new_ok(
                                maybe_cast(v, CType::new_arithmetic(a.promote(settings))),
                            )
                        } else {
                            match control {
                                Some(ty) => AggregateResult::new_ok(maybe_cast(v, ty.duplicate())),
                                None => AggregateResult::new_ok(v),
                            }
                        }
                    } else {
                        AggregateResult::fail(e.span, DiagnosticKind::TypeMismatch)
                    }
                },
                None => AggregateResult::fail(e.span, DiagnosticKind::TypeMismatch),
            };
            next.after(diagnostics)
        },
        None => AggregateResult { value: None, diagnostics },
    }
}

fn build_ir_return(value: Option<ExprNode>, keyword: Span, return_type: &CType) -> (r: Option<Stmt>)
    ensures
        match r {
            Some(s) => Some(s@),
            None => None,
        } == lowered_return(optional_expr_view(value), keyword, *return_type).value,
{
    match value {
        Some(v) => {
            if can_convert(&v.ty, return_type) {
                Some(Stmt::Return(Some(maybe_cast(v, return_type.duplicate()))))
            } else {
                None
            }
        },
        None => {
            if is_scalar(return_type) {
                None
            } else {
                Some(Stmt::Return(None))
            }
        },
    }
}

/// Lowers the statements of a block in order under `scope`, without opening
/// a scope.
pub fn build_ir_from_block(b: &BlockStatement, scope: &mut FunctionScope, settings: &Settings) -> (r:
    AggregateResult<Block>)
    requires
        old(scope).vars@.wf(),
    ensures
        r.value matches Some(block) && block@.0 == lowered_statements(
            b@.0,
            b@.0.len(),
            old(scope)@,
            *settings,
        ).stmts,
        r.diagnostics@ == lowered_statements(b@.0, b@.0.len(), old(scope)@, *settings).diagnostics,
        final(scope)@ == old(scope)@.with_vars(
            lowered_statements(b@.0, b@.0.len(), old(scope)@, *settings).vars,
        ),
        final(scope).vars@.wf(),
        final(scope).vars@.scopes.len() == old(scope).vars@.scopes.len(),
    decreases b, 1nat,
{
    let ghost views = b@.0;
    let ghost start = old(scope)@;
    let mut done: Vec<StmtNode> = Vec::new();
    let mut diagnostics: Vec<Diagnostic> = Vec::new();
    let n: usize = b.0.len();
    let mut k: usize = 0;
    proof {
        assert(stmt_views(done@) =~= Seq::empty());
        assert(start.with_vars(start.vars) == start);
    }
    while k < n
        invariant
            k <= n,
            n == b.0@.len(),
            views == b@.0,
            views.len() == n,
            start == old(scope)@,
            scope.vars@.wf(),
            scope.vars@.scopes.len() == old(scope).vars@.scopes.len(),
            scope@ == start.with_vars(lowered_statements(views, k as nat, start, *settings).vars),
            stmt_views(done@) == lowered_statements(views, k as nat, start, *settings).stmts,
            diagnostics@ == lowered_statements(views, k as nat, start, *settings).diagnostics,
        decreases n - k,
    {
        let AggregateResult { value, diagnostics: mut more } = build_ir_from_statement(
            &b.0[k],
            scope,
            settings,
        );
        diagnostics.append(&mut more);
        match value {
            Some(Some(s)) => {
                push_stmt(&mut done, s);
            },
            _ => {},
        }
        k += 1;
    }
    AggregateResult { value: Some(Block(done)), diagnostics }
}

/// Lowers a block in a scope of its own, nested in that of `scope`, inside a
/// loop or a `switch` where asked for.
pub fn build_ir_from_scope(
    b: &BlockStatement,
    scope: &mut FunctionScope,
    enter_loop: bool,
    enter_switch: bool,
    settings: &Settings,
) -> (r: AggregateResult<Block>)
    requires
        old(scope).vars@.wf(),
    ensures
        r.value matches Some(block) && block@.0 == lowered_scope(
            b@,
            flagged(old(scope)@, enter_loop, enter_switch),
            *settings,
        ).stmts,
        r.diagnostics@ == lowered_scope(
            b@,
            flagged(old(scope)@, enter_loop, enter_switch),
            *settings,
        ).diagnostics,
        final(scope)@ == old(scope)@.with_vars(
            lowered_scope(b@, flagged(old(scope)@, enter_loop, enter_switch), *settings).vars,
        ),
        final(scope).vars@.wf(),
        final(scope).vars@.scopes.len() == old(scope).vars@.scopes.len(),
    decreases b, 2nat,
{
    let mut inner = scope.new_scope();
    if enter_loop {
        inner = inner.in_loop();
    }
    if enter_switch {
        inner = inner.in_switch();
    }
    assert(inner@ == flagged(old(scope)@, enter_loop, enter_switch).nested());
    let r = build_ir_from_block(b, &mut inner, settings);
    inner.end_scope(scope);
    r
}

/// Lowers an `if`.
fn build_ir_from_if(statement: &StatementNode, scope: &mut FunctionScope, settings: &Settings) -> (r:
    AggregateResult<Option<StmtNode>>)
    requires
        old(scope).vars@.wf(),
        statement.data is If,
    ensures
        stmt_outcome(&r) == lowered_statement(statement@, old(scope)@, *settings).outcome,
        final(scope)@ == old(scope)@.with_vars(
            lowered_statement(statement@, old(scope)@, *settings).vars,
        ),
        final(scope).vars@.wf(),
        final(scope).vars@.scopes.len() == old(scope).vars@.scopes.len(),
    decreases statement, 0nat,
{
    let span = statement.span;
    proof {
        lemma_flagged(old(scope)@);
    }
    match &statement.data {
        Statement::If(i) => {
        let AggregateResult { value: condition, diagnostics } = build_ir_condition(
            &i.condition,
            &scope.vars,
            settings,
        );
        let mut diagnostics = diagnostics;
        let AggregateResult { value: then_body, diagnostics: mut more } = build_ir_from_scope(
            &i.if_body,
            scope,
            false,
            false,
            settings,
        );
        diagnostics.append(&mut more);
        let else_body = match &i.else_body {
            Some(b) => {
                let AggregateResult { value, diagnostics: mut more } = build_ir_from_scope(
                    b,
                    scope,
                    false,
                    false,
                    settings,
                );
                diagnostics.append(&mut more);
                value
            },
            None => None,
        };
        match (condition, then_body) {
            (Some(c), Some(t)) => AggregateResult {
                value: Some(Some(StmtNode { span, stmt: Stmt::If(c, t, else_body) })),
                diagnostics,
            },
            _ => AggregateResult { value: None, diagnostics },
        }
    
        },
        _ => AggregateResult::new_ok(None),
    }
}

/// Lowers a `while`.
fn build_ir_from_while(statement: &StatementNode, scope: &mut FunctionScope, settings: &Settings) -> (r:
    AggregateResult<Option<StmtNode>>)
    requires
        old(scope).vars@.wf(),
        statement.data is While,
    ensures
        stmt_outcome(&r) == lowered_statement(statement@, old(scope)@, *settings).outcome,
        final(scope)@ == old(scope)@.with_vars(
            lowered_statement(statement@, old(scope)@, *settings).vars,
        ),
        final(scope).vars@.wf(),
        final(scope).vars@.scopes.len() == old(scope).vars@.scopes.len(),
    decreases statement, 0nat,
{
    let span = statement.span;
    proof {
        lemma_flagged(old(scope)@);
    }
    match &statement.data {
        Statement::While(w) => {
        let AggregateResult { value: condition, diagnostics } = build_ir_condition(
            &w.condition,
            &scope.vars,
            settings,
        );
        let mut diagnostics = diagnostics;
        let AggregateResult { value: body, diagnostics: mut more } = build_ir_from_scope(
            &w.body,
            scope,
            true,
            false,
            settings,
        );
        diagnostics.append(&mut more);
        match (condition, body) {
            (Some(c), Some(b)) => AggregateResult {
                value: Some(Some(StmtNode { span, stmt: Stmt::While(c, b) })),
                diagnostics,
            },
            _ => AggregateResult { value: None, diagnostics },
        }
    
        },
        _ => AggregateResult::new_ok(None),
    }
}

/// Lowers a `for`.
fn build_ir_from_for(statement: &StatementNode, scope: &mut FunctionScope, settings: &Settings) -> (r:
    AggregateResult<Option<StmtNode>>)
    requires
        old(scope).vars@.wf(),
        statement.data is For,
    ensures
        stmt_outcome(&r) == lowered_statement(statement@, old(scope)@, *settings).outcome,
        final(scope)@ == old(scope)@.with_vars(
            lowered_statement(statement@, old(scope)@, *settings).vars,
        ),
        final(scope).vars@.wf(),
        final(scope).vars@.scopes.len() == old(scope).vars@.scopes.len(),
    decreases statement, 0nat,
{
    let span = statement.span;
    proof {
        lemma_flagged(old(scope)@);
    }
    match &statement.data {
        Statement::For(f) => {
        let mut outer = scope.new_scope();
        let ghost entered = outer@;
        let AggregateResult { value: init, diagnostics } = match &f.init {
            Some(init) => build_ir_from_statement(init, &mut outer, settings),
            None => AggregateResult::new_ok(None),
        };
        let mut diagnostics = diagnostics;
        proof {
            assert(entered.with_vars(entered.vars) == entered);
        }
        let ghost after_init = outer@;
        let AggregateResult { value: condition, diagnostics: mut more } = build_ir_optional(
            &f.condition,
            true,
            &outer.vars,
            settings,
        );
        diagnostics.append(&mut more);
        let AggregateResult { value: step, diagnostics: mut more } = build_ir_optional(
            &f.iter,
            false,
            &outer.vars,
            settings,
        );
        diagnostics.append(&mut more);
        proof {
            assert(flagged(after_init, true, false) == entered.with_vars(
                after_init.vars,
            ).inside_loop());
        }
        let AggregateResult { value: body, diagnostics: mut more } = build_ir_from_scope(
            &f.body,
            &mut outer,
            true,
            false,
            settings,
        );
        diagnostics.append(&mut more);
        outer.end_scope(scope);
        match (init, condition, step, body) {
            (Some(i), Some(c), Some(st), Some(b)) => {
                let i = match i {
                    Some(i) => Some(Box::new(i)),
                    None => None,
                };
                AggregateResult {
                    value: Some(Some(StmtNode { span, stmt: Stmt::For(i, c, st, b) })),
                    diagnostics,
                }
            },
            _ => AggregateResult { value: None, diagnostics },
        }
    
        },
        _ => AggregateResult::new_ok(None),
    }
}

/// Lowers a `switch`.
fn build_ir_from_switch(statement: &StatementNode, scope: &mut FunctionScope, settings: &Settings) -> (r:
    AggregateResult<Option<StmtNode>>)
    requires
        old(scope).vars@.wf(),
        statement.data is Switch,
    ensures
        stmt_outcome(&r) == lowered_statement(statement@, old(scope)@, *settings).outcome,
        final(scope)@ == old(scope)@.with_vars(
            lowered_statement(statement@, old(scope)@, *settings).vars,
        ),
        final(scope).vars@.wf(),
        final(scope).vars@.scopes.len() == old(scope).vars@.scopes.len(),
    decreases statement, 0nat,
{
    let span = statement.span;
    proof {
        lemma_flagged(old(scope)@);
    }
    match &statement.data {
        Statement::Switch(sw) => {
        let AggregateResult { value: control, diagnostics } = build_ir_integer(
            &sw.expr,
            None,
            true,
            &scope.vars,
            settings,
        );
        let mut diagnostics = diagnostics;
        let ghost views = switch_case_views(sw.cases@);
        let ghost start = old(scope)@.inside_switch();
        let ghost control_type = type_where_lowered(&control);
        let mut cases: Vec<Case> = Vec::new();
        let mut failed = false;
        let mut more: Vec<Diagnostic> = Vec::new();
        let n: usize = sw.cases.len();
        let mut k: usize = 0;
        proof {
            assert(case_views(cases@) =~= Seq::empty());
            assert(start.with_vars(start.vars) == start);
        }
        while k < n
            invariant
                k <= n,
                n == sw.cases@.len(),
                statement.data matches Statement::Switch(whole) && whole == *sw,
                views == switch_case_views(sw.cases@),
                views.len() == n,
                start == old(scope)@.inside_switch(),
                control_type == type_where_lowered(&control),
                scope.vars@.wf(),
                scope.vars@.scopes.len() == old(scope).vars@.scopes.len(),
                scope@ == old(scope)@.with_vars(
                    lowered_cases(views, k as nat, control_type, start, *settings).vars,
                ),
                failed == (lowered_cases(
                    views,
                    k as nat,
                    control_type,
                    start,
                    *settings,
                ).cases is None),
                !failed ==> case_views(cases@) == lowered_cases(
                    views,
                    k as nat,
                    control_type,
                    start,
                    *settings,
                ).cases->0,
                more@ == lowered_cases(
                    views,
                    k as nat,
                    control_type,
                    start,
                    *settings,
                ).diagnostics,
            decreases n - k,
        {
            let ghost before = scope@;
            proof {
                assert(flagged(before, false, true) == start.with_vars(before.vars));
            }
            let (label, block) = match &sw.cases[k] {
                SwitchCase::Expr(c) => {
                    let control_ref = match &control {
                        Some(c) => Some(&c.ty),
                        None => None,
                    };
                    let AggregateResult { value, diagnostics: mut found } = build_ir_integer(
                        &c.expr,
                        control_ref,
                        false,
                        &scope.vars,
                        settings,
                    );
                    more.append(&mut found);
                    let label = match value {
                        Some(v) => Some(Some(v)),
                        None => None,
                    };
                    let AggregateResult { value: block, diagnostics: mut found } =
                        build_ir_from_scope(&c.body, scope, false, true, settings);
                    more.append(&mut found);
                    (label, block)
                },
                SwitchCase::Default(c) => {
                    let AggregateResult { value: block, diagnostics: mut found } =
                        build_ir_from_scope(&c.body, scope, false, true, settings);
                    more.append(&mut found);
                    (Some(None), block)
                },
            };
            match (label, block) {
                (Some(label), Some(body)) => {
                    if !failed {
                        push_case(&mut cases, Case { label, body });
                    }
                },
                _ => {
                    failed = true;
                },
            }
            k += 1;
        }
        diagnostics.append(&mut more);
        match control {
            Some(c) => {
                if failed {
                    AggregateResult { value: None, diagnostics }
                } else {
                    AggregateResult {
                        value: Some(Some(StmtNode { span, stmt: Stmt::Switch(c, cases) })),
                        diagnostics,
                    }
                }
            },
            None => AggregateResult { value: None, diagnostics },
        }
    
        },
        _ => AggregateResult::new_ok(None),
    }
}

/// Lowers a `return`.
fn build_ir_from_return(statement: &StatementNode, scope: &mut FunctionScope, settings: &Settings) -> (r:
    AggregateResult<Option<StmtNode>>)
    requires
        old(scope).vars@.wf(),
        statement.data is Return,
    ensures
        stmt_outcome(&r) == lowered_statement(statement@, old(scope)@, *settings).outcome,
        final(scope)@ == old(scope)@.with_vars(
            lowered_statement(statement@, old(scope)@, *settings).vars,
        ),
        final(scope).vars@.wf(),
        final(scope).vars@.scopes.len() == old(scope).vars@.scopes.len(),
    decreases statement, 0nat,
{
    let span = statement.span;
    proof {
        lemma_flagged(old(scope)@);
    }
    match &statement.data {
        Statement::Return(keyword, e) => {
        let AggregateResult { value, diagnostics } = build_ir_optional(
            e,
            false,
            &scope.vars,
            settings,
        );
        match value {
            Some(v) => {
                let next = match build_ir_return(v, *keyword, &scope.func_return_type.1) {
                    Some(stmt) => AggregateResult::new_ok(Some(StmtNode { span, stmt })),
                    None => AggregateResult::fail(*keyword, DiagnosticKind::TypeMismatch),
                };
                next.after(diagnostics)
            },
            None => AggregateResult { value: None, diagnostics },
        }
    
        },
        _ => AggregateResult::new_ok(None),
    }
}

/// Lowers a statement under the context `scope`.
pub fn build_ir_from_statement(
    statement: &StatementNode,
    scope: &mut FunctionScope,
    settings: &Settings,
) -> (r: AggregateResult<Option<StmtNode>>)
    requires
        old(scope).vars@.wf(),
    ensures
        stmt_outcome(&r) == lowered_statement(statement@, old(scope)@, *settings).outcome,
        final(scope)@ == old(scope)@.with_vars(
            lowered_statement(statement@, old(scope)@, *settings).vars,
        ),
        final(scope).vars@.wf(),
        final(scope).vars@.scopes.len() == old(scope).vars@.scopes.len(),
    decreases statement, 1nat,
{
    let span = statement.span;
    proof {
        lemma_flagged(old(scope)@);
    }
    match &statement.data {
        Statement::Declaration(decl) => build_ir_from_declaration(
            decl,
            span,
            &mut scope.vars,
            settings,
        ),
        Statement::Expression(e) => {
            let AggregateResult { value, diagnostics } = build_ir_expr(e, &scope.vars, settings);
            match value {
                Some(x) => AggregateResult {
                    value: Some(Some(StmtNode { span, stmt: Stmt::Expr(x) })),
                    diagnostics,
                },
                None => AggregateResult { value: None, diagnostics },
            }
        },
        Statement::If(_) => build_ir_from_if(statement, scope, settings),
        Statement::While(_) => build_ir_from_while(statement, scope, settings),
        Statement::For(_) => build_ir_from_for(statement, scope, settings),
        Statement::Switch(_) => build_ir_from_switch(statement, scope, settings),
        Statement::Break => {
            if scope.in_loop || scope.in_switch {
                AggregateResult::new_ok(Some(StmtNode { span, stmt: Stmt::Break }))
            } else {
                AggregateResult::fail(span, DiagnosticKind::MisplacedBreak)
            }
        },
        Statement::Continue => {
            if scope.in_loop {
                AggregateResult::new_ok(Some(StmtNode { span, stmt: Stmt::Continue }))
            } else {
                AggregateResult::fail(span, DiagnosticKind::MisplacedContinue)
            }
        },
        Statement::Return(_, _) => build_ir_from_return(statement, scope, settings),
        Statement::BlockStatement(b) => {
            let AggregateResult { value, diagnostics } = build_ir_from_scope(
                b,
                scope,
                false,
                false,
                settings,
            );
            match value {
                Some(block) => AggregateResult {
                    value: Some(Some(StmtNode { span, stmt: Stmt::Block(block) })),
                    diagnostics,
                },
                None => AggregateResult { value: None, diagnostics },
            }
        },
    }
}

// ---------------------------------------------------------------------------
// Functions and the translation unit
// ---------------------------------------------------------------------------

/// What declaring the parameters of a function gives: the ids of those that
/// were declared, the diagnostics, and the variables afterwards.
pub struct ParamProgress {
    pub ids: Seq<ItemId>,
    pub diagnostics: Seq<Diagnostic>,
    pub vars: Vars,
}

/// The first `n` parameters declared in order, each as an initialized
/// variable; a parameter without a name declares nothing.
pub open spec fn lowered_params(params: Seq<FunctionParamNodeView>, n: nat, vars: Vars) -> ParamProgress
    decreases n,
{
    if n == 0 || n > params.len() {
        ParamProgress { ids: Seq::empty(), diagnostics: Seq::empty(), vars }
    } else {
        let before = lowered_params(params, (n - 1) as nat, vars);
        match params[n - 1].ident {
            Some(ident) => {
                let location = declared_location(params[n - 1].ty, ident, before.vars);
                ParamProgress {
                    ids: match before.vars.declare_result(ident.data) {
                        Ok(id) => before.ids.push(id),
                        Err(_) => before.ids,
                    },
                    diagnostics: before.diagnostics + location.diagnostics,
                    vars: before.vars.declared(
                        ident.data,
                        declared_item(params[n - 1].ty, ident, true),
                    ),
                }
            },
            None => before,
        }
    }
}

/// The context at the start of the body of `f`, once the parameters are
/// declared.
pub open spec fn body_scope(f: FunctionDefinitionView, vars: Vars) -> FunctionScopeView {
    FunctionScopeView {
        vars: lowered_params(f.params, f.params.len(), vars.entered()).vars,
        func_return_type: (f.return_type.span, type_of(f.return_type.data.inner.data)),
        in_switch: false,
        in_loop: false,
    }
}

/// A function definition lowered: its parameters are declared in a scope of
/// the function's own, and the statements of its body are lowered in that
/// same scope, outside every loop and `switch`. Variadic functions are not
/// lowered yet.
pub open spec fn lowered_function(f: FunctionDefinitionView, span: Span, vars: Vars, settings: Settings) -> Step {
    if f.is_vararg {
        Step {
            outcome: Outcome::failure(
                span,
                DiagnosticKind::Unimplemented(Feature::VariadicFunctions),
            ),
            vars,
        }
    } else {
        let params = lowered_params(f.params, f.params.len(), vars.entered());
        let body = lowered_statements(f.body.0, f.body.0.len(), body_scope(f, vars), settings);
        Step {
            outcome: Outcome {
                value: Some(
                    Some(
                        StmtNodeView {
                            span,
                            stmt: StmtView::Function(
                                FunctionView {
                                    return_type: type_of(f.return_type.data.inner.data),
                                    params: params.ids,
                                    body: BlockView(body.stmts),
                                },
                            ),
                        },
                    ),
                ),
                diagnostics: params.diagnostics + body.diagnostics,
            },
            vars: body.vars.left(),
        }
    }
}

/// A top-level declaration lowered in the root scope.
pub open spec fn lowered_external(d: ExternalDeclarationNodeView, vars: Vars, settings: Settings) -> Step {
    match d.data {
        ExternalDeclarationView::FunctionDefinition(f) => lowered_function(f, d.span, vars, settings),
        ExternalDeclarationView::Declaration(decl) => lowered_declaration(
            decl,
            d.span,
            vars,
            settings,
        ),
    }
}

/// The first `n` top-level declarations lowered in order, from an empty
/// table.
pub open spec fn lowered_globals(
    decls: Seq<ExternalDeclarationNodeView>,
    n: nat,
    settings: Settings,
) -> Progress
    decreases n,
{
    if n == 0 || n > decls.len() {
        Progress {
            stmts: Seq::empty(),
            diagnostics: Seq::empty(),
            vars: ScopedTableView::empty(),
        }
    } else {
        let before = lowered_globals(decls, (n - 1) as nat, settings);
        let step = lowered_external(decls[n - 1], before.vars, settings);
        Progress {
            stmts: match step.outcome.value {
                Some(Some(s)) => before.stmts.push(s),
                _ => before.stmts,
            },
            diagnostics: before.diagnostics + step.outcome.diagnostics,
            vars: step.vars,
        }
    }
}

/// The translation unit lowered: the statements of the top-level
/// declarations that were lowered, the items of every declaration that was
/// taken, and the diagnostics of all. The root is there in any case; it is
/// complete only where there is no diagnostic.
pub open spec fn lowered_ast(a: AstView, settings: Settings) -> Outcome<RootView> {
    let all = lowered_globals(a.global, a.global.len(), settings);
    Outcome {
        value: Some(RootView { global: BlockView(all.stmts), table: all.vars.items }),
        diagnostics: all.diagnostics,
    }
}

/// Declares the parameters of a function in the innermost scope.
fn build_ir_from_params(
    params: &Vec<FunctionParamNode>,
    vars: &mut ScopedTable<Item>,
) -> (r: (Vec<ItemId>, Vec<Diagnostic>))
    requires
        old(vars)@.wf(),
    ensures
        r.0@ == lowered_params(param_views(params@), params@.len(), old(vars)@).ids,
        r.1@ == lowered_params(param_views(params@), params@.len(), old(vars)@).diagnostics,
        final(vars)@ == lowered_params(param_views(params@), params@.len(), old(vars)@).vars,
        final(vars)@.wf(),
        final(vars)@.scopes.len() == old(vars)@.scopes.len(),
{
    let ghost views = param_views(params@);
    let ghost start = old(vars)@;
    let mut ids: Vec<ItemId> = Vec::new();
    let mut diagnostics: Vec<Diagnostic> = Vec::new();
    let n: usize = params.len();
    let mut k: usize = 0;
    while k < n
        invariant
            k <= n,
            n == params@.len(),
            views == param_views(params@),
            start == old(vars)@,
            vars@.wf(),
            vars@.scopes.len() == start.scopes.len(),
            vars@ == lowered_params(views, k as nat, start).vars,
            ids@ == lowered_params(views, k as nat, start).ids,
            diagnostics@ == lowered_params(views, k as nat, start).diagnostics,
        decreases n - k,
    {
        match &params[k].ident {
            Some(ident) => {
                let AggregateResult { value, diagnostics: mut more } = declaration(
                    &params[k].ty,
                    ident,
                    true,
                    vars,
                );
                diagnostics.append(&mut more);
                match value {
                    Some(location) => match location.expr {
                        LvalueExpr::Ident(id) => {
                            ids.push(id);
                        },
                        _ => {},
                    },
                    None => {},
                }
            },
            None => {},
        }
        k += 1;
    }
    (ids, diagnostics)
}

/// Lowers a function definition at `span`.
pub fn build_ir_from_function(
    def: &FunctionDefinition,
    span: Span,
    vars: &mut ScopedTable<Item>,
    settings: &Settings,
) -> (r: AggregateResult<Option<StmtNode>>)
    requires
        old(vars)@.wf(),
    ensures
        stmt_outcome(&r) == lowered_function(def@, span, old(vars)@, *settings).outcome,
        final(vars)@ == lowered_function(def@, span, old(vars)@, *settings).vars,
        final(vars)@.wf(),
        final(vars)@.scopes.len() == old(vars)@.scopes.len(),
{
    if def.is_vararg {
        return AggregateResult::fail(
            span,
            DiagnosticKind::Unimplemented(Feature::VariadicFunctions),
        );
    }
    let mut table = ScopedTable::new();
    core::mem::swap(vars, &mut table);
    table.new_scope();
    let (params, diagnostics) = build_ir_from_params(&def.params, &mut table);
    let mut diagnostics = diagnostics;
    let return_type = CType::from_ast_type(&def.return_type.data.inner.data);
    let mut scope = FunctionScope::new(table, (def.return_type.span, return_type.duplicate()));
    assert(scope@ == body_scope(def@, old(vars)@));
    let AggregateResult { value: body, diagnostics: mut more } = build_ir_from_block(
        &def.body,
        &mut scope,
        settings,
    );
    diagnostics.append(&mut more);
    let mut table = scope.vars;
    table.close_scope();
    *vars = table;
    match body {
        Some(body) => AggregateResult {
            value: Some(
                Some(StmtNode { span, stmt: Stmt::Function(Function { return_type, params, body }) }),
            ),
            diagnostics,
        },
        None => AggregateResult { value: None, diagnostics },
    }
}

/// Lowers a top-level declaration in the root scope.
pub fn build_ir_from_external(
    decl: &ExternalDeclarationNode,
    vars: &mut ScopedTable<Item>,
    settings: &Settings,
) -> (r: AggregateResult<Option<StmtNode>>)
    requires
        old(vars)@.wf(),
    ensures
        stmt_outcome(&r) == lowered_external(decl@, old(vars)@, *settings).outcome,
        final(vars)@ == lowered_external(decl@, old(vars)@, *settings).vars,
        final(vars)@.wf(),
        final(vars)@.scopes.len() == old(vars)@.scopes.len(),
{
    match &decl.data {
        ExternalDeclaration::FunctionDefinition(def) => build_ir_from_function(
            def,
            decl.span,
            vars,
            settings,
        ),
        ExternalDeclaration::Declaration(d) => build_ir_from_declaration(
            d,
            decl.span,
            vars,
            settings,
        ),
    }
}

/// The outcome that a result of lowering a translation unit stands for.
pub open spec fn root_outcome(r: &AggregateResult<Root>) -> Outcome<RootView> {
    Outcome {
        value: match r.value {
            Some(root) => Some(root@),
            None => None,
        },
        diagnostics: r.diagnostics@,
    }
}

/// Lowers a translation unit to the typed intermediate representation for
/// the target of `settings`. Every error found is reported; the root holds
/// what could be lowered.
pub fn build_ir_from_ast(ast: &Ast, settings: &Settings) -> (r: AggregateResult<Root>)
    ensures
        root_outcome(&r) == lowered_ast(ast@, *settings),
        r.value matches Some(root) && root_ids_in_table(root@),
{
    let ghost views = ast@.global;
    let mut root_table: ScopedTable<Item> = ScopedTable::new();
    let mut stmts: Vec<StmtNode> = Vec::new();
    let mut diagnostics: Vec<Diagnostic> = Vec::new();
    let n: usize = ast.global.len();
    let mut k: usize = 0;
    proof {
        assert(stmt_views(stmts@) =~= Seq::empty());
    }
    while k < n
        invariant
            k <= n,
            n == ast.global@.len(),
            views == ast@.global,
            views.len() == n,
            root_table@.wf(),
            root_table@ == lowered_globals(views, k as nat, *settings).vars,
            stmt_views(stmts@) == lowered_globals(views, k as nat, *settings).stmts,
            diagnostics@ == lowered_globals(views, k as nat, *settings).diagnostics,
        decreases n - k,
    {
        let AggregateResult { value, diagnostics: mut more } = build_ir_from_external(
            &ast.global[k],
            &mut root_table,
            settings,
        );
        diagnostics.append(&mut more);
        match value {
            Some(Some(s)) => {
                push_stmt(&mut stmts, s);
            },
            _ => {},
        }
        k += 1;
    }
    let table = root_table.into_table();
    // the table is a vector, so its length fits the machine
    let _ = table.len();
    proof {
        lemma_lowered_ids_in_table(ast@, *settings);
    }
    AggregateResult { value: Some(Root { global: Block(stmts), table }), diagnostics }
}

} // verus!
