//! The lowering of expressions: every expression gets its type, operands are
//! brought to the type their operator works on by casts, and names are
//! resolved to item ids.

use vstd::prelude::*;
use crate::ast::{
    BinaryOperator, BinaryOperatorNode, Expression, ExpressionNode, ExpressionNodeView,
    ExpressionView, LiteralNode, LiteralNodeView, LiteralValue, LiteralValueView, Span,
    UnaryOperator, UnaryOperatorNode, expression_views,
};
use crate::diagnostic::{AggregateResult, Diagnostic, DiagnosticKind, Feature, Outcome};
use crate::ir::ctype::{Arithmetic, CType, Scalar, type_of};
use crate::ir::expr::{
    Constant, ConstantView, Expr, ExprNode, ExprNodeView, ExprView, LvalueExpr, LvalueExprNode,
    LvalueExprNodeView, LvalueExprView, expr_views,
};
use crate::ir::table::Item;
use crate::passes::lower_ast::symbol_table::{ScopedTable, ScopedTableView};
use crate::passes::lower_ast::util::{cast_to, find_first_fit, first_fit, maybe_cast};
use crate::settings::Settings;

verus! {

/// The variables in scope, as a mathematical state.
pub type Vars = ScopedTableView<Item>;

// ---------------------------------------------------------------------------
// What lowering makes of an expression
// ---------------------------------------------------------------------------

/// The types that an integer literal may take, in the order they are tried.
pub open spec fn literal_types() -> Seq<Arithmetic> {
    seq![Arithmetic::SignedInt, Arithmetic::SignedLongInt, Arithmetic::UnsignedLongInt]
}

/// The type `int`.
pub open spec fn int_type() -> CType {
    CType::arithmetic(Arithmetic::SignedInt)
}

/// The type of a string literal: pointer to `const char`.
pub open spec fn string_type() -> CType {
    CType::Scalar(Scalar::Pointer(Box::new(CType::arithmetic(Arithmetic::Char)), true))
}

/// An integer constant of the first permitted type that holds it; a
/// diagnostic where none does.
pub open spec fn lowered_integer(value: i128, span: Span, settings: Settings) -> Outcome<
    ExprNodeView,
> {
    match first_fit(value, literal_types(), settings) {
        Some(a) => Outcome::success(
            ExprNodeView {
                span,
                ty: CType::arithmetic(a),
                expr: ExprView::Constant(ConstantView::Integer(value)),
            },
        ),
        None => Outcome::failure(span, DiagnosticKind::LiteralOutOfRange),
    }
}

/// A literal as a constant: a character has type `int`, a floating literal
/// `double`, a string pointer to `const char`.
pub open spec fn lowered_literal(l: LiteralNodeView, settings: Settings) -> Outcome<ExprNodeView> {
    match l.data.value {
        LiteralValueView::Dec(v) => lowered_integer(v, l.span, settings),
        LiteralValueView::Hex(v) => lowered_integer(v, l.span, settings),
        LiteralValueView::Octal(v) => lowered_integer(v, l.span, settings),
        LiteralValueView::Char(c) => Outcome::success(
            ExprNodeView {
                span: l.span,
                ty: int_type(),
                expr: ExprView::Constant(ConstantView::Integer(c as i128)),
            },
        ),
        LiteralValueView::Float(bits) => Outcome::success(
            ExprNodeView {
                span: l.span,
                ty: CType::arithmetic(Arithmetic::Double),
                expr: ExprView::Constant(ConstantView::Float(bits)),
            },
        ),
        LiteralValueView::String(s) => Outcome::success(
            ExprNodeView {
                span: l.span,
                ty: string_type(),
                expr: ExprView::Constant(ConstantView::String(s)),
            },
        ),
    }
}

/// The operators that work on integers only.
pub open spec fn is_integer_operator(op: BinaryOperator) -> bool {
    op is Pipe || op is Caret || op is Ampersand || op is Percent || op is DoubleAngleLeft
        || op is DoubleAngleRight
}

/// The shift operators.
pub open spec fn is_shift(op: BinaryOperator) -> bool {
    op is DoubleAngleLeft || op is DoubleAngleRight
}

/// The operators whose result is a truth value of type `int`.
pub open spec fn yields_truth(op: BinaryOperator) -> bool {
    op is AngleLeft || op is AngleRight || op is DoubleEquals || op is BangEquals
        || op is AngleLeftEquals || op is AngleRightEquals || op is DoubleAmpersand
        || op is DoublePipe
}

/// A binary operator on lowered operands. Both have to be arithmetic, and
/// integers where the operator works on integers only. The operands of a
/// shift are promoted each on its own and the result has the type of the
/// left one; the operands of every other operator are cast to their common
/// type, which is the type of the result unless that is a truth value.
pub open spec fn typed_binary(
    l: ExprNodeView,
    op: BinaryOperatorNode,
    r: ExprNodeView,
    span: Span,
    settings: Settings,
) -> Outcome<ExprNodeView> {
    match (l.ty.as_arithmetic(), r.ty.as_arithmetic()) {
        (Some(a), Some(b)) => if is_integer_operator(op.data) && !(a.integral() && b.integral()) {
            Outcome::failure(op.span, DiagnosticKind::TypeMismatch)
        } else if is_shift(op.data) {
            let ta = CType::arithmetic(a.promoted(settings));
            let tb = CType::arithmetic(b.promoted(settings));
            Outcome::success(
                ExprNodeView {
                    span,
                    ty: ta,
                    expr: ExprView::Binary(
                        Box::new(cast_to(l, ta)),
                        op.data,
                        Box::new(cast_to(r, tb)),
                    ),
                },
            )
        } else {
            let common = CType::arithmetic(a.common(b, settings));
            Outcome::success(
                ExprNodeView {
                    span,
                    ty: if yields_truth(op.data) {
                        int_type()
                    } else {
                        common
                    },
                    expr: ExprView::Binary(
                        Box::new(cast_to(l, common)),
                        op.data,
                        Box::new(cast_to(r, common)),
                    ),
                },
            )
        },
        _ => Outcome::failure(op.span, DiagnosticKind::TypeMismatch),
    }
}

/// A unary operator on a lowered operand, for the operators that work on
/// values: `+` and `-` promote an arithmetic operand, `~` an integer one,
/// and `!` takes any scalar and gives an `int`.
pub open spec fn typed_unary(
    op: UnaryOperatorNode,
    x: ExprNodeView,
    span: Span,
    settings: Settings,
) -> Outcome<ExprNodeView> {
    match op.data {
        UnaryOperator::Plus | UnaryOperator::Minus | UnaryOperator::Tilde => match x.ty.as_arithmetic() {
            Some(a) => if op.data is Tilde && !a.integral() {
                Outcome::failure(op.span, DiagnosticKind::TypeMismatch)
            } else {
                let ty = CType::arithmetic(a.promoted(settings));
                Outcome::success(
                    ExprNodeView {
                        span,
                        ty,
                        expr: ExprView::Unary(op.data, Box::new(cast_to(x, ty))),
                    },
                )
            },
            None => Outcome::failure(op.span, DiagnosticKind::TypeMismatch),
        },
        UnaryOperator::Bang => if x.ty is Scalar {
            Outcome::success(
                ExprNodeView {
                    span,
                    ty: int_type(),
                    expr: ExprView::Unary(op.data, Box::new(x)),
                },
            )
        } else {
            Outcome::failure(op.span, DiagnosticKind::TypeMismatch)
        },
        _ => Outcome::failure(
            op.span,
            DiagnosticKind::Unimplemented(Feature::IncrementAndDecrement),
        ),
    }
}

/// Whether a value of type `from` converts to `to` without a cast being
/// written: between arithmetic types, and from a scalar type to itself.
pub open spec fn converts(from: CType, to: CType) -> bool {
    (from.as_arithmetic() is Some && to.as_arithmetic() is Some) || (from is Scalar && from == to)
}

/// Whether a written cast from `from` to `to` is allowed: between scalar
/// types, and from anything to `void`.
pub open spec fn casts(from: CType, to: CType) -> bool {
    (from is Scalar && to is Scalar) || to is Void
}

/// The assignment of `from` to the location `to`: refused where the location
/// is `const` or the value does not convert to its type; else the value is
/// cast to the type of the location, which is the type of the assignment.
pub open spec fn assigned(
    to: LvalueExprNodeView,
    from: ExprNodeView,
    span: Span,
    op_span: Span,
) -> Outcome<ExprNodeView> {
    if to.is_const {
        Outcome::failure(op_span, DiagnosticKind::AssignToConst)
    } else if !converts(from.ty, to.ty) {
        Outcome::failure(op_span, DiagnosticKind::TypeMismatch)
    } else {
        Outcome::success(
            ExprNodeView {
                span,
                ty: to.ty,
                expr: ExprView::Assign(Box::new(to), Box::new(cast_to(from, to.ty))),
            },
        )
    }
}

/// A written cast of a lowered operand.
pub open spec fn typed_cast(x: ExprNodeView, to: CType, span: Span) -> Outcome<ExprNodeView> {
    if casts(x.ty, to) {
        Outcome::success(cast_to(x, to))
    } else {
        Outcome::failure(span, DiagnosticKind::TypeMismatch)
    }
}

/// The value stored at a location.
pub open spec fn loaded(l: LvalueExprNodeView) -> ExprNodeView {
    ExprNodeView { span: l.span, ty: l.ty, expr: ExprView::LvalueDeref(Box::new(l)) }
}

/// The address of a location.
pub open spec fn address_of(l: LvalueExprNodeView, span: Span) -> ExprNodeView {
    ExprNodeView {
        span,
        ty: CType::Scalar(Scalar::Pointer(Box::new(l.ty), l.is_const)),
        expr: ExprView::Reference(Box::new(l)),
    }
}

/// The location that a pointer value points to.
pub open spec fn pointee(x: ExprNodeView, span: Span, op_span: Span) -> Outcome<LvalueExprNodeView> {
    match x.ty {
        CType::Scalar(Scalar::Pointer(inner, inner_const)) => Outcome::success(
            LvalueExprNodeView {
                span,
                is_const: inner_const,
                ty: *inner,
                expr: LvalueExprView::Dereference(Box::new(x)),
            },
        ),
        _ => Outcome::failure(op_span, DiagnosticKind::TypeMismatch),
    }
}

/// The type that a variadic argument of type `ty` is passed as: the default
/// promotion of an arithmetic type, any other type as it is.
pub open spec fn passed_type(ty: CType, settings: Settings) -> CType {
    match ty.as_arithmetic() {
        Some(a) => CType::arithmetic(a.default_promoted(settings)),
        None => ty,
    }
}

/// The arguments of a formatted print as they are passed: the format as it
/// is, every other argument cast to the type it is passed as.
pub open spec fn passed_args(args: Seq<ExprNodeView>, settings: Settings) -> Seq<ExprNodeView> {
    Seq::new(
        args.len(),
        |i: int|
            if i == 0 {
                args[i]
            } else {
                cast_to(args[i], passed_type(args[i].ty, settings))
            },
    )
}

/// The name of the formatted print.
pub open spec fn printf_name() -> Seq<char> {
    "printf"@
}

/// The location that an expression names: an identifier resolves to its item
/// and takes its type and constness from it; `*p` names what `p` points to;
/// nothing else names a location.
pub open spec fn lowered_lvalue(e: ExpressionNodeView, vars: Vars, settings: Settings) -> Outcome<
    LvalueExprNodeView,
>
    decreases e, 0nat,
{
    match e.data {
        ExpressionView::Ident(ident) => match vars.resolves(ident.data) {
            Some(id) => Outcome::success(
                LvalueExprNodeView {
                    span: e.span,
                    is_const: vars.items[id as int].is_const,
                    ty: vars.items[id as int].ty,
                    expr: LvalueExprView::Ident(id),
                },
            ),
            None => Outcome::failure(e.span, DiagnosticKind::Undeclared),
        },
        ExpressionView::Unary(op, x) => if op.data is Star {
            lowered_expr(*x, vars, settings).chain(
                |v: ExprNodeView| pointee(v, e.span, op.span),
            )
        } else {
            Outcome::failure(e.span, DiagnosticKind::NotAssignable)
        },
        _ => Outcome::failure(e.span, DiagnosticKind::NotAssignable),
    }
}

/// The first `n` of `args` lowered in order: all of them where each has a
/// payload, and the diagnostics of all of them in any case.
pub open spec fn lowered_args(
    args: Seq<ExpressionNodeView>,
    n: nat,
    vars: Vars,
    settings: Settings,
) -> Outcome<Seq<ExprNodeView>>
    decreases args, n,
{
    if n == 0 || n > args.len() {
        Outcome::success(Seq::empty())
    } else {
        let before = lowered_args(args, (n - 1) as nat, vars, settings);
        let last = lowered_expr(args[n - 1], vars, settings);
        Outcome {
            value: match (before.value, last.value) {
                (Some(b), Some(l)) => Some(b.push(l)),
                _ => None,
            },
            diagnostics: before.diagnostics + last.diagnostics,
        }
    }
}

/// The typed expression that an expression of the syntax tree lowers to,
/// with the diagnostics of all its parts. Subscripts, calls of anything but
/// `printf`, and increment and decrement are not lowered yet.
pub open spec fn lowered_expr(e: ExpressionNodeView, vars: Vars, settings: Settings) -> Outcome<
    ExprNodeView,
>
    decreases e, 1nat,
{
    match e.data {
        ExpressionView::Literal(l) => lowered_literal(l, settings),
        ExpressionView::Ident(_) => lowered_lvalue(e, vars, settings).map(
            |l: LvalueExprNodeView| loaded(l),
        ),
        ExpressionView::Assignment(l, eq, r) => lowered_lvalue(*l, vars, settings).join(
            lowered_expr(*r, vars, settings),
        ).chain(|p: (LvalueExprNodeView, ExprNodeView)| assigned(p.0, p.1, e.span, eq)),
        ExpressionView::Binary(l, op, r) => lowered_expr(*l, vars, settings).join(
            lowered_expr(*r, vars, settings),
        ).chain(|p: (ExprNodeView, ExprNodeView)| typed_binary(p.0, op, p.1, e.span, settings)),
        ExpressionView::Unary(op, x) => match op.data {
            UnaryOperator::Star => lowered_lvalue(e, vars, settings).map(
                |l: LvalueExprNodeView| loaded(l),
            ),
            UnaryOperator::Ampersand => lowered_lvalue(*x, vars, settings).map(
                |l: LvalueExprNodeView| address_of(l, e.span),
            ),
            _ => lowered_expr(*x, vars, settings).chain(
                |v: ExprNodeView| typed_unary(op, v, e.span, settings),
            ),
        },
        ExpressionView::Cast(ty, x) => lowered_expr(*x, vars, settings).chain(
            |v: ExprNodeView| typed_cast(v, type_of(ty.data.inner.data), e.span),
        ),
        ExpressionView::ArraySubscript(_, _) => Outcome::failure(
            e.span,
            DiagnosticKind::Unimplemented(Feature::ArraySubscripts),
        ),
        ExpressionView::FunctionCall(call) => if call.ident.data != printf_name() {
            Outcome::failure(e.span, DiagnosticKind::Unimplemented(Feature::FunctionCalls))
        } else if call.args.len() == 0 {
            Outcome::failure(e.span, DiagnosticKind::TypeMismatch)
        } else {
            lowered_args(call.args, call.args.len(), vars, settings).map(
                |args: Seq<ExprNodeView>|
                    ExprNodeView {
                        span: e.span,
                        ty: int_type(),
                        expr: ExprView::Printf(passed_args(args, settings)),
                    },
            )
        },
    }
}

// ---------------------------------------------------------------------------
// The lowering
// ---------------------------------------------------------------------------

/// The outcome that a result of lowering an expression stands for.
pub open spec fn expr_outcome(r: &AggregateResult<ExprNode>) -> Outcome<ExprNodeView> {
    Outcome {
        value: match r.value {
            Some(v) => Some(v@),
            None => None,
        },
        diagnostics: r.diagnostics@,
    }
}

/// The outcome that a result of lowering a location stands for.
pub open spec fn lvalue_outcome(r: &AggregateResult<LvalueExprNode>) -> Outcome<
    LvalueExprNodeView,
> {
    Outcome {
        value: match r.value {
            Some(v) => Some(v@),
            None => None,
        },
        diagnostics: r.diagnostics@,
    }
}

fn integer_operator(op: BinaryOperator) -> (r: bool)
    ensures
        r == is_integer_operator(op),
{
    match op {
        BinaryOperator::Pipe
        | BinaryOperator::Caret
        | BinaryOperator::Ampersand
        | BinaryOperator::Percent
        | BinaryOperator::DoubleAngleLeft
        | BinaryOperator::DoubleAngleRight => true,
        _ => false,
    }
}

fn shift_operator(op: BinaryOperator) -> (r: bool)
    ensures
        r == is_shift(op),
{
    match op {
        BinaryOperator::DoubleAngleLeft | BinaryOperator::DoubleAngleRight => true,
        _ => false,
    }
}

fn truth_operator(op: BinaryOperator) -> (r: bool)
    ensures
        r == yields_truth(op),
{
    match op {
        BinaryOperator::AngleLeft
        | BinaryOperator::AngleRight
        | BinaryOperator::DoubleEquals
        | BinaryOperator::BangEquals
        | BinaryOperator::AngleLeftEquals
        | BinaryOperator::AngleRightEquals
        | BinaryOperator::DoubleAmpersand
        | BinaryOperator::DoublePipe => true,
        _ => false,
    }
}

fn new_int_type() -> (r: CType)
    ensures
        r == int_type(),
{
    CType::new_arithmetic(Arithmetic::SignedInt)
}

/// Lowers an integer literal to a constant of the first permitted type that
/// holds it.
pub fn integer_constant(value: i128, span: Span, settings: &Settings) -> (r: AggregateResult<
    ExprNode,
>)
    ensures
        expr_outcome(&r) == lowered_integer(value, span, *settings),
{
    let order = [Arithmetic::SignedInt, Arithmetic::SignedLongInt, Arithmetic::UnsignedLongInt];
    proof {
        assert(order@ =~= literal_types());
    }
    match find_first_fit(value, order.as_slice(), settings) {
        Some(a) => AggregateResult::new_ok(
            ExprNode {
                span,
                ty: CType::new_arithmetic(a),
                expr: Expr::Constant(Constant::Integer(value)),
            },
        ),
        None => AggregateResult::fail(span, DiagnosticKind::LiteralOutOfRange),
    }
}

/// Lowers a literal.
pub fn literal(l: &LiteralNode, settings: &Settings) -> (r: AggregateResult<ExprNode>)
    ensures
        expr_outcome(&r) == lowered_literal(l@, *settings),
{
    match &l.data.value {
        LiteralValue::Dec(v) => integer_constant(*v, l.span, settings),
        LiteralValue::Hex(v) => integer_constant(*v, l.span, settings),
        LiteralValue::Octal(v) => integer_constant(*v, l.span, settings),
        LiteralValue::Char(c) => AggregateResult::new_ok(
            ExprNode {
                span: l.span,
                ty: new_int_type(),
                expr: Expr::Constant(Constant::Integer(*c as i128)),
            },
        ),
        LiteralValue::Float(bits) => AggregateResult::new_ok(
            ExprNode {
                span: l.span,
                ty: CType::new_arithmetic(Arithmetic::Double),
                expr: Expr::Constant(Constant::Float(*bits)),
            },
        ),
        LiteralValue::String(s) => AggregateResult::new_ok(
            ExprNode {
                span: l.span,
                ty: CType::Scalar(
                    Scalar::Pointer(Box::new(CType::new_arithmetic(Arithmetic::Char)), true),
                ),
                expr: Expr::Constant(Constant::String(s.clone())),
            },
        ),
    }
}

/// Types a binary operator on lowered operands and casts them as the
/// operator needs.
pub fn binary(
    l: ExprNode,
    op: &BinaryOperatorNode,
    r: ExprNode,
    span: Span,
    settings: &Settings,
) -> (res: AggregateResult<ExprNode>)
    ensures
        expr_outcome(&res) == typed_binary(l@, *op, r@, span, *settings),
{
    match (l.ty.get_arithmetic(), r.ty.get_arithmetic()) {
        (Some(a), Some(b)) => {
            if integer_operator(op.data) && !(a.is_integral() && b.is_integral()) {
                AggregateResult::fail(op.span, DiagnosticKind::TypeMismatch)
            } else if shift_operator(op.data) {
                let ta = a.promote(settings);
                let tb = b.promote(settings);
                AggregateResult::new_ok(
                    ExprNode {
                        span,
                        ty: CType::new_arithmetic(ta),
                        expr: Expr::Binary(
                            Box::new(maybe_cast(l, CType::new_arithmetic(ta))),
                            op.data,
                            Box::new(maybe_cast(r, CType::new_arithmetic(tb))),
                        ),
                    },
                )
            } else {
                let common = a.usual_arithmetic_conversion(&b, settings);
                let ty = if truth_operator(op.data) {
                    new_int_type()
                } else {
                    CType::new_arithmetic(common)
                };
                AggregateResult::new_ok(
                    ExprNode {
                        span,
                        ty,
                        expr: Expr::Binary(
                            Box::new(maybe_cast(l, CType::new_arithmetic(common))),
                            op.data,
                            Box::new(maybe_cast(r, CType::new_arithmetic(common))),
                        ),
                    },
                )
            }
        },
        _ => AggregateResult::fail(op.span, DiagnosticKind::TypeMismatch),
    }
}

/// Types a unary operator that works on a value.
pub fn unary(op: &UnaryOperatorNode, x: ExprNode, span: Span, settings: &Settings) -> (res:
    AggregateResult<ExprNode>)
    ensures
        expr_outcome(&res) == typed_unary(*op, x@, span, *settings),
{
    match op.data {
        UnaryOperator::Plus | UnaryOperator::Minus | UnaryOperator::Tilde => {
            match x.ty.get_arithmetic() {
                Some(a) => {
                    let tilde = match op.data {
                        UnaryOperator::Tilde => true,
                        _ => false,
                    };
                    if tilde && !a.is_integral() {
                        AggregateResult::fail(op.span, DiagnosticKind::TypeMismatch)
                    } else {
                        let p = a.promote(settings);
                        AggregateResult::new_ok(
                            ExprNode {
                                span,
                                ty: CType::new_arithmetic(p),
                                expr: Expr::Unary(
                                    op.data,
                                    Box::new(maybe_cast(x, CType::new_arithmetic(p))),
                                ),
                            },
                        )
                    }
                },
                None => AggregateResult::fail(op.span, DiagnosticKind::TypeMismatch),
            }
        },
        UnaryOperator::Bang => {
            let scalar = match &x.ty {
                CType::Scalar(_) => true,
                CType::Void => false,
            };
            if scalar {
                AggregateResult::new_ok(
                    ExprNode { span, ty: new_int_type(), expr: Expr::Unary(op.data, Box::new(x)) },
                )
            } else {
                AggregateResult::fail(op.span, DiagnosticKind::TypeMismatch)
            }
        },
        _ => AggregateResult::fail(
            op.span,
            DiagnosticKind::Unimplemented(Feature::IncrementAndDecrement),
        ),
    }
}

/// Whether a value of type `from` converts to `to` without a written cast.
pub fn can_convert(from: &CType, to: &CType) -> (r: bool)
    ensures
        r == converts(*from, *to),
{
    if from.get_arithmetic().is_some() && to.get_arithmetic().is_some() {
        return true;
    }
    match from {
        CType::Scalar(_) => from.same(to),
        CType::Void => false,
    }
}

fn can_cast(from: &CType, to: &CType) -> (r: bool)
    ensures
        r == casts(*from, *to),
{
    match to {
        CType::Void => true,
        CType::Scalar(_) => match from {
            CType::Scalar(_) => true,
            CType::Void => false,
        },
    }
}

/// Builds the assignment of `from` to the location `to`. `span` is that of
/// the whole assignment, `op_span` that of its `=`.
pub fn assign(to: LvalueExprNode, from: ExprNode, span: Span, op_span: Span) -> (res:
    AggregateResult<ExprNode>)
    ensures
        expr_outcome(&res) == assigned(to@, from@, span, op_span),
{
    if to.is_const {
        AggregateResult::fail(op_span, DiagnosticKind::AssignToConst)
    } else if !can_convert(&from.ty, &to.ty) {
        AggregateResult::fail(op_span, DiagnosticKind::TypeMismatch)
    } else {
        let ty = to.ty.duplicate();
        let value = maybe_cast(from, to.ty.duplicate());
        AggregateResult::new_ok(
            ExprNode { span, ty, expr: Expr::Assign(Box::new(to), Box::new(value)) },
        )
    }
}

/// Builds a written cast of `x` to `to`.
pub fn cast(x: ExprNode, to: CType, span: Span) -> (res: AggregateResult<ExprNode>)
    ensures
        expr_outcome(&res) == typed_cast(x@, to, span),
{
    if can_cast(&x.ty, &to) {
        AggregateResult::new_ok(maybe_cast(x, to))
    } else {
        AggregateResult::fail(span, DiagnosticKind::TypeMismatch)
    }
}

fn load(l: LvalueExprNode) -> (r: ExprNode)
    ensures
        r@ == loaded(l@),
{
    ExprNode { span: l.span, ty: l.ty.duplicate(), expr: Expr::LvalueDeref(Box::new(l)) }
}

fn reference(l: LvalueExprNode, span: Span) -> (r: ExprNode)
    ensures
        r@ == address_of(l@, span),
{
    ExprNode {
        span,
        ty: CType::Scalar(Scalar::Pointer(Box::new(l.ty.duplicate()), l.is_const)),
        expr: Expr::Reference(Box::new(l)),
    }
}

fn dereference(x: ExprNode, span: Span, op_span: Span) -> (res: AggregateResult<LvalueExprNode>)
    ensures
        lvalue_outcome(&res) == pointee(x@, span, op_span),
{
    let target = match &x.ty {
        CType::Scalar(Scalar::Pointer(inner, inner_const)) => Some((inner.duplicate(), *inner_const)),
        _ => None,
    };
    match target {
        Some((ty, is_const)) => AggregateResult::new_ok(
            LvalueExprNode { span, is_const, ty, expr: LvalueExpr::Dereference(Box::new(x)) },
        ),
        None => AggregateResult::fail(op_span, DiagnosticKind::TypeMismatch),
    }
}

fn is_printf(name: &String) -> (r: bool)
    ensures
        r == (name@ == printf_name()),
{
    let printf = "printf".to_owned();
    *name == printf
}

/// Casts the arguments of a formatted print to the types they are passed as.
fn pass_args(args: Vec<ExprNode>, settings: &Settings) -> (r: Vec<ExprNode>)
    ensures
        expr_views(r@) == passed_args(expr_views(args@), *settings),
{
    let mut args = args;
    let mut passed: Vec<ExprNode> = Vec::new();
    let ghost all = expr_views(args@);
    let n: usize = args.len();
    // the arguments are taken from the back and put in order afterwards
    let mut reversed: Vec<ExprNode> = Vec::new();
    let mut k: usize = n;
    while k > 0
        invariant
            k == args@.len(),
            k <= n,
            all.len() == n,
            reversed@.len() == n - k,
            forall|j: int| 0 <= j < k ==> (#[trigger] args@[j])@ == all[j],
            forall|j: int|
                0 <= j < n - k ==> (#[trigger] reversed@[j])@ == passed_args(all, *settings)[n - 1
                    - j],
        decreases k,
    {
        let arg = args.pop().unwrap();
        k -= 1;
        let arg = if k == 0 {
            arg
        } else {
            let ty = match arg.ty.get_arithmetic() {
                Some(a) => CType::new_arithmetic(a.default_promote(settings)),
                None => arg.ty.duplicate(),
            };
            maybe_cast(arg, ty)
        };
        reversed.push(arg);
    }
    let mut m: usize = n;
    while m > 0
        invariant
            m == reversed@.len(),
            m <= n,
            all.len() == n,
            passed@.len() == n - m,
            forall|j: int|
                0 <= j < m ==> (#[trigger] reversed@[j])@ == passed_args(all, *settings)[n - 1
                    - j],
            forall|j: int|
                0 <= j < n - m ==> (#[trigger] passed@[j])@ == passed_args(all, *settings)[j],
        decreases m,
    {
        let arg = reversed.pop().unwrap();
        m -= 1;
        passed.push(arg);
    }
    proof {
        assert(expr_views(passed@) =~= passed_args(all, *settings));
    }
    passed
}

/// Lowers an expression that has to name a location.
pub fn build_ir_lvalue(e: &ExpressionNode, vars: &ScopedTable<Item>, settings: &Settings) -> (r:
    AggregateResult<LvalueExprNode>)
    requires
        vars@.wf(),
    ensures
        lvalue_outcome(&r) == lowered_lvalue(e@, vars@, *settings),
    decreases e, 0nat,
{
    match &e.data {
        Expression::Ident(ident) => match vars.lookup(&ident.data) {
            Some(id) => {
                let item = vars.get(id);
                AggregateResult::new_ok(
                    LvalueExprNode {
                        span: e.span,
                        is_const: item.is_const,
                        ty: item.ty.duplicate(),
                        expr: LvalueExpr::Ident(id),
                    },
                )
            },
            None => AggregateResult::fail(e.span, DiagnosticKind::Undeclared),
        },
        Expression::Unary(op, x) => match op.data {
            UnaryOperator::Star => {
                let AggregateResult { value, diagnostics } = build_ir_expr(x, vars, settings);
                match value {
                    Some(v) => dereference(v, e.span, op.span).after(diagnostics),
                    None => AggregateResult { value: None, diagnostics },
                }
            },
            _ => AggregateResult::fail(e.span, DiagnosticKind::NotAssignable),
        },
        _ => AggregateResult::fail(e.span, DiagnosticKind::NotAssignable),
    }
}

/// Lowers the first `n` arguments of a call in order.
fn build_ir_args(
    args: &Vec<ExpressionNode>,
    vars: &ScopedTable<Item>,
    settings: &Settings,
) -> (r: AggregateResult<Vec<ExprNode>>)
    requires
        vars@.wf(),
    ensures
        r.diagnostics@ == lowered_args(
            expression_views(args@),
            args@.len(),
            vars@,
            *settings,
        ).diagnostics,
        match r.value {
            Some(v) => Some(expr_views(v@)),
            None => None,
        } == lowered_args(
            expression_views(args@),
            args@.len(),
            vars@,
            *settings,
        ).value,
    decreases args, 0nat,
{
    let ghost views = expression_views(args@);
    let mut done: Vec<ExprNode> = Vec::new();
    let mut failed = false;
    let mut diagnostics: Vec<Diagnostic> = Vec::new();
    let n: usize = args.len();
    let mut k: usize = 0;
    while k < n
        invariant
            vars@.wf(),
            k <= n,
            n == args@.len(),
            views == expression_views(args@),
            diagnostics@ == lowered_args(views, k as nat, vars@, *settings).diagnostics,
            failed == (lowered_args(views, k as nat, vars@, *settings).value is None),
            !failed ==> expr_views(done@) == lowered_args(
                views,
                k as nat,
                vars@,
                *settings,
            ).value->0,
        decreases n - k,
    {
        let AggregateResult { value, diagnostics: mut more } = build_ir_expr(
            &args[k],
            vars,
            settings,
        );
        diagnostics.append(&mut more);
        let ghost before = expr_views(done@);
        match value {
            Some(v) => {
                if !failed {
                    done.push(v);
                    proof {
                        assert(expr_views(done@) =~= before.push(v@));
                    }
                }
            },
            None => {
                failed = true;
            },
        }
        k += 1;
    }
    if failed {
        AggregateResult { value: None, diagnostics }
    } else {
        AggregateResult { value: Some(done), diagnostics }
    }
}

/// Lowers an expression to a typed expression of the intermediate
/// representation, and reports every error found in it.
pub fn build_ir_expr(e: &ExpressionNode, vars: &ScopedTable<Item>, settings: &Settings) -> (r:
    AggregateResult<ExprNode>)
    requires
        vars@.wf(),
    ensures
        expr_outcome(&r) == lowered_expr(e@, vars@, *settings),
    decreases e, 1nat,
{
    match &e.data {
        Expression::Literal(l) => literal(l, settings),
        Expression::Ident(_) => {
            let AggregateResult { value, diagnostics } = build_ir_lvalue(e, vars, settings);
            match value {
                Some(l) => AggregateResult { value: Some(load(l)), diagnostics },
                None => AggregateResult { value: None, diagnostics },
            }
        },
        Expression::Assignment(l, eq, r) => {
            let to = build_ir_lvalue(l, vars, settings);
            let from = build_ir_expr(r, vars, settings);
            let AggregateResult { value, diagnostics } = to.zip(from);
            match value {
                Some((to, from)) => assign(to, from, e.span, *eq).after(diagnostics),
                None => AggregateResult { value: None, diagnostics },
            }
        },
        Expression::Binary(l, op, r) => {
            let lhs = build_ir_expr(l, vars, settings);
            let rhs = build_ir_expr(r, vars, settings);
            let AggregateResult { value, diagnostics } = lhs.zip(rhs);
            match value {
                Some((lhs, rhs)) => binary(lhs, op, rhs, e.span, settings).after(diagnostics),
                None => AggregateResult { value: None, diagnostics },
            }
        },
        Expression::Unary(op, x) => match op.data {
            UnaryOperator::Star => {
                let AggregateResult { value, diagnostics } = build_ir_lvalue(e, vars, settings);
                match value {
                    Some(l) => AggregateResult { value: Some(load(l)), diagnostics },
                    None => AggregateResult { value: None, diagnostics },
                }
            },
            UnaryOperator::Ampersand => {
                let AggregateResult { value, diagnostics } = build_ir_lvalue(x, vars, settings);
                match value {
                    Some(l) => AggregateResult { value: Some(reference(l, e.span)), diagnostics },
                    None => AggregateResult { value: None, diagnostics },
                }
            },
            _ => {
                let AggregateResult { value, diagnostics } = build_ir_expr(x, vars, settings);
                match value {
                    Some(v) => unary(op, v, e.span, settings).after(diagnostics),
                    None => AggregateResult { value: None, diagnostics },
                }
            },
        },
        Expression::Cast(ty, x) => {
            let AggregateResult { value, diagnostics } = build_ir_expr(x, vars, settings);
            match value {
                Some(v) => cast(v, CType::from_ast_type(&ty.data.inner.data), e.span).after(
                    diagnostics,
                ),
                None => AggregateResult { value: None, diagnostics },
            }
        },
        Expression::ArraySubscript(_, _) => AggregateResult::fail(
            e.span,
            DiagnosticKind::Unimplemented(Feature::ArraySubscripts),
        ),
        Expression::FunctionCall(call) => {
            if !is_printf(&call.ident.data) {
                AggregateResult::fail(e.span, DiagnosticKind::Unimplemented(Feature::FunctionCalls))
            } else if call.args.len() == 0 {
                AggregateResult::fail(e.span, DiagnosticKind::TypeMismatch)
            } else {
                let AggregateResult { value, diagnostics } = build_ir_args(
                    &call.args,
                    vars,
                    settings,
                );
                let r = match value {
                    Some(args) => AggregateResult {
                        value: Some(
                            ExprNode {
                                span: e.span,
                                ty: new_int_type(),
                                expr: Expr::Printf(pass_args(args, settings)),
                            },
                        ),
                        diagnostics,
                    },
                    None => AggregateResult { value: None, diagnostics },
                };
                assert(expr_outcome(&r) == lowered_expr(e@, vars@, *settings));
                r
            }
        },
    }
}

} // verus!
