//! Constant folding with local copy propagation.
//!
//! The pass evaluates over two kinds of values: 128-bit signed integers and
//! IEEE 754 binary64 numbers, the latter held as bit patterns. Integer
//! arithmetic, every comparison and the logical operators are decided here.
//! Rounding floating-point arithmetic is left to a floating-point unit that
//! the caller supplies as a function from [`FloatOp`] to an optional result;
//! where it gives none, the operation stays in the tree.

use vstd::prelude::*;
use crate::ast::{
    ArrayDeclaration, ArrayDeclarationNodeView, ArrayDeclarationView, Ast, AstView, BinaryOperator,
    BlockStatement, BlockStatementView, Declaration, DeclarationView, Expression, ExpressionNode,
    ExpressionNodeView, ExpressionView, ExternalDeclaration, ExternalDeclarationNodeView,
    ExternalDeclarationView, ForStatementView, FunctionCallView, FunctionDefinitionView,
    IfStatementView, Literal, LiteralNode, LiteralNodeView, LiteralValue, LiteralValueView,
    LiteralView, Span, Statement, StatementNodeView, StatementView, SwitchCase,
    SwitchCaseDefaultView, SwitchCaseExprView, SwitchCaseView, SwitchStatement, SwitchStatementView,
    UnaryOperator, VariableDeclarationView, WhileStatementView, array_part_views, expression_views,
    optional_expression_view, statement_views, switch_case_views,
};

verus! {

/// A value known at compile time.
#[derive(Debug, Clone, Copy, PartialEq, Eq, Structural)]
pub enum Value {
    Int(i128),
    /// The bit pattern of a binary64 number.
    Float(u64),
}

/// A request to the floating-point unit. Operands and results are binary64
/// bit patterns.
#[derive(Debug, Clone, Copy, PartialEq, Eq, Structural)]
pub enum FloatOp {
    /// The binary64 number nearest to an integer.
    FromInt(i128),
    Add(u64, u64),
    Sub(u64, u64),
    Mul(u64, u64),
    Div(u64, u64),
}

/// What the floating-point unit answers to each request, as a mathematical
/// function.
pub type FloatUnit = spec_fn(FloatOp) -> Option<u64>;

/// The copy-propagation fact: the one variable whose value is known, if any.
pub type Fact = Option<(Seq<char>, Value)>;

/// The sign bit of a binary64 bit pattern.
pub const SIGN_BIT: u64 = 0x8000_0000_0000_0000;

/// The bit pattern of positive infinity; every NaN has a larger magnitude.
pub const INFINITY_BITS: u64 = 0x7ff0_0000_0000_0000;

// ---------------------------------------------------------------------------
// Integers
// ---------------------------------------------------------------------------

/// Whether an integer is a 128-bit signed integer.
pub open spec fn fits_i128(x: int) -> bool {
    i128::MIN <= x <= i128::MAX
}

/// An integer as a 128-bit signed integer, where it is one.
pub open spec fn checked(x: int) -> Option<i128> {
    if fits_i128(x) {
        Some(x as i128)
    } else {
        None
    }
}

/// The absolute value.
pub open spec fn magnitude(x: int) -> int {
    if x < 0 {
        -x
    } else {
        x
    }
}

/// The quotient of `a` by `b` rounded towards zero.
pub open spec fn truncated_quotient(a: int, b: int) -> int
    recommends
        b != 0,
{
    if (a < 0) == (b < 0) {
        magnitude(a) / magnitude(b)
    } else {
        -(magnitude(a) / magnitude(b))
    }
}

/// The remainder that goes with [`truncated_quotient`]; it has the sign of `a`.
pub open spec fn truncated_remainder(a: int, b: int) -> int
    recommends
        b != 0,
{
    if a < 0 {
        -(magnitude(a) % magnitude(b))
    } else {
        magnitude(a) % magnitude(b)
    }
}

/// A truth value as an integer: 1 for true, 0 for false.
pub open spec fn truth(b: bool) -> i128 {
    if b {
        1
    } else {
        0
    }
}

/// The value of `a op b` on 128-bit integers, or `None` where evaluating it
/// would trap (overflow, division by zero, a shift count outside `0..128`) or
/// where the operator is not folded.
pub open spec fn int_binary(op: BinaryOperator, a: i128, b: i128) -> Option<i128> {
    match op {
        BinaryOperator::Plus => checked(a + b),
        BinaryOperator::Minus => checked(a - b),
        BinaryOperator::Star => checked(a * b),
        BinaryOperator::Slash => if b == 0 {
            None
        } else {
            checked(truncated_quotient(a as int, b as int))
        },
        BinaryOperator::Percent => if b == 0 || (a == i128::MIN && b == -1) {
            None
        } else {
            Some(truncated_remainder(a as int, b as int) as i128)
        },
        BinaryOperator::Pipe => Some(a | b),
        BinaryOperator::Caret => Some(a ^ b),
        BinaryOperator::Ampersand => Some(a & b),
        BinaryOperator::AngleLeft => Some(truth(a < b)),
        BinaryOperator::AngleRight => Some(truth(a > b)),
        BinaryOperator::DoubleEquals => Some(truth(a == b)),
        BinaryOperator::BangEquals => Some(truth(a != b)),
        BinaryOperator::AngleLeftEquals => Some(truth(a <= b)),
        BinaryOperator::AngleRightEquals => Some(truth(a >= b)),
        BinaryOperator::DoubleAmpersand => Some(truth(a != 0 && b != 0)),
        BinaryOperator::DoublePipe => Some(truth(a != 0 || b != 0)),
        BinaryOperator::DoubleAngleLeft => if 0 <= b < 128 {
            Some(a << b)
        } else {
            None
        },
        BinaryOperator::DoubleAngleRight => None,
    }
}

fn truth_value(b: bool) -> (r: i128)
    ensures
        r == truth(b),
{
    if b {
        1
    } else {
        0
    }
}

fn fold_int_quotient(a: i128, b: i128) -> (r: Option<i128>)
    ensures
        r == int_binary(BinaryOperator::Slash, a, b),
{
    a.checked_div(b)
}

fn fold_int_remainder(a: i128, b: i128) -> (r: Option<i128>)
    ensures
        r == int_binary(BinaryOperator::Percent, a, b),
{
    a.checked_rem(b)
}

/// Evaluates `a op b` on 128-bit integers.
pub fn fold_int_binary(op: BinaryOperator, a: i128, b: i128) -> (r: Option<i128>)
    ensures
        r == int_binary(op, a, b),
{
    match op {
        BinaryOperator::Plus => a.checked_add(b),
        BinaryOperator::Minus => a.checked_sub(b),
        BinaryOperator::Star => a.checked_mul(b),
        BinaryOperator::Slash => fold_int_quotient(a, b),
        BinaryOperator::Percent => fold_int_remainder(a, b),
        BinaryOperator::Pipe => Some(a | b),
        BinaryOperator::Caret => Some(a ^ b),
        BinaryOperator::Ampersand => Some(a & b),
        BinaryOperator::AngleLeft => Some(truth_value(a < b)),
        BinaryOperator::AngleRight => Some(truth_value(a > b)),
        BinaryOperator::DoubleEquals => Some(truth_value(a == b)),
        BinaryOperator::BangEquals => Some(truth_value(a != b)),
        BinaryOperator::AngleLeftEquals => Some(truth_value(a <= b)),
        BinaryOperator::AngleRightEquals => Some(truth_value(a >= b)),
        BinaryOperator::DoubleAmpersand => Some(truth_value(a != 0 && b != 0)),
        BinaryOperator::DoublePipe => Some(truth_value(a != 0 || b != 0)),
        BinaryOperator::DoubleAngleLeft => if 0 <= b && b < 128 {
            Some(a << b)
        } else {
            None
        },
        BinaryOperator::DoubleAngleRight => None,
    }
}

// ---------------------------------------------------------------------------
// Binary64 bit patterns
// ---------------------------------------------------------------------------

/// The bit pattern without its sign bit.
pub open spec fn float_magnitude(bits: u64) -> int {
    if bits >= SIGN_BIT {
        bits - SIGN_BIT
    } else {
        bits as int
    }
}

/// Whether the bit pattern is a NaN.
pub open spec fn float_is_nan(bits: u64) -> bool {
    float_magnitude(bits) > INFINITY_BITS
}

/// Positive and negative zero.
pub open spec fn float_is_zero(bits: u64) -> bool {
    float_magnitude(bits) == 0
}

/// An integer that orders the numbers that are not NaN as the numbers
/// themselves are ordered; both zeros get 0.
pub open spec fn float_order_key(bits: u64) -> int {
    if bits >= SIGN_BIT {
        -float_magnitude(bits)
    } else {
        float_magnitude(bits)
    }
}

/// Both operands are numbers, so that they compare at all.
pub open spec fn float_ordered(a: u64, b: u64) -> bool {
    !float_is_nan(a) && !float_is_nan(b)
}

/// The same number with the opposite sign.
pub open spec fn float_negated(bits: u64) -> u64 {
    if bits >= SIGN_BIT {
        (bits - SIGN_BIT) as u64
    } else {
        (bits + SIGN_BIT) as u64
    }
}

/// The truth of `a op b` for a comparison operator on binary64 numbers: every
/// comparison with a NaN is false but `!=`.
pub open spec fn float_comparison(op: BinaryOperator, a: u64, b: u64) -> Option<bool> {
    let ordered = float_ordered(a, b);
    let ka = float_order_key(a);
    let kb = float_order_key(b);
    match op {
        BinaryOperator::AngleLeft => Some(ordered && ka < kb),
        BinaryOperator::AngleRight => Some(ordered && ka > kb),
        BinaryOperator::DoubleEquals => Some(ordered && ka == kb),
        BinaryOperator::BangEquals => Some(!(ordered && ka == kb)),
        BinaryOperator::AngleLeftEquals => Some(ordered && ka <= kb),
        BinaryOperator::AngleRightEquals => Some(ordered && ka >= kb),
        _ => None,
    }
}

/// The request that `a op b` makes of the floating-point unit, for the four
/// arithmetic operators.
pub open spec fn float_request(op: BinaryOperator, a: u64, b: u64) -> Option<FloatOp> {
    match op {
        BinaryOperator::Plus => Some(FloatOp::Add(a, b)),
        BinaryOperator::Minus => Some(FloatOp::Sub(a, b)),
        BinaryOperator::Star => Some(FloatOp::Mul(a, b)),
        BinaryOperator::Slash => Some(FloatOp::Div(a, b)),
        _ => None,
    }
}

fn float_magnitude_of(bits: u64) -> (r: u64)
    ensures
        r == float_magnitude(bits),
{
    if bits >= SIGN_BIT {
        bits - SIGN_BIT
    } else {
        bits
    }
}

fn float_zero(bits: u64) -> (r: bool)
    ensures
        r == float_is_zero(bits),
{
    float_magnitude_of(bits) == 0
}

fn float_negate(bits: u64) -> (r: u64)
    ensures
        r == float_negated(bits),
{
    if bits >= SIGN_BIT {
        bits - SIGN_BIT
    } else {
        bits + SIGN_BIT
    }
}

/// Compares two binary64 numbers by their bit patterns.
pub fn fold_float_comparison(op: BinaryOperator, a: u64, b: u64) -> (r: Option<bool>)
    ensures
        r == float_comparison(op, a, b),
{
    let ma = float_magnitude_of(a);
    let mb = float_magnitude_of(b);
    let ordered = ma <= INFINITY_BITS && mb <= INFINITY_BITS;
    let na = a >= SIGN_BIT;
    let nb = b >= SIGN_BIT;
    // key(a) < key(b) and key(a) == key(b), decided without leaving u64
    let less = if na {
        if nb {
            mb < ma
        } else {
            ma > 0 || mb > 0
        }
    } else {
        if nb {
            false
        } else {
            ma < mb
        }
    };
    let equal = if na == nb {
        ma == mb
    } else {
        ma == 0 && mb == 0
    };
    match op {
        BinaryOperator::AngleLeft => Some(ordered && less),
        BinaryOperator::AngleRight => Some(ordered && !less && !equal),
        BinaryOperator::DoubleEquals => Some(ordered && equal),
        BinaryOperator::BangEquals => Some(!(ordered && equal)),
        BinaryOperator::AngleLeftEquals => Some(ordered && (less || equal)),
        BinaryOperator::AngleRightEquals => Some(ordered && !less),
        _ => None,
    }
}

// ---------------------------------------------------------------------------
// Values
// ---------------------------------------------------------------------------

/// Whether a value counts as true: it differs from zero.
pub open spec fn truthy(v: Value) -> bool {
    match v {
        Value::Int(i) => i != 0,
        Value::Float(bits) => !float_is_zero(bits),
    }
}

/// A value as a binary64 number; an integer is converted by the
/// floating-point unit.
pub open spec fn as_float(v: Value, unit: FloatUnit) -> Option<u64> {
    match v {
        Value::Int(i) => unit(FloatOp::FromInt(i)),
        Value::Float(bits) => Some(bits),
    }
}

/// The operators that are defined on integers only and fold.
pub open spec fn is_int_only(op: BinaryOperator) -> bool {
    op is Pipe || op is Caret || op is Ampersand || op is Percent || op is DoubleAngleLeft
}

/// The value of `a op b` with at least one binary64 operand. An integer
/// operand is first converted to binary64; the operators that exist on
/// integers alone give `None`.
pub open spec fn mixed_binary(op: BinaryOperator, a: Value, b: Value, unit: FloatUnit) -> Option<
    Value,
> {
    if op is DoubleAmpersand {
        Some(Value::Int(truth(truthy(a) && truthy(b))))
    } else if op is DoublePipe {
        Some(Value::Int(truth(truthy(a) || truthy(b))))
    } else if is_int_only(op) || op is DoubleAngleRight {
        None
    } else {
        match (as_float(a, unit), as_float(b, unit)) {
            (Some(fa), Some(fb)) => match float_request(op, fa, fb) {
                Some(request) => match unit(request) {
                    Some(bits) => Some(Value::Float(bits)),
                    None => None,
                },
                None => match float_comparison(op, fa, fb) {
                    Some(t) => Some(Value::Int(truth(t))),
                    None => None,
                },
            },
            _ => None,
        }
    }
}

/// The value of `a op b`, or `None` where it is not folded.
pub open spec fn binary_value(op: BinaryOperator, a: Value, b: Value, unit: FloatUnit) -> Option<
    Value,
> {
    match (a, b) {
        (Value::Int(x), Value::Int(y)) => match int_binary(op, x, y) {
            Some(i) => Some(Value::Int(i)),
            None => None,
        },
        _ => mixed_binary(op, a, b, unit),
    }
}

/// The operators that act on a storage location, whose operand is never
/// replaced by its value.
pub open spec fn is_lvalue_operator(op: UnaryOperator) -> bool {
    op is DoublePlusPrefix || op is DoubleMinusPrefix || op is DoublePlusPostfix
        || op is DoubleMinusPostfix || op is Ampersand || op is Star
}

/// The value of `op v`, or `None` where it is not folded.
pub open spec fn unary_value(op: UnaryOperator, v: Value) -> Option<Value> {
    match op {
        UnaryOperator::Bang => Some(Value::Int(truth(!truthy(v)))),
        UnaryOperator::Plus => Some(v),
        UnaryOperator::Minus => match v {
            Value::Int(i) => match checked(-i) {
                Some(n) => Some(Value::Int(n)),
                None => None,
            },
            Value::Float(bits) => Some(Value::Float(float_negated(bits))),
        },
        UnaryOperator::Tilde => match v {
            Value::Int(i) => Some(Value::Int(!i)),
            Value::Float(_) => None,
        },
        _ => None,
    }
}

/// The value that a literal stands for; a string literal stands for none.
pub open spec fn literal_value(l: LiteralValueView) -> Option<Value> {
    match l {
        LiteralValueView::Dec(i) => Some(Value::Int(i)),
        LiteralValueView::Hex(i) => Some(Value::Int(i)),
        LiteralValueView::Octal(i) => Some(Value::Int(i)),
        LiteralValueView::Char(c) => Some(Value::Int(c as i128)),
        LiteralValueView::Float(bits) => Some(Value::Float(bits)),
        LiteralValueView::String(_) => None,
    }
}

/// The literal that a value is written back as: an integer in decimal.
pub open spec fn value_literal(v: Value) -> LiteralValueView {
    match v {
        Value::Int(i) => LiteralValueView::Dec(i),
        Value::Float(bits) => LiteralValueView::Float(bits),
    }
}

/// The literal expression for `v` in the place of a node at `span`.
pub open spec fn literal_node(span: Span, v: Value) -> ExpressionNodeView {
    ExpressionNodeView {
        span,
        data: ExpressionView::Literal(
            LiteralNodeView { span, data: LiteralView { value: value_literal(v) } },
        ),
    }
}

fn value_truthy(v: Value) -> (r: bool)
    ensures
        r == truthy(v),
{
    match v {
        Value::Int(i) => i != 0,
        Value::Float(bits) => !float_zero(bits),
    }
}

fn acts_on_location(op: UnaryOperator) -> (r: bool)
    ensures
        r == is_lvalue_operator(op),
{
    match op {
        UnaryOperator::DoublePlusPrefix
        | UnaryOperator::DoubleMinusPrefix
        | UnaryOperator::DoublePlusPostfix
        | UnaryOperator::DoubleMinusPostfix
        | UnaryOperator::Ampersand
        | UnaryOperator::Star => true,
        _ => false,
    }
}

/// Evaluates `op v`.
pub fn fold_unary_value(op: UnaryOperator, v: Value) -> (r: Option<Value>)
    ensures
        r == unary_value(op, v),
{
    match op {
        UnaryOperator::Bang => Some(Value::Int(truth_value(!value_truthy(v)))),
        UnaryOperator::Plus => Some(v),
        UnaryOperator::Minus => match v {
            Value::Int(i) => if i == i128::MIN {
                None
            } else {
                Some(Value::Int(-i))
            },
            Value::Float(bits) => Some(Value::Float(float_negate(bits))),
        },
        UnaryOperator::Tilde => match v {
            Value::Int(i) => Some(Value::Int(!i)),
            Value::Float(_) => None,
        },
        _ => None,
    }
}

// ---------------------------------------------------------------------------
// Expressions: what folding makes of them
// ---------------------------------------------------------------------------

/// The value that `fact` gives to the identifier `name`.
pub open spec fn fact_value(fact: Fact, name: Seq<char>) -> Option<Value> {
    match fact {
        Some((known, v)) => if known == name {
            Some(v)
        } else {
            None
        },
        None => None,
    }
}

/// The compile-time value of an expression under a propagation fact: that of
/// a literal, of the one identifier the fact speaks of, and of a unary or
/// binary operator whose operands have values and which folds on them.
/// Assignments, subscripts, casts and calls have none.
pub open spec fn value_of(e: ExpressionView, fact: Fact, unit: FloatUnit) -> Option<Value>
    decreases e,
{
    match e {
        ExpressionView::Literal(l) => literal_value(l.data.value),
        ExpressionView::Ident(i) => fact_value(fact, i.data),
        ExpressionView::Binary(l, op, r) => match value_of(l.data, fact, unit) {
            Some(a) => match value_of(r.data, fact, unit) {
                Some(b) => binary_value(op.data, a, b, unit),
                None => None,
            },
            None => None,
        },
        ExpressionView::Unary(op, x) => match value_of(x.data, fact, unit) {
            Some(v) => unary_value(op.data, v),
            None => None,
        },
        _ => None,
    }
}

/// What folding leaves of an expression. One that has a value is left as it
/// is, for the enclosing node to replace. Of one that has none, the operands
/// are visited from the left: the first without a value is rewritten in turn
/// and ends the visit; where all have values and the operator does not fold,
/// each is replaced by its literal, unless the operator acts on a location.
/// The operands of subscripts, casts and calls and the right-hand side of an
/// assignment are collapsed independently.
pub open spec fn rewritten(e: ExpressionView, fact: Fact, unit: FloatUnit) -> ExpressionView
    decreases e, 0nat,
{
    match e {
        ExpressionView::Assignment(l, eq, r) => ExpressionView::Assignment(
            l,
            eq,
            Box::new(collapsed(*r, fact, unit)),
        ),
        ExpressionView::Binary(l, op, r) => match value_of(l.data, fact, unit) {
            None => ExpressionView::Binary(
                Box::new(ExpressionNodeView { span: l.span, data: rewritten(l.data, fact, unit) }),
                op,
                r,
            ),
            Some(a) => match value_of(r.data, fact, unit) {
                None => ExpressionView::Binary(
                    l,
                    op,
                    Box::new(
                        ExpressionNodeView { span: r.span, data: rewritten(r.data, fact, unit) },
                    ),
                ),
                Some(b) => if binary_value(op.data, a, b, unit) is Some {
                    e
                } else {
                    ExpressionView::Binary(
                        Box::new(literal_node(l.span, a)),
                        op,
                        Box::new(literal_node(r.span, b)),
                    )
                },
            },
        },
        ExpressionView::ArraySubscript(l, r) => ExpressionView::ArraySubscript(
            Box::new(collapsed(*l, fact, unit)),
            Box::new(collapsed(*r, fact, unit)),
        ),
        ExpressionView::Unary(op, x) => match value_of(x.data, fact, unit) {
            None => ExpressionView::Unary(
                op,
                Box::new(ExpressionNodeView { span: x.span, data: rewritten(x.data, fact, unit) }),
            ),
            Some(v) => if is_lvalue_operator(op.data) || unary_value(op.data, v) is Some {
                e
            } else {
                ExpressionView::Unary(op, Box::new(literal_node(x.span, v)))
            },
        },
        ExpressionView::Cast(ty, x) => ExpressionView::Cast(ty, Box::new(collapsed(*x, fact, unit))),
        ExpressionView::FunctionCall(call) => ExpressionView::FunctionCall(
            FunctionCallView { ident: call.ident, args: collapsed_all(call.args, fact, unit) },
        ),
        ExpressionView::Literal(_) => e,
        ExpressionView::Ident(_) => e,
    }
}

/// A node after folding as an operand: the literal of its value where it has
/// one (an integer literal is thereby rewritten in decimal), else the same
/// node around what folding leaves of its expression.
pub open spec fn collapsed(n: ExpressionNodeView, fact: Fact, unit: FloatUnit) -> ExpressionNodeView
    decreases n, 1nat,
{
    match value_of(n.data, fact, unit) {
        Some(v) => literal_node(n.span, v),
        None => ExpressionNodeView { span: n.span, data: rewritten(n.data, fact, unit) },
    }
}

/// Each node of `s` collapsed on its own.
pub open spec fn collapsed_all(s: Seq<ExpressionNodeView>, fact: Fact, unit: FloatUnit) -> Seq<
    ExpressionNodeView,
>
    decreases s, 2nat,
{
    Seq::new(
        s.len(),
        |i: int|
            if 0 <= i < s.len() {
                collapsed(s[i], fact, unit)
            } else {
                arbitrary()
            },
    )
}

/// A node after folding in the place of a whole expression: a literal stays
/// as it is written, anything else is collapsed.
pub open spec fn folded_node(n: ExpressionNodeView, fact: Fact, unit: FloatUnit) -> ExpressionNodeView {
    if n.data is Literal {
        n
    } else {
        collapsed(n, fact, unit)
    }
}

// ---------------------------------------------------------------------------
// Statements: what folding makes of them
// ---------------------------------------------------------------------------

/// An optional expression folded where there is one.
pub open spec fn folded_optional(e: Option<ExpressionNodeView>, fact: Fact, unit: FloatUnit) -> Option<
    ExpressionNodeView,
> {
    match e {
        Some(e) => Some(folded_node(e, fact, unit)),
        None => None,
    }
}

/// An array length after folding, where one is written.
pub open spec fn folded_array_part(
    p: ArrayDeclarationNodeView,
    fact: Fact,
    unit: FloatUnit,
) -> ArrayDeclarationNodeView {
    match p.data {
        ArrayDeclarationView::Unknown => p,
        ArrayDeclarationView::Known(e) => ArrayDeclarationNodeView {
            span: p.span,
            data: ArrayDeclarationView::Known(folded_node(e, fact, unit)),
        },
    }
}

/// Each array length after folding.
pub open spec fn folded_array_parts(
    s: Seq<ArrayDeclarationNodeView>,
    fact: Fact,
    unit: FloatUnit,
) -> Seq<ArrayDeclarationNodeView> {
    Seq::new(s.len(), |i: int| folded_array_part(s[i], fact, unit))
}

/// A declaration after folding: the initializer and the array lengths of a
/// variable are folded under the incoming fact.
pub open spec fn folded_declaration(d: DeclarationView, fact: Fact, unit: FloatUnit) -> DeclarationView {
    match d {
        DeclarationView::Variable(v) => DeclarationView::Variable(
            VariableDeclarationView {
                ty: v.ty,
                ident: v.ident,
                array_parts: folded_array_parts(v.array_parts, fact, unit),
                initializer: match v.initializer {
                    Some((eq, e)) => Some((eq, folded_node(e, fact, unit))),
                    None => None,
                },
            },
        ),
        DeclarationView::FunctionDeclaration(_) => d,
    }
}

/// The fact that holds after a declaration: the declared name with the value
/// of its initializer, where the variable is no array and the initializer has
/// a value; otherwise none.
pub open spec fn fact_after_declaration(d: DeclarationView, fact: Fact, unit: FloatUnit) -> Fact {
    match d {
        DeclarationView::Variable(v) => if v.array_parts.len() > 0 {
            None
        } else {
            match v.initializer {
                Some((_, e)) => match value_of(e.data, fact, unit) {
                    Some(value) => Some((v.ident.data, value)),
                    None => None,
                },
                None => None,
            }
        },
        DeclarationView::FunctionDeclaration(_) => None,
    }
}

/// The fact that holds after a statement. A declaration sets it, an
/// expression statement keeps it (an assignment in it included), and every
/// other statement ends it.
pub open spec fn fact_after_statement(s: StatementView, fact: Fact, unit: FloatUnit) -> Fact {
    match s {
        StatementView::Declaration(d) => fact_after_declaration(d, fact, unit),
        StatementView::Expression(_) => fact,
        _ => None,
    }
}

/// The fact that holds before statement `i` of a block: none at its start.
pub open spec fn fact_before(s: Seq<StatementNodeView>, i: int, unit: FloatUnit) -> Fact
    decreases i,
{
    if i <= 0 {
        None
    } else {
        fact_after_statement(s[i - 1].data, fact_before(s, i - 1, unit), unit)
    }
}

/// A statement after folding under the fact that holds before it. The
/// controlling expressions of `if`, `switch`, `while` and `for` are folded
/// under no fact, and every nested block is folded on its own.
pub open spec fn folded_statement(s: StatementView, fact: Fact, unit: FloatUnit) -> StatementView
    decreases s, 0nat,
{
    match s {
        StatementView::Declaration(d) => StatementView::Declaration(
            folded_declaration(d, fact, unit),
        ),
        StatementView::Expression(e) => StatementView::Expression(folded_node(e, fact, unit)),
        StatementView::If(i) => StatementView::If(
            IfStatementView {
                condition: folded_node(i.condition, None, unit),
                if_body: folded_block(i.if_body, unit),
                else_body: match i.else_body {
                    Some(b) => Some(folded_block(b, unit)),
                    None => None,
                },
            },
        ),
        StatementView::Switch(sw) => StatementView::Switch(
            SwitchStatementView {
                expr: folded_node(sw.expr, None, unit),
                cases: folded_cases(sw.cases, unit),
            },
        ),
        StatementView::While(w) => StatementView::While(
            WhileStatementView {
                condition: folded_node(w.condition, None, unit),
                body: folded_block(w.body, unit),
            },
        ),
        StatementView::For(f) => StatementView::For(
            ForStatementView {
                init: match f.init {
                    Some(init) => Some(Box::new(folded_statement_node(*init, None, unit))),
                    None => None,
                },
                condition: folded_optional(f.condition, None, unit),
                iter: folded_optional(f.iter, None, unit),
                body: folded_block(f.body, unit),
            },
        ),
        StatementView::Break => s,
        StatementView::Continue => s,
        StatementView::Return(kw, e) => StatementView::Return(kw, folded_optional(e, fact, unit)),
        StatementView::BlockStatement(b) => StatementView::BlockStatement(folded_block(b, unit)),
    }
}

/// A statement node after folding.
pub open spec fn folded_statement_node(
    n: StatementNodeView,
    fact: Fact,
    unit: FloatUnit,
) -> StatementNodeView
    decreases n, 1nat,
{
    StatementNodeView { span: n.span, data: folded_statement(n.data, fact, unit) }
}

/// A block after folding: each statement folded under the fact that the
/// statements before it leave.
pub open spec fn folded_block(b: BlockStatementView, unit: FloatUnit) -> BlockStatementView
    decreases b, 2nat,
{
    BlockStatementView(
        Seq::new(
            b.0.len(),
            |i: int|
                if 0 <= i < b.0.len() {
                    folded_statement_node(b.0[i], fact_before(b.0, i, unit), unit)
                } else {
                    arbitrary()
                },
        ),
    )
}

/// A case after folding: its label is rewritten but keeps its place even
/// where it has a value, and its body is folded on its own.
pub open spec fn folded_case(c: SwitchCaseView, unit: FloatUnit) -> SwitchCaseView
    decreases c, 3nat,
{
    match c {
        SwitchCaseView::Expr(c) => SwitchCaseView::Expr(
            SwitchCaseExprView {
                expr: ExpressionNodeView {
                    span: c.expr.span,
                    data: rewritten(c.expr.data, None, unit),
                },
                body: folded_block(c.body, unit),
            },
        ),
        SwitchCaseView::Default(c) => SwitchCaseView::Default(
            SwitchCaseDefaultView { body: folded_block(c.body, unit) },
        ),
    }
}

/// Each case after folding.
pub open spec fn folded_cases(s: Seq<SwitchCaseView>, unit: FloatUnit) -> Seq<SwitchCaseView>
    decreases s, 4nat,
{
    Seq::new(
        s.len(),
        |i: int|
            if 0 <= i < s.len() {
                folded_case(s[i], unit)
            } else {
                arbitrary()
            },
    )
}

/// A top-level declaration after folding: the body of a function definition
/// is folded as a block, a declaration under no fact.
pub open spec fn folded_external(d: ExternalDeclarationView, unit: FloatUnit) -> ExternalDeclarationView {
    match d {
        ExternalDeclarationView::FunctionDefinition(f) => ExternalDeclarationView::FunctionDefinition(
            FunctionDefinitionView {
                return_type: f.return_type,
                ident: f.ident,
                params: f.params,
                is_vararg: f.is_vararg,
                body: folded_block(f.body, unit),
            },
        ),
        ExternalDeclarationView::Declaration(d) => ExternalDeclarationView::Declaration(
            folded_declaration(d, None, unit),
        ),
    }
}

/// The translation unit after folding.
pub open spec fn folded_ast(a: AstView, unit: FloatUnit) -> AstView {
    AstView {
        global: Seq::new(
            a.global.len(),
            |i: int|
                ExternalDeclarationNodeView {
                    span: a.global[i].span,
                    data: folded_external(a.global[i].data, unit),
                },
        ),
    }
}

// ---------------------------------------------------------------------------
// The folder
// ---------------------------------------------------------------------------

/// Whether `f` can serve as a floating-point unit: it takes every request and
/// answers each in one way only.
pub open spec fn is_float_unit<F: Fn(FloatOp) -> Option<u64>>(f: &F) -> bool {
    &&& forall|op: FloatOp| #[trigger] f.requires((op,))
    &&& forall|op: FloatOp, r1: Option<u64>, r2: Option<u64>|
        #[trigger] f.ensures((op,), r1) && #[trigger] f.ensures((op,), r2) ==> r1 == r2
}

/// The answers of `f` as a mathematical function: to each request the one
/// answer that `f` can give.
pub open spec fn float_unit_of<F: Fn(FloatOp) -> Option<u64>>(f: &F) -> FloatUnit {
    |op: FloatOp|
        if exists|r: Option<u64>| f.ensures((op,), r) {
            choose|r: Option<u64>| f.ensures((op,), r)
        } else {
            None
        }
}

/// The view of the propagation fact that the folder carries.
pub open spec fn fact_view(fact: &Option<(String, Value)>) -> Fact {
    match fact {
        Some((name, v)) => Some((name@, *v)),
        None => None,
    }
}

/// Puts the literal of `value` in the place of the expression of `node`.
pub fn replace_with_literal(node: &mut ExpressionNode, value: Value)
    ensures
        final(node)@ == literal_node(old(node).span, value),
{
    let lit = match value {
        Value::Int(i) => LiteralValue::Dec(i),
        Value::Float(bits) => LiteralValue::Float(bits),
    };
    node.data = Expression::Literal(LiteralNode { span: node.span, data: Literal { value: lit } });
}

/// The folding pass, around the floating-point unit it consults.
pub struct Folder<F> {
    pub float_unit: F,
}

impl<F: Fn(FloatOp) -> Option<u64>> Folder<F> {
    /// The floating-point unit as a mathematical function.
    pub open spec fn unit(&self) -> FloatUnit {
        float_unit_of(&self.float_unit)
    }

    /// The floating-point unit can serve as one.
    pub open spec fn wf(&self) -> bool {
        is_float_unit(&self.float_unit)
    }

    /// A folder around the given floating-point unit.
    pub fn new(float_unit: F) -> (r: Self)
        requires
            is_float_unit(&float_unit),
        ensures
            r.float_unit == float_unit,
            r.wf(),
    {
        Folder { float_unit }
    }

    fn ask(&self, op: FloatOp) -> (r: Option<u64>)
        requires
            self.wf(),
        ensures
            r == (self.unit())(op),
    {
        (self.float_unit)(op)
    }

    fn value_as_float(&self, v: Value) -> (r: Option<u64>)
        requires
            self.wf(),
        ensures
            r == as_float(v, self.unit()),
    {
        match v {
            Value::Int(i) => self.ask(FloatOp::FromInt(i)),
            Value::Float(bits) => Some(bits),
        }
    }

    fn fold_mixed_binary(&self, op: BinaryOperator, a: Value, b: Value) -> (r: Option<Value>)
        requires
            self.wf(),
        ensures
            r == mixed_binary(op, a, b, self.unit()),
    {
        match op {
            BinaryOperator::DoubleAmpersand => {
                return Some(Value::Int(truth_value(value_truthy(a) && value_truthy(b))));
            },
            BinaryOperator::DoublePipe => {
                return Some(Value::Int(truth_value(value_truthy(a) || value_truthy(b))));
            },
            BinaryOperator::Pipe
            | BinaryOperator::Caret
            | BinaryOperator::Ampersand
            | BinaryOperator::Percent
            | BinaryOperator::DoubleAngleLeft
            | BinaryOperator::DoubleAngleRight => {
                return None;
            },
            _ => {},
        }
        let fa = match self.value_as_float(a) {
            Some(bits) => bits,
            None => {
                return None;
            },
        };
        let fb = match self.value_as_float(b) {
            Some(bits) => bits,
            None => {
                return None;
            },
        };
        let request = match op {
            BinaryOperator::Plus => FloatOp::Add(fa, fb),
            BinaryOperator::Minus => FloatOp::Sub(fa, fb),
            BinaryOperator::Star => FloatOp::Mul(fa, fb),
            BinaryOperator::Slash => FloatOp::Div(fa, fb),
            _ => {
                return match fold_float_comparison(op, fa, fb) {
                    Some(t) => Some(Value::Int(truth_value(t))),
                    None => None,
                };
            },
        };
        match self.ask(request) {
            Some(bits) => Some(Value::Float(bits)),
            None => None,
        }
    }

    /// Evaluates `a op b`.
    pub fn fold_binary_value(&self, op: BinaryOperator, a: Value, b: Value) -> (r: Option<Value>)
        requires
            self.wf(),
        ensures
            r == binary_value(op, a, b, self.unit()),
    {
        match (a, b) {
            (Value::Int(x), Value::Int(y)) => match fold_int_binary(op, x, y) {
                Some(i) => Some(Value::Int(i)),
                None => None,
            },
            _ => self.fold_mixed_binary(op, a, b),
        }
    }

    /// The value that a literal stands for.
    pub fn fold_literal(&self, literal: &Literal) -> (r: Option<Value>)
        ensures
            r == literal_value(literal@.value),
    {
        match &literal.value {
            LiteralValue::Dec(i) => Some(Value::Int(*i)),
            LiteralValue::Hex(i) => Some(Value::Int(*i)),
            LiteralValue::Octal(i) => Some(Value::Int(*i)),
            LiteralValue::Char(c) => Some(Value::Int(*c as i128)),
            LiteralValue::Float(bits) => Some(Value::Float(*bits)),
            LiteralValue::String(_) => None,
        }
    }

    /// Folds a binary expression: see [`value_of`] and [`rewritten`].
    pub fn fold_binary_op(&self, expr: &mut Expression, fact: &Option<(String, Value)>) -> (r:
        Option<Value>)
        requires
            self.wf(),
            *old(expr) is Binary,
        ensures
            r == value_of(old(expr)@, fact_view(fact), self.unit()),
            final(expr)@ == rewritten(old(expr)@, fact_view(fact), self.unit()),
        decreases *old(expr), 0nat,
    {
        match &mut *expr {
            Expression::Binary(lhs, op, rhs) => {
                let folded1 = match self.fold_expr(&mut lhs.data, fact) {
                    Some(v) => v,
                    None => {
                        return None;
                    },
                };
                let folded2 = match self.fold_expr(&mut rhs.data, fact) {
                    Some(v) => v,
                    None => {
                        return None;
                    },
                };
                let folded = self.fold_binary_value(op.data, folded1, folded2);
                if folded.is_none() {
                    replace_with_literal(lhs, folded1);
                    replace_with_literal(rhs, folded2);
                }
                folded
            },
            _ => None,
        }
    }

    /// Folds a unary expression: see [`value_of`] and [`rewritten`].
    pub fn fold_unary_op(&self, expr: &mut Expression, fact: &Option<(String, Value)>) -> (r:
        Option<Value>)
        requires
            self.wf(),
            *old(expr) is Unary,
        ensures
            r == value_of(old(expr)@, fact_view(fact), self.unit()),
            final(expr)@ == rewritten(old(expr)@, fact_view(fact), self.unit()),
        decreases *old(expr), 0nat,
    {
        match &mut *expr {
            Expression::Unary(op, inner) => {
                let inner_folded = match self.fold_expr(&mut inner.data, fact) {
                    Some(v) => v,
                    None => {
                        return None;
                    },
                };
                if acts_on_location(op.data) {
                    // the operand is a location: it keeps its form
                    return None;
                }
                let folded = fold_unary_value(op.data, inner_folded);
                if folded.is_none() {
                    replace_with_literal(inner, inner_folded);
                }
                folded
            },
            _ => None,
        }
    }

    /// Folds `node` as an operand: see [`collapsed`].
    pub fn fold_operand(&self, node: &mut ExpressionNode, fact: &Option<(String, Value)>)
        requires
            self.wf(),
        ensures
            final(node)@ == collapsed(old(node)@, fact_view(fact), self.unit()),
        decreases *old(node), 2nat,
    {
        match self.fold_expr(&mut node.data, fact) {
            Some(v) => {
                replace_with_literal(node, v);
            },
            None => {},
        }
    }

    /// Folds an expression in place and returns its value where it has one;
    /// it is then left for the caller to replace.
    pub fn fold_expr(&self, expr: &mut Expression, fact: &Option<(String, Value)>) -> (r: Option<
        Value,
    >)
        requires
            self.wf(),
        ensures
            r == value_of(old(expr)@, fact_view(fact), self.unit()),
            final(expr)@ == rewritten(old(expr)@, fact_view(fact), self.unit()),
        decreases *old(expr), 1nat,
    {
        match &mut *expr {
            Expression::Assignment(_, _, rhs) => {
                self.fold_operand(rhs, fact);
                None
            },
            Expression::Binary(_, _, _) => self.fold_binary_op(expr, fact),
            Expression::ArraySubscript(lhs, rhs) => {
                self.fold_operand(lhs, fact);
                self.fold_operand(rhs, fact);
                None
            },
            Expression::Unary(_, _) => self.fold_unary_op(expr, fact),
            Expression::Cast(_, inner) => {
                self.fold_operand(inner, fact);
                None
            },
            Expression::FunctionCall(call) => {
                let n: usize = call.args.len();
                let mut k: usize = 0;
                while k < n
                    invariant
                        self.wf(),
                        k <= n,
                        call.args@.len() == n,
                        *old(expr) matches Expression::FunctionCall(before) && before.ident
                            == call.ident && before.args@.len() == n && (forall|j: int|
                            0 <= j < k ==> (#[trigger] call.args@[j])@ == collapsed(
                                before.args@[j]@,
                                fact_view(fact),
                                self.unit(),
                            )) && (forall|j: int|
                            k <= j < n ==> #[trigger] call.args@[j] == before.args@[j]),
                    decreases n - k,
                {
                    self.fold_operand(&mut call.args[k], fact);
                    k += 1;
                }
                proof {
                    let before = old(expr)->FunctionCall_0.args@;
                    assert(expression_views(call.args@) =~= collapsed_all(
                        expression_views(before),
                        fact_view(fact),
                        self.unit(),
                    ));
                }
                None
            },
            Expression::Literal(lit) => self.fold_literal(&lit.data),
            Expression::Ident(ident) => match fact {
                Some((name, value)) => if *name == ident.data {
                    Some(*value)
                } else {
                    None
                },
                None => None,
            },
        }
    }

    /// Folds the expression at `node` and returns its value where it has
    /// one; the node is then a literal.
    pub fn fold_expr_node(&self, node: &mut ExpressionNode, fact: &Option<(String, Value)>) -> (r:
        Option<Value>)
        requires
            self.wf(),
        ensures
            r == value_of(old(node)@.data, fact_view(fact), self.unit()),
            final(node)@ == folded_node(old(node)@, fact_view(fact), self.unit()),
    {
        if let Expression::Literal(lit) = &node.data {
            // a literal is already as folded as it can be
            return self.fold_literal(&lit.data);
        }
        let folded = self.fold_expr(&mut node.data, fact);
        match folded {
            Some(v) => {
                replace_with_literal(node, v);
            },
            None => {},
        }
        folded
    }

    /// Folds an expression that may be absent.
    fn fold_optional(&self, e: &mut Option<ExpressionNode>, fact: &Option<(String, Value)>)
        requires
            self.wf(),
        ensures
            optional_expression_view(*final(e)) == folded_optional(
                optional_expression_view(*old(e)),
                fact_view(fact),
                self.unit(),
            ),
    {
        match &mut *e {
            Some(node) => {
                self.fold_expr_node(node, fact);
            },
            None => {},
        }
    }

    /// Folds a declaration and returns the fact that holds after it.
    pub fn fold_declaration(
        &self,
        declaration: &mut Declaration,
        fact: &Option<(String, Value)>,
    ) -> (r: Option<(String, Value)>)
        requires
            self.wf(),
        ensures
            final(declaration)@ == folded_declaration(
                old(declaration)@,
                fact_view(fact),
                self.unit(),
            ),
            fact_view(&r) == fact_after_declaration(old(declaration)@, fact_view(fact), self.unit()),
    {
        match &mut *declaration {
            Declaration::Variable(v) => {
                let res = match &mut v.initializer {
                    Some((_, init)) => match self.fold_expr_node(init, fact) {
                        Some(value) => Some((v.ident.data.clone(), value)),
                        None => None,
                    },
                    None => None,
                };
                let ghost folded_initializer = v.initializer;
                let n: usize = v.array_parts.len();
                let mut k: usize = 0;
                while k < n
                    invariant
                        self.wf(),
                        k <= n,
                        v.array_parts@.len() == n,
                        v.initializer == folded_initializer,
                        *old(declaration) matches Declaration::Variable(before) && before.ty
                            == v.ty && before.ident == v.ident && before.array_parts@.len() == n
                            && (forall|j: int|
                            0 <= j < k ==> (#[trigger] v.array_parts@[j])@ == folded_array_part(
                                before.array_parts@[j]@,
                                fact_view(fact),
                                self.unit(),
                            )) && (forall|j: int|
                            k <= j < n ==> #[trigger] v.array_parts@[j] == before.array_parts@[j]),
                    decreases n - k,
                {
                    let part = &mut v.array_parts[k];
                    match &mut part.data {
                        ArrayDeclaration::Known(e) => {
                            self.fold_expr_node(e, fact);
                        },
                        ArrayDeclaration::Unknown => {},
                    }
                    k += 1;
                }
                proof {
                    let before = old(declaration)->Variable_0;
                    assert(array_part_views(v.array_parts@) =~= folded_array_parts(
                        array_part_views(before.array_parts@),
                        fact_view(fact),
                        self.unit(),
                    ));
                }
                if n > 0 {
                    None
                } else {
                    res
                }
            },
            Declaration::FunctionDeclaration(_) => None,
        }
    }

    /// Folds the statements of a block in order, from no fact.
    pub fn fold_block_statement(&self, bs: &mut BlockStatement)
        requires
            self.wf(),
        ensures
            final(bs)@ == folded_block(old(bs)@, self.unit()),
        decreases *old(bs), 2nat,
    {
        let ghost before = old(bs).0@;
        let n: usize = bs.0.len();
        let mut fact: Option<(String, Value)> = None;
        let mut k: usize = 0;
        while k < n
            invariant
                self.wf(),
                k <= n,
                bs.0@.len() == n,
                before == old(bs).0@,
                before.len() == n,
                fact_view(&fact) == fact_before(statement_views(before), k as int, self.unit()),
                forall|j: int|
                    0 <= j < k ==> (#[trigger] bs.0@[j])@ == folded_statement_node(
                        before[j]@,
                        fact_before(statement_views(before), j, self.unit()),
                        self.unit(),
                    ),
                forall|j: int| k <= j < n ==> #[trigger] bs.0@[j] == before[j],
            decreases n - k,
        {
            let node = &mut bs.0[k];
            fact = self.fold_statement(&mut node.data, fact);
            k += 1;
        }
        proof {
            assert(bs@.0 =~= folded_block(old(bs)@, self.unit()).0);
        }
    }

    /// Folds the cases of a `switch`.
    pub fn fold_switch(&self, switch: &mut SwitchStatement)
        requires
            self.wf(),
        ensures
            switch_case_views(final(switch).cases@) == folded_cases(
                switch_case_views(old(switch).cases@),
                self.unit(),
            ),
            final(switch).expr == old(switch).expr,
        decreases *old(switch), 5nat,
    {
        let ghost before = old(switch).cases@;
        let n: usize = switch.cases.len();
        let mut k: usize = 0;
        while k < n
            invariant
                self.wf(),
                k <= n,
                switch.cases@.len() == n,
                switch.expr == old(switch).expr,
                before == old(switch).cases@,
                before.len() == n,
                forall|j: int|
                    0 <= j < k ==> (#[trigger] switch.cases@[j])@ == folded_case(
                        before[j]@,
                        self.unit(),
                    ),
                forall|j: int| k <= j < n ==> #[trigger] switch.cases@[j] == before[j],
            decreases n - k,
        {
            match &mut switch.cases[k] {
                SwitchCase::Expr(case) => {
                    let none: Option<(String, Value)> = None;
                    self.fold_expr(&mut case.expr.data, &none);
                    self.fold_block_statement(&mut case.body);
                },
                SwitchCase::Default(case) => {
                    self.fold_block_statement(&mut case.body);
                },
            }
            k += 1;
        }
        proof {
            assert(switch_case_views(switch.cases@) =~= folded_cases(
                switch_case_views(before),
                self.unit(),
            ));
        }
    }

    /// Folds a statement under the fact that holds before it and returns the
    /// fact that holds after it.
    pub fn fold_statement(&self, statement: &mut Statement, fact: Option<(String, Value)>) -> (r:
        Option<(String, Value)>)
        requires
            self.wf(),
        ensures
            final(statement)@ == folded_statement(old(statement)@, fact_view(&fact), self.unit()),
            fact_view(&r) == fact_after_statement(old(statement)@, fact_view(&fact), self.unit()),
        decreases *old(statement), 0nat,
    {
        let none: Option<(String, Value)> = None;
        match &mut *statement {
            Statement::Declaration(decl) => {
                return self.fold_declaration(decl, &fact);
            },
            Statement::Expression(e) => {
                self.fold_expr_node(e, &fact);
                return fact;
            },
            Statement::If(i) => {
                self.fold_expr_node(&mut i.condition, &none);
                self.fold_block_statement(&mut i.if_body);
                match &mut i.else_body {
                    Some(else_body) => {
                        self.fold_block_statement(else_body);
                    },
                    None => {},
                }
            },
            Statement::Switch(sw) => {
                self.fold_switch(sw);
                self.fold_expr_node(&mut sw.expr, &none);
            },
            Statement::While(w) => {
                self.fold_expr_node(&mut w.condition, &none);
                self.fold_block_statement(&mut w.body);
            },
            Statement::For(f) => {
                match &mut f.init {
                    Some(init) => {
                        self.fold_statement(&mut init.data, None);
                    },
                    None => {},
                }
                self.fold_optional(&mut f.condition, &none);
                self.fold_optional(&mut f.iter, &none);
                self.fold_block_statement(&mut f.body);
            },
            Statement::Break => {},
            Statement::Continue => {},
            Statement::Return(_, e) => {
                self.fold_optional(e, &fact);
            },
            Statement::BlockStatement(bs) => {
                self.fold_block_statement(bs);
            },
        }
        None
    }

    /// Folds a top-level declaration.
    pub fn fold_external_declaration(&self, exdecl: &mut ExternalDeclaration)
        requires
            self.wf(),
        ensures
            final(exdecl)@ == folded_external(old(exdecl)@, self.unit()),
    {
        match &mut *exdecl {
            ExternalDeclaration::FunctionDefinition(def) => {
                self.fold_block_statement(&mut def.body);
            },
            ExternalDeclaration::Declaration(decl) => {
                let none: Option<(String, Value)> = None;
                self.fold_declaration(decl, &none);
            },
        }
    }

    /// Folds every top-level declaration of the translation unit.
    pub fn fold(self, ast: &mut Ast)
        requires
            self.wf(),
        ensures
            final(ast)@ == folded_ast(old(ast)@, self.unit()),
    {
        let ghost before = old(ast).global@;
        let n: usize = ast.global.len();
        let mut k: usize = 0;
        while k < n
            invariant
                self.wf(),
                k <= n,
                ast.global@.len() == n,
                before == old(ast).global@,
                before.len() == n,
                forall|j: int|
                    0 <= j < k ==> (#[trigger] ast.global@[j])@ == (ExternalDeclarationNodeView {
                        span: before[j].span,
                        data: folded_external(before[j].data@, self.unit()),
                    }),
                forall|j: int| k <= j < n ==> #[trigger] ast.global@[j] == before[j],
            decreases n - k,
        {
            let node = &mut ast.global[k];
            self.fold_external_declaration(&mut node.data);
            k += 1;
        }
        proof {
            assert(ast@.global =~= folded_ast(old(ast)@, self.unit()).global);
        }
    }
}

/// The floating-point unit that answers no request: with it, only what is
/// decided on integers and bit patterns folds.
pub open spec fn no_float_unit() -> FloatUnit {
    |op: FloatOp| None
}

fn decline(op: FloatOp) -> (r: Option<u64>)
    ensures
        r is None,
{
    None
}

/// Folds the translation unit in place, with `float_unit` for the rounding
/// floating-point arithmetic.
pub fn const_fold_with<F: Fn(FloatOp) -> Option<u64>>(ast: &mut Ast, float_unit: F)
    requires
        is_float_unit(&float_unit),
    ensures
        final(ast)@ == folded_ast(old(ast)@, float_unit_of(&float_unit)),
{
    Folder::new(float_unit).fold(ast)
}

/// Folds the translation unit in place without a floating-point unit:
/// integer arithmetic, all comparisons and the logical operators fold, and
/// arithmetic with a floating operand stays in the tree.
pub fn const_fold(ast: &mut Ast)
    ensures
        final(ast)@ == folded_ast(old(ast)@, no_float_unit()),
{
    let folder = Folder::new(decline);
    proof {
        assert(folder.unit() =~= no_float_unit());
    }
    folder.fold(ast)
}

} // verus!
