//! What holds of constant folding as a whole: a folded tree folds to itself,
//! and an expression with a value folds to the literal of that value.

use vstd::prelude::*;
use crate::ast::{
    ArrayDeclarationView, AstView, BinaryOperator, BlockStatementView, DeclarationView,
    ExpressionNodeView, ExpressionView, ExternalDeclarationView, StatementNodeView, StatementView,
    SwitchCaseView,
};
use crate::passes::const_fold::{
    Fact, FloatUnit, Value, binary_value, collapsed, collapsed_all, fact_after_declaration,
    fact_after_statement, fact_before, folded_array_part, folded_array_parts, folded_ast,
    folded_block, folded_case, folded_cases, folded_declaration, folded_node, folded_optional,
    folded_statement, literal_node, literal_value, rewritten, value_of,
};

verus! {

/// Folding leaves an expression that has a value as it is, changes neither
/// the value of an expression nor whether it has one, and leaves what it has
/// once rewritten as it is.
pub proof fn lemma_rewritten_stable(e: ExpressionView, fact: Fact, unit: FloatUnit)
    ensures
        value_of(e, fact, unit) is Some ==> rewritten(e, fact, unit) == e,
        value_of(rewritten(e, fact, unit), fact, unit) == value_of(e, fact, unit),
        rewritten(rewritten(e, fact, unit), fact, unit) == rewritten(e, fact, unit),
    decreases e, 0nat,
{
    match e {
        ExpressionView::Assignment(l, eq, r) => {
            lemma_collapsed_stable(*r, fact, unit);
        },
        ExpressionView::Binary(l, op, r) => {
            lemma_rewritten_stable(l.data, fact, unit);
            lemma_rewritten_stable(r.data, fact, unit);
        },
        ExpressionView::ArraySubscript(l, r) => {
            lemma_collapsed_stable(*l, fact, unit);
            lemma_collapsed_stable(*r, fact, unit);
        },
        ExpressionView::Unary(op, x) => {
            lemma_rewritten_stable(x.data, fact, unit);
        },
        ExpressionView::Cast(ty, x) => {
            lemma_collapsed_stable(*x, fact, unit);
        },
        ExpressionView::FunctionCall(call) => {
            lemma_collapsed_all_stable(call.args, fact, unit);
        },
        ExpressionView::Literal(_) => {},
        ExpressionView::Ident(_) => {},
    }
}

/// A collapsed operand collapses to itself and keeps its value.
pub proof fn lemma_collapsed_stable(n: ExpressionNodeView, fact: Fact, unit: FloatUnit)
    ensures
        collapsed(collapsed(n, fact, unit), fact, unit) == collapsed(n, fact, unit),
        value_of(collapsed(n, fact, unit).data, fact, unit) == value_of(n.data, fact, unit),
    decreases n, 1nat,
{
    lemma_rewritten_stable(n.data, fact, unit);
}

/// Collapsed operands collapse to themselves.
pub proof fn lemma_collapsed_all_stable(s: Seq<ExpressionNodeView>, fact: Fact, unit: FloatUnit)
    ensures
        collapsed_all(collapsed_all(s, fact, unit), fact, unit) == collapsed_all(s, fact, unit),
    decreases s, 2nat,
{
    let once = collapsed_all(s, fact, unit);
    assert forall|i: int| 0 <= i < s.len() implies collapsed(#[trigger] once[i], fact, unit)
        == once[i] by {
        lemma_collapsed_stable(s[i], fact, unit);
    }
    assert(collapsed_all(once, fact, unit) =~= once);
}

/// A folded expression folds to itself and keeps its value.
pub proof fn lemma_folded_node_stable(n: ExpressionNodeView, fact: Fact, unit: FloatUnit)
    ensures
        folded_node(folded_node(n, fact, unit), fact, unit) == folded_node(n, fact, unit),
        value_of(folded_node(n, fact, unit).data, fact, unit) == value_of(n.data, fact, unit),
{
    lemma_collapsed_stable(n, fact, unit);
    lemma_rewritten_stable(n.data, fact, unit);
}

/// An expression with a value folds to a literal of that value.
pub proof fn lemma_fold_yields_value(n: ExpressionNodeView, fact: Fact, unit: FloatUnit)
    requires
        value_of(n.data, fact, unit) is Some,
    ensures
        folded_node(n, fact, unit).span == n.span,
        folded_node(n, fact, unit).data matches ExpressionView::Literal(l) && literal_value(
            l.data.value,
        ) == value_of(n.data, fact, unit),
        !(n.data is Literal) ==> folded_node(n, fact, unit) == literal_node(
            n.span,
            value_of(n.data, fact, unit)->0,
        ),
{
}

/// An expression without a value is no literal after folding, unless it was
/// one before.
pub proof fn lemma_fold_keeps_shape(n: ExpressionNodeView, fact: Fact, unit: FloatUnit)
    requires
        value_of(n.data, fact, unit) is None,
    ensures
        folded_node(n, fact, unit).data is Literal <==> n.data is Literal,
{
}

/// A right shift is never folded, whatever its operands.
pub proof fn lemma_right_shift_stays(a: Value, b: Value, unit: FloatUnit)
    ensures
        binary_value(BinaryOperator::DoubleAngleRight, a, b, unit) is None,
{
}

/// A folded declaration folds to itself and leaves the same fact.
pub proof fn lemma_folded_declaration_stable(d: DeclarationView, fact: Fact, unit: FloatUnit)
    ensures
        folded_declaration(folded_declaration(d, fact, unit), fact, unit) == folded_declaration(
            d,
            fact,
            unit,
        ),
        fact_after_declaration(folded_declaration(d, fact, unit), fact, unit)
            == fact_after_declaration(d, fact, unit),
{
    match d {
        DeclarationView::Variable(v) => {
            match v.initializer {
                Some((_, e)) => {
                    lemma_folded_node_stable(e, fact, unit);
                },
                None => {},
            }
            let once = folded_array_parts(v.array_parts, fact, unit);
            assert forall|i: int| 0 <= i < v.array_parts.len() implies folded_array_part(
                #[trigger] once[i],
                fact,
                unit,
            ) == once[i] by {
                match v.array_parts[i].data {
                    ArrayDeclarationView::Known(e) => {
                        lemma_folded_node_stable(e, fact, unit);
                    },
                    ArrayDeclarationView::Unknown => {},
                }
            }
            assert(folded_array_parts(once, fact, unit) =~= once);
        },
        DeclarationView::FunctionDeclaration(_) => {},
    }
}

/// Folding a statement does not change the fact that holds after it.
pub proof fn lemma_fact_after_statement_stable(s: StatementView, fact: Fact, unit: FloatUnit)
    ensures
        fact_after_statement(folded_statement(s, fact, unit), fact, unit) == fact_after_statement(
            s,
            fact,
            unit,
        ),
{
    match s {
        StatementView::Declaration(d) => {
            lemma_folded_declaration_stable(d, fact, unit);
        },
        _ => {},
    }
}

/// Folding a block does not change the fact that holds before each of its
/// statements.
pub proof fn lemma_fact_before_stable(b: BlockStatementView, i: int, unit: FloatUnit)
    requires
        0 <= i <= b.0.len(),
    ensures
        fact_before(folded_block(b, unit).0, i, unit) == fact_before(b.0, i, unit),
    decreases i,
{
    if i > 0 {
        lemma_fact_before_stable(b, i - 1, unit);
        lemma_fact_after_statement_stable(b.0[i - 1].data, fact_before(b.0, i - 1, unit), unit);
    }
}

/// A folded statement folds to itself under the same fact.
pub proof fn lemma_folded_statement_stable(s: StatementView, fact: Fact, unit: FloatUnit)
    ensures
        folded_statement(folded_statement(s, fact, unit), fact, unit) == folded_statement(
            s,
            fact,
            unit,
        ),
    decreases s, 0nat,
{
    match s {
        StatementView::Declaration(d) => {
            lemma_folded_declaration_stable(d, fact, unit);
        },
        StatementView::Expression(e) => {
            lemma_folded_node_stable(e, fact, unit);
        },
        StatementView::If(i) => {
            lemma_folded_node_stable(i.condition, None, unit);
            lemma_folded_block_stable(i.if_body, unit);
            match i.else_body {
                Some(b) => {
                    lemma_folded_block_stable(b, unit);
                },
                None => {},
            }
        },
        StatementView::Switch(sw) => {
            lemma_folded_node_stable(sw.expr, None, unit);
            lemma_folded_cases_stable(sw.cases, unit);
        },
        StatementView::While(w) => {
            lemma_folded_node_stable(w.condition, None, unit);
            lemma_folded_block_stable(w.body, unit);
        },
        StatementView::For(f) => {
            match f.init {
                Some(init) => {
                    lemma_folded_statement_stable(init.data, None, unit);
                },
                None => {},
            }
            lemma_folded_optional_stable(f.condition, None, unit);
            lemma_folded_optional_stable(f.iter, None, unit);
            lemma_folded_block_stable(f.body, unit);
        },
        StatementView::Break => {},
        StatementView::Continue => {},
        StatementView::Return(_, e) => {
            lemma_folded_optional_stable(e, fact, unit);
        },
        StatementView::BlockStatement(b) => {
            lemma_folded_block_stable(b, unit);
        },
    }
}

/// A folded optional expression folds to itself.
pub proof fn lemma_folded_optional_stable(
    e: Option<ExpressionNodeView>,
    fact: Fact,
    unit: FloatUnit,
)
    ensures
        folded_optional(folded_optional(e, fact, unit), fact, unit) == folded_optional(
            e,
            fact,
            unit,
        ),
{
    match e {
        Some(e) => {
            lemma_folded_node_stable(e, fact, unit);
        },
        None => {},
    }
}

/// A folded block folds to itself.
pub proof fn lemma_folded_block_stable(b: BlockStatementView, unit: FloatUnit)
    ensures
        folded_block(folded_block(b, unit), unit) == folded_block(b, unit),
    decreases b, 2nat,
{
    let once = folded_block(b, unit);
    let twice = folded_block(once, unit);
    assert forall|i: int| 0 <= i < b.0.len() implies #[trigger] twice.0[i] == once.0[i] by {
        lemma_fact_before_stable(b, i, unit);
        lemma_folded_statement_stable(b.0[i].data, fact_before(b.0, i, unit), unit);
    }
    assert(twice.0 =~= once.0);
}

/// Folded cases fold to themselves.
pub proof fn lemma_folded_cases_stable(s: Seq<SwitchCaseView>, unit: FloatUnit)
    ensures
        folded_cases(folded_cases(s, unit), unit) == folded_cases(s, unit),
    decreases s, 4nat,
{
    let once = folded_cases(s, unit);
    assert forall|i: int| 0 <= i < s.len() implies folded_case(#[trigger] once[i], unit)
        == once[i] by {
        match s[i] {
            SwitchCaseView::Expr(c) => {
                lemma_rewritten_stable(c.expr.data, None, unit);
                lemma_folded_block_stable(c.body, unit);
            },
            SwitchCaseView::Default(c) => {
                lemma_folded_block_stable(c.body, unit);
            },
        }
    }
    assert(folded_cases(once, unit) =~= once);
}

/// Folding is idempotent: folding a folded translation unit changes nothing.
pub proof fn lemma_fold_idempotent(a: AstView, unit: FloatUnit)
    ensures
        folded_ast(folded_ast(a, unit), unit) == folded_ast(a, unit),
{
    let once = folded_ast(a, unit);
    let twice = folded_ast(once, unit);
    assert forall|i: int| 0 <= i < a.global.len() implies #[trigger] twice.global[i]
        == once.global[i] by {
        match a.global[i].data {
            ExternalDeclarationView::FunctionDefinition(f) => {
                lemma_folded_block_stable(f.body, unit);
            },
            ExternalDeclarationView::Declaration(d) => {
                lemma_folded_declaration_stable(d, None, unit);
            },
        }
    }
    assert(twice.global =~= once.global);
}

/// An expression built from literals and unary and binary operators alone.
pub open spec fn is_closed(e: ExpressionView) -> bool
    decreases e,
{
    match e {
        ExpressionView::Literal(_) => true,
        ExpressionView::Binary(l, _, r) => is_closed(l.data) && is_closed(r.data),
        ExpressionView::Unary(_, x) => is_closed(x.data),
        _ => false,
    }
}

/// The value of an expression built from literals and operators alone is
/// that of evaluating it directly: no propagation fact takes part in it.
pub proof fn lemma_closed_value_is_direct(e: ExpressionView, fact: Fact, unit: FloatUnit)
    requires
        is_closed(e),
    ensures
        value_of(e, fact, unit) == value_of(e, None, unit),
    decreases e,
{
    match e {
        ExpressionView::Binary(l, _, r) => {
            lemma_closed_value_is_direct(l.data, fact, unit);
            lemma_closed_value_is_direct(r.data, fact, unit);
        },
        ExpressionView::Unary(_, x) => {
            lemma_closed_value_is_direct(x.data, fact, unit);
        },
        _ => {},
    }
}

/// Copy propagation in a straight line: behind a declaration of a variable
/// that is no array and whose initializer has a value, the fact is that
/// variable with that value, and an expression statement passes it on.
pub proof fn lemma_fact_in_straight_line(s: Seq<StatementNodeView>, i: int, unit: FloatUnit)
    requires
        0 <= i < s.len(),
    ensures
        s[i].data matches StatementView::Declaration(DeclarationView::Variable(v)) ==> (
        v.initializer matches Some((_, e)) ==> (value_of(e.data, fact_before(s, i, unit), unit)
            matches Some(value) ==> (v.array_parts.len() == 0 ==> fact_before(s, i + 1, unit)
            == Some((v.ident.data, value))))),
        s[i].data is Expression ==> fact_before(s, i + 1, unit) == fact_before(s, i, unit),
{
}

/// Copy propagation ends at control flow: behind an `if`, a `switch`, a loop,
/// a nested block, a jump, or a declaration without a value, no fact holds.
pub proof fn lemma_fact_ends(s: Seq<StatementNodeView>, i: int, unit: FloatUnit)
    requires
        0 <= i < s.len(),
        !(s[i].data is Declaration) && !(s[i].data is Expression),
    ensures
        fact_before(s, i + 1, unit) is None,
{
}

} // verus!
