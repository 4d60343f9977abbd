//! The expressions of the intermediate representation. Every expression
//! carries its type, and a location is named by the id of its item, never by
//! a name.

use vstd::prelude::*;
use crate::ast::{BinaryOperator, Span, UnaryOperator};
use crate::ir::ctype::CType;
use crate::ir::table::ItemId;

verus! {

/// A constant. A floating constant is the bit pattern of a binary64 number.
#[derive(Debug, PartialEq, Eq)]
pub enum Constant {
    Integer(i128),
    Float(u64),
    String(String),
}

/// The view of [`Constant`].
pub enum ConstantView {
    Integer(i128),
    Float(u64),
    String(Seq<char>),
}

impl Constant {
    /// The mathematical view.
    pub open spec fn view(&self) -> ConstantView {
        match self {
            Constant::Integer(i) => ConstantView::Integer(*i),
            Constant::Float(bits) => ConstantView::Float(*bits),
            Constant::String(s) => ConstantView::String(s@),
        }
    }
}

/// An expression with its span and its type.
#[derive(Debug, PartialEq, Eq)]
pub struct ExprNode {
    pub span: Span,
    pub ty: CType,
    pub expr: Expr,
}

/// The forms of an expression.
#[derive(Debug, PartialEq, Eq)]
pub enum Expr {
    /// The value stored at a location.
    LvalueDeref(Box<LvalueExprNode>),
    Constant(Constant),
    /// The operand converted to the type of the node.
    Cast(Box<ExprNode>),
    Binary(Box<ExprNode>, BinaryOperator, Box<ExprNode>),
    Unary(UnaryOperator, Box<ExprNode>),
    /// The address of a location.
    Reference(Box<LvalueExprNode>),
    Assign(Box<LvalueExprNode>, Box<ExprNode>),
    /// A formatted print: the format, then the arguments as they are passed.
    Printf(Vec<ExprNode>),
}

/// A location with its span, its type and whether it may not be assigned to.
#[derive(Debug, PartialEq, Eq)]
pub struct LvalueExprNode {
    pub span: Span,
    pub is_const: bool,
    pub ty: CType,
    pub expr: LvalueExpr,
}

/// The forms of a location.
#[derive(Debug, PartialEq, Eq)]
pub enum LvalueExpr {
    Ident(ItemId),
    Dereference(Box<ExprNode>),
}

/// The view of [`ExprNode`].
pub struct ExprNodeView {
    pub span: Span,
    pub ty: CType,
    pub expr: ExprView,
}

/// The view of [`Expr`].
pub enum ExprView {
    LvalueDeref(Box<LvalueExprNodeView>),
    Constant(ConstantView),
    Cast(Box<ExprNodeView>),
    Binary(Box<ExprNodeView>, BinaryOperator, Box<ExprNodeView>),
    Unary(UnaryOperator, Box<ExprNodeView>),
    Reference(Box<LvalueExprNodeView>),
    Assign(Box<LvalueExprNodeView>, Box<ExprNodeView>),
    Printf(Seq<ExprNodeView>),
}

/// The view of [`LvalueExprNode`].
pub struct LvalueExprNodeView {
    pub span: Span,
    pub is_const: bool,
    pub ty: CType,
    pub expr: LvalueExprView,
}

/// The view of [`LvalueExpr`].
pub enum LvalueExprView {
    Ident(ItemId),
    Dereference(Box<ExprNodeView>),
}

/// The views of the expressions of `v`, in order.
pub open spec fn expr_views(v: Seq<ExprNode>) -> Seq<ExprNodeView>
    decreases v,
{
    Seq::new(
        v.len(),
        |i: int|
            if 0 <= i < v.len() {
                v[i].view()
            } else {
                arbitrary()
            },
    )
}

impl ExprNode {
    /// The mathematical view.
    pub open spec fn view(&self) -> ExprNodeView
        decreases self,
    {
        ExprNodeView { span: self.span, ty: self.ty, expr: self.expr.view() }
    }
}

impl Expr {
    /// The mathematical view.
    pub open spec fn view(&self) -> ExprView
        decreases self,
    {
        match self {
            Expr::LvalueDeref(l) => ExprView::LvalueDeref(Box::new(l.view())),
            Expr::Constant(c) => ExprView::Constant(c@),
            Expr::Cast(e) => ExprView::Cast(Box::new(e.view())),
            Expr::Binary(l, op, r) => ExprView::Binary(
                Box::new(l.view()),
                *op,
                Box::new(r.view()),
            ),
            Expr::Unary(op, e) => ExprView::Unary(*op, Box::new(e.view())),
            Expr::Reference(l) => ExprView::Reference(Box::new(l.view())),
            Expr::Assign(l, e) => ExprView::Assign(Box::new(l.view()), Box::new(e.view())),
            Expr::Printf(args) => ExprView::Printf(expr_views(args@)),
        }
    }
}

impl LvalueExprNode {
    /// The mathematical view.
    pub open spec fn view(&self) -> LvalueExprNodeView
        decreases self,
    {
        LvalueExprNodeView {
            span: self.span,
            is_const: self.is_const,
            ty: self.ty,
            expr: self.expr.view(),
        }
    }
}

impl LvalueExpr {
    /// The mathematical view.
    pub open spec fn view(&self) -> LvalueExprView
        decreases self,
    {
        match self {
            LvalueExpr::Ident(id) => LvalueExprView::Ident(*id),
            LvalueExpr::Dereference(e) => LvalueExprView::Dereference(Box::new(e.view())),
        }
    }
}

} // verus!
