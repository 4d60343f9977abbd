//! The statements of the intermediate representation and its root.

use vstd::prelude::*;
use crate::ast::Span;
use crate::ir::ctype::CType;
use crate::ir::expr::{ExprNode, ExprNodeView};
use crate::ir::table::{Item, ItemId, Table};

verus! {

/// An ordered sequence of statements.
#[derive(Debug, PartialEq, Eq)]
pub struct Block(pub Vec<StmtNode>);

/// A statement with its span.
#[derive(Debug, PartialEq, Eq)]
pub struct StmtNode {
    pub span: Span,
    pub stmt: Stmt,
}

/// The forms of a statement.
#[derive(Debug, PartialEq, Eq)]
pub enum Stmt {
    Expr(ExprNode),
    If(ExprNode, Block, Option<Block>),
    While(ExprNode, Block),
    /// The initializing statement where there is one, the condition, the
    /// step, and the body.
    For(Option<Box<StmtNode>>, Option<ExprNode>, Option<ExprNode>, Block),
    Switch(ExprNode, Vec<Case>),
    Break,
    Continue,
    Return(Option<ExprNode>),
    Block(Block),
    Function(Function),
}

/// A case of a `switch`; the label is absent for `default`.
#[derive(Debug, PartialEq, Eq)]
pub struct Case {
    pub label: Option<ExprNode>,
    pub body: Block,
}

/// A function definition: its return type, the ids of its named parameters
/// and its body.
#[derive(Debug, PartialEq, Eq)]
pub struct Function {
    pub return_type: CType,
    pub params: Vec<ItemId>,
    pub body: Block,
}

/// The view of [`Block`].
pub struct BlockView(pub Seq<StmtNodeView>);

/// The view of [`StmtNode`].
pub struct StmtNodeView {
    pub span: Span,
    pub stmt: StmtView,
}

/// The view of [`Stmt`].
pub enum StmtView {
    Expr(ExprNodeView),
    If(ExprNodeView, BlockView, Option<BlockView>),
    While(ExprNodeView, BlockView),
    For(Option<Box<StmtNodeView>>, Option<ExprNodeView>, Option<ExprNodeView>, BlockView),
    Switch(ExprNodeView, Seq<CaseView>),
    Break,
    Continue,
    Return(Option<ExprNodeView>),
    Block(BlockView),
    Function(FunctionView),
}

/// The view of [`Case`].
pub struct CaseView {
    pub label: Option<ExprNodeView>,
    pub body: BlockView,
}

/// The view of [`Function`].
pub struct FunctionView {
    pub return_type: CType,
    pub params: Seq<ItemId>,
    pub body: BlockView,
}

/// The view of an optional expression.
pub open spec fn optional_expr_view(e: Option<ExprNode>) -> Option<ExprNodeView> {
    match e {
        Some(e) => Some(e.view()),
        None => None,
    }
}

/// The views of the statements of `v`, in order.
pub open spec fn stmt_views(v: Seq<StmtNode>) -> Seq<StmtNodeView>
    decreases v,
{
    Seq::new(
        v.len(),
        |i: int|
            if 0 <= i < v.len() {
                v[i].view()
            } else {
                arbitrary()
            },
    )
}

/// The views of the cases of `v`, in order.
pub open spec fn case_views(v: Seq<Case>) -> Seq<CaseView>
    decreases v,
{
    Seq::new(
        v.len(),
        |i: int|
            if 0 <= i < v.len() {
                v[i].view()
            } else {
                arbitrary()
            },
    )
}

impl Block {
    /// The mathematical view.
    pub open spec fn view(&self) -> BlockView
        decreases self,
    {
        BlockView(stmt_views(self.0@))
    }
}

impl StmtNode {
    /// The mathematical view.
    pub open spec fn view(&self) -> StmtNodeView
        decreases self,
    {
        StmtNodeView { span: self.span, stmt: self.stmt.view() }
    }
}

impl Case {
    /// The mathematical view.
    pub open spec fn view(&self) -> CaseView
        decreases self,
    {
        CaseView { label: optional_expr_view(self.label), body: self.body.view() }
    }
}

impl Stmt {
    /// The mathematical view.
    pub open spec fn view(&self) -> StmtView
        decreases self,
    {
        match self {
            Stmt::Expr(e) => StmtView::Expr(e.view()),
            Stmt::If(c, t, e) => StmtView::If(
                c.view(),
                t.view(),
                match e {
                    Some(b) => Some(b.view()),
                    None => None,
                },
            ),
            Stmt::While(c, b) => StmtView::While(c.view(), b.view()),
            Stmt::For(init, c, step, b) => StmtView::For(
                match init {
                    Some(s) => Some(Box::new(s.view())),
                    None => None,
                },
                optional_expr_view(*c),
                optional_expr_view(*step),
                b.view(),
            ),
            Stmt::Switch(e, cases) => StmtView::Switch(e.view(), case_views(cases@)),
            Stmt::Break => StmtView::Break,
            Stmt::Continue => StmtView::Continue,
            Stmt::Return(e) => StmtView::Return(optional_expr_view(*e)),
            Stmt::Block(b) => StmtView::Block(b.view()),
            Stmt::Function(f) => StmtView::Function(
                FunctionView { return_type: f.return_type, params: f.params@, body: f.body.view() },
            ),
        }
    }
}

/// The result of lowering a translation unit: the global block and the
/// finished symbol table.
#[derive(Debug, PartialEq, Eq)]
pub struct Root {
    pub global: Block,
    pub table: Table<Item>,
}

/// The view of [`Root`].
pub struct RootView {
    pub global: BlockView,
    pub table: Seq<Item>,
}

impl Root {
    /// The mathematical view.
    pub open spec fn view(&self) -> RootView {
        RootView { global: self.global.view(), table: self.table@ }
    }
}

} // verus!
