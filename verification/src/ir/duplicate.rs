//! Copies of the intermediate representation: `Clone` for every node, with
//! the copy proved to have the view of what it copies.

use vstd::prelude::*;
use crate::ir::ctype::{CType, Scalar};
use crate::ir::expr::{Constant, Expr, ExprNode, LvalueExpr, LvalueExprNode, expr_views};
use crate::ir::stmt::{
    Block, Case, Function, Root, Stmt, StmtNode, case_views, optional_expr_view, stmt_views,
};
use crate::ir::table::{Item, ItemId, Table};

verus! {

impl Clone for Scalar {
    fn clone(&self) -> (r: Self)
        ensures
            r == *self,
    {
        match self {
            Scalar::Arithmetic(a) => Scalar::Arithmetic(*a),
            Scalar::Pointer(inner, inner_const) => Scalar::Pointer(
                Box::new(inner.duplicate()),
                *inner_const,
            ),
        }
    }
}

impl Item {
    /// A copy.
    pub fn duplicate(&self) -> (r: Self)
        ensures
            r == *self,
    {
        Item {
            ty: self.ty.duplicate(),
            is_const: self.is_const,
            original_span: self.original_span,
            initialized: self.initialized,
        }
    }
}

impl Clone for Item {
    fn clone(&self) -> (r: Self)
        ensures
            r == *self,
    {
        self.duplicate()
    }
}

impl Constant {
    /// A copy.
    pub fn duplicate(&self) -> (r: Self)
        ensures
            r@ == self@,
    {
        match self {
            Constant::Integer(i) => Constant::Integer(*i),
            Constant::Float(bits) => Constant::Float(*bits),
            Constant::String(s) => Constant::String(s.clone()),
        }
    }
}

impl Clone for Constant {
    fn clone(&self) -> (r: Self)
        ensures
            r@ == self@,
    {
        self.duplicate()
    }
}

fn duplicate_exprs(v: &Vec<ExprNode>) -> (r: Vec<ExprNode>)
    ensures
        expr_views(r@) == expr_views(v@),
    decreases v,
{
    let mut r: Vec<ExprNode> = Vec::new();
    let n: usize = v.len();
    let mut k: usize = 0;
    while k < n
        invariant
            k <= n,
            n == v@.len(),
            r@.len() == k,
            forall|j: int| 0 <= j < k ==> (#[trigger] r@[j])@ == v@[j]@,
        decreases n - k,
    {
        r.push(v[k].duplicate());
        k += 1;
    }
    proof {
        assert(expr_views(r@) =~= expr_views(v@));
    }
    r
}

impl ExprNode {
    /// A copy.
    pub fn duplicate(&self) -> (r: Self)
        ensures
            r@ == self@,
        decreases self,
    {
        ExprNode { span: self.span, ty: self.ty.duplicate(), expr: self.expr.duplicate() }
    }
}

impl Expr {
    /// A copy.
    pub fn duplicate(&self) -> (r: Self)
        ensures
            r@ == self@,
        decreases self,
    {
        match self {
            Expr::LvalueDeref(l) => Expr::LvalueDeref(Box::new(l.duplicate())),
            Expr::Constant(c) => Expr::Constant(c.duplicate()),
            Expr::Cast(x) => Expr::Cast(Box::new(x.duplicate())),
            Expr::Binary(l, op, r) => Expr::Binary(
                Box::new(l.duplicate()),
                *op,
                Box::new(r.duplicate()),
            ),
            Expr::Unary(op, x) => Expr::Unary(*op, Box::new(x.duplicate())),
            Expr::Reference(l) => Expr::Reference(Box::new(l.duplicate())),
            Expr::Assign(l, x) => Expr::Assign(Box::new(l.duplicate()), Box::new(x.duplicate())),
            Expr::Printf(args) => Expr::Printf(duplicate_exprs(args)),
        }
    }
}

impl LvalueExprNode {
    /// A copy.
    pub fn duplicate(&self) -> (r: Self)
        ensures
            r@ == self@,
        decreases self,
    {
        LvalueExprNode {
            span: self.span,
            is_const: self.is_const,
            ty: self.ty.duplicate(),
            expr: self.expr.duplicate(),
        }
    }
}

impl LvalueExpr {
    /// A copy.
    pub fn duplicate(&self) -> (r: Self)
        ensures
            r@ == self@,
        decreases self,
    {
        match self {
            LvalueExpr::Ident(id) => LvalueExpr::Ident(*id),
            LvalueExpr::Dereference(x) => LvalueExpr::Dereference(Box::new(x.duplicate())),
        }
    }
}

impl Clone for ExprNode {
    fn clone(&self) -> (r: Self)
        ensures
            r@ == self@,
    {
        self.duplicate()
    }
}

impl Clone for Expr {
    fn clone(&self) -> (r: Self)
        ensures
            r@ == self@,
    {
        self.duplicate()
    }
}

impl Clone for LvalueExprNode {
    fn clone(&self) -> (r: Self)
        ensures
            r@ == self@,
    {
        self.duplicate()
    }
}

impl Clone for LvalueExpr {
    fn clone(&self) -> (r: Self)
        ensures
            r@ == self@,
    {
        self.duplicate()
    }
}

fn duplicate_optional(e: &Option<ExprNode>) -> (r: Option<ExprNode>)
    ensures
        optional_expr_view(r) == optional_expr_view(*e),
{
    match e {
        Some(e) => Some(e.duplicate()),
        None => None,
    }
}

fn duplicate_ids(v: &Vec<ItemId>) -> (r: Vec<ItemId>)
    ensures
        r@ == v@,
{
    let mut r: Vec<ItemId> = Vec::new();
    let n: usize = v.len();
    let mut k: usize = 0;
    while k < n
        invariant
            k <= n,
            n == v@.len(),
            r@ == v@.subrange(0, k as int),
        decreases n - k,
    {
        r.push(v[k]);
        proof {
            assert(r@ =~= v@.subrange(0, k + 1));
        }
        k += 1;
    }
    proof {
        assert(v@.subrange(0, n as int) =~= v@);
    }
    r
}

impl Block {
    /// A copy.
    pub fn duplicate(&self) -> (r: Self)
        ensures
            r@ == self@,
        decreases self,
    {
        let mut stmts: Vec<StmtNode> = Vec::new();
        let n: usize = self.0.len();
        let mut k: usize = 0;
        while k < n
            invariant
                k <= n,
                n == self.0@.len(),
                stmts@.len() == k,
                forall|j: int| 0 <= j < k ==> (#[trigger] stmts@[j])@ == self.0@[j]@,
            decreases n - k,
        {
            stmts.push(self.0[k].duplicate());
            k += 1;
        }
        proof {
            assert(stmt_views(stmts@) =~= stmt_views(self.0@));
        }
        Block(stmts)
    }
}

impl StmtNode {
    /// A copy.
    pub fn duplicate(&self) -> (r: Self)
        ensures
            r@ == self@,
        decreases self,
    {
        StmtNode { span: self.span, stmt: self.stmt.duplicate() }
    }
}

impl Case {
    /// A copy.
    pub fn duplicate(&self) -> (r: Self)
        ensures
            r@ == self@,
        decreases self,
    {
        Case { label: duplicate_optional(&self.label), body: self.body.duplicate() }
    }
}

impl Stmt {
    /// A copy.
    pub fn duplicate(&self) -> (r: Self)
        ensures
            r@ == self@,
        decreases self,
    {
        match self {
            Stmt::Expr(e) => Stmt::Expr(e.duplicate()),
            Stmt::If(c, t, e) => Stmt::If(
                c.duplicate(),
                t.duplicate(),
                match e {
                    Some(b) => Some(b.duplicate()),
                    None => None,
                },
            ),
            Stmt::While(c, b) => Stmt::While(c.duplicate(), b.duplicate()),
            Stmt::For(init, c, step, b) => Stmt::For(
                match init {
                    Some(i) => Some(Box::new(i.duplicate())),
                    None => None,
                },
                duplicate_optional(c),
                duplicate_optional(step),
                b.duplicate(),
            ),
            Stmt::Switch(c, cases) => {
                let mut copies: Vec<Case> = Vec::new();
                let n: usize = cases.len();
                let mut k: usize = 0;
                while k < n
                    invariant
                        k <= n,
                        n == cases@.len(),
                        copies@.len() == k,
                        *self matches Stmt::Switch(_, all) && all == *cases,
                        forall|j: int| 0 <= j < k ==> (#[trigger] copies@[j])@ == cases@[j]@,
                    decreases n - k,
                {
                    copies.push(cases[k].duplicate());
                    k += 1;
                }
                proof {
                    assert(case_views(copies@) =~= case_views(cases@));
                }
                Stmt::Switch(c.duplicate(), copies)
            },
            Stmt::Break => Stmt::Break,
            Stmt::Continue => Stmt::Continue,
            Stmt::Return(e) => Stmt::Return(duplicate_optional(e)),
            Stmt::Block(b) => Stmt::Block(b.duplicate()),
            Stmt::Function(f) => Stmt::Function(
                Function {
                    return_type: f.return_type.duplicate(),
                    params: duplicate_ids(&f.params),
                    body: f.body.duplicate(),
                },
            ),
        }
    }
}

impl Clone for Block {
    fn clone(&self) -> (r: Self)
        ensures
            r@ == self@,
    {
        self.duplicate()
    }
}

impl Clone for StmtNode {
    fn clone(&self) -> (r: Self)
        ensures
            r@ == self@,
    {
        self.duplicate()
    }
}

impl Clone for Stmt {
    fn clone(&self) -> (r: Self)
        ensures
            r@ == self@,
    {
        self.duplicate()
    }
}

impl Clone for Case {
    fn clone(&self) -> (r: Self)
        ensures
            r@ == self@,
    {
        self.duplicate()
    }
}

impl Clone for Function {
    fn clone(&self) -> (r: Self)
        ensures
            r.return_type == self.return_type,
            r.params@ == self.params@,
            r.body@ == self.body@,
    {
        Function {
            return_type: self.return_type.duplicate(),
            params: duplicate_ids(&self.params),
            body: self.body.duplicate(),
        }
    }
}

impl Clone for Table<Item> {
    fn clone(&self) -> (r: Self)
        ensures
            r@ == self@,
    {
        let mut items: Vec<Item> = Vec::new();
        let n: usize = self.items.len();
        let mut k: usize = 0;
        while k < n
            invariant
                k <= n,
                n == self.items@.len(),
                items@ == self.items@.subrange(0, k as int),
            decreases n - k,
        {
            items.push(self.items[k].duplicate());
            proof {
                assert(items@ =~= self.items@.subrange(0, k + 1));
            }
            k += 1;
        }
        proof {
            assert(self.items@.subrange(0, n as int) =~= self.items@);
        }
        Table { items }
    }
}

impl Clone for Root {
    fn clone(&self) -> (r: Self)
        ensures
            r@ == self@,
    {
        Root { global: self.global.duplicate(), table: self.table.clone() }
    }
}

} // verus!
