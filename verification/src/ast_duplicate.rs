//! Copies of syntax trees: `Clone` for every node, with the copy proved to
//! have the view of what it copies.

use vstd::prelude::*;
use crate::ast::{
    ArrayDeclaration, ArrayDeclarationNode, Ast, BlockStatement, Declaration, Expression,
    ExpressionNode, ExternalDeclaration, ExternalDeclarationNode, ForStatement, FunctionCall,
    FunctionDeclaration, FunctionDefinition, FunctionParamNode, IdentNode, IfStatement, Literal,
    LiteralNode, LiteralValue, QualifiedType, QualifiedTypeNode, Span, Statement, StatementNode,
    SwitchCase, SwitchCaseDefault, SwitchCaseExpr, SwitchStatement, UnqualifiedType,
    UnqualifiedTypeNode, VariableDeclaration, WhileStatement, array_part_views, expression_views,
    external_declaration_views, optional_expression_view, param_views, statement_views,
    switch_case_views,
};

verus! {

impl IdentNode {
    /// A copy.
    pub fn duplicate(&self) -> (r: Self)
        ensures
            r@ == self@,
    {
        IdentNode { span: self.span, data: self.data.clone() }
    }
}

impl UnqualifiedType {
    /// A copy.
    pub fn duplicate(&self) -> (r: Self)
        ensures
            r == *self,
        decreases self,
    {
        match self {
            UnqualifiedType::PointerType(to) => UnqualifiedType::PointerType(
                Box::new(to.duplicate()),
            ),
            UnqualifiedType::PlainType(p) => UnqualifiedType::PlainType(*p),
        }
    }
}

impl QualifiedTypeNode {
    /// A copy.
    pub fn duplicate(&self) -> (r: Self)
        ensures
            r == *self,
        decreases self,
    {
        QualifiedTypeNode {
            span: self.span,
            data: QualifiedType {
                is_const: self.data.is_const,
                inner: UnqualifiedTypeNode {
                    span: self.data.inner.span,
                    data: self.data.inner.data.duplicate(),
                },
            },
        }
    }
}

impl LiteralNode {
    /// A copy.
    pub fn duplicate(&self) -> (r: Self)
        ensures
            r@ == self@,
    {
        let value = match &self.data.value {
            LiteralValue::Dec(i) => LiteralValue::Dec(*i),
            LiteralValue::Hex(i) => LiteralValue::Hex(*i),
            LiteralValue::Octal(i) => LiteralValue::Octal(*i),
            LiteralValue::Char(c) => LiteralValue::Char(*c),
            LiteralValue::Float(bits) => LiteralValue::Float(*bits),
            LiteralValue::String(s) => LiteralValue::String(s.clone()),
        };
        LiteralNode { span: self.span, data: Literal { value } }
    }
}

fn duplicate_expressions(v: &Vec<ExpressionNode>) -> (r: Vec<ExpressionNode>)
    ensures
        expression_views(r@) == expression_views(v@),
    decreases v,
{
    let mut r: Vec<ExpressionNode> = Vec::new();
    let n: usize = v.len();
    let mut k: usize = 0;
    while k < n
        invariant
            k <= n,
            n == v@.len(),
            r@.len() == k,
            forall|j: int| 0 <= j < k ==> (#[trigger] r@[j])@ == v@[j]@,
        decreases n - k,
    {
        r.push(v[k].duplicate());
        k += 1;
    }
    proof {
        assert(expression_views(r@) =~= expression_views(v@));
    }
    r
}

impl ExpressionNode {
    /// A copy.
    pub fn duplicate(&self) -> (r: Self)
        ensures
            r@ == self@,
        decreases self,
    {
        ExpressionNode { span: self.span, data: self.data.duplicate() }
    }
}

impl Expression {
    /// A copy.
    pub fn duplicate(&self) -> (r: Self)
        ensures
            r@ == self@,
        decreases self,
    {
        match self {
            Expression::Assignment(l, eq, r) => Expression::Assignment(
                Box::new(l.duplicate()),
                *eq,
                Box::new(r.duplicate()),
            ),
            Expression::Binary(l, op, r) => Expression::Binary(
                Box::new(l.duplicate()),
                *op,
                Box::new(r.duplicate()),
            ),
            Expression::ArraySubscript(l, r) => Expression::ArraySubscript(
                Box::new(l.duplicate()),
                Box::new(r.duplicate()),
            ),
            Expression::Unary(op, x) => Expression::Unary(*op, Box::new(x.duplicate())),
            Expression::Cast(ty, x) => Expression::Cast(ty.duplicate(), Box::new(x.duplicate())),
            Expression::FunctionCall(call) => Expression::FunctionCall(
                FunctionCall {
                    ident: call.ident.duplicate(),
                    args: duplicate_expressions(&call.args),
                },
            ),
            Expression::Literal(l) => Expression::Literal(l.duplicate()),
            Expression::Ident(i) => Expression::Ident(i.duplicate()),
        }
    }
}

fn duplicate_optional(e: &Option<ExpressionNode>) -> (r: Option<ExpressionNode>)
    ensures
        optional_expression_view(r) == optional_expression_view(*e),
{
    match e {
        Some(e) => Some(e.duplicate()),
        None => None,
    }
}

impl ArrayDeclarationNode {
    /// A copy.
    pub fn duplicate(&self) -> (r: Self)
        ensures
            r@ == self@,
    {
        ArrayDeclarationNode {
            span: self.span,
            data: match &self.data {
                ArrayDeclaration::Unknown => ArrayDeclaration::Unknown,
                ArrayDeclaration::Known(e) => ArrayDeclaration::Known(e.duplicate()),
            },
        }
    }
}

impl VariableDeclaration {
    /// A copy.
    pub fn duplicate(&self) -> (r: Self)
        ensures
            r@ == self@,
    {
        let mut array_parts: Vec<ArrayDeclarationNode> = Vec::new();
        let n: usize = self.array_parts.len();
        let mut k: usize = 0;
        while k < n
            invariant
                k <= n,
                n == self.array_parts@.len(),
                array_parts@.len() == k,
                forall|j: int| 0 <= j < k ==> (#[trigger] array_parts@[j])@ == self.array_parts@[j]@,
            decreases n - k,
        {
            array_parts.push(self.array_parts[k].duplicate());
            k += 1;
        }
        proof {
            assert(array_part_views(array_parts@) =~= array_part_views(self.array_parts@));
        }
        VariableDeclaration {
            ty: self.ty.duplicate(),
            ident: self.ident.duplicate(),
            array_parts,
            initializer: match &self.initializer {
                Some((eq, e)) => Some((*eq, e.duplicate())),
                None => None,
            },
        }
    }
}

impl FunctionParamNode {
    /// A copy.
    pub fn duplicate(&self) -> (r: Self)
        ensures
            r@ == self@,
    {
        FunctionParamNode {
            span: self.span,
            ty: self.ty.duplicate(),
            ident: match &self.ident {
                Some(i) => Some(i.duplicate()),
                None => None,
            },
        }
    }
}

fn duplicate_params(v: &Vec<FunctionParamNode>) -> (r: Vec<FunctionParamNode>)
    ensures
        param_views(r@) == param_views(v@),
{
    let mut r: Vec<FunctionParamNode> = Vec::new();
    let n: usize = v.len();
    let mut k: usize = 0;
    while k < n
        invariant
            k <= n,
            n == v@.len(),
            r@.len() == k,
            forall|j: int| 0 <= j < k ==> (#[trigger] r@[j])@ == v@[j]@,
        decreases n - k,
    {
        r.push(v[k].duplicate());
        k += 1;
    }
    proof {
        assert(param_views(r@) =~= param_views(v@));
    }
    r
}

impl FunctionDeclaration {
    /// A copy.
    pub fn duplicate(&self) -> (r: Self)
        ensures
            r@ == self@,
    {
        FunctionDeclaration {
            return_type: self.return_type.duplicate(),
            ident: self.ident.duplicate(),
            params: duplicate_params(&self.params),
            is_vararg: self.is_vararg,
        }
    }
}

impl Declaration {
    /// A copy.
    pub fn duplicate(&self) -> (r: Self)
        ensures
            r@ == self@,
    {
        match self {
            Declaration::Variable(v) => Declaration::Variable(v.duplicate()),
            Declaration::FunctionDeclaration(f) => Declaration::FunctionDeclaration(f.duplicate()),
        }
    }
}

impl BlockStatement {
    /// A copy.
    pub fn duplicate(&self) -> (r: Self)
        ensures
            r@ == self@,
        decreases self,
    {
        let mut stmts: Vec<StatementNode> = Vec::new();
        let n: usize = self.0.len();
        let mut k: usize = 0;
        while k < n
            invariant
                k <= n,
                n == self.0@.len(),
                stmts@.len() == k,
                forall|j: int| 0 <= j < k ==> (#[trigger] stmts@[j])@ == self.0@[j]@,
            decreases n - k,
        {
            stmts.push(self.0[k].duplicate());
            k += 1;
        }
        proof {
            assert(statement_views(stmts@) =~= statement_views(self.0@));
        }
        BlockStatement(stmts)
    }
}

impl StatementNode {
    /// A copy.
    pub fn duplicate(&self) -> (r: Self)
        ensures
            r@ == self@,
        decreases self,
    {
        StatementNode { span: self.span, data: self.data.duplicate() }
    }
}

impl SwitchCase {
    /// A copy.
    pub fn duplicate(&self) -> (r: Self)
        ensures
            r@ == self@,
        decreases self,
    {
        match self {
            SwitchCase::Expr(c) => SwitchCase::Expr(
                SwitchCaseExpr { expr: c.expr.duplicate(), body: c.body.duplicate() },
            ),
            SwitchCase::Default(c) => SwitchCase::Default(
                SwitchCaseDefault { body: c.body.duplicate() },
            ),
        }
    }
}

fn duplicate_cases(sw: &SwitchStatement) -> (r: Vec<SwitchCase>)
    ensures
        switch_case_views(r@) == switch_case_views(sw.cases@),
    decreases sw,
{
    let mut r: Vec<SwitchCase> = Vec::new();
    let n: usize = sw.cases.len();
    let mut k: usize = 0;
    while k < n
        invariant
            k <= n,
            n == sw.cases@.len(),
            r@.len() == k,
            forall|j: int| 0 <= j < k ==> (#[trigger] r@[j])@ == sw.cases@[j]@,
        decreases n - k,
    {
        r.push(sw.cases[k].duplicate());
        k += 1;
    }
    proof {
        assert(switch_case_views(r@) =~= switch_case_views(sw.cases@));
    }
    r
}

impl Statement {
    /// A copy.
    pub fn duplicate(&self) -> (r: Self)
        ensures
            r@ == self@,
        decreases self,
    {
        match self {
            Statement::Declaration(d) => Statement::Declaration(d.duplicate()),
            Statement::Expression(e) => Statement::Expression(e.duplicate()),
            Statement::If(i) => Statement::If(
                IfStatement {
                    condition: i.condition.duplicate(),
                    if_body: i.if_body.duplicate(),
                    else_body: match &i.else_body {
                        Some(b) => Some(b.duplicate()),
                        None => None,
                    },
                },
            ),
            Statement::Switch(sw) => Statement::Switch(
                SwitchStatement { expr: sw.expr.duplicate(), cases: duplicate_cases(sw) },
            ),
            Statement::While(w) => Statement::While(
                WhileStatement { condition: w.condition.duplicate(), body: w.body.duplicate() },
            ),
            Statement::For(f) => Statement::For(
                ForStatement {
                    init: match &f.init {
                        Some(init) => Some(Box::new(init.duplicate())),
                        None => None,
                    },
                    condition: duplicate_optional(&f.condition),
                    iter: duplicate_optional(&f.iter),
                    body: f.body.duplicate(),
                },
            ),
            Statement::Break => Statement::Break,
            Statement::Continue => Statement::Continue,
            Statement::Return(keyword, e) => Statement::Return(*keyword, duplicate_optional(e)),
            Statement::BlockStatement(b) => Statement::BlockStatement(b.duplicate()),
        }
    }
}

impl FunctionDefinition {
    /// A copy.
    pub fn duplicate(&self) -> (r: Self)
        ensures
            r@ == self@,
    {
        FunctionDefinition {
            return_type: self.return_type.duplicate(),
            ident: self.ident.duplicate(),
            params: duplicate_params(&self.params),
            is_vararg: self.is_vararg,
            body: self.body.duplicate(),
        }
    }
}

impl ExternalDeclarationNode {
    /// A copy.
    pub fn duplicate(&self) -> (r: Self)
        ensures
            r@ == self@,
    {
        ExternalDeclarationNode {
            span: self.span,
            data: match &self.data {
                ExternalDeclaration::FunctionDefinition(f) => ExternalDeclaration::FunctionDefinition(
                    f.duplicate(),
                ),
                ExternalDeclaration::Declaration(d) => ExternalDeclaration::Declaration(
                    d.duplicate(),
                ),
            },
        }
    }
}

impl Ast {
    /// A copy.
    pub fn duplicate(&self) -> (r: Self)
        ensures
            r@ == self@,
    {
        let mut global: Vec<ExternalDeclarationNode> = Vec::new();
        let n: usize = self.global.len();
        let mut k: usize = 0;
        while k < n
            invariant
                k <= n,
                n == self.global@.len(),
                global@.len() == k,
                forall|j: int| 0 <= j < k ==> (#[trigger] global@[j])@ == self.global@[j]@,
            decreases n - k,
        {
            global.push(self.global[k].duplicate());
            k += 1;
        }
        proof {
            assert(external_declaration_views(global@) =~= external_declaration_views(
                self.global@,
            ));
        }
        Ast { global }
    }
}

impl Clone for UnqualifiedType {
    fn clone(&self) -> (r: Self)
        ensures
            r == *self,
    {
        self.duplicate()
    }
}

impl Clone for UnqualifiedTypeNode {
    fn clone(&self) -> (r: Self)
        ensures
            r == *self,
    {
        UnqualifiedTypeNode { span: self.span, data: self.data.duplicate() }
    }
}

impl Clone for QualifiedType {
    fn clone(&self) -> (r: Self)
        ensures
            r == *self,
    {
        QualifiedType { is_const: self.is_const, inner: self.inner.clone() }
    }
}

impl Clone for QualifiedTypeNode {
    fn clone(&self) -> (r: Self)
        ensures
            r == *self,
    {
        self.duplicate()
    }
}

impl Clone for ExpressionNode {
    fn clone(&self) -> (r: Self)
        ensures
            r@ == self@,
    {
        self.duplicate()
    }
}

impl Clone for Expression {
    fn clone(&self) -> (r: Self)
        ensures
            r@ == self@,
    {
        self.duplicate()
    }
}

impl Clone for FunctionCall {
    fn clone(&self) -> (r: Self)
        ensures
            r.ident@ == self.ident@,
            expression_views(r.args@) == expression_views(self.args@),
    {
        FunctionCall { ident: self.ident.duplicate(), args: duplicate_expressions(&self.args) }
    }
}

impl Clone for ArrayDeclaration {
    fn clone(&self) -> (r: Self)
        ensures
            r@ == self@,
    {
        match self {
            ArrayDeclaration::Unknown => ArrayDeclaration::Unknown,
            ArrayDeclaration::Known(e) => ArrayDeclaration::Known(e.duplicate()),
        }
    }
}

impl Clone for ArrayDeclarationNode {
    fn clone(&self) -> (r: Self)
        ensures
            r@ == self@,
    {
        self.duplicate()
    }
}

impl Clone for VariableDeclaration {
    fn clone(&self) -> (r: Self)
        ensures
            r@ == self@,
    {
        self.duplicate()
    }
}

impl Clone for FunctionParamNode {
    fn clone(&self) -> (r: Self)
        ensures
            r@ == self@,
    {
        self.duplicate()
    }
}

impl Clone for FunctionDeclaration {
    fn clone(&self) -> (r: Self)
        ensures
            r@ == self@,
    {
        self.duplicate()
    }
}

impl Clone for Declaration {
    fn clone(&self) -> (r: Self)
        ensures
            r@ == self@,
    {
        self.duplicate()
    }
}

impl Clone for BlockStatement {
    fn clone(&self) -> (r: Self)
        ensures
            r@ == self@,
    {
        self.duplicate()
    }
}

impl Clone for StatementNode {
    fn clone(&self) -> (r: Self)
        ensures
            r@ == self@,
    {
        self.duplicate()
    }
}

impl Clone for Statement {
    fn clone(&self) -> (r: Self)
        ensures
            r@ == self@,
    {
        self.duplicate()
    }
}

impl Clone for IfStatement {
    fn clone(&self) -> (r: Self)
        ensures
            Statement::If(r)@ == Statement::If(*self)@,
    {
        IfStatement {
            condition: self.condition.duplicate(),
            if_body: self.if_body.duplicate(),
            else_body: match &self.else_body {
                Some(b) => Some(b.duplicate()),
                None => None,
            },
        }
    }
}

impl Clone for SwitchStatement {
    fn clone(&self) -> (r: Self)
        ensures
            Statement::Switch(r)@ == Statement::Switch(*self)@,
    {
        SwitchStatement { expr: self.expr.duplicate(), cases: duplicate_cases(self) }
    }
}

impl Clone for SwitchCase {
    fn clone(&self) -> (r: Self)
        ensures
            r@ == self@,
    {
        self.duplicate()
    }
}

impl Clone for SwitchCaseExpr {
    fn clone(&self) -> (r: Self)
        ensures
            r.expr@ == self.expr@,
            r.body@ == self.body@,
    {
        SwitchCaseExpr { expr: self.expr.duplicate(), body: self.body.duplicate() }
    }
}

impl Clone for SwitchCaseDefault {
    fn clone(&self) -> (r: Self)
        ensures
            r.body@ == self.body@,
    {
        SwitchCaseDefault { body: self.body.duplicate() }
    }
}

impl Clone for WhileStatement {
    fn clone(&self) -> (r: Self)
        ensures
            Statement::While(r)@ == Statement::While(*self)@,
    {
        WhileStatement { condition: self.condition.duplicate(), body: self.body.duplicate() }
    }
}

impl Clone for ForStatement {
    fn clone(&self) -> (r: Self)
        ensures
            Statement::For(r)@ == Statement::For(*self)@,
    {
        ForStatement {
            init: match &self.init {
                Some(init) => Some(Box::new(init.duplicate())),
                None => None,
            },
            condition: duplicate_optional(&self.condition),
            iter: duplicate_optional(&self.iter),
            body: self.body.duplicate(),
        }
    }
}

impl Clone for FunctionDefinition {
    fn clone(&self) -> (r: Self)
        ensures
            r@ == self@,
    {
        self.duplicate()
    }
}

impl Clone for ExternalDeclaration {
    fn clone(&self) -> (r: Self)
        ensures
            r@ == self@,
    {
        match self {
            ExternalDeclaration::FunctionDefinition(f) => ExternalDeclaration::FunctionDefinition(
                f.duplicate(),
            ),
            ExternalDeclaration::Declaration(d) => ExternalDeclaration::Declaration(d.duplicate()),
        }
    }
}

impl Clone for ExternalDeclarationNode {
    fn clone(&self) -> (r: Self)
        ensures
            r@ == self@,
    {
        self.duplicate()
    }
}

impl Clone for Ast {
    fn clone(&self) -> (r: Self)
        ensures
            r@ == self@,
    {
        self.duplicate()
    }
}

} // verus!
