//! The syntax tree handed over by the parser, together with the mathematical
//! view of every node that the contracts of the passes are stated over.

use vstd::prelude::*;

verus! {

/// A region of the source buffer: byte offset and length.
#[derive(Debug, Clone, Copy, PartialEq, Eq, Structural)]
pub struct Span {
    pub start: usize,
    pub length: usize,
}

/// An identifier.
#[derive(Debug, Clone, PartialEq, Eq)]
pub struct IdentNode {
    pub span: Span,
    pub data: String,
}

/// The view of [`IdentNode`].
pub struct IdentView {
    pub span: Span,
    pub data: Seq<char>,
}

impl IdentNode {
    /// The mathematical view.
    pub open spec fn view(&self) -> IdentView {
        IdentView { span: self.span, data: self.data@ }
    }
}

// ---------------------------------------------------------------------------
// Types
// ---------------------------------------------------------------------------

/// The primitive type forms of the language.
#[derive(Debug, Clone, Copy, PartialEq, Eq, Structural)]
pub enum PrimitiveType {
    Void,
    Char,
    SignedChar,
    UnsignedChar,
    SignedShortInt,
    UnsignedShortInt,
    SignedInt,
    UnsignedInt,
    SignedLongInt,
    UnsignedLongInt,
    Float,
    Double,
    LongDouble,
}

/// A type that is named rather than built from another.
#[derive(Debug, Clone, Copy, PartialEq, Eq, Structural)]
pub enum PlainType {
    Primitive(PrimitiveType),
}

/// A type without qualifiers: a pointer to a qualified type, or a plain type.
#[derive(Debug, PartialEq, Eq)]
pub enum UnqualifiedType {
    PointerType(Box<QualifiedTypeNode>),
    PlainType(PlainType),
}

/// An unqualified type with its span.
#[derive(Debug, PartialEq, Eq)]
pub struct UnqualifiedTypeNode {
    pub span: Span,
    pub data: UnqualifiedType,
}

/// An unqualified type with its optional `const` qualifier; `is_const` holds
/// the span of the qualifier where there is one.
#[derive(Debug, PartialEq, Eq)]
pub struct QualifiedType {
    pub is_const: Option<Span>,
    pub inner: UnqualifiedTypeNode,
}

/// A qualified type with its span.
#[derive(Debug, PartialEq, Eq)]
pub struct QualifiedTypeNode {
    pub span: Span,
    pub data: QualifiedType,
}

// ---------------------------------------------------------------------------
// Operators and literals
// ---------------------------------------------------------------------------

/// The binary operators.
#[derive(Debug, Clone, Copy, PartialEq, Eq, Structural)]
pub enum BinaryOperator {
    Plus,
    Minus,
    Star,
    Slash,
    Pipe,
    Caret,
    Ampersand,
    AngleLeft,
    AngleRight,
    DoubleEquals,
    DoubleAmpersand,
    DoublePipe,
    BangEquals,
    Percent,
    AngleLeftEquals,
    AngleRightEquals,
    DoubleAngleLeft,
    DoubleAngleRight,
}

/// A binary operator with its span.
#[derive(Debug, Clone, Copy, PartialEq, Eq, Structural)]
pub struct BinaryOperatorNode {
    pub span: Span,
    pub data: BinaryOperator,
}

/// The unary operators, prefix and postfix.
#[derive(Debug, Clone, Copy, PartialEq, Eq, Structural)]
pub enum UnaryOperator {
    Bang,
    Plus,
    Minus,
    DoublePlusPrefix,
    DoubleMinusPrefix,
    DoublePlusPostfix,
    DoubleMinusPostfix,
    Tilde,
    Ampersand,
    Star,
}

/// A unary operator with its span.
#[derive(Debug, Clone, Copy, PartialEq, Eq, Structural)]
pub struct UnaryOperatorNode {
    pub span: Span,
    pub data: UnaryOperator,
}

/// What a literal holds. An integer keeps the radix it was written in; a
/// floating literal is held as the bit pattern of its IEEE 754 binary64 value.
#[derive(Debug, Clone, PartialEq, Eq)]
pub enum LiteralValue {
    Dec(i128),
    Hex(i128),
    Octal(i128),
    Char(u8),
    Float(u64),
    String(String),
}

/// The view of [`LiteralValue`].
pub enum LiteralValueView {
    Dec(i128),
    Hex(i128),
    Octal(i128),
    Char(u8),
    Float(u64),
    String(Seq<char>),
}

impl LiteralValue {
    /// The mathematical view.
    pub open spec fn view(&self) -> LiteralValueView {
        match self {
            LiteralValue::Dec(i) => LiteralValueView::Dec(*i),
            LiteralValue::Hex(i) => LiteralValueView::Hex(*i),
            LiteralValue::Octal(i) => LiteralValueView::Octal(*i),
            LiteralValue::Char(c) => LiteralValueView::Char(*c),
            LiteralValue::Float(bits) => LiteralValueView::Float(*bits),
            LiteralValue::String(s) => LiteralValueView::String(s@),
        }
    }
}

/// A literal.
#[derive(Debug, Clone, PartialEq, Eq)]
pub struct Literal {
    pub value: LiteralValue,
}

/// The view of [`Literal`].
pub struct LiteralView {
    pub value: LiteralValueView,
}

impl Literal {
    /// The mathematical view.
    pub open spec fn view(&self) -> LiteralView {
        LiteralView { value: self.value@ }
    }
}

/// A literal with its span.
#[derive(Debug, Clone, PartialEq, Eq)]
pub struct LiteralNode {
    pub span: Span,
    pub data: Literal,
}

/// The view of [`LiteralNode`].
pub struct LiteralNodeView {
    pub span: Span,
    pub data: LiteralView,
}

impl LiteralNode {
    /// The mathematical view.
    pub open spec fn view(&self) -> LiteralNodeView {
        LiteralNodeView { span: self.span, data: self.data@ }
    }
}

// ---------------------------------------------------------------------------
// Expressions
// ---------------------------------------------------------------------------

/// An expression with its span.
#[derive(Debug, PartialEq, Eq)]
pub struct ExpressionNode {
    pub span: Span,
    pub data: Expression,
}

/// An expression. `Assignment` carries the span of its `=` between the target
/// and the assigned value.
#[derive(Debug, PartialEq, Eq)]
pub enum Expression {
    Assignment(Box<ExpressionNode>, Span, Box<ExpressionNode>),
    Binary(Box<ExpressionNode>, BinaryOperatorNode, Box<ExpressionNode>),
    ArraySubscript(Box<ExpressionNode>, Box<ExpressionNode>),
    Unary(UnaryOperatorNode, Box<ExpressionNode>),
    Cast(QualifiedTypeNode, Box<ExpressionNode>),
    FunctionCall(FunctionCall),
    Literal(LiteralNode),
    Ident(IdentNode),
}

/// A call: the name of the function and the arguments in order.
#[derive(Debug, PartialEq, Eq)]
pub struct FunctionCall {
    pub ident: IdentNode,
    pub args: Vec<ExpressionNode>,
}

/// The view of [`ExpressionNode`].
pub struct ExpressionNodeView {
    pub span: Span,
    pub data: ExpressionView,
}

/// The view of [`Expression`].
pub enum ExpressionView {
    Assignment(Box<ExpressionNodeView>, Span, Box<ExpressionNodeView>),
    Binary(Box<ExpressionNodeView>, BinaryOperatorNode, Box<ExpressionNodeView>),
    ArraySubscript(Box<ExpressionNodeView>, Box<ExpressionNodeView>),
    Unary(UnaryOperatorNode, Box<ExpressionNodeView>),
    Cast(QualifiedTypeNode, Box<ExpressionNodeView>),
    FunctionCall(FunctionCallView),
    Literal(LiteralNodeView),
    Ident(IdentView),
}

/// The view of [`FunctionCall`].
pub struct FunctionCallView {
    pub ident: IdentView,
    pub args: Seq<ExpressionNodeView>,
}

/// The views of the expressions of `v`, in order.
pub open spec fn expression_views(v: Seq<ExpressionNode>) -> Seq<ExpressionNodeView>
    decreases v,
{
    Seq::new(
        v.len(),
        |i: int|
            if 0 <= i < v.len() {
                v[i].view()
            } else {
                arbitrary()
            },
    )
}

impl ExpressionNode {
    /// The mathematical view.
    pub open spec fn view(&self) -> ExpressionNodeView
        decreases self,
    {
        ExpressionNodeView { span: self.span, data: self.data.view() }
    }
}

impl Expression {
    /// The mathematical view.
    pub open spec fn view(&self) -> ExpressionView
        decreases self,
    {
        match self {
            Expression::Assignment(lhs, eq, rhs) => ExpressionView::Assignment(
                Box::new(lhs.view()),
                *eq,
                Box::new(rhs.view()),
            ),
            Expression::Binary(lhs, op, rhs) => ExpressionView::Binary(
                Box::new(lhs.view()),
                *op,
                Box::new(rhs.view()),
            ),
            Expression::ArraySubscript(lhs, rhs) => ExpressionView::ArraySubscript(
                Box::new(lhs.view()),
                Box::new(rhs.view()),
            ),
            Expression::Unary(op, inner) => ExpressionView::Unary(*op, Box::new(inner.view())),
            Expression::Cast(ty, inner) => ExpressionView::Cast(*ty, Box::new(inner.view())),
            Expression::FunctionCall(call) => ExpressionView::FunctionCall(
                FunctionCallView { ident: call.ident@, args: expression_views(call.args@) },
            ),
            Expression::Literal(lit) => ExpressionView::Literal(lit@),
            Expression::Ident(ident) => ExpressionView::Ident(ident@),
        }
    }
}

// ---------------------------------------------------------------------------
// Declarations
// ---------------------------------------------------------------------------

/// One `[..]` suffix of a declarator, with its length where one is written.
#[derive(Debug, PartialEq, Eq)]
pub enum ArrayDeclaration {
    Unknown,
    Known(ExpressionNode),
}

/// One `[..]` suffix of a declarator with its span.
#[derive(Debug, PartialEq, Eq)]
pub struct ArrayDeclarationNode {
    pub span: Span,
    pub data: ArrayDeclaration,
}

/// The view of [`ArrayDeclaration`].
pub enum ArrayDeclarationView {
    Unknown,
    Known(ExpressionNodeView),
}

/// The view of [`ArrayDeclarationNode`].
pub struct ArrayDeclarationNodeView {
    pub span: Span,
    pub data: ArrayDeclarationView,
}

impl ArrayDeclaration {
    /// The mathematical view.
    pub open spec fn view(&self) -> ArrayDeclarationView {
        match self {
            ArrayDeclaration::Unknown => ArrayDeclarationView::Unknown,
            ArrayDeclaration::Known(e) => ArrayDeclarationView::Known(e.view()),
        }
    }
}

impl ArrayDeclarationNode {
    /// The mathematical view.
    pub open spec fn view(&self) -> ArrayDeclarationNodeView {
        ArrayDeclarationNodeView { span: self.span, data: self.data.view() }
    }
}

/// The views of the array parts of `v`, in order.
pub open spec fn array_part_views(v: Seq<ArrayDeclarationNode>) -> Seq<ArrayDeclarationNodeView> {
    Seq::new(
        v.len(),
        |i: int|
            if 0 <= i < v.len() {
                v[i].view()
            } else {
                arbitrary()
            },
    )
}

/// A variable declaration. The initializer carries the span of its `=`.
#[derive(Debug, PartialEq, Eq)]
pub struct VariableDeclaration {
    pub ty: QualifiedTypeNode,
    pub ident: IdentNode,
    pub array_parts: Vec<ArrayDeclarationNode>,
    pub initializer: Option<(Span, ExpressionNode)>,
}

/// The view of [`VariableDeclaration`].
pub struct VariableDeclarationView {
    pub ty: QualifiedTypeNode,
    pub ident: IdentView,
    pub array_parts: Seq<ArrayDeclarationNodeView>,
    pub initializer: Option<(Span, ExpressionNodeView)>,
}

impl VariableDeclaration {
    /// The mathematical view.
    pub open spec fn view(&self) -> VariableDeclarationView {
        VariableDeclarationView {
            ty: self.ty,
            ident: self.ident@,
            array_parts: array_part_views(self.array_parts@),
            initializer: match self.initializer {
                Some((eq, e)) => Some((eq, e.view())),
                None => None,
            },
        }
    }
}

/// A parameter of a function: its type and, where it has one, its name.
#[derive(Debug, PartialEq, Eq)]
pub struct FunctionParamNode {
    pub span: Span,
    pub ty: QualifiedTypeNode,
    pub ident: Option<IdentNode>,
}

/// The view of [`FunctionParamNode`].
pub struct FunctionParamNodeView {
    pub span: Span,
    pub ty: QualifiedTypeNode,
    pub ident: Option<IdentView>,
}

impl FunctionParamNode {
    /// The mathematical view.
    pub open spec fn view(&self) -> FunctionParamNodeView {
        FunctionParamNodeView {
            span: self.span,
            ty: self.ty,
            ident: match self.ident {
                Some(i) => Some(i@),
                None => None,
            },
        }
    }
}

/// The views of the parameters of `v`, in order.
pub open spec fn param_views(v: Seq<FunctionParamNode>) -> Seq<FunctionParamNodeView> {
    Seq::new(
        v.len(),
        |i: int|
            if 0 <= i < v.len() {
                v[i].view()
            } else {
                arbitrary()
            },
    )
}

/// A function declaration without a body.
#[derive(Debug, PartialEq, Eq)]
pub struct FunctionDeclaration {
    pub return_type: QualifiedTypeNode,
    pub ident: IdentNode,
    pub params: Vec<FunctionParamNode>,
    pub is_vararg: bool,
}

/// The view of [`FunctionDeclaration`].
pub struct FunctionDeclarationView {
    pub return_type: QualifiedTypeNode,
    pub ident: IdentView,
    pub params: Seq<FunctionParamNodeView>,
    pub is_vararg: bool,
}

impl FunctionDeclaration {
    /// The mathematical view.
    pub open spec fn view(&self) -> FunctionDeclarationView {
        FunctionDeclarationView {
            return_type: self.return_type,
            ident: self.ident@,
            params: param_views(self.params@),
            is_vararg: self.is_vararg,
        }
    }
}

/// A declaration of a variable or of a function.
#[derive(Debug, PartialEq, Eq)]
pub enum Declaration {
    Variable(VariableDeclaration),
    FunctionDeclaration(FunctionDeclaration),
}

/// The view of [`Declaration`].
pub enum DeclarationView {
    Variable(VariableDeclarationView),
    FunctionDeclaration(FunctionDeclarationView),
}

impl Declaration {
    /// The mathematical view.
    pub open spec fn view(&self) -> DeclarationView {
        match self {
            Declaration::Variable(v) => DeclarationView::Variable(v@),
            Declaration::FunctionDeclaration(f) => DeclarationView::FunctionDeclaration(f@),
        }
    }
}

// ---------------------------------------------------------------------------
// Statements
// ---------------------------------------------------------------------------

/// A brace-enclosed sequence of statements.
#[derive(Debug, PartialEq, Eq)]
pub struct BlockStatement(pub Vec<StatementNode>);

/// A statement with its span.
#[derive(Debug, PartialEq, Eq)]
pub struct StatementNode {
    pub span: Span,
    pub data: Statement,
}

/// A statement. `Return` carries the span of its keyword.
#[derive(Debug, PartialEq, Eq)]
pub enum Statement {
    Declaration(Declaration),
    Expression(ExpressionNode),
    If(IfStatement),
    Switch(SwitchStatement),
    While(WhileStatement),
    For(ForStatement),
    Break,
    Continue,
    Return(Span, Option<ExpressionNode>),
    BlockStatement(BlockStatement),
}

/// An `if` with its branches.
#[derive(Debug, PartialEq, Eq)]
pub struct IfStatement {
    pub condition: ExpressionNode,
    pub if_body: BlockStatement,
    pub else_body: Option<BlockStatement>,
}

/// A `switch` with its cases in order.
#[derive(Debug, PartialEq, Eq)]
pub struct SwitchStatement {
    pub expr: ExpressionNode,
    pub cases: Vec<SwitchCase>,
}

/// A case of a `switch`: one with a label, or `default`.
#[derive(Debug, PartialEq, Eq)]
pub enum SwitchCase {
    Expr(SwitchCaseExpr),
    Default(SwitchCaseDefault),
}

/// A case with its label.
#[derive(Debug, PartialEq, Eq)]
pub struct SwitchCaseExpr {
    pub expr: ExpressionNode,
    pub body: BlockStatement,
}

/// The `default` case.
#[derive(Debug, PartialEq, Eq)]
pub struct SwitchCaseDefault {
    pub body: BlockStatement,
}

/// A `while` loop.
#[derive(Debug, PartialEq, Eq)]
pub struct WhileStatement {
    pub condition: ExpressionNode,
    pub body: BlockStatement,
}

/// A `for` loop; each of its three heads may be absent.
#[derive(Debug, PartialEq, Eq)]
pub struct ForStatement {
    pub init: Option<Box<StatementNode>>,
    pub condition: Option<ExpressionNode>,
    pub iter: Option<ExpressionNode>,
    pub body: BlockStatement,
}

/// The view of [`BlockStatement`].
pub struct BlockStatementView(pub Seq<StatementNodeView>);

/// The view of [`StatementNode`].
pub struct StatementNodeView {
    pub span: Span,
    pub data: StatementView,
}

/// The view of [`Statement`].
pub enum StatementView {
    Declaration(DeclarationView),
    Expression(ExpressionNodeView),
    If(IfStatementView),
    Switch(SwitchStatementView),
    While(WhileStatementView),
    For(ForStatementView),
    Break,
    Continue,
    Return(Span, Option<ExpressionNodeView>),
    BlockStatement(BlockStatementView),
}

/// The view of [`IfStatement`].
pub struct IfStatementView {
    pub condition: ExpressionNodeView,
    pub if_body: BlockStatementView,
    pub else_body: Option<BlockStatementView>,
}

/// The view of [`SwitchStatement`].
pub struct SwitchStatementView {
    pub expr: ExpressionNodeView,
    pub cases: Seq<SwitchCaseView>,
}

/// The view of [`SwitchCase`].
pub enum SwitchCaseView {
    Expr(SwitchCaseExprView),
    Default(SwitchCaseDefaultView),
}

/// The view of [`SwitchCaseExpr`].
pub struct SwitchCaseExprView {
    pub expr: ExpressionNodeView,
    pub body: BlockStatementView,
}

/// The view of [`SwitchCaseDefault`].
pub struct SwitchCaseDefaultView {
    pub body: BlockStatementView,
}

/// The view of [`WhileStatement`].
pub struct WhileStatementView {
    pub condition: ExpressionNodeView,
    pub body: BlockStatementView,
}

/// The view of [`ForStatement`].
pub struct ForStatementView {
    pub init: Option<Box<StatementNodeView>>,
    pub condition: Option<ExpressionNodeView>,
    pub iter: Option<ExpressionNodeView>,
    pub body: BlockStatementView,
}

/// The view of an optional expression.
pub open spec fn optional_expression_view(e: Option<ExpressionNode>) -> Option<ExpressionNodeView> {
    match e {
        Some(e) => Some(e.view()),
        None => None,
    }
}

/// The views of the statements of `v`, in order.
pub open spec fn statement_views(v: Seq<StatementNode>) -> Seq<StatementNodeView>
    decreases v,
{
    Seq::new(
        v.len(),
        |i: int|
            if 0 <= i < v.len() {
                v[i].view()
            } else {
                arbitrary()
            },
    )
}

/// The views of the cases of `v`, in order.
pub open spec fn switch_case_views(v: Seq<SwitchCase>) -> Seq<SwitchCaseView>
    decreases v,
{
    Seq::new(
        v.len(),
        |i: int|
            if 0 <= i < v.len() {
                v[i].view()
            } else {
                arbitrary()
            },
    )
}

impl BlockStatement {
    /// The mathematical view.
    pub open spec fn view(&self) -> BlockStatementView
        decreases self,
    {
        BlockStatementView(statement_views(self.0@))
    }
}

impl StatementNode {
    /// The mathematical view.
    pub open spec fn view(&self) -> StatementNodeView
        decreases self,
    {
        StatementNodeView { span: self.span, data: self.data.view() }
    }
}

impl SwitchCase {
    /// The mathematical view.
    pub open spec fn view(&self) -> SwitchCaseView
        decreases self,
    {
        match self {
            SwitchCase::Expr(c) => SwitchCaseView::Expr(
                SwitchCaseExprView { expr: c.expr.view(), body: c.body.view() },
            ),
            SwitchCase::Default(c) => SwitchCaseView::Default(
                SwitchCaseDefaultView { body: c.body.view() },
            ),
        }
    }
}

impl Statement {
    /// The mathematical view.
    pub open spec fn view(&self) -> StatementView
        decreases self,
    {
        match self {
            Statement::Declaration(d) => StatementView::Declaration(d@),
            Statement::Expression(e) => StatementView::Expression(e.view()),
            Statement::If(s) => StatementView::If(
                IfStatementView {
                    condition: s.condition.view(),
                    if_body: s.if_body.view(),
                    else_body: match s.else_body {
                        Some(b) => Some(b.view()),
                        None => None,
                    },
                },
            ),
            Statement::Switch(s) => StatementView::Switch(
                SwitchStatementView { expr: s.expr.view(), cases: switch_case_views(s.cases@) },
            ),
            Statement::While(s) => StatementView::While(
                WhileStatementView { condition: s.condition.view(), body: s.body.view() },
            ),
            Statement::For(s) => StatementView::For(
                ForStatementView {
                    init: match s.init {
                        Some(b) => Some(Box::new(b.view())),
                        None => None,
                    },
                    condition: optional_expression_view(s.condition),
                    iter: optional_expression_view(s.iter),
                    body: s.body.view(),
                },
            ),
            Statement::Break => StatementView::Break,
            Statement::Continue => StatementView::Continue,
            Statement::Return(kw, e) => StatementView::Return(*kw, optional_expression_view(*e)),
            Statement::BlockStatement(b) => StatementView::BlockStatement(b.view()),
        }
    }
}

// ---------------------------------------------------------------------------
// Translation unit
// ---------------------------------------------------------------------------

/// A function with its body.
#[derive(Debug, PartialEq, Eq)]
pub struct FunctionDefinition {
    pub return_type: QualifiedTypeNode,
    pub ident: IdentNode,
    pub params: Vec<FunctionParamNode>,
    pub is_vararg: bool,
    pub body: BlockStatement,
}

/// The view of [`FunctionDefinition`].
pub struct FunctionDefinitionView {
    pub return_type: QualifiedTypeNode,
    pub ident: IdentView,
    pub params: Seq<FunctionParamNodeView>,
    pub is_vararg: bool,
    pub body: BlockStatementView,
}

impl FunctionDefinition {
    /// The mathematical view.
    pub open spec fn view(&self) -> FunctionDefinitionView {
        FunctionDefinitionView {
            return_type: self.return_type,
            ident: self.ident@,
            params: param_views(self.params@),
            is_vararg: self.is_vararg,
            body: self.body.view(),
        }
    }
}

/// A top-level declaration.
#[derive(Debug, PartialEq, Eq)]
pub enum ExternalDeclaration {
    FunctionDefinition(FunctionDefinition),
    Declaration(Declaration),
}

/// The view of [`ExternalDeclaration`].
pub enum ExternalDeclarationView {
    FunctionDefinition(FunctionDefinitionView),
    Declaration(DeclarationView),
}

impl ExternalDeclaration {
    /// The mathematical view.
    pub open spec fn view(&self) -> ExternalDeclarationView {
        match self {
            ExternalDeclaration::FunctionDefinition(f) => ExternalDeclarationView::FunctionDefinition(
                f@,
            ),
            ExternalDeclaration::Declaration(d) => ExternalDeclarationView::Declaration(d@),
        }
    }
}

/// A top-level declaration with its span.
#[derive(Debug, PartialEq, Eq)]
pub struct ExternalDeclarationNode {
    pub span: Span,
    pub data: ExternalDeclaration,
}

/// The view of [`ExternalDeclarationNode`].
pub struct ExternalDeclarationNodeView {
    pub span: Span,
    pub data: ExternalDeclarationView,
}

impl ExternalDeclarationNode {
    /// The mathematical view.
    pub open spec fn view(&self) -> ExternalDeclarationNodeView {
        ExternalDeclarationNodeView { span: self.span, data: self.data@ }
    }
}

/// The views of the top-level declarations of `v`, in order.
pub open spec fn external_declaration_views(v: Seq<ExternalDeclarationNode>) -> Seq<
    ExternalDeclarationNodeView,
> {
    Seq::new(
        v.len(),
        |i: int|
            if 0 <= i < v.len() {
                v[i].view()
            } else {
                arbitrary()
            },
    )
}

/// A translation unit: its top-level declarations in source order.
#[derive(Debug, PartialEq, Eq)]
pub struct Ast {
    pub global: Vec<ExternalDeclarationNode>,
}

/// The view of [`Ast`].
pub struct AstView {
    pub global: Seq<ExternalDeclarationNodeView>,
}

impl Ast {
    /// The mathematical view.
    pub open spec fn view(&self) -> AstView {
        AstView { global: external_declaration_views(self.global@) }
    }
}

} // verus!
