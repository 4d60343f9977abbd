//! The syntax tree as a labeled tree: one case for each kind of node. The
//! projection reads the tree and changes nothing, so it may be taken before
//! as well as after folding.

use vstd::prelude::*;
use crate::ast::{
    ArrayDeclaration, ArrayDeclarationNodeView, ArrayDeclarationView, Ast, AstView, BinaryOperator,
    BlockStatement, BlockStatementView, Declaration, DeclarationView, Expression, ExpressionNode,
    ExpressionNodeView, ExpressionView, ExternalDeclaration, ExternalDeclarationNodeView,
    ExternalDeclarationView, ForStatement, ForStatementView, FunctionCall, FunctionCallView,
    FunctionDeclaration, FunctionDeclarationView, FunctionDefinition, FunctionDefinitionView,
    FunctionParamNode, FunctionParamNodeView, IfStatement, IfStatementView, Literal, LiteralValue,
    LiteralValueView, LiteralView, PlainType, PrimitiveType, QualifiedTypeNode, Statement,
    StatementNodeView, StatementView, SwitchCase, SwitchCaseView, SwitchStatement,
    SwitchStatementView, UnaryOperator, UnqualifiedType, VariableDeclaration,
    VariableDeclarationView, WhileStatement, WhileStatementView, array_part_views, expression_views,
    external_declaration_views, optional_expression_view, param_views, statement_views,
    switch_case_views,
};
use crate::inspectors::dot::{
    DotLabelView, DotTree, DotTreeView, children_views, decimal, decimal_text,
    escape_string_literal, escaped, no_children, push_child, text_leaf, text_node,
};

verus! {

/// The children of a node, each under the name of its edge.
pub type Children = Seq<(Seq<char>, DotTreeView)>;

// ---------------------------------------------------------------------------
// The labeled tree of each node
// ---------------------------------------------------------------------------

/// The name of a primitive type.
pub open spec fn primitive_name(p: PrimitiveType) -> Seq<char> {
    match p {
        PrimitiveType::Void => "void"@,
        PrimitiveType::Char => "char"@,
        PrimitiveType::SignedChar => "signed char"@,
        PrimitiveType::UnsignedChar => "unsigned char"@,
        PrimitiveType::SignedShortInt => "short int"@,
        PrimitiveType::UnsignedShortInt => "unsigned short int"@,
        PrimitiveType::SignedInt => "int"@,
        PrimitiveType::UnsignedInt => "unsigned int"@,
        PrimitiveType::SignedLongInt => "long int"@,
        PrimitiveType::UnsignedLongInt => "unsigned long int"@,
        PrimitiveType::Float => "float"@,
        PrimitiveType::Double => "double"@,
        PrimitiveType::LongDouble => "long double"@,
    }
}

/// The symbol of a binary operator.
pub open spec fn binary_symbol(op: BinaryOperator) -> Seq<char> {
    match op {
        BinaryOperator::Plus => "+"@,
        BinaryOperator::Minus => "-"@,
        BinaryOperator::Star => "*"@,
        BinaryOperator::Slash => "/"@,
        BinaryOperator::Pipe => "|"@,
        BinaryOperator::Caret => "^"@,
        BinaryOperator::Ampersand => "&"@,
        BinaryOperator::AngleLeft => "<"@,
        BinaryOperator::AngleRight => ">"@,
        BinaryOperator::DoubleEquals => "=="@,
        BinaryOperator::DoubleAmpersand => "&&"@,
        BinaryOperator::DoublePipe => "||"@,
        BinaryOperator::BangEquals => "!="@,
        BinaryOperator::Percent => "%"@,
        BinaryOperator::AngleLeftEquals => "<="@,
        BinaryOperator::AngleRightEquals => ">="@,
        BinaryOperator::DoubleAngleLeft => "<<"@,
        BinaryOperator::DoubleAngleRight => ">>"@,
    }
}

/// The symbol of a unary operator, with a ring where its operand stands.
pub open spec fn unary_symbol(op: UnaryOperator) -> Seq<char> {
    match op {
        UnaryOperator::Bang => "!◌"@,
        UnaryOperator::Plus => "+◌"@,
        UnaryOperator::Minus => "-◌"@,
        UnaryOperator::Tilde => "~◌"@,
        UnaryOperator::Ampersand => "&◌"@,
        UnaryOperator::Star => "*◌"@,
        UnaryOperator::DoublePlusPrefix => "++◌"@,
        UnaryOperator::DoubleMinusPrefix => "--◌"@,
        UnaryOperator::DoublePlusPostfix => "◌++"@,
        UnaryOperator::DoubleMinusPostfix => "◌--"@,
    }
}

/// The labeled tree of the node.
pub open spec fn dot_of_unqualified(ty: UnqualifiedType) -> DotTreeView
    decreases ty,
{
    match ty {
        UnqualifiedType::PointerType(to) => text_node("pointer"@, seq![("to"@, dot_of_type(*to))]),
        UnqualifiedType::PlainType(PlainType::Primitive(p)) => text_leaf(primitive_name(p)),
    }
}

/// A qualified type: a `const` leaf where it is qualified, then the
/// unqualified type.
pub open spec fn dot_of_type(ty: QualifiedTypeNode) -> DotTreeView
    decreases ty,
{
    text_node(
        "q type"@,
        if ty.data.is_const is Some {
            seq![
                (""@, text_leaf("const"@)),
                ("unqualified"@, dot_of_unqualified(ty.data.inner.data)),
            ]
        } else {
            seq![("unqualified"@, dot_of_unqualified(ty.data.inner.data))]
        },
    )
}

/// The labeled tree of the node.
pub open spec fn dot_of_ident(name: Seq<char>) -> DotTreeView {
    text_leaf(name)
}

/// A literal: its kind as the name of the edge to its value. An integer is
/// written in decimal whatever its radix, a character by its code, a string
/// escaped.
pub open spec fn dot_of_literal(l: LiteralView) -> DotTreeView {
    text_node(
        "literal"@,
        seq![
            match l.value {
                LiteralValueView::Dec(i) => ("dec"@, text_leaf(decimal(i as int))),
                LiteralValueView::Hex(i) => ("hex"@, text_leaf(decimal(i as int))),
                LiteralValueView::Octal(i) => ("octal"@, text_leaf(decimal(i as int))),
                LiteralValueView::Char(c) => ("char"@, text_leaf(decimal(c as int))),
                LiteralValueView::Float(bits) => (
                    "float"@,
                    DotTreeView { label: DotLabelView::Float(bits), children: Seq::empty() },
                ),
                LiteralValueView::String(s) => ("string"@, text_leaf(escaped(s))),
            },
        ],
    )
}

/// The trees of expressions, each under the edge `edge`.
pub open spec fn dots_of_expressions(edge: Seq<char>, s: Seq<ExpressionNodeView>) -> Children
    decreases s,
{
    Seq::new(
        s.len(),
        |i: int|
            if 0 <= i < s.len() {
                (edge, dot_of_expression(s[i].data))
            } else {
                arbitrary()
            },
    )
}

/// The labeled tree of the node.
pub open spec fn dot_of_call(call: FunctionCallView) -> DotTreeView
    decreases call,
{
    text_node(
        "func call"@,
        seq![("name"@, dot_of_ident(call.ident.data))] + dots_of_expressions("arg"@, call.args),
    )
}

/// The labeled tree of the node.
pub open spec fn dot_of_expression(e: ExpressionView) -> DotTreeView
    decreases e,
{
    match e {
        ExpressionView::Assignment(l, _, r) => text_node(
            "="@,
            seq![("lhs"@, dot_of_expression(l.data)), ("rhs"@, dot_of_expression(r.data))],
        ),
        ExpressionView::Binary(l, op, r) => text_node(
            binary_symbol(op.data),
            seq![("lhs"@, dot_of_expression(l.data)), ("rhs"@, dot_of_expression(r.data))],
        ),
        ExpressionView::ArraySubscript(l, r) => text_node(
            "◌[◌]"@,
            seq![("lhs"@, dot_of_expression(l.data)), ("rhs"@, dot_of_expression(r.data))],
        ),
        ExpressionView::Unary(op, x) => text_node(
            unary_symbol(op.data),
            seq![(""@, dot_of_expression(x.data))],
        ),
        ExpressionView::Cast(ty, x) => text_node(
            "cast"@,
            seq![("type"@, dot_of_type(ty)), ("expr"@, dot_of_expression(x.data))],
        ),
        ExpressionView::FunctionCall(call) => dot_of_call(call),
        ExpressionView::Ident(i) => dot_of_ident(i.data),
        ExpressionView::Literal(l) => dot_of_literal(l.data),
    }
}

/// The labeled tree of the node.
pub open spec fn dot_of_optional(edge: Seq<char>, e: Option<ExpressionNodeView>) -> Children {
    match e {
        Some(e) => seq![(edge, dot_of_expression(e.data))],
        None => Seq::empty(),
    }
}

/// The labeled tree of the node.
pub open spec fn dot_of_array(a: ArrayDeclarationView) -> DotTreeView {
    match a {
        ArrayDeclarationView::Unknown => text_leaf("unknown len"@),
        ArrayDeclarationView::Known(e) => text_node(
            "known len"@,
            seq![("expr"@, dot_of_expression(e.data))],
        ),
    }
}

/// The labeled trees of the nodes, each under the name of its edge.
pub open spec fn dots_of_arrays(s: Seq<ArrayDeclarationNodeView>) -> Children {
    Seq::new(s.len(), |i: int| ("array"@, dot_of_array(s[i].data)))
}

/// The labeled tree of the node.
pub open spec fn dot_of_variable(v: VariableDeclarationView) -> DotTreeView {
    text_node(
        "var decl"@,
        seq![("type"@, dot_of_type(v.ty)), ("ident"@, dot_of_ident(v.ident.data))]
            + dots_of_arrays(v.array_parts) + match v.initializer {
            Some((_, e)) => seq![("rhs"@, dot_of_expression(e.data))],
            None => Seq::empty(),
        },
    )
}

/// The labeled tree of the node.
pub open spec fn dot_of_param(p: FunctionParamNodeView) -> DotTreeView {
    text_node(
        "param"@,
        seq![("type"@, dot_of_type(p.ty))] + match p.ident {
            Some(i) => seq![("ident"@, dot_of_ident(i.data))],
            None => Seq::empty(),
        },
    )
}

/// The labeled trees of the nodes, each under the name of its edge.
pub open spec fn dots_of_params(s: Seq<FunctionParamNodeView>) -> Children {
    Seq::new(s.len(), |i: int| (""@, dot_of_param(s[i])))
}

/// The labeled tree of the node.
pub open spec fn dot_of_vararg(is_vararg: bool) -> Children {
    if is_vararg {
        seq![("vararg"@, text_leaf("..."@))]
    } else {
        Seq::empty()
    }
}

/// The labeled tree of the node.
pub open spec fn dot_of_function_declaration(f: FunctionDeclarationView) -> DotTreeView {
    text_node(
        "fn decl"@,
        seq![("ret type"@, dot_of_type(f.return_type)), ("ident"@, dot_of_ident(f.ident.data))]
            + dots_of_params(f.params) + dot_of_vararg(f.is_vararg),
    )
}

/// The labeled tree of the node.
pub open spec fn dot_of_declaration(d: DeclarationView) -> DotTreeView {
    match d {
        DeclarationView::Variable(v) => dot_of_variable(v),
        DeclarationView::FunctionDeclaration(f) => dot_of_function_declaration(f),
    }
}

/// The labeled trees of the nodes, each under the name of its edge.
pub open spec fn dots_of_statements(s: Seq<StatementNodeView>) -> Children
    decreases s,
{
    Seq::new(
        s.len(),
        |i: int|
            if 0 <= i < s.len() {
                ("stmt"@, dot_of_statement(s[i].data))
            } else {
                arbitrary()
            },
    )
}

/// The labeled tree of the node.
pub open spec fn dot_of_block(b: BlockStatementView) -> DotTreeView
    decreases b,
{
    text_node("block"@, dots_of_statements(b.0))
}

/// The labeled tree of the node.
pub open spec fn dot_of_if(i: IfStatementView) -> DotTreeView
    decreases i,
{
    text_node(
        "if"@,
        seq![("cond"@, dot_of_expression(i.condition.data)), ("if body"@, dot_of_block(i.if_body))]
            + match i.else_body {
            Some(b) => seq![("else body"@, dot_of_block(b))],
            None => Seq::empty(),
        },
    )
}

/// The labeled tree of the node.
pub open spec fn dot_of_case(c: SwitchCaseView) -> DotTreeView
    decreases c,
{
    match c {
        SwitchCaseView::Expr(c) => text_node(
            "expr"@,
            seq![("expr"@, dot_of_expression(c.expr.data)), ("body"@, dot_of_block(c.body))],
        ),
        SwitchCaseView::Default(c) => text_node("default"@, seq![("body"@, dot_of_block(c.body))]),
    }
}

/// The labeled trees of the nodes, each under the name of its edge.
pub open spec fn dots_of_cases(s: Seq<SwitchCaseView>) -> Children
    decreases s,
{
    Seq::new(
        s.len(),
        |i: int|
            if 0 <= i < s.len() {
                ("case"@, dot_of_case(s[i]))
            } else {
                arbitrary()
            },
    )
}

/// The labeled tree of the node.
pub open spec fn dot_of_switch(sw: SwitchStatementView) -> DotTreeView
    decreases sw,
{
    text_node(
        "switch"@,
        seq![("expr"@, dot_of_expression(sw.expr.data))] + dots_of_cases(sw.cases),
    )
}

/// The labeled tree of the node.
pub open spec fn dot_of_while(w: WhileStatementView) -> DotTreeView
    decreases w,
{
    text_node(
        "while"@,
        seq![("cond"@, dot_of_expression(w.condition.data)), ("body"@, dot_of_block(w.body))],
    )
}

/// The labeled tree of the node.
pub open spec fn dot_of_for(f: ForStatementView) -> DotTreeView
    decreases f,
{
    text_node(
        "for"@,
        (match f.init {
            Some(init) => seq![("init"@, dot_of_statement(init.data))],
            None => Seq::empty(),
        }) + dot_of_optional("cond"@, f.condition) + dot_of_optional("iter"@, f.iter) + seq![
            ("body"@, dot_of_block(f.body)),
        ],
    )
}

/// The labeled tree of the node.
pub open spec fn dot_of_statement(s: StatementView) -> DotTreeView
    decreases s,
{
    match s {
        StatementView::Declaration(d) => dot_of_declaration(d),
        StatementView::Expression(e) => dot_of_expression(e.data),
        StatementView::If(i) => dot_of_if(i),
        StatementView::Switch(sw) => dot_of_switch(sw),
        StatementView::While(w) => dot_of_while(w),
        StatementView::For(f) => dot_of_for(f),
        StatementView::Break => text_leaf("break"@),
        StatementView::Continue => text_leaf("continue"@),
        StatementView::Return(_, e) => text_node("return"@, dot_of_optional("expr"@, e)),
        StatementView::BlockStatement(b) => dot_of_block(b),
    }
}

/// The labeled tree of the node.
pub open spec fn dot_of_function_definition(f: FunctionDefinitionView) -> DotTreeView {
    text_node(
        "fn def"@,
        seq![("return type"@, dot_of_type(f.return_type)), ("ident"@, dot_of_ident(f.ident.data))]
            + dots_of_params(f.params) + dot_of_vararg(f.is_vararg) + seq![
            ("body"@, dot_of_block(f.body)),
        ],
    )
}

/// The labeled tree of the node.
pub open spec fn dot_of_external(d: ExternalDeclarationView) -> DotTreeView {
    match d {
        ExternalDeclarationView::FunctionDefinition(f) => dot_of_function_definition(f),
        ExternalDeclarationView::Declaration(d) => dot_of_declaration(d),
    }
}

/// The labeled trees of the nodes, each under the name of its edge.
pub open spec fn dots_of_externals(s: Seq<ExternalDeclarationNodeView>) -> Children {
    Seq::new(s.len(), |i: int| ("ext decl"@, dot_of_external(s[i].data)))
}

/// The labeled tree of the node.
pub open spec fn dot_of_ast(a: AstView) -> DotTreeView {
    text_node("translation unit"@, dots_of_externals(a.global))
}

// ---------------------------------------------------------------------------
// The projection
// ---------------------------------------------------------------------------

/// The leaf of an identifier.
pub fn to_dot_ident(i: &str) -> (r: DotTree)
    ensures
        r@ == dot_of_ident(i@),
{
    DotTree::new_leaf(i.to_owned())
}

fn leaf(label: &'static str) -> (r: DotTree)
    ensures
        r@ == text_leaf(label@),
{
    DotTree::new_leaf(label.to_owned())
}

fn node(label: &'static str, children: Vec<(&'static str, DotTree)>) -> (r: DotTree)
    ensures
        r@ == text_node(label@, children_views(children@)),
{
    DotTree::new(label.to_owned(), children)
}

/// A node with one child.
fn node1(label: &'static str, edge: &'static str, child: DotTree) -> (r: DotTree)
    ensures
        r@ == text_node(label@, seq![(edge@, child@)]),
{
    let mut children = no_children();
    push_child(&mut children, edge, child);
    proof {
        assert(children_views(children@) =~= seq![(edge@, child@)]);
    }
    node(label, children)
}

/// A node with two children.
fn node2(
    label: &'static str,
    first_edge: &'static str,
    first: DotTree,
    second_edge: &'static str,
    second: DotTree,
) -> (r: DotTree)
    ensures
        r@ == text_node(label@, seq![(first_edge@, first@), (second_edge@, second@)]),
{
    let mut children = no_children();
    push_child(&mut children, first_edge, first);
    push_child(&mut children, second_edge, second);
    proof {
        assert(children_views(children@) =~= seq![(first_edge@, first@), (second_edge@, second@)]);
    }
    node(label, children)
}

fn primitive_text(p: PrimitiveType) -> (r: &'static str)
    ensures
        r@ == primitive_name(p),
{
    match p {
        PrimitiveType::Void => "void",
        PrimitiveType::Char => "char",
        PrimitiveType::SignedChar => "signed char",
        PrimitiveType::UnsignedChar => "unsigned char",
        PrimitiveType::SignedShortInt => "short int",
        PrimitiveType::UnsignedShortInt => "unsigned short int",
        PrimitiveType::SignedInt => "int",
        PrimitiveType::UnsignedInt => "unsigned int",
        PrimitiveType::SignedLongInt => "long int",
        PrimitiveType::UnsignedLongInt => "unsigned long int",
        PrimitiveType::Float => "float",
        PrimitiveType::Double => "double",
        PrimitiveType::LongDouble => "long double",
    }
}

fn binary_text(op: BinaryOperator) -> (r: &'static str)
    ensures
        r@ == binary_symbol(op),
{
    match op {
        BinaryOperator::Plus => "+",
        BinaryOperator::Minus => "-",
        BinaryOperator::Star => "*",
        BinaryOperator::Slash => "/",
        BinaryOperator::Pipe => "|",
        BinaryOperator::Caret => "^",
        BinaryOperator::Ampersand => "&",
        BinaryOperator::AngleLeft => "<",
        BinaryOperator::AngleRight => ">",
        BinaryOperator::DoubleEquals => "==",
        BinaryOperator::DoubleAmpersand => "&&",
        BinaryOperator::DoublePipe => "||",
        BinaryOperator::BangEquals => "!=",
        BinaryOperator::Percent => "%",
        BinaryOperator::AngleLeftEquals => "<=",
        BinaryOperator::AngleRightEquals => ">=",
        BinaryOperator::DoubleAngleLeft => "<<",
        BinaryOperator::DoubleAngleRight => ">>",
    }
}

fn unary_text(op: UnaryOperator) -> (r: &'static str)
    ensures
        r@ == unary_symbol(op),
{
    match op {
        UnaryOperator::Bang => "!◌",
        UnaryOperator::Plus => "+◌",
        UnaryOperator::Minus => "-◌",
        UnaryOperator::Tilde => "~◌",
        UnaryOperator::Ampersand => "&◌",
        UnaryOperator::Star => "*◌",
        UnaryOperator::DoublePlusPrefix => "++◌",
        UnaryOperator::DoubleMinusPrefix => "--◌",
        UnaryOperator::DoublePlusPostfix => "◌++",
        UnaryOperator::DoubleMinusPostfix => "◌--",
    }
}

impl UnqualifiedType {
    /// The node as a labeled tree.
    pub fn to_dot(&self) -> (r: DotTree)
        ensures
            r@ == dot_of_unqualified(*self),
        decreases self,
    {
        match self {
            UnqualifiedType::PointerType(to) => node1("pointer", "to", to.to_dot()),
            UnqualifiedType::PlainType(PlainType::Primitive(p)) => leaf(primitive_text(*p)),
        }
    }
}

impl QualifiedTypeNode {
    /// The node as a labeled tree.
    pub fn to_dot(&self) -> (r: DotTree)
        ensures
            r@ == dot_of_type(*self),
        decreases self,
    {
        let mut children = no_children();
        if self.data.is_const.is_some() {
            push_child(&mut children, "", leaf("const"));
        }
        push_child(&mut children, "unqualified", self.data.inner.data.to_dot());
        proof {
            let inner = dot_of_unqualified(self.data.inner.data);
            if self.data.is_const is Some {
                assert(children_views(children@) =~= seq![
                    (""@, text_leaf("const"@)),
                    ("unqualified"@, inner),
                ]);
            } else {
                assert(children_views(children@) =~= seq![("unqualified"@, inner)]);
            }
        }
        node("q type", children)
    }
}

impl Literal {
    /// The node as a labeled tree.
    pub fn to_dot(&self) -> (r: DotTree)
        ensures
            r@ == dot_of_literal(self@),
    {
        match &self.value {
            LiteralValue::Dec(i) => node1("literal", "dec", DotTree::new_leaf(decimal_text(*i))),
            LiteralValue::Hex(i) => node1("literal", "hex", DotTree::new_leaf(decimal_text(*i))),
            LiteralValue::Octal(i) => node1("literal", "octal", DotTree::new_leaf(decimal_text(*i))),
            LiteralValue::Char(c) => node1(
                "literal",
                "char",
                DotTree::new_leaf(decimal_text(*c as i128)),
            ),
            LiteralValue::Float(bits) => node1("literal", "float", DotTree::new_float_leaf(*bits)),
            LiteralValue::String(s) => node1(
                "literal",
                "string",
                DotTree::new_leaf(escape_string_literal(s.as_str())),
            ),
        }
    }
}

/// Adds the tree of an expression where there is one.
fn push_optional(
    children: &mut Vec<(&'static str, DotTree)>,
    edge: &'static str,
    e: &Option<ExpressionNode>,
)
    ensures
        children_views(final(children)@) == children_views(old(children)@) + dot_of_optional(
            edge@,
            optional_expression_view(*e),
        ),
{
    match e {
        Some(e) => {
            push_child(children, edge, e.data.to_dot());
            proof {
                let before = children_views(old(children)@);
                let tree = dot_of_expression(e@.data);
                assert(before.push((edge@, tree)) =~= before + seq![(edge@, tree)]);
            }
        },
        None => {
            proof {
                let before = children_views(old(children)@);
                assert(before =~= before + Seq::<(Seq<char>, DotTreeView)>::empty());
            }
        },
    }
}

/// Adds the trees of the parameters of a function.
fn push_params(children: &mut Vec<(&'static str, DotTree)>, params: &Vec<FunctionParamNode>)
    ensures
        children_views(final(children)@) == children_views(old(children)@) + dots_of_params(
            param_views(params@),
        ),
{
    let ghost before = children_views(old(children)@);
    let ghost views = param_views(params@);
    let n: usize = params.len();
    let mut k: usize = 0;
    proof {
        assert(before =~= before + dots_of_params(views).subrange(0, 0));
    }
    while k < n
        invariant
            k <= n,
            n == params@.len(),
            views == param_views(params@),
            children_views(children@) == before + dots_of_params(views).subrange(0, k as int),
        decreases n - k,
    {
        push_child(children, "", params[k].to_dot());
        proof {
            let all = dots_of_params(views);
            assert((before + all.subrange(0, k as int)).push(all[k as int]) =~= before
                + all.subrange(0, k + 1));
        }
        k += 1;
    }
    proof {
        assert(dots_of_params(views).subrange(0, n as int) =~= dots_of_params(views));
    }
}

/// Adds the leaf that marks a variadic function.
fn push_vararg(children: &mut Vec<(&'static str, DotTree)>, is_vararg: bool)
    ensures
        children_views(final(children)@) == children_views(old(children)@) + dot_of_vararg(
            is_vararg,
        ),
{
    let ghost before = children_views(old(children)@);
    if is_vararg {
        push_child(children, "vararg", leaf("..."));
        proof {
            assert(before.push(("vararg"@, text_leaf("..."@))) =~= before + dot_of_vararg(true));
        }
    } else {
        proof {
            assert(before =~= before + dot_of_vararg(false));
        }
    }
}

impl FunctionCall {
    /// The node as a labeled tree.
    pub fn to_dot(&self) -> (r: DotTree)
        ensures
            r@ == dot_of_call(
                FunctionCallView { ident: self.ident@, args: expression_views(self.args@) },
            ),
        decreases self,
    {
        let ghost views = expression_views(self.args@);
        let ghost all = dots_of_expressions("arg"@, views);
        let ghost name = seq![("name"@, dot_of_ident(self.ident@.data))];
        let mut children = no_children();
        push_child(&mut children, "name", to_dot_ident(self.ident.data.as_str()));
        let n: usize = self.args.len();
        let mut k: usize = 0;
        proof {
            assert(children_views(children@) =~= name + all.subrange(0, 0));
        }
        while k < n
            invariant
                k <= n,
                n == self.args@.len(),
                views == expression_views(self.args@),
                all == dots_of_expressions("arg"@, views),
                children_views(children@) == name + all.subrange(0, k as int),
            decreases n - k,
        {
            push_child(&mut children, "arg", self.args[k].data.to_dot());
            proof {
                assert((name + all.subrange(0, k as int)).push(all[k as int]) =~= name
                    + all.subrange(0, k + 1));
            }
            k += 1;
        }
        proof {
            assert(all.subrange(0, n as int) =~= all);
        }
        node("func call", children)
    }
}

impl Expression {
    /// The node as a labeled tree.
    pub fn to_dot(&self) -> (r: DotTree)
        ensures
            r@ == dot_of_expression(self@),
        decreases self,
    {
        match self {
            Expression::Assignment(l, _, r) => node2(
                "=",
                "lhs",
                l.data.to_dot(),
                "rhs",
                r.data.to_dot(),
            ),
            Expression::Binary(l, op, r) => node2(
                binary_text(op.data),
                "lhs",
                l.data.to_dot(),
                "rhs",
                r.data.to_dot(),
            ),
            Expression::ArraySubscript(l, r) => node2(
                "◌[◌]",
                "lhs",
                l.data.to_dot(),
                "rhs",
                r.data.to_dot(),
            ),
            Expression::Unary(op, x) => node1(unary_text(op.data), "", x.data.to_dot()),
            Expression::Cast(ty, x) => node2("cast", "type", ty.to_dot(), "expr", x.data.to_dot()),
            Expression::FunctionCall(call) => call.to_dot(),
            Expression::Ident(i) => to_dot_ident(i.data.as_str()),
            Expression::Literal(l) => l.data.to_dot(),
        }
    }
}

impl ArrayDeclaration {
    /// The node as a labeled tree.
    pub fn to_dot(&self) -> (r: DotTree)
        ensures
            r@ == dot_of_array(self@),
    {
        match self {
            ArrayDeclaration::Unknown => leaf("unknown len"),
            ArrayDeclaration::Known(e) => node1("known len", "expr", e.data.to_dot()),
        }
    }
}

impl VariableDeclaration {
    /// The node as a labeled tree.
    pub fn to_dot(&self) -> (r: DotTree)
        ensures
            r@ == dot_of_variable(self@),
    {
        let ghost views = array_part_views(self.array_parts@);
        let ghost all = dots_of_arrays(views);
        let ghost head = seq![
            ("type"@, dot_of_type(self.ty)),
            ("ident"@, dot_of_ident(self.ident@.data)),
        ];
        let mut children = no_children();
        push_child(&mut children, "type", self.ty.to_dot());
        push_child(&mut children, "ident", to_dot_ident(self.ident.data.as_str()));
        let n: usize = self.array_parts.len();
        let mut k: usize = 0;
        proof {
            assert(children_views(children@) =~= head + all.subrange(0, 0));
        }
        while k < n
            invariant
                k <= n,
                n == self.array_parts@.len(),
                views == array_part_views(self.array_parts@),
                all == dots_of_arrays(views),
                children_views(children@) == head + all.subrange(0, k as int),
            decreases n - k,
        {
            push_child(&mut children, "array", self.array_parts[k].data.to_dot());
            proof {
                assert((head + all.subrange(0, k as int)).push(all[k as int]) =~= head
                    + all.subrange(0, k + 1));
            }
            k += 1;
        }
        proof {
            assert(all.subrange(0, n as int) =~= all);
        }
        match &self.initializer {
            Some((_, e)) => {
                push_child(&mut children, "rhs", e.data.to_dot());
                proof {
                    let rhs = ("rhs"@, dot_of_expression(e@.data));
                    assert((head + all).push(rhs) =~= head + all + seq![rhs]);
                }
            },
            None => {
                proof {
                    assert(head + all =~= head + all + Seq::<(Seq<char>, DotTreeView)>::empty());
                }
            },
        }
        node("var decl", children)
    }
}

impl FunctionParamNode {
    /// The node as a labeled tree.
    pub fn to_dot(&self) -> (r: DotTree)
        ensures
            r@ == dot_of_param(self@),
    {
        let mut children = no_children();
        push_child(&mut children, "type", self.ty.to_dot());
        match &self.ident {
            Some(i) => {
                push_child(&mut children, "ident", to_dot_ident(i.data.as_str()));
                proof {
                    assert(children_views(children@) =~= seq![("type"@, dot_of_type(self.ty))]
                        + seq![("ident"@, dot_of_ident(i@.data))]);
                }
            },
            None => {
                proof {
                    assert(children_views(children@) =~= seq![("type"@, dot_of_type(self.ty))]
                        + Seq::<(Seq<char>, DotTreeView)>::empty());
                }
            },
        }
        node("param", children)
    }
}

impl FunctionDeclaration {
    /// The node as a labeled tree.
    pub fn to_dot(&self) -> (r: DotTree)
        ensures
            r@ == dot_of_function_declaration(self@),
    {
        let mut children = no_children();
        push_child(&mut children, "ret type", self.return_type.to_dot());
        push_child(&mut children, "ident", to_dot_ident(self.ident.data.as_str()));
        proof {
            assert(children_views(children@) =~= seq![
                ("ret type"@, dot_of_type(self.return_type)),
                ("ident"@, dot_of_ident(self.ident@.data)),
            ]);
        }
        push_params(&mut children, &self.params);
        push_vararg(&mut children, self.is_vararg);
        node("fn decl", children)
    }
}

impl Declaration {
    /// The node as a labeled tree.
    pub fn to_dot(&self) -> (r: DotTree)
        ensures
            r@ == dot_of_declaration(self@),
    {
        match self {
            Declaration::Variable(decl) => decl.to_dot(),
            Declaration::FunctionDeclaration(decl) => decl.to_dot(),
        }
    }
}

impl BlockStatement {
    /// The node as a labeled tree.
    pub fn to_dot(&self) -> (r: DotTree)
        ensures
            r@ == dot_of_block(self@),
        decreases self,
    {
        let ghost views = statement_views(self.0@);
        let ghost all = dots_of_statements(views);
        let mut children = no_children();
        let n: usize = self.0.len();
        let mut k: usize = 0;
        proof {
            assert(children_views(children@) =~= all.subrange(0, 0));
        }
        while k < n
            invariant
                k <= n,
                n == self.0@.len(),
                views == statement_views(self.0@),
                all == dots_of_statements(views),
                children_views(children@) == all.subrange(0, k as int),
            decreases n - k,
        {
            push_child(&mut children, "stmt", self.0[k].data.to_dot());
            proof {
                assert(all.subrange(0, k as int).push(all[k as int]) =~= all.subrange(0, k + 1));
            }
            k += 1;
        }
        proof {
            assert(all.subrange(0, n as int) =~= all);
        }
        node("block", children)
    }
}

impl IfStatement {
    /// The node as a labeled tree.
    pub fn to_dot(&self) -> (r: DotTree)
        ensures
            r@ == dot_of_statement(Statement::If(*self)@),
        decreases self,
    {
        let mut children = no_children();
        push_child(&mut children, "cond", self.condition.data.to_dot());
        push_child(&mut children, "if body", self.if_body.to_dot());
        let ghost head = seq![
            ("cond"@, dot_of_expression(self.condition@.data)),
            ("if body"@, dot_of_block(self.if_body@)),
        ];
        proof {
            assert(children_views(children@) =~= head);
        }
        match &self.else_body {
            Some(b) => {
                push_child(&mut children, "else body", b.to_dot());
                proof {
                    let e = ("else body"@, dot_of_block(b@));
                    assert(head.push(e) =~= head + seq![e]);
                }
            },
            None => {
                proof {
                    assert(head =~= head + Seq::<(Seq<char>, DotTreeView)>::empty());
                }
            },
        }
        node("if", children)
    }
}

impl SwitchCase {
    /// The node as a labeled tree.
    pub fn to_dot(&self) -> (r: DotTree)
        ensures
            r@ == dot_of_case(self@),
        decreases self,
    {
        match self {
            SwitchCase::Expr(case) => node2(
                "expr",
                "expr",
                case.expr.data.to_dot(),
                "body",
                case.body.to_dot(),
            ),
            SwitchCase::Default(case) => node1("default", "body", case.body.to_dot()),
        }
    }
}

impl SwitchStatement {
    /// The node as a labeled tree.
    pub fn to_dot(&self) -> (r: DotTree)
        ensures
            r@ == dot_of_statement(Statement::Switch(*self)@),
        decreases self,
    {
        let ghost views = switch_case_views(self.cases@);
        let ghost all = dots_of_cases(views);
        let ghost head = seq![("expr"@, dot_of_expression(self.expr@.data))];
        let mut children = no_children();
        push_child(&mut children, "expr", self.expr.data.to_dot());
        let n: usize = self.cases.len();
        let mut k: usize = 0;
        proof {
            assert(children_views(children@) =~= head + all.subrange(0, 0));
        }
        while k < n
            invariant
                k <= n,
                n == self.cases@.len(),
                views == switch_case_views(self.cases@),
                all == dots_of_cases(views),
                children_views(children@) == head + all.subrange(0, k as int),
            decreases n - k,
        {
            push_child(&mut children, "case", self.cases[k].to_dot());
            proof {
                assert((head + all.subrange(0, k as int)).push(all[k as int]) =~= head
                    + all.subrange(0, k + 1));
            }
            k += 1;
        }
        proof {
            assert(all.subrange(0, n as int) =~= all);
        }
        node("switch", children)
    }
}

impl WhileStatement {
    /// The node as a labeled tree.
    pub fn to_dot(&self) -> (r: DotTree)
        ensures
            r@ == dot_of_statement(Statement::While(*self)@),
        decreases self,
    {
        node2("while", "cond", self.condition.data.to_dot(), "body", self.body.to_dot())
    }
}

impl ForStatement {
    /// The node as a labeled tree.
    pub fn to_dot(&self) -> (r: DotTree)
        ensures
            r@ == dot_of_statement(Statement::For(*self)@),
        decreases self,
    {
        let mut children = no_children();
        match &self.init {
            Some(init) => {
                push_child(&mut children, "init", init.data.to_dot());
                proof {
                    assert(children_views(children@) =~= seq![
                        ("init"@, dot_of_statement(init@.data)),
                    ]);
                }
            },
            None => {},
        }
        push_optional(&mut children, "cond", &self.condition);
        push_optional(&mut children, "iter", &self.iter);
        let ghost before = children_views(children@);
        push_child(&mut children, "body", self.body.to_dot());
        proof {
            let body = ("body"@, dot_of_block(self.body@));
            assert(before.push(body) =~= before + seq![body]);
        }
        node("for", children)
    }
}

impl Statement {
    /// The node as a labeled tree.
    pub fn to_dot(&self) -> (r: DotTree)
        ensures
            r@ == dot_of_statement(self@),
        decreases self,
    {
        match self {
            Statement::Declaration(decl) => decl.to_dot(),
            Statement::Expression(e) => e.data.to_dot(),
            Statement::If(i) => i.to_dot(),
            Statement::Switch(i) => i.to_dot(),
            Statement::While(i) => i.to_dot(),
            Statement::For(i) => i.to_dot(),
            Statement::Break => leaf("break"),
            Statement::Continue => leaf("continue"),
            Statement::Return(_, e) => {
                let mut children = no_children();
                push_optional(&mut children, "expr", e);
                proof {
                    let expr = dot_of_optional(
                        "expr"@,
                        optional_expression_view(*e),
                    );
                    assert(Seq::<(Seq<char>, DotTreeView)>::empty() + expr =~= expr);
                }
                node("return", children)
            },
            Statement::BlockStatement(bs) => bs.to_dot(),
        }
    }
}

impl FunctionDefinition {
    /// The node as a labeled tree.
    pub fn to_dot(&self) -> (r: DotTree)
        ensures
            r@ == dot_of_function_definition(self@),
    {
        let mut children = no_children();
        push_child(&mut children, "return type", self.return_type.to_dot());
        push_child(&mut children, "ident", to_dot_ident(self.ident.data.as_str()));
        proof {
            assert(children_views(children@) =~= seq![
                ("return type"@, dot_of_type(self.return_type)),
                ("ident"@, dot_of_ident(self.ident@.data)),
            ]);
        }
        push_params(&mut children, &self.params);
        push_vararg(&mut children, self.is_vararg);
        let ghost before = children_views(children@);
        push_child(&mut children, "body", self.body.to_dot());
        proof {
            let body = ("body"@, dot_of_block(self.body@));
            assert(before.push(body) =~= before + seq![body]);
        }
        node("fn def", children)
    }
}

impl ExternalDeclaration {
    /// The node as a labeled tree.
    pub fn to_dot(&self) -> (r: DotTree)
        ensures
            r@ == dot_of_external(self@),
    {
        match self {
            ExternalDeclaration::FunctionDefinition(def) => def.to_dot(),
            ExternalDeclaration::Declaration(decl) => decl.to_dot(),
        }
    }
}

impl Ast {
    /// The translation unit as a labeled tree.
    pub fn to_dot(&self) -> (r: DotTree)
        ensures
            r@ == dot_of_ast(self@),
    {
        let ghost views = external_declaration_views(self.global@);
        let ghost all = dots_of_externals(views);
        let mut children = no_children();
        let n: usize = self.global.len();
        let mut k: usize = 0;
        proof {
            assert(children_views(children@) =~= all.subrange(0, 0));
        }
        while k < n
            invariant
                k <= n,
                n == self.global@.len(),
                views == external_declaration_views(self.global@),
                all == dots_of_externals(views),
                children_views(children@) == all.subrange(0, k as int),
            decreases n - k,
        {
            push_child(&mut children, "ext decl", self.global[k].data.to_dot());
            proof {
                assert(all.subrange(0, k as int).push(all[k as int]) =~= all.subrange(0, k + 1));
            }
            k += 1;
        }
        proof {
            assert(all.subrange(0, n as int) =~= all);
        }
        node("translation unit", children)
    }
}

} // verus!
