use comp_lib::ast::{
    ArrayDeclaration, ArrayDeclarationNode, Ast, BinaryOperator, BinaryOperatorNode,
    BlockStatement, Declaration, Expression, ExpressionNode, ExternalDeclaration,
    ExternalDeclarationNode, ForStatement, FunctionCall, FunctionDeclaration, FunctionDefinition,
    FunctionParamNode, IdentNode, IfStatement, Literal, LiteralNode, LiteralValue, PlainType,
    PrimitiveType, QualifiedType, QualifiedTypeNode, Span, Statement, StatementNode, SwitchCase,
    SwitchCaseDefault, SwitchCaseExpr, SwitchStatement, UnaryOperator, UnaryOperatorNode,
    UnqualifiedType, UnqualifiedTypeNode, VariableDeclaration, WhileStatement,
};
use comp_lib::inspectors::dot::{decimal_text, escape_string_literal, DotLabel, DotTree};
use comp_lib::passes::const_fold::const_fold;

fn sp() -> Span {
    Span { start: 0, length: 0 }
}

fn leaf(label: &str) -> DotTree {
    DotTree { label: DotLabel::Text(label.to_owned()), children: Vec::new() }
}

fn tree(label: &str, children: Vec<(&'static str, DotTree)>) -> DotTree {
    DotTree { label: DotLabel::Text(label.to_owned()), children }
}

fn node(data: Expression) -> ExpressionNode {
    ExpressionNode { span: sp(), data }
}

fn lit(value: LiteralValue) -> ExpressionNode {
    node(Expression::Literal(LiteralNode { span: sp(), data: Literal { value } }))
}

fn name(n: &str) -> IdentNode {
    IdentNode { span: sp(), data: n.to_owned() }
}

fn var(n: &str) -> ExpressionNode {
    node(Expression::Ident(name(n)))
}

fn bin(l: ExpressionNode, op: BinaryOperator, r: ExpressionNode) -> ExpressionNode {
    node(Expression::Binary(Box::new(l), BinaryOperatorNode { span: sp(), data: op }, Box::new(r)))
}

fn ty(p: PrimitiveType, is_const: bool) -> QualifiedTypeNode {
    QualifiedTypeNode {
        span: sp(),
        data: QualifiedType {
            is_const: if is_const { Some(sp()) } else { None },
            inner: UnqualifiedTypeNode {
                span: sp(),
                data: UnqualifiedType::PlainType(PlainType::Primitive(p)),
            },
        },
    }
}

fn stmt(data: Statement) -> StatementNode {
    StatementNode { span: sp(), data }
}

fn dec_literal(v: &str) -> DotTree {
    tree("literal", vec![("dec", leaf(v))])
}

fn int_type() -> DotTree {
    tree("q type", vec![("unqualified", leaf("int"))])
}

#[test]
fn integers_in_decimal() {
    assert_eq!(decimal_text(0), "0");
    assert_eq!(decimal_text(7), "7");
    assert_eq!(decimal_text(10), "10");
    assert_eq!(decimal_text(-1), "-1");
    assert_eq!(decimal_text(1234567890), "1234567890");
    assert_eq!(decimal_text(-9876543210), "-9876543210");
    assert_eq!(decimal_text(i128::MAX), i128::MAX.to_string());
    assert_eq!(decimal_text(i128::MIN), i128::MIN.to_string());
    for i in -1100..1100 {
        assert_eq!(decimal_text(i), i.to_string());
    }
}

#[test]
fn string_literals_are_escaped() {
    assert_eq!(escape_string_literal(""), "");
    assert_eq!(escape_string_literal("plain"), "plain");
    assert_eq!(escape_string_literal("say \"hi\""), "say \\\"hi\\\"");
    assert_eq!(escape_string_literal("a\\b"), "a\\\\b");
    assert_eq!(escape_string_literal("line\nnext"), "line\\nnext");
    assert_eq!(escape_string_literal("héllo ◌ \"x\""), "héllo ◌ \\\"x\\\"");
}

#[test]
fn literals_show_their_kind() {
    let shown = |v: LiteralValue| Literal { value: v }.to_dot();
    assert_eq!(shown(LiteralValue::Dec(-5)), tree("literal", vec![("dec", leaf("-5"))]));
    assert_eq!(shown(LiteralValue::Hex(255)), tree("literal", vec![("hex", leaf("255"))]));
    assert_eq!(shown(LiteralValue::Octal(8)), tree("literal", vec![("octal", leaf("8"))]));
    assert_eq!(shown(LiteralValue::Char(97)), tree("literal", vec![("char", leaf("97"))]));
    assert_eq!(
        shown(LiteralValue::Float(1.5f64.to_bits())),
        tree(
            "literal",
            vec![(
                "float",
                DotTree { label: DotLabel::Float(1.5f64.to_bits()), children: Vec::new() }
            )]
        )
    );
    assert_eq!(
        shown(LiteralValue::String("a\"b".to_owned())),
        tree("literal", vec![("string", leaf("a\\\"b"))])
    );
}

#[test]
fn types_show_their_qualifier() {
    assert_eq!(ty(PrimitiveType::SignedInt, false).to_dot(), int_type());
    assert_eq!(
        ty(PrimitiveType::UnsignedLongInt, true).to_dot(),
        tree("q type", vec![("", leaf("const")), ("unqualified", leaf("unsigned long int"))])
    );
    let pointer = QualifiedTypeNode {
        span: sp(),
        data: QualifiedType {
            is_const: None,
            inner: UnqualifiedTypeNode {
                span: sp(),
                data: UnqualifiedType::PointerType(Box::new(ty(PrimitiveType::Char, true))),
            },
        },
    };
    assert_eq!(
        pointer.to_dot(),
        tree(
            "q type",
            vec![(
                "unqualified",
                tree(
                    "pointer",
                    vec![(
                        "to",
                        tree("q type", vec![("", leaf("const")), ("unqualified", leaf("char"))])
                    )]
                )
            )]
        )
    );
    let names = [
        (PrimitiveType::Void, "void"),
        (PrimitiveType::Char, "char"),
        (PrimitiveType::SignedChar, "signed char"),
        (PrimitiveType::UnsignedChar, "unsigned char"),
        (PrimitiveType::SignedShortInt, "short int"),
        (PrimitiveType::UnsignedShortInt, "unsigned short int"),
        (PrimitiveType::SignedInt, "int"),
        (PrimitiveType::UnsignedInt, "unsigned int"),
        (PrimitiveType::SignedLongInt, "long int"),
        (PrimitiveType::UnsignedLongInt, "unsigned long int"),
        (PrimitiveType::Float, "float"),
        (PrimitiveType::Double, "double"),
        (PrimitiveType::LongDouble, "long double"),
    ];
    for (p, n) in names {
        assert_eq!(UnqualifiedType::PlainType(PlainType::Primitive(p)).to_dot(), leaf(n));
    }
}

#[test]
fn expressions_show_operator_and_operands() {
    let e = bin(var("a"), BinaryOperator::DoubleAngleLeft, lit(LiteralValue::Dec(2)));
    assert_eq!(
        e.data.to_dot(),
        tree("<<", vec![("lhs", leaf("a")), ("rhs", dec_literal("2"))])
    );
    let symbols = [
        (BinaryOperator::Plus, "+"),
        (BinaryOperator::Minus, "-"),
        (BinaryOperator::Star, "*"),
        (BinaryOperator::Slash, "/"),
        (BinaryOperator::Pipe, "|"),
        (BinaryOperator::Caret, "^"),
        (BinaryOperator::Ampersand, "&"),
        (BinaryOperator::AngleLeft, "<"),
        (BinaryOperator::AngleRight, ">"),
        (BinaryOperator::DoubleEquals, "=="),
        (BinaryOperator::DoubleAmpersand, "&&"),
        (BinaryOperator::DoublePipe, "||"),
        (BinaryOperator::BangEquals, "!="),
        (BinaryOperator::Percent, "%"),
        (BinaryOperator::AngleLeftEquals, "<="),
        (BinaryOperator::AngleRightEquals, ">="),
        (BinaryOperator::DoubleAngleLeft, "<<"),
        (BinaryOperator::DoubleAngleRight, ">>"),
    ];
    for (op, s) in symbols {
        assert_eq!(
            bin(var("a"), op, var("b")).data.to_dot(),
            tree(s, vec![("lhs", leaf("a")), ("rhs", leaf("b"))])
        );
    }
    let unary = [
        (UnaryOperator::Bang, "!◌"),
        (UnaryOperator::Plus, "+◌"),
        (UnaryOperator::Minus, "-◌"),
        (UnaryOperator::Tilde, "~◌"),
        (UnaryOperator::Ampersand, "&◌"),
        (UnaryOperator::Star, "*◌"),
        (UnaryOperator::DoublePlusPrefix, "++◌"),
        (UnaryOperator::DoubleMinusPrefix, "--◌"),
        (UnaryOperator::DoublePlusPostfix, "◌++"),
        (UnaryOperator::DoubleMinusPostfix, "◌--"),
    ];
    for (op, s) in unary {
        let e = Expression::Unary(UnaryOperatorNode { span: sp(), data: op }, Box::new(var("a")));
        assert_eq!(e.to_dot(), tree(s, vec![("", leaf("a"))]));
    }
    assert_eq!(
        Expression::Assignment(Box::new(var("a")), sp(), Box::new(var("b"))).to_dot(),
        tree("=", vec![("lhs", leaf("a")), ("rhs", leaf("b"))])
    );
    assert_eq!(
        Expression::ArraySubscript(Box::new(var("a")), Box::new(var("i"))).to_dot(),
        tree("◌[◌]", vec![("lhs", leaf("a")), ("rhs", leaf("i"))])
    );
    assert_eq!(
        Expression::Cast(ty(PrimitiveType::SignedInt, false), Box::new(var("a"))).to_dot(),
        tree("cast", vec![("type", int_type()), ("expr", leaf("a"))])
    );
    assert_eq!(
        Expression::FunctionCall(FunctionCall {
            ident: name("f"),
            args: vec![var("a"), lit(LiteralValue::Dec(1))],
        })
        .to_dot(),
        tree(
            "func call",
            vec![("name", leaf("f")), ("arg", leaf("a")), ("arg", dec_literal("1"))]
        )
    );
}

#[test]
fn declarations_show_their_parts() {
    let v = VariableDeclaration {
        ty: ty(PrimitiveType::SignedInt, false),
        ident: name("a"),
        array_parts: vec![
            ArrayDeclarationNode { span: sp(), data: ArrayDeclaration::Unknown },
            ArrayDeclarationNode {
                span: sp(),
                data: ArrayDeclaration::Known(lit(LiteralValue::Dec(3))),
            },
        ],
        initializer: Some((sp(), var("b"))),
    };
    assert_eq!(
        v.to_dot(),
        tree(
            "var decl",
            vec![
                ("type", int_type()),
                ("ident", leaf("a")),
                ("array", leaf("unknown len")),
                ("array", tree("known len", vec![("expr", dec_literal("3"))])),
                ("rhs", leaf("b")),
            ]
        )
    );
    let plain = VariableDeclaration {
        ty: ty(PrimitiveType::SignedInt, false),
        ident: name("a"),
        array_parts: Vec::new(),
        initializer: None,
    };
    assert_eq!(
        Declaration::Variable(plain).to_dot(),
        tree("var decl", vec![("type", int_type()), ("ident", leaf("a"))])
    );
    let params = || {
        vec![
            FunctionParamNode {
                span: sp(),
                ty: ty(PrimitiveType::SignedInt, false),
                ident: Some(name("x")),
            },
            FunctionParamNode { span: sp(), ty: ty(PrimitiveType::SignedInt, false), ident: None },
        ]
    };
    let shown_params = || {
        vec![
            ("", tree("param", vec![("type", int_type()), ("ident", leaf("x"))])),
            ("", tree("param", vec![("type", int_type())])),
        ]
    };
    let f = FunctionDeclaration {
        return_type: ty(PrimitiveType::Void, false),
        ident: name("f"),
        params: params(),
        is_vararg: true,
    };
    let mut expected = vec![
        ("ret type", tree("q type", vec![("unqualified", leaf("void"))])),
        ("ident", leaf("f")),
    ];
    expected.extend(shown_params());
    expected.push(("vararg", leaf("...")));
    assert_eq!(Declaration::FunctionDeclaration(f).to_dot(), tree("fn decl", expected));

    let def = FunctionDefinition {
        return_type: ty(PrimitiveType::SignedInt, false),
        ident: name("g"),
        params: params(),
        is_vararg: false,
        body: BlockStatement(vec![stmt(Statement::Break)]),
    };
    let mut expected = vec![("return type", int_type()), ("ident", leaf("g"))];
    expected.extend(shown_params());
    expected.push(("body", tree("block", vec![("stmt", leaf("break"))])));
    assert_eq!(def.to_dot(), tree("fn def", expected));
}

#[test]
fn statements_show_their_parts() {
    let empty = || BlockStatement(Vec::new());
    let shown_empty = || tree("block", Vec::new());
    assert_eq!(Statement::Break.to_dot(), leaf("break"));
    assert_eq!(Statement::Continue.to_dot(), leaf("continue"));
    assert_eq!(Statement::Return(sp(), None).to_dot(), tree("return", Vec::new()));
    assert_eq!(
        Statement::Return(sp(), Some(var("a"))).to_dot(),
        tree("return", vec![("expr", leaf("a"))])
    );
    assert_eq!(Statement::Expression(var("a")).to_dot(), leaf("a"));
    assert_eq!(
        Statement::BlockStatement(BlockStatement(vec![
            stmt(Statement::Break),
            stmt(Statement::Continue)
        ]))
        .to_dot(),
        tree("block", vec![("stmt", leaf("break")), ("stmt", leaf("continue"))])
    );
    assert_eq!(
        Statement::If(IfStatement { condition: var("c"), if_body: empty(), else_body: None })
            .to_dot(),
        tree("if", vec![("cond", leaf("c")), ("if body", shown_empty())])
    );
    assert_eq!(
        Statement::If(IfStatement {
            condition: var("c"),
            if_body: empty(),
            else_body: Some(empty())
        })
        .to_dot(),
        tree(
            "if",
            vec![("cond", leaf("c")), ("if body", shown_empty()), ("else body", shown_empty())]
        )
    );
    assert_eq!(
        Statement::While(WhileStatement { condition: var("c"), body: empty() }).to_dot(),
        tree("while", vec![("cond", leaf("c")), ("body", shown_empty())])
    );
    assert_eq!(
        Statement::For(ForStatement { init: None, condition: None, iter: None, body: empty() })
            .to_dot(),
        tree("for", vec![("body", shown_empty())])
    );
    assert_eq!(
        Statement::For(ForStatement {
            init: Some(Box::new(stmt(Statement::Expression(var("i"))))),
            condition: Some(var("c")),
            iter: Some(var("n")),
            body: empty(),
        })
        .to_dot(),
        tree(
            "for",
            vec![
                ("init", leaf("i")),
                ("cond", leaf("c")),
                ("iter", leaf("n")),
                ("body", shown_empty())
            ]
        )
    );
    assert_eq!(
        Statement::Switch(SwitchStatement {
            expr: var("x"),
            cases: vec![
                SwitchCase::Expr(SwitchCaseExpr { expr: lit(LiteralValue::Dec(1)), body: empty() }),
                SwitchCase::Default(SwitchCaseDefault { body: empty() }),
            ],
        })
        .to_dot(),
        tree(
            "switch",
            vec![
                ("expr", leaf("x")),
                (
                    "case",
                    tree("expr", vec![("expr", dec_literal("1")), ("body", shown_empty())])
                ),
                ("case", tree("default", vec![("body", shown_empty())])),
            ]
        )
    );
}

#[test]
fn unit_is_shown_before_and_after_folding() {
    let mut ast = Ast {
        global: vec![ExternalDeclarationNode {
            span: sp(),
            data: ExternalDeclaration::Declaration(Declaration::Variable(VariableDeclaration {
                ty: ty(PrimitiveType::SignedInt, false),
                ident: name("x"),
                array_parts: Vec::new(),
                initializer: Some((
                    sp(),
                    bin(lit(LiteralValue::Dec(2)), BinaryOperator::Plus, lit(LiteralValue::Dec(3))),
                )),
            })),
        }],
    };
    let shown = |rhs: DotTree| {
        tree(
            "translation unit",
            vec![(
                "ext decl",
                tree("var decl", vec![("type", int_type()), ("ident", leaf("x")), ("rhs", rhs)]),
            )],
        )
    };
    assert_eq!(
        ast.to_dot(),
        shown(tree("+", vec![("lhs", dec_literal("2")), ("rhs", dec_literal("3"))]))
    );
    const_fold(&mut ast);
    assert_eq!(ast.to_dot(), shown(dec_literal("5")));
    assert_eq!(Ast { global: Vec::new() }.to_dot(), tree("translation unit", Vec::new()));
}
