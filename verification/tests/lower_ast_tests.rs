use comp_lib::ast::{
    ArrayDeclaration, ArrayDeclarationNode, Ast, BinaryOperator, BinaryOperatorNode,
    BlockStatement, Declaration, Expression, ExpressionNode, ExternalDeclaration,
    ExternalDeclarationNode, ForStatement, FunctionCall, FunctionDeclaration, FunctionDefinition,
    FunctionParamNode, IdentNode, IfStatement, Literal, LiteralNode, LiteralValue, PlainType,
    PrimitiveType, QualifiedType, QualifiedTypeNode, Span, Statement, StatementNode, SwitchCase,
    SwitchCaseDefault, SwitchCaseExpr, SwitchStatement, UnaryOperator, UnaryOperatorNode,
    UnqualifiedType, UnqualifiedTypeNode, VariableDeclaration, WhileStatement,
};
use comp_lib::diagnostic::{Diagnostic, DiagnosticKind, Feature};
use comp_lib::ir::ctype::{Arithmetic, CType, Scalar};
use comp_lib::ir::expr::{Constant, Expr, ExprNode, LvalueExpr, LvalueExprNode};
use comp_lib::ir::stmt::{Block, Case, Function, Root, Stmt, StmtNode};
use comp_lib::ir::table::Item;
use comp_lib::passes::const_fold::const_fold;
use comp_lib::passes::lower_ast::build_ir_from_ast;
use comp_lib::settings::{Settings, Target};

fn sp(start: usize) -> Span {
    Span { start, length: 1 }
}

fn settings() -> Settings {
    Settings { target: Target::X86_64 }
}

fn node(start: usize, data: Expression) -> ExpressionNode {
    ExpressionNode { span: sp(start), data }
}

fn lit(start: usize, value: LiteralValue) -> ExpressionNode {
    node(start, Expression::Literal(LiteralNode { span: sp(start), data: Literal { value } }))
}

fn dec(start: usize, v: i128) -> ExpressionNode {
    lit(start, LiteralValue::Dec(v))
}

fn name(start: usize, n: &str) -> IdentNode {
    IdentNode { span: sp(start), data: n.to_owned() }
}

fn var(start: usize, n: &str) -> ExpressionNode {
    node(start, Expression::Ident(name(start, n)))
}

fn bin(start: usize, l: ExpressionNode, op: BinaryOperator, r: ExpressionNode) -> ExpressionNode {
    node(
        start,
        Expression::Binary(
            Box::new(l),
            BinaryOperatorNode { span: sp(start + 100), data: op },
            Box::new(r),
        ),
    )
}

fn un(start: usize, op: UnaryOperator, x: ExpressionNode) -> ExpressionNode {
    node(
        start,
        Expression::Unary(UnaryOperatorNode { span: sp(start + 100), data: op }, Box::new(x)),
    )
}

fn set(start: usize, l: ExpressionNode, r: ExpressionNode) -> ExpressionNode {
    node(start, Expression::Assignment(Box::new(l), sp(start + 100), Box::new(r)))
}

fn call(start: usize, f: &str, args: Vec<ExpressionNode>) -> ExpressionNode {
    node(start, Expression::FunctionCall(FunctionCall { ident: name(start, f), args }))
}

fn plain(p: PrimitiveType) -> UnqualifiedTypeNode {
    UnqualifiedTypeNode { span: sp(0), data: UnqualifiedType::PlainType(PlainType::Primitive(p)) }
}

fn ty(p: PrimitiveType) -> QualifiedTypeNode {
    QualifiedTypeNode { span: sp(0), data: QualifiedType { is_const: None, inner: plain(p) } }
}

fn const_ty(p: PrimitiveType) -> QualifiedTypeNode {
    QualifiedTypeNode { span: sp(0), data: QualifiedType { is_const: Some(sp(0)), inner: plain(p) } }
}

fn pointer_to(inner: QualifiedTypeNode) -> QualifiedTypeNode {
    QualifiedTypeNode {
        span: sp(0),
        data: QualifiedType {
            is_const: None,
            inner: UnqualifiedTypeNode {
                span: sp(0),
                data: UnqualifiedType::PointerType(Box::new(inner)),
            },
        },
    }
}

fn variable(start: usize, t: QualifiedTypeNode, n: &str, init: Option<ExpressionNode>) -> Declaration {
    Declaration::Variable(VariableDeclaration {
        ty: t,
        ident: name(start, n),
        array_parts: Vec::new(),
        initializer: init.map(|e| (sp(start + 50), e)),
    })
}

fn decl(start: usize, t: QualifiedTypeNode, n: &str, init: Option<ExpressionNode>) -> StatementNode {
    StatementNode { span: sp(start), data: Statement::Declaration(variable(start, t, n, init)) }
}

fn int_decl(start: usize, n: &str, init: Option<ExpressionNode>) -> StatementNode {
    decl(start, ty(PrimitiveType::SignedInt), n, init)
}

fn stmt(start: usize, data: Statement) -> StatementNode {
    StatementNode { span: sp(start), data }
}

fn expr_stmt(start: usize, e: ExpressionNode) -> StatementNode {
    stmt(start, Statement::Expression(e))
}

fn block(start: usize, stmts: Vec<StatementNode>) -> StatementNode {
    stmt(start, Statement::BlockStatement(BlockStatement(stmts)))
}

fn global(start: usize, d: Declaration) -> ExternalDeclarationNode {
    ExternalDeclarationNode { span: sp(start), data: ExternalDeclaration::Declaration(d) }
}

fn function_of(ret: QualifiedTypeNode, params: Vec<FunctionParamNode>, body: Vec<StatementNode>) -> Ast {
    Ast {
        global: vec![ExternalDeclarationNode {
            span: sp(900),
            data: ExternalDeclaration::FunctionDefinition(FunctionDefinition {
                return_type: ret,
                ident: name(900, "f"),
                params,
                is_vararg: false,
                body: BlockStatement(body),
            }),
        }],
    }
}

fn function(body: Vec<StatementNode>) -> Ast {
    function_of(ty(PrimitiveType::SignedInt), Vec::new(), body)
}

fn lowered(ast: &Ast) -> (Root, Vec<Diagnostic>) {
    let r = build_ir_from_ast(ast, &settings());
    (r.value.expect("the root is always there"), r.diagnostics)
}

/// The statements of the one function of the unit.
fn body_of(root: &Root) -> &Vec<StmtNode> {
    match &root.global.0[0].stmt {
        Stmt::Function(f) => &f.body.0,
        _ => panic!("no function"),
    }
}

fn arith(a: Arithmetic) -> CType {
    CType::new_arithmetic(a)
}

fn int_ty() -> CType {
    arith(Arithmetic::SignedInt)
}

fn constant(start: usize, t: CType, v: i128) -> ExprNode {
    ExprNode { span: sp(start), ty: t, expr: Expr::Constant(Constant::Integer(v)) }
}

fn int_const(start: usize, v: i128) -> ExprNode {
    constant(start, int_ty(), v)
}

fn place(start: usize, t: CType, id: usize) -> LvalueExprNode {
    LvalueExprNode { span: sp(start), is_const: false, ty: t, expr: LvalueExpr::Ident(id) }
}

fn load(start: usize, t: CType, id: usize) -> ExprNode {
    ExprNode {
        span: sp(start),
        ty: t.clone(),
        expr: Expr::LvalueDeref(Box::new(place(start, t, id))),
    }
}

fn cast(t: CType, inner: ExprNode) -> ExprNode {
    ExprNode { span: inner.span, ty: t, expr: Expr::Cast(Box::new(inner)) }
}

fn assign(start: usize, to: LvalueExprNode, value: ExprNode) -> ExprNode {
    ExprNode {
        span: sp(start),
        ty: to.ty.clone(),
        expr: Expr::Assign(Box::new(to), Box::new(value)),
    }
}

fn expr_out(start: usize, e: ExprNode) -> StmtNode {
    StmtNode { span: sp(start), stmt: Stmt::Expr(e) }
}

fn diag(start: usize, kind: DiagnosticKind) -> Diagnostic {
    Diagnostic { span: sp(start), kind }
}

fn item(t: CType, is_const: bool, at: usize, initialized: bool) -> Item {
    Item { ty: t, is_const, original_span: sp(at), initialized }
}

#[test]
fn empty_unit_lowers_to_an_empty_root() {
    let (root, diagnostics) = lowered(&Ast { global: Vec::new() });
    assert_eq!(root.global, Block(Vec::new()));
    assert_eq!(root.table.len(), 0);
    assert!(diagnostics.is_empty());
}

#[test]
fn declaration_with_initializer_becomes_an_assignment() {
    // int a = 5;  at top level
    let ast = Ast {
        global: vec![global(0, variable(1, ty(PrimitiveType::SignedInt), "a", Some(dec(2, 5))))],
    };
    let (root, diagnostics) = lowered(&ast);
    assert!(diagnostics.is_empty());
    assert_eq!(
        root.global.0,
        vec![expr_out(0, assign(0, place(1, int_ty(), 0), int_const(2, 5)))]
    );
    assert_eq!(root.table.items, vec![item(int_ty(), false, 1, true)]);
}

#[test]
fn declaration_without_initializer_leaves_no_statement() {
    let ast = Ast { global: vec![global(0, variable(1, ty(PrimitiveType::Double), "d", None))] };
    let (root, diagnostics) = lowered(&ast);
    assert!(diagnostics.is_empty());
    assert!(root.global.0.is_empty());
    assert_eq!(root.table.items, vec![item(arith(Arithmetic::Double), false, 1, false)]);
}

#[test]
fn redeclaration_is_reported_once_and_the_first_stays() {
    // int a; int a;
    let ast = Ast {
        global: vec![
            global(0, variable(1, ty(PrimitiveType::SignedInt), "a", None)),
            global(10, variable(11, ty(PrimitiveType::Double), "a", None)),
        ],
    };
    let (root, diagnostics) = lowered(&ast);
    assert_eq!(
        diagnostics,
        vec![diag(11, DiagnosticKind::AlreadyDefined { original: sp(1) })]
    );
    assert_eq!(root.table.items, vec![item(int_ty(), false, 1, false)]);
}

#[test]
fn redeclaration_drops_the_statement_and_keeps_the_rest() {
    // int a = 1; int a = 2; int b = a;
    let ast = function(vec![
        int_decl(0, "a", Some(dec(1, 1))),
        int_decl(10, "a", Some(dec(11, 2))),
        int_decl(20, "b", Some(var(21, "a"))),
    ]);
    let (root, diagnostics) = lowered(&ast);
    assert_eq!(
        diagnostics,
        vec![diag(10, DiagnosticKind::AlreadyDefined { original: sp(0) })]
    );
    assert_eq!(
        body_of(&root),
        &vec![
            expr_out(0, assign(0, place(0, int_ty(), 0), int_const(1, 1))),
            expr_out(20, assign(20, place(20, int_ty(), 1), load(21, int_ty(), 0))),
        ]
    );
    assert_eq!(root.table.len(), 2);
}

#[test]
fn shadowing_gives_two_ids() {
    // int a; { int a; a = 1; } a = 2;
    let ast = function(vec![
        int_decl(0, "a", None),
        block(
            10,
            vec![int_decl(11, "a", None), expr_stmt(20, set(21, var(22, "a"), dec(23, 1)))],
        ),
        expr_stmt(30, set(31, var(32, "a"), dec(33, 2))),
    ]);
    let (root, diagnostics) = lowered(&ast);
    assert!(diagnostics.is_empty());
    assert_eq!(
        body_of(&root),
        &vec![
            StmtNode {
                span: sp(10),
                stmt: Stmt::Block(Block(vec![expr_out(
                    20,
                    assign(21, place(22, int_ty(), 1), int_const(23, 1))
                )])),
            },
            expr_out(30, assign(31, place(32, int_ty(), 0), int_const(33, 2))),
        ]
    );
    assert_eq!(
        root.table.items,
        vec![item(int_ty(), false, 0, false), item(int_ty(), false, 11, false)]
    );
}

#[test]
fn initializer_cannot_name_its_own_variable() {
    // int a = a;
    let ast = function(vec![int_decl(0, "a", Some(var(1, "a")))]);
    let (root, diagnostics) = lowered(&ast);
    assert_eq!(diagnostics, vec![diag(1, DiagnosticKind::Undeclared)]);
    assert!(body_of(&root).is_empty());
    // the variable is declared all the same
    assert_eq!(root.table.items, vec![item(int_ty(), false, 0, true)]);
}

#[test]
fn initializer_names_the_shadowed_variable() {
    // int a; { int a = a; }
    let ast = function(vec![
        int_decl(0, "a", None),
        block(10, vec![int_decl(11, "a", Some(var(12, "a")))]),
    ]);
    let (root, diagnostics) = lowered(&ast);
    assert!(diagnostics.is_empty());
    assert_eq!(
        body_of(&root),
        &vec![StmtNode {
            span: sp(10),
            stmt: Stmt::Block(Block(vec![expr_out(
                11,
                assign(11, place(11, int_ty(), 1), load(12, int_ty(), 0))
            )])),
        }]
    );
}

#[test]
fn integer_literals_take_the_first_type_that_fits() {
    let types = |v: i128| {
        let ast = function(vec![expr_stmt(0, dec(1, v))]);
        let r = build_ir_from_ast(&ast, &settings());
        let root = r.value.unwrap();
        let found = match body_of(&root).first() {
            Some(StmtNode { stmt: Stmt::Expr(e), .. }) => Some(e.ty.clone()),
            _ => None,
        };
        (found, r.diagnostics)
    };
    assert_eq!(types(0), (Some(int_ty()), vec![]));
    assert_eq!(types(2147483647), (Some(int_ty()), vec![]));
    assert_eq!(types(2147483648), (Some(arith(Arithmetic::SignedLongInt)), vec![]));
    assert_eq!(types(-2147483648), (Some(int_ty()), vec![]));
    assert_eq!(types(9223372036854775807), (Some(arith(Arithmetic::SignedLongInt)), vec![]));
    assert_eq!(types(9223372036854775808), (Some(arith(Arithmetic::UnsignedLongInt)), vec![]));
    assert_eq!(types(18446744073709551615), (Some(arith(Arithmetic::UnsignedLongInt)), vec![]));
    assert_eq!(
        types(18446744073709551616),
        (None, vec![diag(1, DiagnosticKind::LiteralOutOfRange)])
    );
    assert_eq!(
        types(-9223372036854775809),
        (None, vec![diag(1, DiagnosticKind::LiteralOutOfRange)])
    );
}

#[test]
fn other_literals_have_fixed_types() {
    let ast = function(vec![
        expr_stmt(0, lit(1, LiteralValue::Char(97))),
        expr_stmt(10, lit(11, LiteralValue::Float(1.5f64.to_bits()))),
        expr_stmt(20, lit(21, LiteralValue::String("hi".to_owned()))),
        expr_stmt(30, lit(31, LiteralValue::Hex(255))),
        expr_stmt(40, lit(41, LiteralValue::Octal(8))),
    ]);
    let (root, diagnostics) = lowered(&ast);
    assert!(diagnostics.is_empty());
    assert_eq!(
        body_of(&root),
        &vec![
            expr_out(0, int_const(1, 97)),
            expr_out(
                10,
                ExprNode {
                    span: sp(11),
                    ty: arith(Arithmetic::Double),
                    expr: Expr::Constant(Constant::Float(1.5f64.to_bits())),
                }
            ),
            expr_out(
                20,
                ExprNode {
                    span: sp(21),
                    ty: CType::Scalar(Scalar::Pointer(Box::new(arith(Arithmetic::Char)), true)),
                    expr: Expr::Constant(Constant::String("hi".to_owned())),
                }
            ),
            expr_out(30, int_const(31, 255)),
            expr_out(40, int_const(41, 8)),
        ]
    );
}

fn printf_of(arg_type: PrimitiveType) -> (Vec<ExprNode>, Vec<Diagnostic>) {
    // T x; printf("%", x);
    let ast = function(vec![
        decl(0, ty(arg_type), "x", None),
        expr_stmt(
            10,
            call(11, "printf", vec![lit(12, LiteralValue::String("%".to_owned())), var(13, "x")]),
        ),
    ]);
    let (root, diagnostics) = lowered(&ast);
    let args = match &body_of(&root)[0].stmt {
        Stmt::Expr(ExprNode { expr: Expr::Printf(args), ty, span }) => {
            assert_eq!(*ty, int_ty());
            assert_eq!(*span, sp(11));
            args.clone()
        }
        _ => panic!("no printf"),
    };
    (args, diagnostics)
}

fn format_arg() -> ExprNode {
    ExprNode {
        span: sp(12),
        ty: CType::Scalar(Scalar::Pointer(Box::new(arith(Arithmetic::Char)), true)),
        expr: Expr::Constant(Constant::String("%".to_owned())),
    }
}

#[test]
fn variadic_arguments_are_promoted() {
    for small in [
        PrimitiveType::Char,
        PrimitiveType::SignedChar,
        PrimitiveType::UnsignedChar,
        PrimitiveType::SignedShortInt,
        PrimitiveType::UnsignedShortInt,
    ] {
        let given = CType::from_ast_type(&plain(small).data);
        let (args, diagnostics) = printf_of(small);
        assert!(diagnostics.is_empty());
        assert_eq!(args, vec![format_arg(), cast(int_ty(), load(13, given, 0))]);
    }
    let (args, diagnostics) = printf_of(PrimitiveType::Float);
    assert!(diagnostics.is_empty());
    assert_eq!(
        args,
        vec![
            format_arg(),
            cast(arith(Arithmetic::Double), load(13, arith(Arithmetic::Float), 0))
        ]
    );
}

#[test]
fn wide_arguments_get_no_cast() {
    for (wide, a) in [
        (PrimitiveType::SignedInt, Arithmetic::SignedInt),
        (PrimitiveType::UnsignedInt, Arithmetic::UnsignedInt),
        (PrimitiveType::SignedLongInt, Arithmetic::SignedLongInt),
        (PrimitiveType::UnsignedLongInt, Arithmetic::UnsignedLongInt),
        (PrimitiveType::Double, Arithmetic::Double),
        (PrimitiveType::LongDouble, Arithmetic::LongDouble),
    ] {
        let (args, diagnostics) = printf_of(wide);
        assert!(diagnostics.is_empty());
        assert_eq!(args, vec![format_arg(), load(13, arith(a), 0)]);
    }
}

#[test]
fn printf_needs_a_format_and_reports_every_argument() {
    let ast = function(vec![
        expr_stmt(0, call(1, "printf", Vec::new())),
        expr_stmt(
            10,
            call(
                11,
                "printf",
                vec![lit(12, LiteralValue::String("%".to_owned())), var(13, "x"), var(14, "y")],
            ),
        ),
    ]);
    let (root, diagnostics) = lowered(&ast);
    assert!(body_of(&root).is_empty());
    assert_eq!(
        diagnostics,
        vec![
            diag(1, DiagnosticKind::TypeMismatch),
            diag(13, DiagnosticKind::Undeclared),
            diag(14, DiagnosticKind::Undeclared),
        ]
    );
}

#[test]
fn constructs_not_lowered_yet_are_reported() {
    let array = stmt(
        0,
        Statement::Declaration(Declaration::Variable(VariableDeclaration {
            ty: ty(PrimitiveType::SignedInt),
            ident: name(1, "a"),
            array_parts: vec![ArrayDeclarationNode { span: sp(2), data: ArrayDeclaration::Unknown }],
            initializer: None,
        })),
    );
    let prototype = stmt(
        10,
        Statement::Declaration(Declaration::FunctionDeclaration(FunctionDeclaration {
            return_type: ty(PrimitiveType::Void),
            ident: name(11, "g"),
            params: Vec::new(),
            is_vararg: false,
        })),
    );
    let ast = function(vec![
        array,
        prototype,
        expr_stmt(20, node(21, Expression::ArraySubscript(Box::new(var(22, "a")), Box::new(dec(23, 0))))),
        expr_stmt(30, call(31, "g", Vec::new())),
        int_decl(40, "i", None),
        expr_stmt(50, un(51, UnaryOperator::DoublePlusPrefix, var(52, "i"))),
        expr_stmt(60, un(61, UnaryOperator::DoubleMinusPostfix, var(62, "i"))),
    ]);
    let (root, diagnostics) = lowered(&ast);
    assert!(body_of(&root).is_empty());
    assert_eq!(
        diagnostics,
        vec![
            diag(0, DiagnosticKind::Unimplemented(Feature::Arrays)),
            diag(10, DiagnosticKind::Unimplemented(Feature::FunctionDeclarations)),
            diag(21, DiagnosticKind::Unimplemented(Feature::ArraySubscripts)),
            diag(31, DiagnosticKind::Unimplemented(Feature::FunctionCalls)),
            diag(151, DiagnosticKind::Unimplemented(Feature::IncrementAndDecrement)),
            diag(161, DiagnosticKind::Unimplemented(Feature::IncrementAndDecrement)),
        ]
    );
    // the array was not declared
    assert_eq!(root.table.len(), 1);
}

#[test]
fn variadic_function_is_not_lowered_yet() {
    let ast = Ast {
        global: vec![
            ExternalDeclarationNode {
                span: sp(0),
                data: ExternalDeclaration::FunctionDefinition(FunctionDefinition {
                    return_type: ty(PrimitiveType::Void),
                    ident: name(1, "v"),
                    params: Vec::new(),
                    is_vararg: true,
                    body: BlockStatement(vec![int_decl(2, "a", None)]),
                }),
            },
            global(10, variable(11, ty(PrimitiveType::SignedInt), "g", Some(dec(12, 1)))),
        ],
    };
    let (root, diagnostics) = lowered(&ast);
    assert_eq!(
        diagnostics,
        vec![diag(0, DiagnosticKind::Unimplemented(Feature::VariadicFunctions))]
    );
    // what comes after it is lowered all the same
    assert_eq!(
        root.global.0,
        vec![expr_out(10, assign(10, place(11, int_ty(), 0), int_const(12, 1)))]
    );
}

#[test]
fn binary_operands_are_cast_to_their_common_type() {
    // char c; long l; c + l;  c < 1.5;  c << l;
    let ast = function(vec![
        decl(0, ty(PrimitiveType::Char), "c", None),
        decl(1, ty(PrimitiveType::SignedLongInt), "l", None),
        expr_stmt(10, bin(11, var(12, "c"), BinaryOperator::Plus, var(13, "l"))),
        expr_stmt(
            20,
            bin(
                21,
                var(22, "c"),
                BinaryOperator::AngleLeft,
                lit(23, LiteralValue::Float(1.5f64.to_bits())),
            ),
        ),
        expr_stmt(30, bin(31, var(32, "c"), BinaryOperator::DoubleAngleLeft, var(33, "l"))),
        expr_stmt(40, bin(41, dec(42, 1), BinaryOperator::Star, dec(43, 2))),
    ]);
    let (root, diagnostics) = lowered(&ast);
    assert!(diagnostics.is_empty());
    let long = || arith(Arithmetic::SignedLongInt);
    let double = || arith(Arithmetic::Double);
    let c = |at: usize| load(at, arith(Arithmetic::Char), 0);
    assert_eq!(
        body_of(&root),
        &vec![
            expr_out(
                10,
                ExprNode {
                    span: sp(11),
                    ty: long(),
                    expr: Expr::Binary(
                        Box::new(cast(long(), c(12))),
                        BinaryOperator::Plus,
                        Box::new(load(13, long(), 1)),
                    ),
                }
            ),
            expr_out(
                20,
                ExprNode {
                    span: sp(21),
                    ty: int_ty(),
                    expr: Expr::Binary(
                        Box::new(cast(double(), c(22))),
                        BinaryOperator::AngleLeft,
                        Box::new(ExprNode {
                            span: sp(23),
                            ty: double(),
                            expr: Expr::Constant(Constant::Float(1.5f64.to_bits())),
                        }),
                    ),
                }
            ),
            expr_out(
                30,
                ExprNode {
                    span: sp(31),
                    ty: int_ty(),
                    expr: Expr::Binary(
                        Box::new(cast(int_ty(), c(32))),
                        BinaryOperator::DoubleAngleLeft,
                        Box::new(load(33, long(), 1)),
                    ),
                }
            ),
            expr_out(
                40,
                ExprNode {
                    span: sp(41),
                    ty: int_ty(),
                    expr: Expr::Binary(
                        Box::new(int_const(42, 1)),
                        BinaryOperator::Star,
                        Box::new(int_const(43, 2)),
                    ),
                }
            ),
        ]
    );
}

#[test]
fn operators_on_wrong_types_are_reported() {
    let real = |at: usize| lit(at, LiteralValue::Float(1.5f64.to_bits()));
    let text = |at: usize| lit(at, LiteralValue::String("s".to_owned()));
    let ast = function(vec![
        expr_stmt(0, bin(1, real(2), BinaryOperator::Percent, dec(3, 2))),
        expr_stmt(10, bin(11, dec(12, 1), BinaryOperator::DoubleAngleRight, real(13))),
        expr_stmt(20, bin(21, text(22), BinaryOperator::Plus, dec(23, 1))),
        expr_stmt(30, un(31, UnaryOperator::Tilde, real(32))),
        expr_stmt(40, un(41, UnaryOperator::Minus, text(42))),
        expr_stmt(50, un(51, UnaryOperator::Star, dec(52, 1))),
        expr_stmt(60, node(61, Expression::Cast(ty(PrimitiveType::SignedInt), Box::new(real(62))))),
    ]);
    let (root, diagnostics) = lowered(&ast);
    assert_eq!(
        diagnostics,
        vec![
            diag(101, DiagnosticKind::TypeMismatch),
            diag(111, DiagnosticKind::TypeMismatch),
            diag(121, DiagnosticKind::TypeMismatch),
            diag(131, DiagnosticKind::TypeMismatch),
            diag(141, DiagnosticKind::TypeMismatch),
            diag(151, DiagnosticKind::TypeMismatch),
        ]
    );
    // the cast is fine
    assert_eq!(
        body_of(&root),
        &vec![expr_out(
            60,
            cast(
                int_ty(),
                ExprNode {
                    span: sp(62),
                    ty: arith(Arithmetic::Double),
                    expr: Expr::Constant(Constant::Float(1.5f64.to_bits())),
                }
            )
        )]
    );
}

#[test]
fn both_operands_are_reported() {
    let ast = function(vec![expr_stmt(
        0,
        bin(1, var(2, "x"), BinaryOperator::Plus, dec(3, 18446744073709551616)),
    )]);
    let (_, diagnostics) = lowered(&ast);
    assert_eq!(
        diagnostics,
        vec![diag(2, DiagnosticKind::Undeclared), diag(3, DiagnosticKind::LiteralOutOfRange)]
    );
}

#[test]
fn unary_operators_promote() {
    let ast = function(vec![
        decl(0, ty(PrimitiveType::UnsignedChar), "c", None),
        expr_stmt(10, un(11, UnaryOperator::Minus, var(12, "c"))),
        expr_stmt(20, un(21, UnaryOperator::Bang, var(22, "c"))),
        expr_stmt(30, un(31, UnaryOperator::Tilde, dec(32, 1))),
    ]);
    let (root, diagnostics) = lowered(&ast);
    assert!(diagnostics.is_empty());
    let c = |at: usize| load(at, arith(Arithmetic::UnsignedChar), 0);
    assert_eq!(
        body_of(&root),
        &vec![
            expr_out(
                10,
                ExprNode {
                    span: sp(11),
                    ty: int_ty(),
                    expr: Expr::Unary(UnaryOperator::Minus, Box::new(cast(int_ty(), c(12)))),
                }
            ),
            expr_out(
                20,
                ExprNode {
                    span: sp(21),
                    ty: int_ty(),
                    expr: Expr::Unary(UnaryOperator::Bang, Box::new(c(22))),
                }
            ),
            expr_out(
                30,
                ExprNode {
                    span: sp(31),
                    ty: int_ty(),
                    expr: Expr::Unary(UnaryOperator::Tilde, Box::new(int_const(32, 1))),
                }
            ),
        ]
    );
}

#[test]
fn assignment_casts_to_the_target() {
    // double d; d = 1;  char c; c = d;
    let ast = function(vec![
        decl(0, ty(PrimitiveType::Double), "d", None),
        decl(1, ty(PrimitiveType::Char), "c", None),
        expr_stmt(10, set(11, var(12, "d"), dec(13, 1))),
        expr_stmt(20, set(21, var(22, "c"), var(23, "d"))),
    ]);
    let (root, diagnostics) = lowered(&ast);
    assert!(diagnostics.is_empty());
    let double = || arith(Arithmetic::Double);
    let ch = || arith(Arithmetic::Char);
    assert_eq!(
        body_of(&root),
        &vec![
            expr_out(10, assign(11, place(12, double(), 0), cast(double(), int_const(13, 1)))),
            expr_out(20, assign(21, place(22, ch(), 1), cast(ch(), load(23, double(), 0)))),
        ]
    );
}

#[test]
fn const_is_written_once() {
    // const int a = 1; a = 2;
    let ast = function(vec![
        decl(0, const_ty(PrimitiveType::SignedInt), "a", Some(dec(1, 1))),
        expr_stmt(10, set(11, var(12, "a"), dec(13, 2))),
    ]);
    let (root, diagnostics) = lowered(&ast);
    assert_eq!(diagnostics, vec![diag(111, DiagnosticKind::AssignToConst)]);
    assert_eq!(
        body_of(&root),
        &vec![expr_out(0, assign(0, place(0, int_ty(), 0), int_const(1, 1)))]
    );
    assert_eq!(root.table.items, vec![item(int_ty(), true, 0, true)]);
}

#[test]
fn only_locations_are_assigned_to() {
    let ast = function(vec![
        expr_stmt(0, set(1, dec(2, 1), dec(3, 2))),
        expr_stmt(10, un(11, UnaryOperator::Ampersand, dec(12, 1))),
        expr_stmt(20, set(21, un(22, UnaryOperator::Minus, dec(23, 1)), dec(24, 2))),
    ]);
    let (root, diagnostics) = lowered(&ast);
    assert!(body_of(&root).is_empty());
    assert_eq!(
        diagnostics,
        vec![
            diag(2, DiagnosticKind::NotAssignable),
            diag(12, DiagnosticKind::NotAssignable),
            diag(22, DiagnosticKind::NotAssignable),
        ]
    );
}

#[test]
fn pointers_are_taken_and_followed() {
    // const int a = 1; const int *p = &a; int b = *p; *p = 2;
    let ast = function(vec![
        decl(0, const_ty(PrimitiveType::SignedInt), "a", Some(dec(1, 1))),
        decl(
            10,
            pointer_to(const_ty(PrimitiveType::SignedInt)),
            "p",
            Some(un(11, UnaryOperator::Ampersand, var(12, "a"))),
        ),
        int_decl(20, "b", Some(un(21, UnaryOperator::Star, var(22, "p")))),
        expr_stmt(30, set(31, un(32, UnaryOperator::Star, var(33, "p")), dec(34, 2))),
    ]);
    let (root, diagnostics) = lowered(&ast);
    assert_eq!(diagnostics, vec![diag(131, DiagnosticKind::AssignToConst)]);
    let pointer = || CType::Scalar(Scalar::Pointer(Box::new(int_ty()), true));
    let a = LvalueExprNode { span: sp(12), is_const: true, ty: int_ty(), expr: LvalueExpr::Ident(0) };
    let through_p = LvalueExprNode {
        span: sp(21),
        is_const: true,
        ty: int_ty(),
        expr: LvalueExpr::Dereference(Box::new(load(22, pointer(), 1))),
    };
    assert_eq!(
        body_of(&root)[1..],
        vec![
            expr_out(
                10,
                assign(
                    10,
                    place(10, pointer(), 1),
                    ExprNode { span: sp(11), ty: pointer(), expr: Expr::Reference(Box::new(a)) }
                )
            ),
            expr_out(
                20,
                assign(
                    20,
                    place(20, int_ty(), 2),
                    ExprNode {
                        span: sp(21),
                        ty: int_ty(),
                        expr: Expr::LvalueDeref(Box::new(through_p)),
                    }
                )
            ),
        ]
    );
}

#[test]
fn pointers_convert_only_to_their_own_type() {
    // int a; double *p = &a;
    let ast = function(vec![
        int_decl(0, "a", None),
        decl(
            10,
            pointer_to(ty(PrimitiveType::Double)),
            "p",
            Some(un(11, UnaryOperator::Ampersand, var(12, "a"))),
        ),
    ]);
    let (_, diagnostics) = lowered(&ast);
    assert_eq!(diagnostics, vec![diag(60, DiagnosticKind::TypeMismatch)]);
}

#[test]
fn break_and_continue_need_their_construct() {
    let brk = |at: usize| stmt(at, Statement::Break);
    let cont = |at: usize| stmt(at, Statement::Continue);
    let ast = function(vec![
        brk(0),
        cont(1),
        stmt(
            10,
            Statement::While(WhileStatement {
                condition: dec(11, 1),
                body: BlockStatement(vec![brk(12), cont(13), block(14, vec![brk(15)])]),
            }),
        ),
        stmt(
            20,
            Statement::Switch(SwitchStatement {
                expr: dec(21, 1),
                cases: vec![SwitchCase::Default(SwitchCaseDefault {
                    body: BlockStatement(vec![brk(22), cont(23)]),
                })],
            }),
        ),
        brk(30),
    ]);
    let (root, diagnostics) = lowered(&ast);
    assert_eq!(
        diagnostics,
        vec![
            diag(0, DiagnosticKind::MisplacedBreak),
            diag(1, DiagnosticKind::MisplacedContinue),
            diag(23, DiagnosticKind::MisplacedContinue),
            diag(30, DiagnosticKind::MisplacedBreak),
        ]
    );
    let out = |at: usize, s: Stmt| StmtNode { span: sp(at), stmt: s };
    assert_eq!(
        body_of(&root),
        &vec![
            out(
                10,
                Stmt::While(
                    int_const(11, 1),
                    Block(vec![
                        out(12, Stmt::Break),
                        out(13, Stmt::Continue),
                        out(14, Stmt::Block(Block(vec![out(15, Stmt::Break)]))),
                    ]),
                )
            ),
            out(
                20,
                Stmt::Switch(
                    int_const(21, 1),
                    vec![Case { label: None, body: Block(vec![out(22, Stmt::Break)]) }],
                )
            ),
        ]
    );
}

#[test]
fn continue_in_a_switch_inside_a_loop_is_fine() {
    let ast = function(vec![stmt(
        0,
        Statement::While(WhileStatement {
            condition: dec(1, 1),
            body: BlockStatement(vec![stmt(
                2,
                Statement::Switch(SwitchStatement {
                    expr: dec(3, 1),
                    cases: vec![SwitchCase::Default(SwitchCaseDefault {
                        body: BlockStatement(vec![stmt(4, Statement::Continue)]),
                    })],
                }),
            )]),
        }),
    )]);
    let (_, diagnostics) = lowered(&ast);
    assert!(diagnostics.is_empty());
}

#[test]
fn if_lowers_both_branches_in_their_own_scopes() {
    // if (1) { int a = 1; } else { int a = 2; }  a;
    let ast = function(vec![
        stmt(
            0,
            Statement::If(IfStatement {
                condition: dec(1, 1),
                if_body: BlockStatement(vec![int_decl(10, "a", Some(dec(11, 1)))]),
                else_body: Some(BlockStatement(vec![int_decl(20, "a", Some(dec(21, 2)))])),
            }),
        ),
        expr_stmt(30, var(31, "a")),
    ]);
    let (root, diagnostics) = lowered(&ast);
    assert_eq!(diagnostics, vec![diag(31, DiagnosticKind::Undeclared)]);
    assert_eq!(
        body_of(&root),
        &vec![StmtNode {
            span: sp(0),
            stmt: Stmt::If(
                int_const(1, 1),
                Block(vec![expr_out(10, assign(10, place(10, int_ty(), 0), int_const(11, 1)))]),
                Some(Block(vec![expr_out(
                    20,
                    assign(20, place(20, int_ty(), 1), int_const(21, 2))
                )])),
            ),
        }]
    );
    assert_eq!(root.table.len(), 2);
}

#[test]
fn failing_condition_drops_the_statement_but_reports_its_body() {
    let ast = function(vec![stmt(
        0,
        Statement::If(IfStatement {
            condition: var(1, "c"),
            if_body: BlockStatement(vec![expr_stmt(10, var(11, "x"))]),
            else_body: None,
        }),
    )]);
    let (root, diagnostics) = lowered(&ast);
    assert!(body_of(&root).is_empty());
    assert_eq!(
        diagnostics,
        vec![diag(1, DiagnosticKind::Undeclared), diag(11, DiagnosticKind::Undeclared)]
    );
}

#[test]
fn for_has_a_scope_around_its_initializer() {
    // for (int i = 0; i < 3; i = i + 1) { int i; }  i;
    let ast = function(vec![
        stmt(
            0,
            Statement::For(ForStatement {
                init: Some(Box::new(int_decl(1, "i", Some(dec(2, 0))))),
                condition: Some(bin(3, var(4, "i"), BinaryOperator::AngleLeft, dec(5, 3))),
                iter: Some(set(6, var(7, "i"), bin(8, var(9, "i"), BinaryOperator::Plus, dec(10, 1)))),
                body: BlockStatement(vec![int_decl(20, "i", None), stmt(21, Statement::Continue)]),
            }),
        ),
        expr_stmt(30, var(31, "i")),
    ]);
    let (root, diagnostics) = lowered(&ast);
    assert_eq!(diagnostics, vec![diag(31, DiagnosticKind::Undeclared)]);
    let i = |at: usize| load(at, int_ty(), 0);
    assert_eq!(
        body_of(&root),
        &vec![StmtNode {
            span: sp(0),
            stmt: Stmt::For(
                Some(Box::new(expr_out(1, assign(1, place(1, int_ty(), 0), int_const(2, 0))))),
                Some(ExprNode {
                    span: sp(3),
                    ty: int_ty(),
                    expr: Expr::Binary(
                        Box::new(i(4)),
                        BinaryOperator::AngleLeft,
                        Box::new(int_const(5, 3)),
                    ),
                }),
                Some(assign(
                    6,
                    place(7, int_ty(), 0),
                    ExprNode {
                        span: sp(8),
                        ty: int_ty(),
                        expr: Expr::Binary(
                            Box::new(i(9)),
                            BinaryOperator::Plus,
                            Box::new(int_const(10, 1)),
                        ),
                    }
                )),
                Block(vec![StmtNode { span: sp(21), stmt: Stmt::Continue }]),
            ),
        }]
    );
    assert_eq!(root.table.len(), 2);
}

#[test]
fn empty_for_is_a_loop() {
    let ast = function(vec![stmt(
        0,
        Statement::For(ForStatement {
            init: None,
            condition: None,
            iter: None,
            body: BlockStatement(vec![stmt(1, Statement::Break)]),
        }),
    )]);
    let (root, diagnostics) = lowered(&ast);
    assert!(diagnostics.is_empty());
    assert_eq!(
        body_of(&root),
        &vec![StmtNode {
            span: sp(0),
            stmt: Stmt::For(
                None,
                None,
                None,
                Block(vec![StmtNode { span: sp(1), stmt: Stmt::Break }]),
            ),
        }]
    );
}

#[test]
fn switch_promotes_and_casts_its_labels() {
    // a switch on a char, with an int label, a long label and a default
    let ast = function(vec![
        decl(0, ty(PrimitiveType::Char), "c", None),
        stmt(
            10,
            Statement::Switch(SwitchStatement {
                expr: var(11, "c"),
                cases: vec![
                    SwitchCase::Expr(SwitchCaseExpr { expr: dec(20, 1), body: BlockStatement(vec![]) }),
                    SwitchCase::Expr(SwitchCaseExpr {
                        expr: dec(30, 4294967296),
                        body: BlockStatement(vec![]),
                    }),
                    SwitchCase::Default(SwitchCaseDefault { body: BlockStatement(vec![]) }),
                ],
            }),
        ),
        stmt(
            50,
            Statement::Switch(SwitchStatement {
                expr: dec(51, 1),
                cases: vec![SwitchCase::Expr(SwitchCaseExpr {
                    expr: lit(52, LiteralValue::Float(1.5f64.to_bits())),
                    body: BlockStatement(vec![expr_stmt(53, var(54, "x"))]),
                })],
            }),
        ),
        stmt(
            60,
            Statement::Switch(SwitchStatement {
                expr: lit(61, LiteralValue::Float(1.5f64.to_bits())),
                cases: Vec::new(),
            }),
        ),
    ]);
    let (root, diagnostics) = lowered(&ast);
    assert_eq!(
        diagnostics,
        vec![
            diag(52, DiagnosticKind::TypeMismatch),
            diag(54, DiagnosticKind::Undeclared),
            diag(61, DiagnosticKind::TypeMismatch),
        ]
    );
    assert_eq!(
        body_of(&root),
        &vec![StmtNode {
            span: sp(10),
            stmt: Stmt::Switch(
                cast(int_ty(), load(11, arith(Arithmetic::Char), 0)),
                vec![
                    Case { label: Some(int_const(20, 1)), body: Block(vec![]) },
                    Case {
                        label: Some(cast(
                            int_ty(),
                            constant(30, arith(Arithmetic::SignedLongInt), 4294967296)
                        )),
                        body: Block(vec![]),
                    },
                    Case { label: None, body: Block(vec![]) },
                ],
            ),
        }]
    );
}

#[test]
fn return_is_checked_against_the_function() {
    let ret = |at: usize, e: Option<ExpressionNode>| stmt(at, Statement::Return(sp(at + 1), e));
    // double f() { return 1; return; return "s"; }
    let ast = function_of(
        ty(PrimitiveType::Double),
        Vec::new(),
        vec![
            ret(0, Some(dec(2, 1))),
            ret(10, None),
            ret(20, Some(lit(22, LiteralValue::String("s".to_owned())))),
            ret(30, Some(var(32, "x"))),
        ],
    );
    let (root, diagnostics) = lowered(&ast);
    assert_eq!(
        diagnostics,
        vec![
            diag(11, DiagnosticKind::TypeMismatch),
            diag(21, DiagnosticKind::TypeMismatch),
            diag(32, DiagnosticKind::Undeclared),
        ]
    );
    assert_eq!(
        body_of(&root),
        &vec![StmtNode {
            span: sp(0),
            stmt: Stmt::Return(Some(cast(arith(Arithmetic::Double), int_const(2, 1)))),
        }]
    );
    // void g() { return; return 1; }
    let ast = function_of(ty(PrimitiveType::Void), Vec::new(), vec![ret(0, None), ret(10, Some(dec(12, 1)))]);
    let (root, diagnostics) = lowered(&ast);
    assert_eq!(diagnostics, vec![diag(11, DiagnosticKind::TypeMismatch)]);
    assert_eq!(body_of(&root), &vec![StmtNode { span: sp(0), stmt: Stmt::Return(None) }]);
}

#[test]
fn parameters_share_the_scope_of_the_body() {
    let param = |at: usize, t: PrimitiveType, n: Option<&str>| FunctionParamNode {
        span: sp(at),
        ty: ty(t),
        ident: n.map(|n| name(at + 1, n)),
    };
    // int f(int a, char, double b, int a) { int b; a; }
    let ast = function_of(
        ty(PrimitiveType::SignedInt),
        vec![
            param(0, PrimitiveType::SignedInt, Some("a")),
            param(10, PrimitiveType::Char, None),
            param(20, PrimitiveType::Double, Some("b")),
            param(30, PrimitiveType::SignedInt, Some("a")),
        ],
        vec![int_decl(40, "b", None), expr_stmt(50, var(51, "a"))],
    );
    let (root, diagnostics) = lowered(&ast);
    assert_eq!(
        diagnostics,
        vec![
            diag(31, DiagnosticKind::AlreadyDefined { original: sp(1) }),
            diag(40, DiagnosticKind::AlreadyDefined { original: sp(21) }),
        ]
    );
    assert_eq!(
        root.global.0,
        vec![StmtNode {
            span: sp(900),
            stmt: Stmt::Function(Function {
                return_type: int_ty(),
                params: vec![0, 1],
                body: Block(vec![expr_out(50, load(51, int_ty(), 0))]),
            }),
        }]
    );
    assert_eq!(
        root.table.items,
        vec![item(int_ty(), false, 1, true), item(arith(Arithmetic::Double), false, 21, true)]
    );
}

#[test]
fn functions_see_globals_and_keep_their_locals() {
    // int g = 1; void f() { int l = g; }  int h = l;
    let ast = Ast {
        global: vec![
            global(0, variable(1, ty(PrimitiveType::SignedInt), "g", Some(dec(2, 1)))),
            ExternalDeclarationNode {
                span: sp(10),
                data: ExternalDeclaration::FunctionDefinition(FunctionDefinition {
                    return_type: ty(PrimitiveType::Void),
                    ident: name(11, "f"),
                    params: Vec::new(),
                    is_vararg: false,
                    body: BlockStatement(vec![int_decl(12, "l", Some(var(13, "g")))]),
                }),
            },
            global(20, variable(21, ty(PrimitiveType::SignedInt), "h", Some(var(22, "l")))),
        ],
    };
    let (root, diagnostics) = lowered(&ast);
    assert_eq!(diagnostics, vec![diag(22, DiagnosticKind::Undeclared)]);
    assert_eq!(
        root.global.0,
        vec![
            expr_out(0, assign(0, place(1, int_ty(), 0), int_const(2, 1))),
            StmtNode {
                span: sp(10),
                stmt: Stmt::Function(Function {
                    return_type: CType::Void,
                    params: Vec::new(),
                    body: Block(vec![expr_out(
                        12,
                        assign(12, place(12, int_ty(), 1), load(13, int_ty(), 0))
                    )]),
                }),
            },
        ]
    );
    assert_eq!(root.table.len(), 3);
}

#[test]
fn folded_tree_lowers_to_constants() {
    // int x = 2 + 3 * 4;
    let mut ast = function(vec![int_decl(
        0,
        "x",
        Some(bin(1, dec(2, 2), BinaryOperator::Plus, bin(3, dec(4, 3), BinaryOperator::Star, dec(5, 4)))),
    )]);
    const_fold(&mut ast);
    let (root, diagnostics) = lowered(&ast);
    assert!(diagnostics.is_empty());
    assert_eq!(
        body_of(&root),
        &vec![expr_out(0, assign(0, place(0, int_ty(), 0), int_const(1, 14)))]
    );
}

#[test]
fn literal_types_follow_the_target() {
    let ast = function(vec![expr_stmt(0, dec(1, 40000)), expr_stmt(2, dec(3, 3000000000))]);
    let r = build_ir_from_ast(&ast, &Settings { target: Target::Avr });
    // int has 16 bits, long 32: 40000 is a long, 3000000000 an unsigned long
    assert!(r.diagnostics.is_empty());
    let root = r.value.unwrap();
    assert_eq!(
        body_of(&root),
        &vec![
            expr_out(0, constant(1, arith(Arithmetic::SignedLongInt), 40000)),
            expr_out(2, constant(3, arith(Arithmetic::UnsignedLongInt), 3000000000)),
        ]
    );
}

#[test]
fn lowered_unit_can_be_copied() {
    let ast = function(vec![
        decl(0, ty(PrimitiveType::Char), "c", Some(dec(1, 1))),
        stmt(
            10,
            Statement::While(WhileStatement {
                condition: var(11, "c"),
                body: BlockStatement(vec![expr_stmt(
                    12,
                    call(13, "printf", vec![lit(14, LiteralValue::String("%".to_owned())), var(15, "c")]),
                )]),
            }),
        ),
    ]);
    assert_eq!(ast.clone(), ast);
    let (root, diagnostics) = lowered(&ast);
    assert!(diagnostics.is_empty());
    let copy = root.clone();
    assert_eq!(copy, root);
    assert_eq!(copy.table.items, vec![item(arith(Arithmetic::Char), false, 0, true)]);
}
