use comp_lib::ast::{
    Expression, IdentNode, Literal, LiteralNode, LiteralValue, PlainType, PrimitiveType,
    QualifiedType, QualifiedTypeNode, Span, UnqualifiedType, UnqualifiedTypeNode,
};
use comp_lib::ir::ctype::Arithmetic::{self, SignedInt, SignedLongInt, UnsignedLongInt};
use comp_lib::ir::ctype::CType;
use comp_lib::ir::expr::{Constant, Expr, ExprNode};
use comp_lib::ir::table::Item;
use comp_lib::passes::lower_ast::symbol_table::ScopedTable;
use comp_lib::passes::lower_ast::util::{
    extract_literal_int, find_first_fit, maybe_cast, DeclarationType, FunctionScope,
    LiteralExtractErr,
};
use comp_lib::settings::{Settings, Target};

#[test]
fn best_fit() {
    let settings = Settings { target: Target::X86_64 };
    let order = [SignedInt, SignedLongInt, UnsignedLongInt];

    assert_eq!(find_first_fit(0, &order, &settings), Some(SignedInt));
    assert_eq!(
        find_first_fit(9223372036854775807, &order, &settings),
        Some(SignedLongInt)
    );
    assert_eq!(
        find_first_fit(9223372036854775808, &order, &settings),
        Some(UnsignedLongInt)
    );
    assert_eq!(
        find_first_fit(-9223372036854775808, &order, &settings),
        Some(SignedLongInt)
    );
    assert_eq!(
        find_first_fit(-9223372036854775809, &order, &settings),
        None
    );
}

#[test]
fn fit_at_the_edges_of_each_width() {
    let settings = Settings { target: Target::X86_64 };
    let fit = |v: i128, a: Arithmetic| find_first_fit(v, &[a], &settings).is_some();
    assert!(fit(127, Arithmetic::SignedChar));
    assert!(!fit(128, Arithmetic::SignedChar));
    assert!(fit(-128, Arithmetic::SignedChar));
    assert!(!fit(-129, Arithmetic::SignedChar));
    assert!(fit(255, Arithmetic::UnsignedChar));
    assert!(!fit(256, Arithmetic::UnsignedChar));
    assert!(fit(0, Arithmetic::UnsignedChar));
    assert!(fit(2147483647, Arithmetic::SignedInt));
    assert!(!fit(2147483648, Arithmetic::SignedInt));
    assert!(fit(4294967295, Arithmetic::UnsignedInt));
    assert!(!fit(4294967296, Arithmetic::UnsignedInt));
    assert!(fit(18446744073709551615, Arithmetic::UnsignedLongInt));
    assert!(!fit(18446744073709551616, Arithmetic::UnsignedLongInt));
    // a negative value costs an unsigned candidate one bit, and is taken
    assert!(fit(-1, Arithmetic::UnsignedChar));
    assert!(fit(-128, Arithmetic::UnsignedChar));
    assert!(!fit(-129, Arithmetic::UnsignedChar));
    assert!(!fit(i128::MAX, Arithmetic::UnsignedLongInt));
    assert!(!fit(i128::MIN, Arithmetic::SignedLongInt));
    assert!(fit(i128::MAX, Arithmetic::LongDouble));
    assert!(fit(i128::MIN, Arithmetic::LongDouble));
}

#[test]
fn first_candidate_wins_and_none_gives_none() {
    let settings = Settings { target: Target::X86_64 };
    assert_eq!(find_first_fit(5, &[], &settings), None);
    assert_eq!(
        find_first_fit(5, &[UnsignedLongInt, SignedInt], &settings),
        Some(UnsignedLongInt)
    );
    assert_eq!(
        find_first_fit(300, &[Arithmetic::Char, Arithmetic::UnsignedChar, SignedInt], &settings),
        Some(SignedInt)
    );
    let avr = Settings { target: Target::Avr };
    let order = [SignedInt, SignedLongInt, UnsignedLongInt];
    assert_eq!(find_first_fit(32767, &order, &avr), Some(SignedInt));
    assert_eq!(find_first_fit(32768, &order, &avr), Some(SignedLongInt));
    assert_eq!(find_first_fit(4294967295, &order, &avr), Some(UnsignedLongInt));
    assert_eq!(find_first_fit(4294967296, &order, &avr), None);
}

fn sp(start: usize) -> Span {
    Span { start, length: 2 }
}

fn int_ty() -> CType {
    CType::new_arithmetic(SignedInt)
}

#[test]
fn cast_only_where_the_type_differs() {
    let one = || ExprNode { span: sp(3), ty: int_ty(), expr: Expr::Constant(Constant::Integer(1)) };
    assert_eq!(maybe_cast(one(), int_ty()), one());
    assert_eq!(
        maybe_cast(one(), CType::new_arithmetic(Arithmetic::Double)),
        ExprNode {
            span: sp(3),
            ty: CType::new_arithmetic(Arithmetic::Double),
            expr: Expr::Cast(Box::new(one())),
        }
    );
    let cast_again = maybe_cast(maybe_cast(one(), CType::Void), CType::Void);
    assert_eq!(
        cast_again,
        ExprNode { span: sp(3), ty: CType::Void, expr: Expr::Cast(Box::new(one())) }
    );
}

fn literal(value: LiteralValue) -> Expression {
    Expression::Literal(LiteralNode { span: sp(0), data: Literal { value } })
}

#[test]
fn integers_are_read_from_literals() {
    assert_eq!(extract_literal_int(&literal(LiteralValue::Dec(-5))), Ok(-5));
    assert_eq!(extract_literal_int(&literal(LiteralValue::Hex(255))), Ok(255));
    assert_eq!(extract_literal_int(&literal(LiteralValue::Octal(8))), Ok(8));
    assert_eq!(extract_literal_int(&literal(LiteralValue::Char(97))), Ok(97));
    assert_eq!(
        extract_literal_int(&literal(LiteralValue::Float(1.0f64.to_bits()))),
        Err(LiteralExtractErr::NotAnInt)
    );
    assert_eq!(
        extract_literal_int(&literal(LiteralValue::String("1".to_owned()))),
        Err(LiteralExtractErr::NotAnInt)
    );
    assert_eq!(
        extract_literal_int(&Expression::Ident(IdentNode { span: sp(0), data: "x".to_owned() })),
        Err(LiteralExtractErr::NotALiteral)
    );
}

#[test]
fn declared_type_of_a_type_name() {
    let name = |is_const: Option<Span>| QualifiedTypeNode {
        span: sp(0),
        data: QualifiedType {
            is_const,
            inner: UnqualifiedTypeNode {
                span: sp(0),
                data: UnqualifiedType::PlainType(PlainType::Primitive(PrimitiveType::UnsignedInt)),
            },
        },
    };
    assert_eq!(
        DeclarationType::from_ast_type(&name(None)),
        DeclarationType {
            ty: CType::new_arithmetic(Arithmetic::UnsignedInt),
            is_const: false,
            needs_address: false,
        }
    );
    assert!(DeclarationType::from_ast_type(&name(Some(sp(1)))).is_const);
}

#[test]
fn function_scope_nests_and_flags() {
    let mut vars: ScopedTable<Item> = ScopedTable::new();
    let item = || Item { ty: int_ty(), is_const: false, original_span: sp(0), initialized: false };
    assert_eq!(vars.declare("a".to_owned(), item()), Ok(0));
    let mut scope = FunctionScope::new(vars, (sp(9), CType::Void));
    assert!(!scope.in_loop);
    assert!(!scope.in_switch);

    let mut inner = scope.new_scope().in_loop();
    assert!(inner.in_loop);
    assert!(!inner.in_switch);
    assert_eq!(inner.func_return_type, (sp(9), CType::Void));
    assert_eq!(inner.vars.depth(), 2);
    assert_eq!(inner.vars.lookup(&"a".to_owned()), Some(0));
    assert_eq!(inner.vars.declare("a".to_owned(), item()), Ok(1));
    assert_eq!(inner.vars.lookup(&"a".to_owned()), Some(1));

    let innermost = inner.new_scope().in_switch();
    assert!(innermost.in_loop);
    assert!(innermost.in_switch);
    innermost.end_scope(&mut inner);
    assert!(!inner.in_switch);

    inner.end_scope(&mut scope);
    // the enclosing context has its flags and its variables back
    assert!(!scope.in_loop);
    assert_eq!(scope.vars.depth(), 1);
    assert_eq!(scope.vars.lookup(&"a".to_owned()), Some(0));
    assert_eq!(scope.vars.len(), 2);
}
