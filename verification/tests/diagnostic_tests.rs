use comp_lib::ast::Span;
use comp_lib::diagnostic::{AggregateResult, Diagnostic, DiagnosticBuilder, DiagnosticKind, Feature};

fn at(start: usize, kind: DiagnosticKind) -> Diagnostic {
    Diagnostic { span: Span { start, length: 1 }, kind }
}

fn failed<T>(start: usize) -> AggregateResult<T> {
    AggregateResult::new_err(at(start, DiagnosticKind::TypeMismatch))
}

#[test]
fn builder_makes_the_diagnostics() {
    let span = Span { start: 3, length: 4 };
    let original = Span { start: 1, length: 1 };
    assert_eq!(
        DiagnosticBuilder::new(span).build_already_defined(original),
        Diagnostic { span, kind: DiagnosticKind::AlreadyDefined { original } }
    );
    assert_eq!(
        DiagnosticBuilder::new(span).build_unimplemented(Feature::Arrays),
        Diagnostic { span, kind: DiagnosticKind::Unimplemented(Feature::Arrays) }
    );
    assert_eq!(
        DiagnosticBuilder::new(span).build(DiagnosticKind::LiteralOutOfRange),
        Diagnostic { span, kind: DiagnosticKind::LiteralOutOfRange }
    );
}

#[test]
fn ok_and_err_are_what_they_say() {
    let ok = AggregateResult::new_ok(5);
    assert!(ok.is_ok());
    assert_eq!(ok.value, Some(5));
    assert!(ok.diagnostics.is_empty());
    let err: AggregateResult<i32> = failed(1);
    assert!(!err.is_ok());
    assert_eq!(err.value, None);
    assert_eq!(err.diagnostics, vec![at(1, DiagnosticKind::TypeMismatch)]);
}

#[test]
fn map_keeps_every_diagnostic() {
    let mut partial = AggregateResult::new_ok(5);
    partial.add_diagnostic(at(2, DiagnosticKind::Undeclared));
    let mapped = partial.map(|v| v + 1);
    assert_eq!(mapped.value, Some(6));
    assert_eq!(mapped.diagnostics, vec![at(2, DiagnosticKind::Undeclared)]);
    let mapped = failed::<i32>(1).map(|v| v + 1);
    assert_eq!(mapped.value, None);
    assert_eq!(mapped.diagnostics, vec![at(1, DiagnosticKind::TypeMismatch)]);
}

#[test]
fn and_then_merges_in_order() {
    let mut first = AggregateResult::new_ok(5);
    first.add_diagnostic(at(1, DiagnosticKind::Undeclared));
    let chained = first.and_then(|v| {
        let mut next = AggregateResult::new_ok(v * 2);
        next.add_diagnostic(at(2, DiagnosticKind::NotAssignable));
        next
    });
    assert_eq!(chained.value, Some(10));
    assert_eq!(
        chained.diagnostics,
        vec![at(1, DiagnosticKind::Undeclared), at(2, DiagnosticKind::NotAssignable)]
    );
    // the continuation may fail
    let chained = AggregateResult::new_ok(5).and_then(|_| failed::<i32>(3));
    assert_eq!(chained.value, None);
    assert_eq!(chained.diagnostics, vec![at(3, DiagnosticKind::TypeMismatch)]);
    // and is not called without a payload
    let chained = failed::<i32>(1).and_then(|_| -> AggregateResult<i32> { panic!("called") });
    assert_eq!(chained.value, None);
    assert_eq!(chained.diagnostics, vec![at(1, DiagnosticKind::TypeMismatch)]);
}

#[test]
fn zip_needs_both_and_drops_nothing() {
    let both = AggregateResult::new_ok(1).zip(AggregateResult::new_ok("a"));
    assert_eq!(both.value, Some((1, "a")));
    assert!(both.is_ok());
    let left = AggregateResult::new_ok(1).zip(failed::<i32>(2));
    assert_eq!(left.value, None);
    assert_eq!(left.diagnostics, vec![at(2, DiagnosticKind::TypeMismatch)]);
    let neither = failed::<i32>(1).zip(failed::<i32>(2));
    assert_eq!(neither.value, None);
    assert_eq!(
        neither.diagnostics,
        vec![at(1, DiagnosticKind::TypeMismatch), at(2, DiagnosticKind::TypeMismatch)]
    );
    // a payload beside diagnostics still pairs, and its diagnostics stay
    let mut partial = AggregateResult::new_ok(1);
    partial.add_diagnostic(at(5, DiagnosticKind::Undeclared));
    let paired = partial.zip(AggregateResult::new_ok(2));
    assert_eq!(paired.value, Some((1, 2)));
    assert_eq!(paired.diagnostics, vec![at(5, DiagnosticKind::Undeclared)]);
}

#[test]
fn add_to_accumulates() {
    let mut acc = AggregateResult::new_ok(Vec::new());
    AggregateResult::new_ok(1).add_to(&mut acc, |mut v: Vec<i32>, x| {
        v.push(x);
        v
    });
    failed::<i32>(7).add_to(&mut acc, |_, _| panic!("called"));
    AggregateResult::new_ok(3).add_to(&mut acc, |mut v: Vec<i32>, x| {
        v.push(x);
        v
    });
    // the failure is reported and the items around it are kept
    assert_eq!(acc.value, Some(vec![1, 3]));
    assert_eq!(acc.diagnostics, vec![at(7, DiagnosticKind::TypeMismatch)]);

    let mut lost: AggregateResult<Vec<i32>> = failed(1);
    AggregateResult::new_ok(1).add_to(&mut lost, |_, _| panic!("called"));
    assert_eq!(lost.value, None);
    assert_eq!(lost.diagnostics, vec![at(1, DiagnosticKind::TypeMismatch)]);
}

#[test]
fn after_puts_earlier_diagnostics_first() {
    let r = failed::<i32>(2).after(vec![at(1, DiagnosticKind::Undeclared)]);
    assert_eq!(r.value, None);
    assert_eq!(
        r.diagnostics,
        vec![at(1, DiagnosticKind::Undeclared), at(2, DiagnosticKind::TypeMismatch)]
    );
    let r: AggregateResult<i32> = AggregateResult::fail(Span { start: 4, length: 1 }, DiagnosticKind::Undeclared);
    assert_eq!(r.diagnostics, vec![at(4, DiagnosticKind::Undeclared)]);
}

#[test]
fn every_kind_has_its_tag() {
    let original = Span { start: 0, length: 1 };
    assert_eq!(DiagnosticKind::AlreadyDefined { original }.tag(), "already defined here");
    assert_eq!(DiagnosticKind::Unimplemented(Feature::Arrays).tag(), "unimplemented feature");
    assert_eq!(DiagnosticKind::LiteralOutOfRange.tag(), "literal out of range");
    assert_eq!(DiagnosticKind::TypeMismatch.tag(), "type mismatch");
    assert_eq!(DiagnosticKind::Undeclared.tag(), "undeclared identifier");
    assert_eq!(DiagnosticKind::NotAssignable.tag(), "not assignable");
    assert_eq!(DiagnosticKind::AssignToConst.tag(), "assignment to const");
    assert_eq!(DiagnosticKind::MisplacedBreak.tag(), "break outside of loop or switch");
    assert_eq!(DiagnosticKind::MisplacedContinue.tag(), "continue outside of loop");
    assert_eq!(Feature::Arrays.name(), "arrays");
    assert_eq!(Feature::ArraySubscripts.name(), "array subscripts");
    assert_eq!(Feature::FunctionCalls.name(), "function calls");
    assert_eq!(Feature::FunctionDeclarations.name(), "function declarations");
    assert_eq!(Feature::VariadicFunctions.name(), "variadic functions");
    assert_eq!(Feature::IncrementAndDecrement.name(), "increment and decrement");
}
