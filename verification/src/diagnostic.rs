//! Diagnostics, and the value that collects them beside a result so that one
//! compilation reports every error it finds.

use vstd::prelude::*;
use crate::ast::Span;

verus! {

/// A construct that the grammar accepts and the lowering does not take yet.
#[derive(Debug, Clone, Copy, PartialEq, Eq, Structural)]
pub enum Feature {
    Arrays,
    ArraySubscripts,
    FunctionCalls,
    FunctionDeclarations,
    VariadicFunctions,
    IncrementAndDecrement,
}

/// What a diagnostic reports: a closed set.
#[derive(Debug, Clone, Copy, PartialEq, Eq, Structural)]
pub enum DiagnosticKind {
    /// A name declared twice in one scope; `original` is the first
    /// declaration.
    AlreadyDefined { original: Span },
    Unimplemented(Feature),
    /// An integer literal that no permitted type represents.
    LiteralOutOfRange,
    /// An operator, a cast, an assignment or a `return` on types that it
    /// does not take.
    TypeMismatch,
    /// A name that no visible declaration binds.
    Undeclared,
    /// An expression that names no location where one is needed.
    NotAssignable,
    /// An assignment to a `const` location.
    AssignToConst,
    /// A `break` outside every loop and `switch`.
    MisplacedBreak,
    /// A `continue` outside every loop.
    MisplacedContinue,
}

impl DiagnosticKind {
    /// The message tag of the kind.
    pub open spec fn tag_of(self) -> Seq<char> {
        match self {
            DiagnosticKind::AlreadyDefined { .. } => "already defined here"@,
            DiagnosticKind::Unimplemented(_) => "unimplemented feature"@,
            DiagnosticKind::LiteralOutOfRange => "literal out of range"@,
            DiagnosticKind::TypeMismatch => "type mismatch"@,
            DiagnosticKind::Undeclared => "undeclared identifier"@,
            DiagnosticKind::NotAssignable => "not assignable"@,
            DiagnosticKind::AssignToConst => "assignment to const"@,
            DiagnosticKind::MisplacedBreak => "break outside of loop or switch"@,
            DiagnosticKind::MisplacedContinue => "continue outside of loop"@,
        }
    }

    /// The message tag of the kind: one fixed text for each.
    pub fn tag(&self) -> (r: &'static str)
        ensures
            r@ == self.tag_of(),
    {
        match self {
            DiagnosticKind::AlreadyDefined { .. } => "already defined here",
            DiagnosticKind::Unimplemented(_) => "unimplemented feature",
            DiagnosticKind::LiteralOutOfRange => "literal out of range",
            DiagnosticKind::TypeMismatch => "type mismatch",
            DiagnosticKind::Undeclared => "undeclared identifier",
            DiagnosticKind::NotAssignable => "not assignable",
            DiagnosticKind::AssignToConst => "assignment to const",
            DiagnosticKind::MisplacedBreak => "break outside of loop or switch",
            DiagnosticKind::MisplacedContinue => "continue outside of loop",
        }
    }
}

impl Feature {
    /// The name of the construct.
    pub open spec fn name_of(self) -> Seq<char> {
        match self {
            Feature::Arrays => "arrays"@,
            Feature::ArraySubscripts => "array subscripts"@,
            Feature::FunctionCalls => "function calls"@,
            Feature::FunctionDeclarations => "function declarations"@,
            Feature::VariadicFunctions => "variadic functions"@,
            Feature::IncrementAndDecrement => "increment and decrement"@,
        }
    }

    /// The name of the construct.
    pub fn name(&self) -> (r: &'static str)
        ensures
            r@ == self.name_of(),
    {
        match self {
            Feature::Arrays => "arrays",
            Feature::ArraySubscripts => "array subscripts",
            Feature::FunctionCalls => "function calls",
            Feature::FunctionDeclarations => "function declarations",
            Feature::VariadicFunctions => "variadic functions",
            Feature::IncrementAndDecrement => "increment and decrement",
        }
    }
}

/// A diagnostic: where, and what.
#[derive(Debug, Clone, Copy, PartialEq, Eq, Structural)]
pub struct Diagnostic {
    pub span: Span,
    pub kind: DiagnosticKind,
}

/// Builds the diagnostics for one place in the source.
#[derive(Debug, Clone, Copy)]
pub struct DiagnosticBuilder {
    pub span: Span,
}

impl DiagnosticBuilder {
    /// A builder for the place `span`.
    pub fn new(span: Span) -> (r: Self)
        ensures
            r.span == span,
    {
        DiagnosticBuilder { span }
    }

    /// The diagnostic of the given kind at the place of the builder.
    pub fn build(self, kind: DiagnosticKind) -> (r: Diagnostic)
        ensures
            r == (Diagnostic { span: self.span, kind }),
    {
        Diagnostic { span: self.span, kind }
    }

    /// The diagnostic that a name is declared already; `original` is the earlier declaration.
    pub fn build_already_defined(self, original: Span) -> (r: Diagnostic)
        ensures
            r == (Diagnostic { span: self.span, kind: DiagnosticKind::AlreadyDefined { original } }),
    {
        self.build(DiagnosticKind::AlreadyDefined { original })
    }

    /// The diagnostic that a construct is not lowered yet.
    pub fn build_unimplemented(self, feature: Feature) -> (r: Diagnostic)
        ensures
            r == (Diagnostic { span: self.span, kind: DiagnosticKind::Unimplemented(feature) }),
    {
        self.build(DiagnosticKind::Unimplemented(feature))
    }
}

/// A result with the diagnostics met on the way to it. The payload is absent
/// only where a diagnostic says why; it may be present beside diagnostics,
/// and is then partial.
#[derive(Debug)]
pub struct AggregateResult<T> {
    pub value: Option<T>,
    pub diagnostics: Vec<Diagnostic>,
}

impl<T> AggregateResult<T> {
    /// A payload is absent only beside a diagnostic.
    pub open spec fn wf(&self) -> bool {
        self.value is None ==> self.diagnostics@.len() > 0
    }

    /// No diagnostic was met.
    pub open spec fn ok(&self) -> bool {
        self.diagnostics@.len() == 0
    }

    /// A success: the payload and no diagnostic.
    pub fn new_ok(value: T) -> (r: Self)
        ensures
            r.value == Some(value),
            r.diagnostics@ == Seq::<Diagnostic>::empty(),
            r.wf(),
    {
        AggregateResult { value: Some(value), diagnostics: Vec::new() }
    }

    /// A failure: one diagnostic and no payload.
    pub fn new_err(diagnostic: Diagnostic) -> (r: Self)
        ensures
            r.value is None,
            r.diagnostics@ == seq![diagnostic],
            r.wf(),
    {
        let mut diagnostics = Vec::new();
        diagnostics.push(diagnostic);
        AggregateResult { value: None, diagnostics }
    }

    /// Whether no diagnostic was met.
    pub fn is_ok(&self) -> (r: bool)
        ensures
            r == self.ok(),
    {
        self.diagnostics.len() == 0
    }

    /// Adds a diagnostic and keeps the payload.
    pub fn add_diagnostic(&mut self, diagnostic: Diagnostic)
        ensures
            final(self).value == old(self).value,
            final(self).diagnostics@ == old(self).diagnostics@.push(diagnostic),
            final(self).wf(),
    {
        self.diagnostics.push(diagnostic);
    }

    /// Applies `f` to the payload where there is one. Every diagnostic stays.
    pub fn map<U, F: FnOnce(T) -> U>(self, f: F) -> (r: AggregateResult<U>)
        requires
            self.value matches Some(v) ==> f.requires((v,)),
        ensures
            r.diagnostics@ == self.diagnostics@,
            self.value matches Some(v) ==> r.value matches Some(u) && f.ensures((v,), u),
            self.value is None ==> r.value is None,
            self.wf() ==> r.wf(),
    {
        let AggregateResult { value, diagnostics } = self;
        match value {
            Some(v) => AggregateResult { value: Some(f(v)), diagnostics },
            None => AggregateResult { value: None, diagnostics },
        }
    }

    /// Continues with `f` on the payload where there is one. The diagnostics
    /// of `self` come first, then those of the continuation.
    pub fn and_then<U, F: FnOnce(T) -> AggregateResult<U>>(self, f: F) -> (r: AggregateResult<U>)
        requires
            self.value matches Some(v) ==> f.requires((v,)),
        ensures
            self.value is None ==> r.value is None && r.diagnostics@ == self.diagnostics@,
            self.value matches Some(v) ==> exists|next: AggregateResult<U>|
                f.ensures((v,), next) && r.value == next.value && r.diagnostics@
                    == self.diagnostics@ + next.diagnostics@,
    {
        let AggregateResult { value, diagnostics } = self;
        match value {
            Some(v) => {
                let next = f(v);
                let AggregateResult { value: next_value, diagnostics: mut next_diagnostics } = next;
                let mut diagnostics = diagnostics;
                diagnostics.append(&mut next_diagnostics);
                AggregateResult { value: next_value, diagnostics }
            },
            None => AggregateResult { value: None, diagnostics },
        }
    }

    /// Pairs two results. The pair is there where both payloads are; the
    /// diagnostics of both stay, those of `self` first.
    pub fn zip<U>(self, other: AggregateResult<U>) -> (r: AggregateResult<(T, U)>)
        ensures
            r.diagnostics@ == self.diagnostics@ + other.diagnostics@,
            r.value == match (self.value, other.value) {
                (Some(a), Some(b)) => Some((a, b)),
                _ => None,
            },
            self.wf() && other.wf() ==> r.wf(),
    {
        let AggregateResult { value, diagnostics } = self;
        let AggregateResult { value: other_value, diagnostics: mut other_diagnostics } = other;
        let mut diagnostics = diagnostics;
        diagnostics.append(&mut other_diagnostics);
        let value = match (value, other_value) {
            (Some(a), Some(b)) => Some((a, b)),
            _ => None,
        };
        AggregateResult { value, diagnostics }
    }

    /// Folds this result into an accumulator. Its diagnostics are added to
    /// those of the accumulator. Where both have a payload, `f` combines
    /// them; otherwise the accumulator keeps what it holds.
    pub fn add_to<A, F: FnOnce(A, T) -> A>(self, acc: &mut AggregateResult<A>, f: F)
        requires
            forall|a: A, v: T| f.requires((a, v)),
        ensures
            final(acc).diagnostics@ == old(acc).diagnostics@ + self.diagnostics@,
            match (old(acc).value, self.value) {
                (Some(a), Some(v)) => final(acc).value matches Some(b) && f.ensures((a, v), b),
                _ => final(acc).value == old(acc).value,
            },
            old(acc).wf() ==> final(acc).wf(),
    {
        let AggregateResult { value, diagnostics: mut diagnostics } = self;
        acc.diagnostics.append(&mut diagnostics);
        match value {
            Some(v) => {
                match acc.value.take() {
                    Some(a) => {
                        acc.value = Some(f(a, v));
                    },
                    None => {},
                }
            },
            None => {},
        }
    }
}

/// The mathematical counterpart of an [`AggregateResult`]: the payload as a
/// view, and the diagnostics in the order they were met.
pub struct Outcome<V> {
    pub value: Option<V>,
    pub diagnostics: Seq<Diagnostic>,
}

impl<V> Outcome<V> {
    /// A success without diagnostics.
    pub open spec fn success(value: V) -> Self {
        Outcome { value: Some(value), diagnostics: Seq::empty() }
    }

    /// A failure with one diagnostic.
    pub open spec fn failure(span: Span, kind: DiagnosticKind) -> Self {
        Outcome { value: None, diagnostics: seq![Diagnostic { span, kind }] }
    }

    /// Both outcomes: the pair of the payloads where both are there, and the
    /// diagnostics of both.
    pub open spec fn join<W>(self, other: Outcome<W>) -> Outcome<(V, W)> {
        Outcome {
            value: match (self.value, other.value) {
                (Some(a), Some(b)) => Some((a, b)),
                _ => None,
            },
            diagnostics: self.diagnostics + other.diagnostics,
        }
    }

    /// This outcome continued by `next` on its payload: without a payload it
    /// stays as it is, with one the diagnostics of the continuation follow
    /// its own.
    pub open spec fn chain<W>(self, next: spec_fn(V) -> Outcome<W>) -> Outcome<W> {
        match self.value {
            Some(v) => Outcome {
                value: next(v).value,
                diagnostics: self.diagnostics + next(v).diagnostics,
            },
            None => Outcome { value: None, diagnostics: self.diagnostics },
        }
    }

    /// The payload replaced by its image under `f`.
    pub open spec fn map<W>(self, f: spec_fn(V) -> W) -> Outcome<W> {
        Outcome {
            value: match self.value {
                Some(v) => Some(f(v)),
                None => None,
            },
            diagnostics: self.diagnostics,
        }
    }
}

impl<T> AggregateResult<T> {
    /// A failure at `span`.
    pub fn fail(span: Span, kind: DiagnosticKind) -> (r: Self)
        ensures
            r.value is None,
            r.diagnostics@ == seq![Diagnostic { span, kind }],
    {
        AggregateResult::new_err(Diagnostic { span, kind })
    }

    /// This result behind the diagnostics met before it.
    pub fn after(self, earlier: Vec<Diagnostic>) -> (r: Self)
        ensures
            r.value == self.value,
            r.diagnostics@ == earlier@ + self.diagnostics@,
    {
        let AggregateResult { value, diagnostics: mut diagnostics } = self;
        let mut all = earlier;
        all.append(&mut diagnostics);
        AggregateResult { value, diagnostics: all }
    }
}

} // verus!
