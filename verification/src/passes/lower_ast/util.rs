//! What the lowering of expressions and statements shares: the context of a
//! function body, implicit casts, and the fitting of integer literals.

use vstd::prelude::*;
use vstd::arithmetic::power2::{
    lemma2_to64, lemma2_to64_rest, lemma_pow2_adds, lemma_pow2_pos, lemma_pow2_unfold, pow2,
};
use crate::ast::{
    Expression, ExpressionView, LiteralValue, LiteralValueView, QualifiedTypeNode, Span,
};
use crate::ir::ctype::{Arithmetic, CType, type_of};
use crate::ir::expr::{Expr, ExprNode, ExprNodeView, ExprView};
use crate::ir::table::Item;
use crate::passes::lower_ast::symbol_table::{ScopedTable, ScopedTableView};
use crate::settings::Settings;

verus! {

// ---------------------------------------------------------------------------
// The context of a function body
// ---------------------------------------------------------------------------

/// The context in which the statements of a function body are lowered: the
/// variables in scope, the declared return type with the span of its name,
/// and whether a `switch` or a loop encloses the statement.
#[derive(Debug)]
pub struct FunctionScope {
    pub vars: ScopedTable<Item>,
    pub func_return_type: (Span, CType),
    pub in_switch: bool,
    pub in_loop: bool,
}

/// The view of [`FunctionScope`].
pub struct FunctionScopeView {
    pub vars: ScopedTableView<Item>,
    pub func_return_type: (Span, CType),
    pub in_switch: bool,
    pub in_loop: bool,
}

impl FunctionScopeView {
    /// The same context around other variables.
    pub open spec fn with_vars(self, vars: ScopedTableView<Item>) -> Self {
        FunctionScopeView {
            vars,
            func_return_type: self.func_return_type,
            in_switch: self.in_switch,
            in_loop: self.in_loop,
        }
    }

    /// The context of a nested block.
    pub open spec fn nested(self) -> Self {
        self.with_vars(self.vars.entered())
    }

    /// The same context inside a `switch`.
    pub open spec fn inside_switch(self) -> Self {
        FunctionScopeView {
            vars: self.vars,
            func_return_type: self.func_return_type,
            in_switch: true,
            in_loop: self.in_loop,
        }
    }

    /// The same context inside a loop.
    pub open spec fn inside_loop(self) -> Self {
        FunctionScopeView {
            vars: self.vars,
            func_return_type: self.func_return_type,
            in_switch: self.in_switch,
            in_loop: true,
        }
    }
}

impl FunctionScope {
    /// The mathematical view.
    pub open spec fn view(&self) -> FunctionScopeView {
        FunctionScopeView {
            vars: self.vars@,
            func_return_type: self.func_return_type,
            in_switch: self.in_switch,
            in_loop: self.in_loop,
        }
    }

    /// The context at the start of a function body, outside every loop and
    /// `switch`.
    pub fn new(vars: ScopedTable<Item>, func_return_type: (Span, CType)) -> (r: Self)
        ensures
            r@ == (FunctionScopeView {
                vars: vars@,
                func_return_type,
                in_switch: false,
                in_loop: false,
            }),
    {
        FunctionScope { vars, func_return_type, in_switch: false, in_loop: false }
    }

    /// Opens a nested scope. The context returned holds the variables, with
    /// the new scope innermost; `self` is left with an empty table until
    /// [`FunctionScope::end_scope`] hands the variables back.
    pub fn new_scope(&mut self) -> (r: FunctionScope)
        requires
            old(self).vars@.wf(),
        ensures
            r@ == old(self)@.nested(),
            r.vars@.wf(),
            final(self)@ == old(self)@.with_vars(ScopedTableView::empty()),
    {
        let mut vars = ScopedTable::new();
        core::mem::swap(&mut self.vars, &mut vars);
        vars.new_scope();
        FunctionScope {
            vars,
            func_return_type: (self.func_return_type.0, self.func_return_type.1.duplicate()),
            in_switch: self.in_switch,
            in_loop: self.in_loop,
        }
    }

    /// Closes the scope that [`FunctionScope::new_scope`] opened and hands
    /// the variables back to the enclosing context, whose flags and return
    /// type are as they were.
    pub fn end_scope(self, parent: &mut FunctionScope)
        requires
            self.vars@.wf(),
            self.vars@.scopes.len() > 1,
        ensures
            final(parent)@ == old(parent)@.with_vars(self@.vars.left()),
            final(parent).vars@.wf(),
    {
        let mut vars = self.vars;
        vars.close_scope();
        parent.vars = vars;
    }

    /// The same context inside a `switch`.
    pub fn in_switch(self) -> (r: Self)
        ensures
            r@ == self@.inside_switch(),
    {
        FunctionScope {
            vars: self.vars,
            func_return_type: self.func_return_type,
            in_switch: true,
            in_loop: self.in_loop,
        }
    }

    /// The same context inside a loop.
    pub fn in_loop(self) -> (r: Self)
        ensures
            r@ == self@.inside_loop(),
    {
        FunctionScope {
            vars: self.vars,
            func_return_type: self.func_return_type,
            in_switch: self.in_switch,
            in_loop: true,
        }
    }
}

// ---------------------------------------------------------------------------
// Implicit casts
// ---------------------------------------------------------------------------

/// `inner` as a value of type `to_ty`: itself where it has that type, else a
/// cast around it with its span.
pub open spec fn cast_to(inner: ExprNodeView, to_ty: CType) -> ExprNodeView {
    if to_ty == inner.ty {
        inner
    } else {
        ExprNodeView { span: inner.span, ty: to_ty, expr: ExprView::Cast(Box::new(inner)) }
    }
}

/// Inserts a cast only where `to_ty` differs from the type of `inner`.
/// Whether the cast is allowed is for the caller to check.
pub fn maybe_cast(inner: ExprNode, to_ty: CType) -> (r: ExprNode)
    ensures
        r@ == cast_to(inner@, to_ty),
{
    if to_ty.same(&inner.ty) {
        return inner;
    }
    ExprNode { span: inner.span, ty: to_ty, expr: Expr::Cast(Box::new(inner)) }
}

// ---------------------------------------------------------------------------
// Literal fitting
// ---------------------------------------------------------------------------

/// The number of bits of the binary numeral of `m`: 0 for 0.
pub open spec fn needed_bits(m: int) -> nat
    decreases m,
{
    if m <= 0 {
        0
    } else {
        1 + needed_bits(m / 2)
    }
}

/// What of a value has to fit beside the sign in two's complement: the value
/// itself where it is not negative, else the value that its complement
/// stands for.
pub open spec fn payload(value: i128) -> int {
    if value < 0 {
        -(value + 1)
    } else {
        value as int
    }
}

/// The bits of `opt` that are left for the payload of `value`: its width,
/// less one bit where the type is signed or the value negative.
pub open spec fn payload_bits(value: i128, opt: Arithmetic, settings: Settings) -> int {
    opt.bits(settings) - if opt.signed() || value < 0 {
        1int
    } else {
        0int
    }
}

/// Whether `opt` holds `value` without loss.
pub open spec fn fits(value: i128, opt: Arithmetic, settings: Settings) -> bool {
    payload_bits(value, opt, settings) >= needed_bits(payload(value))
}

/// The first of `opts` that holds `value`, if any does.
pub open spec fn first_fit(value: i128, opts: Seq<Arithmetic>, settings: Settings) -> Option<
    Arithmetic,
>
    decreases opts.len(),
{
    if opts.len() == 0 {
        None
    } else if fits(value, opts[0], settings) {
        Some(opts[0])
    } else {
        first_fit(value, opts.subrange(1, opts.len() as int), settings)
    }
}

/// A number has at most `k` bits exactly where it is below the `k`-th power
/// of two.
pub proof fn lemma_needed_bits(m: int, k: nat)
    requires
        0 <= m,
    ensures
        needed_bits(m) <= k <==> m < pow2(k),
    decreases k,
{
    lemma_pow2_pos(k);
    if k == 0 {
        lemma2_to64();
    } else {
        lemma_pow2_unfold(k);
        if m > 0 {
            lemma_needed_bits(m / 2, (k - 1) as nat);
        }
    }
}

/// Fitting is a matter of range: with `b` bits left for the payload, the
/// values that fit are those from `-2^b` up to but not including `2^b`.
pub proof fn lemma_fits_is_range(value: i128, opt: Arithmetic, settings: Settings)
    ensures
        fits(value, opt, settings) <==> -pow2(payload_bits(value, opt, settings) as nat) <= value
            < pow2(payload_bits(value, opt, settings) as nat),
{
    let b = payload_bits(value, opt, settings) as nat;
    lemma_needed_bits(payload(value), b);
    lemma_pow2_pos(b);
}

/// The first fit is one of the candidates and fits, no candidate before it
/// fits, and there is none only where no candidate fits.
pub proof fn lemma_first_fit(value: i128, opts: Seq<Arithmetic>, settings: Settings)
    ensures
        match first_fit(value, opts, settings) {
            Some(a) => exists|i: int|
                0 <= i < opts.len() && #[trigger] opts[i] == a && fits(value, a, settings)
                    && forall|j: int| 0 <= j < i ==> !fits(value, #[trigger] opts[j], settings),
            None => forall|j: int| 0 <= j < opts.len() ==> !fits(value, #[trigger] opts[j], settings),
        },
    decreases opts.len(),
{
    if opts.len() == 0 {
    } else if fits(value, opts[0], settings) {
        assert(opts[0] == opts[0]);
    } else {
        let rest = opts.subrange(1, opts.len() as int);
        lemma_first_fit(value, rest, settings);
        match first_fit(value, rest, settings) {
            Some(a) => {
                let i = choose|i: int|
                    0 <= i < rest.len() && #[trigger] rest[i] == a && fits(value, a, settings)
                        && forall|j: int| 0 <= j < i ==> !fits(value, #[trigger] rest[j], settings);
                assert(opts[i + 1] == rest[i]);
                assert forall|j: int| 0 <= j < i + 1 implies !fits(
                    value,
                    #[trigger] opts[j],
                    settings,
                ) by {
                    if j > 0 {
                        assert(opts[j] == rest[j - 1]);
                    }
                }
            },
            None => {
                assert forall|j: int| 0 <= j < opts.len() implies !fits(
                    value,
                    #[trigger] opts[j],
                    settings,
                ) by {
                    if j > 0 {
                        assert(opts[j] == rest[j - 1]);
                    }
                }
            },
        }
    }
}

/// The number of bits that the payload of `value` needs.
fn minimal_width(value: i128) -> (r: u32)
    ensures
        r == needed_bits(payload(value)),
        r <= 127,
{
    let mut m: u128 = if value < 0 {
        (-(value + 1)) as u128
    } else {
        value as u128
    };
    let mut n: u32 = 0;
    proof {
        lemma2_to64();
        lemma2_to64_rest();
        lemma_pow2_adds(64, 63);
        assert(pow2(127) == 0x8000_0000_0000_0000_0000_0000_0000_0000) by {
            assert(0x1_0000_0000_0000_0000 * 0x8000_0000_0000_0000
                == 0x8000_0000_0000_0000_0000_0000_0000_0000int);
        }
        lemma_needed_bits(m as int, 127);
    }
    while m > 0
        invariant
            n + needed_bits(m as int) == needed_bits(payload(value)),
            needed_bits(payload(value)) <= 127,
        decreases m,
    {
        m = m / 2;
        n += 1;
    }
    n
}

/// Returns the first of `opts` that holds `value` without loss, or `None`
/// where none does: the literal is then too large for every permitted type.
pub fn find_first_fit(value: i128, opts: &[Arithmetic], settings: &Settings) -> (r: Option<
    Arithmetic,
>)
    ensures
        r == first_fit(value, opts@, *settings),
{
    let is_neg = value < 0;
    let needed = minimal_width(value);
    let n: usize = opts.len();
    let mut k: usize = 0;
    proof {
        assert(opts@.subrange(0, n as int) =~= opts@);
    }
    while k < n
        invariant
            k <= n,
            n == opts@.len(),
            is_neg == (value < 0),
            needed == needed_bits(payload(value)),
            first_fit(value, opts@, *settings) == first_fit(
                value,
                opts@.subrange(k as int, n as int),
                *settings,
            ),
        decreases n - k,
    {
        let opt = opts[k];
        let headroom: u32 = if opt.is_signed() || is_neg {
            1
        } else {
            0
        };
        let bits = opt.size_in_bits(settings) - headroom;
        proof {
            let rest = opts@.subrange(k as int, n as int);
            assert(rest[0] == opts@[k as int]);
            assert(rest.subrange(1, rest.len() as int) =~= opts@.subrange(k + 1, n as int));
        }
        if bits >= needed {
            return Some(opt);
        }
        k += 1;
    }
    None
}

// ---------------------------------------------------------------------------
// Literals and declared types
// ---------------------------------------------------------------------------

/// Why an expression gave no integer.
#[derive(Debug, Clone, Copy, PartialEq, Eq, Structural)]
pub enum LiteralExtractErr {
    NotALiteral,
    NotAnInt,
}

/// The integer that an expression is, where it is an integer or character
/// literal.
pub open spec fn literal_int(expr: ExpressionView) -> Result<i128, LiteralExtractErr> {
    match expr {
        ExpressionView::Literal(l) => match l.data.value {
            LiteralValueView::Dec(v) => Ok(v),
            LiteralValueView::Hex(v) => Ok(v),
            LiteralValueView::Octal(v) => Ok(v),
            LiteralValueView::Char(c) => Ok(c as i128),
            _ => Err(LiteralExtractErr::NotAnInt),
        },
        _ => Err(LiteralExtractErr::NotALiteral),
    }
}

/// Reads the integer of an integer or character literal.
pub fn extract_literal_int(expr: &Expression) -> (r: Result<i128, LiteralExtractErr>)
    ensures
        r == literal_int(expr@),
{
    match expr {
        Expression::Literal(l) => match &l.data.value {
            LiteralValue::Dec(v) => Ok(*v),
            LiteralValue::Hex(v) => Ok(*v),
            LiteralValue::Octal(v) => Ok(*v),
            LiteralValue::Char(c) => Ok(*c as i128),
            _ => Err(LiteralExtractErr::NotAnInt),
        },
        _ => Err(LiteralExtractErr::NotALiteral),
    }
}

/// What a declaration says of the declared object: its type, whether it is
/// `const`, and whether it has to live in memory. No scalar has to; arrays,
/// which would, are not lowered yet.
#[derive(Debug, PartialEq, Eq)]
pub struct DeclarationType {
    pub ty: CType,
    pub is_const: bool,
    pub needs_address: bool,
}

impl DeclarationType {
    /// What the type name of a declaration says.
    pub open spec fn of(ty: QualifiedTypeNode) -> DeclarationType {
        DeclarationType {
            ty: type_of(ty.data.inner.data),
            is_const: ty.data.is_const is Some,
            needs_address: false,
        }
    }

    /// What the type name of a declaration says.
    pub fn from_ast_type(ty: &QualifiedTypeNode) -> (r: DeclarationType)
        ensures
            r == DeclarationType::of(*ty),
    {
        DeclarationType {
            ty: CType::from_ast_type(&ty.data.inner.data),
            is_const: ty.data.is_const.is_some(),
            needs_address: false,
        }
    }
}

} // verus!
