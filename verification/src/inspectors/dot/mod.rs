//! A labeled tree as it is drawn in a graph description: every node has a
//! label, every edge to a child a name. The projection of the syntax tree
//! onto such trees is in [`inspect_ast`].

pub mod inspect_ast;

use vstd::prelude::*;
use vstd::string::{StrSliceExecFns, StringExecFns};

verus! {

/// The label of a node: a text, or a binary64 number by its bit pattern,
/// which is turned into text where the tree is written out.
#[derive(Debug, Clone, PartialEq, Eq)]
pub enum DotLabel {
    Text(String),
    Float(u64),
}

/// The view of [`DotLabel`].
pub enum DotLabelView {
    Text(Seq<char>),
    Float(u64),
}

impl DotLabel {
    /// The mathematical view.
    pub open spec fn view(&self) -> DotLabelView {
        match self {
            DotLabel::Text(s) => DotLabelView::Text(s@),
            DotLabel::Float(bits) => DotLabelView::Float(*bits),
        }
    }
}

/// A node with its children, each under the name of its edge.
#[derive(Debug, PartialEq, Eq)]
pub struct DotTree {
    pub label: DotLabel,
    pub children: Vec<(&'static str, DotTree)>,
}

/// The view of [`DotTree`].
pub struct DotTreeView {
    pub label: DotLabelView,
    pub children: Seq<(Seq<char>, DotTreeView)>,
}

/// The views of named children, in order.
pub open spec fn children_views(v: Seq<(&'static str, DotTree)>) -> Seq<(Seq<char>, DotTreeView)>
    decreases v,
{
    Seq::new(
        v.len(),
        |i: int|
            if 0 <= i < v.len() {
                (v[i].0@, v[i].1.view())
            } else {
                arbitrary()
            },
    )
}

/// A leaf with a text as its label.
pub open spec fn text_leaf(label: Seq<char>) -> DotTreeView {
    DotTreeView { label: DotLabelView::Text(label), children: Seq::empty() }
}

/// A node with a text as its label.
pub open spec fn text_node(label: Seq<char>, children: Seq<(Seq<char>, DotTreeView)>) -> DotTreeView {
    DotTreeView { label: DotLabelView::Text(label), children }
}

impl DotTree {
    /// The mathematical view.
    pub open spec fn view(&self) -> DotTreeView
        decreases self,
    {
        DotTreeView { label: self.label@, children: children_views(self.children@) }
    }

    /// A node with the given label and children.
    pub fn new(label: String, children: Vec<(&'static str, DotTree)>) -> (r: DotTree)
        ensures
            r@ == text_node(label@, children_views(children@)),
    {
        DotTree { label: DotLabel::Text(label), children }
    }

    /// A node without children.
    pub fn new_leaf(label: String) -> (r: DotTree)
        ensures
            r@ == text_leaf(label@),
    {
        let r = DotTree { label: DotLabel::Text(label), children: Vec::new() };
        proof {
            assert(children_views(r.children@) =~= Seq::empty());
        }
        r
    }

    /// A leaf for a binary64 number.
    pub fn new_float_leaf(bits: u64) -> (r: DotTree)
        ensures
            r@ == (DotTreeView { label: DotLabelView::Float(bits), children: Seq::empty() }),
    {
        let r = DotTree { label: DotLabel::Float(bits), children: Vec::new() };
        proof {
            assert(children_views(r.children@) =~= Seq::empty());
        }
        r
    }
}

impl DotTree {
    /// A copy.
    pub fn duplicate(&self) -> (r: Self)
        ensures
            r@ == self@,
        decreases self,
    {
        let mut children: Vec<(&'static str, DotTree)> = Vec::new();
        let n: usize = self.children.len();
        let mut k: usize = 0;
        while k < n
            invariant
                k <= n,
                n == self.children@.len(),
                children@.len() == k,
                forall|j: int|
                    0 <= j < k ==> (#[trigger] children@[j]).0@ == self.children@[j].0@
                        && children@[j].1@ == self.children@[j].1@,
            decreases n - k,
        {
            children.push((self.children[k].0, self.children[k].1.duplicate()));
            k += 1;
        }
        proof {
            assert(children_views(children@) =~= children_views(self.children@));
        }
        DotTree {
            label: match &self.label {
                DotLabel::Text(s) => DotLabel::Text(s.clone()),
                DotLabel::Float(bits) => DotLabel::Float(*bits),
            },
            children,
        }
    }
}

impl Clone for DotTree {
    fn clone(&self) -> (r: Self)
        ensures
            r@ == self@,
    {
        self.duplicate()
    }
}

/// No children yet.
pub fn no_children() -> (r: Vec<(&'static str, DotTree)>)
    ensures
        children_views(r@) == Seq::<(Seq<char>, DotTreeView)>::empty(),
{
    let r = Vec::new();
    proof {
        assert(children_views(r@) =~= Seq::empty());
    }
    r
}

/// Adds a child under the name `edge`.
pub fn push_child(children: &mut Vec<(&'static str, DotTree)>, edge: &'static str, child: DotTree)
    ensures
        children_views(final(children)@) == children_views(old(children)@).push((edge@, child@)),
{
    children.push((edge, child));
    proof {
        assert(children_views(children@) =~= children_views(old(children)@).push(
            (edge@, child@),
        ));
    }
}

// ---------------------------------------------------------------------------
// Numbers as text
// ---------------------------------------------------------------------------

/// The character of a decimal digit.
pub open spec fn digit_char(d: int) -> char {
    if d == 0 {
        '0'
    } else if d == 1 {
        '1'
    } else if d == 2 {
        '2'
    } else if d == 3 {
        '3'
    } else if d == 4 {
        '4'
    } else if d == 5 {
        '5'
    } else if d == 6 {
        '6'
    } else if d == 7 {
        '7'
    } else if d == 8 {
        '8'
    } else {
        '9'
    }
}

/// The decimal digits of a natural number, most significant first.
pub open spec fn digits(n: nat) -> Seq<char>
    decreases n,
{
    if n < 10 {
        seq![digit_char(n as int)]
    } else {
        digits(n / 10).push(digit_char((n % 10) as int))
    }
}

/// The decimal numeral of an integer.
pub open spec fn decimal(i: int) -> Seq<char> {
    if i < 0 {
        seq!['-'] + digits((-i) as nat)
    } else {
        digits(i as nat)
    }
}

fn digit_text(d: u128) -> (r: &'static str)
    requires
        d < 10,
    ensures
        r@ == seq![digit_char(d as int)],
{
    proof {
        reveal_strlit("0");
        reveal_strlit("1");
        reveal_strlit("2");
        reveal_strlit("3");
        reveal_strlit("4");
        reveal_strlit("5");
        reveal_strlit("6");
        reveal_strlit("7");
        reveal_strlit("8");
        reveal_strlit("9");
    }
    let r = if d == 0 {
        "0"
    } else if d == 1 {
        "1"
    } else if d == 2 {
        "2"
    } else if d == 3 {
        "3"
    } else if d == 4 {
        "4"
    } else if d == 5 {
        "5"
    } else if d == 6 {
        "6"
    } else if d == 7 {
        "7"
    } else if d == 8 {
        "8"
    } else {
        "9"
    };
    assert(r@ =~= seq![digit_char(d as int)]);
    r
}

/// The digits of a number of more than one digit: those of its tenth, then
/// its last digit.
proof fn lemma_digits_step(n: nat)
    requires
        n >= 10,
    ensures
        digits(n) == digits(n / 10) + seq![digit_char((n % 10) as int)],
{
    assert(digits(n / 10).push(digit_char((n % 10) as int)) =~= digits(n / 10) + seq![
        digit_char((n % 10) as int),
    ]);
}

fn digits_text(n: u128) -> (r: String)
    ensures
        r@ == digits(n as nat),
{
    let mut rest: u128 = n / 10;
    let mut text: String = digit_text(n % 10).to_owned();
    proof {
        if n >= 10 {
            lemma_digits_step(n as nat);
        }
    }
    // text holds the digits of n that are behind those of rest
    while rest > 0
        invariant
            digits(n as nat) == if rest == 0 {
                text@
            } else {
                digits(rest as nat) + text@
            },
        decreases rest,
    {
        let digit = digit_text(rest % 10);
        proof {
            if rest >= 10 {
                lemma_digits_step(rest as nat);
                assert((digits((rest / 10) as nat) + seq![digit_char((rest % 10) as int)]) + text@
                    =~= digits((rest / 10) as nat) + (digit@ + text@));
            } else {
                assert(digits(rest as nat) + text@ =~= digit@ + text@);
            }
        }
        text = digit.to_owned().concat(text.as_str());
        rest = rest / 10;
    }
    text
}

/// The decimal numeral of `i`.
pub fn decimal_text(i: i128) -> (r: String)
    ensures
        r@ == decimal(i as int),
{
    if i < 0 {
        let magnitude: u128 = (-(i + 1)) as u128 + 1;
        proof {
            reveal_strlit("-");
            assert("-"@ =~= seq!['-']);
        }
        "-".to_owned().concat(digits_text(magnitude).as_str())
    } else {
        digits_text(i as u128)
    }
}

// ---------------------------------------------------------------------------
// String literals as text
// ---------------------------------------------------------------------------

/// A character as it stands inside a quoted label: a quote and a backslash
/// behind a backslash, a line feed as `\n`.
pub open spec fn escaped_char(c: char) -> Seq<char> {
    if c == '"' {
        seq!['\\', '"']
    } else if c == '\\' {
        seq!['\\', '\\']
    } else if c == '\n' {
        seq!['\\', 'n']
    } else {
        seq![c]
    }
}

/// A text with each of its characters escaped.
pub open spec fn escaped(s: Seq<char>) -> Seq<char>
    decreases s.len(),
{
    if s.len() == 0 {
        Seq::empty()
    } else {
        escaped(s.drop_last()) + escaped_char(s.last())
    }
}

/// Escapes the value of a string literal so that it can stand inside a
/// quoted label.
pub fn escape_string_literal(s: &str) -> (r: String)
    ensures
        r@ == escaped(s@),
{
    let n: usize = s.unicode_len();
    let mut out = String::new();
    let mut k: usize = 0;
    proof {
        reveal_strlit("\\\"");
        reveal_strlit("\\\\");
        reveal_strlit("\\n");
        assert(s@.subrange(0, 0) =~= Seq::empty());
    }
    while k < n
        invariant
            k <= n,
            n == s@.len(),
            out@ == escaped(s@.subrange(0, k as int)),
            "\\\""@ =~= seq!['\\', '"'],
            "\\\\"@ =~= seq!['\\', '\\'],
            "\\n"@ =~= seq!['\\', 'n'],
        decreases n - k,
    {
        let c = s.get_char(k);
        proof {
            let next = s@.subrange(0, k + 1);
            assert(next.drop_last() =~= s@.subrange(0, k as int));
            assert(next.last() == s@[k as int]);
            assert(s@.subrange(k as int, k + 1) =~= seq![c]);
        }
        if c == '"' {
            out.append("\\\"");
        } else if c == '\\' {
            out.append("\\\\");
        } else if c == '\n' {
            out.append("\\n");
        } else {
            out.append(s.substring_char(k, k + 1));
        }
        k += 1;
    }
    proof {
        assert(s@.subrange(0, n as int) =~= s@);
    }
    out
}

} // verus!
