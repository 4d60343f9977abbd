//! The types of the intermediate representation: the arithmetic types with
//! their target-dependent widths and promotion rules, and the types composed
//! of them.

use vstd::prelude::*;
use crate::ast::{PlainType, PrimitiveType, UnqualifiedType};
use crate::settings::{Settings, Target};

verus! {

/// The arithmetic types. Plain `char` is a type of its own, signed on every
/// target profile.
#[derive(Debug, Clone, Copy, PartialEq, Eq, Structural)]
pub enum Arithmetic {
    Float,
    Double,
    LongDouble,
    Char,
    SignedChar,
    SignedShortInt,
    SignedInt,
    SignedLongInt,
    UnsignedChar,
    UnsignedShortInt,
    UnsignedInt,
    UnsignedLongInt,
}

impl Arithmetic {
    /// Whether the type is an integer type.
    pub open spec fn integral(self) -> bool {
        !(self is Float || self is Double || self is LongDouble)
    }

    /// Whether the type has a sign; every floating type has.
    pub open spec fn signed(self) -> bool {
        !(self is UnsignedChar || self is UnsignedShortInt || self is UnsignedInt
            || self is UnsignedLongInt)
    }

    /// The width of the type on the target of `settings`.
    pub open spec fn bits(self, settings: Settings) -> u32 {
        match self {
            Arithmetic::Char | Arithmetic::SignedChar | Arithmetic::UnsignedChar => 8,
            Arithmetic::SignedShortInt | Arithmetic::UnsignedShortInt => 16,
            Arithmetic::SignedInt | Arithmetic::UnsignedInt => match settings.target {
                Target::Avr => 16,
                _ => 32,
            },
            Arithmetic::SignedLongInt | Arithmetic::UnsignedLongInt => match settings.target {
                Target::X86_64 => 64,
                _ => 32,
            },
            Arithmetic::Float => 32,
            Arithmetic::Double => match settings.target {
                Target::Avr => 32,
                _ => 64,
            },
            Arithmetic::LongDouble => match settings.target {
                Target::X86_64 => 128,
                Target::X86 => 96,
                Target::Avr => 32,
            },
        }
    }

    /// The conversion rank of an integer type, and above every integer rank
    /// one rank for each floating type.
    pub open spec fn rank(self) -> int {
        match self {
            Arithmetic::Char | Arithmetic::SignedChar | Arithmetic::UnsignedChar => 1,
            Arithmetic::SignedShortInt | Arithmetic::UnsignedShortInt => 2,
            Arithmetic::SignedInt | Arithmetic::UnsignedInt => 3,
            Arithmetic::SignedLongInt | Arithmetic::UnsignedLongInt => 4,
            Arithmetic::Float => 5,
            Arithmetic::Double => 6,
            Arithmetic::LongDouble => 7,
        }
    }

    /// The unsigned type of the same rank as an integer type.
    pub open spec fn unsigned_of(self) -> Arithmetic {
        match self {
            Arithmetic::Char | Arithmetic::SignedChar => Arithmetic::UnsignedChar,
            Arithmetic::SignedShortInt => Arithmetic::UnsignedShortInt,
            Arithmetic::SignedInt => Arithmetic::UnsignedInt,
            Arithmetic::SignedLongInt => Arithmetic::UnsignedLongInt,
            _ => self,
        }
    }

    /// The type that an operand of this type widens to before arithmetic.
    /// An integer type below `int` becomes `int` where `int` holds all its
    /// values on the target, that is unless it is unsigned and as wide as
    /// `int`; it then becomes `unsigned int`. Every other type stays.
    pub open spec fn promoted(self, settings: Settings) -> Arithmetic {
        if self.integral() && self.rank() < Arithmetic::SignedInt.rank() {
            if self.signed() || self.bits(settings) < Arithmetic::SignedInt.bits(settings) {
                Arithmetic::SignedInt
            } else {
                Arithmetic::UnsignedInt
            }
        } else {
            self
        }
    }

    /// The type that a variadic argument of this type is passed as: the
    /// promoted type of an integer, `double` for a `float`.
    pub open spec fn default_promoted(self, settings: Settings) -> Arithmetic {
        if self.integral() {
            self.promoted(settings)
        } else if self is Float {
            Arithmetic::Double
        } else {
            self
        }
    }

    /// The common type of the operands of a binary operator: the floating
    /// type of higher rank where there is one; else, of the promoted
    /// operands, the one of higher rank where both are signed or both
    /// unsigned, the unsigned one where its rank is not lower, the signed one
    /// where it is wider than the unsigned one, and else the unsigned type of
    /// the signed one's rank.
    pub open spec fn common(self, other: Arithmetic, settings: Settings) -> Arithmetic {
        if !self.integral() || !other.integral() {
            if self.rank() >= other.rank() {
                self
            } else {
                other
            }
        } else {
            let a = self.promoted(settings);
            let b = other.promoted(settings);
            if a.signed() == b.signed() {
                if a.rank() >= b.rank() {
                    a
                } else {
                    b
                }
            } else {
                let s = if a.signed() {
                    a
                } else {
                    b
                };
                let u = if a.signed() {
                    b
                } else {
                    a
                };
                if u.rank() >= s.rank() {
                    u
                } else if s.bits(settings) > u.bits(settings) {
                    s
                } else {
                    s.unsigned_of()
                }
            }
        }
    }

    /// Whether the type is an integer type.
    pub fn is_integral(&self) -> (r: bool)
        ensures
            r == self.integral(),
    {
        match self {
            Arithmetic::Float | Arithmetic::Double | Arithmetic::LongDouble => false,
            _ => true,
        }
    }

    /// Whether the type is a floating type.
    pub fn is_floating(&self) -> (r: bool)
        ensures
            r == !self.integral(),
    {
        !self.is_integral()
    }

    /// Whether the type has a sign.
    pub fn is_signed(&self) -> (r: bool)
        ensures
            r == self.signed(),
    {
        match self {
            Arithmetic::UnsignedChar
            | Arithmetic::UnsignedShortInt
            | Arithmetic::UnsignedInt
            | Arithmetic::UnsignedLongInt => false,
            _ => true,
        }
    }

    /// The width of the type on the target of `settings`.
    pub fn size_in_bits(&self, settings: &Settings) -> (r: u32)
        ensures
            r == self.bits(*settings),
            8 <= r <= 128,
    {
        match self {
            Arithmetic::Char | Arithmetic::SignedChar | Arithmetic::UnsignedChar => 8,
            Arithmetic::SignedShortInt | Arithmetic::UnsignedShortInt => 16,
            Arithmetic::SignedInt | Arithmetic::UnsignedInt => match settings.target {
                Target::Avr => 16,
                _ => 32,
            },
            Arithmetic::SignedLongInt | Arithmetic::UnsignedLongInt => match settings.target {
                Target::X86_64 => 64,
                _ => 32,
            },
            Arithmetic::Float => 32,
            Arithmetic::Double => match settings.target {
                Target::Avr => 32,
                _ => 64,
            },
            Arithmetic::LongDouble => match settings.target {
                Target::X86_64 => 128,
                Target::X86 => 96,
                Target::Avr => 32,
            },
        }
    }

    fn conversion_rank(&self) -> (r: u8)
        ensures
            r == self.rank(),
    {
        match self {
            Arithmetic::Char | Arithmetic::SignedChar | Arithmetic::UnsignedChar => 1,
            Arithmetic::SignedShortInt | Arithmetic::UnsignedShortInt => 2,
            Arithmetic::SignedInt | Arithmetic::UnsignedInt => 3,
            Arithmetic::SignedLongInt | Arithmetic::UnsignedLongInt => 4,
            Arithmetic::Float => 5,
            Arithmetic::Double => 6,
            Arithmetic::LongDouble => 7,
        }
    }

    fn to_unsigned(&self) -> (r: Arithmetic)
        ensures
            r == self.unsigned_of(),
    {
        match self {
            Arithmetic::Char | Arithmetic::SignedChar => Arithmetic::UnsignedChar,
            Arithmetic::SignedShortInt => Arithmetic::UnsignedShortInt,
            Arithmetic::SignedInt => Arithmetic::UnsignedInt,
            Arithmetic::SignedLongInt => Arithmetic::UnsignedLongInt,
            _ => *self,
        }
    }

    /// The type that an operand of this type widens to before arithmetic.
    pub fn promote(&self, settings: &Settings) -> (r: Arithmetic)
        ensures
            r == self.promoted(*settings),
    {
        if self.is_integral() && self.conversion_rank() < 3 {
            if self.is_signed() || self.size_in_bits(settings) < Arithmetic::SignedInt.size_in_bits(
                settings,
            ) {
                Arithmetic::SignedInt
            } else {
                Arithmetic::UnsignedInt
            }
        } else {
            *self
        }
    }

    /// The type that a variadic argument of this type is passed as.
    pub fn default_promote(&self, settings: &Settings) -> (r: Arithmetic)
        ensures
            r == self.default_promoted(*settings),
    {
        if self.is_integral() {
            self.promote(settings)
        } else {
            match self {
                Arithmetic::Float => Arithmetic::Double,
                _ => *self,
            }
        }
    }

    /// The common type of two operands of a binary operator.
    pub fn usual_arithmetic_conversion(&self, other: &Arithmetic, settings: &Settings) -> (r:
        Arithmetic)
        ensures
            r == self.common(*other, *settings),
    {
        if !self.is_integral() || !other.is_integral() {
            if self.conversion_rank() >= other.conversion_rank() {
                *self
            } else {
                *other
            }
        } else {
            let a = self.promote(settings);
            let b = other.promote(settings);
            if a.is_signed() == b.is_signed() {
                if a.conversion_rank() >= b.conversion_rank() {
                    a
                } else {
                    b
                }
            } else {
                let s = if a.is_signed() {
                    a
                } else {
                    b
                };
                let u = if a.is_signed() {
                    b
                } else {
                    a
                };
                if u.conversion_rank() >= s.conversion_rank() {
                    u
                } else if s.size_in_bits(settings) > u.size_in_bits(settings) {
                    s
                } else {
                    s.to_unsigned()
                }
            }
        }
    }
}

/// A scalar type: arithmetic, or a pointer with the type it points to and
/// whether that is `const`.
#[derive(Debug, PartialEq, Eq)]
pub enum Scalar {
    Arithmetic(Arithmetic),
    Pointer(Box<CType>, bool),
}

/// A type of the intermediate representation. Two types are the same where
/// they are built alike.
#[derive(Debug, PartialEq, Eq)]
pub enum CType {
    Void,
    Scalar(Scalar),
}

/// The type that a type name of the syntax tree stands for.
pub open spec fn type_of(ty: UnqualifiedType) -> CType
    decreases ty,
{
    match ty {
        UnqualifiedType::PointerType(inner) => CType::Scalar(
            Scalar::Pointer(Box::new(type_of(inner.data.inner.data)), inner.data.is_const is Some),
        ),
        UnqualifiedType::PlainType(PlainType::Primitive(p)) => match p {
            PrimitiveType::Void => CType::Void,
            PrimitiveType::Char => CType::arithmetic(Arithmetic::Char),
            PrimitiveType::SignedChar => CType::arithmetic(Arithmetic::SignedChar),
            PrimitiveType::UnsignedChar => CType::arithmetic(Arithmetic::UnsignedChar),
            PrimitiveType::SignedShortInt => CType::arithmetic(Arithmetic::SignedShortInt),
            PrimitiveType::UnsignedShortInt => CType::arithmetic(Arithmetic::UnsignedShortInt),
            PrimitiveType::SignedInt => CType::arithmetic(Arithmetic::SignedInt),
            PrimitiveType::UnsignedInt => CType::arithmetic(Arithmetic::UnsignedInt),
            PrimitiveType::SignedLongInt => CType::arithmetic(Arithmetic::SignedLongInt),
            PrimitiveType::UnsignedLongInt => CType::arithmetic(Arithmetic::UnsignedLongInt),
            PrimitiveType::Float => CType::arithmetic(Arithmetic::Float),
            PrimitiveType::Double => CType::arithmetic(Arithmetic::Double),
            PrimitiveType::LongDouble => CType::arithmetic(Arithmetic::LongDouble),
        },
    }
}

impl CType {
    /// The arithmetic type `a` as a type.
    pub open spec fn arithmetic(a: Arithmetic) -> CType {
        CType::Scalar(Scalar::Arithmetic(a))
    }

    /// The arithmetic type that this type is, if it is one.
    pub open spec fn as_arithmetic(self) -> Option<Arithmetic> {
        match self {
            CType::Scalar(Scalar::Arithmetic(a)) => Some(a),
            _ => None,
        }
    }

    /// The arithmetic type `a` as a type.
    pub fn new_arithmetic(a: Arithmetic) -> (r: CType)
        ensures
            r == CType::arithmetic(a),
    {
        CType::Scalar(Scalar::Arithmetic(a))
    }

    /// The arithmetic type that this type is, if it is one.
    pub fn get_arithmetic(&self) -> (r: Option<Arithmetic>)
        ensures
            r == self.as_arithmetic(),
    {
        match self {
            CType::Scalar(Scalar::Arithmetic(a)) => Some(*a),
            _ => None,
        }
    }

    /// Whether two types are the same.
    pub fn same(&self, other: &CType) -> (r: bool)
        ensures
            r == (*self == *other),
        decreases self,
    {
        match (self, other) {
            (CType::Void, CType::Void) => true,
            (CType::Scalar(Scalar::Arithmetic(a)), CType::Scalar(Scalar::Arithmetic(b))) => *a
                == *b,
            (
                CType::Scalar(Scalar::Pointer(a, a_const)),
                CType::Scalar(Scalar::Pointer(b, b_const)),
            ) => *a_const == *b_const && a.same(b),
            _ => false,
        }
    }

    /// A copy of the type.
    pub fn duplicate(&self) -> (r: CType)
        ensures
            r == *self,
        decreases self,
    {
        match self {
            CType::Void => CType::Void,
            CType::Scalar(Scalar::Arithmetic(a)) => CType::Scalar(Scalar::Arithmetic(*a)),
            CType::Scalar(Scalar::Pointer(inner, inner_const)) => CType::Scalar(
                Scalar::Pointer(Box::new(inner.duplicate()), *inner_const),
            ),
        }
    }

    /// The type that a type name of the syntax tree stands for.
    pub fn from_ast_type(ty: &UnqualifiedType) -> (r: CType)
        ensures
            r == type_of(*ty),
        decreases ty,
    {
        match ty {
            UnqualifiedType::PointerType(inner) => CType::Scalar(
                Scalar::Pointer(
                    Box::new(CType::from_ast_type(&inner.data.inner.data)),
                    inner.data.is_const.is_some(),
                ),
            ),
            UnqualifiedType::PlainType(PlainType::Primitive(p)) => match p {
                PrimitiveType::Void => CType::Void,
                PrimitiveType::Char => CType::new_arithmetic(Arithmetic::Char),
                PrimitiveType::SignedChar => CType::new_arithmetic(Arithmetic::SignedChar),
                PrimitiveType::UnsignedChar => CType::new_arithmetic(Arithmetic::UnsignedChar),
                PrimitiveType::SignedShortInt => CType::new_arithmetic(Arithmetic::SignedShortInt),
                PrimitiveType::UnsignedShortInt => CType::new_arithmetic(
                    Arithmetic::UnsignedShortInt,
                ),
                PrimitiveType::SignedInt => CType::new_arithmetic(Arithmetic::SignedInt),
                PrimitiveType::UnsignedInt => CType::new_arithmetic(Arithmetic::UnsignedInt),
                PrimitiveType::SignedLongInt => CType::new_arithmetic(Arithmetic::SignedLongInt),
                PrimitiveType::UnsignedLongInt => CType::new_arithmetic(
                    Arithmetic::UnsignedLongInt,
                ),
                PrimitiveType::Float => CType::new_arithmetic(Arithmetic::Float),
                PrimitiveType::Double => CType::new_arithmetic(Arithmetic::Double),
                PrimitiveType::LongDouble => CType::new_arithmetic(Arithmetic::LongDouble),
            },
        }
    }
}

impl Clone for CType {
    fn clone(&self) -> (r: Self)
        ensures
            r == *self,
    {
        self.duplicate()
    }
}

/// Default promotion: an integer type below `int` is passed as `int`, or as
/// `unsigned int` where `int` does not hold it; a `float` is passed as
/// `double`; every other type is passed as it is, and what a type is passed
/// as is passed as itself.
pub proof fn lemma_default_promotion(a: Arithmetic, settings: Settings)
    ensures
        a.integral() && a.rank() < Arithmetic::SignedInt.rank() ==> (a.default_promoted(settings)
            is SignedInt || a.default_promoted(settings) is UnsignedInt),
        a is Char || a is SignedChar || a is SignedShortInt ==> a.default_promoted(settings)
            is SignedInt,
        a is Float ==> a.default_promoted(settings) is Double,
        !(a is Float) && !(a.integral() && a.rank() < Arithmetic::SignedInt.rank())
            ==> a.default_promoted(settings) == a,
        a.default_promoted(settings).default_promoted(settings) == a.default_promoted(settings),
{
}

} // verus!
