//! The values that live in local variables, on operand stacks and in the heap.

use vstd::prelude::*;

verus! {

/// A typed slot value.
///
/// `Float` and `Double` hold the IEEE 754 bit pattern of the number
/// (binary32 and binary64), so that a value is plain data and can be compared
/// and negated exactly. `Ref(0)` is the null reference.
#[derive(Debug, Clone, Copy)]
pub enum JTypeValue {
    Int(i32),
    Long(i64),
    Float(u32),
    Double(u64),
    Ref(usize),
    RetAddr(u32),
    /// Padding for the second slot of a `Long` or `Double` local variable.
    Empty,
}

/// A floating-point addition that is left to the host: the two operands, in
/// the order in which they are added, as bit patterns.
#[derive(Debug, Clone, Copy)]
pub enum FloatSum {
    Single(u32, u32),
    Double(u64, u64),
}

/// What adding two values of one arithmetic tag gives.
#[derive(Debug, Clone, Copy)]
pub enum Sum {
    /// The wrapped sum of two integers of one width.
    Value(JTypeValue),
    /// The operands are floating-point numbers: the addition has to be carried
    /// out by the host.
    Deferred(FloatSum),
}

/// The null reference.
pub open spec fn null() -> JTypeValue {
    JTypeValue::Ref(0)
}

/// The null reference.
#[verifier::when_used_as_spec(null)]
pub fn null_ref() -> (r: JTypeValue)
    ensures
        r == null(),
{
    JTypeValue::Ref(0)
}

/// The 32-bit two's complement value of `x`, for `x` within one wrap of the range.
pub open spec fn wrap_i32(x: int) -> i32 {
    if x > i32::MAX {
        (x - 0x1_0000_0000) as i32
    } else if x < i32::MIN {
        (x + 0x1_0000_0000) as i32
    } else {
        x as i32
    }
}

/// The 64-bit two's complement value of `x`, for `x` within one wrap of the range.
pub open spec fn wrap_i64(x: int) -> i64 {
    if x > i64::MAX {
        (x - 0x1_0000_0000_0000_0000) as i64
    } else if x < i64::MIN {
        (x + 0x1_0000_0000_0000_0000) as i64
    } else {
        x as i64
    }
}

/// The bit pattern with the sign bit flipped: the negation of a binary32 number.
pub open spec fn single_negated(bits: u32) -> u32 {
    if bits >= 0x8000_0000 {
        (bits - 0x8000_0000) as u32
    } else {
        (bits + 0x8000_0000) as u32
    }
}

/// The bit pattern with the sign bit flipped: the negation of a binary64 number.
pub open spec fn double_negated(bits: u64) -> u64 {
    if bits >= 0x8000_0000_0000_0000 {
        (bits - 0x8000_0000_0000_0000) as u64
    } else {
        (bits + 0x8000_0000_0000_0000) as u64
    }
}

/// A binary32 pattern is a NaN when its exponent is all ones and its fraction is not zero.
pub open spec fn single_is_nan(bits: u32) -> bool {
    bits % 0x8000_0000 > 0x7F80_0000
}

/// A binary64 pattern is a NaN when its exponent is all ones and its fraction is not zero.
pub open spec fn double_is_nan(bits: u64) -> bool {
    bits % 0x8000_0000_0000_0000 > 0x7FF0_0000_0000_0000
}

/// IEEE 754 equality of two binary32 patterns: a NaN equals nothing, the two
/// zeros equal each other, and any other number equals only itself.
pub open spec fn single_equal(a: u32, b: u32) -> bool {
    &&& !single_is_nan(a)
    &&& !single_is_nan(b)
    &&& (a == b || (a % 0x8000_0000 == 0 && b % 0x8000_0000 == 0))
}

/// IEEE 754 equality of two binary64 patterns.
pub open spec fn double_equal(a: u64, b: u64) -> bool {
    &&& !double_is_nan(a)
    &&& !double_is_nan(b)
    &&& (a == b || (a % 0x8000_0000_0000_0000 == 0 && b % 0x8000_0000_0000_0000 == 0))
}

impl JTypeValue {
    /// A `Long` or a `Double`: a value that takes two local-variable slots.
    pub open spec fn is_wide(self) -> bool {
        self is Long || self is Double
    }

    /// Both values carry the same one of the four arithmetic tags.
    pub open spec fn same_arithmetic_tag(self, rhs: Self) -> bool {
        match (self, rhs) {
            (JTypeValue::Int(_), JTypeValue::Int(_)) => true,
            (JTypeValue::Long(_), JTypeValue::Long(_)) => true,
            (JTypeValue::Float(_), JTypeValue::Float(_)) => true,
            (JTypeValue::Double(_), JTypeValue::Double(_)) => true,
            _ => false,
        }
    }

    /// The value carries one of the four arithmetic tags.
    pub open spec fn is_arithmetic(self) -> bool {
        self is Int || self is Long || self is Float || self is Double
    }

    /// Both values carry the same tag, and it is one on which equality is defined.
    pub open spec fn comparable(self, other: Self) -> bool {
        self.same_arithmetic_tag(other) || (self is Ref && other is Ref)
    }

    /// What `add` returns on two values of one arithmetic tag.
    pub open spec fn add_spec(self, rhs: Self) -> Sum
        recommends
            self.same_arithmetic_tag(rhs),
    {
        match (self, rhs) {
            (JTypeValue::Int(a), JTypeValue::Int(b)) => Sum::Value(
                JTypeValue::Int(wrap_i32(a + b)),
            ),
            (JTypeValue::Long(a), JTypeValue::Long(b)) => Sum::Value(
                JTypeValue::Long(wrap_i64(a + b)),
            ),
            (JTypeValue::Float(a), JTypeValue::Float(b)) => Sum::Deferred(FloatSum::Single(a, b)),
            (JTypeValue::Double(a), JTypeValue::Double(b)) => Sum::Deferred(FloatSum::Double(a, b)),
            _ => Sum::Value(JTypeValue::Empty),
        }
    }

    /// What `neg` returns on an arithmetic value.
    pub open spec fn neg_spec(self) -> JTypeValue
        recommends
            self.is_arithmetic(),
    {
        match self {
            JTypeValue::Int(a) => JTypeValue::Int(wrap_i32(-a)),
            JTypeValue::Long(a) => JTypeValue::Long(wrap_i64(-a)),
            JTypeValue::Float(a) => JTypeValue::Float(single_negated(a)),
            JTypeValue::Double(a) => JTypeValue::Double(double_negated(a)),
            _ => JTypeValue::Empty,
        }
    }

    /// What `eq` returns on two comparable values.
    pub open spec fn eq_spec(self, other: Self) -> bool
        recommends
            self.comparable(other),
    {
        match (self, other) {
            (JTypeValue::Int(a), JTypeValue::Int(b)) => a == b,
            (JTypeValue::Long(a), JTypeValue::Long(b)) => a == b,
            (JTypeValue::Float(a), JTypeValue::Float(b)) => single_equal(a, b),
            (JTypeValue::Double(a), JTypeValue::Double(b)) => double_equal(a, b),
            (JTypeValue::Ref(a), JTypeValue::Ref(b)) => a == b,
            _ => false,
        }
    }

    /// Wraps an `i32` as an `Int`.
    pub fn from(x: i32) -> (v: Self)
        ensures
            v == JTypeValue::Int(x),
    {
        JTypeValue::Int(x)
    }

    /// Whether the value takes two local-variable slots.
    pub fn takes_two_slots(&self) -> (r: bool)
        ensures
            r == self.is_wide(),
    {
        match self {
            JTypeValue::Long(_) | JTypeValue::Double(_) => true,
            _ => false,
        }
    }

    /// Whether `neg` is defined on the value.
    pub fn can_negate(&self) -> (r: bool)
        ensures
            r == self.is_arithmetic(),
    {
        match self {
            JTypeValue::Int(_) | JTypeValue::Long(_) | JTypeValue::Float(_) | JTypeValue::Double(
                _,
            ) => true,
            _ => false,
        }
    }

    /// Whether `add` is defined on the two values.
    pub fn can_add(&self, rhs: &Self) -> (r: bool)
        ensures
            r == self.same_arithmetic_tag(*rhs),
    {
        match (self, rhs) {
            (JTypeValue::Int(_), JTypeValue::Int(_)) => true,
            (JTypeValue::Long(_), JTypeValue::Long(_)) => true,
            (JTypeValue::Float(_), JTypeValue::Float(_)) => true,
            (JTypeValue::Double(_), JTypeValue::Double(_)) => true,
            _ => false,
        }
    }

    /// Whether `eq` is defined on the two values.
    pub fn can_compare(&self, other: &Self) -> (r: bool)
        ensures
            r == self.comparable(*other),
    {
        match (self, other) {
            (JTypeValue::Ref(_), JTypeValue::Ref(_)) => true,
            _ => self.can_add(other),
        }
    }

    /// Adds two values of one arithmetic tag. Integers wrap on overflow; for
    /// floating-point numbers the operands are handed back as the addition to
    /// carry out.
    pub fn add(self, rhs: Self) -> (r: Sum)
        requires
            self.same_arithmetic_tag(rhs),
        ensures
            r == self.add_spec(rhs),
    {
        match (self, rhs) {
            (JTypeValue::Int(a), JTypeValue::Int(b)) => Sum::Value(
                JTypeValue::Int(a.wrapping_add(b)),
            ),
            (JTypeValue::Long(a), JTypeValue::Long(b)) => Sum::Value(
                JTypeValue::Long(a.wrapping_add(b)),
            ),
            (JTypeValue::Float(a), JTypeValue::Float(b)) => Sum::Deferred(FloatSum::Single(a, b)),
            (JTypeValue::Double(a), JTypeValue::Double(b)) => Sum::Deferred(FloatSum::Double(a, b)),
            _ => Sum::Value(JTypeValue::Empty),
        }
    }

    /// Negates an arithmetic value. Integers wrap (the least value is its own
    /// negation); a floating-point number has its sign bit flipped.
    pub fn neg(self) -> (r: JTypeValue)
        requires
            self.is_arithmetic(),
        ensures
            r == self.neg_spec(),
    {
        match self {
            JTypeValue::Int(a) => JTypeValue::Int(0i32.wrapping_sub(a)),
            JTypeValue::Long(a) => JTypeValue::Long(0i64.wrapping_sub(a)),
            JTypeValue::Float(a) => JTypeValue::Float(
                if a >= 0x8000_0000 {
                    a - 0x8000_0000
                } else {
                    a + 0x8000_0000
                },
            ),
            JTypeValue::Double(a) => JTypeValue::Double(
                if a >= 0x8000_0000_0000_0000 {
                    a - 0x8000_0000_0000_0000
                } else {
                    a + 0x8000_0000_0000_0000
                },
            ),
            _ => JTypeValue::Empty,
        }
    }

    /// Compares two values of one tag. Integers and references are equal when
    /// their numbers are; floating-point numbers by IEEE 754 equality.
    pub fn eq(&self, other: &Self) -> (r: bool)
        requires
            self.comparable(*other),
        ensures
            r == self.eq_spec(*other),
    {
        match (self, other) {
            (JTypeValue::Int(a), JTypeValue::Int(b)) => *a == *b,
            (JTypeValue::Long(a), JTypeValue::Long(b)) => *a == *b,
            (JTypeValue::Float(a), JTypeValue::Float(b)) => {
                let x: u32 = *a % 0x8000_0000;
                let y: u32 = *b % 0x8000_0000;
                x <= 0x7F80_0000 && y <= 0x7F80_0000 && (*a == *b || (x == 0 && y == 0))
            },
            (JTypeValue::Double(a), JTypeValue::Double(b)) => {
                let x: u64 = *a % 0x8000_0000_0000_0000;
                let y: u64 = *b % 0x8000_0000_0000_0000;
                x <= 0x7FF0_0000_0000_0000 && y <= 0x7FF0_0000_0000_0000 && (*a == *b || (x == 0
                    && y == 0))
            },
            (JTypeValue::Ref(a), JTypeValue::Ref(b)) => *a == *b,
            _ => false,
        }
    }
}

} // verus!
