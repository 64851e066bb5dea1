//! Literal operands and the rules by which they combine.

use vstd::prelude::*;
use vstd::utf8::encode_utf8;
use vstd::std_specs::cmp::PartialEqSpecImpl;
use vstd::std_specs::convert::FromSpecImpl;
use crate::error::VmError;
use crate::token::instruction::Instruction;

verus! {

/// A literal value. A float is held by its IEEE 754 binary64 bit pattern.
#[derive(Debug)]
pub enum Operand {
    Null,
    Int(i64),
    Float(u64),
    Str(String),
    Bool(bool),
}

/// The mathematical value of an [`Operand`].
pub enum OperandView {
    Null,
    Int(i64),
    Float(u64),
    Str(Seq<char>),
    Bool(bool),
}

impl View for Operand {
    type V = OperandView;

    open spec fn view(&self) -> OperandView {
        match *self {
            Operand::Null => OperandView::Null,
            Operand::Int(v) => OperandView::Int(v),
            Operand::Float(v) => OperandView::Float(v),
            Operand::Str(s) => OperandView::Str(s@),
            Operand::Bool(v) => OperandView::Bool(v),
        }
    }
}

impl Clone for Operand {
    fn clone(&self) -> (r: Self)
        ensures
            r@ == self@,
    {
        match self {
            Operand::Null => Operand::Null,
            Operand::Int(v) => Operand::Int(*v),
            Operand::Float(v) => Operand::Float(*v),
            Operand::Str(s) => Operand::Str(s.clone()),
            Operand::Bool(v) => Operand::Bool(*v),
        }
    }
}

/// The bit that carries the sign of a binary64 number.
pub const SIGN_BIT: u64 = 0x8000_0000_0000_0000;

/// The bit pattern of positive infinity: every larger magnitude is a NaN.
pub const INFINITY_BITS: u64 = 0x7ff0_0000_0000_0000;

/// The bit pattern without its sign.
pub open spec fn magnitude(bits: u64) -> int {
    if bits >= SIGN_BIT {
        bits - SIGN_BIT
    } else {
        bits as int
    }
}

/// Whether the bit pattern is not a number.
pub open spec fn is_nan(bits: u64) -> bool {
    magnitude(bits) > INFINITY_BITS
}

/// The place of a number on the line of binary64 values: the magnitude,
/// negated where the sign bit is set. Both zeros have rank 0, and for
/// numbers the order of the ranks is the order of the values.
pub open spec fn rank(bits: u64) -> int {
    if bits >= SIGN_BIT {
        -magnitude(bits)
    } else {
        magnitude(bits)
    }
}

/// Equality of binary64 numbers: a NaN equals nothing, and the two zeros
/// are equal.
pub open spec fn float_eq(a: u64, b: u64) -> bool {
    !is_nan(a) && !is_nan(b) && rank(a) == rank(b)
}

/// The strict order of binary64 numbers; a NaN is neither above nor below
/// anything.
pub open spec fn float_gt(a: u64, b: u64) -> bool {
    !is_nan(a) && !is_nan(b) && rank(a) > rank(b)
}

/// The rank of a bit pattern that is a number, `None` for a NaN.
pub fn float_rank(bits: u64) -> (r: Option<i64>)
    ensures
        match r {
            Some(v) => !is_nan(bits) && v == rank(bits),
            None => is_nan(bits),
        },
{
    if bits >= SIGN_BIT {
        let m: u64 = bits - SIGN_BIT;
        if m > INFINITY_BITS {
            None
        } else {
            Some(-(m as i64))
        }
    } else if bits > INFINITY_BITS {
        None
    } else {
        Some(bits as i64)
    }
}

/// The strict lexicographic order of byte strings: the first byte that
/// differs decides, and a proper prefix comes before what it is a prefix of.
pub open spec fn lex_gt(a: Seq<u8>, b: Seq<u8>) -> bool
    decreases a.len(),
{
    if a.len() == 0 {
        false
    } else if b.len() == 0 {
        true
    } else if a[0] != b[0] {
        a[0] > b[0]
    } else {
        lex_gt(a.skip(1), b.skip(1))
    }
}

/// The strict order of texts: that of their UTF-8 encodings, byte by byte.
pub open spec fn text_gt(a: Seq<char>, b: Seq<char>) -> bool {
    lex_gt(encode_utf8(a), encode_utf8(b))
}

/// Decides [`lex_gt`] on two byte slices.
pub fn bytes_gt(a: &[u8], b: &[u8]) -> (r: bool)
    ensures
        r == lex_gt(a@, b@),
{
    let mut i: usize = 0;
    proof {
        assert(a@.skip(0) =~= a@);
        assert(b@.skip(0) =~= b@);
    }
    loop
        invariant
            i <= a.len(),
            i <= b.len(),
            lex_gt(a@, b@) == lex_gt(a@.skip(i as int), b@.skip(i as int)),
        decreases a.len() - i,
    {
        if i == a.len() {
            return false;
        }
        if i == b.len() {
            return true;
        }
        if a[i] != b[i] {
            return a[i] > b[i];
        }
        proof {
            assert(a@.skip(i as int).skip(1) =~= a@.skip(i + 1));
            assert(b@.skip(i as int).skip(1) =~= b@.skip(i + 1));
        }
        i = i + 1;
    }
}

/// A number on its way to the float unit.
#[derive(Debug, PartialEq, Eq, Clone, Copy, Structural)]
pub enum Scalar {
    Int(i64),
    Float(u64),
}

/// An arithmetic operation with a float among its operands. The engine does
/// no float arithmetic of its own: it hands the operation out, and whoever
/// drives the engine hands back the bit pattern of the result.
#[derive(Debug, PartialEq, Eq, Clone, Copy, Structural)]
pub struct FloatRequest {
    /// `Add`, `Sub`, `Mul` or `Div`.
    pub op: Instruction,
    /// The left operand; an integer is to be promoted to a float.
    pub lhs: Scalar,
    /// The right operand; an integer is to be promoted to a float.
    pub rhs: Scalar,
}

/// What an arithmetic operation comes to.
#[derive(Debug)]
pub enum Outcome {
    /// The result.
    Ready(Operand),
    /// The operation is left to the float unit.
    Deferred(FloatRequest),
}

/// The mathematical value of an [`Outcome`].
pub enum OutcomeView {
    Ready(OperandView),
    Deferred(FloatRequest),
}

impl View for Outcome {
    type V = OutcomeView;

    open spec fn view(&self) -> OutcomeView {
        match *self {
            Outcome::Ready(v) => OutcomeView::Ready(v@),
            Outcome::Deferred(q) => OutcomeView::Deferred(q),
        }
    }
}

/// The quotient of two integers, rounded toward zero.
pub open spec fn quotient(a: int, b: int) -> int
    recommends
        b != 0,
{
    let n = if a < 0 { -a } else { a };
    let d = if b < 0 { -b } else { b };
    if (a < 0) == (b < 0) {
        n / d
    } else {
        -(n / d)
    }
}

/// The exact result of an arithmetic opcode on two integers.
pub open spec fn exact(op: Instruction, a: int, b: int) -> int
    recommends
        op.is_arithmetic(),
{
    match op {
        Instruction::Add => a + b,
        Instruction::Sub => a - b,
        Instruction::Mul => a * b,
        _ => quotient(a, b),
    }
}

/// Integer arithmetic: the exact result where it fits in 64 bits. Division
/// by zero and results out of range are errors.
pub open spec fn int_arith(op: Instruction, a: i64, b: i64) -> Result<i64, VmError>
    recommends
        op.is_arithmetic(),
{
    if op is Div && b == 0 {
        Err(VmError::DivisionByZero)
    } else if i64::MIN <= exact(op, a as int, b as int) <= i64::MAX {
        Ok(exact(op, a as int, b as int) as i64)
    } else {
        Err(VmError::ArithmeticOverflow)
    }
}

/// The rule of the four arithmetic opcodes. Two integers give an integer.
/// A float with a float or an integer is left to the float unit, operands in
/// order. Two texts can be added, which joins them, left before right.
/// Every other pair is a type mismatch.
pub open spec fn arith_spec(op: Instruction, l: OperandView, r: OperandView) -> Result<
    OutcomeView,
    VmError,
>
    recommends
        op.is_arithmetic(),
{
    match (l, r) {
        (OperandView::Int(a), OperandView::Int(b)) => match int_arith(op, a, b) {
            Ok(v) => Ok(OutcomeView::Ready(OperandView::Int(v))),
            Err(e) => Err(e),
        },
        (OperandView::Int(a), OperandView::Float(b)) => Ok(
            OutcomeView::Deferred(
                FloatRequest { op, lhs: Scalar::Int(a), rhs: Scalar::Float(b) },
            ),
        ),
        (OperandView::Float(a), OperandView::Int(b)) => Ok(
            OutcomeView::Deferred(
                FloatRequest { op, lhs: Scalar::Float(a), rhs: Scalar::Int(b) },
            ),
        ),
        (OperandView::Float(a), OperandView::Float(b)) => Ok(
            OutcomeView::Deferred(
                FloatRequest { op, lhs: Scalar::Float(a), rhs: Scalar::Float(b) },
            ),
        ),
        (OperandView::Str(a), OperandView::Str(b)) => if op is Add {
            Ok(OutcomeView::Ready(OperandView::Str(a + b)))
        } else {
            Err(VmError::TypeMismatch)
        },
        _ => Err(VmError::TypeMismatch),
    }
}

/// The rule of `And` and `Or`: defined on two booleans only.
pub open spec fn logic_spec(op: Instruction, l: OperandView, r: OperandView) -> Result<
    OperandView,
    VmError,
>
    recommends
        op is And || op is Or,
{
    match (l, r) {
        (OperandView::Bool(a), OperandView::Bool(b)) => Ok(
            OperandView::Bool(
                if op is And {
                    a && b
                } else {
                    a || b
                },
            ),
        ),
        _ => Err(VmError::TypeMismatch),
    }
}

/// Equality of operands: operands of one type are equal when they hold the
/// same value, floats by [`float_eq`]; operands of different types never are.
pub open spec fn equal_spec(l: OperandView, r: OperandView) -> bool {
    match (l, r) {
        (OperandView::Null, OperandView::Null) => true,
        (OperandView::Int(a), OperandView::Int(b)) => a == b,
        (OperandView::Float(a), OperandView::Float(b)) => float_eq(a, b),
        (OperandView::Str(a), OperandView::Str(b)) => a == b,
        (OperandView::Bool(a), OperandView::Bool(b)) => a == b,
        _ => false,
    }
}

/// Whether the left operand is above the right. Only two integers, two
/// floats or two texts can be ordered.
pub open spec fn gt_spec(l: OperandView, r: OperandView) -> Result<bool, VmError> {
    match (l, r) {
        (OperandView::Int(a), OperandView::Int(b)) => Ok(a > b),
        (OperandView::Float(a), OperandView::Float(b)) => Ok(float_gt(a, b)),
        (OperandView::Str(a), OperandView::Str(b)) => Ok(text_gt(a, b)),
        _ => Err(VmError::TypeMismatch),
    }
}

/// Whether the left operand is above or equal to the right.
pub open spec fn ge_spec(l: OperandView, r: OperandView) -> Result<bool, VmError> {
    match (l, r) {
        (OperandView::Int(a), OperandView::Int(b)) => Ok(a >= b),
        (OperandView::Float(a), OperandView::Float(b)) => Ok(float_gt(a, b) || float_eq(a, b)),
        (OperandView::Str(a), OperandView::Str(b)) => Ok(text_gt(a, b) || a == b),
        _ => Err(VmError::TypeMismatch),
    }
}

/// The index that an operand names: a non-negative integer that fits.
pub open spec fn index_spec(v: OperandView) -> Result<usize, VmError> {
    match v {
        OperandView::Int(i) => if 0 <= i <= usize::MAX {
            Ok(i as usize)
        } else {
            Err(VmError::TypeMismatch)
        },
        _ => Err(VmError::TypeMismatch),
    }
}

/// The request that a pair of numbers with a float among them gives rise
/// to; `None` for every other pair.
pub open spec fn float_request_spec(op: Instruction, l: OperandView, r: OperandView) -> Option<
    FloatRequest,
> {
    match arith_spec(op, l, r) {
        Ok(OutcomeView::Deferred(q)) => Some(q),
        _ => None,
    }
}

/// The rule of addition in place: that of `Add`, without the pairs of an
/// integer and a float.
pub open spec fn add_assign_spec(l: OperandView, r: OperandView) -> Result<OutcomeView, VmError> {
    if (l is Int && r is Float) || (l is Float && r is Int) {
        Err(VmError::TypeMismatch)
    } else {
        arith_spec(Instruction::Add, l, r)
    }
}

impl Operand {
    /// Hands a pair of numbers with a float among them to the float unit.
    fn float_request(op: Instruction, l: &Operand, r: &Operand) -> (q: Option<FloatRequest>)
        ensures
            q == float_request_spec(op, l@, r@),
    {
        match (l, r) {
            (Operand::Float(a), Operand::Float(b)) => Some(
                FloatRequest { op, lhs: Scalar::Float(*a), rhs: Scalar::Float(*b) },
            ),
            (Operand::Float(a), Operand::Int(b)) => Some(
                FloatRequest { op, lhs: Scalar::Float(*a), rhs: Scalar::Int(*b) },
            ),
            (Operand::Int(a), Operand::Float(b)) => Some(
                FloatRequest { op, lhs: Scalar::Int(*a), rhs: Scalar::Float(*b) },
            ),
            _ => None,
        }
    }

    /// The sum of two numbers, or two texts joined.
    pub fn add(&self, rhs: &Operand) -> (r: Result<Outcome, VmError>)
        ensures
            match r {
                Ok(o) => arith_spec(Instruction::Add, self@, rhs@) == Ok::<OutcomeView, VmError>(o@),
                Err(e) => arith_spec(Instruction::Add, self@, rhs@) == Err::<OutcomeView, VmError>(
                    e,
                ),
            },
    {
        match (self, rhs) {
            (Operand::Int(l), Operand::Int(r)) => match l.checked_add(*r) {
                Some(v) => Ok(Outcome::Ready(Operand::Int(v))),
                None => Err(VmError::ArithmeticOverflow),
            },
            (Operand::Str(l), Operand::Str(r)) => {
                let mut joined = l.clone();
                joined.append(r.as_str());
                Ok(Outcome::Ready(Operand::Str(joined)))
            },
            _ => match Operand::float_request(Instruction::Add, self, rhs) {
                Some(q) => Ok(Outcome::Deferred(q)),
                None => Err(VmError::TypeMismatch),
            },
        }
    }

    /// The product of two numbers.
    pub fn mul(&self, rhs: &Operand) -> (r: Result<Outcome, VmError>)
        ensures
            match r {
                Ok(o) => arith_spec(Instruction::Mul, self@, rhs@) == Ok::<OutcomeView, VmError>(o@),
                Err(e) => arith_spec(Instruction::Mul, self@, rhs@) == Err::<OutcomeView, VmError>(
                    e,
                ),
            },
    {
        match (self, rhs) {
            (Operand::Int(l), Operand::Int(r)) => match l.checked_mul(*r) {
                Some(v) => Ok(Outcome::Ready(Operand::Int(v))),
                None => Err(VmError::ArithmeticOverflow),
            },
            _ => match Operand::float_request(Instruction::Mul, self, rhs) {
                Some(q) => Ok(Outcome::Deferred(q)),
                None => Err(VmError::TypeMismatch),
            },
        }
    }

    /// The quotient of two numbers; that of two integers is rounded toward
    /// zero.
    pub fn div(&self, rhs: &Operand) -> (r: Result<Outcome, VmError>)
        ensures
            match r {
                Ok(o) => arith_spec(Instruction::Div, self@, rhs@) == Ok::<OutcomeView, VmError>(o@),
                Err(e) => arith_spec(Instruction::Div, self@, rhs@) == Err::<OutcomeView, VmError>(
                    e,
                ),
            },
    {
        match (self, rhs) {
            (Operand::Int(l), Operand::Int(r)) => {
                if *r == 0 {
                    Err(VmError::DivisionByZero)
                } else {
                    match l.checked_div(*r) {
                        Some(v) => Ok(Outcome::Ready(Operand::Int(v))),
                        None => Err(VmError::ArithmeticOverflow),
                    }
                }
            },
            _ => match Operand::float_request(Instruction::Div, self, rhs) {
                Some(q) => Ok(Outcome::Deferred(q)),
                None => Err(VmError::TypeMismatch),
            },
        }
    }

    /// The difference of two numbers.
    pub fn sub(&self, rhs: &Operand) -> (r: Result<Outcome, VmError>)
        ensures
            match r {
                Ok(o) => arith_spec(Instruction::Sub, self@, rhs@) == Ok::<OutcomeView, VmError>(o@),
                Err(e) => arith_spec(Instruction::Sub, self@, rhs@) == Err::<OutcomeView, VmError>(
                    e,
                ),
            },
    {
        match (self, rhs) {
            (Operand::Int(l), Operand::Int(r)) => match l.checked_sub(*r) {
                Some(v) => Ok(Outcome::Ready(Operand::Int(v))),
                None => Err(VmError::ArithmeticOverflow),
            },
            _ => match Operand::float_request(Instruction::Sub, self, rhs) {
                Some(q) => Ok(Outcome::Deferred(q)),
                None => Err(VmError::TypeMismatch),
            },
        }
    }

    /// The conjunction of two booleans.
    pub fn bitand(&self, rhs: &Operand) -> (r: Result<Operand, VmError>)
        ensures
            match r {
                Ok(v) => logic_spec(Instruction::And, self@, rhs@) == Ok::<OperandView, VmError>(v@),
                Err(e) => logic_spec(Instruction::And, self@, rhs@) == Err::<OperandView, VmError>(
                    e,
                ),
            },
    {
        match (self, rhs) {
            (Operand::Bool(l), Operand::Bool(r)) => Ok(Operand::Bool(*l && *r)),
            _ => Err(VmError::TypeMismatch),
        }
    }

    /// The disjunction of two booleans.
    pub fn bitor(&self, rhs: &Operand) -> (r: Result<Operand, VmError>)
        ensures
            match r {
                Ok(v) => logic_spec(Instruction::Or, self@, rhs@) == Ok::<OperandView, VmError>(v@),
                Err(e) => logic_spec(Instruction::Or, self@, rhs@) == Err::<OperandView, VmError>(
                    e,
                ),
            },
    {
        match (self, rhs) {
            (Operand::Bool(l), Operand::Bool(r)) => Ok(Operand::Bool(*l || *r)),
            _ => Err(VmError::TypeMismatch),
        }
    }

    /// Whether `self` is above `rhs`.
    pub fn gt(&self, rhs: &Operand) -> (r: Result<bool, VmError>)
        ensures
            r == gt_spec(self@, rhs@),
    {
        match (self, rhs) {
            (Operand::Int(l), Operand::Int(r)) => Ok(*l > *r),
            (Operand::Float(l), Operand::Float(r)) => match (float_rank(*l), float_rank(*r)) {
                (Some(a), Some(b)) => Ok(a > b),
                _ => Ok(false),
            },
            (Operand::Str(l), Operand::Str(r)) => Ok(
                bytes_gt(l.as_str().as_bytes(), r.as_str().as_bytes()),
            ),
            _ => Err(VmError::TypeMismatch),
        }
    }

    /// Whether `self` is above or equal to `rhs`.
    pub fn ge(&self, rhs: &Operand) -> (r: Result<bool, VmError>)
        ensures
            r == ge_spec(self@, rhs@),
    {
        match (self, rhs) {
            (Operand::Int(l), Operand::Int(r)) => Ok(*l >= *r),
            (Operand::Float(l), Operand::Float(r)) => match (float_rank(*l), float_rank(*r)) {
                (Some(a), Some(b)) => Ok(a >= b),
                _ => Ok(false),
            },
            (Operand::Str(l), Operand::Str(r)) => Ok(
                bytes_gt(l.as_str().as_bytes(), r.as_str().as_bytes()) || *l == *r,
            ),
            _ => Err(VmError::TypeMismatch),
        }
    }

    /// Adds `rhs` to `self` in place. The sum has the type of both operands:
    /// two integers or two texts are added where they stand; two floats are
    /// left to the float unit, and `self` keeps its value until the caller
    /// stores the result. Every other pair is a type mismatch, and so is a
    /// pair of an integer and a float, whose sum would change the type.
    pub fn add_assign(&mut self, rhs: &Operand) -> (r: Result<Option<FloatRequest>, VmError>)
        ensures
            match add_assign_spec(old(self)@, rhs@) {
                Ok(OutcomeView::Ready(v)) => r == Ok::<Option<FloatRequest>, VmError>(None)
                    && final(self)@ == v,
                Ok(OutcomeView::Deferred(q)) => r == Ok::<Option<FloatRequest>, VmError>(Some(q))
                    && final(self)@ == old(self)@,
                Err(e) => r == Err::<Option<FloatRequest>, VmError>(e) && final(self)@ == old(
                    self,
                )@,
            },
    {
        let sum = match (&*self, rhs) {
            (Operand::Int(_), Operand::Float(_)) => Err(VmError::TypeMismatch),
            (Operand::Float(_), Operand::Int(_)) => Err(VmError::TypeMismatch),
            _ => self.add(rhs),
        };
        match sum {
            Ok(Outcome::Ready(v)) => {
                *self = v;
                Ok(None)
            },
            Ok(Outcome::Deferred(q)) => Ok(Some(q)),
            Err(e) => Err(e),
        }
    }

    /// The operand as an index into a program.
    pub fn to_index(&self) -> (r: Result<usize, VmError>)
        ensures
            r == index_spec(self@),
    {
        match self {
            Operand::Int(v) => {
                if *v >= 0 && *v as u64 <= usize::MAX as u64 {
                    Ok(*v as usize)
                } else {
                    Err(VmError::TypeMismatch)
                }
            },
            _ => Err(VmError::TypeMismatch),
        }
    }

    /// Takes the text out of the operand; every other operand is a type
    /// mismatch.
    pub fn into_text(self) -> (r: Result<String, VmError>)
        ensures
            match r {
                Ok(s) => self@ == OperandView::Str(s@),
                Err(e) => !(self@ is Str) && e == VmError::TypeMismatch,
            },
    {
        match self {
            Operand::Str(s) => Ok(s),
            _ => Err(VmError::TypeMismatch),
        }
    }
}

impl PartialEq for Operand {
    fn eq(&self, other: &Operand) -> (r: bool) {
        match (self, other) {
            (Operand::Null, Operand::Null) => true,
            (Operand::Int(l), Operand::Int(r)) => *l == *r,
            (Operand::Float(l), Operand::Float(r)) => match (float_rank(*l), float_rank(*r)) {
                (Some(a), Some(b)) => a == b,
                _ => false,
            },
            (Operand::Str(l), Operand::Str(r)) => *l == *r,
            (Operand::Bool(l), Operand::Bool(r)) => *l == *r,
            _ => false,
        }
    }
}

impl PartialEqSpecImpl for Operand {
    open spec fn obeys_eq_spec() -> bool {
        true
    }

    open spec fn eq_spec(&self, other: &Operand) -> bool {
        equal_spec(self@, other@)
    }
}

/// Whether an operand is the integer `index`.
pub open spec fn names_index(v: OperandView, index: usize) -> bool {
    v matches OperandView::Int(i) && i == index
}

impl PartialEq<usize> for Operand {
    fn eq(&self, other: &usize) -> (r: bool) {
        match self {
            Operand::Int(v) => *v >= 0 && *v as u64 == *other as u64,
            _ => false,
        }
    }
}

impl PartialEqSpecImpl<usize> for Operand {
    open spec fn obeys_eq_spec() -> bool {
        true
    }

    open spec fn eq_spec(&self, other: &usize) -> bool {
        names_index(self@, *other)
    }
}

impl PartialEq<Operand> for usize {
    fn eq(&self, other: &Operand) -> (r: bool) {
        match other {
            Operand::Int(v) => *v >= 0 && *v as u64 == *self as u64,
            _ => false,
        }
    }
}

impl PartialEqSpecImpl<Operand> for usize {
    open spec fn obeys_eq_spec() -> bool {
        true
    }

    open spec fn eq_spec(&self, other: &Operand) -> bool {
        names_index(other@, *self)
    }
}

impl From<bool> for Operand {
    fn from(value: bool) -> (r: Operand) {
        Operand::Bool(value)
    }
}

impl FromSpecImpl<bool> for Operand {
    open spec fn obeys_from_spec() -> bool {
        true
    }

    open spec fn from_spec(value: bool) -> Operand {
        Operand::Bool(value)
    }
}

} // verus!
