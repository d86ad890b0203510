//! The expression data model: a binary operation node over two operands, an
//! operand being either a leaf value or a nested expression. Carries the
//! arithmetic-validity rules, the validating constructor, canonical
//! rendering, structural equality, and the rejection-sampling generator.

use crate::error::ErrorKind;
use crate::numeral::{push_char, spec_decimal, u32_to_string};
use rand::Rng;
use vstd::pervasive::unreached;
use vstd::prelude::*;
use vstd::string::StringExecFns;

verus! {

/// One side of a binary operation: a plain value or a nested expression.
#[derive(Debug, PartialEq)]
pub enum Operand {
    Unit(u32),
    Expression(Box<Expression>),
}

/// A binary operation node: left operand, operator symbol, right operand.
#[derive(Debug, PartialEq)]
pub struct Expression {
    pub left: Operand,
    pub operator: char,
    pub right: Operand,
}

/// The four operator symbols the domain supports.
pub open spec fn spec_is_operator(c: char) -> bool {
    c == '+' || c == '-' || c == '*' || c == '/'
}

/// Arithmetic validity of a flat triple: the operation must be defined and
/// its result a non-negative integer.
pub open spec fn spec_valid(left: u32, operator: char, right: u32) -> bool {
    ||| operator == '+'
    ||| (operator == '-' && left >= right)
    ||| operator == '*'
    ||| (operator == '/' && right != 0 && left % right == 0)
}

/// The verdict of the arithmetic check on a flat triple: division by zero is
/// a violation; a negative or fractional result is unsupported.
pub open spec fn spec_check(left: u32, operator: char, right: u32) -> Result<(), ErrorKind> {
    if spec_valid(left, operator, right) {
        Ok(())
    } else if operator == '/' && right == 0 {
        Err(ErrorKind::ArithmeticViolation)
    } else {
        Err(ErrorKind::UnsupportedExpression)
    }
}

/// The canonical textual form of an operand: a unit renders as its decimal
/// value; a nested expression renders fully parenthesized.
pub open spec fn spec_render_operand(operand: Operand) -> Seq<char>
    decreases operand,
{
    match operand {
        Operand::Unit(n) => spec_decimal(n as nat),
        Operand::Expression(e) => seq!['(', ' '] + spec_render_expression(*e) + seq![' ', ')'],
    }
}

/// The canonical textual form of an expression: left, operator, right,
/// separated by single spaces.
pub open spec fn spec_render_expression(e: Expression) -> Seq<char>
    decreases e,
{
    spec_render_operand(e.left) + seq![' ', e.operator, ' '] + spec_render_operand(e.right)
}

impl Operand {
    /// Two operands have the same shape when they are units on both sides or
    /// nested expressions on both sides, recursively.
    pub open spec fn same_shape(self, other: Operand) -> bool
        decreases self,
    {
        match (self, other) {
            (Operand::Unit(_), Operand::Unit(_)) => true,
            (Operand::Expression(a), Operand::Expression(b)) => a.left.same_shape(
                b.left,
            ) && a.right.same_shape(b.right),
            _ => false,
        }
    }

    /// Every leaf unit value inside the operand lies in the inclusive range.
    pub open spec fn in_range(self, min: u32, max: u32) -> bool
        decreases self,
    {
        match self {
            Operand::Unit(n) => min <= n <= max,
            Operand::Expression(e) => e.left.in_range(min, max) && e.right.in_range(min, max),
        }
    }

    /// Whether the operand is a leaf value.
    pub fn is_unit(&self) -> (r: bool)
        ensures
            r == (*self is Unit),
    {
        match self {
            Operand::Unit(_) => true,
            _ => false,
        }
    }

    /// Whether the operand is a nested expression.
    pub fn is_expression(&self) -> (r: bool)
        ensures
            r == (*self is Expression),
    {
        match self {
            Operand::Expression(_) => true,
            _ => false,
        }
    }

    /// Render the operand as text.
    pub fn render(&self) -> (r: String)
        ensures
            r@ == spec_render_operand(*self),
        decreases *self,
    {
        match self {
            Operand::Unit(n) => u32_to_string(*n),
            Operand::Expression(e) => {
                let mut s = String::from_str("( ");
                let inner = e.render();
                s.append(inner.as_str());
                s.append(" )");
                proof {
                    reveal_strlit("( ");
                    reveal_strlit(" )");
                    assert(s@ =~= spec_render_operand(*self));
                }
                s
            },
        }
    }

    /// Structural equality of two same-shape operands: units by value,
    /// nested expressions recursively.
    pub fn eq_operand(&self, other: &Operand) -> (r: bool)
        requires
            self.same_shape(*other),
        ensures
            r == (*self == *other),
        decreases *self,
    {
        match (self, other) {
            (Operand::Unit(a), Operand::Unit(b)) => a == b,
            (Operand::Expression(a), Operand::Expression(b)) => a.eq_expression(b),
            _ => unreached(),
        }
    }
}

impl Expression {
    /// Two expressions have the same shape when their operands do, side by
    /// side.
    pub open spec fn same_shape(self, other: Expression) -> bool {
        self.left.same_shape(other.left) && self.right.same_shape(other.right)
    }

    /// Build the triple directly, with no arithmetic validation.
    pub fn new_unchecked(left: Operand, operator: char, right: Operand) -> (r: Self)
        ensures
            r == (Expression { left, operator, right }),
    {
        Expression { left, operator, right }
    }

    /// Build a flat expression from two raw values, accepting it only if the
    /// triple passes the arithmetic check.
    pub fn from_u32(left: u32, operator: char, right: u32) -> (r: Result<Self, ErrorKind>)
        requires
            spec_is_operator(operator),
        ensures
            r is Ok <==> spec_valid(left, operator, right),
            r matches Ok(e) ==> e == (Expression {
                left: Operand::Unit(left),
                operator,
                right: Operand::Unit(right),
            }),
            r matches Err(k) ==> Err::<(), ErrorKind>(k) == spec_check(left, operator, right),
    {
        match arithmetic_check(left, operator, right) {
            Ok(()) => Ok(Self::new_unchecked(Operand::Unit(left), operator, Operand::Unit(right))),
            Err(kind) => Err(kind),
        }
    }

    /// Render the expression as text: left, operator, right, separated by
    /// single spaces.
    pub fn render(&self) -> (r: String)
        ensures
            r@ == spec_render_expression(*self),
        decreases *self,
    {
        let mut s = self.left.render();
        push_char(&mut s, ' ');
        push_char(&mut s, self.operator);
        push_char(&mut s, ' ');
        let right = self.right.render();
        s.append(right.as_str());
        proof {
            assert(s@ =~= spec_render_expression(*self));
        }
        s
    }

    /// Generate an admissible flat expression by rejection sampling: draw an
    /// operator and two leaf values from the inclusive range, and keep the
    /// first triple that passes the arithmetic check. Draws are capped so
    /// that generation provably terminates; if a pathological range ever
    /// exhausts the cap, one last draw is combined with addition, which is
    /// admissible for every pair of values.
    pub fn from_range(range: (u32, u32)) -> (r: Self)
        requires
            range.0 <= range.1,
        ensures
            r.left is Unit,
            r.right is Unit,
            r.left.in_range(range.0, range.1),
            r.right.in_range(range.0, range.1),
            spec_is_operator(r.operator),
            spec_valid(r.left->Unit_0, r.operator, r.right->Unit_0),
            spec_check(r.left->Unit_0, r.operator, r.right->Unit_0) is Ok,
    {
        let mut attempts: u32 = 0;
        while attempts < GENERATION_ATTEMPT_CAP
            invariant
                range.0 <= range.1,
            decreases GENERATION_ATTEMPT_CAP - attempts,
        {
            let k = sample_in_range(0, 3);
            let operator = if k == 0 {
                '+'
            } else if k == 1 {
                '-'
            } else if k == 2 {
                '*'
            } else {
                '/'
            };
            let left = sample_in_range(range.0, range.1);
            let right = sample_in_range(range.0, range.1);
            match Self::from_u32(left, operator, right) {
                Ok(expr) => {
                    return expr;
                },
                Err(_) => {},
            }
            attempts = attempts + 1;
        }
        let left = sample_in_range(range.0, range.1);
        let right = sample_in_range(range.0, range.1);
        match Self::from_u32(left, '+', right) {
            Ok(expr) => expr,
            Err(_) => unreached(),
        }
    }

    /// Structural equality of two same-shape expressions: equal operands on
    /// both sides and the same operator.
    pub fn eq_expression(&self, other: &Expression) -> (r: bool)
        requires
            self.same_shape(*other),
        ensures
            r == (*self == *other),
        decreases *self,
    {
        self.left.eq_operand(&other.left) && self.operator == other.operator
            && self.right.eq_operand(&other.right)
    }
}

/// Law: building with addition is admissible for every pair of values, and
/// the flat expression it builds renders as the decimal left value, the
/// plus sign, and the decimal right value, separated by single spaces.
pub proof fn lemma_addition_always_valid(a: u32, b: u32)
    ensures
        spec_valid(a, '+', b),
        spec_check(a, '+', b) is Ok,
        spec_render_expression(
            Expression { left: Operand::Unit(a), operator: '+', right: Operand::Unit(b) },
        ) == spec_decimal(a as nat) + seq![' ', '+', ' '] + spec_decimal(b as nat),
{
}

/// Law: subtraction is admissible exactly when the left value is at least
/// the right value, and the flat expression it builds renders both values
/// exactly, in order.
pub proof fn lemma_subtraction_valid_iff(a: u32, b: u32)
    ensures
        spec_valid(a, '-', b) <==> a >= b,
        a >= b ==> spec_check(a, '-', b) is Ok,
        a < b ==> spec_check(a, '-', b) == Err::<(), ErrorKind>(ErrorKind::UnsupportedExpression),
        spec_render_expression(
            Expression { left: Operand::Unit(a), operator: '-', right: Operand::Unit(b) },
        ) == spec_decimal(a as nat) + seq![' ', '-', ' '] + spec_decimal(b as nat),
{
}

/// Law: building with multiplication is admissible for every pair of values.
pub proof fn lemma_multiplication_always_valid(a: u32, b: u32)
    ensures
        spec_valid(a, '*', b),
        spec_check(a, '*', b) is Ok,
{
}

/// Law: division by zero is rejected as an arithmetic violation, and that is
/// the only arithmetic violation; otherwise division is admissible exactly
/// when it leaves no remainder, and a remainder makes the expression
/// unsupported.
pub proof fn lemma_division_check(a: u32, b: u32)
    ensures
        spec_check(a, '/', b) == Err::<(), ErrorKind>(ErrorKind::ArithmeticViolation) <==> b == 0,
        b != 0 ==> (spec_valid(a, '/', b) <==> a % b == 0),
        b != 0 && a % b != 0 ==> spec_check(a, '/', b) == Err::<(), ErrorKind>(
            ErrorKind::UnsupportedExpression,
        ),
{
}

/// Law: structural equality of expressions is reflexive, symmetric, and
/// transitive.
pub proof fn lemma_structural_eq_laws(a: Expression, b: Expression, c: Expression)
    ensures
        a == a,
        a == b ==> b == a,
        a == b && b == c ==> a == c,
{
}

/// How many random draws the generator makes before it falls back to a
/// constructively admissible one.
pub const GENERATION_ATTEMPT_CAP: u32 = 1000;

/// Relies on rand::Rng::gen_range on rand::thread_rng: a value drawn
/// uniformly from the inclusive, non-empty range.
#[verifier::external_body]
fn sample_in_range(min: u32, max: u32) -> (r: u32)
    requires
        min <= max,
    ensures
        min <= r <= max,
{
    rand::thread_rng().gen_range(min..=max)
}

/// The arithmetic rules on a flat triple: addition and multiplication are
/// always admissible; subtraction must not go negative; division must be by
/// a non-zero divisor and leave no remainder.
pub fn arithmetic_check(left: u32, operator: char, right: u32) -> (r: Result<(), ErrorKind>)
    requires
        spec_is_operator(operator),
    ensures
        r == spec_check(left, operator, right),
{
    if operator == '+' {
        Ok(())
    } else if operator == '-' {
        if left >= right {
            Ok(())
        } else {
            Err(ErrorKind::UnsupportedExpression)
        }
    } else if operator == '*' {
        Ok(())
    } else {
        if right == 0 {
            Err(ErrorKind::ArithmeticViolation)
        } else if left % right == 0 {
            Ok(())
        } else {
            Err(ErrorKind::UnsupportedExpression)
        }
    }
}

} // verus!
