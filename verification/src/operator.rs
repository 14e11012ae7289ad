//! Binary operators of expressions.

use vstd::prelude::*;

verus! {

/// The operator of a binary expression.
#[derive(Debug, Clone, Copy, PartialEq, Eq, Structural)]
pub enum Operator {
    Eq,
    NotEq,
    Lt,
    LtEq,
    Gt,
    GtEq,
    Plus,
    Minus,
    Multiply,
    Divide,
    Modulo,
    And,
    Or,
    RegexMatch,
    RegexIMatch,
    RegexNotMatch,
    RegexNotIMatch,
    LikeMatch,
    ILikeMatch,
    NotLikeMatch,
    NotILikeMatch,
    IsDistinctFrom,
    IsNotDistinctFrom,
    BitwiseAnd,
    BitwiseOr,
    BitwiseXor,
    BitwiseShiftRight,
    BitwiseShiftLeft,
    StringConcat,
    AtArrow,
    ArrowAt,
    Arrow,
    LongArrow,
    HashArrow,
    HashLongArrow,
    AtAt,
    IntegerDivide,
    HashMinus,
    AtQuestion,
    Question,
    QuestionAnd,
    QuestionPipe,
    Colon,
}

impl Operator {
    /// The operators whose result is a boolean whatever their operands.
    pub open spec fn returns_boolean(self) -> bool {
        match self {
            Operator::Lt | Operator::LtEq | Operator::Gt | Operator::GtEq | Operator::Eq
            | Operator::NotEq => true,
            _ => false,
        }
    }

    /// The ordering comparisons, the operators that a binary expression evaluates.
    pub open spec fn is_ordering(self) -> bool {
        match self {
            Operator::Lt | Operator::LtEq | Operator::Gt | Operator::GtEq => true,
            _ => false,
        }
    }

    pub fn is_ordering_op(&self) -> (res: bool)
        ensures
            res == self.is_ordering(),
    {
        match self {
            Operator::Lt | Operator::LtEq | Operator::Gt | Operator::GtEq => true,
            _ => false,
        }
    }

    pub fn returns_boolean_op(&self) -> (res: bool)
        ensures
            res == self.returns_boolean(),
    {
        match self {
            Operator::Lt | Operator::LtEq | Operator::Gt | Operator::GtEq | Operator::Eq
            | Operator::NotEq => true,
            _ => false,
        }
    }
}

} // verus!
