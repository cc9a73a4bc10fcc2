//! The binary and unary operators and the comparators of the intermediate
//! representation.

use vstd::prelude::*;

verus! {

/// The binary operators.
#[derive(Clone, Copy, Debug, PartialEq, Eq, Structural)]
pub enum BinaryOperators {
    Add,
    Sub,
    Mul,
    Div,
    Mod,
    BitAnd,
    BitOr,
    LogicAnd,
    LogicOr,
    Xor,
    LShift,
    RShift,
}

impl BinaryOperators {
    /// The JavaScript text of the binary operator.
    pub open spec fn spec_rep(&self) -> Seq<char> {
        match *self {
            BinaryOperators::Add => "+"@,
            BinaryOperators::Sub => "-"@,
            BinaryOperators::Mul => "*"@,
            BinaryOperators::Div => "/"@,
            BinaryOperators::Mod => "%"@,
            BinaryOperators::BitAnd => "&"@,
            BinaryOperators::BitOr => "|"@,
            BinaryOperators::LogicAnd => "&&"@,
            BinaryOperators::LogicOr => "||"@,
            BinaryOperators::Xor => "^"@,
            BinaryOperators::LShift => "<<"@,
            BinaryOperators::RShift => ">>"@,
        }
    }

    /// The JavaScript text of the binary operator.
    pub fn rep(&self) -> (r: &'static str)
        ensures
            r@ == self.spec_rep(),
    {
        match *self {
            BinaryOperators::Add => "+",
            BinaryOperators::Sub => "-",
            BinaryOperators::Mul => "*",
            BinaryOperators::Div => "/",
            BinaryOperators::Mod => "%",
            BinaryOperators::BitAnd => "&",
            BinaryOperators::BitOr => "|",
            BinaryOperators::LogicAnd => "&&",
            BinaryOperators::LogicOr => "||",
            BinaryOperators::Xor => "^",
            BinaryOperators::LShift => "<<",
            BinaryOperators::RShift => ">>",
        }
    }

    /// Every binary operator, in the order of declaration.
    pub open spec fn spec_all() -> Seq<BinaryOperators> {
        seq![
            BinaryOperators::Add,
            BinaryOperators::Sub,
            BinaryOperators::Mul,
            BinaryOperators::Div,
            BinaryOperators::Mod,
            BinaryOperators::BitAnd,
            BinaryOperators::BitOr,
            BinaryOperators::LogicAnd,
            BinaryOperators::LogicOr,
            BinaryOperators::Xor,
            BinaryOperators::LShift,
            BinaryOperators::RShift,
        ]
    }

    /// Every binary operator, in the order of declaration.
    pub fn all() -> (r: [BinaryOperators; 12])
        ensures
            r@ == BinaryOperators::spec_all(),
    {
        let r = [
            BinaryOperators::Add,
            BinaryOperators::Sub,
            BinaryOperators::Mul,
            BinaryOperators::Div,
            BinaryOperators::Mod,
            BinaryOperators::BitAnd,
            BinaryOperators::BitOr,
            BinaryOperators::LogicAnd,
            BinaryOperators::LogicOr,
            BinaryOperators::Xor,
            BinaryOperators::LShift,
            BinaryOperators::RShift,
        ];
        assert(r@ =~= BinaryOperators::spec_all());
        r
    }
}

/// The unary operators.
#[derive(Clone, Copy, Debug, PartialEq, Eq, Structural)]
pub enum UnaryOperators {
    Inc,
    Dec,
    LogicalNot,
    BitwiseNot,
}

impl UnaryOperators {
    /// The JavaScript text of the unary operator.
    pub open spec fn spec_rep(&self) -> Seq<char> {
        match *self {
            UnaryOperators::Inc => "++"@,
            UnaryOperators::Dec => "--"@,
            UnaryOperators::LogicalNot => "!"@,
            UnaryOperators::BitwiseNot => "~"@,
        }
    }

    /// The JavaScript text of the unary operator.
    pub fn rep(&self) -> (r: &'static str)
        ensures
            r@ == self.spec_rep(),
    {
        match *self {
            UnaryOperators::Inc => "++",
            UnaryOperators::Dec => "--",
            UnaryOperators::LogicalNot => "!",
            UnaryOperators::BitwiseNot => "~",
        }
    }

    /// Every unary operator, in the order of declaration.
    pub open spec fn spec_all() -> Seq<UnaryOperators> {
        seq![
            UnaryOperators::Inc,
            UnaryOperators::Dec,
            UnaryOperators::LogicalNot,
            UnaryOperators::BitwiseNot,
        ]
    }

    /// Every unary operator, in the order of declaration.
    pub fn all() -> (r: [UnaryOperators; 4])
        ensures
            r@ == UnaryOperators::spec_all(),
    {
        let r = [
            UnaryOperators::Inc,
            UnaryOperators::Dec,
            UnaryOperators::LogicalNot,
            UnaryOperators::BitwiseNot,
        ];
        assert(r@ =~= UnaryOperators::spec_all());
        r
    }
}

/// The comparators.
#[derive(Clone, Copy, Debug, PartialEq, Eq, Structural)]
pub enum Comparators {
    Equal,
    StrictEqual,
    NotEqual,
    LessThan,
    LessThanOrEqual,
    GreaterThan,
    GreaterThanOrEqual,
}

impl Comparators {
    /// The JavaScript text of the comparator.
    pub open spec fn spec_rep(&self) -> Seq<char> {
        match *self {
            Comparators::Equal => "=="@,
            Comparators::StrictEqual => "==="@,
            Comparators::NotEqual => "!="@,
            Comparators::LessThan => "<"@,
            Comparators::LessThanOrEqual => "<="@,
            Comparators::GreaterThan => ">"@,
            Comparators::GreaterThanOrEqual => ">="@,
        }
    }

    /// The JavaScript text of the comparator.
    pub fn rep(&self) -> (r: &'static str)
        ensures
            r@ == self.spec_rep(),
    {
        match *self {
            Comparators::Equal => "==",
            Comparators::StrictEqual => "===",
            Comparators::NotEqual => "!=",
            Comparators::LessThan => "<",
            Comparators::LessThanOrEqual => "<=",
            Comparators::GreaterThan => ">",
            Comparators::GreaterThanOrEqual => ">=",
        }
    }

    /// Every comparator, in the order of declaration.
    pub open spec fn spec_all() -> Seq<Comparators> {
        seq![
            Comparators::Equal,
            Comparators::StrictEqual,
            Comparators::NotEqual,
            Comparators::LessThan,
            Comparators::LessThanOrEqual,
            Comparators::GreaterThan,
            Comparators::GreaterThanOrEqual,
        ]
    }

    /// Every comparator, in the order of declaration.
    pub fn all() -> (r: [Comparators; 7])
        ensures
            r@ == Comparators::spec_all(),
    {
        let r = [
            Comparators::Equal,
            Comparators::StrictEqual,
            Comparators::NotEqual,
            Comparators::LessThan,
            Comparators::LessThanOrEqual,
            Comparators::GreaterThan,
            Comparators::GreaterThanOrEqual,
        ];
        assert(r@ =~= Comparators::spec_all());
        r
    }
}

} // verus!
