//! The code generators that programs are grown with, and their weights.

use vstd::prelude::*;

verus! {

/// A code generator.
#[derive(Clone, Copy, Debug, PartialEq, Eq, Structural)]
pub enum Generator {
    IntegerLiteral,
    FloatLiteral,
    StringLiteral,
    BoolLiteral,
    UndefinedLiteral,
    Nop,
    Copy,
    IfCondition,
    ForLoop,
    Break,
    Continue,
    BinaryOp,
    CompareOp,
    UnaryOp,
    FunctionDefinition,
    FunctionCall,
    FunctionReturn,
    IntArray,
    FloatArray,
    LoadElement,
    StoreElement,
    MethodCall,
    LoadProperty,
    StoreProperty,
    LoadBuiltin,
    CreateObject,
    DeleteProperty,
    EmptyLoop,
    JitFunction,
}

impl Generator {
    /// Tells whether the generator loads a literal. Such a generator needs
    /// no variable and always succeeds.
    pub open spec fn is_literal(self) -> bool {
        self == Generator::IntegerLiteral || self == Generator::FloatLiteral || self
            == Generator::StringLiteral || self == Generator::BoolLiteral || self
            == Generator::UndefinedLiteral
    }
}

/// The generators that an empty program is started with.
pub open spec fn spec_basic_generators() -> Seq<Generator> {
    seq![
        Generator::UndefinedLiteral,
        Generator::StringLiteral,
        Generator::BoolLiteral,
        Generator::FloatLiteral,
        Generator::IntegerLiteral,
    ]
}

/// The generators that an empty program is started with.
pub fn basic_generators() -> (r: [Generator; 5])
    ensures
        r@ == spec_basic_generators(),
{
    let r = [
        Generator::UndefinedLiteral,
        Generator::StringLiteral,
        Generator::BoolLiteral,
        Generator::FloatLiteral,
        Generator::IntegerLiteral,
    ];
    assert(r@ =~= spec_basic_generators());
    r
}

/// Every generator with its weight.
pub open spec fn spec_generators() -> Seq<(Generator, u16)> {
    seq![
        (Generator::CreateObject, 30u16),
        (Generator::JitFunction, 30u16),
        (Generator::LoadBuiltin, 50u16),
        (Generator::MethodCall, 35u16),
        (Generator::StoreProperty, 45u16),
        (Generator::LoadProperty, 30u16),
        (Generator::FunctionCall, 40u16),
        (Generator::LoadElement, 30u16),
        (Generator::IntArray, 30u16),
        (Generator::IfCondition, 10u16),
        (Generator::BinaryOp, 30u16),
        (Generator::ForLoop, 15u16),
        (Generator::StoreElement, 40u16),
        (Generator::UnaryOp, 30u16),
        (Generator::CompareOp, 30u16),
        (Generator::DeleteProperty, 30u16),
        (Generator::FunctionReturn, 10u16),
        (Generator::FunctionDefinition, 30u16),
        (Generator::FloatArray, 30u16),
        (Generator::EmptyLoop, 20u16),
        (Generator::Nop, 1u16),
        (Generator::Copy, 1u16),
        (Generator::Break, 5u16),
        (Generator::Continue, 5u16),
        (Generator::IntegerLiteral, 5u16),
        (Generator::FloatLiteral, 1u16),
        (Generator::StringLiteral, 1u16),
        (Generator::BoolLiteral, 1u16),
        (Generator::UndefinedLiteral, 1u16),
    ]
}

/// Every generator with its weight.
pub fn generators() -> (r: [(Generator, u16); 29])
    ensures
        r@ == spec_generators(),
{
    let r = [
        (Generator::CreateObject, 30u16),
        (Generator::JitFunction, 30u16),
        (Generator::LoadBuiltin, 50u16),
        (Generator::MethodCall, 35u16),
        (Generator::StoreProperty, 45u16),
        (Generator::LoadProperty, 30u16),
        (Generator::FunctionCall, 40u16),
        (Generator::LoadElement, 30u16),
        (Generator::IntArray, 30u16),
        (Generator::IfCondition, 10u16),
        (Generator::BinaryOp, 30u16),
        (Generator::ForLoop, 15u16),
        (Generator::StoreElement, 40u16),
        (Generator::UnaryOp, 30u16),
        (Generator::CompareOp, 30u16),
        (Generator::DeleteProperty, 30u16),
        (Generator::FunctionReturn, 10u16),
        (Generator::FunctionDefinition, 30u16),
        (Generator::FloatArray, 30u16),
        (Generator::EmptyLoop, 20u16),
        (Generator::Nop, 1u16),
        (Generator::Copy, 1u16),
        (Generator::Break, 5u16),
        (Generator::Continue, 5u16),
        (Generator::IntegerLiteral, 5u16),
        (Generator::FloatLiteral, 1u16),
        (Generator::StringLiteral, 1u16),
        (Generator::BoolLiteral, 1u16),
        (Generator::UndefinedLiteral, 1u16),
    ];
    assert(r@ =~= spec_generators());
    r
}

} // verus!
