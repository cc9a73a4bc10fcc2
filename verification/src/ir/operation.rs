//! The operations of the intermediate representation: what each kind takes
//! and gives, and what it means for the structure of the program.

use vstd::prelude::*;
use super::codeanalysis::types::{
    ConstructorType,
    ConstructorTypeView,
    FunctionSignature,
    FunctionSignatureView,
    MethodSignature,
    MethodSignatureView,
};
use super::opcodes::Opcodes;
use super::operators::{BinaryOperators, Comparators, UnaryOperators};
use crate::utils::float::FloatLiteral;

verus! {

pub const ATTR_NONE: u8 = 0x00;

pub const ATTR_BLOCK_START: u8 = 0x01;

pub const ATTR_BLOCK_END: u8 = 0x02;

pub const ATTR_LOOP_START: u8 = 0x05;

pub const ATTR_LOOP_END: u8 = 0x0a;

pub const ATTR_PRIMITIVE: u8 = 0x10;

pub const ATTR_FUNCTION_START: u8 = 0x21;

pub const ATTR_FUNCTION_END: u8 = 0x42;

/// The structural properties of an operation, as a set of bits. A loop or a
/// function is a block too: its start carries the bit of a block start, its
/// end that of a block end.
#[derive(Clone, Copy, Debug, PartialEq, Eq, Structural)]
pub struct Attributes {
    pub bits: u8,
}

impl Attributes {
    /// No attribute.
    #[verifier::allow_in_spec]
    pub fn none() -> Attributes
        returns
            (Attributes { bits: ATTR_NONE }),
    {
        Attributes { bits: ATTR_NONE }
    }

    /// The operation opens a block.
    #[verifier::allow_in_spec]
    pub fn block_start() -> Attributes
        returns
            (Attributes { bits: ATTR_BLOCK_START }),
    {
        Attributes { bits: ATTR_BLOCK_START }
    }

    /// The operation closes a block.
    #[verifier::allow_in_spec]
    pub fn block_end() -> Attributes
        returns
            (Attributes { bits: ATTR_BLOCK_END }),
    {
        Attributes { bits: ATTR_BLOCK_END }
    }

    /// The operation opens the block of a loop.
    #[verifier::allow_in_spec]
    pub fn loop_start() -> Attributes
        returns
            (Attributes { bits: ATTR_LOOP_START }),
    {
        Attributes { bits: ATTR_LOOP_START }
    }

    /// The operation closes the block of a loop.
    #[verifier::allow_in_spec]
    pub fn loop_end() -> Attributes
        returns
            (Attributes { bits: ATTR_LOOP_END }),
    {
        Attributes { bits: ATTR_LOOP_END }
    }

    /// The operation loads a literal.
    #[verifier::allow_in_spec]
    pub fn primitive() -> Attributes
        returns
            (Attributes { bits: ATTR_PRIMITIVE }),
    {
        Attributes { bits: ATTR_PRIMITIVE }
    }

    /// The operation opens the body of a function.
    #[verifier::allow_in_spec]
    pub fn function_start() -> Attributes
        returns
            (Attributes { bits: ATTR_FUNCTION_START }),
    {
        Attributes { bits: ATTR_FUNCTION_START }
    }

    /// The operation closes the body of a function.
    #[verifier::allow_in_spec]
    pub fn function_end() -> Attributes
        returns
            (Attributes { bits: ATTR_FUNCTION_END }),
    {
        Attributes { bits: ATTR_FUNCTION_END }
    }

    /// The attributes of both.
    #[verifier::allow_in_spec]
    pub fn union(self, other: Attributes) -> Attributes
        returns
            (Attributes { bits: self.bits | other.bits }),
    {
        Attributes { bits: self.bits | other.bits }
    }

    /// True when every attribute of `other` is one of `self`.
    #[verifier::allow_in_spec]
    pub fn contains(&self, other: Attributes) -> bool
        returns
            self.bits & other.bits == other.bits,
    {
        self.bits & other.bits == other.bits
    }
}

/// Closes the branch of an `if` and opens its alternative.
#[derive(Clone, Copy, Debug, PartialEq, Eq, Structural)]
pub struct BeginElse();

/// Opens a counting loop: the text of the step (`++` and the like) and the
/// comparator of the end test.
pub struct BeginFor(pub String, pub Comparators);

/// Opens the definition of a function with the given signature.
pub struct BeginFunctionDefinition(pub FunctionSignature);

/// Calls a function with the given number of arguments.
#[derive(Clone, Copy, Debug, PartialEq, Eq, Structural)]
pub struct FunctionCall(pub u8);

/// Creates an array of the given number of elements.
#[derive(Clone, Copy, Debug, PartialEq, Eq, Structural)]
pub struct CreateArray(pub u8);

/// Calls the method of the given signature with the given number of
/// arguments, the receiver not counted.
pub struct MethodCall(pub MethodSignature, pub u8);

/// Brings in a builtin: calls its constructor with the given number of
/// arguments, or names it.
pub struct LoadBuiltin(pub ConstructorType, pub u8);

/// Creates an object with the given property names.
pub struct CreateObject(pub Vec<String>);

/// An operation: its kind and what belongs to it.
pub enum Operation {
    Nop,
    LoadInt(i64),
    LoadFloat(FloatLiteral),
    LoadBool(bool),
    LoadString(String),
    LoadUndefined,
    Copy,
    BeginIf,
    EndIf,
    BeginElse(BeginElse),
    BeginFor(BeginFor),
    EndFor,
    Break,
    Continue,
    BinaryOp(BinaryOperators),
    UnaryOp(UnaryOperators),
    CompareOp(Comparators),
    BeginFunctionDefinition(BeginFunctionDefinition),
    EndFunctionDefinition,
    Return,
    FunctionCall(FunctionCall),
    CreateArray(CreateArray),
    LoadElement,
    StoreElement,
    MethodCall(MethodCall),
    LoadProperty(String),
    StoreProperty(String),
    LoadBuiltin(LoadBuiltin),
    CreateObject(CreateObject),
    Delete(bool),
}

/// The mathematical value of an `Operation`.
pub ghost enum OperationView {
    Nop,
    LoadInt(i64),
    LoadFloat(FloatLiteral),
    LoadBool(bool),
    LoadString(Seq<char>),
    LoadUndefined,
    Copy,
    BeginIf,
    EndIf,
    BeginElse,
    BeginFor(Seq<char>, Comparators),
    EndFor,
    Break,
    Continue,
    BinaryOp(BinaryOperators),
    UnaryOp(UnaryOperators),
    CompareOp(Comparators),
    BeginFunctionDefinition(FunctionSignatureView),
    EndFunctionDefinition,
    Return,
    FunctionCall(u8),
    CreateArray(u8),
    LoadElement,
    StoreElement,
    MethodCall(MethodSignatureView, u8),
    LoadProperty(Seq<char>),
    StoreProperty(Seq<char>),
    LoadBuiltin(ConstructorTypeView, u8),
    CreateObject(Seq<Seq<char>>),
    Delete(bool),
}

/// The texts of a sequence of strings.
pub open spec fn texts(v: Seq<String>) -> Seq<Seq<char>> {
    v.map_values(|s: String| s@)
}

impl View for Operation {
    type V = OperationView;

    open spec fn view(&self) -> OperationView {
        match self {
            Operation::Nop => OperationView::Nop,
            Operation::LoadInt(v) => OperationView::LoadInt(*v),
            Operation::LoadFloat(v) => OperationView::LoadFloat(*v),
            Operation::LoadBool(v) => OperationView::LoadBool(*v),
            Operation::LoadString(v) => OperationView::LoadString(v@),
            Operation::LoadUndefined => OperationView::LoadUndefined,
            Operation::Copy => OperationView::Copy,
            Operation::BeginIf => OperationView::BeginIf,
            Operation::EndIf => OperationView::EndIf,
            Operation::BeginElse(_) => OperationView::BeginElse,
            Operation::BeginFor(op) => OperationView::BeginFor(op.0@, op.1),
            Operation::EndFor => OperationView::EndFor,
            Operation::Break => OperationView::Break,
            Operation::Continue => OperationView::Continue,
            Operation::BinaryOp(op) => OperationView::BinaryOp(*op),
            Operation::UnaryOp(op) => OperationView::UnaryOp(*op),
            Operation::CompareOp(op) => OperationView::CompareOp(*op),
            Operation::BeginFunctionDefinition(op) => OperationView::BeginFunctionDefinition(
                op.0@,
            ),
            Operation::EndFunctionDefinition => OperationView::EndFunctionDefinition,
            Operation::Return => OperationView::Return,
            Operation::FunctionCall(op) => OperationView::FunctionCall(op.0),
            Operation::CreateArray(op) => OperationView::CreateArray(op.0),
            Operation::LoadElement => OperationView::LoadElement,
            Operation::StoreElement => OperationView::StoreElement,
            Operation::MethodCall(op) => OperationView::MethodCall(op.0@, op.1),
            Operation::LoadProperty(v) => OperationView::LoadProperty(v@),
            Operation::StoreProperty(v) => OperationView::StoreProperty(v@),
            Operation::LoadBuiltin(op) => OperationView::LoadBuiltin(op.0@, op.1),
            Operation::CreateObject(op) => OperationView::CreateObject(texts(op.0@)),
            Operation::Delete(v) => OperationView::Delete(*v),
        }
    }
}

impl OperationView {
    /// The operation's code.
    pub open spec fn opcode(self) -> Opcodes {
        match self {
            OperationView::Nop => Opcodes::Nop,
            OperationView::LoadInt(_) => Opcodes::LoadInt,
            OperationView::LoadFloat(_) => Opcodes::LoadFloat,
            OperationView::LoadBool(_) => Opcodes::LoadBool,
            OperationView::LoadString(_) => Opcodes::LoadString,
            OperationView::LoadUndefined => Opcodes::LoadUndefined,
            OperationView::Copy => Opcodes::Copy,
            OperationView::BeginIf => Opcodes::BeginIf,
            OperationView::EndIf => Opcodes::EndIf,
            OperationView::BeginElse => Opcodes::BeginElse,
            OperationView::BeginFor(_, _) => Opcodes::BeginFor,
            OperationView::EndFor => Opcodes::EndFor,
            OperationView::Break => Opcodes::Break,
            OperationView::Continue => Opcodes::Continue,
            OperationView::BinaryOp(_) => Opcodes::BinaryOp,
            OperationView::UnaryOp(_) => Opcodes::UnaryOp,
            OperationView::CompareOp(_) => Opcodes::CompareOp,
            OperationView::BeginFunctionDefinition(_) => Opcodes::BeginFunctionDefinition,
            OperationView::EndFunctionDefinition => Opcodes::EndFunctionDefinition,
            OperationView::Return => Opcodes::Return,
            OperationView::FunctionCall(_) => Opcodes::FunctionCall,
            OperationView::CreateArray(_) => Opcodes::CreateArray,
            OperationView::LoadElement => Opcodes::LoadElement,
            OperationView::StoreElement => Opcodes::StoreElement,
            OperationView::MethodCall(_, _) => Opcodes::MethodCall,
            OperationView::LoadProperty(_) => Opcodes::LoadProperty,
            OperationView::StoreProperty(_) => Opcodes::StoreProperty,
            OperationView::LoadBuiltin(_, _) => Opcodes::LoadBuiltin,
            OperationView::CreateObject(_) => Opcodes::CreateObject,
            OperationView::Delete(_) => Opcodes::Delete,
        }
    }

    /// The operation's structural properties.
    pub open spec fn attributes(self) -> Attributes {
        match self {
            OperationView::LoadInt(_)
            | OperationView::LoadFloat(_)
            | OperationView::LoadBool(_)
            | OperationView::LoadString(_)
            | OperationView::LoadUndefined => Attributes::primitive(),
            OperationView::BeginIf => Attributes::block_start(),
            OperationView::EndIf => Attributes::block_end(),
            OperationView::BeginElse => Attributes::block_start().union(Attributes::block_end()),
            OperationView::BeginFor(_, _) => Attributes::loop_start(),
            OperationView::EndFor => Attributes::loop_end(),
            OperationView::BeginFunctionDefinition(_) => Attributes::function_start(),
            OperationView::EndFunctionDefinition => Attributes::function_end(),
            _ => Attributes::none(),
        }
    }

    /// The number of variables that the operation reads.
    pub open spec fn num_inputs(self) -> nat {
        match self {
            OperationView::Copy => 2,
            OperationView::BeginIf => 1,
            OperationView::BeginFor(_, _) => 3,
            OperationView::BinaryOp(_) => 2,
            OperationView::UnaryOp(_) => 1,
            OperationView::CompareOp(_) => 2,
            OperationView::Return => 1,
            OperationView::FunctionCall(n) => (n + 1) as nat,
            OperationView::CreateArray(n) => n as nat,
            OperationView::LoadElement => 2,
            OperationView::StoreElement => 3,
            OperationView::MethodCall(_, n) => (n + 1) as nat,
            OperationView::LoadProperty(_) => 1,
            OperationView::StoreProperty(_) => 2,
            OperationView::LoadBuiltin(_, n) => n as nat,
            OperationView::CreateObject(props) => props.len(),
            OperationView::Delete(_) => 2,
            _ => 0,
        }
    }

    /// The number of variables that the operation defines.
    pub open spec fn num_outputs(self) -> nat {
        match self {
            OperationView::LoadInt(_)
            | OperationView::LoadFloat(_)
            | OperationView::LoadBool(_)
            | OperationView::LoadString(_)
            | OperationView::LoadUndefined
            | OperationView::BinaryOp(_)
            | OperationView::UnaryOp(_)
            | OperationView::CompareOp(_)
            | OperationView::BeginFunctionDefinition(_)
            | OperationView::FunctionCall(_)
            | OperationView::CreateArray(_)
            | OperationView::LoadElement
            | OperationView::MethodCall(_, _)
            | OperationView::LoadProperty(_)
            | OperationView::LoadBuiltin(_, _)
            | OperationView::CreateObject(_) => 1,
            _ => 0,
        }
    }

    /// The number of variables that the operation defines inside the block
    /// it opens: the counter of a loop, the parameters of a function.
    pub open spec fn num_temp(self) -> nat {
        match self {
            OperationView::BeginFor(_, _) => 1,
            OperationView::BeginFunctionDefinition(sig) => sig.num_inputs as nat,
            _ => 0,
        }
    }

    /// The number of inputs fits in a byte, and a floating-point literal
    /// is a ratio with a denominator.
    pub open spec fn wf(self) -> bool {
        &&& self.num_inputs() <= 255
        &&& self matches OperationView::LoadFloat(v) ==> v.wf()
    }

    pub open spec fn is_loop_start(self) -> bool {
        self.attributes().contains(Attributes::loop_start())
    }

    pub open spec fn is_loop_end(self) -> bool {
        self.attributes().contains(Attributes::loop_end())
    }

    pub open spec fn is_block_start(self) -> bool {
        self.attributes().contains(Attributes::block_start())
    }

    pub open spec fn is_block_end(self) -> bool {
        self.attributes().contains(Attributes::block_end())
    }

    pub open spec fn is_function_start(self) -> bool {
        self.attributes().contains(Attributes::function_start())
    }

    pub open spec fn is_function_end(self) -> bool {
        self.attributes().contains(Attributes::function_end())
    }

    pub open spec fn is_primitive(self) -> bool {
        self.attributes().contains(Attributes::primitive())
    }
}

/// Which operations have which structural property, kind by kind.
pub proof fn lemma_attributes(op: OperationView)
    ensures
        op.is_loop_start() <==> op is BeginFor,
        op.is_loop_end() <==> op is EndFor,
        op.is_function_start() <==> op is BeginFunctionDefinition,
        op.is_function_end() <==> op is EndFunctionDefinition,
        op.is_block_start() <==> (op is BeginIf || op is BeginElse || op is BeginFor
            || op is BeginFunctionDefinition),
        op.is_block_end() <==> (op is EndIf || op is BeginElse || op is EndFor
            || op is EndFunctionDefinition),
        op.is_primitive() <==> (op is LoadInt || op is LoadFloat || op is LoadBool
            || op is LoadString || op is LoadUndefined),
{
    assert(forall|a: u8|
        (a == 0x00 || a == 0x01 || a == 0x02 || a == 0x03 || a == 0x05 || a == 0x0a || a == 0x10
            || a == 0x21 || a == 0x42) ==> {
            &&& (a & 0x05 == 0x05 <==> a == 0x05)
            &&& (a & 0x0a == 0x0a <==> a == 0x0a)
            &&& (a & 0x21 == 0x21 <==> a == 0x21)
            &&& (a & 0x42 == 0x42 <==> a == 0x42)
            &&& (a & 0x01 == 0x01 <==> (a == 0x01 || a == 0x03 || a == 0x05 || a == 0x21))
            &&& (a & 0x02 == 0x02 <==> (a == 0x02 || a == 0x03 || a == 0x0a || a == 0x42))
            &&& (a & 0x10 == 0x10 <==> a == 0x10)
        }) by (bit_vector);
    assert(0x01u8 | 0x02u8 == 0x03u8) by (bit_vector);
}

impl Operation {
    /// The operation's code.
    pub fn opcode(&self) -> (r: Opcodes)
        ensures
            r == self@.opcode(),
    {
        match self {
            Operation::Nop => Opcodes::Nop,
            Operation::LoadInt(_) => Opcodes::LoadInt,
            Operation::LoadFloat(_) => Opcodes::LoadFloat,
            Operation::LoadBool(_) => Opcodes::LoadBool,
            Operation::LoadString(_) => Opcodes::LoadString,
            Operation::LoadUndefined => Opcodes::LoadUndefined,
            Operation::Copy => Opcodes::Copy,
            Operation::BeginIf => Opcodes::BeginIf,
            Operation::EndIf => Opcodes::EndIf,
            Operation::BeginElse(_) => Opcodes::BeginElse,
            Operation::BeginFor(_) => Opcodes::BeginFor,
            Operation::EndFor => Opcodes::EndFor,
            Operation::Break => Opcodes::Break,
            Operation::Continue => Opcodes::Continue,
            Operation::BinaryOp(_) => Opcodes::BinaryOp,
            Operation::UnaryOp(_) => Opcodes::UnaryOp,
            Operation::CompareOp(_) => Opcodes::CompareOp,
            Operation::BeginFunctionDefinition(_) => Opcodes::BeginFunctionDefinition,
            Operation::EndFunctionDefinition => Opcodes::EndFunctionDefinition,
            Operation::Return => Opcodes::Return,
            Operation::FunctionCall(_) => Opcodes::FunctionCall,
            Operation::CreateArray(_) => Opcodes::CreateArray,
            Operation::LoadElement => Opcodes::LoadElement,
            Operation::StoreElement => Opcodes::StoreElement,
            Operation::MethodCall(_) => Opcodes::MethodCall,
            Operation::LoadProperty(_) => Opcodes::LoadProperty,
            Operation::StoreProperty(_) => Opcodes::StoreProperty,
            Operation::LoadBuiltin(_) => Opcodes::LoadBuiltin,
            Operation::CreateObject(_) => Opcodes::CreateObject,
            Operation::Delete(_) => Opcodes::Delete,
        }
    }

    /// The operation's structural properties.
    pub fn attributes(&self) -> (r: Attributes)
        ensures
            r == self@.attributes(),
    {
        match self {
            Operation::LoadInt(_)
            | Operation::LoadFloat(_)
            | Operation::LoadBool(_)
            | Operation::LoadString(_)
            | Operation::LoadUndefined => Attributes::primitive(),
            Operation::BeginIf => Attributes::block_start(),
            Operation::EndIf => Attributes::block_end(),
            Operation::BeginElse(_) => Attributes::block_start().union(Attributes::block_end()),
            Operation::BeginFor(_) => Attributes::loop_start(),
            Operation::EndFor => Attributes::loop_end(),
            Operation::BeginFunctionDefinition(_) => Attributes::function_start(),
            Operation::EndFunctionDefinition => Attributes::function_end(),
            _ => Attributes::none(),
        }
    }

    /// The number of variables that the operation reads.
    pub fn num_inputs(&self) -> (r: u8)
        requires
            self@.wf(),
        ensures
            r == self@.num_inputs(),
    {
        match self {
            Operation::Copy => 2,
            Operation::BeginIf => 1,
            Operation::BeginFor(_) => 3,
            Operation::BinaryOp(_) => 2,
            Operation::UnaryOp(_) => 1,
            Operation::CompareOp(_) => 2,
            Operation::Return => 1,
            Operation::FunctionCall(op) => op.0 + 1,
            Operation::CreateArray(op) => op.0,
            Operation::LoadElement => 2,
            Operation::StoreElement => 3,
            Operation::MethodCall(op) => op.1 + 1,
            Operation::LoadProperty(_) => 1,
            Operation::StoreProperty(_) => 2,
            Operation::LoadBuiltin(op) => op.1,
            Operation::CreateObject(op) => op.0.len() as u8,
            Operation::Delete(_) => 2,
            _ => 0,
        }
    }

    /// The number of variables that the operation defines.
    pub fn num_outputs(&self) -> (r: u8)
        ensures
            r == self@.num_outputs(),
    {
        match self {
            Operation::LoadInt(_)
            | Operation::LoadFloat(_)
            | Operation::LoadBool(_)
            | Operation::LoadString(_)
            | Operation::LoadUndefined
            | Operation::BinaryOp(_)
            | Operation::UnaryOp(_)
            | Operation::CompareOp(_)
            | Operation::BeginFunctionDefinition(_)
            | Operation::FunctionCall(_)
            | Operation::CreateArray(_)
            | Operation::LoadElement
            | Operation::MethodCall(_)
            | Operation::LoadProperty(_)
            | Operation::LoadBuiltin(_)
            | Operation::CreateObject(_) => 1,
            _ => 0,
        }
    }

    /// The number of variables that the operation defines inside the block
    /// it opens.
    pub fn num_temp(&self) -> (r: u8)
        ensures
            r == self@.num_temp(),
    {
        match self {
            Operation::BeginFor(_) => 1,
            Operation::BeginFunctionDefinition(op) => op.0.args_count(),
            _ => 0,
        }
    }

    /// True when the operation opens the block of a loop.
    pub fn is_loop_start(&self) -> (r: bool)
        ensures
            r == self@.is_loop_start(),
    {
        self.attributes().contains(Attributes::loop_start())
    }

    /// True when the operation closes the block of a loop.
    pub fn is_loop_end(&self) -> (r: bool)
        ensures
            r == self@.is_loop_end(),
    {
        self.attributes().contains(Attributes::loop_end())
    }

    /// True when the operation opens a block.
    pub fn is_block_start(&self) -> (r: bool)
        ensures
            r == self@.is_block_start(),
    {
        self.attributes().contains(Attributes::block_start())
    }

    /// True when the operation closes a block.
    pub fn is_block_end(&self) -> (r: bool)
        ensures
            r == self@.is_block_end(),
    {
        self.attributes().contains(Attributes::block_end())
    }

    /// True when the operation opens the body of a function.
    pub fn is_function_start(&self) -> (r: bool)
        ensures
            r == self@.is_function_start(),
    {
        self.attributes().contains(Attributes::function_start())
    }

    /// True when the operation closes the body of a function.
    pub fn is_function_end(&self) -> (r: bool)
        ensures
            r == self@.is_function_end(),
    {
        self.attributes().contains(Attributes::function_end())
    }

    /// True when the operation loads a literal.
    pub fn is_primitive(&self) -> (r: bool)
        ensures
            r == self@.is_primitive(),
    {
        self.attributes().contains(Attributes::primitive())
    }
}

} // verus!
