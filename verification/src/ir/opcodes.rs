//! The operation codes of the intermediate representation.

use vstd::prelude::*;

verus! {

/// One code for each kind of operation.
#[derive(Clone, Copy, Debug, PartialEq, Eq, Structural)]
pub enum Opcodes {
    Nop,
    LoadInt,
    LoadFloat,
    LoadString,
    LoadUndefined,
    LoadBool,
    Copy,
    BeginIf,
    EndIf,
    BeginElse,
    BeginFor,
    EndFor,
    Break,
    Continue,
    BinaryOp,
    UnaryOp,
    CompareOp,
    BeginFunctionDefinition,
    EndFunctionDefinition,
    Return,
    FunctionCall,
    CreateArray,
    LoadElement,
    StoreElement,
    MethodCall,
    LoadProperty,
    StoreProperty,
    LoadBuiltin,
    CreateObject,
    Delete,
}

} // verus!
