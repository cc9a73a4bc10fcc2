//! Instructions: an operation together with the variables it reads and
//! defines.

use vstd::prelude::*;
use super::operation::{Operation, OperationView};
use super::variable::Variable;
use crate::utils::float::FloatLiteral;

verus! {

/// The literal that a primitive operation loads.
pub enum Value {
    Int(i64),
    Float(FloatLiteral),
    Str(String),
    Bool(bool),
    Undefined,
}

/// The mathematical value of a `Value`.
pub ghost enum ValueView {
    Int(i64),
    Float(FloatLiteral),
    Str(Seq<char>),
    Bool(bool),
    Undefined,
}

impl View for Value {
    type V = ValueView;

    open spec fn view(&self) -> ValueView {
        match self {
            Value::Int(v) => ValueView::Int(*v),
            Value::Float(v) => ValueView::Float(*v),
            Value::Str(v) => ValueView::Str(v@),
            Value::Bool(v) => ValueView::Bool(*v),
            Value::Undefined => ValueView::Undefined,
        }
    }
}

impl OperationView {
    /// The literal that the operation loads, if it loads one.
    pub open spec fn value(self) -> Option<ValueView> {
        match self {
            OperationView::LoadInt(v) => Some(ValueView::Int(v)),
            OperationView::LoadFloat(v) => Some(ValueView::Float(v)),
            OperationView::LoadString(v) => Some(ValueView::Str(v)),
            OperationView::LoadBool(v) => Some(ValueView::Bool(v)),
            OperationView::LoadUndefined => Some(ValueView::Undefined),
            _ => None,
        }
    }
}

/// One instruction of a program.
pub struct Instruction {
    pub idx: u32,
    pub operation: Operation,
    pub inputs: Vec<Variable>,
    pub outputs: Vec<Variable>,
    pub temp: Vec<Variable>,
}

/// The mathematical value of an `Instruction`.
pub ghost struct InstructionView {
    pub idx: u32,
    pub operation: OperationView,
    pub inputs: Seq<Variable>,
    pub outputs: Seq<Variable>,
    pub temp: Seq<Variable>,
}

impl View for Instruction {
    type V = InstructionView;

    open spec fn view(&self) -> InstructionView {
        InstructionView {
            idx: self.idx,
            operation: self.operation@,
            inputs: self.inputs@,
            outputs: self.outputs@,
            temp: self.temp@,
        }
    }
}

impl InstructionView {
    /// The instruction has as many inputs, outputs and temporaries as its
    /// operation asks for.
    pub open spec fn wf(self) -> bool {
        &&& self.operation.wf()
        &&& self.inputs.len() == self.operation.num_inputs()
        &&& self.outputs.len() == self.operation.num_outputs()
        &&& self.temp.len() == self.operation.num_temp()
    }
}

impl Instruction {
    /// An instruction from its parts. The number of inputs must be the one
    /// that the operation asks for.
    pub fn new(
        idx: u32,
        operation: Operation,
        inputs: Vec<Variable>,
        outputs: Vec<Variable>,
        temp: Vec<Variable>,
    ) -> (r: Instruction)
        requires
            operation@.wf(),
            inputs@.len() == operation@.num_inputs(),
        ensures
            r@ == (InstructionView {
                idx,
                operation: operation@,
                inputs: inputs@,
                outputs: outputs@,
                temp: temp@,
            }),
    {
        Instruction { idx, operation, inputs, outputs, temp }
    }

    /// The literal that the instruction loads. Only an instruction with a
    /// primitive operation has one.
    pub fn getval(&self) -> (r: Value)
        requires
            self@.operation.is_primitive(),
        ensures
            Some(r@) == self@.operation.value(),
    {
        proof {
            super::operation::lemma_attributes(self@.operation);
        }
        match &self.operation {
            Operation::LoadInt(v) => Value::Int(*v),
            Operation::LoadFloat(v) => Value::Float(*v),
            Operation::LoadBool(v) => Value::Bool(*v),
            Operation::LoadString(v) => Value::Str(v.clone()),
            Operation::LoadUndefined => Value::Undefined,
            _ => vstd::pervasive::unreached(),
        }
    }

    /// The input at `idx`.
    pub fn input_at(&self, idx: usize) -> (r: &Variable)
        requires
            idx < self@.inputs.len(),
        ensures
            *r == self@.inputs[idx as int],
    {
        &self.inputs[idx]
    }

    /// The output at `idx`.
    pub fn output_at(&self, idx: usize) -> (r: &Variable)
        requires
            idx < self@.outputs.len(),
        ensures
            *r == self@.outputs[idx as int],
    {
        &self.outputs[idx]
    }

    /// The temporary at `idx`.
    pub fn temp_at(&self, idx: usize) -> (r: &Variable)
        requires
            idx < self@.temp.len(),
        ensures
            *r == self@.temp[idx as int],
    {
        &self.temp[idx]
    }

    /// The variables that the instruction reads.
    pub fn inputs(&self) -> (r: &Vec<Variable>)
        ensures
            r@ == self@.inputs,
    {
        &self.inputs
    }

    /// The variables that the instruction defines in the enclosing scope.
    pub fn outputs(&self) -> (r: &Vec<Variable>)
        ensures
            r@ == self@.outputs,
    {
        &self.outputs
    }

    /// The variables that the instruction defines inside the block it opens.
    pub fn temp(&self) -> (r: &Vec<Variable>)
        ensures
            r@ == self@.temp,
    {
        &self.temp
    }
}

} // verus!
