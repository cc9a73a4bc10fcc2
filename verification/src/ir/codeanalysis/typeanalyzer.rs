//! The type analyzer: it infers a type for every variable as instructions
//! are appended, and keeps the signature of every function.

use std::collections::HashMap;
use vstd::prelude::*;
use super::super::instruction::{Instruction, InstructionView};
use super::super::operation::{BeginFunctionDefinition, Operation, OperationView};
use super::super::operators::{BinaryOperators, UnaryOperators};
use super::super::variable::Variable;
use super::types::{
    FunctionSignature,
    FunctionSignatureView,
    MethodArg,
    MethodSignatureView,
    PType,
    Shape,
    Type,
};

verus! {

broadcast use vstd::std_specs::hash::group_hash_axioms;

/// The types after `t` is recorded for the variable `v`: a variable that is
/// new gets `t`; one that has a type gains the primitive types of `t`, and
/// takes its shape unless that is empty.
pub open spec fn set_type(types: Map<u32, Type>, v: Variable, t: Type) -> Map<u32, Type> {
    if types.contains_key(v.0) {
        let cur = types[v.0];
        types.insert(
            v.0,
            Type {
                ptype: cur.ptype.union(t.ptype),
                shape: if t.shape != Shape::none() {
                    t.shape
                } else {
                    cur.shape
                },
            },
        )
    } else {
        types.insert(v.0, t)
    }
}

/// The types after a use of `v` that suggests the type `t`: `t` is recorded
/// for `v` if `v` may still be unknown, and nothing changes otherwise.
pub open spec fn promote(types: Map<u32, Type>, v: Variable, t: Type) -> Map<u32, Type> {
    if types[v.0].is_unknown() {
        set_type(types, v, t)
    } else {
        types
    }
}

/// The type of the result of a binary operator on operands of the given
/// types.
pub open spec fn binary_result(op: BinaryOperators, lhs: Type, rhs: Type) -> Type {
    match op {
        BinaryOperators::Add => if lhs.is_numeric() && rhs.is_numeric() {
            if lhs.is_integer() && rhs.is_integer() {
                Type::int_type()
            } else {
                Type::float_type()
            }
        } else {
            Type::string_type()
        },
        BinaryOperators::Sub | BinaryOperators::Mul => if lhs.is_integer() && rhs.is_integer() {
            Type::int_type()
        } else {
            Type::float_type()
        },
        BinaryOperators::Div => Type::float_type(),
        BinaryOperators::Mod
        | BinaryOperators::BitAnd
        | BinaryOperators::BitOr
        | BinaryOperators::Xor
        | BinaryOperators::LShift
        | BinaryOperators::RShift => Type::int_type(),
        BinaryOperators::LogicAnd | BinaryOperators::LogicOr => Type::bool_type(),
    }
}

/// The type of the result of a unary operator on an operand of the given
/// type.
pub open spec fn unary_result(op: UnaryOperators, operand: Type) -> Type {
    match op {
        UnaryOperators::Inc | UnaryOperators::Dec | UnaryOperators::BitwiseNot => if operand.is_int()
            || operand.is_bool() {
            Type::int_type()
        } else {
            Type::float_type()
        },
        UnaryOperators::LogicalNot => Type::bool_type(),
    }
}

/// An arithmetic or bitwise operator on two operands that are both exactly
/// one of integer, float, boolean and undefined gives an integer or a float.
pub proof fn lemma_binary_result_numeric(op: BinaryOperators, lhs: Type, rhs: Type)
    requires
        lhs.is_numeric(),
        rhs.is_numeric(),
        op != BinaryOperators::LogicAnd,
        op != BinaryOperators::LogicOr,
    ensures
        binary_result(op, lhs, rhs) == Type::int_type() || binary_result(op, lhs, rhs)
            == Type::float_type(),
        !lhs.is_unknown(),
        !rhs.is_unknown(),
{
    assert(0x01u8 & 0x40 != 0x40 && 0x02u8 & 0x40 != 0x40 && 0x08u8 & 0x40 != 0x40 && 0x20u8
        & 0x40 != 0x40) by (bit_vector);
}

/// The type of a loop's counter.
pub open spec fn counter_type() -> Type {
    Type::int_type().union(Type::float_type()).union(Type::bool_type())
}

/// The type of what is read from an element or a property.
pub open spec fn element_type() -> Type {
    Type::int_type().union(Type::float_type()).union(Type::object_type())
}

/// The type of an object literal.
pub open spec fn custom_type() -> Type {
    Type { ptype: PType::object(), shape: Shape::custom() }
}

/// The types after the first `n` of `vars` are recorded as unknown.
pub open spec fn set_unknown(types: Map<u32, Type>, vars: Seq<Variable>, n: int) -> Map<u32, Type>
    decreases n,
{
    if n <= 0 {
        types
    } else {
        set_type(set_unknown(types, vars, n - 1), vars[n - 1], Type::unknown_type())
    }
}

/// The types after the arguments of a method call, which are the inputs
/// from the second to the one before `n`, are promoted to what the parameter
/// list asks for. The list is walked again from its start where there are
/// more arguments than entries.
pub open spec fn promote_args(
    types: Map<u32, Type>,
    inputs: Seq<Variable>,
    params: Seq<MethodArg>,
    n: int,
) -> Map<u32, Type>
    decreases n,
{
    if n <= 1 {
        types
    } else {
        promote(
            promote_args(types, inputs, params, n - 1),
            inputs[n - 1],
            params[(n - 2) % (params.len() as int)].arg_type(),
        )
    }
}

/// True when the variable `k` may still be unknown.
pub open spec fn may_be_unknown(types: Map<u32, Type>, k: u32) -> bool {
    types[k].is_unknown()
}

/// The types of the given variables.
pub open spec fn types_of(types: Map<u32, Type>, vars: Seq<Variable>) -> Seq<Type> {
    Seq::new(vars.len(), |i: int| types[vars[i].0])
}

/// The mathematical value of a `TypeAnalyzer`.
pub ghost struct TypeAnalyzerView {
    /// The type inferred for each variable.
    pub types: Map<u32, Type>,
    /// For each function being defined, the innermost last: the function's
    /// variable followed by its parameters, and the union of the types it
    /// was seen to return.
    pub function_stack: Seq<(Seq<Variable>, Type)>,
    /// The signature of each function.
    pub signatures: Map<u32, FunctionSignatureView>,
}

impl TypeAnalyzerView {
    /// Every variable in `vars` has a type.
    pub open spec fn typed(self, vars: Seq<Variable>) -> bool {
        forall|i: int| 0 <= i < vars.len() ==> self.types.contains_key(#[trigger] vars[i].0)
    }

    /// A frame of the function stack names a function that has a signature
    /// with as many parameters as the frame, and its parameters have types.
    pub open spec fn frame_wf(self, frame: (Seq<Variable>, Type)) -> bool {
        &&& frame.0.len() >= 1
        &&& self.signatures.contains_key(frame.0[0].0)
        &&& self.signatures[frame.0[0].0].num_inputs == frame.0.len() - 1
        &&& self.typed(frame.0.subrange(1, frame.0.len() as int))
    }

    /// Every frame of the function stack is well formed.
    pub open spec fn wf(self) -> bool {
        forall|i: int|
            0 <= i < self.function_stack.len() ==> self.frame_wf(#[trigger] self.function_stack[i])
    }

    /// What the instruction needs of the analyzer: the variables whose type
    /// it reads have one, a function that is called has a signature, a
    /// function whose definition begins is new, and a return or the end of a
    /// definition comes inside a definition.
    pub open spec fn fits(self, inst: InstructionView) -> bool {
        match inst.operation {
            OperationView::BeginIf | OperationView::UnaryOp(_) | OperationView::LoadProperty(_) => {
                self.types.contains_key(inst.inputs[0].0)
            },
            OperationView::Copy => self.types.contains_key(inst.inputs[1].0),
            OperationView::BinaryOp(_) | OperationView::CompareOp(_) | OperationView::LoadElement
            | OperationView::StoreProperty(_) => {
                &&& self.types.contains_key(inst.inputs[0].0)
                &&& self.types.contains_key(inst.inputs[1].0)
            },
            OperationView::StoreElement => {
                &&& self.types.contains_key(inst.inputs[0].0)
                &&& self.types.contains_key(inst.inputs[1].0)
                &&& self.types.contains_key(inst.inputs[2].0)
            },
            OperationView::Delete(indexed) => {
                &&& self.types.contains_key(inst.inputs[0].0)
                &&& indexed ==> self.types.contains_key(inst.inputs[1].0)
            },
            OperationView::BeginFunctionDefinition(_) => !self.signatures.contains_key(
                inst.outputs[0].0,
            ),
            OperationView::EndFunctionDefinition => self.function_stack.len() > 0,
            OperationView::Return => {
                &&& self.function_stack.len() > 0
                &&& self.types.contains_key(inst.inputs[0].0)
            },
            OperationView::FunctionCall(_) => self.signatures.contains_key(inst.inputs[0].0),
            OperationView::MethodCall(sig, _) => {
                &&& self.typed(inst.inputs.subrange(1, inst.inputs.len() as int))
                &&& forall|i: int|
                    1 <= i < inst.inputs.len() && self.types[#[trigger] inst.inputs[i].0].is_unknown()
                        ==> sig.input_types.len() > 0
            },
            _ => true,
        }
    }

    /// The analyzer with other types.
    pub open spec fn with_types(self, types: Map<u32, Type>) -> TypeAnalyzerView {
        TypeAnalyzerView { types, ..self }
    }

    /// The analyzer after the instruction.
    pub open spec fn step(self, inst: InstructionView) -> TypeAnalyzerView {
        let t = self.types;
        match inst.operation {
            OperationView::LoadInt(_) => self.with_types(
                set_type(t, inst.outputs[0], Type::int_type()),
            ),
            OperationView::LoadFloat(_) => self.with_types(
                set_type(t, inst.outputs[0], Type::float_type()),
            ),
            OperationView::LoadBool(_) => self.with_types(
                set_type(t, inst.outputs[0], Type::bool_type()),
            ),
            OperationView::LoadString(_) => self.with_types(
                set_type(t, inst.outputs[0], Type::string_type()),
            ),
            OperationView::LoadUndefined => self.with_types(
                set_type(t, inst.outputs[0], Type::undefined_type()),
            ),
            OperationView::BeginIf => self.with_types(
                promote(t, inst.inputs[0], Type::bool_type().union(Type::unknown_type())),
            ),
            OperationView::Copy => self.with_types(
                set_type(t, inst.inputs[0], t[inst.inputs[1].0]),
            ),
            OperationView::BeginFor(_, _) => self.with_types(
                set_type(t, inst.temp[0], counter_type()),
            ),
            OperationView::BinaryOp(op) => {
                let hint = Type::int_type().union(Type::unknown_type());
                let t2 = promote(promote(t, inst.inputs[0], hint), inst.inputs[1], hint);
                self.with_types(
                    set_type(
                        t2,
                        inst.outputs[0],
                        binary_result(op, t2[inst.inputs[0].0], t2[inst.inputs[1].0]),
                    ),
                )
            },
            OperationView::UnaryOp(op) => {
                let hint = Type::int_type().union(Type::unknown_type());
                let t1 = promote(t, inst.inputs[0], hint);
                self.with_types(
                    set_type(t1, inst.outputs[0], unary_result(op, t1[inst.inputs[0].0])),
                )
            },
            OperationView::CompareOp(_) => {
                let hint = Type::int_type().union(Type::unknown_type());
                let t2 = promote(promote(t, inst.inputs[0], hint), inst.inputs[1], hint);
                self.with_types(set_type(t2, inst.outputs[0], Type::bool_type()))
            },
            OperationView::BeginFunctionDefinition(sig) => {
                let func = inst.outputs[0];
                TypeAnalyzerView {
                    types: set_type(
                        set_unknown(t, inst.temp, inst.temp.len() as int),
                        func,
                        Type::function_type(),
                    ),
                    function_stack: self.function_stack.push(
                        (seq![func] + inst.temp, sig.output_type),
                    ),
                    signatures: self.signatures.insert(
                        func.0,
                        FunctionSignatureView { is_constructing: true, ..sig },
                    ),
                }
            },
            OperationView::EndFunctionDefinition => {
                let frame = self.function_stack.last();
                let func = frame.0[0];
                let params = frame.0.subrange(1, frame.0.len() as int);
                let sig = self.signatures[func.0];
                TypeAnalyzerView {
                    types: t,
                    function_stack: self.function_stack.drop_last(),
                    signatures: self.signatures.insert(
                        func.0,
                        FunctionSignatureView {
                            input_types: types_of(t, params),
                            is_constructing: false,
                            ..sig.with_output_type(frame.1)
                        },
                    ),
                }
            },
            OperationView::Return => {
                let frame = self.function_stack.last();
                TypeAnalyzerView {
                    function_stack: self.function_stack.update(
                        self.function_stack.len() - 1,
                        (frame.0, frame.1.union(t[inst.inputs[0].0])),
                    ),
                    ..self
                }
            },
            OperationView::FunctionCall(_) => self.with_types(
                set_type(t, inst.outputs[0], self.signatures[inst.inputs[0].0].output_type),
            ),
            OperationView::CreateArray(_) => self.with_types(
                set_type(t, inst.outputs[0], Type::array_type()),
            ),
            OperationView::LoadElement => {
                let t2 = promote(
                    promote(t, inst.inputs[0], Type::array_type()),
                    inst.inputs[1],
                    Type::int_type(),
                );
                self.with_types(set_type(t2, inst.outputs[0], element_type()))
            },
            OperationView::StoreElement => {
                let t2 = promote(
                    promote(t, inst.inputs[0], Type::array_type()),
                    inst.inputs[1],
                    Type::int_type(),
                );
                self.with_types(promote(t2, inst.inputs[2], element_type()))
            },
            OperationView::MethodCall(sig, _) => self.with_types(
                set_type(
                    promote_args(t, inst.inputs, sig.input_types, inst.inputs.len() as int),
                    inst.outputs[0],
                    sig.output_type,
                ),
            ),
            OperationView::LoadProperty(_) => self.with_types(
                set_type(
                    promote(t, inst.inputs[0], Type::object_type()),
                    inst.outputs[0],
                    element_type(),
                ),
            ),
            OperationView::StoreProperty(_) => {
                let t1 = promote(t, inst.inputs[0], Type::object_type());
                self.with_types(
                    if t1[inst.inputs[1].0].is_unknown() {
                        set_type(t1, inst.inputs[0], element_type())
                    } else {
                        t1
                    },
                )
            },
            OperationView::LoadBuiltin(ctor, _) => self.with_types(
                set_type(t, inst.outputs[0], ctor.output_type()),
            ),
            OperationView::CreateObject(_) => self.with_types(
                set_type(t, inst.outputs[0], custom_type()),
            ),
            OperationView::Delete(indexed) => {
                let t1 = if indexed {
                    promote(t, inst.inputs[1], Type::int_type())
                } else {
                    t
                };
                self.with_types(promote(t1, inst.inputs[0], custom_type()))
            },
            _ => self,
        }
    }
}

/// The instruction as the analyzer leaves it: the signature of a function
/// whose definition begins is marked as being defined.
pub open spec fn mark_constructing(inst: InstructionView) -> InstructionView {
    match inst.operation {
        OperationView::BeginFunctionDefinition(sig) => InstructionView {
            operation: OperationView::BeginFunctionDefinition(
                FunctionSignatureView { is_constructing: true, ..sig },
            ),
            ..inst
        },
        _ => inst,
    }
}

/// Recording a type never removes a variable, and keeps what may be unknown
/// so.
pub proof fn lemma_set_type(types: Map<u32, Type>, v: Variable, t: Type)
    ensures
        set_type(types, v, t).contains_key(v.0),
        forall|k: u32| types.contains_key(k) ==> #[trigger] set_type(types, v, t).contains_key(k),
        forall|k: u32|
            types.contains_key(k) && #[trigger] may_be_unknown(set_type(types, v, t), k)
                ==> may_be_unknown(types, k) || (k == v.0 && t.is_unknown()),
        forall|k: u32| k != v.0 && types.contains_key(k) ==> #[trigger] set_type(types, v, t)[k] == types[k],
{
    if types.contains_key(v.0) {
        let a = types[v.0].ptype.bits;
        let b = t.ptype.bits;
        assert(((a | b) & 0x40 == 0x40) <==> (a & 0x40 == 0x40 || b & 0x40 == 0x40))
            by (bit_vector);
    }
}

/// The type analyzer.
pub struct TypeAnalyzer {
    pub type_map: HashMap<u32, Type>,
    pub function_stack: Vec<(Vec<Variable>, Type)>,
    pub signature_map: HashMap<u32, FunctionSignature>,
}

impl View for TypeAnalyzer {
    type V = TypeAnalyzerView;

    open spec fn view(&self) -> TypeAnalyzerView {
        TypeAnalyzerView {
            types: self.type_map@,
            function_stack: self.function_stack@.map_values(
                |f: (Vec<Variable>, Type)| (f.0@, f.1),
            ),
            signatures: self.signature_map@.map_values(|s: FunctionSignature| s@),
        }
    }
}

impl TypeAnalyzer {
    /// The analyzer of an empty program: no variable has a type, no
    /// function a signature.
    pub fn new() -> (r: TypeAnalyzer)
        ensures
            r@.types == Map::<u32, Type>::empty(),
            r@.function_stack == Seq::<(Seq<Variable>, Type)>::empty(),
            r@.signatures == Map::<u32, FunctionSignatureView>::empty(),
            r@.wf(),
    {
        let r = TypeAnalyzer {
            type_map: HashMap::new(),
            function_stack: Vec::new(),
            signature_map: HashMap::new(),
        };
        assert(r@.function_stack =~= Seq::<(Seq<Variable>, Type)>::empty());
        assert(r@.signatures =~= Map::<u32, FunctionSignatureView>::empty());
        r
    }

    /// Records the type `var_type` for `variable`.
    pub fn set_type(&mut self, variable: &Variable, var_type: Type)
        ensures
            final(self)@ == old(self)@.with_types(set_type(old(self)@.types, *variable, var_type)),
    {
        let cur: Option<Type> = match self.type_map.get(&variable.0) {
            Some(t) => Some(*t),
            None => None,
        };
        match cur {
            Some(cur) => {
                let shape = if var_type.shape != Shape::none() {
                    var_type.shape
                } else {
                    cur.shape
                };
                self.type_map.insert(
                    variable.0,
                    Type { ptype: cur.ptype.union(var_type.ptype), shape },
                );
            },
            None => {
                self.type_map.insert(variable.0, var_type);
            },
        }
    }

    /// The type inferred for `variable`, which must have one.
    pub fn get_type(&self, variable: &Variable) -> (r: Type)
        requires
            self@.types.contains_key(variable.0),
        ensures
            r == self@.types[variable.0],
    {
        match self.type_map.get(&variable.0) {
            Some(t) => *t,
            None => vstd::pervasive::unreached(),
        }
    }

    /// Tells whether `func` has a signature.
    pub fn has_signature(&self, func: Variable) -> (r: bool)
        ensures
            r == self@.signatures.contains_key(func.0),
    {
        self.signature_map.contains_key(&func.0)
    }

    /// The signature of the function `func`, which must have one.
    pub fn get_signature_for(&self, func: Variable) -> (r: &FunctionSignature)
        requires
            self@.signatures.contains_key(func.0),
        ensures
            r@ == self@.signatures[func.0],
    {
        match self.signature_map.get(&func.0) {
            Some(s) => s,
            None => vstd::pervasive::unreached(),
        }
    }

    fn promote(&mut self, variable: &Variable, hint: Type)
        requires
            old(self)@.types.contains_key(variable.0),
        ensures
            final(self)@ == old(self)@.with_types(promote(old(self)@.types, *variable, hint)),
            final(self)@.types.contains_key(variable.0),
            forall|k: u32|
                old(self)@.types.contains_key(k) ==> #[trigger] final(self)@.types.contains_key(k),
    {
        proof {
            lemma_set_type(self@.types, *variable, hint);
        }
        if self.get_type(variable).is_unknown() {
            self.set_type(variable, hint);
        }
    }

    fn set_output(&mut self, inst: &Instruction, t: Type)
        requires
            inst@.outputs.len() == 1,
        ensures
            final(self)@ == old(self)@.with_types(set_type(old(self)@.types, inst@.outputs[0], t)),
    {
        self.set_type(inst.output_at(0), t);
    }

    fn begin_function(&mut self, inst: &mut Instruction)
        requires
            old(self)@.wf(),
            old(inst)@.wf(),
            old(inst)@.operation is BeginFunctionDefinition,
            old(self)@.fits(old(inst)@),
        ensures
            final(self)@ == old(self)@.step(old(inst)@),
            final(self)@.wf(),
            final(inst)@ == mark_constructing(old(inst)@),
    {
        let output_var = *inst.output_at(0);
        let mut inputs: Vec<Variable> = Vec::new();
        inputs.push(output_var);
        let n = inst.temp.len();
        let mut i: usize = 0;
        while i < n
            invariant
                i <= n,
                n == inst@.temp.len(),
                *inst == *old(inst),
                inputs@ == seq![output_var] + inst@.temp.subrange(0, i as int),
                self@ == old(self)@.with_types(set_unknown(old(self)@.types, inst@.temp, i as int)),
                forall|j: int| 0 <= j < i ==> self@.types.contains_key(#[trigger] inst@.temp[j].0),
            decreases n - i,
        {
            let v = inst.temp[i];
            proof {
                lemma_set_type(self@.types, v, Type::unknown_type());
            }
            self.set_type(&v, Type::unknown_type());
            inputs.push(v);
            assert(inputs@ =~= seq![output_var] + inst@.temp.subrange(0, i + 1));
            i = i + 1;
        }
        assert(inst@.temp.subrange(0, i as int) =~= inst@.temp);
        let mut signature = match &inst.operation {
            Operation::BeginFunctionDefinition(op) => op.0.clone(),
            _ => vstd::pervasive::unreached(),
        };
        signature.set_is_constructing();
        let output_type = signature.get_output_type();
        inst.operation = Operation::BeginFunctionDefinition(
            BeginFunctionDefinition(signature.clone()),
        );
        self.function_stack.push((inputs, output_type));
        self.signature_map.insert(output_var.0, signature);
        proof {
            lemma_set_type(self@.types, output_var, Type::function_type());
        }
        self.set_type(&output_var, Type::function_type());
        proof {
            let next = old(self)@.step(old(inst)@);
            assert(self@.function_stack =~= next.function_stack);
            assert(self@.signatures =~= next.signatures);
            assert(self@.types =~= next.types);
            assert forall|k: int| 0 <= k < self@.function_stack.len() implies self@.frame_wf(
                #[trigger] self@.function_stack[k],
            ) by {
                let frame = self@.function_stack[k];
                if k < old(self)@.function_stack.len() {
                    assert(frame == old(self)@.function_stack[k]);
                    assert(old(self)@.frame_wf(frame));
                    let rest = frame.0.subrange(1, frame.0.len() as int);
                    assert forall|j: int| 0 <= j < rest.len() implies self@.types.contains_key(
                        #[trigger] rest[j].0,
                    ) by {
                        assert(old(self)@.types.contains_key(rest[j].0));
                        lemma_set_unknown_keeps(old(self)@.types, inst@.temp, n as int);
                    }
                } else {
                    let rest = frame.0.subrange(1, frame.0.len() as int);
                    assert(rest =~= old(inst)@.temp);
                }
            }
        }
    }

    fn end_function(&mut self)
        requires
            old(self)@.wf(),
            old(self)@.function_stack.len() > 0,
        ensures
            final(self)@ == old(self)@.step(
                InstructionView {
                    idx: 0,
                    operation: OperationView::EndFunctionDefinition,
                    inputs: Seq::empty(),
                    outputs: Seq::empty(),
                    temp: Seq::empty(),
                },
            ),
            final(self)@.wf(),
    {
        let ghost frame = self@.function_stack.last();
        assert(self@.frame_wf(self@.function_stack[self@.function_stack.len() - 1]));
        let (func_vars, output_type) = self.function_stack.pop().unwrap();
        assert(func_vars@ == frame.0 && output_type == frame.1);
        let func_name = func_vars[0];
        let ghost params = frame.0.subrange(1, frame.0.len() as int);
        let mut input_types: Vec<Type> = Vec::new();
        let mut i: usize = 1;
        while i < func_vars.len()
            invariant
                1 <= i <= func_vars@.len(),
                func_vars@ == frame.0,
                params == frame.0.subrange(1, frame.0.len() as int),
                self@.typed(params),
                input_types@ == types_of(self@.types, params.subrange(0, i - 1)),
            decreases func_vars@.len() - i,
        {
            assert(params[i - 1] == func_vars@[i as int]);
            assert(self@.types.contains_key(params[i - 1].0));
            let t = self.get_type(&func_vars[i]);
            input_types.push(t);
            assert(input_types@ =~= types_of(self@.types, params.subrange(0, i as int)));
            i = i + 1;
        }
        assert(params.subrange(0, i - 1) =~= params);
        let mut sig = self.get_signature_for(func_name).clone();
        sig.set_output_type(output_type);
        sig.set_input_types(input_types);
        sig.done_constructing();
        self.signature_map.insert(func_name.0, sig);
        proof {
            let inst = InstructionView {
                idx: 0,
                operation: OperationView::EndFunctionDefinition,
                inputs: Seq::empty(),
                outputs: Seq::empty(),
                temp: Seq::empty(),
            };
            let next = old(self)@.step(inst);
            assert(self@.function_stack =~= next.function_stack);
            assert(self@.signatures =~= next.signatures);
            assert forall|k: int| 0 <= k < self@.function_stack.len() implies self@.frame_wf(
                #[trigger] self@.function_stack[k],
            ) by {
                assert(self@.function_stack[k] == old(self)@.function_stack[k]);
                assert(old(self)@.frame_wf(old(self)@.function_stack[k]));
            }
        }
    }

    fn method_call(&mut self, inst: &Instruction)
        requires
            old(self)@.wf(),
            inst@.wf(),
            inst@.operation is MethodCall,
            old(self)@.fits(inst@),
        ensures
            final(self)@ == old(self)@.step(inst@),
            final(self)@.function_stack == old(self)@.function_stack,
            final(self)@.signatures == old(self)@.signatures,
            forall|k: u32|
                old(self)@.types.contains_key(k) ==> #[trigger] final(self)@.types.contains_key(k),
    {
        let op = match &inst.operation {
            Operation::MethodCall(op) => op,
            _ => vstd::pervasive::unreached(),
        };
        let ghost sig = op.0@;
        let n = inst.inputs.len();
        let count = op.0.min_args_count();
        let mut i: usize = 1;
        while i < n
            invariant
                1 <= i <= n,
                n == inst@.inputs.len(),
                count == sig.input_types.len(),
                sig == op.0@,
                self@ == old(self)@.with_types(
                    promote_args(old(self)@.types, inst@.inputs, sig.input_types, i as int),
                ),
                forall|k: u32|
                    old(self)@.types.contains_key(k) ==> #[trigger] self@.types.contains_key(k),
                forall|k: u32|
                    old(self)@.types.contains_key(k) && #[trigger] may_be_unknown(self@.types, k)
                        ==> may_be_unknown(old(self)@.types, k),
                old(self)@.fits(inst@),
                inst@.operation is MethodCall,
                inst@.operation->MethodCall_0 == sig,
            decreases n - i,
        {
            let inp = inst.inputs[i];
            assert(inst@.inputs.subrange(1, inst@.inputs.len() as int)[i - 1] == inp);
            assert(old(self)@.types.contains_key(inp.0));
            if self.get_type(&inp).is_unknown() {
                assert(may_be_unknown(self@.types, inp.0));
                assert(old(self)@.types[inst@.inputs[i as int].0].is_unknown());
                assert(count > 0);
                let idx = (i - 1) % count;
                let itype = op.0.input_type_at(idx).arg_type();
                proof {
                    lemma_set_type(self@.types, inp, itype);
                }
                self.set_type(&inp, itype);
            }
            i = i + 1;
        }
        self.set_type(inst.output_at(0), op.0.output_type());
        proof {
            lemma_set_type(
                promote_args(old(self)@.types, inst@.inputs, sig.input_types, n as int),
                inst@.outputs[0],
                sig.output_type,
            );
        }
    }

    /// Follows one more instruction: infers the types of what it defines
    /// and, where an input may still be unknown, of what it reads.
    pub fn analyze(&mut self, inst: &mut Instruction)
        requires
            old(self)@.wf(),
            old(inst)@.wf(),
            old(self)@.fits(old(inst)@),
        ensures
            final(self)@ == old(self)@.step(old(inst)@),
            final(self)@.wf(),
            final(inst)@ == mark_constructing(old(inst)@),
    {
        let ghost before = self@;
        match &inst.operation {
            Operation::Nop
            | Operation::EndIf
            | Operation::Continue
            | Operation::Break
            | Operation::BeginElse(_)
            | Operation::EndFor => {},
            Operation::LoadInt(_) => self.set_output(inst, Type::int_type()),
            Operation::LoadFloat(_) => self.set_output(inst, Type::float_type()),
            Operation::LoadBool(_) => self.set_output(inst, Type::bool_type()),
            Operation::LoadString(_) => self.set_output(inst, Type::string_type()),
            Operation::LoadUndefined => self.set_output(inst, Type::undefined_type()),
            Operation::BeginIf => {
                self.promote(inst.input_at(0), Type::bool_type().union(Type::unknown_type()));
            },
            Operation::Copy => {
                let t = self.get_type(inst.input_at(1));
                self.set_type(inst.input_at(0), t);
            },
            Operation::BeginFor(_) => {
                self.set_type(
                    inst.temp_at(0),
                    Type::int_type().union(Type::float_type()).union(Type::bool_type()),
                );
            },
            Operation::BinaryOp(op) => {
                let lhs = inst.input_at(0);
                let rhs = inst.input_at(1);
                let hint = Type::int_type().union(Type::unknown_type());
                self.promote(lhs, hint);
                self.promote(rhs, hint);
                let lhs_type = self.get_type(lhs);
                let rhs_type = self.get_type(rhs);
                let result = match op {
                    BinaryOperators::Add => {
                        if lhs_type.is_numeric() && rhs_type.is_numeric() {
                            if lhs_type.is_integer() && rhs_type.is_integer() {
                                Type::int_type()
                            } else {
                                Type::float_type()
                            }
                        } else {
                            Type::string_type()
                        }
                    },
                    BinaryOperators::Sub | BinaryOperators::Mul => {
                        if lhs_type.is_integer() && rhs_type.is_integer() {
                            Type::int_type()
                        } else {
                            Type::float_type()
                        }
                    },
                    BinaryOperators::Div => Type::float_type(),
                    BinaryOperators::Mod
                    | BinaryOperators::BitAnd
                    | BinaryOperators::BitOr
                    | BinaryOperators::Xor
                    | BinaryOperators::LShift
                    | BinaryOperators::RShift => Type::int_type(),
                    BinaryOperators::LogicAnd | BinaryOperators::LogicOr => Type::bool_type(),
                };
                self.set_output(inst, result);
            },
            Operation::UnaryOp(op) => {
                let operand = inst.input_at(0);
                self.promote(operand, Type::int_type().union(Type::unknown_type()));
                let input_type = self.get_type(operand);
                let result = match op {
                    UnaryOperators::Inc | UnaryOperators::Dec | UnaryOperators::BitwiseNot => {
                        if input_type.is_int() || input_type.is_bool() {
                            Type::int_type()
                        } else {
                            Type::float_type()
                        }
                    },
                    UnaryOperators::LogicalNot => Type::bool_type(),
                };
                self.set_output(inst, result);
            },
            Operation::CompareOp(_) => {
                let hint = Type::int_type().union(Type::unknown_type());
                self.promote(inst.input_at(0), hint);
                self.promote(inst.input_at(1), hint);
                self.set_output(inst, Type::bool_type());
            },
            Operation::BeginFunctionDefinition(_) => {
                self.begin_function(inst);
                return ;
            },
            Operation::EndFunctionDefinition => {
                self.end_function();
                return ;
            },
            Operation::Return => {
                let output_type = self.get_type(inst.input_at(0));
                let n = self.function_stack.len();
                assert(self@.frame_wf(self@.function_stack[n - 1]));
                let (vars, current) = self.function_stack.pop().unwrap();
                self.function_stack.push((vars, current.union(output_type)));
                proof {
                    let next = before.step(inst@);
                    assert(self@.function_stack =~= next.function_stack);
                    assert(self@.signatures =~= next.signatures);
                    assert forall|k: int| 0 <= k < self@.function_stack.len() implies self@.frame_wf(
                        #[trigger] self@.function_stack[k],
                    ) by {
                        assert(before.frame_wf(before.function_stack[k]));
                    }
                }
                return ;
            },
            Operation::FunctionCall(_) => {
                let output_type = self.get_signature_for(*inst.input_at(0)).get_output_type();
                self.set_output(inst, output_type);
            },
            Operation::CreateArray(_) => self.set_output(inst, Type::array_type()),
            Operation::LoadElement => {
                self.promote(inst.input_at(0), Type::array_type());
                self.promote(inst.input_at(1), Type::int_type());
                self.set_output(
                    inst,
                    Type::int_type().union(Type::float_type()).union(Type::object_type()),
                );
            },
            Operation::StoreElement => {
                self.promote(inst.input_at(0), Type::array_type());
                self.promote(inst.input_at(1), Type::int_type());
                self.promote(
                    inst.input_at(2),
                    Type::int_type().union(Type::float_type()).union(Type::object_type()),
                );
            },
            Operation::MethodCall(_) => {
                self.method_call(inst);
            },
            Operation::LoadProperty(_) => {
                self.promote(inst.input_at(0), Type::object_type());
                self.set_output(
                    inst,
                    Type::int_type().union(Type::float_type()).union(Type::object_type()),
                );
            },
            Operation::StoreProperty(_) => {
                let object = inst.input_at(0);
                self.promote(object, Type::object_type());
                if self.get_type(inst.input_at(1)).is_unknown() {
                    self.set_type(
                        object,
                        Type::int_type().union(Type::float_type()).union(Type::object_type()),
                    );
                }
            },
            Operation::LoadBuiltin(op) => {
                let otype = match &op.0 {
                    super::types::ConstructorType::Callable(ms) => ms.output_type(),
                    super::types::ConstructorType::NonCallable(_, otype) => *otype,
                };
                self.set_output(inst, otype);
            },
            Operation::CreateObject(_) => {
                self.set_output(inst, Type { ptype: PType::object(), shape: Shape::custom() });
            },
            Operation::Delete(indexed) => {
                if *indexed {
                    self.promote(inst.input_at(1), Type::int_type());
                }
                self.promote(
                    inst.input_at(0),
                    Type { ptype: PType::object(), shape: Shape::custom() },
                );
            },
        }
        proof {
            assert(self@.function_stack == before.function_stack);
            assert(self@.signatures == before.signatures);
            lemma_types_grow(before, self@);
        }
    }
}

/// Recording the first `n` of `vars` as unknown removes no variable.
proof fn lemma_set_unknown_keeps(types: Map<u32, Type>, vars: Seq<Variable>, n: int)
    ensures
        forall|k: u32| types.contains_key(k) ==> #[trigger] set_unknown(types, vars, n).contains_key(k),
    decreases n,
{
    if n > 0 {
        lemma_set_unknown_keeps(types, vars, n - 1);
        lemma_set_type(set_unknown(types, vars, n - 1), vars[n - 1], Type::unknown_type());
    }
}

/// An analyzer stays well formed when every variable keeps a type and the
/// function stack and the signatures stay as they are.
proof fn lemma_types_grow(before: TypeAnalyzerView, after: TypeAnalyzerView)
    requires
        before.wf(),
        after.function_stack == before.function_stack,
        after.signatures == before.signatures,
        forall|k: u32| before.types.contains_key(k) ==> #[trigger] after.types.contains_key(k),
    ensures
        after.wf(),
{
    assert forall|i: int| 0 <= i < after.function_stack.len() implies after.frame_wf(
        #[trigger] after.function_stack[i],
    ) by {
        assert(before.frame_wf(before.function_stack[i]));
    }
}

/// Promoting the arguments of a method call removes no variable.
proof fn lemma_promote_args_keeps(
    types: Map<u32, Type>,
    inputs: Seq<Variable>,
    params: Seq<MethodArg>,
    n: int,
)
    ensures
        forall|k: u32|
            types.contains_key(k) ==> #[trigger] promote_args(types, inputs, params, n).contains_key(
                k,
            ),
    decreases n,
{
    if n > 1 {
        lemma_promote_args_keeps(types, inputs, params, n - 1);
        lemma_set_type(
            promote_args(types, inputs, params, n - 1),
            inputs[n - 1],
            params[(n - 2) % (params.len() as int)].arg_type(),
        );
    }
}

/// Recording the first `n` of `vars` as unknown gives each of them a type.
proof fn lemma_set_unknown_types(types: Map<u32, Type>, vars: Seq<Variable>, n: int)
    requires
        n <= vars.len(),
    ensures
        forall|j: int| 0 <= j < n ==> set_unknown(types, vars, n).contains_key(#[trigger] vars[j].0),
    decreases n,
{
    if n > 0 {
        lemma_set_unknown_types(types, vars, n - 1);
        lemma_set_type(set_unknown(types, vars, n - 1), vars[n - 1], Type::unknown_type());
    }
}

/// What a step of the analyzer keeps and adds. Every variable that had a
/// type has one; every output and temporary of the instruction has one;
/// every function that had a signature has one, and only the function
/// whose definition begins gains one; the function stack grows by one frame
/// where a definition begins, shrinks by one where one ends, and keeps the
/// variables of the frames that stay.
pub proof fn lemma_step(a: TypeAnalyzerView, inst: InstructionView)
    requires
        a.wf(),
        inst.wf(),
        a.fits(inst),
    ensures
        forall|k: u32| a.types.contains_key(k) ==> #[trigger] a.step(inst).types.contains_key(k),
        forall|j: int|
            0 <= j < inst.outputs.len() ==> a.step(inst).types.contains_key(
                #[trigger] inst.outputs[j].0,
            ),
        forall|j: int|
            0 <= j < inst.temp.len() ==> a.step(inst).types.contains_key(#[trigger] inst.temp[j].0),
        forall|k: u32|
            a.signatures.contains_key(k) ==> #[trigger] a.step(inst).signatures.contains_key(k),
        forall|k: u32| #[trigger]
            a.step(inst).signatures.contains_key(k) ==> a.signatures.contains_key(k) || (
            inst.operation is BeginFunctionDefinition && k == inst.outputs[0].0),
        a.step(inst).function_stack.len() == a.function_stack.len() + (if inst.operation is BeginFunctionDefinition {
            1int
        } else if inst.operation is EndFunctionDefinition {
            -1int
        } else {
            0int
        }),
        forall|j: int|
            0 <= j < a.function_stack.len() && j < a.step(inst).function_stack.len() ==> (
            #[trigger] a.step(inst).function_stack[j]).0 == a.function_stack[j].0,
{
    let t = a.types;
    let hint = Type::int_type().union(Type::unknown_type());
    match inst.operation {
        OperationView::LoadInt(_) => lemma_set_type(t, inst.outputs[0], Type::int_type()),
        OperationView::LoadFloat(_) => lemma_set_type(t, inst.outputs[0], Type::float_type()),
        OperationView::LoadBool(_) => lemma_set_type(t, inst.outputs[0], Type::bool_type()),
        OperationView::LoadString(_) => lemma_set_type(t, inst.outputs[0], Type::string_type()),
        OperationView::LoadUndefined => lemma_set_type(t, inst.outputs[0], Type::undefined_type()),
        OperationView::BeginIf => lemma_set_type(
            t,
            inst.inputs[0],
            Type::bool_type().union(Type::unknown_type()),
        ),
        OperationView::Copy => lemma_set_type(t, inst.inputs[0], t[inst.inputs[1].0]),
        OperationView::BeginFor(_, _) => lemma_set_type(t, inst.temp[0], counter_type()),
        OperationView::BinaryOp(op) => {
            lemma_set_type(t, inst.inputs[0], hint);
            let t1 = promote(t, inst.inputs[0], hint);
            lemma_set_type(t1, inst.inputs[1], hint);
            let t2 = promote(t1, inst.inputs[1], hint);
            lemma_set_type(
                t2,
                inst.outputs[0],
                binary_result(op, t2[inst.inputs[0].0], t2[inst.inputs[1].0]),
            );
        },
        OperationView::UnaryOp(op) => {
            lemma_set_type(t, inst.inputs[0], hint);
            let t1 = promote(t, inst.inputs[0], hint);
            lemma_set_type(t1, inst.outputs[0], unary_result(op, t1[inst.inputs[0].0]));
        },
        OperationView::CompareOp(_) => {
            lemma_set_type(t, inst.inputs[0], hint);
            let t1 = promote(t, inst.inputs[0], hint);
            lemma_set_type(t1, inst.inputs[1], hint);
            let t2 = promote(t1, inst.inputs[1], hint);
            lemma_set_type(t2, inst.outputs[0], Type::bool_type());
        },
        OperationView::BeginFunctionDefinition(sig) => {
            let n = inst.temp.len() as int;
            lemma_set_unknown_keeps(t, inst.temp, n);
            lemma_set_unknown_types(t, inst.temp, n);
            lemma_set_type(set_unknown(t, inst.temp, n), inst.outputs[0], Type::function_type());
        },
        OperationView::EndFunctionDefinition => {
            assert(a.frame_wf(a.function_stack[a.function_stack.len() - 1]));
        },
        OperationView::Return => {},
        OperationView::FunctionCall(_) => lemma_set_type(
            t,
            inst.outputs[0],
            a.signatures[inst.inputs[0].0].output_type,
        ),
        OperationView::CreateArray(_) => lemma_set_type(t, inst.outputs[0], Type::array_type()),
        OperationView::LoadElement => {
            lemma_set_type(t, inst.inputs[0], Type::array_type());
            let t1 = promote(t, inst.inputs[0], Type::array_type());
            lemma_set_type(t1, inst.inputs[1], Type::int_type());
            let t2 = promote(t1, inst.inputs[1], Type::int_type());
            lemma_set_type(t2, inst.outputs[0], element_type());
        },
        OperationView::StoreElement => {
            lemma_set_type(t, inst.inputs[0], Type::array_type());
            let t1 = promote(t, inst.inputs[0], Type::array_type());
            lemma_set_type(t1, inst.inputs[1], Type::int_type());
            let t2 = promote(t1, inst.inputs[1], Type::int_type());
            lemma_set_type(t2, inst.inputs[2], element_type());
        },
        OperationView::MethodCall(sig, _) => {
            let n = inst.inputs.len() as int;
            lemma_promote_args_keeps(t, inst.inputs, sig.input_types, n);
            lemma_set_type(
                promote_args(t, inst.inputs, sig.input_types, n),
                inst.outputs[0],
                sig.output_type,
            );
        },
        OperationView::LoadProperty(_) => {
            lemma_set_type(t, inst.inputs[0], Type::object_type());
            lemma_set_type(
                promote(t, inst.inputs[0], Type::object_type()),
                inst.outputs[0],
                element_type(),
            );
        },
        OperationView::StoreProperty(_) => {
            lemma_set_type(t, inst.inputs[0], Type::object_type());
            lemma_set_type(
                promote(t, inst.inputs[0], Type::object_type()),
                inst.inputs[0],
                element_type(),
            );
        },
        OperationView::LoadBuiltin(ctor, _) => lemma_set_type(
            t,
            inst.outputs[0],
            ctor.output_type(),
        ),
        OperationView::CreateObject(_) => lemma_set_type(t, inst.outputs[0], custom_type()),
        OperationView::Delete(indexed) => {
            lemma_set_type(t, inst.inputs[1], Type::int_type());
            let t1 = if indexed {
                promote(t, inst.inputs[1], Type::int_type())
            } else {
                t
            };
            lemma_set_type(t1, inst.inputs[0], custom_type());
        },
        _ => {},
    }
}

} // verus!
