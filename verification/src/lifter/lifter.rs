//! The lowering of instructions to lines of JavaScript.

use vstd::prelude::*;
use vstd::string::*;
use super::emitter::{with_line, Emitter, INDENT_SPACES};
use crate::ir::codeanalysis::types::{ConstructorType, ConstructorTypeView};
use crate::ir::instruction::{Instruction, InstructionView};
use crate::ir::operation::{lemma_attributes, texts, Operation, OperationView};
use crate::ir::operators::UnaryOperators;
use crate::ir::program::{lemma_valid_depth, scopes_after, valid, Program, MAX_SCOPE_DEPTH};
use crate::ir::variable::Variable;
use crate::utils::probablity::{ratio_accept, Probablity};
use crate::utils::random::Random;
use crate::utils::text::{push_char, push_signed_decimal, signed_decimal};

verus! {

/// The names of the variables, separated by a comma and a space.
pub open spec fn joined(vars: Seq<Variable>) -> Seq<char>
    decreases vars.len(),
{
    if vars.len() == 0 {
        Seq::empty()
    } else if vars.len() == 1 {
        vars[0].name()
    } else {
        joined(vars.drop_last()) + ", "@ + vars.last().name()
    }
}

/// The names of the variables as they stand in a parameter or argument
/// list: separated by a comma and a space, and followed by one space unless
/// there is none.
pub open spec fn listed(vars: Seq<Variable>) -> Seq<char> {
    if vars.len() == 0 {
        Seq::empty()
    } else {
        joined(vars) + " "@
    }
}

/// The first `n` fields of an object literal: each a property name, a colon
/// and the name of a variable, separated by a comma and a space.
pub open spec fn fields(props: Seq<Seq<char>>, vars: Seq<Variable>, n: int) -> Seq<char>
    decreases n,
{
    if n <= 0 {
        Seq::empty()
    } else if n == 1 {
        props[0] + ": "@ + vars[0].name()
    } else {
        fields(props, vars, n - 1) + ", "@ + props[n - 1] + ": "@ + vars[n - 1].name()
    }
}

/// The beginning of a line that defines the variable `out`.
pub open spec fn definition(out: Variable) -> Seq<char> {
    "var "@ + out.name() + " = "@
}

/// The line of JavaScript that an instruction is lowered to. The coin
/// decides between two forms where an operation has two.
pub open spec fn line(inst: InstructionView, coin: bool) -> Seq<char> {
    let i = inst.inputs;
    let o = inst.outputs;
    match inst.operation {
        OperationView::Nop => Seq::empty(),
        OperationView::LoadInt(v) => definition(o[0]) + signed_decimal(v as int) + ";"@,
        OperationView::LoadFloat(v) => definition(o[0]) + v.text() + ";"@,
        OperationView::LoadString(v) => definition(o[0]) + "\""@ + v + "\""@ + ";"@,
        OperationView::LoadBool(v) => definition(o[0]) + (if v {
            "true"@
        } else {
            "false"@
        }) + ";"@,
        OperationView::LoadUndefined => definition(o[0]) + "undefined"@ + ";"@,
        OperationView::Copy => definition(i[0]) + i[1].name() + ";"@,
        OperationView::BeginIf => "if ("@ + i[0].name() + ") {"@,
        OperationView::BeginElse => "} else {"@,
        OperationView::EndIf | OperationView::EndFor | OperationView::EndFunctionDefinition => "}"@,
        OperationView::BeginFor(step, comparator) => "for (var "@ + inst.temp[0].name() + " = "@
            + i[0].name() + "; "@ + inst.temp[0].name() + " "@ + comparator.spec_rep() + " "@
            + i[1].name() + "; "@ + inst.temp[0].name() + step + "){"@,
        OperationView::Break => "break;"@,
        OperationView::Continue => "continue;"@,
        OperationView::BinaryOp(op) => definition(o[0]) + i[0].name() + " "@ + op.spec_rep() + " "@
            + i[1].name() + ";"@,
        OperationView::UnaryOp(op) => if op == UnaryOperators::Inc || op == UnaryOperators::Dec {
            definition(o[0]) + i[0].name() + op.spec_rep() + ";"@
        } else {
            definition(o[0]) + op.spec_rep() + i[0].name() + ";"@
        },
        OperationView::CompareOp(op) => definition(o[0]) + i[0].name() + " "@ + op.spec_rep() + " "@
            + i[1].name() + ";"@,
        OperationView::BeginFunctionDefinition(_) => "function "@ + o[0].name() + "("@ + listed(
            inst.temp,
        ) + ") {"@,
        OperationView::Return => "return "@ + i[0].name() + ";"@,
        OperationView::FunctionCall(_) => definition(o[0]) + i[0].name() + "("@ + listed(
            i.subrange(1, i.len() as int),
        ) + ");"@,
        OperationView::CreateArray(_) => if coin {
            definition(o[0]) + "["@ + joined(i) + "];"@
        } else {
            definition(o[0]) + "Array("@ + joined(i) + ");"@
        },
        OperationView::LoadElement => definition(o[0]) + i[0].name() + "["@ + i[1].name() + "];"@,
        OperationView::StoreElement => i[0].name() + "["@ + i[1].name() + "] = "@ + i[2].name()
            + ";"@,
        OperationView::MethodCall(sig, _) => definition(o[0]) + i[0].name() + "."@ + sig.name
            + "("@ + joined(i.subrange(1, i.len() as int)) + ");"@,
        OperationView::LoadProperty(prop) => definition(o[0]) + i[0].name() + "."@ + prop,
        OperationView::StoreProperty(prop) => if coin {
            i[0].name() + "."@ + prop + " = "@ + i[1].name()
        } else {
            i[0].name() + "[\""@ + prop + "\"] = "@ + i[1].name()
        },
        OperationView::LoadBuiltin(ctor, _) => match ctor {
            ConstructorTypeView::Callable(sig) => definition(o[0]) + "new "@ + sig.name + "("@
                + joined(i) + ");"@,
            ConstructorTypeView::NonCallable(name, _) => definition(o[0]) + name,
        },
        OperationView::CreateObject(props) => definition(o[0]) + "{"@ + fields(
            props,
            i,
            props.len() as int,
        ) + "};"@,
        OperationView::Delete(_) => "delete "@ + i[0].name() + "["@ + i[1].name() + "]"@,
    }
}

/// The probability, in tenths, of the first of the two forms of an
/// operation that has two.
pub open spec fn coin_tenths(op: OperationView) -> Option<u8> {
    match op {
        OperationView::CreateArray(_) => Some(5u8),
        OperationView::StoreProperty(_) => Some(7u8),
        _ => None,
    }
}

/// The mathematical value of a `Lifter`: the text emitted, the indentation
/// and the state of the random number generator.
pub ghost struct LifterView {
    pub code: Seq<char>,
    pub indent: u8,
    pub rng: u64,
}

/// The indentation of the line that an operation is lowered to: one level
/// less than before for an operation that ends a block.
pub open spec fn line_indent(indent: u8, op: OperationView) -> int {
    if op.is_block_end() {
        indent - INDENT_SPACES
    } else {
        indent as int
    }
}

/// An instruction fits the lifter when the indentation stays within a
/// byte: there is a level to leave where it ends a block, and room for one
/// more where it starts one.
pub open spec fn lift_fits(st: LifterView, inst: InstructionView) -> bool {
    &&& 0 <= line_indent(st.indent, inst.operation)
    &&& inst.operation.is_block_start() ==> line_indent(st.indent, inst.operation) + INDENT_SPACES
        <= u8::MAX
}

/// The lifter after an instruction: its line is added at the indentation
/// it calls for, and the lines that follow are indented one level more if
/// it starts a block. Nothing happens for an instruction that does nothing.
pub open spec fn lift_step(st: LifterView, inst: InstructionView) -> LifterView {
    if inst.operation is Nop {
        st
    } else {
        let (coin, rng) = match coin_tenths(inst.operation) {
            Some(tenths) => ratio_accept(st.rng, tenths as nat, 10),
            None => (false, st.rng),
        };
        let indent = line_indent(st.indent, inst.operation) as u8;
        LifterView {
            code: with_line(st.code, indent, line(inst, coin)),
            indent: if inst.operation.is_block_start() {
                (indent + INDENT_SPACES) as u8
            } else {
                indent
            },
            rng,
        }
    }
}

/// The lifter after the first `n` of the instructions.
pub open spec fn lift_all(st: LifterView, insts: Seq<InstructionView>, n: int) -> LifterView
    decreases n,
{
    if n <= 0 {
        st
    } else {
        lift_step(lift_all(st, insts, n - 1), insts[n - 1])
    }
}

/// Each of the first `n` instructions fits the lifter as the ones before
/// it leave it.
pub open spec fn lift_all_fits(st: LifterView, insts: Seq<InstructionView>, n: int) -> bool
    decreases n,
{
    if n <= 0 {
        true
    } else {
        &&& lift_all_fits(st, insts, n - 1)
        &&& insts[n - 1].wf()
        &&& lift_fits(lift_all(st, insts, n - 1), insts[n - 1])
    }
}

fn push_joined(s: &mut String, vars: &Vec<Variable>, from: usize)
    requires
        from <= vars@.len(),
    ensures
        final(s)@ == old(s)@ + joined(vars@.subrange(from as int, vars@.len() as int)),
{
    let ghost all = vars@.subrange(from as int, vars@.len() as int);
    let mut i: usize = from;
    assert(old(s)@ =~= old(s)@ + joined(all.subrange(0, 0)));
    while i < vars.len()
        invariant
            from <= i <= vars@.len(),
            all == vars@.subrange(from as int, vars@.len() as int),
            s@ == old(s)@ + joined(all.subrange(0, i - from)),
        decreases vars@.len() - i,
    {
        let ghost before = all.subrange(0, i - from);
        let ghost after = all.subrange(0, i - from + 1);
        assert(after.drop_last() =~= before);
        assert(after.last() == vars@[i as int]);
        if i > from {
            s.append(", ");
        }
        vars[i].push_name(s);
        assert(s@ =~= old(s)@ + joined(after));
        i = i + 1;
    }
    assert(all.subrange(0, i - from) =~= all);
}

fn push_listed(s: &mut String, vars: &Vec<Variable>, from: usize)
    requires
        from <= vars@.len(),
    ensures
        final(s)@ == old(s)@ + listed(vars@.subrange(from as int, vars@.len() as int)),
{
    push_joined(s, vars, from);
    if vars.len() > from {
        s.append(" ");
    } else {
        assert(s@ =~= old(s)@ + Seq::<char>::empty());
    }
}

fn push_fields(s: &mut String, props: &Vec<String>, vars: &Vec<Variable>)
    requires
        props@.len() == vars@.len(),
    ensures
        final(s)@ == old(s)@ + fields(texts(props@), vars@, props@.len() as int),
{
    let mut i: usize = 0;
    assert(old(s)@ =~= old(s)@ + fields(texts(props@), vars@, 0));
    while i < props.len()
        invariant
            i <= props@.len(),
            props@.len() == vars@.len(),
            s@ == old(s)@ + fields(texts(props@), vars@, i as int),
        decreases props@.len() - i,
    {
        if i > 0 {
            s.append(", ");
        }
        s.append(props[i].as_str());
        s.append(": ");
        vars[i].push_name(s);
        assert(texts(props@)[i as int] == props@[i as int]@);
        assert(s@ =~= old(s)@ + fields(texts(props@), vars@, i + 1));
        i = i + 1;
    }
}

fn definition_of(out: &Variable) -> (r: String)
    ensures
        r@ == definition(*out),
{
    let mut code = "var ".to_owned();
    out.push_name(&mut code);
    code.append(" = ");
    code
}

fn text_of(inst: &Instruction, coin: bool) -> (r: String)
    requires
        inst@.wf(),
    ensures
        r@ == line(inst@, coin),
{
    match &inst.operation {
        Operation::Nop => String::new(),
        Operation::LoadInt(v) => {
            let mut code = definition_of(inst.output_at(0));
            push_signed_decimal(&mut code, *v as i128);
            code.append(";");
            code
        },
        Operation::LoadFloat(v) => {
            let mut code = definition_of(inst.output_at(0));
            v.push_text(&mut code);
            code.append(";");
            code
        },
        Operation::LoadString(v) => {
            let mut code = definition_of(inst.output_at(0));
            code.append("\"");
            code.append(v.as_str());
            code.append("\"");
            code.append(";");
            code
        },
        Operation::LoadBool(v) => {
            let mut code = definition_of(inst.output_at(0));
            if *v {
                code.append("true");
            } else {
                code.append("false");
            }
            code.append(";");
            code
        },
        Operation::LoadUndefined => {
            let mut code = definition_of(inst.output_at(0));
            code.append("undefined");
            code.append(";");
            code
        },
        Operation::Copy => {
            let mut code = definition_of(inst.input_at(0));
            inst.input_at(1).push_name(&mut code);
            code.append(";");
            code
        },
        Operation::BeginIf => {
            let mut code = "if (".to_owned();
            inst.input_at(0).push_name(&mut code);
            code.append(") {");
            code
        },
        Operation::BeginElse(_) => "} else {".to_owned(),
        Operation::EndIf | Operation::EndFor | Operation::EndFunctionDefinition => "}".to_owned(),
        Operation::BeginFor(op) => {
            let tmp = inst.temp_at(0);
            let mut code = "for (var ".to_owned();
            tmp.push_name(&mut code);
            code.append(" = ");
            inst.input_at(0).push_name(&mut code);
            code.append("; ");
            tmp.push_name(&mut code);
            code.append(" ");
            code.append(op.1.rep());
            code.append(" ");
            inst.input_at(1).push_name(&mut code);
            code.append("; ");
            tmp.push_name(&mut code);
            code.append(op.0.as_str());
            code.append("){");
            code
        },
        Operation::Break => "break;".to_owned(),
        Operation::Continue => "continue;".to_owned(),
        Operation::BinaryOp(op) => {
            let mut code = definition_of(inst.output_at(0));
            inst.input_at(0).push_name(&mut code);
            code.append(" ");
            code.append(op.rep());
            code.append(" ");
            inst.input_at(1).push_name(&mut code);
            code.append(";");
            code
        },
        Operation::UnaryOp(op) => {
            let mut code = definition_of(inst.output_at(0));
            match op {
                UnaryOperators::Inc | UnaryOperators::Dec => {
                    inst.input_at(0).push_name(&mut code);
                    code.append(op.rep());
                },
                _ => {
                    code.append(op.rep());
                    inst.input_at(0).push_name(&mut code);
                },
            }
            code.append(";");
            code
        },
        Operation::CompareOp(op) => {
            let mut code = definition_of(inst.output_at(0));
            inst.input_at(0).push_name(&mut code);
            code.append(" ");
            code.append(op.rep());
            code.append(" ");
            inst.input_at(1).push_name(&mut code);
            code.append(";");
            code
        },
        Operation::BeginFunctionDefinition(_) => {
            let mut code = "function ".to_owned();
            inst.output_at(0).push_name(&mut code);
            code.append("(");
            push_listed(&mut code, inst.temp(), 0);
            assert(inst@.temp.subrange(0, inst@.temp.len() as int) =~= inst@.temp);
            code.append(") {");
            code
        },
        Operation::Return => {
            let mut code = "return ".to_owned();
            inst.input_at(0).push_name(&mut code);
            code.append(";");
            code
        },
        Operation::FunctionCall(_) => {
            let mut code = definition_of(inst.output_at(0));
            inst.input_at(0).push_name(&mut code);
            code.append("(");
            push_listed(&mut code, inst.inputs(), 1);
            code.append(");");
            code
        },
        Operation::CreateArray(_) => {
            let mut code = definition_of(inst.output_at(0));
            assert(inst@.inputs.subrange(0, inst@.inputs.len() as int) =~= inst@.inputs);
            if coin {
                code.append("[");
                push_joined(&mut code, inst.inputs(), 0);
                code.append("];");
            } else {
                code.append("Array(");
                push_joined(&mut code, inst.inputs(), 0);
                code.append(");");
            }
            code
        },
        Operation::LoadElement => {
            let mut code = definition_of(inst.output_at(0));
            inst.input_at(0).push_name(&mut code);
            code.append("[");
            inst.input_at(1).push_name(&mut code);
            code.append("];");
            code
        },
        Operation::StoreElement => {
            let mut code = inst.input_at(0).print();
            code.append("[");
            inst.input_at(1).push_name(&mut code);
            code.append("] = ");
            inst.input_at(2).push_name(&mut code);
            code.append(";");
            code
        },
        Operation::MethodCall(op) => {
            let mut code = definition_of(inst.output_at(0));
            inst.input_at(0).push_name(&mut code);
            code.append(".");
            code.append(op.0.get_name().as_str());
            code.append("(");
            push_joined(&mut code, inst.inputs(), 1);
            code.append(");");
            code
        },
        Operation::LoadProperty(prop) => {
            let mut code = definition_of(inst.output_at(0));
            inst.input_at(0).push_name(&mut code);
            code.append(".");
            code.append(prop.as_str());
            code
        },
        Operation::StoreProperty(prop) => {
            let mut code = inst.input_at(0).print();
            if coin {
                code.append(".");
                code.append(prop.as_str());
                code.append(" = ");
            } else {
                code.append("[\"");
                code.append(prop.as_str());
                code.append("\"] = ");
            }
            inst.input_at(1).push_name(&mut code);
            code
        },
        Operation::LoadBuiltin(op) => {
            let mut code = definition_of(inst.output_at(0));
            match &op.0 {
                ConstructorType::Callable(ms) => {
                    assert(inst@.inputs.subrange(0, inst@.inputs.len() as int) =~= inst@.inputs);
                    code.append("new ");
                    code.append(ms.get_name().as_str());
                    code.append("(");
                    push_joined(&mut code, inst.inputs(), 0);
                    code.append(");");
                },
                ConstructorType::NonCallable(name, _) => {
                    code.append(name.as_str());
                },
            }
            code
        },
        Operation::CreateObject(op) => {
            let mut code = definition_of(inst.output_at(0));
            code.append("{");
            push_fields(&mut code, &op.0, inst.inputs());
            code.append("};");
            code
        },
        Operation::Delete(_) => {
            let mut code = "delete ".to_owned();
            inst.input_at(0).push_name(&mut code);
            code.append("[");
            inst.input_at(1).push_name(&mut code);
            code.append("]");
            code
        },
    }
}

/// The lifter: an emitter, and the random decisions between the forms of
/// an operation that has two.
pub struct Lifter {
    pub emitter: Emitter,
    pub probablity: Probablity,
}

impl View for Lifter {
    type V = LifterView;

    open spec fn view(&self) -> LifterView {
        LifterView {
            code: self.emitter.code@,
            indent: self.emitter.indent_level,
            rng: self.probablity.0.0,
        }
    }
}

impl Lifter {
    /// A lifter with no text, whose decisions draw from `rng`.
    pub fn new(rng: Random) -> (r: Lifter)
        ensures
            r@ == (LifterView { code: Seq::empty(), indent: 0, rng: rng.0 }),
    {
        Lifter { emitter: Emitter::new(), probablity: Probablity::new(rng) }
    }

    /// The text emitted so far.
    pub fn get_code(&self) -> (r: &String)
        ensures
            r@ == self@.code,
    {
        self.emitter.get_code()
    }

    /// Discards the text.
    pub fn reset(&mut self)
        ensures
            final(self)@ == (LifterView { code: Seq::empty(), ..old(self)@ }),
    {
        self.emitter.reset();
    }

    /// Ends the text. Nothing is added to it.
    pub fn finalize(&mut self)
        ensures
            final(self)@ == old(self)@,
    {
        self.emitter.finalize();
    }

    /// Lowers one instruction.
    pub fn lift(&mut self, inst: &Instruction)
        requires
            inst@.wf(),
            lift_fits(old(self)@, inst@),
        ensures
            final(self)@ == lift_step(old(self)@, inst@),
    {
        proof {
            lemma_attributes(inst@.operation);
        }
        let coin = match &inst.operation {
            Operation::Nop => {
                return ;
            },
            Operation::CreateArray(_) => self.probablity.probablity(5),
            Operation::StoreProperty(_) => self.probablity.probablity(7),
            _ => false,
        };
        let code = text_of(inst, coin);
        if inst.operation.is_block_end() {
            self.emitter.unindent();
        }
        self.emitter.add(code);
        if inst.operation.is_block_start() {
            self.emitter.indent();
        }
    }

    /// Lowers a program, instruction by instruction. The lifter must start
    /// without indentation.
    pub fn do_lifting(&mut self, program: Program)
        requires
            program.wf(),
            old(self)@.indent == 0,
        ensures
            final(self)@ == lift_all(old(self)@, program.insts(), program.insts().len() as int),
            final(self)@.indent == INDENT_SPACES * (program.depth() - 1),
    {
        proof {
            program.lemma_valid();
            lemma_valid_fits(self@, program.insts(), program.insts().len() as int);
            program.lemma_scopes();
        }
        self.lift_instructions(&program.buffer);
    }

    /// Lowers the instructions in order.
    pub fn lift_instructions(&mut self, buffer: &Vec<Instruction>)
        requires
            lift_all_fits(
                old(self)@,
                buffer@.map_values(|i: Instruction| i@),
                buffer@.len() as int,
            ),
        ensures
            final(self)@ == lift_all(
                old(self)@,
                buffer@.map_values(|i: Instruction| i@),
                buffer@.len() as int,
            ),
    {
        let ghost insts = buffer@.map_values(|i: Instruction| i@);
        let mut k: usize = 0;
        while k < buffer.len()
            invariant
                k <= buffer@.len(),
                insts == buffer@.map_values(|i: Instruction| i@),
                lift_all_fits(old(self)@, insts, buffer@.len() as int),
                self@ == lift_all(old(self)@, insts, k as int),
            decreases buffer@.len() - k,
        {
            proof {
                lemma_fits_prefix(old(self)@, insts, k + 1, buffer@.len() as int);
            }
            self.lift(&buffer[k]);
            k = k + 1;
        }
    }
}

/// A valid program fits a lifter that starts without indentation: the
/// indentation is one level for each scope that is open besides the
/// outermost one.
pub proof fn lemma_valid_fits(st: LifterView, insts: Seq<InstructionView>, n: int)
    requires
        valid(insts, n),
        st.indent == 0,
    ensures
        lift_all_fits(st, insts, n),
        lift_all(st, insts, n).indent == INDENT_SPACES * (scopes_after(insts, n).len() - 1),
    decreases n,
{
    if n > 0 {
        lemma_valid_fits(st, insts, n - 1);
        lemma_valid_depth(insts, n - 1);
        lemma_valid_depth(insts, n);
        lemma_attributes(insts[n - 1].operation);
    }
}

/// Instructions that all fit the lifter do so up to any point.
pub proof fn lemma_fits_prefix(st: LifterView, insts: Seq<InstructionView>, n: int, m: int)
    requires
        n <= m,
        lift_all_fits(st, insts, m),
    ensures
        lift_all_fits(st, insts, n),
    decreases m - n,
{
    if n < m {
        lemma_fits_prefix(st, insts, n, m - 1);
    }
}

} // verus!
