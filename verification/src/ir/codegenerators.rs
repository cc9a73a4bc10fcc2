//! The code generators: each appends an instruction or a block of
//! instructions to a program, or fails and leaves the choice to another.

use vstd::prelude::*;
use super::codeanalysis::analyzers::{nesting_of, Nest};
use super::codeanalysis::types::{
    ConstructorType,
    ConstructorTypeView,
    FunctionSignature,
    FunctionSignatureView,
    PType,
    Shape,
    Type,
};
use super::operation::OperationView;
use super::operators::{BinaryOperators, Comparators, UnaryOperators};
use super::program::{Mode, Program, ProgramView, MAX_SCOPE_DEPTH, RUN_ROOM};
use super::variable::Variable;
use crate::fuzzer::settings::{spec_basic_generators, spec_generators, Generator};
use crate::ir::operation::texts;
use crate::jsruntime::constants::{properties, spec_properties};
use crate::utils::probablity::{biased_pick, ratio_accept, weighted_pick, weights_of};
use crate::utils::random::{in_range, index_of, indices, sample, sample_state, xorshift};

verus! {

/// Tells whether the innermost open construct is a loop.
pub open spec fn in_loop(v: ProgramView) -> bool {
    nesting_of(v.context).len() > 0 && nesting_of(v.context).last() == Nest::Loop
}

/// Tells whether the top of the context stack belongs to a function.
pub open spec fn in_function(v: ProgramView) -> bool {
    ||| nesting_of(v.context).len() > 0 && nesting_of(v.context).last() == Nest::Function
    ||| v.context.last() == 6
}

/// Tells whether scopes are nested to the limit.
pub open spec fn nested_to_the_limit(v: ProgramView) -> bool {
    v.scopes.len() >= MAX_SCOPE_DEPTH
}

/// No variables.
pub open spec fn none() -> Seq<Variable> {
    Seq::empty()
}

/// The program after the generator has run, and whether it succeeded.
/// An integer literal is drawn and loaded.
pub open spec fn spec_integer_literal(v: ProgramView) -> (ProgramView, bool) {
    let (val, v1) = v.getint();
    (v1.insert(OperationView::LoadInt(val), none()), true)
}

/// The program after the generator has run, and whether it succeeded.
/// A floating-point literal is drawn and loaded.
pub open spec fn spec_float_literal(v: ProgramView) -> (ProgramView, bool) {
    let (val, v1) = v.getfloat();
    (v1.insert(OperationView::LoadFloat(val), none()), true)
}

/// The program after the generator has run, and whether it succeeded.
/// A string literal is drawn and loaded.
pub open spec fn spec_string_literal(v: ProgramView) -> (ProgramView, bool) {
    let (val, v1) = v.getstring();
    (v1.insert(OperationView::LoadString(val), none()), true)
}

/// The program after the generator has run, and whether it succeeded.
/// A boolean literal is loaded, true and false being equally likely.
pub open spec fn spec_bool_literal(v: ProgramView) -> (ProgramView, bool) {
    let (val, v1) = v.decide(5);
    (v1.insert(OperationView::LoadBool(val), none()), true)
}

/// The program after the generator has run, and whether it succeeded.
/// The undefined value is loaded.
pub open spec fn spec_undefined_literal(v: ProgramView) -> (ProgramView, bool) {
    (v.insert(OperationView::LoadUndefined, none()), true)
}

/// The program after the generator has run, and whether it succeeded.
/// An instruction that does nothing is appended.
pub open spec fn spec_nop(v: ProgramView) -> (ProgramView, bool) {
    (v.insert(OperationView::Nop, none()), true)
}

/// The program after the generator has run, and whether it succeeded.
/// One random variable is assigned to another.
pub open spec fn spec_copy(v: ProgramView) -> (ProgramView, bool) {
    let (lhs, v1) = v.pick_free(Type::any_type());
    let (rhs, v2) = v1.pick_free(Type::any_type());
    (v2.insert(OperationView::Copy, seq![lhs, rhs]), true)
}

/// The program after the generator has run, and whether it succeeded.
/// A `break` is appended where the innermost open construct is a loop;
/// elsewhere the generator fails and the program stays as it is.
pub open spec fn spec_break(v: ProgramView) -> (ProgramView, bool) {
    if in_loop(v) {
        (v.insert(OperationView::Break, none()), true)
    } else {
        (v, false)
    }
}

/// The program after the generator has run, and whether it succeeded.
/// A `continue` is appended where the innermost open construct is a loop;
/// elsewhere the generator fails and the program stays as it is.
pub open spec fn spec_continue(v: ProgramView) -> (ProgramView, bool) {
    if in_loop(v) {
        (v.insert(OperationView::Continue, none()), true)
    } else {
        (v, false)
    }
}

/// The program after the generator has run, and whether it succeeded.
/// A random binary operator is applied to two random variables, numbers
/// where there are some.
pub open spec fn spec_binary_op(v: ProgramView) -> (ProgramView, bool) {
    let numeric = Type::int_type().union(Type::float_type());
    let (lhs, v1) = v.pick_free(numeric);
    let (rhs, v2) = v1.pick_free(numeric);
    let (word, v3) = v2.draw();
    let op = BinaryOperators::spec_all()[(word % 12) as int];
    (v3.insert(OperationView::BinaryOp(op), seq![lhs, rhs]), true)
}

/// The program after the generator has run, and whether it succeeded.
/// A random comparator is applied to two random variables, numbers where
/// there are some.
pub open spec fn spec_compare_op(v: ProgramView) -> (ProgramView, bool) {
    let numeric = Type::int_type().union(Type::float_type());
    let (lhs, v1) = v.pick_free(numeric);
    let (rhs, v2) = v1.pick_free(numeric);
    let (word, v3) = v2.draw();
    let op = Comparators::spec_all()[(word % 7) as int];
    (v3.insert(OperationView::CompareOp(op), seq![lhs, rhs]), true)
}

/// The program after the generator has run, and whether it succeeded.
/// A random unary operator is applied to a random variable, an integer
/// where there is one.
pub open spec fn spec_unary_op(v: ProgramView) -> (ProgramView, bool) {
    let (operand, v1) = v.pick_free(Type::int_type());
    let (word, v2) = v1.draw();
    let op = UnaryOperators::spec_all()[(word % 4) as int];
    (v2.insert(OperationView::UnaryOp(op), seq![operand]), true)
}

/// The program after the generator has run, and whether it succeeded.
/// A random variable is returned where the top of the context stack
/// belongs to a function; elsewhere the generator fails and the program
/// stays as it is.
pub open spec fn spec_function_return(v: ProgramView) -> (ProgramView, bool) {
    if in_function(v) {
        let (ret, v1) = v.pick_free(Type::any_type());
        (v1.insert(OperationView::Return, seq![ret]), true)
    } else {
        (v, false)
    }
}

/// The start, the end and the step of a loop, and the program after they
/// are made: seven times in ten the literals 0, 0x500 and 1, else three
/// random variables, integers where there are some.
pub open spec fn spec_loop_bounds(v: ProgramView) -> ((Variable, Variable, Variable), ProgramView) {
    let (literals, v0) = v.decide(7);
    if literals {
        let start = v0.next_variable();
        let v1 = v0.insert(OperationView::LoadInt(0), none());
        let end = v1.next_variable();
        let v2 = v1.insert(OperationView::LoadInt(0x500), none());
        let step = v2.next_variable();
        let v3 = v2.insert(OperationView::LoadInt(1), none());
        ((start, end, step), v3)
    } else {
        let (start, v1) = v0.pick_free(Type::int_type());
        let (end, v2) = v1.pick_free(Type::int_type());
        let (step, v3) = v2.pick_free(Type::int_type());
        ((start, end, step), v3)
    }
}

/// The text of the step of the loops that are generated.
pub open spec fn step_text() -> Seq<char> {
    "++"@
}

/// The program after the generator has run, and whether it succeeded.
/// A counting loop with an empty body is appended where the top of the
/// context stack belongs to a function and scopes are not nested to the
/// limit; elsewhere the generator fails and the program stays as it is.
pub open spec fn spec_empty_loop(v: ProgramView) -> (ProgramView, bool) {
    if !in_function(v) || nested_to_the_limit(v) {
        (v, false)
    } else {
        let (bounds, v1) = spec_loop_bounds(v);
        let v2 = v1.insert(
            OperationView::BeginFor(step_text(), Comparators::LessThan),
            seq![bounds.0, bounds.1, bounds.2],
        );
        (v2.insert(OperationView::EndFor, none()), true)
    }
}

/// The variable that `count` elements of an array are made of, and the
/// program after it is found: a random variable of the type `t` where there
/// is one, a new literal otherwise.
pub open spec fn spec_array_element(v: ProgramView, t: Type) -> (Variable, ProgramView) {
    let (found, v1) = v.pick(t, Mode::Strict);
    match found {
        Some(var) => (var, v1),
        None => if t == Type::int_type() {
            let (val, v2) = v1.getint();
            (v2.next_variable(), v2.insert(OperationView::LoadInt(val), none()))
        } else {
            let (val, v2) = v1.getfloat();
            (v2.next_variable(), v2.insert(OperationView::LoadFloat(val), none()))
        },
    }
}

/// The program after an array of fewer than thirty elements is created,
/// all of them one variable of the type `t`.
pub open spec fn spec_array(v: ProgramView, t: Type) -> (ProgramView, bool) {
    let (word, v0) = v.draw();
    let size = index_of(word, 30);
    let (variable, v1) = spec_array_element(v0, t);
    (
        v1.insert(
            OperationView::CreateArray(size as u8),
            Seq::new(size as nat, |i: int| variable),
        ),
        true,
    )
}

/// An index for an element, and the program after it is made: seven times
/// in ten a random variable, an integer where there is one, else a new
/// integer literal.
pub open spec fn spec_element_index(v: ProgramView) -> (Variable, ProgramView) {
    let (chosen, v0) = v.decide(7);
    if chosen {
        v0.pick_free(Type::int_type())
    } else {
        let (val, v1) = v0.getint();
        (v1.next_variable(), v1.insert(OperationView::LoadInt(val), none()))
    }
}

/// The program after the generator has run, and whether it succeeded.
/// An element of a random array, string or unknown variable is read. The
/// generator fails where there is no such variable.
pub open spec fn spec_load_element(v: ProgramView) -> (ProgramView, bool) {
    let indexable = Type::array_type().union(Type::unknown_type()).union(Type::string_type());
    let (array, v1) = v.pick(indexable, Mode::Strict);
    match array {
        None => (v1, false),
        Some(array) => {
            let (idx, v2) = spec_element_index(v1);
            (v2.insert(OperationView::LoadElement, seq![array, idx]), true)
        },
    }
}

/// The program after the generator has run, and whether it succeeded.
/// A random variable is written to an element of a random array. The
/// generator fails where there is no array.
pub open spec fn spec_store_element(v: ProgramView) -> (ProgramView, bool) {
    let (array, v1) = v.pick(Type::array_type(), Mode::Strict);
    match array {
        None => (v1, false),
        Some(array) => {
            let (idx, v2) = spec_element_index(v1);
            let (value, v3) = v2.pick_free(Type::any_type());
            (v3.insert(OperationView::StoreElement, seq![array, idx, value]), true)
        },
    }
}

/// The program after the generator has run, and whether it succeeded.
/// A random function is called with random arguments. The generator fails
/// where no variable is exactly a function, where the function has no
/// signature or more than 254 parameters, and nine times in ten where it
/// is still being defined.
pub open spec fn spec_function_call(v: ProgramView) -> (ProgramView, bool) {
    let (func, v1) = v.pick(Type::function_type(), Mode::Strict);
    match func {
        None => (v1, false),
        Some(func) => if v1.types.types[func.0] != Type::function_type() {
            (v1, false)
        } else {
            let (select, v2) = v1.decide(9);
            if !v2.types.signatures.contains_key(func.0) {
                (v2, false)
            } else if v2.types.signatures[func.0].is_constructing && select {
                (v2, false)
            } else {
                let (inputs, v3) = v2.function_args(func);
                if inputs.len() >= 255 {
                    (v3, false)
                } else {
                    (
                        v3.insert(
                            OperationView::FunctionCall(inputs.len() as u8),
                            seq![func] + inputs,
                        ),
                        true,
                    )
                }
            }
        },
    }
}

/// The program after the generator has run, and whether it succeeded.
/// A random method of a random object is called with random arguments. The
/// generator fails where there is no object, where the runtime has no
/// method for its shape, and where there are more than 254 arguments.
pub open spec fn spec_method_call(v: ProgramView) -> (ProgramView, bool) {
    let (object, v1) = v.pick(Type::object_type(), Mode::Strict);
    match object {
        None => (v1, false),
        Some(object) => {
            let (method, v2) = v1.method_for_shape(v1.types.types[object.0].shape);
            match method {
                None => (v2, false),
                Some(method) => {
                    let (inputs, v3) = v2.method_args(method.input_types, Some(object));
                    if inputs.len() > 255 {
                        (v3, false)
                    } else {
                        (
                            v3.insert(
                                OperationView::MethodCall(method, (inputs.len() - 1) as u8),
                                inputs,
                            ),
                            true,
                        )
                    }
                },
            }
        },
    }
}

/// The program after the generator has run, and whether it succeeded.
/// A property of a random object is read: six times in ten one of the
/// properties that programs use, else one that the runtime knows for the
/// shape of the object. The generator fails where there is no object or
/// the runtime knows no property.
pub open spec fn spec_load_property(v: ProgramView) -> (ProgramView, bool) {
    let (object, v1) = v.pick(Type::object_type(), Mode::Strict);
    match object {
        None => (v1, false),
        Some(object) => {
            let (common, v2) = v1.decide(6);
            if common {
                let (word, v3) = v2.draw();
                let prop = spec_properties()[(word % 8) as int];
                (v3.insert(OperationView::LoadProperty(prop), seq![object]), true)
            } else {
                match v2.runtime.properties(v2.types.types[object.0].shape) {
                    None => (v2, false),
                    Some(props) => if props.len() == 0 {
                        (v2, false)
                    } else {
                        let (word, v3) = v2.draw();
                        let prop = props[(word % (props.len() as u64)) as int];
                        (v3.insert(OperationView::LoadProperty(prop), seq![object]), true)
                    },
                }
            }
        },
    }
}

/// The program after the generator has run, and whether it succeeded.
/// A random variable is written to one of the properties that programs
/// use, of a random variable, an object where there is one.
pub open spec fn spec_store_property(v: ProgramView) -> (ProgramView, bool) {
    let (object, v1) = v.pick_free(Type::object_type());
    let (word, v2) = v1.draw();
    let prop = spec_properties()[(word % 8) as int];
    let (value, v3) = v2.pick_free(Type::any_type());
    (v3.insert(OperationView::StoreProperty(prop), seq![object, value]), true)
}

/// The program after the generator has run, and whether it succeeded.
/// A random builtin of the runtime is loaded, with random arguments where
/// it has a constructor to call. The generator fails where the runtime has
/// no builtin or there are more than 255 arguments.
pub open spec fn spec_load_builtin(v: ProgramView) -> (ProgramView, bool) {
    let constructors = v.runtime.constructors;
    if constructors.len() == 0 {
        (v, false)
    } else {
        let (word, v1) = v.draw();
        let constructor = constructors[(word % (constructors.len() as u64)) as int];
        match constructor {
            ConstructorTypeView::Callable(ms) => {
                let (inputs, v2) = v1.method_args(ms.input_types, None);
                if inputs.len() > 255 {
                    (v2, false)
                } else {
                    (v2.load_builtin(constructor, inputs), true)
                }
            },
            ConstructorTypeView::NonCallable(_, _) => (v1.load_builtin(constructor, none()), true),
        }
    }
}

/// The program after the generator has run, and whether it succeeded.
/// An object is created with fewer than eight of the properties that
/// programs use, none of them twice, each with a random variable for its
/// value.
pub open spec fn spec_create_object(v: ProgramView) -> (ProgramView, bool) {
    let (word, v1) = v.draw();
    let num_props = in_range(word, 0isize, 8isize) as usize;
    let chosen = sample(v1.rng, indices(8), num_props as nat);
    let v2 = ProgramView { rng: sample_state(v1.rng, 8, num_props as nat), ..v1 };
    let (values, prob, rng) = super::program::spec_choices(
        v2.scopes,
        v2.types.types,
        v2.prob,
        v2.rng,
        Type::any_type(),
        num_props as int,
    );
    let v3 = v2.with_sources(prob, rng);
    (
        v3.insert(
            OperationView::CreateObject(
                Seq::new(chosen.len(), |i: int| spec_properties()[chosen[i] as int]),
            ),
            values,
        ),
        true,
    )
}

/// The program after the generator has run, and whether it succeeded.
/// A property of a random variable, an object where there is one, is
/// deleted: with equal probability the property at a random index or one of
/// the properties that programs use, whose name is loaded first.
pub open spec fn spec_delete_property(v: ProgramView) -> (ProgramView, bool) {
    let (object, v1) = v.pick_free(Type::object_type());
    let (indexed, v2) = v1.decide(5);
    if indexed {
        let (property, v3) = v2.pick_free(Type::int_type());
        (v3.insert(OperationView::Delete(true), seq![object, property]), true)
    } else {
        let (word, v3) = v2.draw();
        let prop = spec_properties()[(word % 8) as int];
        let property = v3.next_variable();
        let v4 = v3.insert(OperationView::LoadString(prop), none());
        (v4.insert(OperationView::Delete(false), seq![object, property]), true)
    }
}

/// The program after a generator of literals has run.
pub open spec fn spec_literal(generator: Generator, v: ProgramView) -> (ProgramView, bool) {
    match generator {
        Generator::IntegerLiteral => spec_integer_literal(v),
        Generator::FloatLiteral => spec_float_literal(v),
        Generator::StringLiteral => spec_string_literal(v),
        Generator::BoolLiteral => spec_bool_literal(v),
        _ => spec_undefined_literal(v),
    }
}

/// The program after the first `n` of the literals that an empty program
/// is started with: for each, where a generator run is left, a generator
/// of literals is chosen, the later ones in their list preferred, and
/// run.
pub open spec fn spec_start(v: ProgramView, n: int) -> ProgramView
    decreases n,
{
    if n <= 0 {
        v
    } else {
        let before = spec_start(v, n - 1);
        if before.budget > 0 {
            let (k, prob) = biased_pick(before.prob, 6, 5, 5, 5);
            spec_literal(
                spec_basic_generators()[k],
                ProgramView { prob, budget: (before.budget - 1) as u32, ..before },
            ).0
        } else {
            before
        }
    }
}

/// The program after generation has gone on until `count` generators have
/// succeeded, `cnt` of them before, or the generator runs are used up. For
/// each run a generator is chosen by its weight.
pub open spec fn spec_grow(v: ProgramView, cnt: int, count: int) -> ProgramView
    decreases v.budget, 0int,
{
    if cnt >= count || v.budget == 0 {
        v
    } else {
        let (k, prob) = weighted_pick(v.prob, weights_of(spec_generators()), 0);
        let chosen = ProgramView { prob, budget: (v.budget - 1) as u32, ..v };
        let (after, done) = spec_run(spec_generators()[k].0, chosen);
        if after.budget <= chosen.budget {
            spec_grow(
                after,
                if done {
                    cnt + 1
                } else {
                    cnt
                },
                count,
            )
        } else {
            after
        }
    }
}

/// The program after it is grown by `count` instructions or blocks. An
/// empty program is first given up to three literals.
pub open spec fn spec_generate(v: ProgramView, count: u8) -> ProgramView
    decreases v.budget, 1int,
{
    let started = if v.scopes.flatten().len() == 0 {
        spec_start(v, 3)
    } else {
        v
    };
    if started.budget <= v.budget {
        spec_grow(started, 0, count as int)
    } else {
        started
    }
}

/// The program after the body of a block: two generated instructions or
/// blocks, and the assignment of a random variable to `var`.
pub open spec fn spec_block_body(v: ProgramView, var: Variable) -> ProgramView
    decreases v.budget, 2int,
{
    let v1 = spec_generate(v, 2);
    let (tmp, v2) = v1.pick_free(Type::any_type());
    v2.insert(OperationView::Copy, seq![var, tmp])
}

/// The program after the generator has run, and whether it succeeded.
/// An `if` with an alternative is appended, on a random variable, a boolean
/// where there is one. Each branch has the body of a block, which assigns
/// to a random variable chosen before the `if`. The generator fails where
/// scopes are nested to the limit.
pub open spec fn spec_if_condition(v: ProgramView) -> (ProgramView, bool)
    decreases v.budget, 3int,
{
    if nested_to_the_limit(v) {
        (v, false)
    } else {
        let (cond, v1) = v.pick_free(Type::bool_type());
        let (var, v2) = v1.pick_free(Type::unknown_type());
        let v3 = v2.insert(OperationView::BeginIf, seq![cond]);
        if v3.budget <= v.budget {
            let v4 = spec_block_body(v3, var);
            let v5 = v4.insert(OperationView::BeginElse, none());
            if v5.budget <= v.budget {
                let v6 = spec_block_body(v5, var);
                (v6.insert(OperationView::EndIf, none()), true)
            } else {
                (v5, false)
            }
        } else {
            (v3, false)
        }
    }
}

/// The program after the generator has run, and whether it succeeded.
/// A counting loop is appended, whose body assigns to a random variable
/// chosen before the loop. The generator fails where scopes are nested to
/// the limit.
pub open spec fn spec_for_loop(v: ProgramView) -> (ProgramView, bool)
    decreases v.budget, 3int,
{
    if nested_to_the_limit(v) {
        (v, false)
    } else {
        let (bounds, v1) = spec_loop_bounds(v);
        let (copy, v2) = v1.pick_free(Type::any_type());
        let v3 = v2.insert(
            OperationView::BeginFor(step_text(), Comparators::LessThan),
            seq![bounds.0, bounds.1, bounds.2],
        );
        if v3.budget <= v.budget {
            let v4 = spec_block_body(v3, copy);
            (v4.insert(OperationView::EndFor, none()), true)
        } else {
            (v3, false)
        }
    }
}

/// The program after the definition of a function of `args_count`
/// parameters, whose body holds three generated instructions or blocks
/// and the return of a random variable.
pub open spec fn spec_function_body(v: ProgramView, args_count: u8) -> ProgramView
    decreases v.budget, 2int,
{
    let v2 = v.insert(
        OperationView::BeginFunctionDefinition(FunctionSignatureView::fresh(args_count)),
        none(),
    );
    if v2.budget <= v.budget {
        let v3 = spec_generate(v2, 3);
        let (ret, v4) = v3.pick_free(Type::any_type());
        let v5 = v4.insert(OperationView::Return, seq![ret]);
        v5.insert(OperationView::EndFunctionDefinition, none())
    } else {
        v2
    }
}

/// The program after the generator has run, and whether it succeeded.
/// A function of fewer than five parameters is defined; then comes one
/// more generated instruction or block; then the function is called with
/// random arguments. The generator fails where scopes are nested to the
/// limit.
pub open spec fn spec_function_definition(v: ProgramView) -> (ProgramView, bool)
    decreases v.budget, 3int,
{
    if nested_to_the_limit(v) {
        (v, false)
    } else {
        let (word, v1) = v.draw();
        let args_count = in_range(word, 0isize, 5isize) as u8;
        let func = v1.next_variable();
        if v1.budget <= v.budget {
            let v6 = spec_function_body(v1, args_count);
            if v6.budget <= v.budget {
                let v7 = spec_generate(v6, 1);
                let (inputs, v8) = v7.function_args(func);
                if inputs.len() >= 255 {
                    (v8, false)
                } else {
                    (
                        v8.insert(
                            OperationView::FunctionCall(inputs.len() as u8),
                            seq![func] + inputs,
                        ),
                        true,
                    )
                }
            } else {
                (v6, false)
            }
        } else {
            (v1, false)
        }
    }
}

/// The program after `func` is called with the arguments `inputs` in a
/// loop, whose body holds two generated instructions or blocks before the
/// call, and once more with new arguments after two more.
pub open spec fn spec_call_in_loop(v: ProgramView, func: Variable, inputs: Seq<Variable>) -> (
    ProgramView,
    bool,
)
    decreases v.budget, 2int,
{
    let start = v.next_variable();
    let v1 = v.insert(OperationView::LoadInt(0), none());
    let (word, v2) = v1.draw();
    let end = v2.next_variable();
    let v3 = v2.insert(OperationView::LoadInt(in_range(word, 0isize, 0x500isize) as i64), none());
    let step = v3.next_variable();
    let v4 = v3.insert(OperationView::LoadInt(1), none());
    let v5 = v4.insert(
        OperationView::BeginFor(step_text(), Comparators::LessThan),
        seq![start, end, step],
    );
    if v5.budget <= v.budget {
        let v6 = spec_generate(v5, 2);
        let v7 = v6.insert(OperationView::FunctionCall(inputs.len() as u8), seq![func] + inputs);
        let v8 = v7.insert(OperationView::EndFor, none());
        if v8.budget <= v.budget {
            let v9 = spec_generate(v8, 2);
            let (again, v10) = v9.function_args(func);
            if again.len() >= 255 {
                (v10, false)
            } else {
                (
                    v10.insert(OperationView::FunctionCall(again.len() as u8), seq![func] + again),
                    true,
                )
            }
        } else {
            (v8, false)
        }
    } else {
        (v5, false)
    }
}

/// The program after the generator has run, and whether it succeeded.
/// A function is defined as the function definition generator does; then
/// a random function is called in a loop and once more after it. The
/// generator fails where no variable is exactly a function, where the
/// function has no signature or is still being defined, and where scopes
/// are nested to the limit.
pub open spec fn spec_jit_function(v: ProgramView) -> (ProgramView, bool)
    decreases v.budget, 4int,
{
    if nested_to_the_limit(v) {
        (v, false)
    } else {
        let v1 = spec_function_definition(v).0;
        let (func, v2) = v1.pick(Type::function_type(), Mode::Strict);
        match func {
            None => (v2, false),
            Some(func) => if v2.types.types[func.0] != Type::function_type() {
                (v2, false)
            } else if !v2.types.signatures.contains_key(func.0) {
                (v2, false)
            } else if v2.types.signatures[func.0].is_constructing {
                (v2, false)
            } else {
                let (inputs, v3) = v2.function_args(func);
                if inputs.len() >= 255 || v3.budget > v.budget {
                    (v3, false)
                } else {
                    spec_call_in_loop(v3, func, inputs)
                }
            },
        }
    }
}

/// The program after the given generator has run, and whether the
/// generator succeeded.
pub open spec fn spec_run(generator: Generator, v: ProgramView) -> (ProgramView, bool)
    decreases v.budget, 5int,
{
    match generator {
        Generator::IntegerLiteral => spec_integer_literal(v),
        Generator::FloatLiteral => spec_float_literal(v),
        Generator::StringLiteral => spec_string_literal(v),
        Generator::BoolLiteral => spec_bool_literal(v),
        Generator::UndefinedLiteral => spec_undefined_literal(v),
        Generator::Nop => spec_nop(v),
        Generator::Copy => spec_copy(v),
        Generator::IfCondition => spec_if_condition(v),
        Generator::ForLoop => spec_for_loop(v),
        Generator::Break => spec_break(v),
        Generator::Continue => spec_continue(v),
        Generator::BinaryOp => spec_binary_op(v),
        Generator::CompareOp => spec_compare_op(v),
        Generator::UnaryOp => spec_unary_op(v),
        Generator::FunctionDefinition => spec_function_definition(v),
        Generator::FunctionCall => spec_function_call(v),
        Generator::FunctionReturn => spec_function_return(v),
        Generator::IntArray => spec_array(v, Type::int_type()),
        Generator::FloatArray => spec_array(v, Type::float_type()),
        Generator::LoadElement => spec_load_element(v),
        Generator::StoreElement => spec_store_element(v),
        Generator::MethodCall => spec_method_call(v),
        Generator::LoadProperty => spec_load_property(v),
        Generator::StoreProperty => spec_store_property(v),
        Generator::LoadBuiltin => spec_load_builtin(v),
        Generator::CreateObject => spec_create_object(v),
        Generator::DeleteProperty => spec_delete_property(v),
        Generator::EmptyLoop => spec_empty_loop(v),
        Generator::JitFunction => spec_jit_function(v),
    }
}

/// The code generators.
pub struct CodeGenerators();

impl CodeGenerators {
    /// Runs the given generator on the program.
    pub fn run(generator: Generator, program: &mut Program) -> (r: Option<()>)
        requires
            old(program).wf(),
            old(program).has_run_room(),
            !generator.is_literal() ==> old(program).visible().len() > 0,
        ensures
            final(program).ran(old(program), r),
            (final(program)@, r is Some) == spec_run(generator, old(program)@),
            generator.is_literal() ==> r is Some && final(program).visible().len() > 0,
        decreases old(program).budget, 4int,
    {
        match generator {
            Generator::IntegerLiteral => Self::integer_literal_generator(program),
            Generator::FloatLiteral => Self::float_literal_generator(program),
            Generator::StringLiteral => Self::string_literal_generator(program),
            Generator::BoolLiteral => Self::bool_literal_generator(program),
            Generator::UndefinedLiteral => Self::undefined_literal_generator(program),
            Generator::Nop => Self::nop_generator(program),
            Generator::Copy => Self::copy_generator(program),
            Generator::IfCondition => Self::if_condition_generator(program),
            Generator::ForLoop => Self::for_loop_generator(program),
            Generator::Break => Self::break_generator(program),
            Generator::Continue => Self::continue_generator(program),
            Generator::BinaryOp => Self::binary_op_generator(program),
            Generator::CompareOp => Self::compare_op_generator(program),
            Generator::UnaryOp => Self::unary_op_generator(program),
            Generator::FunctionDefinition => Self::function_definition_generator(program),
            Generator::FunctionCall => Self::function_call_generator(program),
            Generator::FunctionReturn => Self::function_return_generator(program),
            Generator::IntArray => Self::int_array_generator(program),
            Generator::FloatArray => Self::float_array_generator(program),
            Generator::LoadElement => Self::load_element_generator(program),
            Generator::StoreElement => Self::store_element_generator(program),
            Generator::MethodCall => Self::method_call_generator(program),
            Generator::LoadProperty => Self::load_property_generator(program),
            Generator::StoreProperty => Self::store_property_generator(program),
            Generator::LoadBuiltin => Self::load_builtin_generator(program),
            Generator::CreateObject => Self::create_object_generator(program),
            Generator::DeleteProperty => Self::delete_property_generator(program),
            Generator::EmptyLoop => Self::empty_loop_generator(program),
            Generator::JitFunction => Self::jit_function_generator(program),
        }
    }

    /// Runs a generator of literals on the program.
    pub fn run_literal(generator: Generator, program: &mut Program) -> (r: Option<()>)
        requires
            old(program).wf(),
            old(program).has_run_room(),
        ensures
            final(program).ran(old(program), r),
            (final(program)@, r is Some) == spec_literal(generator, old(program)@),
            r is Some,
            final(program).visible().len() > 0,
    {
        match generator {
            Generator::IntegerLiteral => Self::integer_literal_generator(program),
            Generator::FloatLiteral => Self::float_literal_generator(program),
            Generator::StringLiteral => Self::string_literal_generator(program),
            Generator::BoolLiteral => Self::bool_literal_generator(program),
            _ => Self::undefined_literal_generator(program),
        }
    }

    /// Loads an integer literal.
    pub fn integer_literal_generator(program: &mut Program) -> (r: Option<()>)
        requires
            old(program).wf(),
            old(program).has_run_room(),
        ensures
            final(program).ran(old(program), r),
            (final(program)@, r is Some) == spec_integer_literal(old(program)@),
            r is Some,
            final(program).visible().len() > 0,
    {
        let val = program.getint();
        let v = program.load_int(val);
        proof {
            program.lemma_holds_sees(v, old(program).depth());
        }
        Some(())
    }

    /// Loads a floating-point literal.
    pub fn float_literal_generator(program: &mut Program) -> (r: Option<()>)
        requires
            old(program).wf(),
            old(program).has_run_room(),
        ensures
            final(program).ran(old(program), r),
            (final(program)@, r is Some) == spec_float_literal(old(program)@),
            r is Some,
            final(program).visible().len() > 0,
    {
        let float = program.getfloat();
        let v = program.load_float(float);
        proof {
            program.lemma_holds_sees(v, old(program).depth());
        }
        Some(())
    }

    /// Loads a string literal.
    pub fn string_literal_generator(program: &mut Program) -> (r: Option<()>)
        requires
            old(program).wf(),
            old(program).has_run_room(),
        ensures
            final(program).ran(old(program), r),
            (final(program)@, r is Some) == spec_string_literal(old(program)@),
            r is Some,
            final(program).visible().len() > 0,
    {
        let string = program.getstring();
        let v = program.load_string(string);
        proof {
            program.lemma_holds_sees(v, old(program).depth());
        }
        Some(())
    }

    /// Loads a boolean literal, true and false being equally likely.
    pub fn bool_literal_generator(program: &mut Program) -> (r: Option<()>)
        requires
            old(program).wf(),
            old(program).has_run_room(),
        ensures
            final(program).ran(old(program), r),
            (final(program)@, r is Some) == spec_bool_literal(old(program)@),
            r is Some,
            final(program).visible().len() > 0,
    {
        let boolean = program.prob.probablity(5);
        let v = program.load_bool(boolean);
        proof {
            program.lemma_holds_sees(v, old(program).depth());
        }
        Some(())
    }

    /// Loads the undefined value.
    pub fn undefined_literal_generator(program: &mut Program) -> (r: Option<()>)
        requires
            old(program).wf(),
            old(program).has_run_room(),
        ensures
            final(program).ran(old(program), r),
            (final(program)@, r is Some) == spec_undefined_literal(old(program)@),
            r is Some,
            final(program).visible().len() > 0,
    {
        let v = program.load_undefined();
        proof {
            program.lemma_holds_sees(v, old(program).depth());
        }
        Some(())
    }

    /// Appends an instruction that does nothing.
    pub fn nop_generator(program: &mut Program) -> (r: Option<()>)
        requires
            old(program).wf(),
            old(program).has_run_room(),
        ensures
            final(program).ran(old(program), r),
            (final(program)@, r is Some) == spec_nop(old(program)@),
    {
        program.nop();
        Some(())
    }

    /// Assigns one random variable to another.
    pub fn copy_generator(program: &mut Program) -> (r: Option<()>)
        requires
            old(program).wf(),
            old(program).has_run_room(),
            old(program).visible().len() > 0,
        ensures
            final(program).ran(old(program), r),
            (final(program)@, r is Some) == spec_copy(old(program)@),
    {
        let lhs = program.random_variable(Type::any_type());
        let rhs = program.random_variable(Type::any_type());
        program.copy(lhs, rhs);
        Some(())
    }

    /// Appends a `break` where the innermost open construct is a loop, and
    /// fails elsewhere.
    pub fn break_generator(program: &mut Program) -> (r: Option<()>)
        requires
            old(program).wf(),
            old(program).has_run_room(),
        ensures
            final(program).ran(old(program), r),
            (final(program)@, r is Some) == spec_break(old(program)@),
    {
        if program.is_in_loop() {
            program.insert_break();
            Some(())
        } else {
            None
        }
    }

    /// Appends a `continue` where the innermost open construct is a loop,
    /// and fails elsewhere.
    pub fn continue_generator(program: &mut Program) -> (r: Option<()>)
        requires
            old(program).wf(),
            old(program).has_run_room(),
        ensures
            final(program).ran(old(program), r),
            (final(program)@, r is Some) == spec_continue(old(program)@),
    {
        if program.is_in_loop() {
            program.insert_continue();
            Some(())
        } else {
            None
        }
    }

    /// Appends a binary operation on two random variables, numbers where
    /// there are some.
    pub fn binary_op_generator(program: &mut Program) -> (r: Option<()>)
        requires
            old(program).wf(),
            old(program).has_run_room(),
            old(program).visible().len() > 0,
        ensures
            final(program).ran(old(program), r),
            (final(program)@, r is Some) == spec_binary_op(old(program)@),
    {
        let numeric = Type::int_type().union(Type::float_type());
        let lhs = program.random_variable(numeric);
        let rhs = program.random_variable(numeric);
        let all = BinaryOperators::all();
        let op = *program.rng.random_element(all.as_slice());
        program.binary_op(lhs, rhs, op);
        Some(())
    }

    /// Appends a comparison of two random variables, numbers where there
    /// are some.
    pub fn compare_op_generator(program: &mut Program) -> (r: Option<()>)
        requires
            old(program).wf(),
            old(program).has_run_room(),
            old(program).visible().len() > 0,
        ensures
            final(program).ran(old(program), r),
            (final(program)@, r is Some) == spec_compare_op(old(program)@),
    {
        let numeric = Type::int_type().union(Type::float_type());
        let lhs = program.random_variable(numeric);
        let rhs = program.random_variable(numeric);
        let all = Comparators::all();
        let op = *program.rng.random_element(all.as_slice());
        program.compare_op(lhs, rhs, op);
        Some(())
    }

    /// Appends a unary operation on a random variable, an integer where
    /// there is one.
    pub fn unary_op_generator(program: &mut Program) -> (r: Option<()>)
        requires
            old(program).wf(),
            old(program).has_run_room(),
            old(program).visible().len() > 0,
        ensures
            final(program).ran(old(program), r),
            (final(program)@, r is Some) == spec_unary_op(old(program)@),
    {
        let operand = program.random_variable(Type::int_type());
        let all = UnaryOperators::all();
        let op = *program.rng.random_element(all.as_slice());
        program.unary_op(operand, op);
        Some(())
    }

    /// Appends the return of a random variable where the top of the
    /// context stack belongs to a function, and fails elsewhere.
    pub fn function_return_generator(program: &mut Program) -> (r: Option<()>)
        requires
            old(program).wf(),
            old(program).has_run_room(),
            old(program).visible().len() > 0,
        ensures
            final(program).ran(old(program), r),
            (final(program)@, r is Some) == spec_function_return(old(program)@),
    {
        if program.is_in_function() {
            let v = program.random_variable(Type::any_type());
            program.insert_return(v);
            Some(())
        } else {
            None
        }
    }

    /// The start, the end and the step of a loop: seven times in ten the
    /// literals 0, 0x500 and 1, else three random variables, integers where
    /// there are some.
    fn loop_bounds(program: &mut Program) -> (r: (Variable, Variable, Variable))
        requires
            old(program).wf(),
            old(program).visible().len() > 0,
            old(program).instruction_potential() + 8 <= u32::MAX,
            old(program).variable_potential() + 64 <= u32::MAX,
        ensures
            final(program).generated(old(program)),
            final(program).within(old(program), 3),
            final(program).budget == old(program).budget,
            final(program).sees(r.0),
            final(program).sees(r.1),
            final(program).sees(r.2),
            final(program).visible().len() > 0,
            (r, final(program)@) == spec_loop_bounds(old(program)@),
    {
        proof {
            let seen = old(program).visible()[0];
            old(program).lemma_sees(seen);
        }
        if program.prob.probablity(7) {
            let start = program.load_int(0);
            let end = program.load_int(0x500);
            let step = program.load_int(1);
            proof {
                program.lemma_holds_sees(start, old(program).depth());
                program.lemma_holds_sees(end, old(program).depth());
                program.lemma_holds_sees(step, old(program).depth());
            }
            (start, end, step)
        } else {
            let start = program.random_variable(Type::int_type());
            let end = program.random_variable(Type::int_type());
            let step = program.random_variable(Type::int_type());
            proof {
                program.lemma_holds_sees(step, old(program).depth());
            }
            (start, end, step)
        }
    }

    /// The body of a block: two generated instructions or blocks, and
    /// the assignment of a random variable to `var`, which one of the
    /// outermost `depth` scopes holds.
    fn block_body(program: &mut Program, var: Variable, Ghost(depth): Ghost<int>)
        requires
            old(program).wf(),
            old(program).instruction_potential() + 1 <= u32::MAX,
            old(program).variable_potential() + 8 <= u32::MAX,
            old(program).holds(var, depth),
        ensures
            final(program).generated(old(program)),
            final(program).within(old(program), 1),
            final(program)@ == spec_block_body(old(program)@, var),
        decreases old(program).budget, 1int,
    {
        program.generate_random_insts(2);
        proof {
            program.lemma_holds_sees(var, depth);
        }
        let tmp = program.random_variable(Type::any_type());
        program.copy(var, tmp);
    }

    /// Appends an `if` with an alternative. Each branch holds two generated
    /// instructions or blocks and then assigns a random variable to a
    /// variable chosen before the `if`. Fails where scopes are nested to the
    /// limit.
    pub fn if_condition_generator(program: &mut Program) -> (r: Option<()>)
        requires
            old(program).wf(),
            old(program).has_run_room(),
            old(program).visible().len() > 0,
        ensures
            final(program).ran(old(program), r),
            (final(program)@, r is Some) == spec_if_condition(old(program)@),
        decreases old(program).budget, 2int,
    {
        if program.scope_analyzer.get_all_scopes().len() >= MAX_SCOPE_DEPTH {
            return None;
        }
        let ghost d = old(program).depth();
        let cond = program.random_variable(Type::bool_type());
        let var = program.random_variable(Type::unknown_type());
        program.begin_if(cond);
        Self::block_body(program, var, Ghost(d));
        program.begin_else();
        Self::block_body(program, var, Ghost(d));
        program.end_if();
        Some(())
    }

    /// Appends a counting loop whose body holds two generated instructions
    /// or blocks and then assigns a random variable to a variable chosen
    /// before the loop. Fails where scopes are nested to the limit.
    pub fn for_loop_generator(program: &mut Program) -> (r: Option<()>)
        requires
            old(program).wf(),
            old(program).has_run_room(),
            old(program).visible().len() > 0,
        ensures
            final(program).ran(old(program), r),
            (final(program)@, r is Some) == spec_for_loop(old(program)@),
        decreases old(program).budget, 2int,
    {
        if program.scope_analyzer.get_all_scopes().len() >= MAX_SCOPE_DEPTH {
            return None;
        }
        let ghost d = old(program).depth();
        let (start, end, step) = Self::loop_bounds(program);
        let copy = program.random_variable(Type::any_type());
        program.begin_for(start, end, step, "++".to_owned(), Comparators::LessThan);
        Self::block_body(program, copy, Ghost(d));
        program.end_for();
        assert(program.context_analyzer@ =~= old(program).context_analyzer@);
        Some(())
    }

    /// Appends a counting loop with an empty body where the top of the
    /// context stack belongs to a function, and fails elsewhere. Scopes must
    /// not be nested to the limit.
    #[verifier::rlimit(50)]
    pub fn empty_loop_generator(program: &mut Program) -> (r: Option<()>)
        requires
            old(program).wf(),
            old(program).has_run_room(),
            old(program).visible().len() > 0,
        ensures
            final(program).ran(old(program), r),
            (final(program)@, r is Some) == spec_empty_loop(old(program)@),
    {
        if !program.is_in_function() {
            return None;
        }
        if program.scope_analyzer.get_all_scopes().len() >= MAX_SCOPE_DEPTH {
            return None;
        }
        let (start, end, step) = Self::loop_bounds(program);
        program.begin_for(start, end, step, "++".to_owned(), Comparators::LessThan);
        program.end_for();
        assert(program.context_analyzer@ =~= old(program).context_analyzer@);
        Some(())
    }

    /// The definition of a function of `args_count` parameters, whose
    /// body holds three generated instructions or blocks and the return of
    /// a random variable. The function is returned.
    fn function_body(program: &mut Program, args_count: u8) -> (func: Variable)
        requires
            old(program).wf(),
            old(program).depth() < MAX_SCOPE_DEPTH,
            args_count < 5,
            old(program).visible().len() > 0,
            old(program).instruction_potential() + 3 <= u32::MAX,
            old(program).variable_potential() + 24 <= u32::MAX,
        ensures
            final(program).generated(old(program)),
            final(program).within(old(program), 3),
            final(program).insts().len() > old(program).insts().len(),
            final(program).holds(func, old(program).depth()),
            func == old(program).next_variable(),
            final(program).type_analyzer@.signatures.contains_key(func.0),
            final(program)@ == spec_function_body(old(program)@, args_count),
        decreases old(program).budget, 1int,
    {
        let ghost d = old(program).depth();
        let ghost seen = old(program).visible()[0];
        proof {
            old(program).lemma_sees(seen);
        }
        let signature = FunctionSignature::new(args_count);
        let func = program.begin_function_definition(signature);
        program.generate_random_insts(3);
        proof {
            program.lemma_holds_sees(seen, d);
        }
        let return_var = program.random_variable(Type::any_type());
        assert(program.context_analyzer@[program.context_analyzer@.len() - 1] == Nest::Function);
        program.insert_return(return_var);
        program.end_function_definition();
        assert(program.context_analyzer@ =~= old(program).context_analyzer@);
        func
    }

    /// Appends the definition of a function of fewer than five parameters,
    /// whose body holds three generated instructions or blocks and the
    /// return of a random variable; then one more generated instruction or
    /// block; then a call of the function with random arguments. Fails
    /// where scopes are nested to the limit.
    pub fn function_definition_generator(program: &mut Program) -> (r: Option<()>)
        requires
            old(program).wf(),
            old(program).has_run_room(),
            old(program).visible().len() > 0,
        ensures
            final(program).generated(old(program)),
            final(program).within(old(program), 4),
            r is Some ==> final(program).insts().len() > old(program).insts().len(),
            (final(program)@, r is Some) == spec_function_definition(old(program)@),
        decreases old(program).budget, 2int,
    {
        if program.scope_analyzer.get_all_scopes().len() >= MAX_SCOPE_DEPTH {
            return None;
        }
        let ghost d = old(program).depth();
        let args_count = program.rng.rand_in_range(0, 5) as u8;
        let func = Self::function_body(program, args_count);
        program.generate_random_insts(1);
        proof {
            program.lemma_holds_sees(func, d);
        }
        let inputs = program.generate_function_args(func);
        if inputs.len() >= 255 {
            return None;
        }
        program.function_call(func, inputs);
        Some(())
    }

    /// Appends a call of a random function with random arguments. Fails
    /// where no variable is exactly a function, and nine times in ten where
    /// the function is still being defined.
    pub fn function_call_generator(program: &mut Program) -> (r: Option<()>)
        requires
            old(program).wf(),
            old(program).has_run_room(),
            old(program).visible().len() > 0,
        ensures
            final(program).ran(old(program), r),
            (final(program)@, r is Some) == spec_function_call(old(program)@),
    {
        let func = match program.random_variable_of_type(Type::function_type(), Mode::Strict) {
            Some(func) => func,
            None => {
                return None;
            },
        };
        proof {
            program.lemma_sees_typed(func);
        }
        let typ = program.get_type(&func);
        if typ != Type::function_type() {
            return None;
        }
        let select_probablity = program.prob.probablity(9);
        if !program.type_analyzer.has_signature(func) {
            return None;
        }
        let constructing = program.get_signature_for(&func).is_constructing();
        if constructing && select_probablity {
            return None;
        }
        let inputs = program.generate_function_args(func);
        if inputs.len() >= 255 {
            return None;
        }
        program.function_call(func, inputs);
        Some(())
    }

    /// Appends the creation of an array of fewer than thirty elements, all
    /// of them one integer variable: a random one where there is one, a new
    /// literal otherwise.
    pub fn int_array_generator(program: &mut Program) -> (r: Option<()>)
        requires
            old(program).wf(),
            old(program).has_run_room(),
        ensures
            final(program).ran(old(program), r),
            (final(program)@, r is Some) == spec_array(old(program)@, Type::int_type()),
    {
        let size = program.rng.rand_idx(30);
        let var = program.random_variable_of_type(Type::int_type(), Mode::Strict);
        let variable = match var {
            Some(var) => var,
            None => {
                let v = program.getint();
                let loaded = program.load_int(v);
                proof {
                    program.lemma_holds_sees(loaded, old(program).depth());
                }
                loaded
            },
        };
        let args = Self::repeated(variable, size);
        program.create_array(args);
        Some(())
    }

    /// Appends the creation of an array of fewer than thirty elements, all
    /// of them one floating-point variable: a random one where there is
    /// one, a new literal otherwise.
    pub fn float_array_generator(program: &mut Program) -> (r: Option<()>)
        requires
            old(program).wf(),
            old(program).has_run_room(),
        ensures
            final(program).ran(old(program), r),
            (final(program)@, r is Some) == spec_array(old(program)@, Type::float_type()),
    {
        let size = program.rng.rand_idx(30);
        let var = program.random_variable_of_type(Type::float_type(), Mode::Strict);
        let variable = match var {
            Some(var) => var,
            None => {
                let v = program.getfloat();
                let loaded = program.load_float(v);
                proof {
                    program.lemma_holds_sees(loaded, old(program).depth());
                }
                loaded
            },
        };
        let args = Self::repeated(variable, size);
        program.create_array(args);
        Some(())
    }

    fn repeated(variable: Variable, size: usize) -> (r: Vec<Variable>)
        ensures
            r@ == Seq::new(size as nat, |i: int| variable),
    {
        let mut r: Vec<Variable> = Vec::new();
        let mut i: usize = 0;
        while i < size
            invariant
                i <= size,
                r@ == Seq::new(i as nat, |i: int| variable),
            decreases size - i,
        {
            r.push(variable);
            assert(r@ =~= Seq::new((i + 1) as nat, |i: int| variable));
            i = i + 1;
        }
        r
    }

    /// An index for an element: seven times in ten a random variable, an
    /// integer where there is one, else a new integer literal.
    fn element_index(program: &mut Program) -> (r: Variable)
        requires
            old(program).wf(),
            old(program).visible().len() > 0,
            old(program).instruction_potential() + 8 <= u32::MAX,
            old(program).variable_potential() + 64 <= u32::MAX,
        ensures
            final(program).generated(old(program)),
            final(program).within(old(program), 1),
            final(program).budget == old(program).budget,
            final(program).sees(r),
            (r, final(program)@) == spec_element_index(old(program)@),
    {
        if program.prob.probablity(7) {
            program.random_variable(Type::int_type())
        } else {
            let idx = program.getint();
            let v = program.load_int(idx);
            proof {
                program.lemma_holds_sees(v, old(program).depth());
            }
            v
        }
    }

    /// Appends the read of an element of a random array, string or unknown
    /// variable. Fails where there is no such variable.
    pub fn load_element_generator(program: &mut Program) -> (r: Option<()>)
        requires
            old(program).wf(),
            old(program).has_run_room(),
        ensures
            final(program).ran(old(program), r),
            (final(program)@, r is Some) == spec_load_element(old(program)@),
    {
        let indexable = Type::array_type().union(Type::unknown_type()).union(Type::string_type());
        let array = match program.random_variable_of_type(indexable, Mode::Strict) {
            Some(array) => array,
            None => {
                return None;
            },
        };
        let ghost d = old(program).depth();
        proof {
            program.lemma_holds_sees(array, d);
        }
        let idx = Self::element_index(program);
        proof {
            program.lemma_holds_sees(array, d);
        }
        program.load_element(array, idx);
        Some(())
    }

    /// Appends the write of a random variable to an element of a random
    /// array. Fails where there is no array.
    pub fn store_element_generator(program: &mut Program) -> (r: Option<()>)
        requires
            old(program).wf(),
            old(program).has_run_room(),
        ensures
            final(program).ran(old(program), r),
            (final(program)@, r is Some) == spec_store_element(old(program)@),
    {
        let array = match program.random_variable_of_type(Type::array_type(), Mode::Strict) {
            Some(array) => array,
            None => {
                return None;
            },
        };
        let ghost d = old(program).depth();
        proof {
            program.lemma_holds_sees(array, d);
        }
        let idx = Self::element_index(program);
        proof {
            program.lemma_holds_sees(array, d);
            program.lemma_holds_sees(idx, d);
        }
        let value = program.random_variable(Type::any_type());
        proof {
            program.lemma_holds_sees(array, d);
            program.lemma_holds_sees(idx, d);
        }
        program.store_element(array, idx, value);
        Some(())
    }

    /// Appends a call of a random method of a random object, with random
    /// arguments. Fails where there is no object or the runtime has no
    /// method for its shape.
    pub fn method_call_generator(program: &mut Program) -> (r: Option<()>)
        requires
            old(program).wf(),
            old(program).has_run_room(),
        ensures
            final(program).ran(old(program), r),
            (final(program)@, r is Some) == spec_method_call(old(program)@),
    {
        let object = match program.random_variable_of_type(Type::object_type(), Mode::Strict) {
            Some(object) => object,
            None => {
                return None;
            },
        };
        let ghost d = old(program).depth();
        proof {
            program.lemma_sees_typed(object);
        }
        let object_type = program.get_type(&object);
        let method = match program.random_method_for_shape(object_type.shape) {
            Some(method) => method,
            None => {
                return None;
            },
        };
        proof {
            program.lemma_holds_sees(object, d);
        }
        let inputs = program.generate_method_args(&method, Some(object));
        if inputs.len() > 255 {
            return None;
        }
        program.method_call(inputs, method);
        Some(())
    }

    /// Appends the read of a property of a random object: six times in ten
    /// one of the properties that programs use, else one that the runtime
    /// knows for the shape of the object. Fails where there is no object or
    /// the runtime knows no property.
    pub fn load_property_generator(program: &mut Program) -> (r: Option<()>)
        requires
            old(program).wf(),
            old(program).has_run_room(),
        ensures
            final(program).ran(old(program), r),
            (final(program)@, r is Some) == spec_load_property(old(program)@),
    {
        let object = match program.random_variable_of_type(Type::object_type(), Mode::Strict) {
            Some(object) => object,
            None => {
                return None;
            },
        };
        proof {
            program.lemma_sees_typed(object);
        }
        let object_type = program.get_type(&object);
        let prop = if program.prob.probablity(6) {
            let names = properties();
            (*program.rng.random_element(names.as_slice())).to_owned()
        } else {
            let props = match program.jsruntime.get_properties(object_type.shape) {
                Some(props) => props,
                None => {
                    return None;
                },
            };
            if props.len() == 0 {
                return None;
            }
            program.rng.random_element(props.as_slice()).clone()
        };
        program.load_property(prop, object);
        Some(())
    }

    /// Appends the write of a random variable to one of the properties that
    /// programs use, of a random variable, an object where there is one.
    pub fn store_property_generator(program: &mut Program) -> (r: Option<()>)
        requires
            old(program).wf(),
            old(program).has_run_room(),
            old(program).visible().len() > 0,
        ensures
            final(program).ran(old(program), r),
            (final(program)@, r is Some) == spec_store_property(old(program)@),
    {
        let object = program.random_variable(Type::object_type());
        let names = properties();
        let property = (*program.rng.random_element(names.as_slice())).to_owned();
        let value = program.random_variable(Type::any_type());
        program.store_property(property, object, value);
        Some(())
    }

    /// Appends the load of a random builtin of the runtime, with random
    /// arguments where it has a constructor to call. Fails where the runtime
    /// has no builtin.
    pub fn load_builtin_generator(program: &mut Program) -> (r: Option<()>)
        requires
            old(program).wf(),
            old(program).has_run_room(),
            old(program).visible().len() > 0,
        ensures
            final(program).ran(old(program), r),
            (final(program)@, r is Some) == spec_load_builtin(old(program)@),
    {
        let runtime = program.jsruntime;
        let constructors = runtime.get_constructors();
        if constructors.len() == 0 {
            return None;
        }
        let constructor = program.rng.random_element(constructors.as_slice());
        match constructor {
            ConstructorType::Callable(ms) => {
                let inputs = program.generate_method_args(ms, None);
                if inputs.len() > 255 {
                    return None;
                }
                program.load_builtin(constructor, Some(inputs));
            },
            ConstructorType::NonCallable(_, _) => {
                program.load_builtin(constructor, None);
            },
        }
        Some(())
    }

    /// Appends the creation of an object with some of the properties that
    /// programs use, none of them twice, each with a random variable for
    /// its value.
    pub fn create_object_generator(program: &mut Program) -> (r: Option<()>)
        requires
            old(program).wf(),
            old(program).has_run_room(),
            old(program).visible().len() > 0,
        ensures
            final(program).ran(old(program), r),
            (final(program)@, r is Some) == spec_create_object(old(program)@),
    {
        let names = properties();
        let num_props = program.rng.rand_in_range(0, 8) as usize;
        let ghost drawn = program.rng.0;
        let chosen = program.rng.get_n_random_elements(names.as_slice(), num_props);
        let ghost picked = sample(drawn, indices(8), num_props as nat);
        let mut values: Vec<Variable> = Vec::new();
        program.push_choices(&mut values, Type::any_type(), num_props);
        let mut props: Vec<String> = Vec::new();
        let mut j: usize = 0;
        while j < chosen.len()
            invariant
                j <= chosen@.len(),
                props@.len() == j,
                names@.map_values(|s: &'static str| s@) == spec_properties(),
                chosen@.len() == picked.len(),
                forall|i: int| 0 <= i < picked.len() ==> 0 <= #[trigger] picked[i] < 8,
                forall|i: int| 0 <= i < chosen@.len() ==> *#[trigger] chosen@[i] == names@[picked[i] as int],
                forall|i: int| 0 <= i < j ==> (#[trigger] props@[i])@ == spec_properties()[picked[i] as int],
            decreases chosen@.len() - j,
        {
            assert(names@.map_values(|s: &'static str| s@)[picked[j as int] as int]
                == names@[picked[j as int] as int]@);
            props.push((*chosen[j]).to_owned());
            j = j + 1;
        }
        assert(texts(props@) =~= Seq::new(
            picked.len(),
            |i: int| spec_properties()[picked[i] as int],
        ));
        assert(values@ =~= Seq::<Variable>::empty() + values@);
        program.create_object(props, values);
        Some(())
    }

    /// Appends the deletion of a property of a random variable, an object
    /// where there is one: with equal probability the property at a random
    /// index or one of the properties that programs use.
    pub fn delete_property_generator(program: &mut Program) -> (r: Option<()>)
        requires
            old(program).wf(),
            old(program).has_run_room(),
            old(program).visible().len() > 0,
        ensures
            final(program).ran(old(program), r),
            (final(program)@, r is Some) == spec_delete_property(old(program)@),
    {
        let ghost d = old(program).depth();
        let object = program.random_variable(Type::object_type());
        let mut is_indexed_property = false;
        let property = if program.prob.probablity(5) {
            is_indexed_property = true;
            program.random_variable(Type::int_type())
        } else {
            let names = properties();
            let prop = (*program.rng.random_element(names.as_slice())).to_owned();
            let v = program.load_string(prop);
            proof {
                program.lemma_holds_sees(v, d);
            }
            v
        };
        proof {
            program.lemma_holds_sees(object, d);
        }
        program.delete_property(object, property, is_indexed_property);
        Some(())
    }

    /// Defines a function as the function definition generator does, then
    /// calls a random function in a loop of fewer than 0x500 rounds, whose
    /// body holds two generated instructions or blocks before the call, and
    /// once more after two more generated instructions or blocks. Fails
    /// where no variable is exactly a function or the function is still
    /// being defined, and where scopes are nested to the limit.
    pub fn jit_function_generator(program: &mut Program) -> (r: Option<()>)
        requires
            old(program).wf(),
            old(program).has_run_room(),
            old(program).visible().len() > 0,
        ensures
            final(program).ran(old(program), r),
            (final(program)@, r is Some) == spec_jit_function(old(program)@),
        decreases old(program).budget, 3int,
    {
        if program.scope_analyzer.get_all_scopes().len() >= MAX_SCOPE_DEPTH {
            return None;
        }
        Self::function_definition_generator(program);
        let func = match program.random_variable_of_type(Type::function_type(), Mode::Strict) {
            Some(func) => func,
            None => {
                return None;
            },
        };
        proof {
            program.lemma_sees_typed(func);
        }
        let typ = program.get_type(&func);
        if typ != Type::function_type() {
            return None;
        }
        if !program.type_analyzer.has_signature(func) {
            return None;
        }
        if program.get_signature_for(&func).is_constructing() {
            return None;
        }
        let inputs = program.generate_function_args(func);
        if inputs.len() >= 255 {
            return None;
        }
        Self::call_in_loop(program, func, inputs)
    }

    /// Calls `func` with the arguments `inputs` in a loop, and once more
    /// with new arguments after it.
    fn call_in_loop(program: &mut Program, func: Variable, inputs: Vec<Variable>) -> (r: Option<
        (),
    >)
        requires
            old(program).wf(),
            old(program).depth() < MAX_SCOPE_DEPTH,
            old(program).instruction_potential() + 16 <= u32::MAX,
            old(program).variable_potential() + 128 <= u32::MAX,
            old(program).sees(func),
            old(program).sees_all(inputs@),
            inputs@.len() < 255,
            old(program).type_analyzer@.signatures.contains_key(func.0),
        ensures
            final(program).generated(old(program)),
            final(program).within(old(program), 8),
            r is Some ==> final(program).insts().len() > old(program).insts().len(),
            (final(program)@, r is Some) == spec_call_in_loop(old(program)@, func, inputs@),
        decreases old(program).budget, 1int,
    {
        let ghost d = old(program).depth();
        let start = program.load_int(0);
        let rounds = program.rng.rand_in_range(0, 0x500) as i64;
        let end = program.load_int(rounds);
        let step = program.load_int(1);
        proof {
            program.lemma_holds_sees(start, d);
            program.lemma_holds_sees(end, d);
        }
        program.begin_for(start, end, step, "++".to_owned(), Comparators::LessThan);
        program.generate_random_insts(2);
        proof {
            program.lemma_holds_sees(func, d);
            assert forall|i: int| 0 <= i < inputs@.len() implies program.sees(
                #[trigger] inputs@[i],
            ) by {
                assert(old(program).sees(inputs@[i]));
                program.lemma_holds_sees(inputs@[i], d);
            }
        }
        program.function_call(func, inputs);
        program.end_for();
        assert(program.context_analyzer@ =~= old(program).context_analyzer@);
        program.generate_random_insts(2);
        proof {
            program.lemma_holds_sees(func, d);
        }
        let inputs = program.generate_function_args(func);
        if inputs.len() >= 255 {
            return None;
        }
        program.function_call(func, inputs);
        Some(())
    }
}

} // verus!
