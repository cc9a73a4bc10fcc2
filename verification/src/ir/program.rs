//! The program under construction: a buffer of instructions, the analyzers
//! that follow it, and the random choice of variables and literals.

use vstd::prelude::*;
use super::codeanalysis::analyzers::{
    context_step,
    context_wf,
    nesting_of,
    lemma_context_step,
    nesting_fits,
    nesting_step,
    scope_fits,
    scope_step,
    ContextAnalyzer,
    Nest,
    ScopeAnalyzer,
};
use super::codeanalysis::typeanalyzer::{
    lemma_step,
    mark_constructing,
    TypeAnalyzer,
    TypeAnalyzerView,
};
use super::codeanalysis::types::{
    ConstructorType,
    FunctionSignature,
    MethodArg,
    MethodSignature,
    PType,
    Shape,
    Type,
};
use super::instruction::{Instruction, InstructionView};
use super::operation::{
    lemma_attributes,
    texts,
    BeginElse,
    BeginFor,
    BeginFunctionDefinition,
    CreateArray,
    CreateObject,
    FunctionCall,
    LoadBuiltin,
    MethodCall,
    Operation,
    OperationView,
};
use super::operators::{BinaryOperators, Comparators, UnaryOperators};
use super::variable::Variable;
use super::codegenerators::CodeGenerators;
use crate::fuzzer::interesting::{interesting_ints, spec_interesting_ints};
use crate::fuzzer::settings::{basic_generators, generators, spec_basic_generators, Generator};
use crate::jsruntime::constants::{spec_typed_array_names, typed_array_names};
use crate::jsruntime::jsbuiltin::signatures_view;
use crate::jsruntime::jsruntime::{JSRuntime, JSRuntimeView};
use crate::utils::float::FloatLiteral;
use crate::utils::probablity::{biased_pick, lemma_biased_pick_range, ratio_accept, Probablity};
use crate::utils::random::{
    in_range,
    index_of,
    random_chars,
    xorshift,
    xorshift_n,
    Random,
    FLOAT_SCALE,
};
use super::codeanalysis::types::{ConstructorTypeView, MethodSignatureView};

verus! {

/// How strictly a variable is chosen by type. In the free mode the type is
/// a hint: a variable of another type is taken where none of the type is
/// visible. In the strict mode there is then no choice.
#[derive(Clone, Copy, Debug, PartialEq, Eq, Structural)]
pub enum Mode {
    Free,
    Strict,
}

/// The deepest nesting of scopes that a program reaches.
pub const MAX_SCOPE_DEPTH: usize = 30;

/// The number of generator runs that a new program allows.
pub const DEFAULT_BUDGET: u32 = 0x10000;

/// The instructions that one generator run may add itself, the runs that
/// it starts not counted. Each instruction defines at most eight variables.
pub const RUN_ROOM: u32 = 64;

/// The scopes of an empty program: one scope, and nothing in it.
pub open spec fn initial_scopes() -> Seq<Seq<Variable>> {
    seq![Seq::<Variable>::empty()]
}

/// The scopes after the first `n` instructions.
pub open spec fn scopes_after(insts: Seq<InstructionView>, n: int) -> Seq<Seq<Variable>>
    decreases n,
{
    if n <= 0 {
        initial_scopes()
    } else {
        scope_step(scopes_after(insts, n - 1), insts[n - 1])
    }
}

/// The open loops and functions after the first `n` instructions.
pub open spec fn nesting_after(insts: Seq<InstructionView>, n: int) -> Seq<Nest>
    decreases n,
{
    if n <= 0 {
        Seq::empty()
    } else {
        nesting_step(nesting_after(insts, n - 1), insts[n - 1].operation)
    }
}

/// An instruction is in place after a program with the given scopes and
/// open constructs when it has the variables that its operation asks for,
/// every variable it reads is visible, it closes only what is open and of
/// its kind, a break or a continue stands directly in a loop, a return
/// stands in a function, and a block that opens does not nest deeper than
/// the limit.
pub open spec fn placed(scopes: Seq<Seq<Variable>>, nesting: Seq<Nest>, inst: InstructionView) -> bool {
    &&& inst.wf()
    &&& inst.operation.is_block_start() && !inst.operation.is_block_end() ==> scopes.len()
        < MAX_SCOPE_DEPTH
    &&& scope_fits(scopes, inst)
    &&& nesting_fits(nesting, inst.operation)
    &&& forall|k: int| 0 <= k < inst.inputs.len() ==> scopes.flatten().contains(#[trigger] inst.inputs[k])
    &&& (inst.operation is Break || inst.operation is Continue) ==> nesting.len() > 0 && nesting.last()
        == Nest::Loop
    &&& inst.operation is Return ==> nesting.contains(Nest::Function)
}

/// Each of the first `n` instructions is in place after the ones before it.
pub open spec fn valid(insts: Seq<InstructionView>, n: int) -> bool
    decreases n,
{
    n <= 0 || (valid(insts, n - 1) && placed(
        scopes_after(insts, n - 1),
        nesting_after(insts, n - 1),
        insts[n - 1],
    ))
}

/// The number of open functions.
pub open spec fn functions_in(nesting: Seq<Nest>) -> nat
    decreases nesting.len(),
{
    if nesting.len() == 0 {
        0
    } else {
        functions_in(nesting.drop_last()) + if nesting.last() == Nest::Function {
            1nat
        } else {
            0nat
        }
    }
}

/// The variables from `start` on, `n` of them.
pub open spec fn fresh(start: int, n: nat) -> Seq<Variable> {
    Seq::new(n, |i: int| Variable((start + i) as u32))
}

/// What is visible after an instruction, given the scopes before it: the
/// variables of the scopes that stay, then its outputs unless it ends the
/// innermost scope, then its temporaries if it starts a scope.
pub open spec fn visible_step(scopes: Seq<Seq<Variable>>, inst: InstructionView) -> Seq<Variable> {
    let rest = scopes.drop_last().flatten();
    let base = if inst.operation.is_block_end() {
        rest
    } else {
        rest + scopes.last() + inst.outputs
    };
    if inst.operation.is_block_start() {
        base + inst.temp
    } else {
        base
    }
}

/// The variables visible after a step of the scope analyzer.
pub proof fn lemma_visible_step(scopes: Seq<Seq<Variable>>, inst: InstructionView)
    requires
        scope_fits(scopes, inst),
    ensures
        scope_step(scopes, inst).flatten() == visible_step(scopes, inst),
        scopes.flatten() == scopes.drop_last().flatten() + scopes.last(),
{
    let rest = scopes.drop_last();
    let top = scopes.last();
    assert(scopes =~= rest.push(top));
    rest.lemma_flatten_push(top);
    let extended = scopes.update(scopes.len() - 1, top + inst.outputs);
    assert(extended =~= rest.push(top + inst.outputs));
    rest.lemma_flatten_push(top + inst.outputs);
    assert(rest.flatten() + (top + inst.outputs) =~= rest.flatten() + top + inst.outputs);
    let closed = if inst.operation.is_block_end() {
        extended.drop_last()
    } else {
        extended
    };
    if inst.operation.is_block_end() {
        assert(closed =~= rest);
    }
    if inst.operation.is_block_start() {
        closed.lemma_flatten_push(inst.temp);
    }
}

/// The history of a program depends on its instructions up to the point
/// asked for only.
pub proof fn lemma_prefix(a: Seq<InstructionView>, b: Seq<InstructionView>, n: int)
    requires
        n <= a.len(),
        n <= b.len(),
        forall|i: int| 0 <= i < n ==> a[i] == b[i],
    ensures
        scopes_after(a, n) == scopes_after(b, n),
        nesting_after(a, n) == nesting_after(b, n),
        valid(a, n) == valid(b, n),
    decreases n,
{
    if n > 0 {
        lemma_prefix(a, b, n - 1);
    }
}

/// A program that is valid up to a point is valid up to every earlier one.
pub proof fn lemma_valid_prefix(insts: Seq<InstructionView>, n: int, m: int)
    requires
        n <= m,
        valid(insts, m),
    ensures
        valid(insts, n),
    decreases m - n,
{
    if n < m {
        lemma_valid_prefix(insts, n, m - 1);
    }
}

/// In a valid program every instruction is in place: each variable it
/// reads is visible where it stands, an end closes the innermost open loop
/// or function and is of its kind, a break or a continue stands directly
/// in a loop, and a return stands in a function.
pub proof fn lemma_valid_instruction(insts: Seq<InstructionView>, n: int, i: int)
    requires
        valid(insts, n),
        0 <= i < n,
    ensures
        placed(scopes_after(insts, i), nesting_after(insts, i), insts[i]),
{
    lemma_valid_prefix(insts, i + 1, n);
}

/// The scopes of a valid program are never empty and never nested deeper
/// than the limit.
pub proof fn lemma_valid_depth(insts: Seq<InstructionView>, n: int)
    requires
        valid(insts, n),
    ensures
        1 <= scopes_after(insts, n).len() <= MAX_SCOPE_DEPTH,
    decreases n,
{
    if n > 0 {
        lemma_valid_depth(insts, n - 1);
    }
}

/// Where a function is open, at least one is counted.
pub proof fn lemma_functions_in(nesting: Seq<Nest>)
    ensures
        nesting.contains(Nest::Function) <==> functions_in(nesting) > 0,
    decreases nesting.len(),
{
    if nesting.len() > 0 {
        lemma_functions_in(nesting.drop_last());
        if nesting.contains(Nest::Function) {
            let i = choose|i: int| 0 <= i < nesting.len() && nesting[i] == Nest::Function;
            if i < nesting.len() - 1 {
                assert(nesting.drop_last()[i] == Nest::Function);
            }
        }
        if nesting.drop_last().contains(Nest::Function) {
            let i = choose|i: int|
                0 <= i < nesting.drop_last().len() && nesting.drop_last()[i] == Nest::Function;
            assert(nesting[i] == Nest::Function);
        }
        if nesting.last() == Nest::Function {
            assert(nesting[nesting.len() - 1] == Nest::Function);
        }
    }
}

/// The count of open functions after a step of the nesting.
pub proof fn lemma_functions_step(nesting: Seq<Nest>, op: OperationView)
    requires
        nesting_fits(nesting, op),
    ensures
        functions_in(nesting_step(nesting, op)) == functions_in(nesting) + (if op is BeginFunctionDefinition {
            1int
        } else if op is EndFunctionDefinition {
            -1int
        } else {
            0int
        }),
{
    lemma_attributes(op);
    if op.is_loop_start() {
        assert(nesting.push(Nest::Loop).drop_last() =~= nesting);
    } else if op.is_function_start() {
        assert(nesting.push(Nest::Function).drop_last() =~= nesting);
    }
}

/// Tells whether `v` is in one of the scopes.
pub open spec fn in_scopes(scopes: Seq<Seq<Variable>>, v: Variable) -> bool {
    exists|i: int, j: int| 0 <= i < scopes.len() && 0 <= j < scopes[i].len() && scopes[i][j] == v
}

/// The visible variables are those that are in one of the scopes.
pub proof fn lemma_in_scopes(scopes: Seq<Seq<Variable>>, v: Variable)
    ensures
        scopes.flatten().contains(v) <==> in_scopes(scopes, v),
    decreases scopes.len(),
{
    if scopes.len() == 0 {
        assert(scopes.flatten() =~= Seq::<Variable>::empty());
    } else {
        let rest = scopes.drop_last();
        let top = scopes.last();
        assert(scopes =~= rest.push(top));
        rest.lemma_flatten_push(top);
        lemma_in_scopes(rest, v);
        let flat = scopes.flatten();
        if flat.contains(v) {
            let k = choose|k: int| 0 <= k < flat.len() && flat[k] == v;
            if k < rest.flatten().len() {
                assert(rest.flatten()[k] == v);
                let (i, j) = choose|i: int, j: int|
                    0 <= i < rest.len() && 0 <= j < rest[i].len() && rest[i][j] == v;
                assert(scopes[i][j] == v);
            } else {
                assert(scopes[scopes.len() - 1][k - rest.flatten().len()] == v);
            }
        }
        if in_scopes(scopes, v) {
            let (i, j) = choose|i: int, j: int|
                0 <= i < scopes.len() && 0 <= j < scopes[i].len() && scopes[i][j] == v;
            if i < rest.len() {
                assert(rest[i][j] == v);
                assert(in_scopes(rest, v));
                let k = choose|k: int| 0 <= k < rest.flatten().len() && rest.flatten()[k] == v;
                assert(flat[k] == v);
            } else {
                assert(flat[rest.flatten().len() + j] == v);
            }
        }
    }
}

/// Tells whether `v` is in one of the outermost `depth` scopes.
pub open spec fn held(scopes: Seq<Seq<Variable>>, v: Variable, depth: int) -> bool {
    0 <= depth <= scopes.len() && in_scopes(scopes.subrange(0, depth), v)
}

/// Tells whether what the outermost scopes of `before` held, down to the
/// depth `limit`, those of `after` hold.
pub open spec fn kept(before: Seq<Seq<Variable>>, after: Seq<Seq<Variable>>, limit: int) -> bool {
    forall|v: Variable, d: int| #[trigger] held(before, v, d) && d <= limit ==> held(after, v, d)
}

/// What some of the outermost scopes hold, more of them hold.
pub proof fn lemma_held_deeper(scopes: Seq<Seq<Variable>>, v: Variable, d: int, e: int)
    requires
        held(scopes, v, d),
        d <= e <= scopes.len(),
    ensures
        held(scopes, v, e),
{
    let (i, j) = choose|i: int, j: int|
        0 <= i < scopes.subrange(0, d).len() && 0 <= j < scopes.subrange(0, d)[i].len()
            && scopes.subrange(0, d)[i][j] == v;
    assert(scopes.subrange(0, e)[i][j] == v);
}

/// Tells whether the scopes `after` are the scopes `before` with
/// variables added: there are as many, and each begins with what it held.
pub open spec fn scopes_grow(before: Seq<Seq<Variable>>, after: Seq<Seq<Variable>>) -> bool {
    &&& before.len() == after.len()
    &&& forall|i: int|
        0 <= i < before.len() ==> (#[trigger] before[i]).len() <= after[i].len() && before[i]
            =~= after[i].subrange(0, before[i].len() as int)
}

/// What is visible stays visible where the scopes grow.
pub proof fn lemma_grow_keeps(before: Seq<Seq<Variable>>, after: Seq<Seq<Variable>>, v: Variable)
    requires
        scopes_grow(before, after),
        before.flatten().contains(v),
    ensures
        after.flatten().contains(v),
{
    lemma_in_scopes(before, v);
    lemma_in_scopes(after, v);
    let (i, j) = choose|i: int, j: int|
        0 <= i < before.len() && 0 <= j < before[i].len() && before[i][j] == v;
    assert(before[i] =~= after[i].subrange(0, before[i].len() as int));
    assert(after[i][j] == after[i].subrange(0, before[i].len() as int)[j]);
}

/// The scopes below the innermost `depth` grow with an instruction that
/// neither leaves them nor is outside them.
pub proof fn lemma_step_grows(scopes: Seq<Seq<Variable>>, inst: InstructionView, depth: int)
    requires
        scope_fits(scopes, inst),
        0 < depth <= scopes.len(),
        inst.operation.is_block_end() ==> depth < scopes.len(),
    ensures
        scopes_grow(
            scopes.subrange(0, depth),
            scope_step(scopes, inst).subrange(0, depth),
        ),
        scope_step(scopes, inst).len() == scopes.len() + (if inst.operation.is_block_start() {
            1int
        } else {
            0int
        }) - (if inst.operation.is_block_end() {
            1int
        } else {
            0int
        }),
{
    let after = scope_step(scopes, inst);
    assert forall|i: int| 0 <= i < depth implies (#[trigger] scopes.subrange(0, depth)[i]).len()
        <= after.subrange(0, depth)[i].len() && scopes.subrange(0, depth)[i] =~= after.subrange(
        0,
        depth,
    )[i].subrange(0, scopes.subrange(0, depth)[i].len() as int) by {
        assert(scopes.subrange(0, depth)[i] == scopes[i]);
        assert(after.subrange(0, depth)[i] == after[i]);
    }
}

/// What is in scopes is in the scopes that they grow to.
pub proof fn lemma_grow_in(before: Seq<Seq<Variable>>, after: Seq<Seq<Variable>>, v: Variable)
    requires
        scopes_grow(before, after),
        in_scopes(before, v),
    ensures
        in_scopes(after, v),
{
    lemma_in_scopes(before, v);
    lemma_in_scopes(after, v);
    lemma_grow_keeps(before, after, v);
}

/// The integer that the literal generator draws, with the states of the
/// sources of decisions and of numbers after the draw and the integers
/// seen after it. Three times in ten it is one of the interesting integers;
/// else, five times in ten and if four integers have been seen, it is one
/// of those; else it is a new one, eight times in ten between `0` and
/// `0x10000` and else between `-0x1000` and `0x1000`.
pub open spec fn spec_getint(prob: u64, rng: u64, seen: Seq<i64>) -> (i64, u64, u64, Seq<i64>) {
    let word = xorshift(rng);
    let (interesting, d1) = ratio_accept(prob, 3, 10);
    if interesting {
        (spec_interesting_ints()[(word % 61) as int], d1, word, seen)
    } else {
        let (again, d2) = ratio_accept(d1, 5, 10);
        if again && seen.len() >= 4 {
            (seen[(word % (seen.len() as u64)) as int], d2, word, seen)
        } else {
            let (positive, d3) = ratio_accept(d2, 8, 10);
            let val = if positive {
                in_range(word, 0isize, 0x10000isize) as i64
            } else {
                in_range(word, -0x1000isize, 0x1000isize) as i64
            };
            (val, d3, word, seen.push(val))
        }
    }
}

/// The floating-point number that the literal generator draws: five times
/// in ten and if four numbers have been seen, one of those; else a new one
/// between `-0x1000` and `0x1000`.
pub open spec fn spec_getfloat(prob: u64, rng: u64, seen: Seq<FloatLiteral>) -> (
    FloatLiteral,
    u64,
    u64,
    Seq<FloatLiteral>,
) {
    let word = xorshift(rng);
    let (again, d1) = ratio_accept(prob, 5, 10);
    if again && seen.len() >= 4 {
        (seen[(word % (seen.len() as u64)) as int], d1, word, seen)
    } else {
        let val = FloatLiteral {
            numer: (in_range(word, -0x8000_0000isize, 0x7fff_ffffisize) * 0x1000) as i128,
            denom: FLOAT_SCALE,
        };
        (val, d1, word, seen.push(val))
    }
}

/// The string that the literal generator draws: five times in ten and if
/// a string has been seen, one of those; else a new one of fewer than a
/// hundred random characters.
pub open spec fn spec_getstring(prob: u64, rng: u64, seen: Seq<Seq<char>>) -> (
    Seq<char>,
    u64,
    u64,
    Seq<Seq<char>>,
) {
    let word = xorshift(rng);
    let (again, d1) = ratio_accept(prob, 5, 10);
    if again && seen.len() > 0 {
        (seen[(word % (seen.len() as u64)) as int], d1, word, seen)
    } else {
        let len = in_range(word, 0isize, 100isize) as u64;
        let val = random_chars(word, len as nat);
        (val, d1, xorshift_n(word, len as nat), seen.push(val))
    }
}

/// The test by which variables are chosen: the type of the variable
/// contains the wanted type.
pub open spec fn suits(types: Map<u32, Type>, want: Type) -> spec_fn(Variable) -> bool {
    |v: Variable| types[v.0].contains(want)
}

/// The type that is looked for: in the free mode a variable that may be
/// unknown is as good as one of the type asked for.
pub open spec fn wanted(rtype: Type, mode: Mode) -> Type {
    if mode == Mode::Free {
        Type { ptype: rtype.ptype.union(PType::unknown()), shape: rtype.shape }
    } else {
        rtype
    }
}

/// The variables from which one is chosen: those of the chosen scope that
/// suit; if there is none, those of all visible variables that suit; if
/// there is none and the mode is free, all visible variables.
pub open spec fn pool(
    scope: Seq<Variable>,
    visible: Seq<Variable>,
    types: Map<u32, Type>,
    rtype: Type,
    mode: Mode,
) -> Seq<Variable> {
    let want = wanted(rtype, mode);
    if scope.filter(suits(types, want)).len() > 0 {
        scope.filter(suits(types, want))
    } else if visible.filter(suits(types, want)).len() > 0 {
        visible.filter(suits(types, want))
    } else if mode == Mode::Free {
        visible
    } else {
        Seq::empty()
    }
}

/// The variable chosen for the type `rtype`, if there is one, and the
/// states of the sources of decisions and of numbers after the choice. A
/// scope is chosen, the inner ones preferred, each having the weight of
/// the one outside it times six fifths. Then a variable is drawn from the
/// pool for that scope; there is no variable where the pool is empty, and
/// then none is drawn.
pub open spec fn spec_choice(
    scopes: Seq<Seq<Variable>>,
    types: Map<u32, Type>,
    prob: u64,
    rng: u64,
    rtype: Type,
    mode: Mode,
) -> (Option<Variable>, u64, u64) {
    let (k, decided) = biased_pick(prob, 6, 5, scopes.len(), scopes.len());
    let from = pool(scopes[k], scopes.flatten(), types, rtype, mode);
    let word = xorshift(rng);
    if from.len() == 0 {
        (None, decided, rng)
    } else {
        (Some(from[(word % (from.len() as u64)) as int]), decided, word)
    }
}

/// `count` variables chosen one after the other in the free mode for the
/// type `t`, and the states of the sources after the choices.
pub open spec fn spec_choices(
    scopes: Seq<Seq<Variable>>,
    types: Map<u32, Type>,
    prob: u64,
    rng: u64,
    t: Type,
    count: int,
) -> (Seq<Variable>, u64, u64)
    decreases count,
{
    if count <= 0 {
        (Seq::empty(), prob, rng)
    } else {
        let (vars, p, r) = spec_choices(scopes, types, prob, rng, t, count - 1);
        let (v, d2, r2) = spec_choice(scopes, types, p, r, t, Mode::Free);
        (vars.push(v->0), d2, r2)
    }
}

/// The arguments for the first `n` parameters of a function: for each a
/// variable chosen in the free mode for its type.
pub open spec fn spec_function_args(
    scopes: Seq<Seq<Variable>>,
    types: Map<u32, Type>,
    prob: u64,
    rng: u64,
    input_types: Seq<Type>,
    n: int,
) -> (Seq<Variable>, u64, u64)
    decreases n,
{
    if n <= 0 {
        (Seq::empty(), prob, rng)
    } else {
        let (args, p, r) = spec_function_args(scopes, types, prob, rng, input_types, n - 1);
        let (v, d2, r2) = spec_choice(scopes, types, p, r, input_types[n - 1], Mode::Free);
        (args.push(v->0), d2, r2)
    }
}

/// The arguments for one entry of the parameter list of a method: one
/// variable for a required parameter; one or none, with equal
/// probability, for an optional one; for a repeated one as many as a
/// random index below the given number says.
pub open spec fn spec_entry_args(
    scopes: Seq<Seq<Variable>>,
    types: Map<u32, Type>,
    prob: u64,
    rng: u64,
    entry: MethodArg,
) -> (Seq<Variable>, u64, u64) {
    match entry {
        MethodArg::Type(t) => spec_choices(scopes, types, prob, rng, t, 1),
        MethodArg::Optional(t) => {
            let (given, decided) = ratio_accept(prob, 5, 10);
            if given {
                spec_choices(scopes, types, decided, rng, t, 1)
            } else {
                (Seq::empty(), decided, rng)
            }
        },
        MethodArg::Repeat(times, t) => {
            let word = xorshift(rng);
            if times == 0 {
                (Seq::empty(), prob, rng)
            } else {
                spec_choices(scopes, types, prob, word, t, index_of(word, times as usize) as int)
            }
        },
    }
}

/// The arguments for the first `n` entries of the parameter list of a
/// method.
pub open spec fn spec_method_args(
    scopes: Seq<Seq<Variable>>,
    types: Map<u32, Type>,
    prob: u64,
    rng: u64,
    params: Seq<MethodArg>,
    n: int,
) -> (Seq<Variable>, u64, u64)
    decreases n,
{
    if n <= 0 {
        (Seq::empty(), prob, rng)
    } else {
        let (args, p, r) = spec_method_args(scopes, types, prob, rng, params, n - 1);
        let (more, d2, r2) = spec_entry_args(scopes, types, p, r, params[n - 1]);
        (args + more, d2, r2)
    }
}

/// The name that a constructor is loaded under, given the word that
/// decides it: the constructor of a typed array is loaded under the name of
/// one of the typed arrays.
pub open spec fn loaded_constructor(ctor: ConstructorTypeView, word: u64) -> ConstructorTypeView {
    let name = spec_typed_array_names()[(word % 10) as int];
    match ctor {
        ConstructorTypeView::Callable(ms) => if ms.output_type == Type::typed_array_type() {
            ConstructorTypeView::Callable(MethodSignatureView { name, ..ms })
        } else {
            ctor
        },
        ConstructorTypeView::NonCallable(_, t) => if t == Type::obj(
            Shape::statik().union(Shape::typed_array()),
        ) {
            ConstructorTypeView::NonCallable(name, t)
        } else {
            ctor
        },
    }
}

/// Tells whether a constructor is loaded under the name of a typed array.
pub open spec fn is_typed_array_constructor(ctor: ConstructorTypeView) -> bool {
    match ctor {
        ConstructorTypeView::Callable(ms) => ms.output_type == Type::typed_array_type(),
        ConstructorTypeView::NonCallable(_, t) => t == Type::obj(
            Shape::statik().union(Shape::typed_array()),
        ),
    }
}

/// The invariant that ties the instructions of a program to its analyzers
/// and counters.
#[verifier::opaque]
pub open spec fn structure_ok(
    insts: Seq<InstructionView>,
    num_instr: u32,
    context: Seq<u8>,
    scopes: Seq<Seq<Variable>>,
    types: TypeAnalyzerView,
    next_free: u32,
) -> bool {
    &&& num_instr == insts.len()
    &&& context_wf(context)
    &&& scopes.len() >= 1
    &&& types.wf()
    &&& valid(insts, insts.len() as int)
    &&& scopes == scopes_after(insts, insts.len() as int)
    &&& nesting_of(context) == nesting_after(insts, insts.len() as int)
    &&& scopes.len() <= MAX_SCOPE_DEPTH
    &&& types.typed(scopes.flatten())
    &&& forall|k: u32| #[trigger] types.signatures.contains_key(k) ==> k < next_free
    &&& types.function_stack.len() == functions_in(nesting_of(context))
}

/// The mathematical value of a `Program`.
pub ghost struct ProgramView {
    /// The instructions.
    pub insts: Seq<InstructionView>,
    /// The number of instructions.
    pub num_instr: u32,
    /// The context stack.
    pub context: Seq<u8>,
    /// The scopes, the innermost last.
    pub scopes: Seq<Seq<Variable>>,
    /// The types and signatures.
    pub types: TypeAnalyzerView,
    /// The identifier of the next variable.
    pub next_free: u32,
    /// The description of the runtime.
    pub runtime: JSRuntimeView,
    /// The integers generated so far.
    pub seen_ints: Seq<i64>,
    /// The floating-point numbers generated so far.
    pub seen_floats: Seq<FloatLiteral>,
    /// The strings generated so far.
    pub seen_strings: Seq<Seq<char>>,
    /// The state of the source of random numbers.
    pub rng: u64,
    /// The state of the source of random decisions.
    pub prob: u64,
    /// The number of generator runs that are left.
    pub budget: u32,
}

impl ProgramView {
    /// The instruction that inserting the operation with the inputs
    /// appends: its outputs and temporaries are new variables.
    pub open spec fn next_instruction(self, op: OperationView, inputs: Seq<Variable>) -> InstructionView {
        InstructionView {
            idx: self.num_instr,
            operation: op,
            inputs,
            outputs: fresh(self.next_free as int, op.num_outputs()),
            temp: fresh(self.next_free + op.num_outputs(), op.num_temp()),
        }
    }

    /// The program after the operation with the inputs is inserted: the
    /// instruction is appended, each analyzer has taken its step, and the
    /// counters have advanced.
    #[verifier::opaque]
    pub open spec fn insert(self, op: OperationView, inputs: Seq<Variable>) -> ProgramView {
        let inst = self.next_instruction(op, inputs);
        ProgramView {
            insts: self.insts.push(mark_constructing(inst)),
            num_instr: (self.num_instr + 1) as u32,
            context: context_step(self.context, op),
            scopes: scope_step(self.scopes, inst),
            types: self.types.step(inst),
            next_free: (self.next_free + op.num_outputs() + op.num_temp()) as u32,
            ..self
        }
    }

    /// The variable that the next instruction with an output defines.
    pub open spec fn next_variable(self) -> Variable {
        Variable(self.next_free)
    }

    /// The program with other states of the sources of decisions and of
    /// numbers.
    pub open spec fn with_sources(self, prob: u64, rng: u64) -> ProgramView {
        ProgramView { prob, rng, ..self }
    }

    /// A decision taken with the probability of the given tenths, and the
    /// program after it.
    pub open spec fn decide(self, tenths: u8) -> (bool, ProgramView) {
        let (r, prob) = ratio_accept(self.prob, tenths as nat, 10);
        (r, ProgramView { prob, ..self })
    }

    /// The next random word, and the program after it is drawn.
    pub open spec fn draw(self) -> (u64, ProgramView) {
        (xorshift(self.rng), ProgramView { rng: xorshift(self.rng), ..self })
    }

    /// The variable chosen for the type `rtype` in the given mode, if there
    /// is one, and the program after the choice.
    pub open spec fn pick(self, rtype: Type, mode: Mode) -> (Option<Variable>, ProgramView) {
        let (r, prob, rng) = spec_choice(
            self.scopes,
            self.types.types,
            self.prob,
            self.rng,
            rtype,
            mode,
        );
        (r, self.with_sources(prob, rng))
    }

    /// The variable chosen for the type `rtype` in the free mode, and the
    /// program after the choice.
    pub open spec fn pick_free(self, rtype: Type) -> (Variable, ProgramView) {
        let (r, after) = self.pick(rtype, Mode::Free);
        (r->0, after)
    }

    /// The integer drawn for a literal, and the program after the draw.
    pub open spec fn getint(self) -> (i64, ProgramView) {
        let (r, prob, rng, seen) = spec_getint(self.prob, self.rng, self.seen_ints);
        (r, ProgramView { prob, rng, seen_ints: seen, ..self })
    }

    /// The floating-point number drawn for a literal, and the program after
    /// the draw.
    pub open spec fn getfloat(self) -> (FloatLiteral, ProgramView) {
        let (r, prob, rng, seen) = spec_getfloat(self.prob, self.rng, self.seen_floats);
        (r, ProgramView { prob, rng, seen_floats: seen, ..self })
    }

    /// The string drawn for a literal, and the program after the draw.
    pub open spec fn getstring(self) -> (Seq<char>, ProgramView) {
        let (r, prob, rng, seen) = spec_getstring(self.prob, self.rng, self.seen_strings);
        (r, ProgramView { prob, rng, seen_strings: seen, ..self })
    }

    /// The arguments for a call of the function `func`, and the program
    /// after they are chosen.
    pub open spec fn function_args(self, func: Variable) -> (Seq<Variable>, ProgramView) {
        let input_types = self.types.signatures[func.0].input_types;
        let (args, prob, rng) = spec_function_args(
            self.scopes,
            self.types.types,
            self.prob,
            self.rng,
            input_types,
            input_types.len() as int,
        );
        (args, self.with_sources(prob, rng))
    }

    /// The arguments for a call of the method with the given parameter
    /// list, after the receiver `this` if there is one, and the program
    /// after they are chosen.
    pub open spec fn method_args(self, params: Seq<MethodArg>, this: Option<Variable>) -> (
        Seq<Variable>,
        ProgramView,
    ) {
        let (args, prob, rng) = spec_method_args(
            self.scopes,
            self.types.types,
            self.prob,
            self.rng,
            params,
            params.len() as int,
        );
        (
            (match this {
                Some(t) => seq![t],
                None => Seq::empty(),
            }) + args,
            self.with_sources(prob, rng),
        )
    }

    /// The random method for a variable of the shape `shape`, if the
    /// runtime has one, and the program after it is chosen.
    pub open spec fn method_for_shape(self, shape: Shape) -> (
        Option<MethodSignatureView>,
        ProgramView,
    ) {
        match self.runtime.methods(shape) {
            Some(list) => if list.len() > 0 {
                let (word, after) = self.draw();
                (Some(list[(word % (list.len() as u64)) as int]), after)
            } else {
                (None, self)
            },
            None => (None, self),
        }
    }

    /// The program after a builtin is loaded with the given arguments.
    pub open spec fn load_builtin(self, ctor: ConstructorTypeView, args: Seq<Variable>) -> ProgramView {
        let (word, drawn) = self.draw();
        let from = if is_typed_array_constructor(ctor) {
            drawn
        } else {
            self
        };
        from.insert(
            OperationView::LoadBuiltin(loaded_constructor(ctor, word), args.len() as u8),
            args,
        )
    }

    /// The empty program for the given runtime, with the given states of
    /// the sources of numbers and of decisions.
    pub open spec fn fresh(runtime: JSRuntimeView, rng: u64, prob: u64) -> ProgramView {
        ProgramView {
            insts: Seq::empty(),
            num_instr: 0,
            context: seq![super::codeanalysis::analyzers::GLOBAL_CONTEXT],
            scopes: initial_scopes(),
            types: TypeAnalyzerView {
                types: Map::empty(),
                function_stack: Seq::empty(),
                signatures: Map::empty(),
            },
            next_free: 0,
            runtime,
            seen_ints: Seq::empty(),
            seen_floats: Seq::empty(),
            seen_strings: Seq::empty(),
            rng,
            prob,
            budget: DEFAULT_BUDGET,
        }
    }

    /// The program with the number of generator runs that are left lowered
    /// to what the counters of instructions and variables have room for.
    pub open spec fn fit_budget(self) -> ProgramView {
        let by_instructions = (u32::MAX - self.num_instr) / 64;
        let by_variables = (u32::MAX - self.next_free) / 512;
        let allowed = if by_instructions < by_variables {
            by_instructions
        } else {
            by_variables
        };
        if self.budget > allowed {
            ProgramView { budget: allowed as u32, ..self }
        } else {
            self
        }
    }
}

/// The program that is being generated.
pub struct Program<'a> {
    /// The instructions.
    pub buffer: Vec<Instruction>,
    /// The number of instructions.
    pub num_instr: u32,
    /// Follows the nesting of loops and functions.
    pub context_analyzer: ContextAnalyzer,
    /// Follows the visibility of variables.
    pub scope_analyzer: ScopeAnalyzer,
    /// Follows the types of variables.
    pub type_analyzer: TypeAnalyzer,
    /// The identifier of the next variable.
    pub next_free_variable_id: u32,
    /// The description of the runtime.
    pub jsruntime: &'a JSRuntime,
    /// The integers generated so far.
    pub seen_ints: Vec<i64>,
    /// The floating-point numbers generated so far.
    pub seen_floats: Vec<FloatLiteral>,
    /// The strings generated so far.
    pub seen_strings: Vec<String>,
    /// The source of random numbers.
    pub rng: Random,
    /// The source of random decisions.
    pub prob: Probablity,
    /// The number of generator runs that are left.
    pub budget: u32,
}

impl<'a> View for Program<'a> {
    type V = ProgramView;

    open spec fn view(&self) -> ProgramView {
        ProgramView {
            insts: self.insts(),
            num_instr: self.num_instr,
            context: self.context_analyzer.context@,
            scopes: self.scope_analyzer@,
            types: self.type_analyzer@,
            next_free: self.next_free_variable_id,
            runtime: self.jsruntime@,
            seen_ints: self.seen_ints@,
            seen_floats: self.seen_floats@,
            seen_strings: texts(self.seen_strings@),
            rng: self.rng.0,
            prob: self.prob.0.0,
            budget: self.budget,
        }
    }
}

impl<'a> Program<'a> {
    /// The values of the instructions.
    pub open spec fn insts(&self) -> Seq<InstructionView> {
        self.buffer@.map_values(|i: Instruction| i@)
    }

    /// The variables that are visible at the end of the program.
    pub open spec fn visible(&self) -> Seq<Variable> {
        self.scope_analyzer@.flatten()
    }

    /// The invariant of a program: its instructions are valid, the
    /// analyzers are where the instructions lead, every visible variable
    /// has a type, every function with a signature is an existing variable,
    /// the function stack of the type analyzer has a frame for each open
    /// function, the nesting of scopes is bounded, and every floating-point
    /// number seen is a ratio with a denominator.
    pub open spec fn wf(&self) -> bool {
        &&& structure_ok(
            self.insts(),
            self.num_instr,
            self.context_analyzer.context@,
            self.scope_analyzer@,
            self.type_analyzer@,
            self.next_free_variable_id,
        )
        &&& forall|i: int| 0 <= i < self.seen_floats@.len() ==> (#[trigger] self.seen_floats@[i]).wf()
    }

    /// The instruction that inserting the operation with the inputs
    /// appends: its outputs and temporaries are new variables.
    pub open spec fn next_instruction(&self, op: OperationView, inputs: Seq<Variable>) -> InstructionView {
        InstructionView {
            idx: self.num_instr,
            operation: op,
            inputs,
            outputs: fresh(self.next_free_variable_id as int, op.num_outputs()),
            temp: fresh(self.next_free_variable_id + op.num_outputs(), op.num_temp()),
        }
    }

    /// Tells whether the operation with the inputs can be inserted: the
    /// instruction is in place, the type analyzer can follow it, the
    /// counters of instructions and variables do not overflow, and a block
    /// that opens does not nest too deep.
    pub open spec fn can_insert(&self, op: OperationView, inputs: Seq<Variable>) -> bool {
        let inst = self.next_instruction(op, inputs);
        &&& placed(self.scope_analyzer@, self.context_analyzer@, inst)
        &&& self.type_analyzer@.fits(inst)
        &&& self.num_instr < u32::MAX
        &&& self.next_free_variable_id + op.num_outputs() + op.num_temp() <= u32::MAX
        &&& op.is_block_start() && !op.is_block_end() ==> self.scope_analyzer@.len()
            < MAX_SCOPE_DEPTH
    }

    /// The variable that the next instruction with an output defines.
    pub open spec fn next_variable(&self) -> Variable {
        Variable(self.next_free_variable_id)
    }

    /// The number of scopes that are open.
    pub open spec fn depth(&self) -> int {
        self.scope_analyzer@.len() as int
    }

    /// Tells whether `v` is in one of the outermost `depth` scopes.
    pub open spec fn holds(&self, v: Variable, depth: int) -> bool {
        held(self.scope_analyzer@, v, depth)
    }

    /// Tells whether `v` is visible.
    pub open spec fn sees(&self, v: Variable) -> bool {
        self.holds(v, self.depth())
    }

    /// Tells whether every one of `vars` is visible.
    pub open spec fn sees_all(&self, vars: Seq<Variable>) -> bool {
        forall|i: int| 0 <= i < vars.len() ==> self.sees(#[trigger] vars[i])
    }

    /// Tells whether what the outermost scopes of `before` held, down to
    /// the depth `limit`, they still hold.
    pub open spec fn keeps(&self, before: &Program<'a>, limit: int) -> bool {
        kept(before.scope_analyzer@, self.scope_analyzer@, limit)
    }

    /// Tells whether there is room for one more instruction that defines
    /// `vars` variables.
    pub open spec fn has_room(&self, vars: int) -> bool {
        self.num_instr < u32::MAX && self.next_free_variable_id + vars <= u32::MAX
    }

    /// Tells whether the innermost open construct is of the given kind.
    pub open spec fn innermost(&self, nest: Nest) -> bool {
        self.context_analyzer@.len() > 0 && self.context_analyzer@.last() == nest
    }

    /// The instructions that the program may come to have: those it has,
    /// and those that the generator runs that are left may add.
    pub open spec fn instruction_potential(&self) -> int {
        self.num_instr + 64 * self.budget
    }

    /// The variables that the program may come to have.
    pub open spec fn variable_potential(&self) -> int {
        self.next_free_variable_id + 512 * self.budget
    }

    /// Tells whether the counters of instructions and variables cannot
    /// overflow in the generator runs that are left.
    pub open spec fn within_budget(&self) -> bool {
        self.instruction_potential() <= u32::MAX && self.variable_potential() <= u32::MAX
    }

    /// Tells whether there is room for one generator run besides those that
    /// are left.
    pub open spec fn has_run_room(&self) -> bool {
        self.instruction_potential() + 64 <= u32::MAX && self.variable_potential() + 512
            <= u32::MAX
    }

    /// Tells whether the program has used no more than `slack` instructions
    /// beyond what the generator runs used since `before` allowed.
    pub open spec fn within(&self, before: &Program<'a>, slack: int) -> bool {
        &&& self.instruction_potential() <= before.instruction_potential() + slack
        &&& self.variable_potential() <= before.variable_potential() + 8 * slack
    }

    /// What generation guarantees of the program it leaves, whatever it
    /// generated: the program is well formed; the blocks that were opened
    /// are closed, so that the scopes and the open loops and functions are
    /// those of before; what was visible is visible; the functions that had
    /// a signature have one; no instruction was removed; and no generator
    /// runs were gained.
    pub open spec fn generated(&self, before: &Program<'a>) -> bool {
        &&& self.wf()
        &&& self.depth() == before.depth()
        &&& self.keeps(before, before.depth())
        &&& self.context_analyzer@ == before.context_analyzer@
        &&& self.jsruntime == before.jsruntime
        &&& self.budget <= before.budget
        &&& self.insts().len() >= before.insts().len()
        &&& forall|k: u32|
            before.type_analyzer@.signatures.contains_key(k)
                ==> #[trigger] self.type_analyzer@.signatures.contains_key(k)
    }

    /// What a generator run guarantees of the program it leaves: what
    /// generation guarantees; it added no more instructions itself than a
    /// run may; and it added an instruction where it reports success.
    pub open spec fn ran(&self, before: &Program<'a>, r: Option<()>) -> bool {
        &&& self.generated(before)
        &&& self.within(before, RUN_ROOM as int)
        &&& r is Some ==> self.insts().len() > before.insts().len()
    }

    /// What one of the outermost scopes holds is visible.
    pub proof fn lemma_holds_sees(&self, v: Variable, d: int)
        requires
            self.holds(v, d),
        ensures
            self.sees(v),
            self.visible().len() > 0,
    {
        lemma_held_deeper(self.scope_analyzer@, v, d, self.depth());
        self.lemma_sees(v);
    }

    /// Where something was visible before generation, something is after
    /// it.
    pub proof fn lemma_generated_visible(&self, before: &Program<'a>)
        requires
            self.generated(before),
            before.visible().len() > 0,
        ensures
            self.visible().len() > 0,
    {
        let v = before.visible()[0];
        before.lemma_sees(v);
        assert(held(before.scope_analyzer@, v, before.depth()));
        self.lemma_sees(v);
    }

    /// In a well-formed program every instruction is in place: each
    /// variable it reads is visible where the instruction stands; an end
    /// closes the innermost open loop or function and is of its kind, so
    /// that loops and functions are nested and balanced; a break or a
    /// continue stands directly in a loop; and a return stands in a
    /// function.
    pub proof fn lemma_every_instruction_placed(&self, i: int)
        requires
            self.wf(),
            0 <= i < self.insts().len(),
        ensures
            placed(scopes_after(self.insts(), i), nesting_after(self.insts(), i), self.insts()[i]),
    {
        reveal(structure_ok);
        lemma_valid_instruction(self.insts(), self.insts().len() as int, i);
    }

    /// In a well-formed program the context stack is never empty, and its
    /// top is the global context exactly when no loop and no function is
    /// open.
    pub proof fn lemma_context_top(&self)
        requires
            self.wf(),
        ensures
            self.context_analyzer.context@.len() >= 1,
            self.context_analyzer.context@.last() == super::codeanalysis::analyzers::GLOBAL_CONTEXT
                <==> self.context_analyzer@.len() == 0,
            self.context_analyzer@ == nesting_after(self.insts(), self.insts().len() as int),
    {
        reveal(structure_ok);
        super::codeanalysis::analyzers::lemma_top_is_global(self.context_analyzer);
    }

    /// The scopes of a well-formed program are those that its instructions
    /// lead to.
    pub proof fn lemma_scopes(&self)
        requires
            self.wf(),
        ensures
            self.scope_analyzer@ == scopes_after(self.insts(), self.insts().len() as int),
    {
        reveal(structure_ok);
    }

    /// The instructions of a well-formed program are valid.
    pub proof fn lemma_valid(&self)
        requires
            self.wf(),
        ensures
            valid(self.insts(), self.insts().len() as int),
    {
        reveal(structure_ok);
    }

    /// What is visible is what the scopes hold.
    pub proof fn lemma_sees(&self, v: Variable)
        ensures
            self.sees(v) <==> self.visible().contains(v),
    {
        assert(self.scope_analyzer@.subrange(0, self.depth()) =~= self.scope_analyzer@);
        lemma_in_scopes(self.scope_analyzer@, v);
    }

    /// An empty program for the given runtime, with the given sources of
    /// random numbers and decisions.
    pub fn new(jsruntime: &'a JSRuntime, rng: Random, prob: Probablity) -> (r: Program<'a>)
        ensures
            r.wf(),
            r@ == ProgramView::fresh(jsruntime@, rng.0, prob.0.0),
            r.insts() == Seq::<InstructionView>::empty(),
            r.visible() == Seq::<Variable>::empty(),
            r.next_free_variable_id == 0,
            r.jsruntime == jsruntime,
            r.rng == rng,
            r.prob == prob,
            r.budget == DEFAULT_BUDGET,
            r.within_budget(),
            r.depth() == 1,
            r.seen_ints@.len() == 0,
            r.seen_floats@.len() == 0,
            r.seen_strings@.len() == 0,
    {
        let r = Program {
            buffer: Vec::new(),
            num_instr: 0,
            context_analyzer: ContextAnalyzer::new(),
            scope_analyzer: ScopeAnalyzer::new(),
            type_analyzer: TypeAnalyzer::new(),
            next_free_variable_id: 0,
            jsruntime,
            seen_ints: Vec::new(),
            seen_floats: Vec::new(),
            seen_strings: Vec::new(),
            rng,
            prob,
            budget: DEFAULT_BUDGET,
        };
        proof {
            reveal(structure_ok);
            assert(r.insts() =~= Seq::<InstructionView>::empty());
            assert(r.scope_analyzer@ =~= initial_scopes());
            r.scope_analyzer@.lemma_flatten_singleton();
            assert(r.visible() =~= Seq::<Variable>::empty());
            assert(r@.seen_ints =~= Seq::<i64>::empty());
            assert(r@.seen_floats =~= Seq::<FloatLiteral>::empty());
            assert(r@.seen_strings =~= Seq::<Seq<char>>::empty());
            assert(r@.types.types =~= Map::<u32, Type>::empty());
        }
        r
    }

    fn next_free_variable(&mut self) -> (r: Variable)
        requires
            old(self).next_free_variable_id < u32::MAX,
        ensures
            r == Variable(old(self).next_free_variable_id),
            *final(self) == (Program {
                next_free_variable_id: (old(self).next_free_variable_id + 1) as u32,
                ..*old(self)
            }),
    {
        let id = self.next_free_variable_id;
        self.next_free_variable_id = self.next_free_variable_id + 1;
        Variable(id)
    }

    fn fresh_variables(&mut self, count: u8) -> (r: Vec<Variable>)
        requires
            old(self).next_free_variable_id + count <= u32::MAX,
        ensures
            r@ == fresh(old(self).next_free_variable_id as int, count as nat),
            *final(self) == (Program {
                next_free_variable_id: (old(self).next_free_variable_id + count) as u32,
                ..*old(self)
            }),
    {
        let mut r: Vec<Variable> = Vec::new();
        let mut i: u8 = 0;
        while i < count
            invariant
                i <= count,
                old(self).next_free_variable_id + count <= u32::MAX,
                r@ == fresh(old(self).next_free_variable_id as int, i as nat),
                *self == (Program {
                    next_free_variable_id: (old(self).next_free_variable_id + i) as u32,
                    ..*old(self)
                }),
            decreases count - i,
        {
            let v = self.next_free_variable();
            r.push(v);
            assert(r@ =~= fresh(old(self).next_free_variable_id as int, (i + 1) as nat));
            i = i + 1;
        }
        r
    }

    /// Appends an instruction with the given operation and inputs. Its
    /// outputs and temporaries are new variables; every analyzer follows
    /// the instruction. The outputs are returned.
    pub fn insert(&mut self, operation: Operation, inputs: Vec<Variable>) -> (r: Vec<Variable>)
        requires
            old(self).wf(),
            old(self).can_insert(operation@, inputs@),
        ensures
            final(self).wf(),
            final(self)@ == old(self)@.insert(operation@, inputs@),
            final(self).rng == old(self).rng,
            r@ == old(self).next_instruction(operation@, inputs@).outputs,
            final(self).depth() == old(self).depth() + (if operation@.is_block_start() {
                1int
            } else {
                0int
            }) - (if operation@.is_block_end() {
                1int
            } else {
                0int
            }),
            final(self).keeps(
                old(self),
                if operation@.is_block_end() {
                    old(self).depth() - 1
                } else {
                    old(self).depth()
                },
            ),
            !operation@.is_block_end() ==> forall|i: int|
                0 <= i < r@.len() ==> final(self).holds(#[trigger] r@[i], old(self).depth()),
            forall|k: u32|
                old(self).type_analyzer@.signatures.contains_key(k)
                    ==> #[trigger] final(self).type_analyzer@.signatures.contains_key(k),
            operation@ is BeginFunctionDefinition ==> final(self).type_analyzer@.signatures.contains_key(
                old(self).next_free_variable_id,
            ),
            *final(self) == (Program {
                buffer: final(self).buffer,
                num_instr: final(self).num_instr,
                context_analyzer: final(self).context_analyzer,
                scope_analyzer: final(self).scope_analyzer,
                type_analyzer: final(self).type_analyzer,
                next_free_variable_id: final(self).next_free_variable_id,
                ..*old(self)
            }),
            final(self).num_instr == old(self).num_instr + 1,
            final(self).insts().len() == old(self).insts().len() + 1,
            final(self).next_free_variable_id == old(self).next_free_variable_id
                + operation@.num_outputs() + operation@.num_temp(),
            final(self).context_analyzer@ == nesting_step(old(self).context_analyzer@, operation@),
    {
        proof {
            reveal(structure_ok);
            reveal(ProgramView::insert);
        }
        let ghost op = operation@;
        let ghost planned = self.next_instruction(op, inputs@);
        let num_outputs = operation.num_outputs();
        let num_temp = operation.num_temp();
        let outputs = self.fresh_variables(num_outputs);
        let temp = self.fresh_variables(num_temp);
        let mut inst = Instruction::new(self.num_instr, operation, inputs, outputs, temp);
        assert(inst@ == planned);
        proof {
            lemma_attributes(op);
            lemma_step(self.type_analyzer@, planned);
            lemma_visible_step(self.scope_analyzer@, planned);
            lemma_functions_step(self.context_analyzer@, op);
            lemma_functions_in(self.context_analyzer@);
        }
        self.scope_analyzer.analyze(&inst);
        self.context_analyzer.analyze(&inst);
        self.type_analyzer.analyze(&mut inst);
        let r = inst.outputs.clone();
        assert(r@ =~= planned.outputs);
        let ghost stored = inst@;
        self.buffer.push(inst);
        self.num_instr = self.num_instr + 1;
        proof {
            reveal(structure_ok);
            reveal(ProgramView::insert);
            let before = old(self).insts();
            let after = self.insts();
            let n = before.len() as int;
            assert(after =~= before.push(stored));
            assert(stored == mark_constructing(planned));
            lemma_attributes(stored.operation);
            lemma_prefix(before, after, n);
            assert(scope_step(old(self).scope_analyzer@, stored) == scope_step(
                old(self).scope_analyzer@,
                planned,
            ));
            assert(placed(old(self).scope_analyzer@, old(self).context_analyzer@, stored));
            assert(valid(after, n + 1));
            let flat = self.scope_analyzer@.flatten();
            assert forall|i: int| 0 <= i < flat.len() implies self.type_analyzer@.types.contains_key(
                #[trigger] flat[i].0,
            ) by {
                let v = flat[i];
                let rest = old(self).scope_analyzer@.drop_last().flatten();
                let top = old(self).scope_analyzer@.last();
                assert(old(self).visible() == rest + top);
                if i < rest.len() {
                    assert(old(self).visible()[i] == v);
                } else if !op.is_block_end() && i < rest.len() + top.len() {
                    assert(old(self).visible()[i] == v);
                } else if !op.is_block_end() && i < rest.len() + top.len() + planned.outputs.len() {
                    assert(planned.outputs[i - rest.len() - top.len()] == v);
                } else if op.is_block_end() {
                    assert(planned.temp[i - rest.len()] == v);
                } else {
                    assert(planned.temp[i - rest.len() - top.len() - planned.outputs.len()] == v);
                }
            }
            let scopes = old(self).scope_analyzer@;
            assert forall|v: Variable, d: int| #[trigger]
                held(scopes, v, d) && d <= (if op.is_block_end() {
                    old(self).depth() - 1
                } else {
                    old(self).depth()
                }) implies held(self.scope_analyzer@, v, d) by {
                if d > 0 {
                    lemma_step_grows(scopes, planned, d);
                    lemma_grow_in(scopes.subrange(0, d), self.scope_analyzer@.subrange(0, d), v);
                }
            }
            if !op.is_block_end() {
                assert forall|i: int| 0 <= i < r@.len() implies self.holds(
                    #[trigger] r@[i],
                    old(self).depth(),
                ) by {
                    let d = old(self).depth();
                    let top = scopes[d - 1];
                    assert(self.scope_analyzer@.subrange(0, d)[d - 1][top.len() + i] == r@[i]);
                }
            }
        }
        r
    }

    /// A variable that is about to be defined has no signature.
    pub proof fn lemma_fresh_signature(&self)
        requires
            self.wf(),
        ensures
            !self.type_analyzer@.signatures.contains_key(self.next_free_variable_id),
            self.depth() >= 1,
            self.depth() <= MAX_SCOPE_DEPTH,
            self.type_analyzer@.function_stack.len() == functions_in(self.context_analyzer@),
            self.context_analyzer.wf(),
            self.type_analyzer@.wf(),
    {
        reveal(structure_ok);
        if self.type_analyzer@.signatures.contains_key(self.next_free_variable_id) {
            assert(self.next_free_variable_id < self.next_free_variable_id);
        }
    }

    /// True when the innermost open construct is a loop.
    pub fn is_in_loop(&self) -> (r: bool)
        requires
            self.wf(),
        ensures
            r == self.innermost(Nest::Loop),
    {
        proof {
            reveal(structure_ok);
        }
        self.context_analyzer.in_loop()
    }

    /// True when the top of the context stack belongs to a function: the
    /// innermost open construct is a function, or the first loop opened in
    /// one.
    pub fn is_in_function(&self) -> (r: bool)
        requires
            self.wf(),
        ensures
            r == self.context_analyzer.spec_in_function(),
            r ==> self.context_analyzer@.contains(Nest::Function),
    {
        proof {
            reveal(structure_ok);
        }
        self.context_analyzer.in_function()
    }

    /// The type of a variable that has one.
    pub fn get_type(&self, variable: &Variable) -> (r: Type)
        requires
            self.type_analyzer@.types.contains_key(variable.0),
        ensures
            r == self.type_analyzer@.types[variable.0],
    {
        self.type_analyzer.get_type(variable)
    }

    /// The signature of a function that has one.
    pub fn get_signature_for(&self, variable: &Variable) -> (r: &FunctionSignature)
        requires
            self.type_analyzer@.signatures.contains_key(variable.0),
        ensures
            r@ == self.type_analyzer@.signatures[variable.0],
    {
        self.type_analyzer.get_signature_for(*variable)
    }

    /// Appends an instruction that does nothing.
    pub fn nop(&mut self)
        requires
            old(self).wf(),
            old(self).has_room(8),
        ensures
            final(self).wf(),
            final(self)@ == old(self)@.insert(OperationView::Nop, Seq::<Variable>::empty()),
            final(self).rng == old(self).rng,
            final(self).num_instr == old(self).num_instr + 1,
            final(self).next_free_variable_id <= old(self).next_free_variable_id + 8,
            final(self).insts().len() == old(self).insts().len() + 1,
            final(self).budget == old(self).budget,
            final(self).jsruntime == old(self).jsruntime,
            final(self).depth() == old(self).depth(),
            final(self).keeps(old(self), old(self).depth()),
            final(self).context_analyzer@ == old(self).context_analyzer@,
            forall|k: u32|
                old(self).type_analyzer@.signatures.contains_key(k)
                    ==> #[trigger] final(self).type_analyzer@.signatures.contains_key(k),
    {
        let mut inputs: Vec<Variable> = Vec::new();
        assert(inputs@ =~= Seq::<Variable>::empty());
        proof {
            lemma_attributes(OperationView::Nop);
            self.lemma_fresh_signature();
            lemma_functions_in(self.context_analyzer@);
        }
        self.insert(Operation::Nop, inputs);
    }

    /// Appends the load of an integer literal.
    pub fn load_int(&mut self, val: i64) -> (r: Variable)
        requires
            old(self).wf(),
            old(self).has_room(8),
        ensures
            final(self).wf(),
            final(self)@ == old(self)@.insert(
                OperationView::LoadInt(val),
                Seq::<Variable>::empty(),
            ),
            final(self).rng == old(self).rng,
            final(self).num_instr == old(self).num_instr + 1,
            final(self).insts().len() == old(self).insts().len() + 1,
            final(self).budget == old(self).budget,
            final(self).jsruntime == old(self).jsruntime,
            final(self).depth() == old(self).depth(),
            final(self).keeps(old(self), old(self).depth()),
            final(self).context_analyzer@ == old(self).context_analyzer@,
            forall|k: u32|
                old(self).type_analyzer@.signatures.contains_key(k)
                    ==> #[trigger] final(self).type_analyzer@.signatures.contains_key(k),
            r == old(self).next_variable(),
            final(self).holds(r, old(self).depth()),
            final(self).next_free_variable_id <= old(self).next_free_variable_id + 8,
    {
        let mut inputs: Vec<Variable> = Vec::new();
        assert(inputs@ =~= Seq::<Variable>::empty());
        proof {
            lemma_attributes(OperationView::LoadInt(val));
            self.lemma_fresh_signature();
            lemma_functions_in(self.context_analyzer@);
        }
        let outputs = self.insert(Operation::LoadInt(val), inputs);
        outputs[0]
    }

    /// Appends the load of a floating-point literal.
    pub fn load_float(&mut self, val: FloatLiteral) -> (r: Variable)
        requires
            old(self).wf(),
            old(self).has_room(8),
            val.wf(),
        ensures
            final(self).wf(),
            final(self)@ == old(self)@.insert(
                OperationView::LoadFloat(val),
                Seq::<Variable>::empty(),
            ),
            final(self).rng == old(self).rng,
            final(self).num_instr == old(self).num_instr + 1,
            final(self).insts().len() == old(self).insts().len() + 1,
            final(self).budget == old(self).budget,
            final(self).jsruntime == old(self).jsruntime,
            final(self).depth() == old(self).depth(),
            final(self).keeps(old(self), old(self).depth()),
            final(self).context_analyzer@ == old(self).context_analyzer@,
            forall|k: u32|
                old(self).type_analyzer@.signatures.contains_key(k)
                    ==> #[trigger] final(self).type_analyzer@.signatures.contains_key(k),
            r == old(self).next_variable(),
            final(self).holds(r, old(self).depth()),
            final(self).next_free_variable_id <= old(self).next_free_variable_id + 8,
    {
        let mut inputs: Vec<Variable> = Vec::new();
        assert(inputs@ =~= Seq::<Variable>::empty());
        proof {
            lemma_attributes(OperationView::LoadFloat(val));
            self.lemma_fresh_signature();
            lemma_functions_in(self.context_analyzer@);
        }
        let outputs = self.insert(Operation::LoadFloat(val), inputs);
        outputs[0]
    }

    /// Appends the load of a boolean literal.
    pub fn load_bool(&mut self, val: bool) -> (r: Variable)
        requires
            old(self).wf(),
            old(self).has_room(8),
        ensures
            final(self).wf(),
            final(self)@ == old(self)@.insert(
                OperationView::LoadBool(val),
                Seq::<Variable>::empty(),
            ),
            final(self).rng == old(self).rng,
            final(self).num_instr == old(self).num_instr + 1,
            final(self).insts().len() == old(self).insts().len() + 1,
            final(self).budget == old(self).budget,
            final(self).jsruntime == old(self).jsruntime,
            final(self).depth() == old(self).depth(),
            final(self).keeps(old(self), old(self).depth()),
            final(self).context_analyzer@ == old(self).context_analyzer@,
            forall|k: u32|
                old(self).type_analyzer@.signatures.contains_key(k)
                    ==> #[trigger] final(self).type_analyzer@.signatures.contains_key(k),
            r == old(self).next_variable(),
            final(self).holds(r, old(self).depth()),
            final(self).next_free_variable_id <= old(self).next_free_variable_id + 8,
    {
        let mut inputs: Vec<Variable> = Vec::new();
        assert(inputs@ =~= Seq::<Variable>::empty());
        proof {
            lemma_attributes(OperationView::LoadBool(val));
            self.lemma_fresh_signature();
            lemma_functions_in(self.context_analyzer@);
        }
        let outputs = self.insert(Operation::LoadBool(val), inputs);
        outputs[0]
    }

    /// Appends the load of a string literal.
    pub fn load_string(&mut self, val: String) -> (r: Variable)
        requires
            old(self).wf(),
            old(self).has_room(8),
        ensures
            final(self).wf(),
            final(self)@ == old(self)@.insert(
                OperationView::LoadString(val@),
                Seq::<Variable>::empty(),
            ),
            final(self).rng == old(self).rng,
            final(self).num_instr == old(self).num_instr + 1,
            final(self).insts().len() == old(self).insts().len() + 1,
            final(self).budget == old(self).budget,
            final(self).jsruntime == old(self).jsruntime,
            final(self).depth() == old(self).depth(),
            final(self).keeps(old(self), old(self).depth()),
            final(self).context_analyzer@ == old(self).context_analyzer@,
            forall|k: u32|
                old(self).type_analyzer@.signatures.contains_key(k)
                    ==> #[trigger] final(self).type_analyzer@.signatures.contains_key(k),
            r == old(self).next_variable(),
            final(self).holds(r, old(self).depth()),
            final(self).next_free_variable_id <= old(self).next_free_variable_id + 8,
    {
        let mut inputs: Vec<Variable> = Vec::new();
        assert(inputs@ =~= Seq::<Variable>::empty());
        proof {
            lemma_attributes(OperationView::LoadString(val@));
            self.lemma_fresh_signature();
            lemma_functions_in(self.context_analyzer@);
        }
        let outputs = self.insert(Operation::LoadString(val), inputs);
        outputs[0]
    }

    /// Appends the load of the undefined value.
    pub fn load_undefined(&mut self) -> (r: Variable)
        requires
            old(self).wf(),
            old(self).has_room(8),
        ensures
            final(self).wf(),
            final(self)@ == old(self)@.insert(
                OperationView::LoadUndefined,
                Seq::<Variable>::empty(),
            ),
            final(self).rng == old(self).rng,
            final(self).num_instr == old(self).num_instr + 1,
            final(self).insts().len() == old(self).insts().len() + 1,
            final(self).budget == old(self).budget,
            final(self).jsruntime == old(self).jsruntime,
            final(self).depth() == old(self).depth(),
            final(self).keeps(old(self), old(self).depth()),
            final(self).context_analyzer@ == old(self).context_analyzer@,
            forall|k: u32|
                old(self).type_analyzer@.signatures.contains_key(k)
                    ==> #[trigger] final(self).type_analyzer@.signatures.contains_key(k),
            r == old(self).next_variable(),
            final(self).holds(r, old(self).depth()),
            final(self).next_free_variable_id <= old(self).next_free_variable_id + 8,
    {
        let mut inputs: Vec<Variable> = Vec::new();
        assert(inputs@ =~= Seq::<Variable>::empty());
        proof {
            lemma_attributes(OperationView::LoadUndefined);
            self.lemma_fresh_signature();
            lemma_functions_in(self.context_analyzer@);
        }
        let outputs = self.insert(Operation::LoadUndefined, inputs);
        outputs[0]
    }

    /// Appends the assignment of `rhs` to `lhs`.
    pub fn copy(&mut self, lhs: Variable, rhs: Variable)
        requires
            old(self).wf(),
            old(self).has_room(8),
            old(self).sees(lhs),
            old(self).sees(rhs),
        ensures
            final(self).wf(),
            final(self)@ == old(self)@.insert(OperationView::Copy, seq![lhs, rhs]),
            final(self).rng == old(self).rng,
            final(self).num_instr == old(self).num_instr + 1,
            final(self).next_free_variable_id <= old(self).next_free_variable_id + 8,
            final(self).insts().len() == old(self).insts().len() + 1,
            final(self).budget == old(self).budget,
            final(self).jsruntime == old(self).jsruntime,
            final(self).depth() == old(self).depth(),
            final(self).keeps(old(self), old(self).depth()),
            final(self).context_analyzer@ == old(self).context_analyzer@,
            forall|k: u32|
                old(self).type_analyzer@.signatures.contains_key(k)
                    ==> #[trigger] final(self).type_analyzer@.signatures.contains_key(k),
    {
        let mut inputs: Vec<Variable> = Vec::new();
        inputs.push(lhs);
        inputs.push(rhs);
        assert(inputs@ =~= seq![lhs, rhs]);
        proof {
            lemma_attributes(OperationView::Copy);
            self.lemma_sees_typed(lhs);
            self.lemma_sees_typed(rhs);
            self.lemma_fresh_signature();
            lemma_functions_in(self.context_analyzer@);
        }
        self.insert(Operation::Copy, inputs);
    }

    /// Opens the branch of an `if` on `var`.
    pub fn begin_if(&mut self, var: Variable)
        requires
            old(self).wf(),
            old(self).has_room(8),
            old(self).sees(var),
            old(self).depth() < MAX_SCOPE_DEPTH,
        ensures
            final(self).wf(),
            final(self)@ == old(self)@.insert(OperationView::BeginIf, seq![var]),
            final(self).rng == old(self).rng,
            final(self).num_instr == old(self).num_instr + 1,
            final(self).next_free_variable_id <= old(self).next_free_variable_id + 8,
            final(self).insts().len() == old(self).insts().len() + 1,
            final(self).budget == old(self).budget,
            final(self).jsruntime == old(self).jsruntime,
            final(self).depth() == old(self).depth() + 1,
            final(self).keeps(old(self), old(self).depth()),
            final(self).context_analyzer@ == old(self).context_analyzer@,
            forall|k: u32|
                old(self).type_analyzer@.signatures.contains_key(k)
                    ==> #[trigger] final(self).type_analyzer@.signatures.contains_key(k),
    {
        let mut inputs: Vec<Variable> = Vec::new();
        inputs.push(var);
        assert(inputs@ =~= seq![var]);
        proof {
            lemma_attributes(OperationView::BeginIf);
            self.lemma_sees_typed(var);
            self.lemma_fresh_signature();
            lemma_functions_in(self.context_analyzer@);
        }
        self.insert(Operation::BeginIf, inputs);
    }

    /// Closes an `if`.
    pub fn end_if(&mut self)
        requires
            old(self).wf(),
            old(self).has_room(8),
            old(self).depth() > 1,
        ensures
            final(self).wf(),
            final(self)@ == old(self)@.insert(OperationView::EndIf, Seq::<Variable>::empty()),
            final(self).rng == old(self).rng,
            final(self).num_instr == old(self).num_instr + 1,
            final(self).next_free_variable_id <= old(self).next_free_variable_id + 8,
            final(self).insts().len() == old(self).insts().len() + 1,
            final(self).budget == old(self).budget,
            final(self).jsruntime == old(self).jsruntime,
            final(self).depth() == old(self).depth() - 1,
            final(self).keeps(old(self), old(self).depth() - 1),
            final(self).context_analyzer@ == old(self).context_analyzer@,
            forall|k: u32|
                old(self).type_analyzer@.signatures.contains_key(k)
                    ==> #[trigger] final(self).type_analyzer@.signatures.contains_key(k),
    {
        let mut inputs: Vec<Variable> = Vec::new();
        assert(inputs@ =~= Seq::<Variable>::empty());
        proof {
            lemma_attributes(OperationView::EndIf);
            self.lemma_fresh_signature();
            lemma_functions_in(self.context_analyzer@);
        }
        self.insert(Operation::EndIf, inputs);
    }

    /// Closes the branch of an `if` and opens its alternative.
    pub fn begin_else(&mut self)
        requires
            old(self).wf(),
            old(self).has_room(8),
            old(self).depth() > 1,
        ensures
            final(self).wf(),
            final(self)@ == old(self)@.insert(OperationView::BeginElse, Seq::<Variable>::empty()),
            final(self).rng == old(self).rng,
            final(self).num_instr == old(self).num_instr + 1,
            final(self).next_free_variable_id <= old(self).next_free_variable_id + 8,
            final(self).insts().len() == old(self).insts().len() + 1,
            final(self).budget == old(self).budget,
            final(self).jsruntime == old(self).jsruntime,
            final(self).depth() == old(self).depth(),
            final(self).keeps(old(self), old(self).depth() - 1),
            final(self).context_analyzer@ == old(self).context_analyzer@,
            forall|k: u32|
                old(self).type_analyzer@.signatures.contains_key(k)
                    ==> #[trigger] final(self).type_analyzer@.signatures.contains_key(k),
    {
        let mut inputs: Vec<Variable> = Vec::new();
        assert(inputs@ =~= Seq::<Variable>::empty());
        proof {
            lemma_attributes(OperationView::BeginElse);
            self.lemma_fresh_signature();
            lemma_functions_in(self.context_analyzer@);
        }
        self.insert(Operation::BeginElse(BeginElse()), inputs);
    }

    /// Opens a loop that counts from `start` to `end`; `op` is the text of the
    /// step and `comparator` the end test.
    pub fn begin_for(&mut self, start: Variable, end: Variable, step: Variable, op: String, comparator: Comparators)
        requires
            old(self).wf(),
            old(self).has_room(8),
            old(self).sees(start),
            old(self).sees(end),
            old(self).sees(step),
            old(self).depth() < MAX_SCOPE_DEPTH,
        ensures
            final(self).wf(),
            final(self)@ == old(self)@.insert(
                OperationView::BeginFor(op@, comparator),
                seq![start, end, step],
            ),
            final(self).rng == old(self).rng,
            final(self).num_instr == old(self).num_instr + 1,
            final(self).next_free_variable_id <= old(self).next_free_variable_id + 8,
            final(self).insts().len() == old(self).insts().len() + 1,
            final(self).budget == old(self).budget,
            final(self).jsruntime == old(self).jsruntime,
            final(self).depth() == old(self).depth() + 1,
            final(self).keeps(old(self), old(self).depth()),
            final(self).context_analyzer@ == old(self).context_analyzer@.push(Nest::Loop),
            forall|k: u32|
                old(self).type_analyzer@.signatures.contains_key(k)
                    ==> #[trigger] final(self).type_analyzer@.signatures.contains_key(k),
    {
        let mut inputs: Vec<Variable> = Vec::new();
        inputs.push(start);
        inputs.push(end);
        inputs.push(step);
        assert(inputs@ =~= seq![start, end, step]);
        proof {
            lemma_attributes(OperationView::BeginFor(op@, comparator));
            self.lemma_sees_typed(start);
            self.lemma_sees_typed(end);
            self.lemma_sees_typed(step);
            self.lemma_fresh_signature();
            lemma_functions_in(self.context_analyzer@);
        }
        self.insert(Operation::BeginFor(BeginFor(op, comparator)), inputs);
    }

    /// Closes a loop. The innermost open construct must be a loop.
    pub fn end_for(&mut self)
        requires
            old(self).wf(),
            old(self).has_room(8),
            old(self).depth() > 1,
            old(self).innermost(Nest::Loop),
        ensures
            final(self).wf(),
            final(self)@ == old(self)@.insert(OperationView::EndFor, Seq::<Variable>::empty()),
            final(self).rng == old(self).rng,
            final(self).num_instr == old(self).num_instr + 1,
            final(self).next_free_variable_id <= old(self).next_free_variable_id + 8,
            final(self).insts().len() == old(self).insts().len() + 1,
            final(self).budget == old(self).budget,
            final(self).jsruntime == old(self).jsruntime,
            final(self).depth() == old(self).depth() - 1,
            final(self).keeps(old(self), old(self).depth() - 1),
            final(self).context_analyzer@ == old(self).context_analyzer@.drop_last(),
            forall|k: u32|
                old(self).type_analyzer@.signatures.contains_key(k)
                    ==> #[trigger] final(self).type_analyzer@.signatures.contains_key(k),
    {
        let mut inputs: Vec<Variable> = Vec::new();
        assert(inputs@ =~= Seq::<Variable>::empty());
        proof {
            lemma_attributes(OperationView::EndFor);
            self.lemma_fresh_signature();
            lemma_functions_in(self.context_analyzer@);
        }
        self.insert(Operation::EndFor, inputs);
    }

    /// Appends a `break`. The innermost open construct must be a loop.
    pub fn insert_break(&mut self)
        requires
            old(self).wf(),
            old(self).has_room(8),
            old(self).innermost(Nest::Loop),
        ensures
            final(self).wf(),
            final(self)@ == old(self)@.insert(OperationView::Break, Seq::<Variable>::empty()),
            final(self).rng == old(self).rng,
            final(self).num_instr == old(self).num_instr + 1,
            final(self).next_free_variable_id <= old(self).next_free_variable_id + 8,
            final(self).insts().len() == old(self).insts().len() + 1,
            final(self).budget == old(self).budget,
            final(self).jsruntime == old(self).jsruntime,
            final(self).depth() == old(self).depth(),
            final(self).keeps(old(self), old(self).depth()),
            final(self).context_analyzer@ == old(self).context_analyzer@,
            forall|k: u32|
                old(self).type_analyzer@.signatures.contains_key(k)
                    ==> #[trigger] final(self).type_analyzer@.signatures.contains_key(k),
    {
        let mut inputs: Vec<Variable> = Vec::new();
        assert(inputs@ =~= Seq::<Variable>::empty());
        proof {
            lemma_attributes(OperationView::Break);
            self.lemma_fresh_signature();
            lemma_functions_in(self.context_analyzer@);
        }
        self.insert(Operation::Break, inputs);
    }

    /// Appends a `continue`. The innermost open construct must be a loop.
    pub fn insert_continue(&mut self)
        requires
            old(self).wf(),
            old(self).has_room(8),
            old(self).innermost(Nest::Loop),
        ensures
            final(self).wf(),
            final(self)@ == old(self)@.insert(OperationView::Continue, Seq::<Variable>::empty()),
            final(self).rng == old(self).rng,
            final(self).num_instr == old(self).num_instr + 1,
            final(self).next_free_variable_id <= old(self).next_free_variable_id + 8,
            final(self).insts().len() == old(self).insts().len() + 1,
            final(self).budget == old(self).budget,
            final(self).jsruntime == old(self).jsruntime,
            final(self).depth() == old(self).depth(),
            final(self).keeps(old(self), old(self).depth()),
            final(self).context_analyzer@ == old(self).context_analyzer@,
            forall|k: u32|
                old(self).type_analyzer@.signatures.contains_key(k)
                    ==> #[trigger] final(self).type_analyzer@.signatures.contains_key(k),
    {
        let mut inputs: Vec<Variable> = Vec::new();
        assert(inputs@ =~= Seq::<Variable>::empty());
        proof {
            lemma_attributes(OperationView::Continue);
            self.lemma_fresh_signature();
            lemma_functions_in(self.context_analyzer@);
        }
        self.insert(Operation::Continue, inputs);
    }

    /// Appends a binary operation.
    pub fn binary_op(&mut self, lhs: Variable, rhs: Variable, op: BinaryOperators) -> (r: Variable)
        requires
            old(self).wf(),
            old(self).has_room(8),
            old(self).sees(lhs),
            old(self).sees(rhs),
        ensures
            final(self).wf(),
            final(self)@ == old(self)@.insert(OperationView::BinaryOp(op), seq![lhs, rhs]),
            final(self).rng == old(self).rng,
            final(self).num_instr == old(self).num_instr + 1,
            final(self).insts().len() == old(self).insts().len() + 1,
            final(self).budget == old(self).budget,
            final(self).jsruntime == old(self).jsruntime,
            final(self).depth() == old(self).depth(),
            final(self).keeps(old(self), old(self).depth()),
            final(self).context_analyzer@ == old(self).context_analyzer@,
            forall|k: u32|
                old(self).type_analyzer@.signatures.contains_key(k)
                    ==> #[trigger] final(self).type_analyzer@.signatures.contains_key(k),
            r == old(self).next_variable(),
            final(self).holds(r, old(self).depth()),
            final(self).next_free_variable_id <= old(self).next_free_variable_id + 8,
    {
        let mut inputs: Vec<Variable> = Vec::new();
        inputs.push(lhs);
        inputs.push(rhs);
        assert(inputs@ =~= seq![lhs, rhs]);
        proof {
            lemma_attributes(OperationView::BinaryOp(op));
            self.lemma_sees_typed(lhs);
            self.lemma_sees_typed(rhs);
            self.lemma_fresh_signature();
            lemma_functions_in(self.context_analyzer@);
        }
        let outputs = self.insert(Operation::BinaryOp(op), inputs);
        outputs[0]
    }

    /// Appends a comparison.
    pub fn compare_op(&mut self, lhs: Variable, rhs: Variable, op: Comparators) -> (r: Variable)
        requires
            old(self).wf(),
            old(self).has_room(8),
            old(self).sees(lhs),
            old(self).sees(rhs),
        ensures
            final(self).wf(),
            final(self)@ == old(self)@.insert(OperationView::CompareOp(op), seq![lhs, rhs]),
            final(self).rng == old(self).rng,
            final(self).num_instr == old(self).num_instr + 1,
            final(self).insts().len() == old(self).insts().len() + 1,
            final(self).budget == old(self).budget,
            final(self).jsruntime == old(self).jsruntime,
            final(self).depth() == old(self).depth(),
            final(self).keeps(old(self), old(self).depth()),
            final(self).context_analyzer@ == old(self).context_analyzer@,
            forall|k: u32|
                old(self).type_analyzer@.signatures.contains_key(k)
                    ==> #[trigger] final(self).type_analyzer@.signatures.contains_key(k),
            r == old(self).next_variable(),
            final(self).holds(r, old(self).depth()),
            final(self).next_free_variable_id <= old(self).next_free_variable_id + 8,
    {
        let mut inputs: Vec<Variable> = Vec::new();
        inputs.push(lhs);
        inputs.push(rhs);
        assert(inputs@ =~= seq![lhs, rhs]);
        proof {
            lemma_attributes(OperationView::CompareOp(op));
            self.lemma_sees_typed(lhs);
            self.lemma_sees_typed(rhs);
            self.lemma_fresh_signature();
            lemma_functions_in(self.context_analyzer@);
        }
        let outputs = self.insert(Operation::CompareOp(op), inputs);
        outputs[0]
    }

    /// Appends a unary operation.
    pub fn unary_op(&mut self, operand: Variable, op: UnaryOperators) -> (r: Variable)
        requires
            old(self).wf(),
            old(self).has_room(8),
            old(self).sees(operand),
        ensures
            final(self).wf(),
            final(self)@ == old(self)@.insert(OperationView::UnaryOp(op), seq![operand]),
            final(self).rng == old(self).rng,
            final(self).num_instr == old(self).num_instr + 1,
            final(self).insts().len() == old(self).insts().len() + 1,
            final(self).budget == old(self).budget,
            final(self).jsruntime == old(self).jsruntime,
            final(self).depth() == old(self).depth(),
            final(self).keeps(old(self), old(self).depth()),
            final(self).context_analyzer@ == old(self).context_analyzer@,
            forall|k: u32|
                old(self).type_analyzer@.signatures.contains_key(k)
                    ==> #[trigger] final(self).type_analyzer@.signatures.contains_key(k),
            r == old(self).next_variable(),
            final(self).holds(r, old(self).depth()),
            final(self).next_free_variable_id <= old(self).next_free_variable_id + 8,
    {
        let mut inputs: Vec<Variable> = Vec::new();
        inputs.push(operand);
        assert(inputs@ =~= seq![operand]);
        proof {
            lemma_attributes(OperationView::UnaryOp(op));
            self.lemma_sees_typed(operand);
            self.lemma_fresh_signature();
            lemma_functions_in(self.context_analyzer@);
        }
        let outputs = self.insert(Operation::UnaryOp(op), inputs);
        outputs[0]
    }

    /// Opens the definition of a function with the given signature.
    pub fn begin_function_definition(&mut self, signature: FunctionSignature) -> (r: Variable)
        requires
            old(self).wf(),
            old(self).has_room(1 + signature@.num_inputs),
            old(self).depth() < MAX_SCOPE_DEPTH,
        ensures
            final(self).wf(),
            final(self)@ == old(self)@.insert(
                OperationView::BeginFunctionDefinition(signature@),
                Seq::<Variable>::empty(),
            ),
            final(self).rng == old(self).rng,
            final(self).num_instr == old(self).num_instr + 1,
            final(self).insts().len() == old(self).insts().len() + 1,
            final(self).budget == old(self).budget,
            final(self).jsruntime == old(self).jsruntime,
            final(self).depth() == old(self).depth() + 1,
            final(self).keeps(old(self), old(self).depth()),
            final(self).context_analyzer@ == old(self).context_analyzer@.push(Nest::Function),
            forall|k: u32|
                old(self).type_analyzer@.signatures.contains_key(k)
                    ==> #[trigger] final(self).type_analyzer@.signatures.contains_key(k),
            r == old(self).next_variable(),
            final(self).type_analyzer@.signatures.contains_key(r.0),
            final(self).holds(r, old(self).depth()),
            final(self).next_free_variable_id == old(self).next_free_variable_id + 1
                + signature@.num_inputs,
    {
        let mut inputs: Vec<Variable> = Vec::new();
        assert(inputs@ =~= Seq::<Variable>::empty());
        proof {
            lemma_attributes(OperationView::BeginFunctionDefinition(signature@));
            self.lemma_fresh_signature();
            lemma_functions_in(self.context_analyzer@);
        }
        let outputs = self.insert(Operation::BeginFunctionDefinition(BeginFunctionDefinition(signature)), inputs);
        outputs[0]
    }

    /// Closes the definition of a function. The innermost open construct must
    /// be a function.
    pub fn end_function_definition(&mut self)
        requires
            old(self).wf(),
            old(self).has_room(8),
            old(self).depth() > 1,
            old(self).innermost(Nest::Function),
        ensures
            final(self).wf(),
            final(self)@ == old(self)@.insert(
                OperationView::EndFunctionDefinition,
                Seq::<Variable>::empty(),
            ),
            final(self).rng == old(self).rng,
            final(self).num_instr == old(self).num_instr + 1,
            final(self).next_free_variable_id <= old(self).next_free_variable_id + 8,
            final(self).insts().len() == old(self).insts().len() + 1,
            final(self).budget == old(self).budget,
            final(self).jsruntime == old(self).jsruntime,
            final(self).depth() == old(self).depth() - 1,
            final(self).keeps(old(self), old(self).depth() - 1),
            final(self).context_analyzer@ == old(self).context_analyzer@.drop_last(),
            forall|k: u32|
                old(self).type_analyzer@.signatures.contains_key(k)
                    ==> #[trigger] final(self).type_analyzer@.signatures.contains_key(k),
    {
        let mut inputs: Vec<Variable> = Vec::new();
        assert(inputs@ =~= Seq::<Variable>::empty());
        proof {
            lemma_attributes(OperationView::EndFunctionDefinition);
            self.lemma_fresh_signature();
            lemma_functions_in(self.context_analyzer@);
        }
        self.insert(Operation::EndFunctionDefinition, inputs);
    }

    /// Appends the return of `inp`. A function must be open.
    pub fn insert_return(&mut self, inp: Variable)
        requires
            old(self).wf(),
            old(self).has_room(8),
            old(self).sees(inp),
            old(self).context_analyzer@.contains(Nest::Function),
        ensures
            final(self).wf(),
            final(self)@ == old(self)@.insert(OperationView::Return, seq![inp]),
            final(self).rng == old(self).rng,
            final(self).num_instr == old(self).num_instr + 1,
            final(self).next_free_variable_id <= old(self).next_free_variable_id + 8,
            final(self).insts().len() == old(self).insts().len() + 1,
            final(self).budget == old(self).budget,
            final(self).jsruntime == old(self).jsruntime,
            final(self).depth() == old(self).depth(),
            final(self).keeps(old(self), old(self).depth()),
            final(self).context_analyzer@ == old(self).context_analyzer@,
            forall|k: u32|
                old(self).type_analyzer@.signatures.contains_key(k)
                    ==> #[trigger] final(self).type_analyzer@.signatures.contains_key(k),
    {
        let mut inputs: Vec<Variable> = Vec::new();
        inputs.push(inp);
        assert(inputs@ =~= seq![inp]);
        proof {
            lemma_attributes(OperationView::Return);
            self.lemma_sees_typed(inp);
            self.lemma_fresh_signature();
            lemma_functions_in(self.context_analyzer@);
        }
        self.insert(Operation::Return, inputs);
    }

    /// Appends the read of the element of `array` at `idx`.
    pub fn load_element(&mut self, array: Variable, idx: Variable) -> (r: Variable)
        requires
            old(self).wf(),
            old(self).has_room(8),
            old(self).sees(array),
            old(self).sees(idx),
        ensures
            final(self).wf(),
            final(self)@ == old(self)@.insert(OperationView::LoadElement, seq![array, idx]),
            final(self).rng == old(self).rng,
            final(self).num_instr == old(self).num_instr + 1,
            final(self).insts().len() == old(self).insts().len() + 1,
            final(self).budget == old(self).budget,
            final(self).jsruntime == old(self).jsruntime,
            final(self).depth() == old(self).depth(),
            final(self).keeps(old(self), old(self).depth()),
            final(self).context_analyzer@ == old(self).context_analyzer@,
            forall|k: u32|
                old(self).type_analyzer@.signatures.contains_key(k)
                    ==> #[trigger] final(self).type_analyzer@.signatures.contains_key(k),
            r == old(self).next_variable(),
            final(self).holds(r, old(self).depth()),
            final(self).next_free_variable_id <= old(self).next_free_variable_id + 8,
    {
        let mut inputs: Vec<Variable> = Vec::new();
        inputs.push(array);
        inputs.push(idx);
        assert(inputs@ =~= seq![array, idx]);
        proof {
            lemma_attributes(OperationView::LoadElement);
            self.lemma_sees_typed(array);
            self.lemma_sees_typed(idx);
            self.lemma_fresh_signature();
            lemma_functions_in(self.context_analyzer@);
        }
        let outputs = self.insert(Operation::LoadElement, inputs);
        outputs[0]
    }

    /// Appends the write of `value` to the element of `array` at `idx`.
    pub fn store_element(&mut self, array: Variable, idx: Variable, value: Variable)
        requires
            old(self).wf(),
            old(self).has_room(8),
            old(self).sees(array),
            old(self).sees(idx),
            old(self).sees(value),
        ensures
            final(self).wf(),
            final(self)@ == old(self)@.insert(OperationView::StoreElement, seq![array, idx, value]),
            final(self).rng == old(self).rng,
            final(self).num_instr == old(self).num_instr + 1,
            final(self).next_free_variable_id <= old(self).next_free_variable_id + 8,
            final(self).insts().len() == old(self).insts().len() + 1,
            final(self).budget == old(self).budget,
            final(self).jsruntime == old(self).jsruntime,
            final(self).depth() == old(self).depth(),
            final(self).keeps(old(self), old(self).depth()),
            final(self).context_analyzer@ == old(self).context_analyzer@,
            forall|k: u32|
                old(self).type_analyzer@.signatures.contains_key(k)
                    ==> #[trigger] final(self).type_analyzer@.signatures.contains_key(k),
    {
        let mut inputs: Vec<Variable> = Vec::new();
        inputs.push(array);
        inputs.push(idx);
        inputs.push(value);
        assert(inputs@ =~= seq![array, idx, value]);
        proof {
            lemma_attributes(OperationView::StoreElement);
            self.lemma_sees_typed(array);
            self.lemma_sees_typed(idx);
            self.lemma_sees_typed(value);
            self.lemma_fresh_signature();
            lemma_functions_in(self.context_analyzer@);
        }
        self.insert(Operation::StoreElement, inputs);
    }

    /// Appends the read of the property `prop` of `object`.
    pub fn load_property(&mut self, prop: String, object: Variable) -> (r: Variable)
        requires
            old(self).wf(),
            old(self).has_room(8),
            old(self).sees(object),
        ensures
            final(self).wf(),
            final(self)@ == old(self)@.insert(OperationView::LoadProperty(prop@), seq![object]),
            final(self).rng == old(self).rng,
            final(self).num_instr == old(self).num_instr + 1,
            final(self).insts().len() == old(self).insts().len() + 1,
            final(self).budget == old(self).budget,
            final(self).jsruntime == old(self).jsruntime,
            final(self).depth() == old(self).depth(),
            final(self).keeps(old(self), old(self).depth()),
            final(self).context_analyzer@ == old(self).context_analyzer@,
            forall|k: u32|
                old(self).type_analyzer@.signatures.contains_key(k)
                    ==> #[trigger] final(self).type_analyzer@.signatures.contains_key(k),
            r == old(self).next_variable(),
            final(self).holds(r, old(self).depth()),
            final(self).next_free_variable_id <= old(self).next_free_variable_id + 8,
    {
        let mut inputs: Vec<Variable> = Vec::new();
        inputs.push(object);
        assert(inputs@ =~= seq![object]);
        proof {
            lemma_attributes(OperationView::LoadProperty(prop@));
            self.lemma_sees_typed(object);
            self.lemma_fresh_signature();
            lemma_functions_in(self.context_analyzer@);
        }
        let outputs = self.insert(Operation::LoadProperty(prop), inputs);
        outputs[0]
    }

    /// Appends the write of `value` to the property `prop` of `object`.
    pub fn store_property(&mut self, prop: String, object: Variable, value: Variable)
        requires
            old(self).wf(),
            old(self).has_room(8),
            old(self).sees(object),
            old(self).sees(value),
        ensures
            final(self).wf(),
            final(self)@ == old(self)@.insert(
                OperationView::StoreProperty(prop@),
                seq![object, value],
            ),
            final(self).rng == old(self).rng,
            final(self).num_instr == old(self).num_instr + 1,
            final(self).next_free_variable_id <= old(self).next_free_variable_id + 8,
            final(self).insts().len() == old(self).insts().len() + 1,
            final(self).budget == old(self).budget,
            final(self).jsruntime == old(self).jsruntime,
            final(self).depth() == old(self).depth(),
            final(self).keeps(old(self), old(self).depth()),
            final(self).context_analyzer@ == old(self).context_analyzer@,
            forall|k: u32|
                old(self).type_analyzer@.signatures.contains_key(k)
                    ==> #[trigger] final(self).type_analyzer@.signatures.contains_key(k),
    {
        let mut inputs: Vec<Variable> = Vec::new();
        inputs.push(object);
        inputs.push(value);
        assert(inputs@ =~= seq![object, value]);
        proof {
            lemma_attributes(OperationView::StoreProperty(prop@));
            self.lemma_sees_typed(object);
            self.lemma_sees_typed(value);
            self.lemma_fresh_signature();
            lemma_functions_in(self.context_analyzer@);
        }
        self.insert(Operation::StoreProperty(prop), inputs);
    }

    /// Appends the deletion of a property of `object`; `prop` holds its name,
    /// or its index where `is_indexed_prop` is set.
    pub fn delete_property(&mut self, object: Variable, prop: Variable, is_indexed_prop: bool)
        requires
            old(self).wf(),
            old(self).has_room(8),
            old(self).sees(object),
            old(self).sees(prop),
        ensures
            final(self).wf(),
            final(self)@ == old(self)@.insert(
                OperationView::Delete(is_indexed_prop),
                seq![object, prop],
            ),
            final(self).rng == old(self).rng,
            final(self).num_instr == old(self).num_instr + 1,
            final(self).next_free_variable_id <= old(self).next_free_variable_id + 8,
            final(self).insts().len() == old(self).insts().len() + 1,
            final(self).budget == old(self).budget,
            final(self).jsruntime == old(self).jsruntime,
            final(self).depth() == old(self).depth(),
            final(self).keeps(old(self), old(self).depth()),
            final(self).context_analyzer@ == old(self).context_analyzer@,
            forall|k: u32|
                old(self).type_analyzer@.signatures.contains_key(k)
                    ==> #[trigger] final(self).type_analyzer@.signatures.contains_key(k),
    {
        let mut inputs: Vec<Variable> = Vec::new();
        inputs.push(object);
        inputs.push(prop);
        assert(inputs@ =~= seq![object, prop]);
        proof {
            lemma_attributes(OperationView::Delete(is_indexed_prop));
            self.lemma_sees_typed(object);
            self.lemma_sees_typed(prop);
            self.lemma_fresh_signature();
            lemma_functions_in(self.context_analyzer@);
        }
        self.insert(Operation::Delete(is_indexed_prop), inputs);
    }

    /// Appends a call of `func` with the arguments `args`.
    pub fn function_call(&mut self, func: Variable, args: Vec<Variable>) -> (r: Variable)
        requires
            old(self).wf(),
            old(self).has_room(8),
            old(self).sees(func),
            old(self).sees_all(args@),
            args@.len() < 255,
            old(self).type_analyzer@.signatures.contains_key(func.0),
        ensures
            final(self).wf(),
            final(self)@ == old(self)@.insert(
                OperationView::FunctionCall(args@.len() as u8),
                seq![func] + args@,
            ),
            final(self).rng == old(self).rng,
            final(self).num_instr == old(self).num_instr + 1,
            final(self).insts().len() == old(self).insts().len() + 1,
            final(self).budget == old(self).budget,
            final(self).jsruntime == old(self).jsruntime,
            final(self).depth() == old(self).depth(),
            final(self).keeps(old(self), old(self).depth()),
            final(self).context_analyzer@ == old(self).context_analyzer@,
            forall|k: u32|
                old(self).type_analyzer@.signatures.contains_key(k)
                    ==> #[trigger] final(self).type_analyzer@.signatures.contains_key(k),
            r == old(self).next_variable(),
            final(self).holds(r, old(self).depth()),
            final(self).next_free_variable_id <= old(self).next_free_variable_id + 8,
    {
        let len = args.len() as u8;
        let mut inputs: Vec<Variable> = Vec::new();
        inputs.push(func);
        let mut i: usize = 0;
        while i < args.len()
            invariant
                i <= args@.len(),
                inputs@ == seq![func] + args@.subrange(0, i as int),
            decreases args@.len() - i,
        {
            inputs.push(args[i]);
            assert(inputs@ =~= seq![func] + args@.subrange(0, i + 1));
            i = i + 1;
        }
        assert(args@.subrange(0, i as int) =~= args@);
        proof {
            lemma_attributes(OperationView::FunctionCall(len));
            self.lemma_sees_typed(func);
            assert forall|k: int| 0 <= k < inputs@.len() implies self.visible().contains(
                #[trigger] inputs@[k],
            ) by {
                if k > 0 {
                    assert(self.sees(args@[k - 1]));
                }
                self.lemma_sees(inputs@[k]);
            }
        }
        let outputs = self.insert(Operation::FunctionCall(FunctionCall(len)), inputs);
        outputs[0]
    }

    /// Appends the creation of an array of the given elements.
    pub fn create_array(&mut self, inputs: Vec<Variable>) -> (r: Variable)
        requires
            old(self).wf(),
            old(self).has_room(8),
            old(self).sees_all(inputs@),
            inputs@.len() <= 255,
        ensures
            final(self).wf(),
            final(self)@ == old(self)@.insert(
                OperationView::CreateArray(inputs@.len() as u8),
                inputs@,
            ),
            final(self).rng == old(self).rng,
            final(self).num_instr == old(self).num_instr + 1,
            final(self).insts().len() == old(self).insts().len() + 1,
            final(self).budget == old(self).budget,
            final(self).jsruntime == old(self).jsruntime,
            final(self).depth() == old(self).depth(),
            final(self).keeps(old(self), old(self).depth()),
            final(self).context_analyzer@ == old(self).context_analyzer@,
            forall|k: u32|
                old(self).type_analyzer@.signatures.contains_key(k)
                    ==> #[trigger] final(self).type_analyzer@.signatures.contains_key(k),
            r == old(self).next_variable(),
            final(self).holds(r, old(self).depth()),
            final(self).next_free_variable_id <= old(self).next_free_variable_id + 8,
    {
        let len = inputs.len() as u8;
        proof {
            lemma_attributes(OperationView::CreateArray(len));
            self.lemma_sees_all(inputs@);
            self.lemma_fresh_signature();
            lemma_functions_in(self.context_analyzer@);
        }
        let outputs = self.insert(Operation::CreateArray(CreateArray(len)), inputs);
        outputs[0]
    }

    /// Appends a call of the method `ms`; the first of `args` is the
    /// receiver. Where an argument may still be unknown, the method must
    /// have a parameter list to take its type from.
    pub fn method_call(&mut self, args: Vec<Variable>, ms: MethodSignature) -> (r: Variable)
        requires
            old(self).wf(),
            old(self).has_room(8),
            old(self).sees_all(args@),
            1 <= args@.len() <= 255,
            forall|i: int|
                1 <= i < args@.len() && old(self).type_analyzer@.types[#[trigger] args@[i].0].is_unknown()
                    ==> ms@.input_types.len() > 0,
        ensures
            final(self).wf(),
            final(self)@ == old(self)@.insert(
                OperationView::MethodCall(ms@, (args@.len() - 1) as u8),
                args@,
            ),
            final(self).rng == old(self).rng,
            final(self).num_instr == old(self).num_instr + 1,
            final(self).insts().len() == old(self).insts().len() + 1,
            final(self).budget == old(self).budget,
            final(self).jsruntime == old(self).jsruntime,
            final(self).depth() == old(self).depth(),
            final(self).keeps(old(self), old(self).depth()),
            final(self).context_analyzer@ == old(self).context_analyzer@,
            forall|k: u32|
                old(self).type_analyzer@.signatures.contains_key(k)
                    ==> #[trigger] final(self).type_analyzer@.signatures.contains_key(k),
            r == old(self).next_variable(),
            final(self).holds(r, old(self).depth()),
            final(self).next_free_variable_id <= old(self).next_free_variable_id + 8,
    {
        let len = (args.len() - 1) as u8;
        proof {
            lemma_attributes(OperationView::MethodCall(ms@, len));
            self.lemma_sees_all(args@);
            self.lemma_fresh_signature();
            lemma_functions_in(self.context_analyzer@);
            let rest = args@.subrange(1, args@.len() as int);
            assert forall|i: int| 0 <= i < rest.len() implies self.type_analyzer@.types.contains_key(
                #[trigger] rest[i].0,
            ) by {
                assert(self.visible().contains(args@[i + 1]));
                let k = choose|k: int| 0 <= k < self.visible().len() && self.visible()[k] == rest[i];
                assert(self.type_analyzer@.types.contains_key(self.visible()[k].0));
            }
        }
        let outputs = self.insert(Operation::MethodCall(MethodCall(ms, len)), args);
        outputs[0]
    }

    /// Appends the creation of an object whose properties `prop` have the
    /// values `values`.
    pub fn create_object(&mut self, prop: Vec<String>, values: Vec<Variable>) -> (r: Variable)
        requires
            old(self).wf(),
            old(self).has_room(8),
            old(self).sees_all(values@),
            prop@.len() == values@.len(),
            values@.len() <= 255,
        ensures
            final(self).wf(),
            final(self)@ == old(self)@.insert(OperationView::CreateObject(texts(prop@)), values@),
            final(self).rng == old(self).rng,
            final(self).num_instr == old(self).num_instr + 1,
            final(self).insts().len() == old(self).insts().len() + 1,
            final(self).budget == old(self).budget,
            final(self).jsruntime == old(self).jsruntime,
            final(self).depth() == old(self).depth(),
            final(self).keeps(old(self), old(self).depth()),
            final(self).context_analyzer@ == old(self).context_analyzer@,
            forall|k: u32|
                old(self).type_analyzer@.signatures.contains_key(k)
                    ==> #[trigger] final(self).type_analyzer@.signatures.contains_key(k),
            r == old(self).next_variable(),
            final(self).holds(r, old(self).depth()),
            final(self).next_free_variable_id <= old(self).next_free_variable_id + 8,
    {
        proof {
            lemma_attributes(OperationView::CreateObject(texts(prop@)));
            self.lemma_sees_all(values@);
            self.lemma_fresh_signature();
            lemma_functions_in(self.context_analyzer@);
        }
        let outputs = self.insert(Operation::CreateObject(CreateObject(prop)), values);
        outputs[0]
    }

    /// Every one of the variables is visible, and so has a type.
    pub proof fn lemma_sees_all(&self, vars: Seq<Variable>)
        requires
            self.wf(),
            self.sees_all(vars),
        ensures
            forall|k: int| 0 <= k < vars.len() ==> self.visible().contains(#[trigger] vars[k]),
            self.type_analyzer@.typed(vars),
    {
        reveal(structure_ok);
        assert forall|k: int| 0 <= k < vars.len() implies self.visible().contains(
            #[trigger] vars[k],
        ) && self.type_analyzer@.types.contains_key(vars[k].0) by {
            assert(self.sees(vars[k]));
            self.lemma_sees(vars[k]);
            let j = choose|j: int| 0 <= j < self.visible().len() && self.visible()[j] == vars[k];
            assert(self.type_analyzer@.types.contains_key(self.visible()[j].0));
        }
    }

    /// A visible variable has a type.
    pub proof fn lemma_sees_typed(&self, v: Variable)
        requires
            self.wf(),
            self.sees(v),
        ensures
            self.type_analyzer@.types.contains_key(v.0),
            self.visible().contains(v),
    {
        reveal(structure_ok);
        self.lemma_sees(v);
        let j = choose|j: int| 0 <= j < self.visible().len() && self.visible()[j] == v;
        assert(self.type_analyzer@.types.contains_key(self.visible()[j].0));
    }

    /// An integer for a literal.
    pub fn getint(&mut self) -> (r: i64)
        ensures
            (r, final(self)@) == old(self)@.getint(),
            old(self).wf() ==> final(self).wf(),
            *final(self) == (Program {
                rng: final(self).rng,
                prob: final(self).prob,
                seen_ints: final(self).seen_ints,
                ..*old(self)
            }),
    {
        if self.prob.probablity(3) {
            let table = interesting_ints();
            let idx = (self.rng.rand() % 61) as usize;
            table[idx]
        } else if self.prob.probablity(5) && self.seen_ints.len() >= 4 {
            let idx = (self.rng.rand() % (self.seen_ints.len() as u64)) as usize;
            self.seen_ints[idx]
        } else {
            let tmp = if self.prob.probablity(8) {
                self.rng.rand_in_range(0, 0x10000)
            } else {
                self.rng.rand_in_range(-0x1000, 0x1000)
            };
            let val = tmp as i64;
            self.seen_ints.push(val);
            val
        }
    }

    /// A floating-point number for a literal.
    pub fn getfloat(&mut self) -> (r: FloatLiteral)
        requires
            old(self).wf(),
        ensures
            (r, final(self)@) == old(self)@.getfloat(),
            r.wf(),
            final(self).wf(),
            *final(self) == (Program {
                rng: final(self).rng,
                prob: final(self).prob,
                seen_floats: final(self).seen_floats,
                ..*old(self)
            }),
    {
        if self.prob.probablity(5) && self.seen_floats.len() >= 4 {
            let idx = (self.rng.rand() % (self.seen_floats.len() as u64)) as usize;
            self.seen_floats[idx]
        } else {
            let tmp = self.rng.float_in_range(-0x1000, 0x1000);
            self.seen_floats.push(tmp);
            tmp
        }
    }

    /// A string for a literal.
    pub fn getstring(&mut self) -> (r: String)
        ensures
            (r@, final(self)@) == old(self)@.getstring(),
            old(self).wf() ==> final(self).wf(),
            *final(self) == (Program {
                rng: final(self).rng,
                prob: final(self).prob,
                seen_strings: final(self).seen_strings,
                ..*old(self)
            }),
    {
        if self.prob.probablity(5) && self.seen_strings.len() > 0 {
            let idx = (self.rng.rand() % (self.seen_strings.len() as u64)) as usize;
            assert(texts(self.seen_strings@)[idx as int] == self.seen_strings@[idx as int]@);
            self.seen_strings[idx].clone()
        } else {
            let len = self.rng.rand_in_range(0, 100) as u64;
            let tmp = self.rng.random_string(len);
            let r = tmp.clone();
            self.seen_strings.push(tmp);
            assert(texts(self.seen_strings@) =~= texts(old(self).seen_strings@).push(r@));
            r
        }
    }

    fn filter_by_type(&self, vars: &Vec<Variable>, want: Type) -> (r: Vec<Variable>)
        requires
            self.type_analyzer@.typed(vars@),
        ensures
            r@ == vars@.filter(suits(self.type_analyzer@.types, want)),
    {
        let ghost test = suits(self.type_analyzer@.types, want);
        let mut r: Vec<Variable> = Vec::new();
        let mut i: usize = 0;
        proof {
            reveal(Seq::filter);
            assert(vars@.subrange(0, 0) =~= Seq::<Variable>::empty());
        }
        while i < vars.len()
            invariant
                i <= vars@.len(),
                self.type_analyzer@.typed(vars@),
                test == suits(self.type_analyzer@.types, want),
                r@ == vars@.subrange(0, i as int).filter(test),
            decreases vars@.len() - i,
        {
            let v = vars[i];
            proof {
                assert(vars@.subrange(0, i + 1) =~= vars@.subrange(0, i as int).push(v));
                vars@.subrange(0, i as int).lemma_filter_push(v, test);
                assert(self.type_analyzer@.types.contains_key(vars@[i as int].0));
            }
            if self.get_type(&v).contains(want) {
                r.push(v);
            }
            i = i + 1;
        }
        assert(vars@.subrange(0, i as int) =~= vars@);
        r
    }

    /// A random variable of the type `rtype`, chosen in the free mode: one
    /// of the type or one that may be unknown where there is one, any
    /// visible variable otherwise. A variable must be visible.
    pub fn random_variable(&mut self, rtype: Type) -> (r: Variable)
        requires
            old(self).wf(),
            old(self).visible().len() > 0,
        ensures
            (r, final(self)@) == old(self)@.pick_free(rtype),
            *final(self) == (Program {
                rng: final(self).rng,
                prob: final(self).prob,
                ..*old(self)
            }),
            final(self).wf(),
            final(self).sees(r),
    {
        match self.random_variable_of_type(rtype, Mode::Free) {
            Some(v) => v,
            None => vstd::pervasive::unreached(),
        }
    }

    /// A random variable of the type `rtype`. In the strict mode there is
    /// none where no visible variable has the type. In the free mode a
    /// variable must be visible.
    pub fn random_variable_of_type(&mut self, rtype: Type, mode: Mode) -> (r: Option<Variable>)
        requires
            old(self).wf(),
            mode == Mode::Free ==> old(self).visible().len() > 0,
        ensures
            (r, final(self)@) == old(self)@.pick(rtype, mode),
            *final(self) == (Program {
                rng: final(self).rng,
                prob: final(self).prob,
                ..*old(self)
            }),
            final(self).wf(),
            mode == Mode::Free ==> r is Some,
            r matches Some(v) ==> final(self).sees(v),
            r matches Some(v) ==> mode == Mode::Strict ==> final(self).type_analyzer@.types[v.0].contains(
                rtype,
            ),
            r is None ==> forall|i: int|
                0 <= i < old(self).visible().len()
                    ==> !old(self).type_analyzer@.types[#[trigger] old(self).visible()[i].0].contains(
                    rtype,
                ),
    {
        proof {
            reveal(structure_ok);
        }
        let ghost scopes = self.scope_analyzer@;
        let ghost types = self.type_analyzer@.types;
        let ghost test = suits(types, wanted(rtype, mode));
        let list = self.scope_analyzer.get_all_scopes();
        let scope = self.prob.choose_biased(list.as_slice(), 6, 5);
        let ghost k = biased_pick(old(self).prob.0.0, 6, 5, scopes.len(), scopes.len()).0;
        proof {
            lemma_biased_pick_range(old(self).prob.0.0, 6, 5, scopes.len(), scopes.len());
        }
        assert(scope@ == scopes[k]);
        let mut want = rtype;
        if mode == Mode::Free {
            want.ptype = want.ptype.union(PType::unknown());
        }
        assert(want == wanted(rtype, mode));
        let visible = self.scope_analyzer.get_visible_variables();
        proof {
            assert forall|i: int| 0 <= i < scope@.len() implies types.contains_key(
                #[trigger] scope@[i].0,
            ) by {
                assert(scopes[k][i] == scope@[i]);
                assert(in_scopes(scopes, scope@[i]));
                lemma_in_scopes(scopes, scope@[i]);
                let j = choose|j: int| 0 <= j < visible@.len() && visible@[j] == scope@[i];
                assert(types.contains_key(visible@[j].0));
            }
        }
        let mut candidates = self.filter_by_type(scope, want);
        if candidates.len() == 0 {
            candidates = self.filter_by_type(&visible, want);
        }
        if candidates.len() == 0 {
            if mode == Mode::Strict {
                proof {
                    assert forall|i: int| 0 <= i < visible@.len() implies !types[#[trigger] visible@[i].0].contains(
                    rtype) by {
                        if types[visible@[i].0].contains(rtype) {
                            assert(test(visible@[i]));
                            visible@.lemma_filter_contains(test, i);
                            assert(visible@.filter(test).contains(visible@[i]));
                        }
                    }
                }
                return None;
            }
            candidates = visible;
        }
        let ghost from = pool(scopes[k], old(self).visible(), types, rtype, mode);
        assert(candidates@ == from);
        let idx = (self.rng.rand() % (candidates.len() as u64)) as usize;
        let v = candidates[idx];
        proof {
            if scopes[k].filter(test).len() > 0 {
                assert(scopes[k].filter(test)[idx as int] == v);
                assert(scopes[k].filter(test).contains(v));
                scopes[k].lemma_filter_contains_rev(test, v);
                scopes[k].lemma_filter_pred(test, idx as int);
                let j = choose|j: int| 0 <= j < scopes[k].len() && scopes[k][j] == v;
                assert(in_scopes(scopes, v));
                lemma_in_scopes(scopes, v);
            } else if visible@.filter(test).len() > 0 {
                assert(visible@.filter(test)[idx as int] == v);
                assert(visible@.filter(test).contains(v));
                visible@.lemma_filter_contains_rev(test, v);
                visible@.lemma_filter_pred(test, idx as int);
            } else {
                assert(visible@[idx as int] == v);
            }
            self.lemma_sees(v);
            self.lemma_sees_typed(v);
        }
        Some(v)
    }

    /// A random method for a variable of the shape `shape`, if the runtime
    /// has one.
    pub fn random_method_for_shape(&mut self, shape: Shape) -> (r: Option<MethodSignature>)
        ensures
            *final(self) == (Program { rng: final(self).rng, ..*old(self) }),
            (
                match r {
                    Some(m) => Some(m@),
                    None => None,
                },
                final(self)@,
            ) == old(self)@.method_for_shape(shape),
    {
        match self.jsruntime.get_methods(shape) {
            None => None,
            Some(list) => {
                if list.len() == 0 {
                    return None;
                }
                let idx = (self.rng.rand() % (list.len() as u64)) as usize;
                Some(list[idx].clone())
            },
        }
    }

    /// Arguments for a call of `function`: a random variable for each
    /// parameter, of the parameter's type where there is one.
    pub fn generate_function_args(&mut self, function: Variable) -> (r: Vec<Variable>)
        requires
            old(self).wf(),
            old(self).visible().len() > 0,
            old(self).type_analyzer@.signatures.contains_key(function.0),
        ensures
            (r@, final(self)@) == old(self)@.function_args(function),
            final(self).wf(),
            *final(self) == (Program {
                rng: final(self).rng,
                prob: final(self).prob,
                ..*old(self)
            }),
            r@.len() == old(self).type_analyzer@.signatures[function.0].input_types.len(),
            final(self).sees_all(r@),
    {
        let input_types = self.get_signature_for(&function).get_input_types().clone();
        assert(input_types@ =~= old(self).type_analyzer@.signatures[function.0].input_types);
        let mut inputs: Vec<Variable> = Vec::new();
        let mut i: usize = 0;
        while i < input_types.len()
            invariant
                i <= input_types@.len(),
                self.wf(),
                self.visible().len() > 0,
                *self == (Program { rng: self.rng, prob: self.prob, ..*old(self) }),
                inputs@.len() == i,
                self.sees_all(inputs@),
                (inputs@, self.prob.0.0, self.rng.0) == spec_function_args(
                    old(self).scope_analyzer@,
                    old(self).type_analyzer@.types,
                    old(self).prob.0.0,
                    old(self).rng.0,
                    input_types@,
                    i as int,
                ),
            decreases input_types@.len() - i,
        {
            let v = self.random_variable(input_types[i]);
            inputs.push(v);
            i = i + 1;
        }
        inputs
    }

    /// `count` random variables of the type `t`, chosen in the free mode,
    /// are appended to `inputs`.
    pub fn push_choices(&mut self, inputs: &mut Vec<Variable>, t: Type, count: usize)
        requires
            old(self).wf(),
            old(self).visible().len() > 0,
            old(self).sees_all(old(inputs)@),
        ensures
            (final(inputs)@, final(self).prob.0.0, final(self).rng.0) == ({
                let (vars, p, r) = spec_choices(
                    old(self).scope_analyzer@,
                    old(self).type_analyzer@.types,
                    old(self).prob.0.0,
                    old(self).rng.0,
                    t,
                    count as int,
                );
                (old(inputs)@ + vars, p, r)
            }),
            final(self).wf(),
            *final(self) == (Program {
                rng: final(self).rng,
                prob: final(self).prob,
                ..*old(self)
            }),
            final(self).sees_all(final(inputs)@),
            final(inputs)@.len() == old(inputs)@.len() + count,
    {
        let mut j: usize = 0;
        assert(inputs@ =~= old(inputs)@ + Seq::<Variable>::empty());
        while j < count
            invariant
                j <= count,
                self.wf(),
                self.visible().len() > 0,
                *self == (Program { rng: self.rng, prob: self.prob, ..*old(self) }),
                self.sees_all(inputs@),
                inputs@.len() == old(inputs)@.len() + j,
                (inputs@, self.prob.0.0, self.rng.0) == ({
                    let (vars, p, r) = spec_choices(
                        old(self).scope_analyzer@,
                        old(self).type_analyzer@.types,
                        old(self).prob.0.0,
                        old(self).rng.0,
                        t,
                        j as int,
                    );
                    (old(inputs)@ + vars, p, r)
                }),
            decreases count - j,
        {
            let ghost before = spec_choices(
                old(self).scope_analyzer@,
                old(self).type_analyzer@.types,
                old(self).prob.0.0,
                old(self).rng.0,
                t,
                j as int,
            );
            let v = self.random_variable(t);
            inputs.push(v);
            assert(inputs@ =~= old(inputs)@ + before.0.push(v));
            j = j + 1;
        }
    }

    /// Arguments for a call of `method`, after the receiver `this` if there
    /// is one: a variable for a required parameter; one or none, with equal
    /// probability, for an optional one; fewer than the given number for a
    /// repeated one.
    pub fn generate_method_args(&mut self, method: &MethodSignature, this: Option<Variable>) -> (r:
        Vec<Variable>)
        requires
            old(self).wf(),
            old(self).visible().len() > 0,
            this matches Some(t) ==> old(self).sees(t),
        ensures
            (r@, final(self)@) == old(self)@.method_args(method@.input_types, this),
            final(self).wf(),
            *final(self) == (Program {
                rng: final(self).rng,
                prob: final(self).prob,
                ..*old(self)
            }),
            final(self).sees_all(r@),
            this matches Some(t) ==> r@.len() >= 1 && r@[0] == t,
            r@.len() > (if this is Some {
                1int
            } else {
                0int
            }) ==> method@.input_types.len() > 0,
    {
        let mut inputs: Vec<Variable> = Vec::new();
        if let Some(this) = this {
            inputs.push(this);
        }
        let ghost first: Seq<Variable> = match this {
            Some(t) => seq![t],
            None => Seq::empty(),
        };
        assert(inputs@ =~= first + Seq::<Variable>::empty());
        let len = method.min_args_count();
        let mut i: usize = 0;
        while i < len
            invariant
                i <= len,
                len == method@.input_types.len(),
                self.wf(),
                self.visible().len() > 0,
                *self == (Program { rng: self.rng, prob: self.prob, ..*old(self) }),
                self.sees_all(inputs@),
                first == (match this {
                    Some(t) => seq![t],
                    None => Seq::<Variable>::empty(),
                }),
                inputs@.len() >= first.len(),
                this matches Some(t) ==> inputs@[0] == t,
                inputs@.len() > first.len() ==> len > 0,
                (inputs@, self.prob.0.0, self.rng.0) == ({
                    let (args, p, r) = spec_method_args(
                        old(self).scope_analyzer@,
                        old(self).type_analyzer@.types,
                        old(self).prob.0.0,
                        old(self).rng.0,
                        method@.input_types,
                        i as int,
                    );
                    (first + args, p, r)
                }),
            decreases len - i,
        {
            let ghost done = spec_method_args(
                old(self).scope_analyzer@,
                old(self).type_analyzer@.types,
                old(self).prob.0.0,
                old(self).rng.0,
                method@.input_types,
                i as int,
            );
            let ghost entry = spec_entry_args(
                old(self).scope_analyzer@,
                old(self).type_analyzer@.types,
                done.1,
                done.2,
                method@.input_types[i as int],
            );
            match *method.input_type_at(i) {
                MethodArg::Type(itype) => {
                    self.push_choices(&mut inputs, itype, 1);
                },
                MethodArg::Optional(itype) => {
                    if self.prob.probablity(5) {
                        self.push_choices(&mut inputs, itype, 1);
                    } else {
                        assert(inputs@ =~= inputs@ + Seq::<Variable>::empty());
                    }
                },
                MethodArg::Repeat(times, itype) => {
                    let cnt = self.rng.rand_idx(times as usize);
                    self.push_choices(&mut inputs, itype, cnt);
                },
            }
            assert(inputs@ =~= first + (done.0 + entry.0));
            i = i + 1;
        }
        inputs
    }

    /// Appends the load of a builtin: the call of its constructor with the
    /// arguments `args`, or the naming of it where there are none. The
    /// constructor of a typed array is loaded under the name of one of the
    /// typed arrays, chosen at random.
    pub fn load_builtin(&mut self, ctype: &ConstructorType, args: Option<Vec<Variable>>) -> (r:
        Variable)
        requires
            old(self).wf(),
            old(self).has_room(8),
            args is None <==> ctype@ is NonCallable,
            args matches Some(a) ==> a@.len() <= 255 && old(self).sees_all(a@),
        ensures
            final(self).wf(),
            final(self)@ == old(self)@.load_builtin(
                ctype@,
                match args {
                    Some(a) => a@,
                    None => Seq::empty(),
                },
            ),
            final(self).rng.0 == if is_typed_array_constructor(ctype@) {
                xorshift(old(self).rng.0)
            } else {
                old(self).rng.0
            },
            final(self).num_instr == old(self).num_instr + 1,
            final(self).insts().len() == old(self).insts().len() + 1,
            final(self).budget == old(self).budget,
            final(self).jsruntime == old(self).jsruntime,
            final(self).depth() == old(self).depth(),
            final(self).keeps(old(self), old(self).depth()),
            final(self).context_analyzer@ == old(self).context_analyzer@,
            forall|k: u32|
                old(self).type_analyzer@.signatures.contains_key(k)
                    ==> #[trigger] final(self).type_analyzer@.signatures.contains_key(k),
            r == old(self).next_variable(),
            final(self).holds(r, old(self).depth()),
            final(self).next_free_variable_id <= old(self).next_free_variable_id + 8,
    {
        let mut ctype = ctype.clone();
        let names = typed_array_names();
        match ctype {
            ConstructorType::Callable(ms) => {
                let mut ms = ms;
                if ms.output_type() == Type::typed_array_type() {
                    let idx = (self.rng.rand() % 10) as usize;
                    assert(names@.map_values(|s: &'static str| s@)[idx as int] == names@[idx as int]@);
                    ms.set_name(names[idx]);
                }
                ctype = ConstructorType::Callable(ms);
            },
            ConstructorType::NonCallable(name, this_type) => {
                let mut name = name;
                if this_type == Type::obj(Shape::statik().union(Shape::typed_array())) {
                    let idx = (self.rng.rand() % 10) as usize;
                    assert(names@.map_values(|s: &'static str| s@)[idx as int] == names@[idx as int]@);
                    name = names[idx].to_owned();
                }
                ctype = ConstructorType::NonCallable(name, this_type);
            },
        }
        let inputs = match args {
            None => Vec::new(),
            Some(a) => a,
        };
        let len = inputs.len() as u8;
        proof {
            lemma_attributes(OperationView::LoadBuiltin(ctype@, len));
            assert(self.sees_all(inputs@));
            self.lemma_sees_all(inputs@);
            self.lemma_fresh_signature();
            lemma_functions_in(self.context_analyzer@);
        }
        let outputs = self.insert(Operation::LoadBuiltin(LoadBuiltin(ctype, len)), inputs);
        outputs[0]
    }

    /// Lowers the number of generator runs that are left to what the
    /// counters of instructions and variables have room for.
    pub fn fit_budget(&mut self)
        ensures
            *final(self) == (Program { budget: final(self).budget, ..*old(self) }),
            final(self)@ == old(self)@.fit_budget(),
            final(self).budget <= old(self).budget,
            final(self).within_budget(),
            old(self).within_budget() ==> final(self).budget == old(self).budget,
    {
        let by_instructions = (u32::MAX - self.num_instr) / 64;
        let by_variables = (u32::MAX - self.next_free_variable_id) / 512;
        let allowed = if by_instructions < by_variables {
            by_instructions
        } else {
            by_variables
        };
        if self.budget > allowed {
            self.budget = allowed;
        }
    }

    /// Gives a program up to three literals to start with: for each,
    /// where a generator run is left, a generator of literals is chosen,
    /// the later ones in their list preferred, and run.
    fn start(&mut self)
        requires
            old(self).wf(),
            old(self).within_budget(),
        ensures
            final(self).generated(old(self)),
            final(self).within(old(self), 0),
            final(self).within_budget(),
            final(self).budget == 0 || final(self).visible().len() > 0,
            final(self)@ == super::codegenerators::spec_start(old(self)@, 3),
    {
        let basic = basic_generators();
        let mut i: u8 = 0;
        while i < 3
            invariant
                i <= 3,
                basic@ == spec_basic_generators(),
                self.generated(old(self)),
                self.within(old(self), 0),
                self.within_budget(),
                i > 0 ==> self.budget == 0 || self.visible().len() > 0,
                self@ == super::codegenerators::spec_start(old(self)@, i as int),
            decreases 3 - i,
        {
            if self.budget > 0 {
                let ghost before = *self;
                let generator = *self.prob.choose_biased(basic.as_slice(), 6, 5);
                proof {
                    lemma_biased_pick_range(before.prob.0.0, 6, 5, 5, 5);
                }
                self.budget = self.budget - 1;
                CodeGenerators::run_literal(generator, self);
            }
            i = i + 1;
        }
    }

    /// Grows the program by `count` instructions or blocks, each the work
    /// of a generator chosen at random by its weight; a generator that
    /// fails is replaced by another. An empty program is first given up to
    /// three literals. Generation ends early where the generator runs that
    /// the program allows are used up.
    pub fn generate_random_insts(&mut self, count: u8)
        requires
            old(self).wf(),
            old(self).within_budget(),
            count > 0,
        ensures
            final(self).generated(old(self)),
            final(self).within(old(self), 0),
            final(self)@ == super::codegenerators::spec_generate(old(self)@, count),
            final(self).budget > 0 ==> final(self).insts().len() >= old(self).insts().len() + count,
            final(self).budget > 0 || old(self).visible().len() > 0 ==> final(self).visible().len()
                > 0,
        decreases old(self).budget, 0int,
    {
        if self.scope_analyzer.get_visible_variables().len() == 0 {
            self.start();
        }
        let ghost started = *self;
        let table = generators();
        let mut cnt: u8 = 0;
        while cnt < count && self.budget > 0
            invariant
                cnt <= count,
                table@ == crate::fuzzer::settings::spec_generators(),
                self.generated(old(self)),
                self.within(old(self), 0),
                self.within_budget(),
                self.budget == 0 || self.visible().len() > 0,
                self.insts().len() >= old(self).insts().len() + cnt,
                super::codegenerators::spec_grow(self@, cnt as int, count as int)
                    == super::codegenerators::spec_grow(started@, 0, count as int),
            decreases self.budget,
        {
            let generator = *self.prob.choose_weighted_baised(table.as_slice());
            self.budget = self.budget - 1;
            let ghost before = *self;
            let done = CodeGenerators::run(generator, self);
            proof {
                self.lemma_generated_visible(&before);
            }
            if done.is_some() {
                cnt = cnt + 1;
            }
        }
        proof {
            if old(self).visible().len() > 0 {
                self.lemma_generated_visible(old(self));
            }
        }
    }
}

} // verus!
