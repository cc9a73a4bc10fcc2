//! The context analyzer, which follows the nesting of loops and functions,
//! and the scope analyzer, which follows the visibility of variables.

use vstd::prelude::*;
use super::super::instruction::{Instruction, InstructionView};
use super::super::operation::{lemma_attributes, OperationView};
use super::super::variable::Variable;

verus! {

pub const NONE_CONTEXT: u8 = 0;

pub const GLOBAL_CONTEXT: u8 = 1;

pub const LOOP_CONTEXT: u8 = 2;

pub const FUNCTION_CONTEXT: u8 = 4;

/// An open construct that the context analyzer follows.
#[derive(Clone, Copy, Debug, PartialEq, Eq, Structural)]
pub enum Nest {
    Loop,
    Function,
}

/// The open constructs that one element of the context stack stands for: a
/// function if its function bit is set, then a loop if its loop bit is set.
pub open spec fn nest_of(c: u8) -> Seq<Nest> {
    (if c == FUNCTION_CONTEXT || c == 6 {
        seq![Nest::Function]
    } else {
        Seq::<Nest>::empty()
    }) + (if c == LOOP_CONTEXT || c == 3 || c == 6 {
        seq![Nest::Loop]
    } else {
        Seq::<Nest>::empty()
    })
}

/// The open loops and functions that a context stack stands for, the
/// innermost last.
pub open spec fn nesting_of(context: Seq<u8>) -> Seq<Nest>
    decreases context.len(),
{
    if context.len() == 0 {
        Seq::<Nest>::empty()
    } else {
        nesting_of(context.drop_last()) + nest_of(context.last())
    }
}

/// The context stack after an operation. A loop start sets the loop bit of
/// the top, or pushes a loop element where the top is a loop already; a loop
/// end clears the loop bit and pops the top if nothing is left of it; a
/// function start pushes a function element and a function end pops it.
pub open spec fn context_step(context: Seq<u8>, op: OperationView) -> Seq<u8> {
    let top = context.last();
    if op.is_loop_start() {
        if top & LOOP_CONTEXT == LOOP_CONTEXT {
            context.push(LOOP_CONTEXT)
        } else {
            context.update(context.len() - 1, top | LOOP_CONTEXT)
        }
    } else if op.is_loop_end() {
        if top & !LOOP_CONTEXT == NONE_CONTEXT {
            context.drop_last()
        } else {
            context.update(context.len() - 1, top & !LOOP_CONTEXT)
        }
    } else if op.is_function_start() {
        context.push(FUNCTION_CONTEXT)
    } else if op.is_function_end() {
        context.drop_last()
    } else {
        context
    }
}

/// The open loops and functions after an operation: a start opens one, an
/// end closes the innermost.
pub open spec fn nesting_step(nesting: Seq<Nest>, op: OperationView) -> Seq<Nest> {
    if op.is_loop_start() {
        nesting.push(Nest::Loop)
    } else if op.is_function_start() {
        nesting.push(Nest::Function)
    } else if op.is_loop_end() || op.is_function_end() {
        nesting.drop_last()
    } else {
        nesting
    }
}

/// An operation fits the open loops and functions when it opens one, or
/// closes the innermost and is of its kind, or does neither.
pub open spec fn nesting_fits(nesting: Seq<Nest>, op: OperationView) -> bool {
    &&& op.is_loop_end() ==> nesting.len() > 0 && nesting.last() == Nest::Loop
    &&& op.is_function_end() ==> nesting.len() > 0 && nesting.last() == Nest::Function
}

/// A stack of contexts that tells whether the program is, at its end, inside
/// a loop or a function.
pub struct ContextAnalyzer {
    pub context: Vec<u8>,
}

impl View for ContextAnalyzer {
    type V = Seq<Nest>;

    /// The open loops and functions, the innermost last.
    open spec fn view(&self) -> Seq<Nest> {
        nesting_of(self.context@)
    }
}

/// The bottom of a context stack is global, alone or with a loop; each
/// element above is a loop, a function, or a function with a loop.
pub open spec fn context_wf(context: Seq<u8>) -> bool {
    &&& context.len() >= 1
    &&& (context[0] == GLOBAL_CONTEXT || context[0] == 3)
    &&& forall|i: int|
        1 <= i < context.len() ==> (#[trigger] context[i] == LOOP_CONTEXT || context[i]
            == FUNCTION_CONTEXT || context[i] == 6)
}

/// The bit operations of the analyzer on the five values that an element
/// of the stack can have.
proof fn lemma_context_bits(c: u8)
    requires
        c == 1 || c == 2 || c == 3 || c == 4 || c == 6,
    ensures
        (c & 2 == 2) <==> (c == 2 || c == 3 || c == 6),
        (c & 4 == 4) <==> (c == 4 || c == 6),
        (c & 1 == 1) <==> (c == 1 || c == 3),
        c == 1 ==> (c | 2) == 3,
        c == 4 ==> (c | 2) == 6,
        c == 2 ==> (c & !2u8) == 0,
        c == 3 ==> (c & !2u8) == 1,
        c == 6 ==> (c & !2u8) == 4,
{
    assert((c == 1 || c == 2 || c == 3 || c == 4 || c == 6) ==> {
        &&& ((c & 2 == 2) <==> (c == 2 || c == 3 || c == 6))
        &&& ((c & 4 == 4) <==> (c == 4 || c == 6))
        &&& ((c & 1 == 1) <==> (c == 1 || c == 3))
        &&& (c == 1 ==> (c | 2) == 3)
        &&& (c == 4 ==> (c | 2) == 6)
        &&& (c == 2 ==> (c & !2u8) == 0)
        &&& (c == 3 ==> (c & !2u8) == 1)
        &&& (c == 6 ==> (c & !2u8) == 4)
    }) by (bit_vector);
}

/// The context stack of a well-formed analyzer follows the nesting: a step
/// of the one is a step of the other, and it stays well formed.
pub proof fn lemma_context_step(context: Seq<u8>, op: OperationView)
    requires
        context_wf(context),
        nesting_fits(nesting_of(context), op),
    ensures
        context_wf(context_step(context, op)),
        nesting_of(context_step(context, op)) == nesting_step(nesting_of(context), op),
{
    lemma_attributes(op);
    let top = context.last();
    let rest = context.drop_last();
    let next = context_step(context, op);
    assert(top == context[context.len() - 1]);
    lemma_context_bits(top);
    assert(nesting_of(context) == nesting_of(rest) + nest_of(top));
    if op.is_loop_start() {
        if top & LOOP_CONTEXT == LOOP_CONTEXT {
            assert(next.drop_last() =~= context);
            assert(nest_of(LOOP_CONTEXT) =~= seq![Nest::Loop]);
            assert(nesting_of(next) =~= nesting_of(context).push(Nest::Loop));
        } else {
            assert(next.drop_last() =~= rest);
            assert(nest_of(top | LOOP_CONTEXT) =~= nest_of(top).push(Nest::Loop));
            assert(nesting_of(next) =~= nesting_of(context).push(Nest::Loop));
        }
    } else if op.is_loop_end() {
        assert(nest_of(top).len() > 0 && nest_of(top).last() == Nest::Loop) by {
            if nest_of(top).len() == 0 {
                assert(nesting_of(context) =~= nesting_of(rest));
                lemma_empty_nest_is_global(context);
            }
        }
        if top & !LOOP_CONTEXT == NONE_CONTEXT {
            assert(nest_of(top) =~= seq![Nest::Loop]);
            assert(context.len() > 1);
            assert(nesting_of(context).drop_last() =~= nesting_of(rest));
        } else {
            assert(next.drop_last() =~= rest);
            assert(nest_of(top & !LOOP_CONTEXT) =~= nest_of(top).drop_last());
            assert(nesting_of(next) =~= nesting_of(context).drop_last());
        }
    } else if op.is_function_start() {
        assert(next.drop_last() =~= context);
        assert(nest_of(FUNCTION_CONTEXT) =~= seq![Nest::Function]);
        assert(nesting_of(next) =~= nesting_of(context).push(Nest::Function));
    } else if op.is_function_end() {
        assert(nest_of(top).len() > 0 && nest_of(top).last() == Nest::Function) by {
            if nest_of(top).len() == 0 {
                assert(nesting_of(context) =~= nesting_of(rest));
                lemma_empty_nest_is_global(context);
            }
        }
        assert(top == FUNCTION_CONTEXT);
        assert(nest_of(top) =~= seq![Nest::Function]);
        assert(nesting_of(context).drop_last() =~= nesting_of(rest));
    }
}

/// Only the global element stands for no open construct, and it is the
/// bottom of the stack.
proof fn lemma_empty_nest_is_global(context: Seq<u8>)
    requires
        context_wf(context),
        nest_of(context.last()).len() == 0,
    ensures
        context.len() == 1,
        context[0] == GLOBAL_CONTEXT,
        nesting_of(context).len() == 0,
{
    let top = context[context.len() - 1];
    if context.len() > 1 {
        assert(top == LOOP_CONTEXT || top == FUNCTION_CONTEXT || top == 6);
        assert(nest_of(top).len() > 0);
    }
    assert(context.drop_last() =~= Seq::<u8>::empty());
    assert(nesting_of(context.drop_last()) =~= Seq::<Nest>::empty());
}

/// The stack is never empty, and its top is the global context exactly when
/// no loop and no function is open.
pub proof fn lemma_top_is_global(analyzer: ContextAnalyzer)
    requires
        analyzer.wf(),
    ensures
        analyzer.context@.len() >= 1,
        analyzer.context@.last() == GLOBAL_CONTEXT <==> analyzer@.len() == 0,
{
    let context = analyzer.context@;
    let top = context[context.len() - 1];
    if top == GLOBAL_CONTEXT {
        assert(nest_of(top) =~= Seq::<Nest>::empty());
        lemma_empty_nest_is_global(context);
    } else {
        assert(nest_of(top).len() > 0);
    }
}

impl ContextAnalyzer {
    /// The representation invariant.
    pub open spec fn wf(&self) -> bool {
        context_wf(self.context@)
    }

    /// True when the innermost open construct is a loop.
    pub open spec fn spec_in_loop(&self) -> bool {
        self@.len() > 0 && self@.last() == Nest::Loop
    }

    /// True when the innermost open construct is a function, or the only
    /// loop opened in the innermost function.
    pub open spec fn spec_in_function(&self) -> bool {
        ||| self@.len() > 0 && self@.last() == Nest::Function
        ||| self.context@.last() == 6
    }

    /// True when no function is open and at most one loop.
    pub open spec fn spec_in_global(&self) -> bool {
        self.context@.len() == 1
    }

    /// The analyzer of an empty program: nothing is open.
    pub fn new() -> (r: ContextAnalyzer)
        ensures
            r.wf(),
            r@ == Seq::<Nest>::empty(),
            r.context@ == seq![GLOBAL_CONTEXT],
    {
        let mut context: Vec<u8> = Vec::new();
        context.push(GLOBAL_CONTEXT);
        let r = ContextAnalyzer { context };
        proof {
            assert(r.context@ =~= seq![GLOBAL_CONTEXT]);
            assert(r.context@.drop_last() =~= Seq::<u8>::empty());
            assert(nesting_of(r.context@.drop_last()) =~= Seq::<Nest>::empty());
            assert(nesting_of(r.context@) =~= Seq::<Nest>::empty());
        }
        r
    }

    /// Follows one more instruction. An instruction that ends a loop must
    /// come where the innermost open construct is a loop, and one that ends
    /// a function where it is a function.
    pub fn analyze(&mut self, inst: &Instruction)
        requires
            old(self).wf(),
            nesting_fits(old(self)@, inst@.operation),
        ensures
            final(self).wf(),
            final(self)@ == nesting_step(old(self)@, inst@.operation),
            final(self).context@ == context_step(old(self).context@, inst@.operation),
    {
        proof {
            lemma_context_step(self.context@, inst@.operation);
            lemma_attributes(inst@.operation);
            lemma_context_bits(self.context@[self.context@.len() - 1]);
        }
        let n = self.context.len();
        let top: u8 = self.context[n - 1];
        if inst.operation.is_loop_start() {
            if top & LOOP_CONTEXT == LOOP_CONTEXT {
                self.context.push(LOOP_CONTEXT);
            } else {
                self.context[n - 1] = top | LOOP_CONTEXT;
            }
        } else if inst.operation.is_loop_end() {
            let cleared: u8 = top & !LOOP_CONTEXT;
            if cleared == NONE_CONTEXT {
                self.context.pop();
            } else {
                self.context[n - 1] = cleared;
            }
        } else if inst.operation.is_function_start() {
            self.context.push(FUNCTION_CONTEXT);
        } else if inst.operation.is_function_end() {
            self.context.pop();
        }
        assert(self.context@ =~= context_step(old(self).context@, inst@.operation));
    }

    fn cur_context(&self) -> (r: u8)
        requires
            self.wf(),
        ensures
            r == self.context@.last(),
    {
        self.context[self.context.len() - 1]
    }

    /// True when the innermost open construct is a loop.
    pub fn in_loop(&self) -> (r: bool)
        requires
            self.wf(),
        ensures
            r == self.spec_in_loop(),
    {
        proof {
            let top = self.context@[self.context@.len() - 1];
            lemma_context_bits(top);
            if nest_of(top).len() == 0 {
                lemma_empty_nest_is_global(self.context@);
            }
        }
        (self.cur_context() & LOOP_CONTEXT) == LOOP_CONTEXT
    }

    /// True when the top of the stack belongs to a function: the innermost
    /// open construct is a function, or the first loop opened in one.
    pub fn in_function(&self) -> (r: bool)
        requires
            self.wf(),
        ensures
            r == self.spec_in_function(),
            r ==> self@.contains(Nest::Function),
    {
        proof {
            let top = self.context@[self.context@.len() - 1];
            lemma_context_bits(top);
            if nest_of(top).len() == 0 {
                lemma_empty_nest_is_global(self.context@);
            }
            let n = nesting_of(self.context@.drop_last()).len() as int;
            if top == FUNCTION_CONTEXT {
                assert(self@[n] == Nest::Function);
            }
            if top == 6 {
                assert(self@[n] == Nest::Function);
            }
        }
        (self.cur_context() & FUNCTION_CONTEXT) == FUNCTION_CONTEXT
    }

    /// True when the top of the stack is the bottom: no function is open and
    /// at most one loop.
    pub fn in_global(&self) -> (r: bool)
        requires
            self.wf(),
        ensures
            r == self.spec_in_global(),
    {
        proof {
            lemma_context_bits(self.context@[self.context@.len() - 1]);
        }
        (self.cur_context() & GLOBAL_CONTEXT) == GLOBAL_CONTEXT
    }
}

/// The scope stack after an instruction: its outputs join the innermost
/// scope; then, if it ends a block, the innermost scope goes; then, if it
/// starts a block, a new scope opens that holds its temporaries.
pub open spec fn scope_step(scopes: Seq<Seq<Variable>>, inst: InstructionView) -> Seq<
    Seq<Variable>,
> {
    let extended = scopes.update(scopes.len() - 1, scopes.last() + inst.outputs);
    let closed = if inst.operation.is_block_end() {
        extended.drop_last()
    } else {
        extended
    };
    if inst.operation.is_block_start() {
        closed.push(inst.temp)
    } else {
        closed
    }
}

/// An instruction fits the scope stack when it does not close the outermost
/// scope.
pub open spec fn scope_fits(scopes: Seq<Seq<Variable>>, inst: InstructionView) -> bool {
    scopes.len() >= 1 && (inst.operation.is_block_end() ==> scopes.len() > 1)
}

/// A stack of scopes, each holding the variables defined in it. A variable
/// is visible while its scope is on the stack.
pub struct ScopeAnalyzer {
    pub scope: Vec<Vec<Variable>>,
}

impl View for ScopeAnalyzer {
    type V = Seq<Seq<Variable>>;

    /// The scopes, the innermost last.
    open spec fn view(&self) -> Seq<Seq<Variable>> {
        self.scope@.map_values(|v: Vec<Variable>| v@)
    }
}

impl ScopeAnalyzer {
    /// There is always the outermost scope.
    pub open spec fn wf(&self) -> bool {
        self@.len() >= 1
    }

    /// The variables that are visible: those of every scope on the stack,
    /// from the outermost scope to the innermost.
    pub open spec fn visible(&self) -> Seq<Variable> {
        self@.flatten()
    }

    /// The analyzer of an empty program: one scope, and nothing in it.
    pub fn new() -> (r: ScopeAnalyzer)
        ensures
            r.wf(),
            r@ == seq![Seq::<Variable>::empty()],
    {
        let mut scope: Vec<Vec<Variable>> = Vec::new();
        scope.push(Vec::new());
        let r = ScopeAnalyzer { scope };
        assert(r@ =~= seq![Seq::<Variable>::empty()]);
        r
    }

    /// Follows one more instruction. An instruction that ends a block must
    /// not come in the outermost scope.
    pub fn analyze(&mut self, inst: &Instruction)
        requires
            scope_fits(old(self)@, inst@),
        ensures
            final(self)@ == scope_step(old(self)@, inst@),
            final(self).wf(),
    {
        proof {
            lemma_attributes(inst@.operation);
        }
        let mut top: Vec<Variable> = self.scope.pop().unwrap();
        let outputs = inst.outputs();
        let ghost start = top@;
        let mut i: usize = 0;
        while i < outputs.len()
            invariant
                i <= outputs@.len(),
                top@ == start + outputs@.subrange(0, i as int),
            decreases outputs@.len() - i,
        {
            top.push(outputs[i]);
            assert(top@ =~= start + outputs@.subrange(0, i + 1));
            i = i + 1;
        }
        assert(outputs@.subrange(0, i as int) =~= outputs@);
        if !inst.operation.is_block_end() {
            self.scope.push(top);
        }
        if inst.operation.is_block_start() {
            let temp = inst.temp();
            let inner: Vec<Variable> = temp.clone();
            assert(inner@ =~= temp@);
            self.scope.push(inner);
        }
        assert(self@ =~= scope_step(old(self)@, inst@));
    }

    /// The variables of the innermost scope.
    pub fn get_inner_variables(&self) -> (r: &Vec<Variable>)
        requires
            self.wf(),
        ensures
            r@ == self@.last(),
    {
        &self.scope[self.scope.len() - 1]
    }

    /// The scopes outside the innermost one.
    pub fn get_outer_variables(&self) -> (r: &[Vec<Variable>])
        requires
            self.wf(),
        ensures
            r@.map_values(|v: Vec<Variable>| v@) == self@.drop_last(),
    {
        let n = self.scope.len() - 1;
        let r = vstd::slice::slice_subrange(self.scope.as_slice(), 0, n);
        assert(r@.map_values(|v: Vec<Variable>| v@) =~= self@.drop_last());
        r
    }

    /// Every visible variable, from the outermost scope to the innermost.
    pub fn get_visible_variables(&self) -> (r: Vec<Variable>)
        ensures
            r@ == self.visible(),
    {
        let mut r: Vec<Variable> = Vec::new();
        let mut i: usize = 0;
        assert(self@.subrange(0, 0) =~= Seq::<Seq<Variable>>::empty());
        while i < self.scope.len()
            invariant
                i <= self.scope@.len(),
                r@ == self@.subrange(0, i as int).flatten(),
            decreases self.scope@.len() - i,
        {
            let scope = &self.scope[i];
            let ghost before = r@;
            let mut j: usize = 0;
            while j < scope.len()
                invariant
                    j <= scope@.len(),
                    r@ == before + scope@.subrange(0, j as int),
                decreases scope@.len() - j,
            {
                r.push(scope[j]);
                assert(r@ =~= before + scope@.subrange(0, j + 1));
                j = j + 1;
            }
            proof {
                assert(scope@.subrange(0, j as int) =~= scope@);
                assert(self@.subrange(0, i + 1) =~= self@.subrange(0, i as int).push(scope@));
                self@.subrange(0, i as int).lemma_flatten_push(scope@);
            }
            i = i + 1;
        }
        assert(self@.subrange(0, i as int) =~= self@);
        r
    }

    /// The whole stack of scopes.
    pub fn get_all_scopes(&self) -> (r: &Vec<Vec<Variable>>)
        ensures
            r@.map_values(|v: Vec<Variable>| v@) == self@,
    {
        &self.scope
    }
}

} // verus!
