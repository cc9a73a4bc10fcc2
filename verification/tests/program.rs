use zebra::ir::codeanalysis::types::{ConstructorType, MethodSignature, Shape, Type};
use zebra::ir::codegenerators::CodeGenerators;
use zebra::ir::instruction::Instruction;
use zebra::ir::operation::Operation;
use zebra::ir::program::{Mode, Program, DEFAULT_BUDGET, MAX_SCOPE_DEPTH};
use zebra::ir::variable::Variable;
use zebra::jsruntime::jsruntime::JSRuntime;
use zebra::lifter::lifter::Lifter;
use zebra::utils::probablity::Probablity;
use zebra::utils::random::Random;

fn program(rt: &JSRuntime, a: u64, b: u64) -> Program<'_> {
    Program::new(rt, Random::new(a, 1), Probablity::new(Random::new(b, 1)))
}

fn lift(p: Program, seed: u64) -> String {
    let mut lifter = Lifter::new(Random::new(seed, 1));
    lifter.do_lifting(p);
    lifter.finalize();
    lifter.get_code().clone()
}

#[test]
fn test_prog() {
    let rt = JSRuntime::new();
    let mut p = program(&rt, 1, 2);
    p.generate_random_insts(10);
    let mut lifter = Lifter::new(Random::new(3, 1));
    lifter.do_lifting(p);
    println!("{}", lifter.get_code());
}

#[test]
fn new_program_is_empty() {
    let rt = JSRuntime::new();
    let p = program(&rt, 1, 2);
    assert!(p.buffer.is_empty());
    assert_eq!(p.num_instr, 0);
    assert_eq!(p.next_free_variable_id, 0);
    assert_eq!(p.budget, DEFAULT_BUDGET);
    assert!(!p.is_in_loop());
    assert!(!p.is_in_function());
}

#[test]
fn integer_literal_from_seed_one() {
    let rt = JSRuntime::new();
    let mut p = program(&rt, 1, 1);
    assert!(CodeGenerators::integer_literal_generator(&mut p).is_some());
    assert_eq!(p.seen_ints, vec![8193]);
    assert_eq!(lift(p, 1), "var v0 = 8193;\n");
    let mut q = program(&rt, 1, 1);
    assert!(CodeGenerators::integer_literal_generator(&mut q).is_some());
    assert_eq!(lift(q, 1), "var v0 = 8193;\n");
}

#[test]
fn generation_is_deterministic() {
    let rt = JSRuntime::new();
    for seed in 1..40u64 {
        let mut a = program(&rt, seed, seed + 100);
        let mut b = program(&rt, seed, seed + 100);
        a.generate_random_insts(5);
        b.generate_random_insts(5);
        assert_eq!(a.num_instr, b.num_instr);
        assert_eq!(lift(a, 7), lift(b, 7));
    }
}

fn visible(scopes: &[Vec<Variable>], v: &Variable) -> bool {
    scopes.iter().any(|s| s.contains(v))
}

// Replays a program and checks that every input is in scope where it is
// read, that blocks are nested and balanced, that a break or a continue
// stands directly in a loop, and that a return stands in a function.
fn check_structure(buffer: &[Instruction]) {
    let mut scopes: Vec<Vec<Variable>> = vec![vec![]];
    let mut nesting: Vec<char> = vec![];
    let mut blocks: Vec<char> = vec![];
    for inst in buffer {
        for v in &inst.inputs {
            assert!(visible(&scopes, v), "an input is out of scope");
        }
        match &inst.operation {
            Operation::Break | Operation::Continue => {
                assert_eq!(nesting.last(), Some(&'l'));
            }
            Operation::Return => assert!(nesting.contains(&'f')),
            _ => {}
        }
        scopes.last_mut().unwrap().extend(inst.outputs.iter().copied());
        match &inst.operation {
            Operation::EndIf => assert_eq!(blocks.pop(), Some('i')),
            Operation::BeginElse(_) => assert_eq!(blocks.last(), Some(&'i')),
            Operation::EndFor => {
                assert_eq!(blocks.pop(), Some('l'));
                assert_eq!(nesting.pop(), Some('l'));
            }
            Operation::EndFunctionDefinition => {
                assert_eq!(blocks.pop(), Some('f'));
                assert_eq!(nesting.pop(), Some('f'));
            }
            _ => {}
        }
        if inst.operation.is_block_end() {
            assert!(scopes.len() > 1);
            scopes.pop();
        }
        if inst.operation.is_block_start() {
            scopes.push(inst.temp.clone());
            assert!(scopes.len() <= MAX_SCOPE_DEPTH);
        }
        match &inst.operation {
            Operation::BeginIf => blocks.push('i'),
            Operation::BeginFor(_) => {
                blocks.push('l');
                nesting.push('l');
            }
            Operation::BeginFunctionDefinition(_) => {
                blocks.push('f');
                nesting.push('f');
            }
            _ => {}
        }
    }
    assert_eq!(scopes.len(), 1);
    assert!(nesting.is_empty());
    assert!(blocks.is_empty());
}

#[test]
fn generated_programs_are_well_structured() {
    let rt = JSRuntime::new();
    for seed in 1..300u64 {
        let mut p = program(&rt, seed * 7919, seed * 104729 + 1);
        p.generate_random_insts(5);
        assert!(p.num_instr >= 5);
        assert_eq!(p.num_instr as usize, p.buffer.len());
        check_structure(&p.buffer);
        assert_eq!(p.context_analyzer.context, vec![1]);
        assert_eq!(p.scope_analyzer.get_all_scopes().len(), 1);
        for (i, inst) in p.buffer.iter().enumerate() {
            assert_eq!(inst.idx as usize, i);
        }
    }
}

#[test]
fn generated_programs_can_be_lifted() {
    let rt = JSRuntime::new();
    for seed in 1..100u64 {
        let mut p = program(&rt, seed, seed * 31 + 5);
        p.generate_random_insts(5);
        let lines = p.buffer.iter().filter(|i| !matches!(i.operation, Operation::Nop)).count();
        let code = lift(p, seed);
        assert_eq!(code.lines().count(), lines);
        let opened = code.matches('{').count();
        let closed = code.matches('}').count();
        assert!(opened >= closed || opened <= closed);
    }
}

#[test]
fn an_empty_program_starts_with_literals() {
    let rt = JSRuntime::new();
    let mut p = program(&rt, 5, 6);
    p.generate_random_insts(1);
    for inst in &p.buffer[..3] {
        assert!(inst.operation.is_primitive());
    }
}

#[test]
fn generation_stops_when_the_budget_is_used_up() {
    let rt = JSRuntime::new();
    let mut p = program(&rt, 5, 6);
    p.budget = 2;
    p.generate_random_insts(200);
    assert_eq!(p.budget, 0);
    assert_eq!(p.buffer.len(), 2);
    let mut q = program(&rt, 5, 6);
    q.budget = 0;
    q.generate_random_insts(3);
    assert!(q.buffer.is_empty());
}

#[test]
fn fit_budget_leaves_room_for_the_counters() {
    let rt = JSRuntime::new();
    let mut p = program(&rt, 5, 6);
    p.budget = u32::MAX;
    p.fit_budget();
    assert_eq!(p.budget, u32::MAX / 512);
    let mut q = program(&rt, 5, 6);
    q.fit_budget();
    assert_eq!(q.budget, DEFAULT_BUDGET);
}

#[test]
fn break_and_continue_need_a_loop() {
    let rt = JSRuntime::new();
    let mut p = program(&rt, 1, 2);
    assert!(CodeGenerators::break_generator(&mut p).is_none());
    assert!(CodeGenerators::continue_generator(&mut p).is_none());
    assert!(p.buffer.is_empty());
    let a = p.load_int(0);
    let b = p.load_int(10);
    let c = p.load_int(1);
    p.begin_for(a, b, c, "++".to_string(), zebra::ir::operators::Comparators::LessThan);
    assert!(p.is_in_loop());
    assert!(CodeGenerators::break_generator(&mut p).is_some());
    assert!(CodeGenerators::continue_generator(&mut p).is_some());
    p.end_for();
    assert!(!p.is_in_loop());
    assert_eq!(
        lift(p, 1),
        "var v0 = 0;\nvar v1 = 10;\nvar v2 = 1;\nfor (var v3 = v0; v3 < v1; v3++){\n   break;\n   continue;\n}\n"
    );
}

#[test]
fn return_needs_a_function() {
    let rt = JSRuntime::new();
    let mut p = program(&rt, 1, 2);
    p.load_int(1);
    assert!(CodeGenerators::function_return_generator(&mut p).is_none());
    assert!(CodeGenerators::empty_loop_generator(&mut p).is_none());
    assert_eq!(p.buffer.len(), 1);
    let f = p.begin_function_definition(
        zebra::ir::codeanalysis::types::FunctionSignature::new(2),
    );
    assert_eq!(f, Variable(1));
    assert!(p.is_in_function());
    assert!(CodeGenerators::function_return_generator(&mut p).is_some());
    p.end_function_definition();
    assert!(!p.is_in_function());
    let code = lift(p, 1);
    assert!(code.starts_with("var v0 = 1;\nfunction v1(v2, v3 ) {\n   return v"));
    assert!(code.ends_with(";\n}\n"));
}

#[test]
fn strict_selection_fails_without_a_candidate() {
    let rt = JSRuntime::new();
    let mut p = program(&rt, 1, 2);
    assert_eq!(p.random_variable_of_type(Type::int_type(), Mode::Strict), None);
    let v = p.load_bool(true);
    assert_eq!(p.random_variable_of_type(Type::int_type(), Mode::Strict), None);
    assert_eq!(p.random_variable_of_type(Type::bool_type(), Mode::Strict), Some(v));
    assert_eq!(p.random_variable(Type::int_type()), v);
    assert!(CodeGenerators::function_call_generator(&mut p).is_none());
    assert!(CodeGenerators::store_element_generator(&mut p).is_none());
    assert!(CodeGenerators::method_call_generator(&mut p).is_none());
    assert!(CodeGenerators::load_property_generator(&mut p).is_none());
    assert_eq!(p.buffer.len(), 1);
}

#[test]
fn free_selection_prefers_the_type() {
    let rt = JSRuntime::new();
    let mut p = program(&rt, 9, 10);
    let a = p.load_bool(true);
    let b = p.load_int(4);
    for _ in 0..50 {
        assert_eq!(p.random_variable(Type::int_type()), b);
        assert_eq!(p.random_variable(Type::bool_type()), a);
        let any = p.random_variable(Type::string_type());
        assert!(any == a || any == b);
    }
}

#[test]
fn create_array_of_three() {
    let rt = JSRuntime::new();
    for seed in 1..20u64 {
        let mut p = program(&rt, 1, 2);
        let v0 = p.load_int(3);
        let v1 = p.create_array(vec![v0, v0, v0]);
        assert_eq!(p.get_type(&v1), Type::array_type());
        let code = lift(p, seed);
        assert!(
            code == "var v0 = 3;\nvar v1 = [v0, v0, v0];\n"
                || code == "var v0 = 3;\nvar v1 = Array(v0, v0, v0);\n"
        );
    }
}

#[test]
fn math_random_method_call() {
    let rt = JSRuntime::new();
    let mut p = program(&rt, 1, 2);
    let math = Type::obj(Shape::math().union(Shape::statik()));
    let v0 = p.load_builtin(&ConstructorType::NonCallable("Math".to_string(), math), None);
    let random = MethodSignature::new("random", math, vec![], Type::float_type());
    let v1 = p.method_call(vec![v0], random);
    assert_eq!(p.get_type(&v1), Type::float_type());
    assert_eq!(lift(p, 1), "var v0 = Math\nvar v1 = v0.random();\n");
}

#[test]
fn math_random_is_offered_for_the_math_shape() {
    let rt = JSRuntime::new();
    let mut p = program(&rt, 1, 2);
    let math = Shape::math().union(Shape::statik());
    let mut seen_random = false;
    for _ in 0..500 {
        let m = p.random_method_for_shape(math).unwrap();
        assert_eq!(m.output_type(), Type::float_type());
        seen_random |= m.get_name() == "random";
    }
    assert!(seen_random);
    assert!(p.random_method_for_shape(Shape::custom()).is_none());
}

#[test]
fn typed_array_constructors_get_a_concrete_name() {
    let rt = JSRuntime::new();
    let names = zebra::jsruntime::constants::typed_array_names();
    let mut p = program(&rt, 1, 2);
    let v = p.load_int(8);
    let typed = Type::obj(Shape::typed_array());
    let ctor = ConstructorType::Callable(MethodSignature::new("TypedArray", typed, vec![], typed));
    p.load_builtin(&ctor, Some(vec![v]));
    match &p.buffer[1].operation {
        Operation::LoadBuiltin(op) => match &op.0 {
            ConstructorType::Callable(ms) => {
                assert!(names.contains(&ms.get_name().as_str()));
                assert_eq!(ms.get_name(), names[(72066390130958337u64 % 10) as usize]);
            }
            _ => panic!("the constructor changed its kind"),
        },
        _ => panic!("not a builtin"),
    }
    let array = ConstructorType::Callable(MethodSignature::new(
        "Array",
        Type::array_type(),
        vec![],
        Type::array_type(),
    ));
    let state = p.rng.0;
    p.load_builtin(&array, Some(vec![v]));
    assert_eq!(p.rng.0, state);
}

#[test]
fn every_generator_keeps_the_structure() {
    let rt = JSRuntime::new();
    for seed in 1..60u64 {
        let mut p = program(&rt, seed, seed + 17);
        p.generate_random_insts(2);
        CodeGenerators::if_condition_generator(&mut p);
        CodeGenerators::for_loop_generator(&mut p);
        CodeGenerators::function_definition_generator(&mut p);
        CodeGenerators::jit_function_generator(&mut p);
        CodeGenerators::create_object_generator(&mut p);
        CodeGenerators::delete_property_generator(&mut p);
        CodeGenerators::store_property_generator(&mut p);
        CodeGenerators::load_builtin_generator(&mut p);
        CodeGenerators::int_array_generator(&mut p);
        CodeGenerators::float_array_generator(&mut p);
        CodeGenerators::load_element_generator(&mut p);
        CodeGenerators::binary_op_generator(&mut p);
        CodeGenerators::compare_op_generator(&mut p);
        CodeGenerators::unary_op_generator(&mut p);
        CodeGenerators::copy_generator(&mut p);
        CodeGenerators::nop_generator(&mut p);
        CodeGenerators::string_literal_generator(&mut p);
        CodeGenerators::float_literal_generator(&mut p);
        CodeGenerators::bool_literal_generator(&mut p);
        CodeGenerators::undefined_literal_generator(&mut p);
        check_structure(&p.buffer);
    }
}

#[test]
fn function_definition_is_followed_by_a_call() {
    let rt = JSRuntime::new();
    let mut p = program(&rt, 3, 4);
    p.load_int(1);
    assert!(CodeGenerators::function_definition_generator(&mut p).is_some());
    assert!(matches!(p.buffer[1].operation, Operation::BeginFunctionDefinition(_)));
    assert!(matches!(p.buffer.last().unwrap().operation, Operation::FunctionCall(_)));
    let func = p.buffer[1].outputs[0];
    assert_eq!(p.buffer.last().unwrap().inputs[0], func);
    assert!(!p.get_signature_for(&func).is_constructing());
    let args = p.buffer[1].temp.len();
    assert!(args < 5);
    assert_eq!(p.buffer.last().unwrap().inputs.len(), args + 1);
}

#[test]
fn nesting_stops_at_the_limit() {
    let rt = JSRuntime::new();
    let mut p = program(&rt, 3, 4);
    let v = p.load_bool(true);
    for _ in 1..MAX_SCOPE_DEPTH {
        p.begin_if(v);
    }
    let before = p.buffer.len();
    assert!(CodeGenerators::if_condition_generator(&mut p).is_none());
    assert!(CodeGenerators::for_loop_generator(&mut p).is_none());
    assert!(CodeGenerators::function_definition_generator(&mut p).is_none());
    assert!(CodeGenerators::jit_function_generator(&mut p).is_none());
    assert_eq!(p.buffer.len(), before);
}
