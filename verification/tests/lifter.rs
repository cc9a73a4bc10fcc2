use zebra::ir::codeanalysis::types::{ConstructorType, FunctionSignature, MethodSignature, Type};
use zebra::ir::instruction::{Instruction, Value};
use zebra::ir::operation::{
    BeginElse, BeginFor, BeginFunctionDefinition, CreateArray, CreateObject, FunctionCall,
    LoadBuiltin, MethodCall, Operation,
};
use zebra::ir::operators::{BinaryOperators, Comparators, UnaryOperators};
use zebra::ir::variable::Variable;
use zebra::lifter::emitter::Emitter;
use zebra::lifter::lifter::Lifter;
use zebra::utils::float::FloatLiteral;
use zebra::utils::random::Random;

fn inst(op: Operation, ins: Vec<u32>, outs: Vec<u32>, temps: Vec<u32>) -> Instruction {
    Instruction::new(
        0,
        op,
        ins.into_iter().map(Variable).collect(),
        outs.into_iter().map(Variable).collect(),
        temps.into_iter().map(Variable).collect(),
    )
}

fn line(op: Operation, ins: Vec<u32>, outs: Vec<u32>, temps: Vec<u32>) -> String {
    let mut lifter = Lifter::new(Random::new(1, 1));
    if op.is_block_end() {
        lifter.emitter.indent();
    }
    lifter.lift(&inst(op, ins, outs, temps));
    lifter.get_code().clone()
}

#[test]
fn variable_names() {
    assert_eq!(Variable(0).print(), "v0");
    assert_eq!(Variable(4294967295).print(), "v4294967295");
}

#[test]
fn literals() {
    assert_eq!(line(Operation::LoadInt(-42), vec![], vec![0], vec![]), "var v0 = -42;\n");
    assert_eq!(
        line(Operation::LoadInt(i64::MIN), vec![], vec![0], vec![]),
        "var v0 = -9223372036854775808;\n"
    );
    assert_eq!(
        line(Operation::LoadFloat(FloatLiteral { numer: 3, denom: 2 }), vec![], vec![1], vec![]),
        "var v1 = 1.500000000000000;\n"
    );
    assert_eq!(
        line(Operation::LoadString("a b".to_string()), vec![], vec![2], vec![]),
        "var v2 = \"a b\";\n"
    );
    assert_eq!(line(Operation::LoadBool(true), vec![], vec![3], vec![]), "var v3 = true;\n");
    assert_eq!(line(Operation::LoadBool(false), vec![], vec![3], vec![]), "var v3 = false;\n");
    assert_eq!(line(Operation::LoadUndefined, vec![], vec![4], vec![]), "var v4 = undefined;\n");
}

#[test]
fn nop_emits_nothing() {
    assert_eq!(line(Operation::Nop, vec![], vec![], vec![]), "");
}

#[test]
fn simple_statements() {
    assert_eq!(line(Operation::Copy, vec![1, 2], vec![], vec![]), "var v1 = v2;\n");
    assert_eq!(line(Operation::Break, vec![], vec![], vec![]), "break;\n");
    assert_eq!(line(Operation::Continue, vec![], vec![], vec![]), "continue;\n");
    assert_eq!(line(Operation::Return, vec![7], vec![], vec![]), "return v7;\n");
    assert_eq!(line(Operation::LoadElement, vec![1, 2], vec![3], vec![]), "var v3 = v1[v2];\n");
    assert_eq!(line(Operation::StoreElement, vec![1, 2, 3], vec![], vec![]), "v1[v2] = v3;\n");
    assert_eq!(line(Operation::Delete(true), vec![1, 2], vec![], vec![]), "delete v1[v2]\n");
    assert_eq!(
        line(Operation::LoadProperty("length".to_string()), vec![1], vec![2], vec![]),
        "var v2 = v1.length\n"
    );
}

#[test]
fn operators() {
    assert_eq!(
        line(Operation::BinaryOp(BinaryOperators::LShift), vec![1, 2], vec![3], vec![]),
        "var v3 = v1 << v2;\n"
    );
    assert_eq!(
        line(Operation::CompareOp(Comparators::StrictEqual), vec![1, 2], vec![3], vec![]),
        "var v3 = v1 === v2;\n"
    );
    assert_eq!(
        line(Operation::UnaryOp(UnaryOperators::Inc), vec![1], vec![3], vec![]),
        "var v3 = v1++;\n"
    );
    assert_eq!(
        line(Operation::UnaryOp(UnaryOperators::Dec), vec![1], vec![3], vec![]),
        "var v3 = v1--;\n"
    );
    assert_eq!(
        line(Operation::UnaryOp(UnaryOperators::LogicalNot), vec![1], vec![3], vec![]),
        "var v3 = !v1;\n"
    );
    assert_eq!(
        line(Operation::UnaryOp(UnaryOperators::BitwiseNot), vec![1], vec![3], vec![]),
        "var v3 = ~v1;\n"
    );
}

#[test]
fn operator_texts() {
    let all: Vec<&str> = BinaryOperators::all().iter().map(|o| o.rep()).collect();
    assert_eq!(all, vec!["+", "-", "*", "/", "%", "&", "|", "&&", "||", "^", "<<", ">>"]);
    let all: Vec<&str> = UnaryOperators::all().iter().map(|o| o.rep()).collect();
    assert_eq!(all, vec!["++", "--", "!", "~"]);
    let all: Vec<&str> = Comparators::all().iter().map(|o| o.rep()).collect();
    assert_eq!(all, vec!["==", "===", "!=", "<", "<=", ">", ">="]);
}

#[test]
fn blocks_indent_by_three() {
    let mut lifter = Lifter::new(Random::new(1, 1));
    lifter.lift(&inst(Operation::BeginIf, vec![0], vec![], vec![]));
    lifter.lift(&inst(Operation::LoadInt(1), vec![], vec![1], vec![]));
    lifter.lift(&inst(Operation::BeginElse(BeginElse()), vec![], vec![], vec![]));
    lifter.lift(&inst(
        Operation::BeginFor(BeginFor("++".to_string(), Comparators::LessThanOrEqual)),
        vec![1, 2, 3],
        vec![],
        vec![4],
    ));
    lifter.lift(&inst(Operation::Break, vec![], vec![], vec![]));
    lifter.lift(&inst(Operation::EndFor, vec![], vec![], vec![]));
    lifter.lift(&inst(Operation::EndIf, vec![], vec![], vec![]));
    assert_eq!(
        lifter.get_code(),
        "if (v0) {\n   var v1 = 1;\n} else {\n   for (var v4 = v1; v4 <= v2; v4++){\n      break;\n   }\n}\n"
    );
    assert_eq!(lifter.emitter.indent_level, 0);
    lifter.reset();
    assert_eq!(lifter.get_code(), "");
}

#[test]
fn functions_and_calls() {
    let def = |n: u8| Operation::BeginFunctionDefinition(BeginFunctionDefinition(
        FunctionSignature::new(n),
    ));
    assert_eq!(line(def(0), vec![], vec![5], vec![]), "function v5() {\n");
    assert_eq!(line(def(1), vec![], vec![5], vec![6]), "function v5(v6 ) {\n");
    assert_eq!(line(def(3), vec![], vec![5], vec![6, 7, 8]), "function v5(v6, v7, v8 ) {\n");
    assert_eq!(line(Operation::EndFunctionDefinition, vec![], vec![], vec![]), "}\n");
    assert_eq!(
        line(Operation::FunctionCall(FunctionCall(0)), vec![5], vec![9], vec![]),
        "var v9 = v5();\n"
    );
    assert_eq!(
        line(Operation::FunctionCall(FunctionCall(2)), vec![5, 1, 2], vec![9], vec![]),
        "var v9 = v5(v1, v2 );\n"
    );
}

#[test]
fn method_calls_and_builtins() {
    let sig = MethodSignature::new("slice", Type::array_type(), vec![], Type::array_type());
    assert_eq!(
        line(Operation::MethodCall(MethodCall(sig.clone(), 2)), vec![1, 2, 3], vec![4], vec![]),
        "var v4 = v1.slice(v2, v3);\n"
    );
    assert_eq!(
        line(Operation::MethodCall(MethodCall(sig.clone(), 0)), vec![1], vec![4], vec![]),
        "var v4 = v1.slice();\n"
    );
    assert_eq!(
        line(
            Operation::LoadBuiltin(LoadBuiltin(ConstructorType::Callable(sig), 1)),
            vec![1],
            vec![4],
            vec![]
        ),
        "var v4 = new slice(v1);\n"
    );
    assert_eq!(
        line(
            Operation::LoadBuiltin(LoadBuiltin(
                ConstructorType::NonCallable("Math".to_string(), Type::object_type()),
                0
            )),
            vec![],
            vec![4],
            vec![]
        ),
        "var v4 = Math\n"
    );
}

#[test]
fn objects() {
    let props = |names: &[&str]| {
        Operation::CreateObject(CreateObject(names.iter().map(|s| s.to_string()).collect()))
    };
    assert_eq!(line(props(&[]), vec![], vec![1], vec![]), "var v1 = {};\n");
    assert_eq!(line(props(&["a"]), vec![5], vec![1], vec![]), "var v1 = {a: v5};\n");
    assert_eq!(
        line(props(&["a", "z"]), vec![5, 6], vec![1], vec![]),
        "var v1 = {a: v5, z: v6};\n"
    );
}

#[test]
fn operations_with_two_forms() {
    let mut dot = false;
    let mut bracket = false;
    let mut literal = false;
    let mut call = false;
    for seed in 1..200u64 {
        let mut lifter = Lifter::new(Random::new(seed, 1));
        lifter.lift(&inst(Operation::StoreProperty("x".to_string()), vec![1, 2], vec![], vec![]));
        match lifter.get_code().as_str() {
            "v1.x = v2\n" => dot = true,
            "v1[\"x\"] = v2\n" => bracket = true,
            other => panic!("unexpected text {}", other),
        }
        let mut lifter = Lifter::new(Random::new(seed, 1));
        lifter.lift(&inst(Operation::CreateArray(CreateArray(2)), vec![1, 2], vec![3], vec![]));
        match lifter.get_code().as_str() {
            "var v3 = [v1, v2];\n" => literal = true,
            "var v3 = Array(v1, v2);\n" => call = true,
            other => panic!("unexpected text {}", other),
        }
    }
    assert!(dot && bracket && literal && call);
}

#[test]
fn the_form_follows_the_tenths_drawn() {
    // From seed one the tenths drawn are 4: below 5, so the literal form,
    // and below 7, so the dot form.
    assert_eq!(
        line(Operation::CreateArray(CreateArray(1)), vec![1], vec![3], vec![]),
        "var v3 = [v1];\n"
    );
    assert_eq!(
        line(Operation::StoreProperty("x".to_string()), vec![1, 2], vec![], vec![]),
        "v1.x = v2\n"
    );
}

#[test]
fn getval_of_primitive_operations() {
    assert!(matches!(
        inst(Operation::LoadInt(5), vec![], vec![0], vec![]).getval(),
        Value::Int(5)
    ));
    assert!(matches!(
        inst(Operation::LoadUndefined, vec![], vec![0], vec![]).getval(),
        Value::Undefined
    ));
    match inst(Operation::LoadString("x".to_string()), vec![], vec![0], vec![]).getval() {
        Value::Str(s) => assert_eq!(s, "x"),
        _ => panic!("not a string"),
    }
}

#[test]
fn emitter_lines() {
    let mut e = Emitter::new();
    e.add("a".to_string());
    e.indent();
    e.add("b".to_string());
    e.indent();
    e.add("".to_string());
    e.unindent();
    e.unindent();
    e.add("c".to_string());
    e.finalize();
    assert_eq!(e.get_code(), "a\n   b\n      \nc\n");
    e.reset();
    assert_eq!(e.get_code(), "");
}
