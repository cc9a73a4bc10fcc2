use zebra::ir::codeanalysis::typeanalyzer::TypeAnalyzer;
use zebra::ir::codeanalysis::types::{
    ConstructorType, FunctionSignature, MethodArg, MethodSignature, PType, Shape, Type,
};
use zebra::ir::instruction::Instruction;
use zebra::ir::operation::{
    BeginFunctionDefinition, FunctionCall, LoadBuiltin, MethodCall, Operation,
};
use zebra::ir::operators::{BinaryOperators, UnaryOperators};
use zebra::ir::variable::Variable;

fn analyze(ta: &mut TypeAnalyzer, op: Operation, ins: Vec<u32>, outs: Vec<u32>, temps: Vec<u32>) {
    let mut inst = Instruction::new(
        0,
        op,
        ins.into_iter().map(Variable).collect(),
        outs.into_iter().map(Variable).collect(),
        temps.into_iter().map(Variable).collect(),
    );
    ta.analyze(&mut inst);
}

#[test]
fn literal_loads_set_the_obvious_type() {
    let mut ta = TypeAnalyzer::new();
    analyze(&mut ta, Operation::LoadInt(1), vec![], vec![0], vec![]);
    analyze(&mut ta, Operation::LoadBool(true), vec![], vec![1], vec![]);
    analyze(&mut ta, Operation::LoadString("s".to_string()), vec![], vec![2], vec![]);
    analyze(&mut ta, Operation::LoadUndefined, vec![], vec![3], vec![]);
    assert_eq!(ta.get_type(&Variable(0)), Type::int_type());
    assert_eq!(ta.get_type(&Variable(1)), Type::bool_type());
    assert_eq!(ta.get_type(&Variable(2)), Type::string_type());
    assert_eq!(ta.get_type(&Variable(3)), Type::undefined_type());
}

#[test]
fn begin_if_over_unknown_adds_bool() {
    let mut ta = TypeAnalyzer::new();
    ta.set_type(&Variable(0), Type::unknown_type());
    analyze(&mut ta, Operation::BeginIf, vec![0], vec![], vec![]);
    let t = ta.get_type(&Variable(0));
    assert!(t.is_bool());
    assert!(t.is_unknown());
    assert_eq!(t.ptype, PType { bits: 0x48 });
}

#[test]
fn begin_if_leaves_a_known_condition() {
    let mut ta = TypeAnalyzer::new();
    ta.set_type(&Variable(0), Type::int_type());
    analyze(&mut ta, Operation::BeginIf, vec![0], vec![], vec![]);
    assert_eq!(ta.get_type(&Variable(0)), Type::int_type());
}

#[test]
fn set_type_unites_primitive_types_and_replaces_a_shape() {
    let mut ta = TypeAnalyzer::new();
    ta.set_type(&Variable(0), Type::array_type());
    ta.set_type(&Variable(0), Type::int_type());
    assert_eq!(
        ta.get_type(&Variable(0)),
        Type { ptype: PType { bits: 0x81 }, shape: Shape::array() }
    );
    ta.set_type(&Variable(0), Type::string_type());
    assert_eq!(
        ta.get_type(&Variable(0)),
        Type { ptype: PType { bits: 0x85 }, shape: Shape::string() }
    );
}

fn binary(lhs: Type, rhs: Type, op: BinaryOperators) -> Type {
    let mut ta = TypeAnalyzer::new();
    ta.set_type(&Variable(0), lhs);
    ta.set_type(&Variable(1), rhs);
    analyze(&mut ta, Operation::BinaryOp(op), vec![0, 1], vec![2], vec![]);
    ta.get_type(&Variable(2))
}

#[test]
fn binary_operators_follow_the_truth_table() {
    let numeric = [
        Type::int_type(),
        Type::float_type(),
        Type::bool_type(),
        Type::undefined_type(),
    ];
    for lhs in numeric {
        for rhs in numeric {
            let integers = lhs.is_integer() && rhs.is_integer();
            let expect = if integers { Type::int_type() } else { Type::float_type() };
            assert_eq!(binary(lhs, rhs, BinaryOperators::Add), expect);
            assert_eq!(binary(lhs, rhs, BinaryOperators::Sub), expect);
            assert_eq!(binary(lhs, rhs, BinaryOperators::Mul), expect);
            assert_eq!(binary(lhs, rhs, BinaryOperators::Div), Type::float_type());
            for op in [
                BinaryOperators::Mod,
                BinaryOperators::BitAnd,
                BinaryOperators::BitOr,
                BinaryOperators::Xor,
                BinaryOperators::LShift,
                BinaryOperators::RShift,
            ] {
                assert_eq!(binary(lhs, rhs, op), Type::int_type());
            }
            assert_eq!(binary(lhs, rhs, BinaryOperators::LogicAnd), Type::bool_type());
            assert_eq!(binary(lhs, rhs, BinaryOperators::LogicOr), Type::bool_type());
        }
    }
}

#[test]
fn adding_a_string_gives_a_string() {
    assert_eq!(
        binary(Type::string_type(), Type::int_type(), BinaryOperators::Add),
        Type::string_type()
    );
}

#[test]
fn unknown_operands_are_promoted_to_int() {
    let mut ta = TypeAnalyzer::new();
    ta.set_type(&Variable(0), Type::unknown_type());
    ta.set_type(&Variable(1), Type::float_type());
    analyze(&mut ta, Operation::BinaryOp(BinaryOperators::Sub), vec![0, 1], vec![2], vec![]);
    assert_eq!(ta.get_type(&Variable(0)).ptype, PType { bits: 0x41 });
    assert_eq!(ta.get_type(&Variable(2)), Type::float_type());
}

#[test]
fn unary_operators() {
    let mut ta = TypeAnalyzer::new();
    ta.set_type(&Variable(0), Type::bool_type());
    ta.set_type(&Variable(1), Type::float_type());
    analyze(&mut ta, Operation::UnaryOp(UnaryOperators::Inc), vec![0], vec![2], vec![]);
    analyze(&mut ta, Operation::UnaryOp(UnaryOperators::BitwiseNot), vec![1], vec![3], vec![]);
    analyze(&mut ta, Operation::UnaryOp(UnaryOperators::LogicalNot), vec![1], vec![4], vec![]);
    assert_eq!(ta.get_type(&Variable(2)), Type::int_type());
    assert_eq!(ta.get_type(&Variable(3)), Type::float_type());
    assert_eq!(ta.get_type(&Variable(4)), Type::bool_type());
}

#[test]
fn function_definition_records_the_signature() {
    let mut ta = TypeAnalyzer::new();
    let mut sig = FunctionSignature::new(2);
    sig.done_constructing();
    analyze(
        &mut ta,
        Operation::BeginFunctionDefinition(BeginFunctionDefinition(sig)),
        vec![],
        vec![0],
        vec![1, 2],
    );
    assert_eq!(ta.get_type(&Variable(0)), Type::function_type());
    assert_eq!(ta.get_type(&Variable(1)), Type::unknown_type());
    assert!(ta.get_signature_for(Variable(0)).is_constructing());
    analyze(&mut ta, Operation::LoadInt(3), vec![], vec![3], vec![]);
    analyze(&mut ta, Operation::BinaryOp(BinaryOperators::Mul), vec![1, 3], vec![4], vec![]);
    analyze(&mut ta, Operation::Return, vec![4], vec![], vec![]);
    analyze(&mut ta, Operation::EndFunctionDefinition, vec![], vec![], vec![]);
    let sig = ta.get_signature_for(Variable(0));
    assert!(!sig.is_constructing());
    assert_eq!(sig.args_count(), 2);
    assert_eq!(sig.get_output_type().ptype, PType { bits: 0x41 });
    assert_eq!(sig.get_input_types()[0].ptype, PType { bits: 0x41 });
    assert_eq!(sig.get_input_types()[1], Type::unknown_type());
    analyze(&mut ta, Operation::FunctionCall(FunctionCall(2)), vec![0, 3, 3], vec![5], vec![]);
    assert_eq!(ta.get_type(&Variable(5)).ptype, PType { bits: 0x41 });
}

#[test]
fn begin_function_marks_the_instruction_as_constructing() {
    let mut ta = TypeAnalyzer::new();
    let mut sig = FunctionSignature::new(0);
    sig.done_constructing();
    let mut inst = Instruction::new(
        0,
        Operation::BeginFunctionDefinition(BeginFunctionDefinition(sig)),
        vec![],
        vec![Variable(0)],
        vec![],
    );
    ta.analyze(&mut inst);
    match &inst.operation {
        Operation::BeginFunctionDefinition(op) => assert!(op.0.is_constructing()),
        _ => panic!("the operation changed"),
    }
}

#[test]
fn math_random_gives_a_float() {
    let math = Type::obj(Shape::math().union(Shape::statik()));
    let mut ta = TypeAnalyzer::new();
    analyze(
        &mut ta,
        Operation::LoadBuiltin(LoadBuiltin(
            ConstructorType::NonCallable("Math".to_string(), math),
            0,
        )),
        vec![],
        vec![0],
        vec![],
    );
    assert_eq!(ta.get_type(&Variable(0)), math);
    let random = MethodSignature::new("random", math, vec![], Type::float_type());
    analyze(&mut ta, Operation::MethodCall(MethodCall(random, 0)), vec![0], vec![1], vec![]);
    assert_eq!(ta.get_type(&Variable(1)), Type::float_type());
}

#[test]
fn method_call_promotes_unknown_arguments_cyclically() {
    let mut ta = TypeAnalyzer::new();
    for v in 0..4 {
        ta.set_type(&Variable(v), Type::unknown_type());
    }
    let sig = MethodSignature::new(
        "fill",
        Type::array_type(),
        vec![MethodArg::Type(Type::int_type()), MethodArg::Repeat(2, Type::string_type())],
        Type::array_type(),
    );
    analyze(&mut ta, Operation::MethodCall(MethodCall(sig, 3)), vec![0, 1, 2, 3], vec![4], vec![]);
    assert_eq!(ta.get_type(&Variable(0)), Type::unknown_type());
    assert_eq!(ta.get_type(&Variable(1)).ptype, PType { bits: 0x41 });
    assert_eq!(ta.get_type(&Variable(2)).ptype, PType { bits: 0x44 });
    assert_eq!(ta.get_type(&Variable(3)).ptype, PType { bits: 0x41 });
    assert_eq!(ta.get_type(&Variable(4)), Type::array_type());
}

#[test]
fn elements_and_properties() {
    let mut ta = TypeAnalyzer::new();
    for v in 0..6 {
        ta.set_type(&Variable(v), Type::unknown_type());
    }
    analyze(&mut ta, Operation::LoadElement, vec![0, 1], vec![10], vec![]);
    assert_eq!(ta.get_type(&Variable(0)).shape, Shape::array());
    assert!(ta.get_type(&Variable(0)).is_object());
    assert!(ta.get_type(&Variable(1)).is_int());
    assert_eq!(ta.get_type(&Variable(10)).ptype, PType { bits: 0x83 });
    assert_eq!(ta.get_type(&Variable(10)).shape, Shape::any());
    analyze(&mut ta, Operation::StoreElement, vec![2, 3, 4], vec![], vec![]);
    assert_eq!(ta.get_type(&Variable(2)).shape, Shape::array());
    assert!(ta.get_type(&Variable(3)).is_int());
    assert_eq!(ta.get_type(&Variable(4)).ptype, PType { bits: 0xc3 });
    analyze(&mut ta, Operation::LoadProperty("a".to_string()), vec![5], vec![11], vec![]);
    assert!(ta.get_type(&Variable(5)).is_object());
    assert_eq!(ta.get_type(&Variable(5)).shape, Shape::any());
    assert_eq!(ta.get_type(&Variable(11)).ptype, PType { bits: 0x83 });
}

#[test]
fn create_object_and_delete() {
    let mut ta = TypeAnalyzer::new();
    ta.set_type(&Variable(0), Type::unknown_type());
    ta.set_type(&Variable(1), Type::unknown_type());
    analyze(&mut ta, Operation::Delete(true), vec![0, 1], vec![], vec![]);
    assert!(ta.get_type(&Variable(1)).is_int());
    assert_eq!(ta.get_type(&Variable(0)).shape, Shape::custom());
    analyze(
        &mut ta,
        Operation::CreateObject(zebra::ir::operation::CreateObject(vec![])),
        vec![],
        vec![2],
        vec![],
    );
    assert_eq!(
        ta.get_type(&Variable(2)),
        Type { ptype: PType::object(), shape: Shape::custom() }
    );
}

#[test]
fn copy_takes_the_type_of_the_source() {
    let mut ta = TypeAnalyzer::new();
    ta.set_type(&Variable(0), Type::unknown_type());
    ta.set_type(&Variable(1), Type::array_type());
    analyze(&mut ta, Operation::Copy, vec![0, 1], vec![], vec![]);
    assert_eq!(
        ta.get_type(&Variable(0)),
        Type { ptype: PType { bits: 0xc0 }, shape: Shape::array() }
    );
}

#[test]
fn loop_counter_is_int_float_or_bool() {
    let mut ta = TypeAnalyzer::new();
    analyze(
        &mut ta,
        Operation::BeginFor(zebra::ir::operation::BeginFor(
            "++".to_string(),
            zebra::ir::operators::Comparators::LessThan,
        )),
        vec![0, 1, 2],
        vec![],
        vec![3],
    );
    assert_eq!(ta.get_type(&Variable(3)).ptype, PType { bits: 0x0b });
}
