use zebra::ir::codeanalysis::analyzers::{ContextAnalyzer, Nest, ScopeAnalyzer};
use zebra::ir::codeanalysis::types::FunctionSignature;
use zebra::ir::instruction::Instruction;
use zebra::ir::operation::{BeginElse, BeginFor, BeginFunctionDefinition, Operation};
use zebra::ir::operators::Comparators;
use zebra::ir::variable::Variable;

fn plain(operation: Operation) -> Instruction {
    Instruction::new(0, operation, vec![], vec![], vec![])
}

fn begin_for() -> Instruction {
    Instruction::new(
        0,
        Operation::BeginFor(BeginFor("++".to_string(), Comparators::LessThan)),
        vec![Variable(0), Variable(1), Variable(2)],
        vec![],
        vec![Variable(10)],
    )
}

fn begin_function(args: u8) -> Instruction {
    let temps = (0..args as u32).map(|i| Variable(100 + i)).collect();
    Instruction::new(
        0,
        Operation::BeginFunctionDefinition(BeginFunctionDefinition(FunctionSignature::new(args))),
        vec![],
        vec![Variable(99)],
        temps,
    )
}

#[test]
fn context_starts_global() {
    let ca = ContextAnalyzer::new();
    assert_eq!(ca.context, vec![1]);
    assert!(ca.in_global());
    assert!(!ca.in_loop());
    assert!(!ca.in_function());
}

#[test]
fn first_loop_marks_the_top_and_a_nested_loop_pushes() {
    let mut ca = ContextAnalyzer::new();
    ca.analyze(&begin_for());
    assert_eq!(ca.context, vec![3]);
    assert!(ca.in_loop());
    assert!(ca.in_global());
    ca.analyze(&begin_for());
    assert_eq!(ca.context, vec![3, 2]);
    assert!(ca.in_loop());
    assert!(!ca.in_global());
    ca.analyze(&plain(Operation::EndFor));
    assert_eq!(ca.context, vec![3]);
    ca.analyze(&plain(Operation::EndFor));
    assert_eq!(ca.context, vec![1]);
    assert!(!ca.in_loop());
}

#[test]
fn function_always_pushes_and_its_end_pops() {
    let mut ca = ContextAnalyzer::new();
    ca.analyze(&begin_for());
    ca.analyze(&begin_function(2));
    assert_eq!(ca.context, vec![3, 4]);
    assert!(ca.in_function());
    assert!(!ca.in_loop());
    ca.analyze(&begin_for());
    assert_eq!(ca.context, vec![3, 6]);
    assert!(ca.in_function());
    assert!(ca.in_loop());
    ca.analyze(&plain(Operation::EndFor));
    assert_eq!(ca.context, vec![3, 4]);
    ca.analyze(&plain(Operation::EndFunctionDefinition));
    assert_eq!(ca.context, vec![3]);
    assert!(!ca.in_function());
}

#[test]
fn second_loop_in_a_function_hides_the_function() {
    let mut ca = ContextAnalyzer::new();
    ca.analyze(&begin_function(0));
    ca.analyze(&begin_for());
    ca.analyze(&begin_for());
    assert_eq!(ca.context, vec![1, 6, 2]);
    assert!(!ca.in_function());
    assert!(ca.in_loop());
}

#[test]
fn if_blocks_do_not_change_the_context() {
    let mut ca = ContextAnalyzer::new();
    let begin_if = Instruction::new(0, Operation::BeginIf, vec![Variable(0)], vec![], vec![]);
    ca.analyze(&begin_if);
    ca.analyze(&plain(Operation::BeginElse(BeginElse())));
    ca.analyze(&plain(Operation::EndIf));
    assert_eq!(ca.context, vec![1]);
}

#[test]
fn nest_values_are_distinct() {
    assert_ne!(Nest::Loop, Nest::Function);
}

#[test]
fn scopes_follow_blocks() {
    let mut sa = ScopeAnalyzer::new();
    assert_eq!(sa.get_all_scopes().len(), 1);
    let load = Instruction::new(0, Operation::LoadInt(7), vec![], vec![Variable(0)], vec![]);
    sa.analyze(&load);
    assert_eq!(sa.get_inner_variables(), &vec![Variable(0)]);
    sa.analyze(&begin_for());
    assert_eq!(sa.get_all_scopes().len(), 2);
    assert_eq!(sa.get_inner_variables(), &vec![Variable(10)]);
    assert_eq!(sa.get_outer_variables(), &[vec![Variable(0)]]);
    assert_eq!(sa.get_visible_variables(), vec![Variable(0), Variable(10)]);
    let load = Instruction::new(0, Operation::LoadInt(8), vec![], vec![Variable(11)], vec![]);
    sa.analyze(&load);
    assert_eq!(sa.get_visible_variables(), vec![Variable(0), Variable(10), Variable(11)]);
    sa.analyze(&plain(Operation::EndFor));
    assert_eq!(sa.get_all_scopes().len(), 1);
    assert_eq!(sa.get_visible_variables(), vec![Variable(0)]);
}

#[test]
fn function_output_lands_in_the_enclosing_scope() {
    let mut sa = ScopeAnalyzer::new();
    sa.analyze(&begin_function(2));
    assert_eq!(sa.get_outer_variables(), &[vec![Variable(99)]]);
    assert_eq!(sa.get_inner_variables(), &vec![Variable(100), Variable(101)]);
    sa.analyze(&plain(Operation::EndFunctionDefinition));
    assert_eq!(sa.get_visible_variables(), vec![Variable(99)]);
}

#[test]
fn else_replaces_the_scope_of_the_branch() {
    let mut sa = ScopeAnalyzer::new();
    let begin_if = Instruction::new(0, Operation::BeginIf, vec![Variable(0)], vec![], vec![]);
    sa.analyze(&begin_if);
    let load = Instruction::new(0, Operation::LoadInt(8), vec![], vec![Variable(1)], vec![]);
    sa.analyze(&load);
    sa.analyze(&plain(Operation::BeginElse(BeginElse())));
    assert_eq!(sa.get_all_scopes().len(), 2);
    assert!(sa.get_inner_variables().is_empty());
    sa.analyze(&plain(Operation::EndIf));
    assert_eq!(sa.get_all_scopes().len(), 1);
}
