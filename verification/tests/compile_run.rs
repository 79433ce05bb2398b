//! End to end behaviour: compile a source text to a module and run it
//! with the interpreter, checking exit values and diagnostics.

use rcc2::compile;
use rcc2::interp::{run_main, RunError};
use rcc2::ir::{CodeGenError, Environment, IntVariable, PointerValue, Variable};
use rcc2::CompileError;

fn run(src: &str, expect: u32) {
    let module = compile(src.to_string()).unwrap();
    assert_eq!(run_main(&module, 64), Ok(expect));
}

#[test]
fn test_addition() {
    run("int main(){ return 1+2; }", 3);
}

#[test]
fn test_subtraction() {
    run("int main(){ return 8-3; }", 5);
}

#[test]
fn test_multiplication() {
    run("int main(){ return 1*2; }", 2);
}

#[test]
fn test_division() {
    run("int main(){ return 12/2; }", 6);
}

#[test]
fn test_multi_term() {
    run("int main(){ return 1+2*3; }", 7);
}

#[test]
fn test_equal_precedence_chain() {
    run("int main(){ return 8/2*2-3; }", 5);
}

#[test]
fn test_left_associative_subtraction_value() {
    run("int main(){ return 8-3-2; }", 3);
}

#[test]
fn test_variable() {
    run("int main(){ int a; a=25; return a+1; }", 26);
}

#[test]
fn test_variable_initialized() {
    run("int main(){ int a; a=5; return a+1; }", 6);
}

#[test]
fn test_multi_statement() {
    run("int main(){ int a; a = 20; int b; b = 3; return a + b; }", 23);
}

#[test]
fn test_array() {
    run("int main(){ int a[2]; a[0]=11; a[1]=22; return a[0]+a[1]; }", 33);
}

#[test]
fn test_array_sum() {
    run("int main(){ int a[3]; a[0]=1; a[1]=2; a[2]=3; return a[0]+a[1]+a[2]; }", 6);
}

#[test]
fn test_array2() {
    run("int main(){ int a[2][2]; a[0][0] = 70; a[1][1] = 7; return a[0][0] + a[1][1]; }", 77);
}

#[test]
fn test_array3() {
    run("int main(){ int a[2][3]; a[1][2] = 70; a[0][1] = 2; return a[1][2] + a[0][1]; }", 72);
}

#[test]
fn test_function_call() {
    run("int plus(int x, int y){ return x+y; } int main(){ return plus(4,6); }", 10);
}

#[test]
fn test_function_call2() {
    run("int times(int x, int y){ return x * y; } int main(){ return times(5, 7); }", 35);
}

#[test]
fn test_pointer() {
    run("int main(){ int *a; a = 24; return *a; }", 24);
}

#[test]
fn test_address_of_loads_value() {
    run("int main(){ int a; a = 9; return &a; }", 9);
}

#[test]
fn test_wrapping_arithmetic() {
    run("int main(){ return 4294967295 + 2; }", 1);
}

#[test]
fn test_array_redefinition_rejected() {
    let r = compile("int main(){ int a[2]; int a[3]; return 0; }".to_string());
    assert_eq!(
        r,
        Err(CompileError::CodeGen(CodeGenError::Redefinition("a".to_string()))),
    );
}

#[test]
fn test_scalar_redefinition_silently_rebinds() {
    run("int main(){ int a; int a; a = 4; return a; }", 4);
}

#[test]
fn test_undeclared_identifier_rejected() {
    let r = compile("int main(){ return x; }".to_string());
    assert_eq!(
        r,
        Err(CompileError::CodeGen(CodeGenError::UndeclaredIdentifier("x".to_string()))),
    );
}

#[test]
fn test_undeclared_assignment_target_rejected() {
    let r = compile("int main(){ x = 1; return 0; }".to_string());
    assert_eq!(
        r,
        Err(CompileError::CodeGen(CodeGenError::UndeclaredIdentifier("x".to_string()))),
    );
}

#[test]
fn test_forward_reference_rejected() {
    let r = compile(
        "int main(){ return plus(1,2); } int plus(int x, int y){ return x+y; }".to_string(),
    );
    assert_eq!(
        r,
        Err(CompileError::CodeGen(CodeGenError::UndefinedReference("plus".to_string()))),
    );
}

#[test]
fn test_assign_to_call_rejected() {
    let r = compile(
        "int f(int x){ return x; } int main(){ f(1) = 2; return 0; }".to_string(),
    );
    assert_eq!(r, Err(CompileError::CodeGen(CodeGenError::AssignToCall)));
}

#[test]
fn test_huge_literal_rejected() {
    let r = compile("int main(){ return 99999999999999999999; }".to_string());
    assert_eq!(r, Err(CompileError::CodeGen(CodeGenError::BadLiteral)));
}

#[test]
fn test_division_by_zero_stops_the_run() {
    let module = compile("int main(){ return 1/0; }".to_string()).unwrap();
    assert_eq!(run_main(&module, 64), Err(RunError::DivByZero));
}

#[test]
fn test_missing_return_stops_the_run() {
    let module = compile("int main(){ int a; a = 1; }".to_string()).unwrap();
    assert_eq!(run_main(&module, 64), Err(RunError::MissingReturn));
}

#[test]
fn test_self_call_runs_out_of_fuel() {
    let module = compile("int f(int x){ return f(x); } int main(){ return f(1); }".to_string())
        .unwrap();
    assert_eq!(run_main(&module, 16), Err(RunError::OutOfFuel));
}

#[test]
fn test_module_without_main_cannot_run() {
    let module = compile("int f(int x){ return x; }".to_string()).unwrap();
    assert_eq!(run_main(&module, 64), Err(RunError::BadFunction));
}

#[test]
fn test_out_of_bounds_index_stops_the_run() {
    let module = compile("int main(){ int a[2]; a[5] = 1; return 0; }".to_string()).unwrap();
    assert_eq!(run_main(&module, 64), Err(RunError::BadAddress));
}

#[test]
fn test_environment_shadow_by_overwrite() {
    let mut env = Environment::new();
    assert!(env.get(&"a".to_string()).is_none());
    env.update(
        "a".to_string(),
        Variable::Int(IntVariable { name: "a".to_string(), pointer: PointerValue { id: 0 } }),
    );
    env.update(
        "b".to_string(),
        Variable::Int(IntVariable { name: "b".to_string(), pointer: PointerValue { id: 1 } }),
    );
    env.update(
        "a".to_string(),
        Variable::Int(IntVariable { name: "a".to_string(), pointer: PointerValue { id: 2 } }),
    );
    assert_eq!(
        env.get(&"a".to_string()),
        Some(Variable::Int(IntVariable { name: "a".to_string(), pointer: PointerValue { id: 2 } })),
    );
    assert_eq!(
        env.get(&"b".to_string()),
        Some(Variable::Int(IntVariable { name: "b".to_string(), pointer: PointerValue { id: 1 } })),
    );
    assert!(env.get(&"c".to_string()).is_none());
}

#[test]
fn test_declaration_with_initializer() {
    run("int main(){ int a = 5; return a + 2; }", 7);
}

#[test]
fn test_infix_address_operator_rejected() {
    let r = compile("int main(){ return 1 & 2; }".to_string());
    assert_eq!(
        r,
        Err(CompileError::CodeGen(CodeGenError::OperatorNotImplemented("&".to_string()))),
    );
}

#[test]
fn test_literal_assign_target_rejected() {
    let r = compile("int main(){ 1 = 2; return 0; }".to_string());
    assert_eq!(r, Err(CompileError::CodeGen(CodeGenError::NotAnIdentifier)));
}

#[test]
fn test_expression_assign_target_rejected() {
    let r = compile("int main(){ int a; int b; a + b = 2; return 0; }".to_string());
    assert_eq!(r, Err(CompileError::CodeGen(CodeGenError::InvalidAssignTarget)));
}

#[test]
fn test_trailing_tokens_are_ignored() {
    run("int main(){ return 1; } stray", 1);
}

#[test]
fn test_oversized_array_stops_the_run() {
    let module = compile(
        "int main(){ int a[4294967295][4294967295][4294967295]; return 0; }".to_string(),
    )
    .unwrap();
    assert_eq!(run_main(&module, 64), Err(RunError::SizeOverflow));
}

#[test]
fn test_parameters_bind_in_order() {
    run("int diff(int x, int y){ return x - y; } int main(){ return diff(9, 4); }", 5);
}
