use stackvm::error::VmError;
use stackvm::value::{Numeric, Value};
use stackvm::vm::{ArithRequest, Op, Program, RunStop, Vm};

fn numeric(x: f64) -> Numeric {
    Numeric { bits: x.to_bits(), display: format!("{}", x), debug: format!("{:?}", x) }
}

fn num(x: f64) -> Value {
    Value::Number(numeric(x))
}

fn text(s: &str) -> Value {
    Value::String(s.to_string())
}

fn answer(request: ArithRequest) -> Numeric {
    let a = f64::from_bits(request.lhs_bits);
    let b = f64::from_bits(request.rhs_bits);
    let r = match request.op {
        Op::Add => a + b,
        Op::Sub => a - b,
        Op::Mul => a * b,
        Op::Div => a / b,
        Op::Mod => a % b,
        _ => panic!("not an arithmetic instruction"),
    };
    numeric(r)
}

fn run(vm: &mut Vm) -> Result<(), VmError> {
    loop {
        match vm.run_until_arith(1_000_000)? {
            RunStop::Halted => return Ok(()),
            RunStop::OutOfFuel => {}
            RunStop::NeedsArith(request) => {
                let n = answer(request);
                vm.run_next(Some(n))?;
            }
        }
    }
}

fn run_program(constants: Vec<Value>, ops: Vec<Op>) -> Result<Vm, VmError> {
    let mut vm = Vm::new(Program { constants, ops });
    run(&mut vm)?;
    Ok(vm)
}

fn top_bits(vm: &Vm) -> u64 {
    match vm.stack.last().expect("stack is empty") {
        Value::Number(n) => n.bits,
        other => panic!("top of stack is not a number: {}", other.get_type()),
    }
}

fn top_text(vm: &Vm) -> String {
    match vm.stack.last().expect("stack is empty") {
        Value::String(s) => s.clone(),
        other => panic!("top of stack is not a string: {}", other.get_type()),
    }
}

fn binary(a: f64, b: f64, op: Op) -> Vm {
    run_program(vec![num(a), num(b)], vec![Op::LoadConstant(0), Op::LoadConstant(1), op])
        .expect("run failed")
}

#[test]
fn add_numbers() {
    let vm = binary(2.0, 4.0, Op::Add);
    assert_eq!(top_bits(&vm), 6.0f64.to_bits());
    assert_eq!(vm.stack.len(), 1);
}

#[test]
fn sub_numbers() {
    let vm = binary(2.0, 4.5, Op::Sub);
    assert_eq!(top_bits(&vm), (-2.5f64).to_bits());
}

#[test]
fn mul_numbers() {
    let vm = binary(3.0, 4.0, Op::Mul);
    assert_eq!(top_bits(&vm), 12.0f64.to_bits());
}

#[test]
fn div_numbers() {
    let vm = binary(1.0, 4.0, Op::Div);
    assert_eq!(top_bits(&vm), 0.25f64.to_bits());
}

#[test]
fn div_by_zero_is_infinity() {
    let vm = binary(1.0, 0.0, Op::Div);
    assert_eq!(top_bits(&vm), f64::INFINITY.to_bits());
}

#[test]
fn zero_div_zero_is_nan() {
    let vm = binary(0.0, 0.0, Op::Div);
    assert!(f64::from_bits(top_bits(&vm)).is_nan());
}

#[test]
fn mod_numbers() {
    let vm = binary(7.0, 3.0, Op::Mod);
    assert_eq!(top_bits(&vm), 1.0f64.to_bits());
}

#[test]
fn mod_negative_follows_remainder() {
    let vm = binary(-7.0, 3.0, Op::Mod);
    assert_eq!(top_bits(&vm), (-1.0f64).to_bits());
}

#[test]
fn concat_string_then_number() {
    let vm = run_program(
        vec![text("x"), num(1.0)],
        vec![Op::LoadConstant(0), Op::LoadConstant(1), Op::Add],
    )
    .expect("run failed");
    assert_eq!(top_text(&vm), "x1");
}

#[test]
fn concat_number_then_string() {
    let vm = run_program(
        vec![num(1.0), text("x")],
        vec![Op::LoadConstant(0), Op::LoadConstant(1), Op::Add],
    )
    .expect("run failed");
    assert_eq!(top_text(&vm), "1x");
}

#[test]
fn concat_two_strings() {
    let vm = run_program(
        vec![text("ab"), text("cd")],
        vec![Op::LoadConstant(0), Op::LoadConstant(1), Op::Add],
    )
    .expect("run failed");
    assert_eq!(top_text(&vm), "abcd");
}

#[test]
fn concat_string_with_nil_and_bool() {
    let vm = run_program(
        vec![text("v="), Value::Nil],
        vec![Op::LoadConstant(0), Op::LoadConstant(1), Op::Add],
    )
    .expect("run failed");
    assert_eq!(top_text(&vm), "v=nil");
    let vm = run_program(
        vec![Value::Bool(true), text("!")],
        vec![Op::LoadConstant(0), Op::LoadConstant(1), Op::Add],
    )
    .expect("run failed");
    assert_eq!(top_text(&vm), "true!");
}

// Runs `TestNot` on the given value; the follow-up instruction pushes a
// marker, so the stack is empty exactly when the value was truthy.
fn test_not_skips(v: Value) -> bool {
    let vm = run_program(
        vec![v, Value::Nil],
        vec![Op::LoadConstant(0), Op::TestNot, Op::LoadConstant(1)],
    )
    .expect("run failed");
    vm.stack.is_empty()
}

#[test]
fn truthiness_of_falsy_values() {
    assert!(!test_not_skips(Value::Nil));
    assert!(!test_not_skips(Value::Bool(false)));
    assert!(!test_not_skips(num(0.0)));
    assert!(!test_not_skips(num(-0.0)));
    assert!(!test_not_skips(text("")));
}

#[test]
fn truthiness_of_truthy_values() {
    assert!(test_not_skips(Value::Bool(true)));
    assert!(test_not_skips(num(1.0)));
    assert!(test_not_skips(num(-2.5)));
    assert!(test_not_skips(num(f64::NAN)));
    assert!(test_not_skips(text("a")));
}

#[test]
fn is_truthy_directly() {
    assert!(!Value::Nil.is_truthy());
    assert!(!Value::Bool(false).is_truthy());
    assert!(!num(0.0).is_truthy());
    assert!(!num(-0.0).is_truthy());
    assert!(!text("").is_truthy());
    assert!(Value::Bool(true).is_truthy());
    assert!(num(f64::INFINITY).is_truthy());
    assert!(text(" ").is_truthy());
}

#[test]
fn global_round_trip() {
    let vm = run_program(
        vec![text("answer"), num(42.0)],
        vec![Op::LoadConstant(1), Op::SetGlobal(0), Op::GetGlobal(0)],
    )
    .expect("run failed");
    assert_eq!(top_bits(&vm), 42.0f64.to_bits());
    assert_eq!(vm.stack.len(), 1);
}

#[test]
fn global_last_write_wins() {
    let vm = run_program(
        vec![text("g"), num(1.0), num(2.0)],
        vec![
            Op::LoadConstant(1),
            Op::SetGlobal(0),
            Op::LoadConstant(2),
            Op::SetGlobal(0),
            Op::GetGlobal(0),
        ],
    )
    .expect("run failed");
    assert_eq!(top_bits(&vm), 2.0f64.to_bits());
}

#[test]
fn global_unbound_is_fatal() {
    let err = run_program(vec![text("missing")], vec![Op::GetGlobal(0)]).err().expect("expected a fatal error");
    assert!(matches!(err, VmError::UnboundGlobal));
}

#[test]
fn jump_zero_lands_next() {
    let vm = run_program(vec![num(1.0)], vec![Op::Jump(0), Op::LoadConstant(0)])
        .expect("run failed");
    assert_eq!(vm.stack.len(), 1);
    assert_eq!(top_bits(&vm), 1.0f64.to_bits());
}

#[test]
fn jump_minus_one_repeats_itself() {
    let mut vm = Vm::new(Program {
        constants: vec![num(1.0)],
        ops: vec![Op::LoadConstant(0), Op::Jump(-1)],
    });
    vm.run_next(None).expect("step failed");
    assert_eq!(vm.ip, 1);
    vm.run_next(None).expect("step failed");
    assert_eq!(vm.ip, 1, "the jump must land back on itself");
    vm.run_next(None).expect("step failed");
    assert_eq!(vm.ip, 1);
}

#[test]
fn infinite_loop_runs_out_of_fuel() {
    let mut vm = Vm::new(Program { constants: vec![], ops: vec![Op::Jump(0), Op::Jump(-1)] });
    vm.run_next(None).expect("step failed");
    assert_eq!(vm.ip, 1);
    let stop = vm.run_until_arith(100).expect("no fatal error expected");
    assert!(matches!(stop, RunStop::OutOfFuel));
}

#[test]
fn jump_far_past_end_halts() {
    // A forward jump whose target is representable but beyond the program
    // simply halts the machine: termination is purely pointer-range-based.
    let vm = run_program(vec![num(1.0)], vec![Op::Jump(isize::MAX), Op::LoadConstant(0)])
        .expect("run failed");
    assert!(vm.stack.is_empty());
}

#[test]
fn mod_by_zero_is_nan() {
    let vm = binary(7.0, 0.0, Op::Mod);
    assert!(f64::from_bits(top_bits(&vm)).is_nan());
}

#[test]
fn jump_before_start_is_fatal() {
    let err = run_program(vec![], vec![Op::Jump(-5)]).err().expect("expected a fatal error");
    assert!(matches!(err, VmError::InvalidJumpTarget));
}

#[test]
fn end_to_end_prints_debug_form() {
    let vm = run_program(
        vec![num(2.0), num(4.0)],
        vec![Op::LoadConstant(0), Op::LoadConstant(1), Op::Add, Op::Print],
    )
    .expect("run failed");
    assert_eq!(vm.output, vec!["Number(6.0)".to_string()]);
    assert!(vm.stack.is_empty());
}

#[test]
fn print_reveals_variant_not_display() {
    let vm = run_program(
        vec![text("x"), Value::Nil, Value::Bool(true)],
        vec![
            Op::LoadConstant(0),
            Op::Print,
            Op::LoadConstant(1),
            Op::Print,
            Op::LoadConstant(2),
            Op::Print,
        ],
    )
    .expect("run failed");
    assert_eq!(
        vm.output,
        vec!["String(\"x\")".to_string(), "Nil".to_string(), "Bool(true)".to_string()]
    );
}

#[test]
fn print_escapes_string_contents() {
    let vm = run_program(vec![text("a\"b\\c")], vec![Op::LoadConstant(0), Op::Print])
        .expect("run failed");
    assert_eq!(vm.output, vec!["String(\"a\\\"b\\\\c\")".to_string()]);
}

#[test]
fn underflow_on_add_with_one_value() {
    let err =
        run_program(vec![num(1.0)], vec![Op::LoadConstant(0), Op::Add]).err().expect("expected a fatal error");
    assert!(matches!(err, VmError::StackUnderflow));
}

#[test]
fn underflow_on_empty_stack() {
    assert!(matches!(
        run_program(vec![], vec![Op::Add]).err().expect("expected a fatal error"),
        VmError::StackUnderflow
    ));
    assert!(matches!(
        run_program(vec![], vec![Op::Print]).err().expect("expected a fatal error"),
        VmError::StackUnderflow
    ));
    assert!(matches!(
        run_program(vec![], vec![Op::TestNot]).err().expect("expected a fatal error"),
        VmError::StackUnderflow
    ));
    assert!(matches!(
        run_program(vec![text("g")], vec![Op::SetGlobal(0)]).err().expect("expected a fatal error"),
        VmError::StackUnderflow
    ));
}

#[test]
fn sub_on_strings_is_type_mismatch() {
    let err = run_program(
        vec![text("a"), text("b")],
        vec![Op::LoadConstant(0), Op::LoadConstant(1), Op::Sub],
    )
    .err().expect("expected a fatal error");
    match err {
        VmError::TypeMismatch { lhs, rhs } => {
            assert_eq!(lhs, "string");
            assert_eq!(rhs, "string");
        }
        other => panic!("expected a type mismatch, got {:?}", other),
    }
}

#[test]
fn add_nil_and_number_is_type_mismatch() {
    let err = run_program(
        vec![Value::Nil, num(1.0)],
        vec![Op::LoadConstant(0), Op::LoadConstant(1), Op::Add],
    )
    .err().expect("expected a fatal error");
    match err {
        VmError::TypeMismatch { lhs, rhs } => {
            assert_eq!(lhs, "nil");
            assert_eq!(rhs, "number");
        }
        other => panic!("expected a type mismatch, got {:?}", other),
    }
}

#[test]
fn type_mismatch_commits_nothing() {
    let mut vm = Vm::new(Program {
        constants: vec![text("a"), text("b")],
        ops: vec![Op::LoadConstant(0), Op::LoadConstant(1), Op::Sub],
    });
    let err = run(&mut vm).err().expect("expected a fatal error");
    assert!(matches!(err, VmError::TypeMismatch { .. }));
    assert_eq!(vm.stack.len(), 2, "a faulting instruction commits no stack effects");
    assert_eq!(vm.ip, 2);
}

#[test]
fn display_forms() {
    assert_eq!(Value::Nil.to_string(), "nil");
    assert_eq!(Value::Bool(true).to_string(), "true");
    assert_eq!(Value::Bool(false).to_string(), "false");
    assert_eq!(num(1.5).to_string(), "1.5");
    assert_eq!(num(1.0).to_string(), "1");
    assert_eq!(text("hi").to_string(), "hi");
}

#[test]
fn type_tags() {
    assert_eq!(Value::Nil.get_type(), "nil");
    assert_eq!(Value::Bool(false).get_type(), "bool");
    assert_eq!(num(0.0).get_type(), "number");
    assert_eq!(text("").get_type(), "string");
}

#[test]
fn debug_strings() {
    assert_eq!(Value::Nil.debug_string(), "Nil");
    assert_eq!(Value::Bool(false).debug_string(), "Bool(false)");
    assert_eq!(num(6.0).debug_string(), "Number(6.0)");
    assert_eq!(text("x1").debug_string(), "String(\"x1\")");
}

#[test]
fn set_global_names_number_constant_by_display() {
    // The binding name is the display string of the constant, whatever its
    // variant: a numeric constant binds under its decimal text.
    let vm = run_program(
        vec![num(7.0), num(3.0)],
        vec![Op::LoadConstant(1), Op::SetGlobal(0), Op::GetGlobal(0)],
    )
    .expect("run failed");
    assert_eq!(top_bits(&vm), 3.0f64.to_bits());
    assert!(vm.globals.contains_key("7"));
}

#[test]
fn test_not_then_jump_builds_a_branch() {
    // A conditional branch: if the tested value is falsy, the jump past the
    // branch body runs; if truthy, the body runs.
    let branch = |cond: Value| -> Vm {
        run_program(
            vec![cond, num(10.0), num(20.0)],
            vec![
                Op::LoadConstant(0),
                Op::TestNot,
                Op::Jump(1),
                Op::LoadConstant(1),
                Op::LoadConstant(2),
            ],
        )
        .expect("run failed")
    };
    let vm = branch(Value::Bool(true));
    assert_eq!(vm.stack.len(), 2);
    let vm = branch(Value::Bool(false));
    assert_eq!(vm.stack.len(), 1);
    assert_eq!(top_bits(&vm), 20.0f64.to_bits());
}
