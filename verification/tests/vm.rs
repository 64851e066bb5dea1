use std::collections::VecDeque;

use stack_vm::error::VmError;
use stack_vm::token::instruction::Instruction;
use stack_vm::token::operand::{FloatRequest, Operand, Scalar};
use stack_vm::token::Token;
use stack_vm::vm::{Status, Vm};

const HALT: Token = Token::Instruction(Instruction::Halt);
const PUSH: Token = Token::Instruction(Instruction::Push);
const POP: Token = Token::Instruction(Instruction::Pop);
const DUP: Token = Token::Instruction(Instruction::Dup);
const ADD: Token = Token::Instruction(Instruction::Add);
const SUB: Token = Token::Instruction(Instruction::Sub);
const MUL: Token = Token::Instruction(Instruction::Mul);
const DIV: Token = Token::Instruction(Instruction::Div);
const NOT: Token = Token::Instruction(Instruction::Not);
const AND: Token = Token::Instruction(Instruction::And);
const OR: Token = Token::Instruction(Instruction::Or);
const ISEQ: Token = Token::Instruction(Instruction::Iseq);
const ISGT: Token = Token::Instruction(Instruction::Isgt);
const ISGE: Token = Token::Instruction(Instruction::Isge);
const JMP: Token = Token::Instruction(Instruction::Jmp);
const JIF: Token = Token::Instruction(Instruction::Jif);
const LOAD: Token = Token::Instruction(Instruction::Load);
const STORE: Token = Token::Instruction(Instruction::Store);
const RET: Token = Token::Instruction(Instruction::Ret);
const CALL: Token = Token::Instruction(Instruction::Call);
const WRITE: Token = Token::Instruction(Instruction::Write);

fn tint(v: i64) -> Token {
    Token::data(Operand::Int(v))
}

fn tbool(v: bool) -> Token {
    Token::data(Operand::Bool(v))
}

fn tstr(v: String) -> Token {
    Token::data(Operand::Str(v))
}

fn tfloat(v: f64) -> Token {
    Token::data(Operand::Float(v.to_bits()))
}

fn stack(tokens: Vec<Token>) -> VecDeque<Token> {
    let mut deque = VecDeque::new();
    for t in tokens {
        deque.push_back(t);
    }
    deque
}

fn number(s: Scalar) -> f64 {
    match s {
        Scalar::Int(v) => v as f64,
        Scalar::Float(bits) => f64::from_bits(bits),
    }
}

fn float_unit(q: FloatRequest) -> u64 {
    let (l, r) = (number(q.lhs), number(q.rhs));
    let v = match q.op {
        Instruction::Add => l + r,
        Instruction::Sub => l - r,
        Instruction::Mul => l * r,
        Instruction::Div => l / r,
        _ => unreachable!(),
    };
    v.to_bits()
}

/// Drives the machine until it halts or fails; collects what it writes.
fn drive(vm: &mut Vm) -> Result<Vec<Token>, VmError> {
    let mut written = Vec::new();
    loop {
        match vm.run(1000)? {
            Status::Halted => return Ok(written),
            Status::Running => panic!("the program did not halt within the budget"),
            Status::Write(t) => written.push(t),
            Status::Float(q) => {
                assert!(vm.resume(float_unit(q)));
            }
        }
    }
}

fn run(vm: &mut Vm) {
    drive(vm).unwrap();
}

#[test]
fn push_halt() {
    let mut vm = Vm::new(vec![PUSH, tint(10), PUSH, tint(12), HALT]);
    run(&mut vm);
    assert_eq!(vm.ip(), 5);
    assert!(vm.halted());

    assert_eq!(*vm.stack(), stack(vec![tint(12), tint(10)]));
}

#[test]
fn add() {
    let mut vm = Vm::new(vec![PUSH, tint(10), PUSH, tint(12), ADD, HALT]);
    run(&mut vm);
    assert_eq!(vm.ip(), 6);
    assert!(vm.halted());
    assert_eq!(*vm.stack(), stack(vec![tint(22)]));
}

#[test]
fn sub() {
    let mut vm = Vm::new(vec![PUSH, tint(10), PUSH, tint(12), SUB, HALT]);
    run(&mut vm);
    assert_eq!(vm.ip(), 6);
    assert!(vm.halted());
    assert_eq!(*vm.stack(), stack(vec![tint(-2)]));
}

#[test]
fn mul() {
    let mut vm = Vm::new(vec![PUSH, tint(10), PUSH, tint(12), MUL, HALT]);
    run(&mut vm);
    assert_eq!(vm.ip(), 6);
    assert!(vm.halted());
    assert_eq!(*vm.stack(), stack(vec![tint(120)]));
}

#[test]
fn divide() {
    let mut vm = Vm::new(vec![PUSH, tint(20), PUSH, tint(2), DIV, HALT]);
    run(&mut vm);
    assert_eq!(vm.ip(), 6);
    assert!(vm.halted());
    assert_eq!(*vm.stack(), stack(vec![tint(10)]));
}

#[test]
#[should_panic]
fn test_no_sufficient_params() {
    let mut vm = Vm::new(vec![SUB, HALT]);
    run(&mut vm);
}

#[test]
fn evaluate_expressions() {
    // 1 2 3 MUL ADD 7 DIV => (1 + 2 * 3) / 7
    let mut vm = Vm::new(vec![
        PUSH,
        tint(1),
        PUSH,
        tint(2),
        PUSH,
        tint(3),
        MUL,
        ADD,
        PUSH,
        tint(7),
        DIV,
        HALT,
    ]);
    run(&mut vm);
    assert_eq!(vm.ip(), 12);
    assert!(vm.halted());
    assert_eq!(*vm.stack(), stack(vec![tint(1)]));
}

#[test]
fn test_not() {
    let mut vm = Vm::new(vec![PUSH, tbool(true), NOT, HALT]);
    run(&mut vm);
    assert!(vm.halted());
    assert_eq!(vm.ip(), 4);
    assert_eq!(*vm.stack(), stack(vec![tbool(false)]));

    let mut vm = Vm::new(vec![PUSH, tbool(false), NOT, HALT]);
    run(&mut vm);
    assert!(vm.halted());
    assert_eq!(vm.ip(), 4);
    assert_eq!(*vm.stack(), stack(vec![tbool(true)]));
}

#[test]
#[should_panic]
fn uniary_inseffiient() {
    let mut vm = Vm::new(vec![NOT, HALT]);
    run(&mut vm);
}

#[test]
fn test_and_true() {
    let mut vm = Vm::new(vec![PUSH, tbool(true), PUSH, tbool(true), AND, HALT]);
    run(&mut vm);
    assert!(vm.halted());
    assert_eq!(vm.ip(), 6);
    assert_eq!(*vm.stack(), stack(vec![tbool(true)]));
}

#[test]
fn test_or() {
    let mut vm = Vm::new(vec![PUSH, tbool(true), PUSH, tbool(false), OR, HALT]);
    run(&mut vm);
    assert!(vm.halted());
    assert_eq!(vm.ip(), 6);
    assert_eq!(*vm.stack(), stack(vec![tbool(true)]));
}

#[test]
fn test_pop() {
    let mut vm = Vm::new(vec![PUSH, tint(1), POP, HALT]);
    run(&mut vm);
    assert!(vm.halted());
    assert_eq!(vm.ip(), 4);
    assert!(vm.stack().is_empty())
}

#[test]
#[should_panic]
fn test_pop_insufficient() {
    let mut vm = Vm::new(vec![POP, HALT]);
    vm.step().unwrap();
}

#[test]
fn test_dup() {
    let mut vm = Vm::new(vec![PUSH, tint(1), DUP, HALT]);
    run(&mut vm);
    assert!(vm.halted());
    assert_eq!(vm.ip(), 4);
    assert_eq!(*vm.stack(), stack(vec![tint(1), tint(1)]));
}

#[test]
fn test_is_greater() {
    let mut vm = Vm::new(vec![PUSH, tint(1), PUSH, tint(2), ISGT, HALT]);
    run(&mut vm);
    assert!(vm.halted());
    assert_eq!(vm.ip(), 6);
    assert_eq!(*vm.stack(), stack(vec![tbool(false)]));

    let mut vm = Vm::new(vec![PUSH, tint(2), PUSH, tint(1), ISGT, HALT]);
    run(&mut vm);
    assert!(vm.halted());
    assert_eq!(vm.ip(), 6);
    assert_eq!(*vm.stack(), stack(vec![tbool(true)]));
}

#[test]
fn test_is_greater_eq() {
    let mut vm = Vm::new(vec![PUSH, tint(3), PUSH, tint(2), ISGE, HALT]);
    run(&mut vm);
    assert!(vm.halted());
    assert_eq!(vm.ip(), 6);
    assert_eq!(*vm.stack(), stack(vec![tbool(true)]));

    let mut vm = Vm::new(vec![PUSH, tint(2), PUSH, tint(1), ISGE, HALT]);
    run(&mut vm);
    assert!(vm.halted());
    assert_eq!(vm.ip(), 6);
    assert_eq!(*vm.stack(), stack(vec![tbool(true)]));
}

#[test]
fn test_is_eq() {
    let mut vm = Vm::new(vec![PUSH, tint(1), PUSH, tint(1), ISEQ, HALT]);
    run(&mut vm);
    assert!(vm.halted());
    assert_eq!(vm.ip(), 6);
    assert_eq!(*vm.stack(), stack(vec![tbool(true)]));

    let mut vm = Vm::new(vec![PUSH, tint(2), PUSH, tint(1), ISEQ, HALT]);
    run(&mut vm);
    assert!(vm.halted());
    assert_eq!(vm.ip(), 6);
    assert_eq!(*vm.stack(), stack(vec![tbool(false)]));
}

#[test]
fn test_jump() {
    let mut vm = Vm::new(vec![JMP, tint(3), HALT, JMP, tint(2)]);
    run(&mut vm);
    assert!(vm.halted());
    assert_eq!(vm.ip(), 3);
}

#[test]
fn test_jump_conditional() {
    let mut vm = Vm::new(vec![
        PUSH,
        tbool(true),
        JIF,
        tint(5),
        POP,
        PUSH,
        tbool(false),
        JIF,
        tint(4),
        HALT,
    ]);
    run(&mut vm);
    assert!(vm.halted());
    assert_eq!(vm.ip(), 10);
}

#[test]
fn test_load() {
    let mut vm = Vm::new(vec![LOAD, tstr(String::from("a")), HALT]);
    run(&mut vm);
    assert!(vm.halted());
    assert_eq!(vm.ip(), 3);
}

#[test]
fn test_store() {
    let mut vm = Vm::new(vec![PUSH, tint(42), STORE, tstr(String::from("a")), HALT]);
    run(&mut vm);
    assert!(vm.halted());
    assert_eq!(vm.ip(), 5);
    assert!(vm.stack().is_empty());
    assert_eq!(vm.current_frame().values(), vec![42]);
}

#[test]
fn test_store_and_load() {
    let mut vm = Vm::new(vec![
        PUSH,
        tint(42),
        STORE,
        tstr(String::from("a")),
        LOAD,
        tstr(String::from("a")),
        HALT,
    ]);
    run(&mut vm);
    assert!(vm.halted());
    assert_eq!(vm.ip(), 7);
    assert_eq!(vm.current_frame().values(), vec![42]);
    assert_eq!(*vm.stack(), stack(vec![tint(42)]));
}

#[test]
#[should_panic]
fn test_load_panic() {
    let mut vm = Vm::new(vec![LOAD]);
    run(&mut vm);
}

#[test]
#[should_panic]
fn test_store_panic() {
    let mut vm = Vm::new(vec![STORE]);
    run(&mut vm);
}

#[test]
#[should_panic]
fn test_store_panic2() {
    let mut vm = Vm::new(vec![STORE, tint(0), HALT]);
    run(&mut vm);
}

#[test]
fn test_if() {
    // if (a > b) { c = a; } else { c = b; }
    let a = String::from("a");
    let b = String::from("b");
    let c = String::from("c");
    let mut vm = Vm::new(vec![
        // Init a with 6
        PUSH,
        tint(6),
        STORE,
        tstr(a.clone()),
        // Init b with 4
        PUSH,
        tint(4),
        STORE,
        tstr(b.clone()),
        // Load a and b on stack
        LOAD,
        tstr(a.clone()),
        LOAD,
        tstr(b.clone()),
        ISGT,
        JIF,
        tint(21),
        // Else path
        LOAD,
        tstr(b.clone()),
        STORE,
        tstr(c.clone()),
        JMP,
        tint(25),
        // The if path, at address 21
        LOAD,
        tstr(a.clone()),
        STORE,
        tstr(c.clone()),
        // Done, at address 25
        HALT,
    ]);
    run(&mut vm);
    assert!(vm.halted());
    assert!(vm.stack().is_empty());
    assert_eq!(vm.current_frame().get(a), 6);
    assert_eq!(vm.current_frame().get(b), 4);
    assert_eq!(vm.current_frame().get(c), 6);
}

#[test]
fn test_func_no_arguments_no_return() {
    let mut vm = Vm::new(vec![CALL, tint(3), HALT, RET]);
    run(&mut vm);
    assert!(vm.halted());
    assert_eq!(vm.ip(), 3);
    assert!(vm.stack().is_empty());
}

#[test]
fn test_func_no_arguments_with_return() {
    let mut vm = Vm::new(vec![CALL, tint(3), HALT, PUSH, tint(7), RET]);
    run(&mut vm);
    assert!(vm.halted());
    assert_eq!(vm.ip(), 3);
    assert_eq!(*vm.stack(), stack(vec![tint(7)]));
}

#[test]
fn test_func_with_arguments_return() {
    let mut vm = Vm::new(vec![
        PUSH,
        tint(3),
        CALL,
        tint(5),
        HALT,
        PUSH,
        tint(2),
        MUL,
        RET,
    ]);
    run(&mut vm);
    assert!(vm.halted());
    assert_eq!(vm.ip(), 5);
    assert_eq!(*vm.stack(), stack(vec![tint(6)]));
}

// int max(int a, int b) { if (a > b) { return a; } else { return b; } }
#[test]
fn test_max_ab() {
    let a = String::from("a");
    let b = String::from("b");
    let mut vm = Vm::new(vec![
        PUSH,
        tint(6), // First argument
        PUSH,
        tint(4), // Second argument
        CALL,
        tint(7), // Call the func
        HALT,
        STORE, // address 7
        tstr(b.clone()),
        STORE,
        tstr(a.clone()),
        LOAD,
        tstr(a.clone()),
        LOAD,
        tstr(b.clone()),
        ISGE,
        JIF,
        tint(21), // address 17
        LOAD,
        tstr(b.clone()),
        RET,
        LOAD, // address 21
        tstr(a.clone()),
        RET,
    ]);
    run(&mut vm);
    assert!(vm.halted());
    assert_eq!(vm.ip(), 7);
    assert_eq!(*vm.stack(), stack(vec![tint(6)]));
}

#[test]
fn test_write_stdout() {
    let mut vm = Vm::new(vec![PUSH, tint(3), WRITE, HALT]);
    let written = drive(&mut vm).unwrap();
    assert!(vm.halted());
    assert_eq!(vm.ip(), 4);
    assert_eq!(written, vec![tint(3)]);
    assert_eq!(*vm.stack(), stack(vec![tint(3)]));
}

// Every failure, with the machine left as it was.

fn fails_with(program: Vec<Token>, steps_before: usize, expected: VmError) {
    let mut vm = Vm::new(program);
    for _ in 0..steps_before {
        assert!(matches!(vm.step(), Ok(Status::Running)));
    }
    let ip = vm.ip();
    let stack_before = vm.stack().clone();
    let depth = vm.depth();
    assert_eq!(vm.step().unwrap_err(), expected);
    assert_eq!(vm.ip(), ip);
    assert_eq!(*vm.stack(), stack_before);
    assert_eq!(vm.depth(), depth);
    assert!(!vm.halted());
    // the run surfaces the same error and stops there
    assert_eq!(vm.run(10).unwrap_err(), expected);
    assert_eq!(vm.ip(), ip);
}

#[test]
fn fetch_past_the_end_is_out_of_bounds() {
    fails_with(vec![], 0, VmError::ProgramOutOfBounds);
    fails_with(vec![PUSH, tint(1)], 1, VmError::ProgramOutOfBounds);
    fails_with(vec![PUSH], 0, VmError::ProgramOutOfBounds);
    fails_with(vec![LOAD], 0, VmError::ProgramOutOfBounds);
    fails_with(vec![JMP, tint(7)], 1, VmError::ProgramOutOfBounds);
}

#[test]
fn executing_data_is_an_invalid_program_shape() {
    fails_with(vec![tint(1), HALT], 0, VmError::InvalidProgramShape);
    fails_with(vec![JMP, tint(1)], 1, VmError::InvalidProgramShape);
}

#[test]
fn too_few_operands_is_a_stack_underflow() {
    for op in [POP, DUP, NOT, WRITE, ADD, SUB, MUL, DIV, AND, OR, ISEQ, ISGT, ISGE] {
        fails_with(vec![op, HALT], 0, VmError::StackUnderflow);
    }
    for op in [ADD, SUB, MUL, DIV, AND, OR, ISEQ, ISGT, ISGE] {
        fails_with(vec![PUSH, tint(1), op, HALT], 1, VmError::StackUnderflow);
    }
    fails_with(vec![JIF, tint(0)], 0, VmError::StackUnderflow);
    fails_with(vec![STORE, tstr(String::from("a")), HALT], 0, VmError::StackUnderflow);
    fails_with(vec![STORE], 0, VmError::StackUnderflow);
}

#[test]
fn wrong_operand_types_are_a_type_mismatch() {
    fails_with(vec![PUSH, tint(1), PUSH, tbool(true), ADD], 2, VmError::TypeMismatch);
    fails_with(vec![PUSH, tstr(String::from("a")), PUSH, tstr(String::from("b")), SUB], 2, VmError::TypeMismatch);
    fails_with(vec![PUSH, Token::data(Operand::Null), PUSH, Token::data(Operand::Null), ADD], 2, VmError::TypeMismatch);
    fails_with(vec![PUSH, tint(1), PUSH, tint(0), AND], 2, VmError::TypeMismatch);
    fails_with(vec![PUSH, tint(1), PUSH, tfloat(1.0), ISGT], 2, VmError::TypeMismatch);
    fails_with(vec![PUSH, tbool(true), PUSH, tbool(false), ISGE], 2, VmError::TypeMismatch);
    fails_with(vec![PUSH, tint(1), NOT], 1, VmError::TypeMismatch);
    fails_with(vec![PUSH, tint(1), JIF, tint(0)], 1, VmError::TypeMismatch);
    fails_with(vec![JMP, tint(-1)], 0, VmError::TypeMismatch);
    fails_with(vec![JMP, tstr(String::from("x"))], 0, VmError::TypeMismatch);
    fails_with(vec![PUSH, tbool(true), JIF, tint(-3)], 1, VmError::TypeMismatch);
    fails_with(vec![LOAD, tint(0)], 0, VmError::TypeMismatch);
    fails_with(vec![PUSH, tint(1), STORE, tint(0)], 1, VmError::TypeMismatch);
}

#[test]
fn an_opcode_in_place_of_an_immediate_is_not_data() {
    fails_with(vec![PUSH, HALT], 0, VmError::NotData);
    fails_with(vec![JMP, HALT], 0, VmError::NotData);
    fails_with(vec![CALL, RET], 0, VmError::NotData);
    fails_with(vec![LOAD, LOAD], 0, VmError::NotData);
    fails_with(vec![PUSH, tint(1), STORE, HALT], 1, VmError::NotData);
    fails_with(vec![PUSH, tbool(false), JIF, HALT], 1, VmError::NotData);
}

#[test]
fn call_targets_are_validated() {
    fails_with(vec![CALL, tint(0), HALT], 0, VmError::InvalidCallTarget);
    fails_with(vec![CALL, tint(-1), HALT], 0, VmError::InvalidCallTarget);
    fails_with(vec![CALL, tint(3), HALT], 0, VmError::InvalidCallTarget);
    fails_with(vec![CALL, tint(i64::MAX), HALT], 0, VmError::InvalidCallTarget);
    fails_with(vec![CALL, tfloat(2.0), HALT], 0, VmError::InvalidCallTarget);
    fails_with(vec![CALL, tstr(String::from("f")), HALT], 0, VmError::InvalidCallTarget);
    // the last token is the largest valid target
    let mut vm = Vm::new(vec![CALL, tint(2), HALT]);
    assert!(matches!(vm.step(), Ok(Status::Running)));
    assert_eq!(vm.ip(), 2);
    assert_eq!(vm.depth(), 1);
    assert_eq!(vm.current_frame().return_address(), 2);
}

#[test]
fn return_from_the_base_frame_fails() {
    fails_with(vec![RET], 0, VmError::ReturnFromBaseFrame);
    fails_with(vec![CALL, tint(2), RET, RET], 2, VmError::ReturnFromBaseFrame);
}

#[test]
fn integer_division_by_zero_is_an_error() {
    fails_with(vec![PUSH, tint(1), PUSH, tint(0), DIV], 2, VmError::DivisionByZero);
}

#[test]
fn integer_overflow_is_an_error() {
    fails_with(vec![PUSH, tint(i64::MAX), PUSH, tint(1), ADD], 2, VmError::ArithmeticOverflow);
    fails_with(vec![PUSH, tint(i64::MIN), PUSH, tint(1), SUB], 2, VmError::ArithmeticOverflow);
    fails_with(vec![PUSH, tint(i64::MAX), PUSH, tint(2), MUL], 2, VmError::ArithmeticOverflow);
    fails_with(vec![PUSH, tint(i64::MIN), PUSH, tint(-1), DIV], 2, VmError::ArithmeticOverflow);
}

#[test]
fn integer_division_rounds_toward_zero() {
    for (a, b, q) in [(7, 2, 3), (-7, 2, -3), (7, -2, -3), (-7, -2, 3), (0, 5, 0), (i64::MIN, 1, i64::MIN)] {
        let mut vm = Vm::new(vec![PUSH, tint(a), PUSH, tint(b), DIV, HALT]);
        run(&mut vm);
        assert_eq!(*vm.stack(), stack(vec![tint(q)]));
    }
}

#[test]
fn the_operand_pushed_first_is_the_left_one() {
    let mut vm = Vm::new(vec![PUSH, tint(20), PUSH, tint(6), SUB, HALT]);
    run(&mut vm);
    assert_eq!(*vm.stack(), stack(vec![tint(14)]));
    let mut vm = Vm::new(vec![PUSH, tstr(String::from("ab")), PUSH, tstr(String::from("cd")), ADD, HALT]);
    run(&mut vm);
    assert_eq!(*vm.stack(), stack(vec![tstr(String::from("abcd"))]));
    let mut vm = Vm::new(vec![PUSH, tstr(String::from("b")), PUSH, tstr(String::from("a")), ISGT, HALT]);
    run(&mut vm);
    assert_eq!(*vm.stack(), stack(vec![tbool(true)]));
}

#[test]
fn float_arithmetic_goes_through_the_float_unit() {
    let mut vm = Vm::new(vec![PUSH, tint(1), PUSH, tfloat(2.5), ADD, HALT]);
    let status = vm.run(10).unwrap();
    let expected = FloatRequest { op: Instruction::Add, lhs: Scalar::Int(1), rhs: Scalar::Float(2.5f64.to_bits()) };
    assert!(matches!(status, Status::Float(q) if q == expected));
    assert_eq!(vm.pending(), Some(expected));
    assert_eq!(vm.ip(), 5);
    assert!(vm.stack().is_empty());
    // while it waits, the machine does not move
    assert!(matches!(vm.step(), Ok(Status::Float(q)) if q == expected));
    assert!(matches!(vm.run(10), Ok(Status::Float(q)) if q == expected));
    assert_eq!(vm.ip(), 5);
    assert!(vm.resume(float_unit(expected)));
    assert_eq!(vm.pending(), None);
    assert_eq!(*vm.stack(), stack(vec![tfloat(3.5)]));
    assert!(!vm.resume(0));
    assert_eq!(*vm.stack(), stack(vec![tfloat(3.5)]));
    assert!(matches!(vm.run(10), Ok(Status::Halted)));

    let mut vm = Vm::new(vec![PUSH, tfloat(2.5), PUSH, tint(1), ADD, HALT]);
    run(&mut vm);
    assert_eq!(*vm.stack(), stack(vec![tfloat(3.5)]));

    let mut vm = Vm::new(vec![PUSH, tfloat(1.0), PUSH, tfloat(4.0), DIV, PUSH, tint(3), MUL, PUSH, tfloat(0.25), SUB, HALT]);
    run(&mut vm);
    assert_eq!(*vm.stack(), stack(vec![tfloat(0.5)]));
}

#[test]
fn floats_compare_as_numbers() {
    let samples = [
        0.0, -0.0, 1.0, -1.0, 1.5, -1.5, f64::MIN_POSITIVE, -f64::MIN_POSITIVE, 5e-324, -5e-324,
        f64::MAX, f64::MIN, f64::INFINITY, f64::NEG_INFINITY, f64::NAN, -f64::NAN, 2.7, 1e300, -1e-300,
    ];
    for a in samples {
        for b in samples {
            for (op, expected) in [(ISGT, a > b), (ISGE, a >= b), (ISEQ, a == b)] {
                let mut vm = Vm::new(vec![PUSH, tfloat(a), PUSH, tfloat(b), op, HALT]);
                run(&mut vm);
                assert_eq!(*vm.stack(), stack(vec![tbool(expected)]), "{a} {b}");
            }
        }
    }
}

#[test]
fn operands_of_different_types_are_not_equal() {
    let mut vm = Vm::new(vec![PUSH, tint(1), PUSH, tbool(true), ISEQ, HALT]);
    run(&mut vm);
    assert_eq!(*vm.stack(), stack(vec![tbool(false)]));
    let mut vm = Vm::new(vec![PUSH, Token::data(Operand::Null), PUSH, Token::data(Operand::Null), ISEQ, HALT]);
    run(&mut vm);
    assert_eq!(*vm.stack(), stack(vec![tbool(true)]));
}

#[test]
fn dup_then_pop_leaves_the_stack_unchanged() {
    let mut vm = Vm::new(vec![PUSH, tint(4), PUSH, tstr(String::from("x")), DUP, POP, HALT]);
    assert!(matches!(vm.run(2), Ok(Status::Running)));
    let before = vm.stack().clone();
    assert!(matches!(vm.run(2), Ok(Status::Running)));
    assert_eq!(*vm.stack(), before);
    assert_eq!(vm.ip(), 6);
}

#[test]
fn a_store_is_invisible_to_other_frames() {
    let x = String::from("x");
    let mut vm = Vm::new(vec![
        PUSH,
        tint(1),
        STORE,
        tstr(x.clone()),
        CALL,
        tint(9),
        LOAD,
        tstr(x.clone()),
        HALT,
        LOAD, // address 9: x is not set in the new frame
        tstr(x.clone()),
        PUSH,
        tint(2),
        STORE,
        tstr(x.clone()),
        LOAD,
        tstr(x.clone()),
        RET,
    ]);
    run(&mut vm);
    assert_eq!(
        *vm.stack(),
        stack(vec![tint(1), tint(2), Token::data(Operand::Null)])
    );
    assert_eq!(vm.current_frame().get(x), 1);
    assert_eq!(vm.depth(), 0);
}

#[test]
fn a_variable_that_was_never_set_reads_as_null() {
    let mut vm = Vm::new(vec![LOAD, tstr(String::from("a")), HALT]);
    run(&mut vm);
    assert_eq!(*vm.stack(), stack(vec![Token::data(Operand::Null)]));
}

#[test]
fn a_false_condition_falls_through_whatever_the_target() {
    let mut vm = Vm::new(vec![PUSH, tbool(false), JIF, tstr(String::from("nowhere")), HALT]);
    run(&mut vm);
    assert_eq!(vm.ip(), 5);
    assert!(vm.stack().is_empty());
}

#[test]
fn the_budget_bounds_a_run() {
    let mut vm = Vm::new(vec![JMP, tint(0)]);
    assert!(matches!(vm.run(1000), Ok(Status::Running)));
    assert!(!vm.halted());
    assert_eq!(vm.ip(), 0);
    let mut vm = Vm::new(vec![PUSH, tint(1), PUSH, tint(2), HALT]);
    assert!(matches!(vm.run(0), Ok(Status::Running)));
    assert_eq!(vm.ip(), 0);
    assert!(matches!(vm.run(2), Ok(Status::Running)));
    assert_eq!(vm.ip(), 4);
    assert!(matches!(vm.run(1), Ok(Status::Halted)));
    assert_eq!(vm.ip(), 5);
    // a halted machine stays where it is
    assert!(matches!(vm.run(5), Ok(Status::Halted)));
    assert!(matches!(vm.step(), Ok(Status::Halted)));
    assert_eq!(vm.ip(), 5);
    assert_eq!(*vm.stack(), stack(vec![tint(2), tint(1)]));
}

#[test]
fn write_on_an_empty_stack_fails() {
    fails_with(vec![WRITE, HALT], 0, VmError::StackUnderflow);
}

#[test]
fn a_new_machine_is_at_the_start() {
    let vm = Vm::new(vec![HALT]);
    assert_eq!(vm.ip(), 0);
    assert!(!vm.halted());
    assert!(vm.stack().is_empty());
    assert_eq!(vm.depth(), 0);
    assert_eq!(vm.pending(), None);
    assert_eq!(vm.program().len(), 1);
    assert_eq!(vm.current_frame().return_address(), 0);
    assert!(vm.current_frame().values().is_empty());
}
