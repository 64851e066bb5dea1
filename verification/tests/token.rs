use stack_vm::error::VmError;
use stack_vm::instruction;
use stack_vm::token::instruction::Instruction;
use stack_vm::token::operand::Operand;
use stack_vm::token::Token;

#[test]
fn test_to_operand() {
    let t = Token::Instruction(Instruction::Add);

    let o: Result<Operand, _> = t.into_data();
    assert!(o.is_err());

    let t = Token::Data(Operand::Null);
    let o: Result<Operand, _> = t.into_data();
    assert!(o.is_ok());
}

#[test]
fn test_to_bool() {
    let t = Token::Instruction(Instruction::Add);
    let o: Result<bool, _> = t.to_bool();
    assert!(o.is_err());

    let t = Token::Data(Operand::Null);
    let o: Result<bool, _> = t.to_bool();
    assert!(o.is_err());

    let t = Token::Data(Operand::Bool(true));
    let o: Result<bool, _> = t.to_bool();
    assert!(o.is_ok());
}

#[test]
fn data_of_a_token() {
    let t = Token::data(Operand::Int(5));
    assert_eq!(t, Token::Data(Operand::Int(5)));
    assert_eq!(t.get_data(), Ok(&Operand::Int(5)));
    assert_eq!(t.into_data(), Ok(Operand::Int(5)));
    let t = Token::Instruction(Instruction::Halt);
    assert_eq!(t.get_data(), Err(VmError::NotData));
    assert_eq!(t.into_data(), Err(VmError::NotData));
}

#[test]
fn truth_of_a_token() {
    assert_eq!(Token::Data(Operand::Bool(true)).to_bool(), Ok(true));
    assert_eq!(Token::Data(Operand::Bool(false)).to_bool(), Ok(false));
    assert_eq!(Token::Data(Operand::Int(1)).to_bool(), Err(VmError::TypeMismatch));
    assert_eq!(Token::Data(Operand::Str(String::from("true"))).to_bool(), Err(VmError::TypeMismatch));
    assert_eq!(Token::Instruction(Instruction::Not).to_bool(), Err(VmError::TypeMismatch));
}

#[test]
fn tokens_compare_by_value() {
    assert_eq!(Token::Instruction(Instruction::Add), Token::Instruction(Instruction::Add));
    assert_ne!(Token::Instruction(Instruction::Add), Token::Instruction(Instruction::Sub));
    assert_ne!(Token::Instruction(Instruction::Add), Token::Data(Operand::Int(0)));
    assert_eq!(Token::Data(Operand::Str(String::from("a"))), Token::Data(Operand::Str(String::from("a"))));
    assert_ne!(Token::Data(Operand::Int(1)), Token::Data(Operand::Bool(true)));
    let t = Token::Data(Operand::Str(String::from("copy")));
    assert_eq!(t.clone(), t);
    assert_eq!(Token::Instruction(Instruction::Jif).clone(), Token::Instruction(Instruction::Jif));
}

#[test]
fn minimal_tokens_hold_integers() {
    let t = instruction::Token::number(7);
    assert_eq!(t, instruction::Token::Data(7));
    assert_eq!(t.get_data(), Ok(7));
    assert_eq!(t.vto_bool(), Ok(true));
    let i = instruction::Token::Instruction(instruction::Instruction::Halt);
    assert_eq!(i.get_data(), Err(instruction::TokenError::NotData));
    assert_eq!(i.vto_bool(), Err(instruction::TokenError::NotData));
}

#[test]
fn minimal_truth_is_non_zero() {
    assert!(instruction::Token::to_bool(1));
    assert!(instruction::Token::to_bool(-3));
    assert!(!instruction::Token::to_bool(0));
    assert_eq!(instruction::Token::v_true(), instruction::Token::Data(1));
    assert_eq!(instruction::Token::v_false(), instruction::Token::Data(0));
    assert_eq!(instruction::Token::v_true().vto_bool(), Ok(true));
    assert_eq!(instruction::Token::v_false().vto_bool(), Ok(false));
}
