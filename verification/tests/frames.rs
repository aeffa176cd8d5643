use curlyvm::class::load;
use curlyvm::jvm::frame::Frame;
use curlyvm::jvm::instructions::{absent_error, immediate_byte, immediate_wide, peek_int, peek_ref};
use curlyvm::jvm::types::JTypeValue;
use curlyvm::jvm::{fetch, is_countable, JThread, VmError};
use curlyvm::jvm::opcode::Instr;
use std::rc::Rc;

fn frame(code: &[u8], locals: &[JTypeValue]) -> Frame {
    let mut v = Vec::new();
    v.extend_from_slice(&0xCAFE_BABEu32.to_be_bytes());
    v.extend_from_slice(&[0, 0, 0, 52]);
    v.extend_from_slice(&[0, 3, 1, 0, 1, b'A', 7, 0, 1]);
    v.extend_from_slice(&[0, 1, 0, 2, 0, 2]);
    v.extend_from_slice(&[0, 0, 0, 0, 0, 0, 0, 0]);
    let class = Rc::new(load(&v).expect("the class loads"));
    Frame::new(class, code.to_vec(), locals.to_vec())
}

#[test]
fn a_new_frame_stands_at_the_start() {
    let f = frame(&[1, 2, 3], &[JTypeValue::Int(1), JTypeValue::Empty]);
    assert_eq!(f.ip, 0);
    assert_eq!(f.code, vec![1, 2, 3]);
    assert_eq!(f.locals.len(), 2);
    assert!(f.operand_stack.is_empty());
    assert_eq!(&*f.class.name, "A");
}

#[test]
fn push_and_pop_are_last_in_first_out() {
    let mut f = frame(&[], &[]);
    f.push_stack(JTypeValue::Int(1));
    f.push_stack(JTypeValue::Long(2));
    assert!(matches!(f.pop_stack(), Ok(JTypeValue::Long(2))));
    assert!(matches!(f.pop_stack(), Ok(JTypeValue::Int(1))));
    assert!(matches!(f.pop_stack(), Err(VmError::StackUnderflow)));
    assert!(f.operand_stack.is_empty());
}

#[test]
fn padding_is_not_pushed() {
    let mut f = frame(&[], &[]);
    f.push_stack(JTypeValue::Empty);
    assert!(f.operand_stack.is_empty());
    f.push_stack(JTypeValue::Int(1));
    f.push_stack(JTypeValue::Empty);
    assert_eq!(f.operand_stack.len(), 1);
}

#[test]
fn typed_pops() {
    let mut f = frame(&[], &[]);
    f.push_stack(JTypeValue::Ref(6));
    f.push_stack(JTypeValue::Int(-3));
    assert_eq!(f.pop_int(), -3);
    assert_eq!(f.pop_ref(), 6);
    assert!(f.operand_stack.is_empty());
}

#[test]
fn peeks_leave_the_stack_alone() {
    let mut f = frame(&[], &[]);
    assert_eq!(peek_int(&f, 0), Err(VmError::StackUnderflow));
    f.push_stack(JTypeValue::Ref(6));
    f.push_stack(JTypeValue::Int(-3));
    assert_eq!(peek_int(&f, 0), Ok(-3));
    assert_eq!(peek_ref(&f, 1), Ok(6));
    assert_eq!(peek_int(&f, 1), Err(VmError::TypeMismatch));
    assert_eq!(peek_ref(&f, 0), Err(VmError::TypeMismatch));
    assert_eq!(peek_ref(&f, 2), Err(VmError::StackUnderflow));
    assert_eq!(f.operand_stack.len(), 2);
}

#[test]
fn inc_ip_moves_by_the_width() {
    let mut f = frame(&[0; 8], &[]);
    f.inc_ip(1);
    f.inc_ip(3);
    f.inc_ip(2);
    assert_eq!(f.ip, 6);
}

#[test]
fn immediates_are_big_endian() {
    let mut f = frame(&[16, 0x12, 0x34, 0xFF], &[]);
    assert_eq!(immediate_byte(&f), 0x12);
    assert_eq!(immediate_wide(&f), 0x1234);
    f.inc_ip(1);
    assert_eq!(immediate_byte(&f), 0x34);
    assert_eq!(immediate_wide(&f), 0x34FF);
}

#[test]
fn fetch_wants_the_whole_instruction() {
    assert!(matches!(fetch(&frame(&[96], &[])), Ok(Instr::Add)));
    assert!(matches!(fetch(&frame(&[16, 1], &[])), Ok(Instr::PushByte)));
    assert_eq!(fetch(&frame(&[16], &[])).unwrap_err(), VmError::CodeOutOfBounds);
    assert!(matches!(fetch(&frame(&[184, 0, 1], &[])), Ok(Instr::InvokeStatic)));
    assert_eq!(fetch(&frame(&[184, 0], &[])).unwrap_err(), VmError::CodeOutOfBounds);
    assert_eq!(fetch(&frame(&[], &[])).unwrap_err(), VmError::CodeOutOfBounds);
    assert_eq!(fetch(&frame(&[200], &[])).unwrap_err(), VmError::UnknownOpcode(200));
    let mut f = frame(&[96, 96], &[]);
    f.inc_ip(2);
    assert_eq!(fetch(&f).unwrap_err(), VmError::CodeOutOfBounds);
}

#[test]
fn absent_references() {
    assert_eq!(absent_error(0), VmError::NullReference);
    assert_eq!(absent_error(5), VmError::DanglingReference(5));
}

#[test]
fn countable_descriptors() {
    assert!(is_countable("()V"));
    assert!(is_countable("x"));
    assert!(!is_countable(""));
    assert!(!is_countable("\u{e9}I)V"));
    assert!(is_countable("(\u{e9})V"));
    assert_eq!(JThread::get_nargs("(\u{e9}\u{4e2d})V"), 2);
}

#[test]
fn a_thread_starts_without_frames() {
    let t = JThread::new();
    assert_eq!(t.depth(), 0);
}
