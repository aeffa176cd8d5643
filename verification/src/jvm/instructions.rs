//! The instructions that work on the running frame alone, or on it and the heap.

use crate::class::{share, Const};
use crate::jvm::frame::Frame;
use crate::jvm::objects::{Array, Heap, Object};
use crate::jvm::opcode::Instr;
use crate::jvm::semantics::{
    absent, byte_operand, fetched, frame_step, heap_step, load_local, store_local,
    wide_operand, FrameStep, HeapStep,
};
use crate::jvm::types::{null_ref, FloatSum, JTypeValue, Sum};
use crate::jvm::VmError;
use vstd::prelude::*;

verus! {

/// The immediate byte of the instruction at which the frame stands.
pub fn immediate_byte(frame: &Frame) -> (b: u8)
    requires
        frame@.ip + 2 <= frame@.code.len(),
    ensures
        b == byte_operand(frame@),
{
    proof {
        frame.lemma_code_fits();
    }
    frame.code[frame.ip + 1]
}

/// The immediate two-byte number of the instruction at which the frame stands.
pub fn immediate_wide(frame: &Frame) -> (w: u16)
    requires
        frame@.ip + 3 <= frame@.code.len(),
    ensures
        w == wide_operand(frame@),
{
    proof {
        frame.lemma_code_fits();
    }
    let hi = frame.code[frame.ip + 1] as u16;
    let lo = frame.code[frame.ip + 2] as u16;
    hi * 0x100 + lo
}

/// The `Int` that lies `depth` below the top of the operand stack.
pub fn peek_int(frame: &Frame, depth: usize) -> (r: Result<i32, VmError>)
    ensures
        frame@.operand_stack.len() <= depth ==> r == Err::<i32, VmError>(VmError::StackUnderflow),
        frame@.operand_stack.len() > depth ==> match frame@.operand(depth as int) {
            JTypeValue::Int(i) => r == Ok::<i32, VmError>(i),
            _ => r == Err::<i32, VmError>(VmError::TypeMismatch),
        },
{
    let n = frame.operand_stack.len();
    if n <= depth {
        return Err(VmError::StackUnderflow);
    }
    match frame.operand_stack[n - 1 - depth] {
        JTypeValue::Int(i) => Ok(i),
        _ => Err(VmError::TypeMismatch),
    }
}

/// The reference that lies `depth` below the top of the operand stack.
pub fn peek_ref(frame: &Frame, depth: usize) -> (r: Result<usize, VmError>)
    ensures
        frame@.operand_stack.len() <= depth ==> r == Err::<usize, VmError>(
            VmError::StackUnderflow,
        ),
        frame@.operand_stack.len() > depth ==> match frame@.operand(depth as int) {
            JTypeValue::Ref(x) => r == Ok::<usize, VmError>(x),
            _ => r == Err::<usize, VmError>(VmError::TypeMismatch),
        },
{
    let n = frame.operand_stack.len();
    if n <= depth {
        return Err(VmError::StackUnderflow);
    }
    match frame.operand_stack[n - 1 - depth] {
        JTypeValue::Ref(x) => Ok(x),
        _ => Err(VmError::TypeMismatch),
    }
}

/// Takes the two topmost operands off, which are `Int`s: first the upper
/// one, then the lower one.
fn pop_two_ints(frame: &mut Frame) -> (r: (i32, i32))
    requires
        old(frame)@.operand_stack.len() >= 2,
        old(frame)@.operand(0) is Int,
        old(frame)@.operand(1) is Int,
    ensures
        JTypeValue::Int(r.0) == old(frame)@.operand(0),
        JTypeValue::Int(r.1) == old(frame)@.operand(1),
        final(frame)@ == old(frame)@.popped(2),
{
    let upper = frame.pop_int();
    let lower = frame.pop_int();
    assert(frame@.operand_stack =~= old(frame)@.popped(2).operand_stack);
    (upper, lower)
}

/// Takes the two topmost operands off, which are references: first the
/// upper one, then the lower one.
fn pop_two_refs(frame: &mut Frame) -> (r: (usize, usize))
    requires
        old(frame)@.operand_stack.len() >= 2,
        old(frame)@.operand(0) is Ref,
        old(frame)@.operand(1) is Ref,
    ensures
        JTypeValue::Ref(r.0) == old(frame)@.operand(0),
        JTypeValue::Ref(r.1) == old(frame)@.operand(1),
        final(frame)@ == old(frame)@.popped(2),
{
    let upper = frame.pop_ref();
    let lower = frame.pop_ref();
    assert(frame@.operand_stack =~= old(frame)@.popped(2).operand_stack);
    (upper, lower)
}

/// Goes to the branch target if the branch is taken, and on to the next
/// instruction if it is not.
fn jump(frame: &mut Frame, taken: bool)
    requires
        old(frame)@.ip + 3 <= old(frame)@.code.len(),
    ensures
        final(frame)@ == if taken {
            old(frame)@.at(wide_operand(old(frame)@) as usize)
        } else {
            old(frame)@.advanced(3)
        },
{
    proof {
        frame.lemma_code_fits();
    }
    if taken {
        frame.ip = immediate_wide(frame) as usize;
    } else {
        frame.inc_ip(3);
    }
}

/// Pushes the local variable `index` and moves on by `width`.
fn load(frame: &mut Frame, index: usize, width: usize) -> (r: Result<(), VmError>)
    requires
        old(frame)@.ip + width <= old(frame)@.code.len(),
    ensures
        match load_local(old(frame)@, index as int, width as int) {
            FrameStep::Next(g) => r is Ok && final(frame)@ == g,
            FrameStep::Failed(e) => r == Err::<(), VmError>(e) && final(frame)@ == old(frame)@,
            FrameStep::Deferred(_) => false,
        },
{
    proof {
        frame.lemma_code_fits();
    }
    if index >= frame.locals.len() {
        return Err(VmError::LocalOutOfRange(index));
    }
    let var = frame.locals[index];
    frame.push_stack(var);
    frame.inc_ip(width);
    Ok(())
}

/// Pops into the local variable `index` and moves on by `width`.
fn store(frame: &mut Frame, index: usize, width: usize) -> (r: Result<(), VmError>)
    requires
        old(frame)@.ip + width <= old(frame)@.code.len(),
    ensures
        match store_local(old(frame)@, index as int, width as int) {
            FrameStep::Next(g) => r is Ok && final(frame)@ == g,
            FrameStep::Failed(e) => r == Err::<(), VmError>(e) && final(frame)@ == old(frame)@,
            FrameStep::Deferred(_) => false,
        },
{
    proof {
        frame.lemma_code_fits();
    }
    if frame.operand_stack.len() == 0 {
        return Err(VmError::StackUnderflow);
    }
    if index >= frame.locals.len() {
        return Err(VmError::LocalOutOfRange(index));
    }
    let v = frame.pop_stack()?;
    frame.locals[index] = v;
    frame.inc_ip(width);
    Ok(())
}

/// Carries out an instruction that needs only its frame. Where the
/// instruction fails, and where it is the sum of two floating-point
/// numbers, which is returned as the addition to make, the frame stays as
/// it is.
pub fn in_frame(frame: &mut Frame, instr: Instr) -> (r: Result<Option<FloatSum>, VmError>)
    requires
        fetched(old(frame)@) == Ok::<Instr, VmError>(instr),
        instr.stays_in_frame(),
    ensures
        match frame_step(old(frame)@, instr) {
            FrameStep::Next(g) => r == Ok::<Option<FloatSum>, VmError>(None) && final(frame)@
                == g,
            FrameStep::Deferred(s) => r == Ok::<Option<FloatSum>, VmError>(Some(s))
                && final(frame)@ == old(frame)@,
            FrameStep::Failed(e) => r == Err::<Option<FloatSum>, VmError>(e) && final(frame)@
                == old(frame)@,
        },
{
    proof {
        frame.lemma_code_fits();
    }
    match instr {
        Instr::Push(v) => {
            frame.push_stack(v);
            frame.inc_ip(1);
        },
        Instr::PushByte => {
            let byte = immediate_byte(frame);
            let v: i32 = if byte < 0x80 {
                byte as i32
            } else {
                byte as i32 - 0x100
            };
            frame.push_stack(JTypeValue::Int(v));
            frame.inc_ip(2);
        },
        Instr::LoadConstant => {
            let index = immediate_byte(frame) as usize;
            let v = match frame.class.const_pool.resolve(index) {
                Err(e) => {
                    return Err(VmError::Pool(e));
                },
                Ok(Const::Integer(x)) => JTypeValue::Int(*x),
                Ok(Const::Float(x)) => JTypeValue::Float(*x),
                Ok(_) => {
                    return Err(VmError::UnsupportedConstant(index));
                },
            };
            frame.push_stack(v);
            frame.inc_ip(2);
        },
        Instr::Load => {
            let index = immediate_byte(frame) as usize;
            load(frame, index, 2)?;
        },
        Instr::LoadAt(n) => {
            load(frame, n, 1)?;
        },
        Instr::Store => {
            let index = immediate_byte(frame) as usize;
            store(frame, index, 2)?;
        },
        Instr::StoreAt(n) => {
            store(frame, n, 1)?;
        },
        Instr::Dup => {
            let n = frame.operand_stack.len();
            if n == 0 {
                return Err(VmError::StackUnderflow);
            }
            let top_value = frame.operand_stack[n - 1];
            frame.push_stack(top_value);
            frame.inc_ip(1);
        },
        Instr::Neg => {
            let n = frame.operand_stack.len();
            if n == 0 {
                return Err(VmError::StackUnderflow);
            }
            if !frame.operand_stack[n - 1].can_negate() {
                return Err(VmError::TypeMismatch);
            }
            let var = frame.pop_stack()?;
            frame.push_stack(var.neg());
            frame.inc_ip(1);
        },
        Instr::Add => {
            let n = frame.operand_stack.len();
            if n < 2 {
                return Err(VmError::StackUnderflow);
            }
            let a = frame.operand_stack[n - 1];
            let b = frame.operand_stack[n - 2];
            if !a.can_add(&b) {
                return Err(VmError::TypeMismatch);
            }
            match a.add(b) {
                Sum::Deferred(s) => {
                    return Ok(Some(s));
                },
                Sum::Value(v) => {
                    frame.operand_stack.truncate(n - 2);
                    frame.push_stack(v);
                    frame.inc_ip(1);
                },
            }
        },
        Instr::IfZero(cond) => {
            peek_int(frame, 0)?;
            let val = frame.pop_int();
            jump(frame, cond.test(val, 0));
        },
        Instr::IfInts(cond) => {
            peek_int(frame, 0)?;
            peek_int(frame, 1)?;
            let (val2, val1) = pop_two_ints(frame);
            jump(frame, cond.test(val1, val2));
        },
        Instr::IfRefs(equal) => {
            peek_ref(frame, 0)?;
            peek_ref(frame, 1)?;
            let (val2, val1) = pop_two_refs(frame);
            jump(frame, (val1 == val2) == equal);
        },
        Instr::IfNull(null) => {
            let n = frame.operand_stack.len();
            if n == 0 {
                return Err(VmError::StackUnderflow);
            }
            let val = frame.operand_stack[n - 1];
            if !val.can_compare(&null_ref()) {
                return Err(VmError::TypeMismatch);
            }
            frame.pop_stack()?;
            jump(frame, val.eq(&null_ref()) == null);
        },
        _ => {},
    }
    Ok(None)
}

/// The error for a reference that stands for nothing of the needed kind.
pub fn absent_error(r: usize) -> (e: VmError)
    ensures
        e == absent(r),
{
    if r == 0 {
        VmError::NullReference
    } else {
        VmError::DanglingReference(r)
    }
}

/// Carries out an instruction that needs the heap. Where it fails, the
/// frame and the heap stay as they are.
pub fn on_heap(frame: &mut Frame, heap: &mut Heap, instr: Instr) -> (r: Result<(), VmError>)
    requires
        fetched(old(frame)@) == Ok::<Instr, VmError>(instr),
        instr.touches_heap(),
        old(heap)@.wf(),
    ensures
        final(heap)@.wf(),
        match heap_step(old(frame)@, old(heap)@, instr) {
            HeapStep::Next(g, h) => r is Ok && final(frame)@ == g && final(heap)@ == h,
            HeapStep::Failed(e) => r == Err::<(), VmError>(e) && final(frame)@ == old(frame)@
                && final(heap)@ == old(heap)@,
        },
{
    proof {
        frame.lemma_code_fits();
    }
    match instr {
        Instr::ArrayStore => {
            if frame.operand_stack.len() < 2 {
                return Err(VmError::StackUnderflow);
            }
            let index = peek_int(frame, 1)?;
            let arr_ref = peek_ref(frame, 2)?;
            if !heap.has_arr(arr_ref) {
                return Err(absent_error(arr_ref));
            }
            if index < 0 || index as usize >= heap.get_arr(arr_ref).len() {
                return Err(VmError::ArrayIndexOutOfBounds(index));
            }
            let value = frame.pop_stack()?;
            frame.pop_int();
            frame.pop_ref();
            assert(frame@.operand_stack =~= old(frame)@.popped(3).operand_stack);
            let arr = heap.get_arr_mut(arr_ref);
            arr.set(index as usize, value);
            frame.inc_ip(1);
        },
        Instr::ArrayLoad => {
            let index = peek_int(frame, 0)?;
            let array_ref = peek_ref(frame, 1)?;
            if !heap.has_arr(array_ref) {
                return Err(absent_error(array_ref));
            }
            let arr = heap.get_arr(array_ref);
            if index < 0 || index as usize >= arr.len() {
                return Err(VmError::ArrayIndexOutOfBounds(index));
            }
            let val = match arr.get(index as usize) {
                JTypeValue::Int(_) => arr.get_int(index as usize),
                _ => {
                    return Err(VmError::TypeMismatch);
                },
            };
            frame.pop_int();
            frame.pop_ref();
            assert(frame@.operand_stack =~= old(frame)@.popped(2).operand_stack);
            frame.push_stack(JTypeValue::Int(val));
            frame.inc_ip(1);
        },
        Instr::NewArray => {
            let count = peek_int(frame, 0)?;
            if count < 0 {
                return Err(VmError::NegativeArraySize(count));
            }
            if !heap.has_room() {
                return Err(VmError::HeapExhausted);
            }
            frame.pop_int();
            let array = Array::new(count as usize);
            let arr_ref = heap.allocate_arr(array);
            frame.push_stack(JTypeValue::Ref(arr_ref));
            frame.inc_ip(2);
        },
        Instr::New => {
            if !heap.has_room() {
                return Err(VmError::HeapExhausted);
            }
            let obj = Object::new(share(&frame.class));
            let obj_ref = heap.allocate_obj(obj);
            frame.push_stack(JTypeValue::Ref(obj_ref));
            frame.inc_ip(3);
        },
        Instr::GetField => {
            let field_index = immediate_wide(frame) as usize;
            let obj_ref = peek_ref(frame, 0)?;
            if !heap.has_obj(obj_ref) {
                return Err(absent_error(obj_ref));
            }
            let object = heap.get_obj(obj_ref);
            if !object.has_field(field_index) {
                return Err(VmError::FieldNotSet(field_index));
            }
            let value = object.field_value(field_index);
            frame.pop_ref();
            frame.push_stack(value);
            frame.inc_ip(3);
        },
        Instr::PutField => {
            let field_index = immediate_wide(frame) as usize;
            if frame.operand_stack.len() < 2 {
                return Err(VmError::StackUnderflow);
            }
            let obj_ref = peek_ref(frame, 1)?;
            if !heap.has_obj(obj_ref) {
                return Err(absent_error(obj_ref));
            }
            let val = frame.pop_stack()?;
            frame.pop_ref();
            assert(frame@.operand_stack =~= old(frame)@.popped(2).operand_stack);
            let object = heap.get_obj_mut(obj_ref);
            object.fields.insert(field_index, val);
            frame.inc_ip(3);
        },
        _ => {},
    }
    Ok(())
}

} // verus!
