//! The activation record of one method invocation.

use crate::class::{Class, ClassView};
use crate::jvm::types::JTypeValue;
use crate::jvm::VmError;
use std::rc::Rc;
use vstd::prelude::*;

verus! {

/// A frame: the class whose method runs, the offset of the next
/// instruction, the instructions, the local variables and the operand stack.
#[derive(Debug)]
pub struct Frame {
    pub class: Rc<Class>,
    pub ip: usize,
    pub code: Vec<u8>,
    pub locals: Vec<JTypeValue>,
    pub operand_stack: Vec<JTypeValue>,
}

/// The mathematical value of a `Frame`.
pub struct FrameView {
    pub class: ClassView,
    pub ip: usize,
    pub code: Seq<u8>,
    pub locals: Seq<JTypeValue>,
    pub operand_stack: Seq<JTypeValue>,
}

impl FrameView {
    /// The frame with `v` pushed, unless `v` is `Empty`: padding never
    /// reaches an operand stack.
    pub open spec fn pushed(self, v: JTypeValue) -> FrameView {
        if v is Empty {
            self
        } else {
            FrameView { operand_stack: self.operand_stack.push(v), ..self }
        }
    }

    /// The frame without the topmost `n` operands.
    pub open spec fn popped(self, n: int) -> FrameView {
        FrameView {
            operand_stack: self.operand_stack.take(self.operand_stack.len() - n),
            ..self
        }
    }

    /// The operand that lies `depth` below the top, the top being at depth 0.
    pub open spec fn operand(self, depth: int) -> JTypeValue {
        self.operand_stack[self.operand_stack.len() - 1 - depth]
    }

    /// The frame with the instruction offset moved on by `n`.
    pub open spec fn advanced(self, n: int) -> FrameView {
        FrameView { ip: (self.ip + n) as usize, ..self }
    }

    /// The frame with the instruction offset set to `target`.
    pub open spec fn at(self, target: usize) -> FrameView {
        FrameView { ip: target, ..self }
    }

    /// The frame with `v` in the local variable `index`.
    pub open spec fn stored(self, index: int, v: JTypeValue) -> FrameView {
        FrameView { locals: self.locals.update(index, v), ..self }
    }
}

impl View for Frame {
    type V = FrameView;

    open spec fn view(&self) -> FrameView {
        FrameView {
            class: self.class@,
            ip: self.ip,
            code: self.code@,
            locals: self.locals@,
            operand_stack: self.operand_stack@,
        }
    }
}

impl Frame {
    /// The code of a frame is no longer than an offset can say.
    pub proof fn lemma_code_fits(&self)
        ensures
            self@.code.len() <= usize::MAX,
    {
        assert(self.code.len() == self@.code.len());
    }

    /// A frame at the first instruction of `code`, with an empty operand stack.
    pub fn new(class: Rc<Class>, code: Vec<u8>, locals: Vec<JTypeValue>) -> (f: Self)
        ensures
            f@ == (FrameView {
                class: class@,
                ip: 0,
                code: code@,
                locals: locals@,
                operand_stack: Seq::empty(),
            }),
    {
        Self { class, code, ip: 0, locals, operand_stack: Vec::new() }
    }

    /// Takes the top operand off. Fails on an empty stack, which it leaves
    /// as it is.
    pub fn pop_stack(&mut self) -> (r: Result<JTypeValue, VmError>)
        ensures
            old(self)@.operand_stack.len() == 0 ==> r == Err::<JTypeValue, VmError>(
                VmError::StackUnderflow,
            ) && final(self)@ == old(self)@,
            old(self)@.operand_stack.len() > 0 ==> r == Ok::<JTypeValue, VmError>(
                old(self)@.operand(0),
            ) && final(self)@ == old(self)@.popped(1),
    {
        match self.operand_stack.pop() {
            Some(v) => {
                Ok(v)
            },
            None => Err(VmError::StackUnderflow),
        }
    }

    /// Takes the top operand off, which is an `Int`, and returns its number.
    pub fn pop_int(&mut self) -> (i: i32)
        requires
            old(self)@.operand_stack.len() > 0,
            old(self)@.operand(0) is Int,
        ensures
            JTypeValue::Int(i) == old(self)@.operand(0),
            final(self)@ == old(self)@.popped(1),
    {
        match self.pop_stack() {
            Ok(JTypeValue::Int(i)) => i,
            _ => 0,
        }
    }

    /// Takes the top operand off, which is a `Ref`, and returns its reference.
    pub fn pop_ref(&mut self) -> (r: usize)
        requires
            old(self)@.operand_stack.len() > 0,
            old(self)@.operand(0) is Ref,
        ensures
            JTypeValue::Ref(r) == old(self)@.operand(0),
            final(self)@ == old(self)@.popped(1),
    {
        match self.pop_stack() {
            Ok(JTypeValue::Ref(r)) => r,
            _ => 0,
        }
    }

    /// Puts `v` on the operand stack, unless it is `Empty`.
    pub fn push_stack(&mut self, v: JTypeValue)
        ensures
            final(self)@ == old(self)@.pushed(v),
    {
        if let JTypeValue::Empty = v {
            return ;
        }
        self.operand_stack.push(v);
    }

    /// Moves the instruction offset on by `inc` bytes: the width of the
    /// instruction that was carried out.
    pub fn inc_ip(&mut self, inc: usize)
        requires
            old(self)@.ip + inc <= usize::MAX,
        ensures
            final(self)@ == old(self)@.advanced(inc as int),
    {
        self.ip += inc;
    }
}

} // verus!
