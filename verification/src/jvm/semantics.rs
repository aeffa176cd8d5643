//! What the machine does, as functions on mathematical values: how a frame
//! is built for a method, and what one instruction makes of the frames and
//! the heap.

use crate::class::format::be_u16;
use crate::class::{entry_at, member_at, ClassView, ConstView, FieldView, PoolError};
use crate::jvm::frame::FrameView;
use crate::jvm::objects::{HeapView, ObjectView};
use crate::jvm::opcode::{decoded, Instr};
use crate::jvm::types::{null, FloatSum, JTypeValue, Sum};
use crate::jvm::VmError;
use vstd::prelude::*;

verus! {

/// The frames of a thread, the running one last, and the heap.
pub struct MachineView {
    pub frames: Seq<FrameView>,
    pub heap: HeapView,
}

/// The position of the first of `names`, from `from` on, that equals `name`.
pub open spec fn first_from(names: Seq<Seq<char>>, name: Seq<char>, from: int) -> Option<int>
    decreases names.len() - from,
{
    if from < 0 || from >= names.len() {
        None
    } else if names[from] == name {
        Some(from)
    } else {
        first_from(names, name, from + 1)
    }
}

/// The names of the classes of a method area, in its order.
pub open spec fn class_names(area: Seq<ClassView>) -> Seq<Seq<char>> {
    Seq::new(area.len(), |i: int| area[i].name)
}

/// The names of the methods of a class, in its order.
pub open spec fn method_names(class: ClassView) -> Seq<Seq<char>> {
    Seq::new(class.methods.len(), |i: int| class.methods[i].name)
}

/// The names of the attributes of a method, in its order.
pub open spec fn attribute_names(method: FieldView) -> Seq<Seq<char>> {
    Seq::new(method.attributes.len(), |i: int| method.attributes[i].name)
}

/// The class of that name: the first one, should there be several.
pub open spec fn class_named(area: Seq<ClassView>, name: Seq<char>) -> Option<ClassView> {
    match first_from(class_names(area), name, 0) {
        Some(i) => Some(area[i]),
        None => None,
    }
}

/// The method area with `class` in it: in the place of the class of the
/// same name, or behind the others if there is none.
pub open spec fn with_class(area: Seq<ClassView>, class: ClassView) -> Seq<ClassView> {
    match first_from(class_names(area), class.name, 0) {
        Some(i) => area.update(i, class),
        None => area.push(class),
    }
}

/// The local variables that arguments are bound to: the arguments in
/// their order, each `Long` and `Double` followed by an `Empty` slot.
pub open spec fn padded(args: Seq<JTypeValue>) -> Seq<JTypeValue>
    decreases args.len(),
{
    if args.len() == 0 {
        Seq::empty()
    } else if args.last().is_wide() {
        padded(args.drop_last()).push(args.last()).push(JTypeValue::Empty)
    } else {
        padded(args.drop_last()).push(args.last())
    }
}

/// How many characters stand from `from` on before the first `)`, or
/// before the end if there is none.
pub open spec fn chars_before_close(desc: Seq<char>, from: int) -> nat
    decreases desc.len() - from,
{
    if from < 0 || from >= desc.len() || desc[from] == ')' {
        0
    } else {
        1 + chars_before_close(desc, from + 1)
    }
}

/// A descriptor that arguments can be counted in: it starts with a
/// character of one byte, and has no more characters than a count can hold.
pub open spec fn countable(desc: Seq<char>) -> bool {
    &&& desc.len() >= 1
    &&& (desc[0] as u32) < 0x80
    &&& desc.len() - 1 <= u32::MAX
}

/// The number of arguments that a method descriptor announces: one for
/// each character between its first character and the first `)`.
pub open spec fn nargs(desc: Seq<char>) -> nat {
    chars_before_close(desc, 1)
}

/// The length of the header of a `Code` attribute, which the instructions follow.
pub const CODE_HEADER: usize = 8;

/// The class and the instructions of a method: the class of that name,
/// its first method of that name, and of that method's first attribute
/// named `Code` what follows the header.
pub open spec fn code_of(area: Seq<ClassView>, class_name: Seq<char>, method_name: Seq<char>)
    -> Result<(ClassView, Seq<u8>), VmError> {
    match class_named(area, class_name) {
        None => Err(VmError::NoSuchClass),
        Some(class) => match first_from(method_names(class), method_name, 0) {
            None => Err(VmError::NoSuchMethod),
            Some(m) => match first_from(attribute_names(class.methods[m]), "Code"@, 0) {
                None => Err(VmError::NoCodeAttribute),
                Some(a) => {
                    let data = class.methods[m].attributes[a].data;
                    if data.len() < CODE_HEADER {
                        Err(VmError::MalformedCode)
                    } else {
                        Ok((class, data.skip(CODE_HEADER as int)))
                    }
                },
            },
        },
    }
}

/// The frame in which a method starts with the given local variables.
pub open spec fn frame_with(
    area: Seq<ClassView>,
    class_name: Seq<char>,
    method_name: Seq<char>,
    locals: Seq<JTypeValue>,
) -> Result<FrameView, VmError> {
    match code_of(area, class_name, method_name) {
        Err(e) => Err(e),
        Ok((class, code)) => Ok(
            FrameView { class, ip: 0, code, locals, operand_stack: Seq::empty() },
        ),
    }
}

/// The frame in which a method starts on the given arguments.
pub open spec fn frame_for(
    area: Seq<ClassView>,
    class_name: Seq<char>,
    method_name: Seq<char>,
    args: Seq<JTypeValue>,
) -> Result<FrameView, VmError> {
    frame_with(area, class_name, method_name, padded(args))
}

/// The immediate byte of the instruction at hand.
pub open spec fn byte_operand(f: FrameView) -> u8 {
    f.code[f.ip + 1]
}

/// The immediate two-byte number of the instruction at hand.
pub open spec fn wide_operand(f: FrameView) -> u16 {
    be_u16(f.code, f.ip + 1)
}

/// A byte read as a signed number.
pub open spec fn signed_byte(b: u8) -> i32 {
    if b < 0x80 {
        b as i32
    } else {
        (b - 0x100) as i32
    }
}

/// What an instruction that needs only its frame makes of it.
pub enum FrameStep {
    /// The frame after the instruction.
    Next(FrameView),
    /// The instruction adds two floating-point numbers: the frame stays as
    /// it is until the sum is supplied.
    Deferred(FloatSum),
    Failed(VmError),
}

/// Pushes a local variable and moves on by `width`.
pub open spec fn load_local(f: FrameView, index: int, width: int) -> FrameStep {
    if index >= f.locals.len() {
        FrameStep::Failed(VmError::LocalOutOfRange(index as usize))
    } else {
        FrameStep::Next(f.pushed(f.locals[index]).advanced(width))
    }
}

/// Pops into a local variable and moves on by `width`.
pub open spec fn store_local(f: FrameView, index: int, width: int) -> FrameStep {
    if f.operand_stack.len() < 1 {
        FrameStep::Failed(VmError::StackUnderflow)
    } else if index >= f.locals.len() {
        FrameStep::Failed(VmError::LocalOutOfRange(index as usize))
    } else {
        FrameStep::Next(f.popped(1).stored(index, f.operand(0)).advanced(width))
    }
}

/// Takes `pops` operands off and goes to the branch target, which the
/// immediate number gives as an offset from the start of the code, or on to
/// the next instruction.
pub open spec fn branch(f: FrameView, taken: bool, pops: int) -> FrameStep {
    if taken {
        FrameStep::Next(f.popped(pops).at(wide_operand(f) as usize))
    } else {
        FrameStep::Next(f.popped(pops).advanced(3))
    }
}

/// What an instruction that stays in its frame makes of it. The
/// instruction lies within the code of the frame, with its operands.
pub open spec fn frame_step(f: FrameView, instr: Instr) -> FrameStep
    recommends
        instr.stays_in_frame(),
{
    match instr {
        Instr::Push(v) => FrameStep::Next(f.pushed(v).advanced(1)),
        Instr::PushByte => FrameStep::Next(
            f.pushed(JTypeValue::Int(signed_byte(byte_operand(f)))).advanced(2),
        ),
        Instr::LoadConstant => match entry_at(f.class.const_pool.table, byte_operand(f) as int) {
            None => FrameStep::Failed(
                VmError::Pool(PoolError::UnknownIndex(byte_operand(f) as usize)),
            ),
            Some(ConstView::Integer(x)) => FrameStep::Next(
                f.pushed(JTypeValue::Int(x)).advanced(2),
            ),
            Some(ConstView::Float(x)) => FrameStep::Next(
                f.pushed(JTypeValue::Float(x)).advanced(2),
            ),
            Some(_) => FrameStep::Failed(VmError::UnsupportedConstant(byte_operand(f) as usize)),
        },
        Instr::Load => load_local(f, byte_operand(f) as int, 2),
        Instr::LoadAt(n) => load_local(f, n as int, 1),
        Instr::Store => store_local(f, byte_operand(f) as int, 2),
        Instr::StoreAt(n) => store_local(f, n as int, 1),
        Instr::Dup => if f.operand_stack.len() < 1 {
            FrameStep::Failed(VmError::StackUnderflow)
        } else {
            FrameStep::Next(f.pushed(f.operand(0)).advanced(1))
        },
        Instr::Neg => if f.operand_stack.len() < 1 {
            FrameStep::Failed(VmError::StackUnderflow)
        } else if !f.operand(0).is_arithmetic() {
            FrameStep::Failed(VmError::TypeMismatch)
        } else {
            FrameStep::Next(f.popped(1).pushed(f.operand(0).neg_spec()).advanced(1))
        },
        Instr::Add => if f.operand_stack.len() < 2 {
            FrameStep::Failed(VmError::StackUnderflow)
        } else if !f.operand(0).same_arithmetic_tag(f.operand(1)) {
            FrameStep::Failed(VmError::TypeMismatch)
        } else {
            match f.operand(0).add_spec(f.operand(1)) {
                Sum::Value(v) => FrameStep::Next(f.popped(2).pushed(v).advanced(1)),
                Sum::Deferred(s) => FrameStep::Deferred(s),
            }
        },
        Instr::IfZero(cond) => if f.operand_stack.len() < 1 {
            FrameStep::Failed(VmError::StackUnderflow)
        } else {
            match f.operand(0) {
                JTypeValue::Int(v) => branch(f, cond.holds(v as int, 0), 1),
                _ => FrameStep::Failed(VmError::TypeMismatch),
            }
        },
        Instr::IfInts(cond) => if f.operand_stack.len() < 1 {
            FrameStep::Failed(VmError::StackUnderflow)
        } else {
            match f.operand(0) {
                JTypeValue::Int(right) => if f.operand_stack.len() < 2 {
                    FrameStep::Failed(VmError::StackUnderflow)
                } else {
                    match f.operand(1) {
                        JTypeValue::Int(left) => branch(
                            f,
                            cond.holds(left as int, right as int),
                            2,
                        ),
                        _ => FrameStep::Failed(VmError::TypeMismatch),
                    }
                },
                _ => FrameStep::Failed(VmError::TypeMismatch),
            }
        },
        Instr::IfRefs(equal) => if f.operand_stack.len() < 1 {
            FrameStep::Failed(VmError::StackUnderflow)
        } else {
            match f.operand(0) {
                JTypeValue::Ref(right) => if f.operand_stack.len() < 2 {
                    FrameStep::Failed(VmError::StackUnderflow)
                } else {
                    match f.operand(1) {
                        JTypeValue::Ref(left) => branch(f, (left == right) == equal, 2),
                        _ => FrameStep::Failed(VmError::TypeMismatch),
                    }
                },
                _ => FrameStep::Failed(VmError::TypeMismatch),
            }
        },
        Instr::IfNull(wanted) => if f.operand_stack.len() < 1 {
            FrameStep::Failed(VmError::StackUnderflow)
        } else {
            if !f.operand(0).comparable(null()) {
                FrameStep::Failed(VmError::TypeMismatch)
            } else {
                branch(f, f.operand(0).eq_spec(null()) == wanted, 1)
            }
        },
        _ => FrameStep::Next(f),
    }
}

/// What an instruction that needs the heap makes of its frame and the heap.
pub enum HeapStep {
    Next(FrameView, HeapView),
    Failed(VmError),
}

/// The error for a reference that stands for nothing of the needed kind.
pub open spec fn absent(r: usize) -> VmError {
    if r == 0 {
        VmError::NullReference
    } else {
        VmError::DanglingReference(r)
    }
}

/// Whether `index` is a place in an array of length `len`.
pub open spec fn in_array(index: i32, len: nat) -> bool {
    0 <= index < len
}

/// What an instruction that touches the heap makes of its frame and the
/// heap. The instruction lies within the code of the frame, with its operands.
pub open spec fn heap_step(f: FrameView, h: HeapView, instr: Instr) -> HeapStep
    recommends
        instr.touches_heap(),
{
    match instr {
        Instr::ArrayStore => if f.operand_stack.len() < 2 {
            HeapStep::Failed(VmError::StackUnderflow)
        } else {
            match f.operand(1) {
                JTypeValue::Int(index) => if f.operand_stack.len() < 3 {
                    HeapStep::Failed(VmError::StackUnderflow)
                } else {
                    match f.operand(2) {
                        JTypeValue::Ref(r) => if !h.arrays.contains_key(r) {
                            HeapStep::Failed(absent(r))
                        } else if !in_array(index, h.arrays[r].len()) {
                            HeapStep::Failed(VmError::ArrayIndexOutOfBounds(index))
                        } else {
                            HeapStep::Next(
                                f.popped(3).advanced(1),
                                HeapView {
                                    arrays: h.arrays.insert(
                                        r,
                                        h.arrays[r].update(index as int, f.operand(0)),
                                    ),
                                    ..h
                                },
                            )
                        },
                        _ => HeapStep::Failed(VmError::TypeMismatch),
                    }
                },
                _ => HeapStep::Failed(VmError::TypeMismatch),
            }
        },
        Instr::ArrayLoad => if f.operand_stack.len() < 1 {
            HeapStep::Failed(VmError::StackUnderflow)
        } else {
            match f.operand(0) {
                JTypeValue::Int(index) => if f.operand_stack.len() < 2 {
                    HeapStep::Failed(VmError::StackUnderflow)
                } else {
                    match f.operand(1) {
                        JTypeValue::Ref(r) => if !h.arrays.contains_key(r) {
                            HeapStep::Failed(absent(r))
                        } else if !in_array(index, h.arrays[r].len()) {
                            HeapStep::Failed(VmError::ArrayIndexOutOfBounds(index))
                        } else if !(h.arrays[r][index as int] is Int) {
                            HeapStep::Failed(VmError::TypeMismatch)
                        } else {
                            HeapStep::Next(
                                f.popped(2).pushed(h.arrays[r][index as int]).advanced(1),
                                h,
                            )
                        },
                        _ => HeapStep::Failed(VmError::TypeMismatch),
                    }
                },
                _ => HeapStep::Failed(VmError::TypeMismatch),
            }
        },
        Instr::NewArray => if f.operand_stack.len() < 1 {
            HeapStep::Failed(VmError::StackUnderflow)
        } else {
            match f.operand(0) {
                JTypeValue::Int(count) => if count < 0 {
                    HeapStep::Failed(VmError::NegativeArraySize(count))
                } else if !h.has_room() {
                    HeapStep::Failed(VmError::HeapExhausted)
                } else {
                    HeapStep::Next(
                        f.popped(1).pushed(JTypeValue::Ref(h.next_ref)).advanced(2),
                        h.with_array(Seq::new(count as nat, |i: int| JTypeValue::Empty)),
                    )
                },
                _ => HeapStep::Failed(VmError::TypeMismatch),
            }
        },
        Instr::New => if !h.has_room() {
            HeapStep::Failed(VmError::HeapExhausted)
        } else {
            HeapStep::Next(
                f.pushed(JTypeValue::Ref(h.next_ref)).advanced(3),
                h.with_object(ObjectView { class: f.class, fields: Map::empty() }),
            )
        },
        Instr::GetField => if f.operand_stack.len() < 1 {
            HeapStep::Failed(VmError::StackUnderflow)
        } else {
            match f.operand(0) {
                JTypeValue::Ref(r) => if !h.objects.contains_key(r) {
                    HeapStep::Failed(absent(r))
                } else if !h.objects[r].fields.contains_key(wide_operand(f) as usize) {
                    HeapStep::Failed(VmError::FieldNotSet(wide_operand(f) as usize))
                } else {
                    HeapStep::Next(
                        f.popped(1).pushed(h.objects[r].fields[wide_operand(f) as usize]).advanced(
                            3,
                        ),
                        h,
                    )
                },
                _ => HeapStep::Failed(VmError::TypeMismatch),
            }
        },
        Instr::PutField => if f.operand_stack.len() < 2 {
            HeapStep::Failed(VmError::StackUnderflow)
        } else {
            match f.operand(1) {
                JTypeValue::Ref(r) => if !h.objects.contains_key(r) {
                    HeapStep::Failed(absent(r))
                } else {
                    HeapStep::Next(
                        f.popped(2).advanced(3),
                        HeapView {
                            objects: h.objects.insert(
                                r,
                                ObjectView {
                                    fields: h.objects[r].fields.insert(
                                        wide_operand(f) as usize,
                                        f.operand(0),
                                    ),
                                    ..h.objects[r]
                                },
                            ),
                            ..h
                        },
                    )
                },
                _ => HeapStep::Failed(VmError::TypeMismatch),
            }
        },
        _ => HeapStep::Next(f, h),
    }
}

/// The name of the class whose methods are not run: an invocation of one
/// of them on a receiver takes its operands and does nothing else.
pub open spec fn root_class() -> Seq<char> {
    "java/lang/Object"@
}

/// What an invocation makes of the frames: the method reference that the
/// immediate number names is resolved, as many operands as its descriptor
/// announces, and one more for a receiver, are taken from the invoker in
/// the order in which they were pushed, and a frame for the method is put
/// on top. The invoker stays at the invocation until the method returns.
pub open spec fn invoked(area: Seq<ClassView>, frames: Seq<FrameView>, instance: bool) -> Result<
    Seq<FrameView>,
    VmError,
> {
    let f = frames.last();
    match member_at(f.class.const_pool.table, wide_operand(f) as int) {
        Err(e) => Err(VmError::Pool(e)),
        Ok(m) => if !countable(m.method_desc) {
            Err(VmError::BadDescriptor)
        } else {
            let count = nargs(m.method_desc) + if instance {
                1nat
            } else {
                0nat
            };
            if f.operand_stack.len() < count {
                Err(VmError::StackUnderflow)
            } else if instance && m.class_name == root_class() {
                Ok(frames.update(frames.len() - 1, f.popped(count as int).advanced(3)))
            } else {
                match frame_with(
                    area,
                    m.class_name,
                    m.method_name,
                    padded(f.operand_stack.skip(f.operand_stack.len() - count)),
                ) {
                    Err(e) => Err(e),
                    Ok(callee) => Ok(
                        frames.update(frames.len() - 1, f.popped(count as int)).push(callee),
                    ),
                }
            }
        },
    }
}

/// What one instruction makes of the machine. An instruction that fails
/// or that is deferred leaves the machine as it is.
pub enum Step {
    /// The machine after the instruction, which goes on.
    Next(MachineView),
    /// The last frame has returned: the machine after it, and the value returned.
    Finished(MachineView, JTypeValue),
    /// The instruction adds two floating-point numbers: the machine stays as
    /// it is until the sum is supplied.
    Deferred(FloatSum),
    Failed(VmError),
}

/// What a return makes of the machine: the running frame is dropped, and
/// the value goes to the invoker, which moves on past its invocation, or
/// out of the machine if there is no invoker.
pub open spec fn returned(m: MachineView, v: JTypeValue) -> Step {
    let rest = m.frames.drop_last();
    if rest.len() == 0 {
        Step::Finished(MachineView { frames: rest, heap: m.heap }, v)
    } else if rest.last().ip + 3 > rest.last().code.len() {
        Step::Failed(VmError::CodeOutOfBounds)
    } else {
        Step::Next(
            MachineView {
                frames: rest.update(rest.len() - 1, rest.last().pushed(v).advanced(3)),
                heap: m.heap,
            },
        )
    }
}

/// The machine with its running frame replaced.
pub open spec fn with_top(m: MachineView, f: FrameView) -> MachineView {
    MachineView { frames: m.frames.update(m.frames.len() - 1, f), heap: m.heap }
}

/// What the instruction `instr`, which lies within the code of the running
/// frame, makes of the machine.
pub open spec fn carried_out(area: Seq<ClassView>, m: MachineView, instr: Instr) -> Step {
    let f = m.frames.last();
    if instr.touches_heap() {
        match heap_step(f, m.heap, instr) {
            HeapStep::Next(g, h) => Step::Next(
                MachineView { frames: m.frames.update(m.frames.len() - 1, g), heap: h },
            ),
            HeapStep::Failed(e) => Step::Failed(e),
        }
    } else if instr.stays_in_frame() {
        match frame_step(f, instr) {
            FrameStep::Next(g) => Step::Next(with_top(m, g)),
            FrameStep::Deferred(s) => Step::Deferred(s),
            FrameStep::Failed(e) => Step::Failed(e),
        }
    } else {
        match instr {
            Instr::InvokeStatic => match invoked(area, m.frames, false) {
                Ok(frames) => Step::Next(MachineView { frames, heap: m.heap }),
                Err(e) => Step::Failed(e),
            },
            Instr::InvokeInstance => match invoked(area, m.frames, true) {
                Ok(frames) => Step::Next(MachineView { frames, heap: m.heap }),
                Err(e) => Step::Failed(e),
            },
            Instr::ReturnValue => if f.operand_stack.len() < 1 {
                Step::Failed(VmError::StackUnderflow)
            } else {
                returned(m, f.operand(0))
            },
            _ => returned(m, JTypeValue::Empty),
        }
    }
}

/// The instruction at which the frame stands, if its offset lies in the
/// code, the byte there is an opcode, and the operands are all there.
pub open spec fn fetched(f: FrameView) -> Result<Instr, VmError> {
    if f.ip >= f.code.len() {
        Err(VmError::CodeOutOfBounds)
    } else {
        match decoded(f.code[f.ip as int]) {
            None => Err(VmError::UnknownOpcode(f.code[f.ip as int])),
            Some(instr) => if f.ip + instr.width() > f.code.len() {
                Err(VmError::CodeOutOfBounds)
            } else {
                Ok(instr)
            },
        }
    }
}

/// One step of the machine: the instruction at which the running frame
/// stands is fetched and carried out.
pub open spec fn step(area: Seq<ClassView>, m: MachineView) -> Step {
    if m.frames.len() == 0 {
        Step::Failed(VmError::NoFrame)
    } else {
        match fetched(m.frames.last()) {
            Err(e) => Step::Failed(e),
            Ok(instr) => carried_out(area, m, instr),
        }
    }
}

/// How a run of the machine ends.
pub enum Run {
    /// The last frame has returned this value.
    Finished(MachineView, JTypeValue),
    /// The machine waits for the sum of two floating-point numbers.
    Deferred(MachineView, FloatSum),
    /// The steps allowed are used up; the machine can go on.
    OutOfSteps(MachineView),
    /// The machine stands at an instruction that fails.
    Failed(MachineView, VmError),
}

impl Run {
    /// The machine in which the run ends.
    pub open spec fn machine(self) -> MachineView {
        match self {
            Run::Finished(m, _) => m,
            Run::Deferred(m, _) => m,
            Run::OutOfSteps(m) => m,
            Run::Failed(m, _) => m,
        }
    }
}

/// The machine run for at most `steps` steps.
pub open spec fn run(area: Seq<ClassView>, m: MachineView, steps: nat) -> Run
    decreases steps,
{
    if steps == 0 {
        Run::OutOfSteps(m)
    } else {
        match step(area, m) {
            Step::Next(n) => run(area, n, (steps - 1) as nat),
            Step::Finished(n, v) => Run::Finished(n, v),
            Step::Deferred(s) => Run::Deferred(m, s),
            Step::Failed(e) => Run::Failed(m, e),
        }
    }
}

/// The frames after the sum `v` is supplied that the running frame waits
/// for: the two operands give way to the sum, and the frame moves on. The
/// sum has to carry the tag of the operands.
pub open spec fn supplied(frames: Seq<FrameView>, v: JTypeValue) -> Result<
    Seq<FrameView>,
    VmError,
> {
    if frames.len() == 0 {
        Err(VmError::NothingDeferred)
    } else {
        let f = frames.last();
        match fetched(f) {
            Ok(Instr::Add) => match frame_step(f, Instr::Add) {
                FrameStep::Deferred(s) => if f.operand(0).same_arithmetic_tag(v) {
                    Ok(frames.update(frames.len() - 1, f.popped(2).pushed(v).advanced(1)))
                } else {
                    Err(VmError::TypeMismatch)
                },
                _ => Err(VmError::NothingDeferred),
            },
            _ => Err(VmError::NothingDeferred),
        }
    }
}

} // verus!
