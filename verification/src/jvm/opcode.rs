//! The instruction set: the opcode bytes and what each of them stands for.

use crate::jvm::types::JTypeValue;
use vstd::prelude::*;

verus! {

pub const ACONST_NULL: u8 = 1;

pub const ICONST_M1: u8 = 2;

pub const ICONST_0: u8 = 3;

pub const ICONST_1: u8 = 4;

pub const ICONST_2: u8 = 5;

pub const ICONST_3: u8 = 6;

pub const ICONST_4: u8 = 7;

pub const ICONST_5: u8 = 8;

pub const LCONST_0: u8 = 9;

pub const LCONST_1: u8 = 10;

pub const FCONST_0: u8 = 11;

pub const FCONST_1: u8 = 12;

pub const FCONST_2: u8 = 13;

pub const DCONST_0: u8 = 14;

pub const DCONST_1: u8 = 15;

pub const BIPUSH: u8 = 16;

pub const LDC: u8 = 18;

pub const ILOAD: u8 = 21;

pub const LLOAD: u8 = 22;

pub const FLOAD: u8 = 23;

pub const DLOAD: u8 = 24;

pub const ALOAD: u8 = 25;

pub const ILOAD_0: u8 = 26;

pub const ILOAD_1: u8 = 27;

pub const ILOAD_2: u8 = 28;

pub const ILOAD_3: u8 = 29;

pub const LLOAD_0: u8 = 30;

pub const LLOAD_1: u8 = 31;

pub const LLOAD_2: u8 = 32;

pub const LLOAD_3: u8 = 33;

pub const FLOAD_0: u8 = 34;

pub const FLOAD_1: u8 = 35;

pub const FLOAD_2: u8 = 36;

pub const FLOAD_3: u8 = 37;

pub const DLOAD_0: u8 = 38;

pub const DLOAD_1: u8 = 39;

pub const DLOAD_2: u8 = 40;

pub const DLOAD_3: u8 = 41;

pub const ALOAD_0: u8 = 42;

pub const ALOAD_1: u8 = 43;

pub const ALOAD_2: u8 = 44;

pub const ALOAD_3: u8 = 45;

pub const IALOAD: u8 = 46;

pub const ISTORE: u8 = 54;

pub const LSTORE: u8 = 55;

pub const FSTORE: u8 = 56;

pub const DSTORE: u8 = 57;

pub const ASTORE: u8 = 58;

pub const ISTORE_0: u8 = 59;

pub const ISTORE_1: u8 = 60;

pub const ISTORE_2: u8 = 61;

pub const ISTORE_3: u8 = 62;

pub const LSTORE_0: u8 = 63;

pub const LSTORE_1: u8 = 64;

pub const LSTORE_2: u8 = 65;

pub const LSTORE_3: u8 = 66;

pub const FSTORE_0: u8 = 67;

pub const FSTORE_1: u8 = 68;

pub const FSTORE_2: u8 = 69;

pub const FSTORE_3: u8 = 70;

pub const DSTORE_0: u8 = 71;

pub const DSTORE_1: u8 = 72;

pub const DSTORE_2: u8 = 73;

pub const DSTORE_3: u8 = 74;

pub const ASTORE_0: u8 = 75;

pub const ASTORE_1: u8 = 76;

pub const ASTORE_2: u8 = 77;

pub const ASTORE_3: u8 = 78;

pub const IASTORE: u8 = 79;

pub const DUP: u8 = 89;

pub const IADD: u8 = 96;

pub const LADD: u8 = 97;

pub const FADD: u8 = 98;

pub const DADD: u8 = 99;

pub const INEG: u8 = 116;

pub const LNEG: u8 = 117;

pub const FNEG: u8 = 118;

pub const DNEG: u8 = 119;

pub const IFEQ: u8 = 153;

pub const IFNE: u8 = 154;

pub const IFLT: u8 = 155;

pub const IFGE: u8 = 156;

pub const IFGT: u8 = 157;

pub const IFLE: u8 = 158;

pub const IF_ICMPEQ: u8 = 159;

pub const IF_ICMPNE: u8 = 160;

pub const IF_ICMPLT: u8 = 161;

pub const IF_ICMPGE: u8 = 162;

pub const IF_ICMPGT: u8 = 163;

pub const IF_ICMPLE: u8 = 164;

pub const IF_ACMPEQ: u8 = 165;

pub const IF_ACMPNE: u8 = 166;

pub const IRETURN: u8 = 172;

pub const LRETURN: u8 = 173;

pub const FRETURN: u8 = 174;

pub const DRETURN: u8 = 175;

pub const RETURN: u8 = 177;

pub const GETFIELD: u8 = 180;

pub const PUTFIELD: u8 = 181;

pub const INVOKEVIRTUAL: u8 = 182;

pub const INVOKESPECIAL: u8 = 183;

pub const INVOKESTATIC: u8 = 184;

pub const NEW: u8 = 187;

pub const NEWARRAY: u8 = 188;

pub const IFNULL: u8 = 198;

pub const IFNONNULL: u8 = 199;

/// The bit pattern of the binary32 number 1.0.
pub const SINGLE_ONE: u32 = 0x3F80_0000;

/// The bit pattern of the binary32 number 2.0.
pub const SINGLE_TWO: u32 = 0x4000_0000;

/// The bit pattern of the binary64 number 1.0.
pub const DOUBLE_ONE: u64 = 0x3FF0_0000_0000_0000;

/// The test that a branch makes of its left operand against its right one.
#[derive(Debug, Clone, Copy, PartialEq, Eq, Structural)]
pub enum Cond {
    Equal,
    NotEqual,
    Less,
    GreaterOrEqual,
    Greater,
    LessOrEqual,
}

impl Cond {
    /// Whether the test holds of `left` and `right`.
    pub open spec fn holds(self, left: int, right: int) -> bool {
        match self {
            Cond::Equal => left == right,
            Cond::NotEqual => left != right,
            Cond::Less => left < right,
            Cond::GreaterOrEqual => left >= right,
            Cond::Greater => left > right,
            Cond::LessOrEqual => left <= right,
        }
    }

    /// Makes the test.
    pub fn test(self, left: i32, right: i32) -> (r: bool)
        ensures
            r == self.holds(left as int, right as int),
    {
        match self {
            Cond::Equal => left == right,
            Cond::NotEqual => left != right,
            Cond::Less => left < right,
            Cond::GreaterOrEqual => left >= right,
            Cond::Greater => left > right,
            Cond::LessOrEqual => left <= right,
        }
    }
}

/// An instruction, by what it does. Instructions that differ only in the
/// type that their name announces are one: the machine goes by the tags of
/// the values that it finds.
#[derive(Debug, Clone, Copy)]
pub enum Instr {
    /// Pushes a constant.
    Push(JTypeValue),
    /// Pushes the immediate byte, read as a signed number.
    PushByte,
    /// Pushes the pool constant that the immediate byte names.
    LoadConstant,
    /// Pushes the local variable that the immediate byte names.
    Load,
    /// Pushes the local variable with the given index.
    LoadAt(usize),
    /// Pops into the local variable that the immediate byte names.
    Store,
    /// Pops into the local variable with the given index.
    StoreAt(usize),
    /// Pops an index and an array, pushes the `Int` stored there.
    ArrayLoad,
    /// Pops a value, an index and an array, stores the value there.
    ArrayStore,
    /// Pushes the top operand once more.
    Dup,
    /// Pops two values, pushes their sum.
    Add,
    /// Pops a value, pushes its negation.
    Neg,
    /// Pops an `Int` and branches if the test against zero holds.
    IfZero(Cond),
    /// Pops two `Int`s and branches if the test holds of the lower against the upper.
    IfInts(Cond),
    /// Pops two references and branches if that they are equal is `true`, or `false`.
    IfRefs(bool),
    /// Pops a reference and branches if that it is null is `true`, or `false`.
    IfNull(bool),
    /// Pops a value and hands it to the invoker.
    ReturnValue,
    /// Returns to the invoker without a value.
    Return,
    /// Pops an object, pushes the value of a field.
    GetField,
    /// Pops a value and an object, writes a field.
    PutField,
    /// Invokes a method on the arguments popped.
    InvokeStatic,
    /// Invokes a method on a receiver and the arguments popped.
    InvokeInstance,
    /// Allocates an object and pushes its reference.
    New,
    /// Pops a length, allocates an array and pushes its reference.
    NewArray,
}

impl Instr {
    /// The bytes that the instruction takes: its opcode and its immediate operands.
    pub open spec fn width(self) -> int {
        match self {
            Instr::PushByte
            | Instr::LoadConstant
            | Instr::Load
            | Instr::Store
            | Instr::NewArray => 2,
            Instr::IfZero(_) | Instr::IfInts(_) | Instr::IfRefs(_) | Instr::IfNull(_) => 3,
            Instr::GetField | Instr::PutField | Instr::InvokeStatic | Instr::InvokeInstance
            | Instr::New => 3,
            _ => 1,
        }
    }

    /// The instruction reads or changes the heap.
    pub open spec fn touches_heap(self) -> bool {
        self is ArrayLoad || self is ArrayStore || self is NewArray || self is New
            || self is GetField || self is PutField
    }

    /// The instruction puts a frame on the stack of frames or takes one off.
    pub open spec fn changes_depth(self) -> bool {
        self is InvokeStatic || self is InvokeInstance || self is ReturnValue || self is Return
    }

    /// The instruction works on the running frame and on nothing else.
    pub open spec fn stays_in_frame(self) -> bool {
        !self.touches_heap() && !self.changes_depth()
    }

    /// The bytes that the instruction takes.
    pub fn size(&self) -> (w: usize)
        ensures
            w == self.width(),
            1 <= w <= 3,
    {
        match self {
            Instr::PushByte
            | Instr::LoadConstant
            | Instr::Load
            | Instr::Store
            | Instr::NewArray => 2,
            Instr::IfZero(_) | Instr::IfInts(_) | Instr::IfRefs(_) | Instr::IfNull(_) => 3,
            Instr::GetField | Instr::PutField | Instr::InvokeStatic | Instr::InvokeInstance
            | Instr::New => 3,
            _ => 1,
        }
    }
}

/// The test with the given place in the order in which the branch opcodes
/// list them: equal, not equal, less, greater or equal, greater, less or equal.
pub open spec fn cond_at(place: int) -> Cond {
    if place == 0 {
        Cond::Equal
    } else if place == 1 {
        Cond::NotEqual
    } else if place == 2 {
        Cond::Less
    } else if place == 3 {
        Cond::GreaterOrEqual
    } else if place == 4 {
        Cond::Greater
    } else {
        Cond::LessOrEqual
    }
}

/// The instruction that an opcode byte stands for, if it stands for one.
pub open spec fn decoded(op: u8) -> Option<Instr> {
    if op == ACONST_NULL {
        Some(Instr::Push(JTypeValue::Ref(0)))
    } else if ICONST_M1 <= op <= ICONST_5 {
        Some(Instr::Push(JTypeValue::Int((op - ICONST_0) as i32)))
    } else if LCONST_0 <= op <= LCONST_1 {
        Some(Instr::Push(JTypeValue::Long((op - LCONST_0) as i64)))
    } else if op == FCONST_0 {
        Some(Instr::Push(JTypeValue::Float(0)))
    } else if op == FCONST_1 {
        Some(Instr::Push(JTypeValue::Float(SINGLE_ONE)))
    } else if op == FCONST_2 {
        Some(Instr::Push(JTypeValue::Float(SINGLE_TWO)))
    } else if op == DCONST_0 {
        Some(Instr::Push(JTypeValue::Double(0)))
    } else if op == DCONST_1 {
        Some(Instr::Push(JTypeValue::Double(DOUBLE_ONE)))
    } else if op == BIPUSH {
        Some(Instr::PushByte)
    } else if op == LDC {
        Some(Instr::LoadConstant)
    } else if ILOAD <= op <= ALOAD {
        Some(Instr::Load)
    } else if ILOAD_0 <= op <= ALOAD_3 {
        Some(Instr::LoadAt(((op - ILOAD_0) % 4) as usize))
    } else if op == IALOAD {
        Some(Instr::ArrayLoad)
    } else if ISTORE <= op <= ASTORE {
        Some(Instr::Store)
    } else if ISTORE_0 <= op <= ASTORE_3 {
        Some(Instr::StoreAt(((op - ISTORE_0) % 4) as usize))
    } else if op == IASTORE {
        Some(Instr::ArrayStore)
    } else if op == DUP {
        Some(Instr::Dup)
    } else if IADD <= op <= DADD {
        Some(Instr::Add)
    } else if INEG <= op <= DNEG {
        Some(Instr::Neg)
    } else if IFEQ <= op <= IFLE {
        Some(Instr::IfZero(cond_at(op - IFEQ)))
    } else if IF_ICMPEQ <= op <= IF_ICMPLE {
        Some(Instr::IfInts(cond_at(op - IF_ICMPEQ)))
    } else if op == IF_ACMPEQ {
        Some(Instr::IfRefs(true))
    } else if op == IF_ACMPNE {
        Some(Instr::IfRefs(false))
    } else if IRETURN <= op <= DRETURN {
        Some(Instr::ReturnValue)
    } else if op == RETURN {
        Some(Instr::Return)
    } else if op == GETFIELD {
        Some(Instr::GetField)
    } else if op == PUTFIELD {
        Some(Instr::PutField)
    } else if op == INVOKEVIRTUAL || op == INVOKESPECIAL {
        Some(Instr::InvokeInstance)
    } else if op == INVOKESTATIC {
        Some(Instr::InvokeStatic)
    } else if op == NEW {
        Some(Instr::New)
    } else if op == NEWARRAY {
        Some(Instr::NewArray)
    } else if op == IFNULL {
        Some(Instr::IfNull(true))
    } else if op == IFNONNULL {
        Some(Instr::IfNull(false))
    } else {
        None
    }
}

/// Decodes an opcode byte.
pub fn decode(op: u8) -> (r: Option<Instr>)
    ensures
        r == decoded(op),
{
    match op {
        ACONST_NULL => Some(Instr::Push(JTypeValue::Ref(0))),
        ICONST_M1 => Some(Instr::Push(JTypeValue::Int(-1))),
        ICONST_0 => Some(Instr::Push(JTypeValue::Int(0))),
        ICONST_1 => Some(Instr::Push(JTypeValue::Int(1))),
        ICONST_2 => Some(Instr::Push(JTypeValue::Int(2))),
        ICONST_3 => Some(Instr::Push(JTypeValue::Int(3))),
        ICONST_4 => Some(Instr::Push(JTypeValue::Int(4))),
        ICONST_5 => Some(Instr::Push(JTypeValue::Int(5))),
        LCONST_0 => Some(Instr::Push(JTypeValue::Long(0))),
        LCONST_1 => Some(Instr::Push(JTypeValue::Long(1))),
        FCONST_0 => Some(Instr::Push(JTypeValue::Float(0))),
        FCONST_1 => Some(Instr::Push(JTypeValue::Float(SINGLE_ONE))),
        FCONST_2 => Some(Instr::Push(JTypeValue::Float(SINGLE_TWO))),
        DCONST_0 => Some(Instr::Push(JTypeValue::Double(0))),
        DCONST_1 => Some(Instr::Push(JTypeValue::Double(DOUBLE_ONE))),
        BIPUSH => Some(Instr::PushByte),
        LDC => Some(Instr::LoadConstant),
        ALOAD | ILOAD | LLOAD | FLOAD | DLOAD => Some(Instr::Load),
        ALOAD_0 | ILOAD_0 | LLOAD_0 | FLOAD_0 | DLOAD_0 => Some(Instr::LoadAt(0)),
        ALOAD_1 | ILOAD_1 | LLOAD_1 | FLOAD_1 | DLOAD_1 => Some(Instr::LoadAt(1)),
        ALOAD_2 | ILOAD_2 | LLOAD_2 | FLOAD_2 | DLOAD_2 => Some(Instr::LoadAt(2)),
        ALOAD_3 | ILOAD_3 | LLOAD_3 | FLOAD_3 | DLOAD_3 => Some(Instr::LoadAt(3)),
        IALOAD => Some(Instr::ArrayLoad),
        ASTORE | ISTORE | LSTORE | FSTORE | DSTORE => Some(Instr::Store),
        ASTORE_0 | ISTORE_0 | LSTORE_0 | FSTORE_0 | DSTORE_0 => Some(Instr::StoreAt(0)),
        ASTORE_1 | ISTORE_1 | LSTORE_1 | FSTORE_1 | DSTORE_1 => Some(Instr::StoreAt(1)),
        ASTORE_2 | ISTORE_2 | LSTORE_2 | FSTORE_2 | DSTORE_2 => Some(Instr::StoreAt(2)),
        ASTORE_3 | ISTORE_3 | LSTORE_3 | FSTORE_3 | DSTORE_3 => Some(Instr::StoreAt(3)),
        IASTORE => Some(Instr::ArrayStore),
        DUP => Some(Instr::Dup),
        IADD | LADD | FADD | DADD => Some(Instr::Add),
        INEG | LNEG | FNEG | DNEG => Some(Instr::Neg),
        IFEQ => Some(Instr::IfZero(Cond::Equal)),
        IFNE => Some(Instr::IfZero(Cond::NotEqual)),
        IFLT => Some(Instr::IfZero(Cond::Less)),
        IFGE => Some(Instr::IfZero(Cond::GreaterOrEqual)),
        IFGT => Some(Instr::IfZero(Cond::Greater)),
        IFLE => Some(Instr::IfZero(Cond::LessOrEqual)),
        IF_ICMPEQ => Some(Instr::IfInts(Cond::Equal)),
        IF_ICMPNE => Some(Instr::IfInts(Cond::NotEqual)),
        IF_ICMPLT => Some(Instr::IfInts(Cond::Less)),
        IF_ICMPGE => Some(Instr::IfInts(Cond::GreaterOrEqual)),
        IF_ICMPGT => Some(Instr::IfInts(Cond::Greater)),
        IF_ICMPLE => Some(Instr::IfInts(Cond::LessOrEqual)),
        IF_ACMPEQ => Some(Instr::IfRefs(true)),
        IF_ACMPNE => Some(Instr::IfRefs(false)),
        IRETURN | LRETURN | FRETURN | DRETURN => Some(Instr::ReturnValue),
        RETURN => Some(Instr::Return),
        GETFIELD => Some(Instr::GetField),
        PUTFIELD => Some(Instr::PutField),
        INVOKESPECIAL | INVOKEVIRTUAL => Some(Instr::InvokeInstance),
        INVOKESTATIC => Some(Instr::InvokeStatic),
        NEW => Some(Instr::New),
        NEWARRAY => Some(Instr::NewArray),
        IFNULL => Some(Instr::IfNull(true)),
        IFNONNULL => Some(Instr::IfNull(false)),
        _ => None,
    }
}

} // verus!
