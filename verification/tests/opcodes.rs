use curlyvm::jvm::opcode::{decode, Cond, Instr};
use curlyvm::jvm::types::JTypeValue;

#[test]
fn constants() {
    assert!(matches!(decode(1), Some(Instr::Push(JTypeValue::Ref(0)))));
    for (op, v) in [(2u8, -1), (3, 0), (4, 1), (5, 2), (6, 3), (7, 4), (8, 5)] {
        assert!(matches!(decode(op), Some(Instr::Push(JTypeValue::Int(x))) if x == v));
    }
    assert!(matches!(decode(9), Some(Instr::Push(JTypeValue::Long(0)))));
    assert!(matches!(decode(10), Some(Instr::Push(JTypeValue::Long(1)))));
    for (op, v) in [(11u8, 0.0f32), (12, 1.0), (13, 2.0)] {
        assert!(matches!(decode(op), Some(Instr::Push(JTypeValue::Float(b))) if b == v.to_bits()));
    }
    for (op, v) in [(14u8, 0.0f64), (15, 1.0)] {
        assert!(
            matches!(decode(op), Some(Instr::Push(JTypeValue::Double(b))) if b == v.to_bits())
        );
    }
}

#[test]
fn loads_and_stores() {
    for op in 21..=25u8 {
        assert!(matches!(decode(op), Some(Instr::Load)));
    }
    for op in 54..=58u8 {
        assert!(matches!(decode(op), Some(Instr::Store)));
    }
    for kind in 0..5u8 {
        for n in 0..4u8 {
            assert!(
                matches!(decode(26 + 4 * kind + n), Some(Instr::LoadAt(i)) if i == n as usize)
            );
            assert!(
                matches!(decode(59 + 4 * kind + n), Some(Instr::StoreAt(i)) if i == n as usize)
            );
        }
    }
    assert!(matches!(decode(46), Some(Instr::ArrayLoad)));
    assert!(matches!(decode(79), Some(Instr::ArrayStore)));
    assert!(matches!(decode(16), Some(Instr::PushByte)));
    assert!(matches!(decode(18), Some(Instr::LoadConstant)));
}

#[test]
fn arithmetic_and_stack() {
    for op in 96..=99u8 {
        assert!(matches!(decode(op), Some(Instr::Add)));
    }
    for op in 116..=119u8 {
        assert!(matches!(decode(op), Some(Instr::Neg)));
    }
    assert!(matches!(decode(89), Some(Instr::Dup)));
}

#[test]
fn branches() {
    let order = [
        Cond::Equal,
        Cond::NotEqual,
        Cond::Less,
        Cond::GreaterOrEqual,
        Cond::Greater,
        Cond::LessOrEqual,
    ];
    for (i, c) in order.iter().enumerate() {
        assert!(matches!(decode(153 + i as u8), Some(Instr::IfZero(x)) if x == *c));
        assert!(matches!(decode(159 + i as u8), Some(Instr::IfInts(x)) if x == *c));
    }
    assert!(matches!(decode(165), Some(Instr::IfRefs(true))));
    assert!(matches!(decode(166), Some(Instr::IfRefs(false))));
    assert!(matches!(decode(198), Some(Instr::IfNull(true))));
    assert!(matches!(decode(199), Some(Instr::IfNull(false))));
}

#[test]
fn conditions() {
    assert!(Cond::Equal.test(1, 1) && !Cond::Equal.test(1, 2));
    assert!(Cond::NotEqual.test(1, 2) && !Cond::NotEqual.test(1, 1));
    assert!(Cond::Less.test(-1, 0) && !Cond::Less.test(0, 0));
    assert!(Cond::GreaterOrEqual.test(0, 0) && !Cond::GreaterOrEqual.test(-1, 0));
    assert!(Cond::Greater.test(1, 0) && !Cond::Greater.test(0, 0));
    assert!(Cond::LessOrEqual.test(0, 0) && !Cond::LessOrEqual.test(1, 0));
    assert!(Cond::Less.test(i32::MIN, i32::MAX));
}

#[test]
fn invocations_returns_and_objects() {
    for op in 172..=175u8 {
        assert!(matches!(decode(op), Some(Instr::ReturnValue)));
    }
    assert!(matches!(decode(177), Some(Instr::Return)));
    assert!(matches!(decode(180), Some(Instr::GetField)));
    assert!(matches!(decode(181), Some(Instr::PutField)));
    assert!(matches!(decode(182), Some(Instr::InvokeInstance)));
    assert!(matches!(decode(183), Some(Instr::InvokeInstance)));
    assert!(matches!(decode(184), Some(Instr::InvokeStatic)));
    assert!(matches!(decode(187), Some(Instr::New)));
    assert!(matches!(decode(188), Some(Instr::NewArray)));
}

#[test]
fn every_other_byte_is_unknown() {
    let known = |op: u8| {
        matches!(op, 1..=16 | 18 | 21..=46 | 54..=79 | 89 | 96..=99 | 116..=119 | 153..=166
            | 172..=175 | 177 | 180..=184 | 187 | 188 | 198 | 199)
    };
    for op in 0..=255u8 {
        assert_eq!(decode(op).is_some(), known(op), "opcode {}", op);
    }
}

#[test]
fn widths() {
    let width = |op: u8| decode(op).unwrap().size();
    for op in [1u8, 3, 9, 26, 46, 59, 79, 89, 96, 116, 172, 177] {
        assert_eq!(width(op), 1);
    }
    for op in [16u8, 18, 21, 25, 54, 58, 188] {
        assert_eq!(width(op), 2);
    }
    for op in [153u8, 164, 165, 166, 198, 199, 180, 181, 182, 183, 184, 187] {
        assert_eq!(width(op), 3);
    }
}
