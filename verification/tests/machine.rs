//! Runs small class files, put together by hand, on the machine.

use curlyvm::class::{load, LoadError, PoolError};
use curlyvm::jvm::types::{FloatSum, JTypeValue};
use curlyvm::jvm::{JThread, MethodArea, Outcome, VmError, JVM};

/// A constant pool under construction: the bytes of its entries and the
/// index that the next entry gets.
struct Pool {
    bytes: Vec<u8>,
    next: u16,
}

impl Pool {
    fn new() -> Self {
        Pool { bytes: Vec::new(), next: 1 }
    }

    fn take(&mut self, slots: u16) -> u16 {
        let idx = self.next;
        self.next += slots;
        idx
    }

    fn utf8(&mut self, s: &str) -> u16 {
        self.bytes.push(1);
        self.bytes.extend_from_slice(&(s.len() as u16).to_be_bytes());
        self.bytes.extend_from_slice(s.as_bytes());
        self.take(1)
    }

    fn integer(&mut self, v: i32) -> u16 {
        self.bytes.push(3);
        self.bytes.extend_from_slice(&v.to_be_bytes());
        self.take(1)
    }

    fn float(&mut self, v: f32) -> u16 {
        self.bytes.push(4);
        self.bytes.extend_from_slice(&v.to_bits().to_be_bytes());
        self.take(1)
    }

    fn long(&mut self, v: i64) -> u16 {
        self.bytes.push(5);
        self.bytes.extend_from_slice(&v.to_be_bytes());
        self.take(2)
    }

    fn class(&mut self, name: &str) -> u16 {
        let n = self.utf8(name);
        self.bytes.push(7);
        self.bytes.extend_from_slice(&n.to_be_bytes());
        self.take(1)
    }

    fn member(&mut self, tag: u8, class: &str, name: &str, desc: &str) -> u16 {
        let c = self.class(class);
        let n = self.utf8(name);
        let d = self.utf8(desc);
        self.bytes.push(12);
        self.bytes.extend_from_slice(&n.to_be_bytes());
        self.bytes.extend_from_slice(&d.to_be_bytes());
        let nt = self.take(1);
        self.bytes.push(tag);
        self.bytes.extend_from_slice(&c.to_be_bytes());
        self.bytes.extend_from_slice(&nt.to_be_bytes());
        self.take(1)
    }

    fn method_ref(&mut self, class: &str, name: &str, desc: &str) -> u16 {
        self.member(10, class, name, desc)
    }

    fn field_ref(&mut self, class: &str, name: &str, desc: &str) -> u16 {
        self.member(9, class, name, desc)
    }
}

/// A method under construction.
struct Method {
    name: u16,
    desc: u16,
    attributes: Vec<(u16, Vec<u8>)>,
}

/// The payload of a `Code` attribute: the header, the instructions, an
/// empty exception table and no attributes.
fn code_payload(code: &[u8]) -> Vec<u8> {
    let mut v = Vec::new();
    v.extend_from_slice(&8u16.to_be_bytes());
    v.extend_from_slice(&8u16.to_be_bytes());
    v.extend_from_slice(&(code.len() as u32).to_be_bytes());
    v.extend_from_slice(code);
    v
}

/// A class under construction.
struct Builder {
    pool: Pool,
    this: u16,
    parent: u16,
    code_name: u16,
    methods: Vec<Method>,
}

impl Builder {
    fn new(name: &str) -> Self {
        let mut pool = Pool::new();
        let this = pool.class(name);
        let parent = pool.class("java/lang/Object");
        let code_name = pool.utf8("Code");
        Builder { pool, this, parent, code_name, methods: Vec::new() }
    }

    fn method(&mut self, name: &str, desc: &str, code: &[u8]) {
        let name = self.pool.utf8(name);
        let desc = self.pool.utf8(desc);
        self.methods.push(Method {
            name,
            desc,
            attributes: vec![(self.code_name, code_payload(code))],
        });
    }

    fn method_with(&mut self, name: &str, desc: &str, attributes: Vec<(u16, Vec<u8>)>) {
        let name = self.pool.utf8(name);
        let desc = self.pool.utf8(desc);
        self.methods.push(Method { name, desc, attributes });
    }

    fn build(&self) -> Vec<u8> {
        let mut v = Vec::new();
        v.extend_from_slice(&0xCAFE_BABEu32.to_be_bytes());
        v.extend_from_slice(&3u16.to_be_bytes());
        v.extend_from_slice(&52u16.to_be_bytes());
        v.extend_from_slice(&self.pool.next.to_be_bytes());
        v.extend_from_slice(&self.pool.bytes);
        v.extend_from_slice(&0x0021u16.to_be_bytes());
        v.extend_from_slice(&self.this.to_be_bytes());
        v.extend_from_slice(&self.parent.to_be_bytes());
        v.extend_from_slice(&0u16.to_be_bytes());
        v.extend_from_slice(&0u16.to_be_bytes());
        v.extend_from_slice(&(self.methods.len() as u16).to_be_bytes());
        for m in &self.methods {
            v.extend_from_slice(&0x0009u16.to_be_bytes());
            v.extend_from_slice(&m.name.to_be_bytes());
            v.extend_from_slice(&m.desc.to_be_bytes());
            v.extend_from_slice(&(m.attributes.len() as u16).to_be_bytes());
            for (name, data) in &m.attributes {
                v.extend_from_slice(&name.to_be_bytes());
                v.extend_from_slice(&(data.len() as u32).to_be_bytes());
                v.extend_from_slice(data);
            }
        }
        v.extend_from_slice(&0u16.to_be_bytes());
        v
    }
}

const ICONST_0: u8 = 3;
const ICONST_1: u8 = 4;
const ICONST_2: u8 = 5;
const ICONST_3: u8 = 6;
const ICONST_5: u8 = 8;
const BIPUSH: u8 = 16;
const LDC: u8 = 18;
const ILOAD: u8 = 21;
const ILOAD_0: u8 = 26;
const ILOAD_1: u8 = 27;
const ILOAD_2: u8 = 28;
const ILOAD_3: u8 = 29;
const LLOAD_0: u8 = 30;
const FLOAD_0: u8 = 34;
const FLOAD_1: u8 = 35;
const DLOAD_0: u8 = 38;
const DLOAD_2: u8 = 40;
const ALOAD_0: u8 = 42;
const IALOAD: u8 = 46;
const ISTORE_0: u8 = 59;
const ISTORE_1: u8 = 60;
const IASTORE: u8 = 79;
const DUP: u8 = 89;
const IADD: u8 = 96;
const LADD: u8 = 97;
const FADD: u8 = 98;
const DADD: u8 = 99;
const INEG: u8 = 116;
const IFEQ: u8 = 153;
const IF_ICMPLT: u8 = 161;
const IF_ACMPEQ: u8 = 165;
const IRETURN: u8 = 172;
const LRETURN: u8 = 173;
const FRETURN: u8 = 174;
const DRETURN: u8 = 175;
const RETURN: u8 = 177;
const GETFIELD: u8 = 180;
const PUTFIELD: u8 = 181;
const INVOKEVIRTUAL: u8 = 182;
const INVOKESPECIAL: u8 = 183;
const INVOKESTATIC: u8 = 184;
const NEW: u8 = 187;
const NEWARRAY: u8 = 188;
const IFNULL: u8 = 198;
const IFNONNULL: u8 = 199;
const ACONST_NULL: u8 = 1;

const BUDGET: u64 = 10_000;

/// The class `Add` with its four methods.
fn add_class() -> Vec<u8> {
    let mut b = Builder::new("Add");
    b.method("add", "(II)I", &[ILOAD_0, ILOAD_1, IADD, IRETURN]);
    b.method("subtract", "(II)I", &[ILOAD_0, ILOAD_1, INEG, IADD, IRETURN]);
    b.method(
        "addMany",
        "(IIIIII)I",
        &[
            ILOAD_0, ILOAD_1, IADD, ILOAD_2, IADD, ILOAD_3, IADD, ILOAD, 4, IADD, ILOAD, 5, IADD,
            IRETURN,
        ],
    );
    b.method("doubleAdd", "(DD)D", &[DLOAD_0, DLOAD_2, DADD, DRETURN]);
    b.build()
}

/// A machine with the class `T`, whose method `m` has the given
/// descriptor and instructions.
fn machine_for(desc: &str, code: &[u8]) -> JVM {
    let mut b = Builder::new("T");
    b.method("m", desc, code);
    JVM::new(&b.build()).expect("the class loads")
}

/// Runs the method `m` of a class made of it alone.
fn run_code(desc: &str, code: &[u8], args: &[JTypeValue]) -> Result<Outcome, VmError> {
    machine_for(desc, code).run("T", "m", args, BUDGET)
}

fn expect_int(r: Result<Outcome, VmError>, expected: i32) {
    match r {
        Ok(Outcome::Finished(JTypeValue::Int(i))) => assert_eq!(expected, i),
        other => panic!("expected Int({}), got {:?}", expected, other),
    }
}

fn expect_error(r: Result<Outcome, VmError>, expected: VmError) {
    match r {
        Err(e) => assert_eq!(expected, e),
        other => panic!("expected {:?}, got {:?}", expected, other),
    }
}

#[test]
fn it_works() {
    let mut jvm = JVM::new(&add_class()).expect("the class loads");
    let v = jvm
        .run(
            "Add",
            "addMany",
            &[
                JTypeValue::Int(1),
                JTypeValue::Int(1),
                JTypeValue::Int(1),
                JTypeValue::Int(1),
                JTypeValue::Int(1),
                JTypeValue::Int(1),
            ],
            BUDGET,
        )
        .expect("the method runs");
    match v {
        Outcome::Finished(JTypeValue::Int(i)) => assert_eq!(6, i),
        _ => assert!(false),
    }
}

#[test]
fn test_get_nargs() {
    let nargs = JThread::get_nargs("(II)I");
    assert_eq!(nargs, 2);
}

#[test]
fn get_nargs_counts_every_character() {
    assert_eq!(JThread::get_nargs("()V"), 0);
    assert_eq!(JThread::get_nargs("(IIIIII)I"), 6);
    assert_eq!(JThread::get_nargs("(Ljava/lang/String;)V"), 18);
    assert_eq!(JThread::get_nargs("(II"), 2);
    assert_eq!(JThread::get_nargs("x"), 0);
}

#[test]
fn add_two_ints() {
    let mut jvm = JVM::new(&add_class()).unwrap();
    expect_int(jvm.run("Add", "add", &[JTypeValue::Int(2), JTypeValue::Int(3)], BUDGET), 5);
}

#[test]
fn subtract_adds_the_negation() {
    let mut jvm = JVM::new(&add_class()).unwrap();
    expect_int(jvm.run("Add", "subtract", &[JTypeValue::Int(2), JTypeValue::Int(3)], BUDGET), -1);
}

#[test]
fn add_many_sums_six_arguments() {
    let mut jvm = JVM::new(&add_class()).unwrap();
    let args = [JTypeValue::Int(1); 6];
    expect_int(jvm.run("Add", "addMany", &args, BUDGET), 6);
}

#[test]
fn double_add_defers_the_sum_to_the_host() {
    let mut jvm = JVM::new(&add_class()).unwrap();
    let args = [JTypeValue::Double(2.0f64.to_bits()), JTypeValue::Double(3.0f64.to_bits())];
    let first = jvm.run("Add", "doubleAdd", &args, BUDGET).unwrap();
    let (a, b) = match first {
        Outcome::Deferred(FloatSum::Double(a, b)) => (a, b),
        other => panic!("expected a deferred sum, got {:?}", other),
    };
    assert_eq!(a, 3.0f64.to_bits());
    assert_eq!(b, 2.0f64.to_bits());
    // Asking again before the sum is there changes nothing.
    assert!(matches!(
        jvm.resume(BUDGET),
        Ok(Outcome::Deferred(FloatSum::Double(x, y))) if x == a && y == b
    ));
    let sum = f64::from_bits(a) + f64::from_bits(b);
    jvm.supply(JTypeValue::Double(sum.to_bits())).unwrap();
    match jvm.resume(BUDGET) {
        Ok(Outcome::Finished(JTypeValue::Double(bits))) => assert_eq!(5.0, f64::from_bits(bits)),
        other => panic!("expected Double(5.0), got {:?}", other),
    }
}

#[test]
fn float_add_defers_single_operands() {
    let mut jvm = machine_for("(FF)F", &[FLOAD_0, FLOAD_1, FADD, FRETURN]);
    let args = [JTypeValue::Float(1.5f32.to_bits()), JTypeValue::Float(0.25f32.to_bits())];
    match jvm.run("T", "m", &args, BUDGET) {
        Ok(Outcome::Deferred(FloatSum::Single(a, b))) => {
            assert_eq!(a, 0.25f32.to_bits());
            assert_eq!(b, 1.5f32.to_bits());
        },
        other => panic!("expected a deferred sum, got {:?}", other),
    }
    assert_eq!(
        jvm.supply(JTypeValue::Double(1.75f64.to_bits())),
        Err(VmError::TypeMismatch)
    );
    assert_eq!(jvm.supply(JTypeValue::Float(1.75f32.to_bits())), Ok(()));
    match jvm.resume(BUDGET) {
        Ok(Outcome::Finished(JTypeValue::Float(bits))) => assert_eq!(1.75, f32::from_bits(bits)),
        other => panic!("expected Float(1.75), got {:?}", other),
    }
}

#[test]
fn supply_is_refused_when_nothing_is_deferred() {
    let mut jvm = JVM::new(&add_class()).unwrap();
    assert_eq!(jvm.supply(JTypeValue::Float(0)), Err(VmError::NothingDeferred));
    let args = [JTypeValue::Int(2), JTypeValue::Int(3)];
    assert!(matches!(jvm.run("Add", "add", &args, 2), Ok(Outcome::OutOfSteps)));
    // The frame stands at `iadd` with two ints: no sum is waited for.
    assert_eq!(jvm.supply(JTypeValue::Int(5)), Err(VmError::NothingDeferred));
    expect_int(jvm.resume(BUDGET), 5);
}

#[test]
fn long_add_wraps() {
    let r = run_code(
        "(JJ)J",
        &[LLOAD_0, 32, LADD, LRETURN],
        &[JTypeValue::Long(i64::MAX), JTypeValue::Long(1)],
    );
    assert!(matches!(r, Ok(Outcome::Finished(JTypeValue::Long(i64::MIN)))));
}

#[test]
fn object_field_round_trip() {
    let mut b = Builder::new("Box");
    let init = b.pool.method_ref("java/lang/Object", "<init>", "()V");
    let class = b.this;
    let field = b.pool.field_ref("Box", "value", "I");
    let c = class.to_be_bytes();
    let i = init.to_be_bytes();
    let f = field.to_be_bytes();
    b.method(
        "seven",
        "()I",
        &[
            NEW, c[0], c[1], DUP, DUP, INVOKESPECIAL, i[0], i[1], DUP, BIPUSH, 7, PUTFIELD, f[0],
            f[1], GETFIELD, f[0], f[1], IRETURN,
        ],
    );
    let mut jvm = JVM::new(&b.build()).unwrap();
    expect_int(jvm.run("Box", "seven", &[], BUDGET), 7);
}

#[test]
fn loop_sums_zero_to_four() {
    // for (i = 0; i < 5; i++) sum += i;  with sum in slot 0 and i in slot 1
    let code = [
        ICONST_0, ISTORE_0, ICONST_0, ISTORE_1, // 0..3
        ILOAD_0, ILOAD_1, IADD, ISTORE_0, // 4..7
        ILOAD_1, ICONST_1, IADD, ISTORE_1, // 8..11
        ILOAD_1, ICONST_5, IF_ICMPLT, 0, 4, // 12..16
        ILOAD_0, IRETURN,
    ];
    expect_int(run_code("(II)I", &code, &[JTypeValue::Int(0), JTypeValue::Int(0)]), 10);
}

#[test]
fn a_run_can_be_taken_up_again_when_its_steps_are_used_up() {
    let code = [
        ICONST_0, ISTORE_0, ICONST_0, ISTORE_1, ILOAD_0, ILOAD_1, IADD, ISTORE_0, ILOAD_1,
        ICONST_1, IADD, ISTORE_1, ILOAD_1, ICONST_5, IF_ICMPLT, 0, 4, ILOAD_0, IRETURN,
    ];
    let mut jvm = machine_for("(II)I", &code);
    let args = [JTypeValue::Int(0), JTypeValue::Int(0)];
    assert!(matches!(jvm.run("T", "m", &args, 0), Ok(Outcome::OutOfSteps)));
    let mut rounds = 0;
    let result = loop {
        match jvm.resume(7) {
            Ok(Outcome::OutOfSteps) => rounds += 1,
            other => break other,
        }
    };
    assert!(rounds > 0);
    expect_int(result, 10);
    // Nothing is left to run.
    expect_error(jvm.resume(1), VmError::NoFrame);
}

#[test]
fn arguments_keep_their_order_across_an_invocation() {
    let mut b = Builder::new("Order");
    let first = b.pool.method_ref("Order", "first", "(III)I");
    let third = b.pool.method_ref("Order", "third", "(III)I");
    let f = first.to_be_bytes();
    let t = third.to_be_bytes();
    b.method("first", "(III)I", &[ILOAD_0, IRETURN]);
    b.method("second", "(III)I", &[ILOAD_1, IRETURN]);
    b.method("third", "(III)I", &[ILOAD_2, IRETURN]);
    b.method(
        "callFirst",
        "()I",
        &[ICONST_1, ICONST_2, ICONST_3, INVOKESTATIC, f[0], f[1], IRETURN],
    );
    b.method(
        "callThird",
        "()I",
        &[ICONST_1, ICONST_2, ICONST_3, INVOKESTATIC, t[0], t[1], IRETURN],
    );
    let mut jvm = JVM::new(&b.build()).unwrap();
    let args = [JTypeValue::Int(1), JTypeValue::Int(2), JTypeValue::Int(3)];
    expect_int(jvm.run("Order", "first", &args, BUDGET), 1);
    expect_int(jvm.run("Order", "second", &args, BUDGET), 2);
    expect_int(jvm.run("Order", "third", &args, BUDGET), 3);
    expect_int(jvm.run("Order", "callFirst", &[], BUDGET), 1);
    expect_int(jvm.run("Order", "callThird", &[], BUDGET), 3);
}

#[test]
fn a_method_of_another_class_is_invoked() {
    let mut b = Builder::new("Main");
    let add = b.pool.method_ref("Add", "add", "(II)I");
    let a = add.to_be_bytes();
    b.method("call", "()I", &[ICONST_2, ICONST_3, INVOKESTATIC, a[0], a[1], IRETURN]);
    let mut jvm = JVM::new(&b.build()).unwrap();
    expect_error(jvm.run("Main", "call", &[], BUDGET), VmError::NoSuchClass);
    assert_eq!(jvm.load_class(&[1, 2, 3]), Err(LoadError::Truncated));
    assert_eq!(jvm.load_class(&add_class()), Ok(()));
    expect_int(jvm.run("Main", "call", &[], BUDGET), 5);
    // A class of the same name takes the place of the one before.
    let mut other = Builder::new("Add");
    other.method("add", "(II)I", &[ILOAD_0, IRETURN]);
    assert_eq!(jvm.load_class(&other.build()), Ok(()));
    expect_int(jvm.run("Main", "call", &[], BUDGET), 2);
}

#[test]
fn build_frame_binds_arguments_in_order() {
    let class = load(&add_class()).unwrap();
    let mut area = MethodArea::new();
    area.insert(class);
    let args = [JTypeValue::Int(1), JTypeValue::Int(2), JTypeValue::Int(3)];
    let frame = JThread::build_frame(&area, "Add", "add", &args).unwrap();
    assert_eq!(frame.locals.len(), 3);
    assert!(matches!(frame.locals[0], JTypeValue::Int(1)));
    assert!(matches!(frame.locals[1], JTypeValue::Int(2)));
    assert!(matches!(frame.locals[2], JTypeValue::Int(3)));
    assert_eq!(frame.ip, 0);
    assert!(frame.operand_stack.is_empty());
    assert_eq!(&frame.code[..4], &[ILOAD_0, ILOAD_1, IADD, IRETURN]);
    assert_eq!(&*frame.class.name, "Add");
}

#[test]
fn wide_arguments_are_padded() {
    let class = load(&add_class()).unwrap();
    let mut area = MethodArea::new();
    area.insert(class);
    let args = [
        JTypeValue::Long(7),
        JTypeValue::Int(1),
        JTypeValue::Double(2.0f64.to_bits()),
        JTypeValue::Int(2),
    ];
    let frame = JThread::build_frame(&area, "Add", "add", &args).unwrap();
    assert_eq!(frame.locals.len(), 6);
    assert!(matches!(frame.locals[0], JTypeValue::Long(7)));
    assert!(matches!(frame.locals[1], JTypeValue::Empty));
    assert!(matches!(frame.locals[2], JTypeValue::Int(1)));
    assert!(matches!(frame.locals[3], JTypeValue::Double(_)));
    assert!(matches!(frame.locals[4], JTypeValue::Empty));
    assert!(matches!(frame.locals[5], JTypeValue::Int(2)));
}

#[test]
fn wide_arguments_are_padded_once_across_an_invocation() {
    // pick(JI)I returns its second argument, which sits in slot 2.
    let mut b = Builder::new("Wide");
    let pick = b.pool.method_ref("Wide", "pick", "(JI)I");
    let p = pick.to_be_bytes();
    b.method("pick", "(JI)I", &[ILOAD_2, IRETURN]);
    b.method("call", "(JI)I", &[LLOAD_0, ILOAD_2, INVOKESTATIC, p[0], p[1], IRETURN]);
    let mut jvm = JVM::new(&b.build()).unwrap();
    let args = [JTypeValue::Long(9), JTypeValue::Int(4)];
    expect_int(jvm.run("Wide", "pick", &args, BUDGET), 4);
    expect_int(jvm.run("Wide", "call", &args, BUDGET), 4);
}

#[test]
fn pop_operand_stack_to_locals_keeps_push_order() {
    let class = load(&add_class()).unwrap();
    let mut area = MethodArea::new();
    area.insert(class);
    let mut frame = JThread::build_frame(&area, "Add", "add", &[]).unwrap();
    frame.push_stack(JTypeValue::Int(9));
    frame.push_stack(JTypeValue::Int(1));
    frame.push_stack(JTypeValue::Long(2));
    frame.push_stack(JTypeValue::Int(3));
    let locals = JThread::pop_operand_stack_to_locals(&mut frame, 3);
    assert_eq!(locals.len(), 4);
    assert!(matches!(locals[0], JTypeValue::Int(1)));
    assert!(matches!(locals[1], JTypeValue::Long(2)));
    assert!(matches!(locals[2], JTypeValue::Empty));
    assert!(matches!(locals[3], JTypeValue::Int(3)));
    assert_eq!(frame.operand_stack.len(), 1);
    assert!(matches!(frame.operand_stack[0], JTypeValue::Int(9)));
}

#[test]
fn a_void_method_leaves_nothing_on_the_stack_of_its_invoker() {
    let mut b = Builder::new("Void");
    let nothing = b.pool.method_ref("Void", "nothing", "(I)V");
    let n = nothing.to_be_bytes();
    b.method("nothing", "(I)V", &[ICONST_5, ISTORE_0, RETURN]);
    // Pushes 2, invokes nothing(3), and returns what is on top: the 2.
    b.method("call", "()I", &[ICONST_2, ICONST_3, INVOKESTATIC, n[0], n[1], IRETURN]);
    let mut jvm = JVM::new(&b.build()).unwrap();
    expect_int(jvm.run("Void", "call", &[], BUDGET), 2);
    assert!(matches!(
        jvm.run("Void", "nothing", &[JTypeValue::Int(0)], BUDGET),
        Ok(Outcome::Finished(JTypeValue::Empty))
    ));
}

#[test]
fn a_returned_value_is_the_one_operand_that_the_invoker_gains() {
    let mut b = Builder::new("Keep");
    let junk = b.pool.method_ref("Keep", "junk", "()I");
    let j = junk.to_be_bytes();
    // Leaves 1 and 2 below the 3 that it returns.
    b.method("junk", "()I", &[ICONST_1, ICONST_2, ICONST_3, IRETURN]);
    // 5 + junk(): were more than one value handed back, the sum would differ.
    b.method("call", "()I", &[ICONST_5, INVOKESTATIC, j[0], j[1], IADD, IRETURN]);
    let mut jvm = JVM::new(&b.build()).unwrap();
    expect_int(jvm.run("Keep", "call", &[], BUDGET), 8);
}

#[test]
fn invokevirtual_passes_the_receiver_first() {
    let mut b = Builder::new("Recv");
    let get = b.pool.method_ref("Recv", "get", "(I)I");
    let field = b.pool.field_ref("Recv", "value", "I");
    let class = b.this.to_be_bytes();
    let g = get.to_be_bytes();
    let f = field.to_be_bytes();
    // get(this, x) = this.value + x
    b.method("get", "(I)I", &[ALOAD_0, GETFIELD, f[0], f[1], ILOAD_1, IADD, IRETURN]);
    b.method(
        "call",
        "()I",
        &[
            NEW, class[0], class[1], DUP, BIPUSH, 30, PUTFIELD, f[0], f[1], // the first object
            NEW, class[0], class[1], DUP, DUP, BIPUSH, 40, PUTFIELD, f[0], f[1], ICONST_2,
            INVOKEVIRTUAL, g[0], g[1], IRETURN,
        ],
    );
    // Without a receiver on the stack the invocation finds too few operands.
    b.method("bare", "()I", &[ICONST_2, INVOKEVIRTUAL, g[0], g[1], IRETURN]);
    let mut jvm = JVM::new(&b.build()).unwrap();
    expect_int(jvm.run("Recv", "call", &[], BUDGET), 42);
    expect_error(jvm.run("Recv", "bare", &[], BUDGET), VmError::StackUnderflow);
}

#[test]
fn array_store_and_load() {
    let code = [
        ICONST_3, NEWARRAY, 10, DUP, ICONST_1, BIPUSH, 42, IASTORE, ICONST_1, IALOAD, IRETURN,
    ];
    expect_int(run_code("()I", &code, &[]), 42);
}

#[test]
fn array_store_out_of_range_aborts() {
    let code = [ICONST_2, NEWARRAY, 10, ICONST_5, ICONST_1, IASTORE, RETURN];
    expect_error(run_code("()V", &code, &[]), VmError::ArrayIndexOutOfBounds(5));
    let code = [ICONST_2, NEWARRAY, 10, ICONST_2, ICONST_1, IASTORE, RETURN];
    expect_error(run_code("()V", &code, &[]), VmError::ArrayIndexOutOfBounds(2));
    let code = [ICONST_2, NEWARRAY, 10, BIPUSH, 0xFF, ICONST_1, IASTORE, RETURN];
    expect_error(run_code("()V", &code, &[]), VmError::ArrayIndexOutOfBounds(-1));
}

#[test]
fn array_load_out_of_range_aborts() {
    let code = [ICONST_2, NEWARRAY, 10, ICONST_2, IALOAD, IRETURN];
    expect_error(run_code("()I", &code, &[]), VmError::ArrayIndexOutOfBounds(2));
    let code = [ICONST_0, NEWARRAY, 10, ICONST_0, IALOAD, IRETURN];
    expect_error(run_code("()I", &code, &[]), VmError::ArrayIndexOutOfBounds(0));
}

#[test]
fn array_load_of_an_element_never_written_is_a_type_error() {
    let code = [ICONST_2, NEWARRAY, 10, ICONST_0, IALOAD, IRETURN];
    expect_error(run_code("()I", &code, &[]), VmError::TypeMismatch);
}

#[test]
fn negative_array_size_aborts() {
    let code = [BIPUSH, 0xFF, NEWARRAY, 10, RETURN];
    expect_error(run_code("()V", &code, &[]), VmError::NegativeArraySize(-1));
    let code = [BIPUSH, 0x80, NEWARRAY, 10, RETURN];
    expect_error(run_code("()V", &code, &[]), VmError::NegativeArraySize(-128));
}

#[test]
fn unknown_opcode_is_loud() {
    expect_error(run_code("()V", &[0xFF], &[]), VmError::UnknownOpcode(0xFF));
    expect_error(run_code("()V", &[0], &[]), VmError::UnknownOpcode(0));
    expect_error(run_code("()V", &[ICONST_0, 167, 0, 0], &[]), VmError::UnknownOpcode(167));
    expect_error(run_code("()V", &[17, 0, 0], &[]), VmError::UnknownOpcode(17));
}

#[test]
fn bipush_is_signed() {
    expect_int(run_code("()I", &[BIPUSH, 0x7F, IRETURN], &[]), 127);
    expect_int(run_code("()I", &[BIPUSH, 0x80, IRETURN], &[]), -128);
    expect_int(run_code("()I", &[BIPUSH, 0xFE, IRETURN], &[]), -2);
}

#[test]
fn ldc_loads_ints_and_floats() {
    let mut b = Builder::new("Ldc");
    let int = b.pool.integer(-123456);
    let float = b.pool.float(2.5);
    let long = b.pool.long(1);
    assert!(int < 256 && float < 256 && long < 256);
    b.method("int", "()I", &[LDC, int as u8, IRETURN]);
    b.method("float", "()F", &[LDC, float as u8, FRETURN]);
    b.method("long", "()J", &[LDC, long as u8, LRETURN]);
    b.method("none", "()I", &[LDC, 0, IRETURN]);
    b.method("beyond", "()I", &[LDC, 200, IRETURN]);
    let mut jvm = JVM::new(&b.build()).unwrap();
    expect_int(jvm.run("Ldc", "int", &[], BUDGET), -123456);
    match jvm.run("Ldc", "float", &[], BUDGET) {
        Ok(Outcome::Finished(JTypeValue::Float(bits))) => assert_eq!(2.5, f32::from_bits(bits)),
        other => panic!("expected Float(2.5), got {:?}", other),
    }
    expect_error(
        jvm.run("Ldc", "long", &[], BUDGET),
        VmError::UnsupportedConstant(long as usize),
    );
    expect_error(jvm.run("Ldc", "none", &[], BUDGET), VmError::Pool(PoolError::UnknownIndex(0)));
    expect_error(
        jvm.run("Ldc", "beyond", &[], BUDGET),
        VmError::Pool(PoolError::UnknownIndex(200)),
    );
}

#[test]
fn branches_on_zero_and_on_references() {
    // returns 1 if the argument is zero, else 2
    let code = [ILOAD_0, IFEQ, 0, 6, ICONST_2, IRETURN, ICONST_1, IRETURN];
    expect_int(run_code("(I)I", &code, &[JTypeValue::Int(0)]), 1);
    expect_int(run_code("(I)I", &code, &[JTypeValue::Int(7)]), 2);
    // returns 1 if the argument is null, else 2
    let code = [ALOAD_0, IFNULL, 0, 6, ICONST_2, IRETURN, ICONST_1, IRETURN];
    expect_int(run_code("(I)I", &code, &[JTypeValue::Ref(0)]), 1);
    expect_int(run_code("(I)I", &code, &[JTypeValue::Ref(3)]), 2);
    expect_error(run_code("(I)I", &code, &[JTypeValue::Int(0)]), VmError::TypeMismatch);
    // returns 1 if both arguments are the same reference, else 2
    let code = [ALOAD_0, 43, IF_ACMPEQ, 0, 7, ICONST_2, IRETURN, ICONST_1, IRETURN];
    expect_int(run_code("(II)I", &code, &[JTypeValue::Ref(4), JTypeValue::Ref(4)]), 1);
    expect_int(run_code("(II)I", &code, &[JTypeValue::Ref(4), JTypeValue::Ref(5)]), 2);
}

#[test]
fn if_icmplt_compares_the_lower_operand_with_the_upper() {
    // returns 1 if a < b, else 2
    let code = [ILOAD_0, ILOAD_1, IF_ICMPLT, 0, 7, ICONST_2, IRETURN, ICONST_1, IRETURN];
    expect_int(run_code("(II)I", &code, &[JTypeValue::Int(1), JTypeValue::Int(2)]), 1);
    expect_int(run_code("(II)I", &code, &[JTypeValue::Int(2), JTypeValue::Int(1)]), 2);
    expect_int(run_code("(II)I", &code, &[JTypeValue::Int(2), JTypeValue::Int(2)]), 2);
}

#[test]
fn linkage_errors_leave_the_machine_usable() {
    let mut b = Builder::new("Link");
    b.method("ok", "()I", &[ICONST_1, IRETURN]);
    let other = b.pool.utf8("Other");
    b.method_with("bare", "()V", vec![]);
    b.method_with("other", "()V", vec![(other, vec![1, 2, 3])]);
    let code_name = b.code_name;
    b.method_with("short", "()V", vec![(code_name, vec![0, 1, 0, 1, 0, 0, 0])]);
    b.method_with("empty", "()V", vec![(code_name, vec![0, 1, 0, 1, 0, 0, 0, 0])]);
    let mut jvm = JVM::new(&b.build()).unwrap();
    expect_error(jvm.run("Missing", "ok", &[], BUDGET), VmError::NoSuchClass);
    expect_error(jvm.run("Link", "missing", &[], BUDGET), VmError::NoSuchMethod);
    expect_error(jvm.run("Link", "bare", &[], BUDGET), VmError::NoCodeAttribute);
    expect_error(jvm.run("Link", "other", &[], BUDGET), VmError::NoCodeAttribute);
    expect_error(jvm.run("Link", "short", &[], BUDGET), VmError::MalformedCode);
    expect_error(jvm.run("Link", "empty", &[], BUDGET), VmError::CodeOutOfBounds);
    expect_int(jvm.run("Link", "ok", &[], BUDGET), 1);
}

#[test]
fn runtime_errors() {
    expect_error(run_code("()I", &[IADD, IRETURN], &[]), VmError::StackUnderflow);
    expect_error(run_code("()I", &[ICONST_1, IADD, IRETURN], &[]), VmError::StackUnderflow);
    expect_error(run_code("()I", &[IRETURN], &[]), VmError::StackUnderflow);
    expect_error(run_code("()I", &[DUP], &[]), VmError::StackUnderflow);
    expect_error(run_code("()I", &[ICONST_1, 9, IADD, IRETURN], &[]), VmError::TypeMismatch);
    expect_error(run_code("()I", &[ACONST_NULL, INEG, IRETURN], &[]), VmError::TypeMismatch);
    expect_error(run_code("()I", &[ACONST_NULL, IFEQ, 0, 0], &[]), VmError::TypeMismatch);
    expect_error(run_code("()I", &[ILOAD_0, IRETURN], &[]), VmError::LocalOutOfRange(0));
    expect_error(run_code("()I", &[ILOAD, 9, IRETURN], &[]), VmError::LocalOutOfRange(9));
    expect_error(run_code("()I", &[ICONST_1, ISTORE_1], &[]), VmError::LocalOutOfRange(1));
    expect_error(run_code("()I", &[ICONST_1], &[]), VmError::CodeOutOfBounds);
    expect_error(run_code("()I", &[BIPUSH], &[]), VmError::CodeOutOfBounds);
    expect_error(run_code("()I", &[ICONST_1, IFEQ, 0], &[]), VmError::CodeOutOfBounds);
    expect_error(run_code("()I", &[ICONST_0, IFEQ, 0, 9], &[]), VmError::CodeOutOfBounds);
    expect_error(
        run_code("()I", &[ACONST_NULL, GETFIELD, 0, 1, IRETURN], &[]),
        VmError::NullReference,
    );
    expect_error(
        run_code("()I", &[ACONST_NULL, ICONST_0, IALOAD, IRETURN], &[]),
        VmError::NullReference,
    );
    expect_error(
        run_code("(I)I", &[ALOAD_0, GETFIELD, 0, 1, IRETURN], &[JTypeValue::Ref(77)]),
        VmError::DanglingReference(77),
    );
    expect_error(
        run_code("()I", &[NEW, 0, 1, GETFIELD, 0, 9, IRETURN], &[]),
        VmError::FieldNotSet(9),
    );
    // A reference to an array is no reference to an object.
    expect_error(
        run_code("()I", &[ICONST_1, NEWARRAY, 10, GETFIELD, 0, 9, IRETURN], &[]),
        VmError::DanglingReference(1),
    );
}

#[test]
fn invocation_errors() {
    let mut b = Builder::new("Inv");
    let missing_class = b.pool.method_ref("Nowhere", "f", "()V");
    let missing_method = b.pool.method_ref("Inv", "nothing", "()V");
    let two = b.pool.method_ref("Inv", "two", "(II)I");
    let blank = b.pool.method_ref("Inv", "two", "");
    let wide_start = b.pool.method_ref("Inv", "two", "\u{e9}I)I");
    let text = b.pool.utf8("text");
    let mc = missing_class.to_be_bytes();
    let mm = missing_method.to_be_bytes();
    let tw = two.to_be_bytes();
    let bl = blank.to_be_bytes();
    let ws = wide_start.to_be_bytes();
    let tx = text.to_be_bytes();
    b.method("two", "(II)I", &[ILOAD_0, ILOAD_1, IADD, IRETURN]);
    b.method("noClass", "()V", &[INVOKESTATIC, mc[0], mc[1], RETURN]);
    b.method("noMethod", "()V", &[INVOKESTATIC, mm[0], mm[1], RETURN]);
    b.method("fewArgs", "()I", &[ICONST_1, INVOKESTATIC, tw[0], tw[1], IRETURN]);
    b.method("blank", "()V", &[INVOKESTATIC, bl[0], bl[1], RETURN]);
    b.method("wideStart", "()V", &[INVOKESTATIC, ws[0], ws[1], RETURN]);
    b.method("notARef", "()V", &[INVOKESTATIC, tx[0], tx[1], RETURN]);
    b.method("zero", "()V", &[INVOKESTATIC, 0, 0, RETURN]);
    let mut jvm = JVM::new(&b.build()).unwrap();
    expect_error(jvm.run("Inv", "noClass", &[], BUDGET), VmError::NoSuchClass);
    expect_error(jvm.run("Inv", "noMethod", &[], BUDGET), VmError::NoSuchMethod);
    expect_error(jvm.run("Inv", "fewArgs", &[], BUDGET), VmError::StackUnderflow);
    expect_error(jvm.run("Inv", "blank", &[], BUDGET), VmError::BadDescriptor);
    expect_error(jvm.run("Inv", "wideStart", &[], BUDGET), VmError::BadDescriptor);
    expect_error(
        jvm.run("Inv", "notARef", &[], BUDGET),
        VmError::Pool(PoolError::NotMemberRef(text as usize)),
    );
    expect_error(
        jvm.run("Inv", "zero", &[], BUDGET),
        VmError::Pool(PoolError::NotMemberRef(0)),
    );
}

#[test]
fn the_object_constructor_is_skipped_for_receivers_only() {
    let mut b = Builder::new("Stub");
    let init = b.pool.method_ref("java/lang/Object", "<init>", "()V");
    let i = init.to_be_bytes();
    // With a receiver the call is swallowed, and the receiver with it.
    b.method(
        "special",
        "()I",
        &[ICONST_5, ACONST_NULL, INVOKESPECIAL, i[0], i[1], IRETURN],
    );
    // A static invocation looks the class up, and does not find it.
    b.method("plain", "()V", &[INVOKESTATIC, i[0], i[1], RETURN]);
    let mut jvm = JVM::new(&b.build()).unwrap();
    expect_int(jvm.run("Stub", "special", &[], BUDGET), 5);
    expect_error(jvm.run("Stub", "plain", &[], BUDGET), VmError::NoSuchClass);
}

#[test]
fn load_reads_the_class_record() {
    let class = load(&add_class()).unwrap();
    assert_eq!(class.name, "Add");
    assert_eq!(class.super_class, "java/lang/Object");
    assert_eq!(class.version_minor, 3);
    assert_eq!(class.version_major, 52);
    assert_eq!(class.flags, 0x0021);
    assert!(class.interfaces.is_empty());
    assert!(class.fields.is_empty());
    assert!(class.attributes.is_empty());
    assert_eq!(class.methods.len(), 4);
    assert_eq!(class.methods[0].name, "add");
    assert_eq!(class.methods[0].descriptor, "(II)I");
    assert_eq!(class.methods[0].flags, 0x0009);
    assert_eq!(class.methods[3].name, "doubleAdd");
    assert_eq!(class.methods[0].attributes.len(), 1);
    assert_eq!(class.methods[0].attributes[0].name, "Code");
    assert_eq!(
        class.methods[0].attributes[0].data,
        vec![0, 8, 0, 8, 0, 0, 0, 4, ILOAD_0, ILOAD_1, IADD, IRETURN]
    );
    assert_eq!(class.const_pool.size as usize, class.const_pool.table.len() + 1);
}

#[test]
fn load_rejects_what_is_no_class_file() {
    let mut bytes = add_class();
    bytes[3] = 0xBF;
    assert_eq!(load(&bytes).unwrap_err(), LoadError::NotAClassFile);
    assert_eq!(load(&[]).unwrap_err(), LoadError::Truncated);
    assert_eq!(load(&[0xCA, 0xFE, 0xBA]).unwrap_err(), LoadError::Truncated);
    assert_eq!(load(&[0xCA, 0xFE, 0xBA, 0xBE, 0, 0]).unwrap_err(), LoadError::Truncated);
}

#[test]
fn load_rejects_every_truncation() {
    let bytes = add_class();
    assert!(load(&bytes).is_ok());
    for cut in 0..bytes.len() {
        assert_eq!(load(&bytes[..cut]).unwrap_err(), LoadError::Truncated, "cut at {}", cut);
    }
    let mut longer = bytes.clone();
    longer.extend_from_slice(&[1, 2, 3]);
    assert!(load(&longer).is_ok());
}

#[test]
fn load_rejects_invalid_text() {
    let mut v = Vec::new();
    v.extend_from_slice(&0xCAFE_BABEu32.to_be_bytes());
    v.extend_from_slice(&[0, 0, 0, 52]);
    v.extend_from_slice(&2u16.to_be_bytes());
    v.extend_from_slice(&[1, 0, 2, 0xC3, 0x28]);
    assert_eq!(load(&v).unwrap_err(), LoadError::InvalidText);
}

/// A class file with the given pool and the given indices for the names
/// of the class and of its super class, and nothing else.
fn bare_class(pool: &Pool, this: u16, parent: u16) -> Vec<u8> {
    let mut v = Vec::new();
    v.extend_from_slice(&0xCAFE_BABEu32.to_be_bytes());
    v.extend_from_slice(&[0, 0, 0, 52]);
    v.extend_from_slice(&pool.next.to_be_bytes());
    v.extend_from_slice(&pool.bytes);
    v.extend_from_slice(&[0, 1]);
    v.extend_from_slice(&this.to_be_bytes());
    v.extend_from_slice(&parent.to_be_bytes());
    v.extend_from_slice(&[0, 0, 0, 0, 0, 0, 0, 0]);
    v
}

#[test]
fn load_reports_which_name_did_not_resolve() {
    let mut pool = Pool::new();
    let this = pool.class("A");
    let number = pool.integer(5);
    assert_eq!(
        load(&bare_class(&pool, number, this)).unwrap_err(),
        LoadError::ClassName(PoolError::NotText(number as usize))
    );
    assert_eq!(
        load(&bare_class(&pool, this, 99)).unwrap_err(),
        LoadError::SuperClassName(PoolError::UnknownIndex(99))
    );
    assert_eq!(
        load(&bare_class(&pool, 0, this)).unwrap_err(),
        LoadError::ClassName(PoolError::UnknownIndex(0))
    );
    let mut with_interface = bare_class(&pool, this, this);
    let at = with_interface.len() - 8;
    with_interface.splice(at..at + 2, [0, 1, 0, number as u8]);
    assert_eq!(
        load(&with_interface).unwrap_err(),
        LoadError::Name(PoolError::NotText(number as usize))
    );
    assert!(load(&bare_class(&pool, this, this)).is_ok());
}

#[test]
fn pool_keeps_indices_aligned_after_wide_constants() {
    let mut pool = Pool::new();
    let this = pool.class("A"); // 1: text, 2: class
    let long = pool.long(-2); // 3 and 4
    let after = pool.integer(9); // 5
    assert_eq!((this, long, after, pool.next), (2, 3, 5, 6));
    pool.bytes.push(6); // a double at 6 and 7
    pool.bytes.extend_from_slice(&1.5f64.to_bits().to_be_bytes());
    pool.next += 2;
    pool.bytes.push(99); // an unknown tag at 8
    pool.next += 1;
    let class = load(&bare_class(&pool, this, this)).unwrap();
    let table = &class.const_pool.table;
    assert_eq!(class.const_pool.size, 9);
    assert_eq!(table.len(), 8);
    assert!(matches!(class.const_pool.resolve(3), Ok(curlyvm::class::Const::Long(-2))));
    assert!(matches!(class.const_pool.resolve(4), Ok(curlyvm::class::Const::Unusable)));
    assert!(matches!(class.const_pool.resolve(5), Ok(curlyvm::class::Const::Integer(9))));
    assert!(matches!(
        class.const_pool.resolve(6),
        Ok(curlyvm::class::Const::Double(bits)) if f64::from_bits(*bits) == 1.5
    ));
    assert!(matches!(class.const_pool.resolve(7), Ok(curlyvm::class::Const::Unusable)));
    assert!(matches!(class.const_pool.resolve(8), Ok(curlyvm::class::Const::Unknown)));
    assert_eq!(class.const_pool.resolve(9).unwrap_err(), PoolError::UnknownIndex(9));
    assert_eq!(class.const_pool.resolve(0).unwrap_err(), PoolError::UnknownIndex(0));
}

#[test]
fn a_wide_constant_at_the_last_index_takes_one_entry_more() {
    let mut pool = Pool::new();
    let this = pool.class("A"); // 1, 2
    pool.bytes.push(5); // a long at 3, where the count says that 3 is the last index
    pool.bytes.extend_from_slice(&7i64.to_be_bytes());
    pool.next = 4;
    let class = load(&bare_class(&pool, this, this)).unwrap();
    assert_eq!(class.const_pool.size, 4);
    assert_eq!(class.const_pool.table.len(), 4);
    assert!(matches!(class.const_pool.resolve(4), Ok(curlyvm::class::Const::Unusable)));
}
