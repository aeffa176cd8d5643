//! The virtual machine: typed values, the heap, frames and the interpreter.

use crate::class::{share, views, Class, ClassView, Field, PoolError};
use crate::jvm::frame::{Frame, FrameView};
use crate::jvm::instructions::{immediate_wide, in_frame, on_heap};
use crate::jvm::objects::{Heap, HeapView};
use crate::jvm::opcode::{decode, Instr};
use crate::jvm::semantics::{
    attribute_names, chars_before_close, class_named, class_names, countable, fetched,
    code_of, first_from, frame_for, invoked, method_names, nargs, padded, returned, run, step,
    supplied, with_class, MachineView, Run, Step, CODE_HEADER,
};
use crate::jvm::types::{FloatSum, JTypeValue, Sum};
use std::rc::Rc;
use vstd::prelude::*;
use vstd::slice::{slice_subrange, slice_to_vec};
use vstd::string::StrSliceExecFns;

pub mod frame;
pub mod instructions;
pub mod laws;
pub mod objects;
pub mod opcode;
pub mod semantics;
pub mod types;

verus! {

/// Why the machine stopped without a result.
#[derive(Debug, Clone, Copy, PartialEq, Eq, Structural)]
pub enum VmError {
    /// No class of that name is loaded.
    NoSuchClass,
    /// The class has no method of that name.
    NoSuchMethod,
    /// The method has no `Code` attribute.
    NoCodeAttribute,
    /// The `Code` attribute is shorter than its header of eight bytes.
    MalformedCode,
    /// A constant-pool entry is not what an instruction needs.
    Pool(PoolError),
    /// A constant that `ldc` cannot load: it is neither an `Integer` nor a `Float`.
    UnsupportedConstant(usize),
    /// A method descriptor is empty or does not start with a single-byte character.
    BadDescriptor,
    /// The instruction offset is past the code, or the code ends inside an instruction.
    CodeOutOfBounds,
    /// An operand was needed and the stack was empty.
    StackUnderflow,
    /// A value does not have the tag that the instruction asks for.
    TypeMismatch,
    /// No local variable has this index.
    LocalOutOfRange(usize),
    /// The null reference was used as an object or an array.
    NullReference,
    /// A reference stands for nothing of the needed kind.
    DanglingReference(usize),
    /// A field was read that was never written.
    FieldNotSet(usize),
    /// An array index is negative or not below the length.
    ArrayIndexOutOfBounds(i32),
    /// An array was asked for with a negative length.
    NegativeArraySize(i32),
    /// The heap has no reference left to hand out.
    HeapExhausted,
    /// The byte is no instruction that the machine knows.
    UnknownOpcode(u8),
    /// No frame is there to run.
    NoFrame,
    /// A floating-point sum was supplied that the machine is not waiting for.
    NothingDeferred,
}

/// How a run of the machine ended, if it did not fail.
#[derive(Debug, Clone, Copy)]
pub enum Outcome {
    /// The method that was run has returned this value; `Empty` if it
    /// returns none.
    Finished(JTypeValue),
    /// The machine waits for the sum of two floating-point numbers, to be
    /// handed to it with `supply`.
    Deferred(FloatSum),
    /// The steps allowed are used up. The machine can be run on.
    OutOfSteps,
}

/// Whether `r` is what a run returns that ends as `end`.
pub open spec fn reports(r: Result<Outcome, VmError>, end: Run) -> bool {
    match end {
        Run::Finished(_, v) => r matches Ok(Outcome::Finished(w)) && w == v,
        Run::Deferred(_, s) => r matches Ok(Outcome::Deferred(t)) && t == s,
        Run::OutOfSteps(_) => r matches Ok(Outcome::OutOfSteps),
        Run::Failed(_, e) => r == Err::<Outcome, VmError>(e),
    }
}

/// What one step of the machine came to, if it did not fail.
#[derive(Debug, Clone, Copy)]
pub enum Progress {
    /// The machine goes on.
    Running,
    /// The last frame has returned this value.
    Finished(JTypeValue),
    /// The machine waits for the sum of two floating-point numbers.
    Deferred(FloatSum),
}

/// The classes that are loaded, each found by its name.
#[derive(Debug)]
pub struct MethodArea {
    classes: Vec<Rc<Class>>,
}

impl View for MethodArea {
    type V = Seq<ClassView>;

    closed spec fn view(&self) -> Seq<ClassView> {
        views(self.classes@)
    }
}

impl MethodArea {
    /// A method area without classes.
    pub fn new() -> (area: Self)
        ensures
            area@ == Seq::<ClassView>::empty(),
    {
        let area = Self { classes: Vec::new() };
        area
    }

    /// The place of the class of that name.
    fn position(&self, name: &String) -> (r: Option<usize>)
        ensures
            r is Some == first_from(class_names(self@), name@, 0) is Some,
            r matches Some(i) ==> first_from(class_names(self@), name@, 0) == Some(i as int) && i
                < self.classes@.len(),
    {
        let mut i: usize = 0;
        while i < self.classes.len()
            invariant
                i <= self.classes@.len(),
                first_from(class_names(self@), name@, 0) == first_from(
                    class_names(self@),
                    name@,
                    i as int,
                ),
            decreases self.classes@.len() - i,
        {
            if self.classes[i].name == *name {
                return Some(i);
            }
            i = i + 1;
        }
        None
    }

    /// The class of that name, if one is loaded.
    pub fn get(&self, name: &str) -> (r: Option<&Rc<Class>>)
        ensures
            match class_named(self@, name@) {
                Some(c) => r is Some && r->Some_0@ == c,
                None => r is None,
            },
    {
        let owned = name.to_owned();
        match self.position(&owned) {
            Some(i) => Some(&self.classes[i]),
            None => None,
        }
    }

    /// Puts a class into the area, in the place of the class of the same
    /// name if there is one.
    pub fn insert(&mut self, class: Class)
        ensures
            final(self)@ == with_class(old(self)@, class@),
    {
        let name = class.name.clone();
        match self.position(&name) {
            Some(i) => {
                self.classes[i] = Rc::new(class);
            },
            None => {
                let rc = Rc::new(class);
                self.classes.push(rc);
            },
        }
    }
}

/// The place of the first method of that name.
fn method_position(class: &Class, name: &String) -> (r: Option<usize>)
    ensures
        r is Some == first_from(method_names(class@), name@, 0) is Some,
        r matches Some(i) ==> first_from(method_names(class@), name@, 0) == Some(i as int) && i
            < class.methods@.len(),
{
    let mut i: usize = 0;
    while i < class.methods.len()
        invariant
            i <= class.methods@.len(),
            first_from(method_names(class@), name@, 0) == first_from(
                method_names(class@),
                name@,
                i as int,
            ),
        decreases class.methods@.len() - i,
    {
        if class.methods[i].name == *name {
            return Some(i);
        }
        i = i + 1;
    }
    None
}

/// The place of the first attribute of that name.
fn attribute_position(method: &Field, name: &String) -> (r: Option<usize>)
    ensures
        r is Some == first_from(attribute_names(method@), name@, 0) is Some,
        r matches Some(i) ==> first_from(attribute_names(method@), name@, 0) == Some(i as int)
            && i < method.attributes@.len(),
{
    let mut i: usize = 0;
    while i < method.attributes.len()
        invariant
            i <= method.attributes@.len(),
            first_from(attribute_names(method@), name@, 0) == first_from(
                attribute_names(method@),
                name@,
                i as int,
            ),
        decreases method.attributes@.len() - i,
    {
        if method.attributes[i].name == *name {
            return Some(i);
        }
        i = i + 1;
    }
    None
}

/// The local variables that arguments are bound to: the arguments in
/// their order, each `Long` and `Double` followed by an `Empty` slot.
pub fn bind_arguments(args: &[JTypeValue]) -> (locals: Vec<JTypeValue>)
    ensures
        locals@ == padded(args@),
{
    let mut locals: Vec<JTypeValue> = Vec::new();
    let mut i: usize = 0;
    while i < args.len()
        invariant
            i <= args@.len(),
            locals@ == padded(args@.take(i as int)),
        decreases args@.len() - i,
    {
        let a = args[i];
        assert(args@.take(i + 1).drop_last() =~= args@.take(i as int));
        locals.push(a);
        if a.takes_two_slots() {
            locals.push(JTypeValue::Empty);
        }
        i = i + 1;
    }
    assert(args@.take(i as int) =~= args@);
    locals
}

/// The thread: a stack of frames, the running one on top.
#[derive(Debug)]
pub struct JThread {
    stack: Vec<Frame>,
}

impl View for JThread {
    type V = Seq<FrameView>;

    closed spec fn view(&self) -> Seq<FrameView> {
        views(self.stack@)
    }
}

impl JThread {
    /// A thread without frames.
    pub fn new() -> (t: Self)
        ensures
            t@ == Seq::<FrameView>::empty(),
    {
        let t = Self { stack: Vec::new() };
        t
    }

    /// The machine that the frames of this thread make with a heap.
    pub open spec fn machine(&self, heap: HeapView) -> MachineView {
        MachineView { frames: self@, heap }
    }

    /// How many frames there are.
    pub fn depth(&self) -> (n: usize)
        ensures
            n == self@.len(),
    {
        self.stack.len()
    }

    /// The running frame.
    pub fn top_frame(&self) -> (f: &Frame)
        requires
            self@.len() > 0,
        ensures
            f@ == self@.last(),
    {
        &self.stack[self.stack.len() - 1]
    }

    /// The running frame, to change in place.
    pub fn top_frame_mut(&mut self) -> (f: &mut Frame)
        requires
            old(self)@.len() > 0,
        ensures
            f@ == old(self)@.last(),
            final(self)@ == old(self)@.update(old(self)@.len() - 1, final(f)@),
    {
        let n = self.stack.len();
        let f = &mut self.stack[n - 1];
        f
    }

    /// The class and the instructions of a method.
    fn locate(area: &MethodArea, class_name: &str, method_name: &str) -> (r: Result<
        (Rc<Class>, Vec<u8>),
        VmError,
    >)
        ensures
            match code_of(area@, class_name@, method_name@) {
                Ok((class, code)) => r is Ok && r->Ok_0.0@ == class && r->Ok_0.1@ == code,
                Err(e) => r == Err::<(Rc<Class>, Vec<u8>), VmError>(e),
            },
    {
        let class = match area.get(class_name) {
            Some(c) => c,
            None => {
                return Err(VmError::NoSuchClass);
            },
        };
        let wanted = method_name.to_owned();
        let method = match method_position(class, &wanted) {
            Some(m) => &class.methods[m],
            None => {
                return Err(VmError::NoSuchMethod);
            },
        };
        let code_name = "Code".to_owned();
        let code = match attribute_position(method, &code_name) {
            Some(a) => &method.attributes[a],
            None => {
                return Err(VmError::NoCodeAttribute);
            },
        };
        if code.data.len() < CODE_HEADER {
            return Err(VmError::MalformedCode);
        }
        let instructions = slice_to_vec(
            slice_subrange(code.data.as_slice(), CODE_HEADER, code.data.len()),
        );
        Ok((share(class), instructions))
    }

    /// Builds the frame in which a method starts on the given arguments:
    /// the class is looked up by its name, the method is the first of that
    /// name, and its instructions are what follows the header of its first
    /// `Code` attribute.
    pub fn build_frame(
        area: &MethodArea,
        class_name: &str,
        method_name: &str,
        args: &[JTypeValue],
    ) -> (r: Result<Frame, VmError>)
        ensures
            match frame_for(area@, class_name@, method_name@, args@) {
                Ok(f) => r is Ok && r->Ok_0@ == f,
                Err(e) => r == Err::<Frame, VmError>(e),
            },
    {
        let (class, code) = Self::locate(area, class_name, method_name)?;
        Ok(Frame::new(class, code, bind_arguments(args)))
    }

    /// Counts the arguments that a method descriptor announces: one for
    /// each character between its first character and the first `)`.
    pub fn get_nargs(desc: &str) -> (n: u32)
        requires
            countable(desc@),
        ensures
            n == nargs(desc@),
    {
        let len = desc.unicode_len();
        let mut count: u32 = 0;
        let mut i: usize = 1;
        while i < len
            invariant
                1 <= i <= len,
                len == desc@.len(),
                len - 1 <= u32::MAX,
                count == i - 1,
                nargs(desc@) == count + chars_before_close(desc@, i as int),
            decreases len - i,
        {
            if desc.get_char(i) == ')' {
                return count;
            }
            count = count + 1;
            i = i + 1;
        }
        count
    }

    /// Takes the topmost `nargs` operands off a frame and returns the local
    /// variables that they are bound to as arguments: the operand pushed
    /// first is the first argument.
    pub fn pop_operand_stack_to_locals(frame: &mut Frame, nargs: usize) -> (locals: Vec<
        JTypeValue,
    >)
        requires
            nargs <= old(frame)@.operand_stack.len(),
        ensures
            locals@ == padded(
                old(frame)@.operand_stack.skip(old(frame)@.operand_stack.len() - nargs),
            ),
            final(frame)@ == old(frame)@.popped(nargs as int),
    {
        let start = frame.operand_stack.len() - nargs;
        let args = slice_subrange(
            frame.operand_stack.as_slice(),
            start,
            frame.operand_stack.len(),
        );
        let locals = bind_arguments(args);
        frame.operand_stack.truncate(start);
        locals
    }
}

/// The instruction at which a frame stands.
pub fn fetch(frame: &Frame) -> (r: Result<Instr, VmError>)
    ensures
        r == fetched(frame@),
{
    if frame.ip >= frame.code.len() {
        return Err(VmError::CodeOutOfBounds);
    }
    let op = frame.code[frame.ip];
    match decode(op) {
        None => Err(VmError::UnknownOpcode(op)),
        Some(instr) => if instr.size() > frame.code.len() - frame.ip {
            Err(VmError::CodeOutOfBounds)
        } else {
            Ok(instr)
        },
    }
}

/// Whether arguments can be counted in a descriptor.
pub fn is_countable(desc: &str) -> (b: bool)
    ensures
        b == countable(desc@),
{
    let len = desc.unicode_len();
    if len == 0 || (len - 1) as u64 > u32::MAX as u64 {
        return false;
    }
    (desc.get_char(0) as u32) < 0x80
}

impl JThread {
    /// Carries out an invocation: resolves the method reference, takes the
    /// arguments from the running frame, and puts a frame for the method on
    /// top. A method of `java/lang/Object` invoked on a receiver is not
    /// run: the arguments are taken and the invoker moves on. Where the
    /// invocation fails, the frames stay as they are.
    fn invoke(&mut self, area: &MethodArea, instance: bool) -> (r: Result<(), VmError>)
        requires
            old(self)@.len() > 0,
            old(self)@.last().ip + 3 <= old(self)@.last().code.len(),
        ensures
            match invoked(area@, old(self)@, instance) {
                Ok(frames) => r is Ok && final(self)@ == frames,
                Err(e) => r == Err::<(), VmError>(e) && final(self)@ == old(self)@,
            },
    {
        let invoker = self.top_frame();
        proof {
            invoker.lemma_code_fits();
        }
        let method_index = immediate_wide(invoker);
        let static_method = match invoker.class.const_pool.resolve_static_method(
            method_index as usize,
        ) {
            Ok(m) => m,
            Err(e) => {
                return Err(VmError::Pool(e));
            },
        };
        if !is_countable(static_method.method_desc.as_str()) {
            return Err(VmError::BadDescriptor);
        }
        let nargs = Self::get_nargs(static_method.method_desc.as_str()) as usize;
        if instance && nargs == usize::MAX {
            assert(invoker.operand_stack.len() == invoker@.operand_stack.len());
            return Err(VmError::StackUnderflow);
        }
        let count = if instance {
            nargs + 1
        } else {
            nargs
        };
        if invoker.operand_stack.len() < count {
            return Err(VmError::StackUnderflow);
        }
        if instance && static_method.class_name == "java/lang/Object".to_owned() {
            let frame = self.top_frame_mut();
            Self::pop_operand_stack_to_locals(frame, count);
            frame.inc_ip(3);
            return Ok(());
        }
        let (class, code) = Self::locate(
            area,
            static_method.class_name.as_str(),
            static_method.method_name.as_str(),
        )?;
        let frame = self.top_frame_mut();
        let locals = Self::pop_operand_stack_to_locals(frame, count);
        let callee = Frame::new(class, code, locals);
        self.stack.push(callee);
        Ok(())
    }

    /// Drops the running frame and hands `v` to its invoker, which moves on
    /// past its invocation, or out of the machine if there is no invoker.
    /// Where the invoker cannot move on, the frames stay as they are.
    fn give_back(&mut self, v: JTypeValue, Ghost(heap): Ghost<HeapView>) -> (r: Result<
        Progress,
        VmError,
    >)
        requires
            old(self)@.len() > 0,
        ensures
            match returned(old(self).machine(heap), v) {
                Step::Next(m) => r matches Ok(Progress::Running) && final(self)@ == m.frames,
                Step::Finished(m, w) => r matches Ok(Progress::Finished(x)) && x == w
                    && final(self)@ == m.frames,
                Step::Deferred(_) => false,
                Step::Failed(e) => r == Err::<Progress, VmError>(e)
                    && final(self)@ == old(self)@,
            },
    {
        let n = self.stack.len();
        if n >= 2 {
            let invoker = &self.stack[n - 2];
            if invoker.code.len() < 3 || invoker.ip > invoker.code.len() - 3 {
                return Err(VmError::CodeOutOfBounds);
            }
        }
        self.stack.pop();
        if n < 2 {
            return Ok(Progress::Finished(v));
        }
        let frame = self.top_frame_mut();
        frame.push_stack(v);
        frame.inc_ip(3);
        Ok(Progress::Running)
    }

    /// Carries out the instruction at which the running frame stands.
    pub fn step(&mut self, area: &MethodArea, heap: &mut Heap) -> (r: Result<Progress, VmError>)
        requires
            old(heap)@.wf(),
        ensures
            final(heap)@.wf(),
            match step(area@, old(self).machine(old(heap)@)) {
                Step::Next(m) => r matches Ok(Progress::Running)
                    && final(self).machine(final(heap)@) == m,
                Step::Finished(m, v) => r matches Ok(Progress::Finished(w)) && w == v
                    && final(self).machine(final(heap)@) == m,
                Step::Deferred(s) => r matches Ok(Progress::Deferred(t)) && t == s
                    && final(self).machine(final(heap)@) == old(self).machine(old(heap)@),
                Step::Failed(e) => r == Err::<Progress, VmError>(e)
                    && final(self).machine(final(heap)@) == old(self).machine(old(heap)@),
            },
    {
        if self.stack.len() == 0 {
            return Err(VmError::NoFrame);
        }
        let instr = fetch(self.top_frame())?;
        match instr {
            Instr::ArrayLoad
            | Instr::ArrayStore
            | Instr::NewArray
            | Instr::New
            | Instr::GetField
            | Instr::PutField => {
                let frame = self.top_frame_mut();
                match on_heap(frame, heap, instr) {
                    Ok(()) => Ok(Progress::Running),
                    Err(e) => {
                        assert(self@ =~= old(self)@);
                        Err(e)
                    },
                }
            },
            Instr::InvokeStatic => {
                self.invoke(area, false)?;
                Ok(Progress::Running)
            },
            Instr::InvokeInstance => {
                self.invoke(area, true)?;
                Ok(Progress::Running)
            },
            Instr::ReturnValue => {
                let frame = self.top_frame();
                let n = frame.operand_stack.len();
                if n == 0 {
                    return Err(VmError::StackUnderflow);
                }
                let v = frame.operand_stack[n - 1];
                self.give_back(v, Ghost(heap@))
            },
            Instr::Return => self.give_back(JTypeValue::Empty, Ghost(heap@)),
            _ => {
                let frame = self.top_frame_mut();
                match in_frame(frame, instr) {
                    Ok(None) => Ok(Progress::Running),
                    Ok(Some(s)) => {
                        assert(self@ =~= old(self)@);
                        Ok(Progress::Deferred(s))
                    },
                    Err(e) => {
                        assert(self@ =~= old(self)@);
                        Err(e)
                    },
                }
            },
        }
    }

    /// Runs the machine for at most `budget` steps: until the last frame
    /// returns, a floating-point sum is called for, the steps are used up,
    /// or an instruction fails.
    pub fn execute(&mut self, area: &MethodArea, heap: &mut Heap, budget: u64) -> (r: Result<
        Outcome,
        VmError,
    >)
        requires
            old(heap)@.wf(),
        ensures
            final(heap)@.wf(),
            reports(r, run(area@, old(self).machine(old(heap)@), budget as nat)),
            final(self).machine(final(heap)@) == run(
                area@,
                old(self).machine(old(heap)@),
                budget as nat,
            ).machine(),
    {
        let mut left = budget;
        while left > 0
            invariant
                heap@.wf(),
                run(area@, old(self).machine(old(heap)@), budget as nat) == run(
                    area@,
                    self.machine(heap@),
                    left as nat,
                ),
            decreases left,
        {
            match self.step(area, heap) {
                Ok(Progress::Running) => {
                    left = left - 1;
                },
                Ok(Progress::Finished(v)) => {
                    return Ok(Outcome::Finished(v));
                },
                Ok(Progress::Deferred(s)) => {
                    return Ok(Outcome::Deferred(s));
                },
                Err(e) => {
                    return Err(e);
                },
            }
        }
        Ok(Outcome::OutOfSteps)
    }

    /// Starts a method on the given arguments and runs it for at most
    /// `budget` steps. Frames left from an earlier run are dropped. If the
    /// method cannot be started, the thread stays as it is.
    pub fn execute_method(
        &mut self,
        area: &MethodArea,
        heap: &mut Heap,
        class_name: &str,
        method_name: &str,
        args: &[JTypeValue],
        budget: u64,
    ) -> (r: Result<Outcome, VmError>)
        requires
            old(heap)@.wf(),
        ensures
            final(heap)@.wf(),
            match frame_for(area@, class_name@, method_name@, args@) {
                Err(e) => r == Err::<Outcome, VmError>(e) && final(self)@ == old(self)@
                    && final(heap)@ == old(heap)@,
                Ok(f) => {
                    let end = run(
                        area@,
                        MachineView { frames: seq![f], heap: old(heap)@ },
                        budget as nat,
                    );
                    reports(r, end) && final(self).machine(final(heap)@) == end.machine()
                },
            },
    {
        let f = Self::build_frame(area, class_name, method_name, args)?;
        self.stack.clear();
        self.stack.push(f);
        assert(self@ =~= seq![f@]);
        self.execute(area, heap, budget)
    }

    /// Supplies the floating-point sum that the running frame waits for:
    /// the two operands give way to it, and the frame moves on. If the
    /// machine does not wait for a sum of that tag, the thread stays as it is.
    pub fn supply(&mut self, sum: JTypeValue) -> (r: Result<(), VmError>)
        ensures
            match supplied(old(self)@, sum) {
                Ok(frames) => r is Ok && final(self)@ == frames,
                Err(e) => r == Err::<(), VmError>(e) && final(self)@ == old(self)@,
            },
    {
        if self.stack.len() == 0 {
            return Err(VmError::NothingDeferred);
        }
        let waiting = self.top_frame();
        match fetch(waiting) {
            Ok(Instr::Add) => {},
            _ => {
                return Err(VmError::NothingDeferred);
            },
        }
        let n = waiting.operand_stack.len();
        if n < 2 {
            return Err(VmError::NothingDeferred);
        }
        let a = waiting.operand_stack[n - 1];
        let b = waiting.operand_stack[n - 2];
        if !a.can_add(&b) {
            return Err(VmError::NothingDeferred);
        }
        match a.add(b) {
            Sum::Value(_) => {
                return Err(VmError::NothingDeferred);
            },
            Sum::Deferred(_) => {},
        }
        if !a.can_add(&sum) {
            return Err(VmError::TypeMismatch);
        }
        let frame = self.top_frame_mut();
        proof {
            frame.lemma_code_fits();
        }
        frame.operand_stack.truncate(n - 2);
        frame.push_stack(sum);
        frame.inc_ip(1);
        Ok(())
    }
}

/// The mathematical value of a `JVM`.
pub struct JvmView {
    /// The classes that are loaded.
    pub area: Seq<ClassView>,
    /// The frames of the thread and the heap.
    pub machine: MachineView,
}

impl JvmView {
    /// How a run of at most `steps` steps ends that starts from this state.
    pub open spec fn run(self, steps: nat) -> Run {
        run(self.area, self.machine, steps)
    }

    /// The state in which nothing but the machine has changed.
    pub open spec fn with_machine(self, machine: MachineView) -> JvmView {
        JvmView { area: self.area, machine }
    }
}

/// The machine as a whole: the classes that are loaded, the heap and the
/// one thread.
pub struct JVM {
    thread: JThread,
    heap: Heap,
    method_area: MethodArea,
}

impl View for JVM {
    type V = JvmView;

    closed spec fn view(&self) -> JvmView {
        JvmView { area: self.method_area@, machine: self.thread.machine(self.heap@) }
    }
}

impl JVM {
    /// What a run that ends as `end` returns and leaves of the state `before`.
    pub open spec fn ended(self, r: Result<Outcome, VmError>, before: JvmView, end: Run) -> bool {
        reports(r, end) && self@ == before.with_machine(end.machine())
    }

    /// A machine with the class that the bytes of a class file describe,
    /// an empty heap and no frame.
    pub fn new(bytes: &[u8]) -> (r: Result<Self, crate::class::LoadError>)
        ensures
            match crate::class::format::class_of(bytes@) {
                Ok(class) => r is Ok && r->Ok_0@ == (JvmView {
                    area: seq![class],
                    machine: MachineView {
                        frames: Seq::empty(),
                        heap: HeapView { next_ref: 1, objects: Map::empty(), arrays: Map::empty() },
                    },
                }) && r->Ok_0@.machine.heap.wf(),
                Err(e) => r matches Err(f) && f == e,
            },
    {
        let mut method_area = MethodArea::new();
        let class = crate::class::load(bytes)?;
        method_area.insert(class);
        let heap = Heap::new();
        let thread = JThread::new();
        Ok(Self { method_area, thread, heap })
    }

    /// Loads one more class from the bytes of a class file. It takes the
    /// place of a class of the same name. If the bytes do not load, the
    /// machine stays as it is.
    pub fn load_class(&mut self, bytes: &[u8]) -> (r: Result<(), crate::class::LoadError>)
        ensures
            match crate::class::format::class_of(bytes@) {
                Ok(class) => r is Ok && final(self)@ == (JvmView {
                    area: with_class(old(self)@.area, class),
                    machine: old(self)@.machine,
                }),
                Err(e) => r == Err::<(), crate::class::LoadError>(e) && final(self)@ == old(self)@,
            },
    {
        let class = crate::class::load(bytes)?;
        self.method_area.insert(class);
        Ok(())
    }

    /// Runs a method on the given arguments for at most `budget` steps.
    /// The method is the first of that name in the class of that name; it
    /// starts in a frame of its own, frames left from an earlier run being
    /// dropped. If it cannot be started, the machine stays as it is.
    pub fn run(&mut self, class_name: &str, method_name: &str, args: &[JTypeValue], budget: u64)
        -> (r: Result<Outcome, VmError>)
        requires
            old(self)@.machine.heap.wf(),
        ensures
            final(self)@.machine.heap.wf(),
            match frame_for(old(self)@.area, class_name@, method_name@, args@) {
                Err(e) => r == Err::<Outcome, VmError>(e) && final(self)@ == old(self)@,
                Ok(f) => final(self).ended(
                    r,
                    old(self)@,
                    run(
                        old(self)@.area,
                        MachineView { frames: seq![f], heap: old(self)@.machine.heap },
                        budget as nat,
                    ),
                ),
            },
    {
        self.thread.execute_method(
            &self.method_area,
            &mut self.heap,
            class_name,
            method_name,
            args,
            budget,
        )
    }

    /// Runs the machine on from where it stands, for at most `budget` steps.
    pub fn resume(&mut self, budget: u64) -> (r: Result<Outcome, VmError>)
        requires
            old(self)@.machine.heap.wf(),
        ensures
            final(self)@.machine.heap.wf(),
            final(self).ended(r, old(self)@, old(self)@.run(budget as nat)),
    {
        self.thread.execute(&self.method_area, &mut self.heap, budget)
    }

    /// Supplies the floating-point sum that the machine waits for. If it
    /// does not wait for a sum of that tag, the machine stays as it is.
    pub fn supply(&mut self, sum: JTypeValue) -> (r: Result<(), VmError>)
        ensures
            match supplied(old(self)@.machine.frames, sum) {
                Ok(frames) => r is Ok && final(self)@ == old(self)@.with_machine(
                    MachineView { frames, heap: old(self)@.machine.heap },
                ),
                Err(e) => r == Err::<(), VmError>(e) && final(self)@ == old(self)@,
            },
    {
        self.thread.supply(sum)
    }
}

} // verus!
