//! What holds of every heap, of every binding of arguments and of every
//! step of the machine.

use crate::class::ClassView;
use crate::jvm::frame::FrameView;
use crate::jvm::objects::{HeapView, ObjectView};
use crate::jvm::opcode::{decoded, Instr};
use crate::jvm::semantics::{fetched, in_array, padded, run, step, MachineView, Run, Step};
use crate::jvm::types::JTypeValue;
use crate::jvm::VmError;
use vstd::prelude::*;

verus! {

/// Round trip of an object. After an object is allocated, the reference
/// returned for it stands for that object and for no array; the reference
/// is not null; what the other references stand for is as before; and the
/// next reference is greater.
pub proof fn lemma_object_round_trip(h: HeapView, o: ObjectView)
    requires
        h.wf(),
        h.has_room(),
    ensures
        h.next_ref != 0,
        h.with_object(o).objects.contains_key(h.next_ref),
        h.with_object(o).objects[h.next_ref] == o,
        !h.with_object(o).arrays.contains_key(h.next_ref),
        !h.objects.contains_key(h.next_ref) && !h.arrays.contains_key(h.next_ref),
        forall|r: usize| #[trigger]
            h.objects.contains_key(r) ==> h.with_object(o).objects.contains_key(r)
                && h.with_object(o).objects[r] == h.objects[r],
        h.with_object(o).arrays == h.arrays,
        h.with_object(o).next_ref > h.next_ref,
        h.with_object(o).wf(),
{
}

/// Round trip of an array. After an array is allocated, the reference
/// returned for it stands for that array and for no object; the reference
/// is not null; what the other references stand for is as before; and the
/// next reference is greater.
pub proof fn lemma_array_round_trip(h: HeapView, a: Seq<JTypeValue>)
    requires
        h.wf(),
        h.has_room(),
    ensures
        h.next_ref != 0,
        h.with_array(a).arrays.contains_key(h.next_ref),
        h.with_array(a).arrays[h.next_ref] == a,
        !h.with_array(a).objects.contains_key(h.next_ref),
        !h.objects.contains_key(h.next_ref) && !h.arrays.contains_key(h.next_ref),
        forall|r: usize| #[trigger]
            h.arrays.contains_key(r) ==> h.with_array(a).arrays.contains_key(r) && h.with_array(
                a,
            ).arrays[r] == h.arrays[r],
        h.with_array(a).objects == h.objects,
        h.with_array(a).next_ref > h.next_ref,
        h.with_array(a).wf(),
{
}

/// The local variables of one sequence of arguments after another are
/// those of the first followed by those of the second.
pub proof fn lemma_padded_concat(a: Seq<JTypeValue>, b: Seq<JTypeValue>)
    ensures
        padded(a + b) == padded(a) + padded(b),
    decreases b.len(),
{
    if b.len() > 0 {
        assert((a + b).drop_last() =~= a + b.drop_last());
        lemma_padded_concat(a, b.drop_last());
    }
}

/// The index of the local variable that the argument `i` is bound to: the
/// number of slots that the arguments before it take.
pub open spec fn slot_of(args: Seq<JTypeValue>, i: int) -> int {
    padded(args.take(i)).len() as int
}

/// Argument order and padding. Each argument is bound to the local
/// variable after those of the arguments before it; a `Long` or a
/// `Double` takes that variable and the next, which is `Empty`, and any
/// other argument takes one.
pub proof fn lemma_argument_slots(args: Seq<JTypeValue>, i: int)
    requires
        0 <= i < args.len(),
    ensures
        slot_of(args, 0) == 0,
        slot_of(args, i + 1) == slot_of(args, i) + if args[i].is_wide() {
            2int
        } else {
            1int
        },
        slot_of(args, i + 1) <= padded(args).len(),
        padded(args)[slot_of(args, i)] == args[i],
        args[i].is_wide() ==> padded(args)[slot_of(args, i) + 1] == JTypeValue::Empty,
        slot_of(args, args.len() as int) == padded(args).len(),
{
    assert(args.take(args.len() as int) =~= args);
    assert(args.take(i + 1).drop_last() =~= args.take(i));
    assert(args =~= args.take(i + 1) + args.skip(i + 1));
    lemma_padded_concat(args.take(i + 1), args.skip(i + 1));
}

/// Argument order. Where no argument is a `Long` or a `Double`, the local
/// variables are the arguments, each at its own index.
pub proof fn lemma_narrow_arguments(args: Seq<JTypeValue>)
    requires
        forall|i: int| 0 <= i < args.len() ==> !(#[trigger] args[i]).is_wide(),
    ensures
        padded(args) == args,
    decreases args.len(),
{
    if args.len() > 0 {
        lemma_narrow_arguments(args.drop_last());
    }
}

/// Unknown opcodes are loud. Where the running frame stands at a byte
/// that is no instruction, the step fails with that byte, and so does
/// every run of at least one step.
pub proof fn lemma_unknown_opcode(area: Seq<ClassView>, m: MachineView, steps: nat)
    requires
        m.frames.len() > 0,
        m.frames.last().ip < m.frames.last().code.len(),
        decoded(m.frames.last().code[m.frames.last().ip as int]) is None,
    ensures
        step(area, m) == Step::Failed(
            VmError::UnknownOpcode(m.frames.last().code[m.frames.last().ip as int]),
        ),
        steps > 0 ==> run(area, m, steps) == Run::Failed(
            m,
            VmError::UnknownOpcode(m.frames.last().code[m.frames.last().ip as int]),
        ),
{
}

/// Array bounds on a load. Where an array is read at an index that is
/// negative or not below its length, the step fails with that index.
pub proof fn lemma_array_load_bounds(area: Seq<ClassView>, m: MachineView, index: i32, r: usize)
    requires
        m.frames.len() > 0,
        fetched(m.frames.last()) == Ok::<Instr, VmError>(Instr::ArrayLoad),
        m.frames.last().operand_stack.len() >= 2,
        m.frames.last().operand(0) == JTypeValue::Int(index),
        m.frames.last().operand(1) == JTypeValue::Ref(r),
        m.heap.arrays.contains_key(r),
        !in_array(index, m.heap.arrays[r].len()),
    ensures
        step(area, m) == Step::Failed(VmError::ArrayIndexOutOfBounds(index)),
{
}

/// Array bounds on a store. Where an array is written at an index that
/// is negative or not below its length, the step fails with that index.
pub proof fn lemma_array_store_bounds(area: Seq<ClassView>, m: MachineView, index: i32, r: usize)
    requires
        m.frames.len() > 0,
        fetched(m.frames.last()) == Ok::<Instr, VmError>(Instr::ArrayStore),
        m.frames.last().operand_stack.len() >= 3,
        m.frames.last().operand(1) == JTypeValue::Int(index),
        m.frames.last().operand(2) == JTypeValue::Ref(r),
        m.heap.arrays.contains_key(r),
        !in_array(index, m.heap.arrays[r].len()),
    ensures
        step(area, m) == Step::Failed(VmError::ArrayIndexOutOfBounds(index)),
{
}

/// Negative array sizes. Where an array of a negative length is asked
/// for, the step fails with that length.
pub proof fn lemma_negative_array_size(area: Seq<ClassView>, m: MachineView, count: i32)
    requires
        m.frames.len() > 0,
        fetched(m.frames.last()) == Ok::<Instr, VmError>(Instr::NewArray),
        m.frames.last().operand_stack.len() >= 1,
        m.frames.last().operand(0) == JTypeValue::Int(count),
        count < 0,
    ensures
        step(area, m) == Step::Failed(VmError::NegativeArraySize(count)),
{
}

/// The machine after `n` steps, each of which lets it go on.
pub open spec fn after(area: Seq<ClassView>, m: MachineView, n: nat) -> Option<MachineView>
    decreases n,
{
    if n == 0 {
        Some(m)
    } else {
        match after(area, m, (n - 1) as nat) {
            Some(p) => match step(area, p) {
                Step::Next(q) => Some(q),
                _ => None,
            },
            None => None,
        }
    }
}

/// The value that the instruction returns at which the machine stands:
/// the top operand where it returns a value, `Empty` where it does not.
pub open spec fn value_returned(m: MachineView) -> JTypeValue {
    match fetched(m.frames.last()) {
        Ok(Instr::ReturnValue) => m.frames.last().operand(0),
        _ => JTypeValue::Empty,
    }
}

/// A run goes through the states that its steps make: after `n` steps
/// that let the machine go on, it ends as the run of the rest from there.
pub proof fn lemma_run_after(area: Seq<ClassView>, m: MachineView, n: nat, rest: nat)
    requires
        after(area, m, n) is Some,
    ensures
        run(area, m, n + rest) == run(area, after(area, m, n)->Some_0, rest),
    decreases n,
{
    if n > 0 {
        lemma_run_after(area, m, (n - 1) as nat, rest + 1);
    }
}

/// Runs can be cut into pieces. A run that uses up its steps and is then
/// run on ends as one run with all the steps; a run that ends before its
/// steps are used up ends the same with more.
pub proof fn lemma_run_in_pieces(area: Seq<ClassView>, m: MachineView, first: nat, more: nat)
    ensures
        run(area, m, first + more) == match run(area, m, first) {
            Run::OutOfSteps(n) => run(area, n, more),
            other => other,
        },
    decreases first,
{
    if first > 0 {
        if let Step::Next(n) = step(area, m) {
            lemma_run_in_pieces(area, n, (first - 1) as nat, more);
        }
    }
}

/// One step leaves the frames below the running one as they are, but for
/// a return, which drops the running frame and hands the value returned to
/// the frame below.
pub proof fn lemma_step_below(area: Seq<ClassView>, p: MachineView, q: MachineView)
    requires
        step(area, p) == Step::Next(q),
    ensures
        p.frames.len() >= 1,
        q.frames.len() >= p.frames.len() - 1,
        q.frames.len() >= p.frames.len() ==> q.frames.take(p.frames.len() - 1) == p.frames.take(
            p.frames.len() - 1,
        ),
        q.frames.len() == p.frames.len() - 1 ==> p.frames.len() >= 2 && q.frames.take(
            p.frames.len() - 2,
        ) == p.frames.take(p.frames.len() - 2) && q.frames[p.frames.len() - 2]
            == p.frames[p.frames.len() - 2].pushed(value_returned(p)).advanced(3),
{
}

/// While the frames above a given depth run, those below it stay as they
/// are. The frame at the depth itself stays as it is until the frame
/// above it returns, and then has the value returned pushed and has moved
/// on past its invocation.
pub proof fn lemma_frames_below(area: Seq<ClassView>, m: MachineView, n: nat, d: int)
    requires
        1 <= d <= m.frames.len(),
        after(area, m, n) is Some,
        forall|k: nat| k < n ==> (#[trigger] after(area, m, k))->Some_0.frames.len() > d,
    ensures
        after(area, m, n)->Some_0.frames.len() >= d,
        after(area, m, n)->Some_0.frames.take(d - 1) == m.frames.take(d - 1),
        after(area, m, n)->Some_0.frames.len() > d || n == 0 ==> after(
            area,
            m,
            n,
        )->Some_0.frames[d - 1] == m.frames[d - 1],
        after(area, m, n)->Some_0.frames.len() == d && n > 0 ==> after(
            area,
            m,
            n,
        )->Some_0.frames[d - 1] == m.frames[d - 1].pushed(
            value_returned(after(area, m, (n - 1) as nat)->Some_0),
        ).advanced(3),
    decreases n,
{
    if n > 0 {
        lemma_frames_below(area, m, (n - 1) as nat, d);
    }
}

/// Operand-stack discipline. Take a frame that has put a frame for a
/// method on top of itself, and let the machine run until that method has
/// returned, with whatever it invoked in turn. Then the frames below the
/// invoker are as they were; the method's frame, with its local variables,
/// is gone; and the invoker differs from what it was when the method
/// started in this alone: the value returned is pushed on its operand
/// stack (nothing is pushed where the method returns none), and it has
/// moved on past the three bytes of its invocation.
pub proof fn lemma_call_discipline(area: Seq<ClassView>, m: MachineView, n: nat, d: int)
    requires
        1 <= d < m.frames.len(),
        after(area, m, n) is Some,
        forall|k: nat| k < n ==> (#[trigger] after(area, m, k))->Some_0.frames.len() > d,
        after(area, m, n)->Some_0.frames.len() == d,
    ensures
        n > 0,
        after(area, m, n)->Some_0.frames.take(d - 1) == m.frames.take(d - 1),
        after(area, m, n)->Some_0.frames.last() == m.frames[d - 1].pushed(
            value_returned(after(area, m, (n - 1) as nat)->Some_0),
        ).advanced(3),
        after(area, m, n)->Some_0.frames.last().locals == m.frames[d - 1].locals,
{
    lemma_frames_below(area, m, n, d);
}

/// When a run has finished, no frame is left: neither operands nor local
/// variables of the method that was run can be seen.
pub proof fn lemma_finished_leaves_no_frame(area: Seq<ClassView>, m: MachineView, steps: nat)
    requires
        run(area, m, steps) is Finished,
    ensures
        run(area, m, steps)->Finished_0.frames.len() == 0,
    decreases steps,
{
    if steps > 0 {
        if let Step::Next(n) = step(area, m) {
            lemma_finished_leaves_no_frame(area, n, (steps - 1) as nat);
        }
    }
}

/// No operand of the frame is `Empty`.
pub open spec fn free_of_padding(f: FrameView) -> bool {
    forall|j: int| 0 <= j < f.operand_stack.len() ==> !(#[trigger] f.operand_stack[j] is Empty)
}

/// No operand of any of the frames is `Empty`.
pub open spec fn all_free_of_padding(frames: Seq<FrameView>) -> bool {
    forall|i: int| 0 <= i < frames.len() ==> free_of_padding(#[trigger] frames[i])
}

/// Padding stays off the operand stacks. Where no operand of any frame is
/// `Empty`, none is after a step, whatever the step does.
pub proof fn lemma_padding_stays_off(area: Seq<ClassView>, m: MachineView)
    requires
        all_free_of_padding(m.frames),
    ensures
        step(area, m) matches Step::Next(n) ==> all_free_of_padding(n.frames),
        step(area, m) matches Step::Finished(n, _) ==> all_free_of_padding(n.frames),
{
}

} // verus!
