//! The heap: objects and arrays, found by the references handed out for them.

use crate::class::{Class, ClassView};
use crate::jvm::types::JTypeValue;
use std::collections::hash_map::Entry;
use std::collections::HashMap;
use std::rc::Rc;
use vstd::prelude::*;

verus! {

broadcast use vstd::std_specs::hash::group_hash_axioms;

/// An array of a length fixed at its creation.
pub struct Array {
    arr: Vec<JTypeValue>,
}

impl View for Array {
    type V = Seq<JTypeValue>;

    closed spec fn view(&self) -> Seq<JTypeValue> {
        self.arr@
    }
}

impl Array {
    /// An array of `count` elements, each of them `Empty`.
    pub fn new(count: usize) -> (a: Self)
        ensures
            a@ == Seq::new(count as nat, |i: int| JTypeValue::Empty),
    {
        let a = Array { arr: vec![JTypeValue::Empty; count] };
        a
    }

    /// The number of elements.
    pub fn len(&self) -> (n: usize)
        ensures
            n == self@.len(),
    {
        self.arr.len()
    }

    /// The element at `index`.
    pub fn get(&self, index: usize) -> (v: JTypeValue)
        requires
            index < self@.len(),
        ensures
            v == self@[index as int],
    {
        self.arr[index]
    }

    /// Puts `val` at `index`.
    pub fn set(&mut self, index: usize, val: JTypeValue)
        requires
            index < old(self)@.len(),
        ensures
            final(self)@ == old(self)@.update(index as int, val),
    {
        self.arr[index] = val;
    }

    /// The number held at `index`, where an `Int` is stored.
    pub fn get_int(&self, index: usize) -> (i: i32)
        requires
            index < self@.len(),
            self@[index as int] is Int,
        ensures
            JTypeValue::Int(i) == self@[index as int],
    {
        match self.arr[index] {
            JTypeValue::Int(i) => i,
            _ => 0,
        }
    }
}

/// An object: its class, and the values of the fields that were written,
/// each under the constant-pool index of the field's reference.
#[derive(Debug)]
pub struct Object {
    pub class: Rc<Class>,
    pub fields: HashMap<usize, JTypeValue>,
}

/// The mathematical value of an `Object`.
pub struct ObjectView {
    pub class: ClassView,
    pub fields: Map<usize, JTypeValue>,
}

impl View for Object {
    type V = ObjectView;

    open spec fn view(&self) -> ObjectView {
        ObjectView { class: self.class@, fields: self.fields@ }
    }
}

impl Object {
    /// An object of the class, with no field written.
    pub fn new(class: Rc<Class>) -> (o: Self)
        ensures
            o@ == (ObjectView { class: class@, fields: Map::empty() }),
    {
        Object { class, fields: HashMap::new() }
    }

    /// Whether the field `index` was written.
    pub fn has_field(&self, index: usize) -> (b: bool)
        ensures
            b == self@.fields.contains_key(index),
    {
        self.fields.contains_key(&index)
    }

    /// The value of the field `index`, which was written before.
    pub fn field_value(&self, index: usize) -> (v: JTypeValue)
        requires
            self@.fields.contains_key(index),
        ensures
            v == self@.fields[index],
    {
        match self.fields.get(&index) {
            Some(v) => *v,
            None => JTypeValue::Empty,
        }
    }
}

/// The mathematical value of a `Heap`.
pub struct HeapView {
    /// The reference that the next allocation returns.
    pub next_ref: usize,
    pub objects: Map<usize, ObjectView>,
    pub arrays: Map<usize, Seq<JTypeValue>>,
}

impl HeapView {
    /// Every reference in use lies from 1 up to the counter, and stands for
    /// an object or for an array, never for both.
    pub open spec fn wf(self) -> bool {
        &&& self.next_ref >= 1
        &&& forall|r: usize| #[trigger]
            self.objects.contains_key(r) ==> 1 <= r < self.next_ref && !self.arrays.contains_key(r)
        &&& forall|r: usize| #[trigger] self.arrays.contains_key(r) ==> 1 <= r < self.next_ref
    }

    /// Whether another reference can be handed out.
    pub open spec fn has_room(self) -> bool {
        self.next_ref < usize::MAX
    }

    /// The heap after an object is allocated.
    pub open spec fn with_object(self, o: ObjectView) -> HeapView {
        HeapView {
            next_ref: (self.next_ref + 1) as usize,
            objects: self.objects.insert(self.next_ref, o),
            arrays: self.arrays,
        }
    }

    /// The heap after an array is allocated.
    pub open spec fn with_array(self, a: Seq<JTypeValue>) -> HeapView {
        HeapView {
            next_ref: (self.next_ref + 1) as usize,
            objects: self.objects,
            arrays: self.arrays.insert(self.next_ref, a),
        }
    }
}

/// The allocation of an object keeps a heap well formed.
pub proof fn lemma_object_keeps_wf(h: HeapView, o: ObjectView)
    requires
        h.wf(),
        h.has_room(),
    ensures
        h.with_object(o).wf(),
{
}

/// The allocation of an array keeps a heap well formed.
pub proof fn lemma_array_keeps_wf(h: HeapView, a: Seq<JTypeValue>)
    requires
        h.wf(),
        h.has_room(),
    ensures
        h.with_array(a).wf(),
{
}

/// The values of the objects of a map, key for key.
pub open spec fn object_views(m: Map<usize, Object>) -> Map<usize, ObjectView> {
    Map::new(|r: usize| m.contains_key(r), |r: usize| m[r]@)
}

/// The values of the arrays of a map, key for key.
pub open spec fn array_views(m: Map<usize, Array>) -> Map<usize, Seq<JTypeValue>> {
    Map::new(|r: usize| m.contains_key(r), |r: usize| m[r]@)
}

/// The store of objects and arrays. A counter that starts at 1 gives each
/// allocation its reference; 0 is the null reference and is never given.
/// A heap made by `new` and changed through its methods is well formed
/// (`wf` of its value) at all times.
pub struct Heap {
    ref_counter: usize,
    objects: HashMap<usize, Object>,
    arrays: HashMap<usize, Array>,
}

impl View for Heap {
    type V = HeapView;

    closed spec fn view(&self) -> HeapView {
        HeapView {
            next_ref: self.ref_counter,
            objects: object_views(self.objects@),
            arrays: array_views(self.arrays@),
        }
    }
}

impl Heap {
    /// An empty heap, whose first reference will be 1.
    pub fn new() -> (h: Self)
        ensures
            h@ == (HeapView { next_ref: 1, objects: Map::empty(), arrays: Map::empty() }),
            h@.wf(),
    {
        let h = Heap { ref_counter: 1, objects: HashMap::new(), arrays: HashMap::new() };
        assert(h@.objects =~= Map::empty());
        assert(h@.arrays =~= Map::empty());
        h
    }

    /// Whether another reference can be handed out.
    pub fn has_room(&self) -> (b: bool)
        ensures
            b == self@.has_room(),
    {
        self.ref_counter < usize::MAX
    }

    /// Whether `arr_ref` stands for an array.
    pub fn has_arr(&self, arr_ref: usize) -> (b: bool)
        ensures
            b == self@.arrays.contains_key(arr_ref),
    {
        self.arrays.contains_key(&arr_ref)
    }

    /// Whether `obj_ref` stands for an object.
    pub fn has_obj(&self, obj_ref: usize) -> (b: bool)
        ensures
            b == self@.objects.contains_key(obj_ref),
    {
        self.objects.contains_key(&obj_ref)
    }

    /// Stores an array and returns its reference: the counter's value, which
    /// is then raised by one. The reference is not null and stood for
    /// nothing before.
    pub fn allocate_arr(&mut self, arr: Array) -> (r: usize)
        requires
            old(self)@.wf(),
            old(self)@.has_room(),
        ensures
            r == old(self)@.next_ref,
            r != 0,
            !old(self)@.objects.contains_key(r),
            !old(self)@.arrays.contains_key(r),
            final(self)@ == old(self)@.with_array(arr@),
            final(self)@.wf(),
    {
        let curr_ref = self.ref_counter;
        let ghost before = self.arrays@;
        self.arrays.insert(curr_ref, arr);
        proof {
            assert(array_views(self.arrays@) =~= array_views(before).insert(curr_ref, arr@));
            lemma_array_keeps_wf(old(self)@, arr@);
        }
        self.ref_counter = self.ref_counter + 1;
        curr_ref
    }

    /// The array that `arr_ref` stands for.
    pub fn get_arr(&self, arr_ref: usize) -> (arr: &Array)
        requires
            self@.arrays.contains_key(arr_ref),
        ensures
            arr@ == self@.arrays[arr_ref],
    {
        self.arrays.get(&arr_ref).unwrap()
    }

    /// The array that `arr_ref` stands for, to change in place.
    pub fn get_arr_mut(&mut self, arr_ref: usize) -> (arr: &mut Array)
        requires
            old(self)@.arrays.contains_key(arr_ref),
        ensures
            arr@ == old(self)@.arrays[arr_ref],
            final(self)@ == (HeapView {
                arrays: old(self)@.arrays.insert(arr_ref, final(arr)@),
                ..old(self)@
            }),
            old(self)@.wf() ==> final(self)@.wf(),
    {
        let ghost before = self.arrays@;
        match self.arrays.entry(arr_ref) {
            Entry::Occupied(e) => {
                let arr = e.into_mut();
                proof {
                    assert(array_views(before.insert(arr_ref, *final(arr))) =~= array_views(
                        before,
                    ).insert(arr_ref, final(arr)@));
                }
                arr
            },
            Entry::Vacant(_) => vstd::pervasive::unreached(),
        }
    }

    /// Stores an object and returns its reference: the counter's value,
    /// which is then raised by one. The reference is not null and stood for
    /// nothing before.
    pub fn allocate_obj(&mut self, obj: Object) -> (r: usize)
        requires
            old(self)@.wf(),
            old(self)@.has_room(),
        ensures
            r == old(self)@.next_ref,
            r != 0,
            !old(self)@.objects.contains_key(r),
            !old(self)@.arrays.contains_key(r),
            final(self)@ == old(self)@.with_object(obj@),
            final(self)@.wf(),
    {
        let curr_ref = self.ref_counter;
        let ghost before = self.objects@;
        self.objects.insert(curr_ref, obj);
        proof {
            assert(object_views(self.objects@) =~= object_views(before).insert(curr_ref, obj@));
            lemma_object_keeps_wf(old(self)@, obj@);
        }
        self.ref_counter = self.ref_counter + 1;
        curr_ref
    }

    /// The object that `obj_ref` stands for.
    pub fn get_obj(&self, obj_ref: usize) -> (obj: &Object)
        requires
            self@.objects.contains_key(obj_ref),
        ensures
            obj@ == self@.objects[obj_ref],
    {
        self.objects.get(&obj_ref).unwrap()
    }

    /// The object that `obj_ref` stands for, to change in place.
    pub fn get_obj_mut(&mut self, obj_ref: usize) -> (obj: &mut Object)
        requires
            old(self)@.objects.contains_key(obj_ref),
        ensures
            obj@ == old(self)@.objects[obj_ref],
            final(self)@ == (HeapView {
                objects: old(self)@.objects.insert(obj_ref, final(obj)@),
                ..old(self)@
            }),
            old(self)@.wf() ==> final(self)@.wf(),
    {
        let ghost before = self.objects@;
        match self.objects.entry(obj_ref) {
            Entry::Occupied(e) => {
                let obj = e.into_mut();
                proof {
                    assert(object_views(before.insert(obj_ref, *final(obj))) =~= object_views(
                        before,
                    ).insert(obj_ref, final(obj)@));
                }
                obj
            },
            Entry::Vacant(_) => vstd::pervasive::unreached(),
        }
    }
}

} // verus!
