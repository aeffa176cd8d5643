use curlyvm::class::load;
use curlyvm::jvm::objects::{Array, Heap, Object};
use curlyvm::jvm::types::JTypeValue;
use std::rc::Rc;

/// The smallest class file: a pool with the name of the class, and empty tables.
fn tiny_class(name: &str) -> Vec<u8> {
    let mut v = Vec::new();
    v.extend_from_slice(&0xCAFE_BABEu32.to_be_bytes());
    v.extend_from_slice(&[0, 0, 0, 52]);
    v.extend_from_slice(&3u16.to_be_bytes());
    v.push(1);
    v.extend_from_slice(&(name.len() as u16).to_be_bytes());
    v.extend_from_slice(name.as_bytes());
    v.extend_from_slice(&[7, 0, 1]);
    v.extend_from_slice(&[0, 1, 0, 2, 0, 2]);
    v.extend_from_slice(&[0, 0, 0, 0, 0, 0, 0, 0]);
    v
}

fn class(name: &str) -> Rc<curlyvm::class::Class> {
    Rc::new(load(&tiny_class(name)).expect("the class loads"))
}

#[test]
fn references_start_at_one_and_rise() {
    let mut heap = Heap::new();
    assert!(heap.has_room());
    let a = heap.allocate_arr(Array::new(2));
    let b = heap.allocate_obj(Object::new(class("A")));
    let c = heap.allocate_arr(Array::new(0));
    let d = heap.allocate_obj(Object::new(class("B")));
    assert_eq!((a, b, c, d), (1, 2, 3, 4));
}

#[test]
fn a_reference_stands_for_what_was_allocated() {
    let mut heap = Heap::new();
    let mut arr = Array::new(3);
    arr.set(1, JTypeValue::Int(11));
    let a = heap.allocate_arr(arr);
    let mut obj = Object::new(class("Thing"));
    obj.fields.insert(4, JTypeValue::Long(44));
    let o = heap.allocate_obj(obj);
    assert_eq!(heap.get_arr(a).len(), 3);
    assert_eq!(heap.get_arr(a).get_int(1), 11);
    assert!(matches!(heap.get_obj(o).field_value(4), JTypeValue::Long(44)));
    assert_eq!(&*heap.get_obj(o).class.name, "Thing");
}

#[test]
fn a_reference_stands_for_an_object_or_for_an_array() {
    let mut heap = Heap::new();
    assert!(!heap.has_arr(0) && !heap.has_obj(0));
    assert!(!heap.has_arr(1) && !heap.has_obj(1));
    let a = heap.allocate_arr(Array::new(1));
    let o = heap.allocate_obj(Object::new(class("A")));
    assert!(heap.has_arr(a) && !heap.has_obj(a));
    assert!(heap.has_obj(o) && !heap.has_arr(o));
    assert!(!heap.has_arr(0) && !heap.has_obj(0));
    assert!(!heap.has_arr(3) && !heap.has_obj(3));
}

#[test]
fn allocations_do_not_disturb_each_other() {
    let mut heap = Heap::new();
    let first = heap.allocate_arr(Array::new(1));
    heap.get_arr_mut(first).set(0, JTypeValue::Int(5));
    let second = heap.allocate_arr(Array::new(1));
    heap.get_arr_mut(second).set(0, JTypeValue::Int(6));
    let third = heap.allocate_obj(Object::new(class("A")));
    heap.get_obj_mut(third).fields.insert(1, JTypeValue::Int(7));
    assert_ne!(first, second);
    assert_eq!(heap.get_arr(first).get_int(0), 5);
    assert_eq!(heap.get_arr(second).get_int(0), 6);
    assert!(matches!(heap.get_obj(third).field_value(1), JTypeValue::Int(7)));
}

#[test]
fn a_new_array_holds_empty_slots() {
    let arr = Array::new(4);
    assert_eq!(arr.len(), 4);
    for i in 0..4 {
        assert!(matches!(arr.get(i), JTypeValue::Empty));
    }
    assert_eq!(Array::new(0).len(), 0);
}

#[test]
fn array_set_changes_one_element() {
    let mut arr = Array::new(3);
    arr.set(2, JTypeValue::Int(-4));
    arr.set(0, JTypeValue::Ref(9));
    assert!(matches!(arr.get(0), JTypeValue::Ref(9)));
    assert!(matches!(arr.get(1), JTypeValue::Empty));
    assert_eq!(arr.get_int(2), -4);
    arr.set(2, JTypeValue::Int(8));
    assert_eq!(arr.get_int(2), 8);
    assert_eq!(arr.len(), 3);
}

#[test]
fn a_new_object_has_no_field_written() {
    let mut obj = Object::new(class("A"));
    assert!(!obj.has_field(0));
    assert!(!obj.has_field(3));
    obj.fields.insert(3, JTypeValue::Int(1));
    assert!(obj.has_field(3));
    assert!(!obj.has_field(0));
    assert!(matches!(obj.field_value(3), JTypeValue::Int(1)));
    assert_eq!(&*obj.class.name, "A");
}
