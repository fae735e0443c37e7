use pybytes_core::bytes::{bytes_new, PyBytes, PyBytesRef};
use pybytes_core::class::{call_native, init, NativeOp, NativeValue, BYTES_DOC};
use pybytes_core::error::{CompareOp, PyError};
use pybytes_core::object::{get_value, isinstance, PyClass, PyObject};

fn construct(vals: Vec<i64>) -> PyBytesRef {
    bytes_new(PyClass::Bytes, Some(&vals)).unwrap()
}

fn handle(vals: &[u8]) -> PyBytesRef {
    PyBytes::new(vals.to_vec()).into_ref_with_type(PyClass::Bytes).unwrap()
}

fn as_object(vals: &[u8]) -> PyObject {
    PyObject::Bytes(handle(vals))
}

#[test]
fn scenario_hi() {
    let b = construct(vec![104, 105]);
    assert_eq!(b.value().repr().unwrap(), "b'hi'");
    assert_eq!(b.value().len(), 2);
    let mut it = PyBytes::iter(&b);
    assert_eq!(it.next(), Some(104));
    assert_eq!(it.next(), Some(105));
    assert_eq!(it.next(), None);
}

#[test]
fn construct_without_argument_is_empty() {
    let b = bytes_new(PyClass::Bytes, None).unwrap();
    assert_eq!(b.value().len(), 0);
    assert_eq!(b.value().repr().unwrap(), "b''");
}

#[test]
fn construct_from_empty_list_is_empty() {
    let b = construct(vec![]);
    assert_eq!(b.value().len(), 0);
    assert!(b.value().as_vec().is_empty());
}

#[test]
fn construct_rejects_256() {
    assert_eq!(bytes_new(PyClass::Bytes, Some(&vec![256])).unwrap_err(), PyError::Construction { index: 0 });
}

#[test]
fn construct_rejects_negative() {
    assert_eq!(bytes_new(PyClass::Bytes, Some(&vec![-1])).unwrap_err(), PyError::Construction { index: 0 });
}

#[test]
fn construct_reports_first_invalid_element() {
    let r = bytes_new(PyClass::Bytes, Some(&vec![0, 255, 300, -5]));
    assert_eq!(r.unwrap_err(), PyError::Construction { index: 2 });
}

#[test]
fn construct_keeps_bytes_and_edges() {
    let b = construct(vec![0, 1, 127, 128, 255]);
    assert_eq!(b.value().as_vec(), &vec![0u8, 1, 127, 128, 255]);
    assert_eq!(b.value().len(), 5);
}

#[test]
fn len_matches_input_length() {
    for n in [0usize, 1, 7, 300] {
        let vals: Vec<i64> = (0..n).map(|i| (i % 256) as i64).collect();
        assert_eq!(construct(vals).value().len(), n);
    }
}

#[test]
fn equality_by_content() {
    let a = PyBytes::new(vec![1, 2, 3]);
    assert!(a.eq(&as_object(&[1, 2, 3])));
    assert!(!a.eq(&as_object(&[1, 2])));
    assert!(!a.eq(&as_object(&[1, 2, 4])));
    assert!(PyBytes::new(vec![]).eq(&as_object(&[])));
}

#[test]
fn equality_with_other_type_is_false() {
    let a = PyBytes::new(vec![1]);
    assert!(!a.eq(&PyObject::Int(1)));
    assert!(!a.eq(&PyObject::Str("\u{1}".to_string())));
    assert!(!a.eq(&PyObject::NoneValue));
}

#[test]
fn ordering_is_lexicographic() {
    let a = PyBytes::new(vec![1, 2]);
    assert_eq!(a.lt(&as_object(&[1, 3])), Ok(true));
    assert_eq!(a.lt(&as_object(&[1, 2, 0])), Ok(true));
    assert_eq!(a.lt(&as_object(&[1, 2])), Ok(false));
    assert_eq!(a.le(&as_object(&[1, 2])), Ok(true));
    assert_eq!(a.le(&as_object(&[0, 9])), Ok(false));
    assert_eq!(a.gt(&as_object(&[1])), Ok(true));
    assert_eq!(a.gt(&as_object(&[2])), Ok(false));
    assert_eq!(a.ge(&as_object(&[1, 2])), Ok(true));
    assert_eq!(a.ge(&as_object(&[1, 2, 1])), Ok(false));
    assert_eq!(PyBytes::new(vec![200]).gt(&as_object(&[100, 255])), Ok(true));
}

#[test]
fn ordering_with_other_type_fails() {
    let a = PyBytes::new(vec![1]);
    let x = PyObject::Int(1);
    assert_eq!(a.lt(&x), Err(PyError::ComparisonType { op: CompareOp::Lt }));
    assert_eq!(a.le(&x), Err(PyError::ComparisonType { op: CompareOp::Le }));
    assert_eq!(a.gt(&x), Err(PyError::ComparisonType { op: CompareOp::Gt }));
    assert_eq!(a.ge(&PyObject::Bool(true)), Err(PyError::ComparisonType { op: CompareOp::Ge }));
}

#[test]
fn hash_equal_for_equal_content() {
    let a = construct(vec![5, 6, 7]);
    let b = PyBytes::new(vec![5, 6, 7]);
    assert_eq!(a.value().hash(), b.hash());
    assert_ne!(a.value().hash(), PyBytes::new(vec![5, 6]).hash());
}

#[test]
fn repr_of_utf8_text() {
    let b = PyBytes::new("é!".as_bytes().to_vec());
    assert_eq!(b.repr().unwrap(), "b'é!'");
}

#[test]
fn repr_of_invalid_text_fails() {
    assert_eq!(PyBytes::new(vec![0xff]).repr(), Err(PyError::InvalidText));
    assert_eq!(PyBytes::new(vec![104, 0xc3]).repr(), Err(PyError::InvalidText));
}

#[test]
fn iterators_advance_independently() {
    let b = handle(&[10, 20, 30]);
    let mut first = PyBytes::iter(&b);
    let mut second = PyBytes::iter(&b);
    assert_eq!(first.next(), Some(10));
    assert_eq!(first.next(), Some(20));
    assert_eq!(second.next(), Some(10));
    assert_eq!(first.next(), Some(30));
    assert_eq!(first.next(), None);
    assert_eq!(first.next(), None);
    assert_eq!(second.next(), Some(20));
}

#[test]
fn iterating_empty_buffer_ends_at_once() {
    let b = construct(vec![]);
    assert_eq!(PyBytes::iter(&b).next(), None);
}

#[test]
fn typed_reference_conversion() {
    let o = as_object(&[9]);
    assert_eq!(get_value(&o).unwrap().as_vec(), &vec![9u8]);
    assert_eq!(get_value(&PyObject::Int(9)).unwrap_err(), PyError::TypeMismatch);
}

#[test]
fn isinstance_walks_the_ancestor_chain() {
    assert!(isinstance(&as_object(&[]), PyClass::Bytes));
    assert!(isinstance(&as_object(&[]), PyClass::Object));
    assert!(!isinstance(&as_object(&[]), PyClass::Int));
    assert!(isinstance(&PyObject::Bool(true), PyClass::Int));
    assert!(!isinstance(&PyObject::Int(3), PyClass::Bool));
    assert!(PyClass::Object.is_subclass(PyClass::Object));
    assert!(!PyClass::Object.is_subclass(PyClass::Str));
}

#[test]
fn class_table_binds_protocol_names() {
    let t = init();
    assert_eq!(t.lookup(&"__new__".to_string()), Some(NativeOp::New));
    assert_eq!(t.lookup(&"__eq__".to_string()), Some(NativeOp::Eq));
    assert_eq!(t.lookup(&"__ge__".to_string()), Some(NativeOp::Ge));
    assert_eq!(t.lookup(&"__iter__".to_string()), Some(NativeOp::Iter));
    assert_eq!(t.lookup(&"__add__".to_string()), None);
    assert_eq!(t.doc(), BYTES_DOC);
    assert!(t.doc().starts_with("bytes(iterable_of_ints) -> bytes\n"));
}

#[test]
fn iteration_yields_every_byte_in_order_then_stops() {
    let b = construct(vec![3, 1, 4, 1, 5]);
    let mut it = PyBytes::iter(&b);
    assert_eq!(it.collect_remaining(), vec![3u8, 1, 4, 1, 5]);
    assert_eq!(it.next(), None);
    let mut partly = PyBytes::iter(&b);
    assert_eq!(partly.next(), Some(3));
    assert_eq!(partly.collect_remaining(), vec![1u8, 4, 1, 5]);
    assert_eq!(partly.collect_remaining(), Vec::<u8>::new());
}

#[test]
fn construct_keeps_destination_class() {
    let sub = PyClass::BytesSubclass { id: 7 };
    let b = bytes_new(sub, Some(&vec![1, 2])).unwrap();
    assert_eq!(b.class(), sub);
    assert_eq!(b.value().as_vec(), &vec![1u8, 2]);
    assert!(isinstance(&PyObject::Bytes(b), PyClass::Bytes));
    assert_eq!(bytes_new(PyClass::Bytes, None).unwrap().class(), PyClass::Bytes);
}

#[test]
fn construct_rejects_non_bytes_class() {
    assert_eq!(bytes_new(PyClass::Int, Some(&vec![1])).unwrap_err(), PyError::TypeMismatch);
    assert_eq!(bytes_new(PyClass::Object, None).unwrap_err(), PyError::TypeMismatch);
    assert_eq!(
        bytes_new(PyClass::Int, Some(&vec![300])).unwrap_err(),
        PyError::Construction { index: 0 }
    );
}

#[test]
fn subclass_instances_compare_as_buffers() {
    let sub = bytes_new(PyClass::BytesSubclass { id: 1 }, Some(&vec![4, 5])).unwrap();
    let a = handle(&[4, 5]);
    assert!(a.value().eq(&PyObject::Bytes(sub)));
}

#[test]
fn dispatch_by_name_runs_the_bound_operation() {
    let t = init();
    let b = handle(&[104, 105]);
    let eq = t.call_method(&"__eq__".to_string(), &b, &vec![as_object(&[104, 105])]);
    assert!(matches!(eq, Ok(NativeValue::Bool(true))));
    let lt = t.call_method(&"__lt__".to_string(), &b, &vec![as_object(&[104])]);
    assert!(matches!(lt, Ok(NativeValue::Bool(false))));
    let ge = t.call_method(&"__ge__".to_string(), &b, &vec![PyObject::Int(1)]);
    assert!(matches!(ge, Err(PyError::ComparisonType { op: CompareOp::Ge })));
    let len = t.call_method(&"__len__".to_string(), &b, &vec![]);
    assert!(matches!(len, Ok(NativeValue::Size(2))));
    match t.call_method(&"__repr__".to_string(), &b, &vec![]) {
        Ok(NativeValue::Text(s)) => assert_eq!(s, "b'hi'"),
        other => panic!("unexpected {:?}", other),
    }
    match t.call_method(&"__hash__".to_string(), &b, &vec![]) {
        Ok(NativeValue::Hash(h)) => assert_eq!(h, b.value().hash()),
        other => panic!("unexpected {:?}", other),
    }
    match t.call_method(&"__iter__".to_string(), &b, &vec![]) {
        Ok(NativeValue::Iter(mut it)) => assert_eq!(it.collect_remaining(), vec![104u8, 105]),
        other => panic!("unexpected {:?}", other),
    }
}

#[test]
fn dispatch_reports_unknown_names_and_bad_arguments() {
    let t = init();
    let b = handle(&[1]);
    let missing = t.call_method(&"__add__".to_string(), &b, &vec![]);
    assert!(matches!(missing, Err(PyError::NoAttribute)));
    let no_arg = t.call_method(&"__eq__".to_string(), &b, &vec![]);
    assert!(matches!(no_arg, Err(PyError::ArgumentMismatch)));
    let extra = t.call_method(&"__len__".to_string(), &b, &vec![PyObject::Int(0)]);
    assert!(matches!(extra, Err(PyError::ArgumentMismatch)));
    assert!(matches!(call_native(NativeOp::New, &b, &vec![]), Err(PyError::ArgumentMismatch)));
}
