//! Object handles: a shared reference to a payload tagged with its class.
use crate::bytes::{PyBytes, PyBytesRef};
use crate::error::PyError;
use vstd::prelude::*;

verus! {

/// The class identity of a built-in value.
#[derive(Debug, Clone, Copy, PartialEq, Eq, Structural)]
pub enum PyClass {
    Object,
    Bytes,
    Int,
    Bool,
    Str,
    NoneType,
    /// A subclass of `bytes` registered by embedding code.
    BytesSubclass { id: u32 },
}

/// A value of the object model; its class never changes after construction.
#[derive(Debug)]
pub enum PyObject {
    Bytes(PyBytesRef),
    Int(i64),
    Bool(bool),
    Str(String),
    NoneValue,
}

/// The parent of each class in the hierarchy; `object` is the root.
pub open spec fn spec_base(c: PyClass) -> Option<PyClass> {
    match c {
        PyClass::Object => None,
        PyClass::Bool => Some(PyClass::Int),
        PyClass::BytesSubclass { .. } => Some(PyClass::Bytes),
        _ => Some(PyClass::Object),
    }
}

/// The method-resolution order of `c`: the class itself, then its ancestors.
pub open spec fn spec_mro(c: PyClass) -> Seq<PyClass> {
    match c {
        PyClass::Object => seq![PyClass::Object],
        PyClass::Bool => seq![PyClass::Bool, PyClass::Int, PyClass::Object],
        PyClass::BytesSubclass { .. } => seq![c, PyClass::Bytes, PyClass::Object],
        _ => seq![c, PyClass::Object],
    }
}

pub open spec fn spec_class_of(o: PyObject) -> PyClass {
    match o {
        PyObject::Bytes(b) => b.spec_class(),
        PyObject::Int(_) => PyClass::Int,
        PyObject::Bool(_) => PyClass::Bool,
        PyObject::Str(_) => PyClass::Str,
        PyObject::NoneValue => PyClass::NoneType,
    }
}

impl PyClass {
    pub fn base(&self) -> (r: Option<PyClass>)
        ensures
            r == spec_base(*self),
    {
        match self {
            PyClass::Object => None,
            PyClass::Bool => Some(PyClass::Int),
            PyClass::BytesSubclass { .. } => Some(PyClass::Bytes),
            _ => Some(PyClass::Object),
        }
    }

    /// Walks the ancestor chain of `self` looking for `target`.
    pub fn is_subclass(&self, target: PyClass) -> (r: bool)
        ensures
            r == spec_mro(*self).contains(target),
    {
        let mut c: PyClass = *self;
        loop
            invariant
                spec_mro(*self).contains(target) == spec_mro(c).contains(target),
            decreases spec_mro(c).len(),
        {
            proof {
                assert(spec_mro(c)[0] == c);
            }
            if c == target {
                return true;
            }
            match c.base() {
                None => {
                    proof {
                        assert(spec_mro(c) =~= seq![c]);
                    }
                    return false;
                },
                Some(b) => {
                    proof {
                        let m = spec_mro(c);
                        assert(m =~= seq![c] + spec_mro(b));
                        if m.contains(target) {
                            let i = choose|i: int| 0 <= i < m.len() && m[i] == target;
                            assert(spec_mro(b)[i - 1] == target);
                        }
                        if spec_mro(b).contains(target) {
                            let i = choose|i: int|
                                0 <= i < spec_mro(b).len() && spec_mro(b)[i] == target;
                            assert(m[i + 1] == target);
                        }
                    }
                    c = b;
                },
            }
        }
    }
}

impl PyObject {
    pub fn class(&self) -> (r: PyClass)
        ensures
            r == spec_class_of(*self),
    {
        match self {
            PyObject::Bytes(b) => b.class(),
            PyObject::Int(_) => PyClass::Int,
            PyObject::Bool(_) => PyClass::Bool,
            PyObject::Str(_) => PyClass::Str,
            PyObject::NoneValue => PyClass::NoneType,
        }
    }
}

/// Whether the class of `obj` has `cls` in its method-resolution order.
pub fn isinstance(obj: &PyObject, cls: PyClass) -> (r: bool)
    ensures
        r == spec_mro(spec_class_of(*obj)).contains(cls),
{
    obj.class().is_subclass(cls)
}

/// The typed reference to the byte buffer that `obj` holds.
pub fn get_value(obj: &PyObject) -> (r: Result<&PyBytes, PyError>)
    ensures
        match *obj {
            PyObject::Bytes(b) => r is Ok && r->Ok_0@ == b@,
            _ => r == Err::<&PyBytes, PyError>(PyError::TypeMismatch),
        },
{
    match obj {
        PyObject::Bytes(b) => Ok(b.value()),
        _ => Err(PyError::TypeMismatch),
    }
}

} // verus!
