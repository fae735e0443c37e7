//! The dispatch table of the byte buffer class: protocol names bound once, at
//! initialization, to native operations.
use crate::bytes::{
    bytes_hash, is_quoted, is_utf8, quoted_body, spec_eq, spec_order, utf8_encode,
    PyBytesIterator, PyBytesRef,
};
use crate::error::{CompareOp, PyError};
use crate::object::PyObject;
use vstd::prelude::*;

verus! {

/// The native operations that a built-in class binds to protocol names.
#[derive(Debug, Clone, Copy, PartialEq, Eq, Structural)]
pub enum NativeOp {
    New,
    Eq,
    Lt,
    Le,
    Gt,
    Ge,
    Hash,
    Repr,
    Len,
    Iter,
}

/// What a native operation hands back.
#[derive(Debug)]
pub enum NativeValue {
    Bool(bool),
    Size(usize),
    Hash(u64),
    Text(String),
    Iter(PyBytesIterator),
}

/// The outcome of calling `op` on a buffer holding `zelf` with the positional
/// arguments `args`. The comparisons take one argument and the other
/// operations none; `__new__` takes a class rather than an instance, so it is
/// not called through an instance.
pub open spec fn call_outcome(
    op: NativeOp,
    zelf: Seq<u8>,
    args: Seq<PyObject>,
    r: Result<NativeValue, PyError>,
) -> bool {
    let arity: int = match op {
        NativeOp::Eq | NativeOp::Lt | NativeOp::Le | NativeOp::Gt | NativeOp::Ge => 1,
        _ => 0,
    };
    if op == NativeOp::New || args.len() != arity {
        r == Err::<NativeValue, PyError>(PyError::ArgumentMismatch)
    } else {
        match op {
            NativeOp::Eq => r == Ok::<NativeValue, PyError>(NativeValue::Bool(spec_eq(zelf, args[0]))),
            NativeOp::Lt => r == order_outcome(CompareOp::Lt, zelf, args[0]),
            NativeOp::Le => r == order_outcome(CompareOp::Le, zelf, args[0]),
            NativeOp::Gt => r == order_outcome(CompareOp::Gt, zelf, args[0]),
            NativeOp::Ge => r == order_outcome(CompareOp::Ge, zelf, args[0]),
            NativeOp::Len => r == Ok::<NativeValue, PyError>(NativeValue::Size(zelf.len() as usize)),
            NativeOp::Hash => r == Ok::<NativeValue, PyError>(NativeValue::Hash(bytes_hash(zelf))),
            NativeOp::Repr => match r {
                Ok(NativeValue::Text(s)) => is_utf8(zelf) && is_quoted(s@) && utf8_encode(
                    quoted_body(s@),
                ) == zelf,
                Err(e) => !is_utf8(zelf) && e == PyError::InvalidText,
                _ => false,
            },
            _ => match r {
                Ok(NativeValue::Iter(it)) => it.wf() && it.source() == zelf && it.position() == 0,
                _ => false,
            },
        }
    }
}

pub open spec fn order_outcome(op: CompareOp, zelf: Seq<u8>, other: PyObject) -> Result<
    NativeValue,
    PyError,
> {
    match spec_order(op, zelf, other) {
        Ok(b) => Ok(NativeValue::Bool(b)),
        Err(e) => Err(e),
    }
}

fn order_value(r: Result<bool, PyError>) -> (v: Result<NativeValue, PyError>)
    ensures
        v == match r {
            Ok(b) => Ok::<NativeValue, PyError>(NativeValue::Bool(b)),
            Err(e) => Err::<NativeValue, PyError>(e),
        },
{
    match r {
        Ok(b) => Ok(NativeValue::Bool(b)),
        Err(e) => Err(e),
    }
}

/// Runs the native operation `op` on the receiver `zelf`.
pub fn call_native(op: NativeOp, zelf: &PyBytesRef, args: &Vec<PyObject>) -> (r: Result<
    NativeValue,
    PyError,
>)
    ensures
        call_outcome(op, zelf@, args@, r),
{
    let binary = match op {
        NativeOp::Eq | NativeOp::Lt | NativeOp::Le | NativeOp::Gt | NativeOp::Ge => true,
        _ => false,
    };
    if op == NativeOp::New || (binary && args.len() != 1) || (!binary && args.len() != 0) {
        return Err(PyError::ArgumentMismatch);
    }
    let b = zelf.value();
    match op {
        NativeOp::Eq => Ok(NativeValue::Bool(b.eq(&args[0]))),
        NativeOp::Lt => order_value(b.lt(&args[0])),
        NativeOp::Le => order_value(b.le(&args[0])),
        NativeOp::Gt => order_value(b.gt(&args[0])),
        NativeOp::Ge => order_value(b.ge(&args[0])),
        NativeOp::Len => Ok(NativeValue::Size(b.len())),
        NativeOp::Hash => Ok(NativeValue::Hash(b.hash())),
        NativeOp::Repr => match b.repr() {
            Ok(s) => Ok(NativeValue::Text(s)),
            Err(e) => Err(e),
        },
        _ => Ok(NativeValue::Iter(crate::bytes::PyBytes::iter(zelf))),
    }
}

/// A frozen, name-keyed table of native operations with a documentation string.
#[derive(Debug)]
pub struct PyClassTable {
    entries: Vec<(String, NativeOp)>,
    doc: String,
}

/// The names of a table's entries are pairwise distinct.
pub open spec fn keys_unique(e: Seq<(Seq<char>, NativeOp)>) -> bool {
    forall|i: int, j: int| 0 <= i < j < e.len() ==> #[trigger] e[i].0 != #[trigger] e[j].0
}

/// The protocol names of the byte buffer class and what each is bound to.
pub open spec fn bytes_protocol() -> Seq<(Seq<char>, NativeOp)> {
    seq![
        ("__new__"@, NativeOp::New),
        ("__eq__"@, NativeOp::Eq),
        ("__lt__"@, NativeOp::Lt),
        ("__le__"@, NativeOp::Le),
        ("__gt__"@, NativeOp::Gt),
        ("__ge__"@, NativeOp::Ge),
        ("__hash__"@, NativeOp::Hash),
        ("__repr__"@, NativeOp::Repr),
        ("__len__"@, NativeOp::Len),
        ("__iter__"@, NativeOp::Iter),
    ]
}

pub const BYTES_DOC: &'static str = "bytes(iterable_of_ints) -> bytes\n\
     bytes(string, encoding[, errors]) -> bytes\n\
     bytes(bytes_or_buffer) -> immutable copy of bytes_or_buffer\n\
     bytes(int) -> bytes object of size given by the parameter initialized with null bytes\n\
     bytes() -> empty bytes object\n\nConstruct an immutable array of bytes from:\n  \
     - an iterable yielding integers in range(256)\n  \
     - a text string encoded using the specified encoding\n  \
     - any object implementing the buffer API.\n  \
     - an integer";

impl PyClassTable {
    pub closed spec fn entries(&self) -> Seq<(Seq<char>, NativeOp)> {
        self.entries@.map_values(|e: (String, NativeOp)| (e.0@, e.1))
    }

    pub closed spec fn spec_doc(&self) -> Seq<char> {
        self.doc@
    }

    pub open spec fn wf(&self) -> bool {
        keys_unique(self.entries())
    }

    pub fn doc(&self) -> (r: &String)
        ensures
            r@ == self.spec_doc(),
    {
        &self.doc
    }

    /// Looks `name` up on the receiver's class table at call time and runs the
    /// operation bound to it.
    pub fn call_method(&self, name: &String, zelf: &PyBytesRef, args: &Vec<PyObject>) -> (r: Result<
        NativeValue,
        PyError,
    >)
        requires
            self.wf(),
        ensures
            (forall|i: int|
                0 <= i < self.entries().len() ==> #[trigger] self.entries()[i].0 != name@) ==> r
                == Err::<NativeValue, PyError>(PyError::NoAttribute),
            forall|i: int|
                0 <= i < self.entries().len() && #[trigger] self.entries()[i].0 == name@
                    ==> call_outcome(self.entries()[i].1, zelf@, args@, r),
    {
        match self.lookup(name) {
            Some(op) => {
                let r = call_native(op, zelf, args);
                proof {
                    let e = self.entries();
                    let i = choose|i: int| 0 <= i < e.len() && #[trigger] e[i] == (name@, op);
                    assert(e[i].0 == name@);
                    assert forall|j: int| 0 <= j < e.len() && #[trigger] e[j].0 == name@ implies
                        call_outcome(e[j].1, zelf@, args@, r) by {
                        if j != i {
                            if j < i {
                                assert(e[j].0 != e[i].0);
                            } else {
                                assert(e[i].0 != e[j].0);
                            }
                        }
                    }
                }
                r
            },
            None => Err(PyError::NoAttribute),
        }
    }

    /// The operation bound to `name`, if any.
    pub fn lookup(&self, name: &String) -> (r: Option<NativeOp>)
        requires
            self.wf(),
        ensures
            match r {
                Some(op) => exists|i: int|
                    0 <= i < self.entries().len() && #[trigger] self.entries()[i] == (name@, op),
                None => forall|i: int|
                    0 <= i < self.entries().len() ==> #[trigger] self.entries()[i].0 != name@,
            },
    {
        let mut i: usize = 0;
        while i < self.entries.len()
            invariant
                i <= self.entries@.len(),
                forall|j: int| 0 <= j < i ==> #[trigger] self.entries()[j].0 != name@,
            decreases self.entries.len() - i,
        {
            let entry = &self.entries[i];
            if entry.0 == *name {
                let op = entry.1;
                proof {
                    assert(self.entries()[i as int] == (name@, op));
                }
                return Some(op);
            }
            i = i + 1;
        }
        None
    }
}

fn entry(name: &str, op: NativeOp) -> (r: (String, NativeOp))
    ensures
        r.0@ == name@,
        r.1 == op,
{
    (String::from_str(name), op)
}

/// Builds the byte buffer class's dispatch table.
pub fn init() -> (r: PyClassTable)
    ensures
        r.wf(),
        r.entries() == bytes_protocol(),
        r.spec_doc() == BYTES_DOC@,
{
    let mut entries: Vec<(String, NativeOp)> = Vec::new();
    entries.push(entry("__new__", NativeOp::New));
    entries.push(entry("__eq__", NativeOp::Eq));
    entries.push(entry("__lt__", NativeOp::Lt));
    entries.push(entry("__le__", NativeOp::Le));
    entries.push(entry("__gt__", NativeOp::Gt));
    entries.push(entry("__ge__", NativeOp::Ge));
    entries.push(entry("__hash__", NativeOp::Hash));
    entries.push(entry("__repr__", NativeOp::Repr));
    entries.push(entry("__len__", NativeOp::Len));
    entries.push(entry("__iter__", NativeOp::Iter));
    let r = PyClassTable { entries, doc: String::from_str(BYTES_DOC) };
    proof {
        assert(r.entries() =~= bytes_protocol());
        reveal_strlit("__new__");
        reveal_strlit("__eq__");
        reveal_strlit("__lt__");
        reveal_strlit("__le__");
        reveal_strlit("__gt__");
        reveal_strlit("__ge__");
        reveal_strlit("__hash__");
        reveal_strlit("__repr__");
        reveal_strlit("__len__");
        reveal_strlit("__iter__");
        let e = bytes_protocol();
        assert forall|i: int, j: int| 0 <= i < j < e.len() implies #[trigger] e[i].0
            != #[trigger] e[j].0 by {
            if e[i].0 == e[j].0 {
                assert(e[i].0[2] == e[j].0[2]);
                assert(e[i].0[3] == e[j].0[3]);
                assert(e[i].0.len() == e[j].0.len());
            }
        }
    }
    r
}

} // verus!
