//! The immutable byte buffer built-in type.
use crate::cell::{PyMutex, PyMutexGuard};
use crate::error::{CompareOp, PyError};
use crate::object::{spec_mro, PyClass, PyObject};
use std::hash::{Hash, Hasher};
use std::sync::Arc;
use vstd::prelude::*;

verus! {

/// An immutable ordered sequence of byte values.
#[derive(Debug)]
pub struct PyBytes {
    value: Vec<u8>,
}

/// A shared-ownership handle to a byte buffer, tagged with its class: `bytes`
/// itself or a subclass of it.
#[derive(Debug)]
pub struct PyBytesRef {
    class: PyClass,
    payload: Arc<PyBytes>,
}

/// Whether instances of `c` are byte buffers: `bytes` is in its ancestor chain.
pub open spec fn is_bytes_class(c: PyClass) -> bool {
    spec_mro(c).contains(PyClass::Bytes)
}

impl View for PyBytesRef {
    type V = Seq<u8>;

    closed spec fn view(&self) -> Seq<u8> {
        self.payload@
    }
}

impl PyBytesRef {
    pub closed spec fn spec_class(&self) -> PyClass {
        self.class
    }

    /// The class the handle was created with; it never changes.
    pub fn class(&self) -> (r: PyClass)
        ensures
            r == self.spec_class(),
    {
        self.class
    }

    /// The buffer the handle refers to.
    pub fn value(&self) -> (r: &PyBytes)
        ensures
            r@ == self@,
    {
        &self.payload
    }
}

impl View for PyBytes {
    type V = Seq<u8>;

    closed spec fn view(&self) -> Seq<u8> {
        self.value@
    }
}

/// The UTF-8 encoding of one character.
pub open spec fn utf8_encode_char(c: char) -> Seq<u8> {
    let v = c as u32 as int;
    if v < 0x80 {
        seq![v as u8]
    } else if v < 0x800 {
        seq![(0xC0 + v / 64) as u8, (0x80 + v % 64) as u8]
    } else if v < 0x10000 {
        seq![(0xE0 + v / 4096) as u8, (0x80 + (v / 64) % 64) as u8, (0x80 + v % 64) as u8]
    } else {
        seq![
            (0xF0 + v / 262144) as u8,
            (0x80 + (v / 4096) % 64) as u8,
            (0x80 + (v / 64) % 64) as u8,
            (0x80 + v % 64) as u8,
        ]
    }
}

/// The UTF-8 encoding of a text.
pub open spec fn utf8_encode(t: Seq<char>) -> Seq<u8> {
    t.map_values(|c: char| utf8_encode_char(c)).flatten()
}

/// The value a process-local hasher gives for a byte sequence.
pub uninterp spec fn bytes_hash(b: Seq<u8>) -> u64;

/// Relies on num_traits::ToPrimitive::to_u8 for i64, which returns the value
/// exactly when it lies in 0..=255.
#[verifier::external_body]
fn int_to_u8(v: i64) -> (r: Option<u8>)
    ensures
        r == if 0 <= v <= 255 {
            Some(v as u8)
        } else {
            None
        },
{
    num_traits::ToPrimitive::to_u8(&v)
}

/// Relies on String::from_utf8: it succeeds exactly when the bytes are the
/// UTF-8 encoding of some text, and then returns that text.
#[verifier::external_body]
fn decode_utf8(bytes: Vec<u8>) -> (r: Option<String>)
    ensures
        match r {
            Some(s) => utf8_encode(s@) == bytes@,
            None => forall|t: Seq<char>| #[trigger] utf8_encode(t) != bytes@,
        },
{
    String::from_utf8(bytes).ok()
}

/// Relies on std's DefaultHasher, made by `new` and so keyed the same way every
/// time, fed with the slice's Hash impl: the result depends on the bytes alone.
#[verifier::external_body]
fn hash_bytes(b: &[u8]) -> (r: u64)
    ensures
        r == bytes_hash(b@),
{
    let mut hasher = std::collections::hash_map::DefaultHasher::new();
    b.hash(&mut hasher);
    hasher.finish()
}

/// Whether an integer is a byte value.
pub open spec fn is_byte(v: i64) -> bool {
    0 <= v < 256
}

/// The first position of `s` that holds no byte value.
pub open spec fn is_first_invalid(s: Seq<i64>, i: int) -> bool {
    &&& 0 <= i < s.len()
    &&& !is_byte(s[i])
    &&& forall|j: int| 0 <= j < i ==> is_byte(#[trigger] s[j])
}

/// Three-way lexicographic comparison of `a` and `b` from position `i` on.
pub open spec fn lex_cmp_from(a: Seq<u8>, b: Seq<u8>, i: int) -> int
    decreases a.len() - i,
{
    if i >= a.len() {
        if i >= b.len() {
            0
        } else {
            -1
        }
    } else if i >= b.len() {
        1
    } else if a[i] < b[i] {
        -1
    } else if a[i] > b[i] {
        1
    } else {
        lex_cmp_from(a, b, i + 1)
    }
}

/// Byte-wise lexicographic comparison: negative, zero or positive.
pub open spec fn lex_cmp(a: Seq<u8>, b: Seq<u8>) -> int {
    lex_cmp_from(a, b, 0)
}

/// What an ordering operator yields for two buffers.
pub open spec fn spec_compare(op: CompareOp, a: Seq<u8>, b: Seq<u8>) -> bool {
    match op {
        CompareOp::Lt => lex_cmp(a, b) < 0,
        CompareOp::Le => lex_cmp(a, b) <= 0,
        CompareOp::Gt => lex_cmp(a, b) > 0,
        CompareOp::Ge => lex_cmp(a, b) >= 0,
    }
}

/// Equality of a buffer with any object: only a buffer with the same bytes.
pub open spec fn spec_eq(a: Seq<u8>, other: PyObject) -> bool {
    match other {
        PyObject::Bytes(b) => a == b@,
        _ => false,
    }
}

/// What an ordering operator yields for a buffer and any object.
pub open spec fn spec_order(op: CompareOp, a: Seq<u8>, other: PyObject) -> Result<bool, PyError> {
    match other {
        PyObject::Bytes(b) => Ok(spec_compare(op, a, b@)),
        _ => Err(PyError::ComparisonType { op }),
    }
}

fn lex_compare(a: &Vec<u8>, b: &Vec<u8>) -> (r: i8)
    ensures
        r as int == lex_cmp(a@, b@),
{
    let mut i: usize = 0;
    while i < a.len() && i < b.len()
        invariant
            i <= a.len(),
            i <= b.len(),
            lex_cmp(a@, b@) == lex_cmp_from(a@, b@, i as int),
        decreases a.len() - i,
    {
        if a[i] < b[i] {
            return -1;
        } else if a[i] > b[i] {
            return 1;
        }
        i = i + 1;
    }
    if i < b.len() {
        -1
    } else if i < a.len() {
        1
    } else {
        0
    }
}

impl PyBytes {
    pub fn new(data: Vec<u8>) -> (r: Self)
        ensures
            r@ == data@,
    {
        PyBytes { value: data }
    }

    /// Wraps the buffer in a handle tagged with `cls`, which must be `bytes`
    /// or a subclass of it.
    pub fn into_ref_with_type(self, cls: PyClass) -> (r: Result<PyBytesRef, PyError>)
        ensures
            (r is Ok) == is_bytes_class(cls),
            r is Ok ==> r->Ok_0@ == self@ && r->Ok_0.spec_class() == cls,
            r is Err ==> r->Err_0 == PyError::TypeMismatch,
    {
        if cls.is_subclass(PyClass::Bytes) {
            Ok(PyBytesRef { class: cls, payload: Arc::new(self) })
        } else {
            Err(PyError::TypeMismatch)
        }
    }

    pub fn as_vec(&self) -> (r: &Vec<u8>)
        ensures
            r@ == self@,
    {
        &self.value
    }

    /// Equality against any object: buffers with the same bytes are equal,
    /// and a buffer is never equal to an object of another type.
    pub fn eq(&self, other: &PyObject) -> (r: bool)
        ensures
            r == spec_eq(self@, *other),
    {
        match other {
            PyObject::Bytes(b) => {
                let r = lex_compare(&self.value, &b.payload.value);
                proof {
                    lemma_lex_cmp_zero(self@, b@, 0);
                    if r == 0 {
                        assert(self@ =~= b@);
                    }
                }
                r == 0
            },
            _ => false,
        }
    }

    fn compare(&self, other: &PyObject, op: CompareOp) -> (r: Result<bool, PyError>)
        ensures
            r == spec_order(op, self@, *other),
    {
        match other {
            PyObject::Bytes(b) => {
                let c = lex_compare(&self.value, &b.payload.value);
                Ok(
                    match op {
                        CompareOp::Lt => c < 0,
                        CompareOp::Le => c <= 0,
                        CompareOp::Gt => c > 0,
                        CompareOp::Ge => c >= 0,
                    },
                )
            },
            _ => Err(PyError::ComparisonType { op }),
        }
    }

    pub fn lt(&self, other: &PyObject) -> (r: Result<bool, PyError>)
        ensures
            r == spec_order(CompareOp::Lt, self@, *other),
    {
        self.compare(other, CompareOp::Lt)
    }

    pub fn le(&self, other: &PyObject) -> (r: Result<bool, PyError>)
        ensures
            r == spec_order(CompareOp::Le, self@, *other),
    {
        self.compare(other, CompareOp::Le)
    }

    pub fn gt(&self, other: &PyObject) -> (r: Result<bool, PyError>)
        ensures
            r == spec_order(CompareOp::Gt, self@, *other),
    {
        self.compare(other, CompareOp::Gt)
    }

    pub fn ge(&self, other: &PyObject) -> (r: Result<bool, PyError>)
        ensures
            r == spec_order(CompareOp::Ge, self@, *other),
    {
        self.compare(other, CompareOp::Ge)
    }

    pub fn len(&self) -> (r: usize)
        ensures
            r == self@.len(),
    {
        self.value.len()
    }

    pub fn hash(&self) -> (r: u64)
        ensures
            r == bytes_hash(self@),
    {
        hash_bytes(self.value.as_slice())
    }
}

/// Whether some text has `b` as its UTF-8 encoding.
pub open spec fn is_utf8(b: Seq<u8>) -> bool {
    exists|t: Seq<char>| #[trigger] utf8_encode(t) == b
}

/// The text between the quotes of a rendered buffer `b'...'`.
pub open spec fn quoted_body(s: Seq<char>) -> Seq<char> {
    s.subrange(2, s.len() - 1)
}

/// A rendered buffer: `b'`, the text, then `'`.
pub open spec fn is_quoted(s: Seq<char>) -> bool {
    &&& s.len() >= 3
    &&& s[0] == 'b'
    &&& s[1] == '\''
    &&& s[s.len() - 1] == '\''
}

/// Every element of `s` is a byte value.
pub open spec fn all_bytes(s: Seq<i64>) -> bool {
    forall|i: int| 0 <= i < s.len() ==> is_byte(#[trigger] s[i])
}

/// Builds a buffer of class `cls` from an optional sequence of integers: none
/// gives the empty buffer; otherwise every element must be a byte value, and
/// the first one that is not aborts construction. Then `cls` must be `bytes`
/// or a subclass of it.
pub fn bytes_new(cls: PyClass, val_option: Option<&Vec<i64>>) -> (r: Result<PyBytesRef, PyError>)
    ensures
        (r is Ok) == (is_bytes_class(cls) && (val_option is Some ==> all_bytes(
            val_option->Some_0@,
        ))),
        r is Ok ==> r->Ok_0.spec_class() == cls,
        r is Ok && val_option is None ==> r->Ok_0@.len() == 0,
        r is Ok && val_option is Some ==> {
            let vals = val_option->Some_0@;
            &&& r->Ok_0@.len() == vals.len()
            &&& forall|i: int| 0 <= i < vals.len() ==> #[trigger] r->Ok_0@[i] == vals[i]
        },
        r is Err ==> match r->Err_0 {
            PyError::Construction { index } => {
                &&& val_option is Some
                &&& is_first_invalid(val_option->Some_0@, index as int)
            },
            PyError::TypeMismatch => !is_bytes_class(cls),
            _ => false,
        },
{
    let value = match val_option {
        Some(vals) => {
            let mut data_bytes: Vec<u8> = Vec::new();
            let mut i: usize = 0;
            while i < vals.len()
                invariant
                    val_option == Some(vals),
                    i <= vals@.len(),
                    data_bytes@.len() == i,
                    forall|j: int| 0 <= j < i ==> is_byte(#[trigger] vals@[j]),
                    forall|j: int| 0 <= j < i ==> #[trigger] data_bytes@[j] == vals@[j],
                decreases vals.len() - i,
            {
                match int_to_u8(vals[i]) {
                    Some(v) => data_bytes.push(v),
                    None => {
                        proof {
                            assert(is_first_invalid(vals@, i as int));
                        }
                        return Err(PyError::Construction { index: i });
                    },
                }
                i = i + 1;
            }
            data_bytes
        },
        None => Vec::new(),
    };
    PyBytes::new(value).into_ref_with_type(cls)
}

/// A cursor over a byte buffer; each iterator owns its own position.
#[derive(Debug)]
pub struct PyBytesIterator {
    position: PyMutex<usize>,
    iterated_obj: Arc<PyBytes>,
}

impl PyBytesIterator {
    /// The buffer being iterated.
    pub closed spec fn source(&self) -> Seq<u8> {
        self.iterated_obj@
    }

    /// The index of the next byte to yield.
    pub closed spec fn position(&self) -> nat {
        self.position.value() as nat
    }

    pub closed spec fn wf(&self) -> bool {
        &&& self.position.wf()
        &&& self.position() <= self.source().len()
    }

    /// Yields the byte at the cursor and advances it, or `None` once the
    /// cursor has reached the end of the buffer.
    pub fn next(&mut self) -> (r: Option<u8>)
        requires
            old(self).wf(),
        ensures
            final(self).wf(),
            final(self).source() == old(self).source(),
            old(self).position() < old(self).source().len() ==> {
                &&& r == Some(old(self).source()[old(self).position() as int])
                &&& final(self).position() == old(self).position() + 1
            },
            old(self).position() >= old(self).source().len() ==> {
                &&& r is None
                &&& final(self).position() == old(self).position()
            },
    {
        let src: &Vec<u8> = &self.iterated_obj.value;
        let step = |g: PyMutexGuard<usize>| -> (res: (PyMutexGuard<usize>, Option<u8>))
            requires
                g.value() <= src@.len(),
            ensures
                g.value() < src@.len() ==> {
                    &&& res.0.value() == g.value() + 1
                    &&& res.1 == Some(src@[g.value() as int])
                },
                g.value() >= src@.len() ==> {
                    &&& res.0.value() == g.value()
                    &&& res.1 == None::<u8>
                },
            {
                let mut g = g;
                let pos = *g.get();
                if pos < src.len() {
                    *g.get_mut() = pos + 1;
                    (g, Some(src[pos]))
                } else {
                    (g, None)
                }
            };
        self.position.lock(step)
    }
}

impl PyBytesIterator {
    /// Runs the iterator to its end: it yields the remaining bytes of the
    /// buffer in index order, one per step, and then stops.
    pub fn collect_remaining(&mut self) -> (r: Vec<u8>)
        requires
            old(self).wf(),
        ensures
            final(self).wf(),
            final(self).source() == old(self).source(),
            final(self).position() == old(self).source().len(),
            r@ == old(self).source().skip(old(self).position() as int),
    {
        let mut out: Vec<u8> = Vec::new();
        loop
            invariant
                self.wf(),
                self.source() == old(self).source(),
                old(self).position() <= self.position(),
                out@ == self.source().subrange(
                    old(self).position() as int,
                    self.position() as int,
                ),
            decreases self.source().len() - self.position(),
        {
            match self.next() {
                Some(b) => {
                    out.push(b);
                },
                None => {
                    proof {
                        assert(out@ =~= old(self).source().skip(old(self).position() as int));
                    }
                    return out;
                },
            }
            proof {
                assert(out@ =~= self.source().subrange(
                    old(self).position() as int,
                    self.position() as int,
                ));
            }
        }
    }
}

impl PyBytes {
    /// Renders the buffer as `b'...'` around its text, or fails when the bytes
    /// are not UTF-8 text.
    pub fn repr(&self) -> (r: Result<String, PyError>)
        ensures
            (r is Ok) == is_utf8(self@),
            match r {
                Ok(s) => is_quoted(s@) && utf8_encode(quoted_body(s@)) == self@,
                Err(e) => e == PyError::InvalidText,
            },
    {
        match decode_utf8(self.value.clone()) {
            Some(text) => {
                let mut out = String::from_str("b'");
                out.append(text.as_str());
                out.append("'");
                proof {
                    reveal_strlit("b'");
                    reveal_strlit("'");
                    assert(quoted_body(out@) =~= text@);
                }
                Ok(out)
            },
            None => {
                proof {
                    assert(!is_utf8(self@));
                }
                Err(PyError::InvalidText)
            },
        }
    }

    /// Starts a new iteration over the buffer, with its own cursor at zero.
    pub fn iter(zelf: &PyBytesRef) -> (r: PyBytesIterator)
        ensures
            r.wf(),
            r.source() == zelf@,
            r.position() == 0,
    {
        PyBytesIterator { position: PyMutex::new(0), iterated_obj: zelf.payload.clone() }
    }
}

/// Equal comparison result from position `i` on means equal suffixes.
proof fn lemma_lex_cmp_zero(a: Seq<u8>, b: Seq<u8>, i: int)
    requires
        0 <= i <= a.len(),
        i <= b.len(),
    ensures
        (lex_cmp_from(a, b, i) == 0) == (a.len() == b.len() && forall|j: int|
            i <= j < a.len() ==> a[j] == b[j]),
    decreases a.len() - i,
{
    if i < a.len() && i < b.len() {
        lemma_lex_cmp_zero(a, b, i + 1);
    }
}

proof fn lemma_lex_cmp_from_antisymmetric(a: Seq<u8>, b: Seq<u8>, i: int)
    requires
        0 <= i,
    ensures
        lex_cmp_from(a, b, i) == -lex_cmp_from(b, a, i),
    decreases a.len() - i,
{
    if i < a.len() && i < b.len() && a[i] == b[i] {
        lemma_lex_cmp_from_antisymmetric(a, b, i + 1);
    }
}

/// The ordering of buffers agrees with their equality: two buffers compare
/// equal exactly when they hold the same bytes, and swapping the operands
/// reverses the comparison.
pub proof fn lemma_order_agrees_with_eq(a: PyBytes, b: PyBytes)
    ensures
        (lex_cmp(a@, b@) == 0) == (a@ == b@),
        lex_cmp(a@, b@) == -lex_cmp(b@, a@),
        spec_compare(CompareOp::Lt, a@, b@) == spec_compare(CompareOp::Gt, b@, a@),
        spec_compare(CompareOp::Le, a@, b@) == spec_compare(CompareOp::Ge, b@, a@),
{
    lemma_lex_cmp_zero(a@, b@, 0);
    lemma_lex_cmp_from_antisymmetric(a@, b@, 0);
    if lex_cmp(a@, b@) == 0 {
        assert(a@ =~= b@);
    }
}

/// Buffers that hold the same bytes have the same hash.
pub proof fn lemma_hash_follows_content(a: PyBytes, b: PyBytes)
    requires
        a@ == b@,
    ensures
        bytes_hash(a@) == bytes_hash(b@),
{
}

/// The characters with the codes of the given bytes.
pub open spec fn ascii_text(s: Seq<u8>) -> Seq<char> {
    s.map_values(|b: u8| b as char)
}

/// A buffer of ASCII bytes is text: it is the encoding of the characters with
/// the same codes, so its rendering succeeds and holds exactly those characters.
pub proof fn lemma_ascii_is_text(s: Seq<u8>)
    requires
        forall|i: int| 0 <= i < s.len() ==> #[trigger] s[i] < 128,
    ensures
        utf8_encode(ascii_text(s)) == s,
        is_utf8(s),
    decreases s.len(),
{
    if s.len() > 0 {
        let rest = s.drop_first();
        lemma_ascii_is_text(rest);
        let m = ascii_text(s).map_values(|c: char| utf8_encode_char(c));
        assert(m.drop_first() =~= ascii_text(rest).map_values(|c: char| utf8_encode_char(c)));
        assert(m.first() =~= seq![s[0]]);
        assert(s =~= seq![s[0]] + rest);
    } else {
        assert(ascii_text(s).map_values(|c: char| utf8_encode_char(c)) =~= Seq::<Seq<u8>>::empty());
        assert(s =~= Seq::<u8>::empty());
    }
    assert(utf8_encode(ascii_text(s)) == s);
}

} // verus!
