use vstd::prelude::*;
use vstd::string::StringSliceAdditionalSpecFns;
use std::collections::VecDeque;

verus! {

pub const CR: u8 = 13;
pub const LF: u8 = 10;
pub const SP: u8 = 32;
pub const COLON: u8 = 58;
pub const HYPHEN: u8 = 45;
pub const UNDERSCORE: u8 = 95;

/// A header line to be written: a name and a raw value, both borrowed.
#[derive(Clone, Copy)]
pub struct Header<'a> {
    pub name: &'a str,
    pub value: &'a [u8],
}

/// Why a single header could not be written.
#[derive(Clone, Copy, Debug, PartialEq, Eq, Structural)]
pub enum HeaderWriteError {
    /// The name holds a byte outside `[A-Za-z0-9_-]`, at this index.
    InvalidName(usize),
    /// The value holds CR, LF or NUL, at this index.
    InvalidValue(usize),
    /// The byte sink refused a write.
    Io,
}

/// A byte that may appear in a header name.
pub open spec fn is_name_byte(b: u8) -> bool {
    (48 <= b <= 57) || (97 <= b <= 122) || (65 <= b <= 90) || b == HYPHEN || b == UNDERSCORE
}

/// A byte that may appear in a header value.
pub open spec fn is_value_byte(b: u8) -> bool {
    b != CR && b != LF && b != 0
}

/// The index of the first byte of `s` at or after `i` that fails `ok`, or the
/// length of `s` when there is none.
pub open spec fn first_failing(s: Seq<u8>, ok: spec_fn(u8) -> bool, i: nat) -> nat
    decreases s.len() - i,
{
    if i >= s.len() {
        s.len()
    } else if !ok(s[i as int]) {
        i
    } else {
        first_failing(s, ok, i + 1)
    }
}

pub open spec fn name_byte_ok() -> spec_fn(u8) -> bool {
    |b: u8| is_name_byte(b)
}

pub open spec fn value_byte_ok() -> spec_fn(u8) -> bool {
    |b: u8| is_value_byte(b)
}

/// Index of the first byte not allowed in a name (the length if all are).
pub open spec fn first_bad_name(s: Seq<u8>) -> nat {
    first_failing(s, name_byte_ok(), 0)
}

/// Index of the first byte not allowed in a value (the length if all are).
pub open spec fn first_bad_value(s: Seq<u8>) -> nat {
    first_failing(s, value_byte_ok(), 0)
}

/// `name: value\r\n`
pub open spec fn header_line(name: Seq<u8>, value: Seq<u8>) -> Seq<u8> {
    name + seq![COLON, SP] + value + seq![CR, LF]
}

/// The error that validation reports for a header, if any: the name is checked
/// before the value.
pub open spec fn header_error(name: Seq<u8>, value: Seq<u8>) -> Option<HeaderWriteError> {
    if first_bad_name(name) < name.len() {
        Some(HeaderWriteError::InvalidName(first_bad_name(name) as usize))
    } else if first_bad_value(value) < value.len() {
        Some(HeaderWriteError::InvalidValue(first_bad_value(value) as usize))
    } else {
        None
    }
}

impl<'a> Header<'a> {
    pub open spec fn name_bytes(self) -> Seq<u8> {
        self.name.spec_bytes()
    }

    /// The bytes that this header contributes to a message.
    pub open spec fn line(self) -> Seq<u8> {
        header_line(self.name.spec_bytes(), self.value@)
    }

    pub open spec fn error(self) -> Option<HeaderWriteError> {
        header_error(self.name.spec_bytes(), self.value@)
    }
}

/// `first_failing` is the first failing index: every byte before it passes,
/// and the byte at it, if any, fails.
pub proof fn lemma_first_failing(s: Seq<u8>, ok: spec_fn(u8) -> bool, i: nat)
    requires
        i <= s.len(),
    ensures
        i <= first_failing(s, ok, i) <= s.len(),
        forall|j: int| i <= j < first_failing(s, ok, i) ==> ok(#[trigger] s[j]),
        first_failing(s, ok, i) < s.len() ==> !ok(s[first_failing(s, ok, i) as int]),
    decreases s.len() - i,
{
    if i < s.len() && ok(s[i as int]) {
        lemma_first_failing(s, ok, i + 1);
    }
}

/// A header whose name holds only ASCII letters, digits, `-` and `_`, and
/// whose value holds no CR, LF or NUL, passes validation, and its line is
/// the name's length plus the value's length plus four bytes long.
pub proof fn lemma_valid_header_accepted(h: Header)
    requires
        forall|i: int| 0 <= i < h.name_bytes().len() ==> is_name_byte(#[trigger] h.name_bytes()[i]),
        forall|i: int| 0 <= i < h.value@.len() ==> is_value_byte(#[trigger] h.value@[i]),
    ensures
        h.error() is None,
        h.line().len() == h.name_bytes().len() + 2 + h.value@.len() + 2,
{
    lemma_first_failing(h.name_bytes(), name_byte_ok(), 0);
    lemma_first_failing(h.value@, value_byte_ok(), 0);
}

/// A name with a byte outside `[A-Za-z0-9_-]` is refused with the index of
/// the first such byte.
pub proof fn lemma_invalid_name_reported(h: Header, i: int)
    requires
        0 <= i < h.name_bytes().len(),
        !is_name_byte(h.name_bytes()[i]),
        forall|j: int| 0 <= j < i ==> is_name_byte(#[trigger] h.name_bytes()[j]),
    ensures
        h.error() == Some(HeaderWriteError::InvalidName(i as usize)),
{
    let s = h.name_bytes();
    lemma_first_failing(s, name_byte_ok(), 0);
    let f = first_bad_name(s);
    if f < i {
        assert(is_name_byte(s[f as int]));
    } else if f > i {
        assert(name_byte_ok()(s[i]));
    }
}

/// With a valid name, a value holding CR, LF or NUL is refused with the
/// index of the first such byte.
pub proof fn lemma_invalid_value_reported(h: Header, i: int)
    requires
        forall|k: int| 0 <= k < h.name_bytes().len() ==> is_name_byte(#[trigger] h.name_bytes()[k]),
        0 <= i < h.value@.len(),
        !is_value_byte(h.value@[i]),
        forall|j: int| 0 <= j < i ==> is_value_byte(#[trigger] h.value@[j]),
    ensures
        h.error() == Some(HeaderWriteError::InvalidValue(i as usize)),
{
    let s = h.value@;
    lemma_first_failing(h.name_bytes(), name_byte_ok(), 0);
    lemma_first_failing(s, value_byte_ok(), 0);
    let f = first_bad_value(s);
    if f < i {
        assert(is_value_byte(s[f as int]));
    } else if f > i {
        assert(value_byte_ok()(s[i]));
    }
}

/// Appends `b` to the sink and returns how many bytes that was.
pub(crate) fn put(w: &mut Vec<u8>, b: &[u8]) -> (n: usize)
    ensures
        final(w)@ == old(w)@ + b@,
        n == b@.len(),
{
    let mut i: usize = 0;
    while i < b.len()
        invariant
            i <= b@.len(),
            w@ == old(w)@ + b@.subrange(0, i as int),
        decreases b@.len() - i,
    {
        w.push(b[i]);
        i = i + 1;
        assert(w@ =~= old(w)@ + b@.subrange(0, i as int));
    }
    assert(b@.subrange(0, b@.len() as int) =~= b@);
    b.len()
}

fn name_byte(b: u8) -> (r: bool)
    ensures
        r == is_name_byte(b),
{
    (48 <= b && b <= 57) || (97 <= b && b <= 122) || (65 <= b && b <= 90) || b == HYPHEN
        || b == UNDERSCORE
}

fn scan_name(s: &[u8]) -> (r: usize)
    ensures
        r == first_bad_name(s@),
{
    let mut i: usize = 0;
    while i < s.len()
        invariant
            i <= s@.len(),
            first_failing(s@, name_byte_ok(), i as nat) == first_bad_name(s@),
        decreases s@.len() - i,
    {
        if !name_byte(s[i]) {
            return i;
        }
        i = i + 1;
    }
    i
}

fn scan_value(s: &[u8]) -> (r: usize)
    ensures
        r == first_bad_value(s@),
{
    let mut i: usize = 0;
    while i < s.len()
        invariant
            i <= s@.len(),
            first_failing(s@, value_byte_ok(), i as nat) == first_bad_value(s@),
        decreases s@.len() - i,
    {
        let b = s[i];
        if b == CR || b == LF || b == 0 {
            return i;
        }
        i = i + 1;
    }
    i
}

/// Checks a header and, if it is valid, writes `name: value\r\n` and returns
/// the number of bytes written. An invalid header writes nothing.
pub fn write_header(w: &mut Vec<u8>, header: Header<'_>) -> (r: Result<usize, HeaderWriteError>)
    ensures
        match header.error() {
            Some(e) => r == Err::<usize, HeaderWriteError>(e) && final(w)@ == old(w)@,
            None => r == Ok::<usize, HeaderWriteError>(header.line().len() as usize) && final(w)@
                == old(w)@ + header.line(),
        },
{
    let name = header.name.as_bytes();
    let bad = scan_name(name);
    if bad < name.len() {
        return Err(HeaderWriteError::InvalidName(bad));
    }
    let bad = scan_value(header.value);
    if bad < header.value.len() {
        return Err(HeaderWriteError::InvalidValue(bad));
    }
    Ok(write_header_unchecked(w, header))
}

/// Writes `name: value\r\n` without looking at the bytes, and returns the
/// number of bytes written. Only for headers already known to be valid: an
/// untrusted name or value can break the message apart.
pub fn write_header_unchecked(w: &mut Vec<u8>, header: Header<'_>) -> (n: usize)
    ensures
        final(w)@ == old(w)@ + header.line(),
        n == header.line().len(),
{
    let ghost start = w@;
    let a = put(w, header.name.as_bytes());
    w.push(COLON);
    w.push(SP);
    let b = put(w, header.value);
    w.push(CR);
    w.push(LF);
    assert(w@ =~= start + header.line());
    assert(w@.len() == w.len());
    a + 2 + b + 2
}

/// The lines of the first `n` headers of `hs`, in order.
pub open spec fn header_lines<'a>(hs: Seq<Header<'a>>, n: nat) -> Seq<u8>
    decreases n,
{
    if n == 0 {
        Seq::empty()
    } else {
        header_lines(hs, (n - 1) as nat) + hs[n - 1].line()
    }
}

/// The index of the first header at or after `i` that validation rejects, or
/// the length of `hs` when there is none.
pub open spec fn first_rejected<'a>(hs: Seq<Header<'a>>, i: nat) -> nat
    decreases hs.len() - i,
{
    if i >= hs.len() {
        hs.len()
    } else if hs[i as int].error() is Some {
        i
    } else {
        first_rejected(hs, i + 1)
    }
}

/// Appends `b` to a sink that has had `count` bytes written so far, and
/// returns the new count.
pub(crate) fn emit(w: &mut Vec<u8>, b: &[u8], count: usize) -> (r: usize)
    requires
        count <= old(w)@.len(),
    ensures
        final(w)@ == old(w)@ + b@,
        r == count + b@.len(),
        r <= final(w)@.len(),
{
    put(w, b);
    assert(w@.len() == w.len());
    count + b.len()
}

/// Appends one byte to a sink that has had `count` bytes written so far, and
/// returns the new count.
pub(crate) fn emit_byte(w: &mut Vec<u8>, b: u8, count: usize) -> (r: usize)
    requires
        count <= old(w)@.len(),
    ensures
        final(w)@ == old(w)@.push(b),
        r == count + 1,
        r <= final(w)@.len(),
{
    w.push(b);
    assert(w@.len() == w.len());
    count + 1
}

/// Takes headers from the front of `hs` and writes them until none is left
/// or one is rejected. Returns the bytes written, or, for a rejected header,
/// the bytes written before it and its error; the rejected header is taken
/// too.
pub(crate) fn drain_headers<'a>(w: &mut Vec<u8>, hs: &mut VecDeque<Header<'a>>) -> (r: Result<
    usize,
    (usize, HeaderWriteError),
>)
    ensures
        ({
            let j = first_rejected(old(hs)@, 0);
            if j < old(hs)@.len() {
                &&& r == Err::<usize, (usize, HeaderWriteError)>(
                    (header_lines(old(hs)@, j).len() as usize, old(hs)@[j as int].error()->0),
                )
                &&& final(w)@ == old(w)@ + header_lines(old(hs)@, j)
                &&& final(hs)@ == old(hs)@.subrange(j + 1 as int, old(hs)@.len() as int)
            } else {
                &&& r == Ok::<usize, (usize, HeaderWriteError)>(
                    header_lines(old(hs)@, old(hs)@.len()).len() as usize,
                )
                &&& final(w)@ == old(w)@ + header_lines(old(hs)@, old(hs)@.len())
                &&& final(hs)@ == Seq::<Header<'a>>::empty()
            }
        }),
{
    let ghost hs0 = hs@;
    let ghost w0 = w@;
    let ghost mut i: nat = 0;
    let mut len: usize = 0;
    while hs.len() > 0
        invariant
            hs0 == old(hs)@,
            w0 == old(w)@,
            i <= hs0.len(),
            hs@ == hs0.subrange(i as int, hs0.len() as int),
            first_rejected(hs0, i) == first_rejected(hs0, 0),
            w@ == w0 + header_lines(hs0, i),
            len == header_lines(hs0, i).len(),
        decreases hs@.len(),
    {
        let h = match hs.pop_front() {
            Some(h) => h,
            None => {
                return Ok(len);
            },
        };
        assert(h == hs0[i as int]);
        assert(hs@ =~= hs0.subrange(i + 1 as int, hs0.len() as int));
        match write_header(w, h) {
            Err(e) => {
                assert(first_rejected(hs0, i) == i);
                proof {
                    i = i + 1;
                }
                return Err((len, e));
            },
            Ok(n) => {
                assert(w@ =~= w0 + header_lines(hs0, i + 1));
                assert(w@.len() == w.len());
                len = len + n;
                proof {
                    i = i + 1;
                }
            },
        }
    }
    assert(hs0.subrange(i as int, hs0.len() as int).len() == 0);
    Ok(len)
}

/// Takes every header from `hs` and writes it without validation; returns
/// the bytes written.
pub(crate) fn drain_headers_unchecked<'a>(w: &mut Vec<u8>, hs: &mut VecDeque<Header<'a>>) -> (r:
    usize)
    ensures
        final(w)@ == old(w)@ + header_lines(old(hs)@, old(hs)@.len()),
        r == header_lines(old(hs)@, old(hs)@.len()).len(),
        final(hs)@ == Seq::<Header<'a>>::empty(),
{
    let ghost hs0 = hs@;
    let ghost w0 = w@;
    let ghost mut i: nat = 0;
    let mut len: usize = 0;
    while hs.len() > 0
        invariant
            hs0 == old(hs)@,
            w0 == old(w)@,
            i <= hs0.len(),
            hs@ == hs0.subrange(i as int, hs0.len() as int),
            w@ == w0 + header_lines(hs0, i),
            len == header_lines(hs0, i).len(),
        decreases hs@.len(),
    {
        let h = match hs.pop_front() {
            Some(h) => h,
            None => {
                return len;
            },
        };
        assert(h == hs0[i as int]);
        assert(hs@ =~= hs0.subrange(i + 1 as int, hs0.len() as int));
        let n = write_header_unchecked(w, h);
        assert(w@ =~= w0 + header_lines(hs0, i + 1));
        assert(w@.len() == w.len());
        len = len + n;
        proof {
            i = i + 1;
        }
    }
    assert(hs0.subrange(i as int, hs0.len() as int).len() == 0);
    len
}

} // verus!
