//! The response assembler: a status code, headers and a version, written as
//! a status line, header lines and a blank line.
use vstd::prelude::*;
use vstd::string::StringSliceAdditionalSpecFns;
use std::collections::VecDeque;
use crate::header::{
    CR, LF, SP, Header, HeaderWriteError, header_lines, first_rejected, emit, emit_byte,
    drain_headers, drain_headers_unchecked,
};
use crate::request::http_prefix;
use crate::status::{StatusCode, code_digits, reason_of, canonical_reason};
use crate::version::{self, Version, version_ok, check_version};

verus! {

/// The bytes of the reason phrase written for a code: the registered one,
/// else nothing.
pub open spec fn reason_bytes(code: u16) -> Seq<u8> {
    match reason_of(code) {
        Some(s) => vstd::utf8::encode_utf8(s),
        None => Seq::empty(),
    }
}

/// Why a response could not be written.
#[derive(Clone, Copy, Debug, PartialEq, Eq, Structural)]
pub enum ResponseWriteError {
    /// The version string is not three bytes with a digit or a dot.
    InvalidVersion,
    /// A header was refused after `buffer_offset` bytes of this response had
    /// been written.
    InvalidHeader { buffer_offset: usize, err: HeaderWriteError },
}

/// An HTTP response under assembly. Headers are kept in the order they were
/// added; writing the response takes them out, so a second write finds none
/// left.
pub struct Response<'a, V> {
    version: V,
    code: StatusCode,
    headers: VecDeque<Header<'a>>,
}

impl<'a> Response<'a, version::UNSPECIFIED> {
    /// A response with the given status, no headers and no version.
    pub fn new(status_code: StatusCode) -> (r: Self)
        ensures
            r.spec_code() == status_code,
            r.pending_headers() == Seq::<Header<'a>>::empty(),
    {
        Response { code: status_code, version: version::UNSPECIFIED, headers: VecDeque::new() }
    }
}

impl<'a, V> Response<'a, V> {
    pub closed spec fn spec_code(&self) -> StatusCode {
        self.code
    }

    pub closed spec fn spec_version(&self) -> V {
        self.version
    }

    /// The headers that the next write will emit, in order.
    pub closed spec fn pending_headers(&self) -> Seq<Header<'a>> {
        self.headers@
    }

    /// Sets the version.
    pub fn version<V2>(self, version: V2) -> (r: Response<'a, V2>)
        ensures
            r.spec_version() == version,
            r.spec_code() == self.spec_code(),
            r.pending_headers() == self.pending_headers(),
    {
        let Response { code, headers, version: _ } = self;
        Response { code, headers, version }
    }

    /// Sets the version to HTTP/1.0.
    pub fn v1(self) -> (r: Response<'a, version::V1>)
        ensures
            r.spec_code() == self.spec_code(),
            r.pending_headers() == self.pending_headers(),
    {
        self.version(version::V1)
    }

    /// Sets the version to HTTP/1.1.
    pub fn v1_1(self) -> (r: Response<'a, version::V1_1>)
        ensures
            r.spec_code() == self.spec_code(),
            r.pending_headers() == self.pending_headers(),
    {
        self.version(version::V1_1)
    }

    /// Appends one header. It is checked only when the response is written.
    pub fn header(self, name: &'a str, value: &'a [u8]) -> (r: Self)
        ensures
            r.pending_headers() == self.pending_headers().push(Header { name, value }),
            r.spec_code() == self.spec_code(),
            r.spec_version() == self.spec_version(),
    {
        let mut s = self;
        s.headers.push_back(Header { name, value });
        s
    }

    /// Appends a run of headers, in order.
    pub fn headers(self, hs: Vec<Header<'a>>) -> (r: Self)
        ensures
            r.pending_headers() == self.pending_headers() + hs@,
            r.spec_code() == self.spec_code(),
            r.spec_version() == self.spec_version(),
    {
        let mut s = self;
        let ghost start = s.headers@;
        let mut i: usize = 0;
        while i < hs.len()
            invariant
                i <= hs@.len(),
                s.headers@ == start + hs@.subrange(0, i as int),
                s.code == self.code,
                s.version == self.version,
                start == self.headers@,
            decreases hs@.len() - i,
        {
            s.headers.push_back(hs[i]);
            i = i + 1;
            assert(s.headers@ =~= start + hs@.subrange(0, i as int));
        }
        assert(hs@.subrange(0, hs@.len() as int) =~= hs@);
        s
    }
}

impl<'a, V: Version<'a>> Response<'a, V> {
    /// The bytes of the version string.
    pub open spec fn version_bytes(&self) -> Seq<u8> {
        vstd::utf8::encode_utf8(self.spec_version().text())
    }

    /// `HTTP/VERSION SP CODE SP REASON CRLF`
    pub open spec fn status_line(&self, reason: Seq<u8>) -> Seq<u8> {
        http_prefix() + self.version_bytes() + seq![SP] + code_digits(self.spec_code().value())
            + seq![SP] + reason + seq![CR, LF]
    }

    /// The whole message head with the given reason phrase.
    pub open spec fn message(&self, reason: Seq<u8>) -> Seq<u8> {
        self.status_line(reason) + header_lines(
            self.pending_headers(),
            self.pending_headers().len(),
        ) + seq![CR, LF]
    }

    /// What a checked write of `self` with the given reason phrase does:
    /// `after` is the response afterwards, the sink goes from `w0` to `w1`,
    /// and `r` is returned.
    pub open spec fn written_as(
        &self,
        after: &Self,
        reason: Seq<u8>,
        w0: Seq<u8>,
        w1: Seq<u8>,
        r: Result<usize, ResponseWriteError>,
    ) -> bool {
        let hs = self.pending_headers();
        let j = first_rejected(hs, 0);
        &&& after.spec_code() == self.spec_code()
        &&& after.spec_version() == self.spec_version()
        &&& if !version_ok(self.version_bytes()) {
            &&& r == Err::<usize, ResponseWriteError>(ResponseWriteError::InvalidVersion)
            &&& w1 == w0
            &&& after.pending_headers() == hs
        } else if j < hs.len() {
            &&& r == Err::<usize, ResponseWriteError>(
                ResponseWriteError::InvalidHeader {
                    buffer_offset: (self.status_line(reason) + header_lines(hs, j)).len() as usize,
                    err: hs[j as int].error()->0,
                },
            )
            &&& w1 == w0 + self.status_line(reason) + header_lines(hs, j)
            &&& after.pending_headers() == hs.subrange(j + 1 as int, hs.len() as int)
        } else {
            &&& r == Ok::<usize, ResponseWriteError>(self.message(reason).len() as usize)
            &&& w1 == w0 + self.message(reason)
            &&& after.pending_headers() == Seq::<Header<'a>>::empty()
        }
    }

    /// Checks and writes the response with `reason` as its reason phrase.
    pub fn write_with_reason(&mut self, w: &mut Vec<u8>, reason: &str) -> (r: Result<
        usize,
        ResponseWriteError,
    >)
        ensures
            old(self).written_as(&*final(self), reason.spec_bytes(), old(w)@, final(w)@, r),
            r is Ok ==> final(w)@.len() == old(w)@.len() + r->Ok_0,
    {
        let version = self.version.as_str();
        if !check_version(version) {
            return Err(ResponseWriteError::InvalidVersion);
        }
        let ghost w0 = w@;
        let n = emit_status_line(w, version, self.code.as_u16(), reason);
        assert(w@ =~= w0 + old(self).status_line(reason.spec_bytes()));
        match drain_headers(w, &mut self.headers) {
            Err((off, e)) => {
                assert(w@.len() == w.len());
                assert(w@ =~= w0 + old(self).status_line(reason.spec_bytes()) + header_lines(
                    old(self).pending_headers(),
                    first_rejected(old(self).pending_headers(), 0),
                ));
                Err(ResponseWriteError::InvalidHeader { buffer_offset: n + off, err: e })
            },
            Ok(m) => {
                assert(w@.len() == w.len());
                let n = emit_byte(w, CR, n + m);
                let n = emit_byte(w, LF, n);
                assert(w@ =~= w0 + old(self).message(reason.spec_bytes()));
                Ok(n)
            },
        }
    }

    /// Checks and writes the response, with the reason phrase registered
    /// for its code (none if there is none). The version must pass the
    /// sanity check and every header must be valid. Returns the number of
    /// bytes written; on an error the bytes written before it stay in the
    /// sink.
    pub fn write_to(&mut self, w: &mut Vec<u8>) -> (r: Result<usize, ResponseWriteError>)
        ensures
            old(self).written_as(
                &*final(self),
                reason_bytes(old(self).spec_code().value()),
                old(w)@,
                final(w)@,
                r,
            ),
            r is Ok ==> final(w)@.len() == old(w)@.len() + r->Ok_0,
    {
        let reason = reason_phrase(self.code.as_u16());
        self.write_with_reason(w, reason)
    }

    /// Writes the response without any check: the same bytes as a checked
    /// write that succeeds. Only for responses whose version and headers are
    /// already known to be valid.
    pub fn write_to_unchecked(&mut self, w: &mut Vec<u8>) -> (r: usize)
        ensures
            final(w)@ == old(w)@ + old(self).message(reason_bytes(old(self).spec_code().value())),
            r == old(self).message(reason_bytes(old(self).spec_code().value())).len(),
            final(self).spec_code() == old(self).spec_code(),
            final(self).spec_version() == old(self).spec_version(),
            final(self).pending_headers() == Seq::<Header<'a>>::empty(),
    {
        let ghost w0 = w@;
        let code = self.code.as_u16();
        let reason = reason_phrase(code);
        let n = emit_status_line(w, self.version.as_str(), code, reason);
        let m = drain_headers_unchecked(w, &mut self.headers);
        assert(w@.len() == w.len());
        let n = emit_byte(w, CR, n + m);
        let n = emit_byte(w, LF, n);
        assert(w@ =~= w0 + old(self).message(reason_bytes(code)));
        n
    }
}

/// The reason phrase registered for a code, or the empty string.
fn reason_phrase(code: u16) -> (r: &'static str)
    requires
        100 <= code <= 999,
    ensures
        r.spec_bytes() == reason_bytes(code),
{
    match canonical_reason(code) {
        Some(s) => s,
        None => {
            proof {
                reveal_strlit("");
            }
            assert(vstd::utf8::encode_utf8(""@) =~= Seq::<u8>::empty());
            ""
        },
    }
}

/// Writes `HTTP/VERSION SP CODE SP REASON CRLF` to an empty count.
fn emit_status_line(w: &mut Vec<u8>, version: &str, code: u16, reason: &str) -> (r: usize)
    requires
        100 <= code <= 999,
    ensures
        final(w)@ == old(w)@ + http_prefix() + version.spec_bytes() + seq![SP] + code_digits(code)
            + seq![SP] + reason.spec_bytes() + seq![CR, LF],
        r == final(w)@.len() - old(w)@.len(),
{
    let ghost w0 = w@;
    let n = emit_byte(w, 72, 0);
    let n = emit_byte(w, 84, n);
    let n = emit_byte(w, 84, n);
    let n = emit_byte(w, 80, n);
    let n = emit_byte(w, 47, n);
    let n = emit(w, version.as_bytes(), n);
    let n = emit_byte(w, SP, n);
    let n = emit_byte(w, (48 + code / 100) as u8, n);
    let n = emit_byte(w, (48 + (code / 10) % 10) as u8, n);
    let n = emit_byte(w, (48 + code % 10) as u8, n);
    let n = emit_byte(w, SP, n);
    let n = emit(w, reason.as_bytes(), n);
    let n = emit_byte(w, CR, n);
    let n = emit_byte(w, LF, n);
    assert(w@ =~= w0 + http_prefix() + version.spec_bytes() + seq![SP] + code_digits(code)
        + seq![SP] + reason.spec_bytes() + seq![CR, LF]);
    n
}

/// A response whose version was never set is refused with `InvalidVersion`
/// before anything is written or taken.
pub proof fn lemma_unspecified_response_refused<'a>(
    res: Response<'a, version::UNSPECIFIED>,
    after: Response<'a, version::UNSPECIFIED>,
    reason: Seq<u8>,
    w0: Seq<u8>,
    w1: Seq<u8>,
    r: Result<usize, ResponseWriteError>,
)
    requires
        res.written_as(&after, reason, w0, w1, r),
    ensures
        r == Err::<usize, ResponseWriteError>(ResponseWriteError::InvalidVersion),
        w1 == w0,
        after.pending_headers() == res.pending_headers(),
{
    version::lemma_empty_version_rejected();
}

/// After a successful checked write the response has no headers left, so
/// writing it again emits only the status line and the blank line.
pub proof fn lemma_second_response_write_is_bare<'a, V: Version<'a>>(
    first: Response<'a, V>,
    after: Response<'a, V>,
    reason: Seq<u8>,
    w0: Seq<u8>,
    w1: Seq<u8>,
    r: Result<usize, ResponseWriteError>,
)
    requires
        first.written_as(&after, reason, w0, w1, r),
        r is Ok,
    ensures
        after.pending_headers().len() == 0,
        after.message(reason) == after.status_line(reason) + seq![CR, LF],
{
    assert(after.message(reason) =~= after.status_line(reason) + seq![CR, LF]);
}

} // verus!
