//! The request assembler: a method, an optional path, query fragments,
//! headers and a version, written as a request line, header lines and a
//! blank line.
use vstd::prelude::*;
use vstd::string::StringSliceAdditionalSpecFns;
use std::collections::VecDeque;
use crate::header::{
    CR, LF, SP, Header, HeaderWriteError, header_lines, first_rejected, emit, emit_byte,
    drain_headers, drain_headers_unchecked,
};
use crate::version::{self, Version, version_ok, check_version};
use crate::uri::{is_uri_path, is_uri_query, path_is_encoded, query_is_encoded};

verus! {

pub const SLASH: u8 = 47;
pub const QUESTION: u8 = 63;
pub const AMPERSAND: u8 = 38;

/// `HTTP/`
pub open spec fn http_prefix() -> Seq<u8> {
    seq![72u8, 84, 84, 80, 47]
}

/// A request method: one of the standard ones, or any other token.
#[derive(Clone, Debug, PartialEq, Eq)]
pub enum Method<'a> {
    Get,
    Head,
    Post,
    Put,
    Delete,
    Connect,
    Options,
    Trace,
    Patch,
    Custom(&'a str),
}

impl<'a> Method<'a> {
    /// The method's name as written on the wire.
    pub open spec fn text(&self) -> Seq<char> {
        match self {
            Method::Get => "GET"@,
            Method::Head => "HEAD"@,
            Method::Post => "POST"@,
            Method::Put => "PUT"@,
            Method::Delete => "DELETE"@,
            Method::Connect => "CONNECT"@,
            Method::Options => "OPTIONS"@,
            Method::Trace => "TRACE"@,
            Method::Patch => "PATCH"@,
            Method::Custom(c) => c@,
        }
    }

    pub fn as_str(&self) -> (r: &'a str)
        ensures
            r@ == self.text(),
    {
        match self {
            Method::Get => "GET",
            Method::Head => "HEAD",
            Method::Post => "POST",
            Method::Put => "PUT",
            Method::Delete => "DELETE",
            Method::Connect => "CONNECT",
            Method::Options => "OPTIONS",
            Method::Trace => "TRACE",
            Method::Patch => "PATCH",
            Method::Custom(c) => c,
        }
    }
}

/// One query fragment, written as given between `?` or `&` and the next.
#[derive(Clone, Copy)]
pub struct Query<'a> {
    q: &'a str,
}

impl<'a> Query<'a> {
    /// The fragment's characters.
    pub closed spec fn text(self) -> Seq<char> {
        self.q@
    }

    pub fn new(query: &'a str) -> (r: Self)
        ensures
            r.text() == query@,
    {
        Query { q: query }
    }
}

/// The query string made of the first `n` fragments: `?q0&q1&...`, or
/// nothing when `n` is zero.
pub open spec fn query_string<'a>(qs: Seq<Query<'a>>, n: nat) -> Seq<u8>
    decreases n,
{
    if n == 0 {
        Seq::empty()
    } else {
        query_string(qs, (n - 1) as nat) + seq![if n == 1 { QUESTION } else { AMPERSAND }]
            + vstd::utf8::encode_utf8(qs[n - 1].text())
    }
}

/// The index of the first `false` in `s` at or after `i`, or the length of
/// `s` when there is none.
pub open spec fn first_false(s: Seq<bool>, i: nat) -> nat
    decreases s.len() - i,
{
    if i >= s.len() {
        s.len()
    } else if !s[i as int] {
        i
    } else {
        first_false(s, i + 1)
    }
}

/// An HTTP request under assembly. Headers and query fragments are kept in
/// the order they were added; writing the request takes them out, so a
/// second write finds none left.
pub struct Request<'a, V> {
    path: Option<&'a str>,
    method: Method<'a>,
    headers: VecDeque<Header<'a>>,
    version: V,
    queries: VecDeque<Query<'a>>,
}

impl<'a> Request<'a, version::UNSPECIFIED> {
    /// A request with the given method, no path, no headers, no query and
    /// no version.
    pub fn new(method: Method<'a>) -> (r: Self)
        ensures
            r.spec_method() == method,
            r.spec_path() is None,
            r.pending_headers() == Seq::<Header<'a>>::empty(),
            r.pending_queries() == Seq::<Query<'a>>::empty(),
    {
        Request {
            path: None,
            method,
            headers: VecDeque::new(),
            version: version::UNSPECIFIED,
            queries: VecDeque::new(),
        }
    }
    /// A `GET` request: `Request::new(Method::Get)`.
    pub fn get() -> (r: Self)
        ensures
            r.spec_method() == Method::<'a>::Get,
            r.spec_path() is None,
            r.pending_headers() == Seq::<Header<'a>>::empty(),
            r.pending_queries() == Seq::<Query<'a>>::empty(),
    {
        Self::new(Method::Get)
    }

    /// A `HEAD` request: `Request::new(Method::Head)`.
    pub fn head() -> (r: Self)
        ensures
            r.spec_method() == Method::<'a>::Head,
            r.spec_path() is None,
            r.pending_headers() == Seq::<Header<'a>>::empty(),
            r.pending_queries() == Seq::<Query<'a>>::empty(),
    {
        Self::new(Method::Head)
    }

    /// A `POST` request: `Request::new(Method::Post)`.
    pub fn post() -> (r: Self)
        ensures
            r.spec_method() == Method::<'a>::Post,
            r.spec_path() is None,
            r.pending_headers() == Seq::<Header<'a>>::empty(),
            r.pending_queries() == Seq::<Query<'a>>::empty(),
    {
        Self::new(Method::Post)
    }

    /// A `PUT` request: `Request::new(Method::Put)`.
    pub fn put() -> (r: Self)
        ensures
            r.spec_method() == Method::<'a>::Put,
            r.spec_path() is None,
            r.pending_headers() == Seq::<Header<'a>>::empty(),
            r.pending_queries() == Seq::<Query<'a>>::empty(),
    {
        Self::new(Method::Put)
    }

    /// A `DELETE` request: `Request::new(Method::Delete)`.
    pub fn delete() -> (r: Self)
        ensures
            r.spec_method() == Method::<'a>::Delete,
            r.spec_path() is None,
            r.pending_headers() == Seq::<Header<'a>>::empty(),
            r.pending_queries() == Seq::<Query<'a>>::empty(),
    {
        Self::new(Method::Delete)
    }

    /// A `CONNECT` request: `Request::new(Method::Connect)`.
    pub fn connect() -> (r: Self)
        ensures
            r.spec_method() == Method::<'a>::Connect,
            r.spec_path() is None,
            r.pending_headers() == Seq::<Header<'a>>::empty(),
            r.pending_queries() == Seq::<Query<'a>>::empty(),
    {
        Self::new(Method::Connect)
    }

    /// A `OPTIONS` request: `Request::new(Method::Options)`.
    pub fn options() -> (r: Self)
        ensures
            r.spec_method() == Method::<'a>::Options,
            r.spec_path() is None,
            r.pending_headers() == Seq::<Header<'a>>::empty(),
            r.pending_queries() == Seq::<Query<'a>>::empty(),
    {
        Self::new(Method::Options)
    }

    /// A `TRACE` request: `Request::new(Method::Trace)`.
    pub fn trace() -> (r: Self)
        ensures
            r.spec_method() == Method::<'a>::Trace,
            r.spec_path() is None,
            r.pending_headers() == Seq::<Header<'a>>::empty(),
            r.pending_queries() == Seq::<Query<'a>>::empty(),
    {
        Self::new(Method::Trace)
    }

    /// A `PATCH` request: `Request::new(Method::Patch)`.
    pub fn patch() -> (r: Self)
        ensures
            r.spec_method() == Method::<'a>::Patch,
            r.spec_path() is None,
            r.pending_headers() == Seq::<Header<'a>>::empty(),
            r.pending_queries() == Seq::<Query<'a>>::empty(),
    {
        Self::new(Method::Patch)
    }
}

impl<'a, V> Request<'a, V> {
    pub closed spec fn spec_method(&self) -> Method<'a> {
        self.method
    }

    pub closed spec fn spec_path(&self) -> Option<&'a str> {
        self.path
    }

    pub closed spec fn spec_version(&self) -> V {
        self.version
    }

    /// The headers that the next write will emit, in order.
    pub closed spec fn pending_headers(&self) -> Seq<Header<'a>> {
        self.headers@
    }

    /// The query fragments that the next write will emit, in order.
    pub closed spec fn pending_queries(&self) -> Seq<Query<'a>> {
        self.queries@
    }

    /// The bytes of the method name.
    pub open spec fn method_bytes(&self) -> Seq<u8> {
        vstd::utf8::encode_utf8(self.spec_method().text())
    }

    /// The bytes of the request target's path: the one set, else `/`.
    pub open spec fn path_bytes(&self) -> Seq<u8> {
        match self.spec_path() {
            Some(p) => p.spec_bytes(),
            None => seq![SLASH],
        }
    }

    /// The method, a space, the path and the query string of the first `n`
    /// pending fragments.
    pub open spec fn target(&self, n: nat) -> Seq<u8> {
        self.method_bytes() + seq![SP] + self.path_bytes() + query_string(
            self.pending_queries(),
            n,
        )
    }

    /// Whether a path is set and is refused, given the grammar's verdict on
    /// it: an empty path is refused too.
    pub open spec fn path_refused(&self, path_valid: bool) -> bool {
        match self.spec_path() {
            Some(p) => !path_valid || p@.len() == 0,
            None => false,
        }
    }

    /// The grammar's verdict on the path (true when none is set).
    pub open spec fn path_verdict(&self) -> bool {
        match self.spec_path() {
            Some(p) => is_uri_path(p@),
            None => true,
        }
    }

    /// The grammar's verdict on each pending query fragment.
    pub open spec fn query_verdicts(&self) -> Seq<bool> {
        Seq::new(self.pending_queries().len(), |i: int| is_uri_query(self.pending_queries()[i].text()))
    }

    /// Sets the path, replacing any path set before.
    pub fn path(self, path: &'a str) -> (r: Self)
        ensures
            r.spec_path() == Some(path),
            r.spec_method() == self.spec_method(),
            r.spec_version() == self.spec_version(),
            r.pending_headers() == self.pending_headers(),
            r.pending_queries() == self.pending_queries(),
    {
        let mut s = self;
        s.path = Some(path);
        s
    }

    /// Sets the version.
    pub fn version<V2>(self, version: V2) -> (r: Request<'a, V2>)
        ensures
            r.spec_version() == version,
            r.spec_path() == self.spec_path(),
            r.spec_method() == self.spec_method(),
            r.pending_headers() == self.pending_headers(),
            r.pending_queries() == self.pending_queries(),
    {
        let Request { path, method, headers, version: _, queries } = self;
        Request { path, method, headers, version, queries }
    }

    /// Sets the version to HTTP/1.0.
    pub fn v1(self) -> (r: Request<'a, version::V1>)
        ensures
            r.spec_path() == self.spec_path(),
            r.spec_method() == self.spec_method(),
            r.pending_headers() == self.pending_headers(),
            r.pending_queries() == self.pending_queries(),
    {
        self.version(version::V1)
    }

    /// Sets the version to HTTP/1.1.
    pub fn v1_1(self) -> (r: Request<'a, version::V1_1>)
        ensures
            r.spec_path() == self.spec_path(),
            r.spec_method() == self.spec_method(),
            r.pending_headers() == self.pending_headers(),
            r.pending_queries() == self.pending_queries(),
    {
        self.version(version::V1_1)
    }

    /// Appends one header. It is checked only when the request is written.
    pub fn header(self, name: &'a str, value: &'a [u8]) -> (r: Self)
        ensures
            r.pending_headers() == self.pending_headers().push(Header { name, value }),
            r.spec_path() == self.spec_path(),
            r.spec_method() == self.spec_method(),
            r.spec_version() == self.spec_version(),
            r.pending_queries() == self.pending_queries(),
    {
        let mut s = self;
        s.headers.push_back(Header { name, value });
        s
    }

    /// Appends a run of headers, in order.
    pub fn headers(self, hs: Vec<Header<'a>>) -> (r: Self)
        ensures
            r.pending_headers() == self.pending_headers() + hs@,
            r.spec_path() == self.spec_path(),
            r.spec_method() == self.spec_method(),
            r.spec_version() == self.spec_version(),
            r.pending_queries() == self.pending_queries(),
    {
        let mut s = self;
        let ghost start = s.headers@;
        let mut i: usize = 0;
        while i < hs.len()
            invariant
                i <= hs@.len(),
                s.headers@ == start + hs@.subrange(0, i as int),
                s.path == self.path,
                s.method == self.method,
                s.version == self.version,
                s.queries@ == self.queries@,
                start == self.headers@,
            decreases hs@.len() - i,
        {
            s.headers.push_back(hs[i]);
            i = i + 1;
            assert(s.headers@ =~= start + hs@.subrange(0, i as int));
        }
        assert(hs@.subrange(0, hs@.len() as int) =~= hs@);
        s
    }

    /// Appends one query fragment. It is checked only when the request is
    /// written.
    pub fn query(self, q: &'a str) -> (r: Self)
        ensures
            r.pending_queries().len() == self.pending_queries().len() + 1,
            r.pending_queries().take(self.pending_queries().len() as int)
                == self.pending_queries(),
            r.pending_queries().last().text() == q@,
            r.spec_path() == self.spec_path(),
            r.spec_method() == self.spec_method(),
            r.spec_version() == self.spec_version(),
            r.pending_headers() == self.pending_headers(),
    {
        let mut s = self;
        s.queries.push_back(Query::new(q));
        assert(s.queries@.take(self.queries@.len() as int) =~= self.queries@);
        s
    }

    /// Appends a run of query fragments, in order.
    pub fn queries(self, qs: Vec<Query<'a>>) -> (r: Self)
        ensures
            r.pending_queries() == self.pending_queries() + qs@,
            r.spec_path() == self.spec_path(),
            r.spec_method() == self.spec_method(),
            r.spec_version() == self.spec_version(),
            r.pending_headers() == self.pending_headers(),
    {
        let mut s = self;
        let ghost start = s.queries@;
        let mut i: usize = 0;
        while i < qs.len()
            invariant
                i <= qs@.len(),
                s.queries@ == start + qs@.subrange(0, i as int),
                s.path == self.path,
                s.method == self.method,
                s.version == self.version,
                s.headers@ == self.headers@,
                start == self.queries@,
            decreases qs@.len() - i,
        {
            s.queries.push_back(qs[i]);
            i = i + 1;
            assert(s.queries@ =~= start + qs@.subrange(0, i as int));
        }
        assert(qs@.subrange(0, qs@.len() as int) =~= qs@);
        s
    }
}

/// Why a request could not be written.
#[derive(Clone, Copy, Debug, PartialEq, Eq, Structural)]
pub enum RequestWriteError {
    /// The version string is not three bytes with a digit or a dot.
    InvalidVersion,
    /// The path is empty or not a valid URI path.
    InvalidPath,
    /// A query fragment is not a valid URI query.
    InvalidQuery,
    /// A header was refused after `buffer_offset` bytes of this request had
    /// been written.
    InvalidHeader { buffer_offset: usize, err: HeaderWriteError },
    /// The byte sink refused a write.
    Io,
}

impl<'a, V: Version<'a>> Request<'a, V> {
    /// The bytes of the version string.
    pub open spec fn version_bytes(&self) -> Seq<u8> {
        vstd::utf8::encode_utf8(self.spec_version().text())
    }

    /// `METHOD SP PATH [?q0&q1...] SP HTTP/VERSION CRLF`
    pub open spec fn request_line(&self) -> Seq<u8> {
        self.target(self.pending_queries().len()) + seq![SP] + http_prefix() + self.version_bytes()
            + seq![CR, LF]
    }

    /// The whole message head: the request line, every pending header line
    /// and the blank line.
    pub open spec fn message(&self) -> Seq<u8> {
        self.request_line() + header_lines(self.pending_headers(), self.pending_headers().len())
            + seq![CR, LF]
    }

    /// Method, path and version are the same in both.
    pub open spec fn same_settings(&self, other: &Self) -> bool {
        &&& self.spec_method() == other.spec_method()
        &&& self.spec_path() == other.spec_path()
        &&& self.spec_version() == other.spec_version()
    }

    /// What a checked write of `self` does, given the grammar's verdict on the
    /// path and on each pending query fragment: `after` is the request
    /// afterwards, the sink goes from `w0` to `w1`, and `r` is returned.
    /// Checks run in order (version, path, each fragment, each header); the
    /// first failure ends the write, and what was written before it stays.
    pub open spec fn written_as(
        &self,
        after: &Self,
        w0: Seq<u8>,
        w1: Seq<u8>,
        r: Result<usize, RequestWriteError>,
        path_valid: bool,
        query_valid: Seq<bool>,
    ) -> bool {
        let qs = self.pending_queries();
        let hs = self.pending_headers();
        let k = first_false(query_valid, 0);
        let j = first_rejected(hs, 0);
        &&& after.same_settings(self)
        &&& if !version_ok(self.version_bytes()) {
            &&& r == Err::<usize, RequestWriteError>(RequestWriteError::InvalidVersion)
            &&& w1 == w0
            &&& after.pending_queries() == qs
            &&& after.pending_headers() == hs
        } else if self.path_refused(path_valid) {
            &&& r == Err::<usize, RequestWriteError>(RequestWriteError::InvalidPath)
            &&& w1 == w0
            &&& after.pending_queries() == qs
            &&& after.pending_headers() == hs
        } else if k < qs.len() {
            &&& r == Err::<usize, RequestWriteError>(RequestWriteError::InvalidQuery)
            &&& w1 == w0 + self.target(k)
            &&& after.pending_queries() == qs.subrange(k + 1 as int, qs.len() as int)
            &&& after.pending_headers() == hs
        } else if j < hs.len() {
            &&& r == Err::<usize, RequestWriteError>(
                RequestWriteError::InvalidHeader {
                    buffer_offset: (self.request_line() + header_lines(hs, j)).len() as usize,
                    err: hs[j as int].error()->0,
                },
            )
            &&& w1 == w0 + self.request_line() + header_lines(hs, j)
            &&& after.pending_queries() == Seq::<Query<'a>>::empty()
            &&& after.pending_headers() == hs.subrange(j + 1 as int, hs.len() as int)
        } else {
            &&& r == Ok::<usize, RequestWriteError>(self.message().len() as usize)
            &&& w1 == w0 + self.message()
            &&& after.pending_queries() == Seq::<Query<'a>>::empty()
            &&& after.pending_headers() == Seq::<Header<'a>>::empty()
        }
    }

    /// Writes the request with the URI grammar's verdicts supplied by the
    /// caller: `path_valid` for the path, `query_valid[i]` for the `i`-th
    /// pending query fragment. Everything else is checked here.
    pub fn write_checked(&mut self, w: &mut Vec<u8>, path_valid: bool, query_valid: &[bool]) -> (r:
        Result<usize, RequestWriteError>)
        requires
            query_valid@.len() == old(self).pending_queries().len(),
        ensures
            old(self).written_as(&*final(self), old(w)@, final(w)@, r, path_valid, query_valid@),
            r is Ok ==> final(w)@.len() == old(w)@.len() + r->Ok_0,
    {
        let version = self.version.as_str();
        if !check_version(version) {
            return Err(RequestWriteError::InvalidVersion);
        }
        match self.path {
            Some(p) => {
                if !path_valid || p.is_empty() {
                    return Err(RequestWriteError::InvalidPath);
                }
            },
            None => {},
        }
        let ghost w0 = w@;
        let n = emit_target_start(w, self.method.as_str(), self.path);
        let n = match drain_queries(w, &mut self.queries, n, query_valid) {
            Some(n) => n,
            None => {
                assert(w@ =~= w0 + old(self).target(first_false(query_valid@, 0)));
                return Err(RequestWriteError::InvalidQuery);
            },
        };
        let n = emit_version_tail(w, version, n);
        assert(w@ =~= w0 + old(self).request_line());
        match drain_headers(w, &mut self.headers) {
            Err((off, e)) => {
                assert(w@.len() == w.len());
                assert(w@ =~= w0 + old(self).request_line() + header_lines(
                    old(self).pending_headers(),
                    first_rejected(old(self).pending_headers(), 0),
                ));
                Err(RequestWriteError::InvalidHeader { buffer_offset: n + off, err: e })
            },
            Ok(m) => {
                assert(w@.len() == w.len());
                let n = emit_byte(w, CR, n + m);
                let n = emit_byte(w, LF, n);
                assert(w@ =~= w0 + old(self).message());
                Ok(n)
            },
        }
    }

    /// Checks and writes the request: the version must pass the sanity
    /// check, a path that is set must be a non-empty valid URI path, every
    /// query fragment a valid URI query, every header valid. Returns the
    /// number of bytes written. On an error the bytes written before it stay
    /// in the sink.
    pub fn write_to(&mut self, w: &mut Vec<u8>) -> (r: Result<usize, RequestWriteError>)
        ensures
            old(self).written_as(
                &*final(self),
                old(w)@,
                final(w)@,
                r,
                old(self).path_verdict(),
                old(self).query_verdicts(),
            ),
            r is Ok ==> final(w)@.len() == old(w)@.len() + r->Ok_0,
    {
        let path_valid = match self.path {
            Some(p) => path_is_encoded(p),
            None => true,
        };
        let mut verdicts: Vec<bool> = Vec::new();
        let mut i: usize = 0;
        while i < self.queries.len()
            invariant
                i <= self.queries@.len(),
                verdicts@ =~= self.query_verdicts().subrange(0, i as int),
            decreases self.queries@.len() - i,
        {
            verdicts.push(query_is_encoded(self.queries[i].q));
            i = i + 1;
        }
        assert(verdicts@ =~= self.query_verdicts());
        self.write_checked(w, path_valid, verdicts.as_slice())
    }

    /// Writes the request without any check: the same bytes as a checked
    /// write that succeeds. Only for requests whose version, path, query
    /// fragments and headers are already known to be valid; untrusted data
    /// written this way can produce a malformed or smuggled message.
    pub fn write_to_unchecked(&mut self, w: &mut Vec<u8>) -> (r: usize)
        ensures
            final(w)@ == old(w)@ + old(self).message(),
            r == old(self).message().len(),
            final(self).same_settings(old(self)),
            final(self).pending_queries() == Seq::<Query<'a>>::empty(),
            final(self).pending_headers() == Seq::<Header<'a>>::empty(),
    {
        let ghost w0 = w@;
        let n = emit_target_start(w, self.method.as_str(), self.path);
        let n = drain_queries_unchecked(w, &mut self.queries, n);
        let n = emit_version_tail(w, self.version.as_str(), n);
        assert(w@ =~= w0 + old(self).request_line());
        let m = drain_headers_unchecked(w, &mut self.headers);
        assert(w@.len() == w.len());
        let n = emit_byte(w, CR, n + m);
        let n = emit_byte(w, LF, n);
        assert(w@ =~= w0 + old(self).message());
        n
    }
}

/// Writes `METHOD SP PATH`, with `/` for a missing path, to an empty count.
fn emit_target_start(w: &mut Vec<u8>, method: &str, path: Option<&str>) -> (r: usize)
    ensures
        final(w)@ == old(w)@ + method.spec_bytes() + seq![SP] + match path {
            Some(p) => p.spec_bytes(),
            None => seq![SLASH],
        },
        r == final(w)@.len() - old(w)@.len(),
{
    let ghost w0 = w@;
    let n = emit(w, method.as_bytes(), 0);
    let n = emit_byte(w, SP, n);
    let n = match path {
        Some(p) => emit(w, p.as_bytes(), n),
        None => emit_byte(w, SLASH, n),
    };
    assert(w@ =~= w0 + method.spec_bytes() + seq![SP] + match path {
        Some(p) => p.spec_bytes(),
        None => seq![SLASH],
    });
    n
}

/// Writes ` HTTP/VERSION CRLF` after `count` bytes.
fn emit_version_tail(w: &mut Vec<u8>, version: &str, count: usize) -> (r: usize)
    requires
        count <= old(w)@.len(),
    ensures
        final(w)@ == old(w)@ + seq![SP] + http_prefix() + version.spec_bytes() + seq![CR, LF],
        r == count + final(w)@.len() - old(w)@.len(),
{
    let ghost w0 = w@;
    let n = emit_byte(w, SP, count);
    let n = emit_byte(w, 72, n);
    let n = emit_byte(w, 84, n);
    let n = emit_byte(w, 84, n);
    let n = emit_byte(w, 80, n);
    let n = emit_byte(w, 47, n);
    let n = emit(w, version.as_bytes(), n);
    let n = emit_byte(w, CR, n);
    let n = emit_byte(w, LF, n);
    assert(w@ =~= w0 + seq![SP] + http_prefix() + version.spec_bytes() + seq![CR, LF]);
    n
}

/// Takes fragments from the front of `qs` and writes each with its `?` or
/// `&` until none is left or one is refused; `query_valid[i]` is the verdict
/// on the `i`-th. Returns the new count, or `None` for a refused fragment,
/// which is taken but not written.
fn drain_queries<'a>(
    w: &mut Vec<u8>,
    qs: &mut VecDeque<Query<'a>>,
    count: usize,
    query_valid: &[bool],
) -> (r: Option<usize>)
    requires
        count <= old(w)@.len(),
        query_valid@.len() == old(qs)@.len(),
    ensures
        ({
            let k = first_false(query_valid@, 0);
            if k < old(qs)@.len() {
                &&& r is None
                &&& final(w)@ == old(w)@ + query_string(old(qs)@, k)
                &&& final(qs)@ == old(qs)@.subrange(k + 1 as int, old(qs)@.len() as int)
            } else {
                &&& r is Some
                &&& r->0 == count + query_string(old(qs)@, old(qs)@.len()).len()
                &&& final(w)@ == old(w)@ + query_string(old(qs)@, old(qs)@.len())
                &&& final(qs)@ == Seq::<Query<'a>>::empty()
            }
        }),
        r is Some ==> r->0 <= final(w)@.len(),
{
    let ghost w0 = w@;
    let ghost q0 = qs@;
    let mut n = count;
    let mut k: usize = 0;
    while qs.len() > 0
        invariant
            w0 == old(w)@,
            q0 == old(qs)@,
            query_valid@.len() == q0.len(),
            k <= q0.len(),
            qs@ == q0.subrange(k as int, q0.len() as int),
            first_false(query_valid@, k as nat) == first_false(query_valid@, 0),
            w@ == w0 + query_string(q0, k as nat),
            n == count + w@.len() - w0.len(),
            count <= w0.len(),
        decreases qs@.len(),
    {
        let q = qs.pop_front().unwrap();
        assert(q == q0[k as int]);
        assert(qs@ =~= q0.subrange(k + 1 as int, q0.len() as int));
        if !query_valid[k] {
            return None;
        }
        n = emit_byte(w, if k == 0 { QUESTION } else { AMPERSAND }, n);
        n = emit(w, q.q.as_bytes(), n);
        k = k + 1;
        assert(w@ =~= w0 + query_string(q0, k as nat));
    }
    Some(n)
}

/// Takes every fragment from `qs` and writes it with its `?` or `&`, without
/// a check. Returns the new count.
fn drain_queries_unchecked<'a>(w: &mut Vec<u8>, qs: &mut VecDeque<Query<'a>>, count: usize) -> (r:
    usize)
    requires
        count <= old(w)@.len(),
    ensures
        final(w)@ == old(w)@ + query_string(old(qs)@, old(qs)@.len()),
        final(qs)@ == Seq::<Query<'a>>::empty(),
        r == count + final(w)@.len() - old(w)@.len(),
{
    let ghost w0 = w@;
    let ghost q0 = qs@;
    let ghost mut k: nat = 0;
    let mut n = count;
    let mut first = true;
    while qs.len() > 0
        invariant
            w0 == old(w)@,
            q0 == old(qs)@,
            k <= q0.len(),
            first == (k == 0),
            qs@ == q0.subrange(k as int, q0.len() as int),
            w@ == w0 + query_string(q0, k),
            n == count + w@.len() - w0.len(),
            count <= w0.len(),
        decreases qs@.len(),
    {
        let q = qs.pop_front().unwrap();
        assert(q == q0[k as int]);
        assert(qs@ =~= q0.subrange(k + 1 as int, q0.len() as int));
        n = emit_byte(w, if first { QUESTION } else { AMPERSAND }, n);
        n = emit(w, q.q.as_bytes(), n);
        first = false;
        proof {
            k = k + 1;
        }
        assert(w@ =~= w0 + query_string(q0, k));
    }
    n
}

/// After a successful checked write the request has no headers and no query
/// fragments left, so writing it again emits only the request line, without
/// a query string, and the blank line.
pub proof fn lemma_second_write_is_bare<'a, V: Version<'a>>(
    first: Request<'a, V>,
    after: Request<'a, V>,
    w0: Seq<u8>,
    w1: Seq<u8>,
    r: Result<usize, RequestWriteError>,
    path_valid: bool,
    query_valid: Seq<bool>,
)
    requires
        first.written_as(&after, w0, w1, r, path_valid, query_valid),
        r is Ok,
    ensures
        after.pending_headers().len() == 0,
        after.pending_queries().len() == 0,
        after.message() == after.method_bytes() + seq![SP] + after.path_bytes() + seq![SP]
            + http_prefix() + after.version_bytes() + seq![CR, LF] + seq![CR, LF],
{
    assert(after.message() =~= after.method_bytes() + seq![SP] + after.path_bytes() + seq![SP]
        + http_prefix() + after.version_bytes() + seq![CR, LF] + seq![CR, LF]);
}

/// A request whose version was never set is refused with `InvalidVersion`
/// before anything is written or taken.
pub proof fn lemma_unspecified_request_refused<'a>(
    req: Request<'a, version::UNSPECIFIED>,
    after: Request<'a, version::UNSPECIFIED>,
    w0: Seq<u8>,
    w1: Seq<u8>,
    r: Result<usize, RequestWriteError>,
    path_valid: bool,
    query_valid: Seq<bool>,
)
    requires
        req.written_as(&after, w0, w1, r, path_valid, query_valid),
    ensures
        r == Err::<usize, RequestWriteError>(RequestWriteError::InvalidVersion),
        w1 == w0,
        after.pending_headers() == req.pending_headers(),
        after.pending_queries() == req.pending_queries(),
{
    version::lemma_empty_version_rejected();
}

} // verus!
