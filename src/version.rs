//! Protocol version tags and the check that a version string must pass
//! before it is written.
use vstd::prelude::*;
use vstd::string::StringSliceAdditionalSpecFns;

verus! {

/// A protocol version as it appears after `HTTP/` on the wire.
pub trait Version<'a> {
    /// The characters of the wire string.
    spec fn text(&self) -> Seq<char>;

    fn as_str(&self) -> (r: &'a str)
        ensures
            r@ == self.text(),
    ;
}

/// HTTP/1.0
pub struct V1;

/// HTTP/1.1
pub struct V1_1;

/// No version chosen yet. Its wire string is empty, which serialization
/// rejects.
pub struct UNSPECIFIED;

/// A version string chosen at run time.
pub struct Dynamic<'a>(pub &'a str);

impl<'a> Version<'a> for V1 {
    open spec fn text(&self) -> Seq<char> {
        "1.0"@
    }

    fn as_str(&self) -> (r: &'a str) {
        "1.0"
    }
}

impl<'a> Version<'a> for V1_1 {
    open spec fn text(&self) -> Seq<char> {
        "1.1"@
    }

    fn as_str(&self) -> (r: &'a str) {
        "1.1"
    }
}

impl<'a> Version<'a> for UNSPECIFIED {
    open spec fn text(&self) -> Seq<char> {
        Seq::empty()
    }

    fn as_str(&self) -> (r: &'a str) {
        proof {
            reveal_strlit("");
        }
        ""
    }
}

impl<'a> Version<'a> for Dynamic<'a> {
    open spec fn text(&self) -> Seq<char> {
        self.0@
    }

    fn as_str(&self) -> (r: &'a str) {
        self.0
    }
}

/// A digit or a dot.
pub open spec fn is_version_byte(b: u8) -> bool {
    (48 <= b <= 57) || b == 46
}

/// The sanity check on a version string: exactly three bytes, at least one
/// of them a digit or a dot.
pub open spec fn version_ok(v: Seq<u8>) -> bool {
    v.len() == 3 && exists|i: int| 0 <= i < 3 && is_version_byte(#[trigger] v[i])
}

fn version_byte(b: u8) -> (r: bool)
    ensures
        r == is_version_byte(b),
{
    (48 <= b && b <= 57) || b == 46
}

pub(crate) fn check_version(v: &str) -> (r: bool)
    ensures
        r == version_ok(v.spec_bytes()),
{
    let b = v.as_bytes();
    if b.len() != 3 {
        return false;
    }
    let r = version_byte(b[0]) || version_byte(b[1]) || version_byte(b[2]);
    assert(r ==> is_version_byte(b@[0]) || is_version_byte(b@[1]) || is_version_byte(b@[2]));
    r
}

/// The empty version string, that of a version never chosen, fails the
/// check.
pub proof fn lemma_empty_version_rejected()
    ensures
        !version_ok(vstd::utf8::encode_utf8(Seq::<char>::empty())),
{
    assert(vstd::utf8::encode_utf8(Seq::<char>::empty()) =~= Seq::<u8>::empty());
}

} // verus!
