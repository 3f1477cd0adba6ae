//! Values that hold text and can lend it as a string slice, and values that hold
//! an OS string and can lend it as bytes.
//!
//! An OS string is held here as its platform-native bytes. A `str` is an OS
//! string too: its bytes are its UTF-8 encoding.

use std::hash::Hash;
use std::hash::Hasher;
use std::rc::Rc;
use std::sync::Arc;
use vstd::prelude::*;
use vstd::string::StringSliceAdditionalSpecFns;
use vstd::utf8::encode_utf8;
use vstd::utf8::encode_utf8_decode_utf8;

verus! {

/// A value that holds text and lends it without giving itself up.
pub trait AsStr {
    /// The text the value holds.
    spec fn as_str_spec(&self) -> Seq<char>;

    /// Lends the text.
    fn as_str_ref(&self) -> (s: &str)
        ensures
            s@ == self.as_str_spec(),
    ;
}

impl AsStr for &str {
    open spec fn as_str_spec(&self) -> Seq<char> {
        self@
    }

    fn as_str_ref(&self) -> (s: &str) {
        *self
    }
}

impl AsStr for String {
    open spec fn as_str_spec(&self) -> Seq<char> {
        self@
    }

    fn as_str_ref(&self) -> (s: &str) {
        self.as_str()
    }
}

impl AsStr for Box<str> {
    open spec fn as_str_spec(&self) -> Seq<char> {
        self@
    }

    fn as_str_ref(&self) -> (s: &str) {
        &**self
    }
}

impl AsStr for Arc<str> {
    open spec fn as_str_spec(&self) -> Seq<char> {
        self@
    }

    fn as_str_ref(&self) -> (s: &str) {
        &**self
    }
}

impl AsStr for Rc<str> {
    open spec fn as_str_spec(&self) -> Seq<char> {
        self@
    }

    fn as_str_ref(&self) -> (s: &str) {
        &**self
    }
}

/// A value that holds an OS string and lends its bytes without giving itself up.
pub trait AsOsStr {
    /// The bytes the value holds.
    spec fn as_os_str_spec(&self) -> Seq<u8>;

    /// Lends the bytes.
    fn as_os_str_ref(&self) -> (s: &[u8])
        ensures
            s@ == self.as_os_str_spec(),
    ;
}

impl AsOsStr for &[u8] {
    open spec fn as_os_str_spec(&self) -> Seq<u8> {
        self@
    }

    fn as_os_str_ref(&self) -> (s: &[u8]) {
        *self
    }
}

impl AsOsStr for Vec<u8> {
    open spec fn as_os_str_spec(&self) -> Seq<u8> {
        self@
    }

    fn as_os_str_ref(&self) -> (s: &[u8]) {
        self.as_slice()
    }
}

impl AsOsStr for Box<[u8]> {
    open spec fn as_os_str_spec(&self) -> Seq<u8> {
        self@
    }

    fn as_os_str_ref(&self) -> (s: &[u8]) {
        &**self
    }
}

impl AsOsStr for Arc<[u8]> {
    open spec fn as_os_str_spec(&self) -> Seq<u8> {
        self@
    }

    fn as_os_str_ref(&self) -> (s: &[u8]) {
        &**self
    }
}

impl AsOsStr for Rc<[u8]> {
    open spec fn as_os_str_spec(&self) -> Seq<u8> {
        self@
    }

    fn as_os_str_ref(&self) -> (s: &[u8]) {
        &**self
    }
}

impl AsOsStr for &str {
    open spec fn as_os_str_spec(&self) -> Seq<u8> {
        encode_utf8(self@)
    }

    fn as_os_str_ref(&self) -> (s: &[u8]) {
        self.as_bytes()
    }
}

impl AsOsStr for String {
    open spec fn as_os_str_spec(&self) -> Seq<u8> {
        encode_utf8(self@)
    }

    fn as_os_str_ref(&self) -> (s: &[u8]) {
        self.as_str().as_bytes()
    }
}

/// Whether the two byte strings hold the same bytes.
pub fn bytes_eq(a: &[u8], b: &[u8]) -> (same: bool)
    ensures
        same == (a@ == b@),
{
    if a.len() != b.len() {
        return false;
    }
    let mut i: usize = 0;
    while i < a.len()
        invariant
            a@.len() == b@.len(),
            i <= a@.len(),
            forall|k: int| 0 <= k < i ==> a@[k] == b@[k],
        decreases a@.len() - i,
    {
        if a[i] != b[i] {
            return false;
        }
        i += 1;
    }
    assert(a@ =~= b@);
    true
}

/// `Arc::<[u8]>::from` on a slice: a new shared cell with those bytes.
#[verifier::external_body]
pub(crate) fn arc_from_bytes(s: &[u8]) -> (cell: Arc<[u8]>)
    ensures
        cell@ == s@,
{
    Arc::from(s)
}

/// `Arc::<[u8]>::from` on a `Vec`: a new shared cell with those bytes.
#[verifier::external_body]
pub(crate) fn arc_from_vec(s: Vec<u8>) -> (cell: Arc<[u8]>)
    ensures
        cell@ == s@,
{
    Arc::from(s)
}

/// `Box::<[u8]>::from` on a slice: a new boxed copy of the bytes.
#[verifier::external_body]
pub(crate) fn box_from_bytes(s: &[u8]) -> (boxed: Box<[u8]>)
    ensures
        boxed@ == s@,
{
    Box::from(s)
}

/// `Vec::into_boxed_slice`: the bytes, boxed.
#[verifier::external_body]
pub(crate) fn vec_into_boxed(s: Vec<u8>) -> (boxed: Box<[u8]>)
    ensures
        boxed@ == s@,
{
    s.into_boxed_slice()
}

/// `Vec::reserve_exact`: room is made; the bytes stay as they are.
#[verifier::external_body]
pub(crate) fn vec_reserve_exact(s: &mut Vec<u8>, additional: usize)
    requires
        old(s)@.len() + additional <= isize::MAX,
    ensures
        final(s)@ == old(s)@,
{
    s.reserve_exact(additional)
}

/// `Vec::shrink_to_fit`: spare room is given back; the bytes stay as they are.
#[verifier::external_body]
pub(crate) fn vec_shrink_to_fit(s: &mut Vec<u8>)
    ensures
        final(s)@ == old(s)@,
{
    s.shrink_to_fit()
}

/// `Arc::<str>::from` on a string slice: a new shared cell with that text.
#[verifier::external_body]
pub(crate) fn arc_from_str(s: &str) -> (cell: Arc<str>)
    ensures
        cell@ == s@,
{
    Arc::from(s)
}

/// `Arc::<str>::from` on a `String`: a new shared cell with that text.
#[verifier::external_body]
pub(crate) fn arc_from_string(s: String) -> (cell: Arc<str>)
    ensures
        cell@ == s@,
{
    Arc::from(s)
}

/// `Box::<str>::from` on a string slice: a new boxed copy of the text.
#[verifier::external_body]
pub(crate) fn box_from_str(s: &str) -> (boxed: Box<str>)
    ensures
        boxed@ == s@,
{
    Box::from(s)
}

/// `String::from` on a character: the text of that one character.
#[verifier::external_body]
pub(crate) fn string_from_char(ch: char) -> (s: String)
    ensures
        s@ == seq![ch],
{
    String::from(ch)
}

/// `<str as Hash>::hash`: feeds the text to the hasher. Nothing is claimed of
/// what the hasher then holds.
#[verifier::external_body]
pub(crate) fn str_hash<H: Hasher>(text: &str, state: &mut H) {
    text.hash(state)
}

/// `<[u8] as Hash>::hash`: feeds the bytes to the hasher. Nothing is claimed of
/// what the hasher then holds.
#[verifier::external_body]
pub(crate) fn bytes_hash<H: Hasher>(bytes: &[u8], state: &mut H) {
    bytes.hash(state)
}

/// Whether the two strings hold the same text: they do when their UTF-8
/// encodings are the same bytes.
pub fn str_eq(a: &str, b: &str) -> (same: bool)
    ensures
        same == (a@ == b@),
{
    let same = bytes_eq(a.as_bytes(), b.as_bytes());
    proof {
        encode_utf8_decode_utf8(a@);
        encode_utf8_decode_utf8(b@);
    }
    same
}

} // verus!
