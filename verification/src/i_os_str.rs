//! The immutable interned OS string, held as its platform-native bytes.

use crate::mow_os_str::MowOsStr;
use crate::order::bytes_order;
use crate::order::lex_order;
use crate::pool::Intern;
use crate::pool::Pool;
use crate::prc::arc_from_boxed;
use crate::text::arc_from_bytes;
use crate::text::arc_from_vec;
use crate::text::AsOsStr;
use crate::text::box_from_bytes;
use crate::text::bytes_eq;
use std::borrow::Borrow;
use std::cmp::Ordering;
use std::ops::Deref;
use std::rc::Rc;
use std::sync::Arc;
use vstd::prelude::*;
use vstd::slice::slice_to_vec;
use vstd::string::StringSliceAdditionalSpecFns;
use vstd::utf8::encode_utf8;

verus! {

/// An immutable OS string that lives in a pool. Its view is its bytes.
///
/// `==` on two such strings asks whether they are on one cell, which strings
/// that one pool gave out for equal bytes are. They are ordered and hashed by
/// their bytes, and compared with plain strings by their bytes.
#[derive(Debug, Hash)]
pub struct IOsStr(Intern<[u8]>);

impl View for IOsStr {
    type V = Seq<u8>;

    /// The bytes of the OS string.
    closed spec fn view(&self) -> Seq<u8> {
        self.0@
    }
}

impl IOsStr {
    /// The cell that the string is on.
    pub closed spec fn cell(&self) -> Arc<[u8]> {
        self.0.cell()
    }

    /// Whether the string is on the cell that `pool` stores for its content.
    pub open spec fn is_cell_of(&self, pool: &Pool<[u8]>) -> bool {
        pool@.contains(self@) && self.cell() == pool.cell_of(self@)
    }

    /// Interns the bytes that `s` lends.
    pub fn new<S: AsOsStr>(pool: &mut Pool<[u8]>, s: S) -> (ios: Self)
        ensures
            ios@ == s.as_os_str_spec(),
            final(pool)@ == old(pool)@.insert(ios@),
            ios.is_cell_of(final(pool)),
            final(pool).keeps_cells_of(old(pool)),
    {
        let handle = pool.intern(s.as_os_str_ref(), arc_from_bytes);
        IOsStr(handle)
    }

    /// Interns an owned OS string.
    pub fn from_os_string(pool: &mut Pool<[u8]>, s: Vec<u8>) -> (ios: Self)
        ensures
            ios@ == s@,
            final(pool)@ == old(pool)@.insert(ios@),
            ios.is_cell_of(final(pool)),
            final(pool).keeps_cells_of(old(pool)),
    {
        let handle = pool.intern(s, arc_from_vec);
        IOsStr(handle)
    }

    /// Interns a boxed OS string.
    pub fn from_boxed(pool: &mut Pool<[u8]>, s: Box<[u8]>) -> (ios: Self)
        ensures
            ios@ == s@,
            final(pool)@ == old(pool)@.insert(ios@),
            ios.is_cell_of(final(pool)),
            final(pool).keeps_cells_of(old(pool)),
    {
        let handle = pool.intern(s, arc_from_boxed);
        IOsStr(handle)
    }

    /// Interns a shared OS string. If the pool holds no cell of that content,
    /// `s` itself becomes the pool's cell.
    pub fn from_arc(pool: &mut Pool<[u8]>, s: Arc<[u8]>) -> (ios: Self)
        ensures
            ios@ == s@,
            final(pool)@ == old(pool)@.insert(ios@),
            ios.is_cell_of(final(pool)),
            final(pool).keeps_cells_of(old(pool)),
    {
        let keep = |cell: Arc<[u8]>| -> (same: Arc<[u8]>)
            ensures
                same@ == cell@,
            { cell };
        let handle = pool.intern(s, keep);
        IOsStr(handle)
    }

    /// Interns an OS string shared within one thread.
    pub fn from_rc(pool: &mut Pool<[u8]>, s: Rc<[u8]>) -> (ios: Self)
        ensures
            ios@ == s@,
            final(pool)@ == old(pool)@.insert(ios@),
            ios.is_cell_of(final(pool)),
            final(pool).keeps_cells_of(old(pool)),
    {
        let copy = |local: Rc<[u8]>| -> (cell: Arc<[u8]>)
            ensures
                cell@ == local@,
            { arc_from_bytes(local.as_os_str_ref()) };
        let handle = pool.intern(s, copy);
        IOsStr(handle)
    }

    /// Interns the bytes that `s` lends, with `to_arc` to make the cell where the
    /// pool holds none of that content. See [`Pool::intern`].
    pub fn from_to_arc<S: AsOsStr, F: FnOnce(S) -> Arc<[u8]>>(
        pool: &mut Pool<[u8]>,
        s: S,
        to_arc: F,
    ) -> (ios: Self)
        requires
            !old(pool)@.contains(s.as_os_str_spec()) ==> call_requires(to_arc, (s,)),
        ensures
            final(pool)@ == old(pool)@.insert(ios@),
            ios.is_cell_of(final(pool)),
            final(pool).keeps_cells_of(old(pool)),
            old(pool)@.contains(s.as_os_str_spec()) ==> ios@ == s.as_os_str_spec() && *final(pool)
                == *old(pool),
            !old(pool)@.contains(s.as_os_str_spec()) ==> exists|made: Arc<[u8]>| #[trigger]
                call_ensures(to_arc, (s,), made) && ios@ == made@,
    {
        IOsStr(pool.intern(s, to_arc))
    }

    /// The string `s` as an immutable interned string: the cell itself of a shared
    /// string, the pool's cell for the buffer of an exclusive one.
    pub fn from_mow(pool: &mut Pool<[u8]>, s: MowOsStr) -> (ios: Self)
        ensures
            ios@ == s@,
            s.spec_is_interned() ==> ios == s.spec_istr() && *final(pool) == *old(pool),
            s.spec_is_mutable() ==> final(pool)@ == old(pool)@.insert(s@) && ios.is_cell_of(
                final(pool),
            ),
            final(pool).keeps_cells_of(old(pool)),
    {
        s.into_i_os_str(pool)
    }

    /// Wraps a handle on a cell.
    pub fn from_intern(handle: Intern<[u8]>) -> (ios: Self)
        ensures
            ios@ == handle@,
            ios.cell() == handle.cell(),
    {
        IOsStr(handle)
    }

    /// The handle on the cell.
    pub fn as_intern(&self) -> (handle: &Intern<[u8]>)
        ensures
            handle@ == self@,
            handle.cell() == self.cell(),
    {
        &self.0
    }

    /// The bytes of the OS string.
    pub fn as_os_str(&self) -> (s: &[u8])
        ensures
            s@ == self@,
    {
        self.0.get()
    }

    /// A boxed copy of the bytes.
    pub fn into_boxed_os_str(&self) -> (boxed: Box<[u8]>)
        ensures
            boxed@ == self@,
    {
        box_from_bytes(self.as_os_str())
    }

    /// A shared [`MowOsStr`] on the same cell.
    pub fn into_mut(&self) -> (mow: MowOsStr)
        ensures
            mow.spec_is_interned(),
            mow@ == self@,
            mow.cell() == self.cell(),
    {
        MowOsStr::from_i_os_str(self.clone())
    }

    /// Gives up the string for the pool's shared cell itself.
    pub fn into_arc(self) -> (cell: Arc<[u8]>)
        ensures
            cell@ == self@,
    {
        self.0.into_arc()
    }

    /// An owned copy of the bytes.
    pub fn to_os_string(&self) -> (s: Vec<u8>)
        ensures
            s@ == self@,
    {
        slice_to_vec(self.as_os_str())
    }

    /// Whether the two strings are on one cell of a pool.
    pub fn ptr_eq(&self, other: &Self) -> (same: bool)
        ensures
            same ==> self.cell() == other.cell() && self@ == other@,
    {
        self.0.ptr_eq(&other.0)
    }

    /// Whether the two strings hold the same content, be they on one cell or on
    /// two.
    pub fn content_eq(&self, other: &Self) -> (same: bool)
        ensures
            same == (self@ == other@),
    {
        self.0.content_eq(&other.0)
    }
}

impl AsOsStr for IOsStr {
    open spec fn as_os_str_spec(&self) -> Seq<u8> {
        self@
    }

    fn as_os_str_ref(&self) -> (s: &[u8]) {
        self.as_os_str()
    }
}

impl Clone for IOsStr {
    /// Another handle on the same cell.
    fn clone(&self) -> (dup: Self)
        ensures
            dup.cell() == self.cell(),
            dup@ == self@,
    {
        IOsStr(self.0.clone())
    }
}

impl PartialEq for IOsStr {
    /// Whether the two strings are on one cell, as [`IOsStr::ptr_eq`] tells. Two
    /// strings that one pool gave out for equal content are; strings of equal
    /// content from two pools are not. [`IOsStr::content_eq`] compares content.
    fn eq(&self, other: &Self) -> (same: bool)
        ensures
            same ==> self.cell() == other.cell() && self@ == other@,
    {
        self.0.ptr_eq(&other.0)
    }
}

impl vstd::std_specs::cmp::PartialEqSpecImpl for IOsStr {
    /// Whether two strings are on one cell is no function of their values, so
    /// `==` is held to no meaning over them.
    open spec fn obeys_eq_spec() -> bool {
        false
    }

    open spec fn eq_spec(&self, other: &Self) -> bool {
        self.cell() == other.cell()
    }
}

impl Eq for IOsStr {}

impl PartialEq<[u8]> for IOsStr {
    fn eq(&self, other: &[u8]) -> (same: bool) {
        bytes_eq(self.as_os_str(), other)
    }
}

impl vstd::std_specs::cmp::PartialEqSpecImpl<[u8]> for IOsStr {
    open spec fn obeys_eq_spec() -> bool {
        true
    }

    open spec fn eq_spec(&self, other: &[u8]) -> bool {
        self@ == other@
    }
}

impl PartialEq<&[u8]> for IOsStr {
    fn eq(&self, other: &&[u8]) -> (same: bool) {
        bytes_eq(self.as_os_str(), *other)
    }
}

impl vstd::std_specs::cmp::PartialEqSpecImpl<&[u8]> for IOsStr {
    open spec fn obeys_eq_spec() -> bool {
        true
    }

    open spec fn eq_spec(&self, other: &&[u8]) -> bool {
        self@ == other@
    }
}

impl PartialEq<Vec<u8>> for IOsStr {
    fn eq(&self, other: &Vec<u8>) -> (same: bool) {
        bytes_eq(self.as_os_str(), other.as_slice())
    }
}

impl vstd::std_specs::cmp::PartialEqSpecImpl<Vec<u8>> for IOsStr {
    open spec fn obeys_eq_spec() -> bool {
        true
    }

    open spec fn eq_spec(&self, other: &Vec<u8>) -> bool {
        self@ == other@
    }
}

impl PartialEq<str> for IOsStr {
    /// Equality with the UTF-8 encoding of the text.
    fn eq(&self, other: &str) -> (same: bool) {
        bytes_eq(self.as_os_str(), other.as_bytes())
    }
}

impl vstd::std_specs::cmp::PartialEqSpecImpl<str> for IOsStr {
    open spec fn obeys_eq_spec() -> bool {
        true
    }

    open spec fn eq_spec(&self, other: &str) -> bool {
        self@ == encode_utf8(other@)
    }
}

impl PartialEq<&str> for IOsStr {
    /// Equality with the UTF-8 encoding of the text.
    fn eq(&self, other: &&str) -> (same: bool) {
        bytes_eq(self.as_os_str(), other.as_bytes())
    }
}

impl vstd::std_specs::cmp::PartialEqSpecImpl<&str> for IOsStr {
    open spec fn obeys_eq_spec() -> bool {
        true
    }

    open spec fn eq_spec(&self, other: &&str) -> bool {
        self@ == encode_utf8(other@)
    }
}

impl PartialEq<String> for IOsStr {
    /// Equality with the UTF-8 encoding of the text.
    fn eq(&self, other: &String) -> (same: bool) {
        bytes_eq(self.as_os_str(), other.as_str().as_bytes())
    }
}

impl vstd::std_specs::cmp::PartialEqSpecImpl<String> for IOsStr {
    open spec fn obeys_eq_spec() -> bool {
        true
    }

    open spec fn eq_spec(&self, other: &String) -> bool {
        self@ == encode_utf8(other@)
    }
}

impl PartialOrd for IOsStr {
    /// The lexicographic order of the bytes.
    fn partial_cmp(&self, other: &Self) -> (order: Option<Ordering>) {
        Some(bytes_order(self.as_os_str(), other.as_os_str()))
    }
}

impl vstd::std_specs::cmp::PartialOrdSpecImpl for IOsStr {
    open spec fn obeys_partial_cmp_spec() -> bool {
        true
    }

    open spec fn partial_cmp_spec(&self, other: &Self) -> Option<Ordering> {
        Some(lex_order(self@, other@))
    }
}

impl Deref for IOsStr {
    type Target = [u8];

    fn deref(&self) -> (s: &[u8])
        ensures
            s@ == self@,
    {
        self.as_os_str()
    }
}

impl AsRef<[u8]> for IOsStr {
    fn as_ref(&self) -> (s: &[u8])
        ensures
            ({
                let bytes: &[u8] = s;
                bytes@ == self@
            }),
    {
        self.as_os_str()
    }
}

impl Borrow<[u8]> for IOsStr {
    /// The bytes, which the string is hashed and compared by.
    fn borrow(&self) -> (s: &[u8])
        ensures
            ({
                let bytes: &[u8] = s;
                bytes@ == self@
            }),
    {
        self.as_os_str()
    }
}

} // verus!
