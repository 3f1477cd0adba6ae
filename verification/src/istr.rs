//! The immutable interned string.

use crate::mow_str::MowStr;
use crate::order::lex_order;
use crate::order::str_order;
use crate::pool::Intern;
use crate::pool::Pool;
use crate::prc::arc_from_boxed;
use crate::text::arc_from_str;
use crate::text::arc_from_string;
use crate::text::AsStr;
use crate::text::box_from_str;
use crate::text::str_eq;
use std::borrow::Borrow;
use std::cmp::Ordering;
use std::ops::Deref;
use std::rc::Rc;
use std::sync::Arc;
use vstd::prelude::*;
use vstd::slice::slice_to_vec;
use vstd::string::StringSliceAdditionalSpecFns;
use vstd::utf8::encode_utf8;

verus! {

/// An immutable string that lives in a pool. Its view is its text.
///
/// `==` on two such strings asks whether they are on one cell, which strings
/// that one pool gave out for equal text are. They are ordered and hashed by
/// text, and compared with plain strings by text.
#[derive(Debug, Hash)]
pub struct IStr(Intern<str>);

impl View for IStr {
    type V = Seq<char>;

    /// The text of the string.
    closed spec fn view(&self) -> Seq<char> {
        self.0@
    }
}

impl IStr {
    /// The cell that the string is on.
    pub closed spec fn cell(&self) -> Arc<str> {
        self.0.cell()
    }

    /// Whether the string is on the cell that `pool` stores for its content.
    pub open spec fn is_cell_of(&self, pool: &Pool<str>) -> bool {
        pool@.contains(self@) && self.cell() == pool.cell_of(self@)
    }

    /// Interns the text that `s` lends.
    pub fn new<S: AsStr>(pool: &mut Pool<str>, s: S) -> (istr: Self)
        ensures
            istr@ == s.as_str_spec(),
            final(pool)@ == old(pool)@.insert(istr@),
            istr.is_cell_of(final(pool)),
            final(pool).keeps_cells_of(old(pool)),
    {
        let handle = pool.intern(s.as_str_ref(), arc_from_str);
        IStr(handle)
    }

    /// Interns a `String`.
    pub fn from_string(pool: &mut Pool<str>, s: String) -> (istr: Self)
        ensures
            istr@ == s@,
            final(pool)@ == old(pool)@.insert(istr@),
            istr.is_cell_of(final(pool)),
            final(pool).keeps_cells_of(old(pool)),
    {
        let handle = pool.intern(s, arc_from_string);
        IStr(handle)
    }

    /// Interns a boxed string slice.
    pub fn from_boxed(pool: &mut Pool<str>, s: Box<str>) -> (istr: Self)
        ensures
            istr@ == s@,
            final(pool)@ == old(pool)@.insert(istr@),
            istr.is_cell_of(final(pool)),
            final(pool).keeps_cells_of(old(pool)),
    {
        let handle = pool.intern(s, arc_from_boxed);
        IStr(handle)
    }

    /// Interns a shared string slice. If the pool holds no cell of that text,
    /// `s` itself becomes the pool's cell.
    pub fn from_arc(pool: &mut Pool<str>, s: Arc<str>) -> (istr: Self)
        ensures
            istr@ == s@,
            final(pool)@ == old(pool)@.insert(istr@),
            istr.is_cell_of(final(pool)),
            final(pool).keeps_cells_of(old(pool)),
    {
        let keep = |cell: Arc<str>| -> (same: Arc<str>)
            ensures
                same@ == cell@,
            { cell };
        let handle = pool.intern(s, keep);
        IStr(handle)
    }

    /// Interns a string slice shared within one thread.
    pub fn from_rc(pool: &mut Pool<str>, s: Rc<str>) -> (istr: Self)
        ensures
            istr@ == s@,
            final(pool)@ == old(pool)@.insert(istr@),
            istr.is_cell_of(final(pool)),
            final(pool).keeps_cells_of(old(pool)),
    {
        let copy = |local: Rc<str>| -> (cell: Arc<str>)
            ensures
                cell@ == local@,
            { arc_from_str(local.as_str_ref()) };
        let handle = pool.intern(s, copy);
        IStr(handle)
    }

    /// Interns the text that `s` lends, with `to_arc` to make the cell where the
    /// pool holds none of that text. See [`Pool::intern`].
    pub fn from_to_arc<S: AsStr, F: FnOnce(S) -> Arc<str>>(
        pool: &mut Pool<str>,
        s: S,
        to_arc: F,
    ) -> (istr: Self)
        requires
            !old(pool)@.contains(s.as_str_spec()) ==> call_requires(to_arc, (s,)),
        ensures
            final(pool)@ == old(pool)@.insert(istr@),
            istr.is_cell_of(final(pool)),
            final(pool).keeps_cells_of(old(pool)),
            old(pool)@.contains(s.as_str_spec()) ==> istr@ == s.as_str_spec() && *final(pool)
                == *old(pool),
            !old(pool)@.contains(s.as_str_spec()) ==> exists|made: Arc<str>| #[trigger]
                call_ensures(to_arc, (s,), made) && istr@ == made@,
    {
        IStr(pool.intern(s, to_arc))
    }

    /// The string `s` as an immutable interned string: the cell itself of a shared
    /// string, the pool's cell for the buffer of an exclusive one.
    pub fn from_mow(pool: &mut Pool<str>, s: MowStr) -> (istr: Self)
        ensures
            istr@ == s@,
            s.spec_is_interned() ==> istr == s.spec_istr() && *final(pool) == *old(pool),
            s.spec_is_mutable() ==> final(pool)@ == old(pool)@.insert(s@) && istr.is_cell_of(
                final(pool),
            ),
            final(pool).keeps_cells_of(old(pool)),
    {
        s.into_istr(pool)
    }

    /// Wraps a handle on a cell.
    pub fn from_intern(handle: Intern<str>) -> (istr: Self)
        ensures
            istr@ == handle@,
            istr.cell() == handle.cell(),
    {
        IStr(handle)
    }

    /// The handle on the cell.
    pub fn as_intern(&self) -> (handle: &Intern<str>)
        ensures
            handle@ == self@,
            handle.cell() == self.cell(),
    {
        &self.0
    }

    /// The text as a string slice.
    pub fn as_str(&self) -> (s: &str)
        ensures
            s@ == self@,
    {
        self.0.get()
    }

    /// A boxed copy of the text.
    pub fn into_boxed_str(&self) -> (boxed: Box<str>)
        ensures
            boxed@ == self@,
    {
        box_from_str(self.as_str())
    }

    /// A shared [`MowStr`] on the same cell.
    pub fn into_mut(&self) -> (mow: MowStr)
        ensures
            mow.spec_is_interned(),
            mow@ == self@,
            mow.cell() == self.cell(),
    {
        MowStr::from_istr(self.clone())
    }

    /// The text as a new shared cell that no pool holds.
    pub fn into_arc(self) -> (cell: Arc<str>)
        ensures
            cell@ == self@,
    {
        arc_from_str(self.as_str())
    }

    /// The UTF-8 encoding of the text, as an owned byte buffer.
    pub fn into_bytes(self) -> (bytes: Vec<u8>)
        ensures
            bytes@ == encode_utf8(self@),
    {
        slice_to_vec(self.as_str().as_bytes())
    }

    /// An owned copy of the text.
    pub fn to_string(&self) -> (s: String)
        ensures
            s@ == self@,
    {
        self.as_str().to_owned()
    }

    /// Whether the two strings are on one cell of a pool.
    pub fn ptr_eq(&self, other: &Self) -> (same: bool)
        ensures
            same ==> self.cell() == other.cell() && self@ == other@,
    {
        self.0.ptr_eq(&other.0)
    }

    /// Whether the two strings hold the same content, be they on one cell or on
    /// two.
    pub fn content_eq(&self, other: &Self) -> (same: bool)
        ensures
            same == (self@ == other@),
    {
        self.0.content_eq(&other.0)
    }
}

impl AsStr for IStr {
    open spec fn as_str_spec(&self) -> Seq<char> {
        self@
    }

    fn as_str_ref(&self) -> (s: &str) {
        self.as_str()
    }
}

impl Clone for IStr {
    /// Another handle on the same cell.
    fn clone(&self) -> (dup: Self)
        ensures
            dup.cell() == self.cell(),
            dup@ == self@,
    {
        IStr(self.0.clone())
    }
}

impl PartialEq for IStr {
    /// Whether the two strings are on one cell, as [`IStr::ptr_eq`] tells. Two
    /// strings that one pool gave out for equal content are; strings of equal
    /// content from two pools are not. [`IStr::content_eq`] compares content.
    fn eq(&self, other: &Self) -> (same: bool)
        ensures
            same ==> self.cell() == other.cell() && self@ == other@,
    {
        self.0.ptr_eq(&other.0)
    }
}

impl vstd::std_specs::cmp::PartialEqSpecImpl for IStr {
    /// Whether two strings are on one cell is no function of their values, so
    /// `==` is held to no meaning over them.
    open spec fn obeys_eq_spec() -> bool {
        false
    }

    open spec fn eq_spec(&self, other: &Self) -> bool {
        self.cell() == other.cell()
    }
}

impl Eq for IStr {}

impl PartialEq<str> for IStr {
    fn eq(&self, other: &str) -> (same: bool) {
        str_eq(self.as_str(), other)
    }
}

impl vstd::std_specs::cmp::PartialEqSpecImpl<str> for IStr {
    open spec fn obeys_eq_spec() -> bool {
        true
    }

    open spec fn eq_spec(&self, other: &str) -> bool {
        self@ == other@
    }
}

impl PartialEq<&str> for IStr {
    fn eq(&self, other: &&str) -> (same: bool) {
        str_eq(self.as_str(), *other)
    }
}

impl vstd::std_specs::cmp::PartialEqSpecImpl<&str> for IStr {
    open spec fn obeys_eq_spec() -> bool {
        true
    }

    open spec fn eq_spec(&self, other: &&str) -> bool {
        self@ == other@
    }
}

impl PartialEq<String> for IStr {
    fn eq(&self, other: &String) -> (same: bool) {
        str_eq(self.as_str(), other.as_str())
    }
}

impl vstd::std_specs::cmp::PartialEqSpecImpl<String> for IStr {
    open spec fn obeys_eq_spec() -> bool {
        true
    }

    open spec fn eq_spec(&self, other: &String) -> bool {
        self@ == other@
    }
}

impl PartialOrd for IStr {
    /// The order of the texts' UTF-8 encodings.
    fn partial_cmp(&self, other: &Self) -> (order: Option<Ordering>) {
        Some(str_order(self.as_str(), other.as_str()))
    }
}

impl vstd::std_specs::cmp::PartialOrdSpecImpl for IStr {
    open spec fn obeys_partial_cmp_spec() -> bool {
        true
    }

    open spec fn partial_cmp_spec(&self, other: &Self) -> Option<Ordering> {
        Some(lex_order(encode_utf8(self@), encode_utf8(other@)))
    }
}

impl Deref for IStr {
    type Target = str;

    fn deref(&self) -> (s: &str)
        ensures
            s@ == self@,
    {
        self.as_str()
    }
}

impl AsRef<str> for IStr {
    fn as_ref(&self) -> (s: &str)
        ensures
            ({
                let text: &str = s;
                text@ == self@
            }),
    {
        self.as_str()
    }
}

impl AsRef<[u8]> for IStr {
    /// The UTF-8 encoding of the text.
    fn as_ref(&self) -> (bytes: &[u8])
        ensures
            ({
                let encoded: &[u8] = bytes;
                encoded@ == encode_utf8(self@)
            }),
    {
        self.as_str().as_bytes()
    }
}

impl Borrow<str> for IStr {
    /// The text, which the string is hashed and compared by.
    fn borrow(&self) -> (s: &str)
        ensures
            ({
                let text: &str = s;
                text@ == self@
            }),
    {
        self.as_str()
    }
}

} // verus!
