//! The string that is mutable on write: it lives in a pool until it is changed,
//! and in a private buffer from then on until it is interned again.

use crate::buffer::byte_len;
use crate::buffer::kept;
use crate::buffer::lemma_cut_joins;
use crate::buffer::on_boundary;
use crate::buffer::string_as_mut_str;
use crate::buffer::string_clear;
use crate::buffer::string_drain;
use crate::buffer::string_insert;
use crate::buffer::string_insert_str;
use crate::buffer::string_into_boxed_str;
use crate::buffer::string_pop;
use crate::buffer::string_push;
use crate::buffer::string_remove;
use crate::buffer::string_replace_range;
use crate::buffer::string_reserve;
use crate::buffer::string_reserve_exact;
use crate::buffer::string_retain;
use crate::buffer::string_shrink_to_fit;
use crate::buffer::string_split_off;
use crate::buffer::string_truncate;
use crate::buffer::string_with_capacity;
use crate::buffer::text_between;
use crate::istr::IStr;
use crate::order::lex_order;
use crate::order::str_order;
use crate::pool::Pool;
use crate::text::arc_from_str;
use crate::text::arc_from_string;
use crate::text::AsStr;
use crate::text::str_hash;
use crate::text::str_eq;
use std::borrow::Borrow;
use std::cmp::Ordering;
use std::hash::Hash;
use std::hash::Hasher;
use std::ops::AddAssign;
use std::ops::Deref;
use std::ops::DerefMut;
use std::rc::Rc;
use std::sync::Arc;
use vstd::prelude::*;
use vstd::slice::slice_to_vec;
use vstd::std_specs::cmp::PartialEqSpec;
use vstd::string::StringExecFns;
use vstd::string::StringSliceAdditionalSpecFns;
use vstd::utf8::encode_utf8;

verus! {

/// The two states of a [`MowStr`].
#[derive(Debug)]
enum MowStrInner {
    /// Shared: the text is a cell of a pool.
    I(IStr),
    /// Exclusive: the text is a private buffer.
    M(String),
}

impl MowStrInner {
    /// The text that the state holds.
    pub closed spec fn text(&self) -> Seq<char> {
        match self {
            MowStrInner::I(shared) => shared@,
            MowStrInner::M(buffer) => buffer@,
        }
    }
}

impl PartialEq for MowStrInner {
    /// Equality of text, whatever the two states.
    fn eq(&self, other: &Self) -> (same: bool) {
        match self {
            MowStrInner::I(s) => match other {
                MowStrInner::I(o) => s.content_eq(o),
                MowStrInner::M(o) => str_eq(o.as_str(), s.as_str()),
            },
            MowStrInner::M(s) => match other {
                MowStrInner::I(o) => str_eq(s.as_str(), o.as_str()),
                MowStrInner::M(o) => *s == *o,
            },
        }
    }
}

impl vstd::std_specs::cmp::PartialEqSpecImpl for MowStrInner {
    open spec fn obeys_eq_spec() -> bool {
        true
    }

    open spec fn eq_spec(&self, other: &Self) -> bool {
        self.text() == other.text()
    }
}

/// A string that is either shared, as a cell of a pool, or exclusive, as a
/// private buffer. Reading never changes the state; every operation that
/// changes the text first makes the string exclusive.
#[derive(Debug)]
pub struct MowStr(MowStrInner);

impl View for MowStr {
    type V = Seq<char>;

    /// The text of the string, whatever its state.
    closed spec fn view(&self) -> Seq<char> {
        self.0.text()
    }
}

impl MowStr {
    /// The shared string on the cell `shared`.
    pub closed spec fn shared(shared: IStr) -> MowStr {
        MowStr(MowStrInner::I(shared))
    }

    /// The exclusive string with the buffer `buffer`.
    pub closed spec fn exclusive(buffer: String) -> MowStr {
        MowStr(MowStrInner::M(buffer))
    }

    /// Whether the string is shared.
    pub closed spec fn spec_is_interned(&self) -> bool {
        self.0 is I
    }

    /// Whether the string is exclusive: it is when it is not shared.
    pub open spec fn spec_is_mutable(&self) -> bool {
        !self.spec_is_interned()
    }

    /// The cell of a shared string.
    pub closed spec fn spec_istr(&self) -> IStr
        recommends
            self.spec_is_interned(),
    {
        self.0->I_0
    }

    /// The cell that a shared string is on.
    pub closed spec fn cell(&self) -> Arc<str>
        recommends
            self.spec_is_interned(),
    {
        self.spec_istr().cell()
    }

    /// Whether the string is shared, on the cell that `pool` stores for its
    /// content.
    pub open spec fn is_cell_of(&self, pool: &Pool<str>) -> bool {
        self.spec_is_interned() && pool@.contains(self@) && self.cell() == pool.cell_of(self@)
    }

    /// The buffer of an exclusive string.
    pub closed spec fn spec_string(&self) -> String
        recommends
            self.spec_is_mutable(),
    {
        self.0->M_0
    }

    /// Equality goes by the text alone: a shared and an exclusive string are
    /// equal exactly when the cell and the buffer hold the same text.
    pub proof fn lemma_eq_ignores_state(shared: IStr, buffer: String)
        ensures
            MowStr::shared(shared).eq_spec(&MowStr::exclusive(buffer)) <==> shared@ == buffer@,
            MowStr::exclusive(buffer).eq_spec(&MowStr::shared(shared)) <==> shared@ == buffer@,
    {
    }

    /// An exclusive string shows the text of its buffer, unchanged, and gives
    /// the buffer back as it was.
    pub proof fn lemma_exclusive_round_trip(buffer: String)
        ensures
            MowStr::exclusive(buffer).spec_is_mutable(),
            MowStr::exclusive(buffer)@ == buffer@,
            MowStr::exclusive(buffer).spec_string() == buffer,
    {
    }

    /// A shared string shows the text of its cell and gives the cell back as it
    /// was.
    pub proof fn lemma_shared_round_trip(shared: IStr)
        ensures
            MowStr::shared(shared).spec_is_interned(),
            MowStr::shared(shared)@ == shared@,
            MowStr::shared(shared).spec_istr() == shared,
            MowStr::shared(shared).cell() == shared.cell(),
    {
    }

    /// A shared string with the text that `s` lends.
    pub fn new<S: AsStr>(pool: &mut Pool<str>, s: S) -> (mow: Self)
        ensures
            mow.spec_is_interned(),
            mow@ == s.as_str_spec(),
            final(pool)@ == old(pool)@.insert(mow@),
            mow.is_cell_of(final(pool)),
            final(pool).keeps_cells_of(old(pool)),
    {
        MowStr(MowStrInner::I(IStr::new(pool, s)))
    }

    /// An exclusive string with a copy of the text that `s` lends. No pool is
    /// touched.
    pub fn new_mut<S: AsStr>(s: S) -> (mow: Self)
        ensures
            mow.spec_is_mutable(),
            mow@ == s.as_str_spec(),
    {
        MowStr(MowStrInner::M(s.as_str_ref().to_owned()))
    }

    /// An exclusive, empty string.
    pub fn mut_empty() -> (mow: Self)
        ensures
            mow.spec_is_mutable(),
            mow@ == Seq::<char>::empty(),
    {
        MowStr(MowStrInner::M(String::new()))
    }

    /// A shared string with the text of `s`.
    pub fn from_string(pool: &mut Pool<str>, s: String) -> (mow: Self)
        ensures
            mow.spec_is_interned(),
            mow@ == s@,
            final(pool)@ == old(pool)@.insert(mow@),
            mow.is_cell_of(final(pool)),
            final(pool).keeps_cells_of(old(pool)),
    {
        MowStr(MowStrInner::I(IStr::from_string(pool, s)))
    }

    /// An exclusive string with `s` as its buffer. No pool is touched.
    pub fn from_string_mut(s: String) -> (mow: Self)
        ensures
            mow == MowStr::exclusive(s),
            mow.spec_is_mutable(),
            mow@ == s@,
    {
        MowStr(MowStrInner::M(s))
    }

    /// A shared string with the text of `s`.
    pub fn from_boxed(pool: &mut Pool<str>, s: Box<str>) -> (mow: Self)
        ensures
            mow.spec_is_interned(),
            mow@ == s@,
            final(pool)@ == old(pool)@.insert(mow@),
            mow.is_cell_of(final(pool)),
            final(pool).keeps_cells_of(old(pool)),
    {
        MowStr(MowStrInner::I(IStr::from_boxed(pool, s)))
    }

    /// A shared string with the text of `s`.
    pub fn from_arc(pool: &mut Pool<str>, s: Arc<str>) -> (mow: Self)
        ensures
            mow.spec_is_interned(),
            mow@ == s@,
            final(pool)@ == old(pool)@.insert(mow@),
            mow.is_cell_of(final(pool)),
            final(pool).keeps_cells_of(old(pool)),
    {
        MowStr(MowStrInner::I(IStr::from_arc(pool, s)))
    }

    /// A shared string with the text of `s`.
    pub fn from_rc(pool: &mut Pool<str>, s: Rc<str>) -> (mow: Self)
        ensures
            mow.spec_is_interned(),
            mow@ == s@,
            final(pool)@ == old(pool)@.insert(mow@),
            mow.is_cell_of(final(pool)),
            final(pool).keeps_cells_of(old(pool)),
    {
        MowStr(MowStrInner::I(IStr::from_rc(pool, s)))
    }

    /// The shared string on the cell of `s`.
    pub fn from_istr(s: IStr) -> (mow: Self)
        ensures
            mow == MowStr::shared(s),
            mow.spec_is_interned(),
            mow@ == s@,
            mow.cell() == s.cell(),
    {
        MowStr(MowStrInner::I(s))
    }

    /// A shared string with the text that `s` lends, with `to_arc` to make the
    /// cell where the pool holds none of that text. See [`Pool::intern`].
    pub fn from_to_arc<S: AsStr, F: FnOnce(S) -> Arc<str>>(
        pool: &mut Pool<str>,
        s: S,
        to_arc: F,
    ) -> (mow: Self)
        requires
            !old(pool)@.contains(s.as_str_spec()) ==> call_requires(to_arc, (s,)),
        ensures
            mow.spec_is_interned(),
            final(pool)@ == old(pool)@.insert(mow@),
            mow.is_cell_of(final(pool)),
            final(pool).keeps_cells_of(old(pool)),
            old(pool)@.contains(s.as_str_spec()) ==> mow@ == s.as_str_spec() && *final(pool)
                == *old(pool),
            !old(pool)@.contains(s.as_str_spec()) ==> exists|made: Arc<str>| #[trigger]
                call_ensures(to_arc, (s,), made) && mow@ == made@,
    {
        MowStr(MowStrInner::I(IStr::from_to_arc(pool, s, to_arc)))
    }

    /// Makes the string shared: a shared string stays as it is and the pool is
    /// not touched; an exclusive string hands its buffer to the pool and becomes
    /// a handle on the pool's cell of that text.
    pub fn intern(&mut self, pool: &mut Pool<str>)
        ensures
            final(self).spec_is_interned(),
            final(self)@ == old(self)@,
            old(self).spec_is_interned() ==> *final(self) == *old(self) && *final(pool) == *old(
                pool,
            ),
            old(self).spec_is_mutable() ==> final(pool)@ == old(pool)@.insert(old(self)@)
                && final(self).is_cell_of(final(pool)),
            final(pool).keeps_cells_of(old(pool)),
    {
        let s = match &mut self.0 {
            MowStrInner::I(_) => {
                return ;
            },
            MowStrInner::M(buffer) => {
                let mut taken = String::new();
                core::mem::swap(buffer, &mut taken);
                taken
            },
        };
        *self = Self::from_string(pool, s);
    }

    /// Makes the string exclusive: an exclusive string stays as it is; a shared
    /// string becomes a private copy of the cell's text.
    pub fn to_mut(&mut self)
        ensures
            final(self).spec_is_mutable(),
            final(self)@ == old(self)@,
            old(self).spec_is_mutable() ==> *final(self) == *old(self),
    {
        let s = match &mut self.0 {
            MowStrInner::I(shared) => shared.to_string(),
            MowStrInner::M(_) => {
                return ;
            },
        };
        *self = Self::from_string_mut(s);
    }

    /// Makes the string exclusive and lends its buffer for change.
    pub fn mutdown(&mut self) -> (buffer: &mut String)
        ensures
            buffer@ == old(self)@,
            final(self).spec_is_mutable(),
            final(self)@ == final(buffer)@,
            *final(self) == MowStr::exclusive(*final(buffer)),
    {
        self.to_mut();
        match &mut self.0 {
            MowStrInner::I(_) => vstd::pervasive::unreached(),
            MowStrInner::M(buffer) => buffer,
        }
    }

    /// Makes a shared string exclusive with the buffer that `f` makes from its
    /// cell; an exclusive string stays as it is and `f` is not called.
    pub fn to_mut_by<F: FnOnce(&IStr) -> String>(&mut self, f: F)
        requires
            old(self).spec_is_interned() ==> call_requires(f, (&old(self).spec_istr(),)),
        ensures
            final(self).spec_is_mutable(),
            old(self).spec_is_mutable() ==> *final(self) == *old(self),
            old(self).spec_is_interned() ==> call_ensures(
                f,
                (&old(self).spec_istr(),),
                final(self).spec_string(),
            ),
    {
        let s = match &mut self.0 {
            MowStrInner::I(shared) => f(shared),
            MowStrInner::M(_) => {
                return ;
            },
        };
        *self = Self::from_string_mut(s);
    }

    /// Makes the string exclusive with `s` as its buffer, and returns the buffer
    /// it had if it was exclusive, `None` if it was shared.
    pub fn swap_mut(&mut self, s: String) -> (was: Option<String>)
        ensures
            *final(self) == MowStr::exclusive(s),
            final(self).spec_is_mutable(),
            final(self)@ == s@,
            old(self).spec_is_interned() ==> was is None,
            old(self).spec_is_mutable() ==> was == Some(old(self).spec_string())
                && old(self).spec_string()@ == old(self)@,
    {
        let r = match &mut self.0 {
            MowStrInner::I(_) => None,
            MowStrInner::M(buffer) => {
                let mut taken = String::new();
                core::mem::swap(buffer, &mut taken);
                Some(taken)
            },
        };
        *self = Self::from_string_mut(s);
        r
    }

    /// Gives an exclusive string `s` as its buffer and returns the buffer it had;
    /// leaves a shared string as it is and returns `None`.
    pub fn try_swap_mut(&mut self, s: String) -> (was: Option<String>)
        ensures
            old(self).spec_is_interned() ==> was is None && *final(self) == *old(self),
            old(self).spec_is_mutable() ==> was == Some(old(self).spec_string())
                && old(self).spec_string()@ == old(self)@ && *final(self) == MowStr::exclusive(s)
                && final(self).spec_is_mutable() && final(self)@ == s@,
    {
        let r = match &mut self.0 {
            MowStrInner::I(_) => None,
            MowStrInner::M(buffer) => {
                let mut taken = String::new();
                core::mem::swap(buffer, &mut taken);
                Some(taken)
            },
        };
        if r.is_some() {
            *self = Self::from_string_mut(s);
        }
        r
    }

    /// Whether the string is shared.
    #[verifier::when_used_as_spec(spec_is_interned)]
    pub fn is_interned(&self) -> (shared: bool)
        ensures
            shared == self.spec_is_interned(),
    {
        matches!(&self.0, MowStrInner::I(_))
    }

    /// Whether the string is exclusive.
    #[verifier::when_used_as_spec(spec_is_mutable)]
    pub fn is_mutable(&self) -> (exclusive: bool)
        ensures
            exclusive == self.spec_is_mutable(),
    {
        matches!(&self.0, MowStrInner::M(_))
    }

    /// The cell of a shared string, `None` for an exclusive one.
    pub fn try_istr(&self) -> (cell: Option<&IStr>)
        ensures
            self.spec_is_interned() ==> cell == Some(&self.spec_istr()) && self.spec_istr()@
                == self@ && self.spec_istr().cell() == self.cell(),
            self.spec_is_mutable() ==> cell is None,
    {
        match &self.0 {
            MowStrInner::I(shared) => Some(shared),
            MowStrInner::M(_) => None,
        }
    }

    /// The buffer of an exclusive string, `None` for a shared one.
    pub fn try_string(&self) -> (buffer: Option<&String>)
        ensures
            self.spec_is_mutable() ==> buffer == Some(&self.spec_string())
                && self.spec_string()@ == self@,
            self.spec_is_interned() ==> buffer is None,
    {
        match &self.0 {
            MowStrInner::I(_) => None,
            MowStrInner::M(buffer) => Some(buffer),
        }
    }

    /// The text as a string slice, whatever the state.
    pub fn as_str(&self) -> (s: &str)
        ensures
            s@ == self@,
    {
        match &self.0 {
            MowStrInner::I(shared) => shared.as_str(),
            MowStrInner::M(buffer) => buffer.as_str(),
        }
    }

    /// The text as a string slice, whatever the state.
    pub fn ref_str(&self) -> (s: &str)
        ensures
            s@ == self@,
    {
        self.as_str()
    }

    /// An exclusive, empty string with room for `capacity` bytes.
    pub fn mut_with_capacity(capacity: usize) -> (mow: Self)
        requires
            capacity <= isize::MAX,
        ensures
            mow.spec_is_mutable(),
            mow@ == Seq::<char>::empty(),
    {
        MowStr(MowStrInner::M(string_with_capacity(capacity)))
    }

    /// Makes the string exclusive and lends its text for change in place.
    pub fn mut_str(&mut self) -> (text: &mut str)
        ensures
            text@ == old(self)@,
            final(self).spec_is_mutable(),
            final(self)@ == final(text)@,
    {
        string_as_mut_str(self.mutdown())
    }

    /// Makes the string exclusive and lends its buffer for change.
    pub fn mut_string(&mut self) -> (buffer: &mut String)
        ensures
            buffer@ == old(self)@,
            final(self).spec_is_mutable(),
            final(self)@ == final(buffer)@,
            *final(self) == MowStr::exclusive(*final(buffer)),
    {
        self.mutdown()
    }

    /// Makes the string exclusive and lends its text for change in place.
    pub fn as_mut_str(&mut self) -> (text: &mut str)
        ensures
            text@ == old(self)@,
            final(self).spec_is_mutable(),
            final(self)@ == final(text)@,
    {
        self.mut_str()
    }

    /// Makes the string exclusive and lends its buffer for change.
    pub fn as_mut_string(&mut self) -> (buffer: &mut String)
        ensures
            buffer@ == old(self)@,
            final(self).spec_is_mutable(),
            final(self)@ == final(buffer)@,
            *final(self) == MowStr::exclusive(*final(buffer)),
    {
        self.mut_string()
    }

    /// The text as an owned buffer: the buffer itself of an exclusive string, a
    /// copy of the cell's text of a shared one.
    pub fn into_string(self) -> (s: String)
        ensures
            s@ == self@,
            self.spec_is_mutable() ==> s == self.spec_string(),
    {
        match self.0 {
            MowStrInner::I(shared) => shared.to_string(),
            MowStrInner::M(buffer) => buffer,
        }
    }

    /// The text, boxed.
    pub fn into_boxed_str(self) -> (boxed: Box<str>)
        ensures
            boxed@ == self@,
    {
        match self.0 {
            MowStrInner::I(shared) => shared.into_boxed_str(),
            MowStrInner::M(buffer) => string_into_boxed_str(buffer),
        }
    }

    /// The text as a new shared cell that no pool holds.
    pub fn into_arc(self) -> (cell: Arc<str>)
        ensures
            cell@ == self@,
    {
        match self.0 {
            MowStrInner::I(shared) => arc_from_str(shared.as_str()),
            MowStrInner::M(buffer) => arc_from_string(buffer),
        }
    }

    /// The UTF-8 encoding of the text, as an owned byte buffer.
    pub fn into_bytes(self) -> (bytes: Vec<u8>)
        ensures
            bytes@ == encode_utf8(self@),
    {
        match &self.0 {
            MowStrInner::I(shared) => slice_to_vec(shared.as_str().as_bytes()),
            MowStrInner::M(buffer) => slice_to_vec(buffer.as_str().as_bytes()),
        }
    }

    /// An owned copy of the text.
    pub fn to_string(&self) -> (s: String)
        ensures
            s@ == self@,
    {
        match &self.0 {
            MowStrInner::I(shared) => shared.to_string(),
            MowStrInner::M(buffer) => buffer.clone(),
        }
    }

    /// A shared string with the same text: another handle on the cell of a
    /// shared string, the pool's cell for a copy of the buffer of an exclusive
    /// one.
    pub fn clone_interned(&self, pool: &mut Pool<str>) -> (dup: Self)
        ensures
            dup.spec_is_interned(),
            dup@ == self@,
            self.spec_is_interned() ==> dup.cell() == self.cell()
                && *final(pool) == *old(pool),
            self.spec_is_mutable() ==> final(pool)@ == old(pool)@.insert(self@)
                && dup.is_cell_of(final(pool)),
            final(pool).keeps_cells_of(old(pool)),
    {
        match &self.0 {
            MowStrInner::I(shared) => Self::from_istr(shared.clone()),
            MowStrInner::M(buffer) => Self::from_string(pool, buffer.clone()),
        }
    }

    /// The string as an immutable interned string: the cell itself of a shared
    /// string, the pool's cell for the buffer of an exclusive one.
    pub fn into_istr(self, pool: &mut Pool<str>) -> (istr: IStr)
        ensures
            istr@ == self@,
            self.spec_is_interned() ==> istr == self.spec_istr() && *final(pool) == *old(pool),
            self.spec_is_mutable() ==> final(pool)@ == old(pool)@.insert(self@) && istr.is_cell_of(
                final(pool),
            ),
            final(pool).keeps_cells_of(old(pool)),
    {
        match self.0 {
            MowStrInner::I(shared) => shared,
            MowStrInner::M(buffer) => IStr::from_string(pool, buffer),
        }
    }

    /// Appends the text `string`.
    pub fn push_str(&mut self, string: &str)
        ensures
            final(self).spec_is_mutable(),
            final(self)@ == old(self)@ + string@,
    {
        self.mutdown().append(string)
    }

    /// Makes room for `additional` more bytes. The text stays as it is.
    pub fn reserve(&mut self, additional: usize)
        requires
            byte_len(old(self)@) + additional <= isize::MAX,
        ensures
            final(self).spec_is_mutable(),
            final(self)@ == old(self)@,
    {
        string_reserve(self.mutdown(), additional)
    }

    /// Makes room for exactly `additional` more bytes. The text stays as it is.
    pub fn reserve_exact(&mut self, additional: usize)
        requires
            byte_len(old(self)@) + additional <= isize::MAX,
        ensures
            final(self).spec_is_mutable(),
            final(self)@ == old(self)@,
    {
        string_reserve_exact(self.mutdown(), additional)
    }

    /// Gives back the spare room of the buffer. The text stays as it is.
    pub fn shrink_to_fit(&mut self)
        ensures
            final(self).spec_is_mutable(),
            final(self)@ == old(self)@,
    {
        string_shrink_to_fit(self.mutdown())
    }

    /// Appends the character `ch`.
    pub fn push(&mut self, ch: char)
        ensures
            final(self).spec_is_mutable(),
            final(self)@ == old(self)@.push(ch),
    {
        string_push(self.mutdown(), ch)
    }

    /// Cuts the text to its first `new_len` bytes; a text that has no more than
    /// that stays as it is.
    pub fn truncate(&mut self, new_len: usize)
        requires
            new_len < byte_len(old(self)@) ==> on_boundary(old(self)@, new_len as int),
        ensures
            final(self).spec_is_mutable(),
            final(self)@ == if new_len < byte_len(old(self)@) {
                text_between(old(self)@, 0, new_len as int)
            } else {
                old(self)@
            },
    {
        string_truncate(self.mutdown(), new_len)
    }

    /// Removes the last character and returns it, or returns `None` for an empty
    /// text.
    pub fn pop(&mut self) -> (last: Option<char>)
        ensures
            final(self).spec_is_mutable(),
            old(self)@.len() == 0 ==> last is None && final(self)@ == old(self)@,
            old(self)@.len() > 0 ==> last == Some(old(self)@.last()) && final(self)@ == old(
                self,
            )@.drop_last(),
    {
        string_pop(self.mutdown())
    }

    /// Removes the character that starts at byte `idx` and returns it.
    pub fn remove(&mut self, idx: usize) -> (ch: char)
        requires
            idx < byte_len(old(self)@),
            on_boundary(old(self)@, idx as int),
        ensures
            final(self).spec_is_mutable(),
            ch == text_between(old(self)@, idx as int, byte_len(old(self)@) as int).first(),
            final(self)@ == text_between(old(self)@, 0, idx as int) + text_between(
                old(self)@,
                idx as int,
                byte_len(old(self)@) as int,
            ).drop_first(),
    {
        string_remove(self.mutdown(), idx)
    }

    /// Keeps the characters for which `f` says yes, in their order. `f` is asked
    /// once about each character.
    pub fn retain<F: Fn(char) -> bool>(&mut self, f: F)
        requires
            forall|ch: char| call_requires(f, (ch,)),
        ensures
            final(self).spec_is_mutable(),
            exists|keep: Seq<bool>|
                keep.len() == old(self)@.len() && (forall|i: int|
                    0 <= i < keep.len() ==> call_ensures(
                        f,
                        (old(self)@[i],),
                        #[trigger] keep[i],
                    )) && final(self)@ == kept(old(self)@, keep),
    {
        string_retain(self.mutdown(), f)
    }

    /// Puts the character `ch` in at byte `idx`.
    pub fn insert(&mut self, idx: usize, ch: char)
        requires
            on_boundary(old(self)@, idx as int),
        ensures
            final(self).spec_is_mutable(),
            final(self)@ == text_between(old(self)@, 0, idx as int).push(ch) + text_between(
                old(self)@,
                idx as int,
                byte_len(old(self)@) as int,
            ),
    {
        string_insert(self.mutdown(), idx, ch)
    }

    /// Puts the text `string` in at byte `idx`.
    pub fn insert_str(&mut self, idx: usize, string: &str)
        requires
            on_boundary(old(self)@, idx as int),
        ensures
            final(self).spec_is_mutable(),
            final(self)@ == text_between(old(self)@, 0, idx as int) + string@ + text_between(
                old(self)@,
                idx as int,
                byte_len(old(self)@) as int,
            ),
    {
        string_insert_str(self.mutdown(), idx, string)
    }

    /// Cuts the text at byte `at`: the string keeps the part before the cut, and
    /// the part after it is returned as a new exclusive string.
    pub fn split_off(&mut self, at: usize) -> (tail: MowStr)
        requires
            on_boundary(old(self)@, at as int),
        ensures
            final(self).spec_is_mutable(),
            final(self)@ == text_between(old(self)@, 0, at as int),
            tail.spec_is_mutable(),
            tail@ == text_between(old(self)@, at as int, byte_len(old(self)@) as int),
            final(self)@ + tail@ == old(self)@,
    {
        proof {
            lemma_cut_joins(old(self)@, at as int);
        }
        Self::from_string_mut(string_split_off(self.mutdown(), at))
    }

    /// Empties the text.
    pub fn clear(&mut self)
        ensures
            final(self).spec_is_mutable(),
            final(self)@ == Seq::<char>::empty(),
    {
        string_clear(self.mutdown())
    }

    /// Removes the bytes from `start` up to `end` and returns the characters
    /// they held.
    pub fn drain(&mut self, start: usize, end: usize) -> (removed: String)
        requires
            start <= end,
            on_boundary(old(self)@, start as int),
            on_boundary(old(self)@, end as int),
        ensures
            final(self).spec_is_mutable(),
            removed@ == text_between(old(self)@, start as int, end as int),
            final(self)@ == text_between(old(self)@, 0, start as int) + text_between(
                old(self)@,
                end as int,
                byte_len(old(self)@) as int,
            ),
    {
        string_drain(self.mutdown(), start, end)
    }

    /// Puts the text `replace_with` in place of the bytes from `start` up to
    /// `end`.
    pub fn replace_range(&mut self, start: usize, end: usize, replace_with: &str)
        requires
            start <= end,
            on_boundary(old(self)@, start as int),
            on_boundary(old(self)@, end as int),
        ensures
            final(self).spec_is_mutable(),
            final(self)@ == text_between(old(self)@, 0, start as int) + replace_with@
                + text_between(old(self)@, end as int, byte_len(old(self)@) as int),
    {
        string_replace_range(self.mutdown(), start, end, replace_with)
    }
}

impl AsStr for MowStr {
    open spec fn as_str_spec(&self) -> Seq<char> {
        self@
    }

    fn as_str_ref(&self) -> (s: &str) {
        self.as_str()
    }
}

impl Hash for MowStr {
    /// Feeds the text to the hasher, whatever the state: two strings of equal
    /// content feed it the same.
    fn hash<H: Hasher>(&self, state: &mut H) {
        str_hash(self.as_str(), state)
    }
}

impl Eq for MowStr {}

impl PartialEq<str> for MowStr {
    fn eq(&self, other: &str) -> (same: bool) {
        str_eq(self.as_str(), other)
    }
}

impl vstd::std_specs::cmp::PartialEqSpecImpl<str> for MowStr {
    open spec fn obeys_eq_spec() -> bool {
        true
    }

    open spec fn eq_spec(&self, other: &str) -> bool {
        self@ == other@
    }
}

impl PartialEq<&str> for MowStr {
    fn eq(&self, other: &&str) -> (same: bool) {
        str_eq(self.as_str(), *other)
    }
}

impl vstd::std_specs::cmp::PartialEqSpecImpl<&str> for MowStr {
    open spec fn obeys_eq_spec() -> bool {
        true
    }

    open spec fn eq_spec(&self, other: &&str) -> bool {
        self@ == other@
    }
}

impl PartialEq<String> for MowStr {
    fn eq(&self, other: &String) -> (same: bool) {
        str_eq(self.as_str(), other.as_str())
    }
}

impl vstd::std_specs::cmp::PartialEqSpecImpl<String> for MowStr {
    open spec fn obeys_eq_spec() -> bool {
        true
    }

    open spec fn eq_spec(&self, other: &String) -> bool {
        self@ == other@
    }
}

impl PartialEq for MowStr {
    /// Equality of text, whatever the two states.
    fn eq(&self, other: &Self) -> (same: bool) {
        self.0 == other.0
    }
}

impl vstd::std_specs::cmp::PartialEqSpecImpl for MowStr {
    open spec fn obeys_eq_spec() -> bool {
        true
    }

    open spec fn eq_spec(&self, other: &Self) -> bool {
        self@ == other@
    }
}

impl PartialOrd for MowStr {
    /// The order of the texts' UTF-8 encodings, whatever the two states.
    fn partial_cmp(&self, other: &Self) -> (order: Option<Ordering>) {
        Some(str_order(self.as_str(), other.as_str()))
    }
}

impl vstd::std_specs::cmp::PartialOrdSpecImpl for MowStr {
    open spec fn obeys_partial_cmp_spec() -> bool {
        true
    }

    open spec fn partial_cmp_spec(&self, other: &Self) -> Option<Ordering> {
        Some(lex_order(encode_utf8(self@), encode_utf8(other@)))
    }
}

impl Deref for MowStr {
    type Target = str;

    fn deref(&self) -> (s: &str)
        ensures
            s@ == self@,
    {
        self.as_str()
    }
}

impl AsRef<str> for MowStr {
    fn as_ref(&self) -> (s: &str)
        ensures
            ({
                let text: &str = s;
                text@ == self@
            }),
    {
        self.as_str()
    }
}

impl AsRef<[u8]> for MowStr {
    /// The UTF-8 encoding of the text.
    fn as_ref(&self) -> (bytes: &[u8])
        ensures
            ({
                let encoded: &[u8] = bytes;
                encoded@ == encode_utf8(self@)
            }),
    {
        self.as_str().as_bytes()
    }
}

impl Borrow<str> for MowStr {
    /// The text, which the string is hashed and compared by.
    fn borrow(&self) -> (s: &str)
        ensures
            ({
                let text: &str = s;
                text@ == self@
            }),
    {
        self.as_str()
    }
}

impl DerefMut for MowStr {
    /// Makes the string exclusive and lends its text for change in place.
    fn deref_mut(&mut self) -> (text: &mut str)
        ensures
            text@ == old(self)@,
            final(self).spec_is_mutable(),
            final(self)@ == final(text)@,
    {
        self.mut_str()
    }
}

impl AddAssign<&str> for MowStr {
    /// Appends the text `rhs`.
    fn add_assign(&mut self, rhs: &str)
        ensures
            final(self).spec_is_mutable(),
            final(self)@ == old(self)@ + rhs@,
    {
        self.push_str(rhs);
    }
}

} // verus!
