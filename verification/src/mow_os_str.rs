//! The OS string that is mutable on write: it lives in a pool until it is
//! changed, and in a private buffer from then on until it is interned again. It
//! is held as its platform-native bytes.

use crate::i_os_str::IOsStr;
use crate::order::bytes_order;
use crate::order::lex_order;
use crate::pool::Pool;
use crate::text::arc_from_vec;
use crate::text::AsOsStr;
use crate::text::bytes_hash;
use crate::text::box_from_bytes;
use crate::text::bytes_eq;
use crate::text::vec_into_boxed;
use crate::text::vec_reserve_exact;
use crate::text::vec_shrink_to_fit;
use std::borrow::Borrow;
use std::cmp::Ordering;
use std::hash::Hash;
use std::hash::Hasher;
use std::ops::AddAssign;
use std::ops::Deref;
use std::ops::DerefMut;
use std::rc::Rc;
use std::sync::Arc;
use vstd::prelude::*;
use vstd::slice::slice_to_vec;
use vstd::std_specs::cmp::PartialEqSpec;
use vstd::string::StringSliceAdditionalSpecFns;
use vstd::utf8::encode_utf8;

verus! {

/// The two states of a [`MowOsStr`].
#[derive(Debug)]
enum MowOsStrInner {
    /// Shared: the content is a cell of a pool.
    I(IOsStr),
    /// Exclusive: the content is a private buffer.
    M(Vec<u8>),
}

impl MowOsStrInner {
    /// The bytes that the state holds.
    pub closed spec fn bytes(&self) -> Seq<u8> {
        match self {
            MowOsStrInner::I(shared) => shared@,
            MowOsStrInner::M(buffer) => buffer@,
        }
    }
}

impl PartialEq for MowOsStrInner {
    /// Equality of content, whatever the two states.
    fn eq(&self, other: &Self) -> (same: bool) {
        match self {
            MowOsStrInner::I(s) => match other {
                MowOsStrInner::I(o) => s.content_eq(o),
                MowOsStrInner::M(o) => bytes_eq(o.as_slice(), s.as_os_str()),
            },
            MowOsStrInner::M(s) => match other {
                MowOsStrInner::I(o) => bytes_eq(s.as_slice(), o.as_os_str()),
                MowOsStrInner::M(o) => bytes_eq(s.as_slice(), o.as_slice()),
            },
        }
    }
}

impl vstd::std_specs::cmp::PartialEqSpecImpl for MowOsStrInner {
    open spec fn obeys_eq_spec() -> bool {
        true
    }

    open spec fn eq_spec(&self, other: &Self) -> bool {
        self.bytes() == other.bytes()
    }
}

/// An OS string that is either shared, as a cell of a pool, or exclusive, as a
/// private buffer. Reading never changes the state; every operation that
/// changes the content first makes the string exclusive.
#[derive(Debug)]
pub struct MowOsStr(MowOsStrInner);

impl View for MowOsStr {
    type V = Seq<u8>;

    /// The bytes of the OS string, whatever its state.
    closed spec fn view(&self) -> Seq<u8> {
        self.0.bytes()
    }
}

impl MowOsStr {
    /// The shared string on the cell `shared`.
    pub closed spec fn shared(shared: IOsStr) -> MowOsStr {
        MowOsStr(MowOsStrInner::I(shared))
    }

    /// The exclusive string with the buffer `buffer`.
    pub closed spec fn exclusive(buffer: Vec<u8>) -> MowOsStr {
        MowOsStr(MowOsStrInner::M(buffer))
    }

    /// Whether the string is shared.
    pub closed spec fn spec_is_interned(&self) -> bool {
        self.0 is I
    }

    /// Whether the string is exclusive: it is when it is not shared.
    pub open spec fn spec_is_mutable(&self) -> bool {
        !self.spec_is_interned()
    }

    /// The cell of a shared string.
    pub closed spec fn spec_istr(&self) -> IOsStr
        recommends
            self.spec_is_interned(),
    {
        self.0->I_0
    }

    /// The cell that a shared string is on.
    pub closed spec fn cell(&self) -> Arc<[u8]>
        recommends
            self.spec_is_interned(),
    {
        self.spec_istr().cell()
    }

    /// Whether the string is shared, on the cell that `pool` stores for its
    /// content.
    pub open spec fn is_cell_of(&self, pool: &Pool<[u8]>) -> bool {
        self.spec_is_interned() && pool@.contains(self@) && self.cell() == pool.cell_of(self@)
    }

    /// The buffer of an exclusive string.
    pub closed spec fn spec_string(&self) -> Vec<u8>
        recommends
            self.spec_is_mutable(),
    {
        self.0->M_0
    }

    /// Equality goes by the content alone: a shared and an exclusive string are
    /// equal exactly when the cell and the buffer hold the same bytes.
    pub proof fn lemma_eq_ignores_state(shared: IOsStr, buffer: Vec<u8>)
        ensures
            MowOsStr::shared(shared).eq_spec(&MowOsStr::exclusive(buffer)) <==> shared@ == buffer@,
            MowOsStr::exclusive(buffer).eq_spec(&MowOsStr::shared(shared)) <==> shared@ == buffer@,
    {
    }

    /// An exclusive string shows the bytes of its buffer, unchanged, and gives
    /// the buffer back as it was.
    pub proof fn lemma_exclusive_round_trip(buffer: Vec<u8>)
        ensures
            MowOsStr::exclusive(buffer).spec_is_mutable(),
            MowOsStr::exclusive(buffer)@ == buffer@,
            MowOsStr::exclusive(buffer).spec_string() == buffer,
    {
    }

    /// A shared string shows the bytes of its cell and gives the cell back as it
    /// was.
    pub proof fn lemma_shared_round_trip(shared: IOsStr)
        ensures
            MowOsStr::shared(shared).spec_is_interned(),
            MowOsStr::shared(shared)@ == shared@,
            MowOsStr::shared(shared).spec_istr() == shared,
            MowOsStr::shared(shared).cell() == shared.cell(),
    {
    }

    /// A shared string with the bytes that `s` lends.
    pub fn new<S: AsOsStr>(pool: &mut Pool<[u8]>, s: S) -> (mow: Self)
        ensures
            mow.spec_is_interned(),
            mow@ == s.as_os_str_spec(),
            final(pool)@ == old(pool)@.insert(mow@),
            mow.is_cell_of(final(pool)),
            final(pool).keeps_cells_of(old(pool)),
    {
        MowOsStr(MowOsStrInner::I(IOsStr::new(pool, s)))
    }

    /// An exclusive string with a copy of the bytes that `s` lends. No pool is
    /// touched.
    pub fn new_mut<S: AsOsStr>(s: S) -> (mow: Self)
        ensures
            mow.spec_is_mutable(),
            mow@ == s.as_os_str_spec(),
    {
        MowOsStr(MowOsStrInner::M(slice_to_vec(s.as_os_str_ref())))
    }

    /// An exclusive, empty string.
    pub fn mut_empty() -> (mow: Self)
        ensures
            mow.spec_is_mutable(),
            mow@ == Seq::<u8>::empty(),
    {
        MowOsStr(MowOsStrInner::M(Vec::new()))
    }

    /// A shared string with the bytes of `s`.
    pub fn from_os_string(pool: &mut Pool<[u8]>, s: Vec<u8>) -> (mow: Self)
        ensures
            mow.spec_is_interned(),
            mow@ == s@,
            final(pool)@ == old(pool)@.insert(mow@),
            mow.is_cell_of(final(pool)),
            final(pool).keeps_cells_of(old(pool)),
    {
        MowOsStr(MowOsStrInner::I(IOsStr::from_os_string(pool, s)))
    }

    /// An exclusive string with `s` as its buffer. No pool is touched.
    pub fn from_os_string_mut(s: Vec<u8>) -> (mow: Self)
        ensures
            mow == MowOsStr::exclusive(s),
            mow.spec_is_mutable(),
            mow@ == s@,
    {
        MowOsStr(MowOsStrInner::M(s))
    }

    /// A shared string with the bytes of `s`.
    pub fn from_boxed(pool: &mut Pool<[u8]>, s: Box<[u8]>) -> (mow: Self)
        ensures
            mow.spec_is_interned(),
            mow@ == s@,
            final(pool)@ == old(pool)@.insert(mow@),
            mow.is_cell_of(final(pool)),
            final(pool).keeps_cells_of(old(pool)),
    {
        MowOsStr(MowOsStrInner::I(IOsStr::from_boxed(pool, s)))
    }

    /// A shared string with the bytes of `s`.
    pub fn from_arc(pool: &mut Pool<[u8]>, s: Arc<[u8]>) -> (mow: Self)
        ensures
            mow.spec_is_interned(),
            mow@ == s@,
            final(pool)@ == old(pool)@.insert(mow@),
            mow.is_cell_of(final(pool)),
            final(pool).keeps_cells_of(old(pool)),
    {
        MowOsStr(MowOsStrInner::I(IOsStr::from_arc(pool, s)))
    }

    /// A shared string with the bytes of `s`.
    pub fn from_rc(pool: &mut Pool<[u8]>, s: Rc<[u8]>) -> (mow: Self)
        ensures
            mow.spec_is_interned(),
            mow@ == s@,
            final(pool)@ == old(pool)@.insert(mow@),
            mow.is_cell_of(final(pool)),
            final(pool).keeps_cells_of(old(pool)),
    {
        MowOsStr(MowOsStrInner::I(IOsStr::from_rc(pool, s)))
    }

    /// The shared string on the cell of `s`.
    pub fn from_i_os_str(s: IOsStr) -> (mow: Self)
        ensures
            mow == MowOsStr::shared(s),
            mow.spec_is_interned(),
            mow@ == s@,
            mow.cell() == s.cell(),
    {
        MowOsStr(MowOsStrInner::I(s))
    }

    /// A shared string with the bytes that `s` lends, with `to_arc` to make the
    /// cell where the pool holds none of that content. See [`Pool::intern`].
    pub fn from_to_arc<S: AsOsStr, F: FnOnce(S) -> Arc<[u8]>>(
        pool: &mut Pool<[u8]>,
        s: S,
        to_arc: F,
    ) -> (mow: Self)
        requires
            !old(pool)@.contains(s.as_os_str_spec()) ==> call_requires(to_arc, (s,)),
        ensures
            mow.spec_is_interned(),
            final(pool)@ == old(pool)@.insert(mow@),
            mow.is_cell_of(final(pool)),
            final(pool).keeps_cells_of(old(pool)),
            old(pool)@.contains(s.as_os_str_spec()) ==> mow@ == s.as_os_str_spec() && *final(pool)
                == *old(pool),
            !old(pool)@.contains(s.as_os_str_spec()) ==> exists|made: Arc<[u8]>| #[trigger]
                call_ensures(to_arc, (s,), made) && mow@ == made@,
    {
        MowOsStr(MowOsStrInner::I(IOsStr::from_to_arc(pool, s, to_arc)))
    }

    /// Makes the string shared: a shared string stays as it is and the pool is
    /// not touched; an exclusive string hands its buffer to the pool and becomes
    /// a handle on the pool's cell of that content.
    pub fn intern(&mut self, pool: &mut Pool<[u8]>)
        ensures
            final(self).spec_is_interned(),
            final(self)@ == old(self)@,
            old(self).spec_is_interned() ==> *final(self) == *old(self) && *final(pool) == *old(
                pool,
            ),
            old(self).spec_is_mutable() ==> final(pool)@ == old(pool)@.insert(old(self)@)
                && final(self).is_cell_of(final(pool)),
            final(pool).keeps_cells_of(old(pool)),
    {
        let s = match &mut self.0 {
            MowOsStrInner::I(_) => {
                return ;
            },
            MowOsStrInner::M(buffer) => {
                let mut taken = Vec::new();
                core::mem::swap(buffer, &mut taken);
                taken
            },
        };
        *self = Self::from_os_string(pool, s);
    }

    /// Makes the string exclusive: an exclusive string stays as it is; a shared
    /// string becomes a private copy of the cell's bytes.
    pub fn to_mut(&mut self)
        ensures
            final(self).spec_is_mutable(),
            final(self)@ == old(self)@,
            old(self).spec_is_mutable() ==> *final(self) == *old(self),
    {
        let s = match &mut self.0 {
            MowOsStrInner::I(shared) => shared.to_os_string(),
            MowOsStrInner::M(_) => {
                return ;
            },
        };
        *self = Self::from_os_string_mut(s);
    }

    /// Makes the string exclusive and lends its buffer for change.
    pub fn mutdown(&mut self) -> (buffer: &mut Vec<u8>)
        ensures
            buffer@ == old(self)@,
            final(self).spec_is_mutable(),
            final(self)@ == final(buffer)@,
            *final(self) == MowOsStr::exclusive(*final(buffer)),
    {
        self.to_mut();
        match &mut self.0 {
            MowOsStrInner::I(_) => vstd::pervasive::unreached(),
            MowOsStrInner::M(buffer) => buffer,
        }
    }

    /// Makes a shared string exclusive with the buffer that `f` makes from its
    /// cell; an exclusive string stays as it is and `f` is not called.
    pub fn to_mut_by<F: FnOnce(&IOsStr) -> Vec<u8>>(&mut self, f: F)
        requires
            old(self).spec_is_interned() ==> call_requires(f, (&old(self).spec_istr(),)),
        ensures
            final(self).spec_is_mutable(),
            old(self).spec_is_mutable() ==> *final(self) == *old(self),
            old(self).spec_is_interned() ==> call_ensures(
                f,
                (&old(self).spec_istr(),),
                final(self).spec_string(),
            ),
    {
        let s = match &mut self.0 {
            MowOsStrInner::I(shared) => f(shared),
            MowOsStrInner::M(_) => {
                return ;
            },
        };
        *self = Self::from_os_string_mut(s);
    }

    /// Makes the string exclusive with `s` as its buffer, and returns the buffer
    /// it had if it was exclusive, `None` if it was shared.
    pub fn swap_mut(&mut self, s: Vec<u8>) -> (was: Option<Vec<u8>>)
        ensures
            *final(self) == MowOsStr::exclusive(s),
            final(self).spec_is_mutable(),
            final(self)@ == s@,
            old(self).spec_is_interned() ==> was is None,
            old(self).spec_is_mutable() ==> was == Some(old(self).spec_string())
                && old(self).spec_string()@ == old(self)@,
    {
        let r = match &mut self.0 {
            MowOsStrInner::I(_) => None,
            MowOsStrInner::M(buffer) => {
                let mut taken = Vec::new();
                core::mem::swap(buffer, &mut taken);
                Some(taken)
            },
        };
        *self = Self::from_os_string_mut(s);
        r
    }

    /// Gives an exclusive string `s` as its buffer and returns the buffer it had;
    /// leaves a shared string as it is and returns `None`.
    pub fn try_swap_mut(&mut self, s: Vec<u8>) -> (was: Option<Vec<u8>>)
        ensures
            old(self).spec_is_interned() ==> was is None && *final(self) == *old(self),
            old(self).spec_is_mutable() ==> was == Some(old(self).spec_string())
                && old(self).spec_string()@ == old(self)@ && *final(self) == MowOsStr::exclusive(s)
                && final(self).spec_is_mutable() && final(self)@ == s@,
    {
        let r = match &mut self.0 {
            MowOsStrInner::I(_) => None,
            MowOsStrInner::M(buffer) => {
                let mut taken = Vec::new();
                core::mem::swap(buffer, &mut taken);
                Some(taken)
            },
        };
        if r.is_some() {
            *self = Self::from_os_string_mut(s);
        }
        r
    }

    /// Whether the string is shared.
    #[verifier::when_used_as_spec(spec_is_interned)]
    pub fn is_interned(&self) -> (shared: bool)
        ensures
            shared == self.spec_is_interned(),
    {
        matches!(&self.0, MowOsStrInner::I(_))
    }

    /// Whether the string is exclusive.
    #[verifier::when_used_as_spec(spec_is_mutable)]
    pub fn is_mutable(&self) -> (exclusive: bool)
        ensures
            exclusive == self.spec_is_mutable(),
    {
        matches!(&self.0, MowOsStrInner::M(_))
    }

    /// The cell of a shared string, `None` for an exclusive one.
    pub fn try_istr(&self) -> (cell: Option<&IOsStr>)
        ensures
            self.spec_is_interned() ==> cell == Some(&self.spec_istr()) && self.spec_istr()@
                == self@ && self.spec_istr().cell() == self.cell(),
            self.spec_is_mutable() ==> cell is None,
    {
        match &self.0 {
            MowOsStrInner::I(shared) => Some(shared),
            MowOsStrInner::M(_) => None,
        }
    }

    /// The buffer of an exclusive string, `None` for a shared one.
    pub fn try_string(&self) -> (buffer: Option<&Vec<u8>>)
        ensures
            self.spec_is_mutable() ==> buffer == Some(&self.spec_string())
                && self.spec_string()@ == self@,
            self.spec_is_interned() ==> buffer is None,
    {
        match &self.0 {
            MowOsStrInner::I(_) => None,
            MowOsStrInner::M(buffer) => Some(buffer),
        }
    }

    /// The bytes of the OS string, whatever the state.
    pub fn as_os_str(&self) -> (s: &[u8])
        ensures
            s@ == self@,
    {
        match &self.0 {
            MowOsStrInner::I(shared) => shared.as_os_str(),
            MowOsStrInner::M(buffer) => buffer.as_slice(),
        }
    }

    /// The bytes of the OS string, whatever the state.
    pub fn ref_os_str(&self) -> (s: &[u8])
        ensures
            s@ == self@,
    {
        self.as_os_str()
    }

    /// An exclusive, empty string with room for `capacity` bytes.
    pub fn mut_with_capacity(capacity: usize) -> (mow: Self)
        requires
            capacity <= isize::MAX,
        ensures
            mow.spec_is_mutable(),
            mow@ == Seq::<u8>::empty(),
    {
        MowOsStr(MowOsStrInner::M(Vec::with_capacity(capacity)))
    }

    /// Makes the string exclusive and lends its bytes for change in place.
    pub fn mut_os_str(&mut self) -> (bytes: &mut [u8])
        ensures
            bytes@ == old(self)@,
            final(self).spec_is_mutable(),
            final(self)@ == final(bytes)@,
    {
        self.mutdown().as_mut_slice()
    }

    /// Makes the string exclusive and lends its buffer for change.
    pub fn mut_os_string(&mut self) -> (buffer: &mut Vec<u8>)
        ensures
            buffer@ == old(self)@,
            final(self).spec_is_mutable(),
            final(self)@ == final(buffer)@,
            *final(self) == MowOsStr::exclusive(*final(buffer)),
    {
        self.mutdown()
    }

    /// Makes the string exclusive and lends its bytes for change in place.
    pub fn as_mut_os_str(&mut self) -> (bytes: &mut [u8])
        ensures
            bytes@ == old(self)@,
            final(self).spec_is_mutable(),
            final(self)@ == final(bytes)@,
    {
        self.mut_os_str()
    }

    /// Makes the string exclusive and lends its buffer for change.
    pub fn as_mut_os_string(&mut self) -> (buffer: &mut Vec<u8>)
        ensures
            buffer@ == old(self)@,
            final(self).spec_is_mutable(),
            final(self)@ == final(buffer)@,
            *final(self) == MowOsStr::exclusive(*final(buffer)),
    {
        self.mut_os_string()
    }

    /// The bytes as an owned buffer: the buffer itself of an exclusive string, a
    /// copy of the cell's bytes of a shared one.
    pub fn into_os_string(self) -> (s: Vec<u8>)
        ensures
            s@ == self@,
            self.spec_is_mutable() ==> s == self.spec_string(),
    {
        match self.0 {
            MowOsStrInner::I(shared) => shared.to_os_string(),
            MowOsStrInner::M(buffer) => buffer,
        }
    }

    /// The bytes, boxed.
    pub fn into_boxed_os_str(self) -> (boxed: Box<[u8]>)
        ensures
            boxed@ == self@,
    {
        match self.0 {
            MowOsStrInner::I(shared) => shared.into_boxed_os_str(),
            MowOsStrInner::M(buffer) => vec_into_boxed(buffer),
        }
    }

    /// The bytes as a shared cell: the pool's cell itself of a shared string, a
    /// new cell that no pool holds of an exclusive one.
    pub fn into_arc(self) -> (cell: Arc<[u8]>)
        ensures
            cell@ == self@,
    {
        match self.0 {
            MowOsStrInner::I(shared) => shared.into_arc(),
            MowOsStrInner::M(buffer) => arc_from_vec(buffer),
        }
    }

    /// An owned copy of the bytes.
    pub fn to_os_string(&self) -> (s: Vec<u8>)
        ensures
            s@ == self@,
    {
        match &self.0 {
            MowOsStrInner::I(shared) => shared.to_os_string(),
            MowOsStrInner::M(buffer) => buffer.clone(),
        }
    }

    /// A shared string with the same bytes: another handle on the cell of a
    /// shared string, the pool's cell for a copy of the buffer of an exclusive
    /// one.
    pub fn clone_interned(&self, pool: &mut Pool<[u8]>) -> (dup: Self)
        ensures
            dup.spec_is_interned(),
            dup@ == self@,
            self.spec_is_interned() ==> dup.cell() == self.cell()
                && *final(pool) == *old(pool),
            self.spec_is_mutable() ==> final(pool)@ == old(pool)@.insert(self@)
                && dup.is_cell_of(final(pool)),
            final(pool).keeps_cells_of(old(pool)),
    {
        match &self.0 {
            MowOsStrInner::I(shared) => Self::from_i_os_str(shared.clone()),
            MowOsStrInner::M(buffer) => Self::from_os_string(pool, buffer.clone()),
        }
    }

    /// The string as an immutable interned string: the cell itself of a shared
    /// string, the pool's cell for the buffer of an exclusive one.
    pub fn into_i_os_str(self, pool: &mut Pool<[u8]>) -> (istr: IOsStr)
        ensures
            istr@ == self@,
            self.spec_is_interned() ==> istr == self.spec_istr() && *final(pool) == *old(pool),
            self.spec_is_mutable() ==> final(pool)@ == old(pool)@.insert(self@) && istr.is_cell_of(
                final(pool),
            ),
            final(pool).keeps_cells_of(old(pool)),
    {
        match self.0 {
            MowOsStrInner::I(shared) => shared,
            MowOsStrInner::M(buffer) => IOsStr::from_os_string(pool, buffer),
        }
    }

    /// Appends the bytes that `s` lends.
    pub fn push<S: AsOsStr>(&mut self, s: S)
        ensures
            final(self).spec_is_mutable(),
            final(self)@ == old(self)@ + s.as_os_str_spec(),
    {
        let buffer = self.mutdown();
        let ghost before = buffer@;
        buffer.extend_from_slice(s.as_os_str_ref());
        assert(buffer@ =~= before + s.as_os_str_spec());
    }

    /// Empties the OS string.
    pub fn clear(&mut self)
        ensures
            final(self).spec_is_mutable(),
            final(self)@ == Seq::<u8>::empty(),
    {
        self.mutdown().clear()
    }

    /// Makes room for `additional` more bytes. The bytes stay as they are.
    pub fn reserve(&mut self, additional: usize)
        requires
            old(self)@.len() + additional <= isize::MAX,
        ensures
            final(self).spec_is_mutable(),
            final(self)@ == old(self)@,
    {
        self.mutdown().reserve(additional)
    }

    /// Makes room for exactly `additional` more bytes. The bytes stay as they
    /// are.
    pub fn reserve_exact(&mut self, additional: usize)
        requires
            old(self)@.len() + additional <= isize::MAX,
        ensures
            final(self).spec_is_mutable(),
            final(self)@ == old(self)@,
    {
        vec_reserve_exact(self.mutdown(), additional)
    }

    /// Gives back the spare room of the buffer. The bytes stay as they are.
    pub fn shrink_to_fit(&mut self)
        ensures
            final(self).spec_is_mutable(),
            final(self)@ == old(self)@,
    {
        vec_shrink_to_fit(self.mutdown())
    }
}

impl AsOsStr for MowOsStr {
    open spec fn as_os_str_spec(&self) -> Seq<u8> {
        self@
    }

    fn as_os_str_ref(&self) -> (s: &[u8]) {
        self.as_os_str()
    }
}

impl Hash for MowOsStr {
    /// Feeds the bytes to the hasher, whatever the state: two strings of equal
    /// content feed it the same.
    fn hash<H: Hasher>(&self, state: &mut H) {
        bytes_hash(self.as_os_str(), state)
    }
}

impl Eq for MowOsStr {}

impl PartialEq<str> for MowOsStr {
    /// Equality with the UTF-8 encoding of the text.
    fn eq(&self, other: &str) -> (same: bool) {
        bytes_eq(self.as_os_str(), other.as_bytes())
    }
}

impl vstd::std_specs::cmp::PartialEqSpecImpl<str> for MowOsStr {
    open spec fn obeys_eq_spec() -> bool {
        true
    }

    open spec fn eq_spec(&self, other: &str) -> bool {
        self@ == encode_utf8(other@)
    }
}

impl PartialEq<&str> for MowOsStr {
    /// Equality with the UTF-8 encoding of the text.
    fn eq(&self, other: &&str) -> (same: bool) {
        bytes_eq(self.as_os_str(), other.as_bytes())
    }
}

impl vstd::std_specs::cmp::PartialEqSpecImpl<&str> for MowOsStr {
    open spec fn obeys_eq_spec() -> bool {
        true
    }

    open spec fn eq_spec(&self, other: &&str) -> bool {
        self@ == encode_utf8(other@)
    }
}

impl PartialEq<String> for MowOsStr {
    /// Equality with the UTF-8 encoding of the text.
    fn eq(&self, other: &String) -> (same: bool) {
        bytes_eq(self.as_os_str(), other.as_str().as_bytes())
    }
}

impl vstd::std_specs::cmp::PartialEqSpecImpl<String> for MowOsStr {
    open spec fn obeys_eq_spec() -> bool {
        true
    }

    open spec fn eq_spec(&self, other: &String) -> bool {
        self@ == encode_utf8(other@)
    }
}

impl PartialEq for MowOsStr {
    /// Equality of content, whatever the two states.
    fn eq(&self, other: &Self) -> (same: bool) {
        self.0 == other.0
    }
}

impl vstd::std_specs::cmp::PartialEqSpecImpl for MowOsStr {
    open spec fn obeys_eq_spec() -> bool {
        true
    }

    open spec fn eq_spec(&self, other: &Self) -> bool {
        self@ == other@
    }
}

impl PartialOrd for MowOsStr {
    /// The lexicographic order of the bytes, whatever the two states.
    fn partial_cmp(&self, other: &Self) -> (order: Option<Ordering>) {
        Some(bytes_order(self.as_os_str(), other.as_os_str()))
    }
}

impl vstd::std_specs::cmp::PartialOrdSpecImpl for MowOsStr {
    open spec fn obeys_partial_cmp_spec() -> bool {
        true
    }

    open spec fn partial_cmp_spec(&self, other: &Self) -> Option<Ordering> {
        Some(lex_order(self@, other@))
    }
}

impl Deref for MowOsStr {
    type Target = [u8];

    fn deref(&self) -> (s: &[u8])
        ensures
            s@ == self@,
    {
        self.as_os_str()
    }
}

impl AsRef<[u8]> for MowOsStr {
    fn as_ref(&self) -> (s: &[u8])
        ensures
            ({
                let bytes: &[u8] = s;
                bytes@ == self@
            }),
    {
        self.as_os_str()
    }
}

impl Borrow<[u8]> for MowOsStr {
    /// The bytes, which the string is hashed and compared by.
    fn borrow(&self) -> (s: &[u8])
        ensures
            ({
                let bytes: &[u8] = s;
                bytes@ == self@
            }),
    {
        self.as_os_str()
    }
}

impl DerefMut for MowOsStr {
    /// Makes the string exclusive and lends its bytes for change in place.
    fn deref_mut(&mut self) -> (bytes: &mut [u8])
        ensures
            bytes@ == old(self)@,
            final(self).spec_is_mutable(),
            final(self)@ == final(bytes)@,
    {
        self.mut_os_str()
    }
}

impl<S: AsOsStr> AddAssign<S> for MowOsStr {
    /// Appends the bytes that `rhs` lends.
    fn add_assign(&mut self, rhs: S)
        ensures
            final(self).spec_is_mutable(),
            final(self)@ == old(self)@ + rhs.as_os_str_spec(),
    {
        self.push(rhs);
    }
}

} // verus!
