//! Conversions into interned strings and into strings that are mutable on write.

use crate::i_os_str::IOsStr;
use crate::istr::IStr;
use crate::mow_os_str::MowOsStr;
use crate::mow_str::MowStr;
use crate::pool::Pool;
use crate::text::string_from_char;
use std::rc::Rc;
use std::sync::Arc;
use vstd::prelude::*;

verus! {

/// Marks the string types whose values can live in a pool.
pub trait Interned {

}

/// Marks the string types whose values can live in a private, mutable buffer.
pub trait Muterned {

}

/// Conversion into an interned string.
pub trait Interning {
    /// The interned string type.
    type Outern: Interned;

    /// The pool type that holds its cells.
    type Pool;

    /// Interns the value in `pool`.
    fn interned(self, pool: &mut Self::Pool) -> Self::Outern;
}

/// Conversion into a string that is mutable on write. No pool is touched.
///
/// Text, an interned string and a [`MowStr`] become an exclusive string. Of the
/// OS strings, the plain ones become an exclusive string too, while an
/// [`IOsStr`] becomes a shared [`MowOsStr`] on its cell and a [`MowOsStr`] stays
/// as it is.
pub trait Muterning {
    /// The mutable-on-write string type.
    type Outern: Muterned;

    /// Makes the value a string that is mutable on write.
    fn muterned(self) -> Self::Outern;
}

impl Interned for IStr {

}

impl Interned for MowStr {

}

impl Muterned for MowStr {

}

impl Interned for IOsStr {

}

impl Interned for MowOsStr {

}

impl Muterned for MowOsStr {

}

impl Interning for char {
    type Outern = IStr;

    type Pool = Pool<str>;

    fn interned(self, pool: &mut Pool<str>) -> (out: IStr)
        ensures
            out@ == seq![self],
            final(pool)@ == old(pool)@.insert(out@),
            out.is_cell_of(final(pool)),
            final(pool).keeps_cells_of(old(pool)),
    {
        IStr::from_string(pool, string_from_char(self))
    }
}

impl Interning for &str {
    type Outern = IStr;

    type Pool = Pool<str>;

    fn interned(self, pool: &mut Pool<str>) -> (out: IStr)
        ensures
            out@ == self@,
            final(pool)@ == old(pool)@.insert(out@),
            out.is_cell_of(final(pool)),
            final(pool).keeps_cells_of(old(pool)),
    {
        IStr::new(pool, self)
    }
}

impl Interning for Box<str> {
    type Outern = IStr;

    type Pool = Pool<str>;

    fn interned(self, pool: &mut Pool<str>) -> (out: IStr)
        ensures
            out@ == self@,
            final(pool)@ == old(pool)@.insert(out@),
            out.is_cell_of(final(pool)),
            final(pool).keeps_cells_of(old(pool)),
    {
        IStr::from_boxed(pool, self)
    }
}

impl Interning for Arc<str> {
    type Outern = IStr;

    type Pool = Pool<str>;

    fn interned(self, pool: &mut Pool<str>) -> (out: IStr)
        ensures
            out@ == self@,
            final(pool)@ == old(pool)@.insert(out@),
            out.is_cell_of(final(pool)),
            final(pool).keeps_cells_of(old(pool)),
    {
        IStr::from_arc(pool, self)
    }
}

impl Interning for Rc<str> {
    type Outern = IStr;

    type Pool = Pool<str>;

    fn interned(self, pool: &mut Pool<str>) -> (out: IStr)
        ensures
            out@ == self@,
            final(pool)@ == old(pool)@.insert(out@),
            out.is_cell_of(final(pool)),
            final(pool).keeps_cells_of(old(pool)),
    {
        IStr::from_rc(pool, self)
    }
}

impl Interning for String {
    type Outern = IStr;

    type Pool = Pool<str>;

    fn interned(self, pool: &mut Pool<str>) -> (out: IStr)
        ensures
            out@ == self@,
            final(pool)@ == old(pool)@.insert(out@),
            out.is_cell_of(final(pool)),
            final(pool).keeps_cells_of(old(pool)),
    {
        IStr::from_string(pool, self)
    }
}

impl Interning for IStr {
    type Outern = IStr;

    type Pool = Pool<str>;

    fn interned(self, pool: &mut Pool<str>) -> (out: IStr)
        ensures
            out == self,
            *final(pool) == *old(pool),
    {
        self
    }
}

impl Interning for MowStr {
    type Outern = MowStr;

    type Pool = Pool<str>;

    fn interned(self, pool: &mut Pool<str>) -> (out: MowStr)
        ensures
            out.spec_is_interned(),
            out@ == self@,
            self.spec_is_interned() ==> out == self && *final(pool) == *old(pool),
            self.spec_is_mutable() ==> final(pool)@ == old(pool)@.insert(self@)
                && out.is_cell_of(final(pool)),
            final(pool).keeps_cells_of(old(pool)),
    {
        let mut out = self;
        out.intern(pool);
        out
    }
}

impl Interning for &[u8] {
    type Outern = IOsStr;

    type Pool = Pool<[u8]>;

    fn interned(self, pool: &mut Pool<[u8]>) -> (out: IOsStr)
        ensures
            out@ == self@,
            final(pool)@ == old(pool)@.insert(out@),
            out.is_cell_of(final(pool)),
            final(pool).keeps_cells_of(old(pool)),
    {
        IOsStr::new(pool, self)
    }
}

impl Interning for Vec<u8> {
    type Outern = IOsStr;

    type Pool = Pool<[u8]>;

    fn interned(self, pool: &mut Pool<[u8]>) -> (out: IOsStr)
        ensures
            out@ == self@,
            final(pool)@ == old(pool)@.insert(out@),
            out.is_cell_of(final(pool)),
            final(pool).keeps_cells_of(old(pool)),
    {
        IOsStr::from_os_string(pool, self)
    }
}

impl Interning for Box<[u8]> {
    type Outern = IOsStr;

    type Pool = Pool<[u8]>;

    fn interned(self, pool: &mut Pool<[u8]>) -> (out: IOsStr)
        ensures
            out@ == self@,
            final(pool)@ == old(pool)@.insert(out@),
            out.is_cell_of(final(pool)),
            final(pool).keeps_cells_of(old(pool)),
    {
        IOsStr::from_boxed(pool, self)
    }
}

impl Interning for Arc<[u8]> {
    type Outern = IOsStr;

    type Pool = Pool<[u8]>;

    fn interned(self, pool: &mut Pool<[u8]>) -> (out: IOsStr)
        ensures
            out@ == self@,
            final(pool)@ == old(pool)@.insert(out@),
            out.is_cell_of(final(pool)),
            final(pool).keeps_cells_of(old(pool)),
    {
        IOsStr::from_arc(pool, self)
    }
}

impl Interning for Rc<[u8]> {
    type Outern = IOsStr;

    type Pool = Pool<[u8]>;

    fn interned(self, pool: &mut Pool<[u8]>) -> (out: IOsStr)
        ensures
            out@ == self@,
            final(pool)@ == old(pool)@.insert(out@),
            out.is_cell_of(final(pool)),
            final(pool).keeps_cells_of(old(pool)),
    {
        IOsStr::from_rc(pool, self)
    }
}

impl Interning for IOsStr {
    type Outern = IOsStr;

    type Pool = Pool<[u8]>;

    fn interned(self, pool: &mut Pool<[u8]>) -> (out: IOsStr)
        ensures
            out == self,
            *final(pool) == *old(pool),
    {
        self
    }
}

impl Interning for MowOsStr {
    type Outern = MowOsStr;

    type Pool = Pool<[u8]>;

    fn interned(self, pool: &mut Pool<[u8]>) -> (out: MowOsStr)
        ensures
            out.spec_is_interned(),
            out@ == self@,
            self.spec_is_interned() ==> out == self && *final(pool) == *old(pool),
            self.spec_is_mutable() ==> final(pool)@ == old(pool)@.insert(self@)
                && out.is_cell_of(final(pool)),
            final(pool).keeps_cells_of(old(pool)),
    {
        let mut out = self;
        out.intern(pool);
        out
    }
}

impl Muterning for char {
    type Outern = MowStr;

    fn muterned(self) -> (out: MowStr)
        ensures
            out.spec_is_mutable(),
            out@ == seq![self],
    {
        MowStr::from_string_mut(string_from_char(self))
    }
}

impl Muterning for &str {
    type Outern = MowStr;

    fn muterned(self) -> (out: MowStr)
        ensures
            out.spec_is_mutable(),
            out@ == self@,
    {
        MowStr::new_mut(self)
    }
}

impl Muterning for Box<str> {
    type Outern = MowStr;

    fn muterned(self) -> (out: MowStr)
        ensures
            out.spec_is_mutable(),
            out@ == self@,
    {
        MowStr::new_mut(self)
    }
}

impl Muterning for Arc<str> {
    type Outern = MowStr;

    fn muterned(self) -> (out: MowStr)
        ensures
            out.spec_is_mutable(),
            out@ == self@,
    {
        MowStr::new_mut(self)
    }
}

impl Muterning for Rc<str> {
    type Outern = MowStr;

    fn muterned(self) -> (out: MowStr)
        ensures
            out.spec_is_mutable(),
            out@ == self@,
    {
        MowStr::new_mut(self)
    }
}

impl Muterning for String {
    type Outern = MowStr;

    fn muterned(self) -> (out: MowStr)
        ensures
            out == MowStr::exclusive(self),
            out.spec_is_mutable(),
            out@ == self@,
    {
        MowStr::from_string_mut(self)
    }
}

impl Muterning for IStr {
    type Outern = MowStr;

    fn muterned(self) -> (out: MowStr)
        ensures
            out.spec_is_mutable(),
            out@ == self@,
    {
        MowStr::from_string_mut(self.to_string())
    }
}

impl Muterning for MowStr {
    type Outern = MowStr;

    fn muterned(self) -> (out: MowStr)
        ensures
            out.spec_is_mutable(),
            out@ == self@,
            self.spec_is_mutable() ==> out == self,
    {
        let mut out = self;
        out.to_mut();
        out
    }
}

impl Muterning for &[u8] {
    type Outern = MowOsStr;

    fn muterned(self) -> (out: MowOsStr)
        ensures
            out.spec_is_mutable(),
            out@ == self@,
    {
        MowOsStr::new_mut(self)
    }
}

impl Muterning for Vec<u8> {
    type Outern = MowOsStr;

    fn muterned(self) -> (out: MowOsStr)
        ensures
            out == MowOsStr::exclusive(self),
            out.spec_is_mutable(),
            out@ == self@,
    {
        MowOsStr::from_os_string_mut(self)
    }
}

impl Muterning for Box<[u8]> {
    type Outern = MowOsStr;

    fn muterned(self) -> (out: MowOsStr)
        ensures
            out.spec_is_mutable(),
            out@ == self@,
    {
        MowOsStr::new_mut(self)
    }
}

impl Muterning for Arc<[u8]> {
    type Outern = MowOsStr;

    fn muterned(self) -> (out: MowOsStr)
        ensures
            out.spec_is_mutable(),
            out@ == self@,
    {
        MowOsStr::new_mut(self)
    }
}

impl Muterning for Rc<[u8]> {
    type Outern = MowOsStr;

    fn muterned(self) -> (out: MowOsStr)
        ensures
            out.spec_is_mutable(),
            out@ == self@,
    {
        MowOsStr::new_mut(self)
    }
}

impl Muterning for IOsStr {
    type Outern = MowOsStr;

    fn muterned(self) -> (out: MowOsStr)
        ensures
            out.spec_is_interned(),
            out == MowOsStr::shared(self),
            out@ == self@,
    {
        MowOsStr::from_i_os_str(self)
    }
}

impl Muterning for MowOsStr {
    type Outern = MowOsStr;

    fn muterned(self) -> (out: MowOsStr)
        ensures
            out == self,
    {
        self
    }
}

} // verus!
