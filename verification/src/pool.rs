//! The intern pool: one canonical shared cell for each distinct content.
//!
//! A [`Pool`] is an explicit object. Every operation that can change what it
//! holds takes it by `&mut`, so that what the pool holds is a function of the
//! pool's value and each contract can relate the pool before a call to the pool
//! after it. A process that wants one pool for all its threads puts the pool
//! behind a lock of its own.
//!
//! A pool is spoken of by two things: the set of contents it holds a cell for,
//! its view, and for each such content the cell it stores, [`Pool::cell_of`].
//! A handle is spoken of by its content, its view, and by the cell it is on,
//! [`Intern::cell`].

use crate::order::bytes_order;
use crate::order::lex_order;
use crate::order::str_order;
use crate::prc::arc_clone;
use crate::prc::arc_ptr_eq;
use crate::prc::arc_strong_count;
use crate::text::AsOsStr;
use crate::text::AsStr;
use crate::text::bytes_eq;
use crate::text::str_eq;
use dashmap::DashSet;
use std::cmp::Ordering;
use std::sync::Arc;
use vstd::prelude::*;
use vstd::utf8::encode_utf8;

verus! {

#[verifier::external_type_specification]
#[verifier::external_body]
#[verifier::reject_recursive_types(K)]
#[verifier::reject_recursive_types(S)]
pub struct ExDashSet<K, S>(DashSet<K, S>);

/// The contents that a set of string cells holds. The set is keyed by content,
/// so each content it holds stands for exactly one stored cell.
pub uninterp spec fn str_cells(set: DashSet<Arc<str>>) -> Set<Seq<char>>;

/// The cell that a set of string cells stores for a content it holds.
pub uninterp spec fn str_cell_of(set: DashSet<Arc<str>>, content: Seq<char>) -> Arc<str>;

/// `DashSet::new`: the new set holds nothing.
#[verifier::external_body]
fn cells_new() -> (set: DashSet<Arc<str>>)
    ensures
        str_cells(set) == Set::<Seq<char>>::empty(),
{
    DashSet::new()
}

/// `DashSet::get`, then `Ref::key` and `Arc::clone` on the entry found: a new
/// handle on the stored cell whose content equals `key`, if the set holds one.
#[verifier::external_body]
fn cells_get(set: &DashSet<Arc<str>>, key: &str) -> (found: Option<Arc<str>>)
    ensures
        found is Some <==> str_cells(*set).contains(key@),
        found matches Some(cell) ==> cell@ == key@ && cell == str_cell_of(*set, key@),
{
    set.get(key).map(|entry| entry.key().clone())
}

/// `DashSet::insert`: the cell is stored unless a cell of equal content is
/// already there, in which case the stored cell stays and the new one is
/// dropped. The result tells whether the cell was stored. The cells stored for
/// other contents stay as they are. The call returns: it does not unwind.
#[verifier::external_body]
fn cells_insert(set: &mut DashSet<Arc<str>>, cell: Arc<str>) -> (fresh: bool)
    ensures
        fresh == !str_cells(*old(set)).contains(cell@),
        str_cells(*final(set)) == str_cells(*old(set)).insert(cell@),
        fresh ==> str_cell_of(*final(set), cell@) == cell,
        forall|content: Seq<char>|
            content != cell@ || !fresh ==> #[trigger] str_cell_of(*final(set), content)
                == str_cell_of(*old(set), content),
    no_unwind
{
    set.insert(cell)
}

/// `DashSet::retain` with [`is_held`] as the predicate: cells may leave the set,
/// none enters it, and a cell that stays is the cell that was stored. Which
/// cells leave depends on how many handles exist outside the set at that
/// moment, which is no part of the set's value. The call returns: it does not
/// unwind.
#[verifier::external_body]
fn cells_retain_held(set: &mut DashSet<Arc<str>>)
    ensures
        str_cells(*final(set)).subset_of(str_cells(*old(set))),
        forall|content: Seq<char>|
            str_cells(*final(set)).contains(content) ==> #[trigger] str_cell_of(
                *final(set),
                content,
            ) == str_cell_of(*old(set), content),
    no_unwind
{
    set.retain(|cell| is_held(cell))
}

/// `DashSet::len`: the number of cells stored.
#[verifier::external_body]
fn cells_len(set: &DashSet<Arc<str>>) -> (n: usize)
    ensures
        str_cells(*set).finite() ==> n == str_cells(*set).len(),
{
    set.len()
}

/// The contents that a set of OS string cells holds, as bytes. The set is keyed by content,
/// so each content it holds stands for exactly one stored cell.
pub uninterp spec fn os_str_cells(set: DashSet<Arc<[u8]>>) -> Set<Seq<u8>>;

/// The cell that a set of OS string cells stores for a content it holds.
pub uninterp spec fn os_str_cell_of(set: DashSet<Arc<[u8]>>, content: Seq<u8>) -> Arc<[u8]>;

/// `DashSet::new`: the new set holds nothing.
#[verifier::external_body]
fn os_cells_new() -> (set: DashSet<Arc<[u8]>>)
    ensures
        os_str_cells(set) == Set::<Seq<u8>>::empty(),
{
    DashSet::new()
}

/// `DashSet::get`, then `Ref::key` and `Arc::clone` on the entry found: a new
/// handle on the stored cell whose content equals `key`, if the set holds one.
#[verifier::external_body]
fn os_cells_get(set: &DashSet<Arc<[u8]>>, key: &[u8]) -> (found: Option<Arc<[u8]>>)
    ensures
        found is Some <==> os_str_cells(*set).contains(key@),
        found matches Some(cell) ==> cell@ == key@ && cell == os_str_cell_of(*set, key@),
{
    set.get(key).map(|entry| entry.key().clone())
}

/// `DashSet::insert`: the cell is stored unless a cell of equal content is
/// already there, in which case the stored cell stays and the new one is
/// dropped. The result tells whether the cell was stored. The cells stored for
/// other contents stay as they are. The call returns: it does not unwind.
#[verifier::external_body]
fn os_cells_insert(set: &mut DashSet<Arc<[u8]>>, cell: Arc<[u8]>) -> (fresh: bool)
    ensures
        fresh == !os_str_cells(*old(set)).contains(cell@),
        os_str_cells(*final(set)) == os_str_cells(*old(set)).insert(cell@),
        fresh ==> os_str_cell_of(*final(set), cell@) == cell,
        forall|content: Seq<u8>|
            content != cell@ || !fresh ==> #[trigger] os_str_cell_of(*final(set), content)
                == os_str_cell_of(*old(set), content),
    no_unwind
{
    set.insert(cell)
}

/// `DashSet::retain` with [`is_held`] as the predicate: cells may leave the set,
/// none enters it, and a cell that stays is the cell that was stored. Which
/// cells leave depends on how many handles exist outside the set at that
/// moment, which is no part of the set's value. The call returns: it does not
/// unwind.
#[verifier::external_body]
fn os_cells_retain_held(set: &mut DashSet<Arc<[u8]>>)
    ensures
        os_str_cells(*final(set)).subset_of(os_str_cells(*old(set))),
        forall|content: Seq<u8>|
            os_str_cells(*final(set)).contains(content) ==> #[trigger] os_str_cell_of(
                *final(set),
                content,
            ) == os_str_cell_of(*old(set), content),
    no_unwind
{
    set.retain(|cell| is_held(cell))
}

/// `DashSet::len`: the number of cells stored.
#[verifier::external_body]
fn os_cells_len(set: &DashSet<Arc<[u8]>>) -> (n: usize)
    ensures
        os_str_cells(*set).finite() ==> n == os_str_cells(*set).len(),
{
    set.len()
}

/// The number of handles on a cell that exist outside the pool, given the
/// cell's strong count: the pool itself holds one handle on every cell it stores.
pub open spec fn holders_outside(strong_count: int) -> int {
    strong_count - 1
}

/// The rule of the sweep: a stored cell stays exactly when a handle on it
/// exists outside the pool. With none outside it leaves; with one or more it
/// stays.
pub fn keeps(strong_count: usize) -> (keep: bool)
    ensures
        keep == (holders_outside(strong_count as int) >= 1),
{
    strong_count > 1
}

/// Whether a handle on the stored cell exists outside the pool at this moment.
fn is_held<T: ?Sized>(cell: &Arc<T>) -> (held: bool) {
    keeps(arc_strong_count(cell))
}

/// The kinds of content that a pool holds cells of.
pub trait Content {
    /// Whether the set holds cells for finitely many contents.
    spec fn finitely_many(set: DashSet<Arc<Self>>) -> bool;
}

impl Content for str {
    open spec fn finitely_many(set: DashSet<Arc<str>>) -> bool {
        str_cells(set).finite()
    }
}

impl Content for [u8] {
    open spec fn finitely_many(set: DashSet<Arc<[u8]>>) -> bool {
        os_str_cells(set).finite()
    }
}

/// The intern pool: a set of shared cells, keyed by content, that holds one
/// handle on each cell it stores.
///
/// The view of a pool is the set of contents it holds a cell for. A pool holds
/// cells for finitely many contents.
#[verifier::reject_recursive_types(T)]
pub struct Pool<T: Content + ?Sized> {
    pool: DashSet<Arc<T>>,
}

impl<T: Content + ?Sized> Pool<T> {
    #[verifier::type_invariant]
    spec fn finitely_many(&self) -> bool {
        T::finitely_many(self.pool)
    }
}

/// A handle on a cell of a pool. Its view is the content of the cell.
///
/// `==` on two handles asks whether they are on one cell. Handles are ordered
/// and hashed by content.
#[derive(Debug, Hash)]
pub struct Intern<T: ?Sized>(Arc<T>);

impl View for Pool<str> {
    type V = Set<Seq<char>>;

    /// The contents the pool holds a cell for.
    closed spec fn view(&self) -> Set<Seq<char>> {
        str_cells(self.pool)
    }
}

impl Pool<str> {
    /// The cell that the pool stores for a content it holds.
    pub closed spec fn cell_of(&self, content: Seq<char>) -> Arc<str> {
        str_cell_of(self.pool, content)
    }

    /// Whether the pool holds every cell that `before` held: each content that
    /// `before` held a cell for is held still, on the same cell. This is how a
    /// pool stands to itself before anything was interned in it.
    pub open spec fn keeps_cells_of(&self, before: &Self) -> bool {
        forall|content: Seq<char>| #[trigger]
            before@.contains(content) ==> self@.contains(content) && self.cell_of(content)
                == before.cell_of(content)
    }

    /// Whether the pool holds no cell but cells that `before` held: each content
    /// that it holds a cell for was held by `before`, on the same cell. This is
    /// how a pool stands to itself before a sweep.
    pub open spec fn holds_only_cells_of(&self, before: &Self) -> bool {
        forall|content: Seq<char>| #[trigger]
            self@.contains(content) ==> before@.contains(content) && self.cell_of(content)
                == before.cell_of(content)
    }

    /// One content has one cell. A handle that interning returned is on the
    /// pool's cell for its content. As long as the pool keeps its cells, which
    /// interning does, every handle that interning returns for that content,
    /// at whatever place, is on that same cell.
    pub proof fn lemma_one_cell_per_content(
        first: Intern<str>,
        then: Self,
        second: Intern<str>,
        now: Self,
    )
        requires
            first.is_cell_of(&then),
            now.keeps_cells_of(&then),
            second.is_cell_of(&now),
            second@ == first@,
        ensures
            second.cell() == first.cell(),
            first.is_cell_of(&now),
    {
    }

    /// Keeping cells carries over: a pool that keeps the cells of one that keeps
    /// the cells of a third keeps the cells of the third.
    pub proof fn lemma_keeps_cells_over_time(first: Self, then: Self, now: Self)
        requires
            then.keeps_cells_of(&first),
            now.keeps_cells_of(&then),
        ensures
            now.keeps_cells_of(&first),
    {
        assert forall|content: Seq<char>| #[trigger] first@.contains(content) implies now@.contains(
            content,
        ) && now.cell_of(content) == first.cell_of(content) by {
            assert(then@.contains(content));
        }
    }

    /// A sweep leaves a held cell alone: a handle that was on the pool's cell for
    /// its content is on it still, if the pool holds that content still.
    pub proof fn lemma_sweep_keeps_the_cell(handle: Intern<str>, before: Self, after: Self)
        requires
            handle.is_cell_of(&before),
            after.holds_only_cells_of(&before),
            after@.contains(handle@),
        ensures
            handle.is_cell_of(&after),
    {
    }

    /// An empty pool.
    pub fn new() -> (pool: Self)
        ensures
            pool@ == Set::<Seq<char>>::empty(),
    {
        Pool { pool: cells_new() }
    }

    /// The number of cells the pool holds.
    pub fn len(&self) -> (n: usize)
        ensures
            self@.finite(),
            n == self@.len(),
    {
        proof {
            use_type_invariant(self);
        }
        cells_len(&self.pool)
    }

    /// Returns the canonical cell for the content of `a`.
    ///
    /// If the pool holds a cell of that content, the result is a handle on that
    /// cell and the pool is unchanged; `to_arc` is not called. Otherwise `to_arc`
    /// turns `a` into a cell, which is published in the pool, and the result is
    /// a handle on the cell that the pool now stores for that cell's content.
    /// Either way the pool keeps every cell it held.
    pub fn intern<A: AsStr, F: FnOnce(A) -> Arc<str>>(&mut self, a: A, to_arc: F) -> (handle:
        Intern<str>)
        requires
            !old(self)@.contains(a.as_str_spec()) ==> call_requires(to_arc, (a,)),
        ensures
            final(self)@ == old(self)@.insert(handle@),
            handle.is_cell_of(final(self)),
            final(self).keeps_cells_of(old(self)),
            old(self)@.contains(a.as_str_spec()) ==> handle@ == a.as_str_spec() && *final(self)
                == *old(self),
            !old(self)@.contains(a.as_str_spec()) ==> exists|made: Arc<str>| #[trigger]
                call_ensures(to_arc, (a,), made) && handle@ == made@,
    {
        match cells_get(&self.pool, a.as_str_ref()) {
            Some(cell) => {
                assert(self@.insert(cell@) =~= self@);
                Intern(cell)
            },
            None => {
                let arc = to_arc(a);
                Intern(self.insert_arc(arc))
            },
        }
    }

    /// Publishes `arc` and returns the cell that the pool then stores for its
    /// content: `arc` itself where the pool held none, the cell it held
    /// otherwise.
    fn insert_arc(&mut self, arc: Arc<str>) -> (cell: Arc<str>)
        ensures
            cell@ == arc@,
            final(self)@ == old(self)@.insert(arc@),
            cell == final(self).cell_of(arc@),
            final(self).keeps_cells_of(old(self)),
            !old(self)@.contains(arc@) ==> cell == arc,
            old(self)@.contains(arc@) ==> cell == old(self).cell_of(arc@),
    {
        proof {
            use_type_invariant(&*self);
        }
        if cells_insert(&mut self.pool, arc_clone(&arc)) {
            arc
        } else {
            self.when_failed(arc)
        }
    }

    /// The path taken when publishing `arc` found a cell of equal content already
    /// stored: adopts the stored cell and drops `arc`; publishes `arc` after all
    /// if the stored cell is gone by now.
    fn when_failed(&mut self, arc: Arc<str>) -> (cell: Arc<str>)
        ensures
            cell@ == arc@,
            final(self)@ == old(self)@.insert(arc@),
            cell == final(self).cell_of(arc@),
            final(self).keeps_cells_of(old(self)),
            !old(self)@.contains(arc@) ==> cell == arc,
            old(self)@.contains(arc@) ==> cell == old(self).cell_of(arc@) && *final(self)
                == *old(self),
    {
        proof {
            use_type_invariant(&*self);
        }
        match cells_get(&self.pool, &*arc) {
            Some(stored) => {
                assert(self@.insert(arc@) =~= self@);
                stored
            },
            None => {
                let fresh = cells_insert(&mut self.pool, arc_clone(&arc));
                assert(fresh);
                arc
            },
        }
    }

    /// Removes cells that nothing outside the pool holds.
    ///
    /// Each stored cell is kept or removed by [`keeps`], applied to its strong
    /// count at the moment it is visited. No cell enters the pool, and a cell
    /// that stays is the cell that was stored.
    pub fn collect_garbage(&mut self)
        ensures
            final(self)@.subset_of(old(self)@),
            final(self).holds_only_cells_of(old(self)),
    {
        proof {
            use_type_invariant(&*self);
        }
        let ghost before = self@;
        cells_retain_held(&mut self.pool);
        proof {
            vstd::set_lib::lemma_len_subset(str_cells(self.pool), before);
        }
    }
}

impl View for Pool<[u8]> {
    type V = Set<Seq<u8>>;

    /// The contents the pool holds a cell for.
    closed spec fn view(&self) -> Set<Seq<u8>> {
        os_str_cells(self.pool)
    }
}

impl Pool<[u8]> {
    /// The cell that the pool stores for a content it holds.
    pub closed spec fn cell_of(&self, content: Seq<u8>) -> Arc<[u8]> {
        os_str_cell_of(self.pool, content)
    }

    /// Whether the pool holds every cell that `before` held: each content that
    /// `before` held a cell for is held still, on the same cell. This is how a
    /// pool stands to itself before anything was interned in it.
    pub open spec fn keeps_cells_of(&self, before: &Self) -> bool {
        forall|content: Seq<u8>| #[trigger]
            before@.contains(content) ==> self@.contains(content) && self.cell_of(content)
                == before.cell_of(content)
    }

    /// Whether the pool holds no cell but cells that `before` held: each content
    /// that it holds a cell for was held by `before`, on the same cell. This is
    /// how a pool stands to itself before a sweep.
    pub open spec fn holds_only_cells_of(&self, before: &Self) -> bool {
        forall|content: Seq<u8>| #[trigger]
            self@.contains(content) ==> before@.contains(content) && self.cell_of(content)
                == before.cell_of(content)
    }

    /// One content has one cell. A handle that interning returned is on the
    /// pool's cell for its content. As long as the pool keeps its cells, which
    /// interning does, every handle that interning returns for that content,
    /// at whatever place, is on that same cell.
    pub proof fn lemma_one_cell_per_content(
        first: Intern<[u8]>,
        then: Self,
        second: Intern<[u8]>,
        now: Self,
    )
        requires
            first.is_cell_of(&then),
            now.keeps_cells_of(&then),
            second.is_cell_of(&now),
            second@ == first@,
        ensures
            second.cell() == first.cell(),
            first.is_cell_of(&now),
    {
    }

    /// Keeping cells carries over: a pool that keeps the cells of one that keeps
    /// the cells of a third keeps the cells of the third.
    pub proof fn lemma_keeps_cells_over_time(first: Self, then: Self, now: Self)
        requires
            then.keeps_cells_of(&first),
            now.keeps_cells_of(&then),
        ensures
            now.keeps_cells_of(&first),
    {
        assert forall|content: Seq<u8>| #[trigger] first@.contains(content) implies now@.contains(
            content,
        ) && now.cell_of(content) == first.cell_of(content) by {
            assert(then@.contains(content));
        }
    }

    /// A sweep leaves a held cell alone: a handle that was on the pool's cell for
    /// its content is on it still, if the pool holds that content still.
    pub proof fn lemma_sweep_keeps_the_cell(handle: Intern<[u8]>, before: Self, after: Self)
        requires
            handle.is_cell_of(&before),
            after.holds_only_cells_of(&before),
            after@.contains(handle@),
        ensures
            handle.is_cell_of(&after),
    {
    }

    /// An empty pool.
    pub fn new() -> (pool: Self)
        ensures
            pool@ == Set::<Seq<u8>>::empty(),
    {
        Pool { pool: os_cells_new() }
    }

    /// The number of cells the pool holds.
    pub fn len(&self) -> (n: usize)
        ensures
            self@.finite(),
            n == self@.len(),
    {
        proof {
            use_type_invariant(self);
        }
        os_cells_len(&self.pool)
    }

    /// Returns the canonical cell for the content of `a`.
    ///
    /// If the pool holds a cell of that content, the result is a handle on that
    /// cell and the pool is unchanged; `to_arc` is not called. Otherwise `to_arc`
    /// turns `a` into a cell, which is published in the pool, and the result is
    /// a handle on the cell that the pool now stores for that cell's content.
    /// Either way the pool keeps every cell it held.
    pub fn intern<A: AsOsStr, F: FnOnce(A) -> Arc<[u8]>>(&mut self, a: A, to_arc: F) -> (handle:
        Intern<[u8]>)
        requires
            !old(self)@.contains(a.as_os_str_spec()) ==> call_requires(to_arc, (a,)),
        ensures
            final(self)@ == old(self)@.insert(handle@),
            handle.is_cell_of(final(self)),
            final(self).keeps_cells_of(old(self)),
            old(self)@.contains(a.as_os_str_spec()) ==> handle@ == a.as_os_str_spec()
                && *final(self) == *old(self),
            !old(self)@.contains(a.as_os_str_spec()) ==> exists|made: Arc<[u8]>| #[trigger]
                call_ensures(to_arc, (a,), made) && handle@ == made@,
    {
        match os_cells_get(&self.pool, a.as_os_str_ref()) {
            Some(cell) => {
                assert(self@.insert(cell@) =~= self@);
                Intern(cell)
            },
            None => {
                let arc = to_arc(a);
                Intern(self.insert_arc(arc))
            },
        }
    }

    /// Publishes `arc` and returns the cell that the pool then stores for its
    /// content: `arc` itself where the pool held none, the cell it held
    /// otherwise.
    fn insert_arc(&mut self, arc: Arc<[u8]>) -> (cell: Arc<[u8]>)
        ensures
            cell@ == arc@,
            final(self)@ == old(self)@.insert(arc@),
            cell == final(self).cell_of(arc@),
            final(self).keeps_cells_of(old(self)),
            !old(self)@.contains(arc@) ==> cell == arc,
            old(self)@.contains(arc@) ==> cell == old(self).cell_of(arc@),
    {
        proof {
            use_type_invariant(&*self);
        }
        if os_cells_insert(&mut self.pool, arc_clone(&arc)) {
            arc
        } else {
            self.when_failed(arc)
        }
    }

    /// The path taken when publishing `arc` found a cell of equal content already
    /// stored: adopts the stored cell and drops `arc`; publishes `arc` after all
    /// if the stored cell is gone by now.
    fn when_failed(&mut self, arc: Arc<[u8]>) -> (cell: Arc<[u8]>)
        ensures
            cell@ == arc@,
            final(self)@ == old(self)@.insert(arc@),
            cell == final(self).cell_of(arc@),
            final(self).keeps_cells_of(old(self)),
            !old(self)@.contains(arc@) ==> cell == arc,
            old(self)@.contains(arc@) ==> cell == old(self).cell_of(arc@) && *final(self)
                == *old(self),
    {
        proof {
            use_type_invariant(&*self);
        }
        match os_cells_get(&self.pool, &*arc) {
            Some(stored) => {
                assert(self@.insert(arc@) =~= self@);
                stored
            },
            None => {
                let fresh = os_cells_insert(&mut self.pool, arc_clone(&arc));
                assert(fresh);
                arc
            },
        }
    }

    /// Removes cells that nothing outside the pool holds.
    ///
    /// Each stored cell is kept or removed by [`keeps`], applied to its strong
    /// count at the moment it is visited. No cell enters the pool, and a cell
    /// that stays is the cell that was stored.
    pub fn collect_garbage(&mut self)
        ensures
            final(self)@.subset_of(old(self)@),
            final(self).holds_only_cells_of(old(self)),
    {
        proof {
            use_type_invariant(&*self);
        }
        let ghost before = self@;
        os_cells_retain_held(&mut self.pool);
        proof {
            vstd::set_lib::lemma_len_subset(os_str_cells(self.pool), before);
        }
    }
}

impl View for Intern<str> {
    type V = Seq<char>;

    /// The content of the cell.
    closed spec fn view(&self) -> Seq<char> {
        self.0@
    }
}

impl Intern<str> {
    /// The cell that the handle is on.
    pub closed spec fn cell(&self) -> Arc<str> {
        self.0
    }

    /// Whether the handle is on the cell that `pool` stores for its content.
    pub open spec fn is_cell_of(&self, pool: &Pool<str>) -> bool {
        pool@.contains(self@) && self.cell() == pool.cell_of(self@)
    }

    /// The content of the cell.
    pub fn get(&self) -> (content: &str)
        ensures
            content@ == self@,
    {
        &*self.0
    }

    /// Whether the two handles are on one cell. Handles on one cell are on one
    /// cell value and see the same content.
    pub fn ptr_eq(&self, other: &Self) -> (same: bool)
        ensures
            same ==> self.cell() == other.cell() && self@ == other@,
    {
        arc_ptr_eq(&self.0, &other.0)
    }

    /// Whether the two handles see the same content, be they on one cell or on
    /// two. Handles on one cell are known to without a look at the content.
    pub fn content_eq(&self, other: &Self) -> (same: bool)
        ensures
            same == (self@ == other@),
    {
        arc_ptr_eq(&self.0, &other.0) || str_eq(self.get(), other.get())
    }

    /// Gives up the handle for the shared cell itself.
    pub fn into_arc(self) -> (cell: Arc<str>)
        ensures
            cell == self.cell(),
            cell@ == self@,
    {
        self.0
    }
}

impl Clone for Intern<str> {
    /// Another handle on the same cell.
    fn clone(&self) -> (dup: Self)
        ensures
            dup.cell() == self.cell(),
            dup@ == self@,
    {
        Intern(arc_clone(&self.0))
    }
}

impl PartialEq for Intern<str> {
    /// Whether the two handles are on one cell, as [`Intern::ptr_eq`] tells. Two
    /// handles that one pool gave out for equal content are; handles of equal
    /// content from two pools are not.
    fn eq(&self, other: &Self) -> (same: bool)
        ensures
            same ==> self.cell() == other.cell() && self@ == other@,
    {
        self.ptr_eq(other)
    }
}

impl Eq for Intern<str> {}

impl vstd::std_specs::cmp::PartialEqSpecImpl for Intern<str> {
    /// Whether two handles are on one cell is no function of their values, so
    /// `==` is held to no meaning over them.
    open spec fn obeys_eq_spec() -> bool {
        false
    }

    open spec fn eq_spec(&self, other: &Self) -> bool {
        self.cell() == other.cell()
    }
}

impl PartialOrd for Intern<str> {
    /// The order of the contents' UTF-8 encodings.
    fn partial_cmp(&self, other: &Self) -> (order: Option<Ordering>) {
        Some(str_order(self.get(), other.get()))
    }
}

impl vstd::std_specs::cmp::PartialOrdSpecImpl for Intern<str> {
    open spec fn obeys_partial_cmp_spec() -> bool {
        true
    }

    open spec fn partial_cmp_spec(&self, other: &Self) -> Option<Ordering> {
        Some(lex_order(encode_utf8(self@), encode_utf8(other@)))
    }
}

impl View for Intern<[u8]> {
    type V = Seq<u8>;

    /// The content of the cell.
    closed spec fn view(&self) -> Seq<u8> {
        self.0@
    }
}

impl Intern<[u8]> {
    /// The cell that the handle is on.
    pub closed spec fn cell(&self) -> Arc<[u8]> {
        self.0
    }

    /// Whether the handle is on the cell that `pool` stores for its content.
    pub open spec fn is_cell_of(&self, pool: &Pool<[u8]>) -> bool {
        pool@.contains(self@) && self.cell() == pool.cell_of(self@)
    }

    /// The content of the cell.
    pub fn get(&self) -> (content: &[u8])
        ensures
            content@ == self@,
    {
        &*self.0
    }

    /// Whether the two handles are on one cell. Handles on one cell are on one
    /// cell value and see the same content.
    pub fn ptr_eq(&self, other: &Self) -> (same: bool)
        ensures
            same ==> self.cell() == other.cell() && self@ == other@,
    {
        arc_ptr_eq(&self.0, &other.0)
    }

    /// Whether the two handles see the same content, be they on one cell or on
    /// two. Handles on one cell are known to without a look at the content.
    pub fn content_eq(&self, other: &Self) -> (same: bool)
        ensures
            same == (self@ == other@),
    {
        arc_ptr_eq(&self.0, &other.0) || bytes_eq(self.get(), other.get())
    }

    /// Gives up the handle for the shared cell itself.
    pub fn into_arc(self) -> (cell: Arc<[u8]>)
        ensures
            cell == self.cell(),
            cell@ == self@,
    {
        self.0
    }
}

impl Clone for Intern<[u8]> {
    /// Another handle on the same cell.
    fn clone(&self) -> (dup: Self)
        ensures
            dup.cell() == self.cell(),
            dup@ == self@,
    {
        Intern(arc_clone(&self.0))
    }
}

impl PartialEq for Intern<[u8]> {
    /// Whether the two handles are on one cell, as [`Intern::ptr_eq`] tells. Two
    /// handles that one pool gave out for equal content are; handles of equal
    /// content from two pools are not.
    fn eq(&self, other: &Self) -> (same: bool)
        ensures
            same ==> self.cell() == other.cell() && self@ == other@,
    {
        self.ptr_eq(other)
    }
}

impl Eq for Intern<[u8]> {}

impl vstd::std_specs::cmp::PartialEqSpecImpl for Intern<[u8]> {
    /// Whether two handles are on one cell is no function of their values, so
    /// `==` is held to no meaning over them.
    open spec fn obeys_eq_spec() -> bool {
        false
    }

    open spec fn eq_spec(&self, other: &Self) -> bool {
        self.cell() == other.cell()
    }
}

impl PartialOrd for Intern<[u8]> {
    /// The lexicographic order of the contents.
    fn partial_cmp(&self, other: &Self) -> (order: Option<Ordering>) {
        Some(bytes_order(self.get(), other.get()))
    }
}

impl vstd::std_specs::cmp::PartialOrdSpecImpl for Intern<[u8]> {
    open spec fn obeys_partial_cmp_spec() -> bool {
        true
    }

    open spec fn partial_cmp_spec(&self, other: &Self) -> Option<Ordering> {
        Some(lex_order(self@, other@))
    }
}

} // verus!
