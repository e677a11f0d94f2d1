//! Interned identifier handles.
//!
//! An `IdString` is a small copyable handle standing for a string that the
//! database's interner stores exactly once.  Handle 0 is reserved for the
//! empty string; handles are handed out sequentially and never reused.

use crate::base_context::{base_ctx_unchanged_but_interner, BaseCtx};
use crate::delay::DelayTrait;
use vstd::prelude::*;

verus! {

/// The first position at or after `i` where the interner table holds
/// `s`, if any.
pub open spec fn find_str(tbl: Seq<Seq<char>>, s: Seq<char>, i: int) -> Option<int>
    decreases tbl.len() - i,
{
    if i < 0 || i >= tbl.len() {
        None
    } else if tbl[i] == s {
        Some(i)
    } else {
        find_str(tbl, s, i + 1)
    }
}

/// The result of interning `s` into the table `tbl`: the table
/// afterwards and the handle index returned.
pub open spec fn intern_spec(tbl: Seq<Seq<char>>, s: Seq<char>) -> (Seq<Seq<char>>, int) {
    match find_str(tbl, s, 0) {
        Some(j) => (tbl, j),
        None => (tbl.push(s), tbl.len() as int),
    }
}

/// What a successful find means: the position holds `s` and no
/// earlier position from `i` on does.
pub proof fn lemma_find_str_some(tbl: Seq<Seq<char>>, s: Seq<char>, i: int, j: int)
    requires
        0 <= i,
        find_str(tbl, s, i) == Some(j),
    ensures
        i <= j < tbl.len(),
        tbl[j] == s,
        forall|m: int| i <= m < j ==> tbl[m] != s,
    decreases tbl.len() - i,
{
    if i < tbl.len() && tbl[i] != s {
        lemma_find_str_some(tbl, s, i + 1, j);
    }
}

/// What a failed find means: no position from `i` on holds `s`.
pub proof fn lemma_find_str_none(tbl: Seq<Seq<char>>, s: Seq<char>, i: int)
    requires
        0 <= i,
        find_str(tbl, s, i) is None,
    ensures
        forall|m: int| i <= m < tbl.len() ==> tbl[m] != s,
    decreases tbl.len() - i,
{
    if i < tbl.len() {
        lemma_find_str_none(tbl, s, i + 1);
    }
}

/// Appending `s` to a table that lacks it makes the find land exactly
/// on the appended entry; a table that already holds `s` finds the
/// same position as before.
pub proof fn lemma_find_str_push(tbl: Seq<Seq<char>>, s: Seq<char>, i: int)
    requires
        0 <= i <= tbl.len(),
    ensures
        find_str(tbl.push(s), s, i) == match find_str(tbl, s, i) {
            Some(j) => Some(j),
            None => Some(tbl.len() as int),
        },
    decreases tbl.len() - i,
{
    let tbl1 = tbl.push(s);
    if i == tbl.len() {
        assert(tbl1[i] == s);
    } else if tbl[i] == s {
        assert(tbl1[i] == s);
    } else {
        assert(tbl1[i] == tbl[i]);
        lemma_find_str_push(tbl, s, i + 1);
    }
}

/// Interning round-trip: interning `s` yields a handle that resolves
/// back to `s`, and interning `s` a second time returns the same
/// handle without growing the table.
pub proof fn lemma_intern_round_trip(tbl: Seq<Seq<char>>, s: Seq<char>)
    ensures
        ({
            let (tbl1, h) = intern_spec(tbl, s);
            &&& 0 <= h < tbl1.len()
            &&& tbl1[h] == s
            &&& intern_spec(tbl1, s) == (tbl1, h)
        }),
{
    let (tbl1, h) = intern_spec(tbl, s);
    match find_str(tbl, s, 0) {
        Some(j) => {
            lemma_find_str_some(tbl, s, 0, j);
        },
        None => {
            lemma_find_str_none(tbl, s, 0);
            lemma_find_str_push(tbl, s, 0);
        },
    }
}

/// Errors raised when a handle cannot be resolved or the interner is
/// seeded out of order.
#[derive(Debug, Copy, Clone, Eq, PartialEq, Structural)]
pub enum IdStringError {
    /// The handle does not name any entry of this database's interner
    /// (for example a handle made against a different database).
    IndexNotFoundInCtx,
    /// A reserved identifier was seeded at an index other than the next
    /// free slot of the interner.
    SeedIndexOutOfOrder,
}

/// An interned identifier: an index into the interner's table.
#[derive(Debug, Copy, Clone, Eq, PartialEq, Structural, Hash)]
pub struct IdString {
    index: u64,
}

impl View for IdString {
    type V = u64;

    /// A handle is abstractly the index it carries.
    closed spec fn view(&self) -> u64 {
        self.index
    }
}

impl IdString {
    /// The handle of the empty string.
    pub fn new() -> (r: Self)
        ensures
            r@ == 0,
    {
        Self { index: 0 }
    }

    /// The handle with the given raw index.
    pub fn with_index(index: u64) -> (r: Self)
        ensures
            r@ == index,
    {
        Self { index }
    }

    /// The raw index of this handle.
    pub fn index(&self) -> (r: u64)
        ensures
            r == self@,
    {
        self.index
    }

    /// True iff this is the reserved handle of the empty string.
    pub fn is_empty(&self) -> (r: bool)
        ensures
            r == (self@ == 0),
    {
        self.index == 0
    }

    /// True iff the two handles name the same interned string.
    pub fn inside(&self, rhs: &Self) -> (r: bool)
        ensures
            r == (self@ == rhs@),
    {
        self.index == rhs.index
    }

    /// True iff this handle occurs in the given list.
    pub fn inside_list(&self, args: &[IdString]) -> (r: bool)
        ensures
            r == exists|i: int| 0 <= i < args@.len() && args@[i]@ == self@,
    {
        let mut i: usize = 0;
        while i < args.len()
            invariant
                i <= args@.len(),
                forall|j: int| 0 <= j < i ==> args@[j]@ != self@,
            decreases args@.len() - i,
        {
            if args[i].index == self.index {
                return true;
            }
            i += 1;
        }
        false
    }

    /// Interns `s` in the context's table and makes this handle name
    /// it: an existing entry is reused, otherwise `s` is appended.
    pub fn set<D: DelayTrait>(&mut self, ctx: &mut BaseCtx<D>, s: &str)
        ensures
            ({
                let tbl0 = old(ctx).interner();
                let (tbl1, h) = intern_spec(tbl0, s@);
                &&& final(self)@ == h
                &&& final(ctx).interner() == tbl1
                &&& base_ctx_unchanged_but_interner(*old(ctx), *final(ctx))
            }),
    {
        let ghost tbl0 = ctx.interner();
        let owned = s.to_owned();
        let mut i: usize = 0;
        while i < ctx.idstring_idx_to_str.len()
            invariant
                i <= ctx.idstring_idx_to_str@.len(),
                owned@ == s@,
                *ctx == *old(ctx),
                tbl0 == ctx.interner(),
                find_str(tbl0, s@, 0) == find_str(tbl0, s@, i as int),
            decreases ctx.idstring_idx_to_str@.len() - i,
        {
            if owned == ctx.idstring_idx_to_str[i] {
                proof {
                    assert(tbl0[i as int] == s@);
                }
                self.index = i as u64;
                return ;
            }
            proof {
                assert(tbl0[i as int] != s@);
            }
            i += 1;
        }
        self.index = ctx.idstring_idx_to_str.len() as u64;
        ctx.idstring_idx_to_str.push(owned);
        proof {
            assert(ctx.interner() =~= tbl0.push(s@));
        }
    }

    /// Interns `s` and returns its handle.
    pub fn with_ctx_str<D: DelayTrait>(ctx: &mut BaseCtx<D>, s: &str) -> (r: Self)
        ensures
            ({
                let (tbl1, h) = intern_spec(old(ctx).interner(), s@);
                &&& r@ == h
                &&& final(ctx).interner() == tbl1
                &&& base_ctx_unchanged_but_interner(*old(ctx), *final(ctx))
            }),
    {
        let mut x = IdString::new();
        x.set(ctx, s);
        x
    }

    /// The string this handle names in the context's table; fails on a
    /// handle the table does not cover (one made against another
    /// database).
    pub fn to_string<D: DelayTrait>(&self, ctx: &BaseCtx<D>) -> (r: Result<
        String,
        IdStringError,
    >)
        ensures
            match r {
                Ok(t) => self@ < ctx.interner().len() && t@ == ctx.interner()[self@ as int],
                Err(e) => self@ >= ctx.interner().len() && e
                    == IdStringError::IndexNotFoundInCtx,
            },
    {
        let idx = self.index;
        if idx < ctx.idstring_idx_to_str.len() as u64 {
            Ok(ctx.idstring_idx_to_str[idx as usize].clone())
        } else {
            Err(IdStringError::IndexNotFoundInCtx)
        }
    }

    /// Seeds one reserved identifier at the next table position, which
    /// must be exactly `idx`; used once at startup, before any user
    /// identifier is interned.
    pub fn initialize_add<D: DelayTrait>(ctx: &mut BaseCtx<D>, s: &str, idx: u64) -> (r: Result<
        (),
        IdStringError,
    >)
        ensures
            match r {
                Ok(()) => {
                    &&& old(ctx).interner().len() == idx
                    &&& final(ctx).interner() == old(ctx).interner().push(s@)
                    &&& base_ctx_unchanged_but_interner(*old(ctx), *final(ctx))
                },
                Err(e) => {
                    &&& old(ctx).interner().len() != idx
                    &&& e == IdStringError::SeedIndexOutOfOrder
                    &&& *final(ctx) == *old(ctx)
                },
            },
    {
        if ctx.idstring_idx_to_str.len() as u64 == idx {
            let ghost tbl0 = ctx.interner();
            ctx.idstring_idx_to_str.push(s.to_owned());
            proof {
                assert(ctx.interner() =~= tbl0.push(s@));
            }
            Ok(())
        } else {
            Err(IdStringError::SeedIndexOutOfOrder)
        }
    }
}

impl Default for IdString {
    fn default() -> (r: Self)
        ensures
            r@ == 0,
    {
        Self { index: 0 }
    }
}

/// A pair of identifiers, used to address a cell.port pair.
#[derive(Debug, Copy, Clone, Eq, PartialEq, Structural, Hash)]
pub struct IdPair(pub IdString, pub IdString);

impl IdPair {
    /// Builds the pair from its two handles.
    pub fn with_ids(first: IdString, second: IdString) -> (r: Self)
        ensures
            r.0 == first,
            r.1 == second,
    {
        IdPair(first, second)
    }
}

} // verus!
