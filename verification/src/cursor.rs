//! Named, resumable iterators over a statement's rows.
//!
//! A cursor snapshots its statement's rows when opened and hands them out in
//! consecutive slices: each [`Cursor::fetch`] returns the next up-to-`n`
//! rows as a fresh [`ResultSet`] and advances the position, so repeated
//! calls are cumulative, never a re-fetch. Fetching past exhaustion returns
//! a result set with zero rows, not an error. A cursor is anonymous —
//! dropped with its creating frame — until it is detached by name through
//! [`Cursor::detach_into_name`], which makes it discoverable from any later
//! frame via `ExecutionClient::find_cursor`, resuming at its saved position.

use vstd::prelude::*;

use crate::datum::Datum;
use crate::engine::lemma_map_push;
use crate::result_set::{clone_columns, ColumnDesc, ColumnModel, ResultSet};

verus! {

/// Spec-level image of a [`Cursor`].
#[verifier::ext_equal]
pub struct CursorModel {
    /// The engine-visible name.
    pub name: Seq<char>,
    /// The column descriptors of the underlying statement.
    pub columns: Seq<ColumnModel>,
    /// The snapshot of the statement's rows.
    pub rows: Seq<Seq<Datum>>,
    /// How many rows have been fetched so far.
    pub pos: nat,
}

/// A named, resumable iterator over a statement's rows.
pub struct Cursor {
    /// The engine-visible name.
    pub(crate) name: String,
    /// The column descriptors of the underlying statement.
    pub(crate) columns: Vec<ColumnDesc>,
    /// The snapshot of the statement's rows.
    pub(crate) rows: Vec<Vec<Datum>>,
    /// How many rows have been fetched so far.
    pub(crate) pos: usize,
}

impl View for Cursor {
    type V = CursorModel;

    closed spec fn view(&self) -> CursorModel {
        CursorModel {
            name: self.name@,
            columns: self.columns@.map_values(|c: ColumnDesc| c@),
            rows: self.rows@.map_values(|r: Vec<Datum>| r@),
            pos: self.pos as nat,
        }
    }
}

/// Where the next fetch starts: the position, clipped to the row count.
pub open spec fn spec_fetch_start(c: CursorModel) -> int {
    if c.pos <= c.rows.len() {
        c.pos as int
    } else {
        c.rows.len() as int
    }
}

/// Where a fetch of `n` ends: `n` past the position, clipped to the row
/// count.
pub open spec fn spec_fetch_end(c: CursorModel, n: usize) -> int {
    if c.pos + n <= c.rows.len() {
        c.pos + n
    } else {
        c.rows.len() as int
    }
}

/// Within the crate, a cursor's model is exactly its fields' views.
pub(crate) proof fn lemma_cursor_parts(c: &Cursor)
    ensures
        c@ == (CursorModel {
            name: c.name@,
            columns: c.columns@.map_values(|x: ColumnDesc| x@),
            rows: c.rows@.map_values(|r: Vec<Datum>| r@),
            pos: c.pos as nat,
        }),
{
}

impl Cursor {
    /// The cursor's engine-visible name.
    pub fn name(&self) -> (r: &String)
        ensures
            r@ == self@.name,
    {
        &self.name
    }

    /// Fetch up to `n` more rows as a fresh result set and advance.
    ///
    /// Repeated calls are cumulative: each returns the slice that starts
    /// where the previous one ended. At exhaustion the returned result set
    /// has zero rows.
    pub fn fetch(&mut self, n: usize) -> (r: ResultSet)
        ensures
            final(self)@.name == old(self)@.name,
            final(self)@.columns == old(self)@.columns,
            final(self)@.rows == old(self)@.rows,
            final(self)@.pos == spec_fetch_end(old(self)@, n),
            r@.columns == Some(old(self)@.columns),
            r@.rows == old(self)@.rows.subrange(
                spec_fetch_start(old(self)@),
                spec_fetch_end(old(self)@, n),
            ),
            r@.processed == r@.rows.len(),
    {
        let len = self.rows.len();
        let start = if self.pos <= len {
            self.pos
        } else {
            len
        };
        let end = if n <= len - start {
            start + n
        } else {
            len
        };
        let mut out: Vec<Vec<Datum>> = Vec::new();
        let mut i: usize = start;
        while i < end
            invariant
                start <= i <= end <= self.rows@.len(),
                out@.map_values(|r: Vec<Datum>| r@) =~~= self.rows@.map_values(
                    |r: Vec<Datum>| r@,
                ).subrange(start as int, i as int),
            decreases end - i,
        {
            let ghost out0 = out@;
            let one = vstd::slice::slice_to_vec(self.rows[i].as_slice());
            out.push(one);
            proof {
                let f = |r: Vec<Datum>| r@;
                lemma_map_push(out0, f, one);
                let whole = self.rows@.map_values(f);
                assert(whole.subrange(start as int, i + 1) =~= whole.subrange(
                    start as int,
                    i as int,
                ).push(whole[i as int]));
                assert(out@.map_values(f) =~= whole.subrange(start as int, i + 1));
            }
            i += 1;
        }
        let cols = clone_columns(&self.columns);
        self.pos = end;
        let count = out.len();
        let rs = ResultSet::build(Some(cols), out, count);
        proof {
            assert(spec_fetch_start(old(self)@) == start as int);
            assert(spec_fetch_end(old(self)@, n) == end as int);
        }
        rs
    }
}

/// Consecutive fetches cover consecutive, non-overlapping slices: the rows
/// of a fetch of `n1` followed by one of `n2` are together exactly the rows
/// from the starting position through `n1 + n2` rows (clipped at
/// exhaustion), in order — pagination is cumulative, never a re-fetch, and
/// a fetch past exhaustion contributes zero rows.
pub proof fn lemma_fetch_cumulative(c: CursorModel, n1: usize, n2: usize)
    requires
        c.pos <= c.rows.len(),
        n1 + n2 <= usize::MAX,
    ensures
        ({
            let c1 = CursorModel { pos: spec_fetch_end(c, n1) as nat, ..c };
            c.rows.subrange(spec_fetch_start(c), spec_fetch_end(c, n1)) + c.rows.subrange(
                spec_fetch_start(c1),
                spec_fetch_end(c1, n2),
            ) == c.rows.subrange(
                spec_fetch_start(c),
                spec_fetch_end(c, (n1 + n2) as usize),
            )
        }),
{
    let c1 = CursorModel { pos: spec_fetch_end(c, n1) as nat, ..c };
    assert(c.rows.subrange(spec_fetch_start(c), spec_fetch_end(c, n1)) + c.rows.subrange(
        spec_fetch_start(c1),
        spec_fetch_end(c1, n2),
    ) =~= c.rows.subrange(spec_fetch_start(c), spec_fetch_end(c, (n1 + n2) as usize)));
}

} // verus!
