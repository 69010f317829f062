//! Session-wide laws, stated over the same models the operation contracts
//! use and proved once for all inputs.

use vstd::prelude::*;

use crate::datum::{Datum, OID_INT8};
use crate::engine::{
    lemma_find_table_in_range, lemma_read_leaves_tables, spec_apply, spec_find_table,
    spec_limited, spec_resolve, spec_resolve_list, spec_scan_columns, spec_value_columns,
    TableModel,
};
use crate::error::{Error, ErrorModel};
use crate::result_set::RsModel;
use crate::session::{restored, ConnectionStack, ExecutionClient, SessionModel};
use crate::sql::StmtModel;

verus! {

/// Nested scopes hand the innermost success value out unchanged, stated of
/// the executable [`ExecutionClient::connect`] itself: if every result a
/// body can produce is `Ok(v)`, then every result `connect` can produce
/// when handed that body is `Ok(v)` too. Applied once per level, innermost
/// first, this gives the nesting law for every depth `d >= 1`: the
/// innermost body yields `Ok(v)`, and each enclosing level's body is
/// itself one call of `connect`, so no level alters the value on the way
/// out.
pub proof fn lemma_connect_returns_innermost<
    T,
    F: FnOnce(&mut ExecutionClient) -> Result<T, Error>,
>(v: T)
    ensures
        forall|s: &mut ExecutionClient, body: F, r: Result<T, Error>|
            (forall|c: &mut ExecutionClient, rr: Result<T, Error>|
                #[trigger] call_ensures(body, (c,), rr) ==> rr == Ok::<T, Error>(v))
                && #[trigger] call_ensures(ExecutionClient::connect::<T, F>, (s, body), r) ==> r
                == Ok::<T, Error>(v),
        forall|s: &mut ConnectionStack, body: F, r: Result<T, Error>|
            (forall|c: &mut ExecutionClient, rr: Result<T, Error>|
                #[trigger] call_ensures(body, (c,), rr) ==> rr == Ok::<T, Error>(v))
                && #[trigger] call_ensures(ConnectionStack::connect::<T, F>, (s, body), r) ==> r
                == Ok::<T, Error>(v),
{
}

/// A `connect` returns the caller to exactly the frames it held before,
/// whenever the body leaves the caller's frames in place underneath its
/// own — which every session operation does: none of them touches a frame
/// below the top of the stack.
pub proof fn lemma_connect_restores_frames(m0: SessionModel, m1: SessionModel)
    requires
        m0.frames.len() <= m1.frames.len(),
        m1.frames.subrange(0, m0.frames.len() as int) == m0.frames,
    ensures
        restored(m0, m1).frames == m0.frames,
{
}

/// Result sets opened in the same frame are independent: a read changes no
/// table, so running one read before another leaves the other's outcome —
/// its row count, its emptiness, its rows — exactly what it would have
/// been alone, whichever of the two came first.
pub proof fn lemma_result_set_independence(
    ts: Seq<TableModel>,
    st1: StmtModel,
    st2: StmtModel,
    args1: Seq<Datum>,
    args2: Seq<Datum>,
    rw: bool,
    lim1: Option<usize>,
    lim2: Option<usize>,
)
    requires
        !st1.is_mutating(),
        !st2.is_mutating(),
    ensures
        spec_apply(ts, st1, args1, rw, lim1) matches Ok(first) ==> spec_apply(
            first.0,
            st2,
            args2,
            rw,
            lim2,
        ) == spec_apply(ts, st2, args2, rw, lim2),
{
    lemma_read_leaves_tables(ts, st1, args1, rw, lim1);
}

/// Read-only discipline: in a non-escalated frame every mutating statement
/// fails with exactly [`ErrorModel::ReadOnlyViolation`], and once the frame
/// is escalated that failure can no longer occur, whatever else the
/// statement does.
pub proof fn lemma_read_only_discipline(
    ts: Seq<TableModel>,
    st: StmtModel,
    args: Seq<Datum>,
    limit: Option<usize>,
)
    requires
        st.is_mutating(),
    ensures
        spec_apply(ts, st, args, false, limit) == Err::<(Seq<TableModel>, RsModel), ErrorModel>(
            ErrorModel::ReadOnlyViolation,
        ),
        spec_apply(ts, st, args, true, limit) != Err::<(Seq<TableModel>, RsModel), ErrorModel>(
            ErrorModel::ReadOnlyViolation,
        ),
{
}

/// Every result set a statement produces has the shape its metadata
/// announces: its processed count equals its row count, and every row has
/// exactly one datum per column descriptor — so positional addressing by
/// 1-based ordinal is total on it.
pub proof fn lemma_apply_result_well_formed(
    ts: Seq<TableModel>,
    st: StmtModel,
    args: Seq<Datum>,
    rw: bool,
    limit: Option<usize>,
)
    ensures
        spec_apply(ts, st, args, rw, limit) matches Ok(p) ==> p.1.wf(),
{
    if let Ok((_, rs)) = spec_apply(ts, st, args, rw, limit) {
        match st {
            StmtModel::SelectValues(es) => {
                let ds = spec_resolve_list(es, args, 0)->Ok_0;
                let rows = spec_limited(seq![ds], limit);
                assert forall|i: int| 0 <= i < rows.len() implies (#[trigger] rows[i]).len()
                    == spec_value_columns(ds).len() by {
                    assert(rows[i] == ds);
                }
            },
            StmtModel::SelectAll(name) => {
                lemma_find_table_in_range(ts, name, 0);
                let k = spec_find_table(ts, name, 0)->Some_0;
                let scan = ts[k].rows.map_values(|d: Datum| seq![d]);
                let rows = spec_limited(scan, limit);
                assert forall|i: int| 0 <= i < rows.len() implies (#[trigger] rows[i]).len()
                    == spec_scan_columns().len() by {
                    assert(rows[i] == scan[i]);
                    assert(scan[i] == seq![ts[k].rows[i]]);
                }
            },
            _ => {},
        }
    }
}

/// Every datum a table holds is a well-formed integer datum.
pub open spec fn tables_integer_typed(ts: Seq<TableModel>) -> bool {
    forall|i: int, j: int|
        0 <= i < ts.len() && 0 <= j < ts[i].rows.len() ==> (#[trigger] ts[i].rows[j]).oid
            == OID_INT8 && ts[i].rows[j].wf()
}

/// The table store stays integer-typed whatever statement runs: reads
/// leave it alone, creating a table adds no rows, and an insert admits
/// only a well-formed integer datum.
pub proof fn lemma_tables_stay_integer_typed(
    ts: Seq<TableModel>,
    st: StmtModel,
    args: Seq<Datum>,
    rw: bool,
    limit: Option<usize>,
)
    requires
        tables_integer_typed(ts),
    ensures
        spec_apply(ts, st, args, rw, limit) matches Ok(p) ==> tables_integer_typed(p.0),
{
    if let Ok((ts2, _)) = spec_apply(ts, st, args, rw, limit) {
        match st {
            StmtModel::CreateTable(_) => {
                assert forall|i: int, j: int|
                    0 <= i < ts2.len() && 0 <= j < ts2[i].rows.len() implies (#[trigger] ts2[i].rows[j]).oid
                    == OID_INT8 && ts2[i].rows[j].wf() by {
                    if i < ts.len() {
                        assert(ts2[i] == ts[i]);
                    } else {
                        assert(ts2[i].rows.len() == 0);
                    }
                }
            },
            StmtModel::Insert(name, e) => {
                lemma_find_table_in_range(ts, name, 0);
                let k = spec_find_table(ts, name, 0)->Some_0;
                let d = spec_resolve(e, args)->Ok_0;
                assert(d.oid == OID_INT8 && d.wf());
                assert(ts2 == ts.update(
                    k,
                    TableModel { name: ts[k].name, rows: ts[k].rows.push(d) },
                ));
                assert forall|i: int, j: int|
                    0 <= i < ts2.len() && 0 <= j < ts2[i].rows.len() implies (#[trigger] ts2[i].rows[j]).oid
                    == OID_INT8 && ts2[i].rows[j].wf() by {
                    if i != k {
                        assert(ts2[i] == ts[i]);
                    } else {
                        assert(ts2[k].rows == ts[k].rows.push(d));
                        if j < ts[k].rows.len() {
                            assert(ts2[k].rows[j] == ts[k].rows[j]);
                        } else {
                            assert(ts2[k].rows[j] == d);
                        }
                    }
                }
            },
            _ => {},
        }
    }
}

} // verus!
