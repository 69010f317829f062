//! The in-process engine model the session layer executes against: a store
//! of named single-column integer tables, and the application of one parsed
//! statement to it.
//!
//! [`spec_apply`] is the authoritative statement semantics; the executable
//! [`Engine::apply`] is proved to follow it exactly, including which failure
//! comes back on which input: a mutating statement in a read-only frame is
//! [`Error::ReadOnlyViolation`] before anything else is examined, an unbound
//! parameter is [`Error::ArgumentMismatch`], an unknown or duplicate table
//! name is [`Error::SyntaxError`], and a non-integer value headed for a
//! table is [`Error::TypeDecodeFailure`].

use vstd::prelude::*;

use crate::datum::{Datum, Payload, OID_BOOL, OID_INT8};
use crate::error::{res_model, Error, ErrorModel};
use crate::result_set::{ColumnDesc, ColumnModel, ResultSet, RsModel};
use crate::sql::{Expr, Stmt, StmtModel};

verus! {

/// Spec-level image of a [`Table`].
#[verifier::ext_equal]
pub struct TableModel {
    /// The table's name.
    pub name: Seq<char>,
    /// The table's rows; one integer-typed datum each.
    pub rows: Seq<Datum>,
}

/// One engine table: a name and a single column of integer-typed rows.
#[derive(Clone, Debug)]
pub struct Table {
    /// The table's name.
    pub name: String,
    /// The table's rows; one integer-typed datum each.
    pub rows: Vec<Datum>,
}

impl View for Table {
    type V = TableModel;

    open spec fn view(&self) -> TableModel {
        TableModel { name: self.name@, rows: self.rows@ }
    }
}

/// The first table at or after `from` whose name is `name`.
pub open spec fn spec_find_table(ts: Seq<TableModel>, name: Seq<char>, from: int) -> Option<int>
    decreases ts.len() - from,
{
    if from < 0 || from >= ts.len() {
        None
    } else if ts[from].name == name {
        Some(from)
    } else {
        spec_find_table(ts, name, from + 1)
    }
}

/// Where `spec_find_table` points, that name stands.
pub proof fn lemma_find_table_in_range(ts: Seq<TableModel>, name: Seq<char>, from: int)
    requires
        0 <= from,
    ensures
        spec_find_table(ts, name, from) matches Some(i) ==> from <= i < ts.len() && ts[i].name
            == name,
    decreases ts.len() - from,
{
    if from < ts.len() && ts[from].name != name {
        lemma_find_table_in_range(ts, name, from + 1);
    }
}

/// The datum an expression stands for, once positional parameters are bound.
pub open spec fn spec_resolve(e: Expr, args: Seq<Datum>) -> Result<Datum, ErrorModel> {
    match e {
        Expr::Lit(v) => Ok(Datum { oid: OID_INT8, payload: Payload::Int(v) }),
        Expr::BoolLit(b) => Ok(Datum { oid: OID_BOOL, payload: Payload::Boolean(b) }),
        Expr::Param(k) => if 1 <= k <= args.len() {
            Ok(args[k - 1])
        } else {
            Err(ErrorModel::ArgumentMismatch { expected: k as nat, got: args.len() })
        },
    }
}

/// The datums of the expressions from `from` on, or the first binding
/// failure.
pub open spec fn spec_resolve_list(es: Seq<Expr>, args: Seq<Datum>, from: int) -> Result<
    Seq<Datum>,
    ErrorModel,
>
    decreases es.len() - from,
{
    if from < 0 || from >= es.len() {
        Ok(Seq::empty())
    } else {
        match spec_resolve(es[from], args) {
            Err(e) => Err(e),
            Ok(d) => match spec_resolve_list(es, args, from + 1) {
                Err(e) => Err(e),
                Ok(rest) => Ok(seq![d] + rest),
            },
        }
    }
}

/// `rows` capped to `limit` rows, when a cap is given.
pub open spec fn spec_limited(rows: Seq<Seq<Datum>>, limit: Option<usize>) -> Seq<Seq<Datum>> {
    match limit {
        None => rows,
        Some(l) => if l < rows.len() {
            rows.take(l as int)
        } else {
            rows
        },
    }
}

/// The column descriptors of a computed-values row: each column named
/// `?column?`, typed by its value.
pub open spec fn spec_value_columns(ds: Seq<Datum>) -> Seq<ColumnModel> {
    ds.map_values(|d: Datum| ColumnModel { name: "?column?"@, oid: d.oid })
}

/// The single column descriptor of a table scan.
pub open spec fn spec_scan_columns() -> Seq<ColumnModel> {
    seq![ColumnModel { name: "value"@, oid: OID_INT8 }]
}

/// What applying one statement to the table store does: the new store and
/// the produced result set, or the failure, which leaves the store as it
/// was.
pub open spec fn spec_apply(
    ts: Seq<TableModel>,
    st: StmtModel,
    args: Seq<Datum>,
    rw: bool,
    limit: Option<usize>,
) -> Result<(Seq<TableModel>, RsModel), ErrorModel> {
    if st.is_mutating() && !rw {
        Err(ErrorModel::ReadOnlyViolation)
    } else {
        match st {
            StmtModel::SelectValues(es) => match spec_resolve_list(es, args, 0) {
                Err(e) => Err(e),
                Ok(ds) => {
                    let rows = spec_limited(seq![ds], limit);
                    Ok(
                        (
                            ts,
                            RsModel {
                                columns: Some(spec_value_columns(ds)),
                                rows,
                                processed: rows.len(),
                            },
                        ),
                    )
                },
            },
            StmtModel::SelectAll(name) => match spec_find_table(ts, name, 0) {
                None => Err(ErrorModel::SyntaxError("relation does not exist"@)),
                Some(i) => {
                    let rows = spec_limited(ts[i].rows.map_values(|d: Datum| seq![d]), limit);
                    Ok(
                        (
                            ts,
                            RsModel {
                                columns: Some(spec_scan_columns()),
                                rows,
                                processed: rows.len(),
                            },
                        ),
                    )
                },
            },
            StmtModel::CreateTable(name) => match spec_find_table(ts, name, 0) {
                Some(_) => Err(ErrorModel::SyntaxError("relation already exists"@)),
                None => Ok(
                    (
                        ts.push(TableModel { name, rows: Seq::empty() }),
                        RsModel { columns: None, rows: Seq::empty(), processed: 0 },
                    ),
                ),
            },
            StmtModel::Insert(name, e) => match spec_find_table(ts, name, 0) {
                None => Err(ErrorModel::SyntaxError("relation does not exist"@)),
                Some(i) => match spec_resolve(e, args) {
                    Err(er) => Err(er),
                    Ok(d) => if d.oid == OID_INT8 && d.wf() {
                        Ok(
                            (
                                ts.update(i, TableModel { name: ts[i].name, rows: ts[i].rows.push(d) }),
                                RsModel { columns: None, rows: Seq::empty(), processed: 1 },
                            ),
                        )
                    } else {
                        Err(ErrorModel::TypeDecodeFailure)
                    },
                },
            },
        }
    }
}

/// A read never changes the table store, and what it returns depends on the
/// store alone: statements in the same frame leave every other read's
/// outcome untouched, whatever their order.
pub proof fn lemma_read_leaves_tables(
    ts: Seq<TableModel>,
    st: StmtModel,
    args: Seq<Datum>,
    rw: bool,
    limit: Option<usize>,
)
    requires
        !st.is_mutating(),
    ensures
        match spec_apply(ts, st, args, rw, limit) {
            Ok((ts2, _)) => ts2 == ts,
            Err(_) => true,
        },
{
}

/// `map_values` distributes over `push`.
pub(crate) proof fn lemma_map_push<A, B>(s: Seq<A>, f: spec_fn(A) -> B, x: A)
    ensures
        s.push(x).map_values(f) =~= s.map_values(f).push(f(x)),
{
}

/// Bind one expression against the positional arguments.
fn resolve(e: &Expr, args: &Vec<Datum>) -> (r: Result<Datum, Error>)
    ensures
        res_model(r) == spec_resolve(*e, args@),
{
    match e {
        Expr::Lit(v) => Ok(Datum { oid: OID_INT8, payload: Payload::Int(*v) }),
        Expr::BoolLit(b) => Ok(Datum { oid: OID_BOOL, payload: Payload::Boolean(*b) }),
        Expr::Param(k) => {
            let k = *k;
            if 1 <= k && k <= args.len() {
                Ok(args[k - 1])
            } else {
                Err(Error::ArgumentMismatch { expected: k, got: args.len() })
            }
        },
    }
}

/// Bind the expressions from `from` on.
fn resolve_list(es: &Vec<Expr>, args: &Vec<Datum>, from: usize) -> (r: Result<Vec<Datum>, Error>)
    requires
        from <= es@.len(),
    ensures
        match r {
            Ok(ds) => spec_resolve_list(es@, args@, from as int) == Ok::<Seq<Datum>, ErrorModel>(
                ds@,
            ),
            Err(e) => spec_resolve_list(es@, args@, from as int) == Err::<Seq<Datum>, ErrorModel>(
                e@,
            ),
        },
    decreases es@.len() - from,
{
    if from >= es.len() {
        let empty: Vec<Datum> = Vec::new();
        proof {
            assert(empty@ =~= Seq::<Datum>::empty());
        }
        Ok(empty)
    } else {
        match resolve(&es[from], args) {
            Err(e) => Err(e),
            Ok(d) => match resolve_list(es, args, from + 1) {
                Err(e) => Err(e),
                Ok(mut rest) => {
                    let ghost r0 = rest@;
                    rest.insert(0, d);
                    proof {
                        assert(rest@ =~= seq![d] + r0);
                    }
                    Ok(rest)
                },
            },
        }
    }
}

/// The engine's table store.
pub struct Engine {
    tables: Vec<Table>,
}

impl View for Engine {
    type V = Seq<TableModel>;

    closed spec fn view(&self) -> Seq<TableModel> {
        self.tables@.map_values(|t: Table| t@)
    }
}

impl Engine {
    /// An engine with no tables.
    pub fn new() -> (e: Engine)
        ensures
            e@ == Seq::<TableModel>::empty(),
    {
        let e = Engine { tables: Vec::new() };
        proof {
            assert(e@ =~= Seq::<TableModel>::empty());
        }
        e
    }

    /// The index of the first table at or after `from` named `name`.
    fn find_from(&self, name: &String, from: usize) -> (r: Option<usize>)
        requires
            from <= self@.len(),
        ensures
            match r {
                Some(i) => spec_find_table(self@, name@, from as int) == Some(i as int) && i
                    < self@.len(),
                None => spec_find_table(self@, name@, from as int) is None,
            },
        decreases self@.len() - from,
    {
        if from >= self.tables.len() {
            None
        } else if self.tables[from].name == *name {
            Some(from)
        } else {
            self.find_from(name, from + 1)
        }
    }

    /// Apply one statement: run it against the store under the frame's
    /// read/write mode, binding `args` to `$1, $2, ...` and capping a
    /// row-producing result at `limit` rows.
    pub fn apply(&mut self, st: &Stmt, args: &Vec<Datum>, rw: bool, limit: Option<usize>) -> (r:
        Result<ResultSet, Error>)
        ensures
            match r {
                Ok(rs) => spec_apply(old(self)@, st@, args@, rw, limit) == Ok::<
                    (Seq<TableModel>, RsModel),
                    ErrorModel,
                >((final(self)@, rs@)),
                Err(e) => spec_apply(old(self)@, st@, args@, rw, limit) == Err::<
                    (Seq<TableModel>, RsModel),
                    ErrorModel,
                >(e@) && final(self)@ == old(self)@,
            },
    {
        proof {
            reveal_strlit("relation does not exist");
            reveal_strlit("relation already exists");
            reveal_strlit("?column?");
            reveal_strlit("value");
        }
        if st.is_mutating() && !rw {
            return Err(Error::ReadOnlyViolation);
        }
        match st {
            Stmt::SelectValues(es) => {
                let ds = match resolve_list(es, args, 0) {
                    Ok(ds) => ds,
                    Err(e) => {
                        return Err(e);
                    },
                };
                let mut cols: Vec<ColumnDesc> = Vec::new();
                let mut i: usize = 0;
                while i < ds.len()
                    invariant
                        0 <= i <= ds@.len(),
                        cols@.map_values(|c: ColumnDesc| c@) =~~= spec_value_columns(
                            ds@.take(i as int),
                        ),
                    decreases ds@.len() - i,
                {
                    let ghost cols0 = cols@;
                    let c = ColumnDesc { name: String::from_str("?column?"), type_oid: ds[i].oid };
                    cols.push(c);
                    proof {
                        let f = |c: ColumnDesc| c@;
                        let g = |d: Datum| ColumnModel { name: "?column?"@, oid: d.oid };
                        lemma_map_push(cols0, f, c);
                        assert(ds@.take(i + 1) =~= ds@.take(i as int).push(ds@[i as int]));
                        lemma_map_push(ds@.take(i as int), g, ds@[i as int]);
                        assert(f(c) == g(ds@[i as int]));
                        assert(cols@.map_values(f) =~= spec_value_columns(ds@.take(i + 1)));
                    }
                    i += 1;
                }
                proof {
                    assert(ds@.take(ds@.len() as int) =~= ds@);
                }
                let ghost ds_model = ds@;
                let mut rows: Vec<Vec<Datum>> = Vec::new();
                rows.push(ds);
                proof {
                    assert(rows@.map_values(|r: Vec<Datum>| r@) =~= seq![ds_model]);
                }
                let rows = cap_rows(rows, limit);
                let processed = rows.len();
                let rs = ResultSet::build(Some(cols), rows, processed);
                proof {
                    let srows = spec_limited(seq![ds_model], limit);
                    assert(rs@.columns == Some(spec_value_columns(ds_model)));
                    assert(rs@.rows == srows);
                    assert(rs@.processed == srows.len());
                    let sp = spec_apply(old(self)@, st@, args@, rw, limit);
                    assert(sp == Ok::<(Seq<TableModel>, RsModel), ErrorModel>((self@, rs@)));
                }
                Ok(rs)
            },
            Stmt::SelectAll(name) => {
                let i = match self.find_from(name, 0) {
                    Some(i) => i,
                    None => {
                        return Err(Error::SyntaxError(String::from_str(
                            "relation does not exist",
                        )));
                    },
                };
                let src = &self.tables[i].rows;
                let mut rows: Vec<Vec<Datum>> = Vec::new();
                let mut j: usize = 0;
                while j < src.len()
                    invariant
                        0 <= j <= src@.len(),
                        rows@.map_values(|r: Vec<Datum>| r@) =~~= src@.take(j as int).map_values(
                            |d: Datum| seq![d],
                        ),
                    decreases src@.len() - j,
                {
                    let ghost rows0 = rows@;
                    let mut one: Vec<Datum> = Vec::new();
                    one.push(src[j]);
                    rows.push(one);
                    proof {
                        let f = |r: Vec<Datum>| r@;
                        let g = |d: Datum| seq![d];
                        lemma_map_push(rows0, f, one);
                        assert(src@.take(j + 1) =~= src@.take(j as int).push(src@[j as int]));
                        lemma_map_push(src@.take(j as int), g, src@[j as int]);
                        assert(f(one) =~= g(src@[j as int]));
                        assert(rows@.map_values(f) =~~= src@.take(j + 1).map_values(g));
                    }
                    j += 1;
                }
                proof {
                    assert(src@.take(src@.len() as int) =~= src@);
                    assert(self@[i as int].rows == src@);
                    assert(rows@.map_values(|r: Vec<Datum>| r@) =~= self@[i as int].rows.map_values(
                        |d: Datum| seq![d],
                    ));
                }
                let ghost scan = self@[i as int].rows.map_values(|d: Datum| seq![d]);
                let mut cols: Vec<ColumnDesc> = Vec::new();
                cols.push(ColumnDesc { name: String::from_str("value"), type_oid: OID_INT8 });
                proof {
                    assert(cols@.map_values(|c: ColumnDesc| c@) =~= spec_scan_columns());
                }
                let rows = cap_rows(rows, limit);
                let processed = rows.len();
                let rs = ResultSet::build(Some(cols), rows, processed);
                proof {
                    let srows = spec_limited(scan, limit);
                    assert(rs@.columns == Some(spec_scan_columns()));
                    assert(rs@.rows == srows);
                    assert(rs@.processed == srows.len());
                    let sp = spec_apply(old(self)@, st@, args@, rw, limit);
                    assert(sp == Ok::<(Seq<TableModel>, RsModel), ErrorModel>((self@, rs@)));
                }
                Ok(rs)
            },
            Stmt::CreateTable(name) => {
                match self.find_from(name, 0) {
                    Some(_) => Err(Error::SyntaxError(String::from_str("relation already exists"))),
                    None => {
                        self.tables.push(Table { name: name.clone(), rows: Vec::new() });
                        proof {
                            assert(self@ =~~= old(self)@.push(
                                TableModel { name: name@, rows: Seq::empty() },
                            ));
                        }
                        let rs = ResultSet::build(None, Vec::new(), 0);
                        proof {
                            assert(rs@.rows =~= Seq::<Seq<Datum>>::empty());
                            let sp = spec_apply(old(self)@, st@, args@, rw, limit);
                            assert(sp == Ok::<(Seq<TableModel>, RsModel), ErrorModel>(
                                (self@, rs@),
                            ));
                        }
                        Ok(rs)
                    },
                }
            },
            Stmt::Insert(name, e) => {
                let i = match self.find_from(name, 0) {
                    Some(i) => i,
                    None => {
                        return Err(Error::SyntaxError(String::from_str(
                            "relation does not exist",
                        )));
                    },
                };
                let d = match resolve(e, args) {
                    Ok(d) => d,
                    Err(er) => {
                        return Err(er);
                    },
                };
                if d.oid != OID_INT8 || !d.is_wf() {
                    return Err(Error::TypeDecodeFailure);
                }
                let mut t = self.tables.remove(i);
                t.rows.push(d);
                self.tables.insert(i, t);
                proof {
                    assert(self@ =~~= old(self)@.update(
                        i as int,
                        TableModel { name: old(self)@[i as int].name, rows: old(self)@[i as int].rows.push(d) },
                    ));
                }
                let rs = ResultSet::build(None, Vec::new(), 1);
                proof {
                    assert(rs@.rows =~= Seq::<Seq<Datum>>::empty());
                    let sp = spec_apply(old(self)@, st@, args@, rw, limit);
                    assert(sp == Ok::<(Seq<TableModel>, RsModel), ErrorModel>((self@, rs@)));
                }
                Ok(rs)
            },
        }
    }
}

/// Cap `rows` to `limit` rows, when a cap is given.
fn cap_rows(rows: Vec<Vec<Datum>>, limit: Option<usize>) -> (r: Vec<Vec<Datum>>)
    ensures
        r@.map_values(|x: Vec<Datum>| x@) == spec_limited(
            rows@.map_values(|x: Vec<Datum>| x@),
            limit,
        ),
{
    let ghost orig = rows@.map_values(|x: Vec<Datum>| x@);
    let mut rows = rows;
    match limit {
        None => rows,
        Some(l) => {
            rows.truncate(l);
            proof {
                if l < orig.len() {
                    assert(rows@.map_values(|x: Vec<Datum>| x@) =~~= orig.take(l as int));
                } else {
                    assert(rows@.map_values(|x: Vec<Datum>| x@) =~~= orig);
                }
            }
            rows
        },
    }
}

} // verus!
