//! The immutable, positionally-addressable table of rows produced by one
//! execution.
//!
//! A [`ResultSet`] is a snapshot: it owns its rows, so creating another
//! result set in the same frame can never mutate or invalidate one already
//! open. Statements that produce no tabular result (pure DDL or DML) carry
//! no column list, and any column or row query on them reports
//! [`Error::NoTupleTable`]. Ordinals are 1-based; ordinal 0 or one past the
//! column count is [`Error::InvalidPosition`], never a panic.

use vstd::prelude::*;

use crate::datum::{Datum, FromDatum};
use crate::error::{Error, ErrorModel};

verus! {

/// Spec-level image of a [`ColumnDesc`].
pub struct ColumnModel {
    /// The column's name.
    pub name: Seq<char>,
    /// The engine type OID of the column's values.
    pub oid: u32,
}

/// One column of a result set: its name and its engine type.
#[derive(Clone, Debug)]
pub struct ColumnDesc {
    /// The column's name.
    pub name: String,
    /// The engine type OID of the column's values.
    pub type_oid: u32,
}

impl View for ColumnDesc {
    type V = ColumnModel;

    open spec fn view(&self) -> ColumnModel {
        ColumnModel { name: self.name@, oid: self.type_oid }
    }
}

/// Spec-level image of a [`ResultSet`].
pub struct RsModel {
    /// The column descriptors, or `None` when the statement produced no
    /// tuple table.
    pub columns: Option<Seq<ColumnModel>>,
    /// The rows, outermost first.
    pub rows: Seq<Seq<Datum>>,
    /// How many rows the statement processed.
    pub processed: nat,
}

impl RsModel {
    /// Shape invariant: no tuple table means no rows, and every row has
    /// exactly one datum per column.
    pub open spec fn wf(self) -> bool {
        match self.columns {
            None => self.rows.len() == 0,
            Some(cols) => {
                &&& self.rows.len() == self.processed
                &&& forall|i: int|
                    0 <= i < self.rows.len() ==> (#[trigger] self.rows[i]).len() == cols.len()
            },
        }
    }
}

/// The outcome of reading one datum as a target type `T`.
pub open spec fn spec_decode<T: FromDatum>(d: Datum) -> Result<Option<T>, ErrorModel> {
    if d.payload is Null {
        Ok(None)
    } else if T::decodes(d) {
        Ok(Some(T::decoded(d)))
    } else {
        Err(ErrorModel::TypeDecodeFailure)
    }
}

/// The outcome of `get` on a result set: the datum of the given 1-based
/// `ordinal` in the given 0-based `row`, decoded as `T`.
pub open spec fn spec_get<T: FromDatum>(rs: RsModel, row: int, ordinal: int) -> Result<
    Option<T>,
    ErrorModel,
> {
    match rs.columns {
        None => Err(ErrorModel::NoTupleTable),
        Some(cols) => {
            if !(0 <= row < rs.rows.len()) {
                Err(ErrorModel::InvalidPosition)
            } else if !(1 <= ordinal <= cols.len()) {
                Err(ErrorModel::InvalidPosition)
            } else if ordinal > rs.rows[row].len() {
                Err(ErrorModel::InvalidPosition)
            } else {
                spec_decode(rs.rows[row][ordinal - 1])
            }
        },
    }
}

/// The typed, positionally-addressable table produced by one execution.
#[derive(Clone, Debug)]
pub struct ResultSet {
    /// The column descriptors, or `None` when the statement produced no
    /// tuple table.
    columns: Option<Vec<ColumnDesc>>,
    /// The rows, in engine order.
    rows: Vec<Vec<Datum>>,
    /// How many rows the statement processed.
    processed: usize,
}

impl View for ResultSet {
    type V = RsModel;

    closed spec fn view(&self) -> RsModel {
        RsModel {
            columns: match self.columns {
                None => None,
                Some(cols) => Some(cols@.map_values(|c: ColumnDesc| c@)),
            },
            rows: self.rows@.map_values(|r: Vec<Datum>| r@),
            processed: self.processed as nat,
        }
    }
}

/// A positional view into one row of a result set, addressing values by
/// 1-based ordinal.
pub struct Row<'a> {
    /// The result set the row belongs to.
    rs: &'a ResultSet,
    /// The 0-based index of this row.
    index: usize,
}

impl ResultSet {
    /// Build a result set; the session layer's engine is the only caller.
    pub(crate) fn build(
        columns: Option<Vec<ColumnDesc>>,
        rows: Vec<Vec<Datum>>,
        processed: usize,
    ) -> (rs: ResultSet)
        ensures
            rs@ == (RsModel {
                columns: match columns {
                    None => None,
                    Some(cols) => Some(cols@.map_values(|c: ColumnDesc| c@)),
                },
                rows: rows@.map_values(|r: Vec<Datum>| r@),
                processed: processed as nat,
            }),
    {
        ResultSet { columns, rows, processed }
    }

    /// Take the result set apart; the session layer's cursors are the only
    /// caller.
    pub(crate) fn into_parts(self) -> (p: (Option<Vec<ColumnDesc>>, Vec<Vec<Datum>>, usize))
        ensures
            self@.columns == match p.0 {
                None => None::<Seq<ColumnModel>>,
                Some(cols) => Some(cols@.map_values(|c: ColumnDesc| c@)),
            },
            self@.rows == p.1@.map_values(|r: Vec<Datum>| r@),
            self@.processed == p.2,
    {
        let ResultSet { columns, rows, processed } = self;
        (columns, rows, processed)
    }

    /// How many rows the statement processed: for a row-producing statement
    /// the number of rows returned, for DDL or DML the number affected.
    pub fn row_count(&self) -> (r: usize)
        ensures
            r == self@.processed,
    {
        self.processed
    }

    /// Whether the statement processed no rows.
    pub fn is_empty(&self) -> (r: bool)
        ensures
            r == (self@.processed == 0),
    {
        self.processed == 0
    }

    /// The column descriptors, or [`Error::NoTupleTable`] when the statement
    /// produced no tuple table.
    pub fn columns(&self) -> (r: Result<&Vec<ColumnDesc>, Error>)
        ensures
            match r {
                Ok(cols) => self@.columns == Some(cols@.map_values(|c: ColumnDesc| c@)),
                Err(e) => self@.columns is None && e@ == ErrorModel::NoTupleTable,
            },
    {
        match &self.columns {
            Some(cols) => Ok(cols),
            None => Err(Error::NoTupleTable),
        }
    }

    /// How many columns the tuple table has, or [`Error::NoTupleTable`].
    pub fn column_count(&self) -> (r: Result<usize, Error>)
        ensures
            match r {
                Ok(n) => self@.columns matches Some(cols) && n == cols.len(),
                Err(e) => self@.columns is None && e@ == ErrorModel::NoTupleTable,
            },
    {
        match &self.columns {
            Some(cols) => Ok(cols.len()),
            None => Err(Error::NoTupleTable),
        }
    }

    /// The name of the column at the 1-based `ordinal`.
    pub fn column_name(&self, ordinal: usize) -> (r: Result<String, Error>)
        ensures
            match r {
                Ok(name) => self@.columns matches Some(cols) && 1 <= ordinal <= cols.len()
                    && name@ == cols[ordinal - 1].name,
                Err(e) => match self@.columns {
                    None => e@ == ErrorModel::NoTupleTable,
                    Some(cols) => !(1 <= ordinal <= cols.len()) && e@
                        == ErrorModel::InvalidPosition,
                },
            },
    {
        match &self.columns {
            None => Err(Error::NoTupleTable),
            Some(cols) => {
                if 1 <= ordinal && ordinal <= cols.len() {
                    Ok(cols[ordinal - 1].name.clone())
                } else {
                    Err(Error::InvalidPosition)
                }
            },
        }
    }

    /// The type OID of the column at the 1-based `ordinal`.
    pub fn column_type(&self, ordinal: usize) -> (r: Result<u32, Error>)
        ensures
            match r {
                Ok(oid) => self@.columns matches Some(cols) && 1 <= ordinal <= cols.len()
                    && oid == cols[ordinal - 1].oid,
                Err(e) => match self@.columns {
                    None => e@ == ErrorModel::NoTupleTable,
                    Some(cols) => !(1 <= ordinal <= cols.len()) && e@
                        == ErrorModel::InvalidPosition,
                },
            },
    {
        match &self.columns {
            None => Err(Error::NoTupleTable),
            Some(cols) => {
                if 1 <= ordinal && ordinal <= cols.len() {
                    Ok(cols[ordinal - 1].type_oid)
                } else {
                    Err(Error::InvalidPosition)
                }
            },
        }
    }

    /// The first row, without advancing any cursor. [`Error::NoTupleTable`]
    /// when no tuple table was produced, [`Error::InvalidPosition`] when the
    /// tuple table is empty.
    pub fn first(&self) -> (r: Result<Row<'_>, Error>)
        ensures
            match r {
                Ok(row) => self@.columns is Some && self@.rows.len() >= 1 && row.rs_model()
                    == self@ && row.index_spec() == 0,
                Err(e) => match self@.columns {
                    None => e@ == ErrorModel::NoTupleTable,
                    Some(_) => self@.rows.len() == 0 && e@ == ErrorModel::InvalidPosition,
                },
            },
    {
        self.row_at(1)
    }

    /// The row at the 1-based index `number`.
    pub fn row_at(&self, number: usize) -> (r: Result<Row<'_>, Error>)
        ensures
            match r {
                Ok(row) => self@.columns is Some && 1 <= number <= self@.rows.len()
                    && row.rs_model() == self@ && row.index_spec() == number - 1,
                Err(e) => match self@.columns {
                    None => e@ == ErrorModel::NoTupleTable,
                    Some(_) => !(1 <= number <= self@.rows.len()) && e@
                        == ErrorModel::InvalidPosition,
                },
            },
    {
        match &self.columns {
            None => Err(Error::NoTupleTable),
            Some(_) => {
                if 1 <= number && number <= self.rows.len() {
                    Ok(Row { rs: self, index: number - 1 })
                } else {
                    Err(Error::InvalidPosition)
                }
            },
        }
    }

    /// The value of the 1-based `ordinal` in the first row, decoded as `T`.
    pub fn get<T: FromDatum>(&self, ordinal: usize) -> (r: Result<Option<T>, Error>)
        ensures
            crate::error::res_model(r) == spec_get::<T>(self@, 0, ordinal as int),
    {
        match self.first() {
            Err(e) => Err(e),
            Ok(row) => row.get(ordinal),
        }
    }

    /// The first row's two values decoded as a pair, requiring the tuple
    /// table to have exactly two columns.
    pub fn get_two<A: FromDatum, B: FromDatum>(&self) -> (r: Result<
        (Option<A>, Option<B>),
        Error,
    >)
        ensures
            match r {
                Ok((a, b)) => self@.columns matches Some(cols) && cols.len() == 2
                    && spec_get::<A>(self@, 0, 1) == Ok::<Option<A>, ErrorModel>(a)
                    && spec_get::<B>(self@, 0, 2) == Ok::<Option<B>, ErrorModel>(b),
                Err(e) => (match self@.columns {
                    None => e@ == ErrorModel::NoTupleTable,
                    Some(cols) => (cols.len() != 2 && e@ == (ErrorModel::ArgumentMismatch {
                        expected: 2,
                        got: cols.len(),
                    })) || (cols.len() == 2 && (spec_get::<A>(self@, 0, 1) == Err::<
                        Option<A>,
                        ErrorModel,
                    >(e@) || spec_get::<B>(self@, 0, 2) == Err::<Option<B>, ErrorModel>(e@))),
                }),
            },
    {
        let n = match self.column_count() {
            Ok(n) => n,
            Err(e) => {
                return Err(e);
            },
        };
        if n != 2 {
            return Err(Error::ArgumentMismatch { expected: 2, got: n });
        }
        let a = match self.get::<A>(1) {
            Ok(a) => a,
            Err(e) => {
                return Err(e);
            },
        };
        let b = match self.get::<B>(2) {
            Ok(b) => b,
            Err(e) => {
                return Err(e);
            },
        };
        Ok((a, b))
    }

    /// The first row's three values decoded as a triple, requiring the tuple
    /// table to have exactly three columns.
    pub fn get_three<A: FromDatum, B: FromDatum, C: FromDatum>(&self) -> (r: Result<
        (Option<A>, Option<B>, Option<C>),
        Error,
    >)
        ensures
            match r {
                Ok((a, b, c)) => self@.columns matches Some(cols) && cols.len() == 3
                    && spec_get::<A>(self@, 0, 1) == Ok::<Option<A>, ErrorModel>(a)
                    && spec_get::<B>(self@, 0, 2) == Ok::<Option<B>, ErrorModel>(b)
                    && spec_get::<C>(self@, 0, 3) == Ok::<Option<C>, ErrorModel>(c),
                Err(e) => (match self@.columns {
                    None => e@ == ErrorModel::NoTupleTable,
                    Some(cols) => (cols.len() != 3 && e@ == (ErrorModel::ArgumentMismatch {
                        expected: 3,
                        got: cols.len(),
                    })) || (cols.len() == 3 && (spec_get::<A>(self@, 0, 1) == Err::<
                        Option<A>,
                        ErrorModel,
                    >(e@) || spec_get::<B>(self@, 0, 2) == Err::<Option<B>, ErrorModel>(e@)
                        || spec_get::<C>(self@, 0, 3) == Err::<Option<C>, ErrorModel>(e@))),
                }),
            },
    {
        let n = match self.column_count() {
            Ok(n) => n,
            Err(e) => {
                return Err(e);
            },
        };
        if n != 3 {
            return Err(Error::ArgumentMismatch { expected: 3, got: n });
        }
        let a = match self.get::<A>(1) {
            Ok(a) => a,
            Err(e) => {
                return Err(e);
            },
        };
        let b = match self.get::<B>(2) {
            Ok(b) => b,
            Err(e) => {
                return Err(e);
            },
        };
        let c = match self.get::<C>(3) {
            Ok(c) => c,
            Err(e) => {
                return Err(e);
            },
        };
        Ok((a, b, c))
    }
}

/// Copy a column list, descriptor by descriptor.
pub(crate) fn clone_columns(v: &Vec<ColumnDesc>) -> (r: Vec<ColumnDesc>)
    ensures
        r@.map_values(|c: ColumnDesc| c@) == v@.map_values(|c: ColumnDesc| c@),
{
    let mut r: Vec<ColumnDesc> = Vec::new();
    let mut i: usize = 0;
    while i < v.len()
        invariant
            0 <= i <= v@.len(),
            r@.map_values(|c: ColumnDesc| c@) =~~= v@.take(i as int).map_values(
                |c: ColumnDesc| c@,
            ),
        decreases v@.len() - i,
    {
        let ghost r0 = r@;
        let c = ColumnDesc { name: v[i].name.clone(), type_oid: v[i].type_oid };
        r.push(c);
        proof {
            let f = |c: ColumnDesc| c@;
            crate::engine::lemma_map_push(r0, f, c);
            assert(v@.take(i + 1) =~= v@.take(i as int).push(v@[i as int]));
            crate::engine::lemma_map_push(v@.take(i as int), f, v@[i as int]);
            assert(f(c) == f(v@[i as int]));
            assert(r@.map_values(f) =~= v@.take(i + 1).map_values(f));
        }
        i += 1;
    }
    proof {
        assert(v@.take(v@.len() as int) =~= v@);
    }
    r
}

impl<'a> Row<'a> {
    /// The model of the result set this row belongs to.
    pub closed spec fn rs_model(self) -> RsModel {
        self.rs@
    }

    /// The 0-based index of this row.
    pub closed spec fn index_spec(self) -> int {
        self.index as int
    }

    /// The value at the 1-based `ordinal` of this row, decoded as `T`.
    pub fn get<T: FromDatum>(&self, ordinal: usize) -> (r: Result<Option<T>, Error>)
        ensures
            crate::error::res_model(r) == spec_get::<T>(
                self.rs_model(),
                self.index_spec(),
                ordinal as int,
            ),
    {
        match &self.rs.columns {
            None => Err(Error::NoTupleTable),
            Some(cols) => {
                if self.index >= self.rs.rows.len() {
                    Err(Error::InvalidPosition)
                } else if !(1 <= ordinal && ordinal <= cols.len()) {
                    Err(Error::InvalidPosition)
                } else {
                    let row = &self.rs.rows[self.index];
                    if ordinal - 1 >= row.len() {
                        // A malformed row is positionally unaddressable.
                        Err(Error::InvalidPosition)
                    } else {
                        T::from_datum(&row[ordinal - 1])
                    }
                }
            },
        }
    }
}

} // verus!
