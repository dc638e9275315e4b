//! Selectors: a query together with the type of what it yields.

use vstd::prelude::*;
use core::marker::PhantomData;
use crate::adapter::{adapter_refusal, carried, fresh, requested, AdapterOp, ColumnFacade, SqlAdapter, SqlAdapterCursor, SqlColumnIter, SqlSelectIter};
use crate::error::SqlError;
use crate::record::Table;

verus! {

/// A query that yields records of `T`. Its view is the text of the query.
pub struct TableSelector<T> {
    query: &'static str,
    marker: PhantomData<T>,
}

impl<T> View for TableSelector<T> {
    type V = Seq<char>;

    closed spec fn view(&self) -> Seq<char> {
        self.query@
    }
}

/// Returns the selector of the records of `T` that `query` yields.
pub fn table_selector<T>(query: &'static str) -> (selector: TableSelector<T>)
    ensures
        selector@ == query@,
{
    TableSelector { query, marker: PhantomData }
}

impl<T: Table> TableSelector<T> {
    /// Returns the text of the query.
    pub fn query(&self) -> (query: &str)
        ensures
            query@ == self@,
    {
        self.query
    }

    /// Prepares the query on `db` and returns the sequence of the records
    /// that it yields. The query is handed to the engine once; the call
    /// fails if and only if the engine refuses it, and then with the
    /// engine's own text.
    pub fn fetch<A: SqlAdapter>(&self, db: &mut A) -> (outcome: Result<SqlSelectIter<T, A::Cursor>, SqlError>)
        ensures
            requested(old(db).requests(), final(db).requests(), AdapterOp::Prepare(self@)),
            carried(old(db).log(), final(db).log(), final(db).requests().last()),
            outcome is Ok <==> final(db).requests().last().failure is None,
            adapter_refusal(outcome) == final(db).requests().last().failure,
            outcome matches Ok(iter) ==> iter.wf() && !iter.ended() && fresh(
                iter@.exchanges(),
                iter@.history(),
                iter@.row(),
            ),
    {
        db.select_table::<T>(self.query)
    }
}

/// A query that yields projections `T`. Its view is the text of the query.
pub struct ColumnSelector<T> {
    query: &'static str,
    marker: PhantomData<T>,
}

impl<T> View for ColumnSelector<T> {
    type V = Seq<char>;

    closed spec fn view(&self) -> Seq<char> {
        self.query@
    }
}

/// Returns the selector of the projections `T` that `query` yields. The
/// second argument only names `T`.
pub fn column_selector<T: ColumnFacade>(query: &'static str, _marker: Option<T>) -> (selector: ColumnSelector<T>)
    ensures
        selector@ == query@,
{
    ColumnSelector { query, marker: PhantomData }
}

impl<T: ColumnFacade> ColumnSelector<T> {
    /// Returns the text of the query.
    pub fn query(&self) -> (query: &str)
        ensures
            query@ == self@,
    {
        self.query
    }

    /// Prepares the query on `db` and returns the sequence of the
    /// projections that it yields. The query is handed to the engine once;
    /// the call fails if and only if the engine refuses it, and then with
    /// the engine's own text.
    pub fn fetch<A: SqlAdapter>(&self, db: &mut A) -> (outcome: Result<SqlColumnIter<T, A::Cursor>, SqlError>)
        ensures
            requested(old(db).requests(), final(db).requests(), AdapterOp::Prepare(self@)),
            carried(old(db).log(), final(db).log(), final(db).requests().last()),
            outcome is Ok <==> final(db).requests().last().failure is None,
            adapter_refusal(outcome) == final(db).requests().last().failure,
            outcome matches Ok(iter) ==> !iter.ended() && fresh(
                iter@.exchanges(),
                iter@.history(),
                iter@.row(),
            ),
    {
        db.select_columns::<T>(self.query)
    }
}

} // verus!
