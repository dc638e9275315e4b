//! What a store driver has to offer, and the cursor and the connection that
//! the library builds on it.

use vstd::prelude::*;
use crate::adapter::{answer, carried, cell_tag, fresh, handed, recorded, refusal, requested, row_tags, run_outcome, tried, AdapterOp, CellModel, ColumnFacade, CursorOp, Exchange, Request, SqlAdapter, SqlAdapterCursor, SqlColumnIter, SqlSelectIter};
use crate::error::{AdapterError, ColumnTag, CursorError, InsertError, SqlError};
use crate::record::{insert_ops, insert_records, record_values, Table};
use crate::types::{PrimitiveKind, Real, SqlValue};

verus! {

/// The status that a store driver reports for one call.
#[derive(Clone, Copy, Debug, PartialEq, Eq, Structural)]
pub enum ResultCode {
    /// The call succeeded.
    Success,
    /// A step made a row available.
    Row,
    /// A step found the statement entirely evaluated.
    Done,
    /// Any other status, by its number.
    Other(i64),
}

/// One column of a row, as a driver holds it.
#[derive(Clone, Debug, PartialEq, Eq)]
pub enum Cell {
    Null,
    Integer(i64),
    Real(Real),
    Text(String),
    Blob,
}

impl View for Cell {
    type V = CellModel;

    open spec fn view(&self) -> CellModel {
        match *self {
            Cell::Null => CellModel::Null,
            Cell::Integer(v) => CellModel::Integer(v),
            Cell::Real(r) => CellModel::Real(r.bits),
            Cell::Text(s) => CellModel::Text(s@),
            Cell::Blob => CellModel::Blob,
        }
    }
}

/// The number of a status: 0 for success, 100 for a row, 101 for the end of
/// the rows, and else the number that the driver gave.
pub open spec fn code_number(code: ResultCode) -> i64 {
    match code {
        ResultCode::Success => 0,
        ResultCode::Row => 100,
        ResultCode::Done => 101,
        ResultCode::Other(number) => number,
    }
}

impl ResultCode {
    /// Returns the number of this status.
    pub fn number(self) -> (number: i64)
        ensures
            number == code_number(self),
    {
        match self {
            ResultCode::Success => 0,
            ResultCode::Row => 100,
            ResultCode::Done => 101,
            ResultCode::Other(number) => number,
        }
    }
}

/// What a status means for a bind or a reset: success, or a protocol failure
/// that carries the number of the status.
pub open spec fn status_outcome(code: ResultCode) -> Result<(), CursorError> {
    match code {
        ResultCode::Success => Ok(()),
        other => Err(CursorError::Protocol { code: code_number(other) }),
    }
}

/// What a status means for a step: a row, the end of the rows, or a protocol
/// failure that carries the number of the status.
pub open spec fn step_outcome(code: ResultCode) -> Result<bool, CursorError> {
    match code {
        ResultCode::Row => Ok(true),
        ResultCode::Done => Ok(false),
        other => Err(CursorError::Protocol { code: code_number(other) }),
    }
}

/// Decodes the status of a bind or a reset.
pub fn check_status(code: ResultCode) -> (outcome: Result<(), CursorError>)
    ensures
        outcome == status_outcome(code),
{
    match code {
        ResultCode::Success => Ok(()),
        other => Err(CursorError::Protocol { code: other.number() }),
    }
}

/// Decodes the status of a step.
pub fn check_step(code: ResultCode) -> (outcome: Result<bool, CursorError>)
    ensures
        outcome == step_outcome(code),
{
    match code {
        ResultCode::Row => Ok(true),
        ResultCode::Done => Ok(false),
        other => Err(CursorError::Protocol { code: other.number() }),
    }
}

/// What a store driver offers for one prepared statement. Nothing is assumed
/// of an implementation: whatever it answers, the cursor built on it keeps
/// its contract.
pub trait DriverCursor {
    /// Binds `value` to the parameter at the 1-based `idx`.
    fn bind_param(&mut self, idx: usize, value: &SqlValue) -> ResultCode;

    /// Returns the number of columns of the current row.
    fn get_column_count(&self) -> usize;

    /// Returns the type tag of the column at the 0-based `idx`.
    fn get_column_type(&self, idx: usize) -> ColumnTag;

    /// Returns the column at `idx` as an integer.
    fn get_int(&self, idx: usize) -> i64;

    /// Returns the column at `idx` as a text.
    fn get_text(&self, idx: usize) -> String;

    /// Returns the column at `idx` as a real number.
    fn get_f64(&self, idx: usize) -> Real;

    /// Evaluates the statement up to its next row or its end.
    fn step(&mut self) -> ResultCode;

    /// Resets the statement for reuse.
    fn reset(&mut self) -> ResultCode;
}

/// The models of a list of cells.
pub open spec fn cell_models(cells: Seq<Cell>) -> Seq<CellModel> {
    cells.map_values(|cell: Cell| cell@)
}

/// A cursor over a driver's prepared statement. It decodes the driver's
/// statuses, holds the current row, and checks the type tag of every column
/// that is read.
pub struct Cursor<S: DriverCursor> {
    raw: S,
    cells: Vec<Cell>,
    tags: Ghost<Seq<ColumnTag>>,
    asked: Ghost<Seq<Exchange>>,
    accepted: Ghost<Seq<CursorOp>>,
}

impl<S: DriverCursor> Cursor<S> {
    /// Wraps a statement that was just prepared: nothing is bound, and there
    /// is no current row.
    pub fn new(raw: S) -> (cursor: Self)
        ensures
            cursor.exchanges() == Seq::<Exchange>::empty(),
            cursor.history() == Seq::<CursorOp>::empty(),
            cursor.row() == Seq::<CellModel>::empty(),
    {
        let cursor = Cursor {
            raw,
            cells: Vec::new(),
            tags: Ghost(Seq::empty()),
            asked: Ghost(Seq::empty()),
            accepted: Ghost(Seq::empty()),
        };
        assert(cell_models(cursor.cells@) =~= Seq::empty());
        cursor
    }

    /// Hands `value` to the driver for the parameter at `idx`, and records
    /// the bind when the driver reports success.
    fn bind(&mut self, idx: usize, value: &SqlValue) -> (outcome: Result<(), CursorError>)
        ensures
            final(self).row() == old(self).row(),
            handed(
                old(self).exchanges(),
                final(self).exchanges(),
                (CursorOp::Bind { position: idx, value: value@ }),
            ),
            outcome == status_outcome(answer(final(self).exchanges())),
            recorded(
                old(self).history(),
                final(self).history(),
                (CursorOp::Bind { position: idx, value: value@ }),
                outcome is Ok,
            ),
    {
        let status = self.raw.bind_param(idx, value);
        proof {
            let op = CursorOp::Bind { position: idx, value: value@ };
            assert(self.asked@.push(Exchange { op, status }).drop_last() =~= self.asked@);
        }
        self.asked = Ghost(
            self.asked@.push(Exchange { op: CursorOp::Bind { position: idx, value: value@ }, status }),
        );
        match check_status(status) {
            Ok(()) => {
                self.accepted = Ghost(self.accepted@.push(CursorOp::Bind { position: idx, value: value@ }));
                Ok(())
            },
            Err(e) => Err(e),
        }
    }

    /// Asks the driver for the type tag of the column at `idx` and then for
    /// its value by the getter of that tag: the cell has the tag that the
    /// driver reported, whatever the tag is.
    fn column(raw: &S, idx: usize) -> (reading: (ColumnTag, Cell))
        ensures
            cell_tag(reading.1@) == reading.0,
    {
        let tag = raw.get_column_type(idx);
        let cell = match tag {
            ColumnTag::Integer => Cell::Integer(raw.get_int(idx)),
            ColumnTag::Float => Cell::Real(raw.get_f64(idx)),
            ColumnTag::Text => Cell::Text(raw.get_text(idx)),
            ColumnTag::Blob => Cell::Blob,
            ColumnTag::Null => Cell::Null,
        };
        (tag, cell)
    }

    /// Returns the cell at `idx` of the current row, if the row has one.
    fn cell(&self, idx: usize) -> (cell: Option<&Cell>)
        ensures
            match cell {
                Some(c) => idx < self.row().len() && c@ == self.row()[idx as int],
                None => idx >= self.row().len(),
            },
    {
        if idx < self.cells.len() {
            Some(&self.cells[idx])
        } else {
            None
        }
    }
}

impl<S: DriverCursor> SqlAdapterCursor for Cursor<S> {
    closed spec fn exchanges(&self) -> Seq<Exchange> {
        self.asked@
    }

    closed spec fn history(&self) -> Seq<CursorOp> {
        self.accepted@
    }

    closed spec fn row(&self) -> Seq<CellModel> {
        cell_models(self.cells@)
    }

    closed spec fn reported_tags(&self) -> Seq<ColumnTag> {
        self.tags@
    }

    fn bind_null(&mut self, idx: usize) -> (outcome: Result<(), CursorError>) {
        self.bind(idx, &SqlValue::Null)
    }

    fn bind_int(&mut self, idx: usize, value: i64) -> (outcome: Result<(), CursorError>) {
        self.bind(idx, &SqlValue::Integer(value))
    }

    fn bind_str(&mut self, idx: usize, value: &str) -> (outcome: Result<(), CursorError>) {
        self.bind(idx, &SqlValue::Text(String::from_str(value)))
    }

    fn bind_f64(&mut self, idx: usize, value: Real) -> (outcome: Result<(), CursorError>) {
        self.bind(idx, &SqlValue::Real(value))
    }

    fn is_null(&self, idx: usize) -> (null: bool) {
        match self.cell(idx) {
            Some(Cell::Null) => true,
            Some(_) => false,
            None => true,
        }
    }

    fn get_prim_int(&self, idx: usize) -> (outcome: Result<i64, CursorError>) {
        match self.cell(idx) {
            Some(Cell::Integer(v)) => Ok(*v),
            Some(other) => Err(
                CursorError::TypeMismatch {
                    expected: PrimitiveKind::Integer,
                    actual: other.tag(),
                    position: idx,
                },
            ),
            None => Err(
                CursorError::TypeMismatch {
                    expected: PrimitiveKind::Integer,
                    actual: ColumnTag::Null,
                    position: idx,
                },
            ),
        }
    }

    fn get_prim_str(&self, idx: usize) -> (outcome: Result<String, CursorError>) {
        match self.cell(idx) {
            Some(Cell::Text(s)) => Ok(s.clone()),
            Some(other) => Err(
                CursorError::TypeMismatch {
                    expected: PrimitiveKind::Text,
                    actual: other.tag(),
                    position: idx,
                },
            ),
            None => Err(
                CursorError::TypeMismatch {
                    expected: PrimitiveKind::Text,
                    actual: ColumnTag::Null,
                    position: idx,
                },
            ),
        }
    }

    fn get_prim_f64(&self, idx: usize) -> (outcome: Result<Real, CursorError>) {
        match self.cell(idx) {
            Some(Cell::Real(r)) => Ok(*r),
            Some(other) => Err(
                CursorError::TypeMismatch {
                    expected: PrimitiveKind::Real,
                    actual: other.tag(),
                    position: idx,
                },
            ),
            None => Err(
                CursorError::TypeMismatch {
                    expected: PrimitiveKind::Real,
                    actual: ColumnTag::Null,
                    position: idx,
                },
            ),
        }
    }

    fn fetch_row(&mut self) -> (outcome: Result<bool, CursorError>) {
        let status = self.raw.step();
        proof {
            assert(self.asked@.push(Exchange { op: CursorOp::Step, status }).drop_last() =~= self.asked@);
        }
        self.asked = Ghost(self.asked@.push(Exchange { op: CursorOp::Step, status }));
        match check_step(status) {
            Ok(true) => {
                let count = self.raw.get_column_count();
                let mut cells: Vec<Cell> = Vec::new();
                let ghost mut tags: Seq<ColumnTag> = Seq::empty();
                let mut i: usize = 0;
                while i < count
                    invariant
                        i <= count,
                        cells.len() == i,
                        tags.len() == i,
                        forall|j: int| 0 <= j < i ==> cell_tag(#[trigger] cells[j]@) == tags[j],
                    decreases count - i,
                {
                    let (tag, cell) = Self::column(&self.raw, i);
                    proof {
                        tags = tags.push(tag);
                    }
                    cells.push(cell);
                    i = i + 1;
                }
                assert(row_tags(cell_models(cells@)) =~= tags);
                self.cells = cells;
                self.tags = Ghost(tags);
                self.accepted = Ghost(self.accepted@.push(CursorOp::Step));
                Ok(true)
            },
            Ok(false) => {
                self.cells = Vec::new();
                self.accepted = Ghost(self.accepted@.push(CursorOp::Step));
                Ok(false)
            },
            Err(e) => Err(e),
        }
    }

    fn reset(&mut self) -> (outcome: Result<(), CursorError>) {
        let status = self.raw.reset();
        proof {
            assert(self.asked@.push(Exchange { op: CursorOp::Reset, status }).drop_last() =~= self.asked@);
        }
        self.asked = Ghost(self.asked@.push(Exchange { op: CursorOp::Reset, status }));
        match check_status(status) {
            Ok(()) => {
                self.cells = Vec::new();
                self.accepted = Ghost(self.accepted@.push(CursorOp::Reset));
                Ok(())
            },
            Err(e) => Err(e),
        }
    }
}

impl Cell {
    /// Returns the type tag of this cell.
    pub fn tag(&self) -> (tag: ColumnTag)
        ensures
            tag == cell_tag(self@),
    {
        match self {
            Cell::Null => ColumnTag::Null,
            Cell::Integer(_) => ColumnTag::Integer,
            Cell::Real(_) => ColumnTag::Float,
            Cell::Text(_) => ColumnTag::Text,
            Cell::Blob => ColumnTag::Blob,
        }
    }
}

/// What a store driver offers for one connection. Nothing is assumed of an
/// implementation.
pub trait StoreDriver {
    /// The prepared statements of this driver.
    type Statement: DriverCursor;

    /// Executes `sql`.
    fn exec(&mut self, sql: &str) -> ResultCode;

    /// Prepares `sql`, or reports the status of the failure.
    fn prepare(&mut self, sql: &str) -> Result<Self::Statement, ResultCode>;

    /// Returns the engine's text for the last failure.
    fn get_errmsg(&self) -> String;
}

/// A connection over a store driver. It decodes the driver's statuses and
/// surfaces a failure with the engine's own text.
pub struct Database<D: StoreDriver> {
    raw: D,
    asked: Ghost<Seq<Request>>,
    done: Ghost<Seq<AdapterOp>>,
}

impl<D: StoreDriver> Database<D> {
    /// Wraps a connection on which nothing was carried out yet.
    pub fn new(raw: D) -> (db: Self)
        ensures
            db.requests() == Seq::<Request>::empty(),
            db.log() == Seq::<AdapterOp>::empty(),
    {
        Database { raw, asked: Ghost(Seq::empty()), done: Ghost(Seq::empty()) }
    }

    /// Executes `sql`: the statement is handed to the engine once. It fails
    /// if and only if the engine answers with a status other than success,
    /// and then with the engine's own text; a statement that was executed
    /// enters the log.
    pub fn execute(&mut self, sql: &str) -> (outcome: Result<(), AdapterError>)
        ensures
            requested(old(self).requests(), final(self).requests(), AdapterOp::Execute(sql@)),
            carried(old(self).log(), final(self).log(), final(self).requests().last()),
            outcome is Ok <==> status_outcome(final(self).requests().last().status) is Ok,
            refusal(outcome) == final(self).requests().last().failure,
    {
        let ghost op = AdapterOp::Execute(sql@);
        let status = self.raw.exec(sql);
        match check_status(status) {
            Ok(()) => {
                proof {
                    assert(self.asked@.push(Request { op, status, failure: None }).drop_last()
                        =~= self.asked@);
                }
                self.asked = Ghost(self.asked@.push(Request { op, status, failure: None }));
                self.done = Ghost(self.done@.push(op));
                Ok(())
            },
            Err(_) => {
                let message = self.raw.get_errmsg();
                proof {
                    assert(self.asked@.push(Request { op, status, failure: Some(message@) }).drop_last()
                        =~= self.asked@);
                }
                self.asked = Ghost(self.asked@.push(Request { op, status, failure: Some(message@) }));
                Err(AdapterError { message })
            },
        }
    }

    /// Prepares `sql` without a trace in the log: the caller records what
    /// became of the statement. The statement is handed to the engine once;
    /// this fails if and only if the engine refuses it, and then with the
    /// engine's own text. The cursor that comes back has had no exchange
    /// with the engine, has nothing bound and has no current row.
    fn open(&mut self, sql: &str) -> (outcome: Result<Cursor<D::Statement>, AdapterError>)
        ensures
            requested(old(self).requests(), final(self).requests(), AdapterOp::Prepare(sql@)),
            refusal(outcome) == final(self).requests().last().failure,
            outcome is Ok ==> final(self).requests().last().status == ResultCode::Success,
            final(self).log() == old(self).log(),
            outcome matches Ok(cursor) ==> fresh(cursor.exchanges(), cursor.history(), cursor.row()),
    {
        let ghost op = AdapterOp::Prepare(sql@);
        match self.raw.prepare(sql) {
            Ok(statement) => {
                let ghost request = Request { op, status: ResultCode::Success, failure: None };
                proof {
                    assert(self.asked@.push(request).drop_last() =~= self.asked@);
                }
                self.asked = Ghost(self.asked@.push(request));
                Ok(Cursor::new(statement))
            },
            Err(status) => {
                let message = self.raw.get_errmsg();
                let ghost request = Request { op, status, failure: Some(message@) };
                proof {
                    assert(self.asked@.push(request).drop_last() =~= self.asked@);
                }
                self.asked = Ghost(self.asked@.push(request));
                Err(AdapterError { message })
            },
        }
    }

    /// Prepares `sql`: the statement is handed to the engine once. It fails
    /// if and only if the engine refuses the statement, and then with the
    /// engine's own text; a statement that was prepared enters the log. The
    /// cursor that comes back has had no exchange with the engine, has
    /// nothing bound and has no current row.
    pub fn prepare(&mut self, sql: &str) -> (outcome: Result<Cursor<D::Statement>, AdapterError>)
        ensures
            requested(old(self).requests(), final(self).requests(), AdapterOp::Prepare(sql@)),
            carried(old(self).log(), final(self).log(), final(self).requests().last()),
            refusal(outcome) == final(self).requests().last().failure,
            outcome is Ok ==> final(self).requests().last().status == ResultCode::Success,
            outcome matches Ok(cursor) ==> fresh(cursor.exchanges(), cursor.history(), cursor.row()),
    {
        match self.open(sql) {
            Ok(cursor) => {
                self.done = Ghost(self.done@.push(AdapterOp::Prepare(sql@)));
                Ok(cursor)
            },
            Err(e) => Err(e),
        }
    }
}

impl<D: StoreDriver> SqlAdapter for Database<D> {
    type Cursor = Cursor<D::Statement>;

    closed spec fn requests(&self) -> Seq<Request> {
        self.asked@
    }

    closed spec fn log(&self) -> Seq<AdapterOp> {
        self.done@
    }

    fn create_table_if_not_exists<T: Table>(&mut self) -> (outcome: Result<(), SqlError>) {
        let query = crate::record::create_table_query::<T>();
        match self.execute(query.as_str()) {
            Ok(()) => Ok(()),
            Err(e) => Err(SqlError::Adapter(e)),
        }
    }

    fn insert_many<T: Table>(&mut self, records: &Vec<T>) -> (outcome: Result<(), SqlError>) {
        let query = crate::record::insert_query::<T>();
        match self.open(query.as_str()) {
            Err(e) => Err(SqlError::Adapter(e)),
            Ok(cursor) => {
                let mut cursor = cursor;
                let inserted = insert_records(&mut cursor, records);
                let ghost exchanges = cursor.exchanges();
                let ghost ops = insert_ops(record_values(records@));
                proof {
                    assert(exchanges.skip(0) =~= exchanges);
                    assert(tried(exchanges, ops, run_outcome(exchanges)));
                    assert(self.done@.push(
                        AdapterOp::Insert { statement: query@, exchanges, failure: None },
                    ).drop_last() =~= self.done@);
                }
                match inserted {
                    Ok(()) => {
                        self.done = Ghost(
                            self.done@.push(AdapterOp::Insert { statement: query@, exchanges, failure: None }),
                        );
                        Ok(())
                    },
                    Err(InsertError::Step(_)) => {
                        let message = self.raw.get_errmsg();
                        proof {
                            assert(self.done@.push(
                                AdapterOp::Insert { statement: query@, exchanges, failure: Some(message@) },
                            ).drop_last() =~= self.done@);
                        }
                        self.done = Ghost(
                            self.done@.push(
                                AdapterOp::Insert { statement: query@, exchanges, failure: Some(message@) },
                            ),
                        );
                        Err(SqlError::Adapter(AdapterError { message }))
                    },
                    Err(failure) => {
                        self.done = Ghost(
                            self.done@.push(AdapterOp::Insert { statement: query@, exchanges, failure: None }),
                        );
                        Err(SqlError::Cursor(failure.error()))
                    },
                }
            },
        }
    }

    fn select_table<T: Table>(&mut self, query: &str) -> (outcome: Result<SqlSelectIter<T, Cursor<D::Statement>>, SqlError>) {
        match self.prepare(query) {
            Err(e) => Err(SqlError::Adapter(e)),
            Ok(cursor) => Ok(SqlSelectIter::new(cursor)),
        }
    }

    fn select_columns<T: ColumnFacade>(&mut self, query: &str) -> (outcome: Result<SqlColumnIter<T, Cursor<D::Statement>>, SqlError>) {
        match self.prepare(query) {
            Err(e) => Err(SqlError::Adapter(e)),
            Ok(cursor) => Ok(SqlColumnIter::new(cursor)),
        }
    }

    fn select_all<T: Table>(&mut self) -> (outcome: Result<SqlSelectIter<T, Cursor<D::Statement>>, SqlError>) {
        let query = crate::record::select_query::<T>();
        self.select_table::<T>(query.as_str())
    }
}

} // verus!
