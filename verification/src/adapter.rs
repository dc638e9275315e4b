//! The contracts of cursors and connections, and the sequences of records
//! and projections that a statement yields.

use vstd::prelude::*;
use core::marker::PhantomData;
use crate::column::{lemma_read_one, lemma_read_two, read_columns, SqlType};
use crate::descriptor::TableDescriptor;
use crate::driver::{code_number, status_outcome, step_outcome, ResultCode};
use crate::error::{AdapterError, ColumnTag, CursorError, SqlError, SqlErrorModel};
use crate::record::{insert_ops, read_row, read_values, record_values, Table};
use crate::schema::{create_table_statement, insert_statement, select_all_statement};
use crate::types::{ColumnType, PrimitiveKind, Real, ValueModel};

verus! {

/// The model of one column of a result row.
pub enum CellModel {
    Null,
    Integer(i64),
    Real(u64),
    Text(Seq<char>),
    Blob,
}

/// An operation that a cursor has accepted.
pub enum CursorOp {
    /// A value was bound to the parameter at a 1-based position.
    Bind { position: usize, value: ValueModel },
    /// The statement was stepped once.
    Step,
    /// The statement was reset for reuse.
    Reset,
}

/// The type tag of a cell.
pub open spec fn cell_tag(cell: CellModel) -> ColumnTag {
    match cell {
        CellModel::Null => ColumnTag::Null,
        CellModel::Integer(_) => ColumnTag::Integer,
        CellModel::Real(_) => ColumnTag::Float,
        CellModel::Text(_) => ColumnTag::Text,
        CellModel::Blob => ColumnTag::Blob,
    }
}

/// The cell at the 0-based `position` of `row`; a position beyond the row
/// reads as SQL NULL.
pub open spec fn cell_at(row: Seq<CellModel>, position: int) -> CellModel {
    if 0 <= position < row.len() {
        row[position]
    } else {
        CellModel::Null
    }
}

/// The type tags of the cells of a row, in order.
pub open spec fn row_tags(row: Seq<CellModel>) -> Seq<ColumnTag> {
    row.map_values(|cell: CellModel| cell_tag(cell))
}

/// The failure that reading `cell` at `position` as `expected` gives.
pub open spec fn mismatch(expected: PrimitiveKind, cell: CellModel, position: usize) -> CursorError {
    CursorError::TypeMismatch { expected, actual: cell_tag(cell), position }
}

/// How a history stands after the cursor was handed `op`: the operation
/// enters the history if and only if it was accepted.
pub open spec fn recorded(before: Seq<CursorOp>, after: Seq<CursorOp>, op: CursorOp, accepted: bool) -> bool {
    after == if accepted {
        before.push(op)
    } else {
        before
    }
}

/// An operation that a cursor has handed to the engine, with the status
/// that the engine answered.
pub struct Exchange {
    pub op: CursorOp,
    pub status: ResultCode,
}

/// How the exchanges stand after the cursor has handed `op` to the engine:
/// there is one more, and it is about `op`.
pub open spec fn handed(before: Seq<Exchange>, after: Seq<Exchange>, op: CursorOp) -> bool {
    &&& after.len() == before.len() + 1
    &&& after.drop_last() == before
    &&& after.last().op == op
}

/// The status that the engine answered last.
pub open spec fn answer(exchanges: Seq<Exchange>) -> ResultCode {
    exchanges.last().status
}

/// A handle to one prepared statement: positional binds before execution,
/// typed reads of the current row, and row advancement.
///
/// Parameter positions start at 1, column positions at 0. Every bind, step
/// and reset is handed to the engine exactly once, and its outcome is what
/// the engine's status means: nothing fails but what the engine rejects.
pub trait SqlAdapterCursor: Sized {
    /// The operations that this cursor has handed to the engine, each with
    /// the status that the engine answered, oldest first.
    spec fn exchanges(&self) -> Seq<Exchange>;

    /// The operations that this cursor has accepted, oldest first.
    spec fn history(&self) -> Seq<CursorOp>;

    /// The columns of the current row; empty while there is none.
    spec fn row(&self) -> Seq<CellModel>;

    /// The type tags that the engine reported for the columns of the row
    /// that the last successful step made available.
    spec fn reported_tags(&self) -> Seq<ColumnTag>;

    /// Binds SQL NULL to the parameter at `idx`.
    fn bind_null(&mut self, idx: usize) -> (outcome: Result<(), CursorError>)
        ensures
            final(self).row() == old(self).row(),
            handed(old(self).exchanges(), final(self).exchanges(), (CursorOp::Bind { position: idx, value: ValueModel::Null })),
            outcome == status_outcome(answer(final(self).exchanges())),
            recorded(
                old(self).history(),
                final(self).history(),
                (CursorOp::Bind { position: idx, value: ValueModel::Null }),
                outcome is Ok,
            ),
    ;

    /// Binds an integer to the parameter at `idx`.
    fn bind_int(&mut self, idx: usize, value: i64) -> (outcome: Result<(), CursorError>)
        ensures
            final(self).row() == old(self).row(),
            handed(old(self).exchanges(), final(self).exchanges(), (CursorOp::Bind { position: idx, value: ValueModel::Integer(value) })),
            outcome == status_outcome(answer(final(self).exchanges())),
            recorded(
                old(self).history(),
                final(self).history(),
                (CursorOp::Bind { position: idx, value: ValueModel::Integer(value) }),
                outcome is Ok,
            ),
    ;

    /// Binds a text to the parameter at `idx`.
    fn bind_str(&mut self, idx: usize, value: &str) -> (outcome: Result<(), CursorError>)
        ensures
            final(self).row() == old(self).row(),
            handed(old(self).exchanges(), final(self).exchanges(), (CursorOp::Bind { position: idx, value: ValueModel::Text(value@) })),
            outcome == status_outcome(answer(final(self).exchanges())),
            recorded(
                old(self).history(),
                final(self).history(),
                (CursorOp::Bind { position: idx, value: ValueModel::Text(value@) }),
                outcome is Ok,
            ),
    ;

    /// Binds a real number to the parameter at `idx`.
    fn bind_f64(&mut self, idx: usize, value: Real) -> (outcome: Result<(), CursorError>)
        ensures
            final(self).row() == old(self).row(),
            handed(old(self).exchanges(), final(self).exchanges(), (CursorOp::Bind { position: idx, value: ValueModel::Real(value.bits) })),
            outcome == status_outcome(answer(final(self).exchanges())),
            recorded(
                old(self).history(),
                final(self).history(),
                (CursorOp::Bind { position: idx, value: ValueModel::Real(value.bits) }),
                outcome is Ok,
            ),
    ;

    /// Tells whether the column at `idx` of the current row is SQL NULL.
    fn is_null(&self, idx: usize) -> (null: bool)
        ensures
            null == (cell_at(self.row(), idx as int) is Null),
    ;

    /// Reads the column at `idx` as an integer, or fails when it holds
    /// anything else.
    fn get_prim_int(&self, idx: usize) -> (outcome: Result<i64, CursorError>)
        ensures
            outcome == match cell_at(self.row(), idx as int) {
                CellModel::Integer(v) => Ok::<i64, CursorError>(v),
                other => Err(mismatch(PrimitiveKind::Integer, other, idx)),
            },
    ;

    /// Reads the column at `idx` as a text, or fails when it holds anything
    /// else.
    fn get_prim_str(&self, idx: usize) -> (outcome: Result<String, CursorError>)
        ensures
            match outcome {
                Ok(text) => cell_at(self.row(), idx as int) == CellModel::Text(text@),
                Err(e) => cell_at(self.row(), idx as int) !is Text && e == mismatch(
                    PrimitiveKind::Text,
                    cell_at(self.row(), idx as int),
                    idx,
                ),
            },
    ;

    /// Reads the column at `idx` as a real number, or fails when it holds
    /// anything else.
    fn get_prim_f64(&self, idx: usize) -> (outcome: Result<Real, CursorError>)
        ensures
            outcome == match cell_at(self.row(), idx as int) {
                CellModel::Real(bits) => Ok::<Real, CursorError>(Real { bits }),
                other => Err(mismatch(PrimitiveKind::Real, other, idx)),
            },
    ;

    /// Advances to the next row: `true` when a row is now available, `false`
    /// when the result set is exhausted, after which there is no current
    /// row. A step that fails leaves the current row as it is. The row that
    /// is made available has one cell for each column that the engine
    /// reported, and each cell has the tag that the engine reported for it:
    /// no column is coerced to another kind.
    fn fetch_row(&mut self) -> (outcome: Result<bool, CursorError>)
        ensures
            handed(old(self).exchanges(), final(self).exchanges(), CursorOp::Step),
            outcome == step_outcome(answer(final(self).exchanges())),
            outcome == Ok::<bool, CursorError>(true) ==> final(self).reported_tags() == row_tags(
                final(self).row(),
            ),
            recorded(old(self).history(), final(self).history(), CursorOp::Step, outcome is Ok),
            outcome == Ok::<bool, CursorError>(false) ==> final(self).row() == Seq::<CellModel>::empty(),
            outcome is Err ==> final(self).row() == old(self).row(),
    ;

    /// Resets the statement so that it can be bound and stepped again; after
    /// that there is no current row. A reset that fails leaves the current
    /// row as it is.
    fn reset(&mut self) -> (outcome: Result<(), CursorError>)
        ensures
            handed(old(self).exchanges(), final(self).exchanges(), CursorOp::Reset),
            outcome == status_outcome(answer(final(self).exchanges())),
            recorded(old(self).history(), final(self).history(), CursorOp::Reset, outcome is Ok),
            final(self).row() == if outcome is Ok {
                Seq::<CellModel>::empty()
            } else {
                old(self).row()
            },
    ;
}

/// Whether the engine accepted what an exchange handed to it.
pub open spec fn accepted(exchange: Exchange) -> bool {
    match exchange.op {
        CursorOp::Step => step_outcome(exchange.status) is Ok,
        _ => status_outcome(exchange.status) is Ok,
    }
}

/// The failure that a refused exchange means: a protocol failure with the
/// number of the status that the engine answered.
pub open spec fn refused_with(exchange: Exchange) -> CursorError {
    CursorError::Protocol { code: code_number(exchange.status) }
}

/// Whether `new` is what handing `ops` to the engine in order leaves, when
/// it stops at the first operation that the engine refuses: the exchanges
/// are about the operations in order, all but the last were accepted, and
/// `outcome` is success when every operation was handed over and accepted,
/// and else what the last answer means.
pub open spec fn tried(new: Seq<Exchange>, ops: Seq<CursorOp>, outcome: Result<(), CursorError>) -> bool {
    &&& new.len() <= ops.len()
    &&& forall|i: int| 0 <= i < new.len() ==> (#[trigger] new[i]).op == ops[i]
    &&& forall|i: int| 0 <= i < new.len() - 1 ==> accepted(#[trigger] new[i])
    &&& match outcome {
        Ok(()) => new.len() == ops.len() && (new.len() > 0 ==> accepted(new.last())),
        Err(e) => new.len() > 0 && !accepted(new.last()) && e == refused_with(new.last()),
    }
}

/// How the exchanges stand after `ops` were to be handed to the engine in
/// order: the earlier exchanges are kept, and the new ones are what `tried`
/// says.
pub open spec fn ran(before: Seq<Exchange>, after: Seq<Exchange>, ops: Seq<CursorOp>, outcome: Result<(), CursorError>) -> bool {
    &&& before.len() <= after.len()
    &&& after.take(before.len() as int) == before
    &&& tried(after.skip(before.len() as int), ops, outcome)
}

/// The outcome of a step, without what it says of the row.
pub open spec fn step_result(outcome: Result<bool, CursorError>) -> Result<(), CursorError> {
    match outcome {
        Ok(_) => Ok(()),
        Err(e) => Err(e),
    }
}

/// Handing over no operation leaves the exchanges as they are and succeeds.
pub proof fn lemma_ran_nothing(exchanges: Seq<Exchange>)
    ensures
        ran(exchanges, exchanges, Seq::<CursorOp>::empty(), Ok(())),
{
    assert(exchanges.take(exchanges.len() as int) =~= exchanges);
}

/// One bind or reset that was handed over is a run of that one operation.
pub proof fn lemma_ran_one(before: Seq<Exchange>, after: Seq<Exchange>, op: CursorOp, outcome: Result<(), CursorError>)
    requires
        handed(before, after, op),
        op !is Step,
        outcome == status_outcome(answer(after)),
    ensures
        ran(before, after, seq![op], outcome),
{
    assert(after.take(before.len() as int) =~= after.drop_last());
    let new = after.skip(before.len() as int);
    assert(new.len() == 1);
    assert(new[0] == after.last());
    assert(new.last() == after.last());
}

/// One step that was handed over is a run of that one operation.
pub proof fn lemma_ran_step(before: Seq<Exchange>, after: Seq<Exchange>, outcome: Result<bool, CursorError>)
    requires
        handed(before, after, CursorOp::Step),
        outcome == step_outcome(answer(after)),
    ensures
        ran(before, after, seq![CursorOp::Step], step_result(outcome)),
{
    assert(after.take(before.len() as int) =~= after.drop_last());
    let new = after.skip(before.len() as int);
    assert(new.len() == 1);
    assert(new[0] == after.last());
    assert(new.last() == after.last());
}

/// A run that succeeded, followed by another run, is the run of the
/// operations of both.
pub proof fn lemma_ran_compose(
    start: Seq<Exchange>,
    middle: Seq<Exchange>,
    end: Seq<Exchange>,
    first: Seq<CursorOp>,
    second: Seq<CursorOp>,
    outcome: Result<(), CursorError>,
)
    requires
        ran(start, middle, first, Ok(())),
        ran(middle, end, second, outcome),
    ensures
        ran(start, end, first + second, outcome),
{
    let head = middle.skip(start.len() as int);
    let tail = end.skip(middle.len() as int);
    let new = end.skip(start.len() as int);
    assert(end.take(start.len() as int) =~= middle.take(start.len() as int)) by {
        assert(end.take(middle.len() as int).take(start.len() as int) =~= end.take(start.len() as int));
    }
    assert(new =~= head + tail) by {
        assert forall|i: int| 0 <= i < new.len() implies new[i] == (head + tail)[i] by {
            if i < head.len() {
                assert(end.take(middle.len() as int)[start.len() + i] == middle[start.len() + i]);
            }
        }
    }
    assert(head.len() == first.len());
    assert forall|i: int| 0 <= i < new.len() implies (#[trigger] new[i]).op == (first + second)[i] by {
        if i < head.len() {
            assert(head[i].op == first[i]);
        } else {
            assert(tail[i - head.len()].op == second[i - head.len()]);
        }
    }
    assert forall|i: int| 0 <= i < new.len() - 1 implies accepted(#[trigger] new[i]) by {
        if i < head.len() {
            if i < head.len() - 1 {
                assert(accepted(head[i]));
            } else {
                assert(head[i] == head.last());
            }
        } else {
            assert(accepted(tail[i - head.len()]));
        }
    }
    if tail.len() > 0 {
        assert(new.last() == tail.last());
    } else {
        assert(new =~= head);
    }
}

/// A run that failed is also a failed run of any operations that go on
/// after those that were to be handed over.
pub proof fn lemma_ran_extend(
    before: Seq<Exchange>,
    after: Seq<Exchange>,
    ops: Seq<CursorOp>,
    all: Seq<CursorOp>,
    outcome: Result<(), CursorError>,
)
    requires
        ran(before, after, ops, outcome),
        outcome is Err,
        ops.len() <= all.len(),
        all.take(ops.len() as int) == ops,
    ensures
        ran(before, after, all, outcome),
{
    let new = after.skip(before.len() as int);
    assert forall|i: int| 0 <= i < new.len() implies (#[trigger] new[i]).op == all[i] by {
        assert(all.take(ops.len() as int)[i] == all[i]);
    }
}

/// Whether `after` is `before` with one more step.
pub open spec fn stepped(before: Seq<CursorOp>, after: Seq<CursorOp>) -> bool {
    after == before.push(CursorOp::Step)
}

/// An operation that a connection has carried out.
pub enum AdapterOp {
    /// A statement was executed.
    Execute(Seq<char>),
    /// A statement was prepared, and its cursor handed out.
    Prepare(Seq<char>),
    /// A statement was prepared once for a batch insertion; its cursor had
    /// `exchanges` with the engine before it was released, and `failure` is
    /// the engine's text where the engine refused a step.
    Insert { statement: Seq<char>, exchanges: Seq<Exchange>, failure: Option<Seq<char>> },
}

/// What a run means by its exchanges: success when nothing was handed over
/// or the last exchange was accepted, and else what the last answer means.
pub open spec fn run_outcome(exchanges: Seq<Exchange>) -> Result<(), CursorError> {
    if exchanges.len() == 0 || accepted(exchanges.last()) {
        Ok(())
    } else {
        Err(refused_with(exchanges.last()))
    }
}

/// Whether a run ended at a step that the engine refused.
pub open spec fn step_refused(exchanges: Seq<Exchange>) -> bool {
    exchanges.len() > 0 && exchanges.last().op is Step && !accepted(exchanges.last())
}

/// What a batch insertion gives by the exchanges of its cursor: success
/// when the run succeeded; where the engine refused a step, a failure of
/// the connection with the engine's own text; where it refused a bind or a
/// reset, the failure of the cursor that its answer means.
pub open spec fn insert_outcome(exchanges: Seq<Exchange>, failure: Option<Seq<char>>) -> Result<(), SqlErrorModel> {
    match run_outcome(exchanges) {
        Ok(()) => Ok(()),
        Err(e) => if exchanges.last().op is Step {
            Err(SqlErrorModel::Adapter(failure->0))
        } else {
            Err(SqlErrorModel::Cursor(e))
        },
    }
}

/// The outcome of an operation of the connection, its failure taken by its
/// model.
pub open spec fn sql_outcome(outcome: Result<(), SqlError>) -> Result<(), SqlErrorModel> {
    match outcome {
        Ok(()) => Ok(()),
        Err(e) => Err(e@),
    }
}

/// How the log stands after a batch insertion whose statement the engine
/// has prepared: there is one more entry, which is the insertion through
/// `statement`; the exchanges of its cursor are those of handing `ops` to
/// the engine in order up to and including the first refusal; the engine's
/// text is there if and only if a step was refused; and `outcome` is what
/// these exchanges give.
pub open spec fn batch_logged(
    before: Seq<AdapterOp>,
    after: Seq<AdapterOp>,
    statement: Seq<char>,
    ops: Seq<CursorOp>,
    outcome: Result<(), SqlErrorModel>,
) -> bool {
    &&& after.len() == before.len() + 1
    &&& after.drop_last() == before
    &&& after.last() matches AdapterOp::Insert { statement: prepared, exchanges, failure }
    &&& prepared == statement
    &&& tried(exchanges, ops, run_outcome(exchanges))
    &&& failure is Some <==> step_refused(exchanges)
    &&& outcome == insert_outcome(exchanges, failure)
}

/// A forward-only sequence of the records that a statement yields, read one
/// row at a time. It is finite: once the engine has answered with the end,
/// the sequence has ended and asks the engine no more. Its view is the
/// cursor that it reads from.
pub struct SqlSelectIter<T: Table, C: SqlAdapterCursor> {
    cursor: C,
    descriptor: TableDescriptor,
    finished: bool,
    marker: PhantomData<T>,
}

impl<T: Table, C: SqlAdapterCursor> View for SqlSelectIter<T, C> {
    type V = C;

    closed spec fn view(&self) -> C {
        self.cursor
    }
}

impl<T: Table, C: SqlAdapterCursor> SqlSelectIter<T, C> {
    /// Whether the sequence holds the descriptor of `T`, as every sequence
    /// that `new` has made does.
    pub closed spec fn wf(&self) -> bool {
        self.descriptor@ == T::schema_model()
    }

    /// Whether the sequence has ended: the engine has answered a step of it
    /// with the end.
    pub closed spec fn ended(&self) -> bool {
        self.finished
    }

    /// Starts the sequence on a cursor. The descriptor of `T` is derived
    /// here, once for all rows.
    pub fn new(cursor: C) -> (iter: Self)
        ensures
            iter.wf(),
            !iter.ended(),
            iter@ == cursor,
    {
        SqlSelectIter { cursor, descriptor: T::descriptor(), finished: false, marker: PhantomData }
    }

    /// Tells whether the sequence has ended.
    pub fn is_ended(&self) -> (ended: bool)
        ensures
            ended == self.ended(),
    {
        self.finished
    }

    /// Returns the cursor that the sequence reads from.
    pub fn cursor(&self) -> (cursor: &C)
        ensures
            *cursor == self@,
    {
        &self.cursor
    }

    /// Yields the next record. A sequence that has ended yields nothing and
    /// leaves its cursor untouched. Else one step is handed to the engine:
    /// when the engine answers with a row, the record read from that row is
    /// yielded, or the failure of its first bad column; when it answers with
    /// the end, nothing is yielded and the sequence has ended; any other
    /// status is the failure, and leaves no trace in the history.
    pub fn next(&mut self) -> (outcome: Result<Option<T>, CursorError>)
        requires
            old(self).wf(),
        ensures
            final(self).wf(),
            old(self).ended() ==> outcome == Ok::<Option<T>, CursorError>(None) && final(self).ended()
                && final(self)@ == old(self)@,
            !old(self).ended() ==> handed(
                old(self)@.exchanges(),
                final(self)@.exchanges(),
                CursorOp::Step,
            ) && (match step_outcome(answer(final(self)@.exchanges())) {
                Err(e) => outcome == Err::<Option<T>, CursorError>(e) && !final(self).ended()
                    && recorded(old(self)@.history(), final(self)@.history(), CursorOp::Step, false),
                Ok(false) => outcome == Ok::<Option<T>, CursorError>(None) && final(self).ended()
                    && stepped(old(self)@.history(), final(self)@.history()),
                Ok(true) => !final(self).ended() && stepped(
                    old(self)@.history(),
                    final(self)@.history(),
                ) && match outcome {
                    Ok(Some(record)) => read_row(T::schema_model().fields, final(self)@.row()) == Ok::<
                        Seq<ValueModel>,
                        CursorError,
                    >(record.values()),
                    Ok(None) => false,
                    Err(e) => read_row(T::schema_model().fields, final(self)@.row()) == Err::<
                        Seq<ValueModel>,
                        CursorError,
                    >(e),
                },
            }),
    {
        if self.finished {
            return Ok(None);
        }
        match self.cursor.fetch_row() {
            Err(e) => Err(e),
            Ok(false) => {
                self.finished = true;
                Ok(None)
            },
            Ok(true) => match read_values(&self.descriptor, &self.cursor) {
                Ok(values) => Ok(Some(T::from_values(values))),
                Err(e) => Err(e),
            },
        }
    }
}

/// A fixed-arity projection of independently typed columns: slot `i` is
/// read from column `i`.
pub trait ColumnFacade: Sized {
    /// The column types of the slots, in order.
    spec fn columns() -> Seq<ColumnType>;

    /// The values of the slots, in order.
    spec fn values(&self) -> Seq<ValueModel>;

    /// Reads the projection from the current row of `cursor`.
    fn get<C: SqlAdapterCursor>(cursor: &C) -> (outcome: Result<Self, CursorError>)
        ensures
            match outcome {
                Ok(slots) => read_columns(Self::columns(), cursor.row()) == Ok::<Seq<ValueModel>, CursorError>(
                    slots.values(),
                ),
                Err(e) => read_columns(Self::columns(), cursor.row()) == Err::<Seq<ValueModel>, CursorError>(e),
            },
    ;
}

impl<A: SqlType> ColumnFacade for (A,) {
    open spec fn columns() -> Seq<ColumnType> {
        seq![A::column()]
    }

    open spec fn values(&self) -> Seq<ValueModel> {
        seq![self.0.value()]
    }

    fn get<C: SqlAdapterCursor>(cursor: &C) -> (outcome: Result<(A,), CursorError>) {
        proof {
            lemma_read_one(A::column(), cursor.row());
        }
        match A::get_col(cursor, 0) {
            Err(e) => Err(e),
            Ok(a) => Ok((a, )),
        }
    }
}

impl<A: SqlType, B: SqlType> ColumnFacade for (A, B) {
    open spec fn columns() -> Seq<ColumnType> {
        seq![A::column(), B::column()]
    }

    open spec fn values(&self) -> Seq<ValueModel> {
        seq![self.0.value(), self.1.value()]
    }

    fn get<C: SqlAdapterCursor>(cursor: &C) -> (outcome: Result<(A, B), CursorError>) {
        proof {
            lemma_read_two(A::column(), B::column(), cursor.row());
        }
        match A::get_col(cursor, 0) {
            Err(e) => Err(e),
            Ok(a) => match B::get_col(cursor, 1) {
                Err(e) => Err(e),
                Ok(b) => Ok((a, b)),
            },
        }
    }
}

/// A forward-only sequence of the projections that a statement yields, read
/// one row at a time. It is finite: once the engine has answered with the
/// end, the sequence has ended and asks the engine no more. Its view is the
/// cursor that it reads from.
pub struct SqlColumnIter<T: ColumnFacade, C: SqlAdapterCursor> {
    cursor: C,
    finished: bool,
    marker: PhantomData<T>,
}

impl<T: ColumnFacade, C: SqlAdapterCursor> View for SqlColumnIter<T, C> {
    type V = C;

    closed spec fn view(&self) -> C {
        self.cursor
    }
}

impl<T: ColumnFacade, C: SqlAdapterCursor> SqlColumnIter<T, C> {
    /// Whether the sequence has ended: the engine has answered a step of it
    /// with the end.
    pub closed spec fn ended(&self) -> bool {
        self.finished
    }

    /// Starts the sequence on a cursor.
    pub fn new(cursor: C) -> (iter: Self)
        ensures
            !iter.ended(),
            iter@ == cursor,
    {
        SqlColumnIter { cursor, finished: false, marker: PhantomData }
    }

    /// Tells whether the sequence has ended.
    pub fn is_ended(&self) -> (ended: bool)
        ensures
            ended == self.ended(),
    {
        self.finished
    }

    /// Returns the cursor that the sequence reads from.
    pub fn cursor(&self) -> (cursor: &C)
        ensures
            *cursor == self@,
    {
        &self.cursor
    }

    /// Yields the next projection. A sequence that has ended yields nothing
    /// and leaves its cursor untouched. Else one step is handed to the
    /// engine: when the engine answers with a row, the projection read from
    /// that row is yielded, or the failure of its first bad column; when it
    /// answers with the end, nothing is yielded and the sequence has ended;
    /// any other status is the failure, and leaves no trace in the history.
    pub fn next(&mut self) -> (outcome: Result<Option<T>, CursorError>)
        ensures
            old(self).ended() ==> outcome == Ok::<Option<T>, CursorError>(None) && final(self).ended()
                && final(self)@ == old(self)@,
            !old(self).ended() ==> handed(
                old(self)@.exchanges(),
                final(self)@.exchanges(),
                CursorOp::Step,
            ) && (match step_outcome(answer(final(self)@.exchanges())) {
                Err(e) => outcome == Err::<Option<T>, CursorError>(e) && !final(self).ended()
                    && recorded(old(self)@.history(), final(self)@.history(), CursorOp::Step, false),
                Ok(false) => outcome == Ok::<Option<T>, CursorError>(None) && final(self).ended()
                    && stepped(old(self)@.history(), final(self)@.history()),
                Ok(true) => !final(self).ended() && stepped(
                    old(self)@.history(),
                    final(self)@.history(),
                ) && match outcome {
                    Ok(Some(slots)) => read_columns(T::columns(), final(self)@.row()) == Ok::<
                        Seq<ValueModel>,
                        CursorError,
                    >(slots.values()),
                    Ok(None) => false,
                    Err(e) => read_columns(T::columns(), final(self)@.row()) == Err::<
                        Seq<ValueModel>,
                        CursorError,
                    >(e),
                },
            }),
    {
        if self.finished {
            return Ok(None);
        }
        match self.cursor.fetch_row() {
            Err(e) => Err(e),
            Ok(false) => {
                self.finished = true;
                Ok(None)
            },
            Ok(true) => match T::get(&self.cursor) {
                Ok(slots) => Ok(Some(slots)),
                Err(e) => Err(e),
            },
        }
    }
}

/// A request that a connection has handed to the engine, to execute or to
/// prepare a statement: the status that the engine answered, and the text
/// that the engine gave for the failure where it refused the request.
pub struct Request {
    pub op: AdapterOp,
    pub status: ResultCode,
    pub failure: Option<Seq<char>>,
}

/// How the requests stand after the connection has handed `op` to the
/// engine: there is one more, and it is about `op`.
pub open spec fn requested(before: Seq<Request>, after: Seq<Request>, op: AdapterOp) -> bool {
    &&& after.len() == before.len() + 1
    &&& after.drop_last() == before
    &&& after.last().op == op
}

/// How the log stands after the connection has handed one request to the
/// engine: the operation enters the log if and only if the engine did not
/// refuse it.
pub open spec fn carried(before: Seq<AdapterOp>, after: Seq<AdapterOp>, request: Request) -> bool {
    after == if request.failure is None {
        before.push(request.op)
    } else {
        before
    }
}

/// The text with which `outcome` fails, if it does.
pub open spec fn refusal<V>(outcome: Result<V, AdapterError>) -> Option<Seq<char>> {
    match outcome {
        Ok(_) => None,
        Err(e) => Some(e@),
    }
}

/// The text with which `outcome` fails as a failure of the connection, if it
/// does.
pub open spec fn adapter_refusal<V>(outcome: Result<V, SqlError>) -> Option<Seq<char>> {
    match outcome {
        Ok(_) => None,
        Err(e) => match e@ {
            SqlErrorModel::Adapter(text) => Some(text),
            SqlErrorModel::Cursor(_) => None,
        },
    }
}

/// Whether `cursor` was just prepared: it has had no exchange with the
/// engine, has nothing bound and has no current row.
pub open spec fn fresh(exchanges: Seq<Exchange>, history: Seq<CursorOp>, row: Seq<CellModel>) -> bool {
    &&& exchanges == Seq::<Exchange>::empty()
    &&& history == Seq::<CursorOp>::empty()
    &&& row == Seq::<CellModel>::empty()
}

/// A handle to one store connection: table creation, bulk insert and typed
/// select. Every statement is handed to the engine exactly once; a request
/// fails if and only if the engine refuses it, and then with the engine's
/// own text.
pub trait SqlAdapter: Sized {
    /// The cursors that this connection hands out.
    type Cursor: SqlAdapterCursor;

    /// The requests that this connection has handed to the engine, oldest
    /// first.
    spec fn requests(&self) -> Seq<Request>;

    /// The operations that this connection has carried out, oldest first.
    spec fn log(&self) -> Seq<AdapterOp>;

    /// Executes the statement that creates the table of `T` unless it exists
    /// already. The statement is handed to the engine once; the call fails
    /// if and only if the engine refuses it, and then with the engine's own
    /// text.
    fn create_table_if_not_exists<T: Table>(&mut self) -> (outcome: Result<(), SqlError>)
        ensures
            requested(
                old(self).requests(),
                final(self).requests(),
                AdapterOp::Execute(create_table_statement(T::schema_model())),
            ),
            carried(old(self).log(), final(self).log(), final(self).requests().last()),
            outcome is Ok <==> status_outcome(final(self).requests().last().status) is Ok,
            outcome is Ok <==> final(self).requests().last().failure is None,
            adapter_refusal(outcome) == final(self).requests().last().failure,
    ;

    /// Prepares the insert statement of `T` exactly once, whatever the number
    /// of records, and inserts `records` through that one cursor, each in
    /// order: its binds, one step, one reset. It stops at the first
    /// operation that the engine refuses. A refused prepare and a refused
    /// step fail with the engine's own text; a refused bind or reset fails
    /// with what the engine's answer means.
    fn insert_many<T: Table>(&mut self, records: &Vec<T>) -> (outcome: Result<(), SqlError>)
        ensures
            requested(
                old(self).requests(),
                final(self).requests(),
                AdapterOp::Prepare(insert_statement(T::schema_model())),
            ),
            match final(self).requests().last().failure {
                Some(text) => sql_outcome(outcome) == Err::<(), SqlErrorModel>(SqlErrorModel::Adapter(text))
                    && final(self).log() == old(self).log(),
                None => batch_logged(
                    old(self).log(),
                    final(self).log(),
                    insert_statement(T::schema_model()),
                    insert_ops(record_values(records@)),
                    sql_outcome(outcome),
                ),
            },
    ;

    /// Prepares `query` and returns the sequence of the records of `T` that
    /// it yields. The statement is handed to the engine once; the call fails
    /// if and only if the engine refuses it, and then with the engine's own
    /// text. No row is fetched before the first `next`. The columns that
    /// `query` projects have to be those of `T`, in type and order: what
    /// differs shows as a failure when a row is read.
    fn select_table<T: Table>(&mut self, query: &str) -> (outcome: Result<SqlSelectIter<T, Self::Cursor>, SqlError>)
        ensures
            requested(old(self).requests(), final(self).requests(), AdapterOp::Prepare(query@)),
            carried(old(self).log(), final(self).log(), final(self).requests().last()),
            outcome is Ok <==> final(self).requests().last().failure is None,
            adapter_refusal(outcome) == final(self).requests().last().failure,
            outcome matches Ok(iter) ==> iter.wf() && !iter.ended() && fresh(
                iter@.exchanges(),
                iter@.history(),
                iter@.row(),
            ),
    ;

    /// Prepares `query` and returns the sequence of the projections `T` that
    /// it yields. The statement is handed to the engine once; the call fails
    /// if and only if the engine refuses it, and then with the engine's own
    /// text. No row is fetched before the first `next`. The columns that
    /// `query` projects have to be those of `T`, in type and order: what
    /// differs shows as a failure when a row is read.
    fn select_columns<T: ColumnFacade>(&mut self, query: &str) -> (outcome: Result<SqlColumnIter<T, Self::Cursor>, SqlError>)
        ensures
            requested(old(self).requests(), final(self).requests(), AdapterOp::Prepare(query@)),
            carried(old(self).log(), final(self).log(), final(self).requests().last()),
            outcome is Ok <==> final(self).requests().last().failure is None,
            adapter_refusal(outcome) == final(self).requests().last().failure,
            outcome matches Ok(iter) ==> !iter.ended() && fresh(
                iter@.exchanges(),
                iter@.history(),
                iter@.row(),
            ),
    ;

    /// Prepares the select-all statement of `T` and returns the sequence of
    /// the records that it yields. The statement is handed to the engine
    /// once; the call fails if and only if the engine refuses it, and then
    /// with the engine's own text.
    fn select_all<T: Table>(&mut self) -> (outcome: Result<SqlSelectIter<T, Self::Cursor>, SqlError>)
        ensures
            requested(
                old(self).requests(),
                final(self).requests(),
                AdapterOp::Prepare(select_all_statement(T::schema_model().table_name)),
            ),
            carried(old(self).log(), final(self).log(), final(self).requests().last()),
            outcome is Ok <==> final(self).requests().last().failure is None,
            adapter_refusal(outcome) == final(self).requests().last().failure,
            outcome matches Ok(iter) ==> iter.wf() && !iter.ended() && fresh(
                iter@.exchanges(),
                iter@.history(),
                iter@.row(),
            ),
    ;
}

} // verus!
