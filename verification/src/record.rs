//! Records: binding the fields of a record, reading them from a row, and
//! inserting a batch through one statement.

use vstd::prelude::*;
use crate::adapter::{lemma_ran_compose, lemma_ran_extend, lemma_ran_nothing, lemma_ran_one, lemma_ran_step, ran, step_result, CellModel, CursorOp, SqlAdapterCursor};
use crate::column::{accepts_value, bind_column, conforms, fits, lemma_read_columns_fails, lemma_round_trip, read_column, read_columns, stored, stored_row};
use crate::descriptor::{bind_steps, hydrate_steps, TableDescriptor};
use crate::error::{insert_error_spec, CursorError, InsertError};
use crate::schema::{create_table_statement, insert_statement, select_all_statement, FieldModel, SchemaModel};
use crate::types::{ColumnType, SqlValue, ValueModel};

verus! {

/// The models of a list of values.
pub open spec fn value_models(values: Seq<SqlValue>) -> Seq<ValueModel> {
    values.map_values(|value: SqlValue| value@)
}

/// Whether `values` is a record of `fields`: one value for each field, each
/// accepted by the column of its field.
pub open spec fn accepts(fields: Seq<FieldModel>, values: Seq<ValueModel>) -> bool {
    fits(column_types(fields), values)
}

/// The binds of a record: the value of field `i` goes to parameter `i + 1`.
pub open spec fn record_binds(values: Seq<ValueModel>) -> Seq<CursorOp> {
    Seq::new(
        values.len(),
        |i: int| CursorOp::Bind { position: (i + 1) as usize, value: values[i] },
    )
}

/// The column types of `fields`, in declaration order.
pub open spec fn column_types(fields: Seq<FieldModel>) -> Seq<ColumnType> {
    fields.map_values(|field: FieldModel| field.column)
}

/// What reading the record of `fields` from `row` gives: field `i` is read
/// from column `i`, and the first column that fails decides the failure.
pub open spec fn read_row(fields: Seq<FieldModel>, row: Seq<CellModel>) -> Result<Seq<ValueModel>, CursorError> {
    read_columns(column_types(fields), row)
}

/// How a history stands after the record `values` was handed to the cursor:
/// on success every bind of the record was accepted, in order; on failure
/// the binds before the first rejected one were.
pub open spec fn bound(before: Seq<CursorOp>, after: Seq<CursorOp>, values: Seq<ValueModel>, accepted: bool) -> bool {
    if accepted {
        after == before + record_binds(values)
    } else {
        exists|count: int|
            0 <= count < values.len() && after == before + #[trigger] record_binds(values).take(count)
    }
}

/// Tells whether `values` is a record of the schema of `descriptor`.
pub fn accepts_values(descriptor: &TableDescriptor, values: &Vec<SqlValue>) -> (accepted: bool)
    ensures
        accepted == accepts(descriptor@.fields, value_models(values@)),
{
    let steps = descriptor.bind_sequence();
    if values.len() != steps.len() {
        return false;
    }
    let mut i: usize = 0;
    while i < steps.len()
        invariant
            i <= steps.len(),
            steps@ == bind_steps(descriptor@.fields),
            values.len() == steps.len(),
            forall|j: int|
                0 <= j < i ==> conforms(#[trigger] column_types(descriptor@.fields)[j], values[j]@),
        decreases steps.len() - i,
    {
        if !accepts_value(steps[i].column, &values[i]) {
            assert(!conforms(
                column_types(descriptor@.fields)[i as int],
                value_models(values@)[i as int],
            ));
            return false;
        }
        i = i + 1;
    }
    assert forall|j: int| 0 <= j < column_types(descriptor@.fields).len() implies conforms(
        #[trigger] column_types(descriptor@.fields)[j],
        value_models(values@)[j],
    ) by {
        assert(conforms(column_types(descriptor@.fields)[j], values[j]@));
    }
    true
}

/// Binds the record `values` to `cursor` by the bind sequence of
/// `descriptor`: each field in declaration order, field `i` to parameter
/// `i + 1`. Values that are no record of the schema are rejected, and only
/// they, before anything is handed to the engine. Else the binds are handed
/// to the engine in order, up to and including the first that it refuses,
/// and a failure is what the engine's last answer means.
pub fn bind_values<C: SqlAdapterCursor>(descriptor: &TableDescriptor, values: &Vec<SqlValue>, cursor: &mut C) -> (outcome: Result<(), CursorError>)
    ensures
        final(cursor).row() == old(cursor).row(),
        outcome == Err::<(), CursorError>(CursorError::RecordMismatch) <==> !accepts(
            descriptor@.fields,
            value_models(values@),
        ),
        !accepts(descriptor@.fields, value_models(values@)) ==> final(cursor).exchanges()
            == old(cursor).exchanges() && final(cursor).history() == old(cursor).history(),
        accepts(descriptor@.fields, value_models(values@)) ==> ran(
            old(cursor).exchanges(),
            final(cursor).exchanges(),
            record_binds(value_models(values@)),
            outcome,
        ) && bound(old(cursor).history(), final(cursor).history(), value_models(values@), outcome is Ok),
{
    if !accepts_values(descriptor, values) {
        return Err(CursorError::RecordMismatch);
    }
    let steps = descriptor.bind_sequence();
    let ghost binds = record_binds(value_models(values@));
    let ghost start = cursor.exchanges();
    let mut i: usize = 0;
    proof {
        assert(binds.take(0) =~= Seq::empty());
        assert(old(cursor).history() + binds.take(0) =~= old(cursor).history());
        lemma_ran_nothing(start);
    }
    while i < steps.len()
        invariant
            i <= steps.len(),
            steps@ == bind_steps(descriptor@.fields),
            accepts(descriptor@.fields, value_models(values@)),
            binds == record_binds(value_models(values@)),
            start == old(cursor).exchanges(),
            cursor.row() == old(cursor).row(),
            cursor.history() == old(cursor).history() + binds.take(i as int),
            ran(start, cursor.exchanges(), binds.take(i as int), Ok(())),
        decreases steps.len() - i,
    {
        let step = steps[i];
        let ghost before = cursor.exchanges();
        assert(step == bind_steps(descriptor@.fields)[i as int]);
        assert(conforms(column_types(descriptor@.fields)[i as int], value_models(values@)[i as int]));
        let bind = bind_column(step.column, &values[step.field], cursor, step.position);
        proof {
            let op = CursorOp::Bind { position: step.position, value: values[i as int]@ };
            assert(binds[i as int] == op);
            assert(binds.take(i + 1) =~= binds.take(i as int) + seq![op]);
            lemma_ran_one(before, cursor.exchanges(), op, bind);
            lemma_ran_compose(start, before, cursor.exchanges(), binds.take(i as int), seq![op], bind);
            if bind is Err {
                assert(binds.take(binds.len() as int) =~= binds);
                assert(binds.take((i + 1) as int) =~= binds.take(binds.len() as int).take((i + 1) as int));
                lemma_ran_extend(start, cursor.exchanges(), binds.take(i + 1), binds, bind);
            } else {
                assert(binds.take(i + 1) =~= binds.take(i as int).push(binds[i as int]));
                assert(cursor.history() =~= old(cursor).history() + binds.take(i + 1));
            }
        }
        match bind {
            Err(e) => {
                return Err(e);
            },
            Ok(()) => {},
        }
        i = i + 1;
    }
    assert(binds.take(i as int) =~= binds);
    Ok(())
}

/// Reads the current row of `cursor` by the hydrate sequence of
/// `descriptor`: each field in declaration order, field `i` from column `i`.
/// It stops at the first column that fails.
pub fn read_values<C: SqlAdapterCursor>(descriptor: &TableDescriptor, cursor: &C) -> (outcome: Result<Vec<SqlValue>, CursorError>)
    ensures
        outcome matches Ok(values) ==> accepts(descriptor@.fields, value_models(values@)),
        match outcome {
            Ok(values) => read_row(descriptor@.fields, cursor.row()) == Ok::<Seq<ValueModel>, CursorError>(
                value_models(values@),
            ),
            Err(e) => read_row(descriptor@.fields, cursor.row()) == Err::<Seq<ValueModel>, CursorError>(e),
        },
{
    let steps = descriptor.hydrate_sequence();
    let ghost fields = descriptor@.fields;
    let ghost columns = column_types(fields);
    let ghost row = cursor.row();
    let mut values: Vec<SqlValue> = Vec::new();
    let mut i: usize = 0;
    assert(columns.take(0) =~= Seq::empty());
    assert(value_models(values@) =~= Seq::empty());
    while i < steps.len()
        invariant
            i <= steps.len(),
            fields == descriptor@.fields,
            row == cursor.row(),
            steps@ == hydrate_steps(fields),
            columns == column_types(fields),
            values.len() == i,
            forall|j: int| 0 <= j < i ==> conforms(#[trigger] columns[j], values[j]@),
            read_columns(columns.take(i as int), row) == Ok::<Seq<ValueModel>, CursorError>(
                value_models(values@),
            ),
        decreases steps.len() - i,
    {
        let step = steps[i];
        assert(step == hydrate_steps(fields)[i as int]);
        proof {
            assert(columns.take(i + 1).drop_last() =~= columns.take(i as int));
            assert(columns.take(i + 1)[i as int] == fields[i as int].column);
        }
        match read_column(step.column, cursor, step.position) {
            Err(e) => {
                proof {
                    assert(read_columns(columns.take(i + 1), row) == Err::<Seq<ValueModel>, CursorError>(e));
                    lemma_read_columns_fails(columns, row, i + 1);
                }
                return Err(e);
            },
            Ok(value) => {
                proof {
                    assert(value_models(values@.push(value)) =~= value_models(values@).push(value@));
                }
                values.push(value);
            },
        }
        i = i + 1;
    }
    assert(columns.take(i as int) =~= columns);
    assert forall|j: int| 0 <= j < columns.len() implies conforms(
        #[trigger] columns[j],
        value_models(values@)[j],
    ) by {
        assert(conforms(columns[j], values[j]@));
    }
    Ok(values)
}

/// A record type that is mapped to one table.
pub trait Table: Sized {
    /// The schema of the record type.
    spec fn schema_model() -> SchemaModel;

    /// The values of the fields of this record, in declaration order.
    spec fn values(&self) -> Seq<ValueModel>;

    /// Every record is a record of the schema of its type.
    proof fn lemma_values_accepted(&self)
        ensures
            accepts(Self::schema_model().fields, self.values()),
    ;

    /// Returns the descriptor of the record type.
    fn descriptor() -> (descriptor: TableDescriptor)
        ensures
            descriptor@ == Self::schema_model(),
    ;

    /// Returns the values of the fields of this record, in declaration
    /// order.
    fn to_values(&self) -> (values: Vec<SqlValue>)
        ensures
            value_models(values@) == self.values(),
    ;

    /// Builds the record whose fields hold `values`, in declaration order.
    fn from_values(values: Vec<SqlValue>) -> (record: Self)
        requires
            accepts(Self::schema_model().fields, value_models(values@)),
        ensures
            record.values() == value_models(values@),
    ;
}

/// Returns the name of the table of `T`.
pub fn table_name<T: Table>() -> (name: String)
    ensures
        name@ == T::schema_model().table_name,
{
    String::from_str(T::descriptor().table_name())
}

/// Returns the statement that creates the table of `T` unless it exists
/// already.
pub fn create_table_query<T: Table>() -> (query: String)
    ensures
        query@ == create_table_statement(T::schema_model()),
{
    T::descriptor().create_table_query()
}

/// Returns the statement that inserts one record of `T`.
pub fn insert_query<T: Table>() -> (query: String)
    ensures
        query@ == insert_statement(T::schema_model()),
{
    String::from_str(T::descriptor().insert_query())
}

/// Returns the statement that selects every column of every row of the
/// table of `T`.
pub fn select_query<T: Table>() -> (query: String)
    ensures
        query@ == select_all_statement(T::schema_model().table_name),
{
    String::from_str(T::descriptor().select_query())
}

/// Binds `record` to `cursor`: each field in declaration order, field `i` to
/// parameter `i + 1`. The binds are handed to the engine in order, up to
/// and including the first that it refuses, and a failure is what the
/// engine's last answer means.
pub fn bind_record<T: Table, C: SqlAdapterCursor>(record: &T, cursor: &mut C) -> (outcome: Result<(), CursorError>)
    ensures
        final(cursor).row() == old(cursor).row(),
        ran(old(cursor).exchanges(), final(cursor).exchanges(), record_binds(record.values()), outcome),
        bound(old(cursor).history(), final(cursor).history(), record.values(), outcome is Ok),
{
    let descriptor = T::descriptor();
    let values = record.to_values();
    proof {
        record.lemma_values_accepted();
    }
    bind_values(&descriptor, &values, cursor)
}

/// Reads one record of `T` from the current row of `cursor`: each field in
/// declaration order, field `i` from column `i`. It stops at the first
/// column that fails.
pub fn get_row<T: Table, C: SqlAdapterCursor>(cursor: &C) -> (outcome: Result<T, CursorError>)
    ensures
        match outcome {
            Ok(record) => read_row(T::schema_model().fields, cursor.row()) == Ok::<Seq<ValueModel>, CursorError>(
                record.values(),
            ),
            Err(e) => read_row(T::schema_model().fields, cursor.row()) == Err::<Seq<ValueModel>, CursorError>(e),
        },
{
    let descriptor = T::descriptor();
    match read_values(&descriptor, cursor) {
        Err(e) => Err(e),
        Ok(values) => Ok(T::from_values(values)),
    }
}

/// The field values of a list of records.
pub open spec fn record_values<T: Table>(records: Seq<T>) -> Seq<Seq<ValueModel>> {
    records.map_values(|record: T| record.values())
}

/// The operations of inserting `rows` through one statement: for each row
/// in order its binds, one step, and one reset.
pub open spec fn insert_ops(rows: Seq<Seq<ValueModel>>) -> Seq<CursorOp>
    decreases rows.len(),
{
    if rows.len() == 0 {
        Seq::empty()
    } else {
        insert_ops(rows.drop_last()) + record_binds(rows.last()) + seq![CursorOp::Step, CursorOp::Reset]
    }
}

/// How a history stands after `rows` were handed to the cursor for
/// insertion: on success every operation was accepted, in order; on failure
/// the operations before the first rejected one were.
pub open spec fn inserted(before: Seq<CursorOp>, after: Seq<CursorOp>, rows: Seq<Seq<ValueModel>>, accepted: bool) -> bool {
    if accepted {
        after == before + insert_ops(rows)
    } else {
        exists|count: int|
            0 <= count < insert_ops(rows).len() && after == before + #[trigger] insert_ops(rows).take(
                count,
            )
    }
}

/// The operations of the first `count` rows open those of all rows.
pub proof fn lemma_insert_ops_prefix(rows: Seq<Seq<ValueModel>>, count: int)
    requires
        0 <= count <= rows.len(),
    ensures
        insert_ops(rows.take(count)).len() <= insert_ops(rows).len(),
        insert_ops(rows).take(insert_ops(rows.take(count)).len() as int) == insert_ops(rows.take(count)),
    decreases rows.len() - count,
{
    if count == rows.len() {
        assert(rows.take(count) =~= rows);
        assert(insert_ops(rows).take(insert_ops(rows).len() as int) =~= insert_ops(rows));
    } else {
        lemma_insert_ops_prefix(rows, count + 1);
        let longer = rows.take(count + 1);
        assert(longer.drop_last() =~= rows.take(count));
        let short_ops = insert_ops(rows.take(count));
        let long_ops = insert_ops(longer);
        assert(long_ops == short_ops + record_binds(longer.last()) + seq![CursorOp::Step, CursorOp::Reset]);
        assert(long_ops.take(short_ops.len() as int) =~= short_ops);
        assert(insert_ops(rows).take(short_ops.len() as int) =~= insert_ops(rows).take(
            long_ops.len() as int,
        ).take(short_ops.len() as int));
    }
}

/// Whether `failure` names the operation `op` as the one that was refused.
pub open spec fn refused_at(failure: InsertError, op: CursorOp) -> bool {
    match failure {
        InsertError::Bind(_) => op is Bind,
        InsertError::Step(_) => op is Step,
        InsertError::Reset(_) => op is Reset,
    }
}

/// The outcome of an insertion, as the outcome of its cursor.
pub open spec fn cursor_outcome(outcome: Result<(), InsertError>) -> Result<(), CursorError> {
    match outcome {
        Ok(()) => Ok(()),
        Err(failure) => Err(insert_error_spec(failure)),
    }
}

/// Inserts `records` through `cursor`, which was prepared from the insert
/// statement of `T`: for each record in order, every field is bound, the
/// statement is stepped once and then reset. The operations are handed to
/// the engine in that order, up to and including the first that it refuses;
/// a failure names the operation that was refused and is what the engine's
/// last answer means. An empty batch hands nothing to the engine and
/// succeeds.
pub fn insert_records<T: Table, C: SqlAdapterCursor>(cursor: &mut C, records: &Vec<T>) -> (outcome: Result<(), InsertError>)
    ensures
        ran(
            old(cursor).exchanges(),
            final(cursor).exchanges(),
            insert_ops(record_values(records@)),
            cursor_outcome(outcome),
        ),
        outcome matches Err(failure) ==> refused_at(failure, final(cursor).exchanges().last().op),
        inserted(old(cursor).history(), final(cursor).history(), record_values(records@), outcome is Ok),
{
    let descriptor = T::descriptor();
    let ghost rows = record_values(records@);
    let ghost all = insert_ops(rows);
    let ghost start = cursor.history();
    let ghost first = cursor.exchanges();
    let mut i: usize = 0;
    proof {
        assert(rows.take(0) =~= Seq::empty());
        assert(start + insert_ops(rows.take(0)) =~= start);
        lemma_ran_nothing(first);
    }
    while i < records.len()
        invariant
            i <= records.len(),
            descriptor@ == T::schema_model(),
            rows == record_values(records@),
            all == insert_ops(rows),
            start == old(cursor).history(),
            first == old(cursor).exchanges(),
            cursor.history() == start + insert_ops(rows.take(i as int)),
            ran(first, cursor.exchanges(), insert_ops(rows.take(i as int)), Ok(())),
        decreases records.len() - i,
    {
        let ghost done = insert_ops(rows.take(i as int));
        let ghost binds = record_binds(rows[i as int]);
        let ghost next = insert_ops(rows.take(i + 1));
        let ghost before = cursor.exchanges();
        let values = records[i].to_values();
        proof {
            assert(rows.take(i + 1).drop_last() =~= rows.take(i as int));
            assert(rows.take(i + 1).last() == rows[i as int]);
            assert(next == done + binds + seq![CursorOp::Step, CursorOp::Reset]);
            lemma_insert_ops_prefix(rows, i + 1);
            assert(rows[i as int] == records[i as int].values());
            records[i as int].lemma_values_accepted();
        }
        let bound = bind_values(&descriptor, &values, cursor);
        let ghost after_binds = cursor.exchanges();
        proof {
            lemma_ran_compose(first, before, after_binds, done, binds, bound);
        }
        match bound {
            Err(e) => {
                proof {
                    let count = choose|count: int|
                        0 <= count < rows[i as int].len() && cursor.history() == start + done
                            + #[trigger] binds.take(count);
                    let total: int = done.len() + count;
                    assert(binds.len() == rows[i as int].len());
                    assert(next.take(total) =~= done + binds.take(count));
                    assert(all.take(total) =~= all.take(next.len() as int).take(total));
                    assert(cursor.history() =~= start + all.take(total));
                    let handed_over: int = (done.len() + binds.len()) as int;
                    assert(next.take(handed_over) =~= done + binds);
                    assert(all.take(handed_over) =~= all.take(next.len() as int).take(handed_over));
                    lemma_ran_extend(first, after_binds, done + binds, all, bound);
                    let new = after_binds.skip(before.len() as int);
                    assert(new.last() == after_binds.last());
                    assert(new[new.len() - 1].op == binds[new.len() - 1]);
                }
                return Err(InsertError::Bind(e));
            },
            Ok(()) => {},
        }
        let stepped = cursor.fetch_row();
        let ghost after_step = cursor.exchanges();
        proof {
            lemma_ran_step(after_binds, after_step, stepped);
            lemma_ran_compose(
                first,
                after_binds,
                after_step,
                done + binds,
                seq![CursorOp::Step],
                step_result(stepped),
            );
        }
        match stepped {
            Err(e) => {
                proof {
                    let total: int = (done.len() + binds.len()) as int;
                    assert(next.take(total) =~= done + binds);
                    assert(all.take(total) =~= all.take(next.len() as int).take(total));
                    assert(cursor.history() =~= start + all.take(total));
                    assert(next.take(total + 1) =~= done + binds + seq![CursorOp::Step]);
                    assert(all.take(total + 1) =~= all.take(next.len() as int).take(total + 1));
                    lemma_ran_extend(
                        first,
                        after_step,
                        done + binds + seq![CursorOp::Step],
                        all,
                        Err(e),
                    );
                }
                return Err(InsertError::Step(e));
            },
            Ok(_) => {},
        }
        let reset = cursor.reset();
        let ghost after_reset = cursor.exchanges();
        proof {
            lemma_ran_one(after_step, after_reset, CursorOp::Reset, reset);
            lemma_ran_compose(
                first,
                after_step,
                after_reset,
                done + binds + seq![CursorOp::Step],
                seq![CursorOp::Reset],
                reset,
            );
            assert(done + binds + seq![CursorOp::Step] + seq![CursorOp::Reset] =~= next);
        }
        match reset {
            Err(e) => {
                proof {
                    let total: int = (done.len() + binds.len() + 1) as int;
                    assert(next.take(total) =~= (done + binds).push(CursorOp::Step));
                    assert(all.take(total) =~= all.take(next.len() as int).take(total));
                    assert(cursor.history() =~= start + all.take(total));
                    lemma_ran_extend(first, after_reset, next, all, reset);
                }
                return Err(InsertError::Reset(e));
            },
            Ok(()) => {},
        }
        assert(cursor.history() =~= start + next);
        i = i + 1;
    }
    assert(rows.take(i as int) =~= rows);
    Ok(())
}

/// The row that holds a record once its binds were carried out: column `i`
/// holds what was bound to parameter `i + 1`.
pub open spec fn bound_row(binds: Seq<CursorOp>) -> Seq<CellModel> {
    binds.map_values(
        |op: CursorOp|
            match op {
                CursorOp::Bind { value, .. } => stored(value),
                _ => CellModel::Null,
            },
    )
}

/// The round trip of a record: binding the values of a record of `fields`
/// by the bind sequence, and reading the row that holds what was bound by
/// the hydrate sequence, gives the values back. Bind `i` goes to parameter
/// `i + 1`, and column `i` of the row holds it.
pub proof fn lemma_record_round_trip(fields: Seq<FieldModel>, values: Seq<ValueModel>)
    requires
        accepts(fields, values),
    ensures
        record_binds(values).len() == fields.len(),
        forall|i: int|
            0 <= i < fields.len() ==> #[trigger] record_binds(values)[i] == (CursorOp::Bind {
                position: (i + 1) as usize,
                value: values[i],
            }),
        bound_row(record_binds(values)) == stored_row(values),
        read_row(fields, bound_row(record_binds(values))) == Ok::<Seq<ValueModel>, CursorError>(values),
{
    assert(bound_row(record_binds(values)) =~= stored_row(values));
    lemma_round_trip(column_types(fields), values);
}

/// The round trip of a record type: whatever record of `T` is bound, the row
/// that holds what was bound reads back as a record with the same field
/// values.
pub proof fn lemma_table_round_trip<T: Table>(record: T)
    ensures
        read_row(T::schema_model().fields, bound_row(record_binds(record.values()))) == Ok::<
            Seq<ValueModel>,
            CursorError,
        >(record.values()),
{
    record.lemma_values_accepted();
    lemma_record_round_trip(T::schema_model().fields, record.values());
}

} // verus!
