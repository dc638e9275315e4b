//! Column types: the primitives, their nullable wrappers, and how a value is
//! bound to a parameter and read from a column.

use vstd::prelude::*;
use crate::adapter::{answer, cell_at, cell_tag, handed, mismatch, recorded, CellModel, CursorOp, SqlAdapterCursor};
use crate::driver::status_outcome;
use crate::error::{tag_of_kind, ColumnTag, CursorError};
use crate::types::{prim_typename_spec, sql_typename_spec, ColumnType, PrimitiveKind, Real, SqlValue, ValueModel};

verus! {

/// The type tag under which a value is stored.
pub open spec fn value_tag(value: ValueModel) -> ColumnTag {
    match value {
        ValueModel::Null => ColumnTag::Null,
        ValueModel::Integer(_) => ColumnTag::Integer,
        ValueModel::Text(_) => ColumnTag::Text,
        ValueModel::Real(_) => ColumnTag::Float,
    }
}

/// Whether a column of type `column` accepts `value`: absence only where the
/// column is nullable, and a present value only of the column's own kind.
pub open spec fn conforms(column: ColumnType, value: ValueModel) -> bool {
    if value is Null {
        column.nullable
    } else {
        value_tag(value) == tag_of_kind(column.kind)
    }
}

/// The cell that holds `value` once it is stored.
pub open spec fn stored(value: ValueModel) -> CellModel {
    match value {
        ValueModel::Null => CellModel::Null,
        ValueModel::Integer(v) => CellModel::Integer(v),
        ValueModel::Text(s) => CellModel::Text(s),
        ValueModel::Real(bits) => CellModel::Real(bits),
    }
}

/// The value that a cell holds; a blob, which no kind reads, counts as absent.
pub open spec fn cell_value(cell: CellModel) -> ValueModel {
    match cell {
        CellModel::Null => ValueModel::Null,
        CellModel::Integer(v) => ValueModel::Integer(v),
        CellModel::Text(s) => ValueModel::Text(s),
        CellModel::Real(bits) => ValueModel::Real(bits),
        CellModel::Blob => ValueModel::Null,
    }
}

/// What reading `cell` at `position` as a column of type `column` gives:
/// absence for SQL NULL in a nullable column, the cell's value where its tag
/// is that of the column's kind, and a type mismatch otherwise.
pub open spec fn read_cell(column: ColumnType, cell: CellModel, position: usize) -> Result<ValueModel, CursorError> {
    if column.nullable && cell is Null {
        Ok(ValueModel::Null)
    } else if cell_tag(cell) == tag_of_kind(column.kind) {
        Ok(cell_value(cell))
    } else {
        Err(mismatch(column.kind, cell, position))
    }
}

/// What reading `columns` from `row` gives: column `i` is read from position
/// `i`, and the first column that fails decides the failure.
pub open spec fn read_columns(columns: Seq<ColumnType>, row: Seq<CellModel>) -> Result<Seq<ValueModel>, CursorError>
    decreases columns.len(),
{
    if columns.len() == 0 {
        Ok(Seq::empty())
    } else {
        let last = columns.len() - 1;
        match read_columns(columns.drop_last(), row) {
            Err(e) => Err(e),
            Ok(values) => match read_cell(columns[last], cell_at(row, last), last as usize) {
                Err(e) => Err(e),
                Ok(value) => Ok(values.push(value)),
            },
        }
    }
}

/// A failure among the first `count` columns is the failure of the whole
/// read.
pub proof fn lemma_read_columns_fails(columns: Seq<ColumnType>, row: Seq<CellModel>, count: int)
    requires
        0 <= count <= columns.len(),
        read_columns(columns.take(count), row) is Err,
    ensures
        read_columns(columns, row) == read_columns(columns.take(count), row),
    decreases columns.len() - count,
{
    if count < columns.len() {
        let longer = columns.take(count + 1);
        assert(longer.drop_last() =~= columns.take(count));
        lemma_read_columns_fails(columns, row, count + 1);
    } else {
        assert(columns.take(count) =~= columns);
    }
}

/// Reading one column is reading the cell at position 0.
pub proof fn lemma_read_one(first: ColumnType, row: Seq<CellModel>)
    ensures
        read_columns(seq![first], row) == match read_cell(first, cell_at(row, 0), 0) {
            Err(e) => Err::<Seq<ValueModel>, CursorError>(e),
            Ok(value) => Ok(seq![value]),
        },
{
    let columns = seq![first];
    assert(columns.drop_last() =~= Seq::<ColumnType>::empty());
    assert(read_columns(columns.drop_last(), row) == Ok::<Seq<ValueModel>, CursorError>(Seq::empty()));
    match read_cell(first, cell_at(row, 0), 0) {
        Err(e) => {},
        Ok(value) => {
            assert(Seq::<ValueModel>::empty().push(value) =~= seq![value]);
        },
    }
}

/// Reading two columns is reading the cell at position 0 and then, if that
/// succeeds, the cell at position 1.
pub proof fn lemma_read_two(first: ColumnType, second: ColumnType, row: Seq<CellModel>)
    ensures
        read_columns(seq![first, second], row) == match read_cell(first, cell_at(row, 0), 0) {
            Err(e) => Err::<Seq<ValueModel>, CursorError>(e),
            Ok(a) => match read_cell(second, cell_at(row, 1), 1) {
                Err(e) => Err(e),
                Ok(b) => Ok(seq![a, b]),
            },
        },
{
    let columns = seq![first, second];
    assert(columns.drop_last() =~= seq![first]);
    lemma_read_one(first, row);
    match read_cell(first, cell_at(row, 0), 0) {
        Err(e) => {},
        Ok(a) => {
            match read_cell(second, cell_at(row, 1), 1) {
                Err(e) => {},
                Ok(b) => {
                    assert(seq![a].push(b) =~= seq![a, b]);
                },
            }
        },
    }
}

/// Whether `values` holds one value for each of `columns`, each accepted by
/// its column.
pub open spec fn fits(columns: Seq<ColumnType>, values: Seq<ValueModel>) -> bool {
    &&& values.len() == columns.len()
    &&& forall|i: int| 0 <= i < columns.len() ==> conforms(#[trigger] columns[i], values[i])
}

/// The row that holds `values` once they are stored: value `i` in column
/// `i`.
pub open spec fn stored_row(values: Seq<ValueModel>) -> Seq<CellModel> {
    values.map_values(|value: ValueModel| stored(value))
}

/// A value that its column accepts is read back from its cell as itself.
pub proof fn lemma_cell_round_trip(column: ColumnType, value: ValueModel, position: usize)
    requires
        conforms(column, value),
    ensures
        read_cell(column, stored(value), position) == Ok::<ValueModel, CursorError>(value),
{
}

/// A row that holds at each position `i` below the number of columns the
/// stored value `i` reads back as the values.
pub proof fn lemma_round_trip_within(columns: Seq<ColumnType>, values: Seq<ValueModel>, row: Seq<CellModel>)
    requires
        fits(columns, values),
        columns.len() <= row.len(),
        forall|i: int| 0 <= i < columns.len() ==> #[trigger] row[i] == stored(values[i]),
    ensures
        read_columns(columns, row) == Ok::<Seq<ValueModel>, CursorError>(values),
    decreases columns.len(),
{
    if columns.len() == 0 {
        assert(values =~= Seq::empty());
    } else {
        let last = columns.len() - 1;
        assert forall|i: int| 0 <= i < columns.drop_last().len() implies conforms(
            #[trigger] columns.drop_last()[i],
            values.drop_last()[i],
        ) by {
            assert(conforms(columns[i], values[i]));
        }
        lemma_round_trip_within(columns.drop_last(), values.drop_last(), row);
        assert(conforms(columns[last], values[last]));
        lemma_cell_round_trip(columns[last], values[last], last as usize);
        assert(row[last] == stored(values[last]));
        assert(values.drop_last().push(values[last]) =~= values);
    }
}

/// The round trip: values that their columns accept, once stored, read back
/// as themselves. Absence comes back as absence, and a present value comes
/// back unchanged.
pub proof fn lemma_round_trip(columns: Seq<ColumnType>, values: Seq<ValueModel>)
    requires
        fits(columns, values),
    ensures
        read_columns(columns, stored_row(values)) == Ok::<Seq<ValueModel>, CursorError>(values),
{
    lemma_round_trip_within(columns, values, stored_row(values));
}

/// The column type of a primitive kind that does not admit absence.
pub open spec fn required(kind: PrimitiveKind) -> ColumnType {
    ColumnType { kind, nullable: false }
}

/// The column type of a primitive kind that admits absence.
pub open spec fn optional(kind: PrimitiveKind) -> ColumnType {
    ColumnType { kind, nullable: true }
}

/// A storable primitive: its SQL typename and how it is bound and read.
pub trait SqlPrimitive: Sized {
    /// The kind of this primitive.
    spec fn kind() -> PrimitiveKind;

    /// The value that this primitive is bound as.
    spec fn model(&self) -> ValueModel;

    /// A primitive is bound as a present value of its own kind.
    proof fn lemma_model_conforms(&self)
        ensures
            conforms(required(Self::kind()), self.model()),
    ;

    /// Returns the canonical SQL typename of this primitive.
    fn prim_typename() -> (name: &'static str)
        ensures
            name@ == prim_typename_spec(Self::kind()),
    ;

    /// Binds this primitive to the parameter at `idx`: the bind of its kind
    /// is handed to the engine once, and fails only if the engine rejects it.
    fn prim_bind<C: SqlAdapterCursor>(&self, cursor: &mut C, idx: usize) -> (outcome: Result<(), CursorError>)
        ensures
            final(cursor).row() == old(cursor).row(),
            handed(
                old(cursor).exchanges(),
                final(cursor).exchanges(),
                (CursorOp::Bind { position: idx, value: self.model() }),
            ),
            outcome == status_outcome(answer(final(cursor).exchanges())),
            recorded(
                old(cursor).history(),
                final(cursor).history(),
                (CursorOp::Bind { position: idx, value: self.model() }),
                outcome is Ok,
            ),
    ;

    /// Reads the column at `idx` of the current row as this primitive.
    fn prim_get<C: SqlAdapterCursor>(cursor: &C, idx: usize) -> (outcome: Result<Self, CursorError>)
        ensures
            match outcome {
                Ok(v) => read_cell(required(Self::kind()), cell_at(cursor.row(), idx as int), idx) == Ok::<ValueModel, CursorError>(v.model()),
                Err(e) => read_cell(required(Self::kind()), cell_at(cursor.row(), idx as int), idx) == Err::<ValueModel, CursorError>(e),
            },
    ;
}

impl SqlPrimitive for i64 {
    open spec fn kind() -> PrimitiveKind {
        PrimitiveKind::Integer
    }

    open spec fn model(&self) -> ValueModel {
        ValueModel::Integer(*self)
    }

    proof fn lemma_model_conforms(&self) {
    }

    fn prim_typename() -> (name: &'static str) {
        "int"
    }

    fn prim_bind<C: SqlAdapterCursor>(&self, cursor: &mut C, idx: usize) -> (outcome: Result<(), CursorError>) {
        cursor.bind_int(idx, *self)
    }

    fn prim_get<C: SqlAdapterCursor>(cursor: &C, idx: usize) -> (outcome: Result<i64, CursorError>) {
        cursor.get_prim_int(idx)
    }
}

impl SqlPrimitive for String {
    open spec fn kind() -> PrimitiveKind {
        PrimitiveKind::Text
    }

    open spec fn model(&self) -> ValueModel {
        ValueModel::Text(self@)
    }

    proof fn lemma_model_conforms(&self) {
    }

    fn prim_typename() -> (name: &'static str) {
        "text"
    }

    fn prim_bind<C: SqlAdapterCursor>(&self, cursor: &mut C, idx: usize) -> (outcome: Result<(), CursorError>) {
        cursor.bind_str(idx, self.as_str())
    }

    fn prim_get<C: SqlAdapterCursor>(cursor: &C, idx: usize) -> (outcome: Result<String, CursorError>) {
        cursor.get_prim_str(idx)
    }
}

impl SqlPrimitive for Real {
    open spec fn kind() -> PrimitiveKind {
        PrimitiveKind::Real
    }

    open spec fn model(&self) -> ValueModel {
        ValueModel::Real(self.bits)
    }

    proof fn lemma_model_conforms(&self) {
    }

    fn prim_typename() -> (name: &'static str) {
        "real"
    }

    fn prim_bind<C: SqlAdapterCursor>(&self, cursor: &mut C, idx: usize) -> (outcome: Result<(), CursorError>) {
        cursor.bind_f64(idx, *self)
    }

    fn prim_get<C: SqlAdapterCursor>(cursor: &C, idx: usize) -> (outcome: Result<Real, CursorError>) {
        cursor.get_prim_f64(idx)
    }
}

/// Returns the canonical SQL typename of the primitive `T`.
pub fn prim_typename<T: SqlPrimitive>() -> (name: &'static str)
    ensures
        name@ == prim_typename_spec(T::kind()),
{
    T::prim_typename()
}

/// A column type: a primitive, or the nullable wrapper around one.
pub trait SqlType: Sized {
    /// The column type under which values of this type are stored.
    spec fn column() -> ColumnType;

    /// The value that this is bound as: the null value for absence.
    spec fn value(&self) -> ValueModel;

    /// Every value of the type is one that its column accepts.
    proof fn lemma_value_conforms(&self)
        ensures
            conforms(Self::column(), self.value()),
    ;

    /// Returns the rendered typename of the column.
    fn typename() -> (name: String)
        ensures
            name@ == sql_typename_spec(Self::column()),
    ;

    /// Binds this value to the parameter at `idx`; absence is bound as SQL
    /// NULL. The bind is handed to the engine once, and fails only if the
    /// engine rejects it.
    fn bind<C: SqlAdapterCursor>(&self, cursor: &mut C, idx: usize) -> (outcome: Result<(), CursorError>)
        ensures
            final(cursor).row() == old(cursor).row(),
            handed(
                old(cursor).exchanges(),
                final(cursor).exchanges(),
                (CursorOp::Bind { position: idx, value: self.value() }),
            ),
            outcome == status_outcome(answer(final(cursor).exchanges())),
            recorded(
                old(cursor).history(),
                final(cursor).history(),
                (CursorOp::Bind { position: idx, value: self.value() }),
                outcome is Ok,
            ),
    ;

    /// Reads the column at `idx` of the current row.
    fn get_col<C: SqlAdapterCursor>(cursor: &C, idx: usize) -> (outcome: Result<Self, CursorError>)
        ensures
            match outcome {
                Ok(v) => read_cell(Self::column(), cell_at(cursor.row(), idx as int), idx) == Ok::<ValueModel, CursorError>(v.value()),
                Err(e) => read_cell(Self::column(), cell_at(cursor.row(), idx as int), idx) == Err::<ValueModel, CursorError>(e),
            },
    ;
}

impl<T: SqlPrimitive> SqlType for Option<T> {
    open spec fn column() -> ColumnType {
        optional(T::kind())
    }

    open spec fn value(&self) -> ValueModel {
        match *self {
            None => ValueModel::Null,
            Some(prim) => prim.model(),
        }
    }

    proof fn lemma_value_conforms(&self) {
        match *self {
            None => {},
            Some(prim) => {
                prim.lemma_model_conforms();
            },
        }
    }

    fn typename() -> (name: String) {
        String::from_str(prim_typename::<T>())
    }

    fn bind<C: SqlAdapterCursor>(&self, cursor: &mut C, idx: usize) -> (outcome: Result<(), CursorError>) {
        match self {
            None => cursor.bind_null(idx),
            Some(prim) => prim.prim_bind(cursor, idx),
        }
    }

    fn get_col<C: SqlAdapterCursor>(cursor: &C, idx: usize) -> (outcome: Result<Option<T>, CursorError>) {
        if cursor.is_null(idx) {
            Ok(None)
        } else {
            match T::prim_get(cursor, idx) {
                Ok(prim) => Ok(Some(prim)),
                Err(e) => Err(e),
            }
        }
    }
}

impl SqlType for i64 {
    open spec fn column() -> ColumnType {
        required(PrimitiveKind::Integer)
    }

    open spec fn value(&self) -> ValueModel {
        self.model()
    }

    proof fn lemma_value_conforms(&self) {
    }

    fn typename() -> (name: String) {
        let mut name = String::from_str(prim_typename::<i64>());
        name.append(" not null");
        name
    }

    fn bind<C: SqlAdapterCursor>(&self, cursor: &mut C, idx: usize) -> (outcome: Result<(), CursorError>) {
        self.prim_bind(cursor, idx)
    }

    fn get_col<C: SqlAdapterCursor>(cursor: &C, idx: usize) -> (outcome: Result<i64, CursorError>) {
        <i64 as SqlPrimitive>::prim_get(cursor, idx)
    }
}

impl SqlType for String {
    open spec fn column() -> ColumnType {
        required(PrimitiveKind::Text)
    }

    open spec fn value(&self) -> ValueModel {
        self.model()
    }

    proof fn lemma_value_conforms(&self) {
    }

    fn typename() -> (name: String) {
        let mut name = String::from_str(prim_typename::<String>());
        name.append(" not null");
        name
    }

    fn bind<C: SqlAdapterCursor>(&self, cursor: &mut C, idx: usize) -> (outcome: Result<(), CursorError>) {
        self.prim_bind(cursor, idx)
    }

    fn get_col<C: SqlAdapterCursor>(cursor: &C, idx: usize) -> (outcome: Result<String, CursorError>) {
        <String as SqlPrimitive>::prim_get(cursor, idx)
    }
}

impl SqlType for Real {
    open spec fn column() -> ColumnType {
        required(PrimitiveKind::Real)
    }

    open spec fn value(&self) -> ValueModel {
        self.model()
    }

    proof fn lemma_value_conforms(&self) {
    }

    fn typename() -> (name: String) {
        let mut name = String::from_str(prim_typename::<Real>());
        name.append(" not null");
        name
    }

    fn bind<C: SqlAdapterCursor>(&self, cursor: &mut C, idx: usize) -> (outcome: Result<(), CursorError>) {
        self.prim_bind(cursor, idx)
    }

    fn get_col<C: SqlAdapterCursor>(cursor: &C, idx: usize) -> (outcome: Result<Real, CursorError>) {
        <Real as SqlPrimitive>::prim_get(cursor, idx)
    }
}

/// Returns the rendered typename of the column type `T`.
pub fn sql_typename<T: SqlType>() -> (name: String)
    ensures
        name@ == sql_typename_spec(T::column()),
{
    T::typename()
}

/// Binds `value` to the parameter at `idx` of `cursor`: the bind is handed to
/// the engine once, and fails only if the engine rejects it.
pub fn bind_sqltype<T: SqlType, C: SqlAdapterCursor>(value: &T, cursor: &mut C, idx: usize) -> (outcome: Result<(), CursorError>)
    ensures
        final(cursor).row() == old(cursor).row(),
        handed(
            old(cursor).exchanges(),
            final(cursor).exchanges(),
            (CursorOp::Bind { position: idx, value: value.value() }),
        ),
        outcome == status_outcome(answer(final(cursor).exchanges())),
        recorded(
            old(cursor).history(),
            final(cursor).history(),
            (CursorOp::Bind { position: idx, value: value.value() }),
            outcome is Ok,
        ),
{
    value.bind(cursor, idx)
}

/// Tells whether a column of type `column` accepts `value`.
pub fn accepts_value(column: ColumnType, value: &SqlValue) -> (accepted: bool)
    ensures
        accepted == conforms(column, value@),
{
    match value {
        SqlValue::Null => column.nullable,
        SqlValue::Integer(_) => column.kind == PrimitiveKind::Integer,
        SqlValue::Text(_) => column.kind == PrimitiveKind::Text,
        SqlValue::Real(_) => column.kind == PrimitiveKind::Real,
    }
}

/// Binds `value` to the parameter at `idx`, as its column type asks: SQL
/// NULL for absence, and else the bind of the value's own kind. A value that
/// the column does not accept is rejected, and nothing is handed to the
/// engine; a value that it accepts is handed to the engine once, and the
/// bind fails only if the engine refuses it.
pub fn bind_column<C: SqlAdapterCursor>(column: ColumnType, value: &SqlValue, cursor: &mut C, idx: usize) -> (outcome: Result<(), CursorError>)
    ensures
        final(cursor).row() == old(cursor).row(),
        !conforms(column, value@) ==> outcome == Err::<(), CursorError>(CursorError::RecordMismatch)
            && final(cursor).exchanges() == old(cursor).exchanges()
            && final(cursor).history() == old(cursor).history(),
        conforms(column, value@) ==> handed(
            old(cursor).exchanges(),
            final(cursor).exchanges(),
            (CursorOp::Bind { position: idx, value: value@ }),
        ) && outcome == status_outcome(answer(final(cursor).exchanges())) && recorded(
            old(cursor).history(),
            final(cursor).history(),
            (CursorOp::Bind { position: idx, value: value@ }),
            outcome is Ok,
        ),
{
    if !accepts_value(column, value) {
        return Err(CursorError::RecordMismatch);
    }
    match value {
        SqlValue::Null => cursor.bind_null(idx),
        SqlValue::Integer(v) => cursor.bind_int(idx, *v),
        SqlValue::Text(s) => cursor.bind_str(idx, s.as_str()),
        SqlValue::Real(r) => cursor.bind_f64(idx, *r),
    }
}

/// Reads the column at `idx` of the current row as a column of type
/// `column`: absence where a nullable column holds SQL NULL, and else the
/// read of the column's kind, which fails on any other tag.
pub fn read_column<C: SqlAdapterCursor>(column: ColumnType, cursor: &C, idx: usize) -> (outcome: Result<SqlValue, CursorError>)
    ensures
        outcome matches Ok(v) ==> conforms(column, v@),
        match outcome {
            Ok(v) => read_cell(column, cell_at(cursor.row(), idx as int), idx) == Ok::<ValueModel, CursorError>(v@),
            Err(e) => read_cell(column, cell_at(cursor.row(), idx as int), idx) == Err::<ValueModel, CursorError>(e),
        },
{
    if column.nullable && cursor.is_null(idx) {
        return Ok(SqlValue::Null);
    }
    match column.kind {
        PrimitiveKind::Integer => match cursor.get_prim_int(idx) {
            Ok(v) => Ok(SqlValue::Integer(v)),
            Err(e) => Err(e),
        },
        PrimitiveKind::Text => match cursor.get_prim_str(idx) {
            Ok(s) => Ok(SqlValue::Text(s)),
            Err(e) => Err(e),
        },
        PrimitiveKind::Real => match cursor.get_prim_f64(idx) {
            Ok(r) => Ok(SqlValue::Real(r)),
            Err(e) => Err(e),
        },
    }
}

/// The round trip of a column type: every value of `T`, stored under the
/// column of `T`, is read back as itself.
pub proof fn lemma_sqltype_round_trip<T: SqlType>(value: T, position: usize)
    ensures
        read_cell(T::column(), stored(value.value()), position) == Ok::<ValueModel, CursorError>(
            value.value(),
        ),
{
    value.lemma_value_conforms();
    lemma_cell_round_trip(T::column(), value.value(), position);
}

} // verus!
