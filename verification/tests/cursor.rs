use std::cell::RefCell;
use std::rc::Rc;

use sql::adapter::SqlAdapterCursor;
use sql::column::{accepts_value, bind_column, read_column};
use sql::descriptor::{expand_table, DeclaredType, ItemShape, SourceField, SourceItem, TableDescriptor};
use sql::driver::{check_status, check_step, Cell, Cursor, Database, DriverCursor, ResultCode, StoreDriver};
use sql::error::{AdapterError, ColumnTag, CursorError, InsertError, SqlError};
use sql::record::{accepts_values, bind_record, bind_values, get_row, insert_records, read_values};
use sql::sample::TestTable;
use sql::types::{ColumnType, PrimitiveKind, Real, SqlValue};
use sql::{
    bind_sqltype, column_selector, prim_typename, sql_typename, table_selector, ColumnFacade,
    SqlAdapter, SqlPrimitive, SqlType, Table,
};

/// What the statements of one store share: the rows of its only table, and
/// a record of what was asked of it.
struct Shared {
    rows: Vec<Vec<Cell>>,
    executed: Vec<String>,
    prepared: Vec<String>,
    bound: Vec<(usize, SqlValue)>,
    steps: usize,
    resets: usize,
    refuse: bool,
    refuse_reset: bool,
    errmsg: String,
}

fn shared() -> Rc<RefCell<Shared>> {
    Rc::new(RefCell::new(Shared {
        rows: Vec::new(),
        executed: Vec::new(),
        prepared: Vec::new(),
        bound: Vec::new(),
        steps: 0,
        resets: 0,
        refuse: false,
        refuse_reset: false,
        errmsg: String::new(),
    }))
}

fn cell_of(value: &SqlValue) -> Cell {
    match value {
        SqlValue::Null => Cell::Null,
        SqlValue::Integer(v) => Cell::Integer(*v),
        SqlValue::Text(s) => Cell::Text(s.clone()),
        SqlValue::Real(r) => Cell::Real(*r),
    }
}

/// A statement over rows held in memory.
struct MemoryStatement {
    shared: Rc<RefCell<Shared>>,
    inserts: bool,
    params: Vec<Cell>,
    next: usize,
    current: Vec<Cell>,
}

impl MemoryStatement {
    fn over(rows: Vec<Vec<Cell>>) -> MemoryStatement {
        let shared = shared();
        shared.borrow_mut().rows = rows;
        MemoryStatement::on(&shared, false)
    }

    fn on(shared: &Rc<RefCell<Shared>>, inserts: bool) -> MemoryStatement {
        MemoryStatement { shared: shared.clone(), inserts, params: Vec::new(), next: 0, current: Vec::new() }
    }
}

impl DriverCursor for MemoryStatement {
    fn bind_param(&mut self, idx: usize, value: &SqlValue) -> ResultCode {
        if idx == 0 {
            return ResultCode::Other(25);
        }
        while self.params.len() < idx {
            self.params.push(Cell::Null);
        }
        self.params[idx - 1] = cell_of(value);
        self.shared.borrow_mut().bound.push((idx, value.clone()));
        ResultCode::Success
    }

    fn get_column_count(&self) -> usize {
        self.current.len()
    }

    fn get_column_type(&self, idx: usize) -> ColumnTag {
        self.current[idx].tag()
    }

    fn get_int(&self, idx: usize) -> i64 {
        match &self.current[idx] {
            Cell::Integer(v) => *v,
            _ => 0,
        }
    }

    fn get_text(&self, idx: usize) -> String {
        match &self.current[idx] {
            Cell::Text(s) => s.clone(),
            _ => String::new(),
        }
    }

    fn get_f64(&self, idx: usize) -> Real {
        match &self.current[idx] {
            Cell::Real(r) => *r,
            _ => Real { bits: 0 },
        }
    }

    fn step(&mut self) -> ResultCode {
        let mut shared = self.shared.borrow_mut();
        if shared.refuse {
            shared.errmsg = "a constraint failed".to_string();
            return ResultCode::Other(19);
        }
        shared.steps += 1;
        if self.inserts {
            shared.rows.push(self.params.clone());
            ResultCode::Done
        } else if self.next < shared.rows.len() {
            self.current = shared.rows[self.next].clone();
            self.next += 1;
            ResultCode::Row
        } else {
            self.current = Vec::new();
            ResultCode::Done
        }
    }

    fn reset(&mut self) -> ResultCode {
        if self.shared.borrow().refuse_reset {
            return ResultCode::Other(21);
        }
        self.shared.borrow_mut().resets += 1;
        self.next = 0;
        ResultCode::Success
    }
}

/// A store of one table held in memory.
struct MemoryStore {
    shared: Rc<RefCell<Shared>>,
    broken: bool,
}

impl StoreDriver for MemoryStore {
    type Statement = MemoryStatement;

    fn exec(&mut self, sql: &str) -> ResultCode {
        if self.broken {
            self.shared.borrow_mut().errmsg = "the store is broken".to_string();
            return ResultCode::Other(1);
        }
        self.shared.borrow_mut().executed.push(sql.to_string());
        ResultCode::Success
    }

    fn prepare(&mut self, sql: &str) -> Result<MemoryStatement, ResultCode> {
        if self.broken {
            self.shared.borrow_mut().errmsg = "the store is broken".to_string();
            return Err(ResultCode::Other(1));
        }
        self.shared.borrow_mut().prepared.push(sql.to_string());
        Ok(MemoryStatement::on(&self.shared, sql.starts_with("INSERT")))
    }

    fn get_errmsg(&self) -> String {
        self.shared.borrow().errmsg.clone()
    }
}

fn store() -> (Rc<RefCell<Shared>>, Database<MemoryStore>) {
    let shared = shared();
    let db = Database::new(MemoryStore { shared: shared.clone(), broken: false });
    (shared, db)
}

fn sample_descriptor() -> TableDescriptor {
    <TestTable as Table>::descriptor()
}

fn sample_rows() -> Vec<Vec<Cell>> {
    vec![
        vec![Cell::Null, Cell::Text("Hello, world!".to_string())],
        vec![Cell::Integer(1), Cell::Text("Goodbye, world!".to_string())],
    ]
}

#[test]
fn primitive_typenames() {
    assert_eq!(prim_typename::<i64>(), "int");
    assert_eq!(prim_typename::<String>(), "text");
    assert_eq!(prim_typename::<Real>(), "real");
    assert_eq!(PrimitiveKind::Integer.typename(), "int");
    assert_eq!(PrimitiveKind::Text.typename(), "text");
    assert_eq!(PrimitiveKind::Real.typename(), "real");
}

#[test]
fn column_typenames() {
    assert_eq!(sql_typename::<i64>(), "int not null");
    assert_eq!(sql_typename::<String>(), "text not null");
    assert_eq!(sql_typename::<Real>(), "real not null");
    assert_eq!(sql_typename::<Option<i64>>(), "int");
    assert_eq!(sql_typename::<Option<String>>(), "text");
    assert_eq!(sql_typename::<Option<Real>>(), "real");
    assert_eq!(ColumnType { kind: PrimitiveKind::Real, nullable: false }.typename(), "real not null");
    assert_eq!(ColumnType { kind: PrimitiveKind::Text, nullable: true }.typename(), "text");
}

#[test]
fn mismatched_tag_is_reported() {
    let mut cursor = Cursor::new(MemoryStatement::over(vec![vec![Cell::Text("x".to_string()), Cell::Blob]]));
    assert_eq!(cursor.fetch_row(), Ok(true));
    let outcome = <i64 as SqlPrimitive>::prim_get(&cursor, 0);
    let expected = CursorError::TypeMismatch { expected: PrimitiveKind::Integer, actual: ColumnTag::Text, position: 0 };
    assert_eq!(outcome, Err(expected));
    assert_eq!(expected.message(), "expected column type integer but found text at column 0");
    assert_eq!(cursor.get_prim_str(0), Ok("x".to_string()));
    assert_eq!(
        cursor.get_prim_f64(1),
        Err(CursorError::TypeMismatch { expected: PrimitiveKind::Real, actual: ColumnTag::Blob, position: 1 })
    );
    assert_eq!(
        cursor.get_prim_str(1),
        Err(CursorError::TypeMismatch { expected: PrimitiveKind::Text, actual: ColumnTag::Blob, position: 1 })
    );
}

#[test]
fn a_text_is_never_coerced_to_an_integer() {
    let mut cursor = Cursor::new(MemoryStatement::over(vec![vec![Cell::Text("12".to_string())]]));
    assert_eq!(cursor.fetch_row(), Ok(true));
    let error = <i64 as SqlType>::get_col(&cursor, 0).unwrap_err();
    assert_eq!(error, CursorError::TypeMismatch { expected: PrimitiveKind::Integer, actual: ColumnTag::Text, position: 0 });
    let nullable = <Option<i64> as SqlType>::get_col(&cursor, 0).unwrap_err();
    assert_eq!(nullable, error);
}

#[test]
fn null_is_absence_only_in_a_nullable_column() {
    let mut cursor = Cursor::new(MemoryStatement::over(vec![vec![Cell::Null, Cell::Integer(7)]]));
    assert_eq!(cursor.fetch_row(), Ok(true));
    assert!(cursor.is_null(0));
    assert!(!cursor.is_null(1));
    assert_eq!(<Option<i64> as SqlType>::get_col(&cursor, 0), Ok(None));
    assert_eq!(<Option<i64> as SqlType>::get_col(&cursor, 1), Ok(Some(7)));
    assert_eq!(<i64 as SqlType>::get_col(&cursor, 1), Ok(7));
    assert_eq!(
        <i64 as SqlType>::get_col(&cursor, 0),
        Err(CursorError::TypeMismatch { expected: PrimitiveKind::Integer, actual: ColumnTag::Null, position: 0 })
    );
}

#[test]
fn a_position_beyond_the_row_reads_as_null() {
    let mut cursor = Cursor::new(MemoryStatement::over(vec![vec![Cell::Integer(7)]]));
    assert!(cursor.is_null(0));
    assert_eq!(cursor.fetch_row(), Ok(true));
    assert!(!cursor.is_null(0));
    assert!(cursor.is_null(1));
    assert_eq!(
        cursor.get_prim_int(5),
        Err(CursorError::TypeMismatch { expected: PrimitiveKind::Integer, actual: ColumnTag::Null, position: 5 })
    );
    assert_eq!(<Option<String> as SqlType>::get_col(&cursor, 3), Ok(None));
}

#[test]
fn rows_come_in_order_and_then_end() {
    let mut cursor = Cursor::new(MemoryStatement::over(vec![vec![Cell::Integer(1)], vec![Cell::Integer(2)]]));
    assert_eq!(cursor.fetch_row(), Ok(true));
    assert_eq!(cursor.get_prim_int(0), Ok(1));
    assert_eq!(cursor.fetch_row(), Ok(true));
    assert_eq!(cursor.get_prim_int(0), Ok(2));
    assert_eq!(cursor.fetch_row(), Ok(false));
    assert!(cursor.is_null(0));
    assert_eq!(cursor.reset(), Ok(()));
    assert_eq!(cursor.fetch_row(), Ok(true));
    assert_eq!(cursor.get_prim_int(0), Ok(1));
}

#[test]
fn an_unexpected_status_is_a_protocol_failure() {
    let shared = shared();
    let mut cursor = Cursor::new(MemoryStatement::on(&shared, false));
    assert_eq!(cursor.bind_int(0, 5), Err(CursorError::Protocol { code: 25 }));
    assert_eq!(cursor.bind_null(0), Err(CursorError::Protocol { code: 25 }));
    assert!(shared.borrow().bound.is_empty());
    shared.borrow_mut().refuse = true;
    assert_eq!(cursor.fetch_row(), Err(CursorError::Protocol { code: 19 }));
    assert_eq!(CursorError::Protocol { code: 19 }.message(), "unexpected return value from cursor: 19");
    assert_eq!(CursorError::Protocol { code: -7 }.message(), "unexpected return value from cursor: -7");
    assert_eq!(
        CursorError::Protocol { code: i64::MIN }.message(),
        "unexpected return value from cursor: -9223372036854775808"
    );
    assert_eq!(ResultCode::Success.number(), 0);
    assert_eq!(ResultCode::Row.number(), 100);
    assert_eq!(ResultCode::Done.number(), 101);
    assert_eq!(ResultCode::Other(21).number(), 21);
}

#[test]
fn values_are_bound_as_their_kind_and_absence_as_null() {
    let shared = shared();
    let mut cursor = Cursor::new(MemoryStatement::on(&shared, true));
    assert_eq!(bind_sqltype(&Some(5i64), &mut cursor, 1), Ok(()));
    assert_eq!(bind_sqltype(&None::<i64>, &mut cursor, 2), Ok(()));
    assert_eq!(bind_sqltype(&"abc".to_string(), &mut cursor, 3), Ok(()));
    assert_eq!(bind_sqltype(&Real { bits: 0x4009_21FB_5444_2D18 }, &mut cursor, 4), Ok(()));
    assert_eq!(bind_sqltype(&None::<String>, &mut cursor, 5), Ok(()));
    assert_eq!(bind_sqltype(&7i64, &mut cursor, 6), Ok(()));
    assert_eq!(
        shared.borrow().bound,
        vec![
            (1, SqlValue::Integer(5)),
            (2, SqlValue::Null),
            (3, SqlValue::Text("abc".to_string())),
            (4, SqlValue::Real(Real { bits: 0x4009_21FB_5444_2D18 })),
            (5, SqlValue::Null),
            (6, SqlValue::Integer(7)),
        ]
    );
}

#[test]
fn a_column_accepts_its_kind_and_absence_only_if_nullable() {
    let required = ColumnType { kind: PrimitiveKind::Integer, nullable: false };
    let optional = ColumnType { kind: PrimitiveKind::Integer, nullable: true };
    assert!(accepts_value(required, &SqlValue::Integer(1)));
    assert!(!accepts_value(required, &SqlValue::Null));
    assert!(!accepts_value(required, &SqlValue::Text("1".to_string())));
    assert!(!accepts_value(required, &SqlValue::Real(Real { bits: 1 })));
    assert!(accepts_value(optional, &SqlValue::Null));
    assert!(accepts_value(optional, &SqlValue::Integer(1)));
    assert!(!accepts_value(optional, &SqlValue::Text("1".to_string())));

    let shared = shared();
    let mut cursor = Cursor::new(MemoryStatement::on(&shared, true));
    assert_eq!(bind_column(required, &SqlValue::Null, &mut cursor, 1), Err(CursorError::RecordMismatch));
    assert!(shared.borrow().bound.is_empty());
    assert_eq!(bind_column(optional, &SqlValue::Null, &mut cursor, 1), Ok(()));
    assert_eq!(bind_column(required, &SqlValue::Integer(3), &mut cursor, 2), Ok(()));
    assert_eq!(shared.borrow().bound, vec![(1, SqlValue::Null), (2, SqlValue::Integer(3))]);
    assert_eq!(CursorError::RecordMismatch.message(), "the record does not fit the schema of its table");
}

#[test]
fn a_column_is_read_as_its_type_asks() {
    let rows = vec![vec![Cell::Null, Cell::Real(Real { bits: 42 }), Cell::Text("t".to_string())]];
    let mut cursor = Cursor::new(MemoryStatement::over(rows));
    assert_eq!(cursor.fetch_row(), Ok(true));
    let real = ColumnType { kind: PrimitiveKind::Real, nullable: false };
    let maybe_real = ColumnType { kind: PrimitiveKind::Real, nullable: true };
    let text = ColumnType { kind: PrimitiveKind::Text, nullable: false };
    assert_eq!(read_column(maybe_real, &cursor, 0), Ok(SqlValue::Null));
    assert_eq!(
        read_column(real, &cursor, 0),
        Err(CursorError::TypeMismatch { expected: PrimitiveKind::Real, actual: ColumnTag::Null, position: 0 })
    );
    assert_eq!(read_column(real, &cursor, 1), Ok(SqlValue::Real(Real { bits: 42 })));
    assert_eq!(read_column(maybe_real, &cursor, 1), Ok(SqlValue::Real(Real { bits: 42 })));
    assert_eq!(read_column(text, &cursor, 2), Ok(SqlValue::Text("t".to_string())));
    assert_eq!(
        read_column(text, &cursor, 1),
        Err(CursorError::TypeMismatch { expected: PrimitiveKind::Text, actual: ColumnTag::Float, position: 1 })
    );
    assert_eq!(
        CursorError::TypeMismatch { expected: PrimitiveKind::Text, actual: ColumnTag::Float, position: 1 }.message(),
        "expected column type text but found real at column 1"
    );
    assert_eq!(
        CursorError::TypeMismatch { expected: PrimitiveKind::Real, actual: ColumnTag::Null, position: 10 }.message(),
        "expected column type real but found null at column 10"
    );
    assert_eq!(
        CursorError::TypeMismatch { expected: PrimitiveKind::Integer, actual: ColumnTag::Blob, position: 123 }.message(),
        "expected column type integer but found blob at column 123"
    );
}

#[test]
fn a_record_is_bound_field_by_field_from_parameter_one() {
    let shared = shared();
    let mut cursor = Cursor::new(MemoryStatement::on(&shared, true));
    let record = TestTable { a: Some(1), b: "Goodbye, world!".to_string() };
    assert_eq!(bind_record(&record, &mut cursor), Ok(()));
    assert_eq!(
        shared.borrow().bound,
        vec![(1, SqlValue::Integer(1)), (2, SqlValue::Text("Goodbye, world!".to_string()))]
    );
    let values = vec![SqlValue::Null, SqlValue::Text("x".to_string())];
    assert_eq!(bind_values(&sample_descriptor(), &values, &mut cursor), Ok(()));
    assert_eq!(shared.borrow().bound.len(), 4);
    assert_eq!(shared.borrow().bound[2], (1, SqlValue::Null));
    assert_eq!(shared.borrow().bound[3], (2, SqlValue::Text("x".to_string())));
}

#[test]
fn values_that_are_no_record_of_the_schema_are_not_bound() {
    let shared = shared();
    let mut cursor = Cursor::new(MemoryStatement::on(&shared, true));
    let descriptor = sample_descriptor();
    let absent_text = vec![SqlValue::Integer(1), SqlValue::Null];
    let swapped = vec![SqlValue::Text("x".to_string()), SqlValue::Integer(1)];
    let short = vec![SqlValue::Integer(1)];
    let long = vec![SqlValue::Null, SqlValue::Text("x".to_string()), SqlValue::Null];
    let fine = vec![SqlValue::Null, SqlValue::Text("x".to_string())];
    assert!(!accepts_values(&descriptor, &absent_text));
    assert!(!accepts_values(&descriptor, &swapped));
    assert!(!accepts_values(&descriptor, &short));
    assert!(!accepts_values(&descriptor, &long));
    assert!(accepts_values(&descriptor, &fine));
    assert_eq!(bind_values(&descriptor, &absent_text, &mut cursor), Err(CursorError::RecordMismatch));
    assert_eq!(bind_values(&descriptor, &swapped, &mut cursor), Err(CursorError::RecordMismatch));
    assert_eq!(bind_values(&descriptor, &short, &mut cursor), Err(CursorError::RecordMismatch));
    assert_eq!(bind_values(&descriptor, &long, &mut cursor), Err(CursorError::RecordMismatch));
    assert!(shared.borrow().bound.is_empty());
}

#[test]
fn a_row_is_read_field_by_field_from_column_zero() {
    let mut cursor = Cursor::new(MemoryStatement::over(sample_rows()));
    let descriptor = sample_descriptor();
    assert_eq!(cursor.fetch_row(), Ok(true));
    assert_eq!(
        read_values(&descriptor, &cursor),
        Ok(vec![SqlValue::Null, SqlValue::Text("Hello, world!".to_string())])
    );
    assert_eq!(get_row::<TestTable, _>(&cursor), Ok(TestTable { a: None, b: "Hello, world!".to_string() }));
    assert_eq!(cursor.fetch_row(), Ok(true));
    assert_eq!(get_row::<TestTable, _>(&cursor), Ok(TestTable { a: Some(1), b: "Goodbye, world!".to_string() }));
}

#[test]
fn the_first_bad_column_decides_the_failure() {
    let rows = vec![vec![Cell::Text("a".to_string()), Cell::Integer(2)], vec![Cell::Integer(1), Cell::Null]];
    let mut cursor = Cursor::new(MemoryStatement::over(rows));
    assert_eq!(cursor.fetch_row(), Ok(true));
    assert_eq!(
        get_row::<TestTable, _>(&cursor),
        Err(CursorError::TypeMismatch { expected: PrimitiveKind::Integer, actual: ColumnTag::Text, position: 0 })
    );
    assert_eq!(cursor.fetch_row(), Ok(true));
    assert_eq!(
        get_row::<TestTable, _>(&cursor),
        Err(CursorError::TypeMismatch { expected: PrimitiveKind::Text, actual: ColumnTag::Null, position: 1 })
    );
}

#[test]
fn what_is_bound_and_stored_reads_back_unchanged() {
    let (_shared, mut db) = store();
    let records = vec![
        TestTable { a: None, b: String::new() },
        TestTable { a: Some(i64::MIN), b: "Hello, world!".to_string() },
        TestTable { a: Some(i64::MAX), b: "a, 'b'; ?".to_string() },
    ];
    assert_eq!(db.insert_many(&records), Ok(()));
    let mut rows = db.select_all::<TestTable>().unwrap();
    let mut found = Vec::new();
    while let Some(record) = rows.next().unwrap() {
        found.push(record);
    }
    assert_eq!(found, records);
}

#[test]
fn inserted_records_are_selected_in_order() {
    let (shared, mut db) = store();
    let records = vec![
        TestTable { a: None, b: "Hello, world!".to_string() },
        TestTable { a: Some(1), b: "Goodbye, world!".to_string() },
    ];
    assert_eq!(db.create_table_if_not_exists::<TestTable>(), Ok(()));
    assert_eq!(db.insert_many(&records), Ok(()));
    assert_eq!(shared.borrow().rows, sample_rows());

    let mut rows = db.select_all::<TestTable>().unwrap();
    assert_eq!(rows.next(), Ok(Some(TestTable { a: None, b: "Hello, world!".to_string() })));
    assert_eq!(rows.next(), Ok(Some(TestTable { a: Some(1), b: "Goodbye, world!".to_string() })));
    assert_eq!(rows.next(), Ok(None));
    assert_eq!(rows.cursor().get_prim_int(0).is_err(), true);
}

#[test]
fn a_batch_prepares_once_and_steps_and_resets_per_record() {
    let (shared, mut db) = store();
    let records = vec![
        TestTable { a: Some(1), b: "x".to_string() },
        TestTable { a: None, b: "y".to_string() },
        TestTable { a: Some(3), b: "z".to_string() },
    ];
    assert_eq!(db.insert_many(&records), Ok(()));
    let seen = shared.borrow();
    assert_eq!(seen.prepared, vec!["INSERT INTO TestTable (a, b) VALUES (?, ?);".to_string()]);
    assert_eq!(seen.steps, 3);
    assert_eq!(seen.resets, 3);
    assert_eq!(
        seen.bound,
        vec![
            (1, SqlValue::Integer(1)),
            (2, SqlValue::Text("x".to_string())),
            (1, SqlValue::Null),
            (2, SqlValue::Text("y".to_string())),
            (1, SqlValue::Integer(3)),
            (2, SqlValue::Text("z".to_string())),
        ]
    );
}

#[test]
fn an_empty_batch_still_prepares_the_statement() {
    let (shared, mut db) = store();
    assert_eq!(db.insert_many::<TestTable>(&Vec::new()), Ok(()));
    assert_eq!(shared.borrow().prepared.len(), 1);
    assert_eq!(shared.borrow().steps, 0);
    assert!(shared.borrow().rows.is_empty());
}

#[test]
fn a_failing_step_ends_the_batch() {
    let (shared, mut db) = store();
    shared.borrow_mut().refuse = true;
    let records = vec![TestTable { a: Some(1), b: "x".to_string() }, TestTable { a: None, b: "y".to_string() }];
    let failure = db.insert_many(&records).unwrap_err();
    assert_eq!(failure, SqlError::Adapter(AdapterError { message: "a constraint failed".to_string() }));
    assert_eq!(failure.message(), "a constraint failed");
    assert_eq!(shared.borrow().prepared.len(), 1);
    assert_eq!(shared.borrow().bound.len(), 2);
    assert_eq!(shared.borrow().resets, 0);

    let mut cursor = Cursor::new(MemoryStatement::on(&shared, true));
    let failure = insert_records(&mut cursor, &records).unwrap_err();
    assert_eq!(failure, InsertError::Step(CursorError::Protocol { code: 19 }));
    assert_eq!(failure.error(), CursorError::Protocol { code: 19 });
    shared.borrow_mut().refuse = false;
    assert_eq!(insert_records(&mut cursor, &records), Ok(()));
    assert_eq!(shared.borrow().rows.len(), 2);
}

#[test]
fn a_failing_reset_ends_the_batch_after_the_first_record() {
    let (shared, mut db) = store();
    shared.borrow_mut().refuse_reset = true;
    let records = vec![TestTable { a: Some(1), b: "x".to_string() }, TestTable { a: None, b: "y".to_string() }];
    assert_eq!(db.insert_many(&records), Err(SqlError::Cursor(CursorError::Protocol { code: 21 })));
    assert_eq!(shared.borrow().prepared.len(), 1);
    assert_eq!(shared.borrow().bound.len(), 2);
    assert_eq!(shared.borrow().steps, 1);
    assert_eq!(shared.borrow().rows.len(), 1);

    let mut cursor = Cursor::new(MemoryStatement::on(&shared, true));
    let failure = insert_records(&mut cursor, &records).unwrap_err();
    assert_eq!(failure, InsertError::Reset(CursorError::Protocol { code: 21 }));
    assert_eq!(InsertError::Bind(CursorError::RecordMismatch).error(), CursorError::RecordMismatch);
}

#[test]
fn an_empty_batch_hands_nothing_to_the_cursor() {
    let shared = shared();
    shared.borrow_mut().refuse = true;
    shared.borrow_mut().refuse_reset = true;
    let mut cursor = Cursor::new(MemoryStatement::on(&shared, true));
    assert_eq!(insert_records::<TestTable, _>(&mut cursor, &Vec::new()), Ok(()));
    assert!(shared.borrow().bound.is_empty());
    assert_eq!(shared.borrow().steps, 0);
    assert_eq!(shared.borrow().resets, 0);
}

#[test]
fn a_sequence_that_has_ended_stays_ended() {
    let (shared, mut db) = store();
    shared.borrow_mut().rows = sample_rows();
    let mut records = db.select_all::<TestTable>().unwrap();
    assert!(!records.is_ended());
    assert_eq!(shared.borrow().steps, 0);
    assert_eq!(records.next(), Ok(Some(TestTable { a: None, b: "Hello, world!".to_string() })));
    assert_eq!(records.next(), Ok(Some(TestTable { a: Some(1), b: "Goodbye, world!".to_string() })));
    assert!(!records.is_ended());
    assert_eq!(records.next(), Ok(None));
    assert!(records.is_ended());
    assert_eq!(shared.borrow().steps, 3);
    shared.borrow_mut().rows.push(vec![Cell::Integer(9), Cell::Text("late".to_string())]);
    assert_eq!(records.next(), Ok(None));
    assert_eq!(records.next(), Ok(None));
    assert_eq!(shared.borrow().steps, 3);

    let mut pairs = db.select_columns::<(Option<i64>, String)>("SELECT a, b FROM TestTable;").unwrap();
    assert_eq!(pairs.next(), Ok(Some((None, "Hello, world!".to_string()))));
    assert_eq!(pairs.next(), Ok(Some((Some(1), "Goodbye, world!".to_string()))));
    assert_eq!(pairs.next(), Ok(Some((Some(9), "late".to_string()))));
    assert!(!pairs.is_ended());
    assert_eq!(pairs.next(), Ok(None));
    assert!(pairs.is_ended());
    assert_eq!(pairs.next(), Ok(None));
    assert_eq!(shared.borrow().steps, 7);
}

#[test]
fn a_failing_step_does_not_end_a_sequence() {
    let (shared, mut db) = store();
    shared.borrow_mut().rows = sample_rows();
    let mut records = db.select_all::<TestTable>().unwrap();
    shared.borrow_mut().refuse = true;
    assert_eq!(records.next(), Err(CursorError::Protocol { code: 19 }));
    assert!(!records.is_ended());
    shared.borrow_mut().refuse = false;
    assert_eq!(records.next(), Ok(Some(TestTable { a: None, b: "Hello, world!".to_string() })));
}

#[test]
fn a_failure_of_the_store_carries_its_text() {
    let shared = shared();
    let mut db = Database::new(MemoryStore { shared: shared.clone(), broken: true });
    let error = db.create_table_if_not_exists::<TestTable>().unwrap_err();
    assert_eq!(error.message(), "the store is broken");
    assert!(matches!(error, SqlError::Adapter(_)));
    assert!(matches!(db.insert_many(&vec![TestTable { a: None, b: String::new() }]), Err(SqlError::Adapter(_))));
    assert!(matches!(db.select_all::<TestTable>(), Err(SqlError::Adapter(_))));
    assert!(matches!(db.select_table::<TestTable>("SELECT * FROM TestTable;"), Err(SqlError::Adapter(_))));
    assert!(matches!(db.select_columns::<(i64,)>("SELECT a FROM TestTable;"), Err(SqlError::Adapter(_))));
    assert!(db.execute("VACUUM;").is_err());
    assert!(shared.borrow().executed.is_empty());
    assert!(shared.borrow().prepared.is_empty());
}

#[test]
fn creating_a_table_executes_its_create_statement() {
    let (shared, mut db) = store();
    assert_eq!(db.create_table_if_not_exists::<TestTable>(), Ok(()));
    assert_eq!(db.create_table_if_not_exists::<TestTable>(), Ok(()));
    assert_eq!(
        shared.borrow().executed,
        vec![
            "CREATE TABLE IF NOT EXISTS TestTable (a int, b text not null);".to_string(),
            "CREATE TABLE IF NOT EXISTS TestTable (a int, b text not null);".to_string(),
        ]
    );
    assert_eq!(db.execute("VACUUM;"), Ok(()));
    assert_eq!(shared.borrow().executed.len(), 3);
}

#[test]
fn projections_read_their_slots_by_position() {
    let rows = vec![vec![Cell::Integer(1), Cell::Text("x".to_string())], vec![Cell::Null, Cell::Text("y".to_string())]];
    let mut cursor = Cursor::new(MemoryStatement::over(rows));
    assert_eq!(cursor.fetch_row(), Ok(true));
    assert_eq!(<(i64,) as ColumnFacade>::get(&cursor), Ok((1,)));
    assert_eq!(<(Option<i64>, String) as ColumnFacade>::get(&cursor), Ok((Some(1), "x".to_string())));
    assert_eq!(
        <(String, String) as ColumnFacade>::get(&cursor),
        Err(CursorError::TypeMismatch { expected: PrimitiveKind::Text, actual: ColumnTag::Integer, position: 0 })
    );
    assert_eq!(
        <(i64, i64) as ColumnFacade>::get(&cursor),
        Err(CursorError::TypeMismatch { expected: PrimitiveKind::Integer, actual: ColumnTag::Text, position: 1 })
    );
    assert_eq!(cursor.fetch_row(), Ok(true));
    assert_eq!(<(Option<i64>, String) as ColumnFacade>::get(&cursor), Ok((None, "y".to_string())));
    assert_eq!(
        <(i64,) as ColumnFacade>::get(&cursor),
        Err(CursorError::TypeMismatch { expected: PrimitiveKind::Integer, actual: ColumnTag::Null, position: 0 })
    );
}

#[test]
fn selectors_hold_their_query_and_fetch_through_it() {
    let (shared, mut db) = store();
    shared.borrow_mut().rows = sample_rows();

    let tables = table_selector::<TestTable>("SELECT * FROM TestTable;");
    assert_eq!(tables.query(), "SELECT * FROM TestTable;");
    let mut records = tables.fetch(&mut db).unwrap();
    assert_eq!(records.next(), Ok(Some(TestTable { a: None, b: "Hello, world!".to_string() })));
    assert_eq!(records.next(), Ok(Some(TestTable { a: Some(1), b: "Goodbye, world!".to_string() })));
    assert_eq!(records.next(), Ok(None));

    let columns = column_selector("SELECT a, b FROM TestTable;", None::<(Option<i64>, String)>);
    assert_eq!(columns.query(), "SELECT a, b FROM TestTable;");
    let mut pairs = columns.fetch(&mut db).unwrap();
    assert_eq!(pairs.next(), Ok(Some((None, "Hello, world!".to_string()))));
    assert_eq!(pairs.next(), Ok(Some((Some(1), "Goodbye, world!".to_string()))));
    assert_eq!(pairs.next(), Ok(None));
    assert!(pairs.cursor().is_null(0));

    assert_eq!(
        shared.borrow().prepared,
        vec!["SELECT * FROM TestTable;".to_string(), "SELECT a, b FROM TestTable;".to_string()]
    );
}

#[test]
fn a_statement_that_projects_other_columns_fails_when_a_row_is_read() {
    let (shared, mut db) = store();
    shared.borrow_mut().rows = vec![vec![Cell::Text("only".to_string())]];
    let mut records = db.select_table::<TestTable>("SELECT b FROM TestTable;").unwrap();
    assert_eq!(
        records.next(),
        Err(CursorError::TypeMismatch { expected: PrimitiveKind::Integer, actual: ColumnTag::Text, position: 0 })
    );
}

#[test]
fn a_record_type_describes_itself() {
    let item = SourceItem {
        name: "TestTable".to_string(),
        shape: ItemShape::Struct,
        lifetime_params: 0,
        type_params: 0,
        fields: vec![
            SourceField { name: Some("a".to_string()), declared: DeclaredType::Optional(PrimitiveKind::Integer) },
            SourceField { name: Some("b".to_string()), declared: DeclaredType::Primitive(PrimitiveKind::Text) },
        ],
    };
    let expanded = expand_table(&item).unwrap();
    let own = sample_descriptor();
    assert_eq!(own.schema(), expanded.schema());
    assert_eq!(sql::table_name::<TestTable>(), "TestTable");
    let record = TestTable { a: Some(4), b: "four".to_string() };
    assert_eq!(record.to_values(), vec![SqlValue::Integer(4), SqlValue::Text("four".to_string())]);
    assert_eq!(TestTable::from_values(record.to_values()), record);
    let absent = TestTable { a: None, b: String::new() };
    assert_eq!(absent.to_values(), vec![SqlValue::Null, SqlValue::Text(String::new())]);
    assert_eq!(TestTable::from_values(absent.to_values()), absent);
}

#[test]
fn a_status_is_decoded_for_what_was_asked() {
    assert_eq!(check_status(ResultCode::Success), Ok(()));
    assert_eq!(check_status(ResultCode::Row), Err(CursorError::Protocol { code: 100 }));
    assert_eq!(check_status(ResultCode::Done), Err(CursorError::Protocol { code: 101 }));
    assert_eq!(check_status(ResultCode::Other(5)), Err(CursorError::Protocol { code: 5 }));
    assert_eq!(check_step(ResultCode::Row), Ok(true));
    assert_eq!(check_step(ResultCode::Done), Ok(false));
    assert_eq!(check_step(ResultCode::Success), Err(CursorError::Protocol { code: 0 }));
    assert_eq!(check_step(ResultCode::Other(-3)), Err(CursorError::Protocol { code: -3 }));
}
