use sql::descriptor::{
    build_exprs, expand_table, BindStep, DeclaredType, HydrateStep, ItemShape, SchemaError,
    SourceField, SourceItem,
};
use sql::schema::{FieldDescriptor, RecordSchema};
use sql::types::{ColumnType, PrimitiveKind};

fn named(name: &str, declared: DeclaredType) -> SourceField {
    SourceField { name: Some(name.to_string()), declared }
}

fn positional(declared: DeclaredType) -> SourceField {
    SourceField { name: None, declared }
}

fn record(name: &str, fields: Vec<SourceField>) -> SourceItem {
    SourceItem { name: name.to_string(), shape: ItemShape::Struct, lifetime_params: 0, type_params: 0, fields }
}

fn test_table() -> SourceItem {
    record(
        "TestTable",
        vec![
            named("a", DeclaredType::Optional(PrimitiveKind::Integer)),
            named("b", DeclaredType::Primitive(PrimitiveKind::Text)),
        ],
    )
}

fn column(kind: PrimitiveKind, nullable: bool) -> ColumnType {
    ColumnType { kind, nullable }
}

#[test]
fn the_statements_of_the_sample_schema() {
    let descriptor = expand_table(&test_table()).unwrap();
    assert_eq!(descriptor.table_name(), "TestTable");
    assert_eq!(descriptor.create_table_query(), "CREATE TABLE IF NOT EXISTS TestTable (a int, b text not null);");
    assert_eq!(descriptor.insert_query(), "INSERT INTO TestTable (a, b) VALUES (?, ?);");
    assert_eq!(descriptor.select_query(), "SELECT * FROM TestTable;");
}

#[test]
fn a_declared_type_resolves_to_its_column() {
    assert_eq!(DeclaredType::Primitive(PrimitiveKind::Integer).column(), column(PrimitiveKind::Integer, false));
    assert_eq!(DeclaredType::Optional(PrimitiveKind::Integer).column(), column(PrimitiveKind::Integer, true));
    assert_eq!(DeclaredType::Primitive(PrimitiveKind::Real).column(), column(PrimitiveKind::Real, false));
    assert_eq!(DeclaredType::Optional(PrimitiveKind::Text).column(), column(PrimitiveKind::Text, true));
}

#[test]
fn one_pass_yields_fields_statements_and_sequences() {
    let exprs = build_exprs(&test_table()).unwrap();
    assert_eq!(
        exprs.fields,
        vec![
            FieldDescriptor { name: "a".to_string(), column: column(PrimitiveKind::Integer, true) },
            FieldDescriptor { name: "b".to_string(), column: column(PrimitiveKind::Text, false) },
        ]
    );
    assert_eq!(exprs.insert_query, "INSERT INTO TestTable (a, b) VALUES (?, ?);");
    assert_eq!(exprs.select_query, "SELECT * FROM TestTable;");
    assert_eq!(
        exprs.bind_sequence,
        vec![
            BindStep { field: 0, position: 1, column: column(PrimitiveKind::Integer, true) },
            BindStep { field: 1, position: 2, column: column(PrimitiveKind::Text, false) },
        ]
    );
    assert_eq!(
        exprs.hydrate_sequence,
        vec![
            HydrateStep { field: 0, position: 0, column: column(PrimitiveKind::Integer, true) },
            HydrateStep { field: 1, position: 1, column: column(PrimitiveKind::Text, false) },
        ]
    );
}

#[test]
fn columns_keep_the_declaration_order() {
    let item = record(
        "Measurement",
        vec![
            named("taken_at", DeclaredType::Primitive(PrimitiveKind::Integer)),
            named("label", DeclaredType::Optional(PrimitiveKind::Text)),
            named("value", DeclaredType::Primitive(PrimitiveKind::Real)),
            named("error", DeclaredType::Optional(PrimitiveKind::Real)),
            named("count", DeclaredType::Optional(PrimitiveKind::Integer)),
            named("unit", DeclaredType::Primitive(PrimitiveKind::Text)),
        ],
    );
    let descriptor = expand_table(&item).unwrap();
    assert_eq!(
        descriptor.create_table_query(),
        "CREATE TABLE IF NOT EXISTS Measurement (taken_at int not null, label text, value real not null, error real, count int, unit text not null);"
    );
    assert_eq!(
        descriptor.insert_query(),
        "INSERT INTO Measurement (taken_at, label, value, error, count, unit) VALUES (?, ?, ?, ?, ?, ?);"
    );
    assert_eq!(descriptor.select_query(), "SELECT * FROM Measurement;");
    assert_eq!(descriptor.insert_query().matches('?').count(), 6);
    let binds = descriptor.bind_sequence();
    let hydrates = descriptor.hydrate_sequence();
    assert_eq!(binds.len(), 6);
    assert_eq!(hydrates.len(), 6);
    for i in 0..6 {
        assert_eq!(binds[i].field, i);
        assert_eq!(binds[i].position, i + 1);
        assert_eq!(hydrates[i].field, i);
        assert_eq!(hydrates[i].position, i);
        assert_eq!(binds[i].column, descriptor.schema().fields[i].column);
        assert_eq!(hydrates[i].column, descriptor.schema().fields[i].column);
    }
}

#[test]
fn a_record_of_one_field_and_of_none() {
    let one = expand_table(&record("One", vec![named("x", DeclaredType::Primitive(PrimitiveKind::Real))])).unwrap();
    assert_eq!(one.create_table_query(), "CREATE TABLE IF NOT EXISTS One (x real not null);");
    assert_eq!(one.insert_query(), "INSERT INTO One (x) VALUES (?);");
    let none = expand_table(&record("Nothing", Vec::new())).unwrap();
    assert_eq!(none.create_table_query(), "CREATE TABLE IF NOT EXISTS Nothing ();");
    assert_eq!(none.insert_query(), "INSERT INTO Nothing () VALUES ();");
    assert_eq!(none.select_query(), "SELECT * FROM Nothing;");
    assert!(none.bind_sequence().is_empty());
    assert!(none.hydrate_sequence().is_empty());
}

#[test]
fn a_schema_renders_its_create_statement() {
    let schema = RecordSchema {
        table_name: "T".to_string(),
        fields: vec![
            FieldDescriptor { name: "k".to_string(), column: column(PrimitiveKind::Integer, false) },
            FieldDescriptor { name: "v".to_string(), column: column(PrimitiveKind::Real, true) },
        ],
    };
    assert_eq!(schema.table_name(), "T");
    assert_eq!(schema.fields[0].definition(), "k int not null");
    assert_eq!(schema.fields[1].definition(), "v real");
    assert_eq!(schema.create_table_query(), "CREATE TABLE IF NOT EXISTS T (k int not null, v real);");
}

#[test]
fn a_type_that_is_no_struct_is_rejected() {
    let mut item = test_table();
    item.shape = ItemShape::Other;
    assert_eq!(build_exprs(&item).unwrap_err(), SchemaError::NotStruct);
    item.lifetime_params = 1;
    item.type_params = 1;
    item.fields.push(positional(DeclaredType::Primitive(PrimitiveKind::Integer)));
    assert_eq!(expand_table(&item).unwrap_err(), SchemaError::NotStruct);
    assert_eq!(SchemaError::NotStruct.message(), "only struct types are supported");
}

#[test]
fn a_parameterized_type_is_rejected() {
    let mut item = test_table();
    item.type_params = 2;
    assert_eq!(expand_table(&item).unwrap_err(), SchemaError::TypeParams);
    item.lifetime_params = 1;
    assert_eq!(expand_table(&item).unwrap_err(), SchemaError::LifetimeParams);
    item.type_params = 0;
    assert_eq!(build_exprs(&item).unwrap_err(), SchemaError::LifetimeParams);
    assert_eq!(SchemaError::TypeParams.message(), "type parameters are not supported");
    assert_eq!(SchemaError::LifetimeParams.message(), "lifetime parameters are not supported");
}

#[test]
fn the_first_positional_field_is_reported() {
    let item = record(
        "Pair",
        vec![
            named("a", DeclaredType::Primitive(PrimitiveKind::Integer)),
            positional(DeclaredType::Primitive(PrimitiveKind::Integer)),
            named("c", DeclaredType::Primitive(PrimitiveKind::Integer)),
            positional(DeclaredType::Optional(PrimitiveKind::Text)),
        ],
    );
    assert_eq!(expand_table(&item).unwrap_err(), SchemaError::UnnamedField { index: 1 });
    assert_eq!(build_exprs(&item).unwrap_err(), SchemaError::UnnamedField { index: 1 });
    let tuple = record("Tuple", vec![positional(DeclaredType::Primitive(PrimitiveKind::Text))]);
    assert_eq!(expand_table(&tuple).unwrap_err(), SchemaError::UnnamedField { index: 0 });
    assert_eq!(SchemaError::UnnamedField { index: 0 }.message(), "unnamed fields are not supported: field 0");
    assert_eq!(SchemaError::UnnamedField { index: 17 }.message(), "unnamed fields are not supported: field 17");
}
