//! A sample record type.

use vstd::prelude::*;
use crate::column::{optional, required};
use crate::descriptor::{expand_table, DeclaredType, ItemShape, SchemaError, SourceField, SourceItem, TableDescriptor};
use crate::record::{column_types, value_models, Table};
use crate::schema::{FieldModel, SchemaModel};
use crate::types::{PrimitiveKind, SqlValue, ValueModel};

verus! {

/// A record type of two fields: an optional integer `a` and a text `b`.
#[derive(Clone, Debug, PartialEq, Eq)]
pub struct TestTable {
    pub a: Option<i64>,
    pub b: String,
}

impl Table for TestTable {
    open spec fn schema_model() -> SchemaModel {
        SchemaModel {
            table_name: "TestTable"@,
            fields: seq![
                FieldModel { name: "a"@, column: optional(PrimitiveKind::Integer) },
                FieldModel { name: "b"@, column: required(PrimitiveKind::Text) },
            ],
        }
    }

    open spec fn values(&self) -> Seq<ValueModel> {
        seq![
            match self.a {
                Some(v) => ValueModel::Integer(v),
                None => ValueModel::Null,
            },
            ValueModel::Text(self.b@),
        ]
    }

    proof fn lemma_values_accepted(&self) {
        assert(column_types(Self::schema_model().fields)[0] == optional(PrimitiveKind::Integer));
        assert(column_types(Self::schema_model().fields)[1] == required(PrimitiveKind::Text));
    }

    fn descriptor() -> (descriptor: TableDescriptor) {
        let mut fields: Vec<SourceField> = Vec::new();
        fields.push(
            SourceField {
                name: Some(String::from_str("a")),
                declared: DeclaredType::Optional(PrimitiveKind::Integer),
            },
        );
        fields.push(
            SourceField {
                name: Some(String::from_str("b")),
                declared: DeclaredType::Primitive(PrimitiveKind::Text),
            },
        );
        let item = SourceItem {
            name: String::from_str("TestTable"),
            shape: ItemShape::Struct,
            lifetime_params: 0,
            type_params: 0,
            fields,
        };
        assert(item@.fields.len() == 2);
        assert(item@.fields[0].name == Some("a"@));
        assert(item@.fields[1].name == Some("b"@));
        match expand_table(&item) {
            Ok(descriptor) => {
                assert(descriptor@.fields =~= Self::schema_model().fields);
                descriptor
            },
            Err(error) => {
                proof {
                    match error {
                        SchemaError::UnnamedField { index } => {
                            assert(item@.fields[index as int].name is None);
                        },
                        _ => {},
                    }
                }
                unreached()
            },
        }
    }

    fn to_values(&self) -> (values: Vec<SqlValue>) {
        let mut values: Vec<SqlValue> = Vec::new();
        values.push(
            match self.a {
                Some(v) => SqlValue::Integer(v),
                None => SqlValue::Null,
            },
        );
        values.push(SqlValue::Text(self.b.clone()));
        assert(value_models(values@) =~= self.values());
        values
    }

    fn from_values(values: Vec<SqlValue>) -> (record: TestTable) {
        assert(column_types(Self::schema_model().fields)[0] == optional(PrimitiveKind::Integer));
        assert(column_types(Self::schema_model().fields)[1] == required(PrimitiveKind::Text));
        assert(value_models(values@)[0] == values[0]@);
        assert(value_models(values@)[1] == values[1]@);
        let a = match &values[0] {
            SqlValue::Integer(v) => Some(*v),
            _ => None,
        };
        let b = match &values[1] {
            SqlValue::Text(s) => s.clone(),
            _ => unreached(),
        };
        let record = TestTable { a, b };
        assert(record.values() =~= value_models(values@));
        record
    }
}

} // verus!
