//! Schemas and the statements that follow from them.

use vstd::prelude::*;
use crate::text::{connect, join, views};
use crate::types::{prim_typename_spec, sql_typename_spec, ColumnType};

verus! {

/// One declared field of a record: its column name and column type.
#[derive(Clone, Debug, PartialEq, Eq)]
pub struct FieldDescriptor {
    pub name: String,
    pub column: ColumnType,
}

/// The model of a field.
pub struct FieldModel {
    pub name: Seq<char>,
    pub column: ColumnType,
}

/// A table name with the fields of its record type, in declaration order.
#[derive(Clone, Debug, PartialEq, Eq)]
pub struct RecordSchema {
    pub table_name: String,
    pub fields: Vec<FieldDescriptor>,
}

/// The model of a schema.
pub struct SchemaModel {
    pub table_name: Seq<char>,
    pub fields: Seq<FieldModel>,
}

impl View for FieldDescriptor {
    type V = FieldModel;

    open spec fn view(&self) -> FieldModel {
        FieldModel { name: self.name@, column: self.column }
    }
}

impl View for RecordSchema {
    type V = SchemaModel;

    open spec fn view(&self) -> SchemaModel {
        SchemaModel {
            table_name: self.table_name@,
            fields: self.fields@.map_values(|field: FieldDescriptor| field@),
        }
    }
}

/// The definition of one column: its name, a space, and its rendered type.
pub open spec fn column_definition(field: FieldModel) -> Seq<char> {
    field.name + " "@ + sql_typename_spec(field.column)
}

/// The column definitions of `fields`, in declaration order.
pub open spec fn column_definitions(fields: Seq<FieldModel>) -> Seq<Seq<char>> {
    fields.map_values(|field: FieldModel| column_definition(field))
}

/// The column names of `fields`, in declaration order.
pub open spec fn column_names(fields: Seq<FieldModel>) -> Seq<Seq<char>> {
    fields.map_values(|field: FieldModel| field.name)
}

/// `count` placeholders, one for each parameter.
pub open spec fn placeholders(count: nat) -> Seq<Seq<char>> {
    Seq::new(count, |i: int| "?"@)
}

/// The statement that creates the table unless it exists already.
pub open spec fn create_table_statement(schema: SchemaModel) -> Seq<char> {
    "CREATE TABLE IF NOT EXISTS "@ + schema.table_name + " ("@ + join(
        column_definitions(schema.fields),
        ", "@,
    ) + ");"@
}

/// The statement that inserts one record, with one placeholder per field.
pub open spec fn insert_statement(schema: SchemaModel) -> Seq<char> {
    "INSERT INTO "@ + schema.table_name + " ("@ + join(column_names(schema.fields), ", "@)
        + ") VALUES ("@ + join(placeholders(schema.fields.len()), ", "@) + ");"@
}

/// The statement that selects every column of every row of a table.
pub open spec fn select_all_statement(table_name: Seq<char>) -> Seq<char> {
    "SELECT * FROM "@ + table_name + ";"@
}

impl FieldDescriptor {
    /// Returns the definition of this column.
    pub fn definition(&self) -> (text: String)
        ensures
            text@ == column_definition(self@),
    {
        let mut text = self.name.clone();
        text.append(" ");
        text.append(self.column.typename().as_str());
        text
    }
}

impl RecordSchema {
    /// Returns the table name.
    pub fn table_name(&self) -> (name: &str)
        ensures
            name@ == self@.table_name,
    {
        self.table_name.as_str()
    }

    /// Returns the statement that creates the table unless it exists already.
    pub fn create_table_query(&self) -> (query: String)
        ensures
            query@ == create_table_statement(self@),
    {
        let mut definitions: Vec<String> = Vec::new();
        let mut i: usize = 0;
        while i < self.fields.len()
            invariant
                i <= self.fields.len(),
                views(definitions@) == column_definitions(self@.fields.take(i as int)),
            decreases self.fields.len() - i,
        {
            let definition = self.fields[i].definition();
            proof {
                let done = column_definitions(self@.fields.take(i as int));
                let next = column_definitions(self@.fields.take(i + 1));
                assert(definitions@.len() == views(definitions@).len() == done.len() == i);
                assert forall|j: int| 0 <= j < i + 1 implies views(definitions@.push(definition))[j]
                    == next[j] by {
                    if j < i {
                        assert(views(definitions@)[j] == done[j]);
                    }
                }
                assert(views(definitions@.push(definition)) =~= next);
            }
            definitions.push(definition);
            i = i + 1;
        }
        assert(self@.fields.take(i as int) =~= self@.fields);
        let mut query = String::from_str("CREATE TABLE IF NOT EXISTS ");
        query.append(self.table_name.as_str());
        query.append(" (");
        query.append(connect(&definitions, ", ").as_str());
        query.append(");");
        query
    }
}

/// The create statement lists the columns in declaration order: there is one
/// definition for each field, and the definition at `i` is the name of field
/// `i`, a space, and its primitive typename, followed by ` not null` unless
/// the field is nullable.
pub proof fn lemma_create_lists_fields_in_order(schema: SchemaModel)
    ensures
        create_table_statement(schema) == "CREATE TABLE IF NOT EXISTS "@ + schema.table_name + " ("@
            + join(column_definitions(schema.fields), ", "@) + ");"@,
        column_definitions(schema.fields).len() == schema.fields.len(),
        forall|i: int|
            0 <= i < schema.fields.len() ==> #[trigger] column_definitions(schema.fields)[i]
                == schema.fields[i].name + " "@ + if schema.fields[i].column.nullable {
                prim_typename_spec(schema.fields[i].column.kind)
            } else {
                prim_typename_spec(schema.fields[i].column.kind) + " not null"@
            },
{
}

/// The insert statement names the columns in declaration order and holds one
/// placeholder for each: the column list and the placeholder list both have
/// one entry per field, the name at `i` is that of field `i`, and every
/// placeholder is `?`.
pub proof fn lemma_insert_pairs_columns_with_placeholders(schema: SchemaModel)
    ensures
        insert_statement(schema) == "INSERT INTO "@ + schema.table_name + " ("@ + join(
            column_names(schema.fields),
            ", "@,
        ) + ") VALUES ("@ + join(placeholders(schema.fields.len()), ", "@) + ");"@,
        column_names(schema.fields).len() == schema.fields.len(),
        placeholders(schema.fields.len()).len() == schema.fields.len(),
        forall|i: int|
            0 <= i < schema.fields.len() ==> #[trigger] column_names(schema.fields)[i]
                == schema.fields[i].name,
        forall|i: int|
            0 <= i < schema.fields.len() ==> #[trigger] placeholders(schema.fields.len())[i] == "?"@,
{
}

/// The create statement asks for the table only if it does not exist yet:
/// it opens with `CREATE TABLE IF NOT EXISTS `, whatever the schema.
pub proof fn lemma_create_is_conditional(schema: SchemaModel)
    ensures
        "CREATE TABLE IF NOT EXISTS "@.is_prefix_of(create_table_statement(schema)),
{
    let opening = "CREATE TABLE IF NOT EXISTS "@;
    let rest = schema.table_name + " ("@ + join(column_definitions(schema.fields), ", "@) + ");"@;
    assert(create_table_statement(schema) =~= opening + rest);
    assert((opening + rest).subrange(0, opening.len() as int) =~= opening);
}

} // verus!
