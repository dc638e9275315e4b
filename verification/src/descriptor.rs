//! From a declared record type to its descriptor: the schema, the
//! statements, and the bind and hydrate sequences, derived in one pass.

use vstd::prelude::*;
use crate::schema::{column_names, create_table_statement, insert_statement, placeholders, select_all_statement, FieldDescriptor, FieldModel, RecordSchema, SchemaModel};
use crate::text::{connect, views};
use crate::types::{ColumnType, PrimitiveKind};

verus! {

/// The value type that a field was declared with.
#[derive(Clone, Copy, Debug, PartialEq, Eq, Structural)]
pub enum DeclaredType {
    /// A primitive: the column does not admit absence.
    Primitive(PrimitiveKind),
    /// The optional wrapper around a primitive: the column admits absence.
    Optional(PrimitiveKind),
}

/// The shape of a source type.
#[derive(Clone, Copy, Debug, PartialEq, Eq, Structural)]
pub enum ItemShape {
    /// An aggregate of fields.
    Struct,
    /// Anything else.
    Other,
}

/// One field of a source type, as declared; a positional field has no name.
#[derive(Clone, Debug, PartialEq, Eq)]
pub struct SourceField {
    pub name: Option<String>,
    pub declared: DeclaredType,
}

/// A source type: its name, its shape, its parameters and its fields in
/// declaration order.
#[derive(Clone, Debug, PartialEq, Eq)]
pub struct SourceItem {
    pub name: String,
    pub shape: ItemShape,
    pub lifetime_params: usize,
    pub type_params: usize,
    pub fields: Vec<SourceField>,
}

/// The model of a source field.
pub struct SourceFieldModel {
    pub name: Option<Seq<char>>,
    pub declared: DeclaredType,
}

/// The model of a source type.
pub struct SourceItemModel {
    pub name: Seq<char>,
    pub shape: ItemShape,
    pub lifetime_params: usize,
    pub type_params: usize,
    pub fields: Seq<SourceFieldModel>,
}

impl View for SourceField {
    type V = SourceFieldModel;

    open spec fn view(&self) -> SourceFieldModel {
        SourceFieldModel {
            name: match self.name {
                Some(name) => Some(name@),
                None => None,
            },
            declared: self.declared,
        }
    }
}

impl View for SourceItem {
    type V = SourceItemModel;

    open spec fn view(&self) -> SourceItemModel {
        SourceItemModel {
            name: self.name@,
            shape: self.shape,
            lifetime_params: self.lifetime_params,
            type_params: self.type_params,
            fields: self.fields@.map_values(|field: SourceField| field@),
        }
    }
}

/// Why a source type cannot be mapped to a table.
#[derive(Clone, Copy, Debug, PartialEq, Eq, Structural)]
pub enum SchemaError {
    /// The source type is not a struct.
    NotStruct,
    /// The source type has lifetime parameters.
    LifetimeParams,
    /// The source type has type parameters.
    TypeParams,
    /// The field at `index` has no name.
    UnnamedField { index: usize },
}

/// One step of binding a record: the field at `field` is bound to the
/// parameter at the 1-based `position`, as a column of type `column`.
#[derive(Clone, Copy, Debug, PartialEq, Eq, Structural)]
pub struct BindStep {
    pub field: usize,
    pub position: usize,
    pub column: ColumnType,
}

/// One step of reading a record: the field at `field` is read from the
/// column at the 0-based `position`, as a column of type `column`.
#[derive(Clone, Copy, Debug, PartialEq, Eq, Structural)]
pub struct HydrateStep {
    pub field: usize,
    pub position: usize,
    pub column: ColumnType,
}

/// The column type that a declared type resolves to.
pub open spec fn resolve(declared: DeclaredType) -> ColumnType {
    match declared {
        DeclaredType::Primitive(kind) => ColumnType { kind, nullable: false },
        DeclaredType::Optional(kind) => ColumnType { kind, nullable: true },
    }
}

/// Whether every field has a name.
pub open spec fn all_named(fields: Seq<SourceFieldModel>) -> bool {
    forall|j: int| 0 <= j < fields.len() ==> (#[trigger] fields[j]).name is Some
}

/// Whether `index` is the position of the first field without a name.
pub open spec fn first_unnamed(fields: Seq<SourceFieldModel>, index: int) -> bool {
    &&& 0 <= index < fields.len()
    &&& fields[index].name is None
    &&& all_named(fields.take(index))
}

/// The field descriptors of named source fields, in declaration order.
pub open spec fn declared_fields(fields: Seq<SourceFieldModel>) -> Seq<FieldModel> {
    fields.map_values(
        |field: SourceFieldModel| FieldModel { name: field.name->0, column: resolve(field.declared) },
    )
}

/// The schema that a source type maps to.
pub open spec fn schema_of(item: SourceItemModel) -> SchemaModel {
    SchemaModel { table_name: item.name, fields: declared_fields(item.fields) }
}

/// The bind sequence of `fields`: field `i` goes to parameter `i + 1`.
pub open spec fn bind_steps(fields: Seq<FieldModel>) -> Seq<BindStep> {
    Seq::new(
        fields.len(),
        |i: int| BindStep { field: i as usize, position: (i + 1) as usize, column: fields[i].column },
    )
}

/// The hydrate sequence of `fields`: field `i` comes from column `i`.
pub open spec fn hydrate_steps(fields: Seq<FieldModel>) -> Seq<HydrateStep> {
    Seq::new(
        fields.len(),
        |i: int| HydrateStep { field: i as usize, position: i as usize, column: fields[i].column },
    )
}

/// Whether `error` is the reason for which `item` is rejected: the first of
/// a shape other than a struct, lifetime parameters, type parameters, and a
/// field without a name, the earliest such field being the one reported.
pub open spec fn rejects(item: SourceItemModel, error: SchemaError) -> bool {
    match error {
        SchemaError::NotStruct => item.shape != ItemShape::Struct,
        SchemaError::LifetimeParams => item.shape == ItemShape::Struct && item.lifetime_params != 0,
        SchemaError::TypeParams => item.shape == ItemShape::Struct && item.lifetime_params == 0
            && item.type_params != 0,
        SchemaError::UnnamedField { index } => item.shape == ItemShape::Struct
            && item.lifetime_params == 0 && item.type_params == 0 && first_unnamed(
            item.fields,
            index as int,
        ),
    }
}

/// Whether `item` can be mapped to a table.
pub open spec fn supported(item: SourceItemModel) -> bool {
    &&& item.shape == ItemShape::Struct
    &&& item.lifetime_params == 0
    &&& item.type_params == 0
    &&& all_named(item.fields)
}

/// A source type is rejected for some reason if and only if it is not
/// supported, and for one reason only.
pub proof fn lemma_rejected_or_supported(item: SourceItemModel)
    requires
        item.fields.len() <= usize::MAX,
    ensures
        supported(item) <==> forall|error: SchemaError| !rejects(item, error),
        forall|first: SchemaError, second: SchemaError|
            rejects(item, first) && rejects(item, second) ==> first == second,
{
    assert forall|first: SchemaError, second: SchemaError|
        rejects(item, first) && rejects(item, second) implies first == second by {
        match (first, second) {
            (SchemaError::UnnamedField { index: a }, SchemaError::UnnamedField { index: b }) => {
                if a < b {
                    assert(item.fields.take(b as int)[a as int].name is Some);
                } else if b < a {
                    assert(item.fields.take(a as int)[b as int].name is Some);
                }
            },
            _ => {},
        }
    }
    if item.shape != ItemShape::Struct {
        assert(rejects(item, SchemaError::NotStruct));
    } else if item.lifetime_params != 0 {
        assert(rejects(item, SchemaError::LifetimeParams));
    } else if item.type_params != 0 {
        assert(rejects(item, SchemaError::TypeParams));
    } else if all_named(item.fields) {
        assert forall|error: SchemaError| !rejects(item, error) by {
            match error {
                SchemaError::UnnamedField { index } => {
                    if 0 <= index < item.fields.len() {
                        assert(item.fields[index as int].name is Some);
                    }
                },
                _ => {},
            }
        }
    } else {
        let index = lemma_first_unnamed_exists(item.fields);
        assert(rejects(item, SchemaError::UnnamedField { index: index as usize }));
    }
}

/// Among fields that are not all named there is a first one without a name.
pub proof fn lemma_first_unnamed_exists(fields: Seq<SourceFieldModel>) -> (index: int)
    requires
        !all_named(fields),
    ensures
        first_unnamed(fields, index),
    decreases fields.len(),
{
    let witness = choose|j: int| 0 <= j < fields.len() && !((#[trigger] fields[j]).name is Some);
    if all_named(fields.take(witness)) {
        witness
    } else {
        let shorter = fields.take(witness);
        let index = lemma_first_unnamed_exists(shorter);
        assert(shorter.take(index) =~= fields.take(index));
        index
    }
}

/// The bind and hydrate sequences agree step by step: step `i` of either is
/// about field `i` and its column, which is bound at parameter `i + 1` and
/// read from column `i`.
pub proof fn lemma_sequences_agree(fields: Seq<FieldModel>)
    requires
        fields.len() < usize::MAX,
    ensures
        bind_steps(fields).len() == fields.len(),
        hydrate_steps(fields).len() == fields.len(),
        forall|i: int|
            0 <= i < fields.len() ==> {
                let bind = #[trigger] bind_steps(fields)[i];
                let hydrate = hydrate_steps(fields)[i];
                &&& bind.field == i
                &&& hydrate.field == i
                &&& bind.position == i + 1
                &&& hydrate.position == i
                &&& bind.column == fields[i].column
                &&& hydrate.column == fields[i].column
            },
{
}

impl DeclaredType {
    /// Returns the column type that this declared type resolves to.
    pub fn column(self) -> (column: ColumnType)
        ensures
            column == resolve(self),
    {
        match self {
            DeclaredType::Primitive(kind) => ColumnType { kind, nullable: false },
            DeclaredType::Optional(kind) => ColumnType { kind, nullable: true },
        }
    }
}

/// What one pass over the fields of a source type yields: the field
/// descriptors, the insert and select-all statements, and the bind and
/// hydrate sequences.
#[derive(Clone, Debug, PartialEq, Eq)]
pub struct TableExprs {
    pub fields: Vec<FieldDescriptor>,
    pub insert_query: String,
    pub select_query: String,
    pub bind_sequence: Vec<BindStep>,
    pub hydrate_sequence: Vec<HydrateStep>,
}

/// The models of a list of field descriptors.
pub open spec fn field_models(fields: Seq<FieldDescriptor>) -> Seq<FieldModel> {
    fields.map_values(|field: FieldDescriptor| field@)
}

/// Whether `exprs` is what the fields of `item` yield, each part derived
/// from the one declaration order.
pub open spec fn expresses(exprs: &TableExprs, item: SourceItemModel) -> bool {
    &&& field_models(exprs.fields@) == declared_fields(item.fields)
    &&& exprs.insert_query@ == insert_statement(schema_of(item))
    &&& exprs.select_query@ == select_all_statement(item.name)
    &&& exprs.bind_sequence@ == bind_steps(declared_fields(item.fields))
    &&& exprs.hydrate_sequence@ == hydrate_steps(declared_fields(item.fields))
}

/// Derives, in one pass over the fields of `item`, the field descriptors,
/// the insert and select-all statements and the bind and hydrate sequences;
/// or says why `item` is rejected.
pub fn build_exprs(item: &SourceItem) -> (outcome: Result<TableExprs, SchemaError>)
    ensures
        outcome is Ok <==> supported(item@),
        match outcome {
            Ok(exprs) => supported(item@) && expresses(&exprs, item@),
            Err(error) => rejects(item@, error),
        },
{
    match item.shape {
        ItemShape::Struct => {
            if item.lifetime_params != 0 {
                return Err(SchemaError::LifetimeParams);
            } else if item.type_params != 0 {
                return Err(SchemaError::TypeParams);
            }
        },
        ItemShape::Other => {
            return Err(SchemaError::NotStruct);
        },
    }
    let mut fields: Vec<FieldDescriptor> = Vec::new();
    let mut names: Vec<String> = Vec::new();
    let mut marks: Vec<String> = Vec::new();
    let mut binds: Vec<BindStep> = Vec::new();
    let mut hydrates: Vec<HydrateStep> = Vec::new();
    let ghost source = item@.fields;
    let mut i: usize = 0;
    while i < item.fields.len()
        invariant
            i <= item.fields.len(),
            item.shape == ItemShape::Struct,
            item.lifetime_params == 0,
            item.type_params == 0,
            source == item@.fields,
            source.len() == item.fields.len(),
            all_named(source.take(i as int)),
            field_models(fields@) == declared_fields(source.take(i as int)),
            views(names@) == column_names(declared_fields(source.take(i as int))),
            views(marks@) == placeholders(i as nat),
            binds@ == bind_steps(declared_fields(source.take(i as int))),
            hydrates@ == hydrate_steps(declared_fields(source.take(i as int))),
        decreases item.fields.len() - i,
    {
        let field = &item.fields[i];
        assert(source[i as int] == field@);
        match &field.name {
            None => {
                return Err(SchemaError::UnnamedField { index: i });
            },
            Some(name) => {
                let column = field.declared.column();
                let descriptor = FieldDescriptor { name: name.clone(), column };
                let mark = String::from_str("?");
                let bind = BindStep { field: i, position: i + 1, column };
                let hydrate = HydrateStep { field: i, position: i, column };
                proof {
                    let done = declared_fields(source.take(i as int));
                    let next = declared_fields(source.take(i + 1));
                    assert(done.len() == i && next.len() == i + 1);
                    assert(fields@.len() == field_models(fields@).len() == i);
                    assert(names@.len() == views(names@).len() == column_names(done).len() == i);
                    assert(marks@.len() == views(marks@).len() == i);
                    assert(next[i as int] == descriptor@);
                    assert forall|j: int| 0 <= j < i implies next[j] == done[j] by {
                        assert(source.take(i + 1)[j] == source.take(i as int)[j]);
                    }
                    assert forall|j: int| 0 <= j < i + 1 implies (#[trigger] source.take(
                        i + 1,
                    )[j]).name is Some by {
                        if j < i {
                            assert(source.take(i as int)[j].name is Some);
                        }
                    }
                    assert forall|j: int| 0 <= j < i + 1 implies field_models(
                        fields@.push(descriptor),
                    )[j] == next[j] by {
                        if j < i {
                            assert(field_models(fields@)[j] == done[j]);
                        }
                    }
                    assert(field_models(fields@.push(descriptor)) =~= next);
                    assert forall|j: int| 0 <= j < i + 1 implies views(names@.push(descriptor.name))[j]
                        == column_names(next)[j] by {
                        if j < i {
                            assert(views(names@)[j] == column_names(done)[j]);
                        }
                    }
                    assert(views(names@.push(descriptor.name)) =~= column_names(next));
                    assert forall|j: int| 0 <= j < i + 1 implies views(marks@.push(mark))[j]
                        == placeholders((i + 1) as nat)[j] by {
                        if j < i {
                            assert(views(marks@)[j] == placeholders(i as nat)[j]);
                        }
                    }
                    assert(views(marks@.push(mark)) =~= placeholders((i + 1) as nat));
                    assert forall|j: int| 0 <= j < i + 1 implies binds@.push(bind)[j] == bind_steps(
                        next,
                    )[j] by {
                        if j < i {
                            assert(binds@[j] == bind_steps(done)[j]);
                        }
                    }
                    assert(binds@.push(bind) =~= bind_steps(next));
                    assert forall|j: int| 0 <= j < i + 1 implies hydrates@.push(hydrate)[j]
                        == hydrate_steps(next)[j] by {
                        if j < i {
                            assert(hydrates@[j] == hydrate_steps(done)[j]);
                        }
                    }
                    assert(hydrates@.push(hydrate) =~= hydrate_steps(next));
                }
                names.push(descriptor.name.clone());
                fields.push(descriptor);
                marks.push(mark);
                binds.push(bind);
                hydrates.push(hydrate);
            },
        }
        i = i + 1;
    }
    assert(source.take(i as int) =~= source);
    let mut insert_query = String::from_str("INSERT INTO ");
    insert_query.append(item.name.as_str());
    insert_query.append(" (");
    insert_query.append(connect(&names, ", ").as_str());
    insert_query.append(") VALUES (");
    insert_query.append(connect(&marks, ", ").as_str());
    insert_query.append(");");
    let mut select_query = String::from_str("SELECT * FROM ");
    select_query.append(item.name.as_str());
    select_query.append(";");
    Ok(TableExprs { fields, insert_query, select_query, bind_sequence: binds, hydrate_sequence: hydrates })
}

/// The text of a rejection.
pub open spec fn schema_message_spec(error: SchemaError) -> Seq<char> {
    match error {
        SchemaError::NotStruct => "only struct types are supported"@,
        SchemaError::LifetimeParams => "lifetime parameters are not supported"@,
        SchemaError::TypeParams => "type parameters are not supported"@,
        SchemaError::UnnamedField { index } => "unnamed fields are not supported: field "@
            + crate::text::decimal(index as nat),
    }
}

impl SchemaError {
    /// Returns the text of this rejection, which names the offending
    /// construct.
    pub fn message(&self) -> (text: String)
        ensures
            text@ == schema_message_spec(*self),
    {
        match *self {
            SchemaError::NotStruct => String::from_str("only struct types are supported"),
            SchemaError::LifetimeParams => String::from_str("lifetime parameters are not supported"),
            SchemaError::TypeParams => String::from_str("type parameters are not supported"),
            SchemaError::UnnamedField { index } => {
                let mut text = String::from_str("unnamed fields are not supported: field ");
                crate::text::push_decimal(&mut text, index as u64);
                text
            },
        }
    }
}

/// Everything that is derived from one record type: its schema, its
/// statements, and its bind and hydrate sequences. All of it follows from the
/// schema, which is the descriptor's view.
#[derive(Debug)]
pub struct TableDescriptor {
    schema: RecordSchema,
    insert_query: String,
    select_query: String,
    bind_sequence: Vec<BindStep>,
    hydrate_sequence: Vec<HydrateStep>,
}

impl View for TableDescriptor {
    type V = SchemaModel;

    closed spec fn view(&self) -> SchemaModel {
        self.schema@
    }
}

impl TableDescriptor {
    #[verifier::type_invariant]
    spec fn synchronized(self) -> bool {
        &&& self.insert_query@ == insert_statement(self.schema@)
        &&& self.select_query@ == select_all_statement(self.schema@.table_name)
        &&& self.bind_sequence@ == bind_steps(self.schema@.fields)
        &&& self.hydrate_sequence@ == hydrate_steps(self.schema@.fields)
    }

    /// Returns the schema.
    pub fn schema(&self) -> (schema: &RecordSchema)
        ensures
            schema@ == self@,
    {
        &self.schema
    }

    /// Returns the table name.
    pub fn table_name(&self) -> (name: &str)
        ensures
            name@ == self@.table_name,
    {
        self.schema.table_name()
    }

    /// Returns the statement that creates the table unless it exists already.
    pub fn create_table_query(&self) -> (query: String)
        ensures
            query@ == create_table_statement(self@),
    {
        self.schema.create_table_query()
    }

    /// Returns the statement that inserts one record.
    pub fn insert_query(&self) -> (query: &str)
        ensures
            query@ == insert_statement(self@),
    {
        proof {
            use_type_invariant(self);
        }
        self.insert_query.as_str()
    }

    /// Returns the statement that selects every column of every row.
    pub fn select_query(&self) -> (query: &str)
        ensures
            query@ == select_all_statement(self@.table_name),
    {
        proof {
            use_type_invariant(self);
        }
        self.select_query.as_str()
    }

    /// Returns the bind sequence.
    pub fn bind_sequence(&self) -> (steps: &Vec<BindStep>)
        ensures
            steps@ == bind_steps(self@.fields),
    {
        proof {
            use_type_invariant(self);
        }
        &self.bind_sequence
    }

    /// Returns the hydrate sequence.
    pub fn hydrate_sequence(&self) -> (steps: &Vec<HydrateStep>)
        ensures
            steps@ == hydrate_steps(self@.fields),
    {
        proof {
            use_type_invariant(self);
        }
        &self.hydrate_sequence
    }
}

/// Derives the descriptor of the record type `item`, or says why `item` is
/// rejected.
pub fn expand_table(item: &SourceItem) -> (outcome: Result<TableDescriptor, SchemaError>)
    ensures
        outcome is Ok <==> supported(item@),
        match outcome {
            Ok(descriptor) => supported(item@) && descriptor@ == schema_of(item@),
            Err(error) => rejects(item@, error),
        },
{
    match build_exprs(item) {
        Err(error) => Err(error),
        Ok(exprs) => {
            let schema = RecordSchema { table_name: item.name.clone(), fields: exprs.fields };
            assert(schema@ == schema_of(item@));
            Ok(
                TableDescriptor {
                    schema,
                    insert_query: exprs.insert_query,
                    select_query: exprs.select_query,
                    bind_sequence: exprs.bind_sequence,
                    hydrate_sequence: exprs.hydrate_sequence,
                },
            )
        },
    }
}

} // verus!
