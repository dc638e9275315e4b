//! The failures of the library and their texts.

use vstd::prelude::*;
use crate::text::{push_decimal, push_signed_decimal, decimal, signed_decimal};
use crate::types::PrimitiveKind;

verus! {

/// The type tag that a driver reports for a column of the current row.
#[derive(Clone, Copy, Debug, PartialEq, Eq, Structural)]
pub enum ColumnTag {
    Integer,
    Float,
    Text,
    Blob,
    Null,
}

/// A failure of a cursor operation.
#[derive(Clone, Copy, Debug, PartialEq, Eq, Structural)]
pub enum CursorError {
    /// A column was read as one kind while the row holds another.
    TypeMismatch { expected: PrimitiveKind, actual: ColumnTag, position: usize },
    /// The driver reported a status other than the expected ones.
    Protocol { code: i64 },
    /// A value was handed to a column that does not accept it.
    RecordMismatch,
}

/// A failure of a batch insertion, by the operation that the engine refused.
#[derive(Clone, Copy, Debug, PartialEq, Eq, Structural)]
pub enum InsertError {
    /// A bind was refused, or the record was no record of the schema.
    Bind(CursorError),
    /// The step that inserts a record was refused.
    Step(CursorError),
    /// The reset after a step was refused.
    Reset(CursorError),
}

/// The failure of the cursor that a failure of an insertion holds.
pub open spec fn insert_error_spec(failure: InsertError) -> CursorError {
    match failure {
        InsertError::Bind(e) => e,
        InsertError::Step(e) => e,
        InsertError::Reset(e) => e,
    }
}

impl InsertError {
    /// Returns the failure of the cursor.
    pub fn error(self) -> (error: CursorError)
        ensures
            error == insert_error_spec(self),
    {
        match self {
            InsertError::Bind(e) => e,
            InsertError::Step(e) => e,
            InsertError::Reset(e) => e,
        }
    }
}

/// A failure to execute, prepare or step a statement, with the engine's own
/// text.
#[derive(Clone, Debug, PartialEq, Eq)]
pub struct AdapterError {
    pub message: String,
}

/// A failure of an operation on a connection.
#[derive(Clone, Debug, PartialEq, Eq)]
pub enum SqlError {
    Adapter(AdapterError),
    Cursor(CursorError),
}

/// The model of a connection failure.
pub enum SqlErrorModel {
    Adapter(Seq<char>),
    Cursor(CursorError),
}

impl View for AdapterError {
    type V = Seq<char>;

    open spec fn view(&self) -> Seq<char> {
        self.message@
    }
}

impl View for SqlError {
    type V = SqlErrorModel;

    open spec fn view(&self) -> SqlErrorModel {
        match *self {
            SqlError::Adapter(e) => SqlErrorModel::Adapter(e@),
            SqlError::Cursor(e) => SqlErrorModel::Cursor(e),
        }
    }
}

/// The name under which a tag appears in messages.
pub open spec fn tag_name_spec(tag: ColumnTag) -> Seq<char> {
    match tag {
        ColumnTag::Integer => "integer"@,
        ColumnTag::Float => "real"@,
        ColumnTag::Text => "text"@,
        ColumnTag::Blob => "blob"@,
        ColumnTag::Null => "null"@,
    }
}

/// The tag of the columns that hold a value of the given kind.
pub open spec fn tag_of_kind(kind: PrimitiveKind) -> ColumnTag {
    match kind {
        PrimitiveKind::Integer => ColumnTag::Integer,
        PrimitiveKind::Text => ColumnTag::Text,
        PrimitiveKind::Real => ColumnTag::Float,
    }
}

/// The text of a cursor failure.
pub open spec fn cursor_message_spec(error: CursorError) -> Seq<char> {
    match error {
        CursorError::TypeMismatch { expected, actual, position } => "expected column type "@
            + tag_name_spec(tag_of_kind(expected)) + " but found "@ + tag_name_spec(actual)
            + " at column "@ + decimal(position as nat),
        CursorError::Protocol { code } => "unexpected return value from cursor: "@
            + signed_decimal(code as int),
        CursorError::RecordMismatch => "the record does not fit the schema of its table"@,
    }
}

impl ColumnTag {
    /// Returns the name under which this tag appears in messages.
    pub fn name(self) -> (name: &'static str)
        ensures
            name@ == tag_name_spec(self),
    {
        match self {
            ColumnTag::Integer => "integer",
            ColumnTag::Float => "real",
            ColumnTag::Text => "text",
            ColumnTag::Blob => "blob",
            ColumnTag::Null => "null",
        }
    }

    /// Returns the tag of the columns that hold a value of `kind`.
    pub fn of_kind(kind: PrimitiveKind) -> (tag: ColumnTag)
        ensures
            tag == tag_of_kind(kind),
    {
        match kind {
            PrimitiveKind::Integer => ColumnTag::Integer,
            PrimitiveKind::Text => ColumnTag::Text,
            PrimitiveKind::Real => ColumnTag::Float,
        }
    }
}

impl CursorError {
    /// Returns the text of this failure: for a type mismatch the expected
    /// kind, the tag found and the column position; for a protocol failure
    /// the status that the driver reported; for a record mismatch a fixed
    /// sentence.
    pub fn message(&self) -> (text: String)
        ensures
            text@ == cursor_message_spec(*self),
    {
        match *self {
            CursorError::TypeMismatch { expected, actual, position } => {
                let mut text = String::from_str("expected column type ");
                text.append(ColumnTag::of_kind(expected).name());
                text.append(" but found ");
                text.append(actual.name());
                text.append(" at column ");
                push_decimal(&mut text, position as u64);
                text
            },
            CursorError::Protocol { code } => {
                let mut text = String::from_str("unexpected return value from cursor: ");
                push_signed_decimal(&mut text, code);
                text
            },
            CursorError::RecordMismatch => String::from_str(
                "the record does not fit the schema of its table",
            ),
        }
    }
}

impl AdapterError {
    /// Returns the engine's text, unchanged.
    pub fn message(&self) -> (text: String)
        ensures
            text@ == self@,
    {
        self.message.clone()
    }
}

impl SqlError {
    /// Returns the text of this failure.
    pub fn message(&self) -> (text: String)
        ensures
            text@ == match self@ {
                SqlErrorModel::Adapter(m) => m,
                SqlErrorModel::Cursor(e) => cursor_message_spec(e),
            },
    {
        match self {
            SqlError::Adapter(e) => e.message(),
            SqlError::Cursor(e) => e.message(),
        }
    }
}

} // verus!
