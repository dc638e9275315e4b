//! Primitive kinds, column types and values.

use vstd::prelude::*;

verus! {

/// The closed set of storable primitive kinds.
#[derive(Clone, Copy, Debug, PartialEq, Eq, Structural)]
pub enum PrimitiveKind {
    Integer,
    Text,
    Real,
}

/// A primitive kind together with its nullability.
#[derive(Clone, Copy, Debug, PartialEq, Eq, Structural)]
pub struct ColumnType {
    pub kind: PrimitiveKind,
    pub nullable: bool,
}

/// A real number, held as the bit pattern of its IEEE 754 binary64 encoding.
#[derive(Clone, Copy, Debug, PartialEq, Eq, Structural)]
pub struct Real {
    pub bits: u64,
}

/// A value as it is bound to a statement parameter.
#[derive(Clone, Debug, PartialEq, Eq)]
pub enum SqlValue {
    Null,
    Integer(i64),
    Text(String),
    Real(Real),
}

/// The mathematical model of a bound value.
pub enum ValueModel {
    Null,
    Integer(i64),
    Text(Seq<char>),
    Real(u64),
}

impl View for SqlValue {
    type V = ValueModel;

    open spec fn view(&self) -> ValueModel {
        match *self {
            SqlValue::Null => ValueModel::Null,
            SqlValue::Integer(v) => ValueModel::Integer(v),
            SqlValue::Text(s) => ValueModel::Text(s@),
            SqlValue::Real(r) => ValueModel::Real(r.bits),
        }
    }
}

/// The canonical SQL typename of a primitive kind.
pub open spec fn prim_typename_spec(kind: PrimitiveKind) -> Seq<char> {
    match kind {
        PrimitiveKind::Integer => "int"@,
        PrimitiveKind::Text => "text"@,
        PrimitiveKind::Real => "real"@,
    }
}

/// The rendered typename of a column: the primitive typename alone when the
/// column is nullable, followed by ` not null` when it is not.
pub open spec fn sql_typename_spec(column: ColumnType) -> Seq<char> {
    if column.nullable {
        prim_typename_spec(column.kind)
    } else {
        prim_typename_spec(column.kind) + " not null"@
    }
}

impl PrimitiveKind {
    /// Returns the canonical SQL typename of this kind.
    pub fn typename(self) -> (name: &'static str)
        ensures
            name@ == prim_typename_spec(self),
    {
        match self {
            PrimitiveKind::Integer => "int",
            PrimitiveKind::Text => "text",
            PrimitiveKind::Real => "real",
        }
    }
}

impl ColumnType {
    /// Returns the rendered typename of this column type.
    pub fn typename(self) -> (name: String)
        ensures
            name@ == sql_typename_spec(self),
    {
        let mut name = String::from_str(self.kind.typename());
        if !self.nullable {
            name.append(" not null");
        }
        name
    }
}

} // verus!
