//! The derived persistence layout: purely descriptive records for tables,
//! columns, foreign-key constraints and indexes, together with their
//! mathematical models. These records are never hand-authored; table
//! derivation regenerates them identically from the same document type on
//! every run.

use vstd::prelude::*;

use crate::schema::AttributeType;

verus! {

/// The concrete SQL column types the layout uses.
#[derive(Clone, Copy, Debug, PartialEq, Eq, Structural)]
pub enum ColumnType {
    Serial,
    Uuid,
    Text,
    Varchar,
    Integer,
    Decimal,
    Date,
    TimestampTZ,
    Boolean,
}

/// The fixed mapping from abstract attribute types to SQL column types.
pub open spec fn spec_column_type_of(t: AttributeType) -> ColumnType {
    match t {
        AttributeType::Uid => ColumnType::Text,
        AttributeType::Uuid => ColumnType::Uuid,
        AttributeType::Text => ColumnType::Text,
        AttributeType::Integer => ColumnType::Integer,
        AttributeType::Decimal => ColumnType::Decimal,
        AttributeType::Date => ColumnType::Date,
        AttributeType::DateTime => ColumnType::TimestampTZ,
        AttributeType::Boolean => ColumnType::Boolean,
    }
}

pub fn column_type_of(t: AttributeType) -> (r: ColumnType)
    ensures
        r == spec_column_type_of(t),
{
    match t {
        AttributeType::Uid => ColumnType::Text,
        AttributeType::Uuid => ColumnType::Uuid,
        AttributeType::Text => ColumnType::Text,
        AttributeType::Integer => ColumnType::Integer,
        AttributeType::Decimal => ColumnType::Decimal,
        AttributeType::Date => ColumnType::Date,
        AttributeType::DateTime => ColumnType::TimestampTZ,
        AttributeType::Boolean => ColumnType::Boolean,
    }
}

/// The model of a column: the column record with strings as character
/// sequences.
#[verifier::ext_equal]
pub struct ColumnModel {
    pub name: Seq<char>,
    pub attribute_name: Option<Seq<char>>,
    pub column_type: ColumnType,
    pub column_length: Option<int>,
    pub not_null: bool,
    pub unique: bool,
    pub primary_key: bool,
    pub default_value: Option<Seq<char>>,
}

/// One column of a table.
#[derive(Debug)]
pub struct Column {
    pub name: String,
    /// The attribute this column stores, when it stores one; audit and key
    /// columns store none.
    pub attribute_name: Option<String>,
    pub column_type: ColumnType,
    pub column_length: Option<usize>,
    pub not_null: bool,
    pub unique: bool,
    pub primary_key: bool,
    pub default_value: Option<String>,
}

impl View for Column {
    type V = ColumnModel;

    open spec fn view(&self) -> ColumnModel {
        ColumnModel {
            name: self.name@,
            attribute_name: match self.attribute_name {
                Some(a) => Some(a@),
                None => None,
            },
            column_type: self.column_type,
            column_length: match self.column_length {
                Some(l) => Some(l as int),
                None => None,
            },
            not_null: self.not_null,
            unique: self.unique,
            primary_key: self.primary_key,
            default_value: match self.default_value {
                Some(d) => Some(d@),
                None => None,
            },
        }
    }
}

impl Column {
    /// An ordinary (non-key) column.
    pub fn new(
        name: &str,
        attribute_name: Option<&str>,
        column_type: ColumnType,
        column_length: Option<usize>,
        not_null: bool,
        unique: bool,
        default_value: Option<&str>,
    ) -> (r: Column)
        ensures
            r@ == (ColumnModel {
                name: name@,
                attribute_name: match attribute_name {
                    Some(a) => Some(a@),
                    None => None,
                },
                column_type,
                column_length: match column_length {
                    Some(l) => Some(l as int),
                    None => None,
                },
                not_null,
                unique,
                primary_key: false,
                default_value: match default_value {
                    Some(d) => Some(d@),
                    None => None,
                },
            }),
    {
        Column {
            name: String::from_str(name),
            attribute_name: match attribute_name {
                Some(a) => Some(String::from_str(a)),
                None => None,
            },
            column_type,
            column_length,
            not_null,
            unique,
            primary_key: false,
            default_value: match default_value {
                Some(d) => Some(String::from_str(d)),
                None => None,
            },
        }
    }

    /// A primary-key column.
    pub fn primary_key(name: &str, column_type: ColumnType, column_length: Option<usize>) -> (r:
        Column)
        ensures
            r@ == (ColumnModel {
                name: name@,
                attribute_name: None,
                column_type,
                column_length: match column_length {
                    Some(l) => Some(l as int),
                    None => None,
                },
                not_null: false,
                unique: false,
                primary_key: true,
                default_value: None,
            }),
    {
        Column {
            name: String::from_str(name),
            attribute_name: None,
            column_type,
            column_length,
            not_null: false,
            unique: false,
            primary_key: true,
            default_value: None,
        }
    }
}

/// The model of a foreign-key constraint.
#[verifier::ext_equal]
pub struct ForeignKeyConstraintModel {
    pub table_name: Seq<char>,
    pub column_name: Seq<char>,
    pub referenced_table_name: Seq<char>,
    pub referenced_column_name: Seq<char>,
}

/// A foreign-key constraint of a table.
#[derive(Debug)]
pub struct ForeignKeyConstraint {
    pub table_name: String,
    pub column_name: String,
    pub referenced_table_name: String,
    pub referenced_column_name: String,
}

impl View for ForeignKeyConstraint {
    type V = ForeignKeyConstraintModel;

    open spec fn view(&self) -> ForeignKeyConstraintModel {
        ForeignKeyConstraintModel {
            table_name: self.table_name@,
            column_name: self.column_name@,
            referenced_table_name: self.referenced_table_name@,
            referenced_column_name: self.referenced_column_name@,
        }
    }
}

impl ForeignKeyConstraint {
    pub fn new(
        table_name: &str,
        column_name: &str,
        referenced_table_name: &str,
        referenced_column_name: &str,
    ) -> (r: ForeignKeyConstraint)
        ensures
            r@ == (ForeignKeyConstraintModel {
                table_name: table_name@,
                column_name: column_name@,
                referenced_table_name: referenced_table_name@,
                referenced_column_name: referenced_column_name@,
            }),
    {
        ForeignKeyConstraint {
            table_name: String::from_str(table_name),
            column_name: String::from_str(column_name),
            referenced_table_name: String::from_str(referenced_table_name),
            referenced_column_name: String::from_str(referenced_column_name),
        }
    }
}

/// The model of an index.
#[verifier::ext_equal]
pub struct IndexModel {
    pub table_name: Seq<char>,
    pub columns: Seq<Seq<char>>,
    pub unique: bool,
}

/// An index of a table.
#[derive(Debug)]
pub struct Index {
    pub table_name: String,
    pub columns: Vec<String>,
    pub unique: bool,
}

impl View for Index {
    type V = IndexModel;

    open spec fn view(&self) -> IndexModel {
        IndexModel {
            table_name: self.table_name@,
            columns: self.columns@.map_values(|c: String| c@),
            unique: self.unique,
        }
    }
}

impl Index {
    pub fn new(table_name: &str, columns: Vec<String>, unique: bool) -> (r: Index)
        ensures
            r@ == (IndexModel {
                table_name: table_name@,
                columns: columns@.map_values(|c: String| c@),
                unique,
            }),
    {
        Index { table_name: String::from_str(table_name), columns, unique }
    }
}

/// The model of a table.
#[verifier::ext_equal]
pub struct TableModel {
    pub name: Seq<char>,
    pub columns: Seq<ColumnModel>,
    pub foreign_keys: Seq<ForeignKeyConstraintModel>,
    pub indexes: Seq<IndexModel>,
}

/// One table of the derived layout.
#[derive(Debug)]
pub struct Table {
    pub name: String,
    pub columns: Vec<Column>,
    pub foreign_keys: Vec<ForeignKeyConstraint>,
    pub indexes: Vec<Index>,
}

impl View for Table {
    type V = TableModel;

    open spec fn view(&self) -> TableModel {
        TableModel {
            name: self.name@,
            columns: self.columns@.map_values(|c: Column| c@),
            foreign_keys: self.foreign_keys@.map_values(|f: ForeignKeyConstraint| f@),
            indexes: self.indexes@.map_values(|i: Index| i@),
        }
    }
}

impl Table {
    pub fn new(
        name: String,
        columns: Vec<Column>,
        foreign_keys: Vec<ForeignKeyConstraint>,
        indexes: Vec<Index>,
    ) -> (r: Table)
        ensures
            r@ == (TableModel {
                name: name@,
                columns: columns@.map_values(|c: Column| c@),
                foreign_keys: foreign_keys@.map_values(|f: ForeignKeyConstraint| f@),
                indexes: indexes@.map_values(|i: Index| i@),
            }),
    {
        Table { name, columns, foreign_keys, indexes }
    }
}

} // verus!
