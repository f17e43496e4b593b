//! The schema model: the value that a successful parse returns.
//!
//! A document describes one schema, which holds an ordered sequence of
//! tables, each holding an ordered sequence of columns.  The model is a
//! pure output artifact of one parse call and is never mutated afterwards.

use vstd::prelude::*;

verus! {

/// A column of a table: its name, its datatype token and its mode token.
///
/// `datatype` and `mode` are empty strings only when no such clause
/// appeared in the source tree; a clause that appeared without a value
/// makes the whole parse fail instead.
#[derive(Debug, PartialEq)]
pub struct Column {
    /// The name of the column.
    pub name: String,
    /// The data type of the column: one of `int`, `str`, `float`, `bool`.
    pub datatype: String,
    /// The mode of the column: one of `nullable`, `required`, `repeated`.
    pub mode: String,
}

/// Mathematical model of a [`Column`]: its fields as character sequences.
pub ghost struct ColumnV {
    pub name: Seq<char>,
    pub datatype: Seq<char>,
    pub mode: Seq<char>,
}

impl View for Column {
    type V = ColumnV;

    open spec fn view(&self) -> ColumnV {
        ColumnV { name: self.name@, datatype: self.datatype@, mode: self.mode@ }
    }
}

/// A table of the schema: its name and its columns, in source order.
#[derive(Debug, PartialEq)]
pub struct Table {
    /// The name of the table.
    pub name: String,
    /// The columns of the table, in the order they appear in the source.
    pub columns: Vec<Column>,
}

/// Mathematical model of a [`Table`].
pub ghost struct TableV {
    pub name: Seq<char>,
    pub columns: Seq<ColumnV>,
}

impl View for Table {
    type V = TableV;

    open spec fn view(&self) -> TableV {
        TableV {
            name: self.name@,
            columns: self.columns@.map_values(|c: Column| c@),
        }
    }
}

/// A parsed schema: its name and its tables, in source order.
#[derive(Debug, PartialEq)]
pub struct Schema {
    /// The name of the schema.
    pub name: String,
    /// The tables of the schema, in the order they appear in the source.
    pub tables: Vec<Table>,
}

/// Mathematical model of a [`Schema`].
pub ghost struct SchemaV {
    pub name: Seq<char>,
    pub tables: Seq<TableV>,
}

impl View for Schema {
    type V = SchemaV;

    open spec fn view(&self) -> SchemaV {
        SchemaV {
            name: self.name@,
            tables: self.tables@.map_values(|t: Table| t@),
        }
    }
}

/// The two ways a parse can fail, both terminal for the call.
#[derive(Debug, PartialEq)]
pub enum SchemaErr {
    /// The input cannot be reduced to the grammar's `file` rule.  The
    /// payload is a human-readable description of the failure position.
    ParseError(String),
    /// A value-bearing clause (`type:` / `mode:`) was present in the
    /// parse tree but carried no value token.
    MissingValue,
}

} // verus!
