//! Per-rule grammar tests: each rule accepted on a document fragment of
//! its own shape, consuming the whole fragment.

use yaml_schema_parser::grammar::{ColumnClause, YAMLParser};
use yaml_schema_parser::token::tokenize;

#[test]
fn identifier_test() {
    let toks = tokenize("valid_identifier");
    let (text, next) = YAMLParser::parse_identifier(&toks, 0).expect("no pair");
    assert_eq!(text, "valid_identifier");
    assert_eq!(next, toks.len());
}

#[test]
fn column_mode_value_test() {
    let toks = tokenize("nullable");
    let (text, _) = YAMLParser::parse_column_mode_value(&toks, 0).expect("no pair");
    assert_eq!(text, "nullable");

    let toks = tokenize("required");
    let (text, _) = YAMLParser::parse_column_mode_value(&toks, 0).expect("no pair");
    assert_eq!(text, "required");
}

#[test]
fn column_type_value_test() {
    let toks = tokenize("int");
    let (text, _) = YAMLParser::parse_column_type_value(&toks, 0).expect("no pair");
    assert_eq!(text, "int");

    let toks = tokenize("str");
    let (text, _) = YAMLParser::parse_column_type_value(&toks, 0).expect("no pair");
    assert_eq!(text, "str");
}

#[test]
fn column_mode_test() {
    let input = "mode: required";
    let toks = tokenize(input);
    let (node, next) = YAMLParser::parse_column_mode(&toks, 0).expect("no pair");
    assert_eq!(node.value.as_deref(), Some("required"));
    assert_eq!(next, toks.len());
}

#[test]
fn column_type_test() {
    let input = "type: int";
    let toks = tokenize(input);
    let (node, next) = YAMLParser::parse_column_type(&toks, 0).expect("no pair");
    assert_eq!(node.value.as_deref(), Some("int"));
    assert_eq!(next, toks.len());
}

#[test]
fn column_entry_test() {
    let input = "column1:\n  type: int\n  mode: required\n";
    let toks = tokenize(input);
    let (node, next) = YAMLParser::parse_column_entry(&toks, 0).expect("no pair");
    assert_eq!(node.name, "column1");
    assert_eq!(node.clauses.len(), 2);
    assert!(matches!(node.clauses[0], ColumnClause::TypeClause(_)));
    assert!(matches!(node.clauses[1], ColumnClause::ModeClause(_)));
    assert_eq!(next, toks.len());
}

#[test]
fn column_section_test() {
    let input = "column1:\n  type: int\n  mode: required\n";
    let toks = tokenize(input);
    let (node, next) = YAMLParser::parse_column_section(&toks, 0);
    assert_eq!(node.entries.len(), 1);
    assert_eq!(node.entries[0].name, "column1");
    assert_eq!(next, toks.len());
}

#[test]
fn table_entry_test() {
    let input = "table1:\n  columns:\nid:\ntype: int\nmode: nullable";
    let toks = tokenize(input);
    let (node, next) = YAMLParser::parse_table_entry(&toks, 0).expect("no pair");
    assert_eq!(node.name, "table1");
    assert_eq!(node.columns.entries.len(), 1);
    assert_eq!(node.columns.entries[0].name, "id");
    assert_eq!(next, toks.len());
}

#[test]
fn table_section_test() {
    let input = "table1:\n  columns:\nid:\ntype: int\nmode: nullable\ntable2:\n  columns:\nuser_id:\ntype: str\nmode: required";
    let toks = tokenize(input);
    let (node, next) = YAMLParser::parse_table_section(&toks, 0).expect("no pair");
    assert_eq!(node.entries.len(), 2);
    assert_eq!(node.entries[0].name, "table1");
    assert_eq!(node.entries[1].name, "table2");
    assert_eq!(next, toks.len());
}

#[test]
fn schema_entry_test() {
    let input = "name: my_schema\ntables:\ntable1:\n  columns:\nid:\ntype: int\nmode: nullable";
    let toks = tokenize(input);
    let (node, next) = YAMLParser::parse_schema_entry(&toks, 0).expect("no pair");
    assert_eq!(node.name, "my_schema");
    assert_eq!(node.tables.entries.len(), 1);
    assert_eq!(next, toks.len());
}

#[test]
fn schema_section_test() {
    let input = "schema:\n  name: my_schema\n  tables:\ntable1:\n  columns:\nid:\ntype: int\nmode: nullable\n";
    let toks = tokenize(input);
    let (node, next) = YAMLParser::parse_schema_section(&toks, 0).expect("no pair");
    assert_eq!(node.entry.name, "my_schema");
    assert_eq!(node.entry.tables.entries.len(), 1);
    assert_eq!(next, toks.len());
}
