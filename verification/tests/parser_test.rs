//! End-to-end tests of `parse_schema`: the documented scenarios, the
//! error classification, and the behaviors the library's laws state.

use yaml_schema_parser::{parse_schema, SchemaErr};

#[test]
fn basic_schema() {
    let input = "schema:\n  name: shop\n  tables:\nproducts:\n  columns:\nid:\n  type: int\n  mode: required\n";
    let schema = parse_schema(input).expect("schema should parse");
    assert_eq!(schema.name, "shop");
    assert_eq!(schema.tables.len(), 1);
    assert_eq!(schema.tables[0].name, "products");
    assert_eq!(schema.tables[0].columns.len(), 1);
    assert_eq!(schema.tables[0].columns[0].name, "id");
    assert_eq!(schema.tables[0].columns[0].datatype, "int");
    assert_eq!(schema.tables[0].columns[0].mode, "required");
}

#[test]
fn two_tables_in_declared_order() {
    let input = "schema:\n  name: db\n  tables:\nusers:\n  columns:\nid:\n  type: int\n  mode: required\norders:\n  columns:\ntotal:\n  type: float\n  mode: nullable\n";
    let schema = parse_schema(input).expect("schema should parse");
    assert_eq!(schema.tables.len(), 2);
    assert_eq!(schema.tables[0].name, "users");
    assert_eq!(schema.tables[0].columns.len(), 1);
    assert_eq!(schema.tables[1].name, "orders");
    assert_eq!(schema.tables[1].columns.len(), 1);
    assert_eq!(schema.tables[1].columns[0].datatype, "float");
}

#[test]
fn unknown_datatype_is_syntax_error() {
    let input = "schema:\n  name: shop\n  tables:\nproducts:\n  columns:\nid:\n  type: uuid\n  mode: required\n";
    let err = parse_schema(input).expect_err("uuid is outside the lexical set");
    assert!(matches!(err, SchemaErr::ParseError(_)));
}

#[test]
fn unknown_mode_is_syntax_error() {
    let input = "schema:\n  name: shop\n  tables:\nproducts:\n  columns:\nid:\n  type: int\n  mode: maybe\n";
    let err = parse_schema(input).expect_err("maybe is outside the lexical set");
    assert!(matches!(err, SchemaErr::ParseError(_)));
}

#[test]
fn type_without_value_is_missing_value() {
    let input = "schema:\n  name: shop\n  tables:\nproducts:\n  columns:\nid:\n  mode: required\n  type:\n";
    let err = parse_schema(input).expect_err("the type clause has no value");
    assert_eq!(err, SchemaErr::MissingValue);
}

#[test]
fn mode_without_value_is_missing_value() {
    let input = "schema:\n  name: shop\n  tables:\nproducts:\n  columns:\nid:\n  type: int\n  mode:\n";
    let err = parse_schema(input).expect_err("the mode clause has no value");
    assert_eq!(err, SchemaErr::MissingValue);
}

#[test]
fn empty_input_is_syntax_error() {
    let err = parse_schema("").expect_err("no schema section");
    assert!(matches!(err, SchemaErr::ParseError(_)));
}

#[test]
fn missing_schema_key_is_syntax_error() {
    let input = "name: shop\ntables:\nproducts:\n  columns:\n";
    let err = parse_schema(input).expect_err("no schema key");
    assert!(matches!(err, SchemaErr::ParseError(_)));
}

#[test]
fn empty_column_section_succeeds() {
    let input = "schema:\n  name: shop\n  tables:\nempty_one:\n  columns:\nproducts:\n  columns:\nid:\n  type: int\n  mode: required\n";
    let schema = parse_schema(input).expect("empty column section is valid");
    assert_eq!(schema.tables.len(), 2);
    assert_eq!(schema.tables[0].name, "empty_one");
    assert!(schema.tables[0].columns.is_empty());
    assert_eq!(schema.tables[1].columns.len(), 1);
}

#[test]
fn trailing_empty_column_section_succeeds() {
    let input = "schema:\n  name: shop\n  tables:\nproducts:\n  columns:\n";
    let schema = parse_schema(input).expect("empty column section is valid");
    assert_eq!(schema.tables.len(), 1);
    assert!(schema.tables[0].columns.is_empty());
}

#[test]
fn clauses_accepted_in_either_order() {
    let input = "schema:\n  name: shop\n  tables:\nproducts:\n  columns:\nid:\n  mode: repeated\n  type: bool\n";
    let schema = parse_schema(input).expect("mode before type is valid");
    assert_eq!(schema.tables[0].columns[0].datatype, "bool");
    assert_eq!(schema.tables[0].columns[0].mode, "repeated");
}

#[test]
fn names_kept_verbatim() {
    let input = "schema:\n  name: My_Schema01\n  tables:\nCamelTable:\n  columns:\nMiXeD_cAsE9:\n  type: str\n  mode: nullable\n";
    let schema = parse_schema(input).expect("schema should parse");
    assert_eq!(schema.name, "My_Schema01");
    assert_eq!(schema.tables[0].name, "CamelTable");
    assert_eq!(schema.tables[0].columns[0].name, "MiXeD_cAsE9");
}

#[test]
fn reparsing_yields_equal_schema() {
    let input = "schema:\n  name: shop\n  tables:\nproducts:\n  columns:\nid:\n  type: int\n  mode: required\nname:\n  type: str\n  mode: nullable\n";
    let first = parse_schema(input).expect("schema should parse");
    let second = parse_schema(input).expect("schema should parse");
    assert_eq!(first, second);
}

#[test]
fn whitespace_variations_parse_alike() {
    let canonical = "schema:\n  name: shop\n  tables:\nproducts:\n  columns:\nid:\n  type: int\n  mode: required\n";
    let reflowed = " schema: name: shop tables: products: columns: id: type: int mode: required ";
    let a = parse_schema(canonical).expect("canonical shape parses");
    let b = parse_schema(reflowed).expect("the grammar tolerates whitespace");
    assert_eq!(a, b);
}

#[test]
fn syntax_error_names_a_position() {
    let err = parse_schema("schema:\n  name: shop\n  tables:\n").expect_err("a table is required");
    match err {
        SchemaErr::ParseError(msg) => {
            assert!(msg.starts_with("syntax error near token "));
        }
        SchemaErr::MissingValue => panic!("expected a syntax error"),
    }
}

#[test]
fn tabs_and_carriage_returns_tolerated() {
    let input = "schema:\r\n\tname: shop\r\n\ttables:\r\nproducts:\r\n\tcolumns:\r\nid:\r\n\ttype: int\r\n\tmode: required\r\n";
    let schema = parse_schema(input).expect("schema should parse");
    assert_eq!(schema.name, "shop");
    assert_eq!(schema.tables[0].columns[0].datatype, "int");
}

#[test]
fn error_position_counts_tokens() {
    let input = "schema:\n  name: shop\n  tables:\nproducts:\n  columns:\nid:\n  type: int\n  mode: required\nuuid";
    let err = parse_schema(input).expect_err("trailing token");
    match err {
        SchemaErr::ParseError(msg) => assert_eq!(msg, "syntax error near token 11"),
        SchemaErr::MissingValue => panic!("expected a syntax error"),
    }
}

#[test]
fn truncated_document_is_syntax_error() {
    let input = "schema:\n  name: shop\n  tables:\nproducts:\n";
    let err = parse_schema(input).expect_err("columns keyword is missing");
    assert!(matches!(err, SchemaErr::ParseError(_)));
}

#[test]
fn trailing_tokens_are_syntax_error() {
    let input = "schema:\n  name: shop\n  tables:\nproducts:\n  columns:\nid:\n  type: int\n  mode: required\nextra\n";
    let err = parse_schema(input).expect_err("the file rule must consume everything");
    assert!(matches!(err, SchemaErr::ParseError(_)));
}
