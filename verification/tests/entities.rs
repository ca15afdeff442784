use sql_engine::ast::{Ident, ObjectName};
use sql_engine::definition::{ColumnDef, FullTableName, SchemaName, TableDef};
use sql_engine::types::SqlType;

fn ident(name: &str) -> Ident {
    Ident { value: name.to_owned() }
}

fn object_name(parts: Vec<&str>) -> ObjectName {
    ObjectName(parts.into_iter().map(ident).collect())
}

#[test]
fn full_table_name_accessors() {
    let full = FullTableName::from("schema", "table");
    assert_eq!(full.schema(), "schema");
    assert_eq!(full.table(), "table");
    assert_eq!(full.as_text(), "schema.table");
}

#[test]
fn full_table_name_from_single_segment_defaults_to_public() {
    let full = FullTableName::try_from(&object_name(vec!["Books"])).unwrap();
    assert_eq!(full.schema(), "public");
    assert_eq!(full.table(), "books");
}

#[test]
fn full_table_name_from_two_segments_lowercases_both() {
    let full = FullTableName::try_from(&object_name(vec!["Store", "Books"])).unwrap();
    assert_eq!(full.schema(), "store");
    assert_eq!(full.table(), "books");
}

#[test]
fn full_table_name_rejects_three_segments() {
    let error = FullTableName::try_from(&object_name(vec!["a", "b", "c"])).unwrap_err();
    assert_eq!(error.message(), "Unable to process table name 'a.b.c'");
}

#[test]
fn schema_name_from_single_segment() {
    let name = SchemaName::try_from(&object_name(vec!["Store"])).unwrap();
    assert_eq!(name.as_ref(), "store");
}

#[test]
fn schema_name_rejects_qualified_names() {
    let error = SchemaName::try_from(&object_name(vec!["a", "b"])).unwrap_err();
    assert_eq!(error.message(), "Only unqualified schema names are supported, 'a.b'");
}

#[test]
fn column_def_accessors() {
    let column = ColumnDef::new("col".to_owned(), SqlType::integer(), 3);
    assert_eq!(column.name(), "col");
    assert_eq!(column.sql_type(), SqlType::integer());
    assert_eq!(column.ord_num(), 3);
    assert!(column.has_name("col"));
    assert!(!column.has_name("other"));
}

#[test]
fn table_def_columns_in_declared_order() {
    let full = FullTableName::from("schema", "table");
    let table = TableDef::new(
        &full,
        vec![
            ColumnDef::new("first".to_owned(), SqlType::small_int(), 0),
            ColumnDef::new("second".to_owned(), SqlType::bool(), 1),
        ],
    );
    assert_eq!(table.column_names(), vec!["first".to_owned(), "second".to_owned()]);
    assert!(table.has_column("first"));
    assert!(table.has_column("second"));
    assert!(!table.has_column("third"));
    assert_eq!(table.columns().len(), 2);
}
