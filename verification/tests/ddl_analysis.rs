use sql_engine::analyzer::{parse_param_index, AnalysisError, Analyzer, Feature, QueryAnalysis};
use sql_engine::ast::{Assignment, BinaryOperator, ColumnDecl, DataType, Expr, Ident, ObjectName,
    ObjectType, SelectItem, Statement, UnaryOperator, Value};
use sql_engine::catalog::InMemoryDatabase;
use sql_engine::definition::{FullTableName, SchemaName};
use sql_engine::queries::{DeleteQuery, SelectQuery, UntypedWrite, UpdateQuery};
use sql_engine::schema_change::{ColumnInfo, CreateSchemaQuery, CreateTableQuery,
    DropSchemasQuery, DropTablesQuery, SchemaChange};
use sql_engine::tree::{DynamicUntypedItem, DynamicUntypedTree, UntypedValue};
use sql_engine::types::SqlType;

const SCHEMA: &str = "schema";
const TABLE: &str = "table";

fn ident(name: &str) -> Ident {
    Ident { value: name.to_owned() }
}

fn object_name(parts: Vec<&str>) -> ObjectName {
    ObjectName(parts.into_iter().map(ident).collect())
}

fn create_schema(schema: &str) -> SchemaChange {
    SchemaChange::CreateSchema(CreateSchemaQuery {
        schema_name: SchemaName::from(schema),
        if_not_exists: false,
    })
}

fn create_table(schema: &str, table: &str, columns: Vec<(&str, SqlType)>) -> SchemaChange {
    SchemaChange::CreateTable(CreateTableQuery {
        full_table_name: FullTableName::from(schema, table),
        column_defs: columns
            .into_iter()
            .map(|(name, sql_type)| ColumnInfo { name: name.to_owned(), sql_type })
            .collect(),
        if_not_exists: false,
    })
}

fn configured_analyzer(columns: Vec<(&str, SqlType)>) -> Analyzer {
    let mut database = InMemoryDatabase::new();
    database.execute(create_schema(SCHEMA)).unwrap();
    database.execute(create_table(SCHEMA, TABLE, columns)).unwrap();
    Analyzer::new(database)
}

#[test]
fn analyze_create_schema() {
    let analyzer = Analyzer::new(InMemoryDatabase::new());
    assert_eq!(
        analyzer.analyze(Statement::CreateSchema {
            schema_name: object_name(vec!["New_Schema"]),
            if_not_exists: true,
        }),
        Ok(QueryAnalysis::DataDefinition(SchemaChange::CreateSchema(CreateSchemaQuery {
            schema_name: SchemaName::from("new_schema"),
            if_not_exists: true,
        })))
    );
}

#[test]
fn analyze_create_schema_with_qualified_name() {
    let analyzer = Analyzer::new(InMemoryDatabase::new());
    assert_eq!(
        analyzer.analyze(Statement::CreateSchema {
            schema_name: object_name(vec!["one", "two"]),
            if_not_exists: false,
        }),
        Err(AnalysisError::schema_naming_error(
            "Only unqualified schema names are supported, 'one.two'"
        ))
    );
}

#[test]
fn analyze_create_table() {
    let analyzer = Analyzer::new(InMemoryDatabase::new());
    assert_eq!(
        analyzer.analyze(Statement::CreateTable {
            name: object_name(vec![SCHEMA, "Books"]),
            columns: vec![
                ColumnDecl { name: ident("Id"), data_type: DataType::SmallInt },
                ColumnDecl { name: ident("title"), data_type: DataType::Varchar(None) },
            ],
            if_not_exists: false,
        }),
        Ok(QueryAnalysis::DataDefinition(SchemaChange::CreateTable(CreateTableQuery {
            full_table_name: FullTableName::from(SCHEMA, "books"),
            column_defs: vec![
                ColumnInfo { name: "id".to_owned(), sql_type: SqlType::small_int() },
                ColumnInfo { name: "title".to_owned(), sql_type: SqlType::var_char(255) },
            ],
            if_not_exists: false,
        })))
    );
}

#[test]
fn analyze_create_table_with_unsupported_type() {
    let analyzer = Analyzer::new(InMemoryDatabase::new());
    assert_eq!(
        analyzer.analyze(Statement::CreateTable {
            name: object_name(vec![SCHEMA, TABLE]),
            columns: vec![ColumnDecl { name: ident("at"), data_type: DataType::Date }],
            if_not_exists: false,
        }),
        Err(AnalysisError::feature_not_supported(Feature::UnsupportedDataType(DataType::Date)))
    );
}

#[test]
fn analyze_drop_schemas() {
    let analyzer = Analyzer::new(InMemoryDatabase::new());
    assert_eq!(
        analyzer.analyze(Statement::Drop {
            object_type: ObjectType::Schema,
            if_exists: true,
            names: vec![object_name(vec!["First"]), object_name(vec!["second"])],
            cascade: true,
        }),
        Ok(QueryAnalysis::DataDefinition(SchemaChange::DropSchemas(DropSchemasQuery {
            schema_names: vec![SchemaName::from("first"), SchemaName::from("second")],
            cascade: true,
            if_exists: true,
        })))
    );
}

#[test]
fn analyze_drop_tables() {
    let analyzer = Analyzer::new(InMemoryDatabase::new());
    assert_eq!(
        analyzer.analyze(Statement::Drop {
            object_type: ObjectType::Table,
            if_exists: false,
            names: vec![object_name(vec!["Books"]), object_name(vec![SCHEMA, TABLE])],
            cascade: false,
        }),
        Ok(QueryAnalysis::DataDefinition(SchemaChange::DropTables(DropTablesQuery {
            full_table_names: vec![
                FullTableName::from("public", "books"),
                FullTableName::from(SCHEMA, TABLE),
            ],
            cascade: false,
            if_exists: false,
        })))
    );
}

#[test]
fn analyze_delete() {
    let analyzer = configured_analyzer(vec![("col", SqlType::integer())]);
    assert_eq!(
        analyzer.analyze(Statement::Delete { table_name: object_name(vec![SCHEMA, TABLE]) }),
        Ok(QueryAnalysis::Write(UntypedWrite::Delete(DeleteQuery {
            full_table_name: FullTableName::from(SCHEMA, TABLE),
        })))
    );
}

#[test]
fn analyze_update_assignments() {
    let analyzer = configured_analyzer(vec![("col", SqlType::integer())]);
    assert_eq!(
        analyzer.analyze(Statement::Update {
            table_name: object_name(vec![SCHEMA, TABLE]),
            assignments: vec![Assignment {
                id: ident("col"),
                value: Expr::Value(Value::Number("7".to_owned())),
            }],
        }),
        Ok(QueryAnalysis::Write(UntypedWrite::Update(UpdateQuery {
            full_table_name: FullTableName::from(SCHEMA, TABLE),
            column_names: vec!["col".to_owned()],
            assignments: vec![DynamicUntypedTree::Item(DynamicUntypedItem::Const(
                UntypedValue::Number("7".to_owned())
            ))],
        })))
    );
}

#[test]
fn analyze_update_of_unknown_column() {
    let analyzer = configured_analyzer(vec![("col", SqlType::integer())]);
    assert_eq!(
        analyzer.analyze(Statement::Update {
            table_name: object_name(vec![SCHEMA, TABLE]),
            assignments: vec![Assignment {
                id: ident("missing"),
                value: Expr::Value(Value::Number("7".to_owned())),
            }],
        }),
        Err(AnalysisError::column_not_found("missing"))
    );
}

#[test]
fn analyze_folds_identifiers_to_lowercase() {
    let analyzer = configured_analyzer(vec![("col", SqlType::integer())]);
    assert_eq!(
        analyzer.analyze(Statement::Select {
            table_name: object_name(vec!["SCHEMA", "TABLE"]),
            projection: vec![SelectItem::UnnamedExpr(Expr::Identifier(ident("COL")))],
        }),
        Ok(QueryAnalysis::Read(SelectQuery {
            full_table_name: FullTableName::from(SCHEMA, TABLE),
            projection_items: vec![DynamicUntypedTree::Item(DynamicUntypedItem::Column {
                name: "col".to_owned(),
                index: 0,
                sql_type: SqlType::integer()
            })],
        }))
    );
}

#[test]
fn analyze_unqualified_name_as_public() {
    let mut database = InMemoryDatabase::new();
    database
        .execute(create_table("public", "books", vec![("id", SqlType::integer())]))
        .unwrap();
    let analyzer = Analyzer::new(database);

    let unqualified = analyzer.analyze(Statement::Select {
        table_name: object_name(vec!["books"]),
        projection: vec![SelectItem::Wildcard],
    });
    let qualified = analyzer.analyze(Statement::Select {
        table_name: object_name(vec!["public", "books"]),
        projection: vec![SelectItem::Wildcard],
    });
    assert_eq!(unqualified, qualified);
    assert!(unqualified.is_ok());
}

#[test]
fn analyze_wildcard_expands_all_columns() {
    let analyzer = configured_analyzer(vec![
        ("first", SqlType::small_int()),
        ("second", SqlType::bool()),
    ]);
    assert_eq!(
        analyzer.analyze(Statement::Select {
            table_name: object_name(vec![SCHEMA, TABLE]),
            projection: vec![SelectItem::Wildcard],
        }),
        Ok(QueryAnalysis::Read(SelectQuery {
            full_table_name: FullTableName::from(SCHEMA, TABLE),
            projection_items: vec![
                DynamicUntypedTree::Item(DynamicUntypedItem::Column {
                    name: "first".to_owned(),
                    index: 0,
                    sql_type: SqlType::small_int()
                }),
                DynamicUntypedTree::Item(DynamicUntypedItem::Column {
                    name: "second".to_owned(),
                    index: 1,
                    sql_type: SqlType::bool()
                }),
            ],
        }))
    );
}

#[test]
fn analyze_rejects_unsupported_expression_shape() {
    let analyzer = configured_analyzer(vec![("col", SqlType::integer())]);
    let offending = Expr::UnaryOp {
        op: UnaryOperator::Minus,
        expr: Box::new(Expr::Value(Value::Number("1".to_owned()))),
    };
    assert_eq!(
        analyzer.analyze(Statement::Select {
            table_name: object_name(vec![SCHEMA, TABLE]),
            projection: vec![SelectItem::UnnamedExpr(Expr::UnaryOp {
                op: UnaryOperator::Minus,
                expr: Box::new(Expr::Value(Value::Number("1".to_owned()))),
            })],
        }),
        Err(AnalysisError::SyntaxError(Box::new(offending)))
    );
}

#[test]
fn analyze_reports_operator_when_an_operand_fails() {
    let analyzer = configured_analyzer(vec![("col", SqlType::integer())]);
    assert_eq!(
        analyzer.analyze(Statement::Select {
            table_name: object_name(vec![SCHEMA, TABLE]),
            projection: vec![SelectItem::UnnamedExpr(Expr::BinaryOp {
                left: Box::new(Expr::Identifier(ident("missing"))),
                op: BinaryOperator::Plus,
                right: Box::new(Expr::Value(Value::Number("1".to_owned()))),
            })],
        }),
        Err(AnalysisError::UndefinedFunction(
            sql_engine::tree::Operation::Arithmetic(sql_engine::tree::Arithmetic::Add)
        ))
    );
}

#[test]
fn param_index_parsing() {
    assert_eq!(parse_param_index("$1"), Some(0));
    assert_eq!(parse_param_index("$2"), Some(1));
    assert_eq!(parse_param_index("$10"), Some(9));
    assert_eq!(parse_param_index("$0"), None);
    assert_eq!(parse_param_index("$"), None);
    assert_eq!(parse_param_index("1"), None);
    assert_eq!(parse_param_index("$1x"), None);
    assert_eq!(parse_param_index("col"), None);
    assert_eq!(parse_param_index("$99999999999999999999999999"), None);
}
