use sql_engine::analyzer::{AnalysisError, Analyzer, Feature, QueryAnalysis};
use sql_engine::ast::{BinaryOperator, Expr, Ident, ObjectName, Statement, Value};
use sql_engine::catalog::InMemoryDatabase;
use sql_engine::definition::{FullTableName, SchemaName};
use sql_engine::queries::{InsertQuery, UntypedWrite};
use sql_engine::schema_change::{ColumnInfo, CreateSchemaQuery, CreateTableQuery, SchemaChange};
use sql_engine::tree::{Arithmetic, Bitwise, Bool, Comparison, Logical, Operation,
    PatternMatching, StaticUntypedItem, StaticUntypedTree, StringOp, UntypedValue};
use sql_engine::types::SqlType;

const SCHEMA: &str = "schema";
const TABLE: &str = "table";

fn ident(name: &str) -> Ident {
    Ident { value: name.to_owned() }
}

fn object_name(parts: Vec<&str>) -> ObjectName {
    ObjectName(parts.into_iter().map(ident).collect())
}

fn number(value: i32) -> Value {
    Value::Number(value.to_string())
}

fn string(value: &str) -> Expr {
    Expr::Value(Value::SingleQuotedString(value.to_owned()))
}

fn boolean(value: bool) -> Expr {
    Expr::Value(Value::Boolean(value))
}

fn null() -> Expr {
    Expr::Value(Value::Null)
}

fn small_int(value: i32) -> Expr {
    Expr::Value(number(value))
}

fn create_schema(schema: &str) -> SchemaChange {
    SchemaChange::CreateSchema(CreateSchemaQuery {
        schema_name: SchemaName::from(schema),
        if_not_exists: false,
    })
}

fn create_table(schema: &str, table: &str, columns: Vec<(&str, SqlType)>) -> SchemaChange {
    SchemaChange::CreateTable(CreateTableQuery {
        full_table_name: FullTableName::from(schema, table),
        column_defs: columns
            .into_iter()
            .map(|(name, sql_type)| ColumnInfo { name: name.to_owned(), sql_type })
            .collect(),
        if_not_exists: false,
    })
}

fn inner_insert(full_name: Vec<&str>, values: Vec<Vec<Expr>>, columns: Vec<&str>) -> Statement {
    Statement::Insert {
        table_name: object_name(full_name),
        columns: columns.into_iter().map(ident).collect(),
        source: values,
    }
}

fn insert_with_values(full_name: Vec<&str>, values: Vec<Vec<Expr>>) -> Statement {
    inner_insert(full_name, values, vec![])
}

fn insert_statement(full_name: Vec<&str>) -> Statement {
    insert_with_values(full_name, vec![])
}

fn insert_with_parameters(full_name: Vec<&str>, parameters: Vec<&str>) -> Statement {
    insert_with_values(
        full_name,
        vec![parameters
            .into_iter()
            .map(ident)
            .map(Expr::Identifier)
            .collect()],
    )
}

fn insert_value_as_expression_with_operation(
    left: Expr,
    op: BinaryOperator,
    right: Expr,
) -> Statement {
    insert_with_values(
        vec![SCHEMA, TABLE],
        vec![vec![Expr::BinaryOp {
            left: Box::new(left),
            op,
            right: Box::new(right),
        }]],
    )
}

#[test]
fn insert_schema_does_not_exist() {
    let analyzer = Analyzer::new(InMemoryDatabase::new());

    assert_eq!(
        analyzer.analyze(insert_statement(vec![SCHEMA, TABLE])),
        Err(AnalysisError::schema_does_not_exist(SCHEMA))
    );
}

#[test]
fn insert_table_does_not_exist() {
    let mut database = InMemoryDatabase::new();
    database.execute(create_schema(SCHEMA)).unwrap();
    let analyzer = Analyzer::new(database);

    assert_eq!(
        analyzer.analyze(insert_statement(vec![SCHEMA, TABLE])),
        Err(AnalysisError::table_does_not_exist(&format!("{}.{}", SCHEMA, TABLE)))
    );
}

#[test]
fn insert_table_with_unqualified_name() {
    let analyzer = Analyzer::new(InMemoryDatabase::new());
    assert_eq!(
        analyzer.analyze(insert_statement(vec!["only_table_in_the_name"])),
        Err(AnalysisError::table_does_not_exist("public.only_table_in_the_name"))
    );
}

#[test]
fn insert_table_with_unsupported_name() {
    let analyzer = Analyzer::new(InMemoryDatabase::new());
    assert_eq!(
        analyzer.analyze(insert_statement(vec![
            "first_part",
            "second_part",
            "third_part",
            "fourth_part",
        ])),
        Err(AnalysisError::table_naming_error(
            "Unable to process table name 'first_part.second_part.third_part.fourth_part'",
        ))
    );
}

#[test]
fn with_column_names() {
    let mut database = InMemoryDatabase::new();
    database.execute(create_schema(SCHEMA)).unwrap();
    database
        .execute(create_table(SCHEMA, TABLE, vec![("col", SqlType::small_int())]))
        .unwrap();
    let analyzer = Analyzer::new(database);

    assert_eq!(
        analyzer.analyze(inner_insert(
            vec![SCHEMA, TABLE],
            vec![vec![small_int(100)]],
            vec!["col"]
        )),
        Ok(QueryAnalysis::Write(UntypedWrite::Insert(InsertQuery {
            full_table_name: FullTableName::from(SCHEMA, TABLE),
            values: vec![vec![Some(StaticUntypedTree::Item(StaticUntypedItem::Const(
                UntypedValue::Number("100".to_owned())
            )))]],
        })))
    );
}

#[test]
fn column_not_found() {
    let mut database = InMemoryDatabase::new();
    database.execute(create_schema(SCHEMA)).unwrap();
    database
        .execute(create_table(SCHEMA, TABLE, vec![("col", SqlType::small_int())]))
        .unwrap();
    let analyzer = Analyzer::new(database);

    assert_eq!(
        analyzer.analyze(inner_insert(
            vec![SCHEMA, TABLE],
            vec![vec![small_int(1)]],
            vec!["not_found"]
        )),
        Err(AnalysisError::column_not_found("not_found"))
    );
}

#[test]
fn insert_number() {
    let mut database = InMemoryDatabase::new();
    database.execute(create_schema(SCHEMA)).unwrap();
    database
        .execute(create_table(SCHEMA, TABLE, vec![("col", SqlType::small_int())]))
        .unwrap();
    let analyzer = Analyzer::new(database);

    assert_eq!(
        analyzer.analyze(insert_with_values(vec![SCHEMA, TABLE], vec![vec![small_int(1)]])),
        Ok(QueryAnalysis::Write(UntypedWrite::Insert(InsertQuery {
            full_table_name: FullTableName::from(SCHEMA, TABLE),
            values: vec![vec![Some(StaticUntypedTree::Item(StaticUntypedItem::Const(
                UntypedValue::Number("1".to_owned())
            )))]],
        })))
    );
}

#[test]
fn insert_string() {
    let mut database = InMemoryDatabase::new();
    database.execute(create_schema(SCHEMA)).unwrap();
    database
        .execute(create_table(SCHEMA, TABLE, vec![("col", SqlType::char(5))]))
        .unwrap();
    let analyzer = Analyzer::new(database);

    assert_eq!(
        analyzer.analyze(insert_with_values(vec![SCHEMA, TABLE], vec![vec![string("str")]])),
        Ok(QueryAnalysis::Write(UntypedWrite::Insert(InsertQuery {
            full_table_name: FullTableName::from(SCHEMA, TABLE),
            values: vec![vec![Some(StaticUntypedTree::Item(StaticUntypedItem::Const(
                UntypedValue::String("str".to_owned())
            )))]],
        })))
    );
}

#[test]
fn insert_boolean() {
    let mut database = InMemoryDatabase::new();
    database.execute(create_schema(SCHEMA)).unwrap();
    database
        .execute(create_table(SCHEMA, TABLE, vec![("col", SqlType::bool())]))
        .unwrap();
    let analyzer = Analyzer::new(database);

    assert_eq!(
        analyzer.analyze(insert_with_values(vec![SCHEMA, TABLE], vec![vec![boolean(true)]])),
        Ok(QueryAnalysis::Write(UntypedWrite::Insert(InsertQuery {
            full_table_name: FullTableName::from(SCHEMA, TABLE),
            values: vec![vec![Some(StaticUntypedTree::Item(StaticUntypedItem::Const(
                UntypedValue::Bool(Bool(true))
            )))]],
        })))
    );
}

#[test]
fn insert_null() {
    let mut database = InMemoryDatabase::new();
    database.execute(create_schema(SCHEMA)).unwrap();
    database
        .execute(create_table(SCHEMA, TABLE, vec![("col", SqlType::bool())]))
        .unwrap();
    let analyzer = Analyzer::new(database);

    assert_eq!(
        analyzer.analyze(insert_with_values(vec![SCHEMA, TABLE], vec![vec![null()]])),
        Ok(QueryAnalysis::Write(UntypedWrite::Insert(InsertQuery {
            full_table_name: FullTableName::from(SCHEMA, TABLE),
            values: vec![vec![Some(StaticUntypedTree::Item(StaticUntypedItem::Const(
                UntypedValue::Null
            )))]],
        })))
    );
}

#[test]
fn insert_identifier() {
    let mut database = InMemoryDatabase::new();
    database.execute(create_schema(SCHEMA)).unwrap();
    database
        .execute(create_table(SCHEMA, TABLE, vec![("col", SqlType::small_int())]))
        .unwrap();
    let analyzer = Analyzer::new(database);

    assert_eq!(
        analyzer.analyze(insert_with_values(
            vec![SCHEMA, TABLE],
            vec![vec![Expr::Identifier(ident("col"))]]
        )),
        Err(AnalysisError::column_cant_be_referenced("col"))
    );
}

#[test]
fn insert_into_table_with_parameters() {
    let mut database = InMemoryDatabase::new();
    database.execute(create_schema(SCHEMA)).unwrap();
    database
        .execute(create_table(
            SCHEMA,
            TABLE,
            vec![("col_1", SqlType::small_int()), ("col_2", SqlType::small_int())],
        ))
        .unwrap();
    let analyzer = Analyzer::new(database);

    assert_eq!(
        analyzer.analyze(insert_with_parameters(vec![SCHEMA, TABLE], vec!["$1", "$2"])),
        Ok(QueryAnalysis::Write(UntypedWrite::Insert(InsertQuery {
            full_table_name: FullTableName::from(SCHEMA, TABLE),
            values: vec![vec![
                Some(StaticUntypedTree::Item(StaticUntypedItem::Param(0))),
                Some(StaticUntypedTree::Item(StaticUntypedItem::Param(1)))
            ]],
        })))
    );
}

#[test]
fn insert_into_table_with_parameters_and_values() {
    let mut database = InMemoryDatabase::new();
    database.execute(create_schema(SCHEMA)).unwrap();
    database
        .execute(create_table(
            SCHEMA,
            TABLE,
            vec![("col_1", SqlType::small_int()), ("col_2", SqlType::small_int())],
        ))
        .unwrap();
    let analyzer = Analyzer::new(database);

    assert_eq!(
        analyzer.analyze(insert_with_values(
            vec![SCHEMA, TABLE],
            vec![vec![
                Expr::Identifier(ident("$1")),
                Expr::Value(number(1))
            ]]
        )),
        Ok(QueryAnalysis::Write(UntypedWrite::Insert(InsertQuery {
            full_table_name: FullTableName::from(SCHEMA, TABLE),
            values: vec![vec![
                Some(StaticUntypedTree::Item(StaticUntypedItem::Param(0))),
                Some(StaticUntypedTree::Item(StaticUntypedItem::Const(UntypedValue::Number(
                    "1".to_owned()
                ))))
            ]],
        })))
    );
}

#[test]
fn arithmetic() {
    let mut database = InMemoryDatabase::new();
    database.execute(create_schema(SCHEMA)).unwrap();
    database
        .execute(create_table(SCHEMA, TABLE, vec![("col", SqlType::small_int())]))
        .unwrap();
    let analyzer = Analyzer::new(database);

    assert_eq!(
        analyzer.analyze(insert_value_as_expression_with_operation(
            Expr::Value(number(1)),
            BinaryOperator::Plus,
            Expr::Value(number(1))
        )),
        Ok(QueryAnalysis::Write(UntypedWrite::Insert(InsertQuery {
            full_table_name: FullTableName::from(SCHEMA, TABLE),
            values: vec![vec![Some(StaticUntypedTree::Operation {
                left: Box::new(StaticUntypedTree::Item(StaticUntypedItem::Const(
                    UntypedValue::Number("1".to_owned())
                ))),
                op: Operation::Arithmetic(Arithmetic::Add),
                right: Box::new(StaticUntypedTree::Item(StaticUntypedItem::Const(
                    UntypedValue::Number("1".to_owned())
                )))
            })]],
        })))
    );
}

#[test]
fn string_operation() {
    let mut database = InMemoryDatabase::new();
    database.execute(create_schema(SCHEMA)).unwrap();
    database
        .execute(create_table(SCHEMA, TABLE, vec![("col", SqlType::var_char(255))]))
        .unwrap();
    let analyzer = Analyzer::new(database);

    assert_eq!(
        analyzer.analyze(insert_value_as_expression_with_operation(
            string("str"),
            BinaryOperator::StringConcat,
            string("str")
        )),
        Ok(QueryAnalysis::Write(UntypedWrite::Insert(InsertQuery {
            full_table_name: FullTableName::from(SCHEMA, TABLE),
            values: vec![vec![Some(StaticUntypedTree::Operation {
                left: Box::new(StaticUntypedTree::Item(StaticUntypedItem::Const(
                    UntypedValue::String("str".to_owned())
                ))),
                op: Operation::StringOp(StringOp::Concat),
                right: Box::new(StaticUntypedTree::Item(StaticUntypedItem::Const(
                    UntypedValue::String("str".to_owned())
                )))
            })]],
        })))
    );
}

#[test]
fn comparison() {
    let mut database = InMemoryDatabase::new();
    database.execute(create_schema(SCHEMA)).unwrap();
    database
        .execute(create_table(SCHEMA, TABLE, vec![("col", SqlType::bool())]))
        .unwrap();
    let analyzer = Analyzer::new(database);

    assert_eq!(
        analyzer.analyze(insert_value_as_expression_with_operation(
            Expr::Value(number(1)),
            BinaryOperator::Gt,
            Expr::Value(number(1))
        )),
        Ok(QueryAnalysis::Write(UntypedWrite::Insert(InsertQuery {
            full_table_name: FullTableName::from(SCHEMA, TABLE),
            values: vec![vec![Some(StaticUntypedTree::Operation {
                left: Box::new(StaticUntypedTree::Item(StaticUntypedItem::Const(
                    UntypedValue::Number("1".to_owned())
                ))),
                op: Operation::Comparison(Comparison::Gt),
                right: Box::new(StaticUntypedTree::Item(StaticUntypedItem::Const(
                    UntypedValue::Number("1".to_owned())
                )))
            })]],
        })))
    );
}

#[test]
fn logical() {
    let mut database = InMemoryDatabase::new();
    database.execute(create_schema(SCHEMA)).unwrap();
    database
        .execute(create_table(SCHEMA, TABLE, vec![("col", SqlType::bool())]))
        .unwrap();
    let analyzer = Analyzer::new(database);

    assert_eq!(
        analyzer.analyze(insert_value_as_expression_with_operation(
            Expr::Value(Value::Boolean(true)),
            BinaryOperator::And,
            Expr::Value(Value::Boolean(true)),
        )),
        Ok(QueryAnalysis::Write(UntypedWrite::Insert(InsertQuery {
            full_table_name: FullTableName::from(SCHEMA, TABLE),
            values: vec![vec![Some(StaticUntypedTree::Operation {
                left: Box::new(StaticUntypedTree::Item(StaticUntypedItem::Const(
                    UntypedValue::Bool(Bool(true))
                ))),
                op: Operation::Logical(Logical::And),
                right: Box::new(StaticUntypedTree::Item(StaticUntypedItem::Const(
                    UntypedValue::Bool(Bool(true))
                ))),
            })]],
        })))
    );
}

#[test]
fn bitwise() {
    let mut database = InMemoryDatabase::new();
    database.execute(create_schema(SCHEMA)).unwrap();
    database
        .execute(create_table(SCHEMA, TABLE, vec![("col", SqlType::small_int())]))
        .unwrap();
    let analyzer = Analyzer::new(database);

    assert_eq!(
        analyzer.analyze(insert_value_as_expression_with_operation(
            Expr::Value(number(1)),
            BinaryOperator::BitwiseOr,
            Expr::Value(number(1))
        )),
        Ok(QueryAnalysis::Write(UntypedWrite::Insert(InsertQuery {
            full_table_name: FullTableName::from(SCHEMA, TABLE),
            values: vec![vec![Some(StaticUntypedTree::Operation {
                left: Box::new(StaticUntypedTree::Item(StaticUntypedItem::Const(
                    UntypedValue::Number("1".to_owned())
                ))),
                op: Operation::Bitwise(Bitwise::Or),
                right: Box::new(StaticUntypedTree::Item(StaticUntypedItem::Const(
                    UntypedValue::Number("1".to_owned())
                )))
            })]],
        })))
    );
}

#[test]
fn pattern_matching() {
    let mut database = InMemoryDatabase::new();
    database.execute(create_schema(SCHEMA)).unwrap();
    database
        .execute(create_table(SCHEMA, TABLE, vec![("col", SqlType::bool())]))
        .unwrap();
    let analyzer = Analyzer::new(database);

    assert_eq!(
        analyzer.analyze(insert_value_as_expression_with_operation(
            string("s"),
            BinaryOperator::Like,
            string("str")
        )),
        Ok(QueryAnalysis::Write(UntypedWrite::Insert(InsertQuery {
            full_table_name: FullTableName::from(SCHEMA, TABLE),
            values: vec![vec![Some(StaticUntypedTree::Operation {
                left: Box::new(StaticUntypedTree::Item(StaticUntypedItem::Const(
                    UntypedValue::String("s".to_owned())
                ))),
                op: Operation::PatternMatching(PatternMatching::Like),
                right: Box::new(StaticUntypedTree::Item(StaticUntypedItem::Const(
                    UntypedValue::String("str".to_owned())
                )))
            })]],
        })))
    );
}

#[test]
fn national_strings() {
    let mut database = InMemoryDatabase::new();
    database.execute(create_schema(SCHEMA)).unwrap();
    database
        .execute(create_table(SCHEMA, TABLE, vec![("col", SqlType::small_int())]))
        .unwrap();
    let analyzer = Analyzer::new(database);

    assert_eq!(
        analyzer.analyze(insert_with_values(
            vec![SCHEMA, TABLE],
            vec![vec![Expr::Value(Value::NationalStringLiteral(
                "str".to_owned()
            ))]]
        )),
        Err(AnalysisError::FeatureNotSupported(Feature::NationalStringLiteral))
    );
}

#[test]
fn hex_strings() {
    let mut database = InMemoryDatabase::new();
    database.execute(create_schema(SCHEMA)).unwrap();
    database
        .execute(create_table(SCHEMA, TABLE, vec![("col", SqlType::small_int())]))
        .unwrap();
    let analyzer = Analyzer::new(database);

    assert_eq!(
        analyzer.analyze(insert_with_values(
            vec![SCHEMA, TABLE],
            vec![vec![Expr::Value(Value::HexStringLiteral(
                "str".to_owned()
            ))]]
        )),
        Err(AnalysisError::FeatureNotSupported(Feature::HexStringLiteral))
    );
}

#[test]
fn time_intervals() {
    let mut database = InMemoryDatabase::new();
    database.execute(create_schema(SCHEMA)).unwrap();
    database
        .execute(create_table(SCHEMA, TABLE, vec![("col", SqlType::small_int())]))
        .unwrap();
    let analyzer = Analyzer::new(database);

    assert_eq!(
        analyzer.analyze(insert_with_values(
            vec![SCHEMA, TABLE],
            vec![vec![Expr::Value(Value::Interval {
                value: "value".to_owned(),
            })]]
        )),
        Err(AnalysisError::FeatureNotSupported(Feature::TimeInterval))
    );
}
