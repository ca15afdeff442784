use sql_engine::analyzer::{AnalysisError, Analyzer};
use sql_engine::ast::{Assignment, Expr, Ident, ObjectName, Statement};
use sql_engine::catalog::InMemoryDatabase;
use sql_engine::definition::SchemaName;
use sql_engine::schema_change::{CreateSchemaQuery, SchemaChange};

const SCHEMA: &str = "schema";

fn ident(name: &str) -> Ident {
    Ident { value: name.to_owned() }
}

fn object_name(parts: Vec<&str>) -> ObjectName {
    ObjectName(parts.into_iter().map(ident).collect())
}

fn create_schema_ops(schema: &str) -> SchemaChange {
    SchemaChange::CreateSchema(CreateSchemaQuery {
        schema_name: SchemaName::from(schema),
        if_not_exists: false,
    })
}

fn update_statement(full_name: Vec<&str>, assignments: Vec<(&str, Expr)>) -> Statement {
    Statement::Update {
        table_name: object_name(full_name),
        assignments: assignments
            .into_iter()
            .map(|(column, value)| Assignment { id: ident(column), value })
            .collect(),
    }
}

#[test]
fn general_cases_schema_does_not_exist() {
    let analyzer = Analyzer::new(InMemoryDatabase::new());

    assert_eq!(
        analyzer.analyze(update_statement(
            vec!["non_existent_schema", "non_existent_table"],
            vec![]
        )),
        Err(AnalysisError::schema_does_not_exist("non_existent_schema"))
    )
}

#[test]
fn general_cases_table_does_not_exist() {
    let mut database = InMemoryDatabase::new();
    database.execute(create_schema_ops(SCHEMA)).unwrap();
    let analyzer = Analyzer::new(database);

    assert_eq!(
        analyzer.analyze(update_statement(vec![SCHEMA, "non_existent"], vec![])),
        Err(AnalysisError::table_does_not_exist(&format!(
            "{}.{}",
            SCHEMA, "non_existent"
        )))
    );
}

#[test]
fn general_cases_table_with_unqualified_name() {
    let analyzer = Analyzer::new(InMemoryDatabase::new());
    assert_eq!(
        analyzer.analyze(update_statement(vec!["only_schema_in_the_name"], vec![])),
        Err(AnalysisError::table_does_not_exist("public.only_schema_in_the_name"))
    );
}

#[test]
fn general_cases_table_with_unsupported_name() {
    let analyzer = Analyzer::new(InMemoryDatabase::new());
    assert_eq!(
        analyzer.analyze(update_statement(
            vec!["first_part", "second_part", "third_part", "fourth_part"],
            vec![]
        )),
        Err(AnalysisError::table_naming_error(
            "Unable to process table name 'first_part.second_part.third_part.fourth_part'",
        ))
    );
}
