//! Schema-change intents: the input of the DDL planner, as the analyzer
//! lowers them from `CREATE` and `DROP` statements.

use vstd::prelude::*;
use crate::definition::{FullTableName, SchemaName, SpecFullName};
use crate::types::SqlType;

verus! {

/// What a planned column carries: its lowercased name and its type.
pub struct SpecColumnInfo {
    pub name: Seq<char>,
    pub sql_type: SqlType,
}

/// The name and type of one column of a table to create.
#[derive(Debug, PartialEq, Clone)]
pub struct ColumnInfo {
    pub name: String,
    pub sql_type: SqlType,
}

impl View for ColumnInfo {
    type V = SpecColumnInfo;

    open spec fn view(&self) -> SpecColumnInfo {
        SpecColumnInfo { name: self.name@, sql_type: self.sql_type }
    }
}

impl DeepView for ColumnInfo {
    type V = SpecColumnInfo;

    open spec fn deep_view(&self) -> SpecColumnInfo {
        self.view()
    }
}

/// What a `CREATE SCHEMA` intent carries.
pub struct SpecCreateSchemaQuery {
    pub schema_name: Seq<char>,
    pub if_not_exists: bool,
}

/// The intent of `CREATE SCHEMA [IF NOT EXISTS] name`.
#[derive(Debug, PartialEq, Clone)]
pub struct CreateSchemaQuery {
    pub schema_name: SchemaName,
    pub if_not_exists: bool,
}

impl View for CreateSchemaQuery {
    type V = SpecCreateSchemaQuery;

    open spec fn view(&self) -> SpecCreateSchemaQuery {
        SpecCreateSchemaQuery {
            schema_name: self.schema_name@,
            if_not_exists: self.if_not_exists,
        }
    }
}

/// What a `DROP SCHEMA` intent carries.
pub struct SpecDropSchemasQuery {
    pub schema_names: Seq<Seq<char>>,
    pub cascade: bool,
    pub if_exists: bool,
}

/// The intent of `DROP SCHEMA [IF EXISTS] name, ... [CASCADE]`.
#[derive(Debug, PartialEq, Clone)]
pub struct DropSchemasQuery {
    pub schema_names: Vec<SchemaName>,
    pub cascade: bool,
    pub if_exists: bool,
}

impl View for DropSchemasQuery {
    type V = SpecDropSchemasQuery;

    open spec fn view(&self) -> SpecDropSchemasQuery {
        SpecDropSchemasQuery {
            schema_names: self.schema_names.deep_view(),
            cascade: self.cascade,
            if_exists: self.if_exists,
        }
    }
}

/// What a `CREATE TABLE` intent carries.
pub struct SpecCreateTableQuery {
    pub full_table_name: SpecFullName,
    pub column_defs: Seq<SpecColumnInfo>,
    pub if_not_exists: bool,
}

/// The intent of `CREATE TABLE [IF NOT EXISTS] name (columns)`.
#[derive(Debug, PartialEq, Clone)]
pub struct CreateTableQuery {
    pub full_table_name: FullTableName,
    pub column_defs: Vec<ColumnInfo>,
    pub if_not_exists: bool,
}

impl View for CreateTableQuery {
    type V = SpecCreateTableQuery;

    open spec fn view(&self) -> SpecCreateTableQuery {
        SpecCreateTableQuery {
            full_table_name: self.full_table_name@,
            column_defs: self.column_defs.deep_view(),
            if_not_exists: self.if_not_exists,
        }
    }
}

/// What a `DROP TABLE` intent carries. The planner does not branch on
/// `cascade`; the parser supplies it for symmetry.
pub struct SpecDropTablesQuery {
    pub full_table_names: Seq<SpecFullName>,
    pub cascade: bool,
    pub if_exists: bool,
}

/// The intent of `DROP TABLE [IF EXISTS] name, ...`.
#[derive(Debug, PartialEq, Clone)]
pub struct DropTablesQuery {
    pub full_table_names: Vec<FullTableName>,
    pub cascade: bool,
    pub if_exists: bool,
}

impl View for DropTablesQuery {
    type V = SpecDropTablesQuery;

    open spec fn view(&self) -> SpecDropTablesQuery {
        SpecDropTablesQuery {
            full_table_names: self.full_table_names.deep_view(),
            cascade: self.cascade,
            if_exists: self.if_exists,
        }
    }
}

/// What a schema-change intent is.
pub enum SpecSchemaChange {
    CreateSchema(SpecCreateSchemaQuery),
    DropSchemas(SpecDropSchemasQuery),
    CreateTable(SpecCreateTableQuery),
    DropTables(SpecDropTablesQuery),
}

/// A high-level schema-change intent, ready for the DDL planner.
#[derive(Debug, PartialEq, Clone)]
pub enum SchemaChange {
    CreateSchema(CreateSchemaQuery),
    DropSchemas(DropSchemasQuery),
    CreateTable(CreateTableQuery),
    DropTables(DropTablesQuery),
}

impl View for SchemaChange {
    type V = SpecSchemaChange;

    open spec fn view(&self) -> SpecSchemaChange {
        match self {
            SchemaChange::CreateSchema(q) => SpecSchemaChange::CreateSchema(q@),
            SchemaChange::DropSchemas(q) => SpecSchemaChange::DropSchemas(q@),
            SchemaChange::CreateTable(q) => SpecSchemaChange::CreateTable(q@),
            SchemaChange::DropTables(q) => SpecSchemaChange::DropTables(q@),
        }
    }
}

} // verus!
