//! The system-operation program that the DDL planner emits and the
//! executor consumes: an ordered sequence of ordered sub-programs, each
//! targeting one object, made of existence checks, folder and file
//! operations and catalog record mutations.

use vstd::prelude::*;
use crate::types::SqlType;

verus! {

/// The kind of catalog object an operation is about.
#[derive(Debug, PartialEq, Eq, Structural, Copy, Clone)]
pub enum SystemObject {
    Schema,
    Table,
}

/// Whether an operation creates or drops its object.
#[derive(Debug, PartialEq, Eq, Structural, Copy, Clone)]
pub enum Kind {
    Create(SystemObject),
    Drop(SystemObject),
}

/// The object state that makes the executor skip a sub-program as a
/// no-op: `Exists` mirrors `IF NOT EXISTS`, `NotExists` mirrors
/// `IF EXISTS`.
#[derive(Debug, PartialEq, Eq, Structural, Copy, Clone)]
pub enum ObjectState {
    Exists,
    NotExists,
}

/// What a catalog record mutation carries.
pub enum SpecRecord {
    Schema { schema_name: Seq<char> },
    Table { schema_name: Seq<char>, table_name: Seq<char> },
    Column {
        schema_name: Seq<char>,
        table_name: Seq<char>,
        column_name: Seq<char>,
        sql_type: SqlType,
    },
}

/// One catalog row: a schema, a table, or a column with its type.
#[derive(Debug, PartialEq, Clone)]
pub enum Record {
    Schema { schema_name: String },
    Table { schema_name: String, table_name: String },
    Column { schema_name: String, table_name: String, column_name: String, sql_type: SqlType },
}

impl View for Record {
    type V = SpecRecord;

    open spec fn view(&self) -> SpecRecord {
        match self {
            Record::Schema { schema_name } => SpecRecord::Schema { schema_name: schema_name@ },
            Record::Table { schema_name, table_name } => SpecRecord::Table {
                schema_name: schema_name@,
                table_name: table_name@,
            },
            Record::Column { schema_name, table_name, column_name, sql_type } => SpecRecord::Column {
                schema_name: schema_name@,
                table_name: table_name@,
                column_name: column_name@,
                sql_type: *sql_type,
            },
        }
    }
}

impl DeepView for Record {
    type V = SpecRecord;

    open spec fn deep_view(&self) -> SpecRecord {
        self.view()
    }
}

/// What one step of a sub-program carries.
pub enum SpecStep {
    CheckExistence { system_object: SystemObject, object_name: Seq<Seq<char>> },
    CheckDependants { system_object: SystemObject, object_name: Seq<Seq<char>> },
    RemoveDependants { system_object: SystemObject, object_name: Seq<Seq<char>> },
    RemoveColumns { schema_name: Seq<char>, table_name: Seq<char> },
    CreateFolder { name: Seq<char> },
    RemoveFolder { name: Seq<char>, only_if_empty: bool },
    CreateFile { folder_name: Seq<char>, name: Seq<char> },
    RemoveFile { folder_name: Seq<char>, name: Seq<char> },
    CreateRecord { record: SpecRecord },
    RemoveRecord { record: SpecRecord },
}

/// One step of a sub-program: a precondition over the catalog, a
/// storage-layer operation, or a catalog record mutation.
#[derive(Debug, PartialEq, Clone)]
pub enum Step {
    /// Precondition: the named object must exist (or the sub-program is
    /// skipped, per the operation's skip state).
    CheckExistence { system_object: SystemObject, object_name: Vec<String> },
    /// Fails when dependants of the named object exist; a non-cascade
    /// drop emits it.
    CheckDependants { system_object: SystemObject, object_name: Vec<String> },
    /// Recursively removes the dependants of the named object; a cascade
    /// drop emits it.
    RemoveDependants { system_object: SystemObject, object_name: Vec<String> },
    /// Bulk removal of a table's column rows.
    RemoveColumns { schema_name: String, table_name: String },
    CreateFolder { name: String },
    RemoveFolder { name: String, only_if_empty: bool },
    CreateFile { folder_name: String, name: String },
    RemoveFile { folder_name: String, name: String },
    CreateRecord { record: Record },
    RemoveRecord { record: Record },
}

impl View for Step {
    type V = SpecStep;

    open spec fn view(&self) -> SpecStep {
        match self {
            Step::CheckExistence { system_object, object_name } => SpecStep::CheckExistence {
                system_object: *system_object,
                object_name: object_name.deep_view(),
            },
            Step::CheckDependants { system_object, object_name } => SpecStep::CheckDependants {
                system_object: *system_object,
                object_name: object_name.deep_view(),
            },
            Step::RemoveDependants { system_object, object_name } => SpecStep::RemoveDependants {
                system_object: *system_object,
                object_name: object_name.deep_view(),
            },
            Step::RemoveColumns { schema_name, table_name } => SpecStep::RemoveColumns {
                schema_name: schema_name@,
                table_name: table_name@,
            },
            Step::CreateFolder { name } => SpecStep::CreateFolder { name: name@ },
            Step::RemoveFolder { name, only_if_empty } => SpecStep::RemoveFolder {
                name: name@,
                only_if_empty: *only_if_empty,
            },
            Step::CreateFile { folder_name, name } => SpecStep::CreateFile {
                folder_name: folder_name@,
                name: name@,
            },
            Step::RemoveFile { folder_name, name } => SpecStep::RemoveFile {
                folder_name: folder_name@,
                name: name@,
            },
            Step::CreateRecord { record } => SpecStep::CreateRecord { record: record@ },
            Step::RemoveRecord { record } => SpecStep::RemoveRecord { record: record@ },
        }
    }
}

impl DeepView for Step {
    type V = SpecStep;

    open spec fn deep_view(&self) -> SpecStep {
        self.view()
    }
}

/// What a system operation carries: its kind, its skip state and its
/// sub-programs.
pub struct SpecSystemOperation {
    pub kind: Kind,
    pub skip_steps_if: Option<ObjectState>,
    pub steps: Seq<Seq<SpecStep>>,
}

/// A replayable program of catalog mutations: the outer order of `steps`
/// is the user-visible order of effects, the inner order is the commit
/// order for one object.
#[derive(Debug, PartialEq, Clone)]
pub struct SystemOperation {
    pub kind: Kind,
    pub skip_steps_if: Option<ObjectState>,
    pub steps: Vec<Vec<Step>>,
}

impl View for SystemOperation {
    type V = SpecSystemOperation;

    open spec fn view(&self) -> SpecSystemOperation {
        SpecSystemOperation {
            kind: self.kind,
            skip_steps_if: self.skip_steps_if,
            steps: self.steps.deep_view(),
        }
    }
}

} // verus!
