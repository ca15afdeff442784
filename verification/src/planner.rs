//! The DDL planner: lowers a schema-change intent into a deterministic,
//! replayable system operation.
//!
//! The planner is a pure function and never observes the catalog: all
//! `IF [NOT] EXISTS` behaviour is encoded in the operation's skip state
//! and evaluated by the executor at apply time. Existence checks precede
//! mutations; creates touch storage before the catalog, drops touch the
//! catalog before storage.

use vstd::prelude::*;
use vstd::string::*;
use crate::definition::SpecFullName;
use crate::operations::{Kind, ObjectState, Record, SpecRecord, SpecStep, Step, SystemObject,
    SystemOperation};
use crate::schema_change::{SchemaChange, SpecColumnInfo, SpecSchemaChange};

verus! {

/// The sub-program that creates one schema: check it does not exist,
/// create its folder, insert its catalog record.
pub open spec fn spec_create_schema_steps(name: Seq<char>) -> Seq<SpecStep> {
    seq![
        SpecStep::CheckExistence { system_object: SystemObject::Schema, object_name: seq![name] },
        SpecStep::CreateFolder { name },
        SpecStep::CreateRecord { record: SpecRecord::Schema { schema_name: name } },
    ]
}

/// The sub-program that drops one schema: check it exists, remove or
/// refuse its dependants as `cascade` says, remove its catalog record,
/// remove its folder (only when empty, unless cascading).
pub open spec fn spec_drop_schema_steps(name: Seq<char>, cascade: bool) -> Seq<SpecStep> {
    seq![
        SpecStep::CheckExistence { system_object: SystemObject::Schema, object_name: seq![name] },
        if cascade {
            SpecStep::RemoveDependants {
                system_object: SystemObject::Schema,
                object_name: seq![name],
            }
        } else {
            SpecStep::CheckDependants {
                system_object: SystemObject::Schema,
                object_name: seq![name],
            }
        },
        SpecStep::RemoveRecord { record: SpecRecord::Schema { schema_name: name } },
        SpecStep::RemoveFolder { name, only_if_empty: !cascade },
    ]
}

/// The catalog record of one created column.
pub open spec fn spec_column_record(full: SpecFullName, column: SpecColumnInfo) -> SpecStep {
    SpecStep::CreateRecord {
        record: SpecRecord::Column {
            schema_name: full.schema,
            table_name: full.table,
            column_name: column.name,
            sql_type: column.sql_type,
        },
    }
}

/// The sub-program that creates one table: check its schema exists,
/// check it does not exist, create its file, insert its table record,
/// then one column record per declared column, in declared order.
pub open spec fn spec_create_table_steps(full: SpecFullName, columns: Seq<SpecColumnInfo>) -> Seq<
    SpecStep,
> {
    seq![
        SpecStep::CheckExistence {
            system_object: SystemObject::Schema,
            object_name: seq![full.schema],
        },
        SpecStep::CheckExistence {
            system_object: SystemObject::Table,
            object_name: seq![full.schema, full.table],
        },
        SpecStep::CreateFile { folder_name: full.schema, name: full.table },
        SpecStep::CreateRecord {
            record: SpecRecord::Table { schema_name: full.schema, table_name: full.table },
        },
    ] + columns.map_values(|c: SpecColumnInfo| spec_column_record(full, c))
}

/// The sub-program that drops one table: check its schema and itself
/// exist, remove its column rows, remove its table record, remove its
/// file last.
pub open spec fn spec_drop_table_steps(full: SpecFullName) -> Seq<SpecStep> {
    seq![
        SpecStep::CheckExistence {
            system_object: SystemObject::Schema,
            object_name: seq![full.schema],
        },
        SpecStep::CheckExistence {
            system_object: SystemObject::Table,
            object_name: seq![full.schema, full.table],
        },
        SpecStep::RemoveColumns { schema_name: full.schema, table_name: full.table },
        SpecStep::RemoveRecord {
            record: SpecRecord::Table { schema_name: full.schema, table_name: full.table },
        },
        SpecStep::RemoveFile { folder_name: full.schema, name: full.table },
    ]
}

/// The skip state of an operation: set exactly when the statement asked
/// to tolerate the given object state.
pub open spec fn spec_skip_state(flag: bool, state: ObjectState) -> Option<ObjectState> {
    if flag {
        Some(state)
    } else {
        None
    }
}

/// The operation a schema-change intent lowers to: its kind, its skip
/// state, and one sub-program per changed object, in intent order.
pub open spec fn spec_plan(change: SpecSchemaChange) -> SpecSystemOperation {
    match change {
        SpecSchemaChange::CreateSchema(q) => SpecSystemOperation {
            kind: Kind::Create(SystemObject::Schema),
            skip_steps_if: spec_skip_state(q.if_not_exists, ObjectState::Exists),
            steps: seq![spec_create_schema_steps(q.schema_name)],
        },
        SpecSchemaChange::DropSchemas(q) => SpecSystemOperation {
            kind: Kind::Drop(SystemObject::Schema),
            skip_steps_if: spec_skip_state(q.if_exists, ObjectState::NotExists),
            steps: q.schema_names.map_values(|n: Seq<char>| spec_drop_schema_steps(n, q.cascade)),
        },
        SpecSchemaChange::CreateTable(q) => SpecSystemOperation {
            kind: Kind::Create(SystemObject::Table),
            skip_steps_if: spec_skip_state(q.if_not_exists, ObjectState::Exists),
            steps: seq![spec_create_table_steps(q.full_table_name, q.column_defs)],
        },
        SpecSchemaChange::DropTables(q) => SpecSystemOperation {
            kind: Kind::Drop(SystemObject::Table),
            skip_steps_if: spec_skip_state(q.if_exists, ObjectState::NotExists),
            steps: q.full_table_names.map_values(|f: SpecFullName| spec_drop_table_steps(f)),
        },
    }
}

use crate::operations::SpecSystemOperation;

fn name_path1(a: String) -> (r: Vec<String>)
    ensures
        r.deep_view() == seq![a@],
{
    let mut v: Vec<String> = Vec::new();
    v.push(a);
    proof {
        assert(v.deep_view() =~= seq![v@[0]@]);
    }
    v
}

fn name_path2(a: String, b: String) -> (r: Vec<String>)
    ensures
        r.deep_view() == seq![a@, b@],
{
    let mut v: Vec<String> = Vec::new();
    v.push(a);
    v.push(b);
    proof {
        assert(v.deep_view() =~= seq![v@[0]@, v@[1]@]);
    }
    v
}

/// The planner of schema changes. It holds no state: planning is a pure
/// function of the intent.
#[derive(Debug, PartialEq, Eq, Structural, Copy, Clone)]
pub struct SystemSchemaPlanner;

impl SystemSchemaPlanner {
    pub fn new() -> (r: SystemSchemaPlanner)
        ensures
            r == SystemSchemaPlanner,
    {
        SystemSchemaPlanner
    }

    /// Lowers a schema-change intent into its system operation,
    /// [`spec_plan`] of the intent.
    pub fn schema_change_plan(&self, schema_change: &SchemaChange) -> (r: SystemOperation)
        ensures
            r@ == spec_plan(schema_change@),
    {
        match schema_change {
            SchemaChange::CreateSchema(query) => {
                let name = &query.schema_name;
                let mut steps: Vec<Step> = Vec::new();
                steps.push(Step::CheckExistence {
                    system_object: SystemObject::Schema,
                    object_name: name_path1(String::from_str(name.as_ref())),
                });
                steps.push(Step::CreateFolder { name: String::from_str(name.as_ref()) });
                steps.push(Step::CreateRecord {
                    record: Record::Schema { schema_name: String::from_str(name.as_ref()) },
                });
                let mut programs: Vec<Vec<Step>> = Vec::new();
                programs.push(steps);
                proof {
                    assert(programs@[0].deep_view() =~= spec_create_schema_steps(name@));
                    assert(programs.deep_view() =~= seq![spec_create_schema_steps(name@)]);
                }
                SystemOperation {
                    kind: Kind::Create(SystemObject::Schema),
                    skip_steps_if: if query.if_not_exists {
                        Some(ObjectState::Exists)
                    } else {
                        None
                    },
                    steps: programs,
                }
            },
            SchemaChange::DropSchemas(query) => {
                let mut programs: Vec<Vec<Step>> = Vec::new();
                let mut i: usize = 0;
                while i < query.schema_names.len()
                    invariant
                        0 <= i <= query.schema_names.len(),
                        programs.deep_view().len() == i,
                        forall|j: int|
                            0 <= j < i ==> #[trigger] programs.deep_view()[j]
                                == spec_drop_schema_steps(
                                query.schema_names.deep_view()[j],
                                query.cascade,
                            ),
                    decreases query.schema_names.len() - i,
                {
                    let name = &query.schema_names[i];
                    let mut for_schema: Vec<Step> = Vec::new();
                    for_schema.push(Step::CheckExistence {
                        system_object: SystemObject::Schema,
                        object_name: name_path1(String::from_str(name.as_ref())),
                    });
                    if query.cascade {
                        for_schema.push(Step::RemoveDependants {
                            system_object: SystemObject::Schema,
                            object_name: name_path1(String::from_str(name.as_ref())),
                        });
                    } else {
                        for_schema.push(Step::CheckDependants {
                            system_object: SystemObject::Schema,
                            object_name: name_path1(String::from_str(name.as_ref())),
                        });
                    }
                    for_schema.push(Step::RemoveRecord {
                        record: Record::Schema { schema_name: String::from_str(name.as_ref()) },
                    });
                    for_schema.push(Step::RemoveFolder {
                        name: String::from_str(name.as_ref()),
                        only_if_empty: !query.cascade,
                    });
                    proof {
                        assert(for_schema.deep_view() =~= spec_drop_schema_steps(
                            name@,
                            query.cascade,
                        ));
                        assert(query.schema_names.deep_view()[i as int] == name@);
                    }
                    let ghost before = programs.deep_view();
                    let ghost pushed = for_schema.deep_view();
                    programs.push(for_schema);
                    proof {
                        assert(programs.deep_view() =~= before.push(pushed));
                    }
                    i = i + 1;
                }
                proof {
                    assert(programs.deep_view() =~= query.schema_names.deep_view().map_values(
                        |n: Seq<char>| spec_drop_schema_steps(n, query.cascade),
                    ));
                }
                SystemOperation {
                    kind: Kind::Drop(SystemObject::Schema),
                    skip_steps_if: if query.if_exists {
                        Some(ObjectState::NotExists)
                    } else {
                        None
                    },
                    steps: programs,
                }
            },
            SchemaChange::CreateTable(query) => {
                let full = &query.full_table_name;
                let mut steps: Vec<Step> = Vec::new();
                steps.push(Step::CheckExistence {
                    system_object: SystemObject::Schema,
                    object_name: name_path1(String::from_str(full.schema())),
                });
                steps.push(Step::CheckExistence {
                    system_object: SystemObject::Table,
                    object_name: name_path2(
                        String::from_str(full.schema()),
                        String::from_str(full.table()),
                    ),
                });
                steps.push(Step::CreateFile {
                    folder_name: String::from_str(full.schema()),
                    name: String::from_str(full.table()),
                });
                steps.push(Step::CreateRecord {
                    record: Record::Table {
                        schema_name: String::from_str(full.schema()),
                        table_name: String::from_str(full.table()),
                    },
                });
                let ghost prefix = steps.deep_view();
                proof {
                    assert(prefix =~= spec_create_table_steps(full@, Seq::empty()));
                }
                let mut c: usize = 0;
                while c < query.column_defs.len()
                    invariant
                        0 <= c <= query.column_defs.len(),
                        steps.deep_view().len() == 4 + c,
                        forall|j: int| 0 <= j < 4 ==> #[trigger] steps.deep_view()[j] == prefix[j],
                        prefix == spec_create_table_steps(full@, Seq::empty()),
                        prefix.len() == 4,
                        forall|j: int|
                            0 <= j < c ==> #[trigger] steps.deep_view()[4 + j]
                                == spec_column_record(full@, query.column_defs.deep_view()[j]),
                    decreases query.column_defs.len() - c,
                {
                    let column = &query.column_defs[c];
                    let ghost before = steps.deep_view();
                    let step = Step::CreateRecord {
                        record: Record::Column {
                            schema_name: String::from_str(full.schema()),
                            table_name: String::from_str(full.table()),
                            column_name: column.name.clone(),
                            sql_type: column.sql_type,
                        },
                    };
                    proof {
                        assert(step@ == spec_column_record(full@, column@));
                        assert(query.column_defs.deep_view()[c as int] == column@);
                    }
                    let ghost pushed = step@;
                    steps.push(step);
                    proof {
                        assert(steps.deep_view() =~= before.push(pushed));
                    }
                    c = c + 1;
                }
                proof {
                    let cols = query.column_defs.deep_view();
                    let whole = spec_create_table_steps(full@, cols);
                    assert(steps.deep_view() =~= whole) by {
                        assert(whole.len() == 4 + cols.len());
                        assert forall|k: int| 0 <= k < whole.len() implies steps.deep_view()[k]
                            == whole[k] by {
                            if k < 4 {
                                assert(steps.deep_view()[k] == prefix[k]);
                                assert(prefix[k] == whole[k]);
                            } else {
                                assert(whole[k] == cols.map_values(
                                    |ci: SpecColumnInfo| spec_column_record(full@, ci),
                                )[k - 4]);
                                assert(steps.deep_view()[4 + (k - 4)] == spec_column_record(
                                    full@,
                                    cols[k - 4],
                                ));
                            }
                        }
                    };
                }
                let ghost steps_view = steps.deep_view();
                let mut programs: Vec<Vec<Step>> = Vec::new();
                programs.push(steps);
                proof {
                    assert(programs.deep_view() =~= seq![steps_view]);
                }
                SystemOperation {
                    kind: Kind::Create(SystemObject::Table),
                    skip_steps_if: if query.if_not_exists {
                        Some(ObjectState::Exists)
                    } else {
                        None
                    },
                    steps: programs,
                }
            },
            SchemaChange::DropTables(query) => {
                let mut programs: Vec<Vec<Step>> = Vec::new();
                let mut i: usize = 0;
                while i < query.full_table_names.len()
                    invariant
                        0 <= i <= query.full_table_names.len(),
                        programs.deep_view().len() == i,
                        forall|j: int|
                            0 <= j < i ==> #[trigger] programs.deep_view()[j]
                                == spec_drop_table_steps(query.full_table_names.deep_view()[j]),
                    decreases query.full_table_names.len() - i,
                {
                    let full = &query.full_table_names[i];
                    let mut for_table: Vec<Step> = Vec::new();
                    for_table.push(Step::CheckExistence {
                        system_object: SystemObject::Schema,
                        object_name: name_path1(String::from_str(full.schema())),
                    });
                    for_table.push(Step::CheckExistence {
                        system_object: SystemObject::Table,
                        object_name: name_path2(
                            String::from_str(full.schema()),
                            String::from_str(full.table()),
                        ),
                    });
                    for_table.push(Step::RemoveColumns {
                        schema_name: String::from_str(full.schema()),
                        table_name: String::from_str(full.table()),
                    });
                    for_table.push(Step::RemoveRecord {
                        record: Record::Table {
                            schema_name: String::from_str(full.schema()),
                            table_name: String::from_str(full.table()),
                        },
                    });
                    for_table.push(Step::RemoveFile {
                        folder_name: String::from_str(full.schema()),
                        name: String::from_str(full.table()),
                    });
                    proof {
                        assert(for_table.deep_view() =~= spec_drop_table_steps(full@));
                        assert(query.full_table_names.deep_view()[i as int] == full@);
                    }
                    let ghost before = programs.deep_view();
                    let ghost pushed = for_table.deep_view();
                    programs.push(for_table);
                    proof {
                        assert(programs.deep_view() =~= before.push(pushed));
                    }
                    i = i + 1;
                }
                proof {
                    assert(programs.deep_view() =~= query.full_table_names.deep_view().map_values(
                        |f: SpecFullName| spec_drop_table_steps(f),
                    ));
                }
                SystemOperation {
                    kind: Kind::Drop(SystemObject::Table),
                    skip_steps_if: if query.if_exists {
                        Some(ObjectState::NotExists)
                    } else {
                        None
                    },
                    steps: programs,
                }
            },
        }
    }
}

/// The object a sub-program targets: the path of the schema or table
/// whose change the sub-program carries out.
pub open spec fn spec_change_target(change: SpecSchemaChange, i: int) -> Seq<Seq<char>> {
    match change {
        SpecSchemaChange::CreateSchema(q) => seq![q.schema_name],
        SpecSchemaChange::DropSchemas(q) => seq![q.schema_names[i]],
        SpecSchemaChange::CreateTable(q) => seq![
            q.full_table_name.schema,
            q.full_table_name.table,
        ],
        SpecSchemaChange::DropTables(q) => seq![
            q.full_table_names[i].schema,
            q.full_table_names[i].table,
        ],
    }
}

/// Law: a plan has at least one sub-program (drops given at least one
/// name); every sub-program begins with an existence check; the first
/// check names the changed object itself, except that a table change
/// checks the parent schema first and the table itself second.
pub proof fn lemma_plan_begins_with_existence_checks(change: SpecSchemaChange)
    requires
        change matches SpecSchemaChange::DropSchemas(q) ==> q.schema_names.len() > 0,
        change matches SpecSchemaChange::DropTables(q) ==> q.full_table_names.len() > 0,
    ensures
        spec_plan(change).steps.len() > 0,
        forall|i: int|
            0 <= i < spec_plan(change).steps.len() ==> {
                let sub = #[trigger] spec_plan(change).steps[i];
                let target = spec_change_target(change, i);
                &&& sub.len() > 0
                &&& if target.len() == 1 {
                    sub[0] == (SpecStep::CheckExistence {
                        system_object: SystemObject::Schema,
                        object_name: target,
                    })
                } else {
                    sub.len() > 1 && sub[0] == (SpecStep::CheckExistence {
                        system_object: SystemObject::Schema,
                        object_name: seq![target[0]],
                    }) && sub[1] == (SpecStep::CheckExistence {
                        system_object: SystemObject::Table,
                        object_name: target,
                    })
                }
            },
{
}

/// Law: a schema-drop sub-program ends with the folder removal, which is
/// `only_if_empty` exactly when the drop does not cascade, and its
/// second step removes dependants when cascading and checks them
/// otherwise.
pub proof fn lemma_drop_schemas_shape(change: SpecSchemaChange)
    requires
        change matches SpecSchemaChange::DropSchemas(q),
    ensures
        (change matches SpecSchemaChange::DropSchemas(q) ==> forall|i: int|
            0 <= i < spec_plan(change).steps.len() ==> {
                let sub = #[trigger] spec_plan(change).steps[i];
                &&& sub.len() == 4
                &&& sub.last() == (SpecStep::RemoveFolder {
                    name: q.schema_names[i],
                    only_if_empty: !q.cascade,
                })
                &&& sub[1] == if q.cascade {
                    SpecStep::RemoveDependants {
                        system_object: SystemObject::Schema,
                        object_name: seq![q.schema_names[i]],
                    }
                } else {
                    SpecStep::CheckDependants {
                        system_object: SystemObject::Schema,
                        object_name: seq![q.schema_names[i]],
                    }
                }
            }),
{
}

/// Law: a table-drop sub-program removes the column rows before the
/// table record and removes the file last, after both existence checks.
pub proof fn lemma_drop_tables_shape(change: SpecSchemaChange)
    requires
        change matches SpecSchemaChange::DropTables(q),
    ensures
        (change matches SpecSchemaChange::DropTables(q) ==> forall|i: int|
            0 <= i < spec_plan(change).steps.len() ==> {
                let sub = #[trigger] spec_plan(change).steps[i];
                let full = q.full_table_names[i];
                &&& sub.len() == 5
                &&& sub[2] == (SpecStep::RemoveColumns {
                    schema_name: full.schema,
                    table_name: full.table,
                })
                &&& sub[3] == (SpecStep::RemoveRecord {
                    record: SpecRecord::Table {
                        schema_name: full.schema,
                        table_name: full.table,
                    },
                })
                &&& sub.last() == (SpecStep::RemoveFile {
                    folder_name: full.schema,
                    name: full.table,
                })
            }),
{
}

/// Law: a table-create plan is one sub-program holding exactly one
/// column record per declared column, after the four fixed steps and in
/// declared order; no other step of it creates a column record.
pub proof fn lemma_create_table_columns(change: SpecSchemaChange)
    requires
        change matches SpecSchemaChange::CreateTable(q),
    ensures
        (change matches SpecSchemaChange::CreateTable(q) ==> {
            let sub = spec_plan(change).steps[0];
            &&& spec_plan(change).steps.len() == 1
            &&& sub.len() == 4 + q.column_defs.len()
            &&& forall|j: int|
                0 <= j < q.column_defs.len() ==> sub[4 + j] == spec_column_record(
                    q.full_table_name,
                    #[trigger] q.column_defs[j],
                )
            &&& forall|j: int|
                0 <= j < 4 ==> !((#[trigger] sub[j]) matches SpecStep::CreateRecord {
                    record: SpecRecord::Column { .. },
                })
        }),
{
}

} // verus!
