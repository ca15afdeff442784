//! An in-memory catalog: the read snapshot the analyzer consumes and
//! the state that schema changes mutate.
//!
//! The analyzer only ever asks three things of it: does a schema exist,
//! what table lives under a name, and what columns that table has, in
//! declared order. Lookups resolve to the first entry with the asked
//! name.

use vstd::prelude::*;
use vstd::string::*;
use crate::definition::{ColumnDef, FullTableName, SpecColumnDef, SpecFullName, SpecTableDef, TableDef};
use crate::schema_change::{SchemaChange, SpecCreateTableQuery, SpecSchemaChange};
use crate::text::str_eq;

verus! {

/// What one schema of the catalog holds: its name and its tables.
pub struct SpecSchemaDef {
    pub name: Seq<char>,
    pub tables: Seq<SpecTableDef>,
}

/// One schema of the catalog and the tables that live in it.
#[derive(Debug)]
pub struct SchemaDef {
    name: String,
    tables: Vec<TableDef>,
}

impl View for SchemaDef {
    type V = SpecSchemaDef;

    closed spec fn view(&self) -> SpecSchemaDef {
        SpecSchemaDef { name: self.name@, tables: self.tables.deep_view() }
    }
}

impl DeepView for SchemaDef {
    type V = SpecSchemaDef;

    open spec fn deep_view(&self) -> SpecSchemaDef {
        self.view()
    }
}

/// The position of the first schema with the given name, from `i` on.
pub open spec fn spec_schema_index(schemas: Seq<SpecSchemaDef>, name: Seq<char>, i: int) -> Option<
    int,
>
    decreases schemas.len() - i,
{
    if i < 0 || i >= schemas.len() {
        None
    } else if schemas[i].name == name {
        Some(i)
    } else {
        spec_schema_index(schemas, name, i + 1)
    }
}

/// The position of the first table with the given name, from `i` on.
pub open spec fn spec_table_index(tables: Seq<SpecTableDef>, name: Seq<char>, i: int) -> Option<
    int,
>
    decreases tables.len() - i,
{
    if i < 0 || i >= tables.len() {
        None
    } else if tables[i].name == name {
        Some(i)
    } else {
        spec_table_index(tables, name, i + 1)
    }
}

/// The table a qualified name resolves to, if its schema and then the
/// table exist.
pub open spec fn spec_find_table(
    schemas: Seq<SpecSchemaDef>,
    schema: Seq<char>,
    table: Seq<char>,
) -> Option<SpecTableDef> {
    match spec_schema_index(schemas, schema, 0) {
        None => None,
        Some(si) => match spec_table_index(schemas[si].tables, table, 0) {
            None => None,
            Some(ti) => Some(schemas[si].tables[ti]),
        },
    }
}

/// The error of applying a schema change to the catalog.
#[derive(Debug, PartialEq, Eq, Structural, Copy, Clone)]
pub enum ExecutionError {
    SchemaAlreadyExists,
    SchemaDoesNotExist,
    TableAlreadyExists,
    TableDoesNotExist,
    SchemaHasDependants,
}

/// The columns a table is created with: the declared names and types,
/// positions assigned in declared order.
pub open spec fn spec_created_columns(q: SpecCreateTableQuery) -> Seq<
    SpecColumnDef,
> {
    Seq::new(
        q.column_defs.len(),
        |j: int|
            SpecColumnDef {
                name: q.column_defs[j].name,
                sql_type: q.column_defs[j].sql_type,
                ord_num: j as nat,
            },
    )
}

/// The catalog after dropping the schemas named from position `i` on,
/// paired with the outcome. A missing schema is skipped under
/// `if_exists` and fails the change otherwise; a schema that still holds
/// tables is only dropped under `cascade`. Names are processed in order
/// and a failure keeps the drops made before it.
pub open spec fn spec_drop_schemas_from(
    schemas: Seq<SpecSchemaDef>,
    names: Seq<Seq<char>>,
    cascade: bool,
    if_exists: bool,
    i: int,
) -> (Result<(), ExecutionError>, Seq<SpecSchemaDef>)
    decreases names.len() - i,
{
    if i < 0 || i >= names.len() {
        (Ok(()), schemas)
    } else {
        match spec_schema_index(schemas, names[i], 0) {
            None => if if_exists {
                spec_drop_schemas_from(schemas, names, cascade, if_exists, i + 1)
            } else {
                (Err(ExecutionError::SchemaDoesNotExist), schemas)
            },
            Some(si) => if !cascade && schemas[si].tables.len() > 0 {
                (Err(ExecutionError::SchemaHasDependants), schemas)
            } else {
                spec_drop_schemas_from(schemas.remove(si), names, cascade, if_exists, i + 1)
            },
        }
    }
}

/// The catalog after dropping the tables named from position `i` on,
/// paired with the outcome. A missing schema or table is skipped under
/// `if_exists` and fails the change otherwise. Names are processed in
/// order and a failure keeps the drops made before it.
pub open spec fn spec_drop_tables_from(
    schemas: Seq<SpecSchemaDef>,
    names: Seq<SpecFullName>,
    if_exists: bool,
    i: int,
) -> (Result<(), ExecutionError>, Seq<SpecSchemaDef>)
    decreases names.len() - i,
{
    if i < 0 || i >= names.len() {
        (Ok(()), schemas)
    } else {
        match spec_schema_index(schemas, names[i].schema, 0) {
            None => if if_exists {
                spec_drop_tables_from(schemas, names, if_exists, i + 1)
            } else {
                (Err(ExecutionError::SchemaDoesNotExist), schemas)
            },
            Some(si) => match spec_table_index(schemas[si].tables, names[i].table, 0) {
                None => if if_exists {
                    spec_drop_tables_from(schemas, names, if_exists, i + 1)
                } else {
                    (Err(ExecutionError::TableDoesNotExist), schemas)
                },
                Some(ti) => spec_drop_tables_from(
                    schemas.update(
                        si,
                        SpecSchemaDef {
                            name: schemas[si].name,
                            tables: schemas[si].tables.remove(ti),
                        },
                    ),
                    names,
                    if_exists,
                    i + 1,
                ),
            },
        }
    }
}

/// The catalog after a schema change, paired with the outcome. A failed
/// change leaves the catalog as the steps before the failure left it.
pub open spec fn spec_execute(schemas: Seq<SpecSchemaDef>, change: SpecSchemaChange) -> (
    Result<(), ExecutionError>,
    Seq<SpecSchemaDef>,
) {
    match change {
        SpecSchemaChange::CreateSchema(q) => match spec_schema_index(schemas, q.schema_name, 0) {
            Some(_) => if q.if_not_exists {
                (Ok(()), schemas)
            } else {
                (Err(ExecutionError::SchemaAlreadyExists), schemas)
            },
            None => (
                Ok(()),
                schemas.push(SpecSchemaDef { name: q.schema_name, tables: Seq::empty() }),
            ),
        },
        SpecSchemaChange::DropSchemas(q) => spec_drop_schemas_from(
            schemas,
            q.schema_names,
            q.cascade,
            q.if_exists,
            0,
        ),
        SpecSchemaChange::CreateTable(q) => match spec_schema_index(
            schemas,
            q.full_table_name.schema,
            0,
        ) {
            None => (Err(ExecutionError::SchemaDoesNotExist), schemas),
            Some(si) => match spec_table_index(schemas[si].tables, q.full_table_name.table, 0) {
                Some(_) => if q.if_not_exists {
                    (Ok(()), schemas)
                } else {
                    (Err(ExecutionError::TableAlreadyExists), schemas)
                },
                None => (
                    Ok(()),
                    schemas.update(
                        si,
                        SpecSchemaDef {
                            name: schemas[si].name,
                            tables: schemas[si].tables.push(
                                SpecTableDef {
                                    schema: q.full_table_name.schema,
                                    name: q.full_table_name.table,
                                    columns: spec_created_columns(q),
                                },
                            ),
                        },
                    ),
                ),
            },
        },
        SpecSchemaChange::DropTables(q) => spec_drop_tables_from(
            schemas,
            q.full_table_names,
            q.if_exists,
            0,
        ),
    }
}


fn table_index_in(tables: &Vec<TableDef>, name: &str) -> (r: Option<usize>)
    ensures
        match r {
            Some(i) => spec_table_index(tables.deep_view(), name@, 0) == Some(i as int) && i
                < tables.len(),
            None => spec_table_index(tables.deep_view(), name@, 0) is None,
        },
{
    let mut i: usize = 0;
    while i < tables.len()
        invariant
            0 <= i <= tables.len(),
            tables.deep_view().len() == tables.len(),
            spec_table_index(tables.deep_view(), name@, 0) == spec_table_index(
                tables.deep_view(),
                name@,
                i as int,
            ),
        decreases tables.len() - i,
    {
        proof {
            assert(tables.deep_view()[i as int] == tables@[i as int]@);
        }
        if str_eq(tables[i].name(), name) {
            return Some(i);
        }
        i = i + 1;
    }
    None
}

/// The in-memory catalog: every schema, each with its tables.
#[derive(Debug)]
pub struct InMemoryDatabase {
    schemas: Vec<SchemaDef>,
}

impl View for InMemoryDatabase {
    type V = Seq<SpecSchemaDef>;

    closed spec fn view(&self) -> Seq<SpecSchemaDef> {
        self.schemas.deep_view()
    }
}

impl InMemoryDatabase {
    /// A fresh catalog, holding only the default `public` schema with no
    /// tables.
    pub fn new() -> (r: InMemoryDatabase)
        ensures
            r@ == seq![SpecSchemaDef { name: "public"@, tables: Seq::<SpecTableDef>::empty() }],
    {
        let mut schemas: Vec<SchemaDef> = Vec::new();
        let public_schema = SchemaDef { name: String::from_str("public"), tables: Vec::new() };
        proof {
            assert(public_schema.tables.deep_view() =~= Seq::<SpecTableDef>::empty());
        }
        schemas.push(public_schema);
        let db = InMemoryDatabase { schemas };
        proof {
            assert(db@ =~= seq![
                SpecSchemaDef { name: "public"@, tables: Seq::<SpecTableDef>::empty() },
            ]);
        }
        db
    }

    fn schema_index(&self, name: &str) -> (r: Option<usize>)
        ensures
            match r {
                Some(i) => spec_schema_index(self@, name@, 0) == Some(i as int) && i < self@.len(),
                None => spec_schema_index(self@, name@, 0) is None,
            },
    {
        let mut i: usize = 0;
        while i < self.schemas.len()
            invariant
                0 <= i <= self.schemas.len(),
                self@ == self.schemas.deep_view(),
                self@.len() == self.schemas.len(),
                spec_schema_index(self@, name@, 0) == spec_schema_index(self@, name@, i as int),
            decreases self.schemas.len() - i,
        {
            proof {
                assert(self@[i as int] == self.schemas@[i as int]@);
            }
            if str_eq(self.schemas[i].name.as_str(), name) {
                return Some(i);
            }
            i = i + 1;
        }
        None
    }

    /// Whether a schema with the given (lowercased) name exists.
    pub fn schema_exists(&self, name: &str) -> (r: bool)
        ensures
            r == (spec_schema_index(self@, name@, 0) is Some),
    {
        self.schema_index(name).is_some()
    }

    /// The table a full name resolves to, when both its schema and the
    /// table exist.
    pub fn table(&self, full_name: &FullTableName) -> (r: Option<&TableDef>)
        ensures
            match r {
                Some(table) => spec_find_table(self@, full_name@.schema, full_name@.table)
                    == Some(table@),
                None => spec_find_table(self@, full_name@.schema, full_name@.table) is None,
            },
    {
        let si = match self.schema_index(full_name.schema()) {
            Some(si) => si,
            None => {
                return None;
            },
        };
        proof {
            assert(self@[si as int] == self.schemas@[si as int]@);
        }
        let tables = &self.schemas[si].tables;
        match table_index_in(tables, full_name.table()) {
            Some(ti) => {
                proof {
                    assert(tables.deep_view()[ti as int] == tables@[ti as int]@);
                }
                Some(&tables[ti])
            },
            None => None,
        }
    }

    /// Applies a schema change; a failed change leaves the catalog as
    /// the steps before the failure left it.
    pub fn execute(&mut self, change: SchemaChange) -> (r: Result<(), ExecutionError>)
        ensures
            ({
                let (outcome, after) = spec_execute(old(self)@, change@);
                r == outcome && final(self)@ == after
            }),
    {
        match change {
            SchemaChange::CreateSchema(q) => {
                match self.schema_index(q.schema_name.as_ref()) {
                    Some(_) => if q.if_not_exists {
                        Ok(())
                    } else {
                        Err(ExecutionError::SchemaAlreadyExists)
                    },
                    None => {
                        let entry = SchemaDef {
                            name: String::from_str(q.schema_name.as_ref()),
                            tables: Vec::new(),
                        };
                        proof {
                            assert(entry.tables.deep_view() =~= Seq::<SpecTableDef>::empty());
                        }
                        let ghost before = self@;
                        let ghost pushed = entry@;
                        self.schemas.push(entry);
                        proof {
                            assert(self@ =~= before.push(pushed));
                        }
                        Ok(())
                    },
                }
            },
            SchemaChange::DropSchemas(q) => {
                let mut i: usize = 0;
                let ghost names = q.schema_names.deep_view();
                let ghost start = self@;
                proof {
                    assert(change@ matches SpecSchemaChange::DropSchemas(sq) && sq.schema_names
                        == names && sq.cascade == q.cascade && sq.if_exists == q.if_exists);
                }
                while i < q.schema_names.len()
                    invariant
                        0 <= i <= q.schema_names.len(),
                        names == q.schema_names.deep_view(),
                        names.len() == q.schema_names.len(),
                        spec_execute(old(self)@, change@) == spec_drop_schemas_from(
                            start,
                            names,
                            q.cascade,
                            q.if_exists,
                            0,
                        ),
                        spec_drop_schemas_from(start, names, q.cascade, q.if_exists, 0)
                            == spec_drop_schemas_from(
                            self@,
                            names,
                            q.cascade,
                            q.if_exists,
                            i as int,
                        ),
                    decreases q.schema_names.len() - i,
                {
                    proof {
                        assert(names[i as int] == q.schema_names@[i as int]@);
                    }
                    match self.schema_index(q.schema_names[i].as_ref()) {
                        None => {
                            if !q.if_exists {
                                proof {
                                    assert(spec_drop_schemas_from(
                                        self@,
                                        names,
                                        q.cascade,
                                        q.if_exists,
                                        i as int,
                                    ) == (Err::<(), ExecutionError>(
                                        ExecutionError::SchemaDoesNotExist,
                                    ), self@));
                                }
                                return Err(ExecutionError::SchemaDoesNotExist);
                            }
                        },
                        Some(si) => {
                            proof {
                                assert(self@[si as int] == self.schemas@[si as int]@);
                            }
                            if !q.cascade && self.schemas[si].tables.len() > 0 {
                                proof {
                                    assert(self@[si as int].tables.len() > 0);
                                }
                                return Err(ExecutionError::SchemaHasDependants);
                            }
                            let ghost before = self@;
                            self.schemas.remove(si);
                            proof {
                                assert(self@ =~= before.remove(si as int));
                            }
                        },
                    }
                    i = i + 1;
                }
                Ok(())
            },
            SchemaChange::CreateTable(q) => {
                proof {
                    assert(change@ matches SpecSchemaChange::CreateTable(cq) && cq == q@);
                }
                let si = match self.schema_index(q.full_table_name.schema()) {
                    Some(si) => si,
                    None => {
                        return Err(ExecutionError::SchemaDoesNotExist);
                    },
                };
                proof {
                    assert(self@[si as int] == self.schemas@[si as int]@);
                }
                match table_index_in(&self.schemas[si].tables, q.full_table_name.table()) {
                    Some(_) => {
                        if q.if_not_exists {
                            Ok(())
                        } else {
                            Err(ExecutionError::TableAlreadyExists)
                        }
                    },
                    None => {
                        let mut columns: Vec<ColumnDef> = Vec::new();
                        let mut c: usize = 0;
                        while c < q.column_defs.len()
                            invariant
                                0 <= c <= q.column_defs.len(),
                                columns.deep_view().len() == c,
                                forall|j: int|
                                    0 <= j < c ==> #[trigger] columns.deep_view()[j]
                                        == spec_created_columns(q@)[j],
                                q@.column_defs == q.column_defs.deep_view(),
                                q@.column_defs.len() == q.column_defs.len(),
                            decreases q.column_defs.len() - c,
                        {
                            let column = ColumnDef::new(
                                q.column_defs[c].name.clone(),
                                q.column_defs[c].sql_type,
                                c,
                            );
                            let ghost before = columns.deep_view();
                            let ghost pushed = column@;
                            proof {
                                assert(q.column_defs.deep_view()[c as int] == q.column_defs@[
                                    c as int
                                ]@);
                            }
                            columns.push(column);
                            proof {
                                assert(columns.deep_view() =~= before.push(pushed));
                            }
                            c = c + 1;
                        }
                        proof {
                            assert(columns.deep_view() =~= spec_created_columns(q@));
                        }
                        let table = TableDef::new(&q.full_table_name, columns);
                        let ghost before = self@;
                        let ghost pushed_table = table@;
                        let mut entry = self.schemas.remove(si);
                        proof {
                            assert(entry@ == before[si as int]);
                        }
                        let ghost entry_tables = entry.tables.deep_view();
                        entry.tables.push(table);
                        proof {
                            assert(entry.tables.deep_view() =~= entry_tables.push(pushed_table));
                        }
                        self.schemas.insert(si, entry);
                        proof {
                            assert(self@ =~= before.update(
                                si as int,
                                SpecSchemaDef {
                                    name: before[si as int].name,
                                    tables: before[si as int].tables.push(pushed_table),
                                },
                            ));
                        }
                        Ok(())
                    },
                }
            },
            SchemaChange::DropTables(q) => {
                let mut i: usize = 0;
                let ghost names = q.full_table_names.deep_view();
                let ghost start = self@;
                proof {
                    assert(change@ matches SpecSchemaChange::DropTables(tq) && tq.full_table_names
                        == names && tq.if_exists == q.if_exists);
                }
                while i < q.full_table_names.len()
                    invariant
                        0 <= i <= q.full_table_names.len(),
                        names == q.full_table_names.deep_view(),
                        names.len() == q.full_table_names.len(),
                        spec_execute(old(self)@, change@) == spec_drop_tables_from(
                            start,
                            names,
                            q.if_exists,
                            0,
                        ),
                        spec_drop_tables_from(start, names, q.if_exists, 0) == spec_drop_tables_from(
                            self@,
                            names,
                            q.if_exists,
                            i as int,
                        ),
                    decreases q.full_table_names.len() - i,
                {
                    let full = &q.full_table_names[i];
                    proof {
                        assert(names[i as int] == q.full_table_names@[i as int]@);
                    }
                    match self.schema_index(full.schema()) {
                        None => {
                            if !q.if_exists {
                                return Err(ExecutionError::SchemaDoesNotExist);
                            }
                        },
                        Some(si) => {
                            proof {
                                assert(self@[si as int] == self.schemas@[si as int]@);
                            }
                            match table_index_in(&self.schemas[si].tables, full.table()) {
                                None => {
                                    if !q.if_exists {
                                        return Err(ExecutionError::TableDoesNotExist);
                                    }
                                },
                                Some(ti) => {
                                    let ghost before = self@;
                                    let mut entry = self.schemas.remove(si);
                                    proof {
                                        assert(entry@ == before[si as int]);
                                    }
                                    let ghost entry_tables = entry.tables.deep_view();
                                    entry.tables.remove(ti);
                                    proof {
                                        assert(entry.tables.deep_view() =~= entry_tables.remove(
                                            ti as int,
                                        ));
                                    }
                                    self.schemas.insert(si, entry);
                                    proof {
                                        assert(self@ =~= before.update(
                                            si as int,
                                            SpecSchemaDef {
                                                name: before[si as int].name,
                                                tables: before[si as int].tables.remove(ti as int),
                                            },
                                        ));
                                    }
                                },
                            }
                        },
                    }
                    i = i + 1;
                }
                Ok(())
            },
        }
    }

}

} // verus!
