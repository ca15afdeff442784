//! Name and definition entities: schema and table names, column and
//! table definitions.
//!
//! Identifiers are folded to lowercase here, on ingestion, so that no
//! later comparison has to fold again. An unqualified table name
//! defaults its schema to `public`.

use vstd::prelude::*;
use vstd::string::*;
use crate::ast::ObjectName;
use crate::text::{joined_dotted, lowercase, lowered, str_eq};
use crate::types::SqlType;

verus! {

/// What a full table name stands for: the lowercased schema and table
/// names.
pub struct SpecFullName {
    pub schema: Seq<char>,
    pub table: Seq<char>,
}

/// What an object name resolves to when a table is named: its
/// lowercased schema and table pair, or the offending text when it has
/// more than two segments.
pub open spec fn spec_full_name(parts: Seq<Seq<char>>) -> Result<SpecFullName, Seq<char>> {
    if parts.len() > 2 {
        Err(joined_dotted(parts))
    } else if parts.len() == 1 {
        Ok(SpecFullName { schema: "public"@, table: lowered(parts[0]) })
    } else {
        Ok(SpecFullName { schema: lowered(parts[0]), table: lowered(parts[1]) })
    }
}

/// The pair of a schema name and a table name, both lowercased.
#[derive(Debug, PartialEq, Clone)]
pub struct FullTableName {
    schema: String,
    table: String,
}

impl View for FullTableName {
    type V = SpecFullName;

    closed spec fn view(&self) -> SpecFullName {
        SpecFullName { schema: self.schema@, table: self.table@ }
    }
}

impl DeepView for FullTableName {
    type V = SpecFullName;

    open spec fn deep_view(&self) -> SpecFullName {
        self.view()
    }
}

impl FullTableName {
    pub fn schema(&self) -> (r: &str)
        ensures
            r@ == self@.schema,
    {
        self.schema.as_str()
    }

    pub fn table(&self) -> (r: &str)
        ensures
            r@ == self@.table,
    {
        self.table.as_str()
    }

    /// Builds the pair from names that are already resolved and folded.
    pub fn from(schema: &str, table: &str) -> (r: FullTableName)
        ensures
            r@.schema == schema@,
            r@.table == table@,
    {
        FullTableName { schema: String::from_str(schema), table: String::from_str(table) }
    }

    /// Resolves an object name to a full table name: one segment
    /// defaults the schema to `public`, two segments name schema and
    /// table, and more are an error carrying the dotted text.
    pub fn try_from(object: &ObjectName) -> (r: Result<FullTableName, TableNamingError>)
        requires
            object@.len() >= 1,
        ensures
            match r {
                Ok(full) => spec_full_name(object@) matches Ok(f) && full@.schema == f.schema
                    && full@.table == f.table,
                Err(e) => spec_full_name(object@) matches Err(raw) && e@ == raw,
            },
    {
        if object.0.len() > 2 {
            Err(TableNamingError(object.as_text()))
        } else if object.0.len() == 1 {
            let table = lowercase(object.0[0].value.as_str());
            Ok(FullTableName { schema: String::from_str("public"), table })
        } else {
            let schema = lowercase(object.0[0].value.as_str());
            let table = lowercase(object.0[1].value.as_str());
            Ok(FullTableName { schema, table })
        }
    }

    /// The qualified name, schema and table joined with a dot.
    pub fn as_text(&self) -> (r: String)
        ensures
            r@ == self@.schema + seq!['.'] + self@.table,
    {
        let mut r = self.schema.clone();
        r.append(".");
        r.append(self.table.as_str());
        proof {
            reveal_strlit(".");
            assert("."@ =~= seq!['.']);
        }
        r
    }
}

/// The message of a table naming error over the offending text.
pub open spec fn spec_table_naming_message(raw: Seq<char>) -> Seq<char> {
    "Unable to process table name '"@ + raw + "'"@
}

/// The error of naming a table with more than two segments, carrying
/// the offending text.
#[derive(Debug, PartialEq, Clone)]
pub struct TableNamingError(String);

impl View for TableNamingError {
    type V = Seq<char>;

    closed spec fn view(&self) -> Seq<char> {
        self.0@
    }
}

impl TableNamingError {
    pub fn new(raw: String) -> (r: TableNamingError)
        ensures
            r@ == raw@,
    {
        TableNamingError(raw)
    }

    /// The rendered message naming the offending text.
    pub fn message(&self) -> (r: String)
        ensures
            r@ == spec_table_naming_message(self@),
    {
        let mut r = String::from_str("Unable to process table name '");
        r.append(self.0.as_str());
        r.append("'");
        r
    }
}

/// What an object name resolves to when a schema is named: its
/// lowercased single segment, or the offending text when it is not a
/// single segment.
pub open spec fn spec_schema_name(parts: Seq<Seq<char>>) -> Result<Seq<char>, Seq<char>> {
    if parts.len() != 1 {
        Err(joined_dotted(parts))
    } else {
        Ok(lowered(parts[0]))
    }
}

/// A single lowercased schema name.
#[derive(Debug, PartialEq, Clone)]
pub struct SchemaName(String);

impl View for SchemaName {
    type V = Seq<char>;

    closed spec fn view(&self) -> Seq<char> {
        self.0@
    }
}

impl DeepView for SchemaName {
    type V = Seq<char>;

    open spec fn deep_view(&self) -> Seq<char> {
        self.view()
    }
}

impl SchemaName {
    /// Wraps a name that is already resolved and folded.
    pub fn from(schema_name: &str) -> (r: SchemaName)
        ensures
            r@ == schema_name@,
    {
        SchemaName(String::from_str(schema_name))
    }

    pub fn as_ref(&self) -> (r: &str)
        ensures
            r@ == self@,
    {
        self.0.as_str()
    }

    /// Resolves an object name to a schema name: only a single segment
    /// is accepted, and it is lowercased.
    pub fn try_from(object: &ObjectName) -> (r: Result<SchemaName, SchemaNamingError>)
        ensures
            match r {
                Ok(name) => spec_schema_name(object@) matches Ok(n) && name@ == n,
                Err(e) => spec_schema_name(object@) matches Err(raw) && e@ == raw,
            },
    {
        if object.0.len() != 1 {
            Err(SchemaNamingError(object.as_text()))
        } else {
            Ok(SchemaName(lowercase(object.0[0].value.as_str())))
        }
    }
}

/// The message of a schema naming error over the offending text.
pub open spec fn spec_schema_naming_message(raw: Seq<char>) -> Seq<char> {
    "Only unqualified schema names are supported, '"@ + raw + "'"@
}

/// The error of naming a schema with anything but a single segment,
/// carrying the offending text.
#[derive(Debug, PartialEq, Clone)]
pub struct SchemaNamingError(String);

impl View for SchemaNamingError {
    type V = Seq<char>;

    closed spec fn view(&self) -> Seq<char> {
        self.0@
    }
}

impl SchemaNamingError {
    pub fn new(raw: String) -> (r: SchemaNamingError)
        ensures
            r@ == raw@,
    {
        SchemaNamingError(raw)
    }

    /// The rendered message naming the offending text.
    pub fn message(&self) -> (r: String)
        ensures
            r@ == spec_schema_naming_message(self@),
    {
        let mut r = String::from_str("Only unqualified schema names are supported, '");
        r.append(self.0.as_str());
        r.append("'");
        r
    }
}

/// What a column definition holds: its name, type and ordinal position.
pub struct SpecColumnDef {
    pub name: Seq<char>,
    pub sql_type: SqlType,
    pub ord_num: nat,
}

/// One column of a table definition; `ord_num` is the authoritative
/// column position.
#[derive(Debug, PartialEq, Clone)]
pub struct ColumnDef {
    name: String,
    sql_type: SqlType,
    ord_num: usize,
}

impl View for ColumnDef {
    type V = SpecColumnDef;

    closed spec fn view(&self) -> SpecColumnDef {
        SpecColumnDef { name: self.name@, sql_type: self.sql_type, ord_num: self.ord_num as nat }
    }
}

impl DeepView for ColumnDef {
    type V = SpecColumnDef;

    open spec fn deep_view(&self) -> SpecColumnDef {
        self.view()
    }
}

impl ColumnDef {
    pub fn new(name: String, sql_type: SqlType, ord_num: usize) -> (r: ColumnDef)
        ensures
            r@.name == name@,
            r@.sql_type == sql_type,
            r@.ord_num == ord_num as nat,
    {
        ColumnDef { name, sql_type, ord_num }
    }

    pub fn name(&self) -> (r: &str)
        ensures
            r@ == self@.name,
    {
        self.name.as_str()
    }

    pub fn sql_type(&self) -> (r: SqlType)
        ensures
            r == self@.sql_type,
    {
        self.sql_type
    }

    pub fn has_name(&self, name: &str) -> (r: bool)
        ensures
            r == (self@.name == name@),
    {
        str_eq(self.name.as_str(), name)
    }

    /// The authoritative position of the column in its table.
    pub fn ord_num(&self) -> (r: usize)
        ensures
            r as nat == self@.ord_num,
    {
        self.ord_num
    }
}

/// What a table definition holds: its qualified name and its columns in
/// declared order.
pub struct SpecTableDef {
    pub schema: Seq<char>,
    pub name: Seq<char>,
    pub columns: Seq<SpecColumnDef>,
}

/// The definition of one table: where it lives and its columns in
/// declared order.
#[derive(Debug, PartialEq, Clone)]
pub struct TableDef {
    schema: String,
    name: String,
    columns: Vec<ColumnDef>,
}

impl View for TableDef {
    type V = SpecTableDef;

    closed spec fn view(&self) -> SpecTableDef {
        SpecTableDef { schema: self.schema@, name: self.name@, columns: self.columns.deep_view() }
    }
}

impl DeepView for TableDef {
    type V = SpecTableDef;

    open spec fn deep_view(&self) -> SpecTableDef {
        self.view()
    }
}

impl TableDef {
    pub fn new(full_table_name: &FullTableName, columns: Vec<ColumnDef>) -> (r: TableDef)
        ensures
            r@.schema == full_table_name@.schema,
            r@.name == full_table_name@.table,
            r@.columns == columns.deep_view(),
    {
        TableDef {
            schema: full_table_name.schema.clone(),
            name: full_table_name.table.clone(),
            columns,
        }
    }

    /// The table's name, lowercased.
    pub fn name(&self) -> (r: &str)
        ensures
            r@ == self@.name,
    {
        self.name.as_str()
    }

    /// The columns in declared order.
    pub fn columns(&self) -> (r: &Vec<ColumnDef>)
        ensures
            r.deep_view() == self@.columns,
    {
        &self.columns
    }

    /// The column names in declared order.
    pub fn column_names(&self) -> (r: Vec<String>)
        ensures
            r.deep_view() == self@.columns.map_values(|c: SpecColumnDef| c.name),
    {
        let mut names: Vec<String> = Vec::new();
        let mut i: usize = 0;
        while i < self.columns.len()
            invariant
                0 <= i <= self.columns.len(),
                self@.columns == self.columns.deep_view(),
                self@.columns.len() == self.columns.len(),
                names@.len() == i,
                forall|j: int| 0 <= j < i ==> #[trigger] names@[j]@ == self@.columns[j].name,
            decreases self.columns.len() - i,
        {
            names.push(self.columns[i].name.clone());
            i = i + 1;
        }
        proof {
            assert(names.deep_view() =~= self@.columns.map_values(|c: SpecColumnDef| c.name));
        }
        names
    }

    /// Whether a column with the given name is declared.
    pub fn has_column(&self, column_name: &str) -> (r: bool)
        ensures
            r == exists|i: int|
                0 <= i < self@.columns.len() && #[trigger] self@.columns[i].name == column_name@,
    {
        let mut i: usize = 0;
        while i < self.columns.len()
            invariant
                0 <= i <= self.columns.len(),
                self@.columns == self.columns.deep_view(),
                self@.columns.len() == self.columns.len(),
                forall|j: int| 0 <= j < i ==> #[trigger] self@.columns[j].name != column_name@,
            decreases self.columns.len() - i,
        {
            if self.columns[i].has_name(column_name) {
                proof {
                    assert(self@.columns[i as int] == self.columns@[i as int]@);
                }
                return true;
            }
            proof {
                assert(self@.columns[i as int] == self.columns@[i as int]@);
            }
            i = i + 1;
        }
        false
    }
}

} // verus!
