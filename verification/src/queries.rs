//! The DML query shapes the analyzer produces: untyped writes and reads
//! over one table, ready for the downstream typing passes.

use vstd::prelude::*;
use crate::definition::{FullTableName, SpecFullName};
use crate::tree::{DynamicUntypedTree, SpecDynamicTree, SpecStaticTree, StaticUntypedTree};

verus! {

/// What an insert carries: the target table and the rows of optional
/// value trees (an absent cell means the column's default).
pub struct SpecInsertQuery {
    pub full_table_name: SpecFullName,
    pub values: Seq<Seq<Option<SpecStaticTree>>>,
}

/// An `INSERT` lowered to untyped trees.
#[derive(Debug, PartialEq)]
pub struct InsertQuery {
    pub full_table_name: FullTableName,
    pub values: Vec<Vec<Option<StaticUntypedTree>>>,
}

impl View for InsertQuery {
    type V = SpecInsertQuery;

    open spec fn view(&self) -> SpecInsertQuery {
        SpecInsertQuery {
            full_table_name: self.full_table_name@,
            values: self.values.deep_view(),
        }
    }
}

/// What an update carries: the target table, the assigned column names
/// and the assigned value trees, in statement order.
pub struct SpecUpdateQuery {
    pub full_table_name: SpecFullName,
    pub column_names: Seq<Seq<char>>,
    pub assignments: Seq<SpecDynamicTree>,
}

/// An `UPDATE` lowered to untyped trees.
#[derive(Debug, PartialEq)]
pub struct UpdateQuery {
    pub full_table_name: FullTableName,
    pub column_names: Vec<String>,
    pub assignments: Vec<DynamicUntypedTree>,
}

impl View for UpdateQuery {
    type V = SpecUpdateQuery;

    open spec fn view(&self) -> SpecUpdateQuery {
        SpecUpdateQuery {
            full_table_name: self.full_table_name@,
            column_names: self.column_names.deep_view(),
            assignments: self.assignments.deep_view(),
        }
    }
}

/// What a select carries: the target table and the projection trees in
/// statement order (a wildcard already expanded to the table's columns).
pub struct SpecSelectQuery {
    pub full_table_name: SpecFullName,
    pub projection_items: Seq<SpecDynamicTree>,
}

/// A `SELECT` lowered to untyped trees.
#[derive(Debug, PartialEq)]
pub struct SelectQuery {
    pub full_table_name: FullTableName,
    pub projection_items: Vec<DynamicUntypedTree>,
}

impl View for SelectQuery {
    type V = SpecSelectQuery;

    open spec fn view(&self) -> SpecSelectQuery {
        SpecSelectQuery {
            full_table_name: self.full_table_name@,
            projection_items: self.projection_items.deep_view(),
        }
    }
}

/// What a delete carries: the target table alone.
pub struct SpecDeleteQuery {
    pub full_table_name: SpecFullName,
}

/// A `DELETE` lowered to its target table.
#[derive(Debug, PartialEq)]
pub struct DeleteQuery {
    pub full_table_name: FullTableName,
}

impl View for DeleteQuery {
    type V = SpecDeleteQuery;

    open spec fn view(&self) -> SpecDeleteQuery {
        SpecDeleteQuery { full_table_name: self.full_table_name@ }
    }
}

/// What an untyped write is.
pub enum SpecUntypedWrite {
    Insert(SpecInsertQuery),
    Update(SpecUpdateQuery),
    Delete(SpecDeleteQuery),
}

/// A writing DML statement, lowered.
#[derive(Debug, PartialEq)]
pub enum UntypedWrite {
    Insert(InsertQuery),
    Update(UpdateQuery),
    Delete(DeleteQuery),
}

impl View for UntypedWrite {
    type V = SpecUntypedWrite;

    open spec fn view(&self) -> SpecUntypedWrite {
        match self {
            UntypedWrite::Insert(q) => SpecUntypedWrite::Insert(q@),
            UntypedWrite::Update(q) => SpecUntypedWrite::Update(q@),
            UntypedWrite::Delete(q) => SpecUntypedWrite::Delete(q@),
        }
    }
}

} // verus!
