//! Untyped intermediate expression trees: what the analyzer lowers DML
//! expressions to, before the downstream typing passes.
//!
//! A static tree stands in literal-only contexts (`INSERT` values); its
//! leaves are constants and parameters. A dynamic tree stands in
//! column-bearing contexts (`SELECT` projections, `UPDATE` assignments);
//! its leaves also include resolved column references.

use vstd::prelude::*;
use crate::types::SqlType;

verus! {

/// Arithmetic binary operations.
#[derive(Debug, PartialEq, Eq, Structural, Copy, Clone)]
pub enum Arithmetic {
    Add,
    Sub,
    Mul,
    Div,
    Mod,
}

/// Comparison binary operations.
#[derive(Debug, PartialEq, Eq, Structural, Copy, Clone)]
pub enum Comparison {
    Eq,
    NotEq,
    Lt,
    LtEq,
    Gt,
    GtEq,
}

/// Logical binary operations.
#[derive(Debug, PartialEq, Eq, Structural, Copy, Clone)]
pub enum Logical {
    And,
    Or,
}

/// Bitwise binary operations.
#[derive(Debug, PartialEq, Eq, Structural, Copy, Clone)]
pub enum Bitwise {
    And,
    Or,
    Xor,
    ShiftLeft,
    ShiftRight,
}

/// String binary operations.
#[derive(Debug, PartialEq, Eq, Structural, Copy, Clone)]
pub enum StringOp {
    Concat,
}

/// Pattern-matching binary operations.
#[derive(Debug, PartialEq, Eq, Structural, Copy, Clone)]
pub enum PatternMatching {
    Like,
    NotLike,
}

/// A binary operation, tagged with its family.
#[derive(Debug, PartialEq, Eq, Structural, Copy, Clone)]
pub enum Operation {
    Arithmetic(Arithmetic),
    Comparison(Comparison),
    Logical(Logical),
    Bitwise(Bitwise),
    StringOp(StringOp),
    PatternMatching(PatternMatching),
}

/// A boolean constant, as the wire layer later frames it.
#[derive(Debug, PartialEq, Eq, Structural, Copy, Clone)]
pub struct Bool(pub bool);

/// What an untyped constant carries; a number keeps its decimal text.
pub enum SpecUntypedValue {
    Number(Seq<char>),
    String(Seq<char>),
    Bool(bool),
    Null,
}

/// An untyped constant: a number (kept as its decimal text), a string,
/// a boolean, or the null value.
#[derive(Debug, PartialEq, Clone)]
pub enum UntypedValue {
    Number(String),
    String(String),
    Bool(Bool),
    Null,
}

impl View for UntypedValue {
    type V = SpecUntypedValue;

    open spec fn view(&self) -> SpecUntypedValue {
        match self {
            UntypedValue::Number(n) => SpecUntypedValue::Number(n@),
            UntypedValue::String(s) => SpecUntypedValue::String(s@),
            UntypedValue::Bool(b) => SpecUntypedValue::Bool(b.0),
            UntypedValue::Null => SpecUntypedValue::Null,
        }
    }
}

/// What a static leaf carries.
pub enum SpecStaticItem {
    Const(SpecUntypedValue),
    Param(int),
}

/// A leaf of a static tree: a constant or a zero-based parameter.
#[derive(Debug, PartialEq, Clone)]
pub enum StaticUntypedItem {
    Const(UntypedValue),
    Param(usize),
}

impl View for StaticUntypedItem {
    type V = SpecStaticItem;

    open spec fn view(&self) -> SpecStaticItem {
        match self {
            StaticUntypedItem::Const(value) => SpecStaticItem::Const(value@),
            StaticUntypedItem::Param(index) => SpecStaticItem::Param(*index as int),
        }
    }
}

/// What a static tree is.
pub enum SpecStaticTree {
    Item(SpecStaticItem),
    Operation { left: Box<SpecStaticTree>, op: Operation, right: Box<SpecStaticTree> },
}

/// An expression over literals and parameters only.
#[derive(Debug, PartialEq)]
pub enum StaticUntypedTree {
    Item(StaticUntypedItem),
    Operation { left: Box<StaticUntypedTree>, op: Operation, right: Box<StaticUntypedTree> },
}

/// What a static tree stands for.
pub open spec fn spec_static_tree(tree: StaticUntypedTree) -> SpecStaticTree
    decreases tree,
{
    match tree {
        StaticUntypedTree::Item(item) => SpecStaticTree::Item(item@),
        StaticUntypedTree::Operation { left, op, right } => SpecStaticTree::Operation {
            left: Box::new(spec_static_tree(*left)),
            op,
            right: Box::new(spec_static_tree(*right)),
        },
    }
}

impl View for StaticUntypedTree {
    type V = SpecStaticTree;

    open spec fn view(&self) -> SpecStaticTree {
        spec_static_tree(*self)
    }
}

impl DeepView for StaticUntypedTree {
    type V = SpecStaticTree;

    open spec fn deep_view(&self) -> SpecStaticTree {
        spec_static_tree(*self)
    }
}

/// What a dynamic leaf carries; a column reference keeps the resolved
/// name, position and type.
pub enum SpecDynamicItem {
    Const(SpecUntypedValue),
    Param(int),
    Column { name: Seq<char>, index: int, sql_type: SqlType },
}

/// A leaf of a dynamic tree: a constant, a zero-based parameter, or a
/// column resolved against the catalog.
#[derive(Debug, PartialEq, Clone)]
pub enum DynamicUntypedItem {
    Const(UntypedValue),
    Param(usize),
    Column { name: String, index: usize, sql_type: SqlType },
}

impl View for DynamicUntypedItem {
    type V = SpecDynamicItem;

    open spec fn view(&self) -> SpecDynamicItem {
        match self {
            DynamicUntypedItem::Const(value) => SpecDynamicItem::Const(value@),
            DynamicUntypedItem::Param(index) => SpecDynamicItem::Param(*index as int),
            DynamicUntypedItem::Column { name, index, sql_type } => SpecDynamicItem::Column {
                name: name@,
                index: *index as int,
                sql_type: *sql_type,
            },
        }
    }
}

/// What a dynamic tree is.
pub enum SpecDynamicTree {
    Item(SpecDynamicItem),
    Operation { left: Box<SpecDynamicTree>, op: Operation, right: Box<SpecDynamicTree> },
}

/// An expression over literals, parameters and column references.
#[derive(Debug, PartialEq)]
pub enum DynamicUntypedTree {
    Item(DynamicUntypedItem),
    Operation { left: Box<DynamicUntypedTree>, op: Operation, right: Box<DynamicUntypedTree> },
}

/// What a dynamic tree stands for.
pub open spec fn spec_dynamic_tree(tree: DynamicUntypedTree) -> SpecDynamicTree
    decreases tree,
{
    match tree {
        DynamicUntypedTree::Item(item) => SpecDynamicTree::Item(item@),
        DynamicUntypedTree::Operation { left, op, right } => SpecDynamicTree::Operation {
            left: Box::new(spec_dynamic_tree(*left)),
            op,
            right: Box::new(spec_dynamic_tree(*right)),
        },
    }
}

impl View for DynamicUntypedTree {
    type V = SpecDynamicTree;

    open spec fn view(&self) -> SpecDynamicTree {
        spec_dynamic_tree(*self)
    }
}

impl DeepView for DynamicUntypedTree {
    type V = SpecDynamicTree;

    open spec fn deep_view(&self) -> SpecDynamicTree {
        spec_dynamic_tree(*self)
    }
}

} // verus!
