//! The query analyzer: validates a parsed statement against the catalog
//! and lowers it to an untyped query or a schema-change intent.
//!
//! Every DML analysis first resolves the target name, then checks that
//! the schema and the table exist. `INSERT` values go through the static
//! tree builder (literals and parameters only); `SELECT` projections and
//! `UPDATE` assignments go through the dynamic builder, which also
//! resolves column references. Errors surface immediately: the first
//! failure of a left-to-right walk wins, except that a failure inside a
//! binary operator is reported as `UndefinedFunction` naming the
//! operator.

use vstd::prelude::*;
use vstd::string::*;
use crate::ast::{Assignment, BinaryOperator, ColumnDecl, DataType, Expr, Ident, ObjectName,
    ObjectType, SelectItem, Statement, Value};
use crate::catalog::{spec_find_table, spec_schema_index, InMemoryDatabase, SpecSchemaDef};
use crate::definition::{spec_full_name, spec_schema_name, spec_schema_naming_message,
    spec_table_naming_message, ColumnDef, FullTableName, SchemaName, SpecColumnDef, SpecFullName,
    SpecTableDef, TableDef};
use crate::queries::{DeleteQuery, InsertQuery, SelectQuery, SpecDeleteQuery, SpecInsertQuery,
    SpecSelectQuery, SpecUntypedWrite, SpecUpdateQuery, UntypedWrite, UpdateQuery};
use crate::schema_change::{ColumnInfo, CreateSchemaQuery, CreateTableQuery, DropSchemasQuery,
    DropTablesQuery, SchemaChange, SpecColumnInfo, SpecCreateSchemaQuery, SpecCreateTableQuery,
    SpecDropSchemasQuery, SpecDropTablesQuery, SpecSchemaChange};
use crate::text::{lowercase, lowered};
use crate::tree::{Arithmetic, Bitwise, Bool, Comparison, DynamicUntypedItem, DynamicUntypedTree,
    Logical, Operation, PatternMatching, SpecDynamicItem, SpecDynamicTree, SpecStaticItem,
    SpecStaticTree, SpecUntypedValue, StaticUntypedItem, StaticUntypedTree, StringOp,
    UntypedValue};
use crate::types::SqlType;

verus! {

/// A construct the analyzer recognizes but does not support.
#[derive(Debug, PartialEq, Eq, Copy, Clone)]
pub enum Feature {
    NationalStringLiteral,
    HexStringLiteral,
    TimeInterval,
    /// A column data type outside the accepted set.
    UnsupportedDataType(DataType),
}

/// What an analysis error carries.
pub enum SpecAnalysisError {
    SchemaDoesNotExist(Seq<char>),
    TableDoesNotExist(Seq<char>),
    TableNamingError(Seq<char>),
    SchemaNamingError(Seq<char>),
    ColumnNotFound(Seq<char>),
    ColumnCantBeReferenced(Seq<char>),
    SyntaxError(Expr),
    UndefinedFunction(Operation),
    FeatureNotSupported(Feature),
}

/// A structured analysis error: the first reason the statement was
/// rejected.
#[derive(Debug, PartialEq)]
pub enum AnalysisError {
    /// The resolved schema does not exist; carries its lowercased name.
    SchemaDoesNotExist(String),
    /// The resolved table does not exist; carries `schema.table`.
    TableDoesNotExist(String),
    /// The table name had more than two segments; carries the rendered
    /// message naming the offending text.
    TableNamingError(String),
    /// A qualified name stood where an unqualified schema name was
    /// expected; carries the rendered message naming the offending text.
    SchemaNamingError(String),
    /// A column name did not resolve in the target table.
    ColumnNotFound(String),
    /// A column identifier stood in a literal-only context.
    ColumnCantBeReferenced(String),
    /// An expression shape outside the accepted subset; carries the
    /// offending expression.
    SyntaxError(Box<Expr>),
    /// An operand of a binary operator failed to build; carries the
    /// operator.
    UndefinedFunction(Operation),
    FeatureNotSupported(Feature),
}

impl View for AnalysisError {
    type V = SpecAnalysisError;

    open spec fn view(&self) -> SpecAnalysisError {
        match self {
            AnalysisError::SchemaDoesNotExist(s) => SpecAnalysisError::SchemaDoesNotExist(s@),
            AnalysisError::TableDoesNotExist(s) => SpecAnalysisError::TableDoesNotExist(s@),
            AnalysisError::TableNamingError(s) => SpecAnalysisError::TableNamingError(s@),
            AnalysisError::SchemaNamingError(s) => SpecAnalysisError::SchemaNamingError(s@),
            AnalysisError::ColumnNotFound(s) => SpecAnalysisError::ColumnNotFound(s@),
            AnalysisError::ColumnCantBeReferenced(s) => SpecAnalysisError::ColumnCantBeReferenced(
                s@,
            ),
            AnalysisError::SyntaxError(e) => SpecAnalysisError::SyntaxError(**e),
            AnalysisError::UndefinedFunction(op) => SpecAnalysisError::UndefinedFunction(*op),
            AnalysisError::FeatureNotSupported(f) => SpecAnalysisError::FeatureNotSupported(*f),
        }
    }
}

impl AnalysisError {
    pub fn schema_does_not_exist(name: &str) -> (r: AnalysisError)
        ensures
            r@ == SpecAnalysisError::SchemaDoesNotExist(name@),
    {
        AnalysisError::SchemaDoesNotExist(String::from_str(name))
    }

    pub fn table_does_not_exist(qualified_name: &str) -> (r: AnalysisError)
        ensures
            r@ == SpecAnalysisError::TableDoesNotExist(qualified_name@),
    {
        AnalysisError::TableDoesNotExist(String::from_str(qualified_name))
    }

    pub fn table_naming_error(message: &str) -> (r: AnalysisError)
        ensures
            r@ == SpecAnalysisError::TableNamingError(message@),
    {
        AnalysisError::TableNamingError(String::from_str(message))
    }

    pub fn schema_naming_error(message: &str) -> (r: AnalysisError)
        ensures
            r@ == SpecAnalysisError::SchemaNamingError(message@),
    {
        AnalysisError::SchemaNamingError(String::from_str(message))
    }

    pub fn column_not_found(name: &str) -> (r: AnalysisError)
        ensures
            r@ == SpecAnalysisError::ColumnNotFound(name@),
    {
        AnalysisError::ColumnNotFound(String::from_str(name))
    }

    pub fn column_cant_be_referenced(name: &str) -> (r: AnalysisError)
        ensures
            r@ == SpecAnalysisError::ColumnCantBeReferenced(name@),
    {
        AnalysisError::ColumnCantBeReferenced(String::from_str(name))
    }

    pub fn feature_not_supported(feature: Feature) -> (r: AnalysisError)
        ensures
            r@ == SpecAnalysisError::FeatureNotSupported(feature),
    {
        AnalysisError::FeatureNotSupported(feature)
    }
}

/// The operation family each accepted binary operator maps to.
pub open spec fn spec_binary_operation(op: BinaryOperator) -> Operation {
    match op {
        BinaryOperator::Plus => Operation::Arithmetic(Arithmetic::Add),
        BinaryOperator::Minus => Operation::Arithmetic(Arithmetic::Sub),
        BinaryOperator::Multiply => Operation::Arithmetic(Arithmetic::Mul),
        BinaryOperator::Divide => Operation::Arithmetic(Arithmetic::Div),
        BinaryOperator::Modulus => Operation::Arithmetic(Arithmetic::Mod),
        BinaryOperator::Gt => Operation::Comparison(Comparison::Gt),
        BinaryOperator::Lt => Operation::Comparison(Comparison::Lt),
        BinaryOperator::GtEq => Operation::Comparison(Comparison::GtEq),
        BinaryOperator::LtEq => Operation::Comparison(Comparison::LtEq),
        BinaryOperator::Eq => Operation::Comparison(Comparison::Eq),
        BinaryOperator::NotEq => Operation::Comparison(Comparison::NotEq),
        BinaryOperator::And => Operation::Logical(Logical::And),
        BinaryOperator::Or => Operation::Logical(Logical::Or),
        BinaryOperator::BitwiseAnd => Operation::Bitwise(Bitwise::And),
        BinaryOperator::BitwiseOr => Operation::Bitwise(Bitwise::Or),
        BinaryOperator::BitwiseXor => Operation::Bitwise(Bitwise::Xor),
        BinaryOperator::ShiftLeft => Operation::Bitwise(Bitwise::ShiftLeft),
        BinaryOperator::ShiftRight => Operation::Bitwise(Bitwise::ShiftRight),
        BinaryOperator::StringConcat => Operation::StringOp(StringOp::Concat),
        BinaryOperator::Like => Operation::PatternMatching(PatternMatching::Like),
        BinaryOperator::NotLike => Operation::PatternMatching(PatternMatching::NotLike),
    }
}

/// The table from binary operators to operation families. The mapping is
/// total over the accepted operator set.
pub struct OperationMapper;

impl OperationMapper {
    pub fn binary_operation(op: &BinaryOperator) -> (r: Operation)
        ensures
            r == spec_binary_operation(*op),
    {
        match op {
            BinaryOperator::Plus => Operation::Arithmetic(Arithmetic::Add),
            BinaryOperator::Minus => Operation::Arithmetic(Arithmetic::Sub),
            BinaryOperator::Multiply => Operation::Arithmetic(Arithmetic::Mul),
            BinaryOperator::Divide => Operation::Arithmetic(Arithmetic::Div),
            BinaryOperator::Modulus => Operation::Arithmetic(Arithmetic::Mod),
            BinaryOperator::Gt => Operation::Comparison(Comparison::Gt),
            BinaryOperator::Lt => Operation::Comparison(Comparison::Lt),
            BinaryOperator::GtEq => Operation::Comparison(Comparison::GtEq),
            BinaryOperator::LtEq => Operation::Comparison(Comparison::LtEq),
            BinaryOperator::Eq => Operation::Comparison(Comparison::Eq),
            BinaryOperator::NotEq => Operation::Comparison(Comparison::NotEq),
            BinaryOperator::And => Operation::Logical(Logical::And),
            BinaryOperator::Or => Operation::Logical(Logical::Or),
            BinaryOperator::BitwiseAnd => Operation::Bitwise(Bitwise::And),
            BinaryOperator::BitwiseOr => Operation::Bitwise(Bitwise::Or),
            BinaryOperator::BitwiseXor => Operation::Bitwise(Bitwise::Xor),
            BinaryOperator::ShiftLeft => Operation::Bitwise(Bitwise::ShiftLeft),
            BinaryOperator::ShiftRight => Operation::Bitwise(Bitwise::ShiftRight),
            BinaryOperator::StringConcat => Operation::StringOp(StringOp::Concat),
            BinaryOperator::Like => Operation::PatternMatching(PatternMatching::Like),
            BinaryOperator::NotLike => Operation::PatternMatching(PatternMatching::NotLike),
        }
    }
}

/// Whether a character is a decimal digit.
pub open spec fn spec_is_digit(c: char) -> bool {
    '0' <= c && c <= '9'
}

/// The value of one decimal digit.
pub open spec fn spec_digit_value(c: char) -> int {
    c as int - '0' as int
}

/// The value of a decimal digit string, most significant digit first.
pub open spec fn spec_dec_value(s: Seq<char>) -> int
    decreases s.len(),
{
    if s.len() == 0 {
        0
    } else {
        spec_dec_value(s.drop_last()) * 10 + spec_digit_value(s.last())
    }
}

/// The value of an all-digit string is never negative.
proof fn lemma_dec_value_nonneg(s: Seq<char>)
    requires
        forall|i: int| 0 <= i < s.len() ==> spec_is_digit(#[trigger] s[i]),
    ensures
        spec_dec_value(s) >= 0,
    decreases s.len(),
{
    if s.len() > 0 {
        lemma_dec_value_nonneg(s.drop_last());
    }
}

/// Reading one more digit multiplies the value by ten and adds it.
proof fn lemma_dec_value_step(s: Seq<char>, i: int)
    requires
        0 <= i < s.len(),
    ensures
        spec_dec_value(s.take(i + 1)) == spec_dec_value(s.take(i)) * 10 + spec_digit_value(s[i]),
{
    assert(s.take(i + 1).drop_last() =~= s.take(i));
    assert(s.take(i + 1).last() == s[i]);
}

/// The value of an all-digit string is at least the value of any of its
/// prefixes.
proof fn lemma_dec_value_prefix_le(s: Seq<char>, i: int)
    requires
        0 <= i <= s.len(),
        forall|j: int| 0 <= j < s.len() ==> spec_is_digit(#[trigger] s[j]),
    ensures
        spec_dec_value(s.take(i)) <= spec_dec_value(s),
    decreases s.len() - i,
{
    if i == s.len() {
        assert(s.take(i) =~= s);
    } else {
        lemma_dec_value_step(s, i);
        lemma_dec_value_nonneg(s.take(i));
        lemma_dec_value_prefix_le(s, i + 1);
    }
}

/// What `$<n>` parses to: the zero-based parameter index when the text
/// is a dollar sign followed by decimal digits with value at least one
/// (and at most the machine word), nothing otherwise.
pub open spec fn spec_param_index(s: Seq<char>) -> Option<int> {
    if s.len() >= 2 && s[0] == '$' && (forall|i: int|
        1 <= i < s.len() ==> spec_is_digit(#[trigger] s[i])) && 1 <= spec_dec_value(s.skip(1))
        <= usize::MAX as int {
        Some(spec_dec_value(s.skip(1)) - 1)
    } else {
        None
    }
}

/// Parses a parameter placeholder `$<n>` (`n >= 1` in the text) to its
/// zero-based index. Anything else, a value of zero, and a value beyond
/// the machine word give nothing.
pub fn parse_param_index(value: &str) -> (r: Option<usize>)
    ensures
        match r {
            Some(index) => spec_param_index(value@) == Some(index as int),
            None => spec_param_index(value@) is None,
        },
{
    let n = value.unicode_len();
    if n < 2 {
        return None;
    }
    if value.get_char(0) != '$' {
        return None;
    }
    let ghost digits = value@.skip(1);
    let mut acc: usize = 0;
    let mut i: usize = 1;
    proof {
        assert(digits.take(0) =~= Seq::<char>::empty());
    }
    while i < n
        invariant
            1 <= i <= n,
            n == value@.len(),
            value@[0] == '$',
            digits == value@.skip(1),
            digits.len() == n - 1,
            forall|j: int| 0 <= j < i - 1 ==> spec_is_digit(#[trigger] digits[j]),
            forall|j: int| 0 <= j < i - 1 ==> digits[j] == value@[j + 1],
            acc as int == spec_dec_value(digits.take(i - 1)),
        decreases n - i,
    {
        let c = value.get_char(i);
        let code = c as u32;
        if code < 48 || code > 57 {
            proof {
                assert(value@[i as int] == c);
                assert(digits[i as int - 1] == c);
                assert(!spec_is_digit(c));
            }
            return None;
        }
        let digit = (code - 48) as usize;
        proof {
            assert(spec_is_digit(c));
            assert(spec_digit_value(c) == digit as int);
        }
        if acc > (usize::MAX - digit) / 10 {
            proof {
                lemma_dec_value_step(digits, i - 1);
                assert(spec_dec_value(digits.take(i as int)) > usize::MAX as int);
                if forall|j: int| 0 <= j < digits.len() ==> spec_is_digit(#[trigger] digits[j]) {
                    lemma_dec_value_prefix_le(digits, i as int);
                }
            }
            return None;
        }
        acc = acc * 10 + digit;
        proof {
            lemma_dec_value_step(digits, i - 1);
            assert(digits[i as int - 1] == value@[i as int]);
        }
        i = i + 1;
    }
    proof {
        assert(digits.take(n - 1) =~= digits);
        assert forall|k: int| 1 <= k < value@.len() implies spec_is_digit(
            #[trigger] value@[k],
        ) by {
            assert(digits[k - 1] == value@[k]);
            assert(spec_is_digit(digits[k - 1]));
        }
    }
    if acc == 0 {
        return None;
    }
    Some(acc - 1)
}

fn clone_ident(ident: &Ident) -> (r: Ident)
    ensures
        r == *ident,
{
    Ident { value: ident.value.clone() }
}

fn clone_value(value: &Value) -> (r: Value)
    ensures
        r == *value,
{
    match value {
        Value::Number(n) => Value::Number(n.clone()),
        Value::SingleQuotedString(s) => Value::SingleQuotedString(s.clone()),
        Value::NationalStringLiteral(s) => Value::NationalStringLiteral(s.clone()),
        Value::HexStringLiteral(s) => Value::HexStringLiteral(s.clone()),
        Value::Boolean(b) => Value::Boolean(*b),
        Value::Interval { value: v } => Value::Interval { value: v.clone() },
        Value::Null => Value::Null,
    }
}

fn clone_expr(expr: &Expr) -> (r: Expr)
    ensures
        r == *expr,
    decreases expr,
{
    match expr {
        Expr::Identifier(ident) => Expr::Identifier(clone_ident(ident)),
        Expr::Value(value) => Expr::Value(clone_value(value)),
        Expr::BinaryOp { left, op, right } => Expr::BinaryOp {
            left: Box::new(clone_expr(left)),
            op: *op,
            right: Box::new(clone_expr(right)),
        },
        Expr::UnaryOp { op, expr: inner } => Expr::UnaryOp {
            op: *op,
            expr: Box::new(clone_expr(inner)),
        },
        Expr::Nested(inner) => Expr::Nested(Box::new(clone_expr(inner))),
    }
}

/// The views of a result's value and error.
pub open spec fn result_view<A: View, B: View>(r: Result<A, B>) -> Result<A::V, B::V> {
    match r {
        Ok(a) => Ok(a@),
        Err(b) => Err(b@),
    }
}

/// What a literal builds to in a static tree.
pub open spec fn spec_static_value(value: Value) -> Result<SpecStaticTree, SpecAnalysisError> {
    match value {
        Value::Number(n) => Ok(
            SpecStaticTree::Item(SpecStaticItem::Const(SpecUntypedValue::Number(n@))),
        ),
        Value::SingleQuotedString(s) => Ok(
            SpecStaticTree::Item(SpecStaticItem::Const(SpecUntypedValue::String(s@))),
        ),
        Value::Boolean(b) => Ok(
            SpecStaticTree::Item(SpecStaticItem::Const(SpecUntypedValue::Bool(b))),
        ),
        Value::Null => Ok(SpecStaticTree::Item(SpecStaticItem::Const(SpecUntypedValue::Null))),
        Value::NationalStringLiteral(_) => Err(
            SpecAnalysisError::FeatureNotSupported(Feature::NationalStringLiteral),
        ),
        Value::HexStringLiteral(_) => Err(
            SpecAnalysisError::FeatureNotSupported(Feature::HexStringLiteral),
        ),
        Value::Interval { .. } => Err(
            SpecAnalysisError::FeatureNotSupported(Feature::TimeInterval),
        ),
    }
}

/// What an identifier builds to in a static tree: a parameter, or the
/// error that a column cannot stand in a literal-only context.
pub open spec fn spec_static_ident(ident: Ident) -> Result<SpecStaticTree, SpecAnalysisError> {
    match spec_param_index(ident.value@) {
        Some(index) => Ok(SpecStaticTree::Item(SpecStaticItem::Param(index))),
        None => Err(SpecAnalysisError::ColumnCantBeReferenced(ident.value@)),
    }
}

/// What an expression builds to in a literal-only context. A failure of
/// either operand of a binary operator is reported as the operator being
/// undefined; an expression shape outside the subset is a syntax error
/// carrying the expression.
pub open spec fn spec_static_tree_built(e: Expr) -> Result<SpecStaticTree, SpecAnalysisError>
    decreases e,
{
    match e {
        Expr::Value(value) => spec_static_value(value),
        Expr::Identifier(ident) => spec_static_ident(ident),
        Expr::BinaryOp { left, op, right } => {
            let operation = spec_binary_operation(op);
            match (spec_static_tree_built(*left), spec_static_tree_built(*right)) {
                (Ok(l), Ok(r)) => Ok(
                    SpecStaticTree::Operation { left: Box::new(l), op: operation, right: Box::new(r) },
                ),
                _ => Err(SpecAnalysisError::UndefinedFunction(operation)),
            }
        },
        other => Err(SpecAnalysisError::SyntaxError(other)),
    }
}

/// Builds static untyped trees: expressions over literals and
/// parameters only, for `INSERT` values.
pub struct StaticTreeBuilder;

impl StaticTreeBuilder {
    fn value(value: &Value) -> (r: Result<StaticUntypedTree, AnalysisError>)
        ensures
            result_view(r) == spec_static_value(*value),
    {
        match value {
            Value::Number(n) => Ok(
                StaticUntypedTree::Item(StaticUntypedItem::Const(UntypedValue::Number(n.clone()))),
            ),
            Value::SingleQuotedString(s) => Ok(
                StaticUntypedTree::Item(StaticUntypedItem::Const(UntypedValue::String(s.clone()))),
            ),
            Value::Boolean(b) => Ok(
                StaticUntypedTree::Item(StaticUntypedItem::Const(UntypedValue::Bool(Bool(*b)))),
            ),
            Value::Null => Ok(StaticUntypedTree::Item(StaticUntypedItem::Const(UntypedValue::Null))),
            Value::NationalStringLiteral(_) => Err(
                AnalysisError::feature_not_supported(Feature::NationalStringLiteral),
            ),
            Value::HexStringLiteral(_) => Err(
                AnalysisError::feature_not_supported(Feature::HexStringLiteral),
            ),
            Value::Interval { .. } => Err(
                AnalysisError::feature_not_supported(Feature::TimeInterval),
            ),
        }
    }

    fn ident(ident: &Ident) -> (r: Result<StaticUntypedTree, AnalysisError>)
        ensures
            result_view(r) == spec_static_ident(*ident),
    {
        match parse_param_index(ident.value.as_str()) {
            Some(index) => Ok(StaticUntypedTree::Item(StaticUntypedItem::Param(index))),
            None => Err(AnalysisError::column_cant_be_referenced(ident.value.as_str())),
        }
    }

    /// Builds the static tree of one value expression.
    pub fn build_from(root_expr: &Expr) -> (r: Result<StaticUntypedTree, AnalysisError>)
        ensures
            result_view(r) == spec_static_tree_built(*root_expr),
        decreases root_expr,
    {
        match root_expr {
            Expr::Value(value) => Self::value(value),
            Expr::Identifier(ident) => Self::ident(ident),
            Expr::BinaryOp { left, op, right } => {
                let operation = OperationMapper::binary_operation(op);
                match (Self::build_from(left), Self::build_from(right)) {
                    (Ok(left_item), Ok(right_item)) => Ok(
                        StaticUntypedTree::Operation {
                            left: Box::new(left_item),
                            op: operation,
                            right: Box::new(right_item),
                        },
                    ),
                    _ => Err(AnalysisError::UndefinedFunction(operation)),
                }
            },
            expr => Err(AnalysisError::SyntaxError(Box::new(clone_expr(expr)))),
        }
    }
}

/// The position of the first column with the given name, from `i` on.
pub open spec fn spec_column_index(columns: Seq<SpecColumnDef>, name: Seq<char>, i: int) -> Option<
    int,
>
    decreases columns.len() - i,
{
    if i < 0 || i >= columns.len() {
        None
    } else if columns[i].name == name {
        Some(i)
    } else {
        spec_column_index(columns, name, i + 1)
    }
}

fn find_column(columns: &Vec<ColumnDef>, name: &str) -> (r: Option<usize>)
    ensures
        match r {
            Some(i) => spec_column_index(columns.deep_view(), name@, 0) == Some(i as int) && i
                < columns.len(),
            None => spec_column_index(columns.deep_view(), name@, 0) is None,
        },
{
    let mut i: usize = 0;
    while i < columns.len()
        invariant
            0 <= i <= columns.len(),
            columns.deep_view().len() == columns.len(),
            spec_column_index(columns.deep_view(), name@, 0) == spec_column_index(
                columns.deep_view(),
                name@,
                i as int,
            ),
        decreases columns.len() - i,
    {
        proof {
            assert(columns.deep_view()[i as int] == columns@[i as int]@);
        }
        if columns[i].has_name(name) {
            return Some(i);
        }
        i = i + 1;
    }
    None
}

/// What an identifier builds to in a column-bearing context: the first
/// column its lowercased form names, else a parameter, else the error
/// that the column was not found.
pub open spec fn spec_dynamic_ident(ident: Ident, columns: Seq<SpecColumnDef>) -> Result<
    SpecDynamicTree,
    SpecAnalysisError,
> {
    let folded = lowered(ident.value@);
    match spec_column_index(columns, folded, 0) {
        Some(ci) => Ok(
            SpecDynamicTree::Item(
                SpecDynamicItem::Column {
                    name: columns[ci].name,
                    index: columns[ci].ord_num as int,
                    sql_type: columns[ci].sql_type,
                },
            ),
        ),
        None => match spec_param_index(ident.value@) {
            Some(index) => Ok(SpecDynamicTree::Item(SpecDynamicItem::Param(index))),
            None => Err(SpecAnalysisError::ColumnNotFound(folded)),
        },
    }
}

/// What a literal builds to in a dynamic tree.
pub open spec fn spec_dynamic_value(value: Value) -> Result<SpecDynamicTree, SpecAnalysisError> {
    match value {
        Value::Number(n) => Ok(
            SpecDynamicTree::Item(SpecDynamicItem::Const(SpecUntypedValue::Number(n@))),
        ),
        Value::SingleQuotedString(s) => Ok(
            SpecDynamicTree::Item(SpecDynamicItem::Const(SpecUntypedValue::String(s@))),
        ),
        Value::Boolean(b) => Ok(
            SpecDynamicTree::Item(SpecDynamicItem::Const(SpecUntypedValue::Bool(b))),
        ),
        Value::Null => Ok(SpecDynamicTree::Item(SpecDynamicItem::Const(SpecUntypedValue::Null))),
        Value::NationalStringLiteral(_) => Err(
            SpecAnalysisError::FeatureNotSupported(Feature::NationalStringLiteral),
        ),
        Value::HexStringLiteral(_) => Err(
            SpecAnalysisError::FeatureNotSupported(Feature::HexStringLiteral),
        ),
        Value::Interval { .. } => Err(
            SpecAnalysisError::FeatureNotSupported(Feature::TimeInterval),
        ),
    }
}

/// What an expression builds to in a column-bearing context.
pub open spec fn spec_dynamic_tree_built(e: Expr, columns: Seq<SpecColumnDef>) -> Result<
    SpecDynamicTree,
    SpecAnalysisError,
>
    decreases e,
{
    match e {
        Expr::Value(value) => spec_dynamic_value(value),
        Expr::Identifier(ident) => spec_dynamic_ident(ident, columns),
        Expr::BinaryOp { left, op, right } => {
            let operation = spec_binary_operation(op);
            match (spec_dynamic_tree_built(*left, columns), spec_dynamic_tree_built(
                *right,
                columns,
            )) {
                (Ok(l), Ok(r)) => Ok(
                    SpecDynamicTree::Operation {
                        left: Box::new(l),
                        op: operation,
                        right: Box::new(r),
                    },
                ),
                _ => Err(SpecAnalysisError::UndefinedFunction(operation)),
            }
        },
        other => Err(SpecAnalysisError::SyntaxError(other)),
    }
}

/// Builds dynamic untyped trees: expressions that may reference the
/// target table's columns, for `SELECT` projections and `UPDATE`
/// assignments.
pub struct DynamicTreeBuilder;

impl DynamicTreeBuilder {
    fn value(value: &Value) -> (r: Result<DynamicUntypedTree, AnalysisError>)
        ensures
            result_view(r) == spec_dynamic_value(*value),
    {
        match value {
            Value::Number(n) => Ok(
                DynamicUntypedTree::Item(DynamicUntypedItem::Const(UntypedValue::Number(n.clone()))),
            ),
            Value::SingleQuotedString(s) => Ok(
                DynamicUntypedTree::Item(DynamicUntypedItem::Const(UntypedValue::String(s.clone()))),
            ),
            Value::Boolean(b) => Ok(
                DynamicUntypedTree::Item(DynamicUntypedItem::Const(UntypedValue::Bool(Bool(*b)))),
            ),
            Value::Null => Ok(
                DynamicUntypedTree::Item(DynamicUntypedItem::Const(UntypedValue::Null)),
            ),
            Value::NationalStringLiteral(_) => Err(
                AnalysisError::feature_not_supported(Feature::NationalStringLiteral),
            ),
            Value::HexStringLiteral(_) => Err(
                AnalysisError::feature_not_supported(Feature::HexStringLiteral),
            ),
            Value::Interval { .. } => Err(
                AnalysisError::feature_not_supported(Feature::TimeInterval),
            ),
        }
    }

    fn ident(ident: &Ident, columns: &Vec<ColumnDef>) -> (r: Result<
        DynamicUntypedTree,
        AnalysisError,
    >)
        ensures
            result_view(r) == spec_dynamic_ident(*ident, columns.deep_view()),
    {
        let folded = lowercase(ident.value.as_str());
        match find_column(columns, folded.as_str()) {
            Some(ci) => {
                proof {
                    assert(columns.deep_view()[ci as int] == columns@[ci as int]@);
                }
                Ok(
                    DynamicUntypedTree::Item(
                        DynamicUntypedItem::Column {
                            name: String::from_str(columns[ci].name()),
                            index: columns[ci].ord_num(),
                            sql_type: columns[ci].sql_type(),
                        },
                    ),
                )
            },
            None => match parse_param_index(ident.value.as_str()) {
                Some(index) => Ok(DynamicUntypedTree::Item(DynamicUntypedItem::Param(index))),
                None => Err(AnalysisError::ColumnNotFound(folded)),
            },
        }
    }

    /// Builds the dynamic tree of one expression against the target
    /// table's columns.
    pub fn build_from(root_expr: &Expr, columns: &Vec<ColumnDef>) -> (r: Result<
        DynamicUntypedTree,
        AnalysisError,
    >)
        ensures
            result_view(r) == spec_dynamic_tree_built(*root_expr, columns.deep_view()),
        decreases root_expr,
    {
        match root_expr {
            Expr::Value(value) => Self::value(value),
            Expr::Identifier(ident) => Self::ident(ident, columns),
            Expr::BinaryOp { left, op, right } => {
                let operation = OperationMapper::binary_operation(op);
                match (Self::build_from(left, columns), Self::build_from(right, columns)) {
                    (Ok(left_item), Ok(right_item)) => Ok(
                        DynamicUntypedTree::Operation {
                            left: Box::new(left_item),
                            op: operation,
                            right: Box::new(right_item),
                        },
                    ),
                    _ => Err(AnalysisError::UndefinedFunction(operation)),
                }
            },
            expr => Err(AnalysisError::SyntaxError(Box::new(clone_expr(expr)))),
        }
    }
}

/// The `INSERT` value cells a row of expressions builds to, from
/// position `i` on: each a static tree (present; an absent cell would
/// mean the column's default), or the first error.
pub open spec fn spec_static_row_from(row: Seq<Expr>, i: int) -> Result<
    Seq<Option<SpecStaticTree>>,
    SpecAnalysisError,
>
    decreases row.len() - i,
{
    if i < 0 || i >= row.len() {
        Ok(Seq::empty())
    } else {
        match spec_static_tree_built(row[i]) {
            Err(e) => Err(e),
            Ok(tree) => match spec_static_row_from(row, i + 1) {
                Err(e) => Err(e),
                Ok(rest) => Ok(seq![Some(tree)] + rest),
            },
        }
    }
}

fn build_static_row_from(row: &Vec<Expr>, i: usize) -> (r: Result<
    Vec<Option<StaticUntypedTree>>,
    AnalysisError,
>)
    requires
        i <= row.len(),
    ensures
        result_view(r) matches Ok(cells) ==> spec_static_row_from(row@, i as int)
            == Ok::<Seq<Option<SpecStaticTree>>, SpecAnalysisError>(r->Ok_0.deep_view()),
        result_view(r) matches Err(e) ==> spec_static_row_from(row@, i as int)
            == Err::<Seq<Option<SpecStaticTree>>, SpecAnalysisError>(e),
    decreases row.len() - i,
{
    if i == row.len() {
        let cells: Vec<Option<StaticUntypedTree>> = Vec::new();
        proof {
            assert(cells.deep_view() =~= Seq::<Option<SpecStaticTree>>::empty());
        }
        Ok(cells)
    } else {
        match StaticTreeBuilder::build_from(&row[i]) {
            Err(e) => Err(e),
            Ok(tree) => match build_static_row_from(row, i + 1) {
                Err(e) => Err(e),
                Ok(mut rest) => {
                    let ghost tree_view = tree@;
                    let ghost rest_view = rest.deep_view();
                    let mut cells: Vec<Option<StaticUntypedTree>> = Vec::new();
                    cells.push(Some(tree));
                    cells.append(&mut rest);
                    proof {
                        assert(cells.deep_view() =~= seq![Some(tree_view)] + rest_view);
                    }
                    Ok(cells)
                },
            },
        }
    }
}

/// The value rows an `INSERT` source builds to, from row `i` on, or the
/// first error in row-major order.
pub open spec fn spec_insert_rows_from(rows: Seq<Vec<Expr>>, i: int) -> Result<
    Seq<Seq<Option<SpecStaticTree>>>,
    SpecAnalysisError,
>
    decreases rows.len() - i,
{
    if i < 0 || i >= rows.len() {
        Ok(Seq::empty())
    } else {
        match spec_static_row_from(rows[i]@, 0) {
            Err(e) => Err(e),
            Ok(cells) => match spec_insert_rows_from(rows, i + 1) {
                Err(e) => Err(e),
                Ok(rest) => Ok(seq![cells] + rest),
            },
        }
    }
}

fn build_insert_rows_from(rows: &Vec<Vec<Expr>>, i: usize) -> (r: Result<
    Vec<Vec<Option<StaticUntypedTree>>>,
    AnalysisError,
>)
    requires
        i <= rows.len(),
    ensures
        result_view(r) matches Ok(values) ==> spec_insert_rows_from(rows@, i as int)
            == Ok::<Seq<Seq<Option<SpecStaticTree>>>, SpecAnalysisError>(r->Ok_0.deep_view()),
        result_view(r) matches Err(e) ==> spec_insert_rows_from(rows@, i as int)
            == Err::<Seq<Seq<Option<SpecStaticTree>>>, SpecAnalysisError>(e),
    decreases rows.len() - i,
{
    if i == rows.len() {
        let values: Vec<Vec<Option<StaticUntypedTree>>> = Vec::new();
        proof {
            assert(values.deep_view() =~= Seq::<Seq<Option<SpecStaticTree>>>::empty());
        }
        Ok(values)
    } else {
        match build_static_row_from(&rows[i], 0) {
            Err(e) => Err(e),
            Ok(cells) => match build_insert_rows_from(rows, i + 1) {
                Err(e) => Err(e),
                Ok(mut rest) => {
                    let ghost cells_view = cells.deep_view();
                    let ghost rest_view = rest.deep_view();
                    let mut values: Vec<Vec<Option<StaticUntypedTree>>> = Vec::new();
                    values.push(cells);
                    values.append(&mut rest);
                    proof {
                        assert(values.deep_view() =~= seq![cells_view] + rest_view);
                    }
                    Ok(values)
                },
            },
        }
    }
}

/// The check of an `INSERT` column-name list, from position `i` on: each
/// listed name, lowercased, must be a column of the target table.
pub open spec fn spec_checked_insert_columns(
    names: Seq<Ident>,
    columns: Seq<SpecColumnDef>,
    i: int,
) -> Result<(), SpecAnalysisError>
    decreases names.len() - i,
{
    if i < 0 || i >= names.len() {
        Ok(())
    } else {
        let folded = lowered(names[i].value@);
        if spec_column_index(columns, folded, 0) is Some {
            spec_checked_insert_columns(names, columns, i + 1)
        } else {
            Err(SpecAnalysisError::ColumnNotFound(folded))
        }
    }
}

fn check_insert_columns(names: &Vec<Ident>, columns: &Vec<ColumnDef>, i: usize) -> (r: Result<
    (),
    AnalysisError,
>)
    requires
        i <= names.len(),
    ensures
        result_view(r) matches Ok(u) ==> spec_checked_insert_columns(
            names@,
            columns.deep_view(),
            i as int,
        ) == Ok::<(), SpecAnalysisError>(()),
        result_view(r) matches Err(e) ==> spec_checked_insert_columns(
            names@,
            columns.deep_view(),
            i as int,
        ) == Err::<(), SpecAnalysisError>(e),
    decreases names.len() - i,
{
    if i == names.len() {
        Ok(())
    } else {
        let folded = lowercase(names[i].value.as_str());
        match find_column(columns, folded.as_str()) {
            Some(_) => check_insert_columns(names, columns, i + 1),
            None => Err(AnalysisError::ColumnNotFound(folded)),
        }
    }
}

/// The column names and value trees an `UPDATE` assignment list builds
/// to, from position `i` on: each assigned column, lowercased, must be a
/// column of the target table, and its value builds as a dynamic tree.
pub open spec fn spec_assignments_from(
    assignments: Seq<Assignment>,
    columns: Seq<SpecColumnDef>,
    i: int,
) -> Result<(Seq<Seq<char>>, Seq<SpecDynamicTree>), SpecAnalysisError>
    decreases assignments.len() - i,
{
    if i < 0 || i >= assignments.len() {
        Ok((Seq::empty(), Seq::empty()))
    } else {
        let folded = lowered(assignments[i].id.value@);
        if spec_column_index(columns, folded, 0) is None {
            Err(SpecAnalysisError::ColumnNotFound(folded))
        } else {
            match spec_dynamic_tree_built(assignments[i].value, columns) {
                Err(e) => Err(e),
                Ok(tree) => match spec_assignments_from(assignments, columns, i + 1) {
                    Err(e) => Err(e),
                    Ok(rest) => Ok((seq![folded] + rest.0, seq![tree] + rest.1)),
                },
            }
        }
    }
}

fn build_assignments_from(
    assignments: &Vec<Assignment>,
    columns: &Vec<ColumnDef>,
    i: usize,
) -> (r: Result<(Vec<String>, Vec<DynamicUntypedTree>), AnalysisError>)
    requires
        i <= assignments.len(),
    ensures
        r matches Ok(built) ==> spec_assignments_from(assignments@, columns.deep_view(), i as int)
            == Ok::<(Seq<Seq<char>>, Seq<SpecDynamicTree>), SpecAnalysisError>(
            (built.0.deep_view(), built.1.deep_view()),
        ),
        r matches Err(e) ==> spec_assignments_from(assignments@, columns.deep_view(), i as int)
            == Err::<(Seq<Seq<char>>, Seq<SpecDynamicTree>), SpecAnalysisError>(e@),
    decreases assignments.len() - i,
{
    if i == assignments.len() {
        let names: Vec<String> = Vec::new();
        let trees: Vec<DynamicUntypedTree> = Vec::new();
        proof {
            assert(names.deep_view() =~= Seq::<Seq<char>>::empty());
            assert(trees.deep_view() =~= Seq::<SpecDynamicTree>::empty());
        }
        Ok((names, trees))
    } else {
        let folded = lowercase(assignments[i].id.value.as_str());
        match find_column(columns, folded.as_str()) {
            None => Err(AnalysisError::ColumnNotFound(folded)),
            Some(_) => match DynamicTreeBuilder::build_from(&assignments[i].value, columns) {
                Err(e) => Err(e),
                Ok(tree) => match build_assignments_from(assignments, columns, i + 1) {
                    Err(e) => Err(e),
                    Ok((mut rest_names, mut rest_trees)) => {
                        let ghost folded_view = folded@;
                        let ghost tree_view = tree@;
                        let ghost rest_names_view = rest_names.deep_view();
                        let ghost rest_trees_view = rest_trees.deep_view();
                        let mut names: Vec<String> = Vec::new();
                        names.push(folded);
                        names.append(&mut rest_names);
                        let mut trees: Vec<DynamicUntypedTree> = Vec::new();
                        trees.push(tree);
                        trees.append(&mut rest_trees);
                        proof {
                            assert(names.deep_view() =~= seq![folded_view] + rest_names_view);
                            assert(trees.deep_view() =~= seq![tree_view] + rest_trees_view);
                        }
                        Ok((names, trees))
                    },
                },
            },
        }
    }
}

/// The dynamic trees a wildcard projection expands to: one resolved
/// column reference per table column, in declared order.
pub open spec fn spec_wildcard_columns(columns: Seq<SpecColumnDef>) -> Seq<SpecDynamicTree> {
    Seq::new(
        columns.len(),
        |j: int|
            SpecDynamicTree::Item(
                SpecDynamicItem::Column {
                    name: columns[j].name,
                    index: columns[j].ord_num as int,
                    sql_type: columns[j].sql_type,
                },
            ),
    )
}

fn wildcard_columns(columns: &Vec<ColumnDef>) -> (r: Vec<DynamicUntypedTree>)
    ensures
        r.deep_view() == spec_wildcard_columns(columns.deep_view()),
{
    let mut items: Vec<DynamicUntypedTree> = Vec::new();
    let mut i: usize = 0;
    while i < columns.len()
        invariant
            0 <= i <= columns.len(),
            columns.deep_view().len() == columns.len(),
            items.deep_view().len() == i,
            forall|j: int|
                0 <= j < i ==> #[trigger] items.deep_view()[j] == spec_wildcard_columns(
                    columns.deep_view(),
                )[j],
        decreases columns.len() - i,
    {
        proof {
            assert(columns.deep_view()[i as int] == columns@[i as int]@);
        }
        let item = DynamicUntypedTree::Item(
            DynamicUntypedItem::Column {
                name: String::from_str(columns[i].name()),
                index: columns[i].ord_num(),
                sql_type: columns[i].sql_type(),
            },
        );
        let ghost before = items.deep_view();
        let ghost pushed = item@;
        items.push(item);
        proof {
            assert(items.deep_view() =~= before.push(pushed));
        }
        i = i + 1;
    }
    proof {
        assert(items.deep_view() =~= spec_wildcard_columns(columns.deep_view()));
    }
    items
}

/// The projection trees a `SELECT` item list builds to, from position
/// `i` on: a wildcard expands to the table's columns, any other item is
/// one dynamic tree.
pub open spec fn spec_projection_from(
    items: Seq<SelectItem>,
    columns: Seq<SpecColumnDef>,
    i: int,
) -> Result<Seq<SpecDynamicTree>, SpecAnalysisError>
    decreases items.len() - i,
{
    if i < 0 || i >= items.len() {
        Ok(Seq::empty())
    } else {
        match items[i] {
            SelectItem::Wildcard => match spec_projection_from(items, columns, i + 1) {
                Err(e) => Err(e),
                Ok(rest) => Ok(spec_wildcard_columns(columns) + rest),
            },
            SelectItem::UnnamedExpr(e) => match spec_dynamic_tree_built(e, columns) {
                Err(er) => Err(er),
                Ok(tree) => match spec_projection_from(items, columns, i + 1) {
                    Err(e) => Err(e),
                    Ok(rest) => Ok(seq![tree] + rest),
                },
            },
        }
    }
}

fn build_projection_from(items: &Vec<SelectItem>, columns: &Vec<ColumnDef>, i: usize) -> (r: Result<
    Vec<DynamicUntypedTree>,
    AnalysisError,
>)
    requires
        i <= items.len(),
    ensures
        result_view(r) matches Ok(trees) ==> spec_projection_from(
            items@,
            columns.deep_view(),
            i as int,
        ) == Ok::<Seq<SpecDynamicTree>, SpecAnalysisError>(r->Ok_0.deep_view()),
        result_view(r) matches Err(e) ==> spec_projection_from(
            items@,
            columns.deep_view(),
            i as int,
        ) == Err::<Seq<SpecDynamicTree>, SpecAnalysisError>(e),
    decreases items.len() - i,
{
    if i == items.len() {
        let trees: Vec<DynamicUntypedTree> = Vec::new();
        proof {
            assert(trees.deep_view() =~= Seq::<SpecDynamicTree>::empty());
        }
        Ok(trees)
    } else {
        match &items[i] {
            SelectItem::Wildcard => match build_projection_from(items, columns, i + 1) {
                Err(e) => Err(e),
                Ok(mut rest) => {
                    let mut trees = wildcard_columns(columns);
                    let ghost expansion = trees.deep_view();
                    let ghost rest_view = rest.deep_view();
                    trees.append(&mut rest);
                    proof {
                        assert(trees.deep_view() =~= expansion + rest_view);
                    }
                    Ok(trees)
                },
            },
            SelectItem::UnnamedExpr(e) => match DynamicTreeBuilder::build_from(e, columns) {
                Err(er) => Err(er),
                Ok(tree) => match build_projection_from(items, columns, i + 1) {
                    Err(e2) => Err(e2),
                    Ok(mut rest) => {
                        let ghost tree_view = tree@;
                        let ghost rest_view = rest.deep_view();
                        let mut trees: Vec<DynamicUntypedTree> = Vec::new();
                        trees.push(tree);
                        trees.append(&mut rest);
                        proof {
                            assert(trees.deep_view() =~= seq![tree_view] + rest_view);
                        }
                        Ok(trees)
                    },
                },
            },
        }
    }
}

/// The planned columns a `CREATE TABLE` declaration list builds to, from
/// position `i` on: names lowercased and types mapped, or the first
/// unsupported data type.
pub open spec fn spec_column_infos_from(decls: Seq<ColumnDecl>, i: int) -> Result<
    Seq<SpecColumnInfo>,
    SpecAnalysisError,
>
    decreases decls.len() - i,
{
    if i < 0 || i >= decls.len() {
        Ok(Seq::empty())
    } else {
        match SqlType::spec_try_from(decls[i].data_type) {
            Err(_) => Err(
                SpecAnalysisError::FeatureNotSupported(
                    Feature::UnsupportedDataType(decls[i].data_type),
                ),
            ),
            Ok(sql_type) => match spec_column_infos_from(decls, i + 1) {
                Err(e) => Err(e),
                Ok(rest) => Ok(
                    seq![SpecColumnInfo { name: lowered(decls[i].name.value@), sql_type }] + rest,
                ),
            },
        }
    }
}

fn build_column_infos_from(decls: &Vec<ColumnDecl>, i: usize) -> (r: Result<
    Vec<ColumnInfo>,
    AnalysisError,
>)
    requires
        i <= decls.len(),
    ensures
        result_view(r) matches Ok(infos) ==> spec_column_infos_from(decls@, i as int)
            == Ok::<Seq<SpecColumnInfo>, SpecAnalysisError>(r->Ok_0.deep_view()),
        result_view(r) matches Err(e) ==> spec_column_infos_from(decls@, i as int)
            == Err::<Seq<SpecColumnInfo>, SpecAnalysisError>(e),
    decreases decls.len() - i,
{
    if i == decls.len() {
        let infos: Vec<ColumnInfo> = Vec::new();
        proof {
            assert(infos.deep_view() =~= Seq::<SpecColumnInfo>::empty());
        }
        Ok(infos)
    } else {
        match SqlType::try_from(&decls[i].data_type) {
            Err(_) => Err(
                AnalysisError::feature_not_supported(
                    Feature::UnsupportedDataType(decls[i].data_type),
                ),
            ),
            Ok(sql_type) => match build_column_infos_from(decls, i + 1) {
                Err(e) => Err(e),
                Ok(mut rest) => {
                    let info = ColumnInfo { name: lowercase(decls[i].name.value.as_str()), sql_type };
                    let ghost info_view = info@;
                    let ghost rest_view = rest.deep_view();
                    let mut infos: Vec<ColumnInfo> = Vec::new();
                    infos.push(info);
                    infos.append(&mut rest);
                    proof {
                        assert(infos.deep_view() =~= seq![info_view] + rest_view);
                    }
                    Ok(infos)
                },
            },
        }
    }
}

/// The schema names a `DROP SCHEMA` list resolves to, from position `i`
/// on, or the first naming error.
pub open spec fn spec_dropped_schema_names_from(names: Seq<ObjectName>, i: int) -> Result<
    Seq<Seq<char>>,
    SpecAnalysisError,
>
    decreases names.len() - i,
{
    if i < 0 || i >= names.len() {
        Ok(Seq::empty())
    } else {
        match spec_schema_name(names[i]@) {
            Err(raw) => Err(SpecAnalysisError::SchemaNamingError(spec_schema_naming_message(raw))),
            Ok(name) => match spec_dropped_schema_names_from(names, i + 1) {
                Err(e) => Err(e),
                Ok(rest) => Ok(seq![name] + rest),
            },
        }
    }
}

fn build_dropped_schema_names_from(names: &Vec<ObjectName>, i: usize) -> (r: Result<
    Vec<SchemaName>,
    AnalysisError,
>)
    requires
        i <= names.len(),
    ensures
        result_view(r) matches Ok(resolved) ==> spec_dropped_schema_names_from(names@, i as int)
            == Ok::<Seq<Seq<char>>, SpecAnalysisError>(r->Ok_0.deep_view()),
        result_view(r) matches Err(e) ==> spec_dropped_schema_names_from(names@, i as int)
            == Err::<Seq<Seq<char>>, SpecAnalysisError>(e),
    decreases names.len() - i,
{
    if i == names.len() {
        let resolved: Vec<SchemaName> = Vec::new();
        proof {
            assert(resolved.deep_view() =~= Seq::<Seq<char>>::empty());
        }
        Ok(resolved)
    } else {
        match SchemaName::try_from(&names[i]) {
            Err(e) => Err(AnalysisError::SchemaNamingError(e.message())),
            Ok(name) => match build_dropped_schema_names_from(names, i + 1) {
                Err(e) => Err(e),
                Ok(mut rest) => {
                    let ghost name_view = name@;
                    let ghost rest_view = rest.deep_view();
                    let mut resolved: Vec<SchemaName> = Vec::new();
                    resolved.push(name);
                    resolved.append(&mut rest);
                    proof {
                        assert(resolved.deep_view() =~= seq![name_view] + rest_view);
                    }
                    Ok(resolved)
                },
            },
        }
    }
}

/// The full table names a `DROP TABLE` list resolves to, from position
/// `i` on, or the first naming error.
pub open spec fn spec_dropped_full_names_from(names: Seq<ObjectName>, i: int) -> Result<
    Seq<SpecFullName>,
    SpecAnalysisError,
>
    decreases names.len() - i,
{
    if i < 0 || i >= names.len() {
        Ok(Seq::empty())
    } else {
        match spec_full_name(names[i]@) {
            Err(raw) => Err(SpecAnalysisError::TableNamingError(spec_table_naming_message(raw))),
            Ok(full) => match spec_dropped_full_names_from(names, i + 1) {
                Err(e) => Err(e),
                Ok(rest) => Ok(seq![full] + rest),
            },
        }
    }
}

fn build_dropped_full_names_from(names: &Vec<ObjectName>, i: usize) -> (r: Result<
    Vec<FullTableName>,
    AnalysisError,
>)
    requires
        i <= names.len(),
        forall|j: int| 0 <= j < names@.len() ==> (#[trigger] names@[j])@.len() >= 1,
    ensures
        result_view(r) matches Ok(resolved) ==> spec_dropped_full_names_from(names@, i as int)
            == Ok::<Seq<SpecFullName>, SpecAnalysisError>(r->Ok_0.deep_view()),
        result_view(r) matches Err(e) ==> spec_dropped_full_names_from(names@, i as int)
            == Err::<Seq<SpecFullName>, SpecAnalysisError>(e),
    decreases names.len() - i,
{
    if i == names.len() {
        let resolved: Vec<FullTableName> = Vec::new();
        proof {
            assert(resolved.deep_view() =~= Seq::<SpecFullName>::empty());
        }
        Ok(resolved)
    } else {
        match FullTableName::try_from(&names[i]) {
            Err(e) => Err(AnalysisError::TableNamingError(e.message())),
            Ok(full) => match build_dropped_full_names_from(names, i + 1) {
                Err(e) => Err(e),
                Ok(mut rest) => {
                    let ghost full_view = full@;
                    let ghost rest_view = rest.deep_view();
                    let mut resolved: Vec<FullTableName> = Vec::new();
                    resolved.push(full);
                    resolved.append(&mut rest);
                    proof {
                        assert(resolved.deep_view() =~= seq![full_view] + rest_view);
                    }
                    Ok(resolved)
                },
            },
        }
    }
}

/// What an accepted statement analyzes to.
pub enum SpecQueryAnalysis {
    Write(SpecUntypedWrite),
    Read(SpecSelectQuery),
    DataDefinition(SpecSchemaChange),
}

/// The analysis of one accepted statement: an untyped write, an untyped
/// read, or a schema-change intent for the DDL planner.
#[derive(Debug, PartialEq)]
pub enum QueryAnalysis {
    Write(UntypedWrite),
    Read(SelectQuery),
    DataDefinition(SchemaChange),
}

impl View for QueryAnalysis {
    type V = SpecQueryAnalysis;

    open spec fn view(&self) -> SpecQueryAnalysis {
        match self {
            QueryAnalysis::Write(w) => SpecQueryAnalysis::Write(w@),
            QueryAnalysis::Read(q) => SpecQueryAnalysis::Read(q@),
            QueryAnalysis::DataDefinition(c) => SpecQueryAnalysis::DataDefinition(c@),
        }
    }
}

/// The shared preamble of every DML analysis: resolve the target name,
/// then require its schema and then the table itself to exist.
pub open spec fn spec_dml_preamble(db: Seq<SpecSchemaDef>, parts: Seq<Seq<char>>) -> Result<
    (SpecFullName, SpecTableDef),
    SpecAnalysisError,
> {
    match spec_full_name(parts) {
        Err(raw) => Err(SpecAnalysisError::TableNamingError(spec_table_naming_message(raw))),
        Ok(full) => if spec_schema_index(db, full.schema, 0) is None {
            Err(SpecAnalysisError::SchemaDoesNotExist(full.schema))
        } else {
            match spec_find_table(db, full.schema, full.table) {
                None => Err(
                    SpecAnalysisError::TableDoesNotExist(full.schema + seq!['.'] + full.table),
                ),
                Some(table) => Ok((full, table)),
            }
        },
    }
}

/// Whether every object name of a statement has at least one segment, as
/// the parser guarantees.
pub open spec fn spec_statement_wf(statement: Statement) -> bool {
    match statement {
        Statement::Insert { table_name, .. } => table_name@.len() >= 1,
        Statement::Update { table_name, .. } => table_name@.len() >= 1,
        Statement::Select { table_name, .. } => table_name@.len() >= 1,
        Statement::Delete { table_name } => table_name@.len() >= 1,
        Statement::CreateSchema { .. } => true,
        Statement::CreateTable { name, .. } => name@.len() >= 1,
        Statement::Drop { object_type, names, .. } => object_type is Table ==> forall|j: int|
            0 <= j < names@.len() ==> (#[trigger] names@[j])@.len() >= 1,
    }
}

/// What a statement analyzes to against a catalog: the lowered query or
/// intent, or the first structured error.
pub open spec fn spec_analyze(db: Seq<SpecSchemaDef>, statement: Statement) -> Result<
    SpecQueryAnalysis,
    SpecAnalysisError,
> {
    match statement {
        Statement::Insert { table_name, columns, source } => match spec_dml_preamble(
            db,
            table_name@,
        ) {
            Err(e) => Err(e),
            Ok((full, table)) => match spec_checked_insert_columns(columns@, table.columns, 0) {
                Err(e) => Err(e),
                Ok(_) => match spec_insert_rows_from(source@, 0) {
                    Err(e) => Err(e),
                    Ok(values) => Ok(
                        SpecQueryAnalysis::Write(
                            SpecUntypedWrite::Insert(
                                SpecInsertQuery { full_table_name: full, values },
                            ),
                        ),
                    ),
                },
            },
        },
        Statement::Update { table_name, assignments } => match spec_dml_preamble(db, table_name@) {
            Err(e) => Err(e),
            Ok((full, table)) => match spec_assignments_from(assignments@, table.columns, 0) {
                Err(e) => Err(e),
                Ok((column_names, trees)) => Ok(
                    SpecQueryAnalysis::Write(
                        SpecUntypedWrite::Update(
                            SpecUpdateQuery {
                                full_table_name: full,
                                column_names,
                                assignments: trees,
                            },
                        ),
                    ),
                ),
            },
        },
        Statement::Select { table_name, projection } => match spec_dml_preamble(db, table_name@) {
            Err(e) => Err(e),
            Ok((full, table)) => match spec_projection_from(projection@, table.columns, 0) {
                Err(e) => Err(e),
                Ok(projection_items) => Ok(
                    SpecQueryAnalysis::Read(
                        SpecSelectQuery { full_table_name: full, projection_items },
                    ),
                ),
            },
        },
        Statement::Delete { table_name } => match spec_dml_preamble(db, table_name@) {
            Err(e) => Err(e),
            Ok((full, _)) => Ok(
                SpecQueryAnalysis::Write(
                    SpecUntypedWrite::Delete(SpecDeleteQuery { full_table_name: full }),
                ),
            ),
        },
        Statement::CreateSchema { schema_name, if_not_exists } => match spec_schema_name(
            schema_name@,
        ) {
            Err(raw) => Err(SpecAnalysisError::SchemaNamingError(spec_schema_naming_message(raw))),
            Ok(name) => Ok(
                SpecQueryAnalysis::DataDefinition(
                    SpecSchemaChange::CreateSchema(
                        SpecCreateSchemaQuery { schema_name: name, if_not_exists },
                    ),
                ),
            ),
        },
        Statement::CreateTable { name, columns, if_not_exists } => match spec_full_name(name@) {
            Err(raw) => Err(SpecAnalysisError::TableNamingError(spec_table_naming_message(raw))),
            Ok(full) => match spec_column_infos_from(columns@, 0) {
                Err(e) => Err(e),
                Ok(column_defs) => Ok(
                    SpecQueryAnalysis::DataDefinition(
                        SpecSchemaChange::CreateTable(
                            SpecCreateTableQuery {
                                full_table_name: full,
                                column_defs,
                                if_not_exists,
                            },
                        ),
                    ),
                ),
            },
        },
        Statement::Drop { object_type, if_exists, names, cascade } => match object_type {
            ObjectType::Schema => match spec_dropped_schema_names_from(names@, 0) {
                Err(e) => Err(e),
                Ok(schema_names) => Ok(
                    SpecQueryAnalysis::DataDefinition(
                        SpecSchemaChange::DropSchemas(
                            SpecDropSchemasQuery { schema_names, cascade, if_exists },
                        ),
                    ),
                ),
            },
            ObjectType::Table => match spec_dropped_full_names_from(names@, 0) {
                Err(e) => Err(e),
                Ok(full_table_names) => Ok(
                    SpecQueryAnalysis::DataDefinition(
                        SpecSchemaChange::DropTables(
                            SpecDropTablesQuery { full_table_names, cascade, if_exists },
                        ),
                    ),
                ),
            },
        },
    }
}

/// The query analyzer: holds its catalog snapshot and analyzes one
/// statement per call.
pub struct Analyzer {
    database: InMemoryDatabase,
}

impl View for Analyzer {
    type V = Seq<SpecSchemaDef>;

    closed spec fn view(&self) -> Seq<SpecSchemaDef> {
        self.database@
    }
}

impl Analyzer {
    pub fn new(database: InMemoryDatabase) -> (r: Analyzer)
        ensures
            r@ == database@,
    {
        Analyzer { database }
    }

    fn dml_preamble(&self, table_name: &ObjectName) -> (r: Result<
        (FullTableName, &TableDef),
        AnalysisError,
    >)
        requires
            table_name@.len() >= 1,
        ensures
            r matches Ok(p) ==> spec_dml_preamble(self@, table_name@) == Ok::<
                (SpecFullName, SpecTableDef),
                SpecAnalysisError,
            >((p.0@, p.1@)),
            r matches Err(e) ==> spec_dml_preamble(self@, table_name@) == Err::<
                (SpecFullName, SpecTableDef),
                SpecAnalysisError,
            >(e@),
    {
        let full = match FullTableName::try_from(table_name) {
            Ok(full) => full,
            Err(e) => {
                return Err(AnalysisError::TableNamingError(e.message()));
            },
        };
        if !self.database.schema_exists(full.schema()) {
            return Err(AnalysisError::schema_does_not_exist(full.schema()));
        }
        match self.database.table(&full) {
            Some(table) => Ok((full, table)),
            None => Err(AnalysisError::TableDoesNotExist(full.as_text())),
        }
    }

    /// Analyzes one statement against the catalog snapshot:
    /// [`spec_analyze`] of the snapshot and the statement.
    pub fn analyze(&self, statement: Statement) -> (r: Result<QueryAnalysis, AnalysisError>)
        requires
            spec_statement_wf(statement),
        ensures
            result_view(r) == spec_analyze(self@, statement),
    {
        match &statement {
            Statement::Insert { table_name, columns, source } => {
                let (full, table) = match self.dml_preamble(table_name) {
                    Ok(p) => p,
                    Err(e) => {
                        return Err(e);
                    },
                };
                match check_insert_columns(columns, table.columns(), 0) {
                    Err(e) => {
                        return Err(e);
                    },
                    Ok(_) => {},
                }
                match build_insert_rows_from(source, 0) {
                    Err(e) => Err(e),
                    Ok(values) => Ok(
                        QueryAnalysis::Write(
                            UntypedWrite::Insert(InsertQuery { full_table_name: full, values }),
                        ),
                    ),
                }
            },
            Statement::Update { table_name, assignments } => {
                let (full, table) = match self.dml_preamble(table_name) {
                    Ok(p) => p,
                    Err(e) => {
                        return Err(e);
                    },
                };
                match build_assignments_from(assignments, table.columns(), 0) {
                    Err(e) => Err(e),
                    Ok((column_names, trees)) => Ok(
                        QueryAnalysis::Write(
                            UntypedWrite::Update(
                                UpdateQuery {
                                    full_table_name: full,
                                    column_names,
                                    assignments: trees,
                                },
                            ),
                        ),
                    ),
                }
            },
            Statement::Select { table_name, projection } => {
                let (full, table) = match self.dml_preamble(table_name) {
                    Ok(p) => p,
                    Err(e) => {
                        return Err(e);
                    },
                };
                match build_projection_from(projection, table.columns(), 0) {
                    Err(e) => Err(e),
                    Ok(projection_items) => Ok(
                        QueryAnalysis::Read(SelectQuery { full_table_name: full, projection_items }),
                    ),
                }
            },
            Statement::Delete { table_name } => {
                match self.dml_preamble(table_name) {
                    Ok((full, _)) => Ok(
                        QueryAnalysis::Write(
                            UntypedWrite::Delete(DeleteQuery { full_table_name: full }),
                        ),
                    ),
                    Err(e) => Err(e),
                }
            },
            Statement::CreateSchema { schema_name, if_not_exists } => {
                match SchemaName::try_from(schema_name) {
                    Err(e) => Err(AnalysisError::SchemaNamingError(e.message())),
                    Ok(name) => Ok(
                        QueryAnalysis::DataDefinition(
                            SchemaChange::CreateSchema(
                                CreateSchemaQuery {
                                    schema_name: name,
                                    if_not_exists: *if_not_exists,
                                },
                            ),
                        ),
                    ),
                }
            },
            Statement::CreateTable { name, columns, if_not_exists } => {
                let full = match FullTableName::try_from(name) {
                    Ok(full) => full,
                    Err(e) => {
                        return Err(AnalysisError::TableNamingError(e.message()));
                    },
                };
                match build_column_infos_from(columns, 0) {
                    Err(e) => Err(e),
                    Ok(column_defs) => Ok(
                        QueryAnalysis::DataDefinition(
                            SchemaChange::CreateTable(
                                CreateTableQuery {
                                    full_table_name: full,
                                    column_defs,
                                    if_not_exists: *if_not_exists,
                                },
                            ),
                        ),
                    ),
                }
            },
            Statement::Drop { object_type, if_exists, names, cascade } => {
                match object_type {
                    ObjectType::Schema => {
                        match build_dropped_schema_names_from(names, 0) {
                            Err(e) => Err(e),
                            Ok(schema_names) => Ok(
                                QueryAnalysis::DataDefinition(
                                    SchemaChange::DropSchemas(
                                        DropSchemasQuery {
                                            schema_names,
                                            cascade: *cascade,
                                            if_exists: *if_exists,
                                        },
                                    ),
                                ),
                            ),
                        }
                    },
                    ObjectType::Table => {
                        match build_dropped_full_names_from(names, 0) {
                            Err(e) => Err(e),
                            Ok(full_table_names) => Ok(
                                QueryAnalysis::DataDefinition(
                                    SchemaChange::DropTables(
                                        DropTablesQuery {
                                            full_table_names,
                                            cascade: *cascade,
                                            if_exists: *if_exists,
                                        },
                                    ),
                                ),
                            ),
                        }
                    },
                }
            },
        }
    }
}

/// Law: analysis is deterministic and referentially transparent. Against
/// one catalog snapshot, two analyses of equal statements have equal
/// results, up to the views of the carried strings.
pub proof fn lemma_analyze_deterministic(
    db: Seq<SpecSchemaDef>,
    s1: Statement,
    s2: Statement,
    r1: Result<QueryAnalysis, AnalysisError>,
    r2: Result<QueryAnalysis, AnalysisError>,
)
    requires
        s1 == s2,
        result_view(r1) == spec_analyze(db, s1),
        result_view(r2) == spec_analyze(db, s2),
    ensures
        result_view(r1) == result_view(r2),
{
}

/// Whether two statements differ at most in how their single target name
/// is written.
pub open spec fn spec_same_but_target_name(s1: Statement, s2: Statement) -> bool {
    match (s1, s2) {
        (
            Statement::Insert { table_name: n1, columns: c1, source: v1 },
            Statement::Insert { table_name: n2, columns: c2, source: v2 },
        ) => c1 == c2 && v1 == v2,
        (
            Statement::Update { table_name: n1, assignments: a1 },
            Statement::Update { table_name: n2, assignments: a2 },
        ) => a1 == a2,
        (
            Statement::Select { table_name: n1, projection: p1 },
            Statement::Select { table_name: n2, projection: p2 },
        ) => p1 == p2,
        (Statement::Delete { table_name: n1 }, Statement::Delete { table_name: n2 }) => true,
        (
            Statement::CreateTable { name: n1, columns: c1, if_not_exists: b1 },
            Statement::CreateTable { name: n2, columns: c2, if_not_exists: b2 },
        ) => c1 == c2 && b1 == b2,
        _ => false,
    }
}

/// The target object name of a statement that names one table.
pub open spec fn spec_target_name(s: Statement) -> Seq<Seq<char>> {
    match s {
        Statement::Insert { table_name, .. } => table_name@,
        Statement::Update { table_name, .. } => table_name@,
        Statement::Select { table_name, .. } => table_name@,
        Statement::Delete { table_name } => table_name@,
        Statement::CreateTable { name, .. } => name@,
        _ => Seq::empty(),
    }
}

/// The schema name `public` folds to itself.
proof fn lemma_public_lowered()
    ensures
        lowered("public"@) == "public"@,
{
    reveal_strlit("public");
    assert(vstd::utf8::is_ascii_chars("public"@));
    crate::text::lemma_lowered_identity("public"@);
}

/// Law: a statement whose unqualified target name defaults to the
/// `public` schema analyzes identically to the same statement with the
/// name written as `public.<table>`.
pub proof fn lemma_public_qualification(db: Seq<SpecSchemaDef>, s1: Statement, s2: Statement)
    requires
        spec_same_but_target_name(s1, s2),
        spec_target_name(s1).len() == 1,
        spec_target_name(s2).len() == 2,
        spec_target_name(s2)[0] == "public"@,
        spec_target_name(s2)[1] == spec_target_name(s1)[0],
    ensures
        spec_analyze(db, s1) == spec_analyze(db, s2),
{
    lemma_public_lowered();
    assert(spec_full_name(spec_target_name(s1)) == spec_full_name(spec_target_name(s2)));
}

} // verus!
