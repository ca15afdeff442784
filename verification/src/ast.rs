//! The parsed SQL statements the analyzer accepts.
//!
//! The parser is an outside collaborator; these types hold, as plain
//! values, exactly what the analyzer reads of its output: object names,
//! literal values, binary operators, column declarations and the
//! statement shapes of the supported SQL subset. Numeric literals carry
//! their decimal text.

use vstd::prelude::*;
use vstd::string::*;
use crate::text::{joined_dotted, lemma_joined_dotted_push};

verus! {

/// A single identifier, as the parser delivered it.
#[derive(Debug, PartialEq, Clone)]
pub struct Ident {
    pub value: String,
}

impl View for Ident {
    type V = Seq<char>;

    open spec fn view(&self) -> Seq<char> {
        self.value@
    }
}

impl DeepView for Ident {
    type V = Seq<char>;

    open spec fn deep_view(&self) -> Seq<char> {
        self.value@
    }
}

impl Ident {
    pub fn new(value: String) -> (r: Ident)
        ensures
            r@ == value@,
    {
        Ident { value }
    }
}

/// A possibly qualified object name: one or more identifiers.
#[derive(Debug, PartialEq, Clone)]
pub struct ObjectName(pub Vec<Ident>);

impl View for ObjectName {
    type V = Seq<Seq<char>>;

    open spec fn view(&self) -> Seq<Seq<char>> {
        self.0.deep_view()
    }
}

impl DeepView for ObjectName {
    type V = Seq<Seq<char>>;

    open spec fn deep_view(&self) -> Seq<Seq<char>> {
        self.0.deep_view()
    }
}

impl ObjectName {
    /// The name as the user wrote it: its segments joined with dots.
    pub fn as_text(&self) -> (r: String)
        ensures
            r@ == joined_dotted(self@),
    {
        let mut r = String::new();
        let mut i: usize = 0;
        proof {
            assert(self@.take(0) =~= Seq::<Seq<char>>::empty());
        }
        while i < self.0.len()
            invariant
                0 <= i <= self.0.len(),
                self@ == self.0.deep_view(),
                self@.len() == self.0.len(),
                r@ == joined_dotted(self@.take(i as int)),
            decreases self.0.len() - i,
        {
            if i > 0 {
                r.append(".");
            }
            r.append(self.0[i].value.as_str());
            proof {
                reveal_strlit(".");
                assert("."@ =~= seq!['.']);
                lemma_joined_dotted_push(self@.take(i as int), self@[i as int]);
                assert(self@.take(i as int).push(self@[i as int]) =~= self@.take(i + 1));
            }
            i = i + 1;
        }
        proof {
            assert(self@.take(self.0.len() as int) =~= self@);
        }
        r
    }
}

/// A literal value in an expression.
#[derive(Debug, PartialEq, Clone)]
pub enum Value {
    /// A numeric literal, carried as its decimal text.
    Number(String),
    SingleQuotedString(String),
    NationalStringLiteral(String),
    HexStringLiteral(String),
    Boolean(bool),
    /// A time interval literal, carried as its text.
    Interval { value: String },
    Null,
}

/// The binary operators of the accepted expression subset.
#[derive(Debug, PartialEq, Eq, Structural, Copy, Clone)]
pub enum BinaryOperator {
    Plus,
    Minus,
    Multiply,
    Divide,
    Modulus,
    Gt,
    Lt,
    GtEq,
    LtEq,
    Eq,
    NotEq,
    And,
    Or,
    BitwiseAnd,
    BitwiseOr,
    BitwiseXor,
    ShiftLeft,
    ShiftRight,
    StringConcat,
    Like,
    NotLike,
}

/// The unary operators the parser may deliver; the analyzer accepts none
/// of them.
#[derive(Debug, PartialEq, Eq, Structural, Copy, Clone)]
pub enum UnaryOperator {
    Plus,
    Minus,
    Not,
}

/// An expression tree.
#[derive(Debug, PartialEq)]
pub enum Expr {
    Identifier(Ident),
    Value(Value),
    BinaryOp { left: Box<Expr>, op: BinaryOperator, right: Box<Expr> },
    UnaryOp { op: UnaryOperator, expr: Box<Expr> },
    Nested(Box<Expr>),
}

/// A column data type as written in `CREATE TABLE`.
#[derive(Debug, PartialEq, Eq, Copy, Clone)]
pub enum DataType {
    SmallInt,
    Int,
    BigInt,
    Char(Option<u64>),
    Varchar(Option<u64>),
    Boolean,
    Real,
    Double,
    Date,
    Time,
    Text,
}

/// One column declaration of a `CREATE TABLE` statement.
#[derive(Debug, PartialEq, Clone)]
pub struct ColumnDecl {
    pub name: Ident,
    pub data_type: DataType,
}

/// One item of a `SELECT` projection list.
#[derive(Debug, PartialEq)]
pub enum SelectItem {
    UnnamedExpr(Expr),
    Wildcard,
}

/// One `column = expression` assignment of an `UPDATE` statement.
#[derive(Debug, PartialEq)]
pub struct Assignment {
    pub id: Ident,
    pub value: Expr,
}

/// The kind of object a `DROP` statement names.
#[derive(Debug, PartialEq, Eq, Structural, Copy, Clone)]
pub enum ObjectType {
    Schema,
    Table,
}

/// A parsed SQL statement of the accepted subset.
#[derive(Debug, PartialEq)]
pub enum Statement {
    Insert { table_name: ObjectName, columns: Vec<Ident>, source: Vec<Vec<Expr>> },
    Update { table_name: ObjectName, assignments: Vec<Assignment> },
    Select { table_name: ObjectName, projection: Vec<SelectItem> },
    Delete { table_name: ObjectName },
    CreateSchema { schema_name: ObjectName, if_not_exists: bool },
    CreateTable { name: ObjectName, columns: Vec<ColumnDecl>, if_not_exists: bool },
    Drop { object_type: ObjectType, if_exists: bool, names: Vec<ObjectName>, cascade: bool },
}

} // verus!
