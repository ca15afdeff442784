//! The closed lattice of SQL types and type families.
//!
//! Every [`SqlType`] projects to a [`SqlTypeFamily`]; family comparison
//! returns the dominant family of two operands and is the rule that the
//! later typing passes share.

use vstd::prelude::*;
use vstd::string::*;
use crate::ast::DataType;
use crate::text::{spec_u64_text, u64_text};

verus! {

/// The error of comparing two families that have no common dominant
/// family, carrying both operands.
#[derive(Debug, PartialEq, Eq, Structural, Copy, Clone)]
pub struct IncomparableSqlTypeFamilies {
    pub left: SqlTypeFamily,
    pub right: SqlTypeFamily,
}

/// Equivalence class of SQL types used for operator overload resolution.
#[derive(Debug, PartialEq, Eq, Structural, Copy, Clone)]
pub enum SqlTypeFamily {
    Bool,
    String,
    SmallInt,
    Integer,
    BigInt,
    Real,
    Double,
}

impl SqlTypeFamily {
    /// Whether the family is a floating-point family.
    pub open spec fn spec_is_float(self) -> bool {
        self is Real || self is Double
    }

    /// Whether the family is an integral family.
    pub open spec fn spec_is_int(self) -> bool {
        self is SmallInt || self is Integer || self is BigInt
    }

    /// The dominant family of two operands: among floats `Double`
    /// dominates `Real`; among integrals `BigInt` dominates `Integer`
    /// dominates `SmallInt`; a float dominates an integral; equal
    /// families return themselves; unequal non-numeric families are
    /// incomparable.
    pub open spec fn spec_compare(self, other: SqlTypeFamily) -> Result<
        SqlTypeFamily,
        IncomparableSqlTypeFamilies,
    > {
        if self.spec_is_float() && other.spec_is_float() {
            if self is Double || other is Double {
                Ok(SqlTypeFamily::Double)
            } else {
                Ok(SqlTypeFamily::Real)
            }
        } else if self.spec_is_int() && other.spec_is_int() {
            if self is BigInt || other is BigInt {
                Ok(SqlTypeFamily::BigInt)
            } else if self is Integer || other is Integer {
                Ok(SqlTypeFamily::Integer)
            } else {
                Ok(SqlTypeFamily::SmallInt)
            }
        } else if self.spec_is_float() && other.spec_is_int() {
            Ok(self)
        } else if self.spec_is_int() && other.spec_is_float() {
            Ok(other)
        } else if self == other {
            Ok(self)
        } else {
            Err(IncomparableSqlTypeFamilies { left: self, right: other })
        }
    }

    fn is_float(&self) -> (r: bool)
        ensures
            r == self.spec_is_float(),
    {
        *self == SqlTypeFamily::Real || *self == SqlTypeFamily::Double
    }

    fn is_int(&self) -> (r: bool)
        ensures
            r == self.spec_is_int(),
    {
        *self == SqlTypeFamily::SmallInt || *self == SqlTypeFamily::Integer || *self
            == SqlTypeFamily::BigInt
    }

    /// The dominant family of the two operands, or an error when they
    /// are incomparable.
    pub fn compare(&self, other: &SqlTypeFamily) -> (r: Result<
        SqlTypeFamily,
        IncomparableSqlTypeFamilies,
    >)
        ensures
            r == self.spec_compare(*other),
    {
        if self.is_float() && other.is_float() {
            if self == other {
                Ok(*self)
            } else if self == &SqlTypeFamily::Real && other == &SqlTypeFamily::Double {
                Ok(*other)
            } else {
                Ok(*self)
            }
        } else if self.is_int() && other.is_int() {
            if self == other {
                Ok(*self)
            } else if self == &SqlTypeFamily::SmallInt && other == &SqlTypeFamily::Integer
                || other == &SqlTypeFamily::BigInt {
                Ok(*other)
            } else {
                Ok(*self)
            }
        } else if self.is_float() && other.is_int() {
            Ok(*self)
        } else if self.is_int() && other.is_float() {
            Ok(*other)
        } else if self != other {
            Err(IncomparableSqlTypeFamilies { left: *self, right: *other })
        } else {
            Ok(*self)
        }
    }
}

/// Comparison of two families that both succeed is symmetric, and the
/// dominant family is always one of the two operands.
pub proof fn lemma_compare_symmetric(a: SqlTypeFamily, b: SqlTypeFamily)
    ensures
        a.spec_compare(b) is Ok ==> a.spec_compare(b) == b.spec_compare(a),
        a.spec_compare(b) matches Ok(r) ==> r == a || r == b,
{
}

/// The kind of a character string type: fixed or varying length.
#[derive(Debug, PartialEq, Eq, Structural, Copy, Clone, Hash, PartialOrd, Ord)]
pub enum Str {
    Const,
    Var,
}

/// The numeric SQL types.
#[derive(Debug, PartialEq, Eq, Structural, Copy, Clone, Hash, PartialOrd, Ord)]
pub enum Num {
    SmallInt,
    Integer,
    BigInt,
    Real,
    Double,
}

/// A SQL column type: boolean, character string with a length, or numeric.
#[derive(Debug, PartialEq, Eq, Structural, Copy, Clone, Hash, PartialOrd, Ord)]
pub enum SqlType {
    Bool,
    Str { len: u64, kind: Str },
    Num(Num),
}

impl SqlType {
    /// The family the type projects to. All integral types share the
    /// `Integer` family and both float widths share the `Real` family.
    pub open spec fn spec_family(self) -> SqlTypeFamily {
        match self {
            SqlType::Bool => SqlTypeFamily::Bool,
            SqlType::Str { .. } => SqlTypeFamily::String,
            SqlType::Num(Num::SmallInt) | SqlType::Num(Num::Integer) | SqlType::Num(Num::BigInt)
                => SqlTypeFamily::Integer,
            SqlType::Num(Num::Real) | SqlType::Num(Num::Double) => SqlTypeFamily::Real,
        }
    }

    pub fn family(&self) -> (r: SqlTypeFamily)
        ensures
            r == self.spec_family(),
    {
        match self {
            SqlType::Bool => SqlTypeFamily::Bool,
            SqlType::Str { .. } => SqlTypeFamily::String,
            SqlType::Num(Num::SmallInt) | SqlType::Num(Num::Integer) | SqlType::Num(Num::BigInt)
                => SqlTypeFamily::Integer,
            SqlType::Num(Num::Real) | SqlType::Num(Num::Double) => SqlTypeFamily::Real,
        }
    }

    pub fn small_int() -> (r: SqlType)
        ensures
            r == SqlType::Num(Num::SmallInt),
    {
        SqlType::Num(Num::SmallInt)
    }

    pub fn integer() -> (r: SqlType)
        ensures
            r == SqlType::Num(Num::Integer),
    {
        SqlType::Num(Num::Integer)
    }

    pub fn big_int() -> (r: SqlType)
        ensures
            r == SqlType::Num(Num::BigInt),
    {
        SqlType::Num(Num::BigInt)
    }

    pub fn real_type() -> (r: SqlType)
        ensures
            r == SqlType::Num(Num::Real),
    {
        SqlType::Num(Num::Real)
    }

    pub fn double_precision() -> (r: SqlType)
        ensures
            r == SqlType::Num(Num::Double),
    {
        SqlType::Num(Num::Double)
    }

    pub fn bool() -> (r: SqlType)
        ensures
            r == SqlType::Bool,
    {
        SqlType::Bool
    }

    pub fn char(len: u64) -> (r: SqlType)
        ensures
            r == (SqlType::Str { len, kind: Str::Const }),
    {
        SqlType::Str { len, kind: Str::Const }
    }

    pub fn var_char(len: u64) -> (r: SqlType)
        ensures
            r == (SqlType::Str { len, kind: Str::Var }),
    {
        SqlType::Str { len, kind: Str::Var }
    }

    /// The stable identifier of the type, in `0 ..= 7`.
    pub open spec fn spec_type_id(self) -> u64 {
        match self {
            SqlType::Bool => 0,
            SqlType::Str { kind: Str::Const, .. } => 1,
            SqlType::Str { kind: Str::Var, .. } => 2,
            SqlType::Num(Num::SmallInt) => 3,
            SqlType::Num(Num::Integer) => 4,
            SqlType::Num(Num::BigInt) => 5,
            SqlType::Num(Num::Real) => 6,
            SqlType::Num(Num::Double) => 7,
        }
    }

    pub fn type_id(&self) -> (r: u64)
        ensures
            r == self.spec_type_id(),
    {
        match self {
            SqlType::Bool => 0,
            SqlType::Str { kind: Str::Const, .. } => 1,
            SqlType::Str { kind: Str::Var, .. } => 2,
            SqlType::Num(Num::SmallInt) => 3,
            SqlType::Num(Num::Integer) => 4,
            SqlType::Num(Num::BigInt) => 5,
            SqlType::Num(Num::Real) => 6,
            SqlType::Num(Num::Double) => 7,
        }
    }

    /// The type a stable identifier decodes to; `chars_len` only matters
    /// for the two string kinds.
    pub open spec fn spec_from_type_id(type_id: u64, chars_len: u64) -> SqlType {
        if type_id == 0 {
            SqlType::Bool
        } else if type_id == 1 {
            SqlType::Str { len: chars_len, kind: Str::Const }
        } else if type_id == 2 {
            SqlType::Str { len: chars_len, kind: Str::Var }
        } else if type_id == 3 {
            SqlType::Num(Num::SmallInt)
        } else if type_id == 4 {
            SqlType::Num(Num::Integer)
        } else if type_id == 5 {
            SqlType::Num(Num::BigInt)
        } else if type_id == 6 {
            SqlType::Num(Num::Real)
        } else {
            SqlType::Num(Num::Double)
        }
    }

    pub fn from_type_id(type_id: u64, chars_len: u64) -> (r: SqlType)
        requires
            type_id <= 7,
        ensures
            r == Self::spec_from_type_id(type_id, chars_len),
    {
        match type_id {
            0 => SqlType::Bool,
            1 => SqlType::char(chars_len),
            2 => SqlType::var_char(chars_len),
            3 => SqlType::small_int(),
            4 => SqlType::integer(),
            5 => SqlType::big_int(),
            6 => SqlType::real_type(),
            _ => SqlType::double_precision(),
        }
    }

    /// The declared character length of a string type, `None` otherwise.
    pub open spec fn spec_chars_len(self) -> Option<u64> {
        match self {
            SqlType::Str { len, .. } => Some(len),
            _ => None,
        }
    }

    pub fn chars_len(&self) -> (r: Option<u64>)
        ensures
            r == self.spec_chars_len(),
    {
        match self {
            SqlType::Str { len, .. } => Some(*len),
            _ => None,
        }
    }
}

/// Encoding a type as its identifier and character length and decoding
/// it again gives the type back.
pub proof fn lemma_type_id_round_trip(t: SqlType)
    ensures
        SqlType::spec_from_type_id(
            t.spec_type_id(),
            match t.spec_chars_len() {
                Some(len) => len,
                None => 0,
            },
        ) == t,
{
}

/// The error of mapping a column data type outside the accepted set.
#[derive(Debug, PartialEq, Eq, Structural, Copy, Clone)]
pub struct NotSupportedType;

/// The wire-encoding type a SQL type maps to; the two float widths are
/// not wire-encoded through this path.
#[derive(Debug, PartialEq, Eq, Structural, Copy, Clone)]
pub enum PgType {
    Bool,
    Char,
    VarChar,
    SmallInt,
    Integer,
    BigInt,
}

impl SqlType {
    /// The type a parsed column data type maps to: the accepted set,
    /// with a missing string length defaulting to 255; anything else is
    /// not supported.
    pub open spec fn spec_try_from(data_type: DataType) -> Result<SqlType, NotSupportedType> {
        match data_type {
            DataType::SmallInt => Ok(SqlType::Num(Num::SmallInt)),
            DataType::Int => Ok(SqlType::Num(Num::Integer)),
            DataType::BigInt => Ok(SqlType::Num(Num::BigInt)),
            DataType::Char(len) => Ok(
                SqlType::Str {
                    len: match len {
                        Some(n) => n,
                        None => 255,
                    },
                    kind: Str::Const,
                },
            ),
            DataType::Varchar(len) => Ok(
                SqlType::Str {
                    len: match len {
                        Some(n) => n,
                        None => 255,
                    },
                    kind: Str::Var,
                },
            ),
            DataType::Boolean => Ok(SqlType::Bool),
            _ => Err(NotSupportedType),
        }
    }

    pub fn try_from(data_type: &DataType) -> (r: Result<SqlType, NotSupportedType>)
        ensures
            r == Self::spec_try_from(*data_type),
    {
        match data_type {
            DataType::SmallInt => Ok(SqlType::small_int()),
            DataType::Int => Ok(SqlType::integer()),
            DataType::BigInt => Ok(SqlType::big_int()),
            DataType::Char(len) => Ok(
                SqlType::char(
                    match len {
                        Some(n) => *n,
                        None => 255,
                    },
                ),
            ),
            DataType::Varchar(len) => Ok(
                SqlType::var_char(
                    match len {
                        Some(n) => *n,
                        None => 255,
                    },
                ),
            ),
            DataType::Boolean => Ok(SqlType::Bool),
            _ => Err(NotSupportedType),
        }
    }

    /// The wire type a SQL type maps to; the float types have none.
    pub open spec fn spec_pg_type(t: SqlType) -> Option<PgType> {
        match t {
            SqlType::Bool => Some(PgType::Bool),
            SqlType::Str { kind: Str::Const, .. } => Some(PgType::Char),
            SqlType::Str { kind: Str::Var, .. } => Some(PgType::VarChar),
            SqlType::Num(Num::SmallInt) => Some(PgType::SmallInt),
            SqlType::Num(Num::Integer) => Some(PgType::Integer),
            SqlType::Num(Num::BigInt) => Some(PgType::BigInt),
            SqlType::Num(Num::Real) | SqlType::Num(Num::Double) => None,
        }
    }

    /// The wire type of a non-float SQL type.
    pub fn pg_type(&self) -> (r: PgType)
        requires
            Self::spec_pg_type(*self) is Some,
        ensures
            Some(r) == Self::spec_pg_type(*self),
    {
        match self {
            SqlType::Bool => PgType::Bool,
            SqlType::Str { kind: Str::Const, .. } => PgType::Char,
            SqlType::Str { kind: Str::Var, .. } => PgType::VarChar,
            SqlType::Num(Num::SmallInt) => PgType::SmallInt,
            SqlType::Num(Num::Integer) => PgType::Integer,
            _ => PgType::BigInt,
        }
    }
}

impl SqlType {
    /// The SQL rendering of the type.
    pub open spec fn spec_text(t: SqlType) -> Seq<char> {
        match t {
            SqlType::Bool => "bool"@,
            SqlType::Str { len, kind: Str::Const } => "char("@ + spec_u64_text(len as int) + ")"@,
            SqlType::Str { len, kind: Str::Var } => "varchar("@ + spec_u64_text(len as int)
                + ")"@,
            SqlType::Num(Num::SmallInt) => "smallint"@,
            SqlType::Num(Num::Integer) => "integer"@,
            SqlType::Num(Num::BigInt) => "bigint"@,
            SqlType::Num(Num::Real) => "real"@,
            SqlType::Num(Num::Double) => "double precision"@,
        }
    }

    /// The type as SQL text: `bool`, `char(n)`, `varchar(n)`,
    /// `smallint`, `integer`, `bigint`, `real` or `double precision`.
    pub fn as_text(&self) -> (r: String)
        ensures
            r@ == Self::spec_text(*self),
    {
        match self {
            SqlType::Bool => String::from_str("bool"),
            SqlType::Str { len, kind: Str::Const } => {
                let mut r = String::from_str("char(");
                r.append(u64_text(*len).as_str());
                r.append(")");
                proof {
                    assert(r@ =~= Self::spec_text(*self));
                }
                r
            },
            SqlType::Str { len, kind: Str::Var } => {
                let mut r = String::from_str("varchar(");
                r.append(u64_text(*len).as_str());
                r.append(")");
                proof {
                    assert(r@ =~= Self::spec_text(*self));
                }
                r
            },
            SqlType::Num(Num::SmallInt) => String::from_str("smallint"),
            SqlType::Num(Num::Integer) => String::from_str("integer"),
            SqlType::Num(Num::BigInt) => String::from_str("bigint"),
            SqlType::Num(Num::Real) => String::from_str("real"),
            SqlType::Num(Num::Double) => String::from_str("double precision"),
        }
    }
}

} // verus!
