use sql_engine::ast::DataType;
use sql_engine::types::{IncomparableSqlTypeFamilies, NotSupportedType, PgType, SqlType,
    SqlTypeFamily};

#[test]
fn type_id_round_trip_over_all_types() {
    let all = vec![
        SqlType::bool(),
        SqlType::char(5),
        SqlType::var_char(255),
        SqlType::small_int(),
        SqlType::integer(),
        SqlType::big_int(),
        SqlType::real_type(),
        SqlType::double_precision(),
    ];
    for t in all {
        assert_eq!(SqlType::from_type_id(t.type_id(), t.chars_len().unwrap_or(0)), t);
    }
}

#[test]
fn type_ids_are_stable() {
    assert_eq!(SqlType::bool().type_id(), 0);
    assert_eq!(SqlType::char(10).type_id(), 1);
    assert_eq!(SqlType::var_char(10).type_id(), 2);
    assert_eq!(SqlType::small_int().type_id(), 3);
    assert_eq!(SqlType::integer().type_id(), 4);
    assert_eq!(SqlType::big_int().type_id(), 5);
    assert_eq!(SqlType::real_type().type_id(), 6);
    assert_eq!(SqlType::double_precision().type_id(), 7);
}

#[test]
fn chars_len_only_for_strings() {
    assert_eq!(SqlType::char(7).chars_len(), Some(7));
    assert_eq!(SqlType::var_char(9).chars_len(), Some(9));
    assert_eq!(SqlType::integer().chars_len(), None);
    assert_eq!(SqlType::bool().chars_len(), None);
}

#[test]
fn families_of_types() {
    assert_eq!(SqlType::bool().family(), SqlTypeFamily::Bool);
    assert_eq!(SqlType::char(1).family(), SqlTypeFamily::String);
    assert_eq!(SqlType::var_char(1).family(), SqlTypeFamily::String);
    assert_eq!(SqlType::small_int().family(), SqlTypeFamily::Integer);
    assert_eq!(SqlType::integer().family(), SqlTypeFamily::Integer);
    assert_eq!(SqlType::big_int().family(), SqlTypeFamily::Integer);
    assert_eq!(SqlType::real_type().family(), SqlTypeFamily::Real);
    assert_eq!(SqlType::double_precision().family(), SqlTypeFamily::Real);
}

#[test]
fn float_families_dominate_each_other() {
    assert_eq!(SqlTypeFamily::Real.compare(&SqlTypeFamily::Double), Ok(SqlTypeFamily::Double));
    assert_eq!(SqlTypeFamily::Double.compare(&SqlTypeFamily::Real), Ok(SqlTypeFamily::Double));
    assert_eq!(SqlTypeFamily::Real.compare(&SqlTypeFamily::Real), Ok(SqlTypeFamily::Real));
}

#[test]
fn integral_families_dominate_each_other() {
    assert_eq!(
        SqlTypeFamily::SmallInt.compare(&SqlTypeFamily::Integer),
        Ok(SqlTypeFamily::Integer)
    );
    assert_eq!(
        SqlTypeFamily::Integer.compare(&SqlTypeFamily::SmallInt),
        Ok(SqlTypeFamily::Integer)
    );
    assert_eq!(SqlTypeFamily::BigInt.compare(&SqlTypeFamily::Integer), Ok(SqlTypeFamily::BigInt));
    assert_eq!(SqlTypeFamily::SmallInt.compare(&SqlTypeFamily::BigInt), Ok(SqlTypeFamily::BigInt));
    assert_eq!(
        SqlTypeFamily::SmallInt.compare(&SqlTypeFamily::SmallInt),
        Ok(SqlTypeFamily::SmallInt)
    );
}

#[test]
fn mixed_numeric_families_yield_the_float() {
    assert_eq!(SqlTypeFamily::Real.compare(&SqlTypeFamily::BigInt), Ok(SqlTypeFamily::Real));
    assert_eq!(SqlTypeFamily::SmallInt.compare(&SqlTypeFamily::Double), Ok(SqlTypeFamily::Double));
}

#[test]
fn equal_non_numeric_families_compare_to_themselves() {
    assert_eq!(SqlTypeFamily::Bool.compare(&SqlTypeFamily::Bool), Ok(SqlTypeFamily::Bool));
    assert_eq!(SqlTypeFamily::String.compare(&SqlTypeFamily::String), Ok(SqlTypeFamily::String));
}

#[test]
fn unequal_non_numeric_families_are_incomparable() {
    assert_eq!(
        SqlTypeFamily::Bool.compare(&SqlTypeFamily::SmallInt),
        Err(IncomparableSqlTypeFamilies {
            left: SqlTypeFamily::Bool,
            right: SqlTypeFamily::SmallInt
        })
    );
    assert_eq!(
        SqlTypeFamily::String.compare(&SqlTypeFamily::Double),
        Err(IncomparableSqlTypeFamilies {
            left: SqlTypeFamily::String,
            right: SqlTypeFamily::Double
        })
    );
}

#[test]
fn comparison_is_symmetric_when_it_succeeds() {
    let families = vec![
        SqlTypeFamily::Bool,
        SqlTypeFamily::String,
        SqlTypeFamily::SmallInt,
        SqlTypeFamily::Integer,
        SqlTypeFamily::BigInt,
        SqlTypeFamily::Real,
        SqlTypeFamily::Double,
    ];
    for a in &families {
        for b in &families {
            if let Ok(dominant) = a.compare(b) {
                assert_eq!(b.compare(a), Ok(dominant));
                assert!(dominant == *a || dominant == *b);
            }
        }
    }
}

#[test]
fn data_types_map_to_sql_types() {
    assert_eq!(SqlType::try_from(&DataType::SmallInt), Ok(SqlType::small_int()));
    assert_eq!(SqlType::try_from(&DataType::Int), Ok(SqlType::integer()));
    assert_eq!(SqlType::try_from(&DataType::BigInt), Ok(SqlType::big_int()));
    assert_eq!(SqlType::try_from(&DataType::Char(Some(5))), Ok(SqlType::char(5)));
    assert_eq!(SqlType::try_from(&DataType::Char(None)), Ok(SqlType::char(255)));
    assert_eq!(SqlType::try_from(&DataType::Varchar(Some(7))), Ok(SqlType::var_char(7)));
    assert_eq!(SqlType::try_from(&DataType::Varchar(None)), Ok(SqlType::var_char(255)));
    assert_eq!(SqlType::try_from(&DataType::Boolean), Ok(SqlType::bool()));
    assert_eq!(SqlType::try_from(&DataType::Real), Err(NotSupportedType));
    assert_eq!(SqlType::try_from(&DataType::Date), Err(NotSupportedType));
}

#[test]
fn wire_types_of_non_floats() {
    assert_eq!(SqlType::bool().pg_type(), PgType::Bool);
    assert_eq!(SqlType::char(5).pg_type(), PgType::Char);
    assert_eq!(SqlType::var_char(5).pg_type(), PgType::VarChar);
    assert_eq!(SqlType::small_int().pg_type(), PgType::SmallInt);
    assert_eq!(SqlType::integer().pg_type(), PgType::Integer);
    assert_eq!(SqlType::big_int().pg_type(), PgType::BigInt);
}

#[test]
fn sql_type_text_rendering() {
    assert_eq!(SqlType::bool().as_text(), "bool");
    assert_eq!(SqlType::char(5).as_text(), "char(5)");
    assert_eq!(SqlType::var_char(255).as_text(), "varchar(255)");
    assert_eq!(SqlType::char(1024).as_text(), "char(1024)");
    assert_eq!(SqlType::small_int().as_text(), "smallint");
    assert_eq!(SqlType::integer().as_text(), "integer");
    assert_eq!(SqlType::big_int().as_text(), "bigint");
    assert_eq!(SqlType::real_type().as_text(), "real");
    assert_eq!(SqlType::double_precision().as_text(), "double precision");
}
