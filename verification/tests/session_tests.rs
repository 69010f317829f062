use pg_bridge::datum::{Datum, FromDatum, Payload, OID_BOOL, OID_INT8};
use pg_bridge::error::Error;
use pg_bridge::result_set::ResultSet;
use pg_bridge::session::ConnectionStack;

fn no_args() -> Vec<Datum> {
    Vec::new()
}

fn sum_of(rs: &ResultSet) -> i64 {
    let mut sum = 0i64;
    let mut i = 1usize;
    while i <= rs.row_count() {
        let row = rs.row_at(i).unwrap();
        sum += row.get::<i64>(1).unwrap().unwrap();
        i += 1;
    }
    sum
}

#[test]
fn nested_connect_returns_innermost_value() {
    let mut stack = ConnectionStack::new();
    let r: Result<i64, Error> = stack.connect(|c| {
        c.connect(|c2| c2.connect(|_c3| Ok(7)))
    });
    assert_eq!(r.unwrap(), 7);
}

#[test]
fn deeply_nested_connect_returns_innermost_value() {
    let mut stack = ConnectionStack::new();
    let r: Result<&str, Error> = stack.connect(|c| {
        c.connect(|c2| c2.connect(|c3| c3.connect(|c4| c4.connect(|_c5| Ok("innermost")))))
    });
    assert_eq!(r.unwrap(), "innermost");
}

#[test]
fn inner_failure_propagates_to_inner_caller_only() {
    let mut stack = ConnectionStack::new();
    let r: Result<i64, Error> = stack.connect(|c| {
        let inner: Result<i64, Error> = c.connect(|c2| c2.select("BOGUS", None, &no_args()).map(|_| 0));
        assert!(matches!(inner, Err(Error::SyntaxError(_))));
        // The outer frame recovers and succeeds on its own.
        Ok(1)
    });
    assert_eq!(r.unwrap(), 1);
}

#[test]
fn select_literal_decodes_as_integer() {
    let mut stack = ConnectionStack::new();
    let r: Result<Option<i64>, Error> = stack.connect(|c| {
        let rs = c.select("SELECT 42", None, &no_args())?;
        rs.first()?.get::<i64>(1)
    });
    assert_eq!(r.unwrap(), Some(42));
}

#[test]
fn select_literal_column_metadata() {
    let mut stack = ConnectionStack::new();
    stack
        .connect(|c| {
            let rs = c.select("SELECT 42", None, &no_args())?;
            assert_eq!(rs.column_count().unwrap(), 1);
            assert_eq!(rs.column_name(1).unwrap(), "?column?");
            assert_eq!(rs.column_type(1).unwrap(), OID_INT8);
            assert!(matches!(rs.column_name(0), Err(Error::InvalidPosition)));
            assert!(matches!(rs.column_name(2), Err(Error::InvalidPosition)));
            Ok(())
        })
        .unwrap();
}

#[test]
fn cursor_pagination_sums() {
    let mut stack = ConnectionStack::new();
    stack
        .connect(|c| {
            c.run("CREATE TABLE series")?;
            for v in 1..=10 {
                let arg = vec![Datum::of_int(v)];
                c.run_with_args("INSERT INTO series VALUES $1", &arg)?;
            }
            let mut cur = c.open_cursor("SELECT * FROM series", &no_args())?;
            let mut sums = Vec::new();
            for _ in 0..4 {
                let rs = cur.fetch(3);
                sums.push(sum_of(&rs));
            }
            assert_eq!(sums, vec![6, 15, 24, 10]);
            let after = cur.fetch(3);
            assert_eq!(after.row_count(), 0);
            assert!(after.is_empty());
            Ok(())
        })
        .unwrap();
}

#[test]
fn cursor_detach_and_reattach_resumes() {
    let mut stack = ConnectionStack::new();
    let name: String = stack
        .connect(|c| {
            c.run("CREATE TABLE series")?;
            for v in 1..=10 {
                let arg = vec![Datum::of_int(v)];
                c.run_with_args("INSERT INTO series VALUES $1", &arg)?;
            }
            let mut cur = c.open_cursor("SELECT * FROM series", &no_args())?;
            let first = cur.fetch(4);
            assert_eq!(sum_of(&first), 1 + 2 + 3 + 4);
            Ok(cur.detach_into_name(c))
        })
        .unwrap();
    // A new, independent frame finds the cursor by name and resumes from
    // its last position, not from the start.
    stack
        .connect(|c| {
            let mut cur = c.find_cursor(&name)?;
            let rest = cur.fetch(100);
            assert_eq!(rest.row_count(), 6);
            assert_eq!(sum_of(&rest), 5 + 6 + 7 + 8 + 9 + 10);
            Ok(())
        })
        .unwrap();
    // The handle was consumed by the reattach: the name is gone now.
    stack
        .connect(|c| {
            match c.find_cursor(&name) {
                Err(Error::CursorNotFound(n)) => assert_eq!(n, name),
                other => panic!("expected CursorNotFound, got {:?}", other.map(|_| ())),
            }
            Ok(())
        })
        .unwrap();
}

#[test]
fn find_cursor_unknown_name_fails() {
    let mut stack = ConnectionStack::new();
    stack
        .connect(|c| {
            assert!(matches!(c.find_cursor("never_detached"), Err(Error::CursorNotFound(_))));
            Ok(())
        })
        .unwrap();
}

#[test]
fn two_result_sets_are_independent_in_either_order() {
    let mut stack = ConnectionStack::new();
    stack
        .connect(|c| {
            c.run("CREATE TABLE empty_one")?;
            c.run("CREATE TABLE full_one")?;
            let arg = vec![Datum::of_int(5)];
            c.run_with_args("INSERT INTO full_one VALUES $1", &arg)?;

            let empty = c.select("SELECT * FROM empty_one", None, &no_args())?;
            let full = c.select("SELECT * FROM full_one", None, &no_args())?;
            assert_eq!(empty.row_count(), 0);
            assert!(empty.is_empty());
            assert_eq!(full.row_count(), 1);
            assert!(!full.is_empty());

            // The other creation order reports the same counts.
            let full2 = c.select("SELECT * FROM full_one", None, &no_args())?;
            let empty2 = c.select("SELECT * FROM empty_one", None, &no_args())?;
            assert_eq!(full2.row_count(), 1);
            assert_eq!(empty2.row_count(), 0);
            assert_eq!(empty.row_count(), 0);
            assert_eq!(full.row_count(), 1);
            Ok(())
        })
        .unwrap();
}

#[test]
fn execute_with_wrong_argument_count_fails_before_engine_call() {
    let mut stack = ConnectionStack::new();
    stack
        .connect(|c| {
            c.run("CREATE TABLE target")?;
            let ps = c.prepare("INSERT INTO target VALUES $1", vec![OID_INT8])?;
            match ps.execute(c, None, &no_args()) {
                Err(Error::ArgumentMismatch { expected, got }) => {
                    assert_eq!(expected, 1);
                    assert_eq!(got, 0);
                },
                other => panic!("expected ArgumentMismatch, got {:?}", other.map(|_| ())),
            }
            // No engine call happened: the table is still empty.
            let rs = c.select("SELECT * FROM target", None, &no_args())?;
            assert_eq!(rs.row_count(), 0);
            // With the right count it succeeds.
            let arg = vec![Datum::of_int(9)];
            ps.execute(c, None, &arg)?;
            let rs = c.select("SELECT * FROM target", None, &no_args())?;
            assert_eq!(rs.row_count(), 1);
            Ok(())
        })
        .unwrap();
}

#[test]
fn read_only_frame_rejects_create_table_and_update_escalates() {
    let mut stack = ConnectionStack::new();
    stack
        .connect(|c| {
            assert!(matches!(
                c.select("CREATE TABLE fresh", None, &no_args()),
                Err(Error::ReadOnlyViolation)
            ));
            // The same statement inside an `update` call succeeds.
            c.update("CREATE TABLE fresh", None, &no_args())?;
            let rs = c.select("SELECT * FROM fresh", None, &no_args())?;
            assert_eq!(rs.row_count(), 0);
            Ok(())
        })
        .unwrap();
}

#[test]
fn nested_frame_starts_read_only_again() {
    let mut stack = ConnectionStack::new();
    stack
        .connect(|c| {
            c.update("CREATE TABLE outer_table", None, &no_args())?;
            let inner: Result<(), Error> = c.connect(|c2| {
                match c2.select("CREATE TABLE inner_table", None, &no_args()) {
                    Err(Error::ReadOnlyViolation) => Ok(()),
                    other => panic!("expected ReadOnlyViolation, got {:?}", other.map(|_| ())),
                }
            });
            inner?;
            // The outer frame's escalation persists for its own remainder.
            let arg = vec![Datum::of_int(1)];
            c.run_with_args("INSERT INTO outer_table VALUES $1", &arg)?;
            Ok(())
        })
        .unwrap();
}

#[test]
fn syntax_error_on_malformed_sql() {
    let mut stack = ConnectionStack::new();
    stack
        .connect(|c| {
            assert!(matches!(c.select("SELEC 1", None, &no_args()), Err(Error::SyntaxError(_))));
            assert!(matches!(c.run("DROP EVERYTHING"), Err(Error::SyntaxError(_))));
            assert!(matches!(c.prepare("SELECT", vec![]), Err(Error::SyntaxError(_))));
            Ok(())
        })
        .unwrap();
}

#[test]
fn unknown_and_duplicate_tables_fail() {
    let mut stack = ConnectionStack::new();
    stack
        .connect(|c| {
            assert!(matches!(
                c.select("SELECT * FROM missing", None, &no_args()),
                Err(Error::SyntaxError(_))
            ));
            c.run("CREATE TABLE dup")?;
            assert!(matches!(c.run("CREATE TABLE dup"), Err(Error::SyntaxError(_))));
            Ok(())
        })
        .unwrap();
}

#[test]
fn no_tuple_table_on_ddl_result() {
    let mut stack = ConnectionStack::new();
    stack
        .connect(|c| {
            let rs = c.update("CREATE TABLE bare", None, &no_args())?;
            assert!(matches!(rs.column_count(), Err(Error::NoTupleTable)));
            assert!(matches!(rs.columns(), Err(Error::NoTupleTable)));
            assert!(matches!(rs.first().map(|_| ()), Err(Error::NoTupleTable)));
            assert_eq!(rs.row_count(), 0);
            // An insert produced no tuple table either, but processed 1 row.
            let arg = vec![Datum::of_int(3)];
            let rs = c.update("INSERT INTO bare VALUES $1", None, &arg)?;
            assert!(matches!(rs.column_count(), Err(Error::NoTupleTable)));
            assert_eq!(rs.row_count(), 1);
            Ok(())
        })
        .unwrap();
}

#[test]
fn first_on_empty_result_set_is_invalid_position() {
    let mut stack = ConnectionStack::new();
    stack
        .connect(|c| {
            c.run("CREATE TABLE hollow")?;
            let rs = c.select("SELECT * FROM hollow", None, &no_args())?;
            assert!(matches!(rs.first().map(|_| ()), Err(Error::InvalidPosition)));
            assert!(matches!(rs.row_at(1).map(|_| ()), Err(Error::InvalidPosition)));
            Ok(())
        })
        .unwrap();
}

#[test]
fn type_decode_failures_are_distinguished_from_null() {
    let mut stack = ConnectionStack::new();
    stack
        .connect(|c| {
            let rs = c.select("SELECT TRUE", None, &no_args())?;
            // A boolean is not decodable as an integer.
            assert!(matches!(rs.get::<i64>(1), Err(Error::TypeDecodeFailure)));
            assert_eq!(rs.get::<bool>(1).unwrap(), Some(true));
            assert_eq!(rs.column_type(1).unwrap(), OID_BOOL);
            // A value outside the narrow type's range fails to decode.
            let rs = c.select("SELECT 9999999999", None, &no_args())?;
            assert!(matches!(rs.get::<i32>(1), Err(Error::TypeDecodeFailure)));
            assert_eq!(rs.get::<i64>(1).unwrap(), Some(9_999_999_999));
            Ok(())
        })
        .unwrap();
}

#[test]
fn only_integer_datums_enter_a_table() {
    let mut stack = ConnectionStack::new();
    stack
        .connect(|c| {
            c.run("CREATE TABLE ints_only")?;
            let arg = vec![Datum::of_bool(true)];
            assert!(matches!(
                c.run_with_args("INSERT INTO ints_only VALUES $1", &arg),
                Err(Error::TypeDecodeFailure)
            ));
            // A mislabelled datum is rejected too.
            let forged = vec![Datum { oid: OID_INT8, payload: Payload::Boolean(true) }];
            assert!(matches!(
                c.run_with_args("INSERT INTO ints_only VALUES $1", &forged),
                Err(Error::TypeDecodeFailure)
            ));
            let rs = c.select("SELECT * FROM ints_only", None, &no_args())?;
            assert_eq!(rs.row_count(), 0);
            Ok(())
        })
        .unwrap();
}

#[test]
fn null_argument_decodes_to_none() {
    let mut stack = ConnectionStack::new();
    stack
        .connect(|c| {
            let arg = vec![Datum::null(OID_INT8)];
            let rs = c.select("SELECT $1", None, &arg)?;
            assert_eq!(rs.get::<i64>(1).unwrap(), None);
            Ok(())
        })
        .unwrap();
}

#[test]
fn from_datum_decodes_directly() {
    assert_eq!(i64::from_datum(&Datum::of_int(11)).unwrap(), Some(11));
    assert_eq!(bool::from_datum(&Datum::of_bool(false)).unwrap(), Some(false));
    assert_eq!(i64::from_datum(&Datum::null(OID_INT8)).unwrap(), None);
    assert!(matches!(i32::from_datum(&Datum::of_bool(true)), Err(Error::TypeDecodeFailure)));
}

#[test]
fn get_two_and_get_three_check_arity() {
    let mut stack = ConnectionStack::new();
    stack
        .connect(|c| {
            let rs = c.select("SELECT 1, 2", None, &no_args())?;
            let (a, b) = rs.get_two::<i64, i64>()?;
            assert_eq!((a, b), (Some(1), Some(2)));
            match rs.get_three::<i64, i64, i64>() {
                Err(Error::ArgumentMismatch { expected, got }) => {
                    assert_eq!((expected, got), (3, 2));
                },
                other => panic!("expected ArgumentMismatch, got {:?}", other.map(|_| ())),
            }
            let rs = c.select("SELECT 1, 2, 3", None, &no_args())?;
            let (a, b, cc) = rs.get_three::<i64, i64, i64>()?;
            assert_eq!((a, b, cc), (Some(1), Some(2), Some(3)));
            Ok(())
        })
        .unwrap();
}

#[test]
fn select_respects_row_limit() {
    let mut stack = ConnectionStack::new();
    stack
        .connect(|c| {
            c.run("CREATE TABLE capped")?;
            for v in 1..=5 {
                let arg = vec![Datum::of_int(v)];
                c.run_with_args("INSERT INTO capped VALUES $1", &arg)?;
            }
            let rs = c.select("SELECT * FROM capped", Some(2), &no_args())?;
            assert_eq!(rs.row_count(), 2);
            assert_eq!(sum_of(&rs), 1 + 2);
            let rs = c.select("SELECT * FROM capped", Some(0), &no_args())?;
            assert_eq!(rs.row_count(), 0);
            let rs = c.select("SELECT * FROM capped", Some(99), &no_args())?;
            assert_eq!(rs.row_count(), 5);
            Ok(())
        })
        .unwrap();
}

#[test]
fn unbound_parameter_is_argument_mismatch() {
    let mut stack = ConnectionStack::new();
    stack
        .connect(|c| {
            match c.select("SELECT $2", None, &vec![Datum::of_int(1)]) {
                Err(Error::ArgumentMismatch { expected, got }) => {
                    assert_eq!((expected, got), (2, 1));
                },
                other => panic!("expected ArgumentMismatch, got {:?}", other.map(|_| ())),
            }
            Ok(())
        })
        .unwrap();
}

#[test]
fn kept_statement_outlives_its_frame_a_borrowed_one_does_not() {
    let mut stack = ConnectionStack::new();
    let (borrowed, kept) = stack
        .connect(|c| {
            c.run("CREATE TABLE keepsake")?;
            let borrowed = c.prepare("SELECT * FROM keepsake", vec![])?;
            let kept = c.prepare("SELECT * FROM keepsake", vec![])?.keep();
            Ok((borrowed, kept))
        })
        .unwrap();
    stack
        .connect(|c| {
            assert!(matches!(
                borrowed.execute(c, None, &no_args()).map(|_| ()),
                Err(Error::InvalidPosition)
            ));
            let rs = kept.execute(c, None, &no_args())?;
            assert_eq!(rs.row_count(), 0);
            Ok(())
        })
        .unwrap();
}

#[test]
fn borrowed_statement_works_in_nested_frames_of_its_own() {
    let mut stack = ConnectionStack::new();
    stack
        .connect(|c| {
            c.run("CREATE TABLE nested_use")?;
            let ps = c.prepare("SELECT * FROM nested_use", vec![])?;
            let inner: Result<usize, Error> = c.connect(|c2| {
                let rs = ps.execute(c2, None, &no_args())?;
                Ok(rs.row_count())
            });
            assert_eq!(inner.unwrap(), 0);
            Ok(())
        })
        .unwrap();
}

#[test]
fn prepared_statement_opens_a_cursor() {
    let mut stack = ConnectionStack::new();
    stack
        .connect(|c| {
            c.run("CREATE TABLE via_prepared")?;
            for v in 1..=4 {
                let arg = vec![Datum::of_int(v)];
                c.run_with_args("INSERT INTO via_prepared VALUES $1", &arg)?;
            }
            let ps = c.prepare("SELECT * FROM via_prepared", vec![])?;
            let mut cur = ps.open_cursor(c, &no_args())?;
            let rs = cur.fetch(10);
            assert_eq!(rs.row_count(), 4);
            assert_eq!(sum_of(&rs), 10);
            Ok(())
        })
        .unwrap();
}

#[test]
fn cursors_get_distinct_names() {
    let mut stack = ConnectionStack::new();
    stack
        .connect(|c| {
            let a = c.open_cursor("SELECT 1", &no_args())?;
            let b = c.open_cursor("SELECT 2", &no_args())?;
            assert_ne!(a.name(), b.name());
            Ok(())
        })
        .unwrap();
}

#[test]
fn explain_describes_without_executing() {
    let mut stack = ConnectionStack::new();
    stack
        .connect(|c| {
            let plan = c.explain("SELECT 42")?;
            assert_eq!(plan.operation(), "Result");
            assert!(plan.target().is_none());
            let plan = c.explain("CREATE TABLE phantom")?;
            assert_eq!(plan.operation(), "Create Table");
            assert_eq!(plan.target().as_deref(), Some("phantom"));
            // Nothing was executed: the table does not exist.
            assert!(matches!(
                c.select("SELECT * FROM phantom", None, &no_args()),
                Err(Error::SyntaxError(_))
            ));
            let plan = c.explain_with_args("INSERT INTO phantom VALUES $1", &vec![Datum::of_int(1)])?;
            assert_eq!(plan.operation(), "Insert");
            assert!(matches!(c.explain("NONSENSE"), Err(Error::SyntaxError(_))));
            Ok(())
        })
        .unwrap();
}

#[test]
fn error_descriptions_name_the_class() {
    assert_eq!(Error::ReadOnlyViolation.describe(), "read-only violation");
    assert_eq!(Error::NoTupleTable.describe(), "no tuple table");
    assert_eq!(Error::TypeDecodeFailure.describe(), "type decode failure");
}
