use frtb_engine::bucket::{commodity_bucket_number, commodity_bucket_slot, parse_usize};
use frtb_engine::errors::{into_py_exception, ExceptionClass, PolarsErrorKind, PyUltimaErr};

#[test]
fn bucket_numbers_read_as_decimals() {
    assert_eq!(commodity_bucket_number("1"), 1);
    assert_eq!(commodity_bucket_number("11"), 11);
    assert_eq!(commodity_bucket_number("+7"), 7);
    assert_eq!(commodity_bucket_number("007"), 7);
    assert_eq!(commodity_bucket_number("0"), 0);
    assert_eq!(commodity_bucket_number("12"), 12);
}

#[test]
fn bucket_labels_that_are_no_number_read_as_one() {
    assert_eq!(commodity_bucket_number(""), 1);
    assert_eq!(commodity_bucket_number("+"), 1);
    assert_eq!(commodity_bucket_number("-3"), 1);
    assert_eq!(commodity_bucket_number(" 5"), 1);
    assert_eq!(commodity_bucket_number("5a"), 1);
    assert_eq!(commodity_bucket_number("Energy"), 1);
    assert_eq!(commodity_bucket_number("٣"), 1);
    assert_eq!(commodity_bucket_number("99999999999999999999999999"), 1);
}

#[test]
fn parse_usize_matches_std() {
    for s in ["", "0", "+0", "++1", "-0", "42", "+42", "4 2", "18446744073709551615", "18446744073709551616", "x"] {
        assert_eq!(parse_usize(s), s.parse::<usize>().ok(), "input {:?}", s);
    }
}

#[test]
fn engine_errors_keep_their_text() {
    let cases = [
        (PolarsErrorKind::NotFound, ExceptionClass::NotFoundError),
        (PolarsErrorKind::ComputeError, ExceptionClass::ComputeError),
        (PolarsErrorKind::NoData, ExceptionClass::NoDataError),
        (PolarsErrorKind::ShapeMisMatch, ExceptionClass::ShapeError),
        (PolarsErrorKind::SchemaMisMatch, ExceptionClass::SchemaError),
        (PolarsErrorKind::Io, ExceptionClass::PyIOError),
        (PolarsErrorKind::ArrowError, ExceptionClass::ArrowErrorException),
        (PolarsErrorKind::Duplicate, ExceptionClass::DuplicateError),
        (PolarsErrorKind::InvalidOperation, ExceptionClass::InvalidOperationError),
    ];
    for (kind, class) in cases {
        let err = PyUltimaErr::Polars {
            kind,
            message: "column x".to_string(),
            display: "not found: column x".to_string(),
            debug: "ColumnNotFound(\"column x\")".to_string(),
        };
        let e = into_py_exception(&err);
        assert_eq!(e.class, class);
        assert_eq!(e.message, "column x");
    }
}

#[test]
fn serde_errors_say_the_input_was_unreadable() {
    let e = into_py_exception(&PyUltimaErr::SerdeJson {
        message: "expected value at line 1 column 1".to_string(),
        debug: "Error(\"expected value\", line: 1, column: 1)".to_string(),
    });
    assert_eq!(e.class, ExceptionClass::SerdeJsonError);
    assert_eq!(e.message, "Couldn't (de)serialise input. Check format. expected value at line 1 column 1");
}

#[test]
fn other_errors_keep_their_text() {
    let e = into_py_exception(&PyUltimaErr::Other("no such file".to_string()));
    assert_eq!(e.class, ExceptionClass::OtherError);
    assert_eq!(e.message, "no such file");
}

#[test]
fn debug_text_of_each_error() {
    let polars = PyUltimaErr::Polars {
        kind: PolarsErrorKind::NotFound,
        message: "column x".to_string(),
        display: "not found: column x".to_string(),
        debug: "NotFound(ErrString(\"column x\"))".to_string(),
    };
    assert_eq!(polars.debug_text(), "NotFound(ErrString(\"column x\"))");
    let serde = PyUltimaErr::SerdeJson {
        message: "expected value at line 1 column 1".to_string(),
        debug: "Error(\"expected value\", line: 1, column: 1)".to_string(),
    };
    assert_eq!(
        serde.debug_text(),
        "Couldn't serialize string. Check format. Error(\"expected value\", line: 1, column: 1)"
    );
    let other = PyUltimaErr::Other("no \"such\" file".to_string());
    assert_eq!(other.debug_text(), "BindingsError: \"no \\\"such\\\" file\"");
    assert_eq!(other.debug_text(), format!("BindingsError: {:?}", "no \"such\" file"));
}

#[test]
fn display_text_of_each_error() {
    let arrow = PyUltimaErr::Polars {
        kind: PolarsErrorKind::ArrowError,
        message: "InvalidArgumentError(\"bad\")".to_string(),
        display: "arrow error: bad".to_string(),
        debug: "ArrowError(InvalidArgumentError(\"bad\"))".to_string(),
    };
    assert_eq!(arrow.display_text(), "arrow error: bad");
    assert_eq!(into_py_exception(&arrow).message, "InvalidArgumentError(\"bad\")");
    let serde = PyUltimaErr::SerdeJson { message: "eof".to_string(), debug: "Error(\"eof\")".to_string() };
    assert_eq!(serde.display_text(), "eof");
    assert_eq!(PyUltimaErr::Other("boom".to_string()).display_text(), "boom");
}

#[test]
fn plain_text_debug_is_quoted() {
    assert_eq!(PyUltimaErr::Other("boom".to_string()).debug_text(), "BindingsError: \"boom\"");
}

#[test]
fn commodity_bucket_slots() {
    assert_eq!(commodity_bucket_slot("1"), Some(0));
    assert_eq!(commodity_bucket_slot("11"), Some(10));
    assert_eq!(commodity_bucket_slot("007"), Some(6));
    assert_eq!(commodity_bucket_slot("Energy"), Some(0));
    assert_eq!(commodity_bucket_slot("0"), None);
    assert_eq!(commodity_bucket_slot("12"), None);
}
