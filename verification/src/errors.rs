//! Errors of the Python bindings and the Python exceptions they become.
use vstd::prelude::*;
use vstd::string::StringExecFns;

verus! {

/// Kind of a failure of the data-frame engine.
#[derive(Clone, Copy, Debug, PartialEq, Eq, Structural)]
pub enum PolarsErrorKind {
    NotFound,
    ComputeError,
    NoData,
    ShapeMisMatch,
    SchemaMisMatch,
    Io,
    ArrowError,
    Duplicate,
    InvalidOperation,
}

/// An error of the bindings. An engine error carries its kind, the text
/// its exception is raised with (the debug text of its arrow errors, the
/// display text of the others), its own display text and its own debug
/// text; a (de)serialisation error carries its display text and its debug
/// text.
#[derive(Clone, Debug, PartialEq)]
pub enum PyUltimaErr {
    Polars { kind: PolarsErrorKind, message: String, display: String, debug: String },
    SerdeJson { message: String, debug: String },
    Other(String),
}

/// Python exception class that an error is raised as.
#[derive(Clone, Copy, Debug, PartialEq, Eq, Structural)]
pub enum ExceptionClass {
    NotFoundError,
    ComputeError,
    NoDataError,
    ShapeError,
    SchemaError,
    PyIOError,
    ArrowErrorException,
    DuplicateError,
    InvalidOperationError,
    SerdeJsonError,
    OtherError,
}

/// A Python exception: its class and its message.
#[derive(Clone, Debug, PartialEq)]
pub struct PyException {
    pub class: ExceptionClass,
    pub message: String,
}

/// Class that an engine error of a kind is raised as.
pub open spec fn polars_exception_class(kind: PolarsErrorKind) -> ExceptionClass {
    match kind {
        PolarsErrorKind::NotFound => ExceptionClass::NotFoundError,
        PolarsErrorKind::ComputeError => ExceptionClass::ComputeError,
        PolarsErrorKind::NoData => ExceptionClass::NoDataError,
        PolarsErrorKind::ShapeMisMatch => ExceptionClass::ShapeError,
        PolarsErrorKind::SchemaMisMatch => ExceptionClass::SchemaError,
        PolarsErrorKind::Io => ExceptionClass::PyIOError,
        PolarsErrorKind::ArrowError => ExceptionClass::ArrowErrorException,
        PolarsErrorKind::Duplicate => ExceptionClass::DuplicateError,
        PolarsErrorKind::InvalidOperation => ExceptionClass::InvalidOperationError,
    }
}

/// Class that an error is raised as.
pub open spec fn exception_class_of(err: PyUltimaErr) -> ExceptionClass {
    match err {
        PyUltimaErr::Polars { kind, .. } => polars_exception_class(kind),
        PyUltimaErr::SerdeJson { .. } => ExceptionClass::SerdeJsonError,
        PyUltimaErr::Other(_) => ExceptionClass::OtherError,
    }
}

/// Text put in front of a (de)serialisation error's message.
pub open spec fn serde_json_prefix() -> Seq<char> {
    "Couldn't (de)serialise input. Check format. "@
}

/// Message of the exception that an error is raised as.
pub open spec fn exception_message_of(err: PyUltimaErr) -> Seq<char> {
    match err {
        PyUltimaErr::Polars { message, .. } => message@,
        PyUltimaErr::SerdeJson { message, .. } => serde_json_prefix() + message@,
        PyUltimaErr::Other(text) => text@,
    }
}

/// Class that an engine error of a kind is raised as.
pub fn polars_exception(kind: PolarsErrorKind) -> (c: ExceptionClass)
    ensures
        c == polars_exception_class(kind),
{
    match kind {
        PolarsErrorKind::NotFound => ExceptionClass::NotFoundError,
        PolarsErrorKind::ComputeError => ExceptionClass::ComputeError,
        PolarsErrorKind::NoData => ExceptionClass::NoDataError,
        PolarsErrorKind::ShapeMisMatch => ExceptionClass::ShapeError,
        PolarsErrorKind::SchemaMisMatch => ExceptionClass::SchemaError,
        PolarsErrorKind::Io => ExceptionClass::PyIOError,
        PolarsErrorKind::ArrowError => ExceptionClass::ArrowErrorException,
        PolarsErrorKind::Duplicate => ExceptionClass::DuplicateError,
        PolarsErrorKind::InvalidOperation => ExceptionClass::InvalidOperationError,
    }
}

/// The Python exception that an error of the bindings is raised as: each
/// engine error kind has a class of its own and keeps its text;
/// (de)serialisation errors say that the input could not be read; any
/// other error keeps its text.
pub fn into_py_exception(err: &PyUltimaErr) -> (e: PyException)
    ensures
        e.class == exception_class_of(*err),
        e.message@ == exception_message_of(*err),
{
    match err {
        PyUltimaErr::Polars { kind, message, .. } => PyException {
            class: polars_exception(*kind),
            message: message.clone(),
        },
        PyUltimaErr::SerdeJson { message: text, .. } => {
            let mut message = "Couldn't (de)serialise input. Check format. ".to_owned();
            message.append(text.as_str());
            PyException { class: ExceptionClass::SerdeJsonError, message }
        },
        PyUltimaErr::Other(text) => PyException { class: ExceptionClass::OtherError, message: text.clone() },
    }
}

/// What std's `Debug` writes for a string: the string in double quotes,
/// with quotes, backslashes and non-printable characters escaped.
pub uninterp spec fn debug_quoted(s: Seq<char>) -> Seq<char>;

/// A character that std's `Debug` writes unchanged inside a string:
/// printable ASCII other than the double quote, the backslash and the
/// single quote.
pub open spec fn debug_plain_char(c: char) -> bool {
    0x20 <= (c as u32) <= 0x7e && c != '"' && c != '\\' && c != '\''
}

/// Text whose characters std's `Debug` writes unchanged.
pub open spec fn debug_plain(s: Seq<char>) -> bool {
    forall|i: int| 0 <= i < s.len() ==> debug_plain_char(#[trigger] s[i])
}

/// `format!("{:?}", s)`: std's `Debug` text of a string. Its contract names
/// the result, and says that text of plain printable characters is written
/// unchanged between double quotes; how std escapes the other characters
/// is not restated here.
#[verifier::external_body]
fn string_debug(s: &str) -> (r: String)
    ensures
        r@ == debug_quoted(s@),
        debug_plain(s@) ==> r@ == seq!['"'] + s@ + seq!['"'],
{
    format!("{:?}", s)
}

/// Text put in front of a (de)serialisation error's debug text.
pub open spec fn serde_json_debug_prefix() -> Seq<char> {
    "Couldn't serialize string. Check format. "@
}

/// Text put in front of the debug text of any other error.
pub open spec fn bindings_error_prefix() -> Seq<char> {
    "BindingsError: "@
}

/// Debug text of an error: an engine error's own debug text; a
/// (de)serialisation error's debug text after a note that the input could
/// not be read; for any other error, its text in debug form after
/// `BindingsError: `.
pub open spec fn debug_text_of(err: PyUltimaErr) -> Seq<char> {
    match err {
        PyUltimaErr::Polars { debug, .. } => debug@,
        PyUltimaErr::SerdeJson { debug, .. } => serde_json_debug_prefix() + debug@,
        PyUltimaErr::Other(text) => bindings_error_prefix() + debug_quoted(text@),
    }
}

/// Display text of an error: an engine or (de)serialisation error's own
/// display text, and any other error's text.
pub open spec fn display_text_of(err: PyUltimaErr) -> Seq<char> {
    match err {
        PyUltimaErr::Polars { display, .. } => display@,
        PyUltimaErr::SerdeJson { message, .. } => message@,
        PyUltimaErr::Other(text) => text@,
    }
}

/// Debug text of an error of the bindings other than an engine or
/// (de)serialisation error, from the debug form of its text.
pub fn bindings_error_debug_text(quoted: &str) -> (r: String)
    ensures
        r@ == bindings_error_prefix() + quoted@,
{
    let mut r = "BindingsError: ".to_owned();
    r.append(quoted);
    r
}

impl PyUltimaErr {
    /// The error's display text (see `display_text_of`).
    pub fn display_text(&self) -> (r: String)
        ensures
            r@ == display_text_of(*self),
    {
        match self {
            PyUltimaErr::Polars { display, .. } => display.clone(),
            PyUltimaErr::SerdeJson { message, .. } => message.clone(),
            PyUltimaErr::Other(text) => text.clone(),
        }
    }

    /// The error's debug text (see `debug_text_of`).
    pub fn debug_text(&self) -> (r: String)
        ensures
            r@ == debug_text_of(*self),
            match *self {
                PyUltimaErr::Other(text) => debug_plain(text@) ==> r@ == bindings_error_prefix()
                    + seq!['"'] + text@ + seq!['"'],
                _ => true,
            },
    {
        match self {
            PyUltimaErr::Polars { debug, .. } => debug.clone(),
            PyUltimaErr::SerdeJson { debug, .. } => {
                let mut r = "Couldn't serialize string. Check format. ".to_owned();
                r.append(debug.as_str());
                r
            },
            PyUltimaErr::Other(text) => {
                let quoted = string_debug(text.as_str());
                bindings_error_debug_text(quoted.as_str())
            },
        }
    }
}

} // verus!
