//! Errors raised while building lineages and generating composites, and the
//! text each of them is reported with.

use vstd::prelude::*;
use vstd::string::*;

verus! {

/// `minijinja::Error`, a failure of the template engine. Carried, never inspected.
#[verifier::external_type_specification]
#[verifier::external_body]
pub struct ExTemplateFailure(minijinja::Error);

/// `ureq::Error`, a failure of a request to the data source. Carried, never inspected.
#[verifier::external_type_specification]
#[verifier::external_body]
pub struct ExRequestFailure(ureq::Error);

/// `std::io::Error`, a failure to read what a collaborator sent. Carried, never inspected.
#[verifier::external_type_specification]
#[verifier::external_body]
pub struct ExReadFailure(std::io::Error);

/// `Debug` formatting of the standard library, applied to a collaborator's
/// failure. What it prints is the collaborator's to decide: nothing is claimed.
#[verifier::external_body]
fn debug_text<E: std::fmt::Debug>(failure: &E) -> (text: String) {
    format!("{:?}", failure)
}

/// What the standard library's `Debug` prints for a string: the string between
/// double quotes, with quotes, backslashes and unprintable characters escaped.
pub uninterp spec fn debug_quoted(text: Seq<char>) -> Seq<char>;

/// `Debug` formatting of the standard library, applied to a string.
#[verifier::external_body]
fn quoted(text: &String) -> (result: String)
    ensures
        result@ == debug_quoted(text@),
{
    format!("{:?}", text)
}

/// Which collaborator a wrapped failure is filed under.
#[derive(Debug)]
pub enum LibraryErrorKind {
    TemplateError,
    ApiError,
    IOError,
}

/// The failure a collaborator handed over, kept as it came.
#[derive(Debug)]
pub enum ErrorSource {
    Template(minijinja::Error),
    Api(ureq::Error),
    Io(std::io::Error),
}

/// Everything that can go wrong in a generation run.
#[derive(Debug)]
pub enum GeneratorError {
    /// A collection was registered under a key that is already taken.
    CollectionAlreadyRegistered(String),
    DataObjectNotInitialized,
    DataObjectAlreadyInitialized,
    /// A node whose ancestry slot is occupied was attached a second time.
    AncestryAlreadySet,
    /// A collaborator failed; the failure is forwarded as it came.
    LibraryError(LibraryErrorKind, ErrorSource),
}

/// The name a kind is reported under.
pub open spec fn kind_name(kind: LibraryErrorKind) -> Seq<char> {
    match kind {
        LibraryErrorKind::TemplateError => "TemplateError"@,
        LibraryErrorKind::ApiError => "ApiError"@,
        LibraryErrorKind::IOError => "IOError"@,
    }
}

/// The report of a key registered twice, given the key and its quoted form.
pub open spec fn registered_text(quoted_key: Seq<char>, key: Seq<char>) -> Seq<char> {
    "CollectionAlreadyRegistered("@ + quoted_key + "):, Collection "@ + key
        + " Already Registered"@
}

/// The report of a collaborator's failure, given what the failure prints in its
/// debug form and in its display form.
pub open spec fn library_text(kind: LibraryErrorKind, debug: Seq<char>, display: Seq<char>) -> Seq<
    char,
> {
    "LibraryError("@ + kind_name(kind) + ", "@ + debug + "): "@ + kind_name(kind) + ": "@ + display
}

impl LibraryErrorKind {
    /// The name this kind is reported under.
    pub fn name(&self) -> (name: &'static str)
        ensures
            name@ == kind_name(*self),
    {
        match self {
            LibraryErrorKind::TemplateError => "TemplateError",
            LibraryErrorKind::ApiError => "ApiError",
            LibraryErrorKind::IOError => "IOError",
        }
    }
}

/// Writes the report of a key registered twice.
pub fn registered_message(quoted_key: &str, key: &str) -> (text: String)
    ensures
        text@ == registered_text(quoted_key@, key@),
{
    let mut text = String::from_str("CollectionAlreadyRegistered(");
    text.append(quoted_key);
    text.append("):, Collection ");
    text.append(key);
    text.append(" Already Registered");
    text
}

/// Writes the report of a collaborator's failure.
pub fn library_message(kind: &LibraryErrorKind, debug: &str, display: &str) -> (text: String)
    ensures
        text@ == library_text(*kind, debug@, display@),
{
    let mut text = String::from_str("LibraryError(");
    text.append(kind.name());
    text.append(", ");
    text.append(debug);
    text.append("): ");
    text.append(kind.name());
    text.append(": ");
    text.append(display);
    text
}

impl ErrorSource {
    /// Whether `text` is what the failure prints in its display form.
    pub open spec fn displayed_as(&self, text: String) -> bool {
        match *self {
            ErrorSource::Template(failure) => to_string_from_display_ensures::<minijinja::Error>(
                &failure,
                text,
            ),
            ErrorSource::Api(failure) => to_string_from_display_ensures::<ureq::Error>(
                &failure,
                text,
            ),
            ErrorSource::Io(failure) => to_string_from_display_ensures::<std::io::Error>(
                &failure,
                text,
            ),
        }
    }

    /// What the failure prints in its debug form, then in its display form.
    fn texts(&self) -> (texts: (String, String))
        ensures
            self.displayed_as(texts.1),
    {
        match self {
            ErrorSource::Template(failure) => (debug_text(failure), failure.to_string()),
            ErrorSource::Api(failure) => (debug_text(failure), failure.to_string()),
            ErrorSource::Io(failure) => (debug_text(failure), failure.to_string()),
        }
    }
}

impl GeneratorError {
    /// The failure behind this error: the one a collaborator handed over, and
    /// none for an error of the library's own.
    pub fn source(&self) -> (source: Option<&ErrorSource>)
        ensures
            match *self {
                GeneratorError::LibraryError(_, inner) => source == Some(&inner),
                _ => source is None,
            },
    {
        match self {
            GeneratorError::LibraryError(_, inner) => Some(inner),
            _ => None,
        }
    }

    /// The text this error is reported with. A collaborator's failure is
    /// reported with its kind, with what the failure prints in its debug form and
    /// with what it prints in its display form.
    pub fn message(&self) -> (text: String)
        ensures
            match *self {
                GeneratorError::CollectionAlreadyRegistered(key) => text@ == registered_text(
                    debug_quoted(key@),
                    key@,
                ),
                GeneratorError::DataObjectNotInitialized => text@ == "DataObjectNotInitialized"@,
                GeneratorError::DataObjectAlreadyInitialized => text@
                    == "DataObjectAlreadyInitialized"@,
                GeneratorError::AncestryAlreadySet => text@ == "AncestryAlreadySet"@,
                GeneratorError::LibraryError(kind, source) => exists|
                    debug: Seq<char>,
                    display: String,
                |
                    source.displayed_as(display) && text@ == #[trigger] library_text(
                        kind,
                        debug,
                        display@,
                    ),
            },
    {
        match self {
            GeneratorError::CollectionAlreadyRegistered(key) => {
                let quoted_key = quoted(key);
                registered_message(quoted_key.as_str(), key.as_str())
            },
            GeneratorError::DataObjectNotInitialized => String::from_str(
                "DataObjectNotInitialized",
            ),
            GeneratorError::DataObjectAlreadyInitialized => String::from_str(
                "DataObjectAlreadyInitialized",
            ),
            GeneratorError::AncestryAlreadySet => String::from_str("AncestryAlreadySet"),
            GeneratorError::LibraryError(kind, source) => {
                let (debug, display) = source.texts();
                library_message(kind, debug.as_str(), display.as_str())
            },
        }
    }
}

impl From<minijinja::Error> for GeneratorError {
    /// A failure of the template engine is filed as a template error.
    fn from(value: minijinja::Error) -> (error: Self) {
        GeneratorError::LibraryError(LibraryErrorKind::TemplateError, ErrorSource::Template(value))
    }
}

impl vstd::std_specs::convert::FromSpecImpl<minijinja::Error> for GeneratorError {
    open spec fn obeys_from_spec() -> bool {
        true
    }

    open spec fn from_spec(value: minijinja::Error) -> Self {
        GeneratorError::LibraryError(LibraryErrorKind::TemplateError, ErrorSource::Template(value))
    }
}

impl From<ureq::Error> for GeneratorError {
    /// A failure of a request to the data source is filed as an API error.
    fn from(value: ureq::Error) -> (error: Self) {
        GeneratorError::LibraryError(LibraryErrorKind::ApiError, ErrorSource::Api(value))
    }
}

impl vstd::std_specs::convert::FromSpecImpl<ureq::Error> for GeneratorError {
    open spec fn obeys_from_spec() -> bool {
        true
    }

    open spec fn from_spec(value: ureq::Error) -> Self {
        GeneratorError::LibraryError(LibraryErrorKind::ApiError, ErrorSource::Api(value))
    }
}

impl From<std::io::Error> for GeneratorError {
    /// A failure to read is filed as a template error, the failure kept as it came.
    fn from(value: std::io::Error) -> (error: Self) {
        GeneratorError::LibraryError(LibraryErrorKind::TemplateError, ErrorSource::Io(value))
    }
}

impl vstd::std_specs::convert::FromSpecImpl<std::io::Error> for GeneratorError {
    open spec fn obeys_from_spec() -> bool {
        true
    }

    open spec fn from_spec(value: std::io::Error) -> Self {
        GeneratorError::LibraryError(LibraryErrorKind::TemplateError, ErrorSource::Io(value))
    }
}

} // verus!
