//! Where the payload of an encode request comes from: an inline string or a
//! file, exactly one of the two.
use vstd::prelude::*;
use vstd::string::StringExecFns;

verus! {

/// The one source of a payload that a request named.
#[derive(Debug, Clone, PartialEq, Eq)]
pub enum PayloadSource {
    Inline(String),
    File(String),
}

/// What reading the payload file gave.
#[derive(Debug, Clone, PartialEq, Eq)]
pub enum FileRead {
    /// No file stands at the path.
    Missing,
    /// The file exists but could not be opened.
    Unopenable,
    /// The file was read but its bytes are not text.
    NotText,
    /// The file's contents.
    Text(String),
}

/// Why no payload could be had.
#[derive(Debug, Clone, PartialEq, Eq)]
pub enum InputError {
    /// Both an inline string and a file were given.
    BothSources,
    /// Neither an inline string nor a file was given.
    NoSource,
    /// The named file does not exist.
    FileMissing(String),
    /// The named file could not be opened.
    FileUnopenable(String),
    /// The named file does not hold text.
    FileNotText(String),
}

/// The source that a request names, or the error for naming none or both.
pub open spec fn source_spec(data: Option<String>, data_file: Option<String>) -> Result<
    PayloadSource,
    InputError,
> {
    match (data, data_file) {
        (Some(_), Some(_)) => Err(InputError::BothSources),
        (None, None) => Err(InputError::NoSource),
        (Some(d), None) => Ok(PayloadSource::Inline(d)),
        (None, Some(f)) => Ok(PayloadSource::File(f)),
    }
}

/// Picks the payload source of a request: exactly one of `data` and
/// `data_file` must be given.
pub fn select_source(data: Option<String>, data_file: Option<String>) -> (r: Result<
    PayloadSource,
    InputError,
>)
    ensures
        r == source_spec(data, data_file),
        r is Err <==> (data is Some <==> data_file is Some),
        r == Err::<PayloadSource, InputError>(InputError::BothSources) <==> (data is Some
            && data_file is Some),
        r == Err::<PayloadSource, InputError>(InputError::NoSource) <==> (data is None
            && data_file is None),
{
    match (data, data_file) {
        (Some(_), Some(_)) => Err(InputError::BothSources),
        (None, None) => Err(InputError::NoSource),
        (Some(d), None) => Ok(PayloadSource::Inline(d)),
        (None, Some(f)) => Ok(PayloadSource::File(f)),
    }
}

/// The payload that a file read gives, or the error that names the file.
pub open spec fn file_payload_spec(path: String, read: FileRead) -> Result<String, InputError> {
    match read {
        FileRead::Missing => Err(InputError::FileMissing(path)),
        FileRead::Unopenable => Err(InputError::FileUnopenable(path)),
        FileRead::NotText => Err(InputError::FileNotText(path)),
        FileRead::Text(t) => Ok(t),
    }
}

/// Turns what reading the file at `path` gave into the payload, or into the
/// error that names the file.
pub fn payload_from_file(path: String, read: FileRead) -> (r: Result<String, InputError>)
    ensures
        r == file_payload_spec(path, read),
        r is Ok <==> read is Text,
        read is Missing <==> r == Err::<String, InputError>(InputError::FileMissing(path)),
{
    match read {
        FileRead::Missing => Err(InputError::FileMissing(path)),
        FileRead::Unopenable => Err(InputError::FileUnopenable(path)),
        FileRead::NotText => Err(InputError::FileNotText(path)),
        FileRead::Text(t) => Ok(t),
    }
}

/// The payload of a request, given the inline string, the file path and what
/// reading that file gave (`read` counts only where a file is the source).
pub open spec fn resolve_spec(
    data: Option<String>,
    data_file: Option<String>,
    read: FileRead,
) -> Result<String, InputError> {
    match source_spec(data, data_file) {
        Err(e) => Err(e),
        Ok(PayloadSource::Inline(d)) => Ok(d),
        Ok(PayloadSource::File(f)) => file_payload_spec(f, read),
    }
}

/// Resolves the payload of a request from its two possible sources.
pub fn resolve_payload(data: Option<String>, data_file: Option<String>, read: FileRead) -> (r:
    Result<String, InputError>)
    ensures
        r == resolve_spec(data, data_file, read),
{
    match select_source(data, data_file) {
        Err(e) => Err(e),
        Ok(PayloadSource::Inline(d)) => Ok(d),
        Ok(PayloadSource::File(f)) => payload_from_file(f, read),
    }
}

/// The text of `s` followed by the text of `tail`.
fn suffixed(s: &String, tail: &str) -> (r: String)
    ensures
        r@ == s@ + tail@,
{
    s.clone().concat(tail)
}

impl InputError {
    /// The message shown to a user for this error.
    pub open spec fn message_spec(&self) -> Seq<char> {
        match self {
            InputError::BothSources => "provide only data string or data file"@,
            InputError::NoSource => "must provide either data string or data file"@,
            InputError::FileMissing(p) => p@ + " does not exist"@,
            InputError::FileUnopenable(p) => p@ + " cannot be opened"@,
            InputError::FileNotText(p) => p@ + " does not hold text"@,
        }
    }

    /// The message shown to a user for this error.
    pub fn message(&self) -> (r: String)
        ensures
            r@ == self.message_spec(),
    {
        match self {
            InputError::BothSources => String::from_str("provide only data string or data file"),
            InputError::NoSource => String::from_str("must provide either data string or data file"),
            InputError::FileMissing(p) => suffixed(p, " does not exist"),
            InputError::FileUnopenable(p) => suffixed(p, " cannot be opened"),
            InputError::FileNotText(p) => suffixed(p, " does not hold text"),
        }
    }
}

} // verus!
