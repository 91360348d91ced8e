//! An encode request checked and resolved into what the encoder is called
//! with.
use vstd::prelude::*;

use crate::encode_hints::{EncodeHint, EncodeOptions, build_encode_hints, hints_of};
use crate::format::BarcodeFormat;
use crate::payload::{FileRead, InputError, resolve_payload, resolve_spec, source_spec};

verus! {

/// Two options that choose rival strategies were both given.
#[derive(Debug, Clone, Copy, PartialEq, Eq, Structural)]
pub enum OptionConflict {
    /// Code 128 compaction together with a forced code set.
    Code128CodeSet,
    /// Data Matrix compaction together with forced C40 encoding.
    DataMatrixEncoding,
}

impl OptionConflict {
    /// The message shown to a user for this conflict.
    pub open spec fn message_spec(&self) -> Seq<char> {
        match self {
            OptionConflict::Code128CodeSet => "provide only one of code_128_compact and force_code_set"@,
            OptionConflict::DataMatrixEncoding => "provide only one of data_matrix_compact and force_c40"@,
        }
    }

    /// The message shown to a user for this conflict.
    pub fn message(&self) -> (r: String)
        ensures
            r@ == self.message_spec(),
    {
        match self {
            OptionConflict::Code128CodeSet => String::from_str(
                "provide only one of code_128_compact and force_code_set",
            ),
            OptionConflict::DataMatrixEncoding => String::from_str(
                "provide only one of data_matrix_compact and force_c40",
            ),
        }
    }
}

/// The first conflict among the options, if any.
pub open spec fn conflict_spec(o: EncodeOptions) -> Option<OptionConflict> {
    if o.code_128_compact is Some && o.force_code_set is Some {
        Some(OptionConflict::Code128CodeSet)
    } else if o.data_matrix_compact is Some && o.force_c40 is Some {
        Some(OptionConflict::DataMatrixEncoding)
    } else {
        None
    }
}

/// Checks that at most one compaction strategy of each group is chosen.
pub fn check_option_groups(o: &EncodeOptions) -> (r: Result<(), OptionConflict>)
    ensures
        r is Ok <==> conflict_spec(*o) is None,
        r is Err ==> Some(r->Err_0) == conflict_spec(*o),
{
    if o.code_128_compact.is_some() && o.force_code_set.is_some() {
        Err(OptionConflict::Code128CodeSet)
    } else if o.data_matrix_compact.is_some() && o.force_c40.is_some() {
        Err(OptionConflict::DataMatrixEncoding)
    } else {
        Ok(())
    }
}

/// Why an encode request is not handed to the encoder.
#[derive(Debug, Clone, PartialEq, Eq)]
pub enum EncodeError {
    /// The payload could not be had.
    Input(InputError),
    /// Two rival options were given.
    Conflict(OptionConflict),
}

impl EncodeError {
    /// The message shown to a user for this error.
    pub fn message(&self) -> (r: String)
        ensures
            r@ == match self {
                EncodeError::Input(e) => e.message_spec(),
                EncodeError::Conflict(c) => c.message_spec(),
            },
    {
        match self {
            EncodeError::Input(e) => e.message(),
            EncodeError::Conflict(c) => c.message(),
        }
    }
}

/// What the encoder is called with.
#[derive(Debug, Clone, PartialEq, Eq)]
pub struct EncodePlan {
    pub payload: String,
    pub format: BarcodeFormat,
    pub width: u32,
    pub height: u32,
    pub hints: Vec<EncodeHint>,
}

/// Checks an encode request and resolves it into the encoder's arguments:
/// first the payload source (exactly one of `data` and `data_file`), then the
/// option groups, then the payload file, which `read` says what reading gave
/// (it counts only where the file is the source).
pub fn plan_encode(
    format: BarcodeFormat,
    width: u32,
    height: u32,
    data: Option<String>,
    data_file: Option<String>,
    read: FileRead,
    options: &EncodeOptions,
) -> (r: Result<EncodePlan, EncodeError>)
    ensures
        data is Some && data_file is Some ==> r == Err::<EncodePlan, EncodeError>(
            EncodeError::Input(InputError::BothSources),
        ),
        data is None && data_file is None ==> r == Err::<EncodePlan, EncodeError>(
            EncodeError::Input(InputError::NoSource),
        ),
        data is None && data_file is Some && conflict_spec(*options) is None && read is Missing
            ==> r == Err::<EncodePlan, EncodeError>(
            EncodeError::Input(InputError::FileMissing(data_file->0)),
        ),
        source_spec(data, data_file) is Err ==> r == Err::<EncodePlan, EncodeError>(
            EncodeError::Input(source_spec(data, data_file)->Err_0),
        ),
        source_spec(data, data_file) is Ok && conflict_spec(*options) is Some ==> r == Err::<
            EncodePlan,
            EncodeError,
        >(EncodeError::Conflict(conflict_spec(*options)->0)),
        source_spec(data, data_file) is Ok && conflict_spec(*options) is None ==> match resolve_spec(
            data,
            data_file,
            read,
        ) {
            Err(e) => r == Err::<EncodePlan, EncodeError>(EncodeError::Input(e)),
            Ok(p) => r is Ok && r->Ok_0.payload == p && r->Ok_0.format == format
                && r->Ok_0.width == width && r->Ok_0.height == height && hints_of(
                *options,
                r->Ok_0.hints@,
            ),
        },
{
    let both = data.is_some() && data_file.is_some();
    let neither = data.is_none() && data_file.is_none();
    if both {
        return Err(EncodeError::Input(InputError::BothSources));
    }
    if neither {
        return Err(EncodeError::Input(InputError::NoSource));
    }
    match check_option_groups(options) {
        Err(c) => {
            return Err(EncodeError::Conflict(c));
        },
        Ok(()) => {},
    }
    match resolve_payload(data, data_file, read) {
        Err(e) => Err(EncodeError::Input(e)),
        Ok(payload) => {
            let hints = build_encode_hints(options);
            Ok(EncodePlan { payload, format, width, height, hints })
        },
    }
}

} // verus!
