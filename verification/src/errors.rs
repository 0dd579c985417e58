//! The error type of the library, with its machine-readable codes and categories.

use crate::text::{
    decimal_list_string, decimal_list_text, decimal_string, decimal_text, hex_byte_string, hex_byte_text,
    hex_list_string, hex_list_text, hex_word_string, hex_word_text,
};
use vstd::prelude::*;

verus! {

#[verifier::external_type_specification]
#[verifier::external_body]
pub struct ExIoErrorKind(std::io::ErrorKind);

#[verifier::external_type_specification]
#[verifier::external_body]
pub struct ExIoError(std::io::Error);

#[verifier::external_type_specification]
#[verifier::external_body]
pub struct ExFromUtf16Error(std::string::FromUtf16Error);

/// Every error that parsing, validating or writing VGM data can report.
#[derive(Debug, Clone, PartialEq)]
pub enum VgmError {
    /// File not found at the specified path.
    FileNotFound { path: String, io_kind: Option<std::io::ErrorKind> },
    /// Error reading file contents.
    FileReadError { path: String, reason: String },
    /// Permission denied when accessing a file.
    PermissionDenied { path: String },
    /// File is empty or too small to be a valid VGM.
    FileTooSmall { path: String, size: usize },
    /// Invalid VGM magic bytes.
    InvalidMagicBytes { expected: String, found: String, offset: usize },
    /// File header is corrupted or malformed.
    CorruptedHeader { reason: String, offset: usize },
    /// Invalid offset value in the header.
    InvalidOffset { field: String, offset: u32, file_size: usize },
    /// The file ends before its header does.
    TruncatedFile { expected: usize, actual: usize },
    /// Invalid UTF-16 encoding in metadata.
    InvalidUtf16Encoding { field: String, details: String },
    /// Invalid BCD (binary-coded decimal) data.
    InvalidBcdData { field: String, data: Vec<u8> },
    /// The buffer ends before the data that is read from it.
    BufferUnderflow { offset: usize, needed: usize, available: usize },
    /// Invalid data length.
    InvalidDataLength { field: String, expected: usize, actual: usize },
    /// Data that does not have the expected format.
    InvalidDataFormat { field: String, details: String },
    /// Unknown or unsupported command opcode.
    UnknownCommand { opcode: u8, position: usize },
    /// Incomplete command data.
    IncompleteCommand { opcode: u8, position: usize, expected_bytes: usize, available_bytes: usize },
    /// Invalid command parameters.
    InvalidCommandParameters { opcode: u8, position: usize, reason: String },
    /// Too many nested parsing operations.
    ParseStackOverflow { position: usize, max_depth: usize },
    /// Unsupported VGM version.
    UnsupportedVgmVersion { version: u32, supported_range: String },
    /// Unsupported GD3 version.
    UnsupportedGd3Version { version: u32, supported_versions: Vec<u32> },
    /// Feature not supported in this VGM version.
    FeatureNotSupported { feature: String, version: u32, min_version: u32 },
    /// Memory allocation failed.
    MemoryAllocationFailed { size: usize, purpose: String },
    /// Integer overflow in a calculation.
    IntegerOverflow { operation: String, details: String },
    /// Data size exceeds a configured limit.
    DataSizeExceedsLimit { field: String, size: usize, limit: usize },
    /// Inconsistent data detected.
    InconsistentData { context: String, reason: String },
    /// A validation check failed.
    ValidationFailed { field: String, reason: String },
    /// Circular reference detected.
    CircularReference { structure: String, location: String },
    /// Invalid data block type.
    InvalidDataBlockType { block_type: u8, offset: usize },
    /// Data block size mismatch.
    DataBlockSizeMismatch { header_size: u32, actual_size: usize },
    /// Unsupported compression algorithm.
    UnsupportedCompression { algorithm: String },
    /// Invalid input given to the GD3 parser.
    InvalidInputGd3Parser { details: String },
    /// Failed to parse GD3 data.
    FailedParseGd3 { reason: String },
}

/// Result type of the library's operations.
pub type VgmResult<T> = Result<T, VgmError>;

/// Older name of [`VgmError`].
pub type LibError = VgmError;

/// Groups of related errors.
#[derive(Debug, Clone, Copy, PartialEq, Eq, Hash)]
pub enum ErrorCategory {
    IO,
    FormatValidation,
    DataParsing,
    CommandParsing,
    VersionCompatibility,
    MemoryResource,
    LogicalValidation,
    DataBlock,
    Legacy,
    Unknown,
}

/// The machine-readable code of each error: the thousands give its category.
pub open spec fn error_code(e: VgmError) -> u16 {
    match e {
        VgmError::FileNotFound { .. } => 1001,
        VgmError::FileReadError { .. } => 1002,
        VgmError::PermissionDenied { .. } => 1003,
        VgmError::FileTooSmall { .. } => 1004,
        VgmError::InvalidMagicBytes { .. } => 2001,
        VgmError::CorruptedHeader { .. } => 2002,
        VgmError::InvalidOffset { .. } => 2003,
        VgmError::TruncatedFile { .. } => 2004,
        VgmError::InvalidUtf16Encoding { .. } => 3001,
        VgmError::InvalidBcdData { .. } => 3002,
        VgmError::BufferUnderflow { .. } => 3003,
        VgmError::InvalidDataLength { .. } => 3004,
        VgmError::InvalidDataFormat { .. } => 3005,
        VgmError::UnknownCommand { .. } => 4001,
        VgmError::IncompleteCommand { .. } => 4002,
        VgmError::InvalidCommandParameters { .. } => 4003,
        VgmError::ParseStackOverflow { .. } => 4004,
        VgmError::UnsupportedVgmVersion { .. } => 5001,
        VgmError::UnsupportedGd3Version { .. } => 5002,
        VgmError::FeatureNotSupported { .. } => 5003,
        VgmError::MemoryAllocationFailed { .. } => 6001,
        VgmError::IntegerOverflow { .. } => 6002,
        VgmError::DataSizeExceedsLimit { .. } => 6003,
        VgmError::InconsistentData { .. } => 7001,
        VgmError::ValidationFailed { .. } => 7002,
        VgmError::CircularReference { .. } => 7003,
        VgmError::InvalidDataBlockType { .. } => 8001,
        VgmError::DataBlockSizeMismatch { .. } => 8002,
        VgmError::UnsupportedCompression { .. } => 8003,
        VgmError::InvalidInputGd3Parser { .. } => 9001,
        VgmError::FailedParseGd3 { .. } => 9002,
    }
}

/// The category that a code's thousands select.
pub open spec fn category_of_code(code: u16) -> ErrorCategory {
    if 1000 <= code <= 1099 {
        ErrorCategory::IO
    } else if 2000 <= code <= 2099 {
        ErrorCategory::FormatValidation
    } else if 3000 <= code <= 3099 {
        ErrorCategory::DataParsing
    } else if 4000 <= code <= 4099 {
        ErrorCategory::CommandParsing
    } else if 5000 <= code <= 5099 {
        ErrorCategory::VersionCompatibility
    } else if 6000 <= code <= 6099 {
        ErrorCategory::MemoryResource
    } else if 7000 <= code <= 7099 {
        ErrorCategory::LogicalValidation
    } else if 8000 <= code <= 8099 {
        ErrorCategory::DataBlock
    } else if 9000 <= code <= 9099 {
        ErrorCategory::Legacy
    } else {
        ErrorCategory::Unknown
    }
}

/// Errors after which parsing could go on.
pub open spec fn error_is_recoverable(e: VgmError) -> bool {
    match e {
        VgmError::UnknownCommand { .. } => true,
        VgmError::InvalidCommandParameters { .. } => true,
        VgmError::UnsupportedGd3Version { .. } => true,
        _ => false,
    }
}

impl VgmError {
    /// The error's machine-readable code.
    pub fn code(&self) -> (c: u16)
        ensures
            c == error_code(*self),
    {
        match self {
            VgmError::FileNotFound { .. } => 1001,
            VgmError::FileReadError { .. } => 1002,
            VgmError::PermissionDenied { .. } => 1003,
            VgmError::FileTooSmall { .. } => 1004,
            VgmError::InvalidMagicBytes { .. } => 2001,
            VgmError::CorruptedHeader { .. } => 2002,
            VgmError::InvalidOffset { .. } => 2003,
            VgmError::TruncatedFile { .. } => 2004,
            VgmError::InvalidUtf16Encoding { .. } => 3001,
            VgmError::InvalidBcdData { .. } => 3002,
            VgmError::BufferUnderflow { .. } => 3003,
            VgmError::InvalidDataLength { .. } => 3004,
            VgmError::InvalidDataFormat { .. } => 3005,
            VgmError::UnknownCommand { .. } => 4001,
            VgmError::IncompleteCommand { .. } => 4002,
            VgmError::InvalidCommandParameters { .. } => 4003,
            VgmError::ParseStackOverflow { .. } => 4004,
            VgmError::UnsupportedVgmVersion { .. } => 5001,
            VgmError::UnsupportedGd3Version { .. } => 5002,
            VgmError::FeatureNotSupported { .. } => 5003,
            VgmError::MemoryAllocationFailed { .. } => 6001,
            VgmError::IntegerOverflow { .. } => 6002,
            VgmError::DataSizeExceedsLimit { .. } => 6003,
            VgmError::InconsistentData { .. } => 7001,
            VgmError::ValidationFailed { .. } => 7002,
            VgmError::CircularReference { .. } => 7003,
            VgmError::InvalidDataBlockType { .. } => 8001,
            VgmError::DataBlockSizeMismatch { .. } => 8002,
            VgmError::UnsupportedCompression { .. } => 8003,
            VgmError::InvalidInputGd3Parser { .. } => 9001,
            VgmError::FailedParseGd3 { .. } => 9002,
        }
    }

    /// The category that the error's code falls in.
    pub fn category(&self) -> (c: ErrorCategory)
        ensures
            c == category_of_code(error_code(*self)),
    {
        let code = self.code();
        if 1000 <= code && code <= 1099 {
            ErrorCategory::IO
        } else if 2000 <= code && code <= 2099 {
            ErrorCategory::FormatValidation
        } else if 3000 <= code && code <= 3099 {
            ErrorCategory::DataParsing
        } else if 4000 <= code && code <= 4099 {
            ErrorCategory::CommandParsing
        } else if 5000 <= code && code <= 5099 {
            ErrorCategory::VersionCompatibility
        } else if 6000 <= code && code <= 6099 {
            ErrorCategory::MemoryResource
        } else if 7000 <= code && code <= 7099 {
            ErrorCategory::LogicalValidation
        } else if 8000 <= code && code <= 8099 {
            ErrorCategory::DataBlock
        } else if 9000 <= code && code <= 9099 {
            ErrorCategory::Legacy
        } else {
            ErrorCategory::Unknown
        }
    }

    /// Whether parsing could go on after this error.
    pub fn is_recoverable(&self) -> (r: bool)
        ensures
            r == error_is_recoverable(*self),
    {
        match self {
            VgmError::UnknownCommand { .. } => true,
            VgmError::InvalidCommandParameters { .. } => true,
            VgmError::UnsupportedGd3Version { .. } => true,
            _ => false,
        }
    }

    /// A suggestion of what to do about the error.
    pub fn suggested_action(&self) -> (s: &'static str)
        ensures
            s@ == suggested_action_text(*self),
    {
        match self {
            VgmError::FileNotFound { .. } => "Check file path and ensure file exists",
            VgmError::PermissionDenied { .. } => "Check file permissions and user access rights",
            VgmError::InvalidMagicBytes { .. } => "Verify this is a valid VGM file",
            VgmError::UnsupportedVgmVersion { .. } => "Use a VGM file with a supported version",
            VgmError::UnknownCommand { .. } => "File may use commands from a newer VGM specification",
            VgmError::BufferUnderflow { .. } => "File appears to be corrupted or truncated",
            VgmError::InvalidUtf16Encoding { .. } => "Metadata contains invalid text encoding",
            VgmError::MemoryAllocationFailed { .. } => "Reduce file size or increase available memory",
            _ => "Check file integrity and VGM specification compliance",
        }
    }
}

/// The suggestion that [`VgmError::suggested_action`] gives for each error.
pub open spec fn suggested_action_text(e: VgmError) -> Seq<char> {
    match e {
        VgmError::FileNotFound { .. } => "Check file path and ensure file exists"@,
        VgmError::PermissionDenied { .. } => "Check file permissions and user access rights"@,
        VgmError::InvalidMagicBytes { .. } => "Verify this is a valid VGM file"@,
        VgmError::UnsupportedVgmVersion { .. } => "Use a VGM file with a supported version"@,
        VgmError::UnknownCommand { .. } => "File may use commands from a newer VGM specification"@,
        VgmError::BufferUnderflow { .. } => "File appears to be corrupted or truncated"@,
        VgmError::InvalidUtf16Encoding { .. } => "Metadata contains invalid text encoding"@,
        VgmError::MemoryAllocationFailed { .. } => "Reduce file size or increase available memory"@,
        _ => "Check file integrity and VGM specification compliance"@,
    }
}

/// The name of each category, as it is shown to people.
pub open spec fn category_label(c: ErrorCategory) -> Seq<char> {
    match c {
        ErrorCategory::IO => "I/O"@,
        ErrorCategory::FormatValidation => "Format Validation"@,
        ErrorCategory::DataParsing => "Data Parsing"@,
        ErrorCategory::CommandParsing => "Command Parsing"@,
        ErrorCategory::VersionCompatibility => "Version Compatibility"@,
        ErrorCategory::MemoryResource => "Memory/Resource"@,
        ErrorCategory::LogicalValidation => "Logical Validation"@,
        ErrorCategory::DataBlock => "Data Block"@,
        ErrorCategory::Legacy => "Legacy"@,
        ErrorCategory::Unknown => "Unknown"@,
    }
}

impl ErrorCategory {
    /// The category's name, as it is shown to people.
    pub fn label(&self) -> (s: &'static str)
        ensures
            s@ == category_label(*self),
    {
        match self {
            ErrorCategory::IO => "I/O",
            ErrorCategory::FormatValidation => "Format Validation",
            ErrorCategory::DataParsing => "Data Parsing",
            ErrorCategory::CommandParsing => "Command Parsing",
            ErrorCategory::VersionCompatibility => "Version Compatibility",
            ErrorCategory::MemoryResource => "Memory/Resource",
            ErrorCategory::LogicalValidation => "Logical Validation",
            ErrorCategory::DataBlock => "Data Block",
            ErrorCategory::Legacy => "Legacy",
            ErrorCategory::Unknown => "Unknown",
        }
    }
}

/// Whether two errors are of the same kind (the same variant).
pub open spec fn same_error_kind(a: VgmError, b: VgmError) -> bool {
    match (a, b) {
        (VgmError::FileNotFound { .. }, VgmError::FileNotFound { .. }) => true,
        (VgmError::FileReadError { .. }, VgmError::FileReadError { .. }) => true,
        (VgmError::PermissionDenied { .. }, VgmError::PermissionDenied { .. }) => true,
        (VgmError::FileTooSmall { .. }, VgmError::FileTooSmall { .. }) => true,
        (VgmError::InvalidMagicBytes { .. }, VgmError::InvalidMagicBytes { .. }) => true,
        (VgmError::CorruptedHeader { .. }, VgmError::CorruptedHeader { .. }) => true,
        (VgmError::InvalidOffset { .. }, VgmError::InvalidOffset { .. }) => true,
        (VgmError::TruncatedFile { .. }, VgmError::TruncatedFile { .. }) => true,
        (VgmError::InvalidUtf16Encoding { .. }, VgmError::InvalidUtf16Encoding { .. }) => true,
        (VgmError::InvalidBcdData { .. }, VgmError::InvalidBcdData { .. }) => true,
        (VgmError::BufferUnderflow { .. }, VgmError::BufferUnderflow { .. }) => true,
        (VgmError::InvalidDataLength { .. }, VgmError::InvalidDataLength { .. }) => true,
        (VgmError::InvalidDataFormat { .. }, VgmError::InvalidDataFormat { .. }) => true,
        (VgmError::UnknownCommand { .. }, VgmError::UnknownCommand { .. }) => true,
        (VgmError::IncompleteCommand { .. }, VgmError::IncompleteCommand { .. }) => true,
        (VgmError::InvalidCommandParameters { .. }, VgmError::InvalidCommandParameters { .. }) => true,
        (VgmError::ParseStackOverflow { .. }, VgmError::ParseStackOverflow { .. }) => true,
        (VgmError::UnsupportedVgmVersion { .. }, VgmError::UnsupportedVgmVersion { .. }) => true,
        (VgmError::UnsupportedGd3Version { .. }, VgmError::UnsupportedGd3Version { .. }) => true,
        (VgmError::FeatureNotSupported { .. }, VgmError::FeatureNotSupported { .. }) => true,
        (VgmError::MemoryAllocationFailed { .. }, VgmError::MemoryAllocationFailed { .. }) => true,
        (VgmError::IntegerOverflow { .. }, VgmError::IntegerOverflow { .. }) => true,
        (VgmError::DataSizeExceedsLimit { .. }, VgmError::DataSizeExceedsLimit { .. }) => true,
        (VgmError::InconsistentData { .. }, VgmError::InconsistentData { .. }) => true,
        (VgmError::ValidationFailed { .. }, VgmError::ValidationFailed { .. }) => true,
        (VgmError::CircularReference { .. }, VgmError::CircularReference { .. }) => true,
        (VgmError::InvalidDataBlockType { .. }, VgmError::InvalidDataBlockType { .. }) => true,
        (VgmError::DataBlockSizeMismatch { .. }, VgmError::DataBlockSizeMismatch { .. }) => true,
        (VgmError::UnsupportedCompression { .. }, VgmError::UnsupportedCompression { .. }) => true,
        (VgmError::InvalidInputGd3Parser { .. }, VgmError::InvalidInputGd3Parser { .. }) => true,
        (VgmError::FailedParseGd3 { .. }, VgmError::FailedParseGd3 { .. }) => true,
        _ => false,
    }
}

/// No two kinds of error share a code, and every code falls in a named category.
pub proof fn lemma_error_codes_identify_kinds(a: VgmError, b: VgmError)
    ensures
        error_code(a) == error_code(b) <==> same_error_kind(a, b),
        category_of_code(error_code(a)) != ErrorCategory::Unknown,
{
}


/// Adds context to the error of a result.
pub trait VgmErrorContext<T>: Sized {
    /// Puts the text that `f` gives in front of the context of an
    /// inconsistent-data error; other errors and successes pass unchanged.
    fn with_context<F: FnOnce() -> String>(self, f: F) -> VgmResult<T>
        requires
            f.requires(()),
    ;

    /// Replaces any error by an inconsistent-data error with the context and
    /// reason that `f` gives; successes pass unchanged.
    fn with_context_fmt<F: FnOnce() -> (String, String)>(self, f: F) -> VgmResult<T>
        requires
            f.requires(()),
    ;
}

impl<T> VgmErrorContext<T> for VgmResult<T> {
    fn with_context<F: FnOnce() -> String>(self, f: F) -> (r: VgmResult<T>)
        ensures
            match self {
                Ok(v) => r == Ok::<T, VgmError>(v),
                Err(VgmError::InconsistentData { context, reason }) => exists|prefix: String|
                    #![trigger f.ensures((), prefix)]
                    {
                        &&& f.ensures((), prefix)
                        &&& r matches Err(VgmError::InconsistentData { context: c, reason: why })
                        &&& c@ == prefix@ + ": "@ + context@
                        &&& why == reason
                    },
                Err(other) => r == Err::<T, VgmError>(other),
            },
    {
        match self {
            Ok(v) => Ok(v),
            Err(VgmError::InconsistentData { context, reason }) => {
                let prefix = f();
                let head = crate::text::joined(prefix.as_str(), ": ");
                Err(VgmError::InconsistentData { context: head.concat(context.as_str()), reason })
            },
            Err(other) => Err(other),
        }
    }

    fn with_context_fmt<F: FnOnce() -> (String, String)>(self, f: F) -> (r: VgmResult<T>)
        ensures
            self is Ok ==> r == self,
            self is Err ==> exists|pair: (String, String)|
                #![trigger f.ensures((), pair)]
                f.ensures((), pair) && r == Err::<T, VgmError>(VgmError::InconsistentData { context: pair.0, reason: pair.1 }),
    {
        match self {
            Ok(v) => Ok(v),
            Err(_e) => {
                let (context, reason) = f();
                Err(VgmError::InconsistentData { context, reason })
            },
        }
    }
}

/// How an I/O error is reported: by its kind.
enum IoErrorClass {
    NotFound,
    PermissionDenied,
    Other,
}

/// The kind of an I/O error, as `std::io::Error::kind` gives it.
pub uninterp spec fn io_error_kind_of(e: std::io::Error) -> std::io::ErrorKind;

/// Which of three classes an I/O error kind falls in: 0 for
/// `ErrorKind::NotFound`, 1 for `ErrorKind::PermissionDenied`, 2 for any
/// other kind.
pub uninterp spec fn io_kind_code(k: std::io::ErrorKind) -> u8;

/// The text of a UTF-16 decoding error, as its `Display` gives it.
pub uninterp spec fn utf16_error_display(e: std::string::FromUtf16Error) -> Seq<char>;

/// `std::io::Error::kind`: the kind of an I/O error, handed on as it is.
#[verifier::external_body]
fn io_error_kind(e: &std::io::Error) -> (k: std::io::ErrorKind)
    ensures
        k == io_error_kind_of(*e),
{
    e.kind()
}

/// Tells the two kinds of I/O error that get errors of their own
/// (`std::io::ErrorKind::NotFound` and `PermissionDenied`) from the others;
/// the class is the one that `io_kind_code` numbers.
#[verifier::external_body]
fn io_error_class(k: std::io::ErrorKind) -> (c: IoErrorClass)
    ensures
        (c is NotFound) <==> io_kind_code(k) == 0,
        (c is PermissionDenied) <==> io_kind_code(k) == 1,
        (c is Other) <==> io_kind_code(k) == 2,
{
    match k {
        std::io::ErrorKind::NotFound => IoErrorClass::NotFound,
        std::io::ErrorKind::PermissionDenied => IoErrorClass::PermissionDenied,
        _ => IoErrorClass::Other,
    }
}

/// `ToString::to_string` on an I/O error: its message, as std's `Display`
/// gives it. Nothing is claimed of the text: for errors of the operating
/// system it is the system's own message, which depends on the machine and
/// its locale.
#[verifier::external_body]
fn io_error_text(e: &std::io::Error) -> String {
    e.to_string()
}

/// `ToString::to_string` on a UTF-16 decoding error: its message, as std's
/// `Display` gives it (named `utf16_error_display`).
#[verifier::external_body]
fn utf16_error_message(e: &std::string::FromUtf16Error) -> (r: String)
    ensures
        r@ == utf16_error_display(*e),
{
    e.to_string()
}

/// The error that an I/O error of the given class, kind and message
/// becomes, for the file at `path`.
fn io_error_to_vgm(class: IoErrorClass, kind: std::io::ErrorKind, text: String, path: &str) -> (e: VgmError)
    ensures
        match class {
            IoErrorClass::NotFound => e matches VgmError::FileNotFound { path: p, io_kind } && p@ == path@ && io_kind
                == Some(kind),
            IoErrorClass::PermissionDenied => e matches VgmError::PermissionDenied { path: p } && p@ == path@,
            IoErrorClass::Other => e matches VgmError::FileReadError { path: p, reason } && p@ == path@ && reason
                == text,
        },
{
    match class {
        IoErrorClass::NotFound => VgmError::FileNotFound { path: String::from_str(path), io_kind: Some(kind) },
        IoErrorClass::PermissionDenied => VgmError::PermissionDenied { path: String::from_str(path) },
        IoErrorClass::Other => VgmError::FileReadError { path: String::from_str(path), reason: text },
    }
}

/// Whether `e` is the error that an I/O error `err` becomes for the file at
/// `path`: a not-found error with the I/O error's kind, a permission error,
/// or, for any other kind, a read error (with the I/O error's message).
pub open spec fn io_error_for(err: std::io::Error, path: Seq<char>, e: VgmError) -> bool {
    let kind = io_error_kind_of(err);
    &&& io_kind_code(kind) <= 2
    &&& io_kind_code(kind) == 0 ==> (e matches VgmError::FileNotFound { path: p, io_kind } && p@ == path
        && io_kind == Some(kind))
    &&& io_kind_code(kind) == 1 ==> (e matches VgmError::PermissionDenied { path: p } && p@ == path)
    &&& io_kind_code(kind) == 2 ==> (e matches VgmError::FileReadError { path: p, .. } && p@ == path)
}

/// The error that an I/O error met while reading the file at `path` becomes.
pub fn file_error(err: std::io::Error, path: &str) -> (e: VgmError)
    ensures
        io_error_for(err, path@, e),
{
    let kind = io_error_kind(&err);
    let text = io_error_text(&err);
    io_error_to_vgm(io_error_class(kind), kind, text, path)
}

/// The error that a UTF-16 decoding error with the given message becomes.
fn utf16_error_to_vgm(text: String) -> (e: VgmError)
    ensures
        e matches VgmError::InvalidUtf16Encoding { field, details } && field@ == "unknown"@ && details == text,
{
    VgmError::InvalidUtf16Encoding { field: String::from_str("unknown"), details: text }
}

impl From<std::io::Error> for VgmError {
    /// A not-found or permission error becomes the error of its own kind,
    /// any other a read error with the I/O error's message; the path is
    /// not known here.
    fn from(err: std::io::Error) -> (e: Self)
        ensures
            io_error_for(err, "unknown"@, e),
    {
        file_error(err, "unknown")
    }
}

impl vstd::std_specs::convert::FromSpecImpl<std::io::Error> for VgmError {
    /// The error's message is not modelled; `from` states in its `ensures`
    /// which error comes out for which kind, and no single error is named
    /// as the result.
    open spec fn obeys_from_spec() -> bool {
        false
    }

    open spec fn from_spec(v: std::io::Error) -> Self {
        arbitrary()
    }
}

impl From<std::string::FromUtf16Error> for VgmError {
    /// A UTF-16 decoding error becomes an invalid-encoding error with its message.
    fn from(err: std::string::FromUtf16Error) -> (e: Self)
        ensures
            e matches VgmError::InvalidUtf16Encoding { field, details } && field@ == "unknown"@ && details@
                == utf16_error_display(err),
    {
        utf16_error_to_vgm(utf16_error_message(&err))
    }
}

impl vstd::std_specs::convert::FromSpecImpl<std::string::FromUtf16Error> for VgmError {
    /// The result is stated by `from`'s `ensures`, over its view of the
    /// texts; no single error value is named as the result.
    open spec fn obeys_from_spec() -> bool {
        false
    }

    open spec fn from_spec(v: std::string::FromUtf16Error) -> Self {
        arbitrary()
    }
}


/// The message of an error, as it is shown to people.
pub open spec fn error_message(e: VgmError) -> Seq<char> {
    match e {
        VgmError::FileNotFound { path, .. } => "File not found: "@ + path@,
        VgmError::FileReadError { path, reason } => "Failed to read file "@ + path@ + ": "@ + reason@,
        VgmError::PermissionDenied { path } => "Permission denied accessing file: "@ + path@,
        VgmError::FileTooSmall { path, size } => "File too small to be valid VGM: "@ + path@ + " ("@ + decimal_text(size as nat) + " bytes, minimum 64 required)"@,
        VgmError::InvalidMagicBytes { found, offset, .. } => "Invalid VGM magic bytes: expected 'Vgm ', found '"@ + found@ + "' at offset "@ + decimal_text(offset as nat),
        VgmError::CorruptedHeader { reason, offset } => "Corrupted VGM header: "@ + reason@ + " at offset "@ + decimal_text(offset as nat),
        VgmError::InvalidOffset { field, offset, file_size } => "Invalid offset in header: "@ + field@ + "="@ + decimal_text(offset as nat) + ", file size="@ + decimal_text(file_size as nat),
        VgmError::TruncatedFile { expected, actual } => "Truncated VGM file: expected "@ + decimal_text(expected as nat) + " bytes, file ends at "@ + decimal_text(actual as nat),
        VgmError::InvalidUtf16Encoding { field, details } => "Invalid UTF-16 encoding in "@ + field@ + ": "@ + details@,
        VgmError::InvalidBcdData { field, data } => "Invalid BCD data for "@ + field@ + ": "@ + hex_list_text(data@),
        VgmError::BufferUnderflow { offset, needed, available } => "Buffer underflow at offset "@ + decimal_text(offset as nat) + ": needed "@ + decimal_text(needed as nat) + " bytes, only "@ + decimal_text(available as nat) + " available"@,
        VgmError::InvalidDataLength { field, expected, actual } => "Invalid data length for "@ + field@ + ": expected "@ + decimal_text(expected as nat) + ", got "@ + decimal_text(actual as nat),
        VgmError::InvalidDataFormat { field, details } => "Invalid data format for "@ + field@ + ": "@ + details@,
        VgmError::UnknownCommand { opcode, position } => "Unknown command opcode 0x"@ + hex_byte_text(opcode) + " at position "@ + decimal_text(position as nat),
        VgmError::IncompleteCommand { opcode, position, expected_bytes, available_bytes } => "Incomplete command 0x"@ + hex_byte_text(opcode) + " at position "@ + decimal_text(position as nat) + ": expected "@ + decimal_text(expected_bytes as nat) + " bytes, only "@ + decimal_text(available_bytes as nat) + " available"@,
        VgmError::InvalidCommandParameters { opcode, position, reason } => "Invalid parameters for command 0x"@ + hex_byte_text(opcode) + " at position "@ + decimal_text(position as nat) + ": "@ + reason@,
        VgmError::ParseStackOverflow { position, max_depth } => "Command parsing stack overflow at position "@ + decimal_text(position as nat) + ": maximum depth "@ + decimal_text(max_depth as nat) + " exceeded"@,
        VgmError::UnsupportedVgmVersion { version, supported_range } => "Unsupported VGM version "@ + decimal_text(version as nat) + " (0x"@ + hex_word_text(version) + "): supported versions are "@ + supported_range@,
        VgmError::UnsupportedGd3Version { version, supported_versions } => "Unsupported GD3 version "@ + decimal_text(version as nat) + ": supported versions are "@ + decimal_list_text(supported_versions@),
        VgmError::FeatureNotSupported { feature, version, min_version } => "Feature '"@ + feature@ + "' not supported in VGM version "@ + decimal_text(version as nat) + ": requires version "@ + decimal_text(min_version as nat) + " or higher"@,
        VgmError::MemoryAllocationFailed { size, purpose } => "Memory allocation failed: attempted to allocate "@ + decimal_text(size as nat) + " bytes for "@ + purpose@,
        VgmError::IntegerOverflow { operation, details } => "Integer overflow in "@ + operation@ + ": "@ + details@,
        VgmError::DataSizeExceedsLimit { field, size, limit } => "Data size exceeds limit for "@ + field@ + ": "@ + decimal_text(size as nat) + " bytes (limit: "@ + decimal_text(limit as nat) + ")"@,
        VgmError::InconsistentData { context, reason } => "Data inconsistency in "@ + context@ + ": "@ + reason@,
        VgmError::ValidationFailed { field, reason } => "Validation failed for "@ + field@ + ": "@ + reason@,
        VgmError::CircularReference { structure, location } => "Circular reference detected in "@ + structure@ + " at "@ + location@,
        VgmError::InvalidDataBlockType { block_type, offset } => "Invalid data block type 0x"@ + hex_byte_text(block_type) + " at offset "@ + decimal_text(offset as nat),
        VgmError::DataBlockSizeMismatch { header_size, actual_size } => "Data block size mismatch: header claims "@ + decimal_text(header_size as nat) + " bytes, actual block is "@ + decimal_text(actual_size as nat) + " bytes"@,
        VgmError::UnsupportedCompression { algorithm } => "Unsupported compression algorithm in data block: "@ + algorithm@,
        VgmError::InvalidInputGd3Parser { details } => "Invalid input provided to GD3 parser: "@ + details@,
        VgmError::FailedParseGd3 { reason } => "Failed to parse GD3 data: "@ + reason@,
    }
}

impl VgmError {
    /// The error's message, as it is shown to people.
    pub fn message(&self) -> (s: String)
        ensures
            s@ == error_message(*self),
    {
        let mut m = String::new();
        match self {
            VgmError::FileNotFound { path, .. } => {
                m.append("File not found: ");
                m.append(path.as_str());
            },
            VgmError::FileReadError { path, reason } => {
                m.append("Failed to read file ");
                m.append(path.as_str());
                m.append(": ");
                m.append(reason.as_str());
            },
            VgmError::PermissionDenied { path } => {
                m.append("Permission denied accessing file: ");
                m.append(path.as_str());
            },
            VgmError::FileTooSmall { path, size } => {
                m.append("File too small to be valid VGM: ");
                m.append(path.as_str());
                m.append(" (");
                let t3 = decimal_string(*size as u64);
                m.append(t3.as_str());
                m.append(" bytes, minimum 64 required)");
            },
            VgmError::InvalidMagicBytes { found, offset, .. } => {
                m.append("Invalid VGM magic bytes: expected 'Vgm ', found '");
                m.append(found.as_str());
                m.append("' at offset ");
                let t3 = decimal_string(*offset as u64);
                m.append(t3.as_str());
            },
            VgmError::CorruptedHeader { reason, offset } => {
                m.append("Corrupted VGM header: ");
                m.append(reason.as_str());
                m.append(" at offset ");
                let t3 = decimal_string(*offset as u64);
                m.append(t3.as_str());
            },
            VgmError::InvalidOffset { field, offset, file_size } => {
                m.append("Invalid offset in header: ");
                m.append(field.as_str());
                m.append("=");
                let t3 = decimal_string(*offset as u64);
                m.append(t3.as_str());
                m.append(", file size=");
                let t5 = decimal_string(*file_size as u64);
                m.append(t5.as_str());
            },
            VgmError::TruncatedFile { expected, actual } => {
                m.append("Truncated VGM file: expected ");
                let t1 = decimal_string(*expected as u64);
                m.append(t1.as_str());
                m.append(" bytes, file ends at ");
                let t3 = decimal_string(*actual as u64);
                m.append(t3.as_str());
            },
            VgmError::InvalidUtf16Encoding { field, details } => {
                m.append("Invalid UTF-16 encoding in ");
                m.append(field.as_str());
                m.append(": ");
                m.append(details.as_str());
            },
            VgmError::InvalidBcdData { field, data } => {
                m.append("Invalid BCD data for ");
                m.append(field.as_str());
                m.append(": ");
                let t3 = hex_list_string(data);
                m.append(t3.as_str());
            },
            VgmError::BufferUnderflow { offset, needed, available } => {
                m.append("Buffer underflow at offset ");
                let t1 = decimal_string(*offset as u64);
                m.append(t1.as_str());
                m.append(": needed ");
                let t3 = decimal_string(*needed as u64);
                m.append(t3.as_str());
                m.append(" bytes, only ");
                let t5 = decimal_string(*available as u64);
                m.append(t5.as_str());
                m.append(" available");
            },
            VgmError::InvalidDataLength { field, expected, actual } => {
                m.append("Invalid data length for ");
                m.append(field.as_str());
                m.append(": expected ");
                let t3 = decimal_string(*expected as u64);
                m.append(t3.as_str());
                m.append(", got ");
                let t5 = decimal_string(*actual as u64);
                m.append(t5.as_str());
            },
            VgmError::InvalidDataFormat { field, details } => {
                m.append("Invalid data format for ");
                m.append(field.as_str());
                m.append(": ");
                m.append(details.as_str());
            },
            VgmError::UnknownCommand { opcode, position } => {
                m.append("Unknown command opcode 0x");
                let t1 = hex_byte_string(*opcode);
                m.append(t1.as_str());
                m.append(" at position ");
                let t3 = decimal_string(*position as u64);
                m.append(t3.as_str());
            },
            VgmError::IncompleteCommand { opcode, position, expected_bytes, available_bytes } => {
                m.append("Incomplete command 0x");
                let t1 = hex_byte_string(*opcode);
                m.append(t1.as_str());
                m.append(" at position ");
                let t3 = decimal_string(*position as u64);
                m.append(t3.as_str());
                m.append(": expected ");
                let t5 = decimal_string(*expected_bytes as u64);
                m.append(t5.as_str());
                m.append(" bytes, only ");
                let t7 = decimal_string(*available_bytes as u64);
                m.append(t7.as_str());
                m.append(" available");
            },
            VgmError::InvalidCommandParameters { opcode, position, reason } => {
                m.append("Invalid parameters for command 0x");
                let t1 = hex_byte_string(*opcode);
                m.append(t1.as_str());
                m.append(" at position ");
                let t3 = decimal_string(*position as u64);
                m.append(t3.as_str());
                m.append(": ");
                m.append(reason.as_str());
            },
            VgmError::ParseStackOverflow { position, max_depth } => {
                m.append("Command parsing stack overflow at position ");
                let t1 = decimal_string(*position as u64);
                m.append(t1.as_str());
                m.append(": maximum depth ");
                let t3 = decimal_string(*max_depth as u64);
                m.append(t3.as_str());
                m.append(" exceeded");
            },
            VgmError::UnsupportedVgmVersion { version, supported_range } => {
                m.append("Unsupported VGM version ");
                let t1 = decimal_string(*version as u64);
                m.append(t1.as_str());
                m.append(" (0x");
                let t3 = hex_word_string(*version);
                m.append(t3.as_str());
                m.append("): supported versions are ");
                m.append(supported_range.as_str());
            },
            VgmError::UnsupportedGd3Version { version, supported_versions } => {
                m.append("Unsupported GD3 version ");
                let t1 = decimal_string(*version as u64);
                m.append(t1.as_str());
                m.append(": supported versions are ");
                let t3 = decimal_list_string(supported_versions);
                m.append(t3.as_str());
            },
            VgmError::FeatureNotSupported { feature, version, min_version } => {
                m.append("Feature '");
                m.append(feature.as_str());
                m.append("' not supported in VGM version ");
                let t3 = decimal_string(*version as u64);
                m.append(t3.as_str());
                m.append(": requires version ");
                let t5 = decimal_string(*min_version as u64);
                m.append(t5.as_str());
                m.append(" or higher");
            },
            VgmError::MemoryAllocationFailed { size, purpose } => {
                m.append("Memory allocation failed: attempted to allocate ");
                let t1 = decimal_string(*size as u64);
                m.append(t1.as_str());
                m.append(" bytes for ");
                m.append(purpose.as_str());
            },
            VgmError::IntegerOverflow { operation, details } => {
                m.append("Integer overflow in ");
                m.append(operation.as_str());
                m.append(": ");
                m.append(details.as_str());
            },
            VgmError::DataSizeExceedsLimit { field, size, limit } => {
                m.append("Data size exceeds limit for ");
                m.append(field.as_str());
                m.append(": ");
                let t3 = decimal_string(*size as u64);
                m.append(t3.as_str());
                m.append(" bytes (limit: ");
                let t5 = decimal_string(*limit as u64);
                m.append(t5.as_str());
                m.append(")");
            },
            VgmError::InconsistentData { context, reason } => {
                m.append("Data inconsistency in ");
                m.append(context.as_str());
                m.append(": ");
                m.append(reason.as_str());
            },
            VgmError::ValidationFailed { field, reason } => {
                m.append("Validation failed for ");
                m.append(field.as_str());
                m.append(": ");
                m.append(reason.as_str());
            },
            VgmError::CircularReference { structure, location } => {
                m.append("Circular reference detected in ");
                m.append(structure.as_str());
                m.append(" at ");
                m.append(location.as_str());
            },
            VgmError::InvalidDataBlockType { block_type, offset } => {
                m.append("Invalid data block type 0x");
                let t1 = hex_byte_string(*block_type);
                m.append(t1.as_str());
                m.append(" at offset ");
                let t3 = decimal_string(*offset as u64);
                m.append(t3.as_str());
            },
            VgmError::DataBlockSizeMismatch { header_size, actual_size } => {
                m.append("Data block size mismatch: header claims ");
                let t1 = decimal_string(*header_size as u64);
                m.append(t1.as_str());
                m.append(" bytes, actual block is ");
                let t3 = decimal_string(*actual_size as u64);
                m.append(t3.as_str());
                m.append(" bytes");
            },
            VgmError::UnsupportedCompression { algorithm } => {
                m.append("Unsupported compression algorithm in data block: ");
                m.append(algorithm.as_str());
            },
            VgmError::InvalidInputGd3Parser { details } => {
                m.append("Invalid input provided to GD3 parser: ");
                m.append(details.as_str());
            },
            VgmError::FailedParseGd3 { reason } => {
                m.append("Failed to parse GD3 data: ");
                m.append(reason.as_str());
            },
        }
        m
    }
}
} // verus!
