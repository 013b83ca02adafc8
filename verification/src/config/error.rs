//! Errors of configuration loading and validation.
use vstd::prelude::*;

verus! {

#[verifier::external_type_specification]
#[verifier::external_body]
pub struct ExIoErrorKind(std::io::ErrorKind);

#[verifier::external_type_specification]
#[verifier::external_body]
pub struct ExJsonError(serde_json::Error);

#[verifier::external_type_specification]
#[verifier::external_body]
pub struct ExIoError(std::io::Error);

/// Name for what `std::io::Error::kind` returns.
pub uninterp spec fn io_error_kind(err: std::io::Error) -> std::io::ErrorKind;

/// Name for whether an error kind is `std::io::ErrorKind::NotFound`.
pub uninterp spec fn is_not_found(kind: std::io::ErrorKind) -> bool;

/// Calls `std::io::Error::kind`.
#[verifier::external_body]
fn kind_of(err: &std::io::Error) -> (r: std::io::ErrorKind)
    ensures
        r == io_error_kind(*err),
{
    err.kind()
}

/// Tells `std::io::ErrorKind::NotFound` apart from the other kinds.
#[verifier::external_body]
fn kind_is_not_found(kind: &std::io::ErrorKind) -> (r: bool)
    ensures
        r == is_not_found(*kind),
{
    matches!(kind, std::io::ErrorKind::NotFound)
}

/// Why a configuration was refused.
#[derive(Debug, PartialEq)]
pub enum ConfigError {
    /// The configuration file does not exist.
    FileNotFound,
    /// The text is not a valid record, or an identifier exceeds 32 bytes.
    InvalidSchema,
    /// A parameter lies outside its allowed range; `value` is its bit pattern.
    InvalidBounds { parameter: &'static str, value: u32 },
    /// A parameter is subnormal, NaN or infinite.
    SubnormalFloatDetected { parameter: &'static str },
    /// Reading the file failed for another reason.
    IoError(std::io::ErrorKind),
}

/// The configuration error an I/O failure stands for: a missing file is
/// `FileNotFound`, any other failure keeps its kind.
pub open spec fn from_io_spec(err: std::io::Error) -> ConfigError {
    if is_not_found(io_error_kind(err)) {
        ConfigError::FileNotFound
    } else {
        ConfigError::IoError(io_error_kind(err))
    }
}

impl From<std::io::Error> for ConfigError {
    /// A missing file is `FileNotFound`; any other failure keeps its kind.
    fn from(err: std::io::Error) -> (r: Self) {
        let kind = kind_of(&err);
        if kind_is_not_found(&kind) {
            ConfigError::FileNotFound
        } else {
            ConfigError::IoError(kind)
        }
    }
}

impl vstd::std_specs::convert::FromSpecImpl<std::io::Error> for ConfigError {
    open spec fn obeys_from_spec() -> bool {
        true
    }

    open spec fn from_spec(v: std::io::Error) -> Self {
        from_io_spec(v)
    }
}

impl From<serde_json::Error> for ConfigError {
    /// Any parse failure is a schema violation.
    fn from(_err: serde_json::Error) -> (r: Self) {
        ConfigError::InvalidSchema
    }
}

impl vstd::std_specs::convert::FromSpecImpl<serde_json::Error> for ConfigError {
    open spec fn obeys_from_spec() -> bool {
        true
    }

    open spec fn from_spec(v: serde_json::Error) -> Self {
        ConfigError::InvalidSchema
    }
}

} // verus!
