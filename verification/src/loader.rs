use vstd::prelude::*;
use crate::error::{outcome, ConfigError, ErrorModel};
use crate::gateway::{decode_document, GatewayConfig, GatewayConfigModel};
use crate::source::{parse_document, parsed_document};

verus! {

/// What a load gives, from what reading the document gave.
///
/// A document that could not be read is an I/O error with the reader's
/// reason. One that was read is parsed, which may fail with a syntax error,
/// and then decoded, which may fail with the first fault of its fields.
pub open spec fn load_outcome(read: Result<Seq<char>, Seq<char>>) -> Result<
    GatewayConfigModel,
    ErrorModel,
> {
    match read {
        Err(reason) => Err(ErrorModel::Io { reason }),
        Ok(contents) => match parsed_document(contents) {
            Err(e) => Err(e),
            Ok(raw) => decode_document(raw),
        },
    }
}

/// Loads a configuration from what reading its document gave: the contents,
/// or the reason why they could not be read.
///
/// Reading the file is the caller's part, so that this function decides the
/// whole outcome of a load without touching the file system. It never ends
/// the process: every failure is handed back, and then no table is.
pub fn load_config(read: Result<String, String>) -> (r: Result<GatewayConfig, ConfigError>)
    ensures
        outcome(r) == load_outcome(outcome(read)),
        r matches Ok(config) ==> config@.is_valid(),
{
    match read {
        Err(reason) => Err(ConfigError::Io { reason }),
        Ok(contents) => match parse_document(contents.as_str()) {
            Err(e) => Err(e),
            Ok(raw) => GatewayConfig::parse(&raw),
        },
    }
}

} // verus!
