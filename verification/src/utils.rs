//! The error value handed across the library boundary, and input
//! validation for the data-processing path.

use vstd::prelude::*;
use vstd::string::*;

verus! {

/// A structured error value: a human-readable message, a taxonomy label,
/// and a numeric code.
#[derive(Debug)]
pub struct DataPrismError {
    message: String,
    error_type: String,
    code: u32,
}

impl DataPrismError {
    pub closed spec fn spec_message(&self) -> Seq<char> {
        self.message@
    }

    pub closed spec fn spec_error_type(&self) -> Seq<char> {
        self.error_type@
    }

    pub closed spec fn spec_code(&self) -> u32 {
        self.code
    }

    pub fn new(message: &str, error_type: &str, code: u32) -> (r: DataPrismError)
        ensures
            r.spec_message() == message@,
            r.spec_error_type() == error_type@,
            r.spec_code() == code,
    {
        DataPrismError {
            message: String::from_str(message),
            error_type: String::from_str(error_type),
            code,
        }
    }

    pub fn message(&self) -> (r: String)
        ensures
            r@ == self.spec_message(),
    {
        self.message.clone()
    }

    pub fn error_type(&self) -> (r: String)
        ensures
            r@ == self.spec_error_type(),
    {
        self.error_type.clone()
    }

    pub fn code(&self) -> (r: u32)
        ensures
            r == self.spec_code(),
    {
        self.code
    }
}

/// Validate a payload before processing: it is accepted exactly when it is
/// non-empty and holds at most 100,000,000 bytes. An empty payload and an
/// oversized one are each rejected with their own message.
pub fn validate_input_data(data: &[u8]) -> (r: Result<bool, DataPrismError>)
    ensures
        (r matches Ok(b) && b) <==> 0 < data@.len() <= 100_000_000,
        data@.len() == 0 ==> (r matches Err(e) && e.spec_message()
            == "Input data cannot be empty"@),
        data@.len() > 100_000_000 ==> (r matches Err(e) && e.spec_message()
            == "Input data exceeds maximum size limit"@),
{
    if data.len() == 0 {
        return Err(DataPrismError::new("Input data cannot be empty", "InvalidArgument", 0));
    }
    if data.len() > 100_000_000 {
        return Err(
            DataPrismError::new("Input data exceeds maximum size limit", "InvalidArgument", 0),
        );
    }
    Ok(true)
}

} // verus!
