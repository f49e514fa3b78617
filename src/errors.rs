use std::str::Utf8Error;
use vstd::prelude::*;
use vstd::string::StringExecFns;

verus! {

#[verifier::external_type_specification]
#[verifier::external_body]
pub struct ExUtf8Error(Utf8Error);

/// Every way an operation of the library can fail.
#[derive(Debug)]
pub enum RefpropError {
    /// Setting up the native session failed.
    InitializationError(String),
    /// The native library reported a failure; carries its diagnostic text.
    CalculationError(String),
    /// An argument was rejected before any native call.
    InvalidInput(String),
    /// A diagnostic text from the native library was not valid UTF-8.
    Utf8Error(Utf8Error),
    /// A previous holder of the call gate panicked while inside the native library.
    MutexPoisoned,
    /// Anything else.
    UnknownError(String),
}

/// `prefix` followed by `detail`.
fn labelled(prefix: &str, detail: &str) -> (r: String)
    ensures
        r@ == prefix@ + detail@,
{
    String::from_str(prefix).concat(detail)
}

impl RefpropError {
    /// The human-readable message of the failure: a label for its kind,
    /// followed by its cause.
    pub fn message(&self) -> (r: String)
        ensures
            self matches RefpropError::InitializationError(m) ==> r@ == "Initialization failed: "@
                + m@,
            self matches RefpropError::CalculationError(m) ==> r@ == "Calculation failed: "@ + m@,
            self matches RefpropError::InvalidInput(m) ==> r@ == "Invalid input: "@ + m@,
            self matches RefpropError::UnknownError(m) ==> r@ == "Unknown error: "@ + m@,
            self is Utf8Error ==> exists|detail: Seq<char>|
                r@ == "UTF-8 conversion error: "@ + detail,
            self is MutexPoisoned ==> r@ == "Mutex was poisoned"@,
    {
        match self {
            RefpropError::InitializationError(m) => labelled("Initialization failed: ", m.as_str()),
            RefpropError::CalculationError(m) => labelled("Calculation failed: ", m.as_str()),
            RefpropError::InvalidInput(m) => labelled("Invalid input: ", m.as_str()),
            RefpropError::Utf8Error(e) => labelled("UTF-8 conversion error: ", e.to_string().as_str()),
            RefpropError::MutexPoisoned => String::from_str("Mutex was poisoned"),
            RefpropError::UnknownError(m) => labelled("Unknown error: ", m.as_str()),
        }
    }
}

} // verus!
