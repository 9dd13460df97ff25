//! The closed set of supported backend model identifiers and their canonical
//! wire names.

use vstd::prelude::*;
use vstd::string::StringExecFns;

use crate::errors::GenError;

verus! {

/// A logical identifier for one of the supported generation models.
#[derive(Debug, Clone, Copy, PartialEq, Eq, Structural)]
pub enum ModelLLVM {
    Gemini25Flash,
    Gemini25Pro,
    Gemini25FlashLite,
}

/// The canonical backend name of each logical model.
pub open spec fn model_name_spec(model: ModelLLVM) -> Seq<char> {
    match model {
        ModelLLVM::Gemini25Flash => "gemini-2.5-flash"@,
        ModelLLVM::Gemini25Pro => "gemini-2.5-pro"@,
        ModelLLVM::Gemini25FlashLite => "gemini-2.5-flash-lite"@,
    }
}

/// Maps a logical model identifier to the name the backend expects.
///
/// The mapping is total over the closed set above; adding a backend model
/// means adding a variant here and nowhere else.
pub fn selector(model: ModelLLVM) -> (r: String)
    ensures
        r@ == model_name_spec(model),
{
    match model {
        ModelLLVM::Gemini25Flash => String::from_str("gemini-2.5-flash"),
        ModelLLVM::Gemini25Pro => String::from_str("gemini-2.5-pro"),
        ModelLLVM::Gemini25FlashLite => String::from_str("gemini-2.5-flash-lite"),
    }
}

/// The logical model named by a string, if it is a supported one.
pub open spec fn resolve_model_spec(name: Seq<char>) -> Result<ModelLLVM, GenError> {
    if name == "gemini-2.5-flash"@ {
        Result::Ok(ModelLLVM::Gemini25Flash)
    } else if name == "gemini-2.5-pro"@ {
        Result::Ok(ModelLLVM::Gemini25Pro)
    } else if name == "gemini-2.5-flash-lite"@ {
        Result::Ok(ModelLLVM::Gemini25FlashLite)
    } else {
        Result::Err(GenError::UnknownModel)
    }
}

/// Looks a logical model up by name; any name outside the supported set is a
/// registry miss, reported as a configuration error.
pub fn resolve_model(name: &str) -> (r: Result<ModelLLVM, GenError>)
    ensures
        r == resolve_model_spec(name@),
{
    let n = name.to_owned();
    if n == String::from_str("gemini-2.5-flash") {
        Ok(ModelLLVM::Gemini25Flash)
    } else if n == String::from_str("gemini-2.5-pro") {
        Ok(ModelLLVM::Gemini25Pro)
    } else if n == String::from_str("gemini-2.5-flash-lite") {
        Ok(ModelLLVM::Gemini25FlashLite)
    } else {
        Err(GenError::UnknownModel)
    }
}

} // verus!
