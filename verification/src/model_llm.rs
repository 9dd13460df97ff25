//! The provider families and the models each of them serves.

use vstd::prelude::*;
use vstd::string::StringExecFns;

verus! {

/// A provider family the registry can construct a client for.
#[derive(Debug, Clone, Copy, PartialEq, Eq, Structural)]
pub enum ModelLLM {
    Gemini,
}

/// The Gemini models a client binding can name.
#[derive(Debug, Clone, Copy, PartialEq, Eq, Structural)]
pub enum GeminiModel {
    Gemini25Flash,
    Gemini25Pro,
    Gemini25FlashLite,
    Gemini3ProPreview,
}

/// The canonical backend name of each Gemini model.
pub open spec fn gemini_model_name_spec(model: GeminiModel) -> Seq<char> {
    match model {
        GeminiModel::Gemini25Flash => "gemini-2.5-flash"@,
        GeminiModel::Gemini25Pro => "gemini-2.5-pro"@,
        GeminiModel::Gemini25FlashLite => "gemini-2.5-flash-lite"@,
        GeminiModel::Gemini3ProPreview => "gemini-3-pro-preview"@,
    }
}

impl GeminiModel {
    /// The name the backend expects for this model.
    pub fn canonical_name(&self) -> (r: String)
        ensures
            r@ == gemini_model_name_spec(*self),
    {
        match self {
            GeminiModel::Gemini25Flash => String::from_str("gemini-2.5-flash"),
            GeminiModel::Gemini25Pro => String::from_str("gemini-2.5-pro"),
            GeminiModel::Gemini25FlashLite => String::from_str("gemini-2.5-flash-lite"),
            GeminiModel::Gemini3ProPreview => String::from_str("gemini-3-pro-preview"),
        }
    }
}

} // verus!
