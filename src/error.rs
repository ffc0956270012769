use vstd::prelude::*;

verus! {

/// The ways one run of the pipeline can fail. None is retried: each is handed
/// up unchanged to the caller of the pipeline.
#[derive(Debug, Clone)]
pub enum ApiError {
    /// A transport or provider failure of the search or completion service.
    Provider(String),
    /// A response body could not be decoded as expected.
    Decode(String),
    /// The completion service returned no usable candidate.
    EmptyCompletion,
}

pub open spec fn provider_prefix() -> Seq<char> {
    "Provider error: "@
}

pub open spec fn decode_prefix() -> Seq<char> {
    "De/serialization error: "@
}

pub open spec fn empty_completion_text() -> Seq<char> {
    "Empty completion: the model returned no choices"@
}

impl ApiError {
    pub open spec fn spec_message(&self) -> Seq<char> {
        match self {
            ApiError::Provider(m) => provider_prefix() + m@,
            ApiError::Decode(m) => decode_prefix() + m@,
            ApiError::EmptyCompletion => empty_completion_text(),
        }
    }

    /// The text shown to the caller of the pipeline for this failure.
    pub fn message(&self) -> (r: String)
        ensures
            r@ == self.spec_message(),
    {
        match self {
            ApiError::Provider(m) => {
                let mut s = String::from_str("Provider error: ");
                s.append(m.as_str());
                s
            },
            ApiError::Decode(m) => {
                let mut s = String::from_str("De/serialization error: ");
                s.append(m.as_str());
                s
            },
            ApiError::EmptyCompletion => String::from_str(
                "Empty completion: the model returned no choices",
            ),
        }
    }
}

} // verus!
