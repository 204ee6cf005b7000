use vstd::prelude::*;
use crate::text::{decimal, push_decimal, push_str, to_string};

verus! {

/// Failures of an embedding provider.
#[derive(Debug, Clone)]
pub enum EmbeddingError {
    Provider(String),
    DimensionMismatch { expected: usize, actual: usize },
    RateLimited { retry_after_ms: u64 },
    ModelUnavailable(String),
}

/// The message of an embedding error.
pub open spec fn embedding_error_text(e: EmbeddingError) -> Seq<char> {
    match e {
        EmbeddingError::Provider(m) => "provider error: "@ + m@,
        EmbeddingError::DimensionMismatch { expected, actual } => "dimension mismatch: expected "@
            + decimal(expected as nat) + ", got "@ + decimal(actual as nat),
        EmbeddingError::RateLimited { retry_after_ms } => "rate limited, retry after "@ + decimal(
            retry_after_ms as nat,
        ) + "ms"@,
        EmbeddingError::ModelUnavailable(m) => "model not available: "@ + m@,
    }
}

impl EmbeddingError {
    /// The error's message.
    pub fn message(&self) -> (r: String)
        ensures
            r@ == embedding_error_text(*self),
    {
        match self {
            EmbeddingError::Provider(m) => {
                let mut r = to_string("provider error: ");
                push_str(&mut r, m.as_str());
                r
            },
            EmbeddingError::DimensionMismatch { expected, actual } => {
                let mut r = to_string("dimension mismatch: expected ");
                push_decimal(&mut r, *expected as u64);
                push_str(&mut r, ", got ");
                push_decimal(&mut r, *actual as u64);
                r
            },
            EmbeddingError::RateLimited { retry_after_ms } => {
                let mut r = to_string("rate limited, retry after ");
                push_decimal(&mut r, *retry_after_ms);
                push_str(&mut r, "ms");
                r
            },
            EmbeddingError::ModelUnavailable(m) => {
                let mut r = to_string("model not available: ");
                push_str(&mut r, m.as_str());
                r
            },
        }
    }
}

/// The dimension of a Cohere embedding model: the light models give 384,
/// every other model 1024.
pub open spec fn cohere_model_dimensions(model: Seq<char>) -> usize {
    if model == "embed-english-light-v3.0"@ || model == "embed-multilingual-light-v3.0"@ {
        384
    } else {
        1024
    }
}

/// The model a Cohere embedding provider uses when none is named.
pub open spec fn cohere_default_model() -> Seq<char> {
    "embed-multilingual-v3.0"@
}

/// The model and dimension a Cohere embedding provider is set up with.
pub fn cohere_model_setup(model: Option<String>) -> (r: (String, usize))
    ensures
        r.0@ == match model {
            Some(m) => m@,
            None => cohere_default_model(),
        },
        r.1 == cohere_model_dimensions(r.0@),
{
    let model = match model {
        Some(m) => m,
        None => to_string("embed-multilingual-v3.0"),
    };
    let dims: usize = if crate::text::str_eq(model.as_str(), "embed-english-light-v3.0")
        || crate::text::str_eq(model.as_str(), "embed-multilingual-light-v3.0") {
        384
    } else {
        1024
    };
    (model, dims)
}

/// Check that every returned embedding has the expected dimension; the
/// first one that does not is reported with its length.
pub fn check_dimensions(lengths: &Vec<usize>, expected: usize) -> (r: Result<(), EmbeddingError>)
    ensures
        r is Ok <==> forall|i: int| 0 <= i < lengths@.len() ==> lengths@[i] == expected,
        r matches Err(e) ==> e matches EmbeddingError::DimensionMismatch { expected: x, actual: a }
            && x == expected && exists|i: int|
            0 <= i < lengths@.len() && lengths@[i] == a && a != expected && forall|j: int|
                0 <= j < i ==> lengths@[j] == expected,
{
    let mut i: usize = 0;
    while i < lengths.len()
        invariant
            i <= lengths@.len(),
            forall|j: int| 0 <= j < i ==> lengths@[j] == expected,
        decreases lengths@.len() - i,
    {
        if lengths[i] != expected {
            return Err(EmbeddingError::DimensionMismatch { expected, actual: lengths[i] });
        }
        i += 1;
    }
    Ok(())
}

} // verus!
