//! The generation backend's request settings and the reading of its answer.
use vstd::prelude::*;
use crate::manifest::{is_json, json_parses, json_text, json_text_at};

verus! {

/// Where the local generation backend listens.
pub const GENERATE_ENDPOINT: &'static str = "http://localhost:11434/api/generate";

/// Seconds a generation request may take.
pub const GENERATE_TIMEOUT_SECS: u64 = 45;

/// Model used when no configuration names one.
pub const DEFAULT_MODEL: &'static str = "mistral";

/// User configuration.
#[derive(Debug)]
pub struct Config {
    /// Identifier of the generation model.
    pub model: String,
}

impl Default for Config {
    fn default() -> (r: Config)
        ensures
            r.model@ == DEFAULT_MODEL@,
    {
        Config { model: String::from_str(DEFAULT_MODEL) }
    }
}

/// Why no text came back from the backend.
#[derive(Clone, Copy, Debug, PartialEq, Eq, Structural)]
pub enum GenerationError {
    /// The backend could not be reached.
    Unreachable,
    /// The request took longer than the timeout.
    TimedOut,
    /// The answer was not a JSON document.
    Malformed,
}

/// The raw text of a backend answer: its `response` string, or an empty text
/// when it has none; `Malformed` when the body is not JSON.
pub fn response_text(body: &str) -> (r: Result<String, GenerationError>)
    ensures
        r is Err <==> !json_parses(body@),
        r is Err ==> r == Err::<String, GenerationError>(GenerationError::Malformed),
        r is Ok ==> r->Ok_0@ == match json_text_at(body@, "response"@) {
            Some(t) => t,
            None => Seq::<char>::empty(),
        },
{
    if !is_json(body) {
        return Err(GenerationError::Malformed);
    }
    match json_text(body, "response") {
        Some(t) => Ok(t),
        None => Ok(String::new()),
    }
}

} // verus!
