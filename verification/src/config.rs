//! Configuration values shared with the surrounding program: the
//! command-line shape, the default model per provider, and the thin
//! completion-client state.

use vstd::prelude::*;

use crate::textutil::str_eq;

verus! {

/// Command-line options.
#[derive(Debug)]
pub struct Cli {
    /// Start interactive mode (REPL).
    pub interactive: bool,
    /// Query prompt (required if not in interactive mode).
    pub prompt: Option<String>,
}

/// Get the default model name for a given provider; anything unknown falls
/// back to the local provider's default.
pub fn default_model(provider: &str) -> (r: &'static str)
    ensures
        provider@ == "gemini"@ ==> r@ == "gemini-2.5-flash"@,
        provider@ == "openai"@ ==> r@ == "gpt-4.1-mini"@,
        provider@ != "gemini"@ && provider@ != "openai"@ ==> r@ == "qwen3"@,
{
    proof {
        reveal_strlit("gemini");
        reveal_strlit("openai");
        assert("gemini"@[0] == 'g');
        assert("openai"@[0] == 'o');
        assert("gemini"@ != "openai"@);
    }
    if str_eq(provider, "gemini") {
        "gemini-2.5-flash"
    } else if str_eq(provider, "openai") {
        "gpt-4.1-mini"
    } else {
        "qwen3"
    }
}

/// State of a one-shot completion client: the model it completes with.
/// Issuing the completion call is the provider integration's work, outside
/// the library.
#[derive(Debug)]
pub struct RigClient {
    model: String,
}

impl RigClient {
    /// The model this client completes with.
    pub closed spec fn model_view(&self) -> Seq<char> {
        self.model@
    }

    /// A client for the given model.
    pub fn new(model: &str) -> (r: Self)
        ensures
            r.model_view() == model@,
    {
        Self { model: model.to_owned() }
    }

    /// The model name, for the layer that issues the completion call.
    pub fn model_name(&self) -> (r: &String)
        ensures
            r@ == self.model_view(),
    {
        &self.model
    }
}

} // verus!
