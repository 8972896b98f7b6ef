//! Settings for reaching a model, built once from the values the caller
//! read from the environment.
use vstd::prelude::*;
use vstd::string::*;
use crate::text::{chars_of, contains, contains_exec, starts_with, starts_with_exec};
use crate::tools::opt_view;

verus! {

pub struct Config {
    pub provider: String,
    pub model: String,
    pub gemini_api_key: Option<String>,
    pub groq_api_key: Option<String>,
    pub ollama_url: Option<String>,
}

pub open spec fn or_default(o: Option<String>, d: Seq<char>) -> Seq<char> {
    match o {
        Some(s) => s@,
        None => d,
    }
}

/// The provider that serves a model: Gemini for `gemini…`, Groq for
/// `compound…`, `meta-llama…` and `llama-…`, Ollama for anything else.
pub open spec fn provider_of(model: Seq<char>) -> Seq<char> {
    if starts_with(model, "gemini"@) {
        "gemini"@
    } else if starts_with(model, "compound"@) || starts_with(model, "meta-llama"@) || starts_with(
        model,
        "llama-"@,
    ) {
        "groq"@
    } else {
        "ollama"@
    }
}

/// The provider that serves the model.
pub fn provider_for_model(model: &str) -> (r: String)
    ensures
        r@ == provider_of(model@),
{
    let m = chars_of(model);
    if starts_with_exec(m.as_slice(), chars_of("gemini").as_slice()) {
        String::from_str("gemini")
    } else if starts_with_exec(m.as_slice(), chars_of("compound").as_slice())
        || starts_with_exec(m.as_slice(), chars_of("meta-llama").as_slice())
        || starts_with_exec(m.as_slice(), chars_of("llama-").as_slice()) {
        String::from_str("groq")
    } else {
        String::from_str("ollama")
    }
}

impl Config {
    /// Settings from the values found, with defaults for those missing:
    /// provider `gemini`, model `gemini-3-flash-preview`, and a local Ollama.
    pub fn from_values(
        provider: Option<String>,
        model: Option<String>,
        gemini_api_key: Option<String>,
        groq_api_key: Option<String>,
        ollama_url: Option<String>,
    ) -> (r: Config)
        ensures
            r.provider@ == or_default(provider, "gemini"@),
            r.model@ == or_default(model, "gemini-3-flash-preview"@),
            opt_view(r.gemini_api_key) == opt_view(gemini_api_key),
            opt_view(r.groq_api_key) == opt_view(groq_api_key),
            opt_view(r.ollama_url) == Some(or_default(ollama_url, "http://localhost:11434"@)),
    {
        let provider = match provider {
            Some(p) => p,
            None => String::from_str("gemini"),
        };
        let model = match model {
            Some(m) => m,
            None => String::from_str("gemini-3-flash-preview"),
        };
        let ollama_url = match ollama_url {
            Some(u) => Some(u),
            None => Some(String::from_str("http://localhost:11434")),
        };
        Config { provider, model, gemini_api_key, groq_api_key, ollama_url }
    }

    /// Switches to the model, and to the provider that serves it.
    pub fn set_model(&mut self, model: &str)
        ensures
            final(self).model@ == model@,
            final(self).provider@ == provider_of(model@),
            opt_view(final(self).gemini_api_key) == opt_view(old(self).gemini_api_key),
            opt_view(final(self).groq_api_key) == opt_view(old(self).groq_api_key),
            opt_view(final(self).ollama_url) == opt_view(old(self).ollama_url),
    {
        self.model = String::from_str(model);
        self.provider = provider_for_model(model);
    }
}

/// The Unicode lower case of the text, as `str::to_lowercase` gives it.
pub uninterp spec fn lower_of(s: Seq<char>) -> Seq<char>;

/// Relies on `str::to_lowercase`: Unicode lower case of the text.
#[verifier::external_body]
fn to_lower(s: &str) -> (r: String)
    ensures
        r@ == lower_of(s@),
{
    s.to_lowercase()
}

pub open spec fn context_words() -> Seq<Seq<char>> {
    seq![
        "summarize"@,
        "explain"@,
        "understand"@,
        "what is this"@,
        "what does"@,
        "describe"@,
        "about this"@,
    ]
}

/// Whether the request asks about the project itself, so that the
/// repository's context should go with it.
pub fn needs_repo_context(prompt: &str) -> (r: bool)
    ensures
        r == exists|i: int| 0 <= i < context_words().len() && contains(lower_of(prompt@), #[trigger] context_words()[i]),
{
    let low = to_lower(prompt);
    let l = chars_of(low.as_str());
    let words = ["summarize", "explain", "understand", "what is this", "what does", "describe", "about this"];
    assert(words@.map_values(|w: &str| w@) =~= context_words());
    let mut i: usize = 0;
    while i < 7
        invariant
            i <= 7,
            l@ == lower_of(prompt@),
            words@.map_values(|w: &str| w@) == context_words(),
            words@.len() == 7,
            forall|k: int| 0 <= k < i ==> !contains(l@, #[trigger] context_words()[k]),
        decreases 7 - i,
    {
        let w = chars_of(words[i]);
        assert(context_words()[i as int] == words@[i as int]@);
        if contains_exec(l.as_slice(), w.as_slice()) {
            return true;
        }
        i = i + 1;
    }
    false
}

} // verus!
