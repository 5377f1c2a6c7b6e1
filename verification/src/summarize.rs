use vstd::prelude::*;
use vstd::string::StringExecFns;

verus! {

/// The fixed system instruction that establishes concise-summarization
/// behavior.
pub open spec fn spec_system_instruction() -> Seq<char> {
    "You are a helpful assistant that summarizes text concisely."@
}

/// The system message of the two-message conversation sent for
/// summarization.
pub fn system_instruction() -> (text: String)
    ensures
        text@ == spec_system_instruction(),
{
    "You are a helpful assistant that summarizes text concisely.".to_owned()
}

/// The fixed prefix of the user message.
pub open spec fn spec_prompt_prefix() -> Seq<char> {
    "Please summarize the following text:\n\n"@
}

/// The user message for a given transcript: the fixed prefix followed by the
/// transcript verbatim.
pub open spec fn spec_summary_prompt(transcript: Seq<char>) -> Seq<char> {
    spec_prompt_prefix() + transcript
}

/// Builds the user message of the summarization conversation: the fixed
/// prefix with the transcript embedded verbatim, unmodified.
pub fn summary_prompt(transcript: &str) -> (prompt: String)
    ensures
        prompt@ == spec_summary_prompt(transcript@),
{
    let mut prompt = "Please summarize the following text:\n\n".to_owned();
    prompt.append(transcript);
    prompt
}

/// The fixed model name every summarization request carries.
pub fn summarization_model() -> (model: String)
    ensures
        model@ == "gpt-3.5-turbo"@,
{
    "gpt-3.5-turbo".to_owned()
}

/// The summary text a completion content yields: the content itself, or the
/// empty text when the upstream response carried none.
pub open spec fn content_text(content: Option<String>) -> Seq<char> {
    match content {
        Some(text) => text@,
        None => Seq::<char>::empty(),
    }
}

/// Extracts the summary from the first completion choice's content. An
/// absent content degrades to the empty string; it is not an error, since
/// the upstream call itself succeeded.
pub fn extract_summary(content: Option<String>) -> (summary: String)
    ensures
        summary@ == content_text(content),
{
    match content {
        Some(text) => text,
        None => String::new(),
    }
}

} // verus!
