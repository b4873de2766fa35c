//! The `ai` commands: the prompt that is sent, the providers, and the answer shown.
use vstd::prelude::*;
use vstd::string::*;
use crate::common::error::{string_error, BiError, BiErrorView};
use crate::text::{trim, trimmed};

verus! {

/// Commands of the AI helper.
pub enum AiCommands {
    /// Ask the AI helper for help in writing a command.
    Ask(Ask),
}

/// `ai ask`: the question or command to get help with.
pub struct Ask {
    pub input: String,
}

/// The AI providers that can answer.
#[derive(Clone, Copy, Debug, PartialEq, Eq, Structural)]
pub enum AiProvider {
    Openai,
    Anthropic,
}

/// What the prompt tells of the operator's environment: the operating system, the shell,
/// the terminal, how the tool was invoked, and the tool's documentation in Markdown.
pub struct PromptContext {
    pub os: String,
    pub shell: String,
    pub term: String,
    pub invocation_name: String,
    pub tool_summary: String,
}

/// The prompt for the request `input` (trimmed) in the environment `c`.
pub open spec fn prompt_text(c: PromptContext, input: Seq<char>) -> Seq<char> {
    "You are an assistant that generates shell commands using the 'bi' CLI tool based on the user's request.\n\n    User's Environment:\n    - OS: "@
        + c.os@ + "\n    - Shell: "@ + c.shell@ + "\n    - Terminal: "@ + c.term@
        + "\n    - Program Invocation: "@ + c.invocation_name@
        + "\n\n    'bi' CLI Tool Summary:\n    "@ + c.tool_summary@
        + "\n\n    User's request:\n    "@ + trimmed(input)
        + "\n\n    Provide the shell command only as a one liner, using '"@ + c.invocation_name@
        + "' as the program invocation, without any additional explanation. Just text, no code snippet back ticks."@
}

/// The prompt sent for the request `input` in the environment `context`.
pub fn prompt(context: &PromptContext, input: &str) -> (r: String)
    ensures
        r@ == prompt_text(*context, input@),
{
    let mut p = String::from_str(
        "You are an assistant that generates shell commands using the 'bi' CLI tool based on the user's request.\n\n    User's Environment:\n    - OS: ",
    );
    p.append(context.os.as_str());
    p.append("\n    - Shell: ");
    p.append(context.shell.as_str());
    p.append("\n    - Terminal: ");
    p.append(context.term.as_str());
    p.append("\n    - Program Invocation: ");
    p.append(context.invocation_name.as_str());
    p.append("\n\n    'bi' CLI Tool Summary:\n    ");
    p.append(context.tool_summary.as_str());
    p.append("\n\n    User's request:\n    ");
    let request = trim(input);
    p.append(request.as_str());
    p.append("\n\n    Provide the shell command only as a one liner, using '");
    p.append(context.invocation_name.as_str());
    p.append(
        "' as the program invocation, without any additional explanation. Just text, no code snippet back ticks.",
    );
    p
}

/// The provider's endpoint.
pub fn provider_url(provider: AiProvider) -> (r: String)
    ensures
        provider == AiProvider::Openai ==> r@ == "https://api.openai.com/v1/chat/completions"@,
        provider == AiProvider::Anthropic ==> r@ == "https://api.anthropic.com/v1/messages"@,
{
    match provider {
        AiProvider::Openai => String::from_str("https://api.openai.com/v1/chat/completions"),
        AiProvider::Anthropic => String::from_str("https://api.anthropic.com/v1/messages"),
    }
}

/// The error where the provider has no API key configured.
pub fn missing_api_key(provider: AiProvider) -> (r: BiError)
    ensures
        provider == AiProvider::Openai ==> r@ == BiErrorView::StringError(
            "No api_key set for Openai"@,
        ),
        provider == AiProvider::Anthropic ==> r@ == BiErrorView::StringError(
            "No api_key set for Anthropic"@,
        ),
{
    match provider {
        AiProvider::Openai => string_error("No api_key set for Openai"),
        AiProvider::Anthropic => string_error("No api_key set for Anthropic"),
    }
}

/// The error where no provider is configured.
pub fn no_default_provider() -> (r: BiError)
    ensures
        r@ == BiErrorView::StringError("No default AI provider set"@),
{
    string_error("No default AI provider set")
}

/// What is shown of a provider's answer: the body itself where the status is not a
/// success; otherwise the generated text, or `No response` where the answer holds none.
pub fn answer_shown(status: u16, body: String, generated: Option<String>) -> (r: String)
    ensures
        !(200 <= status < 300) ==> r == body,
        200 <= status < 300 ==> match generated {
            Some(g) => r == g,
            None => r@ == "No response"@,
        },
{
    if !(200 <= status && status < 300) {
        return body;
    }
    match generated {
        Some(g) => g,
        None => String::from_str("No response"),
    }
}

} // verus!
