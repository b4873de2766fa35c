use bi_cli::ai::command::{
    answer_shown, missing_api_key, no_default_provider, prompt, provider_url, AiProvider,
    PromptContext,
};
use bi_cli::beyond_identity::api::common::filter::Filter as ScimFilter;
use bi_cli::beyond_identity::api::identities::types::IdentityFilterField;
use bi_cli::beyond_identity::api::utils::filter::{Filter, FilterOperation};
use bi_cli::common::error::BiError;

fn context() -> PromptContext {
    PromptContext {
        os: "linux".to_string(),
        shell: "/bin/zsh".to_string(),
        term: "xterm".to_string(),
        invocation_name: "bi".to_string(),
        tool_summary: "# bi".to_string(),
    }
}

#[test]
fn prompt_describes_environment_and_trimmed_request() {
    let p = prompt(&context(), "  list identities \n");
    assert!(p.starts_with("You are an assistant that generates shell commands using the 'bi' CLI tool based on the user's request.\n\n    User's Environment:\n    - OS: linux\n    - Shell: /bin/zsh\n    - Terminal: xterm\n    - Program Invocation: bi\n"));
    assert!(p.contains("'bi' CLI Tool Summary:\n    # bi\n\n    User's request:\n    list identities\n\n"));
    assert!(p.ends_with("using 'bi' as the program invocation, without any additional explanation. Just text, no code snippet back ticks."));
}

#[test]
fn providers_and_answers() {
    assert_eq!(provider_url(AiProvider::Openai), "https://api.openai.com/v1/chat/completions");
    assert_eq!(provider_url(AiProvider::Anthropic), "https://api.anthropic.com/v1/messages");
    assert_eq!(answer_shown(200, "{}".to_string(), Some("bi identities list".to_string())), "bi identities list");
    assert_eq!(answer_shown(200, "{}".to_string(), None), "No response");
    assert_eq!(answer_shown(401, "denied".to_string(), Some("x".to_string())), "denied");
    assert!(matches!(missing_api_key(AiProvider::Anthropic), BiError::StringError(m) if m == "No api_key set for Anthropic"));
    assert!(matches!(no_default_provider(), BiError::StringError(m) if m == "No default AI provider set"));
}

#[test]
fn identity_filters_are_field_eq_value() {
    let f = Filter::new::<IdentityFilterField>(Some("display_name eq Bob".to_string())).unwrap().unwrap();
    assert_eq!(f.filter, "display_name eq \"Bob\"");
    assert!(Filter::new::<IdentityFilterField>(None).unwrap().is_none());
    assert!(Filter::new::<IdentityFilterField>(Some(" \t".to_string())).unwrap().is_none());
    let msg = |s: &str| match Filter::new::<IdentityFilterField>(Some(s.to_string())) {
        Err(BiError::InvalidFilter(m)) => m,
        other => panic!("unexpected {:?}", other),
    };
    assert_eq!(msg("display_name eq"), "Invalid filter format. Expected format: 'field operation value'");
    assert_eq!(msg("display_name ne Bob"), "Invalid operation: ne");
    assert_eq!(msg("email eq Bob"), "Invalid field: email: VariantNotFound");
    assert!(FilterOperation::parse("eq").is_some());
    assert!(FilterOperation::parse("EQ").is_none());
    assert_eq!(FilterOperation::Eq.name(), "eq");
}

#[test]
fn scim_filters_are_checked_by_the_scim_grammar() {
    let f = ScimFilter::new(Some("userName eq \"bjensen\"".to_string())).unwrap().unwrap();
    assert_eq!(f.0, "userName eq \"bjensen\"");
    assert!(ScimFilter::new(Some("  ".to_string())).unwrap().is_none());
    assert!(matches!(ScimFilter::new(Some("(".to_string())), Err(BiError::InvalidFilter(_))));
}

#[test]
fn scim_filters_too_deep_or_too_long_are_refused() {
    let scim_msg = |s: String| match ScimFilter::new(Some(s)) {
        Err(BiError::InvalidFilter(m)) => m,
        other => panic!("unexpected {:?}", other),
    };
    let nested = |n: usize| format!("{}userName pr{}", "(".repeat(n), ")".repeat(n));
    assert!(ScimFilter::new(Some(nested(12))).unwrap().is_some());
    assert_eq!(scim_msg(nested(13)), "filter nests parentheses or brackets more than 12 deep");
    assert_eq!(scim_msg(format!("{}x", "(".repeat(40))), "filter nests parentheses or brackets more than 12 deep");
    let quoted = format!("userName eq \"{}\"", "(".repeat(20));
    assert!(ScimFilter::new(Some(quoted)).unwrap().is_some());
    let closed = format!("{}userName pr", "()".repeat(20));
    assert!(matches!(ScimFilter::new(Some(closed)), Err(BiError::InvalidFilter(m)) if !m.contains("deep")));
    let long = format!("userName eq \"{}\"", "a".repeat(1020));
    assert_eq!(scim_msg(long), "filter is longer than 1024 characters");
    let fits = format!("userName eq \"{}\"", "a".repeat(1010));
    assert!(ScimFilter::new(Some(fits)).unwrap().is_some());
}
