use forum_persona::llm::extract_chat_content;
use forum_persona::llm::prepare_chat_request;
use forum_persona::llm::LlmError;

#[test]
fn request_needs_a_credential() {
    let r = prepare_chat_request(None, "some-model", "sys", "user");
    assert!(matches!(r, Err(LlmError::MissingApiKey)));
}

#[test]
fn request_carries_everything_the_call_needs() {
    let q = prepare_chat_request(Some("k3y"), "some-model", "sys", "user").unwrap();
    assert_eq!(q.url, "https://api.openai.com/v1/chat/completions");
    assert_eq!(q.authorization, "Bearer k3y");
    assert_eq!(q.model, "some-model");
    assert_eq!(q.system_message, "sys");
    assert_eq!(q.user_message, "user");
}

#[test]
fn content_extraction_mirrors_presence() {
    assert_eq!(extract_chat_content(Some("hello".to_string())).unwrap(), "hello");
    assert!(matches!(extract_chat_content(None), Err(LlmError::MissingContent)));
}

#[test]
fn error_messages_name_the_failure() {
    assert_eq!(LlmError::MissingApiKey.message(), "Missing OpenAI API Key");
    assert_eq!(LlmError::MissingContent.message(), "Missing content in LLM response");
    let e = LlmError::RemoteCallFailed { cause: "timed out".to_string() };
    assert_eq!(e.message(), "Remote call failed: timed out");
}
