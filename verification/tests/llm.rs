use alice_engine::external::llm::{ChatMessage, LlmConfig, Role};

#[test]
fn test_chat_message_constructors() {
    let sys = ChatMessage::system("You are helpful");
    assert_eq!(sys.role, Role::System);
    assert_eq!(sys.content, "You are helpful");

    let user = ChatMessage::user("Hello");
    assert_eq!(user.role, Role::User);

    let asst = ChatMessage::assistant("Hi there");
    assert_eq!(asst.role, Role::Assistant);
}

#[test]
fn test_llm_config() {
    let config = LlmConfig {
        api_key: "test-key".to_string(),
        model: "test-model".to_string(),
        temperature: None,
        max_tokens: None,
    };
    assert_eq!(config.model, "test-model");
    assert_eq!(config.api_key, "test-key");
    assert!(config.temperature.is_none());
    assert!(config.max_tokens.is_none());
}
