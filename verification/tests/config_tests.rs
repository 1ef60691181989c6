use copal::auth::bearer_token_matches;
use copal::config::default_model;
use copal::config::RigClient;

// --- default_model ---

#[test]
fn test_default_model_ollama() {
    assert_eq!(default_model("ollama"), "qwen3");
}

#[test]
fn test_default_model_gemini() {
    assert_eq!(default_model("gemini"), "gemini-2.5-flash");
}

#[test]
fn test_default_model_openai() {
    assert_eq!(default_model("openai"), "gpt-4.1-mini");
}

#[test]
fn test_default_model_unknown_fallback() {
    assert_eq!(default_model("unknown"), "qwen3");
}

// --- bearer token check ---

#[test]
fn test_bearer_accepts_correct_token() {
    assert!(bearer_token_matches(Some("Bearer test-token"), "test-token"));
}

#[test]
fn test_bearer_rejects_missing_header() {
    assert!(!bearer_token_matches(None, "test-token"));
}

#[test]
fn test_bearer_rejects_wrong_token() {
    assert!(!bearer_token_matches(Some("Bearer wrong-token"), "test-token"));
}

#[test]
fn test_bearer_rejects_missing_prefix() {
    assert!(!bearer_token_matches(Some("test-token"), "test-token"));
}

#[test]
fn test_bearer_rejects_token_with_trailing_garbage() {
    assert!(!bearer_token_matches(Some("Bearer test-token-and-more"), "test-token"));
}

// --- completion client ---

#[test]
fn test_rig_client_keeps_model_name() {
    let client = RigClient::new("llama3.2");
    assert_eq!(client.model_name(), "llama3.2");
}
