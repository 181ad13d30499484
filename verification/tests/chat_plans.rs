use local_companion::chat::{
    emotion_from_lowered, emotion_request, extract_ollama_text, model_names, normalize_emotion_reply,
    normalize_ollama_endpoint, ollama_reply, ollama_retry_step, ollama_tags_url,
    ollama_unreachable_reply, ollama_unreadable_reply, plan_groq_chat, plan_ollama_chat,
    plan_openrouter_chat, GroqChatRequest, OllamaApiMessage, OllamaChatRequest,
    OpenRouterChatRequest,
};
use local_companion::settings::AppSettings;

fn settings() -> AppSettings {
    AppSettings::default_with_install_dir("Vision".to_string())
}

fn msg(role: &str, content: &str) -> OllamaApiMessage {
    OllamaApiMessage { role: role.to_string(), content: content.to_string() }
}

#[test]
fn ollama_plan_uses_history_first() {
    let mut s = settings();
    s.ollama_model = "mistral".to_string();
    let req = OllamaChatRequest {
        message: Some("ignored".to_string()),
        messages: Some(vec![msg("system", "be nice"), msg("user", "hi")]),
        model: None,
    };
    let plan = match plan_ollama_chat(req, &s) {
        Ok(p) => p,
        Err(_) => panic!("no plan"),
    };
    assert_eq!(plan.url, "http://127.0.0.1:11434/api/chat");
    assert_eq!(plan.request.model, "mistral");
    assert!(!plan.request.stream);
    assert_eq!(plan.request.messages.len(), 2);
    assert_eq!(plan.request.messages[1].content, "hi");
}

#[test]
fn ollama_plan_single_message_and_model() {
    let mut s = settings();
    s.ollama_endpoint = "  http://gpu:11434 ".to_string();
    let req = OllamaChatRequest {
        message: Some("hello".to_string()),
        messages: None,
        model: Some("llama3".to_string()),
    };
    let plan = match plan_ollama_chat(req, &s) {
        Ok(p) => p,
        Err(_) => panic!("no plan"),
    };
    assert_eq!(plan.url, "http://gpu:11434/api/chat");
    assert_eq!(plan.request.model, "llama3");
    assert_eq!(plan.request.messages.len(), 1);
    assert_eq!(plan.request.messages[0].role, "user");
    assert_eq!(plan.request.messages[0].content, "hello");
}

#[test]
fn ollama_plan_without_message() {
    let req = OllamaChatRequest { message: None, messages: None, model: None };
    match plan_ollama_chat(req, &settings()) {
        Err(r) => {
            assert_eq!(r.text, "No message provided");
            assert_eq!(r.emotion, "neutral");
        },
        Ok(_) => panic!("planned"),
    }
}

#[test]
fn ollama_reply_native_format() {
    let r = ollama_reply("{\"message\":{\"role\":\"assistant\",\"content\":\"Hi!\\n(feeling: happy)\"}}");
    assert_eq!(r.text, "Hi!");
    assert_eq!(r.emotion, "happy");
}

#[test]
fn ollama_reply_openai_format_and_missing() {
    let r = ollama_reply("{\"choices\":[{\"message\":{\"content\":\"{\\\"text\\\":\\\"ok\\\",\\\"emotion\\\":\\\"relaxed\\\"}\"}}]}");
    assert_eq!(r.text, "ok");
    assert_eq!(r.emotion, "relaxed");
    let r = ollama_reply("{\"done\":true}");
    assert_eq!(r.text, "No response");
    assert_eq!(r.emotion, "neutral");
    assert_eq!(extract_ollama_text("{\"message\":{\"content\":3}}"), "No response");
    assert_eq!(extract_ollama_text("{\"choices\":[]}"), "No response");
}

#[test]
fn ollama_reply_parse_error() {
    let r = ollama_reply("not json");
    assert!(r.text.starts_with("Error parsing response: "));
    assert_eq!(r.emotion, "neutral");
}

#[test]
fn ollama_retries_twice() {
    assert_eq!(ollama_retry_step(0), Some(1));
    assert_eq!(ollama_retry_step(1), Some(2));
    assert_eq!(ollama_retry_step(2), None);
    let r = ollama_unreachable_reply("refused");
    assert_eq!(r.text, "Error connecting to Ollama: refused");
    assert_eq!(r.emotion, "neutral");
    assert_eq!(ollama_unreadable_reply("eof").text, "Failed to read response: eof");
}

#[test]
fn groq_plan_errors() {
    let mut s = settings();
    let req = GroqChatRequest { messages: vec![], model: Some("m".to_string()) };
    assert_eq!(plan_groq_chat(req, &s, None).err(), Some("Groq API key is missing".to_string()));
    s.groq_api_key = " key ".to_string();
    let req = GroqChatRequest { messages: vec![], model: None };
    assert_eq!(plan_groq_chat(req, &s, None).err(), Some("Groq model is missing".to_string()));
}

#[test]
fn groq_plan_appends_summary() {
    let mut s = settings();
    s.groq_api_key = " key ".to_string();
    s.groq_model = " llama-3 ".to_string();
    let req = GroqChatRequest { messages: vec![msg("user", "hi")], model: None };
    let call = match plan_groq_chat(req, &s, Some("a terminal".to_string())) {
        Ok(c) => c,
        Err(e) => panic!("{}", e),
    };
    assert_eq!(call.api_key, "key");
    assert_eq!(call.model, "llama-3");
    assert_eq!(call.url, "https://api.groq.com/openai/v1/chat/completions");
    assert_eq!(call.messages.len(), 2);
    assert_eq!(call.messages[1].role, "system");
    assert_eq!(call.messages[1].content, "Screen summary: a terminal");
}

#[test]
fn openrouter_plan() {
    let mut s = settings();
    let req = OpenRouterChatRequest { messages: vec![], model: None };
    assert_eq!(
        plan_openrouter_chat(req, &s).err(),
        Some("OpenRouter API key is missing".to_string())
    );
    s.openrouter_api_key = " sk ".to_string();
    let req = OpenRouterChatRequest { messages: vec![], model: Some("  ".to_string()) };
    assert_eq!(
        plan_openrouter_chat(req, &s).err(),
        Some("OpenRouter model/provider is missing".to_string())
    );
    s.openrouter_provider = "mistralai/mixtral".to_string();
    let req = OpenRouterChatRequest { messages: vec![msg("user", "x")], model: None };
    let call = match plan_openrouter_chat(req, &s) {
        Ok(c) => c,
        Err(e) => panic!("{}", e),
    };
    assert_eq!(call.api_key, " sk ");
    assert_eq!(call.model, "mistralai/mixtral");
    assert_eq!(call.messages.len(), 1);
}

#[test]
fn endpoint_normalization() {
    assert_eq!(normalize_ollama_endpoint("http://localhost:11434/"), "http://localhost:11434");
    assert_eq!(normalize_ollama_endpoint("http://x/v1/"), "http://x");
    assert_eq!(normalize_ollama_endpoint("http://x/v1/v1"), "http://x");
    assert_eq!(normalize_ollama_endpoint("http://x//v1"), "http://x/");
    assert_eq!(normalize_ollama_endpoint("http://x/v12"), "http://x/v12");
    assert_eq!(ollama_tags_url("http://h:11434/v1"), "http://h:11434/api/tags");
}

#[test]
fn normalized_endpoint_never_ends_with_v1() {
    for e in ["a/v1", "a/v1//", "/v1/v1/", "v1", "/v1", "x//v1"] {
        assert!(!normalize_ollama_endpoint(e).ends_with("/v1"));
    }
}

#[test]
fn model_names_from_tags() {
    let body = "{\"models\":[{\"name\":\"a:latest\"},{\"x\":1},{\"name\":\"b\"}]}";
    assert_eq!(model_names(body), Ok(vec!["a:latest".to_string(), "b".to_string()]));
    assert_eq!(model_names("{\"foo\":1}"), Err("No models field in response".to_string()));
    assert_eq!(model_names("{\"models\":{}}"), Err("No models field in response".to_string()));
    assert_eq!(model_names("{\"models\":[]}"), Ok(vec![]));
}

#[test]
fn emotion_reply_normalized() {
    assert_eq!(normalize_emotion_reply(" Happy\n"), "happy");
    assert_eq!(normalize_emotion_reply("SURPRISED"), "surprised");
    assert_eq!(normalize_emotion_reply("excited"), "neutral");
    assert_eq!(normalize_emotion_reply(""), "neutral");
}

#[test]
fn emotion_request_prompt() {
    let (url, req) = emotion_request("I won!", "http://h", "m");
    assert_eq!(url, "http://h/chat/completions");
    assert_eq!(req.model, "m");
    assert!(!req.stream);
    assert_eq!(req.messages.len(), 1);
    assert_eq!(req.messages[0].role, "user");
    assert_eq!(
        req.messages[0].content,
        "Analyze the emotion in this text and respond with ONLY one word from this list: happy, sad, angry, neutral, surprised, relaxed. Text: \"I won!\""
    );
}

#[test]
fn emotion_word_given_lower_case() {
    assert_eq!(emotion_from_lowered("relaxed".to_string()), "relaxed");
    assert_eq!(emotion_from_lowered("angry".to_string()), "angry");
    assert_eq!(emotion_from_lowered("Happy".to_string()), "neutral");
    assert_eq!(emotion_from_lowered(" sad".to_string()), "neutral");
}
