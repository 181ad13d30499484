use local_companion::capture::{
    capture_prompt, capture_reply_content, first_choice_content, plan_capture, plan_capture_lowered,
    resolve_capture_config, CaptureConfig, CaptureRoute,
};
use local_companion::settings::{
    default_custom_vrm_name, default_custom_vrm_path, default_groq_api_key, default_groq_model,
    default_openrouter_api_key, default_openrouter_provider, default_stt_api_key,
    default_stt_autostart, default_stt_port, default_stt_provider, default_system_prompt,
    default_tts_api_key, default_tts_engine, default_tts_language, default_tts_voice_id,
    default_use_vision_model, default_vision_api_key, default_vision_api_type,
    default_vision_autostart, default_vision_model, default_vision_port, default_vision_width,
    resolve_vision_service_config, AppSettings,
};

fn settings() -> AppSettings {
    AppSettings::default_with_install_dir("C:\\Vision".to_string())
}

#[test]
fn default_values() {
    assert_eq!(default_tts_engine(), "xtts_v2");
    assert_eq!(default_tts_language(), "tr");
    assert_eq!(default_stt_provider(), "deepgram");
    assert_eq!(default_vision_port(), 8777);
    assert_eq!(default_vision_width(), 960);
    assert_eq!(default_stt_port(), 5001);
    assert!(default_vision_autostart());
    assert!(default_use_vision_model());
    assert!(default_stt_autostart());
    for s in [
        default_openrouter_api_key(),
        default_openrouter_provider(),
        default_system_prompt(),
        default_tts_api_key(),
        default_tts_voice_id(),
        default_custom_vrm_name(),
        default_custom_vrm_path(),
        default_groq_api_key(),
        default_groq_model(),
        default_vision_api_type(),
        default_vision_model(),
        default_vision_api_key(),
        default_stt_api_key(),
    ] {
        assert_eq!(s, "");
    }
}

#[test]
fn default_settings_record() {
    let s = settings();
    assert_eq!(s.api_type, "ollama");
    assert_eq!(s.ollama_endpoint, "");
    assert_eq!(s.tts_engine, "xtts_v2");
    assert_eq!(s.vision_install_dir, "C:\\Vision");
    assert_eq!(s.vision_port, 8777);
    assert_eq!(s.stt_port, 5001);
    assert!(s.stt_autostart && s.vision_autostart && s.use_vision_model);
}

#[test]
fn vision_service_config_uses_chat_provider_fallbacks() {
    let mut s = settings();
    s.api_type = " groq ".to_string();
    s.groq_model = " llama ".to_string();
    s.groq_api_key = " gk ".to_string();
    let c = resolve_vision_service_config(&s);
    assert_eq!(c.provider, "groq");
    assert_eq!(c.model, "llama");
    assert_eq!(c.api_key, "gk");
    assert_eq!(c.ollama_endpoint, "http://127.0.0.1:11434");
    assert_eq!(c.openclaw_endpoint, "http://127.0.0.1:18789");
}

#[test]
fn vision_service_config_overrides_win() {
    let mut s = settings();
    s.api_type = "groq".to_string();
    s.vision_api_type = " openai ".to_string();
    s.vision_model = " gpt-4o ".to_string();
    s.openrouter_api_key = "ork".to_string();
    s.ollama_endpoint = " http://box:11434 ".to_string();
    let c = resolve_vision_service_config(&s);
    assert_eq!(c.provider, "openai");
    assert_eq!(c.model, "gpt-4o");
    assert_eq!(c.api_key, "ork");
    assert_eq!(c.ollama_endpoint, "http://box:11434");
}

#[test]
fn vision_service_config_unknown_provider() {
    let mut s = settings();
    s.api_type = "openclaw".to_string();
    s.ollama_model = "llava".to_string();
    let c = resolve_vision_service_config(&s);
    assert_eq!(c.model, "llava");
    assert_eq!(c.api_key, "");
}

#[test]
fn capture_prompt_default_and_given() {
    assert!(capture_prompt(None).starts_with("You see a screenshot."));
    assert_eq!(capture_prompt(Some("What is this?".to_string())), "What is this?");
}

#[test]
fn capture_config_falls_back_to_openrouter() {
    let mut s = settings();
    s.api_type = "openrouter".to_string();
    s.openrouter_provider = " model-x ".to_string();
    s.openrouter_api_key = " key ".to_string();
    let c = resolve_capture_config(&s);
    assert_eq!(c.provider, "openrouter");
    assert_eq!(c.model, "model-x");
    assert_eq!(c.api_key, "key");
}

fn cfg(provider: &str, key: &str) -> CaptureConfig {
    CaptureConfig {
        provider: provider.to_string(),
        model: "m".to_string(),
        api_key: key.to_string(),
        ollama_endpoint: "http://h:1//".to_string(),
        openclaw_endpoint: "http://claw:2/v1/chat".to_string(),
    }
}

#[test]
fn capture_unsupported_provider() {
    match plan_capture(&cfg("Foo", "k")) {
        Err(e) => assert_eq!(e, "Unsupported provider: Foo"),
        Ok(_) => panic!("accepted"),
    }
}

#[test]
fn capture_missing_key() {
    match plan_capture(&cfg("OpenRouter", "")) {
        Err(e) => assert_eq!(e, "Vision API key missing"),
        Ok(_) => panic!("accepted"),
    }
}

#[test]
fn capture_routes() {
    match plan_capture(&cfg("ollama", "")) {
        Ok(CaptureRoute::OllamaChat { url }) => assert_eq!(url, "http://h:1/api/chat"),
        _ => panic!("wrong route"),
    }
    match plan_capture(&cfg("OpenClaw", "")) {
        Ok(CaptureRoute::ChatCompletions { url, bearer }) => {
            assert_eq!(url, "http://claw:2/v1/chat");
            assert_eq!(bearer, None);
        },
        _ => panic!("wrong route"),
    }
    match plan_capture(&cfg("GROQ", "k")) {
        Ok(CaptureRoute::ChatCompletions { url, bearer }) => {
            assert_eq!(url, "https://api.groq.com/openai/v1/chat/completions");
            assert_eq!(bearer, Some("Bearer k".to_string()));
        },
        _ => panic!("wrong route"),
    }
    match plan_capture(&cfg("openai", "sk")) {
        Ok(CaptureRoute::ChatCompletions { url, bearer }) => {
            assert_eq!(url, "https://api.openai.com/v1/chat/completions");
            assert_eq!(bearer, Some("Bearer sk".to_string()));
        },
        _ => panic!("wrong route"),
    }
}

#[test]
fn capture_reply_content_forms() {
    assert_eq!(
        capture_reply_content("{\"choices\":[{\"message\":{\"content\":\"A screen\"}}]}"),
        Ok("A screen".to_string())
    );
    assert_eq!(
        capture_reply_content(
            "{\"choices\":[{\"message\":{\"content\":[{\"type\":\"text\",\"text\":\"one\"},{\"type\":\"image\"},{\"text\":\"two\"}]}}]}"
        ),
        Ok("one two".to_string())
    );
    assert_eq!(capture_reply_content("{\"choices\":[]}"), Ok(String::new()));
    assert_eq!(capture_reply_content("{\"choices\":[{\"message\":{\"content\":7}}]}"), Ok(String::new()));
    match capture_reply_content("<html>") {
        Err(e) => assert!(e.starts_with("Parse failed: ")),
        Ok(s) => panic!("parsed {}", s),
    }
}

#[test]
fn first_choice_content_string_only() {
    assert_eq!(
        first_choice_content("{\"choices\":[{\"message\":{\"content\":\"x\"}}]}"),
        Some("x".to_string())
    );
    assert_eq!(first_choice_content("{\"choices\":[{\"message\":{\"content\":[1]}}]}"), None);
    assert_eq!(first_choice_content("{}"), None);
}

#[test]
fn capture_plan_given_lower_case() {
    match plan_capture_lowered(&cfg("Foo", "k"), "groq") {
        Ok(CaptureRoute::ChatCompletions { url, bearer }) => {
            assert_eq!(url, "https://api.groq.com/openai/v1/chat/completions");
            assert_eq!(bearer, Some("Bearer k".to_string()));
        },
        _ => panic!("wrong route"),
    }
    match plan_capture_lowered(&cfg("OLLAMA", ""), "OLLAMA") {
        Err(e) => assert_eq!(e, "Unsupported provider: OLLAMA"),
        Ok(_) => panic!("accepted"),
    }
    match plan_capture_lowered(&cfg("x", ""), "openai") {
        Err(e) => assert_eq!(e, "Vision API key missing"),
        Ok(_) => panic!("accepted"),
    }
    match plan_capture_lowered(&cfg("x", ""), "ollama") {
        Ok(CaptureRoute::OllamaChat { url }) => assert_eq!(url, "http://h:1/api/chat"),
        _ => panic!("wrong route"),
    }
    match plan_capture_lowered(&cfg("x", "sk"), "openclaw") {
        Ok(CaptureRoute::ChatCompletions { url, bearer }) => {
            assert_eq!(url, "http://claw:2/v1/chat");
            assert_eq!(bearer, Some("Bearer sk".to_string()));
        },
        _ => panic!("wrong route"),
    }
    match plan_capture_lowered(&cfg("x", "sk"), "openrouter") {
        Ok(CaptureRoute::ChatCompletions { url, .. }) => {
            assert_eq!(url, "https://openrouter.ai/api/v1/chat/completions");
        },
        _ => panic!("wrong route"),
    }
}
