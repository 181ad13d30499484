use local_companion::capture::{plan_capture, resolve_capture_config, CaptureConfig};
use local_companion::encoding::decimal;
use local_companion::reply::{clean_ollama_response, extract_feeling};
use local_companion::settings::{resolve_vision_service_config, AppSettings};

#[test]
fn fallback_text_empty_only_for_empty_reply() {
    assert_eq!(clean_ollama_response("```\n\n```").0, "");
    for raw in ["(feeling: happy)", "a", "\n\nb\n", "```js\nx\n```"] {
        assert!(!clean_ollama_response(raw).0.is_empty());
    }
}

#[test]
fn fallback_kept_lines_are_clean() {
    let (text, _) = clean_ollama_response("  one  \n(feeling: ok)\n\t two\t\n");
    for line in text.split("\n\n") {
        assert_eq!(line.trim(), line);
        assert!(!line.is_empty());
        assert_eq!(extract_feeling(line), None);
    }
}

#[test]
fn accepted_capture_has_supported_provider_and_key() {
    for provider in ["openrouter", "OpenAI", "groq", "openclaw", "ollama", "other", ""] {
        for key in ["", "k"] {
            let cfg = CaptureConfig {
                provider: provider.to_string(),
                model: String::new(),
                api_key: key.to_string(),
                ollama_endpoint: "http://o".to_string(),
                openclaw_endpoint: "http://c".to_string(),
            };
            if plan_capture(&cfg).is_ok() {
                let lc = provider.to_lowercase();
                assert!(["openrouter", "openai", "groq", "openclaw", "ollama"].contains(&lc.as_str()));
                if lc != "openclaw" && lc != "ollama" {
                    assert!(!key.is_empty());
                }
            }
        }
    }
}

#[test]
fn blank_override_never_wins() {
    let mut s = AppSettings::default_with_install_dir("V".to_string());
    s.api_type = "ollama".to_string();
    s.vision_api_type = "   ".to_string();
    s.vision_model = " ".to_string();
    s.ollama_model = "llava".to_string();
    assert_eq!(resolve_vision_service_config(&s).provider, "ollama");
    assert_eq!(resolve_vision_service_config(&s).model, "llava");
    s.vision_api_type = " groq ".to_string();
    assert_eq!(resolve_capture_config(&s).provider, "groq");
}

#[test]
fn endpoints_never_empty() {
    let mut s = AppSettings::default_with_install_dir("V".to_string());
    s.ollama_endpoint = "   ".to_string();
    s.openclaw_endpoint = "\t".to_string();
    let c = resolve_vision_service_config(&s);
    assert!(!c.ollama_endpoint.is_empty());
    assert!(!c.openclaw_endpoint.is_empty());
    let c = resolve_capture_config(&s);
    assert_eq!(c.ollama_endpoint, "http://127.0.0.1:11434");
    assert_eq!(c.openclaw_endpoint, "http://127.0.0.1:18789");
}

#[test]
fn decimals_never_empty() {
    for n in [0u64, 9, 10, 99, 100, 65535] {
        assert!(!decimal(n).is_empty());
        assert_eq!(decimal(n), n.to_string());
    }
}
