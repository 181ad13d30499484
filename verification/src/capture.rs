//! Planning a "capture the screen and ask" request, and reading its answer.
use vstd::prelude::*;
use crate::text::{chars_of, slice_string, to_lowercase, trim_end_range, CharClass};
use crate::text;
use crate::json::{field_of, item_of, str_of, items_of};
use crate::json;
use crate::settings::{AppSettings, str_eq, trimmed_or_else};
use crate::settings;
use crate::reply;

verus! {

/// The question asked about a screenshot when the request brings none.
pub open spec fn default_capture_prompt() -> Seq<char> {
    "You see a screenshot. Summarize key UI/game HUD, visible text, current state, and likely goal. Keep under 120 words."@
}

/// The question to ask: the request's own, else the default.
pub fn capture_prompt(question: Option<String>) -> (r: String)
    ensures
        r@ == match question {
            Some(q) => q@,
            None => default_capture_prompt(),
        },
{
    match question {
        Some(q) => q,
        None => String::from_str(
            "You see a screenshot. Summarize key UI/game HUD, visible text, current state, and likely goal. Keep under 120 words.",
        ),
    }
}

/// Provider, model, key and endpoints for a screen capture question.
pub struct CaptureConfig {
    pub provider: String,
    pub model: String,
    pub api_key: String,
    pub ollama_endpoint: String,
    pub openclaw_endpoint: String,
}

/// The capture settings: each vision override (trimmed) when it is not empty,
/// else the chat provider and the OpenRouter model and key (trimmed).
pub fn resolve_capture_config(s: &AppSettings) -> (r: CaptureConfig)
    ensures
        r.provider@ == settings::vision_provider(*s),
        r.model@ == settings::trimmed_or(s.vision_model@, text::trim(s.openrouter_provider@)),
        r.api_key@ == settings::trimmed_or(s.vision_api_key@, text::trim(s.openrouter_api_key@)),
        r.ollama_endpoint@ == settings::trimmed_or(
            s.ollama_endpoint@,
            settings::default_ollama_endpoint(),
        ),
        r.openclaw_endpoint@ == settings::trimmed_or(
            s.openclaw_endpoint@,
            settings::default_openclaw_endpoint(),
        ),
{
    CaptureConfig {
        provider: trimmed_or_else(s.vision_api_type.as_str(), text::trim_str(s.api_type.as_str())),
        model: trimmed_or_else(s.vision_model.as_str(), text::trim_str(s.openrouter_provider.as_str())),
        api_key: trimmed_or_else(
            s.vision_api_key.as_str(),
            text::trim_str(s.openrouter_api_key.as_str()),
        ),
        ollama_endpoint: trimmed_or_else(
            s.ollama_endpoint.as_str(),
            String::from_str("http://127.0.0.1:11434"),
        ),
        openclaw_endpoint: trimmed_or_else(
            s.openclaw_endpoint.as_str(),
            String::from_str("http://127.0.0.1:18789"),
        ),
    }
}

/// Where and how a capture question is sent.
pub enum CaptureRoute {
    /// An OpenAI-style chat completion with the image as a data URL; `bearer`
    /// is the `Authorization` header's value, when one is sent.
    ChatCompletions { url: String, bearer: Option<String> },
    /// Ollama's native chat with the image as base64.
    OllamaChat { url: String },
}

/// The view of a capture route: (is Ollama, url, bearer).
pub open spec fn route_view(r: CaptureRoute) -> (bool, Seq<char>, Option<Seq<char>>) {
    match r {
        CaptureRoute::ChatCompletions { url, bearer } => (false, url@, json::opt_view(bearer)),
        CaptureRoute::OllamaChat { url } => (true, url@, None),
    }
}

/// The providers a capture question can go to (compared in lower case).
pub open spec fn capture_provider_supported(lc: Seq<char>) -> bool {
    lc == "openrouter"@ || lc == "openai"@ || lc == "groq"@ || lc == "openclaw"@ || lc == "ollama"@
}

/// The chat completion address for a provider (in lower case).
pub open spec fn capture_chat_url(lc: Seq<char>, openclaw_endpoint: Seq<char>) -> Seq<char> {
    if lc == "openrouter"@ {
        "https://openrouter.ai/api/v1/chat/completions"@
    } else if lc == "openai"@ {
        "https://api.openai.com/v1/chat/completions"@
    } else if lc == "groq"@ {
        "https://api.groq.com/openai/v1/chat/completions"@
    } else {
        openclaw_endpoint
    }
}

/// What `plan_capture_lowered` returns, given `lc`, the provider in lower
/// case: an unsupported provider or a missing key for a provider that needs
/// one is an error; Ollama is asked at `{endpoint without trailing '/'}/api/chat`;
/// the others at their chat completion address, with a bearer key except for
/// OpenClaw without a key.
pub open spec fn spec_plan_capture_lowered(
    provider: Seq<char>,
    lc: Seq<char>,
    api_key: Seq<char>,
    ollama_endpoint: Seq<char>,
    openclaw_endpoint: Seq<char>,
) -> Result<(bool, Seq<char>, Option<Seq<char>>), Seq<char>> {
    if !capture_provider_supported(lc) {
        Err("Unsupported provider: "@ + provider)
    } else if lc != "openclaw"@ && lc != "ollama"@ && api_key.len() == 0 {
        Err("Vision API key missing"@)
    } else if lc == "ollama"@ {
        Ok(
            (
                true,
                text::trim_end_class(ollama_endpoint, CharClass::Slash) + "/api/chat"@,
                None,
            ),
        )
    } else {
        Ok(
            (
                false,
                capture_chat_url(lc, openclaw_endpoint),
                if lc == "openclaw"@ && api_key.len() == 0 {
                    None
                } else {
                    Some("Bearer "@ + api_key)
                },
            ),
        )
    }
}

/// What `plan_capture` returns: `spec_plan_capture_lowered` with the
/// provider's lower-case form (`str::to_lowercase`).
pub open spec fn spec_plan_capture(
    provider: Seq<char>,
    api_key: Seq<char>,
    ollama_endpoint: Seq<char>,
    openclaw_endpoint: Seq<char>,
) -> Result<(bool, Seq<char>, Option<Seq<char>>), Seq<char>> {
    spec_plan_capture_lowered(
        provider,
        text::lowercase_of(provider),
        api_key,
        ollama_endpoint,
        openclaw_endpoint,
    )
}

/// `s` without its trailing `'/'` characters.
pub fn trim_trailing_slashes(s: &str) -> (r: String)
    ensures
        r@ == text::trim_end_class(s@, CharClass::Slash),
{
    let v = chars_of(s);
    let e = trim_end_range(&v, 0, v.len(), CharClass::Slash);
    assert(v@.subrange(0, v@.len() as int) =~= v@);
    slice_string(s, 0, e)
}

/// Decides where a capture question goes, or why it cannot be sent.
pub fn plan_capture(cfg: &CaptureConfig) -> (r: Result<CaptureRoute, String>)
    ensures
        match r {
            Ok(route) => spec_plan_capture(
                cfg.provider@,
                cfg.api_key@,
                cfg.ollama_endpoint@,
                cfg.openclaw_endpoint@,
            ) == Ok::<(bool, Seq<char>, Option<Seq<char>>), Seq<char>>(route_view(route)),
            Err(e) => spec_plan_capture(
                cfg.provider@,
                cfg.api_key@,
                cfg.ollama_endpoint@,
                cfg.openclaw_endpoint@,
            ) == Err::<(bool, Seq<char>, Option<Seq<char>>), Seq<char>>(e@),
        },
        r matches Ok(CaptureRoute::ChatCompletions { url, bearer }) ==> json::opt_view(bearer) == (
            if text::lowercase_of(cfg.provider@) == "openclaw"@ && cfg.api_key@.len() == 0 {
                None::<Seq<char>>
            } else {
                Some("Bearer "@ + cfg.api_key@)
            }),
        (r is Ok && text::lowercase_of(cfg.provider@) == "openrouter"@) ==> (r matches Ok(
            CaptureRoute::ChatCompletions { url, bearer },
        ) && url@ == "https://openrouter.ai/api/v1/chat/completions"@),
{
    let lc = to_lowercase(cfg.provider.as_str());
    plan_capture_lowered(cfg, lc.as_str())
}

/// Decides where a capture question goes, or why it cannot be sent, given
/// `l`, the provider in lower case.
pub fn plan_capture_lowered(cfg: &CaptureConfig, l: &str) -> (r: Result<CaptureRoute, String>)
    ensures
        match r {
            Ok(route) => spec_plan_capture_lowered(
                cfg.provider@,
                l@,
                cfg.api_key@,
                cfg.ollama_endpoint@,
                cfg.openclaw_endpoint@,
            ) == Ok::<(bool, Seq<char>, Option<Seq<char>>), Seq<char>>(route_view(route)),
            Err(e) => spec_plan_capture_lowered(
                cfg.provider@,
                l@,
                cfg.api_key@,
                cfg.ollama_endpoint@,
                cfg.openclaw_endpoint@,
            ) == Err::<(bool, Seq<char>, Option<Seq<char>>), Seq<char>>(e@),
        },
        r matches Ok(CaptureRoute::ChatCompletions { url, bearer }) ==> json::opt_view(bearer) == (
            if l@ == "openclaw"@ && cfg.api_key@.len() == 0 {
                None::<Seq<char>>
            } else {
                Some("Bearer "@ + cfg.api_key@)
            }),
        (r is Ok && l@ == "openrouter"@) ==> (r matches Ok(
            CaptureRoute::ChatCompletions { url, bearer },
        ) && url@ == "https://openrouter.ai/api/v1/chat/completions"@),
        r is Ok ==> (l@ == "openrouter"@ || l@ == "openai"@ || l@
            == "groq"@ || l@ == "openclaw"@ || l@ == "ollama"@),
{
    proof {
        settings::lemma_provider_names_distinct();
    }
    let is_openrouter = str_eq(l, "openrouter");
    let is_openai = str_eq(l, "openai");
    let is_groq = str_eq(l, "groq");
    let is_openclaw = str_eq(l, "openclaw");
    let is_ollama = str_eq(l, "ollama");
    if !(is_openrouter || is_openai || is_groq || is_openclaw || is_ollama) {
        return Err(String::from_str("Unsupported provider: ").concat(cfg.provider.as_str()));
    }
    let key_empty = cfg.api_key.as_str().unicode_len() == 0;
    if !is_openclaw && !is_ollama && key_empty {
        return Err(String::from_str("Vision API key missing"));
    }
    if is_ollama {
        let base = trim_trailing_slashes(cfg.ollama_endpoint.as_str());
        return Ok(CaptureRoute::OllamaChat { url: base.concat("/api/chat") });
    }
    let url = if is_openrouter {
        String::from_str("https://openrouter.ai/api/v1/chat/completions")
    } else if is_openai {
        String::from_str("https://api.openai.com/v1/chat/completions")
    } else if is_groq {
        String::from_str("https://api.groq.com/openai/v1/chat/completions")
    } else {
        String::from_str(cfg.openclaw_endpoint.as_str())
    };
    let bearer = if is_openclaw && key_empty {
        None
    } else {
        Some(String::from_str("Bearer ").concat(cfg.api_key.as_str()))
    };
    Ok(CaptureRoute::ChatCompletions { url, bearer })
}

/// `choices[0].message.content` of a chat completion body, as JSON text.
pub open spec fn first_choice_content_node(body: Seq<char>) -> Option<Seq<char>> {
    json::field_of_opt(
        json::field_of_opt(json::item_of_opt(json::json_field(body, "choices"@), 0), "message"@),
        "content"@,
    )
}

/// `choices[0].message.content` of a chat completion body, as JSON text.
pub fn first_choice_content_text(body: &str) -> (r: Option<String>)
    ensures
        json::opt_view(r) == first_choice_content_node(body@),
{
    let choices = match field_of(body, "choices") {
        Some(c) => c,
        None => return None,
    };
    let first = match item_of(choices.as_str(), 0) {
        Some(c) => c,
        None => return None,
    };
    let message = match field_of(first.as_str(), "message") {
        Some(m) => m,
        None => return None,
    };
    field_of(message.as_str(), "content")
}

/// The string `choices[0].message.content` of a chat completion body, if it is one.
pub fn first_choice_content(body: &str) -> (r: Option<String>)
    ensures
        json::opt_view(r) == json::str_of_opt(first_choice_content_node(body@)),
{
    match first_choice_content_text(body) {
        Some(c) => str_of(c.as_str()),
        None => None,
    }
}

/// The text parts of a content array: each member's string `text`, in order.
pub open spec fn text_parts(items: Seq<Seq<char>>) -> Seq<Seq<char>>
    decreases items.len(),
{
    if items.len() == 0 {
        Seq::empty()
    } else {
        let prev = text_parts(items.drop_last());
        match json::field_str(Some(items.last()), "text"@) {
            Some(t) => prev.push(t),
            None => prev,
        }
    }
}

/// What `capture_reply_content` returns for a body: a parse error's message
/// after "Parse failed: "; else the content string, or the text parts of a
/// content array joined by spaces, or the empty string.
pub open spec fn spec_capture_reply_content(body: Seq<char>) -> Result<Seq<char>, Seq<char>> {
    match json::json_parse_result(body) {
        Err(e) => Err("Parse failed: "@ + e),
        Ok(_) => {
            let node = first_choice_content_node(body);
            match json::str_of_opt(node) {
                Some(s) => Ok(s),
                None => match node {
                    Some(n) => match json::json_items(n) {
                        Some(items) => Ok(reply::join(text_parts(items), " "@)),
                        None => Ok(Seq::empty()),
                    },
                    None => Ok(Seq::empty()),
                },
            }
        },
    }
}

/// The text of a screen capture answer (an OpenAI-style chat completion body).
pub fn capture_reply_content(body: &str) -> (r: Result<String, String>)
    ensures
        match r {
            Ok(s) => spec_capture_reply_content(body@) == Ok::<Seq<char>, Seq<char>>(s@),
            Err(e) => spec_capture_reply_content(body@) == Err::<Seq<char>, Seq<char>>(e@),
        },
{
    match json::parse_json(body) {
        Err(e) => return Err(String::from_str("Parse failed: ").concat(e.as_str())),
        Ok(_) => {},
    }
    let node = first_choice_content_text(body);
    let n = match node {
        Some(n) => n,
        None => return Ok(String::new()),
    };
    match str_of(n.as_str()) {
        Some(s) => return Ok(s),
        None => {},
    }
    let items = match items_of(n.as_str()) {
        Some(items) => items,
        None => return Ok(String::new()),
    };
    let ghost iv = items@.map_values(|s: String| s@);
    let mut parts: Vec<String> = Vec::new();
    let mut i: usize = 0;
    assert(iv.take(0) =~= Seq::<Seq<char>>::empty());
    assert(parts@.map_values(|s: String| s@) =~= Seq::<Seq<char>>::empty());
    while i < items.len()
        invariant
            i <= items.len(),
            iv == items@.map_values(|s: String| s@),
            parts@.map_values(|s: String| s@) == text_parts(iv.take(i as int)),
        decreases items.len() - i,
    {
        assert(iv.take(i + 1).drop_last() =~= iv.take(i as int));
        assert(iv.take(i + 1).last() == items@[i as int]@);
        let ghost before = parts@.map_values(|s: String| s@);
        match json::str_field_of(items[i].as_str(), "text") {
            Some(t) => {
                parts.push(t);
                assert(parts@.map_values(|s: String| s@) =~= before.push(parts@[before.len() as int]@));
            },
            None => {},
        }
        i = i + 1;
    }
    assert(iv.take(items.len() as int) =~= iv);
    Ok(reply::join_strings(&parts, " "))
}

} // verus!
