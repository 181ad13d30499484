//! Application settings, their defaults, and the values that the vision
//! service and screen capture derive from them.
use vstd::prelude::*;
use crate::text::trim_str;
use crate::text;

verus! {

/// The persisted settings, less the vision capture interval (a float, held
/// by the app beside these).
pub struct AppSettings {
    pub api_type: String,
    pub ollama_endpoint: String,
    pub ollama_model: String,
    pub openclaw_endpoint: String,
    pub openrouter_api_key: String,
    pub openrouter_provider: String,
    pub groq_api_key: String,
    pub groq_model: String,
    pub system_prompt: String,
    pub tts_engine: String,
    pub tts_language: String,
    pub tts_api_key: String,
    pub tts_voice_id: String,
    pub custom_vrm_name: String,
    pub custom_vrm_path: String,
    pub vision_autostart: bool,
    pub vision_port: u16,
    pub vision_width: u32,
    pub vision_install_dir: String,
    pub vision_api_type: String,
    pub vision_model: String,
    pub vision_api_key: String,
    pub use_vision_model: bool,
    pub stt_provider: String,
    pub stt_api_key: String,
    pub stt_autostart: bool,
    pub stt_port: u16,
}

pub fn default_tts_engine() -> (r: String)
    ensures
        r@ == "xtts_v2"@,
{
    String::from_str("xtts_v2")
}

pub fn default_tts_language() -> (r: String)
    ensures
        r@ == "tr"@,
{
    String::from_str("tr")
}

pub fn default_openrouter_api_key() -> (r: String)
    ensures
        r@ == Seq::<char>::empty(),
{
    String::new()
}

pub fn default_openrouter_provider() -> (r: String)
    ensures
        r@ == Seq::<char>::empty(),
{
    String::new()
}

pub fn default_system_prompt() -> (r: String)
    ensures
        r@ == Seq::<char>::empty(),
{
    String::new()
}

pub fn default_tts_api_key() -> (r: String)
    ensures
        r@ == Seq::<char>::empty(),
{
    String::new()
}

pub fn default_tts_voice_id() -> (r: String)
    ensures
        r@ == Seq::<char>::empty(),
{
    String::new()
}

pub fn default_custom_vrm_name() -> (r: String)
    ensures
        r@ == Seq::<char>::empty(),
{
    String::new()
}

pub fn default_custom_vrm_path() -> (r: String)
    ensures
        r@ == Seq::<char>::empty(),
{
    String::new()
}

pub fn default_groq_api_key() -> (r: String)
    ensures
        r@ == Seq::<char>::empty(),
{
    String::new()
}

pub fn default_groq_model() -> (r: String)
    ensures
        r@ == Seq::<char>::empty(),
{
    String::new()
}

pub fn default_vision_autostart() -> (r: bool)
    ensures
        r,
{
    true
}

pub fn default_vision_port() -> (r: u16)
    ensures
        r == 8777,
{
    8777
}

pub fn default_vision_width() -> (r: u32)
    ensures
        r == 960,
{
    960
}

pub fn default_vision_api_type() -> (r: String)
    ensures
        r@ == Seq::<char>::empty(),
{
    String::new()
}

pub fn default_vision_model() -> (r: String)
    ensures
        r@ == Seq::<char>::empty(),
{
    String::new()
}

pub fn default_vision_api_key() -> (r: String)
    ensures
        r@ == Seq::<char>::empty(),
{
    String::new()
}

pub fn default_use_vision_model() -> (r: bool)
    ensures
        r,
{
    true
}

pub fn default_stt_provider() -> (r: String)
    ensures
        r@ == "deepgram"@,
{
    String::from_str("deepgram")
}

pub fn default_stt_api_key() -> (r: String)
    ensures
        r@ == Seq::<char>::empty(),
{
    String::new()
}

pub fn default_stt_autostart() -> (r: bool)
    ensures
        r,
{
    true
}

pub fn default_stt_port() -> (r: u16)
    ensures
        r == 5001,
{
    5001
}

impl AppSettings {
    /// The default settings: provider "ollama", every endpoint, model and key
    /// empty, TTS engine "xtts_v2" in language "tr", the vision service
    /// autostarting on port 8777 at width 960 and installed in `vision_install_dir`,
    /// speech-to-text by "deepgram" autostarting on port 5001.
    pub open spec fn is_default_with(self, vision_install_dir: Seq<char>) -> bool {
        &&& self.api_type@ == "ollama"@
        &&& self.ollama_endpoint@ == Seq::<char>::empty()
        &&& self.ollama_model@ == Seq::<char>::empty()
        &&& self.openclaw_endpoint@ == Seq::<char>::empty()
        &&& self.openrouter_api_key@ == Seq::<char>::empty()
        &&& self.openrouter_provider@ == Seq::<char>::empty()
        &&& self.groq_api_key@ == Seq::<char>::empty()
        &&& self.groq_model@ == Seq::<char>::empty()
        &&& self.system_prompt@ == Seq::<char>::empty()
        &&& self.tts_engine@ == "xtts_v2"@
        &&& self.tts_language@ == "tr"@
        &&& self.tts_api_key@ == Seq::<char>::empty()
        &&& self.tts_voice_id@ == Seq::<char>::empty()
        &&& self.custom_vrm_name@ == Seq::<char>::empty()
        &&& self.custom_vrm_path@ == Seq::<char>::empty()
        &&& self.vision_autostart
        &&& self.vision_port == 8777
        &&& self.vision_width == 960
        &&& self.vision_install_dir@ == vision_install_dir
        &&& self.vision_api_type@ == Seq::<char>::empty()
        &&& self.vision_model@ == Seq::<char>::empty()
        &&& self.vision_api_key@ == Seq::<char>::empty()
        &&& self.use_vision_model
        &&& self.stt_provider@ == "deepgram"@
        &&& self.stt_api_key@ == Seq::<char>::empty()
        &&& self.stt_autostart
        &&& self.stt_port == 5001
    }

    /// The default settings, with the vision service installed in `vision_install_dir`
    /// (which the app derives from the environment).
    pub fn default_with_install_dir(vision_install_dir: String) -> (r: AppSettings)
        ensures
            r.is_default_with(vision_install_dir@),
    {
        AppSettings {
            api_type: String::from_str("ollama"),
            ollama_endpoint: String::new(),
            ollama_model: String::new(),
            openclaw_endpoint: String::new(),
            openrouter_api_key: default_openrouter_api_key(),
            openrouter_provider: default_openrouter_provider(),
            groq_api_key: default_groq_api_key(),
            groq_model: default_groq_model(),
            system_prompt: default_system_prompt(),
            tts_engine: default_tts_engine(),
            tts_language: default_tts_language(),
            tts_api_key: default_tts_api_key(),
            tts_voice_id: default_tts_voice_id(),
            custom_vrm_name: default_custom_vrm_name(),
            custom_vrm_path: default_custom_vrm_path(),
            vision_autostart: default_vision_autostart(),
            vision_port: default_vision_port(),
            vision_width: default_vision_width(),
            vision_install_dir,
            vision_api_type: default_vision_api_type(),
            vision_model: default_vision_model(),
            vision_api_key: default_vision_api_key(),
            use_vision_model: default_use_vision_model(),
            stt_provider: default_stt_provider(),
            stt_api_key: default_stt_api_key(),
            stt_autostart: default_stt_autostart(),
            stt_port: default_stt_port(),
        }
    }
}

/// `s` trimmed if that is not empty, else `fallback`.
pub open spec fn trimmed_or(s: Seq<char>, fallback: Seq<char>) -> Seq<char> {
    if text::trim(s).len() > 0 {
        text::trim(s)
    } else {
        fallback
    }
}

/// Whether two strings hold the same characters.
pub fn str_eq(a: &str, b: &str) -> (r: bool)
    ensures
        r == (a@ == b@),
{
    String::from_str(a) == String::from_str(b)
}

/// `s` trimmed if that is not empty, else `fallback`.
pub fn trimmed_or_else(s: &str, fallback: String) -> (r: String)
    ensures
        r@ == trimmed_or(s@, fallback@),
{
    let t = trim_str(s);
    if t.as_str().unicode_len() > 0 {
        t
    } else {
        fallback
    }
}

/// The default address of a local Ollama server.
pub open spec fn default_ollama_endpoint() -> Seq<char> {
    "http://127.0.0.1:11434"@
}

/// The default address of the OpenClaw proxy.
pub open spec fn default_openclaw_endpoint() -> Seq<char> {
    "http://127.0.0.1:18789"@
}

/// The provider for vision: the vision override when set, else the chat provider.
pub open spec fn vision_provider(s: AppSettings) -> Seq<char> {
    trimmed_or(s.vision_api_type@, text::trim(s.api_type@))
}

/// The provider names are five different words.
pub proof fn lemma_provider_names_distinct()
    ensures
        "openrouter"@ != "openai"@,
        "openrouter"@ != "groq"@,
        "openrouter"@ != "openclaw"@,
        "openrouter"@ != "ollama"@,
        "openai"@ != "groq"@,
        "openai"@ != "openclaw"@,
        "openai"@ != "ollama"@,
        "groq"@ != "openclaw"@,
        "groq"@ != "ollama"@,
        "openclaw"@ != "ollama"@,
{
    reveal_strlit("openrouter");
    reveal_strlit("openai");
    reveal_strlit("groq");
    reveal_strlit("openclaw");
    reveal_strlit("ollama");
    assert("openrouter"@.len() == 10);
    assert("openai"@.len() == 6);
    assert("groq"@.len() == 4);
    assert("openclaw"@.len() == 8);
    assert("ollama"@.len() == 6);
    assert("openai"@[1] != "ollama"@[1]);
}

/// The endpoints and credentials handed to the vision service process.
pub struct VisionServiceConfig {
    pub provider: String,
    pub model: String,
    pub api_key: String,
    pub ollama_endpoint: String,
    pub openclaw_endpoint: String,
}

/// The model for the vision service when no vision model is set, by provider.
pub open spec fn vision_service_fallback_model(s: AppSettings, provider: Seq<char>) -> Seq<char> {
    if provider == "groq"@ {
        text::trim(s.groq_model@)
    } else if provider == "openrouter"@ || provider == "openai"@ {
        text::trim(s.openrouter_provider@)
    } else {
        text::trim(s.ollama_model@)
    }
}

/// The key for the vision service when no vision key is set, by provider.
pub open spec fn vision_service_fallback_key(s: AppSettings, provider: Seq<char>) -> Seq<char> {
    if provider == "groq"@ {
        text::trim(s.groq_api_key@)
    } else if provider == "openrouter"@ || provider == "openai"@ {
        text::trim(s.openrouter_api_key@)
    } else {
        Seq::<char>::empty()
    }
}

/// What the vision service is started with: each vision override (trimmed)
/// when it is not empty, else the value for the chat provider.
pub fn resolve_vision_service_config(s: &AppSettings) -> (r: VisionServiceConfig)
    ensures
        r.provider@ == vision_provider(*s),
        r.model@ == trimmed_or(s.vision_model@, vision_service_fallback_model(*s, r.provider@)),
        r.api_key@ == trimmed_or(s.vision_api_key@, vision_service_fallback_key(*s, r.provider@)),
        r.ollama_endpoint@ == trimmed_or(s.ollama_endpoint@, default_ollama_endpoint()),
        r.openclaw_endpoint@ == trimmed_or(s.openclaw_endpoint@, default_openclaw_endpoint()),
        text::trim(s.vision_model@).len() == 0 ==> {
            &&& r.provider@ == "openrouter"@ ==> r.model@ == text::trim(s.openrouter_provider@)
            &&& r.provider@ == "openai"@ ==> r.model@ == text::trim(s.openrouter_provider@)
            &&& r.provider@ == "groq"@ ==> r.model@ == text::trim(s.groq_model@)
            &&& (r.provider@ != "openrouter"@ && r.provider@ != "openai"@ && r.provider@
                != "groq"@) ==> r.model@ == text::trim(s.ollama_model@)
        },
        text::trim(s.vision_model@).len() > 0 ==> r.model@ == text::trim(s.vision_model@),
        text::trim(s.vision_api_key@).len() == 0 ==> {
            &&& r.provider@ == "openrouter"@ ==> r.api_key@ == text::trim(s.openrouter_api_key@)
            &&& r.provider@ == "openai"@ ==> r.api_key@ == text::trim(s.openrouter_api_key@)
            &&& r.provider@ == "groq"@ ==> r.api_key@ == text::trim(s.groq_api_key@)
            &&& (r.provider@ != "openrouter"@ && r.provider@ != "openai"@ && r.provider@
                != "groq"@) ==> r.api_key@.len() == 0
        },
{
    proof {
        lemma_provider_names_distinct();
    }
    let provider = trimmed_or_else(s.vision_api_type.as_str(), trim_str(s.api_type.as_str()));
    let p = provider.as_str();
    let fallback_model = if str_eq(p, "groq") {
        trim_str(s.groq_model.as_str())
    } else if str_eq(p, "openrouter") || str_eq(p, "openai") {
        trim_str(s.openrouter_provider.as_str())
    } else {
        trim_str(s.ollama_model.as_str())
    };
    let fallback_key = if str_eq(p, "groq") {
        trim_str(s.groq_api_key.as_str())
    } else if str_eq(p, "openrouter") || str_eq(p, "openai") {
        trim_str(s.openrouter_api_key.as_str())
    } else {
        String::new()
    };
    let model = trimmed_or_else(s.vision_model.as_str(), fallback_model);
    let api_key = trimmed_or_else(s.vision_api_key.as_str(), fallback_key);
    let ollama_endpoint = trimmed_or_else(
        s.ollama_endpoint.as_str(),
        String::from_str("http://127.0.0.1:11434"),
    );
    let openclaw_endpoint = trimmed_or_else(
        s.openclaw_endpoint.as_str(),
        String::from_str("http://127.0.0.1:18789"),
    );
    VisionServiceConfig { provider, model, api_key, ollama_endpoint, openclaw_endpoint }
}

} // verus!
