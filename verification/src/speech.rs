//! Planning text-to-speech with ElevenLabs.
use vstd::prelude::*;
use crate::text::trim_str;
use crate::text;
use crate::settings::{AppSettings, str_eq, trimmed_or_else};
use crate::settings;

verus! {

/// The voice used when none is configured.
pub open spec fn default_voice_id() -> Seq<char> {
    "21m00Tcm4TlvDq8ikWAM"@
}

/// Where and with which key speech for `text` is requested.
pub struct SpeechPlan {
    pub url: String,
    pub api_key: String,
    pub text: String,
}

/// What `plan_speech` decides: no text, an engine other than "elevenlabs" or
/// a blank key is an error (in that order); else the voice's address and the
/// key, both trimmed (the voice defaulting when blank).
pub open spec fn spec_plan_speech(text: Option<Seq<char>>, s: AppSettings) -> Result<
    (Seq<char>, Seq<char>, Seq<char>),
    Seq<char>,
> {
    match text {
        None => Err("No text provided"@),
        Some(t) => if s.tts_engine@ != "elevenlabs"@ {
            Err("Only ElevenLabs TTS is supported. Please provide an API key."@)
        } else if text::trim(s.tts_api_key@).len() == 0 {
            Err("ElevenLabs API key is missing"@)
        } else {
            Ok(
                (
                    "https://api.elevenlabs.io/v1/text-to-speech/"@ + settings::trimmed_or(
                        s.tts_voice_id@,
                        default_voice_id(),
                    ),
                    text::trim(s.tts_api_key@),
                    t,
                ),
            )
        },
    }
}

/// Decides how speech for `text` is requested, or why it cannot be.
pub fn plan_speech(text: Option<String>, s: &AppSettings) -> (r: Result<SpeechPlan, String>)
    ensures
        match r {
            Ok(p) => spec_plan_speech(crate::json::opt_view(text), *s) == Ok::<
                (Seq<char>, Seq<char>, Seq<char>),
                Seq<char>,
            >((p.url@, p.api_key@, p.text@)),
            Err(e) => spec_plan_speech(crate::json::opt_view(text), *s) == Err::<
                (Seq<char>, Seq<char>, Seq<char>),
                Seq<char>,
            >(e@),
        },
        r is Ok <==> (text is Some && s.tts_engine@ == "elevenlabs"@ && text::trim(
            s.tts_api_key@,
        ).len() > 0),
        r matches Ok(p) ==> (text matches Some(t) && p.text@ == t@),
{
    let t = match text {
        Some(t) => t,
        None => return Err(String::from_str("No text provided")),
    };
    if !str_eq(s.tts_engine.as_str(), "elevenlabs") {
        return Err(String::from_str("Only ElevenLabs TTS is supported. Please provide an API key."));
    }
    let key = trim_str(s.tts_api_key.as_str());
    if key.as_str().unicode_len() == 0 {
        return Err(String::from_str("ElevenLabs API key is missing"));
    }
    let voice = trimmed_or_else(s.tts_voice_id.as_str(), String::from_str("21m00Tcm4TlvDq8ikWAM"));
    Ok(
        SpeechPlan {
            url: String::from_str("https://api.elevenlabs.io/v1/text-to-speech/").concat(
                voice.as_str(),
            ),
            api_key: key,
            text: t,
        },
    )
}

} // verus!
