//! Properties that hold of the library's functions on every input.
use vstd::prelude::*;
use crate::text::CharClass;
use crate::text;
use crate::reply;
use crate::chat;
use crate::capture;
use crate::settings;
use crate::settings::AppSettings;
use crate::emotion;
use crate::speech;

verus! {

/// Trimming twice trims no more than trimming once.
pub proof fn law_trim_class_idempotent(s: Seq<char>, cls: CharClass)
    ensures
        text::trim_class(text::trim_class(s, cls), cls) == text::trim_class(s, cls),
{
    text::lemma_trim_class_idempotent(s, cls);
}

/// The reply with its code fence removed has no white space at either end.
pub proof fn law_strip_code_fences_trimmed(raw: Seq<char>)
    ensures
        text::trim(reply::spec_strip_code_fences(raw)) == reply::spec_strip_code_fences(raw),
{
    let t = text::trim(raw);
    law_trim_class_idempotent(raw, CharClass::Whitespace);
    if text::starts_with(t, reply::fence()) {
        let content = t.skip(3);
        let body = match text::find(content, reply::newline()) {
            Some(p) => content.skip(p + 1),
            None => Seq::<char>::empty(),
        };
        law_trim_class_idempotent(body, CharClass::Whitespace);
        match text::rfind(body, reply::fence()) {
            Some(q) => law_trim_class_idempotent(body.take(q), CharClass::Whitespace),
            None => {},
        }
    }
}

/// A reply that is already trimmed and does not open with a code fence is
/// left as it is.
pub proof fn law_strip_code_fences_keeps_plain(raw: Seq<char>)
    requires
        text::trim(raw) == raw,
        !text::starts_with(raw, reply::fence()),
    ensures
        reply::spec_strip_code_fences(raw) == raw,
{
}

/// An emotion read from a marker line is never empty and has no `.` or `!`
/// at either end, and the line (trimmed, in lower case) opens with "(feeling:"
/// and closes with ")".
pub proof fn law_extract_feeling_shape(line: Seq<char>)
    ensures
        reply::spec_extract_feeling(line) matches Some(v) ==> {
            &&& v.len() > 0
            &&& text::trim_class(v, CharClass::EndPunct) == v
            &&& text::starts_with(
                text::lowercase_of(text::trim(line)),
                reply::feeling_prefix(),
            )
            &&& text::ends_with(text::lowercase_of(text::trim(line)), seq![')'])
        },
{
    let t = text::trim(line);
    let inner = text::trim_class(t, CharClass::Parens);
    match text::find(inner, seq![':']) {
        Some(p) => {
            law_trim_class_idempotent(text::trim(inner.skip(p + 1)), CharClass::EndPunct);
        },
        None => {},
    }
}

/// Every emotion the line scan finds is non-empty.
pub proof fn lemma_scan_lines_emotion_nonempty(segs: Seq<Seq<char>>)
    ensures
        reply::scan_lines(segs).1 matches Some(e) ==> e.len() > 0,
    decreases segs.len(),
{
    if segs.len() > 0 {
        lemma_scan_lines_emotion_nonempty(segs.drop_last());
        law_extract_feeling_shape(text::trim(segs.last()));
    }
}

/// When a reply is not a JSON object with a string "text", its emotion is
/// never empty: it is the first marker's value, or "neutral".
pub proof fn law_clean_reply_fallback_emotion(raw: Seq<char>)
    requires
        crate::json::field_str(Some(reply::spec_strip_code_fences(raw)), "text"@) is None,
    ensures
        reply::spec_clean_ollama_response(raw).1.len() > 0,
        reply::spec_clean_ollama_response(raw).1 == reply::neutral() || exists|line: Seq<char>|
            reply::spec_extract_feeling(line) == Some(reply::spec_clean_ollama_response(raw).1),
{
    let candidate = reply::spec_strip_code_fences(raw);
    let scanned = reply::scan_lines(reply::segments(candidate));
    lemma_scan_lines_emotion_nonempty(reply::segments(candidate));
    lemma_scan_lines_emotion_found(reply::segments(candidate));
    reveal_strlit("neutral");
}

/// Every emotion the line scan finds was read from one of the lines.
pub proof fn lemma_scan_lines_emotion_found(segs: Seq<Seq<char>>)
    ensures
        reply::scan_lines(segs).1 matches Some(e) ==> exists|line: Seq<char>|
            reply::spec_extract_feeling(line) == Some(e),
    decreases segs.len(),
{
    if segs.len() > 0 {
        lemma_scan_lines_emotion_found(segs.drop_last());
        let t = text::trim(segs.last());
        if reply::spec_extract_feeling(t) is Some {
            assert(reply::spec_extract_feeling(t) == Some(reply::spec_extract_feeling(t)->0));
        }
    }
}

/// The emotion read from Ollama's one-word answer is always one of the six.
pub proof fn law_emotion_reply_is_known(content: Seq<char>)
    ensures
        chat::is_reply_emotion(chat::spec_normalize_emotion_reply(content)),
{
}

/// Stripping every trailing repetition of a suffix leaves no such suffix.
pub proof fn lemma_strip_suffix_all_final(s: Seq<char>, p: Seq<char>)
    requires
        p.len() > 0,
    ensures
        !text::ends_with(text::strip_suffix_all(s, p), p),
    decreases s.len(),
{
    if text::ends_with(s, p) {
        lemma_strip_suffix_all_final(s.take(s.len() - p.len()), p);
    }
}

/// A normalized Ollama endpoint never ends with "/v1".
pub proof fn law_normalized_endpoint_has_no_v1(e: Seq<char>)
    ensures
        !text::ends_with(chat::spec_normalize_ollama_endpoint(e), "/v1"@),
{
    reveal_strlit("/v1");
    let e1 = text::trim_end_class(e, CharClass::Slash);
    if text::ends_with(e1, "/v1"@) {
        lemma_strip_suffix_all_final(e1, "/v1"@);
    }
}

/// A planned capture goes to a supported provider, and carries a key unless
/// the provider is OpenClaw or Ollama.
pub proof fn law_capture_plan_checks(
    provider: Seq<char>,
    api_key: Seq<char>,
    ollama_endpoint: Seq<char>,
    openclaw_endpoint: Seq<char>,
)
    ensures
        capture::spec_plan_capture(provider, api_key, ollama_endpoint, openclaw_endpoint) is Ok
            ==> {
            let lc = text::lowercase_of(provider);
            &&& capture::capture_provider_supported(lc)
            &&& (lc != "openclaw"@ && lc != "ollama"@ ==> api_key.len() > 0)
        },
{
}

/// A vision override that is not blank wins over the chat provider's value,
/// both for the vision service and for screen capture; a blank one never does.
pub proof fn law_vision_override_wins(s: AppSettings)
    ensures
        text::trim(s.vision_api_type@).len() > 0 ==> settings::vision_provider(s) == text::trim(
            s.vision_api_type@,
        ),
        text::trim(s.vision_api_type@).len() == 0 ==> settings::vision_provider(s) == text::trim(
            s.api_type@,
        ),
        forall|fallback: Seq<char>|
            text::trim(s.vision_model@).len() > 0 ==> #[trigger] settings::trimmed_or(
                s.vision_model@,
                fallback,
            ) == text::trim(s.vision_model@),
{
}

/// With a history, a chat request is sent with that history, even when it
/// also holds a single message.
pub proof fn law_history_wins(p: chat::OllamaChatRequest)
    ensures
        p.messages is Some ==> chat::request_messages(p) == Some(
            chat::messages_view(p.messages->0@),
        ),
        p.messages is None && p.message is None ==> chat::request_messages(p) is None,
{
}

/// A fitted token row has exactly the model's input length, keeps the row's
/// leading entries and pads with zeros.
pub proof fn law_fitted_row_length(row: Seq<u32>, max_len: nat)
    ensures
        emotion::fitted_row(row, max_len).len() == max_len,
        forall|i: int|
            0 <= i < max_len && i < row.len() ==> #[trigger] emotion::fitted_row(row, max_len)[i]
                == row[i] as i64,
        forall|i: int|
            0 <= i < max_len && i >= row.len() ==> #[trigger] emotion::fitted_row(row, max_len)[i]
                == 0,
{
}

/// Every line the scan keeps is trimmed, not empty, and no emotion marker.
pub proof fn lemma_scan_lines_kept_shape(segs: Seq<Seq<char>>)
    ensures
        forall|i: int|
            0 <= i < reply::scan_lines(segs).0.len() ==> {
                let l = #[trigger] reply::scan_lines(segs).0[i];
                &&& l.len() > 0
                &&& text::trim(l) == l
                &&& reply::spec_extract_feeling(l) is None
            },
    decreases segs.len(),
{
    if segs.len() > 0 {
        lemma_scan_lines_kept_shape(segs.drop_last());
        law_trim_class_idempotent(segs.last(), CharClass::Whitespace);
    }
}

/// `join` of non-empty parts is not empty.
pub proof fn lemma_join_nonempty(parts: Seq<Seq<char>>, sep: Seq<char>)
    requires
        parts.len() > 0,
        forall|i: int| 0 <= i < parts.len() ==> (#[trigger] parts[i]).len() > 0,
    ensures
        reply::join(parts, sep).len() > 0,
    decreases parts.len(),
{
    if parts.len() > 1 {
        assert(parts.last() == parts[parts.len() - 1]);
    }
}

/// When a reply is not a JSON object with a string "text", its text is
/// empty only when the reply (without code fence and white space) is empty,
/// and each line kept from it is trimmed, not empty and no emotion marker.
pub proof fn law_clean_reply_fallback_text(raw: Seq<char>)
    requires
        crate::json::field_str(Some(reply::spec_strip_code_fences(raw)), "text"@) is None,
    ensures
        (reply::spec_clean_ollama_response(raw).0.len() == 0) == (reply::spec_strip_code_fences(
            raw,
        ).len() == 0),
        forall|i: int|
            0 <= i < reply::scan_lines(reply::segments(reply::spec_strip_code_fences(raw))).0.len()
                ==> {
                let l = #[trigger] reply::scan_lines(
                    reply::segments(reply::spec_strip_code_fences(raw)),
                ).0[i];
                &&& l.len() > 0
                &&& text::trim(l) == l
                &&& reply::spec_extract_feeling(l) is None
            },
{
    let candidate = reply::spec_strip_code_fences(raw);
    let kept = reply::scan_lines(reply::segments(candidate)).0;
    lemma_scan_lines_kept_shape(reply::segments(candidate));
    law_strip_code_fences_trimmed(raw);
    if kept.len() > 0 {
        lemma_join_nonempty(kept, "\n\n"@);
        if candidate.len() == 0 {
            lemma_segments_of_empty_kept_none(candidate);
        }
    }
}

/// An empty reply keeps no line.
pub proof fn lemma_segments_of_empty_kept_none(candidate: Seq<char>)
    requires
        candidate.len() == 0,
    ensures
        reply::scan_lines(reply::segments(candidate)).0.len() == 0,
{
    assert(reply::segments(candidate) == seq![Seq::<char>::empty()]);
    let segs = reply::segments(candidate);
    assert(segs.drop_last() =~= Seq::<Seq<char>>::empty());
    assert(text::trim(segs.last()) =~= Seq::<char>::empty());
    assert(reply::scan_lines(segs.drop_last()).0.len() == 0);
    assert(reply::scan_lines(segs) == reply::scan_lines(segs.drop_last()));
}

/// The endpoints derived from the settings are never empty.
pub proof fn law_resolved_endpoints_nonempty(s: AppSettings)
    ensures
        settings::trimmed_or(s.ollama_endpoint@, settings::default_ollama_endpoint()).len() > 0,
        settings::trimmed_or(s.openclaw_endpoint@, settings::default_openclaw_endpoint()).len()
            > 0,
{
    reveal_strlit("http://127.0.0.1:11434");
    reveal_strlit("http://127.0.0.1:18789");
}

/// A decimal number is never empty.
pub proof fn law_decimal_nonempty(n: nat)
    ensures
        crate::encoding::decimal_text(n).len() > 0,
    decreases n,
{
    reveal_strlit("0");
    reveal_strlit("1");
    reveal_strlit("2");
    reveal_strlit("3");
    reveal_strlit("4");
    reveal_strlit("5");
    reveal_strlit("6");
    reveal_strlit("7");
    reveal_strlit("8");
    reveal_strlit("9");
    if n >= 10 {
        law_decimal_nonempty(n / 10);
    }
}

/// An answer naming one of the six emotions happy, sad, angry, neutral,
/// surprised or relaxed (after trimming and lower-casing) is read as that
/// emotion; any other answer is read as "neutral".
pub proof fn law_emotion_reply_keeps_named_emotion(content: Seq<char>)
    ensures
        ({
            let lc = text::lowercase_of(text::trim(content));
            &&& (lc == "happy"@ || lc == "sad"@ || lc == "angry"@ || lc == "neutral"@ || lc
                == "surprised"@ || lc == "relaxed"@) ==> chat::spec_normalize_emotion_reply(content)
                == lc
            &&& !(lc == "happy"@ || lc == "sad"@ || lc == "angry"@ || lc == "neutral"@ || lc
                == "surprised"@ || lc == "relaxed"@) ==> chat::spec_normalize_emotion_reply(content)
                == "neutral"@
        }),
{
}

/// A capture question sent as a chat completion carries the header
/// "Bearer {key}", except for OpenClaw without a key, which carries none; an
/// OpenRouter question with a key goes to OpenRouter's chat completion address.
pub proof fn law_capture_bearer(
    provider: Seq<char>,
    lc: Seq<char>,
    api_key: Seq<char>,
    ollama_endpoint: Seq<char>,
    openclaw_endpoint: Seq<char>,
)
    ensures
        capture::spec_plan_capture_lowered(
            provider,
            lc,
            api_key,
            ollama_endpoint,
            openclaw_endpoint,
        ) matches Ok((false, _, bearer)) ==> bearer == (if lc == "openclaw"@ && api_key.len()
            == 0 {
            None::<Seq<char>>
        } else {
            Some("Bearer "@ + api_key)
        }),
        lc == "openrouter"@ && api_key.len() > 0 ==> capture::spec_plan_capture_lowered(
            provider,
            lc,
            api_key,
            ollama_endpoint,
            openclaw_endpoint,
        ) == Ok::<(bool, Seq<char>, Option<Seq<char>>), Seq<char>>(
            (
                false,
                "https://openrouter.ai/api/v1/chat/completions"@,
                Some("Bearer "@ + api_key),
            ),
        ),
{
    settings::lemma_provider_names_distinct();
}

/// Without a vision model override, the vision service is given the chat
/// model of its provider: OpenRouter's (also for "openai") for "openrouter"
/// and "openai", Groq's for "groq", Ollama's otherwise, each trimmed.
pub proof fn law_vision_model_by_provider(s: AppSettings)
    requires
        text::trim(s.vision_model@).len() == 0,
    ensures
        ({
            let p = settings::vision_provider(s);
            let m = settings::trimmed_or(
                s.vision_model@,
                settings::vision_service_fallback_model(s, p),
            );
            &&& p == "openrouter"@ ==> m == text::trim(s.openrouter_provider@)
            &&& p == "openai"@ ==> m == text::trim(s.openrouter_provider@)
            &&& p == "groq"@ ==> m == text::trim(s.groq_model@)
            &&& (p != "openrouter"@ && p != "openai"@ && p != "groq"@) ==> m == text::trim(
                s.ollama_model@,
            )
        }),
{
    settings::lemma_provider_names_distinct();
}

/// Speech is planned exactly when there is a text, the engine is "elevenlabs"
/// and the key is not blank, and then the whole text is spoken as it is.
pub proof fn law_speech_speaks_whole_text(text: Option<Seq<char>>, s: AppSettings)
    ensures
        speech::spec_plan_speech(text, s) is Ok <==> (text is Some && s.tts_engine@
            == "elevenlabs"@ && text::trim(s.tts_api_key@).len() > 0),
        speech::spec_plan_speech(text, s) matches Ok(plan) ==> (text matches Some(t) && plan.2
            == t),
{
}

/// The messages relayed to Groq are the request's own when there is no
/// screen summary, and those followed by one system message
/// "Screen summary: {summary}" when there is one.
pub proof fn law_groq_summary_message(ms: Seq<(Seq<char>, Seq<char>)>, summary: Seq<char>)
    ensures
        chat::groq_messages(ms, None) == ms,
        chat::groq_messages(ms, Some(summary)) == ms.push(
            ("system"@, "Screen summary: "@ + summary),
        ),
        chat::groq_messages(ms, Some(summary)).len() == ms.len() + 1,
{
}

/// Where each provider's capture question goes: OpenAI and Groq with a key to
/// their chat completion addresses with a bearer key; Ollama to
/// `{endpoint without trailing '/'}/api/chat`; OpenClaw to its endpoint; an
/// unknown provider and a missing key for OpenRouter, OpenAI or Groq are refused.
pub proof fn law_capture_routes(
    provider: Seq<char>,
    lc: Seq<char>,
    api_key: Seq<char>,
    ollama_endpoint: Seq<char>,
    openclaw_endpoint: Seq<char>,
)
    ensures
        ({
            let r = capture::spec_plan_capture_lowered(
                provider,
                lc,
                api_key,
                ollama_endpoint,
                openclaw_endpoint,
            );
            &&& (lc == "openai"@ && api_key.len() > 0) ==> r == Ok::<
                (bool, Seq<char>, Option<Seq<char>>),
                Seq<char>,
            >(
                (
                    false,
                    "https://api.openai.com/v1/chat/completions"@,
                    Some("Bearer "@ + api_key),
                ),
            )
            &&& (lc == "groq"@ && api_key.len() > 0) ==> r == Ok::<
                (bool, Seq<char>, Option<Seq<char>>),
                Seq<char>,
            >(
                (
                    false,
                    "https://api.groq.com/openai/v1/chat/completions"@,
                    Some("Bearer "@ + api_key),
                ),
            )
            &&& lc == "ollama"@ ==> r == Ok::<(bool, Seq<char>, Option<Seq<char>>), Seq<char>>(
                (
                    true,
                    text::trim_end_class(ollama_endpoint, CharClass::Slash) + "/api/chat"@,
                    None,
                ),
            )
            &&& lc == "openclaw"@ ==> (r matches Ok((false, url, _)) && url == openclaw_endpoint)
            &&& (lc != "openrouter"@ && lc != "openai"@ && lc != "groq"@ && lc != "openclaw"@
                && lc != "ollama"@) ==> r == Err::<(bool, Seq<char>, Option<Seq<char>>), Seq<char>>(
                "Unsupported provider: "@ + provider,
            )
            &&& ((lc == "openrouter"@ || lc == "openai"@ || lc == "groq"@) && api_key.len() == 0)
                ==> r == Err::<(bool, Seq<char>, Option<Seq<char>>), Seq<char>>(
                "Vision API key missing"@,
            )
        }),
{
    settings::lemma_provider_names_distinct();
}

/// Without a vision key override, the vision service is given the key of its
/// provider: OpenRouter's for "openrouter" and "openai", Groq's for "groq",
/// each trimmed, and no key otherwise.
pub proof fn law_vision_key_by_provider(s: AppSettings)
    requires
        text::trim(s.vision_api_key@).len() == 0,
    ensures
        ({
            let p = settings::vision_provider(s);
            let k = settings::trimmed_or(s.vision_api_key@, settings::vision_service_fallback_key(s, p));
            &&& p == "openrouter"@ ==> k == text::trim(s.openrouter_api_key@)
            &&& p == "openai"@ ==> k == text::trim(s.openrouter_api_key@)
            &&& p == "groq"@ ==> k == text::trim(s.groq_api_key@)
            &&& (p != "openrouter"@ && p != "openai"@ && p != "groq"@) ==> k.len() == 0
        }),
{
    settings::lemma_provider_names_distinct();
}

/// Planned speech goes to ElevenLabs' text-to-speech address for the
/// configured voice (trimmed; "21m00Tcm4TlvDq8ikWAM" when blank), with the
/// key trimmed.
pub proof fn law_speech_voice_and_key(text: Option<Seq<char>>, s: AppSettings)
    ensures
        speech::spec_plan_speech(text, s) matches Ok(plan) ==> {
            &&& plan.0 == "https://api.elevenlabs.io/v1/text-to-speech/"@ + (if text::trim(
                s.tts_voice_id@,
            ).len() > 0 {
                text::trim(s.tts_voice_id@)
            } else {
                "21m00Tcm4TlvDq8ikWAM"@
            })
            &&& plan.1 == text::trim(s.tts_api_key@)
            &&& plan.1.len() > 0
        },
{
}

} // verus!
