//! Chat requests to Ollama, Groq and OpenRouter: what is sent, and what is
//! made of the answer.
use vstd::prelude::*;
use crate::text::{chars_of, slice_string, to_lowercase, trim_str, trim_end_range, CharClass};
use crate::text;
use crate::json::{field_of, items_of, str_field_of};
use crate::json;
use crate::settings::{AppSettings, str_eq, trimmed_or_else};
use crate::settings;
use crate::reply::clean_ollama_response;
use crate::reply;

verus! {

/// One chat message.
pub struct OllamaApiMessage {
    pub role: String,
    pub content: String,
}

/// A chat request to the companion: a history, or a single user message.
pub struct OllamaChatRequest {
    pub message: Option<String>,
    pub messages: Option<Vec<OllamaApiMessage>>,
    pub model: Option<String>,
}

/// The companion's answer: display text and an emotion tag.
pub struct OllamaChatResponse {
    pub text: String,
    pub emotion: String,
}

/// A request to Ollama's native chat endpoint.
pub struct OllamaApiRequest {
    pub model: String,
    pub messages: Vec<OllamaApiMessage>,
    pub stream: bool,
}

/// Ollama's chat answer.
pub struct OllamaApiResponse {
    pub message: OllamaApiMessage,
}

/// One model installed in Ollama.
pub struct OllamaModel {
    pub name: String,
    pub modified_at: String,
    pub size: u64,
}

/// Ollama's list of installed models.
pub struct OllamaModelsResponse {
    pub models: Vec<OllamaModel>,
}

/// A chat request relayed to OpenRouter.
pub struct OpenRouterChatRequest {
    pub messages: Vec<OllamaApiMessage>,
    pub model: Option<String>,
}

/// A chat request relayed to Groq.
pub struct GroqChatRequest {
    pub messages: Vec<OllamaApiMessage>,
    pub model: Option<String>,
}

impl OllamaApiMessage {
    /// (role, content)
    pub open spec fn view_pair(self) -> (Seq<char>, Seq<char>) {
        (self.role@, self.content@)
    }
}

/// The messages, each as (role, content).
pub open spec fn messages_view(ms: Seq<OllamaApiMessage>) -> Seq<(Seq<char>, Seq<char>)> {
    ms.map_values(|m: OllamaApiMessage| m.view_pair())
}

/// An optional string, or `fallback`.
pub open spec fn or_else(o: Option<String>, fallback: Seq<char>) -> Seq<char> {
    match o {
        Some(s) => s@,
        None => fallback,
    }
}

/// The reply given when a chat request holds no message.
pub open spec fn no_message_reply() -> (Seq<char>, Seq<char>) {
    ("No message provided"@, "neutral"@)
}

/// What is sent to Ollama for a chat request.
pub struct OllamaChatPlan {
    pub url: String,
    pub request: OllamaApiRequest,
}

/// The messages of a chat request: its history if it has one, else its single
/// message from the user, else none.
pub open spec fn request_messages(p: OllamaChatRequest) -> Option<Seq<(Seq<char>, Seq<char>)>> {
    match p.messages {
        Some(ms) => Some(messages_view(ms@)),
        None => match p.message {
            Some(m) => Some(seq![("user"@, m@)]),
            None => None,
        },
    }
}

/// Plans a chat with Ollama: `{endpoint}/api/chat` (the configured endpoint
/// trimmed, or the local default), the request's model or the configured
/// one, the request's messages, no streaming; or the fixed reply when the
/// request holds no message.
pub fn plan_ollama_chat(payload: OllamaChatRequest, s: &AppSettings) -> (r: Result<
    OllamaChatPlan,
    OllamaChatResponse,
>)
    ensures
        match r {
            Ok(plan) => {
                &&& request_messages(payload) == Some(messages_view(plan.request.messages@))
                &&& plan.url@ == settings::trimmed_or(
                    s.ollama_endpoint@,
                    settings::default_ollama_endpoint(),
                ) + "/api/chat"@
                &&& plan.request.model@ == or_else(payload.model, s.ollama_model@)
                &&& !plan.request.stream
            },
            Err(reply) => {
                &&& request_messages(payload) is None
                &&& (reply.text@, reply.emotion@) == no_message_reply()
            },
        },
{
    let endpoint = trimmed_or_else(
        s.ollama_endpoint.as_str(),
        String::from_str("http://127.0.0.1:11434"),
    );
    let model = match payload.model {
        Some(m) => m,
        None => String::from_str(s.ollama_model.as_str()),
    };
    let messages = match payload.messages {
        Some(ms) => ms,
        None => match payload.message {
            Some(m) => {
                let v = vec![OllamaApiMessage { role: String::from_str("user"), content: m }];
                assert(messages_view(v@) =~= seq![("user"@, m@)]);
                v
            },
            None => {
                return Err(
                    OllamaChatResponse {
                        text: String::from_str("No message provided"),
                        emotion: String::from_str("neutral"),
                    },
                );
            },
        },
    };
    Ok(
        OllamaChatPlan {
            url: endpoint.concat("/api/chat"),
            request: OllamaApiRequest { model, messages, stream: false },
        },
    )
}

/// What `extract_ollama_text` reads from a parsed answer: `message.content`
/// when there is a `message` member, else `choices[0].message.content` when
/// there is a `choices` member, as a string; "No response" otherwise.
pub open spec fn spec_ollama_answer_text(body: Seq<char>) -> Seq<char> {
    match json::json_field(body, "message"@) {
        Some(m) => match json::field_str(Some(m), "content"@) {
            Some(c) => c,
            None => "No response"@,
        },
        None => match json::json_field(body, "choices"@) {
            Some(_) => match json::str_of_opt(crate::capture::first_choice_content_node(body)) {
                Some(c) => c,
                None => "No response"@,
            },
            None => "No response"@,
        },
    }
}

/// The answer text in an Ollama (or OpenAI-style) chat body.
pub fn extract_ollama_text(body: &str) -> (r: String)
    ensures
        r@ == spec_ollama_answer_text(body@),
{
    match field_of(body, "message") {
        Some(m) => match str_field_of(m.as_str(), "content") {
            Some(c) => c,
            None => String::from_str("No response"),
        },
        None => match field_of(body, "choices") {
            Some(_) => match crate::capture::first_choice_content(body) {
                Some(c) => c,
                None => String::from_str("No response"),
            },
            None => String::from_str("No response"),
        },
    }
}

/// What the companion answers for a body read from Ollama: a parse error's
/// message after "Error parsing response: " with emotion "neutral", else the
/// cleaned answer text.
pub open spec fn spec_ollama_reply(body: Seq<char>) -> (Seq<char>, Seq<char>) {
    match json::json_parse_result(body) {
        Err(e) => ("Error parsing response: "@ + e, "neutral"@),
        Ok(_) => reply::spec_clean_ollama_response(spec_ollama_answer_text(body)),
    }
}

/// Turns the body of Ollama's answer into the companion's reply.
pub fn ollama_reply(body: &str) -> (r: OllamaChatResponse)
    ensures
        (r.text@, r.emotion@) == spec_ollama_reply(body@),
{
    match json::parse_json(body) {
        Err(e) => OllamaChatResponse {
            text: String::from_str("Error parsing response: ").concat(e.as_str()),
            emotion: String::from_str("neutral"),
        },
        Ok(_) => {
            let answer = extract_ollama_text(body);
            let (text, emotion) = clean_ollama_response(answer.as_str());
            OllamaChatResponse { text, emotion }
        },
    }
}

/// How many times a failed connection to Ollama is retried.
pub open spec fn ollama_max_retries() -> u32 {
    2
}

/// After a connection error with `retries` retries done: `Some(retries + 1)`
/// to wait and try again, or `None` to give up.
pub fn ollama_retry_step(retries: u32) -> (r: Option<u32>)
    ensures
        retries < ollama_max_retries() ==> r == Some((retries + 1) as u32),
        retries >= ollama_max_retries() ==> r is None,
{
    if retries < 2 {
        Some(retries + 1)
    } else {
        None
    }
}

/// The reply when Ollama cannot be reached, given the error's message.
pub fn ollama_unreachable_reply(error: &str) -> (r: OllamaChatResponse)
    ensures
        r.text@ == "Error connecting to Ollama: "@ + error@,
        r.emotion@ == "neutral"@,
{
    OllamaChatResponse {
        text: String::from_str("Error connecting to Ollama: ").concat(error),
        emotion: String::from_str("neutral"),
    }
}

/// The reply when Ollama's answer cannot be read, given the error's message.
pub fn ollama_unreadable_reply(error: &str) -> (r: OllamaChatResponse)
    ensures
        r.text@ == "Failed to read response: "@ + error@,
        r.emotion@ == "neutral"@,
{
    OllamaChatResponse {
        text: String::from_str("Failed to read response: ").concat(error),
        emotion: String::from_str("neutral"),
    }
}

/// A relayed chat completion: where, with which model, messages and key.
pub struct ChatCall {
    pub url: String,
    pub model: String,
    pub messages: Vec<OllamaApiMessage>,
    pub api_key: String,
}

/// The system message that hands the model a screen summary.
pub open spec fn summary_message(summary: Seq<char>) -> (Seq<char>, Seq<char>) {
    ("system"@, "Screen summary: "@ + summary)
}

/// The messages relayed to Groq: the request's, followed by the screen summary
/// (as a system message) when there is one.
pub open spec fn groq_messages(
    ms: Seq<(Seq<char>, Seq<char>)>,
    summary: Option<Seq<char>>,
) -> Seq<(Seq<char>, Seq<char>)> {
    match summary {
        Some(s) => ms.push(summary_message(s)),
        None => ms,
    }
}

/// Plans a Groq chat: the configured key (trimmed) and the request's model
/// or the configured one (trimmed); an error when either is empty.
pub fn plan_groq_chat(payload: GroqChatRequest, s: &AppSettings, summary: Option<String>) -> (r:
    Result<ChatCall, String>)
    ensures
        match r {
            Ok(call) => {
                &&& call.url@ == "https://api.groq.com/openai/v1/chat/completions"@
                &&& call.api_key@ == text::trim(s.groq_api_key@)
                &&& call.model@ == text::trim(or_else(payload.model, s.groq_model@))
                &&& call.api_key@.len() > 0
                &&& call.model@.len() > 0
                &&& messages_view(call.messages@) == groq_messages(
                    messages_view(payload.messages@),
                    json::opt_view(summary),
                )
                &&& summary is None ==> messages_view(call.messages@) == messages_view(
                    payload.messages@,
                )
                &&& summary matches Some(sm) ==> messages_view(call.messages@) == messages_view(
                    payload.messages@,
                ).push(("system"@, "Screen summary: "@ + sm@))
            },
            Err(e) => {
                ||| (text::trim(s.groq_api_key@).len() == 0 && e@ == "Groq API key is missing"@)
                ||| (text::trim(s.groq_api_key@).len() > 0 && text::trim(
                    or_else(payload.model, s.groq_model@),
                ).len() == 0 && e@ == "Groq model is missing"@)
            },
        },
{
    let mut messages = payload.messages;
    let ghost before = messages_view(messages@);
    match summary {
        Some(sm) => {
            messages.push(
                OllamaApiMessage {
                    role: String::from_str("system"),
                    content: String::from_str("Screen summary: ").concat(sm.as_str()),
                },
            );
            assert(messages_view(messages@) =~= before.push(summary_message(sm@)));
        },
        None => {},
    }
    let api_key = trim_str(s.groq_api_key.as_str());
    let model = match payload.model {
        Some(m) => trim_str(m.as_str()),
        None => trim_str(s.groq_model.as_str()),
    };
    if api_key.as_str().unicode_len() == 0 {
        return Err(String::from_str("Groq API key is missing"));
    }
    if model.as_str().unicode_len() == 0 {
        return Err(String::from_str("Groq model is missing"));
    }
    Ok(
        ChatCall {
            url: String::from_str("https://api.groq.com/openai/v1/chat/completions"),
            model,
            messages,
            api_key,
        },
    )
}

/// Plans an OpenRouter chat: the configured key as it stands (an error when
/// it is blank) and the request's model or the configured provider (trimmed;
/// an error when empty).
pub fn plan_openrouter_chat(payload: OpenRouterChatRequest, s: &AppSettings) -> (r: Result<
    ChatCall,
    String,
>)
    ensures
        match r {
            Ok(call) => {
                &&& call.url@ == "https://openrouter.ai/api/v1/chat/completions"@
                &&& call.api_key@ == s.openrouter_api_key@
                &&& text::trim(call.api_key@).len() > 0
                &&& call.model@ == text::trim(or_else(payload.model, s.openrouter_provider@))
                &&& call.model@.len() > 0
                &&& messages_view(call.messages@) == messages_view(payload.messages@)
            },
            Err(e) => {
                ||| (text::trim(s.openrouter_api_key@).len() == 0
                    && e@ == "OpenRouter API key is missing"@)
                ||| (text::trim(s.openrouter_api_key@).len() > 0 && text::trim(
                    or_else(payload.model, s.openrouter_provider@),
                ).len() == 0 && e@ == "OpenRouter model/provider is missing"@)
            },
        },
{
    let model = match payload.model {
        Some(m) => trim_str(m.as_str()),
        None => trim_str(s.openrouter_provider.as_str()),
    };
    if trim_str(s.openrouter_api_key.as_str()).as_str().unicode_len() == 0 {
        return Err(String::from_str("OpenRouter API key is missing"));
    }
    if model.as_str().unicode_len() == 0 {
        return Err(String::from_str("OpenRouter model/provider is missing"));
    }
    Ok(
        ChatCall {
            url: String::from_str("https://openrouter.ai/api/v1/chat/completions"),
            model,
            messages: payload.messages,
            api_key: String::from_str(s.openrouter_api_key.as_str()),
        },
    )
}

/// An Ollama endpoint as the model list is fetched from it: without trailing
/// `'/'` characters, and then, if it ends with "/v1", without every trailing "/v1".
pub open spec fn spec_normalize_ollama_endpoint(e: Seq<char>) -> Seq<char> {
    let e1 = text::trim_end_class(e, CharClass::Slash);
    if text::ends_with(e1, "/v1"@) {
        text::strip_suffix_all(e1, "/v1"@)
    } else {
        e1
    }
}

/// Normalizes an Ollama endpoint given by the user.
pub fn normalize_ollama_endpoint(e: &str) -> (r: String)
    ensures
        r@ == spec_normalize_ollama_endpoint(e@),
{
    let v = chars_of(e);
    let e1 = trim_end_range(&v, 0, v.len(), CharClass::Slash);
    assert(v@.subrange(0, v@.len() as int) =~= v@);
    let suffix = chars_of("/v1");
    proof {
        reveal_strlit("/v1");
    }
    assert(suffix@.len() == 3);
    let ends = suffix.len() <= e1 && text::matches_at(&v, e1, &suffix, e1 - suffix.len());
    assert(ends == text::ends_with(v@.subrange(0, e1 as int), "/v1"@)) by {
        if suffix.len() <= e1 {
            assert(v@.subrange(0, e1 as int).subrange(e1 - suffix.len(), e1 as int) =~= v@.subrange(
                e1 - suffix.len(),
                e1 as int,
            ));
        }
    }
    if ends {
        let e2 = text::strip_suffix_all_range(&v, e1, &suffix);
        slice_string(e, 0, e2)
    } else {
        slice_string(e, 0, e1)
    }
}

/// The address of Ollama's model list for an endpoint given by the user.
pub fn ollama_tags_url(endpoint: &str) -> (r: String)
    ensures
        r@ == spec_normalize_ollama_endpoint(endpoint@) + "/api/tags"@,
{
    normalize_ollama_endpoint(endpoint).concat("/api/tags")
}

/// The string names of the models listed, in order (others skipped).
pub open spec fn model_names_of(items: Seq<Seq<char>>) -> Seq<Seq<char>>
    decreases items.len(),
{
    if items.len() == 0 {
        Seq::empty()
    } else {
        let prev = model_names_of(items.drop_last());
        match json::field_str(Some(items.last()), "name"@) {
            Some(n) => prev.push(n),
            None => prev,
        }
    }
}

/// What `model_names` returns for Ollama's `/api/tags` body.
pub open spec fn spec_model_names(body: Seq<char>) -> Result<Seq<Seq<char>>, Seq<char>> {
    match json::field_of_opt(Some(body), "models"@) {
        Some(m) => match json::json_items(m) {
            Some(items) => Ok(model_names_of(items)),
            None => Err("No models field in response"@),
        },
        None => Err("No models field in response"@),
    }
}

/// The names of the models in Ollama's `/api/tags` body.
pub fn model_names(body: &str) -> (r: Result<Vec<String>, String>)
    ensures
        match r {
            Ok(names) => spec_model_names(body@) == Ok::<Seq<Seq<char>>, Seq<char>>(
                names@.map_values(|s: String| s@),
            ),
            Err(e) => spec_model_names(body@) == Err::<Seq<Seq<char>>, Seq<char>>(e@),
        },
{
    let models = match field_of(body, "models") {
        Some(m) => m,
        None => return Err(String::from_str("No models field in response")),
    };
    let items = match items_of(models.as_str()) {
        Some(items) => items,
        None => return Err(String::from_str("No models field in response")),
    };
    let ghost iv = items@.map_values(|s: String| s@);
    let mut names: Vec<String> = Vec::new();
    let mut i: usize = 0;
    assert(iv.take(0) =~= Seq::<Seq<char>>::empty());
    assert(names@.map_values(|s: String| s@) =~= Seq::<Seq<char>>::empty());
    while i < items.len()
        invariant
            i <= items.len(),
            iv == items@.map_values(|s: String| s@),
            names@.map_values(|s: String| s@) == model_names_of(iv.take(i as int)),
        decreases items.len() - i,
    {
        assert(iv.take(i + 1).drop_last() =~= iv.take(i as int));
        assert(iv.take(i + 1).last() == items@[i as int]@);
        let ghost before = names@.map_values(|s: String| s@);
        match str_field_of(items[i].as_str(), "name") {
            Some(n) => {
                names.push(n);
                assert(names@.map_values(|s: String| s@) =~= before.push(names@[before.len() as int]@));
            },
            None => {},
        }
        i = i + 1;
    }
    assert(iv.take(items.len() as int) =~= iv);
    Ok(names)
}

/// The emotions that Ollama's one-word answer may name.
pub open spec fn is_reply_emotion(e: Seq<char>) -> bool {
    e == "happy"@ || e == "sad"@ || e == "angry"@ || e == "neutral"@ || e == "surprised"@ || e
        == "relaxed"@
}

/// `l` when it is one of the emotions, else "neutral".
pub open spec fn emotion_or_neutral(l: Seq<char>) -> Seq<char> {
    if is_reply_emotion(l) {
        l
    } else {
        "neutral"@
    }
}

/// What `normalize_emotion_reply` returns: the answer trimmed and in lower
/// case (`str::to_lowercase`) when that is one of the emotions, else "neutral".
pub open spec fn spec_normalize_emotion_reply(content: Seq<char>) -> Seq<char> {
    emotion_or_neutral(text::lowercase_of(text::trim(content)))
}

/// Reads the emotion that Ollama named in its answer.
pub fn normalize_emotion_reply(content: &str) -> (r: String)
    ensures
        r@ == spec_normalize_emotion_reply(content@),
        ({
            let lc = text::lowercase_of(text::trim(content@));
            &&& (lc == "happy"@ || lc == "sad"@ || lc == "angry"@ || lc == "neutral"@ || lc == "surprised"@
                || lc == "relaxed"@) ==> r@ == lc
            &&& !(lc == "happy"@ || lc == "sad"@ || lc == "angry"@ || lc == "neutral"@ || lc == "surprised"@
                || lc == "relaxed"@) ==> r@ == "neutral"@
        }),
{
    let t = trim_str(content);
    let l = to_lowercase(t.as_str());
    emotion_from_lowered(l)
}

/// The emotion named by `l`, an answer already trimmed and in lower case.
pub fn emotion_from_lowered(l: String) -> (r: String)
    ensures
        r@ == emotion_or_neutral(l@),
        (l@ == "happy"@ || l@ == "sad"@ || l@ == "angry"@ || l@ == "neutral"@ || l@ == "surprised"@
            || l@ == "relaxed"@) ==> r@ == l@,
        !(l@ == "happy"@ || l@ == "sad"@ || l@ == "angry"@ || l@ == "neutral"@ || l@ == "surprised"@
            || l@ == "relaxed"@) ==> r@ == "neutral"@,
{
    let ls = l.as_str();
    if str_eq(ls, "happy") || str_eq(ls, "sad") || str_eq(ls, "angry") || str_eq(ls, "neutral")
        || str_eq(ls, "surprised") || str_eq(ls, "relaxed") {
        l
    } else {
        String::from_str("neutral")
    }
}

/// The request that asks Ollama to name the emotion in `text`.
pub fn emotion_request(text: &str, ollama_endpoint: &str, model: &str) -> (r: (
    String,
    OllamaApiRequest,
))
    ensures
        r.0@ == ollama_endpoint@ + "/chat/completions"@,
        r.1.model@ == model@,
        !r.1.stream,
        messages_view(r.1.messages@) == seq![
            (
                "user"@,
                "Analyze the emotion in this text and respond with ONLY one word from this list: happy, sad, angry, neutral, surprised, relaxed. Text: \""@
                    + text@ + "\""@,
            ),
        ],
{
    let prompt = String::from_str(
        "Analyze the emotion in this text and respond with ONLY one word from this list: happy, sad, angry, neutral, surprised, relaxed. Text: \"",
    ).concat(text).concat("\"");
    let messages = vec![OllamaApiMessage { role: String::from_str("user"), content: prompt }];
    assert(messages_view(messages@) =~= seq![(messages@[0].role@, messages@[0].content@)]);
    (
        String::from_str(ollama_endpoint).concat("/chat/completions"),
        OllamaApiRequest { model: String::from_str(model), messages, stream: false },
    )
}

} // verus!
