use local_companion::reply::{
    classify_line, clean_ollama_response, extract_feeling, extract_feeling_given, join_strings,
    strip_code_fences,
};

fn clean(raw: &str) -> (String, String) {
    clean_ollama_response(raw)
}

#[test]
fn strip_code_fences_trims_plain_reply() {
    assert_eq!(strip_code_fences("  hello world \n"), "hello world");
}

#[test]
fn strip_code_fences_removes_json_fence() {
    assert_eq!(strip_code_fences("```json\n{\"a\":1}\n```"), "{\"a\":1}");
}

#[test]
fn strip_code_fences_without_newline_is_empty() {
    assert_eq!(strip_code_fences("```"), "");
    assert_eq!(strip_code_fences("  ```json  "), "");
}

#[test]
fn strip_code_fences_without_closing_fence_keeps_body() {
    assert_eq!(strip_code_fences("```python\nprint(1)\n"), "print(1)");
}

#[test]
fn strip_code_fences_cuts_at_last_fence() {
    assert_eq!(strip_code_fences("```\nA\n```\nB\n```\ntail"), "A\n```\nB");
}

#[test]
fn strip_code_fences_output_is_trimmed() {
    for raw in ["  x  ", "```\n  y  \n```  ", "```md\n\n z\n\n", "\t```\n```\n"] {
        let out = strip_code_fences(raw);
        assert_eq!(out.trim(), out);
    }
}

#[test]
fn strip_code_fences_keeps_trimmed_unfenced_text() {
    assert_eq!(strip_code_fences("plain `code` here"), "plain `code` here");
}

#[test]
fn extract_feeling_reads_marker() {
    assert_eq!(extract_feeling("(Feeling: Happy!)"), Some("Happy".to_string()));
    assert_eq!(extract_feeling("  (feeling:  calm. )  "), Some("calm".to_string()));
    assert_eq!(extract_feeling("(FEELING: Sad...)"), Some("Sad".to_string()));
}

#[test]
fn extract_feeling_rejects_other_lines() {
    assert_eq!(extract_feeling("(feeling: )"), None);
    assert_eq!(extract_feeling("(feeling: !!.)"), None);
    assert_eq!(extract_feeling("feeling: happy"), None);
    assert_eq!(extract_feeling("(feeling: happy"), None);
    assert_eq!(extract_feeling("I have a feeling: (happy)"), None);
}

#[test]
fn extract_feeling_value_has_no_end_punctuation() {
    for line in ["(feeling: wow!)", "(feeling: ..ok..)", "(Feeling:: sure.)"] {
        if let Some(v) = extract_feeling(line) {
            assert!(!v.is_empty());
            assert_eq!(v.trim_matches(|c| c == '.' || c == '!'), v);
        }
    }
    assert_eq!(extract_feeling("(Feeling:: sure.)"), Some(": sure".to_string()));
}

#[test]
fn clean_reply_reads_json_object() {
    let (text, emotion) = clean("{\"text\": \"  Hi there \", \"emotion\": \" happy \"}");
    assert_eq!(text, "Hi there");
    assert_eq!(emotion, "happy");
}

#[test]
fn clean_reply_json_without_emotion_is_neutral() {
    assert_eq!(clean("{\"text\":\"Hi\"}"), ("Hi".to_string(), "neutral".to_string()));
    assert_eq!(clean("{\"text\":\"Hi\",\"emotion\":3}"), ("Hi".to_string(), "neutral".to_string()));
}

#[test]
fn clean_reply_reads_fenced_json() {
    let (text, emotion) = clean("```json\n{\"text\":\"Yo\",\"emotion\":\"sad\"}\n```");
    assert_eq!(text, "Yo");
    assert_eq!(emotion, "sad");
}

#[test]
fn clean_reply_lines_and_first_marker() {
    let (text, emotion) =
        clean("Hello there.\n(Feeling: happy)\n\n  How are you?  \r\n(feeling: sad)");
    assert_eq!(text, "Hello there.\n\nHow are you?");
    assert_eq!(emotion, "happy");
}

#[test]
fn clean_reply_drops_json_field_remarks() {
    let (text, emotion) = clean("Sure!\nHere it is WITHOUT the JSON field:\nDone");
    assert_eq!(text, "Sure!\n\nDone");
    assert_eq!(emotion, "neutral");
}

#[test]
fn clean_reply_only_marker_keeps_whole_reply() {
    let (text, emotion) = clean("  (feeling: angry)  ");
    assert_eq!(text, "(feeling: angry)");
    assert_eq!(emotion, "angry");
}

#[test]
fn clean_reply_empty_reply() {
    assert_eq!(clean(""), (String::new(), "neutral".to_string()));
    assert_eq!(clean(" \n\n "), (String::new(), "neutral".to_string()));
}

#[test]
fn clean_reply_non_string_text_falls_back_to_lines() {
    assert_eq!(clean("{\"text\": 5}"), ("{\"text\": 5}".to_string(), "neutral".to_string()));
}

#[test]
fn clean_reply_fallback_emotion_never_empty() {
    for raw in ["a\nb", "(feeling: x)\n(feeling: y)", "", "```\n(feeling: ok!)\n```"] {
        let (_, emotion) = clean(raw);
        assert!(!emotion.is_empty());
    }
}

#[test]
fn join_strings_puts_separator_between() {
    let parts = vec!["a".to_string(), "b".to_string(), "c".to_string()];
    assert_eq!(join_strings(&parts, ", "), "a, b, c");
    assert_eq!(join_strings(&vec![], ", "), "");
    assert_eq!(join_strings(&vec!["x".to_string()], ", "), "x");
}

#[test]
fn feeling_given_lower_form() {
    assert_eq!(
        extract_feeling_given(" (Feeling: Happy!) ", "(feeling: happy!)"),
        Some("Happy".to_string())
    );
    assert_eq!(extract_feeling_given("(feeling: happy)", "not a marker"), None);
    assert_eq!(extract_feeling_given("(feeling:)", "(feeling:)"), None);
    assert_eq!(extract_feeling_given("(feeling happy)", "(feeling: happy)"), None);
}

#[test]
fn line_classification() {
    assert_eq!(classify_line("", ""), (true, None));
    assert_eq!(
        classify_line("Answer without the JSON field", "answer without the json field"),
        (true, None)
    );
    assert_eq!(classify_line("Hello", "hello without the json field here"), (true, None));
    assert_eq!(
        classify_line("(feeling: sad.)", "(feeling: sad.)"),
        (false, Some("sad".to_string()))
    );
    assert_eq!(classify_line("Hello", "hello"), (false, None));
}
