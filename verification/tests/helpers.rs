use local_companion::emotion::{
    emotion_file_candidates, fit_token_row, ort_dylib_candidates, proto_texts,
};
use local_companion::encoding::{
    client_id, decimal, mp3_data_url, png_encodings, vision_latest_url,
};
use local_companion::settings::AppSettings;
use local_companion::speech::plan_speech;
use local_companion::vision::{
    default_vision_install_path, python_tag_from_output, python_tag_or_default, settings_path,
    stt_server_args, torch_install_options, venv_python, vision_install_marker,
    vision_service_args, vision_service_env, vision_service_paths, FsPath,
};
use local_companion::settings::resolve_vision_service_config;

#[test]
fn data_urls() {
    assert_eq!(
        png_encodings(b"abc"),
        ("YWJj".to_string(), "data:image/png;base64,YWJj".to_string())
    );
    assert_eq!(mp3_data_url(b"ab"), "data:audio/mpeg;base64,YWI=");
    assert_eq!(mp3_data_url(&[0xff, 0x00]), "data:audio/mpeg;base64,/wA=");
    assert_eq!(mp3_data_url(&[]), "data:audio/mpeg;base64,");
    assert_eq!(
        png_encodings(b"hello world~").0,
        "aGVsbG8gd29ybGR+"
    );
    assert_eq!(
        png_encodings(&[0xfb, 0xff, 0xbf, 0x00]).0,
        "+/+/AA=="
    );
}

#[test]
fn decimal_numbers() {
    assert_eq!(decimal(0), "0");
    assert_eq!(decimal(7), "7");
    assert_eq!(decimal(8777), "8777");
    assert_eq!(decimal(u64::MAX), u64::MAX.to_string());
    assert_eq!(vision_latest_url(8777), "http://127.0.0.1:8777/latest");
    assert_eq!(client_id(12), "client_12");
}

#[test]
fn speech_plan() {
    let mut s = AppSettings::default_with_install_dir("V".to_string());
    assert_eq!(plan_speech(None, &s).err(), Some("No text provided".to_string()));
    assert_eq!(
        plan_speech(Some("hi".to_string()), &s).err(),
        Some("Only ElevenLabs TTS is supported. Please provide an API key.".to_string())
    );
    s.tts_engine = "elevenlabs".to_string();
    assert_eq!(
        plan_speech(Some("hi".to_string()), &s).err(),
        Some("ElevenLabs API key is missing".to_string())
    );
    s.tts_api_key = " xi ".to_string();
    let p = match plan_speech(Some("hi".to_string()), &s) {
        Ok(p) => p,
        Err(e) => panic!("{}", e),
    };
    assert_eq!(p.url, "https://api.elevenlabs.io/v1/text-to-speech/21m00Tcm4TlvDq8ikWAM");
    assert_eq!(p.api_key, "xi");
    assert_eq!(p.text, "hi");
    s.tts_voice_id = " voice9 ".to_string();
    let p = match plan_speech(Some("hi".to_string()), &s) {
        Ok(p) => p,
        Err(e) => panic!("{}", e),
    };
    assert_eq!(p.url, "https://api.elevenlabs.io/v1/text-to-speech/voice9");
}

fn parts(p: &FsPath) -> Vec<&str> {
    p.parts.iter().map(|s| s.as_str()).collect()
}

#[test]
fn vision_paths() {
    let dir = FsPath::new("C:\\V".to_string());
    assert_eq!(parts(&vision_install_marker(&dir)), vec!["C:\\V", "VISION_OK"]);
    let venv = dir.join("venv");
    assert_eq!(parts(&venv_python(&venv, true)), vec!["C:\\V", "venv", "Scripts", "python.exe"]);
    assert_eq!(parts(&venv_python(&venv, false)), vec!["C:\\V", "venv", "bin", "python3"]);
    let (py, script) = vision_service_paths(&dir);
    assert_eq!(parts(&py), vec!["C:\\V", "venv", "Scripts", "python.exe"]);
    assert_eq!(parts(&script), vec!["C:\\V", "screen_vision_service.py"]);
    assert_eq!(
        parts(&settings_path(None, Some("/home/u".to_string()))),
        vec!["/home/u", "OllamaGUI", "settings.json"]
    );
    assert_eq!(parts(&settings_path(None, None)), vec![".", "OllamaGUI", "settings.json"]);
    assert_eq!(
        parts(&settings_path(Some("A".to_string()), Some("H".to_string()))),
        vec!["A", "OllamaGUI", "settings.json"]
    );
    assert_eq!(parts(&default_vision_install_path(None)), vec!["Vision"]);
    assert_eq!(
        parts(&default_vision_install_path(Some("A".to_string()))),
        vec!["A", "OllamaGUI", "Vision"]
    );
}

#[test]
fn torch_options_table() {
    let opts = torch_install_options("cp311");
    assert_eq!(opts.len(), 6);
    assert_eq!(opts[0], vec!["torch==2.10.0+cu121", "--index-url", "https://download.pytorch.org/whl/cu121"]);
    assert_eq!(opts[5], vec!["torch"]);
    assert_eq!(opts, torch_install_options("cp39"));
}

#[test]
fn python_tags() {
    assert_eq!(python_tag_from_output(" cp312\r\n"), Some("cp312".to_string()));
    assert_eq!(python_tag_from_output("  \n"), None);
    assert_eq!(python_tag_or_default(None), "cp311");
    assert_eq!(python_tag_or_default(Some("cp310".to_string())), "cp310");
}

#[test]
fn service_arguments() {
    assert_eq!(
        vision_service_args(8777, "2.00", 960),
        vec!["--port", "8777", "--interval", "2.00", "--width", "960", "--format", "webp", "--quality", "75"]
    );
    assert_eq!(stt_server_args(5001), vec!["--port", "5001"]);
    let mut s = AppSettings::default_with_install_dir("V".to_string());
    s.vision_api_key = "vk".to_string();
    let env = vision_service_env(&resolve_vision_service_config(&s));
    assert_eq!(env.len(), 5);
    assert_eq!(env[0], ("VISION_API_TYPE".to_string(), "ollama".to_string()));
    assert_eq!(env[2], ("VISION_API_KEY".to_string(), "vk".to_string()));
    assert_eq!(env[3], ("VISION_OLLAMA_ENDPOINT".to_string(), "http://127.0.0.1:11434".to_string()));
}

#[test]
fn prototype_sentences() {
    let t = proto_texts();
    let labels: Vec<&str> = t.iter().map(|(l, _)| *l).collect();
    assert_eq!(
        labels,
        vec!["happy", "sad", "angry", "surprise", "fear", "neutral", "relaxed", "horny", "aroused", "dominant", "submissive"]
    );
    assert!(t.iter().all(|(_, v)| v.len() == 10));
    assert_eq!(t[0].1[0], "I’m so happy right now.");
    assert_eq!(t[10].1[9], "I crave to be under your control and direction.");
}

#[test]
fn token_rows_fitted() {
    assert_eq!(fit_token_row(&vec![101, 7, 102], 5), vec![101, 7, 102, 0, 0]);
    assert_eq!(fit_token_row(&vec![1, 2, 3, 4], 2), vec![1, 2]);
    assert_eq!(fit_token_row(&vec![], 0), Vec::<i64>::new());
}

#[test]
fn emotion_resource_candidates() {
    let exe = FsPath::new("/opt/app".to_string());
    let c = emotion_file_candidates("/src/tauri", &exe, "tokenizer.json");
    let got: Vec<Vec<&str>> = c.iter().map(parts).collect();
    assert_eq!(
        got,
        vec![
            vec!["/src/tauri/resources/emotion/tokenizer.json"],
            vec!["/opt/app", "resources/emotion/tokenizer.json"],
            vec!["/opt/app", "../resources/emotion/tokenizer.json"],
            vec!["/opt/app", "../../resources/emotion/tokenizer.json"],
            vec!["/opt/app", "../../../resources/emotion/tokenizer.json"],
            vec!["/opt/app", "../../../../resources/emotion/tokenizer.json"],
            vec!["src-tauri/resources/emotion/tokenizer.json"],
            vec!["resources/emotion/tokenizer.json"],
            vec!["S:/OpenClaw/OllamaGUI/local-companion/src-tauri/resources/emotion/tokenizer.json"],
        ]
    );
}

#[test]
fn ort_library_candidates() {
    let exe = FsPath::new("C:/bin".to_string());
    let c = ort_dylib_candidates(".", &exe);
    let got: Vec<Vec<&str>> = c.iter().map(parts).collect();
    assert_eq!(got.len(), 7);
    assert_eq!(got[0], vec!["./resources/onnxruntime/onnxruntime.dll"]);
    assert_eq!(got[1], vec!["C:/bin", "resources/onnxruntime/onnxruntime.dll"]);
    assert_eq!(got[5], vec!["C:/bin", "../../../../resources/onnxruntime/onnxruntime.dll"]);
    assert_eq!(
        got[6],
        vec!["S:/OpenClaw/OllamaGUI/local-companion/src-tauri/resources/onnxruntime/onnxruntime.dll"]
    );
}
