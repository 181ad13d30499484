//! The screen vision helper: where it is installed, what is installed into
//! it, and how its process is started.
use vstd::prelude::*;
use crate::text::trim_str;
use crate::text;
use crate::settings::VisionServiceConfig;
use crate::encoding::decimal;
use crate::encoding;

verus! {

/// A file system path as its components: the first is the base, each later
/// one is joined onto it (`Path::join`).
pub struct FsPath {
    pub parts: Vec<String>,
}

impl View for FsPath {
    type V = Seq<Seq<char>>;

    open spec fn view(&self) -> Seq<Seq<char>> {
        self.parts@.map_values(|s: String| s@)
    }
}

impl FsPath {
    /// The path `base`.
    pub fn new(base: String) -> (r: FsPath)
        ensures
            r@ == seq![base@],
    {
        let parts = vec![base];
        assert(parts@.map_values(|s: String| s@) =~= seq![parts@[0]@]);
        FsPath { parts }
    }

    /// `self.join(part)`.
    pub fn join(&self, part: &str) -> (r: FsPath)
        ensures
            r@ == self@.push(part@),
    {
        let mut parts: Vec<String> = Vec::new();
        let mut i: usize = 0;
        while i < self.parts.len()
            invariant
                i <= self.parts.len(),
                parts@.map_values(|s: String| s@) == self@.take(i as int),
            decreases self.parts.len() - i,
        {
            let ghost before = parts@.map_values(|s: String| s@);
            parts.push(String::from_str(self.parts[i].as_str()));
            assert(self@[i as int] == self.parts@[i as int]@);
            assert(parts@.map_values(|s: String| s@) =~= before.push(self@[i as int]));
            assert(self@.take(i + 1) =~= self@.take(i as int).push(self@[i as int]));
            i = i + 1;
        }
        assert(self@.take(self.parts.len() as int) =~= self@);
        parts.push(String::from_str(part));
        assert(parts@.map_values(|s: String| s@) =~= self@.push(part@));
        FsPath { parts }
    }
}

/// The file whose presence marks a finished vision install in `dir`.
pub fn vision_install_marker(dir: &FsPath) -> (r: FsPath)
    ensures
        r@ == dir@.push("VISION_OK"@),
{
    dir.join("VISION_OK")
}

/// The Python interpreter of the virtual environment `venv_dir`:
/// `Scripts\python.exe` on Windows, `bin/python3` elsewhere.
pub fn venv_python(venv_dir: &FsPath, windows: bool) -> (r: FsPath)
    ensures
        r@ == if windows {
            venv_dir@.push("Scripts"@).push("python.exe"@)
        } else {
            venv_dir@.push("bin"@).push("python3"@)
        },
{
    if windows {
        venv_dir.join("Scripts").join("python.exe")
    } else {
        venv_dir.join("bin").join("python3")
    }
}

/// The pip arguments tried in turn to install PyTorch, best first.
pub open spec fn torch_options() -> Seq<Seq<Seq<char>>> {
    seq![
        seq!["torch==2.10.0+cu121"@, "--index-url"@, "https://download.pytorch.org/whl/cu121"@],
        seq!["torch==2.10.0+cpu"@, "--index-url"@, "https://download.pytorch.org/whl/cpu"@],
        seq!["torch==2.4.1+cu121"@, "--index-url"@, "https://download.pytorch.org/whl/cu121"@],
        seq!["torch==2.4.1+cpu"@, "--index-url"@, "https://download.pytorch.org/whl/cpu"@],
        seq!["torch"@, "--index-url"@, "https://download.pytorch.org/whl/cpu"@],
        seq!["torch"@],
    ]
}

/// The list of strings, by their views.
pub open spec fn strs_view(v: Vec<&'static str>) -> Seq<Seq<char>> {
    v@.map_values(|s: &'static str| s@)
}

/// The pip argument lists to try for PyTorch (the same for every Python tag).
pub fn torch_install_options(_py_tag: &str) -> (r: Vec<Vec<&'static str>>)
    ensures
        r@.map_values(|o: Vec<&'static str>| strs_view(o)) == torch_options(),
{
    let o1 = vec!["torch==2.10.0+cu121", "--index-url", "https://download.pytorch.org/whl/cu121"];
    let o2 = vec!["torch==2.10.0+cpu", "--index-url", "https://download.pytorch.org/whl/cpu"];
    let o3 = vec!["torch==2.4.1+cu121", "--index-url", "https://download.pytorch.org/whl/cu121"];
    let o4 = vec!["torch==2.4.1+cpu", "--index-url", "https://download.pytorch.org/whl/cpu"];
    let o5 = vec!["torch", "--index-url", "https://download.pytorch.org/whl/cpu"];
    let o6 = vec!["torch"];
    assert(strs_view(o1) =~= torch_options()[0]);
    assert(strs_view(o2) =~= torch_options()[1]);
    assert(strs_view(o3) =~= torch_options()[2]);
    assert(strs_view(o4) =~= torch_options()[3]);
    assert(strs_view(o5) =~= torch_options()[4]);
    assert(strs_view(o6) =~= torch_options()[5]);
    let r = vec![o1, o2, o3, o4, o5, o6];
    assert(r@.map_values(|o: Vec<&'static str>| strs_view(o)) =~= torch_options());
    r
}

/// The Python tag printed by the interpreter (such as `cp311`), if any:
/// the output trimmed, when that is not empty.
pub fn python_tag_from_output(stdout: &str) -> (r: Option<String>)
    ensures
        match r {
            Some(t) => t@ == text::trim(stdout@) && t@.len() > 0,
            None => text::trim(stdout@).len() == 0,
        },
{
    let t = trim_str(stdout);
    if t.as_str().unicode_len() == 0 {
        None
    } else {
        Some(t)
    }
}

/// The Python tag to install for: the detected one, else `cp311`.
pub fn python_tag_or_default(detected: Option<String>) -> (r: String)
    ensures
        r@ == match detected {
            Some(t) => t@,
            None => "cp311"@,
        },
{
    match detected {
        Some(t) => t,
        None => String::from_str("cp311"),
    }
}

/// The arguments after the script when starting the vision service, given
/// the capture interval already printed with two decimals.
pub fn vision_service_args(port: u16, interval_text: &str, width: u32) -> (r: Vec<String>)
    ensures
        r@.map_values(|s: String| s@) == seq![
            "--port"@,
            encoding::decimal_text(port as nat),
            "--interval"@,
            interval_text@,
            "--width"@,
            encoding::decimal_text(width as nat),
            "--format"@,
            "webp"@,
            "--quality"@,
            "75"@,
        ],
{
    let r = vec![
        String::from_str("--port"),
        decimal(port as u64),
        String::from_str("--interval"),
        String::from_str(interval_text),
        String::from_str("--width"),
        decimal(width as u64),
        String::from_str("--format"),
        String::from_str("webp"),
        String::from_str("--quality"),
        String::from_str("75"),
    ];
    assert(r@.map_values(|s: String| s@) =~= seq![
        "--port"@,
        encoding::decimal_text(port as nat),
        "--interval"@,
        interval_text@,
        "--width"@,
        encoding::decimal_text(width as nat),
        "--format"@,
        "webp"@,
        "--quality"@,
        "75"@,
    ]);
    r
}

/// The environment the vision service is started with.
pub fn vision_service_env(cfg: &VisionServiceConfig) -> (r: Vec<(String, String)>)
    ensures
        r@.map_values(|e: (String, String)| (e.0@, e.1@)) == seq![
            ("VISION_API_TYPE"@, cfg.provider@),
            ("VISION_MODEL"@, cfg.model@),
            ("VISION_API_KEY"@, cfg.api_key@),
            ("VISION_OLLAMA_ENDPOINT"@, cfg.ollama_endpoint@),
            ("VISION_OPENCLAW_ENDPOINT"@, cfg.openclaw_endpoint@),
        ],
{
    let r = vec![
        (String::from_str("VISION_API_TYPE"), String::from_str(cfg.provider.as_str())),
        (String::from_str("VISION_MODEL"), String::from_str(cfg.model.as_str())),
        (String::from_str("VISION_API_KEY"), String::from_str(cfg.api_key.as_str())),
        (String::from_str("VISION_OLLAMA_ENDPOINT"), String::from_str(cfg.ollama_endpoint.as_str())),
        (
            String::from_str("VISION_OPENCLAW_ENDPOINT"),
            String::from_str(cfg.openclaw_endpoint.as_str()),
        ),
    ];
    assert(r@.map_values(|e: (String, String)| (e.0@, e.1@)) =~= seq![
        ("VISION_API_TYPE"@, cfg.provider@),
        ("VISION_MODEL"@, cfg.model@),
        ("VISION_API_KEY"@, cfg.api_key@),
        ("VISION_OLLAMA_ENDPOINT"@, cfg.ollama_endpoint@),
        ("VISION_OPENCLAW_ENDPOINT"@, cfg.openclaw_endpoint@),
    ]);
    r
}

/// The arguments after the script when starting the speech-to-text server.
pub fn stt_server_args(port: u16) -> (r: Vec<String>)
    ensures
        r@.map_values(|s: String| s@) == seq!["--port"@, encoding::decimal_text(port as nat)],
{
    let r = vec![String::from_str("--port"), decimal(port as u64)];
    assert(r@.map_values(|s: String| s@) =~= seq!["--port"@, encoding::decimal_text(port as nat)]);
    r
}

/// The settings file: `{APPDATA, else HOME, else "."}/OllamaGUI/settings.json`.
pub fn settings_path(app_data: Option<String>, home: Option<String>) -> (r: FsPath)
    ensures
        r@ == seq![
            match app_data {
                Some(a) => a@,
                None => match home {
                    Some(h) => h@,
                    None => "."@,
                },
            },
            "OllamaGUI"@,
            "settings.json"@,
        ],
{
    let base = match app_data {
        Some(a) => a,
        None => match home {
            Some(h) => h,
            None => String::from_str("."),
        },
    };
    FsPath::new(base).join("OllamaGUI").join("settings.json")
}

/// The default vision install directory: `{APPDATA}/OllamaGUI/Vision`, or
/// `Vision` when APPDATA is not set.
pub fn default_vision_install_path(app_data: Option<String>) -> (r: FsPath)
    ensures
        r@ == match app_data {
            Some(a) => seq![a@, "OllamaGUI"@, "Vision"@],
            None => seq!["Vision"@],
        },
{
    match app_data {
        Some(a) => FsPath::new(a).join("OllamaGUI").join("Vision"),
        None => FsPath::new(String::from_str("Vision")),
    }
}

/// The vision service's interpreter and script in the install directory.
pub fn vision_service_paths(install_dir: &FsPath) -> (r: (FsPath, FsPath))
    ensures
        r.0@ == install_dir@.push("venv"@).push("Scripts"@).push("python.exe"@),
        r.1@ == install_dir@.push("screen_vision_service.py"@),
{
    (
        install_dir.join("venv").join("Scripts").join("python.exe"),
        install_dir.join("screen_vision_service.py"),
    )
}

} // verus!
