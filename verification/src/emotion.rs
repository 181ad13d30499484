//! The local emotion classifier's fixed data, and how token rows are fitted
//! to the model's input length.
use vstd::prelude::*;
use crate::vision::FsPath;

verus! {

/// The example sentences for each emotion, in label order.
pub open spec fn proto_table() -> Seq<(Seq<char>, Seq<Seq<char>>)> {
    seq![
        (
            "happy"@,
            seq![
                "I’m so happy right now."@,
                "This makes me smile."@,
                "I feel joyful and light."@,
                "That’s wonderful news."@,
                "I’m delighted with this."@,
                "I’m in a great mood."@,
                "I’m thrilled."@,
                "This is fantastic."@,
                "I’m really pleased."@,
                "Everything feels bright."@,
            ],
        ),
        (
            "sad"@,
            seq![
                "I feel really down today."@,
                "This makes me want to cry."@,
                "I’m heartbroken."@,
                "I feel empty inside."@,
                "I’m overwhelmed by sadness."@,
                "I’m feeling blue."@,
                "I’m disappointed."@,
                "I’m sorrowful."@,
                "This hurts deeply."@,
                "I’m upset and low."@,
            ],
        ),
        (
            "angry"@,
            seq![
                "This makes me furious."@,
                "I’m really annoyed right now."@,
                "I can’t stand this anymore."@,
                "I’m fuming with anger."@,
                "This really ticks me off."@,
                "I’m enraged."@,
                "I’m boiling with anger."@,
                "This frustrates me."@,
                "I’m livid about this."@,
                "I’m mad right now."@,
            ],
        ),
        (
            "surprise"@,
            seq![
                "Wow, I didn’t expect that."@,
                "That’s a shocker."@,
                "I’m completely surprised."@,
                "This caught me off guard."@,
                "I can’t believe it happened."@,
                "That was unexpected."@,
                "I’m astonished."@,
                "I’m startled by this."@,
                "This is surprising."@,
                "I’m amazed right now."@,
            ],
        ),
        (
            "fear"@,
            seq![
                "I’m scared of this."@,
                "This makes me nervous."@,
                "I feel threatened."@,
                "I’m afraid of what’s next."@,
                "This is frightening me."@,
                "I’m worried and tense."@,
                "I’m anxious about this."@,
                "This terrifies me."@,
                "I’m uneasy right now."@,
                "I feel danger coming."@,
            ],
        ),
        (
            "neutral"@,
            seq![
                "I have no strong feelings about this."@,
                "This seems ordinary."@,
                "I feel indifferent."@,
                "Nothing stands out here."@,
                "I’m just observing calmly."@,
                "I’m neutral on this."@,
                "It’s neither good nor bad."@,
                "I’m fine either way."@,
                "This is okay."@,
                "I’m steady and calm."@,
            ],
        ),
        (
            "relaxed"@,
            seq![
                "I feel calm and at ease."@,
                "This is soothing."@,
                "I’m chilling peacefully."@,
                "I’m comfortable and relaxed."@,
                "Everything feels tranquil."@,
                "I’m unwinding now."@,
                "This is restful."@,
                "I’m serene."@,
                "I’m cool and easygoing."@,
                "This is calming me."@,
            ],
        ),
        (
            "horny"@,
            seq![
                "I’m feeling really horny right now."@,
                "You’re turning me on so much."@,
                "I’m craving your touch."@,
                "I feel intensely aroused."@,
                "You make me wet just thinking about you."@,
                "You make me hard just thinking about you."@,
                "I’m burning with desire."@,
                "I’m dripping with need."@,
                "I’m in a lustful mood."@,
                "I need you badly."@,
            ],
        ),
        (
            "aroused"@,
            seq![
                "I’m getting so aroused."@,
                "That’s making my body react."@,
                "I feel heat rising inside me."@,
                "I’m in a sensual mood."@,
                "This is stirring me up."@,
                "I’m feeling flushed."@,
                "I’m excited physically."@,
                "I’m warming up with desire."@,
                "This is turning me on gently."@,
                "I’m starting to crave more."@,
            ],
        ),
        (
            "dominant"@,
            seq![
                "I own you. You will kneel to me."@,
                "I command you and you obey immediately."@,
                "Your only job is to follow my orders."@,
                "Do exactly as I say without hesitation."@,
                "I control every move you make."@,
                "You exist to serve me; I am above you."@,
                "Kneel and stay there until I allow otherwise."@,
                "You answer only to me; I am in charge."@,
                "I punish disobedience; you will comply."@,
                "My authority is absolute; your obedience is expected."@,
            ],
        ),
        (
            "submissive"@,
            seq![
                "I obey you; your word is my command."@,
                "Tell me what to do and I will do it."@,
                "I exist to serve you and follow orders."@,
                "I kneel for you and wait for instructions."@,
                "Your control over me is total; I comply."@,
                "I accept punishment and submit to your rule."@,
                "I’m devoted to obeying you completely."@,
                "I follow every command you give without question."@,
                "I am beneath you and ready to serve."@,
                "I crave to be under your control and direction."@,
            ],
        ),
    ]
}

/// A list of strings, by their views.
pub open spec fn str_list_view(v: Vec<&'static str>) -> Seq<Seq<char>> {
    v@.map_values(|s: &'static str| s@)
}

/// The example sentences by emotion label, in label order.
pub fn proto_texts() -> (r: Vec<(&'static str, Vec<&'static str>)>)
    ensures
        r@.map_values(|e: (&'static str, Vec<&'static str>)| (e.0@, str_list_view(e.1)))
            == proto_table(),
{
    let t0 = vec!["I’m so happy right now.", "This makes me smile.", "I feel joyful and light.", "That’s wonderful news.", "I’m delighted with this.", "I’m in a great mood.", "I’m thrilled.", "This is fantastic.", "I’m really pleased.", "Everything feels bright."];
    assert(str_list_view(t0) =~= proto_table()[0].1);
    let t1 = vec!["I feel really down today.", "This makes me want to cry.", "I’m heartbroken.", "I feel empty inside.", "I’m overwhelmed by sadness.", "I’m feeling blue.", "I’m disappointed.", "I’m sorrowful.", "This hurts deeply.", "I’m upset and low."];
    assert(str_list_view(t1) =~= proto_table()[1].1);
    let t2 = vec!["This makes me furious.", "I’m really annoyed right now.", "I can’t stand this anymore.", "I’m fuming with anger.", "This really ticks me off.", "I’m enraged.", "I’m boiling with anger.", "This frustrates me.", "I’m livid about this.", "I’m mad right now."];
    assert(str_list_view(t2) =~= proto_table()[2].1);
    let t3 = vec!["Wow, I didn’t expect that.", "That’s a shocker.", "I’m completely surprised.", "This caught me off guard.", "I can’t believe it happened.", "That was unexpected.", "I’m astonished.", "I’m startled by this.", "This is surprising.", "I’m amazed right now."];
    assert(str_list_view(t3) =~= proto_table()[3].1);
    let t4 = vec!["I’m scared of this.", "This makes me nervous.", "I feel threatened.", "I’m afraid of what’s next.", "This is frightening me.", "I’m worried and tense.", "I’m anxious about this.", "This terrifies me.", "I’m uneasy right now.", "I feel danger coming."];
    assert(str_list_view(t4) =~= proto_table()[4].1);
    let t5 = vec!["I have no strong feelings about this.", "This seems ordinary.", "I feel indifferent.", "Nothing stands out here.", "I’m just observing calmly.", "I’m neutral on this.", "It’s neither good nor bad.", "I’m fine either way.", "This is okay.", "I’m steady and calm."];
    assert(str_list_view(t5) =~= proto_table()[5].1);
    let t6 = vec!["I feel calm and at ease.", "This is soothing.", "I’m chilling peacefully.", "I’m comfortable and relaxed.", "Everything feels tranquil.", "I’m unwinding now.", "This is restful.", "I’m serene.", "I’m cool and easygoing.", "This is calming me."];
    assert(str_list_view(t6) =~= proto_table()[6].1);
    let t7 = vec!["I’m feeling really horny right now.", "You’re turning me on so much.", "I’m craving your touch.", "I feel intensely aroused.", "You make me wet just thinking about you.", "You make me hard just thinking about you.", "I’m burning with desire.", "I’m dripping with need.", "I’m in a lustful mood.", "I need you badly."];
    assert(str_list_view(t7) =~= proto_table()[7].1);
    let t8 = vec!["I’m getting so aroused.", "That’s making my body react.", "I feel heat rising inside me.", "I’m in a sensual mood.", "This is stirring me up.", "I’m feeling flushed.", "I’m excited physically.", "I’m warming up with desire.", "This is turning me on gently.", "I’m starting to crave more."];
    assert(str_list_view(t8) =~= proto_table()[8].1);
    let t9 = vec!["I own you. You will kneel to me.", "I command you and you obey immediately.", "Your only job is to follow my orders.", "Do exactly as I say without hesitation.", "I control every move you make.", "You exist to serve me; I am above you.", "Kneel and stay there until I allow otherwise.", "You answer only to me; I am in charge.", "I punish disobedience; you will comply.", "My authority is absolute; your obedience is expected."];
    assert(str_list_view(t9) =~= proto_table()[9].1);
    let t10 = vec!["I obey you; your word is my command.", "Tell me what to do and I will do it.", "I exist to serve you and follow orders.", "I kneel for you and wait for instructions.", "Your control over me is total; I comply.", "I accept punishment and submit to your rule.", "I’m devoted to obeying you completely.", "I follow every command you give without question.", "I am beneath you and ready to serve.", "I crave to be under your control and direction."];
    assert(str_list_view(t10) =~= proto_table()[10].1);
    let r = vec![("happy", t0), ("sad", t1), ("angry", t2), ("surprise", t3), ("fear", t4), ("neutral", t5), ("relaxed", t6), ("horny", t7), ("aroused", t8), ("dominant", t9), ("submissive", t10)];
    assert(r@.map_values(|e: (&'static str, Vec<&'static str>)| (e.0@, str_list_view(e.1)))
        =~= proto_table());
    r
}

/// A token row fitted to `max_len`: cut to its first `max_len` entries, or
/// padded with zeros, each entry widened to `i64`.
pub open spec fn fitted_row(row: Seq<u32>, max_len: nat) -> Seq<i64> {
    Seq::new(max_len, |i: int| if i < row.len() { row[i] as i64 } else { 0i64 })
}

/// Fits a row of token ids, attention mask or type ids to the model's input length.
pub fn fit_token_row(row: &Vec<u32>, max_len: usize) -> (r: Vec<i64>)
    ensures
        r@ == fitted_row(row@, max_len as nat),
{
    let mut out: Vec<i64> = Vec::new();
    let mut i: usize = 0;
    while i < max_len
        invariant
            i <= max_len,
            out@ =~= fitted_row(row@, max_len as nat).take(i as int),
        decreases max_len - i,
    {
        if i < row.len() {
            out.push(row[i] as i64);
        } else {
            out.push(0);
        }
        i = i + 1;
    }
    out
}

/// `rel` beside the executable's directory and in each of the four
/// directories above it, nearest first.
pub open spec fn beside_exe(exe_dir: Seq<Seq<char>>, rel: Seq<char>) -> Seq<Seq<Seq<char>>> {
    seq![
        exe_dir.push(rel),
        exe_dir.push("../"@ + rel),
        exe_dir.push("../../"@ + rel),
        exe_dir.push("../../../"@ + rel),
        exe_dir.push("../../../../"@ + rel),
    ]
}

/// The developer's own checkout, the last place a resource is looked for.
pub open spec fn dev_checkout() -> Seq<char> {
    "S:/OpenClaw/OllamaGUI/local-companion/src-tauri/"@
}

/// Where the classifier's file `file` is looked for, in order: the build's
/// source directory, beside the executable and above it, under
/// `src-tauri/` and `.` of the working directory, and the developer's checkout.
pub open spec fn emotion_file_paths(
    manifest_dir: Seq<char>,
    exe_dir: Seq<Seq<char>>,
    file: Seq<char>,
) -> Seq<Seq<Seq<char>>> {
    let rel = "resources/emotion/"@ + file;
    seq![seq![manifest_dir + "/"@ + rel]] + beside_exe(exe_dir, rel) + seq![
        seq!["src-tauri/"@ + rel],
        seq![rel],
        seq![dev_checkout() + rel],
    ]
}

/// Where the ONNX Runtime library is looked for, in order: the build's source
/// directory, beside the executable and above it, and the developer's checkout.
pub open spec fn ort_dylib_paths(manifest_dir: Seq<char>, exe_dir: Seq<Seq<char>>) -> Seq<
    Seq<Seq<char>>,
> {
    let rel = "resources/onnxruntime/onnxruntime.dll"@;
    seq![seq![manifest_dir + "/"@ + rel]] + beside_exe(exe_dir, rel) + seq![
        seq![dev_checkout() + rel],
    ]
}

/// `a` followed by `b`.
fn joined(a: &str, b: &str) -> (r: String)
    ensures
        r@ == a@ + b@,
{
    String::from_str(a).concat(b)
}

/// `rel` beside the executable's directory and in each of the four above it.
fn beside_exe_paths(exe_dir: &FsPath, rel: &str) -> (r: Vec<FsPath>)
    ensures
        r@.map_values(|p: FsPath| p@) == beside_exe(exe_dir@, rel@),
{
    let r = vec![
        exe_dir.join(rel),
        exe_dir.join(joined("../", rel).as_str()),
        exe_dir.join(joined("../../", rel).as_str()),
        exe_dir.join(joined("../../../", rel).as_str()),
        exe_dir.join(joined("../../../../", rel).as_str()),
    ];
    assert(r@.map_values(|p: FsPath| p@) =~= beside_exe(exe_dir@, rel@));
    r
}

/// The candidate paths of the classifier's file `file` (model or tokenizer),
/// in the order they are tried.
pub fn emotion_file_candidates(manifest_dir: &str, exe_dir: &FsPath, file: &str) -> (r: Vec<
    FsPath,
>)
    ensures
        r@.map_values(|p: FsPath| p@) == emotion_file_paths(manifest_dir@, exe_dir@, file@),
{
    let rel = joined("resources/emotion/", file);
    let first = FsPath::new(joined(joined(manifest_dir, "/").as_str(), rel.as_str()));
    let mut out = vec![first];
    let mut near = beside_exe_paths(exe_dir, rel.as_str());
    let ghost head = out@.map_values(|p: FsPath| p@);
    let ghost mid = near@.map_values(|p: FsPath| p@);
    out.append(&mut near);
    assert(out@.map_values(|p: FsPath| p@) =~= head + mid);
    let ghost before = out@.map_values(|p: FsPath| p@);
    out.push(FsPath::new(joined("src-tauri/", rel.as_str())));
    out.push(FsPath::new(String::from_str(rel.as_str())));
    out.push(FsPath::new(joined("S:/OpenClaw/OllamaGUI/local-companion/src-tauri/", rel.as_str())));
    assert(out@.map_values(|p: FsPath| p@) =~= before + seq![
        seq!["src-tauri/"@ + rel@],
        seq![rel@],
        seq![dev_checkout() + rel@],
    ]);
    assert(out@.map_values(|p: FsPath| p@) =~= emotion_file_paths(manifest_dir@, exe_dir@, file@));
    out
}

/// The candidate paths of the ONNX Runtime library, in the order they are tried.
pub fn ort_dylib_candidates(manifest_dir: &str, exe_dir: &FsPath) -> (r: Vec<FsPath>)
    ensures
        r@.map_values(|p: FsPath| p@) == ort_dylib_paths(manifest_dir@, exe_dir@),
{
    let rel = "resources/onnxruntime/onnxruntime.dll";
    let first = FsPath::new(joined(joined(manifest_dir, "/").as_str(), rel));
    let mut out = vec![first];
    let mut near = beside_exe_paths(exe_dir, rel);
    let ghost head = out@.map_values(|p: FsPath| p@);
    let ghost mid = near@.map_values(|p: FsPath| p@);
    out.append(&mut near);
    assert(out@.map_values(|p: FsPath| p@) =~= head + mid);
    let ghost before = out@.map_values(|p: FsPath| p@);
    out.push(FsPath::new(joined("S:/OpenClaw/OllamaGUI/local-companion/src-tauri/", rel)));
    assert(out@.map_values(|p: FsPath| p@) =~= before + seq![seq![dev_checkout() + rel@]]);
    assert(out@.map_values(|p: FsPath| p@) =~= ort_dylib_paths(manifest_dir@, exe_dir@));
    out
}

} // verus!
