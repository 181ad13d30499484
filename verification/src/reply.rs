//! Cleaning a language model's reply into display text and an emotion tag.
use vstd::prelude::*;
use crate::text::{
    CharClass, chars_of, trim_range, matches_at, find_range, rfind_range, slice_string,
    to_lowercase, trim_str,
};
use crate::json::str_field_of;
use crate::text;
use crate::json;

verus! {

/// "```"
pub open spec fn fence() -> Seq<char> {
    seq!['`', '`', '`']
}

/// "\n"
pub open spec fn newline() -> Seq<char> {
    seq!['\n']
}

/// "(feeling:"
pub open spec fn feeling_prefix() -> Seq<char> {
    seq!['(', 'f', 'e', 'e', 'l', 'i', 'n', 'g', ':']
}

/// What `strip_code_fences` returns: the trimmed reply, or, when it opens
/// with a code fence, the trimmed text between the end of the fence line and
/// the last closing fence (or the end of the reply).
pub open spec fn spec_strip_code_fences(raw: Seq<char>) -> Seq<char> {
    let t = text::trim(raw);
    if !text::starts_with(t, fence()) {
        t
    } else {
        let content = t.skip(3);
        let body = match text::find(content, newline()) {
            Some(p) => content.skip(p + 1),
            None => Seq::empty(),
        };
        match text::rfind(body, fence()) {
            Some(q) => text::trim(body.take(q)),
            None => text::trim(body),
        }
    }
}

/// Removes a Markdown code fence (with its language tag) around a reply.
pub fn strip_code_fences(raw: &str) -> (r: String)
    ensures
        r@ == spec_strip_code_fences(raw@),
{
    let v = chars_of(raw);
    let (a, b) = trim_range(&v, 0, v.len(), CharClass::Whitespace);
    let ghost t = v@.subrange(a as int, b as int);
    assert(v@.subrange(0, v@.len() as int) =~= v@);
    let fence_v = vec!['`', '`', '`'];
    assert(fence_v@ =~= fence());
    let opens = matches_at(&v, b, &fence_v, a);
    assert(opens == text::starts_with(t, fence())) by {
        if a + 3 <= b {
            assert(t.subrange(0, 3) =~= v@.subrange(a as int, a + 3));
        }
    }
    if !opens {
        return slice_string(raw, a, b);
    }
    let c0 = a + 3;
    let ghost content = t.skip(3);
    assert(content =~= v@.subrange(c0 as int, b as int));
    let nl = vec!['\n'];
    assert(nl@ =~= newline());
    proof {
        text::lemma_find_range(content, newline());
    }
    let c = match find_range(&v, c0, b, &nl) {
        Some(p) => p + 1,
        None => b,
    };
    let ghost body = match text::find(content, newline()) {
        Some(p) => content.skip(p + 1),
        None => Seq::<char>::empty(),
    };
    assert(body =~= v@.subrange(c as int, b as int));
    proof {
        text::lemma_rfind_range(body, fence());
    }
    let e = match rfind_range(&v, c, b, &fence_v) {
        Some(q) => q,
        None => b,
    };
    assert(match text::rfind(body, fence()) {
        Some(q) => body.take(q) =~= v@.subrange(c as int, e as int),
        None => body =~= v@.subrange(c as int, e as int),
    });
    let (x, y) = trim_range(&v, c, e, CharClass::Whitespace);
    slice_string(raw, x, y)
}

/// What `extract_feeling` returns, given `lower`, the lower-case form of the
/// trimmed line: for a line that reads `(feeling: value)` (the check made on
/// `lower`), the value after the first `:` of the line stripped of its
/// parentheses, trimmed, and stripped of `.` and `!` at its ends, when that
/// is not empty.
pub open spec fn feeling_from(line: Seq<char>, lower: Seq<char>) -> Option<Seq<char>> {
    let t = text::trim(line);
    if text::starts_with(lower, feeling_prefix()) && text::ends_with(lower, seq![')']) {
        let inner = text::trim_class(t, CharClass::Parens);
        match text::find(inner, seq![':']) {
            Some(p) => {
                let value = text::trim_class(text::trim(inner.skip(p + 1)), CharClass::EndPunct);
                if value.len() > 0 {
                    Some(value)
                } else {
                    None
                }
            },
            None => None,
        }
    } else {
        None
    }
}

/// What `extract_feeling` returns: `feeling_from` the line and the lower-case
/// form (`str::to_lowercase`) of the trimmed line.
pub open spec fn spec_extract_feeling(line: Seq<char>) -> Option<Seq<char>> {
    feeling_from(line, text::lowercase_of(text::trim(line)))
}

/// Reads an emotion marker line such as `(Feeling: happy!)`.
pub fn extract_feeling(line: &str) -> (r: Option<String>)
    ensures
        json::opt_view(r) == spec_extract_feeling(line@),
{
    let trimmed = trim_str(line);
    let lower = to_lowercase(trimmed.as_str());
    extract_feeling_given(line, lower.as_str())
}

/// Reads an emotion marker line, given `lower`, the lower-case form of the
/// trimmed line.
pub fn extract_feeling_given(line: &str, lower: &str) -> (r: Option<String>)
    ensures
        json::opt_view(r) == feeling_from(line@, lower@),
{
    let v = chars_of(line);
    let (a, b) = trim_range(&v, 0, v.len(), CharClass::Whitespace);
    assert(v@.subrange(0, v@.len() as int) =~= v@);
    let lv = chars_of(lower);
    let prefix = vec!['(', 'f', 'e', 'e', 'l', 'i', 'n', 'g', ':'];
    let close = vec![')'];
    assert(prefix@ =~= feeling_prefix());
    assert(close@ =~= seq![')']);
    let opens = matches_at(&lv, lv.len(), &prefix, 0);
    let closes = close.len() <= lv.len() && matches_at(&lv, lv.len(), &close, lv.len() - 1);
    assert(opens == text::starts_with(lv@, feeling_prefix()));
    assert(closes == text::ends_with(lv@, seq![')']));
    if !(opens && closes) {
        return None;
    }
    let (ia, ib) = trim_range(&v, a, b, CharClass::Parens);
    let ghost inner = v@.subrange(ia as int, ib as int);
    let colon = vec![':'];
    assert(colon@ =~= seq![':']);
    proof {
        text::lemma_find_range(inner, seq![':']);
    }
    match find_range(&v, ia, ib, &colon) {
        None => None,
        Some(p) => {
            assert(inner.skip((p - ia) + 1) =~= v@.subrange(p + 1, ib as int));
            let (x, y) = trim_range(&v, p + 1, ib, CharClass::Whitespace);
            let (x2, y2) = trim_range(&v, x, y, CharClass::EndPunct);
            if x2 < y2 {
                Some(slice_string(line, x2, y2))
            } else {
                None
            }
        },
    }
}

} // verus!

verus! {

/// "neutral", the emotion when the reply names none.
pub open spec fn neutral() -> Seq<char> {
    "neutral"@
}

/// Lines holding this phrase (in any case) are dropped from a reply.
pub open spec fn json_field_remark() -> Seq<char> {
    "without the json field"@
}

/// A line is dropped by the reply cleaner when it is empty or when `lower`,
/// its lower-case form, mentions the JSON field.
pub open spec fn line_skipped(line: Seq<char>, lower: Seq<char>) -> bool {
    line.len() == 0 || text::contains(lower, json_field_remark())
}

/// Sorts one trimmed line of a reply, given `lower`, its lower-case form:
/// whether it is dropped, and otherwise the emotion marker's value when the
/// line is one.
pub fn classify_line(line: &str, lower: &str) -> (r: (bool, Option<String>))
    ensures
        r.0 == line_skipped(line@, lower@),
        r.0 ==> r.1 is None,
        !r.0 ==> json::opt_view(r.1) == feeling_from(line@, lower@),
{
    if line.unicode_len() == 0 {
        return (true, None);
    }
    let lv = chars_of(lower);
    let marker = chars_of("without the json field");
    assert(lv@.subrange(0, lv@.len() as int) =~= lv@);
    if find_range(&lv, 0, lv.len(), &marker).is_some() {
        return (true, None);
    }
    (false, extract_feeling_given(line, lower))
}

/// The pieces of `s` between its `'\n'` characters (one more than there are
/// newlines).  `str::lines` gives the same pieces, less a last empty one and a
/// `'\r'` before each newline; both vanish when the pieces are trimmed and
/// empty ones skipped, as the reply cleaner does.
pub open spec fn segments(s: Seq<char>) -> Seq<Seq<char>>
    decreases s.len(),
{
    if s.len() == 0 {
        seq![Seq::<char>::empty()]
    } else {
        let segs = segments(s.drop_last());
        if s.last() == '\n' {
            segs.push(Seq::<char>::empty())
        } else {
            segs.update(segs.len() - 1, segs.last().push(s.last()))
        }
    }
}

pub proof fn lemma_segments_nonempty(s: Seq<char>)
    ensures
        segments(s).len() >= 1,
    decreases s.len(),
{
    if s.len() > 0 {
        lemma_segments_nonempty(s.drop_last());
    }
}

/// The fallback reading of a reply, line by line: the kept lines (trimmed,
/// non-empty, neither mentioning the JSON field nor an emotion marker) and
/// the first emotion marker's value.
pub open spec fn scan_lines(segs: Seq<Seq<char>>) -> (Seq<Seq<char>>, Option<Seq<char>>)
    decreases segs.len(),
{
    if segs.len() == 0 {
        (Seq::empty(), None)
    } else {
        let prev = scan_lines(segs.drop_last());
        let t = text::trim(segs.last());
        if t.len() == 0 || text::contains(text::lowercase_of(t), json_field_remark()) {
            prev
        } else {
            match spec_extract_feeling(t) {
                Some(f) => (
                    prev.0,
                    if prev.1 is None {
                        Some(f)
                    } else {
                        prev.1
                    },
                ),
                None => (prev.0.push(t), prev.1),
            }
        }
    }
}

/// `parts` joined with `sep` between each two (`slice::join`).
pub open spec fn join(parts: Seq<Seq<char>>, sep: Seq<char>) -> Seq<char>
    decreases parts.len(),
{
    if parts.len() == 0 {
        Seq::empty()
    } else if parts.len() == 1 {
        parts[0]
    } else {
        join(parts.drop_last(), sep) + sep + parts.last()
    }
}

/// What `clean_ollama_response` returns, as (text, emotion).
///
/// The reply, without a code fence, is read as a JSON object if it is one
/// with a string member "text": then the text is that member trimmed and the
/// emotion the string member "emotion" trimmed, or "neutral".  Otherwise the
/// kept lines of the reply are joined with a blank line between each two (or,
/// if none is kept, the whole reply trimmed is the text), and the emotion is
/// the first marker's value, or "neutral".
pub open spec fn spec_clean_ollama_response(raw: Seq<char>) -> (Seq<char>, Seq<char>) {
    let candidate = spec_strip_code_fences(raw);
    match json::field_str(Some(candidate), "text"@) {
        Some(t) => (
            text::trim(t),
            match json::field_str(Some(candidate), "emotion"@) {
                Some(e) => text::trim(e),
                None => neutral(),
            },
        ),
        None => {
            let scanned = scan_lines(segments(candidate));
            let lines = if scanned.0.len() == 0 {
                seq![text::trim(candidate)]
            } else {
                scanned.0
            };
            (
                join(lines, "\n\n"@),
                match scanned.1 {
                    Some(e) => e,
                    None => neutral(),
                },
            )
        },
    }
}

/// The pieces of `v@` given by bounds `bs`.
pub open spec fn bounds_view(v: Seq<char>, bs: Seq<(usize, usize)>) -> Seq<Seq<char>> {
    Seq::new(bs.len(), |k: int| v.subrange(bs[k].0 as int, bs[k].1 as int))
}

/// The bounds in `v` of its pieces between newlines.
pub fn segment_bounds(v: &Vec<char>) -> (r: Vec<(usize, usize)>)
    ensures
        bounds_view(v@, r@) == segments(v@),
        forall|k: int| 0 <= k < r@.len() ==> #[trigger] r@[k].0 <= r@[k].1 <= v@.len(),
{
    let mut out: Vec<(usize, usize)> = Vec::new();
    let mut cur: usize = 0;
    let mut i: usize = 0;
    assert(v@.take(0) =~= Seq::<char>::empty());
    assert(bounds_view(v@, out@).push(v@.subrange(0, 0)) =~= seq![Seq::<char>::empty()]);
    while i < v.len()
        invariant
            cur <= i <= v.len(),
            forall|k: int| 0 <= k < out@.len() ==> #[trigger] out@[k].0 <= out@[k].1 <= v@.len(),
            segments(v@.take(i as int)) == bounds_view(v@, out@).push(
                v@.subrange(cur as int, i as int),
            ),
        decreases v.len() - i,
    {
        let ghost before = bounds_view(v@, out@);
        assert(v@.take(i + 1).drop_last() =~= v@.take(i as int));
        assert(v@.take(i + 1).last() == v@[i as int]);
        if v[i] == '\n' {
            let ghost old_cur = cur;
            let ghost old_out = out@;
            out.push((cur, i));
            assert(forall|k: int| 0 <= k < old_out.len() ==> out@[k] == old_out[k]);
            assert(out@[out@.len() - 1] == (old_cur, i));
            assert(bounds_view(v@, out@) =~= before.push(v@.subrange(cur as int, i as int)));
            cur = i + 1;
            assert(v@.subrange(cur as int, i + 1) =~= Seq::<char>::empty());
            assert(bounds_view(v@, out@).push(v@.subrange(cur as int, i + 1)) =~= before.push(
                v@.subrange(old_cur as int, i as int),
            ).push(Seq::<char>::empty()));
        } else {
            assert(v@.subrange(cur as int, i as int).push(v@[i as int]) =~= v@.subrange(
                cur as int,
                i + 1,
            ));
            assert(before.push(v@.subrange(cur as int, i as int)).update(
                before.len() as int,
                v@.subrange(cur as int, i + 1),
            ) =~= before.push(v@.subrange(cur as int, i + 1)));
        }
        i = i + 1;
    }
    let ghost before = bounds_view(v@, out@);
    let ghost old_out = out@;
    out.push((cur, v.len()));
    assert(forall|k: int| 0 <= k < old_out.len() ==> out@[k] == old_out[k]);
    assert(out@[out@.len() - 1] == (cur, v.len()));
    assert(bounds_view(v@, out@) =~= before.push(v@.subrange(cur as int, v@.len() as int)));
    assert(v@.take(v@.len() as int) =~= v@);
    out
}

/// `parts` joined with `sep` between each two.
pub fn join_strings(parts: &Vec<String>, sep: &str) -> (r: String)
    ensures
        r@ == join(parts@.map_values(|s: String| s@), sep@),
{
    let ghost pv = parts@.map_values(|s: String| s@);
    let mut res = String::new();
    let mut i: usize = 0;
    assert(pv.take(0) =~= Seq::<Seq<char>>::empty());
    while i < parts.len()
        invariant
            i <= parts.len(),
            pv == parts@.map_values(|s: String| s@),
            res@ == join(pv.take(i as int), sep@),
        decreases parts.len() - i,
    {
        assert(pv.take(i + 1).drop_last() =~= pv.take(i as int));
        assert(pv.take(i + 1).last() == parts@[i as int]@);
        if i != 0 {
            res.append(sep);
        } else {
            assert(res@ =~= Seq::<char>::empty());
        }
        res.append(parts[i].as_str());
        if i == 0 {
            assert(res@ =~= parts@[0]@);
        }
        i = i + 1;
    }
    assert(pv.take(parts.len() as int) =~= pv);
    res
}

/// Splits a model reply into display text and an emotion tag.
pub fn clean_ollama_response(raw: &str) -> (r: (String, String))
    ensures
        (r.0@, r.1@) == spec_clean_ollama_response(raw@),
{
    let candidate = strip_code_fences(raw);
    let ghost cand = candidate@;
    match str_field_of(candidate.as_str(), "text") {
        Some(t) => {
            let text = trim_str(t.as_str());
            let emotion = match str_field_of(candidate.as_str(), "emotion") {
                Some(e) => trim_str(e.as_str()),
                None => String::from_str("neutral"),
            };
            return (text, emotion);
        },
        None => {},
    }
    let v = chars_of(candidate.as_str());
    let bounds = segment_bounds(&v);
    let ghost segs = segments(cand);
    let mut kept: Vec<String> = Vec::new();
    let mut emotion: Option<String> = None;
    let mut k: usize = 0;
    assert(segs.take(0) =~= Seq::<Seq<char>>::empty());
    assert(kept@.map_values(|s: String| s@) =~= Seq::<Seq<char>>::empty());
    while k < bounds.len()
        invariant
            k <= bounds.len(),
            v@ == cand,
            cand == candidate@,
            segs == segments(cand),
            bounds_view(v@, bounds@) == segs,
            forall|j: int| 0 <= j < bounds@.len() ==> #[trigger] bounds@[j].0 <= bounds@[j].1 <= v@.len(),
            (kept@.map_values(|s: String| s@), json::opt_view(emotion)) == scan_lines(segs.take(k as int)),
        decreases bounds.len() - k,
    {
        let ghost prev_kept = kept@.map_values(|s: String| s@);
        let ghost prev_emotion = json::opt_view(emotion);
        assert(segs.take(k + 1).drop_last() =~= segs.take(k as int));
        assert(segs.take(k + 1).last() == segs[k as int]);
        let (s, e) = bounds[k];
        assert(segs[k as int] == v@.subrange(s as int, e as int));
        let (a, b) = trim_range(&v, s, e, CharClass::Whitespace);
        k = k + 1;
        let t = slice_string(candidate.as_str(), a, b);
        let lower = to_lowercase(t.as_str());
        proof {
            text::lemma_trim_class_idempotent(segs[k - 1], CharClass::Whitespace);
        }
        let (skipped, feeling) = classify_line(t.as_str(), lower.as_str());
        if skipped {
            continue;
        }
        match feeling {
            Some(f) => {
                if emotion.is_none() {
                    emotion = Some(f);
                }
            },
            None => {
                kept.push(t);
                assert(kept@.map_values(|s: String| s@) =~= prev_kept.push(v@.subrange(a as int, b as int)));
            },
        }
    }
    assert(segs.take(bounds.len() as int) =~= segs);
    if kept.len() == 0 {
        kept.push(trim_str(candidate.as_str()));
        assert(kept@.map_values(|s: String| s@) =~= seq![text::trim(cand)]);
    }
    let text = join_strings(&kept, "\n\n");
    let emotion_out = match emotion {
        Some(e) => e,
        None => String::from_str("neutral"),
    };
    (text, emotion_out)
}

} // verus!
