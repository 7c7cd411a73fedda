//! Text handling around recordings: safe file and folder names, cutting a transcript's
//! text at word boundaries, and splitting audio into fixed-size chunks.
use vstd::prelude::*;
use crate::text::{
    chars_of, is_control, is_control_char, is_white_space, lemma_trim_piece, push_char, push_str, string_from_chars, trim_bounds, trim_seq,
};

verus! {

broadcast use vstd::string::group_string_axioms;

// ---------------------------------------------------------------------------
// File names
// ---------------------------------------------------------------------------

/// Characters that file systems reserve.
pub open spec fn is_reserved_file_char(c: char) -> bool {
    c == '/' || c == '\\' || c == ':' || c == '*' || c == '?' || c == '"' || c == '<' || c == '>'
        || c == '|'
}

/// A character as it appears in a safe file name.
pub open spec fn safe_file_char(c: char) -> char {
    if is_reserved_file_char(c) || is_control_char(c) {
        '_'
    } else {
        c
    }
}

/// The safe file name for `name`: reserved and control characters become
/// `_`, then surrounding white space is dropped.
pub open spec fn sanitized_spec(name: Seq<char>) -> Seq<char> {
    trim_seq(name.map_values(|c: char| safe_file_char(c)))
}

/// A safe file name holds none of `/ \\ : * ? " < > |` and no control
/// character, neither starts nor ends with white space, and every character
/// of it is `_` or a character of the name.
pub proof fn lemma_sanitized_is_safe(name: Seq<char>)
    ensures
        forall|k: int|
            0 <= k < sanitized_spec(name).len() ==> {
                let c = #[trigger] sanitized_spec(name)[k];
                &&& c != '/' && c != '\\' && c != ':' && c != '*' && c != '?' && c != '"' && c != '<'
                    && c != '>' && c != '|'
                &&& !((c as u32) <= 0x1F) && !(0x7F <= (c as u32) <= 0x9F)
                &&& (c == '_' || exists|j: int| 0 <= j < name.len() && name[j] == c)
            },
        sanitized_spec(name).len() > 0 ==> !is_white_space(sanitized_spec(name)[0]) && !is_white_space(
            sanitized_spec(name).last(),
        ),
{
    let mapped = name.map_values(|c: char| safe_file_char(c));
    let (a, b) = lemma_trim_piece(mapped);
    assert forall|k: int| 0 <= k < sanitized_spec(name).len() implies {
        let c = #[trigger] sanitized_spec(name)[k];
        &&& c != '/' && c != '\\' && c != ':' && c != '*' && c != '?' && c != '"' && c != '<' && c != '>'
            && c != '|'
        &&& !((c as u32) <= 0x1F) && !(0x7F <= (c as u32) <= 0x9F)
        &&& (c == '_' || exists|j: int| 0 <= j < name.len() && name[j] == c)
    } by {
        assert(sanitized_spec(name)[k] == mapped[a + k]);
        assert(mapped[a + k] == safe_file_char(name[a + k]));
    }
}

/// Makes a name safe for use as a file name.
pub fn sanitize_filename(name: &str) -> (r: String)
    ensures
        r@ == sanitized_spec(name@),
        forall|i: int|
            0 <= i < r@.len() ==> !is_reserved_file_char(#[trigger] r@[i]) && !is_control_char(r@[i]),
{
    let cs = chars_of(name);
    let mut mapped: Vec<char> = Vec::new();
    let mut i: usize = 0;
    while i < cs.len()
        invariant
            i <= cs.len(),
            cs@ == name@,
            mapped@ == name@.take(i as int).map_values(|c: char| safe_file_char(c)),
        decreases cs.len() - i,
    {
        let c = cs[i];
        let out = if c == '/' || c == '\\' || c == ':' || c == '*' || c == '?' || c == '"' || c == '<'
            || c == '>' || c == '|' {
            '_'
        } else if is_control(c) {
            '_'
        } else {
            c
        };
        mapped.push(out);
        i = i + 1;
        assert(mapped@ =~= name@.take(i as int).map_values(|c: char| safe_file_char(c)));
    }
    assert(name@.take(cs.len() as int) == name@);
    let (a, b) = trim_bounds(&mapped);
    let r = string_from_chars(&mapped, a, b);
    assert forall|k: int| 0 <= k < r@.len() implies !is_reserved_file_char(#[trigger] r@[k])
        && !is_control_char(r@[k]) by {
        assert(r@[k] == mapped@[a + k]);
    }
    r
}

/// The folder of a meeting: its safe name, `_`, and the time it started.
pub fn meeting_folder_name(meeting_name: &str, timestamp: &str) -> (r: String)
    ensures
        r@ == sanitized_spec(meeting_name@) + "_"@ + timestamp@,
{
    let mut r = sanitize_filename(meeting_name);
    push_str(&mut r, "_");
    push_str(&mut r, timestamp);
    r
}

/// A device name with path separators replaced by `_`.
pub open spec fn device_file_part(device: Seq<char>) -> Seq<char> {
    device.map_values(|c: char| if c == '/' || c == '\\' { '_' } else { c })
}

/// The audio file of a device: its name without path separators, `_`, the
/// time of writing, and the `.mp4` extension.
pub fn device_audio_file_name(device: &str, timestamp: &str) -> (r: String)
    ensures
        r@ == device_file_part(device@) + "_"@ + timestamp@ + ".mp4"@,
{
    let cs = chars_of(device);
    let mut r = String::new();
    let mut i: usize = 0;
    while i < cs.len()
        invariant
            i <= cs.len(),
            cs@ == device@,
            r@ == device_file_part(device@.take(i as int)),
        decreases cs.len() - i,
    {
        let c = cs[i];
        push_char(&mut r, if c == '/' || c == '\\' { '_' } else { c });
        i = i + 1;
        assert(r@ =~= device_file_part(device@.take(i as int)));
    }
    assert(device@.take(cs.len() as int) == device@);
    push_str(&mut r, "_");
    push_str(&mut r, timestamp);
    push_str(&mut r, ".mp4");
    r
}

// ---------------------------------------------------------------------------
// Cutting text at word boundaries
// ---------------------------------------------------------------------------

/// The smaller of two integers.
pub open spec fn min_int(a: int, b: int) -> int {
    if a <= b {
        a
    } else {
        b
    }
}

/// The larger of two integers.
pub open spec fn max_int(a: int, b: int) -> int {
    if a >= b {
        a
    } else {
        b
    }
}

/// The first `i` in `[i, hi)` that starts a word (follows a space), or
/// `fallback` when there is none.
pub open spec fn word_start_from(cs: Seq<char>, i: int, hi: int, fallback: int) -> int
    decreases hi - i,
{
    if i >= hi {
        fallback
    } else if 0 < i < cs.len() && cs[i - 1] == ' ' {
        i
    } else {
        word_start_from(cs, i + 1, hi, fallback)
    }
}

/// The last position in `[lo, i)` that holds a space, or `fallback` when
/// there is none.
pub open spec fn space_before(cs: Seq<char>, lo: int, i: int, fallback: int) -> int
    decreases i - lo,
{
    if i <= lo {
        fallback
    } else if 0 <= i - 1 < cs.len() && cs[i - 1] == ' ' {
        i - 1
    } else {
        space_before(cs, lo, i - 1, fallback)
    }
}

/// Where the portion of `cs` for `[start, end)` begins: moved forward to the
/// start of a word within 20 characters when `start` is not 0.
pub open spec fn portion_start(cs: Seq<char>, start: int, end: int) -> int {
    if start > 0 {
        word_start_from(cs, start, min_int(min_int(end, cs.len() as int), start + 20), start)
    } else {
        start
    }
}

/// Where the portion ends: moved back to a space within 20 characters when
/// `end` is inside the text.
pub open spec fn portion_end(cs: Seq<char>, start: int, end: int) -> int {
    let e = min_int(end, cs.len() as int);
    if e < cs.len() {
        space_before(cs, max_int(portion_start(cs, start, end), e - 20), e, e)
    } else {
        e
    }
}

/// The portion of `cs` for the character range `[start, end)`, cut at word
/// boundaries; empty when `start` is past the text.
pub open spec fn text_portion(cs: Seq<char>, start: int, end: int) -> Seq<char> {
    if start >= cs.len() {
        Seq::empty()
    } else {
        cs.subrange(portion_start(cs, start, end), portion_end(cs, start, end))
    }
}

proof fn lemma_word_start_bounds(cs: Seq<char>, i: int, hi: int, fallback: int)
    ensures
        word_start_from(cs, i, hi, fallback) == fallback || (i <= word_start_from(
            cs,
            i,
            hi,
            fallback,
        ) < hi),
    decreases hi - i,
{
    if i < hi && !(0 < i < cs.len() && cs[i - 1] == ' ') {
        lemma_word_start_bounds(cs, i + 1, hi, fallback);
    }
}

proof fn lemma_space_before_bounds(cs: Seq<char>, lo: int, i: int, fallback: int)
    ensures
        space_before(cs, lo, i, fallback) == fallback || (lo <= space_before(cs, lo, i, fallback)
            < i),
    decreases i - lo,
{
    if i > lo && !(0 <= i - 1 < cs.len() && cs[i - 1] == ' ') {
        lemma_space_before_bounds(cs, lo, i - 1, fallback);
    }
}

proof fn lemma_word_start_found(cs: Seq<char>, i: int, hi: int, fallback: int)
    ensures
        word_start_from(cs, i, hi, fallback) == fallback || (0 < word_start_from(cs, i, hi, fallback)
            < cs.len() && cs[word_start_from(cs, i, hi, fallback) - 1] == ' '),
    decreases hi - i,
{
    if i < hi && !(0 < i < cs.len() && cs[i - 1] == ' ') {
        lemma_word_start_found(cs, i + 1, hi, fallback);
    }
}

proof fn lemma_space_before_found(cs: Seq<char>, lo: int, i: int, fallback: int)
    ensures
        space_before(cs, lo, i, fallback) == fallback || (0 <= space_before(cs, lo, i, fallback) < cs.len()
            && cs[space_before(cs, lo, i, fallback)] == ' '),
    decreases i - lo,
{
    if i > lo && !(0 <= i - 1 < cs.len() && cs[i - 1] == ' ') {
        lemma_space_before_found(cs, lo, i - 1, fallback);
    }
}

/// The portion for `[start, end)` is a piece of the text: it begins at
/// `start` or at most 20 characters later just after a space, and ends at
/// the end of the range (or of the text) or at most 20 characters earlier
/// on a space; past the end of the text it is empty.
pub proof fn lemma_text_portion_is_piece(cs: Seq<char>, start: int, end: int)
    requires
        0 <= start,
        start >= cs.len() || start <= end,
    ensures
        start >= cs.len() ==> text_portion(cs, start, end).len() == 0,
        start < cs.len() ==> exists|a: int, b: int|
            #![trigger cs.subrange(a, b)]
            start <= a <= start + 20 && a <= b <= min_int(end, cs.len() as int) && b >= min_int(
                end,
                cs.len() as int,
            ) - 20 && text_portion(cs, start, end) == cs.subrange(a, b) && (a == start || cs[a - 1] == ' ')
                && (b == min_int(end, cs.len() as int) || cs[b] == ' '),
{
    if start < cs.len() {
        let e = min_int(end, cs.len() as int);
        let a = portion_start(cs, start, end);
        let b = portion_end(cs, start, end);
        if start > 0 {
            let hi = min_int(min_int(end, cs.len() as int), start + 20);
            lemma_word_start_bounds(cs, start, hi, start);
            lemma_word_start_found(cs, start, hi, start);
        }
        if e < cs.len() {
            let lo = max_int(a, e - 20);
            lemma_space_before_bounds(cs, lo, e, e);
            lemma_space_before_found(cs, lo, e, e);
        }
        assert(text_portion(cs, start, end) == cs.subrange(a, b));
    }
}

/// A portion of `text` for the character range `[start, end)`, trying to
/// start and end at word boundaries.
pub fn extract_text_portion(text: &str, start: usize, end: usize) -> (r: String)
    requires
        start >= text@.len() || start <= end,
    ensures
        r@ == text_portion(text@, start as int, end as int),
{
    let chars = chars_of(text);
    let len = chars.len();
    if start >= len {
        return String::new();
    }
    let end = if end <= len { end } else { len };
    let adjusted_start = if start > 0 {
        let hi = if start <= usize::MAX - 20 && start + 20 <= end { start + 20 } else { end };
        let mut i = start;
        let mut found = start;
        while i < hi && !(i < len && chars[i - 1] == ' ')
            invariant
                start <= i <= hi <= end <= len == chars.len(),
                0 < start,
                found == start,
                word_start_from(chars@, start as int, hi as int, start as int) == word_start_from(
                    chars@,
                    i as int,
                    hi as int,
                    start as int,
                ),
            decreases hi - i,
        {
            i = i + 1;
        }
        if i < hi {
            found = i;
        }
        proof {
            lemma_word_start_bounds(chars@, start as int, hi as int, start as int);
        }
        found
    } else {
        start
    };
    let adjusted_end = if end < len {
        let lo = if end >= 20 && end - 20 > adjusted_start { end - 20 } else { adjusted_start };
        let mut i = end;
        let mut found = end;
        while i > lo && chars[i - 1] != ' '
            invariant
                lo <= i <= end < len == chars.len(),
                found == end,
                space_before(chars@, lo as int, end as int, end as int) == space_before(
                    chars@,
                    lo as int,
                    i as int,
                    end as int,
                ),
            decreases i - lo,
        {
            i = i - 1;
        }
        if i > lo {
            found = i - 1;
        }
        proof {
            lemma_space_before_bounds(chars@, lo as int, end as int, end as int);
        }
        found
    } else {
        end
    };
    string_from_chars(&chars, adjusted_start, adjusted_end)
}

// ---------------------------------------------------------------------------
// Audio chunks
// ---------------------------------------------------------------------------

/// The sample ranges `[start, end)` of consecutive chunks of at most
/// `per_chunk` samples covering `total` samples; every chunk but the last is
/// full.
pub fn chunk_bounds(total: usize, per_chunk: usize) -> (r: Vec<(usize, usize)>)
    requires
        per_chunk > 0 || total == 0,
    ensures
        (r.len() == 0) == (total == 0),
        r.len() > 0 ==> r@[0].0 == 0 && r@[r.len() - 1].1 == total,
        forall|i: int| 0 <= i < r.len() ==> (#[trigger] r@[i]).0 < r@[i].1 <= r@[i].0 + per_chunk,
        forall|i: int|
            0 <= i < r.len() - 1 ==> (#[trigger] r@[i]).1 == r@[i].0 + per_chunk && r@[i + 1].0
                == r@[i].1,
{
    let mut chunks: Vec<(usize, usize)> = Vec::new();
    let mut start_sample: usize = 0;
    while start_sample < total
        invariant
            start_sample <= total,
            per_chunk > 0 || total == 0,
            (chunks.len() == 0) == (start_sample == 0),
            chunks.len() > 0 ==> chunks@[0].0 == 0 && chunks@[chunks.len() - 1].1 == start_sample,
            forall|i: int|
                0 <= i < chunks.len() ==> (#[trigger] chunks@[i]).0 < chunks@[i].1 <= chunks@[i].0
                    + per_chunk,
            forall|i: int|
                0 <= i < chunks.len() - 1 ==> (#[trigger] chunks@[i]).1 == chunks@[i].0 + per_chunk
                    && chunks@[i + 1].0 == chunks@[i].1,
            chunks.len() > 0 && start_sample < total ==> chunks@[chunks.len() - 1].1
                == chunks@[chunks.len() - 1].0 + per_chunk,
        decreases total - start_sample,
    {
        let end_sample = if per_chunk <= total - start_sample {
            start_sample + per_chunk
        } else {
            total
        };
        chunks.push((start_sample, end_sample));
        start_sample = end_sample;
    }
    chunks
}

} // verus!
