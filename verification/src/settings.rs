//! Application settings loaded at startup from the stored key/value pairs.
use vstd::prelude::*;
use crate::text::{str_eq, to_owned_string};

verus! {

broadcast use vstd::string::group_string_axioms;

/// All settings loaded at startup.
#[derive(Clone, Debug)]
pub struct AllSettings {
    pub language: Option<String>,
    pub mic_rnnoise: bool,
    pub mic_highpass: bool,
    pub mic_normalizer: bool,
    pub sys_rnnoise: bool,
    pub sys_highpass: bool,
    pub sys_normalizer: bool,
    pub last_microphone: Option<String>,
    pub last_system_audio: Option<String>,
    pub recordings_folder: Option<String>,
    pub current_model: Option<String>,
}

impl Default for AllSettings {
    fn default() -> (r: Self)
        ensures
            r.language is None,
            !r.mic_rnnoise,
            !r.mic_highpass,
            !r.mic_normalizer,
            !r.sys_rnnoise,
            !r.sys_highpass,
            !r.sys_normalizer,
            r.last_microphone is None,
            r.last_system_audio is None,
            r.recordings_folder is None,
            r.current_model is None,
    {
        AllSettings {
            language: None,
            mic_rnnoise: false,
            mic_highpass: false,
            mic_normalizer: false,
            sys_rnnoise: false,
            sys_highpass: false,
            sys_normalizer: false,
            last_microphone: None,
            last_system_audio: None,
            recordings_folder: None,
            current_model: None,
        }
    }
}

/// The value stored last under `key` among the first `n` rows.
pub open spec fn stored_value(rows: Seq<(String, String)>, key: Seq<char>, n: int) -> Option<
    Seq<char>,
>
    decreases n,
{
    if n <= 0 || n > rows.len() {
        None
    } else if rows[n - 1].0@ == key {
        Some(rows[n - 1].1@)
    } else {
        stored_value(rows, key, n - 1)
    }
}

/// The view of an optional string.
pub open spec fn opt_view(o: Option<String>) -> Option<Seq<char>> {
    match o {
        Some(s) => Some(s@),
        None => None,
    }
}

/// A switch stored as text: on when the text is `true`; off by default.
pub open spec fn switch_off_by_default(v: Option<Seq<char>>) -> bool {
    v == Some("true"@)
}

/// A switch stored as text: on when the text is `true`; on by default.
pub open spec fn switch_on_by_default(v: Option<Seq<char>>) -> bool {
    match v {
        Some(t) => t == "true"@,
        None => true,
    }
}

/// The settings for the stored rows `(key, value)` among the first `n`,
/// before the defaults of missing switches are applied.
pub open spec fn settings_read(s: AllSettings, rows: Seq<(String, String)>, n: int) -> bool {
    &&& opt_view(s.language) == stored_value(rows, "language"@, n)
    &&& s.mic_rnnoise == switch_off_by_default(stored_value(rows, "mic_rnnoise"@, n))
    &&& s.mic_highpass == switch_off_by_default(stored_value(rows, "mic_highpass"@, n))
    &&& s.mic_normalizer == switch_off_by_default(stored_value(rows, "mic_normalizer"@, n))
    &&& s.sys_rnnoise == switch_off_by_default(stored_value(rows, "sys_rnnoise"@, n))
    &&& s.sys_highpass == switch_off_by_default(stored_value(rows, "sys_highpass"@, n))
    &&& s.sys_normalizer == switch_off_by_default(stored_value(rows, "sys_normalizer"@, n))
    &&& opt_view(s.last_microphone) == stored_value(rows, "last_microphone"@, n)
    &&& opt_view(s.last_system_audio) == stored_value(rows, "last_system_audio"@, n)
    &&& opt_view(s.recordings_folder) == stored_value(rows, "recordings_folder"@, n)
    &&& opt_view(s.current_model) == stored_value(rows, "current_model"@, n)
}

/// The settings for the stored rows: the last value under each known key;
/// the high-pass filters and normalizers are on unless stored otherwise,
/// noise suppression is off unless stored as `true`; unknown keys are ignored.
pub open spec fn settings_spec(s: AllSettings, rows: Seq<(String, String)>) -> bool {
    let n = rows.len() as int;
    &&& opt_view(s.language) == stored_value(rows, "language"@, n)
    &&& s.mic_rnnoise == switch_off_by_default(stored_value(rows, "mic_rnnoise"@, n))
    &&& s.mic_highpass == switch_on_by_default(stored_value(rows, "mic_highpass"@, n))
    &&& s.mic_normalizer == switch_on_by_default(stored_value(rows, "mic_normalizer"@, n))
    &&& s.sys_rnnoise == switch_off_by_default(stored_value(rows, "sys_rnnoise"@, n))
    &&& s.sys_highpass == switch_on_by_default(stored_value(rows, "sys_highpass"@, n))
    &&& s.sys_normalizer == switch_on_by_default(stored_value(rows, "sys_normalizer"@, n))
    &&& opt_view(s.last_microphone) == stored_value(rows, "last_microphone"@, n)
    &&& opt_view(s.last_system_audio) == stored_value(rows, "last_system_audio"@, n)
    &&& opt_view(s.recordings_folder) == stored_value(rows, "recordings_folder"@, n)
    &&& opt_view(s.current_model) == stored_value(rows, "current_model"@, n)
}

/// The keys of the known settings differ from one another.
proof fn lemma_setting_keys_distinct()
    ensures
        "mic_rnnoise"@ != "language"@,
        "mic_highpass"@ != "language"@,
        "mic_highpass"@ != "mic_rnnoise"@,
        "mic_normalizer"@ != "language"@,
        "mic_normalizer"@ != "mic_rnnoise"@,
        "mic_normalizer"@ != "mic_highpass"@,
        "sys_rnnoise"@ != "language"@,
        "sys_rnnoise"@ != "mic_rnnoise"@,
        "sys_rnnoise"@ != "mic_highpass"@,
        "sys_rnnoise"@ != "mic_normalizer"@,
        "sys_highpass"@ != "language"@,
        "sys_highpass"@ != "mic_rnnoise"@,
        "sys_highpass"@ != "mic_highpass"@,
        "sys_highpass"@ != "mic_normalizer"@,
        "sys_highpass"@ != "sys_rnnoise"@,
        "sys_normalizer"@ != "language"@,
        "sys_normalizer"@ != "mic_rnnoise"@,
        "sys_normalizer"@ != "mic_highpass"@,
        "sys_normalizer"@ != "mic_normalizer"@,
        "sys_normalizer"@ != "sys_rnnoise"@,
        "sys_normalizer"@ != "sys_highpass"@,
        "last_microphone"@ != "language"@,
        "last_microphone"@ != "mic_rnnoise"@,
        "last_microphone"@ != "mic_highpass"@,
        "last_microphone"@ != "mic_normalizer"@,
        "last_microphone"@ != "sys_rnnoise"@,
        "last_microphone"@ != "sys_highpass"@,
        "last_microphone"@ != "sys_normalizer"@,
        "last_system_audio"@ != "language"@,
        "last_system_audio"@ != "mic_rnnoise"@,
        "last_system_audio"@ != "mic_highpass"@,
        "last_system_audio"@ != "mic_normalizer"@,
        "last_system_audio"@ != "sys_rnnoise"@,
        "last_system_audio"@ != "sys_highpass"@,
        "last_system_audio"@ != "sys_normalizer"@,
        "last_system_audio"@ != "last_microphone"@,
        "recordings_folder"@ != "language"@,
        "recordings_folder"@ != "mic_rnnoise"@,
        "recordings_folder"@ != "mic_highpass"@,
        "recordings_folder"@ != "mic_normalizer"@,
        "recordings_folder"@ != "sys_rnnoise"@,
        "recordings_folder"@ != "sys_highpass"@,
        "recordings_folder"@ != "sys_normalizer"@,
        "recordings_folder"@ != "last_microphone"@,
        "recordings_folder"@ != "last_system_audio"@,
        "current_model"@ != "language"@,
        "current_model"@ != "mic_rnnoise"@,
        "current_model"@ != "mic_highpass"@,
        "current_model"@ != "mic_normalizer"@,
        "current_model"@ != "sys_rnnoise"@,
        "current_model"@ != "sys_highpass"@,
        "current_model"@ != "sys_normalizer"@,
        "current_model"@ != "last_microphone"@,
        "current_model"@ != "last_system_audio"@,
        "current_model"@ != "recordings_folder"@,
{
    reveal_strlit("language");
    reveal_strlit("mic_rnnoise");
    reveal_strlit("mic_highpass");
    reveal_strlit("mic_normalizer");
    reveal_strlit("sys_rnnoise");
    reveal_strlit("sys_highpass");
    reveal_strlit("sys_normalizer");
    reveal_strlit("last_microphone");
    reveal_strlit("last_system_audio");
    reveal_strlit("recordings_folder");
    reveal_strlit("current_model");
    assert("mic_rnnoise"@.len() != "language"@.len());
    assert("mic_highpass"@.len() != "language"@.len());
    assert("mic_highpass"@.len() != "mic_rnnoise"@.len());
    assert("mic_normalizer"@.len() != "language"@.len());
    assert("mic_normalizer"@.len() != "mic_rnnoise"@.len());
    assert("mic_normalizer"@.len() != "mic_highpass"@.len());
    assert("sys_rnnoise"@.len() != "language"@.len());
    assert("sys_rnnoise"@[0] != "mic_rnnoise"@[0]);
    assert("sys_rnnoise"@.len() != "mic_highpass"@.len());
    assert("sys_rnnoise"@.len() != "mic_normalizer"@.len());
    assert("sys_highpass"@.len() != "language"@.len());
    assert("sys_highpass"@.len() != "mic_rnnoise"@.len());
    assert("sys_highpass"@[0] != "mic_highpass"@[0]);
    assert("sys_highpass"@.len() != "mic_normalizer"@.len());
    assert("sys_highpass"@.len() != "sys_rnnoise"@.len());
    assert("sys_normalizer"@.len() != "language"@.len());
    assert("sys_normalizer"@.len() != "mic_rnnoise"@.len());
    assert("sys_normalizer"@.len() != "mic_highpass"@.len());
    assert("sys_normalizer"@[0] != "mic_normalizer"@[0]);
    assert("sys_normalizer"@.len() != "sys_rnnoise"@.len());
    assert("sys_normalizer"@.len() != "sys_highpass"@.len());
    assert("last_microphone"@.len() != "language"@.len());
    assert("last_microphone"@.len() != "mic_rnnoise"@.len());
    assert("last_microphone"@.len() != "mic_highpass"@.len());
    assert("last_microphone"@.len() != "mic_normalizer"@.len());
    assert("last_microphone"@.len() != "sys_rnnoise"@.len());
    assert("last_microphone"@.len() != "sys_highpass"@.len());
    assert("last_microphone"@.len() != "sys_normalizer"@.len());
    assert("last_system_audio"@.len() != "language"@.len());
    assert("last_system_audio"@.len() != "mic_rnnoise"@.len());
    assert("last_system_audio"@.len() != "mic_highpass"@.len());
    assert("last_system_audio"@.len() != "mic_normalizer"@.len());
    assert("last_system_audio"@.len() != "sys_rnnoise"@.len());
    assert("last_system_audio"@.len() != "sys_highpass"@.len());
    assert("last_system_audio"@.len() != "sys_normalizer"@.len());
    assert("last_system_audio"@.len() != "last_microphone"@.len());
    assert("recordings_folder"@.len() != "language"@.len());
    assert("recordings_folder"@.len() != "mic_rnnoise"@.len());
    assert("recordings_folder"@.len() != "mic_highpass"@.len());
    assert("recordings_folder"@.len() != "mic_normalizer"@.len());
    assert("recordings_folder"@.len() != "sys_rnnoise"@.len());
    assert("recordings_folder"@.len() != "sys_highpass"@.len());
    assert("recordings_folder"@.len() != "sys_normalizer"@.len());
    assert("recordings_folder"@.len() != "last_microphone"@.len());
    assert("recordings_folder"@[0] != "last_system_audio"@[0]);
    assert("current_model"@.len() != "language"@.len());
    assert("current_model"@.len() != "mic_rnnoise"@.len());
    assert("current_model"@.len() != "mic_highpass"@.len());
    assert("current_model"@.len() != "mic_normalizer"@.len());
    assert("current_model"@.len() != "sys_rnnoise"@.len());
    assert("current_model"@.len() != "sys_highpass"@.len());
    assert("current_model"@.len() != "sys_normalizer"@.len());
    assert("current_model"@.len() != "last_microphone"@.len());
    assert("current_model"@.len() != "last_system_audio"@.len());
    assert("current_model"@.len() != "recordings_folder"@.len());
}

/// The settings from the stored `(key, value)` rows.
pub fn settings_from_rows(rows: &Vec<(String, String)>) -> (r: AllSettings)
    ensures
        settings_spec(r, rows@),
{
    let mut s = AllSettings::default();
    let mut i: usize = 0;
    while i < rows.len()
        invariant
            i <= rows.len(),
            settings_read(s, rows@, i as int),
        decreases rows.len() - i,
    {
        proof {
            lemma_setting_keys_distinct();
        }
        let key = rows[i].0.as_str();
        let value = rows[i].1.as_str();
        let on = str_eq(value, "true");
        if str_eq(key, "language") {
            s.language = Some(to_owned_string(value));
        } else if str_eq(key, "mic_rnnoise") {
            s.mic_rnnoise = on;
        } else if str_eq(key, "mic_highpass") {
            s.mic_highpass = on;
        } else if str_eq(key, "mic_normalizer") {
            s.mic_normalizer = on;
        } else if str_eq(key, "sys_rnnoise") {
            s.sys_rnnoise = on;
        } else if str_eq(key, "sys_highpass") {
            s.sys_highpass = on;
        } else if str_eq(key, "sys_normalizer") {
            s.sys_normalizer = on;
        } else if str_eq(key, "last_microphone") {
            s.last_microphone = Some(to_owned_string(value));
        } else if str_eq(key, "last_system_audio") {
            s.last_system_audio = Some(to_owned_string(value));
        } else if str_eq(key, "recordings_folder") {
            s.recordings_folder = Some(to_owned_string(value));
        } else if str_eq(key, "current_model") {
            s.current_model = Some(to_owned_string(value));
        }
        i = i + 1;
    }
    let ghost n = rows.len() as int;
    if !has_key(rows, "mic_highpass") {
        s.mic_highpass = true;
    }
    if !has_key(rows, "mic_normalizer") {
        s.mic_normalizer = true;
    }
    if !has_key(rows, "sys_highpass") {
        s.sys_highpass = true;
    }
    if !has_key(rows, "sys_normalizer") {
        s.sys_normalizer = true;
    }
    s
}

/// Some row is stored under `key`.
pub fn has_key(rows: &Vec<(String, String)>, key: &str) -> (r: bool)
    ensures
        r == (stored_value(rows@, key@, rows.len() as int) is Some),
{
    let mut i = rows.len();
    while i > 0
        invariant
            i <= rows.len(),
            stored_value(rows@, key@, rows.len() as int) == stored_value(rows@, key@, i as int),
        decreases i,
    {
        if str_eq(rows[i - 1].0.as_str(), key) {
            return true;
        }
        i = i - 1;
    }
    false
}

/// The value stored last under a key is the one read: a row appended for
/// `key` makes its value the one read for `key`, and leaves what is read for
/// every other key as it was.
pub proof fn lemma_last_write_wins(rows: Seq<(String, String)>, key: String, value: String, other: Seq<char>)
    requires
        other != key@,
    ensures
        stored_value(rows.push((key, value)), key@, rows.len() + 1int) == Some(value@),
        stored_value(rows.push((key, value)), other, rows.len() + 1int) == stored_value(
            rows,
            other,
            rows.len() as int,
        ),
{
    lemma_stored_value_prefix(rows, rows.push((key, value)), other, rows.len() as int);
}

proof fn lemma_stored_value_prefix(
    rows: Seq<(String, String)>,
    longer: Seq<(String, String)>,
    key: Seq<char>,
    n: int,
)
    requires
        0 <= n <= rows.len() <= longer.len(),
        forall|j: int| 0 <= j < rows.len() ==> longer[j] == rows[j],
    ensures
        stored_value(longer, key, n) == stored_value(rows, key, n),
    decreases n,
{
    if n > 0 {
        lemma_stored_value_prefix(rows, longer, key, n - 1);
    }
}

/// The value read for a key is that of the last row stored under it:
/// nothing when no row has the key; otherwise the value of a row with the
/// key after which no row has it.
pub proof fn lemma_stored_value_is_last(rows: Seq<(String, String)>, key: Seq<char>, n: int)
    requires
        0 <= n <= rows.len(),
    ensures
        stored_value(rows, key, n) is None <==> forall|i: int| 0 <= i < n ==> (#[trigger] rows[i]).0@ != key,
        stored_value(rows, key, n) matches Some(v) ==> exists|i: int|
            0 <= i < n && (#[trigger] rows[i]).0@ == key && rows[i].1@ == v && forall|j: int|
                i < j < n ==> (#[trigger] rows[j]).0@ != key,
    decreases n,
{
    if n > 0 {
        lemma_stored_value_is_last(rows, key, n - 1);
        if rows[n - 1].0@ == key {
            assert(rows[n - 1].0@ == key);
        } else {
            if stored_value(rows, key, n - 1) is Some {
                let v = stored_value(rows, key, n - 1)->0;
                let i = choose|i: int|
                    0 <= i < n - 1 && (#[trigger] rows[i]).0@ == key && rows[i].1@ == v && forall|j: int|
                        i < j < n - 1 ==> (#[trigger] rows[j]).0@ != key;
                assert(forall|j: int| i < j < n ==> (#[trigger] rows[j]).0@ != key);
            }
        }
    }
}

/// With nothing stored, the high-pass filters and normalizers are on, noise
/// suppression is off, and no language, device, folder or model is set; a
/// switch stored as anything but `true` is off.
pub proof fn lemma_settings_defaults(s: AllSettings, rows: Seq<(String, String)>)
    requires
        settings_spec(s, rows),
    ensures
        rows.len() == 0 ==> s.mic_highpass && s.mic_normalizer && s.sys_highpass && s.sys_normalizer
            && !s.mic_rnnoise && !s.sys_rnnoise && s.language is None && s.last_microphone is None
            && s.last_system_audio is None && s.recordings_folder is None && s.current_model is None,
        (stored_value(rows, "mic_highpass"@, rows.len() as int) matches Some(v) && v != "true"@)
            ==> !s.mic_highpass,
        (stored_value(rows, "mic_rnnoise"@, rows.len() as int) matches Some(v) && v == "true"@)
            ==> s.mic_rnnoise,
{
}

/// A stored flag: on when stored as `true`, off when stored otherwise, and
/// `default` when nothing is stored.
pub fn bool_setting(stored: &Option<String>, default: bool) -> (r: bool)
    ensures
        r == (match stored {
            Some(v) => v@ == "true"@,
            None => default,
        }),
{
    match stored {
        Some(v) => str_eq(v.as_str(), "true"),
        None => default,
    }
}

} // verus!
