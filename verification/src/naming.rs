//! Names and numbers the database layer gives new records: record ids,
//! the name of a copied template, the next sequence number, the title of a
//! chat session made from older messages, and the statement listing the
//! most recent recordings.
use vstd::prelude::*;
use crate::outside::{is_hyphenated_uuid, new_uuid_v4};
use crate::text::{chars_of, decimal, push_chars, push_decimal, push_str, to_owned_string};

verus! {

broadcast use vstd::string::group_string_axioms;

/// `prefix` and the first twelve hexadecimal digits of the UUID `u`.
pub open spec fn short_id(prefix: Seq<char>, u: Seq<char>) -> Seq<char> {
    prefix + u.subrange(0, 8) + u.subrange(9, 13)
}

fn short_random_id(prefix: &str) -> (r: String)
    ensures
        exists|u: Seq<char>| is_hyphenated_uuid(u) && r@ == short_id(prefix@, u),
{
    let u = new_uuid_v4();
    let cs = chars_of(u.as_str());
    let mut r = to_owned_string(prefix);
    push_chars(&mut r, &cs, 0, 8);
    push_chars(&mut r, &cs, 9, 13);
    r
}

fn prefixed_random_id(prefix: &str) -> (r: String)
    ensures
        exists|u: Seq<char>| is_hyphenated_uuid(u) && r@ == prefix@ + u,
{
    let u = new_uuid_v4();
    let mut r = to_owned_string(prefix);
    push_str(&mut r, u.as_str());
    r
}

/// A new category id: `cat_` and twelve random hexadecimal digits.
pub fn new_category_id() -> (r: String)
    ensures
        exists|u: Seq<char>| is_hyphenated_uuid(u) && r@ == short_id("cat_"@, u),
{
    short_random_id("cat_")
}

/// A new tag id: `tag_` and twelve random hexadecimal digits.
pub fn new_tag_id() -> (r: String)
    ensures
        exists|u: Seq<char>| is_hyphenated_uuid(u) && r@ == short_id("tag_"@, u),
{
    short_random_id("tag_")
}

/// A new MCP server id: `mcp_` and a random UUID.
pub fn new_mcp_server_id() -> (r: String)
    ensures
        exists|u: Seq<char>| is_hyphenated_uuid(u) && r@ == "mcp_"@ + u,
{
    prefixed_random_id("mcp_")
}

/// A new id for a tool discovered on an MCP server: `mcp_tool_` and a UUID.
pub fn new_mcp_tool_id() -> (r: String)
    ensures
        exists|u: Seq<char>| is_hyphenated_uuid(u) && r@ == "mcp_tool_"@ + u,
{
    prefixed_random_id("mcp_tool_")
}

/// A new id for a user template: `custom_` and a UUID.
pub fn new_custom_template_id() -> (r: String)
    ensures
        exists|u: Seq<char>| is_hyphenated_uuid(u) && r@ == "custom_"@ + u,
{
    prefixed_random_id("custom_")
}

/// The name of a copied template: the copied template's name and ` (Copy)`.
pub fn copy_name(name: &str) -> (r: String)
    ensures
        r@ == name@ + " (Copy)"@,
{
    let mut r = to_owned_string(name);
    push_str(&mut r, " (Copy)");
    r
}

/// The next sequence number after the largest one stored (1 when none is).
pub fn next_sequence_number(largest: Option<i64>) -> (r: i64)
    requires
        largest != Some(i64::MAX),
    ensures
        r == (match largest {
            Some(n) => n + 1,
            None => 1,
        }),
{
    match largest {
        Some(n) => n + 1,
        None => 1,
    }
}

/// The next sort position after the largest one stored (1 when none is).
pub fn next_sort_order(largest: Option<i32>) -> (r: i32)
    requires
        largest != Some(i32::MAX),
    ensures
        r == (match largest {
            Some(n) => n + 1,
            None => 1,
        }),
{
    match largest {
        Some(n) => n + 1,
        None => 1,
    }
}

/// The number of bytes a character takes in UTF-8.
pub open spec fn utf8_width(c: char) -> int {
    if (c as u32) < 0x80 {
        1
    } else if (c as u32) < 0x800 {
        2
    } else if (c as u32) < 0x10000 {
        3
    } else {
        4
    }
}

/// The number of bytes of a text in UTF-8.
pub open spec fn utf8_len(s: Seq<char>) -> int
    decreases s.len(),
{
    if s.len() == 0 {
        0
    } else {
        utf8_len(s.drop_last()) + utf8_width(s.last())
    }
}

proof fn lemma_utf8_len_grows(s: Seq<char>, i: int)
    requires
        0 <= i < s.len(),
    ensures
        utf8_len(s.take(i + 1)) == utf8_len(s.take(i)) + utf8_width(s[i]),
{
    assert(s.take(i + 1).drop_last() =~= s.take(i));
}

proof fn lemma_utf8_len_monotone(s: Seq<char>, i: int)
    requires
        0 <= i <= s.len(),
    ensures
        utf8_len(s.take(i)) <= utf8_len(s),
    decreases s.len() - i,
{
    if i < s.len() {
        lemma_utf8_len_grows(s, i);
        lemma_utf8_len_monotone(s, i + 1);
    } else {
        assert(s.take(i) =~= s);
    }
}

/// Whether the UTF-8 form of `cs` is longer than `limit` bytes.
fn utf8_longer_than(cs: &Vec<char>, limit: usize) -> (r: bool)
    requires
        limit <= 1000,
    ensures
        r <==> utf8_len(cs@) > limit,
{
    let mut total: usize = 0;
    let mut i: usize = 0;
    while i < cs.len()
        invariant
            i <= cs.len(),
            limit <= 1000,
            total as int == utf8_len(cs@.take(i as int)),
            total <= limit,
        decreases cs.len() - i,
    {
        let c = cs[i];
        let w: usize = if (c as u32) < 0x80 {
            1
        } else if (c as u32) < 0x800 {
            2
        } else if (c as u32) < 0x10000 {
            3
        } else {
            4
        };
        proof {
            lemma_utf8_len_grows(cs@, i as int);
        }
        total = total + w;
        i = i + 1;
        if total > limit {
            proof {
                lemma_utf8_len_monotone(cs@, i as int);
            }
            return true;
        }
    }
    proof {
        assert(cs@.take(cs.len() as int) =~= cs@);
    }
    false
}

/// The title of a chat session made from a recording's older messages: the
/// first 50 characters of the first user message, with `...` when that
/// message is longer than 50 bytes; `Imported Chat` without one.
pub open spec fn imported_title_text(first_message: Option<Seq<char>>) -> Seq<char> {
    match first_message {
        Some(m) => (if m.len() <= 50 { m } else { m.take(50) }) + (if utf8_len(m) > 50 {
            "..."@
        } else {
            Seq::empty()
        }),
        None => "Imported Chat"@,
    }
}

/// A text takes at least one byte per character, and exactly one per
/// character when every character is ASCII.
pub proof fn lemma_utf8_len_bounds(s: Seq<char>)
    ensures
        utf8_len(s) >= s.len(),
        (forall|i: int| 0 <= i < s.len() ==> (#[trigger] s[i] as u32) < 0x80) ==> utf8_len(s) == s.len(),
    decreases s.len(),
{
    if s.len() > 0 {
        lemma_utf8_len_bounds(s.drop_last());
        assert forall|i: int| 0 <= i < s.drop_last().len() implies s.drop_last()[i] == s[i] by {}
    }
}

/// An imported chat is titled with its first user message when that has at
/// most 50 ASCII characters; a longer message is cut to its first 50
/// characters followed by `...`; the title always begins with the message's
/// first characters and never runs past 53 characters; without a message it
/// is `Imported Chat`.
pub proof fn lemma_imported_title(m: Seq<char>)
    ensures
        imported_title_text(None) == "Imported Chat"@,
        m.len() > 50 ==> imported_title_text(Some(m)) == m.take(50) + "..."@,
        m.len() <= 50 && (forall|i: int| 0 <= i < m.len() ==> (#[trigger] m[i] as u32) < 0x80)
            ==> imported_title_text(Some(m)) == m,
        imported_title_text(Some(m)).len() <= 53,
        imported_title_text(Some(m)).take(if m.len() <= 50 { m.len() as int } else { 50 }) == (if m.len() <= 50 {
            m
        } else {
            m.take(50)
        }),
{
    lemma_utf8_len_bounds(m);
    reveal_strlit("...");
    let t = imported_title_text(Some(m));
    let head = if m.len() <= 50 { m } else { m.take(50) };
    assert(t.take(head.len() as int) =~= head);
    if m.len() <= 50 && (forall|i: int| 0 <= i < m.len() ==> (#[trigger] m[i] as u32) < 0x80) {
        assert(t =~= m);
    }
}

/// The title of a chat session made from older messages.
pub fn imported_chat_title(first_message: &Option<String>) -> (r: String)
    ensures
        r@ == imported_title_text(match first_message {
            Some(m) => Some(m@),
            None => None,
        }),
{
    match first_message {
        None => to_owned_string("Imported Chat"),
        Some(m) => {
            let cs = chars_of(m.as_str());
            let n = if cs.len() <= 50 { cs.len() } else { 50 };
            let mut r = String::new();
            push_chars(&mut r, &cs, 0, n);
            if utf8_longer_than(&cs, 50) {
                push_str(&mut r, "...");
            }
            proof {
                assert(cs@.subrange(0, n as int) =~= (if cs@.len() <= 50 { cs@ } else { cs@.take(50) }));
            }
            r
        },
    }
}

/// An integer in decimal notation, with `-` in front when negative.
pub open spec fn int_text(i: int) -> Seq<char> {
    if i < 0 {
        "-"@ + decimal((-i) as nat)
    } else {
        decimal(i as nat)
    }
}

/// The statement text before the limit of the recordings list.
pub open spec fn recordings_list_head() -> Seq<char> {
    "\n            SELECT id, title, created_at, completed_at, duration_seconds, status,\n                   audio_file_path, meeting_folder_path, microphone_device, system_audio_device,\n                   sample_rate, transcription_model, language, diarization_provider\n            FROM recordings\n            ORDER BY created_at DESC\n            "@
}

/// The statement listing recordings, newest first, at most `limit` of them.
pub open spec fn recordings_list_sql(limit: Option<i32>) -> Seq<char> {
    match limit {
        Some(l) => recordings_list_head() + "LIMIT "@ + int_text(l as int) + "\n            "@,
        None => recordings_list_head(),
    }
}

/// The statement listing the most recent recordings.
pub fn recordings_list_query(limit: Option<i32>) -> (r: String)
    ensures
        r@ == recordings_list_sql(limit),
{
    let mut r = to_owned_string("\n            SELECT id, title, created_at, completed_at, duration_seconds, status,\n                   audio_file_path, meeting_folder_path, microphone_device, system_audio_device,\n                   sample_rate, transcription_model, language, diarization_provider\n            FROM recordings\n            ORDER BY created_at DESC\n            ");
    match limit {
        Some(l) => {
            push_str(&mut r, "LIMIT ");
            let a: i64 = l as i64;
            if a < 0 {
                push_str(&mut r, "-");
                push_decimal(&mut r, (-a) as u64);
            } else {
                push_decimal(&mut r, a as u64);
            }
            push_str(&mut r, "\n            ");
        },
        None => {},
    }
    r
}

} // verus!
