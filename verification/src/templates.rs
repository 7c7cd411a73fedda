//! Prompt templates read from template files: turning a template's
//! sections into a prompt, and choosing an icon from its name.
use vstd::prelude::*;
use crate::text::{
    contains, contains_seq, decimal, join, join_seq, lowercase, push_decimal, push_str, to_lowercase,
    to_owned_string, views,
};

verus! {

broadcast use vstd::string::group_string_axioms;

/// One section of a template file.
#[derive(Clone, Debug)]
pub struct TemplateSection {
    pub title: String,
    pub instruction: String,
    pub format: String,
    pub item_format: Option<String>,
}

/// A template file.
#[derive(Clone, Debug)]
pub struct JsonTemplate {
    pub name: String,
    pub description: String,
    pub sections: Vec<TemplateSection>,
}

/// The lines a section contributes (section numbers start at 1).
pub open spec fn section_lines(number: nat, s: TemplateSection) -> Seq<Seq<char>> {
    let head = seq!["## "@ + decimal(number) + " "@ + s.title@, s.instruction@];
    let body = match s.item_format {
        Some(f) => head.push("Use this format:\n"@ + f@),
        None => head,
    };
    body.push(Seq::empty())
}

/// The lines of the first `n` sections.
pub open spec fn sections_lines(ss: Seq<TemplateSection>, n: nat) -> Seq<Seq<char>>
    decreases n,
{
    if n == 0 || n > ss.len() {
        Seq::empty()
    } else {
        sections_lines(ss, (n - 1) as nat) + section_lines(n, ss[n - 1])
    }
}

/// All lines of the prompt for a template.
pub open spec fn prompt_lines(t: JsonTemplate) -> Seq<Seq<char>> {
    seq![
        "Please analyze this meeting transcript and create "@ + t.name@ + " notes."@,
        Seq::empty(),
        "Structure your response with the following sections:"@,
        Seq::empty(),
    ] + sections_lines(t.sections@, t.sections.len() as nat)
        + seq!["Please be thorough but concise, focusing on actionable information."@]
}

/// Each of the first `n` sections gets its numbered heading, its
/// instruction and a blank line closing it, and lines of earlier sections
/// come first: the headings are numbered 1, 2, ... in the order of the
/// sections.
pub proof fn lemma_sections_in_order(ss: Seq<TemplateSection>, n: nat, i: int)
    requires
        n <= ss.len(),
        0 <= i < n,
    ensures
        exists|k: int|
            0 <= k && k + 2 < sections_lines(ss, n).len() && #[trigger] sections_lines(ss, n)[k] == "## "@
                + decimal((i + 1) as nat) + " "@ + ss[i].title@ && sections_lines(ss, n)[k + 1]
                == ss[i].instruction@ && sections_lines(ss, i as nat).len() == k,
    decreases n,
{
    if i < n - 1 {
        lemma_sections_in_order(ss, (n - 1) as nat, i);
        let k = choose|k: int|
            0 <= k && k + 2 < sections_lines(ss, (n - 1) as nat).len() && #[trigger] sections_lines(
                ss,
                (n - 1) as nat,
            )[k] == "## "@ + decimal((i + 1) as nat) + " "@ + ss[i].title@ && sections_lines(
                ss,
                (n - 1) as nat,
            )[k + 1] == ss[i].instruction@ && sections_lines(ss, i as nat).len() == k;
        assert(sections_lines(ss, n)[k] == sections_lines(ss, (n - 1) as nat)[k]);
        assert(sections_lines(ss, n)[k + 1] == sections_lines(ss, (n - 1) as nat)[k + 1]);
    } else {
        let k = sections_lines(ss, i as nat).len() as int;
        assert(sections_lines(ss, n)[k] == section_lines(n, ss[i])[0]);
        assert(sections_lines(ss, n)[k + 1] == section_lines(n, ss[i])[1]);
    }
}

/// The prompt opens by naming the template and asking for its sections, and
/// closes by asking for thoroughness.
pub proof fn lemma_prompt_frame(t: JsonTemplate)
    ensures
        prompt_lines(t)[0] == "Please analyze this meeting transcript and create "@ + t.name@ + " notes."@,
        prompt_lines(t)[2] == "Structure your response with the following sections:"@,
        prompt_lines(t).last() == "Please be thorough but concise, focusing on actionable information."@,
        prompt_lines(t).len() == 5 + sections_lines(t.sections@, t.sections.len() as nat).len(),
{
}

/// The prompt for a template: its lines joined by newlines.
pub fn convert_template_to_prompt(template: &JsonTemplate) -> (r: String)
    requires
        template.sections.len() < u64::MAX,
    ensures
        r@ == join_seq(prompt_lines(*template), "\n"@),
{
    let mut parts: Vec<String> = Vec::new();
    let mut header = to_owned_string("Please analyze this meeting transcript and create ");
    push_str(&mut header, template.name.as_str());
    push_str(&mut header, " notes.");
    parts.push(header);
    parts.push(String::new());
    parts.push(to_owned_string("Structure your response with the following sections:"));
    parts.push(String::new());
    let ghost head = views(parts@);
    assert(head =~= seq![
        "Please analyze this meeting transcript and create "@ + template.name@ + " notes."@,
        Seq::empty(),
        "Structure your response with the following sections:"@,
        Seq::empty(),
    ]);
    let ss = &template.sections;
    let mut i: usize = 0;
    while i < ss.len()
        invariant
            i <= ss.len() < u64::MAX,
            head.len() == 4,
            views(parts@) == head + sections_lines(ss@, i as nat),
        decreases ss.len() - i,
    {
        let ghost before = views(parts@);
        let sec = &ss[i];
        let mut title = to_owned_string("## ");
        push_decimal(&mut title, (i + 1) as u64);
        push_str(&mut title, " ");
        push_str(&mut title, sec.title.as_str());
        parts.push(title);
        parts.push(to_owned_string(sec.instruction.as_str()));
        match &sec.item_format {
            Some(f) => {
                let mut line = to_owned_string("Use this format:\n");
                push_str(&mut line, f.as_str());
                parts.push(line);
            },
            None => {},
        }
        parts.push(String::new());
        assert(views(parts@) =~= before + section_lines((i + 1) as nat, ss@[i as int]));
        i = i + 1;
    }
    let ghost body = views(parts@);
    parts.push(to_owned_string("Please be thorough but concise, focusing on actionable information."));
    assert(views(parts@) =~= body.push("Please be thorough but concise, focusing on actionable information."@));
    let r = join(&parts, "\n");
    assert(views(parts@) =~= prompt_lines(*template));
    r
}

/// The icon for a template, from keywords in its lower-cased name.
pub open spec fn icon_for(lower: Seq<char>) -> Seq<char> {
    if contains_seq(lower, "standup"@) || contains_seq(lower, "daily"@) {
        "Users"@
    } else if contains_seq(lower, "1:1"@) || contains_seq(lower, "one_on_one"@) || contains_seq(
        lower,
        "one-on-one"@,
    ) {
        "UserCheck"@
    } else if contains_seq(lower, "interview"@) || contains_seq(lower, "debrief"@) {
        "UserPlus"@
    } else if contains_seq(lower, "brainstorm"@) || contains_seq(lower, "ideation"@) {
        "Lightbulb"@
    } else if contains_seq(lower, "retro"@) {
        "Target"@
    } else if contains_seq(lower, "sync"@) || contains_seq(lower, "status"@) {
        "Calendar"@
    } else if contains_seq(lower, "sales"@) || contains_seq(lower, "client"@) {
        "MessageSquare"@
    } else if contains_seq(lower, "psych"@) || contains_seq(lower, "session"@) {
        "ClipboardList"@
    } else {
        "FileText"@
    }
}

/// Chooses the icon for a template from its name.
pub fn get_icon_for_template(name: &str) -> (r: &'static str)
    ensures
        r@ == icon_for(lowercase(name@)),
{
    let l = to_lowercase(name);
    let l = l.as_str();
    if contains(l, "standup") || contains(l, "daily") {
        "Users"
    } else if contains(l, "1:1") || contains(l, "one_on_one") || contains(l, "one-on-one") {
        "UserCheck"
    } else if contains(l, "interview") || contains(l, "debrief") {
        "UserPlus"
    } else if contains(l, "brainstorm") || contains(l, "ideation") {
        "Lightbulb"
    } else if contains(l, "retro") {
        "Target"
    } else if contains(l, "sync") || contains(l, "status") {
        "Calendar"
    } else if contains(l, "sales") || contains(l, "client") {
        "MessageSquare"
    } else if contains(l, "psych") || contains(l, "session") {
        "ClipboardList"
    } else {
        "FileText"
    }
}

/// The stable id of a template read from the file with this stem.
pub fn builtin_template_id(file_stem: &str) -> (r: String)
    ensures
        r@ == "builtin_"@ + file_stem@,
{
    let mut r = to_owned_string("builtin_");
    push_str(&mut r, file_stem);
    r
}

} // verus!
