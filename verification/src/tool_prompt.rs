//! The system prompt for simulated tool calling: the base prompt, the rules
//! for calling a tool through a JSON block, and one section per tool with its
//! parameters as the tool's JSON schema lists them.
use vstd::prelude::*;
use crate::models::Tool;
use crate::sidecar::ToolDefinition;
use crate::text::{push_str, str_eq, to_owned_string};

verus! {

broadcast use vstd::string::group_string_axioms;

/// One property of a tool's parameter schema: its name, and its `type` and
/// `description` when they are strings.
#[derive(Clone, Debug)]
pub struct SchemaProperty {
    pub name: String,
    pub value_type: Option<String>,
    pub description: Option<String>,
}

/// A property as plain text: name, type, description.
pub type PropertyView = (Seq<char>, Option<Seq<char>>, Option<Seq<char>>);

/// The text of an optional string.
pub open spec fn opt_text(o: Option<String>) -> Option<Seq<char>> {
    match o {
        Some(s) => Some(s@),
        None => None,
    }
}

/// A property as plain text.
pub open spec fn property_view(p: SchemaProperty) -> PropertyView {
    (p.name@, opt_text(p.value_type), opt_text(p.description))
}

/// The properties as plain text.
pub open spec fn properties_view(ps: Seq<SchemaProperty>) -> Seq<PropertyView> {
    ps.map_values(|p: SchemaProperty| property_view(p))
}

/// What reading the `properties` of a schema gave, as plain text.
pub open spec fn schema_listing_view(r: Option<Option<Vec<SchemaProperty>>>) -> Option<Option<Seq<PropertyView>>> {
    match r {
        None => None,
        Some(None) => Some(None),
        Some(Some(ps)) => Some(Some(properties_view(ps@))),
    }
}

/// The required names as plain text.
pub open spec fn required_view(q: Seq<Option<String>>) -> Seq<Option<Seq<char>>> {
    q.map_values(|o: Option<String>| opt_text(o))
}

/// What `serde_json` reads from the JSON text `t` of a parameter schema
/// under `properties`: `None` when the text does not parse or has no such
/// key, `Some(None)` when its value is not an object, else each property's
/// name with its `type` and `description` where they are strings, in the
/// map's order.
pub uninterp spec fn json_schema_properties(t: Seq<char>) -> Option<Option<Seq<PropertyView>>>;

/// What `serde_json` reads from the JSON text `t` of a parameter schema
/// under `required`: each entry of that array, its text where it is a
/// string; empty when the text does not parse or has no such array.
pub uninterp spec fn json_schema_required(t: Seq<char>) -> Seq<Option<Seq<char>>>;

/// Parses a parameter schema (`serde_json::from_str`) and reads its
/// `properties` (`serde_json::Value::get`, `as_object`, `as_str`).
#[verifier::external_body]
fn schema_properties(parameters: &str) -> (r: Option<Option<Vec<SchemaProperty>>>)
    ensures
        schema_listing_view(r) == json_schema_properties(parameters@),
{
    let v: serde_json::Value = serde_json::from_str(parameters).ok()?;
    let obj = match v.get("properties")?.as_object() {
        Some(o) => o,
        None => return Some(None),
    };
    let mut out = Vec::new();
    for (name, s) in obj {
        let value_type = s.get("type").and_then(|t| t.as_str()).map(|t| t.to_string());
        let description = s.get("description").and_then(|d| d.as_str()).map(|d| d.to_string());
        out.push(SchemaProperty { name: name.clone(), value_type, description });
    }
    Some(Some(out))
}

/// Parses a parameter schema (`serde_json::from_str`) and reads its
/// `required` array (`serde_json::Value::get`, `as_array`, `as_str`).
#[verifier::external_body]
fn schema_required(parameters: &str) -> (r: Vec<Option<String>>)
    ensures
        required_view(r@) == json_schema_required(parameters@),
{
    let v: Option<serde_json::Value> = serde_json::from_str(parameters).ok();
    let mut out = Vec::new();
    if let Some(arr) = v.as_ref().and_then(|v| v.get("required")).and_then(|r| r.as_array()) {
        for x in arr {
            out.push(x.as_str().map(|s| s.to_string()));
        }
    }
    out
}

/// The instructions before the tool sections.
pub open spec fn rules_text() -> Seq<char> {
    "\n\n## Available Tools\n\nYou have access to tools. To use a tool, you MUST respond with ONLY a JSON code block in this exact format:\n```json\n{\"tool\": \"<tool_name>\", \"arguments\": {...}}\n```\n\nIMPORTANT RULES:\n- When you need information you don't have (like current time, searching data, etc.), you MUST use the appropriate tool\n- Do NOT just mention or describe tools - actually USE them by outputting the JSON block\n- When calling a tool, output ONLY the JSON block, nothing else\n- After receiving a tool result, you can call more tools or give your final answer\n- Only provide your final answer (without JSON block) when you have all needed information\n\nExample - if asked \"what time is it?\", respond with:\n```json\n{\"tool\": \"get_current_time\", \"arguments\": {}}\n```\n\n### Tools:\n\n"@
}

/// Whether `name` is among the required names (the string entries).
pub open spec fn is_required(name: Seq<char>, required: Seq<Option<Seq<char>>>) -> bool {
    exists|i: int| 0 <= i < required.len() && (#[trigger] required[i]) == Some(name)
}

/// `- name (type, required|optional): description`, with `any` for a
/// missing type and nothing for a missing description.
pub open spec fn parameter_line(p: PropertyView, required: Seq<Option<Seq<char>>>) -> Seq<char> {
    "- "@ + p.0 + " ("@ + (match p.1 {
        Some(t) => t,
        None => "any"@,
    }) + ", "@ + (if is_required(p.0, required) {
        "required"@
    } else {
        "optional"@
    }) + "): "@ + (match p.2 {
        Some(d) => d,
        None => Seq::empty(),
    }) + "\n"@
}

/// The parameter lines of a list of properties.
pub open spec fn parameter_lines(ps: Seq<PropertyView>, required: Seq<Option<Seq<char>>>) -> Seq<char>
    decreases ps.len(),
{
    if ps.len() == 0 {
        Seq::empty()
    } else {
        parameter_lines(ps.drop_last(), required) + parameter_line(ps.last(), required)
    }
}

/// The section of one tool: `**name**: description`, the parameter list
/// when the schema has properties, and a blank line.
pub open spec fn tool_section_text(
    name: Seq<char>,
    description: Seq<char>,
    props: Option<Option<Seq<PropertyView>>>,
    required: Seq<Option<Seq<char>>>,
) -> Seq<char> {
    "**"@ + name + "**: "@ + description + "\n"@ + (match props {
        None => Seq::empty(),
        Some(None) => "Parameters:\n"@,
        Some(Some(ps)) => "Parameters:\n"@ + parameter_lines(ps, required),
    }) + "\n"@
}

fn required_contains(required: &Vec<Option<String>>, name: &str) -> (r: bool)
    ensures
        r == is_required(name@, required_view(required@)),
{
    let ghost q = required_view(required@);
    let mut i: usize = 0;
    while i < required.len()
        invariant
            i <= required.len(),
            q == required_view(required@),
            forall|j: int| 0 <= j < i ==> (#[trigger] q[j]) != Some(name@),
        decreases required.len() - i,
    {
        assert(q[i as int] == opt_text(required@[i as int]));
        match &required[i] {
            Some(s) => {
                if str_eq(s.as_str(), name) {
                    return true;
                }
            },
            None => {},
        }
        i = i + 1;
    }
    false
}

/// The line of one parameter.
pub fn parameter_line_string(p: &SchemaProperty, required: &Vec<Option<String>>) -> (r: String)
    ensures
        r@ == parameter_line(property_view(*p), required_view(required@)),
{
    let mut r = to_owned_string("- ");
    push_str(&mut r, p.name.as_str());
    push_str(&mut r, " (");
    match &p.value_type {
        Some(t) => push_str(&mut r, t.as_str()),
        None => push_str(&mut r, "any"),
    }
    push_str(&mut r, ", ");
    if required_contains(required, p.name.as_str()) {
        push_str(&mut r, "required");
    } else {
        push_str(&mut r, "optional");
    }
    push_str(&mut r, "): ");
    match &p.description {
        Some(d) => push_str(&mut r, d.as_str()),
        None => {},
    }
    push_str(&mut r, "\n");
    r
}

/// The section of one tool, given what its schema lists.
pub fn tool_section(
    name: &str,
    description: &str,
    props: &Option<Option<Vec<SchemaProperty>>>,
    required: &Vec<Option<String>>,
) -> (r: String)
    ensures
        r@ == tool_section_text(name@, description@, schema_listing_view(*props), required_view(required@)),
{
    let ghost q = required_view(required@);
    let mut r = to_owned_string("**");
    push_str(&mut r, name);
    push_str(&mut r, "**: ");
    push_str(&mut r, description);
    push_str(&mut r, "\n");
    match props {
        None => {},
        Some(None) => push_str(&mut r, "Parameters:\n"),
        Some(Some(ps)) => {
            push_str(&mut r, "Parameters:\n");
            let ghost start = r@;
            let ghost pv = properties_view(ps@);
            let mut i: usize = 0;
            while i < ps.len()
                invariant
                    i <= ps.len(),
                    pv == properties_view(ps@),
                    q == required_view(required@),
                    r@ == start + parameter_lines(pv.take(i as int), q),
                decreases ps.len() - i,
            {
                let p = &ps[i];
                let line = parameter_line_string(p, required);
                push_str(&mut r, line.as_str());
                proof {
                    assert(pv.take(i + 1).drop_last() =~= pv.take(i as int));
                    assert(pv.take(i + 1).last() == property_view(*p));
                }
                i = i + 1;
            }
            proof {
                assert(pv.take(ps.len() as int) =~= pv);
            }
        },
    }
    push_str(&mut r, "\n");
    r
}

/// The concatenated sections of tools `0..n`, each from what `serde_json`
/// reads from its parameter schema.
pub open spec fn sections_text(tools: Seq<ToolDefinition>, n: int) -> Seq<char>
    decreases n,
{
    if n <= 0 {
        Seq::empty()
    } else {
        sections_text(tools, n - 1) + tool_section_text(
            tools[n - 1].name@,
            tools[n - 1].description@,
            json_schema_properties(tools[n - 1].parameters@),
            json_schema_required(tools[n - 1].parameters@),
        )
    }
}

/// The system prompt for simulated tool calling: the base prompt, the rules,
/// and a section per tool built from what its parameter schema lists.
pub fn build_tool_system_prompt(base_prompt: &str, tools: &Vec<ToolDefinition>) -> (r: String)
    ensures
        r@ == base_prompt@ + rules_text() + sections_text(tools@, tools.len() as int),
{
    let mut r = to_owned_string(base_prompt);
    push_str(
        &mut r,
        "\n\n## Available Tools\n\nYou have access to tools. To use a tool, you MUST respond with ONLY a JSON code block in this exact format:\n```json\n{\"tool\": \"<tool_name>\", \"arguments\": {...}}\n```\n\nIMPORTANT RULES:\n- When you need information you don't have (like current time, searching data, etc.), you MUST use the appropriate tool\n- Do NOT just mention or describe tools - actually USE them by outputting the JSON block\n- When calling a tool, output ONLY the JSON block, nothing else\n- After receiving a tool result, you can call more tools or give your final answer\n- Only provide your final answer (without JSON block) when you have all needed information\n\nExample - if asked \"what time is it?\", respond with:\n```json\n{\"tool\": \"get_current_time\", \"arguments\": {}}\n```\n\n### Tools:\n\n",
    );
    let ghost head = r@;
    let mut i: usize = 0;
    while i < tools.len()
        invariant
            i <= tools.len(),
            r@ == head + sections_text(tools@, i as int),
        decreases tools.len() - i,
    {
        let p = schema_properties(tools[i].parameters.as_str());
        let q = schema_required(tools[i].parameters.as_str());
        let s = tool_section(tools[i].name.as_str(), tools[i].description.as_str(), &p, &q);
        push_str(&mut r, s.as_str());
        i = i + 1;
    }
    r
}

/// The parameter schema that stands when a tool's function schema has none.
pub open spec fn default_parameters_text() -> Seq<char> {
    "{\"type\": \"object\", \"properties\": {}}"@
}

/// What `serde_json` reads from the JSON text `t` of a function schema under
/// `parameters`, written back as compact JSON text; `None` when the text
/// does not parse or has no such key.
pub uninterp spec fn json_parameters_member(t: Seq<char>) -> Option<Seq<char>>;

/// Parses a function schema (`serde_json::from_str`) and writes its
/// `parameters` member back as JSON text (`Display` of `serde_json::Value`).
#[verifier::external_body]
fn parameters_member(function_schema: &str) -> (r: Option<String>)
    ensures
        opt_text(r) == json_parameters_member(function_schema@),
{
    let v: serde_json::Value = serde_json::from_str(function_schema).ok()?;
    v.get("parameters").map(|p| p.to_string())
}

/// The definition handed to the model for a stored tool: its name, its
/// description (empty when it has none), and the `parameters` of its
/// function schema, or an empty object schema.
pub fn tool_definition(tool: &Tool) -> (r: ToolDefinition)
    ensures
        r.name@ == tool.name@,
        r.description@ == match tool.description {
            Some(d) => d@,
            None => Seq::<char>::empty(),
        },
        r.parameters@ == match json_parameters_member(tool.function_schema@) {
            Some(t) => t,
            None => default_parameters_text(),
        },
{
    let parameters = match parameters_member(tool.function_schema.as_str()) {
        Some(t) => t,
        None => to_owned_string("{\"type\": \"object\", \"properties\": {}}"),
    };
    let description = match &tool.description {
        Some(d) => to_owned_string(d.as_str()),
        None => {
            proof {
                reveal_strlit("");
            }
            to_owned_string("")
        },
    };
    ToolDefinition { name: to_owned_string(tool.name.as_str()), description, parameters }
}

/// The definitions of the session's tools, `None` when it has none.
pub fn tool_definitions(tools: &Vec<Tool>) -> (r: Option<Vec<ToolDefinition>>)
    ensures
        tools.len() == 0 <==> r is None,
        r matches Some(ds) ==> ds.len() == tools.len() && forall|i: int|
            0 <= i < tools.len() ==> (#[trigger] ds@[i]).name@ == tools@[i].name@
                && ds@[i].description@ == match tools@[i].description {
                Some(d) => d@,
                None => Seq::<char>::empty(),
            } && ds@[i].parameters@ == match json_parameters_member(tools@[i].function_schema@) {
                Some(t) => t,
                None => default_parameters_text(),
            },
{
    if tools.len() == 0 {
        return None;
    }
    let mut ds: Vec<ToolDefinition> = Vec::new();
    let mut i: usize = 0;
    while i < tools.len()
        invariant
            i <= tools.len(),
            ds.len() == i,
            forall|j: int|
                0 <= j < i ==> (#[trigger] ds@[j]).name@ == tools@[j].name@ && ds@[j].description@
                    == match tools@[j].description {
                    Some(d) => d@,
                    None => Seq::<char>::empty(),
                } && ds@[j].parameters@ == match json_parameters_member(tools@[j].function_schema@) {
                    Some(t) => t,
                    None => default_parameters_text(),
                },
        decreases tools.len() - i,
    {
        let d = tool_definition(&tools[i]);
        ds.push(d);
        i = i + 1;
    }
    Some(ds)
}

} // verus!
