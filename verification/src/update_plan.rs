//! Changes to stored records: from an update request with optional fields
//! to the `UPDATE ... SET ... WHERE id = ?` statement that writes the fields
//! given, with its positional parameters (a request with no field to write
//! gives no statement); which records may be deleted; and the lookup of
//! tools by id.
use vstd::prelude::*;
use crate::models::{UpdateMcpServer, UpdatePromptTemplate, UpdateTool, args_json_text, env_json_text};
use crate::outside::json_string_array_text;
use crate::text::{join_seq, push_str, str_eq, to_owned_string, views};

verus! {

broadcast use vstd::string::group_string_axioms;

/// A parameter value of an SQL statement.
#[derive(Clone, Debug)]
pub enum SqlValue {
    Text(String),
    Integer(i64),
    Null,
}

/// What a parameter value stands for.
pub enum SqlValueView {
    Text(Seq<char>),
    Integer(int),
    Null,
}

impl SqlValue {
    pub open spec fn view_value(self) -> SqlValueView {
        match self {
            SqlValue::Text(s) => SqlValueView::Text(s@),
            SqlValue::Integer(i) => SqlValueView::Integer(i as int),
            SqlValue::Null => SqlValueView::Null,
        }
    }
}

impl SqlValue {
    /// A copy of the value.
    pub fn duplicate(&self) -> (r: SqlValue)
        ensures
            r.view_value() == self.view_value(),
    {
        match self {
            SqlValue::Text(s) => SqlValue::Text(s.clone()),
            SqlValue::Integer(i) => SqlValue::Integer(*i),
            SqlValue::Null => SqlValue::Null,
        }
    }
}

/// One column written by an update, with the value written.
#[derive(Clone, Debug)]
pub struct Assignment {
    pub column: String,
    pub value: SqlValue,
}

/// An update statement with its positional parameters.
#[derive(Clone, Debug)]
pub struct UpdateStatement {
    pub sql: String,
    pub params: Vec<SqlValue>,
}

/// The columns and values of a list of assignments.
pub open spec fn assignment_views(a: Seq<Assignment>) -> Seq<(Seq<char>, SqlValueView)> {
    a.map_values(|x: Assignment| (x.column@, x.value.view_value()))
}

/// The values of a list of parameters.
pub open spec fn value_views(p: Seq<SqlValue>) -> Seq<SqlValueView> {
    p.map_values(|x: SqlValue| x.view_value())
}

/// `column = ?` for each column, joined with `, `.
pub open spec fn set_list(a: Seq<(Seq<char>, SqlValueView)>) -> Seq<char> {
    join_seq(a.map_values(|x: (Seq<char>, SqlValueView)| x.0 + " = ?"@), ", "@)
}

/// The statement text that writes the assigned columns of the row `id` of `table`.
pub open spec fn update_sql(table: Seq<char>, a: Seq<(Seq<char>, SqlValueView)>) -> Seq<char> {
    "UPDATE "@ + table + " SET "@ + set_list(a) + " WHERE id = ?"@
}

/// The parameters of that statement: the assigned values, then the id.
pub open spec fn update_params(a: Seq<(Seq<char>, SqlValueView)>, id: Seq<char>) -> Seq<SqlValueView> {
    a.map_values(|x: (Seq<char>, SqlValueView)| x.1).push(SqlValueView::Text(id))
}

/// An update binds one parameter per assigned column, in the order of the
/// columns, and the id of the row last.
pub proof fn lemma_update_params(a: Seq<(Seq<char>, SqlValueView)>, id: Seq<char>)
    ensures
        update_params(a, id).len() == a.len() + 1,
        update_params(a, id)[a.len() as int] == SqlValueView::Text(id),
        forall|i: int| 0 <= i < a.len() ==> #[trigger] update_params(a, id)[i] == a[i].1,
{
}

/// The statement for `a` on `table`, if `a` assigns anything.
pub open spec fn statement_for(
    r: Option<UpdateStatement>,
    table: Seq<char>,
    a: Seq<(Seq<char>, SqlValueView)>,
    id: Seq<char>,
) -> bool {
    if a.len() == 0 {
        r is None
    } else {
        &&& r is Some
        &&& r->0.sql@ == update_sql(table, a)
        &&& value_views(r->0.params@) == update_params(a, id)
    }
}

/// A text column, written when a value is given.
pub open spec fn text_field(column: Seq<char>, o: Option<String>) -> Seq<(Seq<char>, SqlValueView)> {
    match o {
        Some(s) => seq![(column, SqlValueView::Text(s@))],
        None => Seq::empty(),
    }
}

/// An integer column, written when a value is given.
pub open spec fn int_field(column: Seq<char>, o: Option<i32>) -> Seq<(Seq<char>, SqlValueView)> {
    match o {
        Some(n) => seq![(column, SqlValueView::Integer(n as int))],
        None => Seq::empty(),
    }
}

/// A flag column, written as 1 or 0 when a value is given.
pub open spec fn flag_field(column: Seq<char>, o: Option<bool>) -> Seq<(Seq<char>, SqlValueView)> {
    match o {
        Some(b) => seq![(column, SqlValueView::Integer(if b { 1 } else { 0 }))],
        None => Seq::empty(),
    }
}

fn push_assignment(a: &mut Vec<Assignment>, column: &str, value: SqlValue)
    ensures
        assignment_views(final(a)@) == assignment_views(old(a)@).push((column@, value.view_value())),
{
    let ghost before = a@;
    a.push(Assignment { column: to_owned_string(column), value });
    assert(assignment_views(a@) =~= assignment_views(before).push((column@, value.view_value())));
}

fn push_text_field(a: &mut Vec<Assignment>, column: &str, o: &Option<String>)
    ensures
        assignment_views(final(a)@) == assignment_views(old(a)@) + text_field(column@, *o),
{
    match o {
        Some(s) => push_assignment(a, column, SqlValue::Text(s.clone())),
        None => {
            assert(assignment_views(a@) + text_field(column@, *o) =~= assignment_views(a@));
        },
    }
}

fn push_int_field(a: &mut Vec<Assignment>, column: &str, o: Option<i32>)
    ensures
        assignment_views(final(a)@) == assignment_views(old(a)@) + int_field(column@, o),
{
    match o {
        Some(n) => push_assignment(a, column, SqlValue::Integer(n as i64)),
        None => {
            assert(assignment_views(a@) + int_field(column@, o) =~= assignment_views(a@));
        },
    }
}

fn push_flag_field(a: &mut Vec<Assignment>, column: &str, o: Option<bool>)
    ensures
        assignment_views(final(a)@) == assignment_views(old(a)@) + flag_field(column@, o),
{
    match o {
        Some(b) => push_assignment(a, column, SqlValue::Integer(if b { 1 } else { 0 })),
        None => {
            assert(assignment_views(a@) + flag_field(column@, o) =~= assignment_views(a@));
        },
    }
}

/// The statement writing the assignments `a` into the row `id` of `table`;
/// `None` when `a` is empty.
pub fn finish_update(table: &str, a: Vec<Assignment>, id: &str) -> (r: Option<UpdateStatement>)
    ensures
        statement_for(r, table@, assignment_views(a@), id@),
{
    if a.len() == 0 {
        return None;
    }
    let ghost av = assignment_views(a@);
    let ghost parts = av.map_values(|x: (Seq<char>, SqlValueView)| x.0 + " = ?"@);
    let mut sql = to_owned_string("UPDATE ");
    push_str(&mut sql, table);
    push_str(&mut sql, " SET ");
    let ghost head = sql@;
    let mut params: Vec<SqlValue> = Vec::new();
    let mut i: usize = 0;
    while i < a.len()
        invariant
            i <= a.len(),
            av == assignment_views(a@),
            parts == av.map_values(|x: (Seq<char>, SqlValueView)| x.0 + " = ?"@),
            sql@ == head + join_seq(parts.take(i as int), ", "@),
            value_views(params@) == av.take(i as int).map_values(
                |x: (Seq<char>, SqlValueView)| x.1,
            ),
        decreases a.len() - i,
    {
        if i != 0 {
            push_str(&mut sql, ", ");
        }
        push_str(&mut sql, a[i].column.as_str());
        push_str(&mut sql, " = ?");
        let ghost old_p = params@;
        let v = a[i].value.duplicate();
        params.push(v);
        proof {
            assert(av[i as int] == (a@[i as int].column@, a@[i as int].value.view_value()));
            assert(value_views(params@) =~= value_views(old_p).push(v.view_value()));
            assert(parts.take(i + 1).drop_last() =~= parts.take(i as int));
            assert(parts[i as int] == a@[i as int].column@ + " = ?"@);
            assert(value_views(params@) =~= av.take(i + 1).map_values(
                |x: (Seq<char>, SqlValueView)| x.1,
            ));
        }
        i = i + 1;
    }
    push_str(&mut sql, " WHERE id = ?");
    params.push(SqlValue::Text(to_owned_string(id)));
    proof {
        assert(parts.take(a.len() as int) =~= parts);
        assert(av.take(a.len() as int) =~= av);
        assert(value_views(params@) =~= update_params(av, id@));
    }
    Some(UpdateStatement { sql, params })
}

// ---------------------------------------------------------------------------
// Tools
// ---------------------------------------------------------------------------

/// The columns a tool update writes.  A built-in tool can only be enabled or
/// disabled and made default or not; other tools can have every field changed.
pub open spec fn tool_assignments(input: UpdateTool, is_builtin: bool) -> Seq<(Seq<char>, SqlValueView)> {
    (if is_builtin {
        Seq::empty()
    } else {
        text_field("name"@, input.name) + text_field("description"@, input.description)
            + text_field("function_schema"@, input.function_schema) + text_field(
            "execution_location"@,
            input.execution_location,
        ) + text_field("icon"@, input.icon) + int_field("sort_order"@, input.sort_order)
    }) + flag_field("enabled"@, input.enabled) + flag_field("is_default"@, input.is_default)
}

/// A built-in tool's update writes nothing but whether the tool is enabled
/// and whether it is a default tool.
pub proof fn lemma_builtin_tool_update_only_flags(input: UpdateTool)
    ensures
        forall|i: int|
            0 <= i < tool_assignments(input, true).len() ==> (#[trigger] tool_assignments(
                input,
                true,
            )[i]).0 == "enabled"@ || tool_assignments(input, true)[i].0 == "is_default"@,
{
    let a = tool_assignments(input, true);
    assert(a =~= flag_field("enabled"@, input.enabled) + flag_field("is_default"@, input.is_default));
}

/// The update of the tool `id`, whose stored type is `tool_type`.
pub fn tool_update_statement(id: &str, tool_type: &str, input: &UpdateTool) -> (r: Option<UpdateStatement>)
    ensures
        statement_for(r, "tools"@, tool_assignments(*input, tool_type@ == "builtin"@), id@),
{
    let is_builtin = str_eq(tool_type, "builtin");
    proof {
        reveal_strlit("builtin");
    }
    let mut a: Vec<Assignment> = Vec::new();
    if !is_builtin {
        push_text_field(&mut a, "name", &input.name);
        push_text_field(&mut a, "description", &input.description);
        push_text_field(&mut a, "function_schema", &input.function_schema);
        push_text_field(&mut a, "execution_location", &input.execution_location);
        push_text_field(&mut a, "icon", &input.icon);
        push_int_field(&mut a, "sort_order", input.sort_order);
    }
    push_flag_field(&mut a, "enabled", input.enabled);
    push_flag_field(&mut a, "is_default", input.is_default);
    proof {
        reveal_strlit("name");
        reveal_strlit("description");
        reveal_strlit("function_schema");
        reveal_strlit("execution_location");
        reveal_strlit("icon");
        reveal_strlit("sort_order");
        reveal_strlit("enabled");
        reveal_strlit("is_default");
        assert(assignment_views(a@) =~= tool_assignments(*input, tool_type@ == "builtin"@));
    }
    finish_update("tools", a, id)
}

// ---------------------------------------------------------------------------
// Prompt templates
// ---------------------------------------------------------------------------

/// The columns a template update writes.
pub open spec fn template_assignments(input: UpdatePromptTemplate) -> Seq<(Seq<char>, SqlValueView)> {
    text_field("name"@, input.name) + text_field("description"@, input.description) + text_field(
        "prompt"@,
        input.prompt,
    ) + text_field("icon"@, input.icon) + int_field("sort_order"@, input.sort_order)
}

/// The update of the template `id`.  Built-in templates cannot be changed.
pub fn template_update_statement(id: &str, is_builtin: bool, input: &UpdatePromptTemplate) -> (r: Result<
    Option<UpdateStatement>,
    String,
>)
    ensures
        is_builtin <==> r is Err,
        r matches Err(e) ==> e@ == "Cannot update built-in templates"@,
        r matches Ok(s) ==> statement_for(s, "prompt_templates"@, template_assignments(*input), id@),
{
    if is_builtin {
        return Err(to_owned_string("Cannot update built-in templates"));
    }
    let mut a: Vec<Assignment> = Vec::new();
    push_text_field(&mut a, "name", &input.name);
    push_text_field(&mut a, "description", &input.description);
    push_text_field(&mut a, "prompt", &input.prompt);
    push_text_field(&mut a, "icon", &input.icon);
    push_int_field(&mut a, "sort_order", input.sort_order);
    proof {
        assert(assignment_views(a@) =~= template_assignments(*input));
    }
    Ok(finish_update("prompt_templates", a, id))
}

// ---------------------------------------------------------------------------
// MCP servers
// ---------------------------------------------------------------------------

/// Whether an update of server `id` may go ahead: the server must exist, and
/// a new name must not belong to another server (`owner_of_name` is the id
/// of the server holding the requested name, if any).
pub fn check_mcp_server_update(
    exists: bool,
    new_name: &Option<String>,
    owner_of_name: &Option<String>,
    id: &str,
) -> (r: Result<(), String>)
    ensures
        !exists ==> (r matches Err(e) && e@ == "MCP server not found"@),
        exists && new_name.is_some() && owner_of_name.is_some() && owner_of_name->0@ != id@
            ==> (r matches Err(e) && e@ == "MCP server with name '"@ + new_name->0@ + "' already exists"@),
        exists && !(new_name.is_some() && owner_of_name.is_some() && owner_of_name->0@ != id@)
            ==> r is Ok,
{
    if !exists {
        return Err(to_owned_string("MCP server not found"));
    }
    match new_name {
        Some(n) => match owner_of_name {
            Some(other) => {
                if !str_eq(other.as_str(), id) {
                    let mut e = to_owned_string("MCP server with name '");
                    push_str(&mut e, n.as_str());
                    push_str(&mut e, "' already exists");
                    return Err(e);
                }
                Ok(())
            },
            None => Ok(()),
        },
        None => Ok(()),
    }
}

/// The columns an MCP server update writes, given the stored text of the
/// argument list and of the environment (used when they are given).
pub open spec fn mcp_server_assignments(
    input: UpdateMcpServer,
    args_text: Seq<char>,
    env_text: Seq<char>,
) -> Seq<(Seq<char>, SqlValueView)> {
    text_field("name"@, input.name) + text_field("command"@, input.command) + (if input.args is Some {
        seq![("args"@, SqlValueView::Text(args_text))]
    } else {
        Seq::empty()
    }) + (if input.env is Some {
        seq![("env"@, SqlValueView::Text(env_text))]
    } else {
        Seq::empty()
    }) + text_field("working_directory"@, input.working_directory) + flag_field(
        "auto_start"@,
        input.auto_start,
    ) + flag_field("enabled"@, input.enabled)
}

/// The stored text of the argument list of an update, when it has one.
pub open spec fn stored_args_text(input: UpdateMcpServer) -> Seq<char> {
    match input.args {
        Some(v) => args_json_text(views(v@)),
        None => Seq::empty(),
    }
}

/// The update of the MCP server `id`.  The argument list is stored as its
/// JSON text (`[]` should that fail), the environment as its JSON text (`{}`
/// should that fail).  The environment is a hash map, whose order of keys in
/// the text is not fixed, so its text is stated only to exist.
pub fn mcp_server_update_statement(id: &str, input: &UpdateMcpServer) -> (r: Option<UpdateStatement>)
    ensures
        exists|env_text: Seq<char>|
            statement_for(
                r,
                "mcp_servers"@,
                #[trigger] mcp_server_assignments(*input, stored_args_text(*input), env_text),
                id@,
            ),
{
    let mut a: Vec<Assignment> = Vec::new();
    push_text_field(&mut a, "name", &input.name);
    push_text_field(&mut a, "command", &input.command);
    let ghost args_text = stored_args_text(*input);
    match &input.args {
        Some(v) => {
            let t = match json_string_array_text(v) {
                Some(t) => t,
                None => to_owned_string("[]"),
            };
            push_assignment(&mut a, "args", SqlValue::Text(t));
        },
        None => {},
    }
    let ghost mut env_text: Seq<char> = Seq::empty();
    match &input.env {
        Some(m) => {
            let t = match env_json_text(m) {
                Some(t) => t,
                None => to_owned_string("{}"),
            };
            proof {
                env_text = t@;
            }
            push_assignment(&mut a, "env", SqlValue::Text(t));
        },
        None => {},
    }
    push_text_field(&mut a, "working_directory", &input.working_directory);
    push_flag_field(&mut a, "auto_start", input.auto_start);
    push_flag_field(&mut a, "enabled", input.enabled);
    proof {
        assert(assignment_views(a@) =~= mcp_server_assignments(*input, args_text, env_text));
    }
    finish_update("mcp_servers", a, id)
}

// ---------------------------------------------------------------------------
// Deletions and lookups
// ---------------------------------------------------------------------------

/// Only custom tools can be deleted.
pub fn check_tool_deletion(tool_type: &str) -> (r: Result<(), String>)
    ensures
        r is Ok <==> tool_type@ == "custom"@,
        r matches Err(e) ==> e@ == "Cannot delete built-in or MCP tools"@,
{
    if !str_eq(tool_type, "custom") {
        return Err(to_owned_string("Cannot delete built-in or MCP tools"));
    }
    Ok(())
}

/// Built-in templates cannot be deleted.
pub fn check_template_deletion(is_builtin: bool) -> (r: Result<(), String>)
    ensures
        r is Ok <==> !is_builtin,
        r matches Err(e) ==> e@ == "Cannot delete built-in templates"@,
{
    if is_builtin {
        return Err(to_owned_string("Cannot delete built-in templates"));
    }
    Ok(())
}

/// `n` placeholders `?`, separated by `, `.
pub open spec fn question_marks(n: nat) -> Seq<char>
    decreases n,
{
    if n == 0 {
        Seq::empty()
    } else if n == 1 {
        "?"@
    } else {
        question_marks((n - 1) as nat) + ", ?"@
    }
}

/// `n` placeholders read `?, ?, ..., ?`: a `?` every third character from
/// the first, each followed by `, ` but the last.
pub proof fn lemma_question_marks(n: nat)
    ensures
        question_marks(n).len() == (if n == 0 { 0 } else { 3 * n - 2 }),
        forall|k: int|
            0 <= k < question_marks(n).len() ==> #[trigger] question_marks(n)[k] == (if k % 3 == 0 {
                '?'
            } else if k % 3 == 1 {
                ','
            } else {
                ' '
            }),
    decreases n,
{
    reveal_strlit("?");
    reveal_strlit(", ?");
    if n > 1 {
        lemma_question_marks((n - 1) as nat);
        let prev = question_marks((n - 1) as nat);
        assert forall|k: int| 0 <= k < question_marks(n).len() implies #[trigger] question_marks(n)[k] == (if k
            % 3 == 0 {
            '?'
        } else if k % 3 == 1 {
            ','
        } else {
            ' '
        }) by {
            if k < prev.len() {
                assert(question_marks(n)[k] == prev[k]);
            } else {
                assert(question_marks(n)[k] == ", ?"@[k - prev.len()]);
                assert(prev.len() == 3 * n - 5);
            }
        }
    }
}

/// The statement reading the enabled tools among `n` ids, in sort order;
/// none for no ids.
pub open spec fn tools_by_ids_sql(n: nat) -> Option<Seq<char>> {
    if n == 0 {
        None
    } else {
        Some("\n        SELECT t.id, t.name, t.description, t.tool_type, t.function_schema, t.execution_location,\n               t.enabled, t.is_default, t.icon, t.sort_order, t.created_at,\n               t.mcp_server_id, ms.name as mcp_server_name\n        FROM tools t\n        LEFT JOIN mcp_servers ms ON t.mcp_server_id = ms.id\n        WHERE t.id IN ("@ + question_marks(n) + ") AND t.enabled = 1\n        ORDER BY t.sort_order ASC, t.created_at ASC\n        "@)
    }
}

/// The statement reading the enabled tools among `n` ids.
pub fn tools_by_ids_query(n: usize) -> (r: Option<String>)
    ensures
        match tools_by_ids_sql(n as nat) {
            Some(q) => r matches Some(s) && s@ == q,
            None => r is None,
        },
{
    if n == 0 {
        return None;
    }
    let mut s = to_owned_string("\n        SELECT t.id, t.name, t.description, t.tool_type, t.function_schema, t.execution_location,\n               t.enabled, t.is_default, t.icon, t.sort_order, t.created_at,\n               t.mcp_server_id, ms.name as mcp_server_name\n        FROM tools t\n        LEFT JOIN mcp_servers ms ON t.mcp_server_id = ms.id\n        WHERE t.id IN (");
    push_str(&mut s, "?");
    let mut k: usize = 1;
    while k < n
        invariant
            1 <= k <= n,
            s@ == "\n        SELECT t.id, t.name, t.description, t.tool_type, t.function_schema, t.execution_location,\n               t.enabled, t.is_default, t.icon, t.sort_order, t.created_at,\n               t.mcp_server_id, ms.name as mcp_server_name\n        FROM tools t\n        LEFT JOIN mcp_servers ms ON t.mcp_server_id = ms.id\n        WHERE t.id IN ("@ + question_marks(k as nat),
        decreases n - k,
    {
        push_str(&mut s, ", ?");
        k = k + 1;
    }
    push_str(&mut s, ") AND t.enabled = 1\n        ORDER BY t.sort_order ASC, t.created_at ASC\n        ");
    Some(s)
}

} // verus!
