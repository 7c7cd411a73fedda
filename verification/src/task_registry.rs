//! The registry of running chat completions, keyed by assistant message id,
//! through which a session's completions are found and cancelled.
use vstd::prelude::*;
use dashmap::DashMap;
use tokio_util::sync::CancellationToken;
use crate::text::str_eq;

verus! {

broadcast use vstd::string::group_string_axioms;

#[verifier::external_type_specification]
#[verifier::external_body]
#[verifier::reject_recursive_types(K)]
#[verifier::reject_recursive_types(V)]
#[verifier::reject_recursive_types(S)]
pub struct ExDashMap<K, V, S>(DashMap<K, V, S>);

#[verifier::external_type_specification]
#[verifier::external_body]
pub struct ExCancellationToken(CancellationToken);

/// A running chat completion.
pub struct ChatTask {
    pub session_id: String,
    pub message_id: String,
    pub cancel_token: CancellationToken,
}

/// The map of running tasks, keyed by message id.
pub type TaskMap = DashMap<String, ChatTask>;

/// What a task map holds: for each message id, the session of its task.
pub uninterp spec fn task_sessions(m: TaskMap) -> Map<Seq<char>, Seq<char>>;

/// No tasks at all.
pub open spec fn no_tasks() -> Map<Seq<char>, Seq<char>> {
    Map::empty()
}

/// `DashMap::new()`: an empty map.
#[verifier::external_body]
fn task_map_new() -> (r: TaskMap)
    ensures
        task_sessions(r) == no_tasks(),
{
    DashMap::new()
}

/// `DashMap::insert`: the task is stored under `key`, replacing any task
/// stored there before.
#[verifier::external_body]
fn task_map_insert(m: &mut TaskMap, key: String, task: ChatTask)
    ensures
        task_sessions(*final(m)) == task_sessions(*old(m)).insert(key@, task.session_id@),
{
    m.insert(key, task);
}

/// `DashMap::remove`: the task stored under `key`, taken out of the map.
#[verifier::external_body]
fn task_map_remove(m: &mut TaskMap, key: &str) -> (r: Option<ChatTask>)
    ensures
        task_sessions(*final(m)) == task_sessions(*old(m)).remove(key@),
        r is Some <==> task_sessions(*old(m)).contains_key(key@),
        r matches Some(t) ==> t.session_id@ == task_sessions(*old(m))[key@],
{
    m.remove(key).map(|(_, task)| task)
}

/// `DashMap::iter`, each entry given as (message id, session id).  Each
/// key comes once; the order depends on the map's hashing.
#[verifier::external_body]
fn task_map_entries(m: &TaskMap) -> (r: Vec<(String, String)>)
    ensures
        forall|i: int|
            0 <= i < r.len() ==> task_sessions(*m).contains_key((#[trigger] r@[i]).0@)
                && task_sessions(*m)[r@[i].0@] == r@[i].1@,
        forall|k: Seq<char>|
            task_sessions(*m).contains_key(k) ==> exists|i: int| 0 <= i < r.len() && (#[trigger] r@[i]).0@ == k,
        forall|i: int, j: int| 0 <= i < j < r.len() ==> (#[trigger] r@[i]).0@ != (#[trigger] r@[j]).0@,
{
    m.iter().map(|e| (e.key().clone(), e.value().session_id.clone())).collect()
}

/// `CancellationToken::cancel`.  The token is shared state; nothing is
/// stated of it here.
#[verifier::external_body]
fn cancel_token(token: &CancellationToken) {
    token.cancel()
}

/// The running chat completions.
pub struct ChatTaskRegistry {
    tasks: TaskMap,
}

impl View for ChatTaskRegistry {
    type V = Map<Seq<char>, Seq<char>>;

    closed spec fn view(&self) -> Map<Seq<char>, Seq<char>> {
        task_sessions(self.tasks)
    }
}

/// The message ids whose tasks belong to `session`.
pub open spec fn session_keys(m: Map<Seq<char>, Seq<char>>, session: Seq<char>) -> Set<Seq<char>> {
    Set::new(|k: Seq<char>| m.contains_key(k) && m[k] == session)
}

impl ChatTaskRegistry {
    /// No tasks.
    pub fn new() -> (r: Self)
        ensures
            r@ == no_tasks(),
    {
        ChatTaskRegistry { tasks: task_map_new() }
    }
}

/// Registers a running completion for the assistant message `message_id`.
pub fn register_task(
    registry: &mut ChatTaskRegistry,
    message_id: String,
    session_id: String,
    cancel_token: CancellationToken,
)
    ensures
        final(registry)@ == old(registry)@.insert(message_id@, session_id@),
{
    let key = message_id.clone();
    task_map_insert(&mut registry.tasks, key, ChatTask { session_id, message_id, cancel_token });
}

/// Removes the task of a message from the registry.
pub fn remove_task(registry: &mut ChatTaskRegistry, message_id: &str)
    ensures
        final(registry)@ == old(registry)@.remove(message_id@),
{
    let _ = task_map_remove(&mut registry.tasks, message_id);
}

/// Whether a completion of the session is running.
pub fn is_session_processing(registry: &ChatTaskRegistry, session_id: &str) -> (r: bool)
    ensures
        r == exists|k: Seq<char>| registry@.contains_key(k) && #[trigger] registry@[k] == session_id@,
{
    let entries = task_map_entries(&registry.tasks);
    let mut i: usize = 0;
    while i < entries.len()
        invariant
            i <= entries.len(),
            forall|j: int| 0 <= j < i ==> (#[trigger] entries@[j]).1@ != session_id@,
            forall|j: int|
                0 <= j < entries.len() ==> registry@.contains_key((#[trigger] entries@[j]).0@)
                    && registry@[entries@[j].0@] == entries@[j].1@,
            forall|k: Seq<char>|
                registry@.contains_key(k) ==> exists|j: int| 0 <= j < entries.len() && (#[trigger] entries@[j]).0@ == k,
        decreases entries.len() - i,
    {
        if str_eq(entries[i].1.as_str(), session_id) {
            assert(registry@.contains_key(entries@[i as int].0@));
            return true;
        }
        i = i + 1;
    }
    assert forall|k: Seq<char>| registry@.contains_key(k) implies #[trigger] registry@[k] != session_id@ by {
        let w = choose|w: int| 0 <= w < entries.len() && (#[trigger] entries@[w]).0@ == k;
    }
    false
}

/// Cancels and removes every running completion of the session.
pub fn cancel_session_tasks(registry: &mut ChatTaskRegistry, session_id: &str)
    ensures
        final(registry)@ == old(registry)@.remove_keys(session_keys(old(registry)@, session_id@)),
{
    let entries = task_map_entries(&registry.tasks);
    let ghost old_map = registry@;
    let ghost keys = session_keys(old_map, session_id@);
    let mut i: usize = 0;
    while i < entries.len()
        invariant
            i <= entries.len(),
            old_map == old(registry)@,
            keys == session_keys(old_map, session_id@),
            forall|j: int|
                0 <= j < entries.len() ==> old_map.contains_key((#[trigger] entries@[j]).0@)
                    && old_map[entries@[j].0@] == entries@[j].1@,
            forall|k: Seq<char>|
                old_map.contains_key(k) ==> exists|j: int| 0 <= j < entries.len() && (#[trigger] entries@[j]).0@ == k,
            forall|a: int, b: int| 0 <= a < b < entries.len() ==> (#[trigger] entries@[a]).0@ != (#[trigger] entries@[b]).0@,
            registry@ == old_map.remove_keys(
                Set::new(|k: Seq<char>| keys.contains(k) && exists|j: int| 0 <= j < i && (#[trigger] entries@[j]).0@ == k),
            ),
        decreases entries.len() - i,
    {
        let ghost before = registry@;
        if str_eq(entries[i].1.as_str(), session_id) {
            if let Some(task) = task_map_remove(&mut registry.tasks, entries[i].0.as_str()) {
                cancel_token(&task.cancel_token);
            }
        }
        assert(registry@ =~= old_map.remove_keys(
            Set::new(|k: Seq<char>| keys.contains(k) && exists|j: int| 0 <= j < i + 1 && (#[trigger] entries@[j]).0@ == k),
        )) by {
            let e = entries@[i as int].0@;
            assert forall|k: Seq<char>| #[trigger] registry@.contains_key(k) == old_map.remove_keys(
                Set::new(|k: Seq<char>| keys.contains(k) && exists|j: int| 0 <= j < i + 1 && (#[trigger] entries@[j]).0@ == k),
            ).contains_key(k) by {
                if k == e {
                } else {
                    if exists|j: int| 0 <= j < i + 1 && (#[trigger] entries@[j]).0@ == k {
                        let j = choose|j: int| 0 <= j < i + 1 && (#[trigger] entries@[j]).0@ == k;
                        assert(j < i);
                    }
                }
            }
        }
        i = i + 1;
    }
    assert(registry@ =~= old_map.remove_keys(keys)) by {
        assert forall|k: Seq<char>| #[trigger] registry@.contains_key(k) == old_map.remove_keys(keys).contains_key(k) by {
            if keys.contains(k) {
                let w = choose|w: int| 0 <= w < entries.len() && (#[trigger] entries@[w]).0@ == k;
            }
        }
    }
}

/// Cancels and removes the task of one message; its token, if there was one.
pub fn cancel_task(registry: &mut ChatTaskRegistry, message_id: &str) -> (r: Option<CancellationToken>)
    ensures
        final(registry)@ == old(registry)@.remove(message_id@),
        r is Some <==> old(registry)@.contains_key(message_id@),
{
    match task_map_remove(&mut registry.tasks, message_id) {
        Some(task) => {
            cancel_token(&task.cancel_token);
            Some(task.cancel_token)
        },
        None => None,
    }
}

/// Once a session's tasks are cancelled, none of its completions runs.
pub proof fn lemma_cancelled_session_idle(m: Map<Seq<char>, Seq<char>>, session: Seq<char>)
    ensures
        !exists|k: Seq<char>|
            m.remove_keys(session_keys(m, session)).contains_key(k) && #[trigger] m.remove_keys(
                session_keys(m, session),
            )[k] == session,
{
}

/// Removing a task undoes registering it: the registry is as it was, but
/// for any earlier task of that message, which is gone too.
pub proof fn lemma_remove_undoes_register(
    tasks: Map<Seq<char>, Seq<char>>,
    message_id: Seq<char>,
    session_id: Seq<char>,
)
    ensures
        tasks.insert(message_id, session_id).remove(message_id) == tasks.remove(message_id),
        !tasks.contains_key(message_id) ==> tasks.insert(message_id, session_id).remove(message_id)
            == tasks,
{
    assert(tasks.insert(message_id, session_id).remove(message_id) =~= tasks.remove(message_id));
    if !tasks.contains_key(message_id) {
        assert(tasks.remove(message_id) =~= tasks);
    }
}

} // verus!
