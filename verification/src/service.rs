//! The operations of the service: each checks the credential first, then
//! reads or changes the tasks, and says what the caller is told.

use crate::authorize::{bytes, is_authorized, AppState, ClientPrivilege};
use crate::lifecycle::{effect_of, Capability, Change, Effect};
use crate::outcome::Rejection;
use crate::registry::{find, updated, without};
use crate::task::{random_id, NewTask, Task};
use crate::token::token_shaped;
use vstd::prelude::*;
use vstd::string::StringExecFns;

verus! {

/// What the creator of a task is told, once: where the task is, and the
/// three tokens that open it.
#[derive(Debug)]
pub struct Created {
    /// Identifier of the task.
    pub id: u128,
    /// Path under which the task can be read and changed.
    pub location: String,
    /// Token that grants reading the task.
    pub view_token: String,
    /// Token that grants aborting the task.
    pub abort_token: String,
    /// Token that grants every change to the task.
    pub update_token: String,
}

/// The text of the identifier `id` as `uuid::Uuid` prints it: 32
/// hexadecimal digits in five groups.
pub uninterp spec fn hyphenated_text(id: u128) -> Seq<char>;

/// The path under which the task with the identifier `id` is reached.
pub open spec fn location_text(id: u128) -> Seq<char> {
    "/tasks/"@ + hyphenated_text(id)
}

/// The privilege a caller needs to ask for a change under `capability`.
pub open spec fn privilege_of(capability: Capability, id: u128) -> ClientPrivilege {
    match capability {
        Capability::Update => ClientPrivilege::Update(id),
        Capability::Abort => ClientPrivilege::Abort(id),
    }
}

/// What a caller who presents `header` gets to see of the task that
/// answers to `id`.
pub open spec fn viewed(state: AppState, header: Option<Seq<u8>>, id: u128) -> Result<Task, Rejection> {
    match state.decides(header, ClientPrivilege::View(id)).refuses() {
        Some(e) => Err(e),
        None => match find(state.tasks@, id) {
            Some(task) => Ok(task),
            None => Err(Rejection::NotFound),
        },
    }
}

/// What becomes of the tasks of `state` when a caller who presents
/// `header` asks, under `capability`, for `change` to the task that
/// answers to `id`. The credential is judged first, then the change.
pub open spec fn update_result(
    state: AppState,
    capability: Capability,
    header: Option<Seq<u8>>,
    id: u128,
    change: Option<Change>,
) -> Result<Seq<Task>, Rejection> {
    match state.decides(header, privilege_of(capability, id)).refuses() {
        Some(e) => Err(e),
        None => updated(state.tasks@, id, capability, change),
    }
}

/// Prints the identifier `id` with the `Display` impl of `uuid::Uuid`,
/// after `Uuid::from_u128`. The text depends on `id` alone.
#[verifier::external_body]
fn hyphenated(id: u128) -> (r: String)
    ensures
        r@ == hyphenated_text(id),
{
    uuid::Uuid::from_u128(id).to_string()
}

/// The path under which the task with the identifier `id` is reached.
pub fn location(id: u128) -> (r: String)
    ensures
        r@ == location_text(id),
{
    let text = hyphenated(id);
    String::from_str("/tasks/").concat(text.as_str())
}

/// All tasks, for a caller who may list them.
pub fn list_tasks<'a>(header: Option<&[u8]>, state: &'a AppState) -> (r: Result<&'a [Task], Rejection>)
    ensures
        match state.decides(bytes(header), ClientPrivilege::List).refuses() {
            Some(e) => r == Err::<&[Task], Rejection>(e),
            None => r matches Ok(tasks) && tasks@ == state.tasks@,
        },
{
    match is_authorized(header, state, ClientPrivilege::List).rejection() {
        Some(e) => Err(e),
        None => Ok(state.tasks.tasks()),
    }
}

/// The task that answers to `id`, for a caller who may read it.
pub fn view_task<'a>(header: Option<&[u8]>, state: &'a AppState, id: u128) -> (r: Result<&'a Task, Rejection>)
    ensures
        match viewed(*state, bytes(header), id) {
            Ok(task) => r matches Ok(t) && *t == task,
            Err(e) => r == Err::<&Task, Rejection>(e),
        },
{
    match is_authorized(header, state, ClientPrivilege::View(id)).rejection() {
        Some(e) => Err(e),
        None => match state.tasks.get(id) {
            Some(task) => Ok(task),
            None => Err(Rejection::NotFound),
        },
    }
}

/// Takes `task` into the registry and says what its creator is told.
pub fn register(state: &mut AppState, task: Task) -> (created: Created)
    ensures
        final(state).tasks@ == old(state).tasks@.push(task),
        final(state).token_admin == old(state).token_admin,
        final(state).token_create == old(state).token_create,
        created.id == task.id,
        created.location@ == location_text(task.id),
        created.view_token@ == task.tokens.0@,
        created.abort_token@ == task.tokens.1@,
        created.update_token@ == task.tokens.2@,
{
    let view_token = task.tokens.0.clone();
    let abort_token = task.tokens.1.clone();
    let update_token = task.tokens.2.clone();
    let id = state.tasks.insert(task);
    Created { id, location: location(id), view_token, abort_token, update_token }
}

/// Creates the task that `body` describes, for a caller who may create
/// tasks. `None` for `body` stands for a request that could not be
/// decoded. The new task is active, has a random identifier and three
/// freshly minted tokens, and stands behind the tasks already there.
pub fn create_task(header: Option<&[u8]>, state: &mut AppState, body: Option<NewTask>) -> (r: Result<
    Created,
    Rejection,
>)
    ensures
        final(state).token_admin == old(state).token_admin,
        final(state).token_create == old(state).token_create,
        match old(state).decides(bytes(header), ClientPrivilege::Creation).refuses() {
            Some(e) => r == Err::<Created, Rejection>(e) && final(state).tasks@ == old(state).tasks@,
            None => match body {
                None => r == Err::<Created, Rejection>(Rejection::Malformed) && final(state).tasks@ == old(
                    state,
                ).tasks@,
                Some(request) => {
                    &&& r matches Ok(created)
                    &&& final(state).tasks@.len() == old(state).tasks@.len() + 1
                    &&& final(state).tasks@.drop_last() == old(state).tasks@
                    &&& ({
                        let task = final(state).tasks@.last();
                        &&& task.created_from(request, created.id, task.tokens)
                        &&& random_id(task.id)
                        &&& token_shaped(task.tokens.0@)
                        &&& token_shaped(task.tokens.1@)
                        &&& token_shaped(task.tokens.2@)
                        &&& created.location@ == location_text(task.id)
                        &&& created.view_token@ == task.tokens.0@
                        &&& created.abort_token@ == task.tokens.1@
                        &&& created.update_token@ == task.tokens.2@
                    })
                },
            },
        },
{
    match is_authorized(header, state, ClientPrivilege::Creation).rejection() {
        Some(e) => Err(e),
        None => match body {
            None => Err(Rejection::Malformed),
            Some(request) => {
                let task = request.to_task();
                let created = register(state, task);
                assert(state.tasks@.drop_last() =~= old(state).tasks@);
                Ok(created)
            },
        },
    }
}

/// Applies `change` to the task that answers to `id`, for a caller who
/// holds `capability` over it. `None` for `change` stands for a request
/// that could not be decoded. The credential is checked first; then the
/// task is looked up, and it decides as `Task::apply` does.
pub fn update_task(
    capability: Capability,
    header: Option<&[u8]>,
    id: u128,
    state: &mut AppState,
    change: Option<Change>,
) -> (r: Result<Effect, Rejection>)
    ensures
        final(state).token_admin == old(state).token_admin,
        final(state).token_create == old(state).token_create,
        match update_result(*old(state), capability, bytes(header), id, change) {
            Err(e) => r == Err::<Effect, Rejection>(e) && final(state).tasks@ == old(state).tasks@,
            Ok(tasks) => {
                &&& final(state).tasks@ == tasks
                &&& r matches Ok(effect)
                &&& effect_of(find(old(state).tasks@, id)->0, change->0, effect)
            },
        },
{
    let privilege = match capability {
        Capability::Update => ClientPrivilege::Update(id),
        Capability::Abort => ClientPrivilege::Abort(id),
    };
    match is_authorized(header, state, privilege).rejection() {
        Some(e) => Err(e),
        None => state.tasks.update(id, capability, change),
    }
}

/// Removes the task with the identifier `id` once its retention is over.
/// Where it is gone already, nothing changes.
pub fn retire_task(state: &mut AppState, id: u128)
    ensures
        final(state).tasks@ == without(old(state).tasks@, id),
        final(state).token_admin == old(state).token_admin,
        final(state).token_create == old(state).token_create,
{
    state.tasks.retire(id);
}

} // verus!
