//! What holds of the service as a whole, proved from the contracts of its
//! parts.

use crate::authorize::{expected, opens, recognized, text, verdict, AppState, Authorization, ClientPrivilege};
use crate::lifecycle::{changed, covers, Capability, Change};
use crate::outcome::Rejection;
use crate::registry::{distinct_ids, find, first_at, holds, lemma_place, place, updated, without};
use crate::service::{privilege_of, update_result, viewed};
use crate::status::TaskStatus;
use crate::task::Task;
use crate::token::{alphanumeric, bearer_bytes, presents, readable, token_shaped, visible_ascii};
use vstd::prelude::*;
use vstd::utf8::{encode_utf8, is_ascii_chars, is_ascii_chars_encode_utf8};

verus! {

/// A task added behind others answers to its identifier exactly when no
/// earlier task does; every other identifier is answered as before.
pub proof fn law_find_after_insert(tasks: Seq<Task>, task: Task, id: u128)
    ensures
        find(tasks.push(task), id) == if holds(tasks, id) {
            find(tasks, id)
        } else if task.id == id {
            Some(task)
        } else {
            None
        },
{
    let grown = tasks.push(task);
    lemma_place(tasks, id);
    lemma_place(grown, id);
    if holds(tasks, id) {
        let p = place(tasks, id);
        assert(grown[p] == tasks[p]);
        assert forall|j: int| 0 <= j < p implies (#[trigger] grown[j]).id != id by {
            assert(grown[j] == tasks[j]);
        }
        assert(first_at(grown, id, p));
    } else if task.id == id {
        let p = tasks.len() as int;
        assert(grown[p] == task);
        assert forall|j: int| 0 <= j < p implies (#[trigger] grown[j]).id != id by {
            assert(grown[j] == tasks[j]);
        }
        assert(first_at(grown, id, p));
    } else {
        if holds(grown, id) {
            let k = choose|i: int| 0 <= i < grown.len() && (#[trigger] grown[i]).id == id;
            if k < tasks.len() {
                assert(tasks[k] == grown[k]);
            }
        }
    }
}

/// Inserting a task whose identifier is new keeps identifiers distinct.
pub proof fn law_insert_keeps_distinct(tasks: Seq<Task>, task: Task)
    requires
        distinct_ids(tasks),
        !holds(tasks, task.id),
    ensures
        distinct_ids(tasks.push(task)),
{
    let grown = tasks.push(task);
    assert forall|i: int, j: int| 0 <= i < grown.len() && 0 <= j < grown.len() && i != j implies (
    #[trigger] grown[i]).id != (#[trigger] grown[j]).id by {
        if i < tasks.len() {
            assert(grown[i] == tasks[i]);
        }
        if j < tasks.len() {
            assert(grown[j] == tasks[j]);
        }
    }
}

/// Retirement removes the task for good and touches no other: the
/// identifier is no longer answered, and every other identifier is
/// answered as before.
pub proof fn law_retired(tasks: Seq<Task>, id: u128, other: u128)
    ensures
        find(without(tasks, id), id) is None,
        other != id ==> find(without(tasks, id), other) == find(tasks, other),
    decreases tasks.len(),
{
    reveal(Seq::filter);
    let keep = |t: Task| t.id != id;
    if tasks.len() == 0 {
        assert(!holds(tasks, other));
    } else {
        let rest = tasks.drop_last();
        let last = tasks.last();
        law_retired(rest, id, other);
        assert(tasks =~= rest.push(last));
        law_find_after_insert(rest, last, other);
        law_find_after_insert(rest, last, id);
        law_find_after_insert(without(rest, id), last, other);
        law_find_after_insert(without(rest, id), last, id);
        assert(without(tasks, id) == if last.id != id {
            without(rest, id).push(last)
        } else {
            without(rest, id)
        });
    }
}

/// Retirement keeps identifiers distinct.
pub proof fn law_retire_keeps_distinct(tasks: Seq<Task>, id: u128)
    requires
        distinct_ids(tasks),
    ensures
        distinct_ids(without(tasks, id)),
    decreases tasks.len(),
{
    reveal(Seq::filter);
    if tasks.len() > 0 {
        let rest = tasks.drop_last();
        let last = tasks.last();
        assert forall|i: int, j: int| 0 <= i < rest.len() && 0 <= j < rest.len() && i != j implies (
        #[trigger] rest[i]).id != (#[trigger] rest[j]).id by {
            assert(rest[i] == tasks[i] && rest[j] == tasks[j]);
        }
        law_retire_keeps_distinct(rest, id);
        if last.id != id {
            law_retired(rest, id, last.id);
            if holds(rest, last.id) {
                let k = choose|k: int| 0 <= k < rest.len() && (#[trigger] rest[k]).id == last.id;
                assert(tasks[k] == rest[k]);
                assert(tasks[tasks.len() - 1] == last);
            }
            law_insert_keeps_distinct(without(rest, id), last);
        }
    }
}

/// A change that is applied touches one task, which was active, and on
/// it only what may change: the task keeps its identifier, its tokens and
/// what its creator gave. It still answers to its identifier, and every
/// other identifier is answered as before.
pub proof fn law_update_touches_one(
    tasks: Seq<Task>,
    id: u128,
    capability: Capability,
    change: Change,
    other: u128,
)
    requires
        updated(tasks, id, capability, Some(change)) is Ok,
    ensures
        ({
            let after = updated(tasks, id, capability, Some(change))->Ok_0;
            let p = place(tasks, id);
            &&& first_at(tasks, id, p)
            &&& tasks[p].status == TaskStatus::Active
            &&& covers(capability, change.status)
            &&& after.len() == tasks.len()
            &&& after[p] == changed(tasks[p], change)
            &&& after[p].same_identity(tasks[p])
            &&& forall|j: int| 0 <= j < tasks.len() && j != p ==> after[j] == tasks[j]
            &&& find(after, id) == Some(changed(tasks[p], change))
            &&& other != id ==> find(after, other) == find(tasks, other)
            &&& distinct_ids(tasks) ==> distinct_ids(after)
        }),
{
    let after = updated(tasks, id, capability, Some(change))->Ok_0;
    let p = place(tasks, id);
    lemma_place(tasks, id);
    lemma_place(after, id);
    lemma_place(tasks, other);
    lemma_place(after, other);
    assert forall|j: int| 0 <= j < after.len() implies (#[trigger] after[j]).id == tasks[j].id by {}
    assert(first_at(after, id, p));
    if other != id {
        if holds(tasks, other) {
            let q = place(tasks, other);
            assert(first_at(after, other, q));
        } else if holds(after, other) {
            let q = place(after, other);
            assert(tasks[q].id == other);
        }
    }
}

/// A terminal task refuses every change, whatever the capability and
/// whatever is asked, and stays as it is.
pub proof fn law_terminal_is_final(tasks: Seq<Task>, id: u128, capability: Capability, change: Option<Change>)
    requires
        find(tasks, id) matches Some(task) && task.status.terminal(),
    ensures
        updated(tasks, id, capability, change) == Err::<Seq<Task>, Rejection>(Rejection::ReadOnly),
{
}

/// A task that ends is terminal from then on, under the status that was
/// asked for; the next change to it is refused as read-only.
pub proof fn law_ended_stays_ended(
    tasks: Seq<Task>,
    id: u128,
    capability: Capability,
    change: Change,
    next_capability: Capability,
    next: Option<Change>,
)
    requires
        updated(tasks, id, capability, Some(change)) is Ok,
        change.status.terminal(),
    ensures
        ({
            let after = updated(tasks, id, capability, Some(change))->Ok_0;
            &&& find(after, id) is Some
            &&& (find(after, id)->0).status == change.status
            &&& updated(after, id, next_capability, next) == Err::<Seq<Task>, Rejection>(Rejection::ReadOnly)
        }),
{
    law_update_touches_one(tasks, id, capability, change, id);
}

/// What each capability may ask of an active task: `Update` anything,
/// `Abort` only that the task be aborted.
pub proof fn law_capability_asymmetry(tasks: Seq<Task>, id: u128, change: Change)
    requires
        find(tasks, id) matches Some(task) && task.status == TaskStatus::Active,
    ensures
        updated(tasks, id, Capability::Update, Some(change)) is Ok,
        change.status == TaskStatus::Aborted ==> updated(tasks, id, Capability::Abort, Some(change)) is Ok,
        change.status != TaskStatus::Aborted ==> updated(tasks, id, Capability::Abort, Some(change)) == Err::<
            Seq<Task>,
            Rejection,
        >(Rejection::InvalidTransition),
{
}

/// The result a task ends with: a description or data that is supplied
/// and not empty replaces what was there, and anything else leaves it.
/// Progress alone changes neither.
pub proof fn law_result_propagation(task: Task, change: Change)
    ensures
        change.status.terminal() ==> {
            let ended = changed(task, change);
            &&& ended.description_result == match change.description_result {
                Some(d) => if d@.len() > 0 {
                    d
                } else {
                    task.description_result
                },
                None => task.description_result,
            }
            &&& ended.payload_result == if change.payload_result@.len() > 0 {
                change.payload_result
            } else {
                task.payload_result
            }
            &&& ended.status == change.status
            &&& ended.progress == task.progress
        },
        !change.status.terminal() ==> {
            let moved = changed(task, change);
            &&& moved.description_result == task.description_result
            &&& moved.payload_result == task.payload_result
            &&& moved.status == task.status
            &&& moved.progress == change.progress
        },
{
}

/// The administrator's token is good for everything: whoever presents it
/// is authorized for every privilege, whatever tasks there are and
/// whatever their own tokens.
pub proof fn law_admin_supremacy(
    tasks: Seq<Task>,
    admin: Seq<char>,
    create: Seq<char>,
    header: Seq<u8>,
    privilege: ClientPrivilege,
)
    requires
        readable(header),
        presents(header, admin),
    ensures
        verdict(tasks, Some(admin), create, Some(header), privilege) == Authorization::Authorized,
{
}

/// A token of a task is good for its own privilege on that task: the
/// view token for viewing, the abort token for aborting, the update token
/// for updating.
pub proof fn law_own_token_authorizes(
    tasks: Seq<Task>,
    admin: Option<Seq<char>>,
    create: Seq<char>,
    header: Seq<u8>,
    id: u128,
)
    requires
        readable(header),
        find(tasks, id) is Some,
    ensures
        ({
            let task = find(tasks, id)->0;
            &&& presents(header, task.tokens.0@) ==> verdict(
                tasks,
                admin,
                create,
                Some(header),
                ClientPrivilege::View(id),
            ) == Authorization::Authorized
            &&& presents(header, task.tokens.1@) ==> verdict(
                tasks,
                admin,
                create,
                Some(header),
                ClientPrivilege::Abort(id),
            ) == Authorization::Authorized
            &&& presents(header, task.tokens.2@) ==> verdict(
                tasks,
                admin,
                create,
                Some(header),
                ClientPrivilege::Update(id),
            ) == Authorization::Authorized
        }),
{
}

/// A credential that presents neither the administrator's token, nor the
/// creation token, nor a token of any task is good for nothing: for every
/// privilege it is unrecognized, which the caller is told as
/// unauthenticated.
pub proof fn law_unknown_token(
    tasks: Seq<Task>,
    admin: Option<Seq<char>>,
    create: Seq<char>,
    header: Seq<u8>,
    privilege: ClientPrivilege,
)
    requires
        readable(header),
        !presents(header, create),
        admin matches Some(a) ==> !presents(header, a),
        forall|i: int| 0 <= i < tasks.len() ==> !opens(#[trigger] tasks[i], header),
    ensures
        verdict(tasks, admin, create, Some(header), privilege) == Authorization::Unrecognized,
        verdict(tasks, admin, create, Some(header), privilege).refuses() == Some(Rejection::Unauthenticated),
{
    match privilege {
        ClientPrivilege::View(id) => {
            lemma_place(tasks, id);
        },
        ClientPrivilege::Abort(id) => {
            lemma_place(tasks, id);
        },
        ClientPrivilege::Update(id) => {
            lemma_place(tasks, id);
        },
        _ => {},
    }
}

/// A credential that is good for something, and neither the
/// administrator's nor the one expected for the privilege asked, is
/// insufficient, which the caller is told as forbidden. So is a token of
/// one task that is presented for another task.
pub proof fn law_known_token_insufficient(
    tasks: Seq<Task>,
    admin: Option<Seq<char>>,
    create: Seq<char>,
    header: Seq<u8>,
    privilege: ClientPrivilege,
)
    requires
        readable(header),
        recognized(tasks, create, header),
        admin matches Some(a) ==> !presents(header, a),
        expected(tasks, admin, create, privilege) matches Some(t) ==> !presents(header, t),
    ensures
        verdict(tasks, admin, create, Some(header), privilege) == Authorization::Insufficient,
        verdict(tasks, admin, create, Some(header), privilege).refuses() == Some(Rejection::Forbidden),
{
}

/// The view token of one task, presented to update another task whose
/// update token it is not, is forbidden.
pub proof fn law_foreign_token_forbidden(
    tasks: Seq<Task>,
    admin: Option<Seq<char>>,
    create: Seq<char>,
    header: Seq<u8>,
    holder: int,
    id: u128,
)
    requires
        readable(header),
        0 <= holder < tasks.len(),
        presents(header, tasks[holder].tokens.0@),
        admin matches Some(a) ==> !presents(header, a),
        find(tasks, id) matches Some(target) ==> !presents(header, target.tokens.2@),
    ensures
        verdict(tasks, admin, create, Some(header), ClientPrivilege::Update(id)).refuses() == Some(
            Rejection::Forbidden,
        ),
{
    assert(opens(tasks[holder], header));
}

/// A minted token can be presented: the credential that presents it is
/// readable.
pub proof fn law_minted_token_readable(token: Seq<char>)
    requires
        token_shaped(token),
    ensures
        readable(bearer_bytes(token)),
{
    reveal_strlit("Bearer ");
    let scheme = "Bearer "@;
    assert(is_ascii_chars(scheme));
    assert(is_ascii_chars(token)) by {
        assert forall|i: int| 0 <= i < token.len() implies '\0' <= #[trigger] token[i] <= '\u{7f}' by {
            assert(alphanumeric(token[i]));
        }
    }
    is_ascii_chars_encode_utf8(scheme);
    is_ascii_chars_encode_utf8(token);
    let header = bearer_bytes(token);
    assert forall|i: int| 0 <= i < header.len() implies visible_ascii(#[trigger] header[i]) by {
        if i < scheme.len() {
            assert(header[i] == encode_utf8(scheme)[i]);
            assert(header[i] == scheme[i] as u8);
        } else {
            let k = i - scheme.len();
            assert(header[i] == encode_utf8(token)[k]);
            assert(header[i] == token[k] as u8);
        }
    }
}

/// The abort token of an active task gets its holder one thing: the
/// task aborted. Asked under the abort capability, progress and finishing
/// are refused as invalid transitions. The update token gets its holder
/// every change.
pub proof fn law_tokens_and_capabilities(state: AppState, header: Seq<u8>, id: u128, change: Change)
    requires
        readable(header),
        find(state.tasks@, id) matches Some(task) && task.status == TaskStatus::Active,
    ensures
        ({
            let task = find(state.tasks@, id)->0;
            let by_abort = update_result(state, Capability::Abort, Some(header), id, Some(change));
            let by_update = update_result(state, Capability::Update, Some(header), id, Some(change));
            &&& presents(header, task.tokens.1@) && change.status != TaskStatus::Aborted ==> by_abort == Err::<
                Seq<Task>,
                Rejection,
            >(Rejection::InvalidTransition)
            &&& presents(header, task.tokens.1@) && change.status == TaskStatus::Aborted ==> {
                &&& by_abort is Ok
                &&& find(by_abort->Ok_0, id) is Some
                &&& (find(by_abort->Ok_0, id)->0).status == TaskStatus::Aborted
            }
            &&& presents(header, task.tokens.2@) ==> by_update is Ok && find(by_update->Ok_0, id) == Some(
                changed(task, change),
            )
        }),
{
    law_own_token_authorizes(state.tasks@, text(state.token_admin), state.token_create@, header, id);
    law_capability_asymmetry(state.tasks@, id, change);
    if updated(state.tasks@, id, Capability::Abort, Some(change)) is Ok {
        law_update_touches_one(state.tasks@, id, Capability::Abort, change, id);
    }
    law_update_touches_one(state.tasks@, id, Capability::Update, change, id);
}

/// Once a task is terminal, every change that an authorized caller asks
/// of it is refused as read-only, and whoever presents its view token
/// still gets to see it.
pub proof fn law_terminal_immutability(
    state: AppState,
    header: Seq<u8>,
    id: u128,
    capability: Capability,
    change: Option<Change>,
)
    requires
        find(state.tasks@, id) matches Some(task) && task.status.terminal(),
    ensures
        state.decides(Some(header), privilege_of(capability, id)) == Authorization::Authorized ==> update_result(
            state,
            capability,
            Some(header),
            id,
            change,
        ) == Err::<Seq<Task>, Rejection>(Rejection::ReadOnly),
        readable(header) && presents(header, (find(state.tasks@, id)->0).tokens.0@) ==> viewed(
            state,
            Some(header),
            id,
        ) == Ok::<Task, Rejection>(find(state.tasks@, id)->0),
{
    if readable(header) {
        law_own_token_authorizes(state.tasks@, text(state.token_admin), state.token_create@, header, id);
    }
}

/// A task that has just ended can still be seen; once it is retired,
/// nobody sees it: whoever is authorized to view it is told that it is
/// not there.
pub proof fn law_retirement(
    state: AppState,
    retired: AppState,
    header: Seq<u8>,
    id: u128,
    capability: Capability,
    change: Change,
)
    requires
        change.status.terminal(),
        updated(state.tasks@, id, capability, Some(change)) is Ok,
        retired.tasks@ == without(updated(state.tasks@, id, capability, Some(change))->Ok_0, id),
    ensures
        find(updated(state.tasks@, id, capability, Some(change))->Ok_0, id) is Some,
        (find(updated(state.tasks@, id, capability, Some(change))->Ok_0, id)->0).status == change.status,
        find(retired.tasks@, id) is None,
        retired.decides(Some(header), ClientPrivilege::View(id)) == Authorization::Authorized ==> viewed(
            retired,
            Some(header),
            id,
        ) == Err::<Task, Rejection>(Rejection::NotFound),
{
    law_update_touches_one(state.tasks@, id, capability, change, id);
    law_retired(updated(state.tasks@, id, capability, Some(change))->Ok_0, id, id);
}

} // verus!
