//! Who may do what: the decision on a presented credential.

use crate::outcome::Rejection;
use crate::registry::{find, Registry};
use crate::task::Task;
use crate::token::{is_readable, presents, presents_token, readable};
use vstd::prelude::*;

verus! {

/// What a caller asks to be allowed to do.
#[derive(Clone, Copy, Debug, PartialEq, Eq, Structural)]
pub enum ClientPrivilege {
    /// Create a task.
    Creation,
    /// Read the task with this identifier.
    View(u128),
    /// Abort the task with this identifier.
    Abort(u128),
    /// Change the task with this identifier in any way.
    Update(u128),
    /// Read all tasks.
    List,
}

/// The decision on a credential.
#[derive(Clone, Copy, Debug, PartialEq, Eq, Structural)]
pub enum Authorization {
    /// The caller may proceed.
    Authorized,
    /// No credential was presented.
    Unauthenticated,
    /// The credential cannot be read as text.
    Malformed,
    /// The credential is good for something, and not for this.
    Insufficient,
    /// The credential is good for nothing known.
    Unrecognized,
}

impl Authorization {
    /// The refusal this decision stands for; none where the caller may
    /// proceed. A credential that is good for nothing is told the same as
    /// a missing one.
    pub open spec fn refuses(self) -> Option<Rejection> {
        match self {
            Authorization::Authorized => None,
            Authorization::Unauthenticated => Some(Rejection::Unauthenticated),
            Authorization::Malformed => Some(Rejection::Malformed),
            Authorization::Insufficient => Some(Rejection::Forbidden),
            Authorization::Unrecognized => Some(Rejection::Unauthenticated),
        }
    }

    /// The refusal this decision stands for; none where the caller may
    /// proceed.
    pub fn rejection(self) -> (r: Option<Rejection>)
        ensures
            r == self.refuses(),
    {
        match self {
            Authorization::Authorized => None,
            Authorization::Unauthenticated => Some(Rejection::Unauthenticated),
            Authorization::Malformed => Some(Rejection::Malformed),
            Authorization::Insufficient => Some(Rejection::Forbidden),
            Authorization::Unrecognized => Some(Rejection::Unauthenticated),
        }
    }

    /// The status that tells the caller of this decision.
    pub fn status_code(self) -> (code: u16)
        ensures
            code == match self.refuses() {
                Some(e) => e.status(),
                None => crate::outcome::STATUS_OK,
            },
    {
        match self.rejection() {
            Some(e) => e.status_code(),
            None => crate::outcome::STATUS_OK,
        }
    }
}

/// The tokens fixed when the service starts, and the tasks it keeps.
pub struct AppState {
    /// The live tasks.
    pub tasks: Registry,
    /// The token that grants everything, if one is configured.
    pub token_admin: Option<String>,
    /// The token that grants creating tasks.
    pub token_create: String,
}

/// The text of an optional string.
pub open spec fn text(s: Option<String>) -> Option<Seq<char>> {
    match s {
        Some(s) => Some(s@),
        None => None,
    }
}

/// The bytes of an optional header value.
pub open spec fn bytes(header: Option<&[u8]>) -> Option<Seq<u8>> {
    match header {
        Some(h) => Some(h@),
        None => None,
    }
}

/// The token that is expected of a caller who asks for `privilege`, if
/// there is one: the creation token for creating, the administrator's for
/// listing, and for a task its own token of that kind.
pub open spec fn expected(
    tasks: Seq<Task>,
    admin: Option<Seq<char>>,
    create: Seq<char>,
    privilege: ClientPrivilege,
) -> Option<Seq<char>> {
    match privilege {
        ClientPrivilege::Creation => Some(create),
        ClientPrivilege::List => admin,
        ClientPrivilege::View(id) => match find(tasks, id) {
            Some(t) => Some(t.tokens.0@),
            None => None,
        },
        ClientPrivilege::Abort(id) => match find(tasks, id) {
            Some(t) => Some(t.tokens.1@),
            None => None,
        },
        ClientPrivilege::Update(id) => match find(tasks, id) {
            Some(t) => Some(t.tokens.2@),
            None => None,
        },
    }
}

/// Whether `header` presents one of the three tokens of `task`.
pub open spec fn opens(task: Task, header: Seq<u8>) -> bool {
    ||| presents(header, task.tokens.0@)
    ||| presents(header, task.tokens.1@)
    ||| presents(header, task.tokens.2@)
}

/// Whether `header` presents a token that is good for something: the
/// creation token, or a token of a task that is kept.
pub open spec fn recognized(tasks: Seq<Task>, create: Seq<char>, header: Seq<u8>) -> bool {
    presents(header, create) || exists|i: int| 0 <= i < tasks.len() && opens(#[trigger] tasks[i], header)
}

/// The decision on the credential `header` of a caller who asks for
/// `privilege`.
pub open spec fn verdict(
    tasks: Seq<Task>,
    admin: Option<Seq<char>>,
    create: Seq<char>,
    header: Option<Seq<u8>>,
    privilege: ClientPrivilege,
) -> Authorization {
    match header {
        None => Authorization::Unauthenticated,
        Some(h) => if !readable(h) {
            Authorization::Malformed
        } else if admin matches Some(a) && presents(h, a) {
            Authorization::Authorized
        } else if expected(tasks, admin, create, privilege) matches Some(t) && presents(h, t) {
            Authorization::Authorized
        } else if recognized(tasks, create, h) {
            Authorization::Insufficient
        } else {
            Authorization::Unrecognized
        },
    }
}

impl AppState {
    /// A state without tasks.
    pub fn new(token_create: String, token_admin: Option<String>) -> (state: AppState)
        ensures
            state.tasks@ == Seq::<Task>::empty(),
            state.token_create == token_create,
            state.token_admin == token_admin,
    {
        AppState { tasks: Registry::new(), token_admin, token_create }
    }

    /// The decision this state takes on `header` for `privilege`.
    pub open spec fn decides(self, header: Option<Seq<u8>>, privilege: ClientPrivilege) -> Authorization {
        verdict(self.tasks@, text(self.token_admin), self.token_create@, header, privilege)
    }

    /// Whether `header` presents the token expected for `privilege`.
    fn presents_expected(&self, header: &[u8], privilege: ClientPrivilege) -> (r: bool)
        ensures
            r == (expected(self.tasks@, text(self.token_admin), self.token_create@, privilege) matches Some(t)
                && presents(header@, t)),
    {
        match privilege {
            ClientPrivilege::Creation => presents_token(header, self.token_create.as_str()),
            ClientPrivilege::List => match &self.token_admin {
                Some(admin) => presents_token(header, admin.as_str()),
                None => false,
            },
            ClientPrivilege::View(id) => match self.tasks.get(id) {
                Some(task) => presents_token(header, task.tokens.0.as_str()),
                None => false,
            },
            ClientPrivilege::Abort(id) => match self.tasks.get(id) {
                Some(task) => presents_token(header, task.tokens.1.as_str()),
                None => false,
            },
            ClientPrivilege::Update(id) => match self.tasks.get(id) {
                Some(task) => presents_token(header, task.tokens.2.as_str()),
                None => false,
            },
        }
    }

    /// Whether `header` presents a token that is good for something.
    fn recognizes(&self, header: &[u8]) -> (r: bool)
        ensures
            r == recognized(self.tasks@, self.token_create@, header@),
    {
        if presents_token(header, self.token_create.as_str()) {
            return true;
        }
        let tasks = self.tasks.tasks();
        let mut i: usize = 0;
        while i < tasks.len()
            invariant
                i <= tasks@.len(),
                tasks@ == self.tasks@,
                forall|j: int| 0 <= j < i ==> !opens(#[trigger] tasks@[j], header@),
            decreases tasks.len() - i,
        {
            let task = &tasks[i];
            if presents_token(header, task.tokens.0.as_str()) || presents_token(header, task.tokens.1.as_str())
                || presents_token(header, task.tokens.2.as_str()) {
                assert(opens(tasks@[i as int], header@));
                return true;
            }
            i = i + 1;
        }
        false
    }
}

/// Decides whether the caller who presents `header` as the value of the
/// authorization header may do what `privilege_required` names.
pub fn is_authorized(header: Option<&[u8]>, state: &AppState, privilege_required: ClientPrivilege) -> (r:
    Authorization)
    ensures
        r == state.decides(bytes(header), privilege_required),
{
    let header = match header {
        Some(h) => h,
        None => {
            return Authorization::Unauthenticated;
        },
    };
    if !is_readable(header) {
        return Authorization::Malformed;
    }
    let admin = match &state.token_admin {
        Some(admin) => presents_token(header, admin.as_str()),
        None => false,
    };
    if admin || state.presents_expected(header, privilege_required) {
        Authorization::Authorized
    } else if state.recognizes(header) {
        Authorization::Insufficient
    } else {
        Authorization::Unrecognized
    }
}

} // verus!
