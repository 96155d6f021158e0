//! The task record and the request that creates one.

use crate::status::TaskStatus;
use crate::token::{mint_token, token_shaped};
use url::Url;
use vstd::prelude::*;

verus! {

/// An absolute URL, as the `url` crate holds it. The library only keeps
/// and hands on such values.
#[verifier::external_type_specification]
#[verifier::external_body]
pub struct ExUrl(Url);

/// A tracked task.
#[derive(Debug)]
pub struct Task {
    /// Identifier, assigned at creation.
    pub id: u128,
    /// Seconds the task is kept after it reached a terminal status.
    pub duration: u32,
    /// Name of the service that created the task.
    pub scope: String,
    /// Human-readable name of the task.
    pub name: String,
    /// Description of the task.
    pub description: String,
    /// Opaque data given at creation.
    pub payload: Vec<u8>,
    /// Progress in percent, changed only while the task is active.
    pub progress: u8,
    /// Current status.
    pub status: TaskStatus,
    /// Bearer tokens: view, abort, update.
    pub tokens: (String, String, String),
    /// Where to send a notification once the task is terminal.
    pub push_address: Vec<Url>,
    /// Description of the result, set when the task ends.
    pub description_result: String,
    /// Data of the result, set when the task ends.
    pub payload_result: Vec<u8>,
}

/// Copies a URL with its `Clone` impl.
#[verifier::external_body]
fn clone_url(u: &Url) -> (r: Url)
    ensures
        r == *u,
{
    u.clone()
}

/// Copies a list of URLs.
pub fn clone_urls(v: &Vec<Url>) -> (r: Vec<Url>)
    ensures
        r@ == v@,
{
    let mut r: Vec<Url> = Vec::new();
    let mut i: usize = 0;
    while i < v.len()
        invariant
            i <= v.len(),
            r@ == v@.subrange(0, i as int),
        decreases v.len() - i,
    {
        r.push(clone_url(&v[i]));
        assert(r@ =~= v@.subrange(0, i + 1));
        i = i + 1;
    }
    assert(v@.subrange(0, v@.len() as int) =~= v@);
    r
}

/// The request that creates a task.
#[derive(Debug)]
pub struct NewTask {
    /// Seconds the task is kept after it reached a terminal status.
    pub duration: u32,
    /// Name of the service that creates the task.
    pub scope: String,
    /// Human-readable name of the task.
    pub name: String,
    /// Description of the task.
    pub description: String,
    /// Where to send a notification once the task is terminal.
    pub push_address: Vec<Url>,
    /// Opaque data kept with the task.
    pub payload: Vec<u8>,
}

/// The retention, in seconds, of a task created from a scope and a name
/// alone.
pub const SIMPLE_DURATION: u32 = 3600;

/// Whether `id` carries the marks of a random identifier: version 4 in
/// bits 76 to 79, and the two bits 62 and 63 set to one and zero.
pub open spec fn random_id(id: u128) -> bool {
    id & 0x0000_0000_0000_f000_c000_0000_0000_0000u128 == 0x0000_0000_0000_4000_8000_0000_0000_0000u128
}

/// Draws an identifier with `uuid::Uuid::new_v4` and hands it out as the
/// 128-bit number `Uuid::as_u128` gives. `new_v4` masks random bits so that
/// the version is 4 and the variant is the standard one; the other bits are
/// left open.
#[verifier::external_body]
fn fresh_id() -> (id: u128)
    ensures
        random_id(id),
{
    uuid::Uuid::new_v4().as_u128()
}

impl Task {
    /// Whether `other` holds what `self` holds, field by field.
    pub open spec fn same_content(self, other: Task) -> bool {
        &&& self.id == other.id
        &&& self.duration == other.duration
        &&& self.scope@ == other.scope@
        &&& self.name@ == other.name@
        &&& self.description@ == other.description@
        &&& self.payload@ == other.payload@
        &&& self.progress == other.progress
        &&& self.status == other.status
        &&& self.tokens.0@ == other.tokens.0@
        &&& self.tokens.1@ == other.tokens.1@
        &&& self.tokens.2@ == other.tokens.2@
        &&& self.push_address@ == other.push_address@
        &&& self.description_result@ == other.description_result@
        &&& self.payload_result@ == other.payload_result@
    }

    /// Whether this is the task that `request` describes, as it stands
    /// right after its creation with identifier `id` and tokens `tokens`.
    pub open spec fn created_from(self, request: NewTask, id: u128, tokens: (String, String, String)) -> bool {
        &&& self.id == id
        &&& self.duration == request.duration
        &&& self.scope == request.scope
        &&& self.name == request.name
        &&& self.description == request.description
        &&& self.payload == request.payload
        &&& self.progress == 0
        &&& self.status == TaskStatus::Active
        &&& self.tokens == tokens
        &&& self.push_address == request.push_address
        &&& self.description_result@ == Seq::<char>::empty()
        &&& self.payload_result@ == Seq::<u8>::empty()
    }

    /// Whether `other` differs from `self` at most in what a change of
    /// state may touch: progress, status and the two result fields.
    pub open spec fn same_identity(self, other: Task) -> bool {
        &&& self.id == other.id
        &&& self.duration == other.duration
        &&& self.scope == other.scope
        &&& self.name == other.name
        &&& self.description == other.description
        &&& self.payload == other.payload
        &&& self.tokens == other.tokens
        &&& self.push_address == other.push_address
    }
}

impl Clone for Task {
    fn clone(&self) -> (copy: Task)
        ensures
            copy.same_content(*self),
    {
        Task {
            id: self.id,
            duration: self.duration,
            scope: self.scope.clone(),
            name: self.name.clone(),
            description: self.description.clone(),
            payload: self.payload.clone(),
            progress: self.progress,
            status: self.status,
            tokens: (self.tokens.0.clone(), self.tokens.1.clone(), self.tokens.2.clone()),
            push_address: clone_urls(&self.push_address),
            description_result: self.description_result.clone(),
            payload_result: self.payload_result.clone(),
        }
    }
}

impl NewTask {
    /// A request with the given scope and name, the default retention and
    /// nothing else.
    pub fn simple(scope: String, name: String) -> (r: NewTask)
        ensures
            r.duration == SIMPLE_DURATION,
            r.scope == scope,
            r.name == name,
            r.description@ == Seq::<char>::empty(),
            r.push_address@ == Seq::<Url>::empty(),
            r.payload@ == Seq::<u8>::empty(),
    {
        NewTask {
            duration: SIMPLE_DURATION,
            scope,
            name,
            description: String::new(),
            push_address: Vec::new(),
            payload: Vec::new(),
        }
    }

    /// The task this request describes, under the given identifier and
    /// tokens: active, without progress and without a result.
    pub fn into_task(self, id: u128, tokens: (String, String, String)) -> (task: Task)
        ensures
            task.created_from(self, id, tokens),
    {
        Task {
            id,
            duration: self.duration,
            scope: self.scope,
            name: self.name,
            description: self.description,
            payload: self.payload,
            progress: 0,
            status: TaskStatus::Active,
            tokens,
            push_address: self.push_address,
            description_result: String::new(),
            payload_result: Vec::new(),
        }
    }

    /// Creates the task this request describes, with a random identifier
    /// and three freshly minted tokens.
    pub fn to_task(self) -> (task: Task)
        ensures
            task.created_from(self, task.id, task.tokens),
            random_id(task.id),
            token_shaped(task.tokens.0@),
            token_shaped(task.tokens.1@),
            token_shaped(task.tokens.2@),
    {
        let id = fresh_id();
        let view = mint_token();
        let abort = mint_token();
        let update = mint_token();
        self.into_task(id, (view, abort, update))
    }

    /// Seconds the task is kept after it reached a terminal status.
    pub fn duration(&self) -> (r: u32)
        ensures
            r == self.duration,
    {
        self.duration
    }

    /// Name of the service that creates the task.
    pub fn scope(&self) -> (r: &str)
        ensures
            r@ == self.scope@,
    {
        self.scope.as_str()
    }

    /// Human-readable name of the task.
    pub fn name(&self) -> (r: &str)
        ensures
            r@ == self.name@,
    {
        self.name.as_str()
    }

    /// Description of the task.
    pub fn description(&self) -> (r: &str)
        ensures
            r@ == self.description@,
    {
        self.description.as_str()
    }

    /// Where to send a notification once the task is terminal.
    pub fn push_address(&self) -> (r: &[Url])
        ensures
            r@ == self.push_address@,
    {
        self.push_address.as_slice()
    }

    /// Opaque data kept with the task.
    pub fn payload(&self) -> (r: &[u8])
        ensures
            r@ == self.payload@,
    {
        self.payload.as_slice()
    }
}

} // verus!
