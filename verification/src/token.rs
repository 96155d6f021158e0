//! Bearer tokens: how they are minted and how a presented credential is
//! matched against one.

use rand::Rng;
use vstd::prelude::*;
use vstd::string::StringSliceAdditionalSpecFns;
use vstd::utf8::encode_utf8;

verus! {

/// The number of characters of a minted token.
pub const TOKEN_LEN: usize = 32;

/// Whether `c` is an ASCII letter or digit.
pub open spec fn alphanumeric(c: char) -> bool {
    ||| '0' <= c <= '9'
    ||| 'A' <= c <= 'Z'
    ||| 'a' <= c <= 'z'
}

/// Whether `s` has the shape of a minted token: `TOKEN_LEN` characters,
/// each an ASCII letter or digit.
pub open spec fn token_shaped(s: Seq<char>) -> bool {
    &&& s.len() == TOKEN_LEN
    &&& forall|i: int| 0 <= i < s.len() ==> alphanumeric(#[trigger] s[i])
}

/// Whether `b` may stand in a header value that is read as text: a
/// printable ASCII character, a space or a tab.
pub open spec fn visible_ascii(b: u8) -> bool {
    32 <= b < 127 || b == 9
}

/// Whether a header value can be read as text.
pub open spec fn readable(header: Seq<u8>) -> bool {
    forall|i: int| 0 <= i < header.len() ==> visible_ascii(#[trigger] header[i])
}

/// The bytes of the scheme that precedes a token in a credential.
pub open spec fn scheme_bytes() -> Seq<u8> {
    encode_utf8("Bearer "@)
}

/// The bytes a caller presents to prove possession of `token`.
pub open spec fn bearer_bytes(token: Seq<char>) -> Seq<u8> {
    scheme_bytes() + encode_utf8(token)
}

/// Whether the header value `header` presents exactly `token`.
pub open spec fn presents(header: Seq<u8>, token: Seq<char>) -> bool {
    header == bearer_bytes(token)
}

/// Draws one byte with `rand::Rng::sample` from the thread's generator
/// under the distribution `rand::distributions::Alphanumeric`. The
/// distribution only yields ASCII letters and digits; which one is left
/// open.
#[verifier::external_body]
fn sample_alphanumeric() -> (b: u8)
    ensures
        alphanumeric(b as char),
{
    rand::thread_rng().sample(rand::distributions::Alphanumeric)
}

/// Appends a character with `String::push`.
#[verifier::external_body]
fn push_char(s: &mut String, c: char)
    ensures
        final(s)@ == old(s)@.push(c),
{
    s.push(c)
}

/// Mints a fresh token.
pub fn mint_token() -> (token: String)
    ensures
        token_shaped(token@),
{
    let mut token = String::new();
    let mut n: usize = 0;
    while n < TOKEN_LEN
        invariant
            n <= TOKEN_LEN,
            token@.len() == n,
            forall|i: int| 0 <= i < token@.len() ==> alphanumeric(#[trigger] token@[i]),
        decreases TOKEN_LEN - n,
    {
        let b: u8 = sample_alphanumeric();
        let c: char = b as char;
        push_char(&mut token, c);
        n = n + 1;
    }
    token
}

/// Whether every byte of `header` may stand in a header value that is
/// read as text.
pub fn is_readable(header: &[u8]) -> (r: bool)
    ensures
        r == readable(header@),
{
    let mut i: usize = 0;
    while i < header.len()
        invariant
            i <= header.len(),
            forall|j: int| 0 <= j < i ==> visible_ascii(#[trigger] header@[j]),
        decreases header.len() - i,
    {
        let b: u8 = header[i];
        if !((32 <= b && b < 127) || b == 9) {
            return false;
        }
        i = i + 1;
    }
    true
}

/// Whether the header value `header` presents exactly `token`.
pub fn presents_token(header: &[u8], token: &str) -> (r: bool)
    ensures
        r == presents(header@, token@),
{
    let scheme = "Bearer ".as_bytes();
    let secret = token.as_bytes();
    let n: usize = scheme.len();
    let total: usize = header.len();
    if total < n || total - n != secret.len() {
        return false;
    }
    let mut i: usize = 0;
    while i < n
        invariant
            i <= n,
            n == scheme@.len(),
            n <= header@.len(),
            scheme@ == scheme_bytes(),
            forall|j: int| 0 <= j < i ==> header@[j] == scheme@[j],
        decreases n - i,
    {
        if header[i] != scheme[i] {
            assert(bearer_bytes(token@)[i as int] == scheme@[i as int]);
            return false;
        }
        i = i + 1;
    }
    let mut k: usize = 0;
    while k < secret.len()
        invariant
            k <= secret@.len(),
            n == scheme@.len(),
            total == n + secret@.len(),
            total == header@.len(),
            scheme@ == scheme_bytes(),
            secret@ == encode_utf8(token@),
            forall|j: int| 0 <= j < n ==> header@[j] == scheme@[j],
            forall|j: int| 0 <= j < k ==> header@[n + j] == secret@[j],
        decreases secret.len() - k,
    {
        if header[n + k] != secret[k] {
            assert(bearer_bytes(token@)[n + k] == secret@[k as int]);
            return false;
        }
        k = k + 1;
    }
    assert(header@ =~= bearer_bytes(token@));
    true
}

} // verus!
