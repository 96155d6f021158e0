//! What a remote caller of the service needs to phrase its requests.

use crate::token::bearer_bytes;
use vstd::prelude::*;
use vstd::string::StringExecFns;
use vstd::utf8::encode_utf8;

verus! {

/// The error of a failed creation; it carries nothing.
pub struct ErrorNewTask {}

/// Encoding a text piece by piece gives the encoding of the whole.
pub proof fn lemma_encode_concat(a: Seq<char>, b: Seq<char>)
    ensures
        encode_utf8(a + b) == encode_utf8(a) + encode_utf8(b),
    decreases a.len(),
{
    if a.len() == 0 {
        assert(a + b =~= b);
        assert(encode_utf8(a) + encode_utf8(b) =~= encode_utf8(b));
    } else {
        lemma_encode_concat(a.drop_first(), b);
        assert((a + b).drop_first() =~= a.drop_first() + b);
        assert((a + b)[0] == a[0]);
        assert(encode_utf8(a + b) =~= encode_utf8(a) + encode_utf8(b));
    }
}

/// The value of the authorization header that presents `token`. Sent as
/// it is, its bytes are what the service matches against the token.
pub fn bearer_value(token: &str) -> (value: String)
    ensures
        value@ == "Bearer "@ + token@,
        encode_utf8(value@) == bearer_bytes(token@),
{
    proof {
        lemma_encode_concat("Bearer "@, token@);
    }
    String::from_str("Bearer ").concat(token)
}

} // verus!
