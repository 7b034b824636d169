//! Names of channel secrets in the Windows credential manager.
use vstd::prelude::*;
use vstd::utf8::encode_utf8;

use crate::text::concat;
use crate::update::verify::{hex_lower, sha256_digest, sha256_hex};

verus! {

/// The service name that prefixes every credential of the application.
pub const CREDENTIAL_SERVICE_NAME: &'static str = "AgentNotify";

/// The bytes that name one secret: the account id, a zero byte, and the secret kind.
pub open spec fn credential_key(account_id: Seq<char>, kind: Seq<char>) -> Seq<u8> {
    encode_utf8(account_id) + seq![0u8] + encode_utf8(kind)
}

/// The credential target of a channel account's secret: `AgentNotify/` followed by the
/// lower-case SHA-256 of the account id, a zero byte and the kind, so that neither leaks
/// into the credential list.
pub fn credential_target(account_id: &str, kind: &str) -> (r: String)
    ensures
        r@ == CREDENTIAL_SERVICE_NAME@ + "/"@ + hex_lower(sha256_digest(credential_key(account_id@, kind@))),
        r@.len() == 76,
{
    proof {
        reveal_strlit("AgentNotify");
        reveal_strlit("/");
    }
    let a = account_id.as_bytes();
    let k = kind.as_bytes();
    let mut key: Vec<u8> = Vec::new();
    let mut i: usize = 0;
    while i < a.len()
        invariant
            i <= a.len(),
            key@ == a@.subrange(0, i as int),
        decreases a.len() - i,
    {
        key.push(a[i]);
        i = i + 1;
        assert(key@ == a@.subrange(0, i as int));
    }
    key.push(0u8);
    let mut j: usize = 0;
    while j < k.len()
        invariant
            j <= k.len(),
            key@ == a@ + seq![0u8] + k@.subrange(0, j as int),
        decreases k.len() - j,
    {
        key.push(k[j]);
        j = j + 1;
        assert(key@ == a@ + seq![0u8] + k@.subrange(0, j as int));
    }
    proof {
        assert(a@.subrange(0, a@.len() as int) == a@);
        assert(k@.subrange(0, k@.len() as int) == k@);
    }
    let digest = sha256_hex(key.as_slice());
    let prefix = concat(CREDENTIAL_SERVICE_NAME, "/");
    concat(prefix.as_str(), digest.as_str())
}

} // verus!
