//! Derivation of the destination object key from the operator's prefix
//! and the fixed artifact name.

use vstd::prelude::*;
use vstd::string::StringExecFns;

verus! {

/// The key under which a snapshot is stored: the prefix, a slash
/// separator, and the artifact name; with an empty prefix, the name
/// alone. No normalization is applied: a trailing slash in the prefix
/// yields a doubled separator in the key.
pub open spec fn derived_key(prefix: Seq<char>, name: Seq<char>) -> Seq<char> {
    if prefix.len() == 0 {
        name
    } else {
        prefix + seq!['/'] + name
    }
}

/// Computes the destination object key for a snapshot. Pure: it is
/// deterministic, has no side effects and no failure mode.
pub fn key_with_prefix(prefix: &str, key: &str) -> (r: String)
    ensures
        r@ == derived_key(prefix@, key@),
{
    if prefix.is_empty() {
        String::from_str(key)
    } else {
        let mut out = String::from_str(prefix);
        out.append("/");
        out.append(key);
        proof {
            reveal_strlit("/");
            assert(out@ =~= derived_key(prefix@, key@));
        }
        out
    }
}

/// The fixed artifact filename under which every snapshot is published.
/// Its spelling is deliberately kept verbatim: keys of snapshots
/// already published use it, and changing it would break that layout.
pub fn artifact_name() -> (r: &'static str)
    ensures
        r@ == "snaphot.tar.gz"@,
{
    "snaphot.tar.gz"
}

/// With an empty prefix the derived key is the artifact name verbatim;
/// with a non-empty prefix it is the prefix, one slash, and the name,
/// with no further normalization.
pub proof fn lemma_derived_key_shape(prefix: Seq<char>, name: Seq<char>)
    ensures
        prefix.len() == 0 ==> derived_key(prefix, name) == name,
        prefix.len() > 0 ==> derived_key(prefix, name) == prefix + seq!['/'] + name,
{
}

/// Key derivation is a pure function of its inputs: two derivations
/// from identical inputs give identical keys.
pub proof fn lemma_derived_key_deterministic(
    p1: Seq<char>,
    n1: Seq<char>,
    p2: Seq<char>,
    n2: Seq<char>,
)
    requires
        p1 == p2,
        n1 == n2,
    ensures
        derived_key(p1, n1) == derived_key(p2, n2),
{
}

} // verus!
