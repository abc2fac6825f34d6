//! The one line printed when a snapshot was published.

use vstd::prelude::*;
use vstd::string::StringExecFns;

verus! {

/// The success line: the fixed announcement followed by the object's
/// location, `s3://<bucket>/<key>`.
pub open spec fn success_line(bucket: Seq<char>, key: Seq<char>) -> Seq<char> {
    "Success. Snapshot is published in s3://"@ + bucket + seq!['/'] + key
}

/// Renders the line reported to the operator when the snapshot was
/// published under `key` in `bucket`.
pub fn render_success_line(bucket: &str, key: &str) -> (r: String)
    ensures
        r@ == success_line(bucket@, key@),
{
    let mut out = String::from_str("Success. Snapshot is published in s3://");
    out.append(bucket);
    out.append("/");
    out.append(key);
    proof {
        reveal_strlit("/");
        assert(out@ =~= success_line(bucket@, key@));
    }
    out
}

} // verus!
