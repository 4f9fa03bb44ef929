use vstd::prelude::*;
use vstd::string::StringExecFns;

use crate::errors::DateError;

verus! {

/// The per-file outcome of the relocation step. Exactly one is produced per
/// file and none is ever retried.
#[derive(Debug, PartialEq, Eq)]
pub enum RelocationOutcome {
    Moved(String, String),
    AlreadySorted(String),
    Collision(String),
    Failed(String, DateError),
}

/// Append `name` under `base` with the platform-neutral separator.
pub fn join_under(base: &str, name: &str) -> (r: String)
    ensures
        r@ == base@ + seq!['/'] + name@,
{
    proof {
        reveal_strlit("/");
    }
    let mut out = String::new();
    out.append(base);
    out.append("/");
    out.append(name);
    proof {
        assert(out@ =~= base@ + seq!['/'] + name@);
    }
    out
}

/// Decide a file's relocation: a file already standing at its destination
/// is left alone, an occupied destination is never overwritten, and only
/// otherwise is the move made.
pub fn decide_relocation(source: &String, dest: &String, dest_exists: bool) -> (r:
    RelocationOutcome)
    ensures
        source@ == dest@ ==> (r matches RelocationOutcome::AlreadySorted(p) && p@ == source@),
        source@ != dest@ && dest_exists ==> (r matches RelocationOutcome::Collision(p) && p@
            == dest@),
        source@ != dest@ && !dest_exists ==> (r matches RelocationOutcome::Moved(a, b) && a@
            == source@ && b@ == dest@),
{
    if source.eq(dest) {
        RelocationOutcome::AlreadySorted(source.clone())
    } else if dest_exists {
        RelocationOutcome::Collision(dest.clone())
    } else {
        RelocationOutcome::Moved(source.clone(), dest.clone())
    }
}

} // verus!
