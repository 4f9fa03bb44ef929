use vstd::prelude::*;

use crate::dates::{datetime_lt, le_spec, DateTime};
use crate::errors::DateError;

verus! {

/// One extractor's outcome: a date, a failure, or the policy left the
/// source unused.
#[derive(Clone, Copy, Debug, PartialEq, Eq, Structural)]
pub enum Extraction {
    Found(DateTime),
    Failed(DateError),
    NotAttempted,
}

/// The reconciliation rule: with both dates present the chronologically
/// earlier one wins; with one date present it is taken unchanged; a failed
/// name extraction outranks any metadata failure; and with neither source
/// attempted the resolver reports a configuration error rather than
/// inventing a date.
pub open spec fn resolve_spec(name_r: Extraction, meta_r: Extraction) -> Result<
    DateTime,
    DateError,
> {
    match (name_r, meta_r) {
        (Extraction::Found(fd), Extraction::Found(md)) => Ok(
            if le_spec(md, fd) {
                md
            } else {
                fd
            },
        ),
        (Extraction::Found(fd), _) => Ok(fd),
        (_, Extraction::Found(md)) => Ok(md),
        (Extraction::Failed(e), _) => Err(e),
        (Extraction::NotAttempted, Extraction::Failed(e)) => Err(e),
        (Extraction::NotAttempted, Extraction::NotAttempted) => Err(DateError::NotUsed),
    }
}

/// Reconcile the two extractors' outcomes into one resolution date.
pub fn resolve_date(name_r: Extraction, meta_r: Extraction) -> (r: Result<DateTime, DateError>)
    ensures
        r == resolve_spec(name_r, meta_r),
{
    match (name_r, meta_r) {
        (Extraction::Found(fd), Extraction::Found(md)) => {
            if datetime_lt(&fd, &md) {
                Ok(fd)
            } else {
                Ok(md)
            }
        },
        (Extraction::Found(fd), _) => Ok(fd),
        (_, Extraction::Found(md)) => Ok(md),
        (Extraction::Failed(e), _) => Err(e),
        (Extraction::NotAttempted, Extraction::Failed(e)) => Err(e),
        (Extraction::NotAttempted, Extraction::NotAttempted) => Err(DateError::NotUsed),
    }
}

/// With both sources succeeding the resolution is the chronologically
/// earlier date; with exactly one succeeding it is that date, unchanged; a
/// failed or unattempted extractor never takes part in the comparison.
pub proof fn lemma_resolution_rule(a: DateTime, b: DateTime, e: DateError, e2: DateError)
    ensures
        le_spec(a, b) ==> resolve_spec(Extraction::Found(a), Extraction::Found(b)) == Ok::<
            DateTime,
            DateError,
        >(a),
        le_spec(b, a) ==> resolve_spec(Extraction::Found(a), Extraction::Found(b)) == Ok::<
            DateTime,
            DateError,
        >(b),
        resolve_spec(Extraction::Found(a), Extraction::Failed(e)) == Ok::<DateTime, DateError>(a),
        resolve_spec(Extraction::Found(a), Extraction::NotAttempted) == Ok::<DateTime, DateError>(
            a,
        ),
        resolve_spec(Extraction::Failed(e), Extraction::Found(b)) == Ok::<DateTime, DateError>(b),
        resolve_spec(Extraction::NotAttempted, Extraction::Found(b)) == Ok::<DateTime, DateError>(
            b,
        ),
        resolve_spec(Extraction::Failed(e), Extraction::Failed(e2)) == Err::<DateTime, DateError>(
            e,
        ),
        resolve_spec(Extraction::Failed(e), Extraction::NotAttempted) == Err::<
            DateTime,
            DateError,
        >(e),
        resolve_spec(Extraction::NotAttempted, Extraction::NotAttempted) == Err::<
            DateTime,
            DateError,
        >(DateError::NotUsed),
{
}

} // verus!
