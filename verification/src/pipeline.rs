use vstd::prelude::*;

use crate::config::Config;
use crate::dates::DateTime;
use crate::errors::DateError;
use crate::extract::{get_date_from_name, name_date_spec};
use crate::paths::{get_output_dir, output_dir_spec};
use crate::resolve::{resolve_date, resolve_spec, Extraction};

verus! {

/// The per-file planning rule: extract from the name if the policy says so,
/// fold in the metadata outcome if the policy says so, reconcile the two,
/// and map the resolved date onto its relative target directory.
pub open spec fn plan_spec(
    cfg: Config,
    filename: Seq<char>,
    meta_r: Extraction,
    now: DateTime,
) -> Result<Seq<char>, DateError> {
    let name_x = if cfg.name {
        match name_date_spec(filename, cfg.min_year as int, now) {
            Ok(dt) => Extraction::Found(dt),
            Err(e) => Extraction::Failed(e),
        }
    } else {
        Extraction::NotAttempted
    };
    let meta_x = if cfg.meta {
        meta_r
    } else {
        Extraction::NotAttempted
    };
    match resolve_spec(name_x, meta_x) {
        Ok(dt) => Ok(
            output_dir_spec(cfg.flat, cfg.year, cfg.month, dt.year as int, dt.month as int),
        ),
        Err(e) => Err(e),
    }
}

/// Plan one file: from its base name and its metadata extraction outcome,
/// compute the relative directory it belongs under, or the error to report
/// for it. Two calls with the same inputs plan the same directory.
pub fn plan_file(config: &Config, filename: &str, meta_r: Extraction, now: &DateTime) -> (r:
    Result<String, DateError>)
    requires
        meta_r matches Extraction::Found(dt) ==> dt.wf(),
    ensures
        r matches Ok(dir) ==> plan_spec(*config, filename@, meta_r, *now) == Ok::<
            Seq<char>,
            DateError,
        >(dir@),
        r matches Err(e) ==> plan_spec(*config, filename@, meta_r, *now) == Err::<
            Seq<char>,
            DateError,
        >(e),
{
    let name_x = if config.name {
        match get_date_from_name(filename, config.min_year, now) {
            Ok(dt) => Extraction::Found(dt),
            Err(e) => Extraction::Failed(e),
        }
    } else {
        Extraction::NotAttempted
    };
    let meta_x = if config.meta {
        meta_r
    } else {
        Extraction::NotAttempted
    };
    match resolve_date(name_x, meta_x) {
        Ok(dt) => Ok(get_output_dir(config, &dt)),
        Err(e) => Err(e),
    }
}

/// Running the pipeline again over a file the first run has placed: with
/// the same policy and the same extraction outcomes, the second run plans
/// the same directory, so the freshly computed destination is exactly where
/// the file already stands — and `decide_relocation` then reports it
/// `AlreadySorted` and moves nothing.
pub proof fn lemma_rerun_already_sorted(
    cfg: Config,
    filename: Seq<char>,
    meta_r: Extraction,
    now: DateTime,
    root: Seq<char>,
    dir: Seq<char>,
    source: Seq<char>,
)
    requires
        plan_spec(cfg, filename, meta_r, now) == Ok::<Seq<char>, DateError>(dir),
        source == root + seq!['/'] + dir + seq!['/'] + filename,
    ensures
        plan_spec(cfg, filename, meta_r, now) matches Ok(d2) && source == root + seq!['/'] + d2
            + seq!['/'] + filename,
{
}

} // verus!
