//! A date-based file organizer: dates are extracted from filenames and from
//! filesystem timestamps, validated, reconciled by policy, and turned into a
//! target directory and a relocation decision for each file.

pub mod config;
pub mod dates;
pub mod errors;
pub mod extract;
pub mod meta;
pub mod paths;
pub mod pipeline;
pub mod relocate;
pub mod resolve;

pub use config::{effective_sources, language_from_token, name_is_not_hidden, Config, Language};
pub use dates::{datetime_lt, parse_time, DateTime};
pub use errors::DateError;
pub use extract::get_date_from_name;
pub use meta::{get_date_from_meta, timestamp_to_datetime};
pub use paths::{get_output_dir, month_name};
pub use pipeline::plan_file;
pub use relocate::{decide_relocation, join_under, RelocationOutcome};
pub use resolve::{resolve_date, Extraction};
