use vstd::prelude::*;

verus! {

/// Why a file's date could not be resolved, or its relocation not carried out.
/// Every variant is reported per file and never aborts the run as a whole.
#[derive(Clone, Copy, Debug, PartialEq, Eq, Structural)]
pub enum DateError {
    ParseError,
    InvalidDate,
    InvalidDay,
    InvalidMonth,
    AncientDate,
    FutureDate,
    PatternMismatch,
    InvalidMetadata,
    IoError,
    NotUsed,
}

impl DateError {
    /// The user-facing description of this error.
    pub open spec fn message_spec(self) -> Seq<char> {
        match self {
            DateError::ParseError => "Could not parse a number"@,
            DateError::InvalidDate => "Invalid date"@,
            DateError::InvalidDay => "Invalid day"@,
            DateError::InvalidMonth => "Invalid month"@,
            DateError::AncientDate => "Year is too ancient"@,
            DateError::FutureDate => "Future date"@,
            DateError::PatternMismatch => "Date pattern not found"@,
            DateError::InvalidMetadata => "Metadata not found"@,
            DateError::IoError => "Input/output error"@,
            DateError::NotUsed => "This date should not be used"@,
        }
    }

    pub fn message(&self) -> (r: &'static str)
        ensures
            r@ == self.message_spec(),
    {
        match self {
            DateError::ParseError => "Could not parse a number",
            DateError::InvalidDate => "Invalid date",
            DateError::InvalidDay => "Invalid day",
            DateError::InvalidMonth => "Invalid month",
            DateError::AncientDate => "Year is too ancient",
            DateError::FutureDate => "Future date",
            DateError::PatternMismatch => "Date pattern not found",
            DateError::InvalidMetadata => "Metadata not found",
            DateError::IoError => "Input/output error",
            DateError::NotUsed => "This date should not be used",
        }
    }
}

} // verus!
