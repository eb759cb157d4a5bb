//! The ways in which decoding a zone can fail.

use vstd::prelude::*;
use vstd::string::StringExecFns;

verus! {

/// Why a zone could not be built, or why a strict query could not be answered.
#[derive(Clone, Copy, Debug, PartialEq, Eq)]
pub enum Error {
    /// The buffer is too short for a header, or the header lacks the magic tag.
    MalformedHeader,
    /// The version byte is none of NUL, `'2'` and `'3'`.
    UnsupportedVersion,
    /// The header's counts describe more bytes than the buffer holds, or the
    /// line that must follow the second block is missing or unterminated.
    TruncatedBody,
    /// A transition instant is smaller than the one stored before it.
    NonMonotonicTransitions,
    /// A transition names a local time type that the table lacks, the table
    /// of types is empty, or a type's designation does not lie in the table.
    IndexOutOfRange,
    /// The recurrence rule text does not follow the grammar.
    MalformedRecurrenceRule,
    /// No bundled zone has the name that was asked for.
    InvalidTimeZoneFileName,
}

impl Error {
    /// A short fixed phrase for this kind of failure.
    pub open spec fn spec_reason(self) -> Seq<char> {
        match self {
            Error::MalformedHeader => "malformed header"@,
            Error::UnsupportedVersion => "unsupported version"@,
            Error::TruncatedBody => "truncated body"@,
            Error::NonMonotonicTransitions => "transitions out of order"@,
            Error::IndexOutOfRange => "index out of range"@,
            Error::MalformedRecurrenceRule => "malformed recurrence rule"@,
            Error::InvalidTimeZoneFileName => "unknown zone name"@,
        }
    }

    /// What a report on a zone that failed says: the zone's name, a colon
    /// and the phrase for the kind of failure.
    pub open spec fn spec_describe(self, name: Seq<char>) -> Seq<char> {
        name + ": "@ + self.spec_reason()
    }

    /// A line for a report on many zones: the name of the zone that failed
    /// and why it did.
    pub fn describe(&self, name: &str) -> (report: String)
        ensures
            report@ == self.spec_describe(name@),
    {
        name.to_owned().concat(": ").concat(self.reason())
    }

    /// A short fixed phrase for this kind of failure, one per kind.
    pub fn reason(&self) -> (phrase: &'static str)
        ensures
            phrase@ == self.spec_reason(),
    {
        match self {
            Error::MalformedHeader => "malformed header",
            Error::UnsupportedVersion => "unsupported version",
            Error::TruncatedBody => "truncated body",
            Error::NonMonotonicTransitions => "transitions out of order",
            Error::IndexOutOfRange => "index out of range",
            Error::MalformedRecurrenceRule => "malformed recurrence rule",
            Error::InvalidTimeZoneFileName => "unknown zone name",
        }
    }
}

} // verus!
