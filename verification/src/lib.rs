//! Time zone engine for the binary zone-information format (TZif).
//!
//! A zone is decoded once from a byte buffer into a [`Tz`] and then queried:
//! [`Tz::offset_for_instant`] answers for an instant on the UTC time line,
//! [`Tz::offset_for_local`] for a wall-clock reading, which near a change of
//! offset may name no instant at all or more than one. The module
//! [`bundled`] holds a snapshot of the time zone database to decode from.

pub mod bundled;
pub mod bytes;
pub mod civil;
pub mod decode;
pub mod error;
pub mod local;
pub mod recurrence;
pub mod resolve;
pub mod rule;
pub mod zone;
pub mod zoneinfo;

pub use crate::error::Error;
pub use crate::local::{Disambiguated, GapPolicy, LocalCandidate};
pub use crate::rule::{DateKind, DaylightRule, RecurrenceRule, TransitionDate, parse_rule};
pub use crate::zone::{LeapSecondRecord, LocalTimeType, Resolved, Transition, Tz};
