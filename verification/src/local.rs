//! Which instants a wall-clock reading stands for.
//!
//! A reading is a count of seconds from 1970-01-01T00:00:00 on a time line
//! without offsets. A zone's clock shows a reading at an instant when the
//! instant and the offset in force at it add up to the reading. Where the
//! clock is set forward there are readings that it never shows, and where
//! it is set back there are readings that it shows more than once; the
//! answer says which of these holds and never picks one instant of several
//! in silence.
//!
//! Every offset that can be in force is one of the zone's types or of its
//! rule, so trying each of them finds every instant that shows a reading.

use crate::civil::{civil_fields_valid, civil_seconds, is_civil, seconds_from_civil};
use crate::resolve::{lemma_around_transition, lemma_offset_source};
use crate::zone::{Resolved, ResolvedView, Tz, TzView};
use vstd::prelude::*;

verus! {

/// One answer among the instants that a wall-clock reading can stand for.
#[derive(Clone, Copy, Debug, PartialEq, Eq)]
pub struct LocalCandidate<'a> {
    /// The instant, in seconds since 1970-01-01T00:00:00 UTC.
    pub instant: i64,
    /// What is in force at that instant.
    pub resolved: Resolved<'a>,
}

/// What to report of a reading that the zone's clock never shows.
#[derive(Clone, Copy, Debug, PartialEq, Eq)]
pub enum GapPolicy {
    /// Report the types on either side of the gap.
    ReportAdjoining,
    /// Report the gap and nothing else.
    Reject,
}

/// The instants that a wall-clock reading stands for.
#[derive(Clone, Copy, Debug, PartialEq, Eq)]
pub enum Disambiguated<'a> {
    /// The clock shows the reading at one instant only.
    Unique(LocalCandidate<'a>),
    /// The clock shows the reading more than once: the earliest and the
    /// latest instant at which it does.
    Overlap(LocalCandidate<'a>, LocalCandidate<'a>),
    /// The clock never shows the reading. Holds the types before and after
    /// the gap where the policy asks for them.
    Gap(Option<(Resolved<'a>, Resolved<'a>)>),
}

/// What a [`Disambiguated`] holds, as mathematical values.
pub ghost enum DisambiguatedView {
    Unique(int, ResolvedView),
    Overlap(int, ResolvedView, int, ResolvedView),
    Gap(Option<(ResolvedView, ResolvedView)>),
}

impl<'a> View for Disambiguated<'a> {
    type V = DisambiguatedView;

    open spec fn view(&self) -> DisambiguatedView {
        match *self {
            Disambiguated::Unique(only) => DisambiguatedView::Unique(
                only.instant as int,
                only.resolved@,
            ),
            Disambiguated::Overlap(earliest, latest) => DisambiguatedView::Overlap(
                earliest.instant as int,
                earliest.resolved@,
                latest.instant as int,
                latest.resolved@,
            ),
            Disambiguated::Gap(sides) => DisambiguatedView::Gap(
                match sides {
                    Some((before, after)) => Some((before@, after@)),
                    None => None,
                },
            ),
        }
    }
}

/// The instant nearest to `t` that an `i64` holds.
pub open spec fn saturate(t: int) -> int {
    if t < i64::MIN {
        i64::MIN as int
    } else if t > i64::MAX {
        i64::MAX as int
    } else {
        t
    }
}

impl TzView {
    /// Whether the zone's clock shows `local` at instant `u`.
    pub open spec fn consistent(self, local: int, u: int) -> bool {
        i64::MIN <= u <= i64::MAX && u + self.resolve(u).utc_offset == local
    }

    /// The two types on either side of a reading that the clock never
    /// shows. The reading is first taken as an instant; the offset in force
    /// there leads to a second instant, and the offset in force at that one
    /// to a third. What is in force at the earlier of these two comes
    /// first. Around a single change of offset these are the type before
    /// the change and the type after it.
    pub open spec fn gap_adjoining(self, local: int) -> (ResolvedView, ResolvedView) {
        let first = saturate(local - self.resolve(local).utc_offset);
        let second = saturate(local - self.resolve(first).utc_offset);
        if second <= first {
            (self.resolve(second), self.resolve(first))
        } else {
            (self.resolve(first), self.resolve(second))
        }
    }

    /// Whether `r` is the answer for the reading `local`: `Unique` with
    /// the one instant at which the clock shows it, `Overlap` with the
    /// earliest and the latest of several, or `Gap` where there is none,
    /// with the types on either side where the policy asks for them; each
    /// instant with what is in force at it.
    pub open spec fn answers_local(self, local: int, policy: GapPolicy, r: Disambiguated) -> bool {
        match r {
            Disambiguated::Unique(only) => {
                &&& self.consistent(local, only.instant as int)
                &&& only.resolved@ == self.resolve(only.instant as int)
                &&& forall|u: int| self.consistent(local, u) ==> u == only.instant
            },
            Disambiguated::Overlap(earliest, latest) => {
                &&& earliest.instant < latest.instant
                &&& self.consistent(local, earliest.instant as int)
                &&& self.consistent(local, latest.instant as int)
                &&& earliest.resolved@ == self.resolve(earliest.instant as int)
                &&& latest.resolved@ == self.resolve(latest.instant as int)
                &&& forall|u: int|
                    self.consistent(local, u) ==> earliest.instant <= u <= latest.instant
            },
            Disambiguated::Gap(sides) => {
                &&& forall|u: int| !self.consistent(local, u)
                &&& match sides {
                    Some((before, after)) => policy == GapPolicy::ReportAdjoining && (
                    before@,
                    after@,
                ) == self.gap_adjoining(local),
                    None => policy == GapPolicy::Reject,
                }
            },
        }
    }

    /// If the clock shows `local` when it runs `offset` ahead, then that
    /// instant has been found and lies between `lo` and `hi`.
    pub open spec fn covered(self, local: int, offset: int, found: bool, lo: int, hi: int) -> bool {
        self.consistent(local, local - offset) ==> found && lo <= local - offset <= hi
    }
}

/// The instants found so far among those that a reading can stand for.
struct Span {
    found: bool,
    lo: i64,
    hi: i64,
}

impl Span {
    /// Where anything was found, the clock shows the reading at both ends.
    spec fn holds(self, zone: TzView, local: int) -> bool {
        self.found ==> self.lo <= self.hi && zone.consistent(local, self.lo as int)
            && zone.consistent(local, self.hi as int)
    }
}

/// The instant nearest to `local - offset` that an `i64` holds.
pub fn saturating_instant(local: i64, offset: i32) -> (instant: i64)
    ensures
        instant == saturate(local - offset),
{
    let exact: i128 = local as i128 - offset as i128;
    if exact < i64::MIN as i128 {
        i64::MIN
    } else if exact > i64::MAX as i128 {
        i64::MAX
    } else {
        exact as i64
    }
}

impl Tz {
    /// The instant at which the clock shows `local` while it runs `offset`
    /// ahead of UTC, if there is one.
    pub fn instant_showing(&self, local: i64, offset: i32) -> (r: Option<i64>)
        ensures
            match r {
                Some(u) => u == local - offset && self@.consistent(local as int, u as int),
                None => !self@.consistent(local as int, local - offset),
            },
    {
        let exact: i128 = local as i128 - offset as i128;
        if exact < i64::MIN as i128 || exact > i64::MAX as i128 {
            return None;
        }
        let u: i64 = exact as i64;
        if self.offset_for_instant(u).utc_offset == offset {
            Some(u)
        } else {
            None
        }
    }

    /// Takes in the instant at which the clock shows `local` while it runs
    /// `offset` ahead, if there is one.
    fn widen(&self, span: Span, local: i64, offset: i32) -> (wider: Span)
        requires
            span.holds(self@, local as int),
        ensures
            wider.holds(self@, local as int),
            self@.covered(local as int, offset as int, wider.found, wider.lo as int, wider.hi as int),
            span.found ==> wider.found && wider.lo <= span.lo && span.hi <= wider.hi,
    {
        match self.instant_showing(local, offset) {
            None => span,
            Some(u) => {
                if !span.found {
                    Span { found: true, lo: u, hi: u }
                } else {
                    Span {
                        found: true,
                        lo: if u < span.lo {
                            u
                        } else {
                            span.lo
                        },
                        hi: if u > span.hi {
                            u
                        } else {
                            span.hi
                        },
                    }
                }
            },
        }
    }

    /// The types before and after a reading that the clock never shows.
    pub fn adjoining<'a>(&'a self, local: i64) -> (pair: (Resolved<'a>, Resolved<'a>))
        ensures
            (pair.0@, pair.1@) == self@.gap_adjoining(local as int),
    {
        let first: i64 = saturating_instant(local, self.offset_for_instant(local).utc_offset);
        let at_first: Resolved<'a> = self.offset_for_instant(first);
        let second: i64 = saturating_instant(local, at_first.utc_offset);
        let at_second: Resolved<'a> = self.offset_for_instant(second);
        if second <= first {
            (at_second, at_first)
        } else {
            (at_first, at_second)
        }
    }

    /// The instants at which the zone's clock shows the reading `local`,
    /// given as seconds from 1970-01-01T00:00:00 on a time line without
    /// offsets.
    ///
    /// `Unique` where the clock shows it at one instant only, `Overlap`
    /// with the earliest and the latest instant where it shows it more than
    /// once, `Gap` where it never shows it; under
    /// [`GapPolicy::ReportAdjoining`] a gap comes with the types on either
    /// side of it.
    pub fn offset_for_local<'a>(&'a self, local: i64, policy: GapPolicy) -> (r: Disambiguated<'a>)
        ensures
            self@.answers_local(local as int, policy, r),
    {
        let types = self.types();
        let transitions = self.transitions();
        let mut span = Span { found: false, lo: 0, hi: 0 };
        let mut j: usize = 0;
        while j < types.len()
            invariant
                j <= types@.len(),
                types@ == self@.types,
                span.holds(self@, local as int),
                forall|i: int|
                    0 <= i < j ==> self@.covered(
                        local as int,
                        (#[trigger] types@[i]).utc_offset as int,
                        span.found,
                        span.lo as int,
                        span.hi as int,
                    ),
            decreases types@.len() - j,
        {
            span = self.widen(span, local, types[j].utc_offset);
            j = j + 1;
        }
        match self.recurrence() {
            None => {},
            Some(rule) => {
                span = self.widen(span, local, rule.std_offset);
                match &rule.daylight {
                    None => {},
                    Some(d) => {
                        span = self.widen(span, local, d.utc_offset);
                    },
                }
            },
        }
        proof {
            let zone = self@;
            assert(zone.wf());
            assert forall|u: int| zone.consistent(local as int, u) implies span.found && span.lo
                <= u <= span.hi by {
                lemma_offset_source(zone, u);
                let offset = zone.resolve(u).utc_offset;
                assert(u == local - offset);
                if exists|j: int|
                    0 <= j < zone.types.len() && (#[trigger] zone.types[j]).utc_offset == offset {
                    let i = choose|j: int|
                        0 <= j < zone.types.len() && (#[trigger] zone.types[j]).utc_offset
                            == offset;
                    assert(zone.covered(
                        local as int,
                        types@[i].utc_offset as int,
                        span.found,
                        span.lo as int,
                        span.hi as int,
                    ));
                }
            }
        }
        if !span.found {
            match policy {
                GapPolicy::ReportAdjoining => Disambiguated::Gap(Some(self.adjoining(local))),
                GapPolicy::Reject => Disambiguated::Gap(None),
            }
        } else if span.lo == span.hi {
            Disambiguated::Unique(
                LocalCandidate { instant: span.lo, resolved: self.offset_for_instant(span.lo) },
            )
        } else {
            Disambiguated::Overlap(
                LocalCandidate { instant: span.lo, resolved: self.offset_for_instant(span.lo) },
                LocalCandidate { instant: span.hi, resolved: self.offset_for_instant(span.hi) },
            )
        }
    }

    /// As [`Tz::offset_for_local`], for a reading given by its date and
    /// time of day. Gives nothing where the fields name no date of the
    /// calendar or no time of day.
    pub fn offset_for_civil<'a>(
        &'a self,
        year: i32,
        month: u8,
        day: u8,
        hour: u8,
        minute: u8,
        second: u8,
        policy: GapPolicy,
    ) -> (r: Option<Disambiguated<'a>>)
        ensures
            match r {
                Some(answer) => is_civil(
                    year as int,
                    month as int,
                    day as int,
                    hour as int,
                    minute as int,
                    second as int,
                ) && self@.answers_local(
                    civil_seconds(
                        year as int,
                        month as int,
                        day as int,
                        hour as int,
                        minute as int,
                        second as int,
                    ),
                    policy,
                    answer,
                ),
                None => !is_civil(
                    year as int,
                    month as int,
                    day as int,
                    hour as int,
                    minute as int,
                    second as int,
                ),
            },
    {
        if !civil_fields_valid(year, month, day, hour, minute, second) {
            return None;
        }
        let local: i64 = seconds_from_civil(year, month, day, hour, minute, second);
        Some(self.offset_for_local(local, policy))
    }
}

/// A reading has one answer only: two that both answer for it hold the
/// same.
pub proof fn lemma_local_answer_is_determined(
    zone: TzView,
    local: int,
    policy: GapPolicy,
    a: Disambiguated,
    b: Disambiguated,
)
    requires
        zone.answers_local(local, policy, a),
        zone.answers_local(local, policy, b),
    ensures
        a@ == b@,
{
    match (a, b) {
        (Disambiguated::Unique(x), Disambiguated::Overlap(e, l)) => {
            assert(zone.consistent(local, e.instant as int));
            assert(zone.consistent(local, l.instant as int));
        },
        (Disambiguated::Overlap(e, l), Disambiguated::Unique(x)) => {
            assert(zone.consistent(local, e.instant as int));
            assert(zone.consistent(local, l.instant as int));
        },
        (Disambiguated::Overlap(e1, l1), Disambiguated::Overlap(e2, l2)) => {
            assert(zone.consistent(local, e1.instant as int));
            assert(zone.consistent(local, l1.instant as int));
            assert(zone.consistent(local, e2.instant as int));
            assert(zone.consistent(local, l2.instant as int));
        },
        (Disambiguated::Unique(x), Disambiguated::Unique(y)) => {
            assert(zone.consistent(local, x.instant as int));
        },
        (Disambiguated::Gap(_), Disambiguated::Unique(x)) => {
            assert(zone.consistent(local, x.instant as int));
        },
        (Disambiguated::Unique(x), Disambiguated::Gap(_)) => {
            assert(zone.consistent(local, x.instant as int));
        },
        (Disambiguated::Gap(_), Disambiguated::Overlap(e, l)) => {
            assert(zone.consistent(local, e.instant as int));
        },
        (Disambiguated::Overlap(e, l), Disambiguated::Gap(_)) => {
            assert(zone.consistent(local, e.instant as int));
        },
        (Disambiguated::Gap(_), Disambiguated::Gap(_)) => {},
    }
}

/// An instant at which the clock shows a reading is part of the answer for
/// it: the answer is no gap, and the instant is the one of a unique answer
/// or lies between the two of an overlap.
pub proof fn lemma_shown_reading_is_answered(
    zone: TzView,
    u: int,
    policy: GapPolicy,
    r: Disambiguated,
)
    requires
        i64::MIN <= u <= i64::MAX,
        zone.answers_local(u + zone.resolve(u).utc_offset, policy, r),
    ensures
        match r {
            Disambiguated::Unique(only) => only.instant == u,
            Disambiguated::Overlap(earliest, latest) => earliest.instant <= u <= latest.instant,
            Disambiguated::Gap(_) => false,
        },
{
    assert(zone.consistent(u + zone.resolve(u).utc_offset, u));
}

/// Around a transition that sets the clock forward, the types on either
/// side of a skipped reading are the type before the transition and the
/// type from it, where the reading and the two instants that it leads to
/// lie in the two stretches that meet there.
pub proof fn lemma_adjoining_at_transition(zone: TzView, i: int, local: int)
    requires
        zone.wf(),
        zone.transitions[i].instant + zone.offset_before(i) <= local,
        local < zone.transitions[i].instant + zone.offset_from(i),
        i64::MIN <= local - zone.offset_from(i),
        local - zone.offset_before(i) <= i64::MAX,
        zone.around_transition(i, local),
        zone.around_transition(i, local - zone.offset_before(i)),
        zone.around_transition(i, local - zone.offset_from(i)),
    ensures
        zone.gap_adjoining(local) == (zone.resolved_before(i), zone.resolved_from(i)),
{
    lemma_around_transition(zone, i, local);
    lemma_around_transition(zone, i, local - zone.offset_before(i));
    lemma_around_transition(zone, i, local - zone.offset_from(i));
}

/// Where a transition sets the clock forward, the readings that it skips
/// are shown at no instant of the two stretches that meet there.
pub proof fn lemma_gap_at_transition(zone: TzView, i: int, local: int, u: int)
    requires
        zone.wf(),
        zone.around_transition(i, u),
        zone.transitions[i].instant + zone.offset_before(i) <= local,
        local < zone.transitions[i].instant + zone.offset_from(i),
    ensures
        !zone.consistent(local, u),
{
    lemma_around_transition(zone, i, u);
}

/// Where a transition sets the clock back, the readings that it repeats
/// are shown twice: once before the transition, with the offset before it,
/// and once after, with the offset from it.
pub proof fn lemma_overlap_at_transition(zone: TzView, i: int, local: int)
    requires
        zone.wf(),
        zone.around_transition(i, local - zone.offset_before(i)),
        zone.around_transition(i, local - zone.offset_from(i)),
        zone.transitions[i].instant + zone.offset_from(i) <= local,
        local < zone.transitions[i].instant + zone.offset_before(i),
        i64::MIN <= local - zone.offset_before(i),
        local - zone.offset_from(i) <= i64::MAX,
    ensures
        zone.consistent(local, local - zone.offset_before(i)),
        zone.consistent(local, local - zone.offset_from(i)),
        local - zone.offset_before(i) < zone.transitions[i].instant <= local - zone.offset_from(i),
{
    lemma_around_transition(zone, i, local - zone.offset_before(i));
    lemma_around_transition(zone, i, local - zone.offset_from(i));
}

} // verus!
