//! Which offset is in force at an instant.
//!
//! The transitions cut the time line into stretches that are closed on the
//! left and open on the right: at the instant of a transition the type that
//! begins there is in force, one second earlier the type before it. Before
//! the first transition the first type of the table is in force. From the
//! last transition on, and at every instant of a zone without transitions,
//! the recurrence rule decides, if the zone has one.

use crate::error::Error;
use crate::recurrence::rule_resolve;
use crate::zone::{Resolved, ResolvedView, Transition, Tz, TzView, transitions_sorted};
use vstd::prelude::*;

verus! {

/// How many of the transitions lie at or before `t`, for transitions in
/// order: the place after the last one that does.
pub open spec fn transitions_through(transitions: Seq<Transition>, t: int) -> int
    decreases transitions.len(),
{
    if transitions.len() == 0 {
        0
    } else if transitions.last().instant <= t {
        transitions.len() as int
    } else {
        transitions_through(transitions.drop_last(), t)
    }
}

impl TzView {
    /// Whether the recurrence rule decides at `t`: the zone has one and no
    /// transition lies after `t`.
    pub open spec fn rule_governs(self, t: int) -> bool {
        self.recurrence is Some && transitions_through(self.transitions, t)
            == self.transitions.len()
    }

    /// The offset, flag and designation in force at instant `t`.
    pub open spec fn resolve(self, t: int) -> ResolvedView {
        let k = transitions_through(self.transitions, t);
        if self.rule_governs(t) {
            rule_resolve(self.recurrence->0, t)
        } else if k == 0 {
            self.resolved_type(0)
        } else {
            self.resolved_type(self.transitions[k - 1].type_index as int)
        }
    }

    /// What is in force in the stretch that ends at the `i`-th transition.
    pub open spec fn resolved_before(self, i: int) -> ResolvedView {
        if i == 0 {
            self.resolved_type(0)
        } else {
            self.resolved_type(self.transitions[i - 1].type_index as int)
        }
    }

    /// What is in force in the stretch that begins at the `i`-th
    /// transition.
    pub open spec fn resolved_from(self, i: int) -> ResolvedView {
        self.resolved_type(self.transitions[i].type_index as int)
    }

    /// The offset in force in the stretch that ends at the `i`-th
    /// transition.
    pub open spec fn offset_before(self, i: int) -> int {
        self.resolved_before(i).utc_offset as int
    }

    /// The offset in force in the stretch that begins at the `i`-th
    /// transition.
    pub open spec fn offset_from(self, i: int) -> int {
        self.resolved_from(i).utc_offset as int
    }

    /// Whether `u` lies in one of the two stretches that meet at the `i`-th
    /// transition, where the table decides in both: not before the
    /// transition before it, and before the one after it.
    pub open spec fn around_transition(self, i: int, u: int) -> bool {
        &&& 0 <= i < self.transitions.len()
        &&& i > 0 ==> self.transitions[i - 1].instant <= u
        &&& i + 1 < self.transitions.len() ==> u < self.transitions[i + 1].instant
        &&& i + 1 == self.transitions.len() ==> self.recurrence is None
    }

    /// Whether `offset` is that of a type of the table or one of the rule.
    pub open spec fn offset_held(self, offset: i32) -> bool {
        ||| exists|j: int| 0 <= j < self.types.len() && (#[trigger] self.types[j]).utc_offset == offset
        ||| self.recurrence matches Some(rule) && (rule.std_offset == offset || (
        rule.daylight matches Some(d) && d.utc_offset == offset))
    }
}

/// Among transitions in order, those at or before `t` are the first
/// `transitions_through` of them, and no others.
pub proof fn lemma_transitions_through(transitions: Seq<Transition>, t: int)
    requires
        transitions_sorted(transitions),
    ensures
        0 <= transitions_through(transitions, t) <= transitions.len(),
        forall|i: int|
            0 <= i < transitions_through(transitions, t) ==> (#[trigger] transitions[i]).instant
                <= t,
        forall|i: int|
            transitions_through(transitions, t) <= i < transitions.len() ==> (
            #[trigger] transitions[i]).instant > t,
    decreases transitions.len(),
{
    if transitions.len() > 0 {
        let rest = transitions.drop_last();
        assert forall|i: int, j: int| 0 <= i <= j < rest.len() implies rest[i].instant
            <= rest[j].instant by {
            assert(rest[i] == transitions[i] && rest[j] == transitions[j]);
        }
        lemma_transitions_through(rest, t);
        if transitions.last().instant <= t {
            assert forall|i: int| 0 <= i < transitions.len() implies (
            #[trigger] transitions[i]).instant <= t by {
                assert(transitions[i].instant <= transitions[transitions.len() - 1].instant);
            }
        } else {
            assert forall|i: int|
                transitions_through(transitions, t) <= i < transitions.len() implies (
            #[trigger] transitions[i]).instant > t by {
                if i < rest.len() {
                    assert(rest[i] == transitions[i]);
                }
            }
            assert forall|i: int| 0 <= i < transitions_through(transitions, t) implies (
            #[trigger] transitions[i]).instant <= t by {
                assert(rest[i] == transitions[i]);
            }
        }
    }
}

/// A place that parts the transitions at or before `t` from those after it
/// is the count of the former.
pub proof fn lemma_transitions_through_unique(transitions: Seq<Transition>, t: int, k: int)
    requires
        transitions_sorted(transitions),
        0 <= k <= transitions.len(),
        forall|i: int| 0 <= i < k ==> (#[trigger] transitions[i]).instant <= t,
        forall|i: int| k <= i < transitions.len() ==> (#[trigger] transitions[i]).instant > t,
    ensures
        transitions_through(transitions, t) == k,
{
    lemma_transitions_through(transitions, t);
    let n = transitions_through(transitions, t);
    if n < k {
        assert(transitions[n].instant > t);
    } else if n > k {
        assert(transitions[k].instant > t);
    }
}

impl Tz {
    /// How many transitions lie at or before `instant`.
    pub fn transitions_through(&self, instant: i64) -> (count: usize)
        ensures
            count == transitions_through(self@.transitions, instant as int),
            count <= self@.transitions.len(),
    {
        let transitions: &[Transition] = self.transitions();
        let mut lo: usize = 0;
        let mut hi: usize = transitions.len();
        while lo < hi
            invariant
                0 <= lo <= hi <= transitions@.len(),
                transitions_sorted(transitions@),
                forall|i: int| 0 <= i < lo ==> (#[trigger] transitions@[i]).instant <= instant,
                forall|i: int|
                    hi <= i < transitions@.len() ==> (#[trigger] transitions@[i]).instant
                        > instant,
            decreases hi - lo,
        {
            let mid: usize = lo + (hi - lo) / 2;
            if transitions[mid].instant <= instant {
                assert forall|i: int| 0 <= i < mid + 1 implies (
                #[trigger] transitions@[i]).instant <= instant by {
                    assert(transitions@[i].instant <= transitions@[mid as int].instant);
                }
                lo = mid + 1;
            } else {
                assert forall|i: int| mid <= i < transitions@.len() implies (
                #[trigger] transitions@[i]).instant > instant by {
                    assert(transitions@[mid as int].instant <= transitions@[i].instant);
                }
                hi = mid;
            }
        }
        proof {
            lemma_transitions_through_unique(transitions@, instant as int, lo as int);
        }
        lo
    }

    /// The offset, daylight flag and designation in force at `instant`.
    ///
    /// Answers for every instant: with the first type before the first
    /// transition, with the type of the latest transition at or before the
    /// instant after that, and from the last transition on with the
    /// recurrence rule where the zone has one.
    pub fn offset_for_instant<'a>(&'a self, instant: i64) -> (resolved: Resolved<'a>)
        ensures
            resolved@ == self@.resolve(instant as int),
    {
        let transitions: &[Transition] = self.transitions();
        let types = self.types();
        let k: usize = self.transitions_through(instant);
        if k == transitions.len() {
            match self.recurrence() {
                Some(rule) => { return rule.resolve(instant); },
                None => {},
            }
        }
        if k == 0 {
            self.resolved_type(0)
        } else {
            let index: usize = transitions[k - 1].type_index as usize;
            assert(transitions@[k - 1].type_index < self@.types.len());
            self.resolved_type(index)
        }
    }

    /// As [`Tz::offset_for_instant`], but refuses to answer where a rule
    /// would decide and the zone's rule text could not be read: at instants
    /// that no transition lies after.
    pub fn offset_for_instant_strict<'a>(&'a self, instant: i64) -> (r: Result<
        Resolved<'a>,
        Error,
    >)
        ensures
            match r {
                Ok(resolved) => resolved@ == self@.resolve(instant as int) && !(
                self@.rule_malformed && transitions_through(self@.transitions, instant as int)
                    == self@.transitions.len()),
                Err(e) => e == Error::MalformedRecurrenceRule && self@.rule_malformed
                    && transitions_through(self@.transitions, instant as int)
                    == self@.transitions.len(),
            },
    {
        if self.rule_malformed() && self.transitions_through(instant)
            == self.transitions().len() {
            Err(Error::MalformedRecurrenceRule)
        } else {
            Ok(self.offset_for_instant(instant))
        }
    }
}

/// The offset in force at any instant is one that the zone holds: that of
/// a type of its table, or one of the two of its rule.
pub proof fn lemma_offset_source(zone: TzView, t: int)
    requires
        zone.wf(),
    ensures
        zone.offset_held(zone.resolve(t).utc_offset),
{
    lemma_transitions_through(zone.transitions, t);
    let k = transitions_through(zone.transitions, t);
    if zone.rule_governs(t) {
    } else if k == 0 {
        assert(zone.types[0].utc_offset == zone.resolve(t).utc_offset);
    } else {
        let j = zone.transitions[k - 1].type_index as int;
        assert(zone.types[j].utc_offset == zone.resolve(t).utc_offset);
    }
}

/// Before the first transition the first type of the table is in force.
pub proof fn lemma_before_first_transition(zone: TzView, t: int)
    requires
        zone.wf(),
        zone.transitions.len() > 0,
        t < zone.transitions[0].instant,
    ensures
        zone.resolve(t) == zone.resolved_type(0),
{
    lemma_transitions_through(zone.transitions, t);
    let k = transitions_through(zone.transitions, t);
    if k > 0 {
        assert(zone.transitions[0].instant <= t);
    }
}

/// From the last transition on, and at every instant of a zone without
/// transitions, the zone answers as its recurrence rule does; without a
/// rule it keeps the type of the last transition, or the first type of the
/// table where it has no transition.
pub proof fn lemma_after_last_transition(zone: TzView, t: int)
    requires
        zone.wf(),
        zone.transitions.len() > 0 ==> zone.transitions.last().instant <= t,
    ensures
        zone.recurrence matches Some(rule) ==> zone.resolve(t) == rule_resolve(rule, t),
        zone.recurrence is None && zone.transitions.len() > 0 ==> zone.resolve(t)
            == zone.resolved_type(zone.transitions.last().type_index as int),
        zone.recurrence is None && zone.transitions.len() == 0 ==> zone.resolve(t)
            == zone.resolved_type(0),
{
    lemma_transitions_through(zone.transitions, t);
    let k = transitions_through(zone.transitions, t);
    if k < zone.transitions.len() {
        assert(zone.transitions[k].instant <= zone.transitions[zone.transitions.len() - 1].instant);
    }
}

/// At the instant of a transition the type that begins there is in force,
/// where the next transition is later and, at the last transition, no rule
/// takes over.
pub proof fn lemma_at_transition(zone: TzView, i: int)
    requires
        zone.wf(),
        0 <= i < zone.transitions.len(),
        i + 1 < zone.transitions.len() ==> zone.transitions[i].instant < zone.transitions[i
            + 1].instant,
        i + 1 == zone.transitions.len() ==> zone.recurrence is None,
    ensures
        zone.resolve(zone.transitions[i].instant as int) == zone.resolved_type(
            zone.transitions[i].type_index as int,
        ),
{
    let t = zone.transitions[i].instant as int;
    assert forall|j: int| 0 <= j < i + 1 implies (#[trigger] zone.transitions[j]).instant <= t by {
        assert(zone.transitions[j].instant <= zone.transitions[i].instant);
    }
    assert forall|j: int| i + 1 <= j < zone.transitions.len() implies (
    #[trigger] zone.transitions[j]).instant > t by {
        assert(zone.transitions[i + 1].instant <= zone.transitions[j].instant);
    }
    lemma_transitions_through_unique(zone.transitions, t, i + 1);
}

/// One second before a transition the type before it is in force: that of
/// the transition before, where that one is earlier, and the first type of
/// the table before the first transition.
pub proof fn lemma_before_transition(zone: TzView, i: int)
    requires
        zone.wf(),
        0 <= i < zone.transitions.len(),
        i > 0 ==> zone.transitions[i - 1].instant < zone.transitions[i].instant,
    ensures
        zone.resolve(zone.transitions[i].instant - 1) == if i == 0 {
            zone.resolved_type(0)
        } else {
            zone.resolved_type(zone.transitions[i - 1].type_index as int)
        },
{
    let t = zone.transitions[i].instant - 1;
    assert forall|j: int| 0 <= j < i implies (#[trigger] zone.transitions[j]).instant <= t by {
        assert(zone.transitions[j].instant <= zone.transitions[i - 1].instant);
    }
    assert forall|j: int| i <= j < zone.transitions.len() implies (
    #[trigger] zone.transitions[j]).instant > t by {
        assert(zone.transitions[i].instant <= zone.transitions[j].instant);
    }
    lemma_transitions_through_unique(zone.transitions, t, i);
}

/// In the two stretches that meet at a transition, the type before it is
/// in force before its instant and the type from it at and after that.
pub proof fn lemma_around_transition(zone: TzView, i: int, u: int)
    requires
        zone.wf(),
        zone.around_transition(i, u),
    ensures
        zone.resolve(u) == if u < zone.transitions[i].instant {
            zone.resolved_before(i)
        } else {
            zone.resolved_from(i)
        },
{
    let ts = zone.transitions;
    if u < ts[i].instant {
        assert forall|j: int| 0 <= j < i implies (#[trigger] ts[j]).instant <= u by {
            assert(ts[j].instant <= ts[i - 1].instant);
        }
        assert forall|j: int| i <= j < ts.len() implies (#[trigger] ts[j]).instant > u by {
            assert(ts[i].instant <= ts[j].instant);
        }
        lemma_transitions_through_unique(ts, u, i);
    } else {
        assert forall|j: int| 0 <= j < i + 1 implies (#[trigger] ts[j]).instant <= u by {
            assert(ts[j].instant <= ts[i].instant);
        }
        assert forall|j: int| i + 1 <= j < ts.len() implies (#[trigger] ts[j]).instant > u by {
            assert(ts[i + 1].instant <= ts[j].instant);
        }
        lemma_transitions_through_unique(ts, u, i + 1);
    }
}

} // verus!
