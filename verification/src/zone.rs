//! The decoded zone: its transitions, its local time types, the table of
//! designations, the leap second records and the recurrence rule.

use crate::bytes::{ByteClass, run_length, scan_run};
use crate::rule::{RecurrenceRule, RecurrenceRuleView};
use vstd::prelude::*;

verus! {

/// An offset from UTC with its daylight flag and the place of its
/// designation in the zone's table of designations.
#[derive(Clone, Copy, Debug, PartialEq, Eq)]
pub struct LocalTimeType {
    /// Seconds east of UTC.
    pub utc_offset: i32,
    pub is_dst: bool,
    /// Where in the table of designations the abbreviation begins; it ends
    /// before the next NUL byte.
    pub designation_index: u8,
}

/// An instant from which on another local time type is in force.
#[derive(Clone, Copy, Debug, PartialEq, Eq)]
pub struct Transition {
    /// Seconds since 1970-01-01T00:00:00 UTC.
    pub instant: i64,
    /// The place of the type in the zone's table of types.
    pub type_index: u8,
}

/// A leap second: the instant at which it takes effect and the correction,
/// in seconds, that has accumulated by then.
#[derive(Clone, Copy, Debug, PartialEq, Eq)]
pub struct LeapSecondRecord {
    pub instant: i64,
    pub correction: i32,
}

/// What a query gives back: the offset in force, whether it is daylight
/// time, and the abbreviation, borrowed from the zone.
#[derive(Clone, Copy, Debug, PartialEq, Eq)]
pub struct Resolved<'a> {
    /// Seconds east of UTC.
    pub utc_offset: i32,
    pub is_dst: bool,
    pub designation: &'a [u8],
}

/// What a [`Resolved`] holds, as mathematical values.
pub ghost struct ResolvedView {
    pub utc_offset: i32,
    pub is_dst: bool,
    pub designation: Seq<u8>,
}

impl<'a> View for Resolved<'a> {
    type V = ResolvedView;

    open spec fn view(&self) -> ResolvedView {
        ResolvedView {
            utc_offset: self.utc_offset,
            is_dst: self.is_dst,
            designation: self.designation@,
        }
    }
}

/// The abbreviation that begins at `index` in a table of designations: the
/// bytes from there up to the next NUL.
pub open spec fn designation_at(table: Seq<u8>, index: int) -> Seq<u8> {
    table.subrange(index, index + run_length(table, index, ByteClass::Text))
}

/// `index` lies in the table and a NUL follows at or after it.
pub open spec fn designation_valid(table: Seq<u8>, index: int) -> bool {
    0 <= index && index + run_length(table, index, ByteClass::Text) < table.len()
}

/// No transition comes before one that is stored ahead of it.
pub open spec fn transitions_sorted(transitions: Seq<Transition>) -> bool {
    forall|i: int, j: int|
        0 <= i <= j < transitions.len() ==> transitions[i].instant <= transitions[j].instant
}

/// Every transition names a type that the table of `type_count` types has.
pub open spec fn type_indexes_valid(transitions: Seq<Transition>, type_count: int) -> bool {
    forall|i: int| 0 <= i < transitions.len() ==> (#[trigger] transitions[i]).type_index < type_count
}

/// Every type's designation lies in the table.
pub open spec fn designations_valid(types: Seq<LocalTimeType>, table: Seq<u8>) -> bool {
    forall|i: int|
        0 <= i < types.len() ==> designation_valid(
            table,
            (#[trigger] types[i]).designation_index as int,
        )
}

/// The correction, in seconds, that the records give for instant `t`: that
/// of the record stored last among those that have taken effect by then,
/// and none before the first of them.
pub open spec fn leap_correction(records: Seq<LeapSecondRecord>, t: int) -> int
    decreases records.len(),
{
    if records.len() == 0 {
        0
    } else if records.last().instant <= t {
        records.last().correction as int
    } else {
        leap_correction(records.drop_last(), t)
    }
}

/// What a [`Tz`] holds, as mathematical values.
pub ghost struct TzView {
    pub name: Seq<char>,
    pub transitions: Seq<Transition>,
    pub types: Seq<LocalTimeType>,
    pub designations: Seq<u8>,
    pub leap_seconds: Seq<LeapSecondRecord>,
    pub recurrence: Option<RecurrenceRuleView>,
    /// The zone's data ended in a rule text that does not follow the
    /// grammar, so the zone has no recurrence rule.
    pub rule_malformed: bool,
}

impl TzView {
    /// What holds of every zone: it has a first type, its transitions are
    /// in order and name types of the table, every type's designation lies
    /// in the table of designations, and its rule, if any, is well formed.
    pub open spec fn wf(self) -> bool {
        &&& self.types.len() >= 1
        &&& transitions_sorted(self.transitions)
        &&& type_indexes_valid(self.transitions, self.types.len() as int)
        &&& designations_valid(self.types, self.designations)
        &&& (self.recurrence matches Some(rule) ==> rule.wf())
        &&& (self.rule_malformed ==> self.recurrence is None)
    }

    /// The offset, flag and designation of the type at `index`.
    pub open spec fn resolved_type(self, index: int) -> ResolvedView {
        ResolvedView {
            utc_offset: self.types[index].utc_offset,
            is_dst: self.types[index].is_dst,
            designation: designation_at(
                self.designations,
                self.types[index].designation_index as int,
            ),
        }
    }
}

/// A time zone, decoded once and then only read.
#[derive(Debug, PartialEq, Eq)]
pub struct Tz {
    pub(crate) name: String,
    pub(crate) transitions: Vec<Transition>,
    pub(crate) types: Vec<LocalTimeType>,
    pub(crate) designations: Vec<u8>,
    pub(crate) leap_seconds: Vec<LeapSecondRecord>,
    pub(crate) recurrence: Option<RecurrenceRule>,
    pub(crate) rule_malformed: bool,
}

impl View for Tz {
    type V = TzView;

    closed spec fn view(&self) -> TzView {
        TzView {
            name: self.name@,
            transitions: self.transitions@,
            types: self.types@,
            designations: self.designations@,
            leap_seconds: self.leap_seconds@,
            recurrence: match self.recurrence {
                Some(rule) => Some(rule@),
                None => None,
            },
            rule_malformed: self.rule_malformed,
        }
    }
}

/// A vector with the same items.
pub fn copy_items<T: Copy>(items: &Vec<T>) -> (copy: Vec<T>)
    ensures
        copy@ == items@,
{
    let mut copy: Vec<T> = Vec::new();
    let mut i: usize = 0;
    while i < items.len()
        invariant
            i <= items@.len(),
            copy@ == items@.take(i as int),
        decreases items@.len() - i,
    {
        copy.push(items[i]);
        assert(items@.take(i + 1) =~= items@.take(i as int).push(items@[i as int]));
        i = i + 1;
    }
    assert(items@.take(items@.len() as int) =~= items@);
    copy
}

impl Clone for Tz {
    /// A zone that holds the same as this one.
    fn clone(&self) -> (copy: Tz)
        ensures
            copy@ == self@,
    {
        proof {
            use_type_invariant(self);
        }
        let recurrence: Option<RecurrenceRule> = match &self.recurrence {
            None => None,
            Some(rule) => Some(rule.duplicate()),
        };
        Tz {
            name: self.name.clone(),
            transitions: copy_items(&self.transitions),
            types: copy_items(&self.types),
            designations: copy_items(&self.designations),
            leap_seconds: copy_items(&self.leap_seconds),
            recurrence,
            rule_malformed: self.rule_malformed,
        }
    }
}

impl Tz {
    #[verifier::type_invariant]
    pub closed spec fn inv(self) -> bool {
        self@.wf()
    }

    /// Puts a zone together from parts that are well formed together.
    pub(crate) fn assemble(
        name: String,
        transitions: Vec<Transition>,
        types: Vec<LocalTimeType>,
        designations: Vec<u8>,
        leap_seconds: Vec<LeapSecondRecord>,
        recurrence: Option<RecurrenceRule>,
        rule_malformed: bool,
    ) -> (zone: Tz)
        requires
            types@.len() >= 1,
            transitions_sorted(transitions@),
            type_indexes_valid(transitions@, types@.len() as int),
            designations_valid(types@, designations@),
            recurrence matches Some(rule) ==> rule@.wf(),
            rule_malformed ==> recurrence is None,
        ensures
            zone@.wf(),
            zone@.name == name@,
            zone@.transitions == transitions@,
            zone@.types == types@,
            zone@.designations == designations@,
            zone@.leap_seconds == leap_seconds@,
            zone@.recurrence == match recurrence {
                Some(rule) => Some(rule@),
                None => None::<RecurrenceRuleView>,
            },
            zone@.rule_malformed == rule_malformed,
    {
        Tz { name, transitions, types, designations, leap_seconds, recurrence, rule_malformed }
    }

    /// The name that the zone was decoded under.
    pub fn name(&self) -> (name: &str)
        ensures
            name@ == self@.name,
    {
        self.name.as_str()
    }

    /// The explicit transitions, in the order of their instants.
    pub fn transitions(&self) -> (transitions: &[Transition])
        ensures
            transitions@ == self@.transitions,
            self@.wf(),
    {
        proof {
            use_type_invariant(self);
        }
        self.transitions.as_slice()
    }

    /// The table of local time types; it is never empty.
    pub fn types(&self) -> (types: &[LocalTimeType])
        ensures
            types@ == self@.types,
            self@.wf(),
    {
        proof {
            use_type_invariant(self);
        }
        self.types.as_slice()
    }

    /// The table of designations, each ended by a NUL.
    pub fn designations(&self) -> (table: &[u8])
        ensures
            table@ == self@.designations,
    {
        self.designations.as_slice()
    }

    /// The leap second records, as stored.
    pub fn leap_seconds(&self) -> (records: &[LeapSecondRecord])
        ensures
            records@ == self@.leap_seconds,
    {
        self.leap_seconds.as_slice()
    }

    /// The leap second correction that has accumulated by `instant`. It
    /// is given beside the offset and never changes it.
    pub fn leap_correction(&self, instant: i64) -> (correction: i32)
        ensures
            correction == leap_correction(self@.leap_seconds, instant as int),
    {
        let mut i: usize = self.leap_seconds.len();
        assert(self.leap_seconds@.take(i as int) =~= self.leap_seconds@);
        while i > 0
            invariant
                i <= self.leap_seconds@.len(),
                leap_correction(self.leap_seconds@, instant as int) == leap_correction(
                    self.leap_seconds@.take(i as int),
                    instant as int,
                ),
            decreases i,
        {
            let record: LeapSecondRecord = self.leap_seconds[i - 1];
            proof {
                let part = self.leap_seconds@.take(i as int);
                assert(part.last() == record);
                assert(part.drop_last() =~= self.leap_seconds@.take(i - 1));
            }
            if record.instant <= instant {
                return record.correction;
            }
            i = i - 1;
        }
        0
    }

    /// The recurrence rule, if the zone has one.
    pub fn recurrence(&self) -> (rule: Option<&RecurrenceRule>)
        ensures
            match rule {
                Some(r) => self@.recurrence == Some(r@) && r@.wf(),
                None => self@.recurrence is None,
            },
    {
        proof {
            use_type_invariant(self);
        }
        self.recurrence.as_ref()
    }

    /// Whether the zone's data ended in a rule text that could not be read.
    /// Such a zone answers for instants after its last transition with the
    /// last explicit type.
    pub fn rule_malformed(&self) -> (malformed: bool)
        ensures
            malformed == self@.rule_malformed,
            malformed ==> self@.recurrence is None,
    {
        proof {
            use_type_invariant(self);
        }
        self.rule_malformed
    }

    /// The offset, flag and designation of the type at `index`.
    pub fn resolved_type<'a>(&'a self, index: usize) -> (resolved: Resolved<'a>)
        requires
            index < self@.types.len(),
        ensures
            resolved@ == self@.resolved_type(index as int),
    {
        proof {
            use_type_invariant(self);
        }
        let local: LocalTimeType = self.types[index];
        let from: usize = local.designation_index as usize;
        assert(designation_valid(self.designations@, self.types@[index as int].designation_index as int));
        let to: usize = scan_run(self.designations.as_slice(), from, ByteClass::Text);
        let table: &[u8] = self.designations.as_slice();
        Resolved { utc_offset: local.utc_offset, is_dst: local.is_dst, designation: &table[from..to] }
    }
}

} // verus!
