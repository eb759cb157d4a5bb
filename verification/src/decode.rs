//! Decoding the binary zone-information format.
//!
//! A buffer holds a header of 44 bytes and a body whose sections the
//! header's six counts measure: the transition instants, one type index for
//! each, the local time types, the designations, the leap second records
//! and two arrays of indicators. A buffer of version `'2'` or `'3'` holds a
//! second header and body after the first, with instants of eight bytes in
//! place of four, and after them a line of text between two newlines, which
//! is empty or spells a recurrence rule. Where there is a second block, the
//! zone is made of it alone.

use crate::bytes::{
    ByteClass, be_i32, be_instant, be_u32, copy_range, lemma_be_instant_agrees,
    lemma_be_u32_agrees, lemma_run_length_agrees, lemma_run_length_bounds, lemma_run_length_cut,
    read_i32, read_instant, read_u32, run_length, scan_run,
};
use crate::error::Error;
use crate::rule::{RecurrenceRule, lemma_parse_rule_wf, parse_rule, spec_parse_rule};
use crate::zone::{
    LeapSecondRecord, LocalTimeType, Transition, Tz, TzView, designation_valid,
    designations_valid, transitions_sorted, type_indexes_valid,
};
use vstd::prelude::*;

verus! {

/// The number of bytes of a header.
pub const HEADER_LEN: usize = 44;

/// The fixed part that begins every block: the version byte and the six
/// counts that measure the block's body.
#[derive(Clone, Copy, Debug, PartialEq, Eq)]
pub struct RawHeader {
    pub version: u8,
    pub isutcnt: u32,
    pub isstdcnt: u32,
    pub leapcnt: u32,
    pub timecnt: u32,
    pub typecnt: u32,
    pub charcnt: u32,
}

/// The four bytes `TZif` stand at `at`.
pub open spec fn has_magic(s: Seq<u8>, at: int) -> bool {
    s[at] == 0x54 && s[at + 1] == 0x5a && s[at + 2] == 0x69 && s[at + 3] == 0x66
}

/// The versions that are decoded: NUL, `'2'` and `'3'`.
pub open spec fn supported_version(version: u8) -> bool {
    version == 0 || version == 0x32 || version == 0x33
}

/// The header at `at`, or why there is none.
pub open spec fn spec_header(s: Seq<u8>, at: int) -> Result<RawHeader, Error> {
    if at + 44 > s.len() || !has_magic(s, at) {
        Err(Error::MalformedHeader)
    } else if !supported_version(s[at + 4]) {
        Err(Error::UnsupportedVersion)
    } else {
        Ok(
            RawHeader {
                version: s[at + 4],
                isutcnt: be_u32(s, at + 20) as u32,
                isstdcnt: be_u32(s, at + 24) as u32,
                leapcnt: be_u32(s, at + 28) as u32,
                timecnt: be_u32(s, at + 32) as u32,
                typecnt: be_u32(s, at + 36) as u32,
                charcnt: be_u32(s, at + 40) as u32,
            },
        )
    }
}

impl RawHeader {
    /// The bytes that the transition instants take.
    pub open spec fn times_len(self, wide: bool) -> int {
        if wide {
            8 * self.timecnt
        } else {
            4 * self.timecnt
        }
    }

    /// The bytes that the leap second records take.
    pub open spec fn leaps_len(self, wide: bool) -> int {
        if wide {
            12 * self.leapcnt
        } else {
            8 * self.leapcnt
        }
    }

    /// Where the type indexes begin in a body at `body`.
    pub open spec fn indexes_at(self, body: int, wide: bool) -> int {
        body + self.times_len(wide)
    }

    /// Where the local time types begin.
    pub open spec fn types_at(self, body: int, wide: bool) -> int {
        self.indexes_at(body, wide) + self.timecnt
    }

    /// Where the designations begin.
    pub open spec fn designations_at(self, body: int, wide: bool) -> int {
        self.types_at(body, wide) + 6 * self.typecnt
    }

    /// Where the leap second records begin.
    pub open spec fn leaps_at(self, body: int, wide: bool) -> int {
        self.designations_at(body, wide) + self.charcnt
    }

    /// The bytes of the whole body.
    pub open spec fn body_len(self, wide: bool) -> int {
        self.times_len(wide) + self.timecnt + 6 * self.typecnt + self.charcnt + self.leaps_len(
            wide,
        ) + self.isstdcnt + self.isutcnt
    }
}

/// The `i`-th transition of a body at `body`.
pub open spec fn transition_at(s: Seq<u8>, body: int, h: RawHeader, wide: bool, i: int) -> Transition {
    Transition {
        instant: be_instant(
            s,
            if wide {
                body + 8 * i
            } else {
                body + 4 * i
            },
            wide,
        ) as i64,
        type_index: s[h.indexes_at(body, wide) + i],
    }
}

/// The `i`-th local time type of a body at `body`.
pub open spec fn type_at(s: Seq<u8>, body: int, h: RawHeader, wide: bool, i: int) -> LocalTimeType {
    let at = h.types_at(body, wide) + 6 * i;
    LocalTimeType {
        utc_offset: be_i32(s, at) as i32,
        is_dst: s[at + 4] != 0,
        designation_index: s[at + 5],
    }
}

/// The `i`-th leap second record of a body at `body`.
pub open spec fn leap_at(s: Seq<u8>, body: int, h: RawHeader, wide: bool, i: int) -> LeapSecondRecord {
    let at = h.leaps_at(body, wide) + if wide {
        12 * i
    } else {
        8 * i
    };
    LeapSecondRecord {
        instant: be_instant(s, at, wide) as i64,
        correction: be_i32(
            s,
            at + if wide {
                8int
            } else {
                4int
            },
        ) as i32,
    }
}

/// What a block holds, as mathematical values.
pub ghost struct BlockView {
    pub transitions: Seq<Transition>,
    pub types: Seq<LocalTimeType>,
    pub designations: Seq<u8>,
    pub leap_seconds: Seq<LeapSecondRecord>,
}

/// The contents of the body at `body` that header `h` measures.
pub open spec fn spec_block(s: Seq<u8>, body: int, h: RawHeader, wide: bool) -> BlockView {
    BlockView {
        transitions: Seq::new(h.timecnt as nat, |i: int| transition_at(s, body, h, wide, i)),
        types: Seq::new(h.typecnt as nat, |i: int| type_at(s, body, h, wide, i)),
        designations: s.subrange(
            h.designations_at(body, wide),
            h.designations_at(body, wide) + h.charcnt,
        ),
        leap_seconds: Seq::new(h.leapcnt as nat, |i: int| leap_at(s, body, h, wide, i)),
    }
}

/// The text of the line that begins after the newline at `at`, if that
/// newline is there and another one ends the line.
pub open spec fn spec_footer(s: Seq<u8>, at: int) -> Option<Seq<u8>> {
    let n = run_length(s, at + 1, ByteClass::Line);
    if 0 <= at < s.len() && s[at] == 0x0a && at + 1 + n < s.len() {
        Some(s.subrange(at + 1, at + 1 + n))
    } else {
        None
    }
}

/// The zone that a block and a rule text make, or the first thing that is
/// wrong with the block: transitions out of order, then an index that
/// points outside its table. A rule text that cannot be read leaves the
/// zone without a rule and marks it.
pub open spec fn spec_assemble(name: Seq<char>, block: BlockView, footer: Seq<u8>) -> Result<
    TzView,
    Error,
> {
    if !transitions_sorted(block.transitions) {
        Err(Error::NonMonotonicTransitions)
    } else if block.types.len() == 0 || !type_indexes_valid(
        block.transitions,
        block.types.len() as int,
    ) || !designations_valid(block.types, block.designations) {
        Err(Error::IndexOutOfRange)
    } else {
        Ok(
            TzView {
                name,
                transitions: block.transitions,
                types: block.types,
                designations: block.designations,
                leap_seconds: block.leap_seconds,
                recurrence: if footer.len() == 0 {
                    None
                } else {
                    spec_parse_rule(footer)
                },
                rule_malformed: footer.len() > 0 && spec_parse_rule(footer) is None,
            },
        )
    }
}

/// The parts of a buffer that a zone is made of, before any of them is
/// looked into: the block, which is the second where there are two, and
/// the text of the closing line, which is empty where there is none. Fails
/// where a header or the closing line is not as it must be, or a body is
/// cut short.
pub open spec fn spec_layout(s: Seq<u8>) -> Result<(BlockView, Seq<u8>), Error> {
    match spec_header(s, 0) {
        Err(e) => Err(e),
        Ok(first) => {
            let second_at = 44 + first.body_len(false);
            if second_at > s.len() {
                Err(Error::TruncatedBody)
            } else if first.version == 0 {
                Ok((spec_block(s, 44, first, false), Seq::empty()))
            } else {
                match spec_header(s, second_at) {
                    Err(e) => Err(e),
                    Ok(second) => {
                        let footer_at = second_at + 44 + second.body_len(true);
                        if footer_at > s.len() {
                            Err(Error::TruncatedBody)
                        } else {
                            match spec_footer(s, footer_at) {
                                None => Err(Error::TruncatedBody),
                                Some(footer) => Ok(
                                    (spec_block(s, second_at + 44, second, true), footer),
                                ),
                            }
                        }
                    },
                }
            }
        },
    }
}

/// The zone that a buffer holds, or the first thing that is wrong with it.
pub open spec fn spec_decode(name: Seq<char>, s: Seq<u8>) -> Result<TzView, Error> {
    match spec_layout(s) {
        Err(e) => Err(e),
        Ok((block, footer)) => spec_assemble(name, block, footer),
    }
}

/// The number of bytes, from the first on, that make up the zone in a
/// buffer that decodes.
pub open spec fn encoded_len(s: Seq<u8>) -> int {
    let first = spec_header(s, 0)->Ok_0;
    let second_at = 44 + first.body_len(false);
    if first.version == 0 {
        second_at
    } else {
        let second = spec_header(s, second_at)->Ok_0;
        let footer_at = second_at + 44 + second.body_len(true);
        footer_at + 1 + run_length(s, footer_at + 1, ByteClass::Line) + 1
    }
}

/// Whether a buffer begins with the magic tag, as every zone-information
/// file does.
pub fn is_tzif(bytes: &[u8]) -> (tagged: bool)
    ensures
        tagged == (bytes@.len() >= 4 && has_magic(bytes@, 0)),
{
    bytes.len() >= 4 && bytes[0] == 0x54 && bytes[1] == 0x5a && bytes[2] == 0x69 && bytes[3]
        == 0x66
}

/// Reads the header at `at`.
pub fn read_header(bytes: &[u8], at: usize) -> (r: Result<RawHeader, Error>)
    requires
        at <= bytes@.len(),
    ensures
        r == spec_header(bytes@, at as int),
{
    if bytes.len() - at < HEADER_LEN {
        return Err(Error::MalformedHeader);
    }
    if bytes[at] != 0x54 || bytes[at + 1] != 0x5a || bytes[at + 2] != 0x69 || bytes[at + 3]
        != 0x66 {
        return Err(Error::MalformedHeader);
    }
    let version: u8 = bytes[at + 4];
    if !(version == 0 || version == 0x32 || version == 0x33) {
        return Err(Error::UnsupportedVersion);
    }
    Ok(
        RawHeader {
            version,
            isutcnt: read_u32(bytes, at + 20),
            isstdcnt: read_u32(bytes, at + 24),
            leapcnt: read_u32(bytes, at + 28),
            timecnt: read_u32(bytes, at + 32),
            typecnt: read_u32(bytes, at + 36),
            charcnt: read_u32(bytes, at + 40),
        },
    )
}

impl RawHeader {
    /// The bytes of the whole body, which may be more than any buffer has.
    pub fn body_length(&self, wide: bool) -> (len: u64)
        ensures
            len == self.body_len(wide),
    {
        let timecnt: u64 = self.timecnt as u64;
        let leapcnt: u64 = self.leapcnt as u64;
        let times: u64 = if wide {
            8 * timecnt
        } else {
            4 * timecnt
        };
        let leaps: u64 = if wide {
            12 * leapcnt
        } else {
            8 * leapcnt
        };
        times + timecnt + 6 * (self.typecnt as u64) + self.charcnt as u64 + leaps
            + self.isstdcnt as u64 + self.isutcnt as u64
    }
}

/// A block's contents, each section in a vector of its own.
pub struct Block {
    pub transitions: Vec<Transition>,
    pub types: Vec<LocalTimeType>,
    pub designations: Vec<u8>,
    pub leap_seconds: Vec<LeapSecondRecord>,
}

impl View for Block {
    type V = BlockView;

    open spec fn view(&self) -> BlockView {
        BlockView {
            transitions: self.transitions@,
            types: self.types@,
            designations: self.designations@,
            leap_seconds: self.leap_seconds@,
        }
    }
}

/// Reads the body at `body` that header `h` measures, with instants of
/// eight bytes where `wide` and of four elsewhere.
pub fn read_block(bytes: &[u8], body: usize, h: &RawHeader, wide: bool) -> (block: Block)
    requires
        body + h.body_len(wide) <= bytes@.len(),
    ensures
        block@ == spec_block(bytes@, body as int, *h, wide),
{
    assert(bytes@.len() == bytes.len());
    let timecnt: usize = h.timecnt as usize;
    let typecnt: usize = h.typecnt as usize;
    let leapcnt: usize = h.leapcnt as usize;
    let charcnt: usize = h.charcnt as usize;
    let width: usize = if wide {
        8
    } else {
        4
    };
    let indexes_at: usize = body + if wide {
        8 * timecnt
    } else {
        4 * timecnt
    };
    let types_at: usize = indexes_at + timecnt;
    let designations_at: usize = types_at + 6 * typecnt;
    let leaps_at: usize = designations_at + charcnt;

    let mut transitions: Vec<Transition> = Vec::new();
    let mut i: usize = 0;
    while i < timecnt
        invariant
            0 <= i <= timecnt,
            timecnt == h.timecnt,
            width == (if wide {
                8int
            } else {
                4int
            }),
            indexes_at == h.indexes_at(body as int, wide),
            body + h.body_len(wide) <= bytes@.len() <= usize::MAX,
            transitions@.len() == i,
            forall|k: int|
                0 <= k < i ==> transitions@[k] == transition_at(bytes@, body as int, *h, wide, k),
        decreases timecnt - i,
    {
        let at: usize = body + if wide {
            8 * i
        } else {
            4 * i
        };
        let instant: i64 = read_instant(bytes, at, wide);
        transitions.push(Transition { instant, type_index: bytes[indexes_at + i] });
        i = i + 1;
    }

    let mut types: Vec<LocalTimeType> = Vec::new();
    let mut i: usize = 0;
    while i < typecnt
        invariant
            0 <= i <= typecnt,
            typecnt == h.typecnt,
            types_at == h.types_at(body as int, wide),
            body + h.body_len(wide) <= bytes@.len() <= usize::MAX,
            types@.len() == i,
            forall|k: int| 0 <= k < i ==> types@[k] == type_at(bytes@, body as int, *h, wide, k),
        decreases typecnt - i,
    {
        let at: usize = types_at + 6 * i;
        types.push(
            LocalTimeType {
                utc_offset: read_i32(bytes, at),
                is_dst: bytes[at + 4] != 0,
                designation_index: bytes[at + 5],
            },
        );
        i = i + 1;
    }

    let designations: Vec<u8> = copy_range(bytes, designations_at, designations_at + charcnt);

    let mut leap_seconds: Vec<LeapSecondRecord> = Vec::new();
    let mut i: usize = 0;
    while i < leapcnt
        invariant
            0 <= i <= leapcnt,
            leapcnt == h.leapcnt,
            width == (if wide {
                8int
            } else {
                4int
            }),
            leaps_at == h.leaps_at(body as int, wide),
            body + h.body_len(wide) <= bytes@.len() <= usize::MAX,
            leap_seconds@.len() == i,
            forall|k: int|
                0 <= k < i ==> leap_seconds@[k] == leap_at(bytes@, body as int, *h, wide, k),
        decreases leapcnt - i,
    {
        let at: usize = leaps_at + if wide {
            12 * i
        } else {
            8 * i
        };
        leap_seconds.push(
            LeapSecondRecord {
                instant: read_instant(bytes, at, wide),
                correction: read_i32(bytes, at + width),
            },
        );
        i = i + 1;
    }
    proof {
        let view = spec_block(bytes@, body as int, *h, wide);
        assert(transitions@ =~= view.transitions);
        assert(types@ =~= view.types);
        assert(leap_seconds@ =~= view.leap_seconds);
    }
    Block { transitions, types, designations, leap_seconds }
}

/// Whether no transition comes before one that is stored ahead of it.
pub fn check_sorted(transitions: &Vec<Transition>) -> (sorted: bool)
    ensures
        sorted == transitions_sorted(transitions@),
{
    let mut i: usize = 1;
    while i < transitions.len()
        invariant
            1 <= i,
            forall|a: int, b: int|
                0 <= a <= b < i && b < transitions@.len() ==> transitions@[a].instant
                    <= transitions@[b].instant,
        decreases transitions@.len() - i,
    {
        if transitions[i - 1].instant > transitions[i].instant {
            assert(!(transitions@[i - 1].instant <= transitions@[i as int].instant));
            return false;
        }
        assert forall|a: int, b: int| 0 <= a <= b < i + 1 && b < transitions@.len() implies
            transitions@[a].instant <= transitions@[b].instant by {
            if b == i && a < i {
                assert(transitions@[a].instant <= transitions@[i - 1].instant);
            }
        }
        i = i + 1;
    }
    true
}

/// Whether every transition names one of the first `type_count` types.
pub fn check_type_indexes(transitions: &Vec<Transition>, type_count: usize) -> (valid: bool)
    ensures
        valid == type_indexes_valid(transitions@, type_count as int),
{
    let mut i: usize = 0;
    while i < transitions.len()
        invariant
            i <= transitions@.len(),
            forall|k: int| 0 <= k < i ==> (#[trigger] transitions@[k]).type_index < type_count,
        decreases transitions@.len() - i,
    {
        if transitions[i].type_index as usize >= type_count {
            return false;
        }
        i = i + 1;
    }
    true
}

/// Whether every type's designation begins in the table and ends in it.
pub fn check_designations(types: &Vec<LocalTimeType>, table: &Vec<u8>) -> (valid: bool)
    ensures
        valid == designations_valid(types@, table@),
{
    let mut i: usize = 0;
    while i < types.len()
        invariant
            i <= types@.len(),
            forall|k: int|
                0 <= k < i ==> designation_valid(
                    table@,
                    (#[trigger] types@[k]).designation_index as int,
                ),
        decreases types@.len() - i,
    {
        let from: usize = types[i].designation_index as usize;
        if from >= table.len() {
            assert(!designation_valid(table@, types@[i as int].designation_index as int));
            return false;
        }
        let to: usize = scan_run(table.as_slice(), from, ByteClass::Text);
        if to >= table.len() {
            assert(!designation_valid(table@, types@[i as int].designation_index as int));
            return false;
        }
        i = i + 1;
    }
    true
}

/// Finds the line that begins after the newline at `at`: where its text
/// begins and where it ends.
pub fn read_footer(bytes: &[u8], at: usize) -> (r: Option<(usize, usize)>)
    requires
        at <= bytes@.len(),
    ensures
        match r {
            Some((from, to)) => from <= to < bytes@.len() && spec_footer(bytes@, at as int)
                == Some(bytes@.subrange(from as int, to as int)) && from == at + 1 && to == from
                + run_length(bytes@, from as int, ByteClass::Line),
            None => spec_footer(bytes@, at as int) is None,
        },
{
    if at >= bytes.len() || bytes[at] != 0x0a {
        return None;
    }
    let to: usize = scan_run(bytes, at + 1, ByteClass::Line);
    if to >= bytes.len() {
        return None;
    }
    Some((at + 1, to))
}

/// Checks a block and makes the zone of it and of the rule text.
pub fn assemble(name: &str, block: Block, footer: &[u8]) -> (r: Result<Tz, Error>)
    ensures
        match r {
            Ok(zone) => spec_assemble(name@, block@, footer@) == Ok::<TzView, Error>(zone@)
                && zone@.wf(),
            Err(e) => spec_assemble(name@, block@, footer@) == Err::<TzView, Error>(e),
        },
{
    if !check_sorted(&block.transitions) {
        return Err(Error::NonMonotonicTransitions);
    }
    if block.types.len() == 0 || !check_type_indexes(&block.transitions, block.types.len())
        || !check_designations(&block.types, &block.designations) {
        return Err(Error::IndexOutOfRange);
    }
    let mut recurrence: Option<RecurrenceRule> = None;
    let mut rule_malformed: bool = false;
    if footer.len() > 0 {
        match parse_rule(footer) {
            Ok(rule) => {
                recurrence = Some(rule);
            },
            Err(_) => {
                rule_malformed = true;
            },
        }
    }
    let zone = Tz::assemble(
        name.to_owned(),
        block.transitions,
        block.types,
        block.designations,
        block.leap_seconds,
        recurrence,
        rule_malformed,
    );
    Ok(zone)
}

impl Tz {
    /// Decodes a zone from the bytes of a zone-information file.
    ///
    /// The result is the zone that [`spec_decode`] describes, or the error
    /// that it names: a header that is cut short or lacks the magic tag, a
    /// version that is not supported, a body or a closing line that is cut
    /// short, transitions out of order, or an index outside its table, in
    /// this order of precedence. A rule text that cannot be read is no
    /// error: the zone then has no rule and says so. Bytes after the zone
    /// are not looked at.
    pub fn parse(name: &str, bytes: &[u8]) -> (r: Result<Tz, Error>)
        ensures
            match r {
                Ok(zone) => spec_decode(name@, bytes@) == Ok::<TzView, Error>(zone@) && zone@.wf(),
                Err(e) => spec_decode(name@, bytes@) == Err::<TzView, Error>(e),
            },
    {
        let first: RawHeader = match read_header(bytes, 0) {
            Ok(h) => h,
            Err(e) => { return Err(e); },
        };
        let first_len: u64 = first.body_length(false);
        if first_len > (bytes.len() - HEADER_LEN) as u64 {
            return Err(Error::TruncatedBody);
        }
        let second_at: usize = HEADER_LEN + first_len as usize;
        if first.version == 0 {
            let block: Block = read_block(bytes, HEADER_LEN, &first, false);
            let footer: &[u8] = &bytes[0..0];
            return assemble(name, block, footer);
        }
        let second: RawHeader = match read_header(bytes, second_at) {
            Ok(h) => h,
            Err(e) => { return Err(e); },
        };
        let second_len: u64 = second.body_length(true);
        if second_len > (bytes.len() - second_at - HEADER_LEN) as u64 {
            return Err(Error::TruncatedBody);
        }
        let footer_at: usize = second_at + HEADER_LEN + second_len as usize;
        let block: Block = read_block(bytes, second_at + HEADER_LEN, &second, true);
        match read_footer(bytes, footer_at) {
            None => Err(Error::TruncatedBody),
            Some((from, to)) => assemble(name, block, &bytes[from..to]),
        }
    }
}

/// Every zone that decodes is well formed: in particular its transitions
/// are in the order of their instants.
pub proof fn lemma_decoded_is_well_formed(name: Seq<char>, s: Seq<u8>)
    ensures
        spec_decode(name, s) matches Ok(zone) ==> zone.wf() && transitions_sorted(
            zone.transitions,
        ) && zone.name == name,
{
    if let Ok(zone) = spec_decode(name, s) {
        match zone.recurrence {
            Some(rule) => {
                let first = spec_header(s, 0)->Ok_0;
                let second_at = 44 + first.body_len(false);
                let second = spec_header(s, second_at)->Ok_0;
                let footer = spec_footer(s, second_at + 44 + second.body_len(true))->0;
                lemma_parse_rule_wf(footer);
            },
            None => {},
        }
    }
}

/// A header that lies within the first `k` bytes is read from them alone.
proof fn lemma_header_of_prefix(s: Seq<u8>, k: int, at: int)
    requires
        0 <= at,
        at + 44 <= k <= s.len(),
    ensures
        spec_header(s.take(k), at) == spec_header(s, at),
{
    let p = s.take(k);
    assert forall|i: int| at <= i < at + 44 implies p[i] == s[i] by {}
    assert(has_magic(p, at) == has_magic(s, at));
    assert(p[at + 4] == s[at + 4]);
    lemma_be_u32_agrees(p, s, at + 20);
    lemma_be_u32_agrees(p, s, at + 24);
    lemma_be_u32_agrees(p, s, at + 28);
    lemma_be_u32_agrees(p, s, at + 32);
    lemma_be_u32_agrees(p, s, at + 36);
    lemma_be_u32_agrees(p, s, at + 40);
}

/// A buffer that decodes no longer does once it is cut short anywhere
/// within the bytes that make up the zone: what is left lacks a whole
/// header, or a part of a body, or the end of the closing line.
pub proof fn lemma_truncated_is_rejected(name: Seq<char>, s: Seq<u8>, k: int)
    requires
        spec_decode(name, s) is Ok,
        0 <= k < encoded_len(s),
    ensures
        k < s.len(),
        spec_decode(name, s.take(k)) == Err::<TzView, Error>(Error::MalformedHeader)
            || spec_decode(name, s.take(k)) == Err::<TzView, Error>(Error::TruncatedBody),
{
    lemma_truncated_layout(s, k);
}

/// The same of the parts of a buffer.
proof fn lemma_truncated_layout(s: Seq<u8>, k: int)
    requires
        spec_layout(s) is Ok,
        0 <= k < encoded_len(s),
    ensures
        k < s.len(),
        spec_layout(s.take(k)) == Err::<(BlockView, Seq<u8>), Error>(Error::MalformedHeader)
            || spec_layout(s.take(k)) == Err::<(BlockView, Seq<u8>), Error>(
            Error::TruncatedBody,
        ),
{
    let p = s.take(k);
    let first = spec_header(s, 0)->Ok_0;
    let second_at = 44 + first.body_len(false);
    if first.version != 0 {
        let second = spec_header(s, second_at)->Ok_0;
        let footer_at = second_at + 44 + second.body_len(true);
        lemma_run_length_bounds(s, footer_at + 1, ByteClass::Line);
    }
    if k >= 44 {
        lemma_header_of_prefix(s, k, 0);
        if second_at <= k && first.version != 0 {
            let second = spec_header(s, second_at)->Ok_0;
            let footer_at = second_at + 44 + second.body_len(true);
            if second_at + 44 <= k {
                lemma_header_of_prefix(s, k, second_at);
                if footer_at < k {
                    lemma_run_length_cut(s, k, footer_at + 1, ByteClass::Line);
                }
            }
        }
    }
}

/// A buffer that decodes no longer does once the type index of one of its
/// transitions is replaced by a number that the table of types does not
/// reach: decoding then fails on that index.
pub proof fn lemma_corrupt_type_index_is_rejected(
    name: Seq<char>,
    s: Seq<u8>,
    i: int,
    index: u8,
)
    requires
        spec_decode(name, s) is Ok,
        0 <= i < spec_decode(name, s)->Ok_0.transitions.len(),
        index >= spec_decode(name, s)->Ok_0.types.len(),
    ensures
        0 <= type_index_position(s, i) < s.len(),
        spec_decode(name, s.update(type_index_position(s, i), index)) == Err::<TzView, Error>(
            Error::IndexOutOfRange,
        ),
{
    let at = type_index_position(s, i);
    let c = s.update(at, index);
    let first = spec_header(s, 0)->Ok_0;
    let second_at = 44 + first.body_len(false);
    assert(has_magic(c, 0) == has_magic(s, 0));
    lemma_header_untouched(s, at, index, 0);
    if first.version == 0 {
        let old_block = spec_block(s, 44, first, false);
        let new_block = spec_block(c, 44, first, false);
        lemma_block_with_corrupt_index(s, 44, first, false, i, index);
    } else {
        let second = spec_header(s, second_at)->Ok_0;
        let footer_at = second_at + 44 + second.body_len(true);
        lemma_header_untouched(s, at, index, second_at);
        lemma_run_length_bounds(s, footer_at + 1, ByteClass::Line);
        lemma_run_length_agrees(s, c, footer_at + 1, ByteClass::Line);
        let n = run_length(s, footer_at + 1, ByteClass::Line);
        assert(c.subrange(footer_at + 1, footer_at + 1 + n) =~= s.subrange(
            footer_at + 1,
            footer_at + 1 + n,
        ));
        lemma_block_with_corrupt_index(s, second_at + 44, second, true, i, index);
    }
}

/// Where in a buffer that decodes the type index of the `i`-th transition
/// of the zone lies.
pub open spec fn type_index_position(s: Seq<u8>, i: int) -> int {
    let first = spec_header(s, 0)->Ok_0;
    if first.version == 0 {
        first.indexes_at(44, false) + i
    } else {
        let second_at = 44 + first.body_len(false);
        spec_header(s, second_at)->Ok_0.indexes_at(second_at + 44, true) + i
    }
}

/// A header reads the same after a change to a byte that lies outside it.
proof fn lemma_header_untouched(s: Seq<u8>, at: int, b: u8, header_at: int)
    requires
        0 <= header_at,
        header_at + 44 <= s.len(),
        0 <= at < s.len(),
        at < header_at || header_at + 44 <= at,
    ensures
        spec_header(s.update(at, b), header_at) == spec_header(s, header_at),
{
    let c = s.update(at, b);
    assert(has_magic(c, header_at) == has_magic(s, header_at));
    lemma_be_u32_agrees(c, s, header_at + 20);
    lemma_be_u32_agrees(c, s, header_at + 24);
    lemma_be_u32_agrees(c, s, header_at + 28);
    lemma_be_u32_agrees(c, s, header_at + 32);
    lemma_be_u32_agrees(c, s, header_at + 36);
    lemma_be_u32_agrees(c, s, header_at + 40);
}

/// A block whose `i`-th type index is replaced holds the same instants,
/// types, designations and leap seconds, and the new index at `i`.
proof fn lemma_block_with_corrupt_index(
    s: Seq<u8>,
    body: int,
    h: RawHeader,
    wide: bool,
    i: int,
    index: u8,
)
    requires
        0 <= body,
        body + h.body_len(wide) <= s.len(),
        0 <= i < h.timecnt,
    ensures
        ({
            let c = s.update(h.indexes_at(body, wide) + i, index);
            let old_block = spec_block(s, body, h, wide);
            let new_block = spec_block(c, body, h, wide);
            &&& new_block.types == old_block.types
            &&& new_block.designations == old_block.designations
            &&& new_block.leap_seconds == old_block.leap_seconds
            &&& new_block.transitions.len() == old_block.transitions.len()
            &&& new_block.transitions[i].type_index == index
            &&& forall|j: int|
                0 <= j < h.timecnt ==> (#[trigger] new_block.transitions[j]).instant
                    == old_block.transitions[j].instant
        }),
{
    let at = h.indexes_at(body, wide) + i;
    let c = s.update(at, index);
    let old_block = spec_block(s, body, h, wide);
    let new_block = spec_block(c, body, h, wide);
    assert forall|j: int| 0 <= j < h.timecnt implies (#[trigger] new_block.transitions[j]).instant
        == old_block.transitions[j].instant by {
        let from = if wide {
            body + 8 * j
        } else {
            body + 4 * j
        };
        lemma_be_instant_agrees(c, s, from, wide);
    }
    assert forall|j: int| 0 <= j < h.typecnt implies type_at(c, body, h, wide, j) == type_at(
        s,
        body,
        h,
        wide,
        j,
    ) by {
        lemma_be_u32_agrees(c, s, h.types_at(body, wide) + 6 * j);
    }
    assert(new_block.types =~= old_block.types);
    assert(new_block.designations =~= old_block.designations);
    assert forall|j: int| 0 <= j < h.leapcnt implies leap_at(c, body, h, wide, j) == leap_at(
        s,
        body,
        h,
        wide,
        j,
    ) by {
        let from = h.leaps_at(body, wide) + if wide {
            12 * j
        } else {
            8 * j
        };
        lemma_be_instant_agrees(c, s, from, wide);
        lemma_be_u32_agrees(
            c,
            s,
            from + if wide {
                8int
            } else {
                4int
            },
        );
    }
    assert(new_block.leap_seconds =~= old_block.leap_seconds);
}

/// A block is read from its own bytes alone: buffers that agree on them
/// hold the same block.
proof fn lemma_block_agrees(a: Seq<u8>, b: Seq<u8>, body: int, h: RawHeader, wide: bool)
    requires
        0 <= body,
        body + h.body_len(wide) <= a.len(),
        body + h.body_len(wide) <= b.len(),
        forall|i: int| body <= i < body + h.body_len(wide) ==> a[i] == b[i],
    ensures
        spec_block(a, body, h, wide) == spec_block(b, body, h, wide),
{
    let x = spec_block(a, body, h, wide);
    let y = spec_block(b, body, h, wide);
    assert forall|j: int| 0 <= j < h.timecnt implies transition_at(a, body, h, wide, j)
        == transition_at(b, body, h, wide, j) by {
        let from = if wide {
            body + 8 * j
        } else {
            body + 4 * j
        };
        lemma_be_instant_agrees(a, b, from, wide);
    }
    assert(x.transitions =~= y.transitions);
    assert forall|j: int| 0 <= j < h.typecnt implies type_at(a, body, h, wide, j) == type_at(
        b,
        body,
        h,
        wide,
        j,
    ) by {
        lemma_be_u32_agrees(a, b, h.types_at(body, wide) + 6 * j);
    }
    assert(x.types =~= y.types);
    assert(x.designations =~= y.designations);
    assert forall|j: int| 0 <= j < h.leapcnt implies leap_at(a, body, h, wide, j) == leap_at(
        b,
        body,
        h,
        wide,
        j,
    ) by {
        let from = h.leaps_at(body, wide) + if wide {
            12 * j
        } else {
            8 * j
        };
        lemma_be_instant_agrees(a, b, from, wide);
        lemma_be_u32_agrees(
            a,
            b,
            from + if wide {
                8int
            } else {
                4int
            },
        );
    }
    assert(x.leap_seconds =~= y.leap_seconds);
}

/// The line after a second block is read from its own bytes alone.
proof fn lemma_footer_of_prefix(s: Seq<u8>, k: int, at: int)
    requires
        0 <= at,
        spec_footer(s, at) is Some,
        at + 1 + run_length(s, at + 1, ByteClass::Line) < k <= s.len(),
    ensures
        spec_footer(s.take(k), at) == spec_footer(s, at),
{
    let p = s.take(k);
    lemma_run_length_bounds(s, at + 1, ByteClass::Line);
    lemma_run_length_agrees(s, p, at + 1, ByteClass::Line);
    let n = run_length(s, at + 1, ByteClass::Line);
    assert(p.subrange(at + 1, at + 1 + n) =~= s.subrange(at + 1, at + 1 + n));
}

/// A block that lies within the first `k` bytes is read from them alone.
proof fn lemma_block_of_prefix(s: Seq<u8>, k: int, body: int, h: RawHeader, wide: bool)
    requires
        0 <= body,
        body + h.body_len(wide) <= k <= s.len(),
    ensures
        spec_block(s.take(k), body, h, wide) == spec_block(s, body, h, wide),
{
    let p = s.take(k);
    assert forall|i: int| body <= i < body + h.body_len(wide) implies p[i] == s[i] by {}
    lemma_block_agrees(p, s, body, h, wide);
}

/// The bytes that make up the zone decide alone: a buffer that decodes
/// gives the same zone when it is cut anywhere behind them.
pub proof fn lemma_bytes_after_the_zone_are_ignored(name: Seq<char>, s: Seq<u8>, k: int)
    requires
        spec_decode(name, s) is Ok,
        encoded_len(s) <= k <= s.len(),
    ensures
        spec_decode(name, s.take(k)) == spec_decode(name, s),
{
    lemma_layout_of_prefix(s, k);
}

/// The same of the parts of a buffer.
proof fn lemma_layout_of_prefix(s: Seq<u8>, k: int)
    requires
        spec_layout(s) is Ok,
        encoded_len(s) <= k <= s.len(),
    ensures
        spec_layout(s.take(k)) == spec_layout(s),
{
    let p = s.take(k);
    let first = spec_header(s, 0)->Ok_0;
    let second_at = 44 + first.body_len(false);
    if first.version != 0 {
        let second = spec_header(s, second_at)->Ok_0;
        lemma_run_length_bounds(s, second_at + 44 + second.body_len(true) + 1, ByteClass::Line);
    }
    lemma_header_of_prefix(s, k, 0);
    assert(spec_header(p, 0) == spec_header(s, 0));
    if first.version == 0 {
        lemma_block_of_prefix(s, k, 44, first, false);
    } else {
        let second = spec_header(s, second_at)->Ok_0;
        let footer_at = second_at + 44 + second.body_len(true);
        lemma_run_length_bounds(s, footer_at + 1, ByteClass::Line);
        lemma_header_of_prefix(s, k, second_at);
        assert(spec_header(p, second_at) == spec_header(s, second_at));
        lemma_block_of_prefix(s, k, second_at + 44, second, true);
        lemma_footer_of_prefix(s, k, footer_at);
    }
}

} // verus!
