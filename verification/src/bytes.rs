//! Big-endian integers as they lie in a byte buffer.

use vstd::prelude::*;

verus! {

/// The unsigned 32-bit number whose four bytes start at `at`, most
/// significant byte first.
pub open spec fn be_u32(s: Seq<u8>, at: int) -> int {
    s[at] * 0x100_0000 + s[at + 1] * 0x1_0000 + s[at + 2] * 0x100 + s[at + 3]
}

/// The two's complement reading of the same four bytes.
pub open spec fn be_i32(s: Seq<u8>, at: int) -> int {
    let u = be_u32(s, at);
    if u >= 0x8000_0000 {
        u - 0x1_0000_0000
    } else {
        u
    }
}

/// The unsigned 64-bit number whose eight bytes start at `at`.
pub open spec fn be_u64(s: Seq<u8>, at: int) -> int {
    be_u32(s, at) * 0x1_0000_0000 + be_u32(s, at + 4)
}

/// The two's complement reading of the same eight bytes.
pub open spec fn be_i64(s: Seq<u8>, at: int) -> int {
    let u = be_u64(s, at);
    if u >= 0x8000_0000_0000_0000 {
        u - 0x1_0000_0000_0000_0000
    } else {
        u
    }
}

/// An instant as the format stores it: four bytes in a first block, eight
/// in a second one, signed either way.
pub open spec fn be_instant(s: Seq<u8>, at: int, wide: bool) -> int {
    if wide {
        be_i64(s, at)
    } else {
        be_i32(s, at)
    }
}

/// The number of bytes that an instant takes.
pub open spec fn instant_width(wide: bool) -> int {
    if wide {
        8
    } else {
        4
    }
}

/// Reads the unsigned 32-bit number at `at`.
pub fn read_u32(bytes: &[u8], at: usize) -> (value: u32)
    requires
        at + 4 <= bytes@.len(),
    ensures
        value == be_u32(bytes@, at as int),
{
    let b0: u32 = bytes[at] as u32;
    let b1: u32 = bytes[at + 1] as u32;
    let b2: u32 = bytes[at + 2] as u32;
    let b3: u32 = bytes[at + 3] as u32;
    b0 * 0x100_0000 + b1 * 0x1_0000 + b2 * 0x100 + b3
}

/// Reads the signed 32-bit number at `at`.
pub fn read_i32(bytes: &[u8], at: usize) -> (value: i32)
    requires
        at + 4 <= bytes@.len(),
    ensures
        value == be_i32(bytes@, at as int),
{
    let u: u32 = read_u32(bytes, at);
    if u >= 0x8000_0000 {
        let low: i32 = (u - 0x8000_0000) as i32;
        low - 0x7fff_ffff - 1
    } else {
        u as i32
    }
}

/// Reads the signed 64-bit number at `at`.
pub fn read_i64(bytes: &[u8], at: usize) -> (value: i64)
    requires
        at + 8 <= bytes@.len(),
    ensures
        value == be_i64(bytes@, at as int),
{
    assert(bytes@.len() == bytes.len());
    let high: u64 = read_u32(bytes, at) as u64;
    let low: u64 = read_u32(bytes, at + 4) as u64;
    let u: u64 = high * 0x1_0000_0000 + low;
    if u >= 0x8000_0000_0000_0000 {
        let rest: i64 = (u - 0x8000_0000_0000_0000) as i64;
        rest - 0x7fff_ffff_ffff_ffff - 1
    } else {
        u as i64
    }
}

/// Reads an instant of either width; a narrow one is widened with its sign.
pub fn read_instant(bytes: &[u8], at: usize, wide: bool) -> (value: i64)
    requires
        at + instant_width(wide) <= bytes@.len(),
    ensures
        value == be_instant(bytes@, at as int, wide),
{
    if wide {
        read_i64(bytes, at)
    } else {
        read_i32(bytes, at) as i64
    }
}

/// Bytes that agree on a range give the same number there.
pub proof fn lemma_be_u32_agrees(a: Seq<u8>, b: Seq<u8>, at: int)
    requires
        0 <= at,
        at + 4 <= a.len(),
        at + 4 <= b.len(),
        forall|i: int| at <= i < at + 4 ==> a[i] == b[i],
    ensures
        be_u32(a, at) == be_u32(b, at),
        be_i32(a, at) == be_i32(b, at),
{
}

/// Bytes that agree on a range give the same instant there.
pub proof fn lemma_be_instant_agrees(a: Seq<u8>, b: Seq<u8>, at: int, wide: bool)
    requires
        0 <= at,
        at + instant_width(wide) <= a.len(),
        at + instant_width(wide) <= b.len(),
        forall|i: int| at <= i < at + instant_width(wide) ==> a[i] == b[i],
    ensures
        be_instant(a, at, wide) == be_instant(b, at, wide),
{
    if wide {
        lemma_be_u32_agrees(a, b, at);
        lemma_be_u32_agrees(a, b, at + 4);
    } else {
        lemma_be_u32_agrees(a, b, at);
    }
}

/// The kinds of byte that are read in runs.
#[derive(Clone, Copy, Debug, PartialEq, Eq)]
pub enum ByteClass {
    /// `0` to `9`.
    Digit,
    /// `A` to `Z` and `a` to `z`.
    Letter,
    /// Every byte but `>`, which closes a quoted designation.
    Quoted,
    /// Every byte but the newline.
    Line,
    /// Every byte but NUL, which ends a designation in its table.
    Text,
}

/// Whether byte `b` is of the class.
pub open spec fn in_class(b: u8, class: ByteClass) -> bool {
    match class {
        ByteClass::Digit => 0x30 <= b <= 0x39,
        ByteClass::Letter => (0x41 <= b <= 0x5a) || (0x61 <= b <= 0x7a),
        ByteClass::Quoted => b != 0x3e,
        ByteClass::Line => b != 0x0a,
        ByteClass::Text => b != 0,
    }
}

/// The number of bytes of `class` that stand in a row from `pos` on.
pub open spec fn run_length(s: Seq<u8>, pos: int, class: ByteClass) -> int
    decreases s.len() - pos,
{
    if 0 <= pos < s.len() && in_class(s[pos], class) {
        1 + run_length(s, pos + 1, class)
    } else {
        0
    }
}

/// A run ends within the text.
pub proof fn lemma_run_length_bounds(s: Seq<u8>, pos: int, class: ByteClass)
    requires
        0 <= pos <= s.len(),
    ensures
        0 <= run_length(s, pos, class) <= s.len() - pos,
    decreases s.len() - pos,
{
    if pos < s.len() && in_class(s[pos], class) {
        lemma_run_length_bounds(s, pos + 1, class);
    }
}

/// Every byte of a run is of the run's class.
pub proof fn lemma_run_members(s: Seq<u8>, pos: int, class: ByteClass, i: int)
    requires
        0 <= pos <= i < pos + run_length(s, pos, class),
    ensures
        i < s.len(),
        in_class(s[i], class),
    decreases i - pos,
{
    if i > pos {
        lemma_run_members(s, pos + 1, class, i);
    }
}

/// Whether byte `b` is of the class.
pub fn byte_in_class(b: u8, class: ByteClass) -> (member: bool)
    ensures
        member == in_class(b, class),
{
    match class {
        ByteClass::Digit => 0x30 <= b && b <= 0x39,
        ByteClass::Letter => (0x41 <= b && b <= 0x5a) || (0x61 <= b && b <= 0x7a),
        ByteClass::Quoted => b != 0x3e,
        ByteClass::Line => b != 0x0a,
        ByteClass::Text => b != 0,
    }
}

/// Where the run of `class` that starts at `pos` ends.
pub fn scan_run(bytes: &[u8], pos: usize, class: ByteClass) -> (end: usize)
    requires
        pos <= bytes@.len(),
    ensures
        end == pos + run_length(bytes@, pos as int, class),
        pos <= end <= bytes@.len(),
{
    let mut i: usize = pos;
    while i < bytes.len() && byte_in_class(bytes[i], class)
        invariant
            pos <= i <= bytes@.len(),
            run_length(bytes@, pos as int, class) == (i - pos) + run_length(
                bytes@,
                i as int,
                class,
            ),
        decreases bytes@.len() - i,
    {
        i = i + 1;
    }
    i
}

/// The bytes from `from` up to `to`, in a vector of their own.
pub fn copy_range(bytes: &[u8], from: usize, to: usize) -> (copy: Vec<u8>)
    requires
        from <= to <= bytes@.len(),
    ensures
        copy@ == bytes@.subrange(from as int, to as int),
{
    let mut copy: Vec<u8> = Vec::new();
    let mut i: usize = from;
    while i < to
        invariant
            from <= i <= to <= bytes@.len(),
            copy@ == bytes@.subrange(from as int, i as int),
        decreases to - i,
    {
        copy.push(bytes[i]);
        i = i + 1;
    }
    copy
}


/// A run reads only the bytes from its start to the first byte past it:
/// texts that agree there have the same run.
pub proof fn lemma_run_length_agrees(a: Seq<u8>, b: Seq<u8>, pos: int, class: ByteClass)
    requires
        0 <= pos <= a.len(),
        pos + run_length(a, pos, class) < a.len(),
        pos + run_length(a, pos, class) < b.len(),
        forall|i: int| pos <= i <= pos + run_length(a, pos, class) ==> a[i] == b[i],
    ensures
        run_length(b, pos, class) == run_length(a, pos, class),
    decreases a.len() - pos,
{
    lemma_run_length_bounds(a, pos, class);
    assert(a[pos] == b[pos]);
    if in_class(a[pos], class) {
        assert(run_length(a, pos, class) == 1 + run_length(a, pos + 1, class));
        lemma_run_length_agrees(a, b, pos + 1, class);
    }
}

/// A run that a shorter text cuts off reaches that text's end.
pub proof fn lemma_run_length_cut(a: Seq<u8>, k: int, pos: int, class: ByteClass)
    requires
        0 <= pos <= k <= a.len(),
        k <= pos + run_length(a, pos, class),
    ensures
        run_length(a.take(k), pos, class) == k - pos,
    decreases k - pos,
{
    if pos < k {
        lemma_run_length_cut(a, k, pos + 1, class);
    }
}

} // verus!
