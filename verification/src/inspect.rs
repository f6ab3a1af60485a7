//! Raw database-column inspection.
//!
//! The operational tool walks a column of the storage engine and reports per
//! entry what the chosen target asks for: value sizes, a grand total, the
//! values themselves, or gaps in the numeric key sequence. The walk and the
//! printing are I/O and live outside this crate; the per-entry bookkeeping —
//! counting, totalling, decoding the numeric key, detecting gaps, and hex
//! display of keys — is verified here.

use vstd::prelude::*;

verus! {

/// What the inspection reports for each entry of the column.
#[derive(Clone, Copy, Debug, PartialEq, Eq, Structural)]
pub enum InspectTarget {
    /// One line per entry: the key in hex and the value's size.
    ValueSizes,
    /// Only the final total of value sizes.
    ValueTotal,
    /// Each value written out to a file named after the key.
    Values,
    /// Gaps in the numeric key sequence.
    Gaps,
}

/// Which target a command-line tag selects.
pub open spec fn target_of_tag(tag: Seq<char>) -> Option<InspectTarget> {
    if tag == "sizes"@ {
        Some(InspectTarget::ValueSizes)
    } else if tag == "total"@ {
        Some(InspectTarget::ValueTotal)
    } else if tag == "values"@ {
        Some(InspectTarget::Values)
    } else if tag == "gaps"@ {
        Some(InspectTarget::Gaps)
    } else {
        None
    }
}

impl InspectTarget {
    /// Parse a command-line tag; exactly the tags of [`Self::variant_tags`]
    /// are recognised.
    pub fn from_tag(tag: &str) -> (r: Option<InspectTarget>)
        ensures
            r == target_of_tag(tag@),
    {
        let owned: String = tag.to_owned();
        if owned == "sizes".to_owned() {
            Some(InspectTarget::ValueSizes)
        } else if owned == "total".to_owned() {
            Some(InspectTarget::ValueTotal)
        } else if owned == "values".to_owned() {
            Some(InspectTarget::Values)
        } else if owned == "gaps".to_owned() {
            Some(InspectTarget::Gaps)
        } else {
            None
        }
    }

    /// The recognised tags, in the order the command surface lists them.
    pub fn variant_tags() -> (r: Vec<&'static str>)
        ensures
            r@.len() == 4,
            r@[0]@ == "sizes"@,
            r@[1]@ == "total"@,
            r@[2]@ == "values"@,
            r@[3]@ == "gaps"@,
    {
        let mut v: Vec<&'static str> = Vec::new();
        v.push("sizes");
        v.push("total");
        v.push("values");
        v.push("gaps");
        v
    }
}

/// The integer a big-endian byte string denotes.
pub open spec fn be_value(bytes: Seq<u8>) -> int
    decreases bytes.len(),
{
    if bytes.len() == 0 {
        0
    } else {
        be_value(bytes.drop_last()) * 256 + bytes.last()
    }
}

/// The number of values a byte string of length `len` can denote.
pub open spec fn be_span(len: nat) -> int
    decreases len,
{
    if len == 0 {
        1
    } else {
        256 * be_span((len - 1) as nat)
    }
}

proof fn lemma_be_span_pos(len: nat)
    ensures
        be_span(len) >= 1,
    decreases len,
{
    if len > 0 {
        lemma_be_span_pos((len - 1) as nat);
    }
}

proof fn lemma_be_span_monotone(a: nat, b: nat)
    requires
        a <= b,
    ensures
        be_span(a) <= be_span(b),
    decreases b,
{
    if a < b {
        lemma_be_span_monotone(a, (b - 1) as nat);
        lemma_be_span_pos((b - 1) as nat);
    }
}

proof fn lemma_be_value_bound(bytes: Seq<u8>)
    ensures
        0 <= be_value(bytes) < be_span(bytes.len()),
    decreases bytes.len(),
{
    if bytes.len() > 0 {
        lemma_be_value_bound(bytes.drop_last());
    }
}

/// The numeric key of an entry: the last 8 bytes of its key, read as a
/// big-endian integer. Keys shorter than 8 bytes have no numeric key.
pub fn be_u64_of_tail(key: &Vec<u8>) -> (r: u64)
    requires
        key.len() >= 8,
    ensures
        r as int == be_value(key@.subrange(key@.len() - 8, key@.len() as int)),
{
    let n: usize = key.len();
    let start: usize = n - 8;
    let mut r: u64 = 0;
    let mut i: usize = start;
    while i < n
        invariant
            key.len() == n,
            8 <= n,
            start == n - 8,
            start <= i <= n,
            r as int == be_value(key@.subrange(start as int, i as int)),
        decreases n - i,
    {
        proof {
            lemma_be_value_bound(key@.subrange(start as int, i as int));
            lemma_be_span_monotone((i - start) as nat, 7);
            assert(be_span(0) == 1);
            assert(be_span(1) == 256);
            assert(be_span(2) == 0x10000);
            assert(be_span(3) == 0x1000000);
            assert(be_span(4) == 0x100000000);
            assert(be_span(5) == 0x10000000000);
            assert(be_span(6) == 0x1000000000000);
            assert(be_span(7) == 0x100000000000000);
            assert(key@.subrange(start as int, i + 1).drop_last() =~= key@.subrange(
                start as int,
                i as int,
            ));
            assert(key@.subrange(start as int, i + 1).last() == key@[i as int]);
        }
        r = r * 256 + (key[i] as u64);
        i = i + 1;
    }
    r
}

/// A gap between consecutive numeric keys of a column.
#[derive(Clone, Copy, Debug, PartialEq, Eq, Structural)]
pub struct GapReport {
    /// The key before the gap.
    pub prev_key: u64,
    /// The key after the gap.
    pub next_key: u64,
    /// How many entries preceded the gap.
    pub offset: u64,
}

/// Running summary of one column walk.
pub struct ColumnScan {
    /// Entries seen so far.
    pub num_keys: u64,
    /// Sum of the sizes of the values seen so far.
    pub total_bytes: u64,
    /// The previous entry's numeric key (0 before the first entry), for gap
    /// detection.
    pub prev_key: u64,
    /// Whether any gap has been found so far.
    pub found_gaps: bool,
}

impl ColumnScan {
    /// A scan that has seen nothing yet.
    pub fn new() -> (s: ColumnScan)
        ensures
            s.num_keys == 0,
            s.total_bytes == 0,
            s.prev_key == 0,
            !s.found_gaps,
    {
        ColumnScan { num_keys: 0, total_bytes: 0, prev_key: 0, found_gaps: false }
    }

    /// Count one entry and the size of its value.
    pub fn record_entry(&mut self, value_len: u64)
        requires
            old(self).num_keys < u64::MAX,
            old(self).total_bytes + value_len <= u64::MAX,
        ensures
            final(self).num_keys == old(self).num_keys + 1,
            final(self).total_bytes == old(self).total_bytes + value_len,
            final(self).prev_key == old(self).prev_key,
            final(self).found_gaps == old(self).found_gaps,
    {
        self.num_keys = self.num_keys + 1;
        self.total_bytes = self.total_bytes + value_len;
    }

    /// Compare one entry's numeric key against the previous one; report a gap
    /// when at least one key is missing in between. Called before
    /// [`Self::record_entry`] for the same entry, so `num_keys` is still the
    /// number of entries before this one.
    pub fn check_gap(&mut self, numeric_key: u64) -> (gap: Option<GapReport>)
        ensures
            final(self).prev_key == numeric_key,
            final(self).num_keys == old(self).num_keys,
            final(self).total_bytes == old(self).total_bytes,
            gap is Some <==> numeric_key > old(self).prev_key + 1,
            gap matches Some(g) ==> g == (GapReport {
                prev_key: old(self).prev_key,
                next_key: numeric_key,
                offset: old(self).num_keys,
            }),
            final(self).found_gaps == (old(self).found_gaps || numeric_key > old(self).prev_key
                + 1),
    {
        let gap: Option<GapReport> = if numeric_key > self.prev_key && numeric_key - self.prev_key
            > 1 {
            self.found_gaps = true;
            Some(
                GapReport {
                    prev_key: self.prev_key,
                    next_key: numeric_key,
                    offset: self.num_keys,
                },
            )
        } else {
            None
        };
        self.prev_key = numeric_key;
        gap
    }
}

/// The sixteen lowercase hex digits, by nibble value.
pub open spec fn hex_digit(n: u8) -> char
    recommends
        n < 16,
{
    if n == 0 {
        '0'
    } else if n == 1 {
        '1'
    } else if n == 2 {
        '2'
    } else if n == 3 {
        '3'
    } else if n == 4 {
        '4'
    } else if n == 5 {
        '5'
    } else if n == 6 {
        '6'
    } else if n == 7 {
        '7'
    } else if n == 8 {
        '8'
    } else if n == 9 {
        '9'
    } else if n == 10 {
        'a'
    } else if n == 11 {
        'b'
    } else if n == 12 {
        'c'
    } else if n == 13 {
        'd'
    } else if n == 14 {
        'e'
    } else {
        'f'
    }
}

/// The lowercase hex encoding of a byte string: two digits per byte, high
/// nibble first.
pub open spec fn hex_of(bytes: Seq<u8>) -> Seq<char>
    decreases bytes.len(),
{
    if bytes.len() == 0 {
        Seq::empty()
    } else {
        hex_of(bytes.drop_last()) + seq![
            hex_digit(bytes.last() / 16),
            hex_digit(bytes.last() % 16),
        ]
    }
}

/// Relies on hex::encode of the hex crate: encodes a byte string as lowercase
/// hex, two digits per byte, high nibble first.
#[verifier::external_body]
fn hex_encode(bytes: &Vec<u8>) -> (r: String)
    ensures
        r@ == hex_of(bytes@),
{
    hex::encode(bytes)
}

/// Record one entry of the column and return its key as lowercase hex, for
/// the size listing and for naming the value's output file.
pub fn record_entry_with_key(scan: &mut ColumnScan, key: &Vec<u8>, value_len: u64) -> (key_hex:
    String)
    requires
        old(scan).num_keys < u64::MAX,
        old(scan).total_bytes + value_len <= u64::MAX,
    ensures
        key_hex@ == hex_of(key@),
        final(scan).num_keys == old(scan).num_keys + 1,
        final(scan).total_bytes == old(scan).total_bytes + value_len,
        final(scan).prev_key == old(scan).prev_key,
        final(scan).found_gaps == old(scan).found_gaps,
{
    let key_hex: String = hex_encode(key);
    scan.record_entry(value_len);
    key_hex
}

} // verus!
