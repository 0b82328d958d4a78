//! The text format of memory dumps: one record per line, each an address of
//! four hex digits followed by bytes of one or two hex digits, separated by
//! single spaces.
//!
//! ```text
//! 0600: a9 01 8d 00 02
//! 0605: 60
//! ```
//!
//! Whatever follows the four digits of the address up to the first space
//! (the colon above) is ignored. Blanks at either end of a line are ignored.
use vstd::prelude::*;

verus! {

/// One line of a dump: where its bytes go, and the bytes.
#[derive(Debug)]
pub struct HexRecord {
    pub addr: u16,
    pub bytes: Vec<u8>,
}

impl HexRecord {
    pub open spec fn view(&self) -> (u16, Seq<u8>) {
        (self.addr, self.bytes@)
    }
}

/// The records as values, in order.
pub open spec fn records_view(records: Seq<HexRecord>) -> Seq<(u16, Seq<u8>)> {
    Seq::new(records.len(), |i: int| records[i]@)
}

/// The byte that ends a line.
pub const LINE_FEED: u8 = 0x0a;

/// The byte that separates the fields of a record.
pub const SPACE: u8 = 0x20;

/// The value of a hex digit, upper or lower case.
pub open spec fn hex_digit(c: u8) -> Option<u8> {
    if 0x30 <= c <= 0x39 {
        Some((c - 0x30) as u8)
    } else if 0x61 <= c <= 0x66 {
        Some((c - 0x61 + 10) as u8)
    } else if 0x41 <= c <= 0x46 {
        Some((c - 0x41 + 10) as u8)
    } else {
        None
    }
}

/// Space, tab and carriage return: what is ignored at the ends of a line.
pub open spec fn is_blank(c: u8) -> bool {
    c == SPACE || c == 0x09 || c == 0x0d
}

/// Where the line that starts at `from` ends: at the next line feed, or at
/// the end of the text.
pub open spec fn line_end(text: Seq<u8>, from: int) -> int
    decreases text.len() - from,
{
    if 0 <= from < text.len() && text[from] != LINE_FEED {
        line_end(text, from + 1)
    } else {
        from
    }
}

/// The first position in `[from, to)` that holds no blank, or `to`.
pub open spec fn skip_blanks(text: Seq<u8>, from: int, to: int) -> int
    decreases to - from,
{
    if 0 <= from < to <= text.len() && is_blank(text[from]) {
        skip_blanks(text, from + 1, to)
    } else {
        from
    }
}

/// The end of `[from, to)` once the blanks at its end are cut off.
pub open spec fn trim_back(text: Seq<u8>, from: int, to: int) -> int
    decreases to - from,
{
    if 0 <= from < to <= text.len() && is_blank(text[to - 1]) {
        trim_back(text, from, to - 1)
    } else {
        to
    }
}

/// The first position in `[from, to)` that holds a space, or `to`.
pub open spec fn token_end(text: Seq<u8>, from: int, to: int) -> int
    decreases to - from,
{
    if 0 <= from < to <= text.len() && text[from] != SPACE {
        token_end(text, from + 1, to)
    } else {
        from
    }
}

/// The bytes listed in `[from, to)`: each a space followed by one or two
/// hex digits.
pub open spec fn listed_bytes(text: Seq<u8>, from: int, to: int) -> Option<Seq<u8>>
    decreases to - from,
{
    if !(0 <= from < to <= text.len()) {
        Some(Seq::empty())
    } else if text[from] != SPACE || from + 1 >= to {
        None
    } else {
        match hex_digit(text[from + 1]) {
            None => None,
            Some(first) => {
                let second = if from + 2 < to {
                    hex_digit(text[from + 2])
                } else {
                    None
                };
                let (byte, next) = match second {
                    Some(low) => ((first * 16 + low) as u8, from + 3),
                    None => (first, from + 2),
                };
                if next < to && text[next] != SPACE {
                    None
                } else {
                    match listed_bytes(text, next, to) {
                        None => None,
                        Some(rest) => Some(seq![byte] + rest),
                    }
                }
            },
        }
    }
}

/// The address that the four hex digits at `at` spell.
pub open spec fn address_at(text: Seq<u8>, at: int) -> Option<u16> {
    match (
        hex_digit(text[at]),
        hex_digit(text[at + 1]),
        hex_digit(text[at + 2]),
        hex_digit(text[at + 3]),
    ) {
        (Some(a), Some(b), Some(c), Some(d)) => Some((a * 4096 + b * 256 + c * 16 + d) as u16),
        _ => None,
    }
}

/// The record on the line `[from, to)`, or `None` where the line is not a
/// record.
pub open spec fn record_at(text: Seq<u8>, from: int, to: int) -> Option<(u16, Seq<u8>)> {
    let start = skip_blanks(text, from, to);
    let end = trim_back(text, start, to);
    if end - start < 4 {
        None
    } else {
        match address_at(text, start) {
            None => None,
            Some(addr) => match listed_bytes(text, token_end(text, start + 4, end), end) {
                None => None,
                Some(bytes) => Some((addr, bytes)),
            },
        }
    }
}

/// The records of the lines from position `from` on, or the number of the
/// first line that is not a record; `line` is the number of the line at
/// `from`. A line feed at the very end of the text starts no line.
pub open spec fn records_from(text: Seq<u8>, from: int, line: nat) -> Result<
    Seq<(u16, Seq<u8>)>,
    nat,
>
    decreases text.len() + 1 - from,
{
    if !(0 <= from < text.len()) {
        Ok(Seq::empty())
    } else {
        let end = line_end(text, from);
        proof {
            lemma_line_end_bounds(text, from);
        }
        match record_at(text, from, end) {
            None => Err(line),
            Some(record) => match records_from(text, end + 1, line + 1) {
                Err(bad) => Err(bad),
                Ok(rest) => Ok(seq![record] + rest),
            },
        }
    }
}

/// The records of a dump, or the number of its first malformed line,
/// counting from zero.
pub open spec fn records_of(text: Seq<u8>) -> Result<Seq<(u16, Seq<u8>)>, nat> {
    records_from(text, 0, 0)
}

/// The line that starts at `from` ends no earlier than `from` and no later
/// than the text.
pub proof fn lemma_line_end_bounds(text: Seq<u8>, from: int)
    requires
        0 <= from <= text.len(),
    ensures
        from <= line_end(text, from) <= text.len(),
    decreases text.len() - from,
{
    if from < text.len() && text[from] != LINE_FEED {
        lemma_line_end_bounds(text, from + 1);
    }
}

/// The value of a hex digit.
pub fn hex_value(c: u8) -> (value: Option<u8>)
    ensures
        value == hex_digit(c),
        value is Some ==> value.unwrap() < 16,
{
    if 0x30 <= c && c <= 0x39 {
        Some(c - 0x30)
    } else if 0x61 <= c && c <= 0x66 {
        Some(c - 0x61 + 10)
    } else if 0x41 <= c && c <= 0x46 {
        Some(c - 0x41 + 10)
    } else {
        None
    }
}

/// Whether the byte is a space, a tab or a carriage return.
fn blank(c: u8) -> (b: bool)
    ensures
        b == is_blank(c),
{
    c == SPACE || c == 0x09 || c == 0x0d
}

/// Find where the line that starts at `from` ends.
fn find_line_end(text: &[u8], from: usize) -> (end: usize)
    requires
        from <= text@.len(),
    ensures
        end == line_end(text@, from as int),
        from <= end <= text@.len(),
{
    let mut end = from;
    while end < text.len() && text[end] != LINE_FEED
        invariant
            from <= end <= text@.len(),
            line_end(text@, from as int) == line_end(text@, end as int),
        decreases text@.len() - end,
    {
        end += 1;
    }
    end
}

/// Cut the blanks off both ends of `[from, to)`.
fn trim(text: &[u8], from: usize, to: usize) -> (r: (usize, usize))
    requires
        from <= to <= text@.len(),
    ensures
        r.0 == skip_blanks(text@, from as int, to as int),
        r.1 == trim_back(text@, r.0 as int, to as int),
        from <= r.0 <= r.1 <= to,
{
    let mut start = from;
    while start < to && blank(text[start])
        invariant
            from <= start <= to <= text@.len(),
            skip_blanks(text@, from as int, to as int) == skip_blanks(
                text@,
                start as int,
                to as int,
            ),
        decreases to - start,
    {
        start += 1;
    }
    let mut end = to;
    while start < end && blank(text[end - 1])
        invariant
            start <= end <= to <= text@.len(),
            trim_back(text@, start as int, to as int) == trim_back(
                text@,
                start as int,
                end as int,
            ),
        decreases end - start,
    {
        end -= 1;
    }
    (start, end)
}

/// Read the four hex digits of an address.
fn read_address(text: &[u8], at: usize) -> (addr: Option<u16>)
    requires
        at + 4 <= text@.len(),
    ensures
        addr == address_at(text@, at as int),
{
    let a = hex_value(text[at]);
    let b = hex_value(text[at + 1]);
    let c = hex_value(text[at + 2]);
    let d = hex_value(text[at + 3]);
    match (a, b, c, d) {
        (Some(a), Some(b), Some(c), Some(d)) => Some(
            a as u16 * 4096 + b as u16 * 256 + c as u16 * 16 + d as u16,
        ),
        _ => None,
    }
}

/// Read the bytes listed in `[from, to)`.
fn read_bytes(text: &[u8], from: usize, to: usize) -> (r: Option<Vec<u8>>)
    requires
        from <= to <= text@.len(),
    ensures
        match listed_bytes(text@, from as int, to as int) {
            Some(bytes) => r is Some && r.unwrap()@ == bytes,
            None => r is None,
        },
{
    let mut bytes: Vec<u8> = Vec::new();
    let mut at = from;
    while at < to
        invariant
            from <= at <= to <= text@.len(),
            listed_bytes(text@, from as int, to as int) == match listed_bytes(
                text@,
                at as int,
                to as int,
            ) {
                Some(rest) => Some(bytes@ + rest),
                None => None::<Seq<u8>>,
            },
        decreases to - at,
    {
        if text[at] != SPACE || at + 1 >= to {
            return None;
        }
        let first = match hex_value(text[at + 1]) {
            Some(first) => first,
            None => {
                return None;
            },
        };
        let second = if at + 2 < to {
            hex_value(text[at + 2])
        } else {
            None
        };
        let (byte, next) = match second {
            Some(low) => (first * 16 + low, at + 3),
            None => (first, at + 2),
        };
        if next < to && text[next] != SPACE {
            return None;
        }
        proof {
            let rest = listed_bytes(text@, next as int, to as int);
            if rest is Some {
                assert(bytes@.push(byte) + rest.unwrap() =~= bytes@ + (seq![byte] + rest.unwrap()));
            }
        }
        bytes.push(byte);
        at = next;
    }
    proof {
        assert(bytes@ + Seq::<u8>::empty() =~= bytes@);
    }
    Some(bytes)
}

/// Read the record on the line `[from, to)`.
fn read_record(text: &[u8], from: usize, to: usize) -> (r: Option<HexRecord>)
    requires
        from <= to <= text@.len(),
    ensures
        match record_at(text@, from as int, to as int) {
            Some(record) => r is Some && r.unwrap()@ == record,
            None => r is None,
        },
{
    let (start, end) = trim(text, from, to);
    if end - start < 4 {
        return None;
    }
    let addr = match read_address(text, start) {
        Some(addr) => addr,
        None => {
            return None;
        },
    };
    let mut at = start + 4;
    while at < end && text[at] != SPACE
        invariant
            start + 4 <= at <= end <= text@.len(),
            token_end(text@, start + 4, end as int) == token_end(text@, at as int, end as int),
        decreases end - at,
    {
        at += 1;
    }
    match read_bytes(text, at, end) {
        Some(bytes) => Some(HexRecord { addr, bytes }),
        None => None,
    }
}

/// Why a dump or an image could not be loaded.
#[derive(Clone, Copy, Debug, PartialEq, Eq, Structural)]
pub enum LoadError {
    /// The line with this number, counting from zero, is not a record.
    MalformedLine { line: usize },
    /// The image is shorter than its header and one program bank.
    TruncatedImage,
}

/// Parse a dump into its records. Nothing is returned unless every line is
/// a record.
pub fn parse_hexdump(text: &[u8]) -> (r: Result<Vec<HexRecord>, LoadError>)
    ensures
        match records_of(text@) {
            Ok(records) => r is Ok && records_view(r.unwrap()@) == records,
            Err(line) => r == Err::<Vec<HexRecord>, LoadError>(
                LoadError::MalformedLine { line: line as usize },
            ) && line < text@.len(),
        },
{
    let mut records: Vec<HexRecord> = Vec::new();
    let mut from: usize = 0;
    let mut line: usize = 0;
    while from < text.len()
        invariant
            from <= text@.len() + 1,
            line <= from,
            records_of(text@) == match records_from(text@, from as int, line as nat) {
                Ok(rest) => Ok(records_view(records@) + rest),
                Err(bad) => Err::<Seq<(u16, Seq<u8>)>, nat>(bad),
            },
        decreases text@.len() + 1 - from,
    {
        let end = find_line_end(text, from);
        proof {
            lemma_bad_line_bound(text@, from as int, line as nat);
        }
        let record = match read_record(text, from, end) {
            Some(record) => record,
            None => {
                return Err(LoadError::MalformedLine { line });
            },
        };
        proof {
            let rest = records_from(text@, end + 1, (line + 1) as nat);
            if rest is Ok {
                assert(records_view(records@.push(record)) + rest->Ok_0 =~= records_view(
                    records@,
                ) + (seq![record@] + rest->Ok_0));
            }
        }
        records.push(record);
        if end == text.len() {
            proof {
                assert(records_view(records@) + Seq::<(u16, Seq<u8>)>::empty() =~= records_view(
                    records@,
                ));
            }
            return Ok(records);
        }
        from = end + 1;
        line += 1;
    }
    proof {
        assert(records_view(records@) + Seq::<(u16, Seq<u8>)>::empty() =~= records_view(
            records@,
        ));
    }
    Ok(records)
}

/// The number of a malformed line is less than the length of the text when
/// the count starts no higher than the position.
pub proof fn lemma_bad_line_bound(text: Seq<u8>, from: int, line: nat)
    requires
        0 <= from,
        line <= from,
    ensures
        records_from(text, from, line) is Err ==> records_from(text, from, line)->Err_0
            < text.len(),
    decreases text.len() + 1 - from,
{
    if from < text.len() {
        lemma_line_end_bounds(text, from);
        let end = line_end(text, from);
        if record_at(text, from, end) is Some {
            lemma_bad_line_bound(text, end + 1, line + 1);
        }
    }
}

} // verus!
