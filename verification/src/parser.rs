//! The listing parser: finds the program lines of an assembler listing and
//! builds the program image and the map from program counter to source line.

use vstd::prelude::*;
use std::collections::HashMap;
use crate::bits::{get_high_byte, get_low_byte, high_byte, low_byte};

verus! {

/// An upper-case hexadecimal digit.
pub open spec fn is_hex_upper(c: char) -> bool {
    ('0' <= c && c <= '9') || ('A' <= c && c <= 'F')
}

/// The value of an upper-case hexadecimal digit.
pub open spec fn hex_value(c: char) -> int
    recommends
        is_hex_upper(c),
{
    if c <= '9' {
        c as int - 48
    } else {
        c as int - 55
    }
}

/// A white-space character that can stand inside a line.
pub open spec fn is_separator(c: char) -> bool {
    let u = c as u32;
    ||| u == 0x09
    ||| u == 0x0B
    ||| u == 0x0C
    ||| u == 0x0D
    ||| u == 0x20
    ||| u == 0x85
    ||| u == 0xA0
    ||| u == 0x1680
    ||| (0x2000 <= u && u <= 0x200A)
    ||| u == 0x2028
    ||| u == 0x2029
    ||| u == 0x202F
    ||| u == 0x205F
    ||| u == 0x3000
}

/// Whether four upper-case hexadecimal digits stand at `at`.
pub open spec fn is_hex_field(text: Seq<char>, at: int) -> bool {
    &&& 0 <= at
    &&& at + 4 <= text.len()
    &&& is_hex_upper(text[at])
    &&& is_hex_upper(text[at + 1])
    &&& is_hex_upper(text[at + 2])
    &&& is_hex_upper(text[at + 3])
}

/// The number that the four hexadecimal digits at `at` spell.
pub open spec fn hex_field(text: Seq<char>, at: int) -> u16
    recommends
        is_hex_field(text, at),
{
    (hex_value(text[at]) * 4096 + hex_value(text[at + 1]) * 256 + hex_value(text[at + 2]) * 16
        + hex_value(text[at + 3])) as u16
}

/// Whether a line begins at `at`: at the start of the text or right after
/// a line feed.
pub open spec fn is_line_start(text: Seq<char>, at: int) -> bool {
    0 <= at < text.len() && (at == 0 || text[at - 1] == '\n')
}

/// Whether a program line begins at `at`: a line that starts with the
/// four-digit address, one white-space character and the four-digit opcode.
pub open spec fn is_entry(text: Seq<char>, at: int) -> bool {
    &&& is_line_start(text, at)
    &&& is_hex_field(text, at)
    &&& at + 9 <= text.len()
    &&& is_separator(text[at + 4])
    &&& is_hex_field(text, at + 5)
}

/// The number of line feeds among the first `n` characters.
pub open spec fn line_feeds(text: Seq<char>, n: int) -> nat
    decreases n,
{
    if n <= 0 {
        0
    } else {
        line_feeds(text, n - 1) + if text[n - 1] == '\n' {
            1nat
        } else {
            0nat
        }
    }
}

/// The number of the line that holds position `at`; the first line is 1.
pub open spec fn line_number(text: Seq<char>, at: int) -> nat {
    line_feeds(text, at) + 1
}

/// What a listing yields.
pub struct ListingView {
    /// The source line of each program address; where an address occurs
    /// twice, the later line.
    pub lines: Map<u16, usize>,
    /// The opcodes in the order of their lines, upper byte first.
    pub program: Seq<u8>,
}

impl ListingView {
    /// Nothing: no line known, no program.
    pub open spec fn empty() -> ListingView {
        ListingView { lines: Map::empty(), program: Seq::empty() }
    }

    /// This listing with one more program line.
    pub open spec fn record(self, address: u16, line: usize, opcode: u16) -> ListingView {
        ListingView {
            lines: self.lines.insert(address, line),
            program: self.program.push(high_byte(opcode)).push(low_byte(opcode)),
        }
    }
}

/// What the program lines that begin among the first `n` positions of
/// `text` yield.
pub open spec fn listing_upto(text: Seq<char>, n: int) -> ListingView
    decreases n,
{
    if n <= 0 {
        ListingView::empty()
    } else {
        let before = listing_upto(text, n - 1);
        let at = n - 1;
        if is_entry(text, at) {
            before.record(
                hex_field(text, at),
                line_number(text, at) as usize,
                hex_field(text, at + 5),
            )
        } else {
            before
        }
    }
}

/// What the listing `text` yields.
pub open spec fn listing_of(text: Seq<char>) -> ListingView {
    listing_upto(text, text.len() as int)
}

/// The result of parsing a listing.
pub struct ParseResult {
    /// The source line of each program address.
    pub pc_mapper: HashMap<u16, usize>,
    /// The program image: two bytes per instruction, upper byte first.
    pub program: Vec<u8>,
}

impl View for ParseResult {
    type V = ListingView;

    open spec fn view(&self) -> ListingView {
        ListingView { lines: self.pc_mapper@, program: self.program@ }
    }
}

impl ParseResult {
    /// An empty result.
    pub fn new() -> (result: ParseResult)
        ensures
            result@ == ListingView::empty(),
    {
        let result = ParseResult { pc_mapper: HashMap::new(), program: Vec::new() };
        result
    }
}

/// The characters of `text`.
pub fn chars_of(text: &str) -> (chars: Vec<char>)
    ensures
        chars@ == text@,
{
    let mut chars: Vec<char> = Vec::new();
    for c in it: text.chars()
        invariant
            it.seq() == text@,
            chars@.len() == it.index(),
            forall|j: int| 0 <= j < chars@.len() ==> chars@[j] == it.seq()[j],
    {
        chars.push(c);
    }
    chars
}

/// The value of `c` as an upper-case hexadecimal digit, if it is one.
pub fn hex_digit_value(c: char) -> (value: Option<u16>)
    ensures
        value is Some <==> is_hex_upper(c),
        value matches Some(v) ==> v == hex_value(c) && v < 16,
{
    if '0' <= c && c <= '9' {
        Some((c as u32 - 48) as u16)
    } else if 'A' <= c && c <= 'F' {
        Some((c as u32 - 55) as u16)
    } else {
        None
    }
}

/// Reads the four upper-case hexadecimal digits at `at`, if they are there.
pub fn read_hex_field(text: &Vec<char>, at: usize) -> (value: Option<u16>)
    ensures
        value is Some <==> is_hex_field(text@, at as int),
        value matches Some(v) ==> v == hex_field(text@, at as int),
{
    if text.len() < 4 || at > text.len() - 4 {
        return None;
    }
    let d0 = match hex_digit_value(text[at]) {
        Some(digit) => digit,
        None => {
            return None;
        },
    };
    let d1 = match hex_digit_value(text[at + 1]) {
        Some(digit) => digit,
        None => {
            return None;
        },
    };
    let d2 = match hex_digit_value(text[at + 2]) {
        Some(digit) => digit,
        None => {
            return None;
        },
    };
    let d3 = match hex_digit_value(text[at + 3]) {
        Some(digit) => digit,
        None => {
            return None;
        },
    };
    Some(d0 * 4096 + d1 * 256 + d2 * 16 + d3)
}

/// Whether `c` is a white-space character that can stand inside a line.
pub fn is_separator_char(c: char) -> (b: bool)
    ensures
        b == is_separator(c),
{
    let u = c as u32;
    u == 0x09 || u == 0x0B || u == 0x0C || u == 0x0D || u == 0x20 || u == 0x85 || u == 0xA0 || u
        == 0x1680 || (0x2000 <= u && u <= 0x200A) || u == 0x2028 || u == 0x2029 || u == 0x202F || u
        == 0x205F || u == 0x3000
}

/// Parses an assembler listing.
///
/// A line that begins with four upper-case hexadecimal digits, one
/// white-space character and four more such digits is a program line: the
/// first number is its address, the second its opcode. Every line counts for
/// the line numbers, which start at 1.
pub fn parse_lst_file(data: &str) -> (result: ParseResult)
    ensures
        result@ == listing_of(data@),
{
    let text = chars_of(data);
    let mut result = ParseResult::new();
    let mut feeds: usize = 0;
    let mut at_start = true;
    let mut i: usize = 0;
    while i < text.len()
        invariant
            i <= text@.len(),
            text@ == data@,
            feeds == line_feeds(text@, i as int),
            feeds <= i,
            at_start == (i == 0 || text@[i - 1] == '\n'),
            result@ == listing_upto(text@, i as int),
        decreases text@.len() - i,
    {
        let c = text[i];
        if at_start {
            match read_hex_field(&text, i) {
                Some(address) => {
                    if text.len() - i >= 9 && is_separator_char(text[i + 4]) {
                        match read_hex_field(&text, i + 5) {
                            Some(opcode) => {
                                result.pc_mapper.insert(address, feeds + 1);
                                result.program.push(get_high_byte(opcode));
                                result.program.push(get_low_byte(opcode));
                            },
                            None => {},
                        }
                    }
                },
                None => {},
            }
        }
        at_start = c == '\n';
        if at_start {
            feeds = feeds + 1;
        }
        i = i + 1;
    }
    result
}

} // verus!
