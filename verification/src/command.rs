//! The inbound command language: one command per text line.

use vstd::prelude::*;
use crate::parser::chars_of;

verus! {

/// The unit of a crystal frequency.
#[derive(Clone, Copy, Debug, PartialEq, Eq, Structural)]
pub enum Unit {
    KiloHertz,
    MegaHertz,
}

/// An inbound command.
#[derive(Clone, Copy, Debug, PartialEq, Eq, Structural)]
pub enum Command {
    /// Load the listing file that the line names.
    Load,
    /// Execute one instruction.
    Step,
    /// Reset the core.
    Reset,
    /// Run freely.
    Start,
    /// Stop running freely.
    Stop,
    /// Set the crystal frequency to so many units.
    Xtal(u64, Unit),
    /// Write one bit of PORTA: the bit index and its new value.
    PortA(usize, bool),
    /// Write one bit of PORTB: the bit index and its new value.
    PortB(usize, bool),
    /// A known keyword with arguments that cannot be read.
    Malformed,
    /// No known keyword.
    Unknown,
}

/// One inbound line, together with the text of the listing file that it
/// names where it names one and the file could be read.
pub struct Inbound {
    /// The line.
    pub line: String,
    /// The text of the file that the line names.
    pub listing: Option<String>,
}

impl Inbound {
    /// The text of the listing, where there is one.
    pub open spec fn listing_text(self) -> Option<Seq<char>> {
        match self.listing {
            Some(text) => Some(text@),
            None => None,
        }
    }
}

/// The first position from `from` on that holds `sep`, or the length of `s`
/// where there is none.
pub open spec fn field_end(s: Seq<char>, sep: char, from: int) -> int
    decreases s.len() - from,
{
    if from >= s.len() || s[from] == sep {
        from
    } else {
        field_end(s, sep, from + 1)
    }
}

/// Where field `n` begins when `s` is cut at every `sep`; fields count
/// from 0.
pub open spec fn field_start(s: Seq<char>, sep: char, n: nat) -> Option<int>
    decreases n,
{
    if n == 0 {
        Some(0)
    } else {
        match field_start(s, sep, (n - 1) as nat) {
            Some(start) => {
                let end = field_end(s, sep, start);
                if end < s.len() {
                    Some(end + 1)
                } else {
                    None
                }
            },
            None => None,
        }
    }
}

/// Field `n` of `s` when it is cut at every `sep`.
pub open spec fn field(s: Seq<char>, sep: char, n: nat) -> Option<Seq<char>> {
    match field_start(s, sep, n) {
        Some(start) => Some(s.subrange(start, field_end(s, sep, start))),
        None => None,
    }
}

/// A decimal digit.
pub open spec fn is_digit(c: char) -> bool {
    '0' <= c && c <= '9'
}

/// The number that the decimal digits `s` spell.
pub open spec fn digits_value(s: Seq<char>) -> nat
    decreases s.len(),
{
    if s.len() == 0 {
        0
    } else {
        digits_value(s.drop_last()) * 10 + (s.last() as nat - 48) as nat
    }
}

/// The number that `s` spells: one or more decimal digits whose value fits
/// 64 bits.
pub open spec fn number_of(s: Seq<char>) -> Option<u64> {
    if s.len() > 0 && (forall|i: int| 0 <= i < s.len() ==> is_digit(#[trigger] s[i]))
        && digits_value(s) <= u64::MAX {
        Some(digits_value(s) as u64)
    } else {
        None
    }
}

/// Whether a line names a file: it begins with a slash or with a drive
/// letter and a colon.
pub open spec fn is_path(line: Seq<char>) -> bool {
    ||| line.len() >= 1 && line[0] == '/'
    ||| line.len() >= 2 && line[1] == ':' && (('a' <= line[0] && line[0] <= 'z') || ('A'
        <= line[0] && line[0] <= 'Z'))
}

/// The unit that a word names.
pub open spec fn unit_of(word: Seq<char>) -> Option<Unit> {
    if word == "kHz"@ {
        Some(Unit::KiloHertz)
    } else if word == "MHz"@ {
        Some(Unit::MegaHertz)
    } else {
        None
    }
}

/// The crystal command that the two arguments of XTAL spell.
pub open spec fn xtal_command(count: Option<Seq<char>>, unit: Option<Seq<char>>) -> Command {
    match (count, unit) {
        (Some(count), Some(unit)) => match (number_of(count), unit_of(unit)) {
            (Some(n), Some(u)) => Command::Xtal(n, u),
            _ => Command::Malformed,
        },
        _ => Command::Malformed,
    }
}

/// The bit index and the value that the argument of a port command spells:
/// two numbers with a comma between them, the index below 8, the value
/// below 256.
pub open spec fn port_arguments(argument: Option<Seq<char>>) -> Option<(usize, bool)> {
    match argument {
        Some(argument) => match (field(argument, ',', 0), field(argument, ',', 1)) {
            (Some(bit), Some(value)) => match (number_of(bit), number_of(value)) {
                (Some(bit), Some(value)) => if bit < 8 && value < 256 {
                    Some((bit as usize, value != 0))
                } else {
                    None
                },
                _ => None,
            },
            _ => None,
        },
        None => None,
    }
}

/// The command that a line spells. A line that names a file is a load
/// command. Any other line is cut at every space: the first word is the
/// keyword, the words after it are its arguments, and words that a command
/// does not need are ignored.
pub open spec fn command_of(line: Seq<char>) -> Command {
    let keyword = line.subrange(0, field_end(line, ' ', 0));
    if is_path(line) {
        Command::Load
    } else if keyword == "STEP"@ {
        Command::Step
    } else if keyword == "RESET"@ {
        Command::Reset
    } else if keyword == "START"@ {
        Command::Start
    } else if keyword == "STOPP"@ {
        Command::Stop
    } else if keyword == "XTAL"@ {
        xtal_command(field(line, ' ', 1), field(line, ' ', 2))
    } else if keyword == "PORTA"@ {
        match port_arguments(field(line, ' ', 1)) {
            Some((bit, value)) => Command::PortA(bit, value),
            None => Command::Malformed,
        }
    } else if keyword == "PORTB"@ {
        match port_arguments(field(line, ' ', 1)) {
            Some((bit, value)) => Command::PortB(bit, value),
            None => Command::Malformed,
        }
    } else {
        Command::Unknown
    }
}

/// Finds the end of the field that begins at `from`.
fn find_field_end(s: &Vec<char>, sep: char, from: usize) -> (end: usize)
    requires
        from <= s@.len(),
    ensures
        end == field_end(s@, sep, from as int),
        from <= end <= s@.len(),
{
    let mut end = from;
    while end < s.len() && s[end] != sep
        invariant
            from <= end <= s@.len(),
            field_end(s@, sep, from as int) == field_end(s@, sep, end as int),
        decreases s@.len() - end,
    {
        end = end + 1;
    }
    end
}

/// Copies the characters from `start` up to `end`.
fn copy_range(s: &Vec<char>, start: usize, end: usize) -> (part: Vec<char>)
    requires
        start <= end <= s@.len(),
    ensures
        part@ == s@.subrange(start as int, end as int),
{
    let mut part: Vec<char> = Vec::new();
    let mut i = start;
    while i < end
        invariant
            start <= i <= end,
            end <= s@.len(),
            part@ == s@.subrange(start as int, i as int),
        decreases end - i,
    {
        part.push(s[i]);
        i = i + 1;
    }
    part
}

/// The characters of a word, where there is one.
pub open spec fn word_view(word: Option<Vec<char>>) -> Option<Seq<char>> {
    match word {
        Some(word) => Some(word@),
        None => None,
    }
}

/// Cuts `s` at every `sep` and returns field `n`, if there are that many.
pub fn split_field(s: &Vec<char>, sep: char, n: usize) -> (part: Option<Vec<char>>)
    ensures
        word_view(part) == field(s@, sep, n as nat),
{
    let mut start: usize = 0;
    let mut k: usize = 0;
    while k < n
        invariant
            k <= n,
            start <= s@.len(),
            field_start(s@, sep, k as nat) == Some(start as int),
        decreases n - k,
    {
        let end = find_field_end(s, sep, start);
        if end >= s.len() {
            proof {
                lemma_no_later_field(s@, sep, (k + 1) as nat, n as nat);
            }
            return None;
        }
        start = end + 1;
        k = k + 1;
    }
    let end = find_field_end(s, sep, start);
    Some(copy_range(s, start, end))
}

/// Where a field does not exist, no later one does.
proof fn lemma_no_later_field(s: Seq<char>, sep: char, k: nat, n: nat)
    requires
        field_start(s, sep, k) is None,
        k <= n,
    ensures
        field_start(s, sep, n) is None,
    decreases n - k,
{
    if k < n {
        lemma_no_later_field(s, sep, k + 1, n);
    }
}

/// Whether `word` spells `literal`.
pub fn equals_str(word: &Vec<char>, literal: &str) -> (same: bool)
    ensures
        same == (word@ == literal@),
{
    let other = chars_of(literal);
    if word.len() != other.len() {
        return false;
    }
    let mut i: usize = 0;
    while i < word.len()
        invariant
            i <= word@.len(),
            word@.len() == other@.len(),
            other@ == literal@,
            forall|j: int| 0 <= j < i ==> word@[j] == other@[j],
        decreases word@.len() - i,
    {
        if word[i] != other[i] {
            return false;
        }
        i = i + 1;
    }
    assert(word@ =~= other@);
    true
}

/// A prefix of a digit string spells no more than the string.
proof fn lemma_digits_prefix(s: Seq<char>, n: int)
    requires
        0 <= n <= s.len(),
    ensures
        digits_value(s.take(n)) <= digits_value(s),
    decreases s.len() - n,
{
    if n < s.len() {
        lemma_digits_prefix(s, n + 1);
        assert(s.take(n + 1).drop_last() =~= s.take(n));
    } else {
        assert(s.take(n) =~= s);
    }
}

/// Reads a decimal number.
pub fn parse_number(word: &Vec<char>) -> (number: Option<u64>)
    ensures
        number == number_of(word@),
{
    if word.len() == 0 {
        return None;
    }
    let mut value: u64 = 0;
    let mut i: usize = 0;
    while i < word.len()
        invariant
            i <= word@.len(),
            forall|j: int| 0 <= j < i ==> is_digit(#[trigger] word@[j]),
            value == digits_value(word@.take(i as int)),
        decreases word@.len() - i,
    {
        let c = word[i];
        if !('0' <= c && c <= '9') {
            return None;
        }
        let digit = (c as u32 - 48) as u64;
        proof {
            assert(word@.take(i + 1).drop_last() =~= word@.take(i as int));
            lemma_digits_prefix(word@, i + 1);
        }
        if value > (u64::MAX - digit) / 10 {
            return None;
        }
        value = value * 10 + digit;
        i = i + 1;
    }
    assert(word@.take(i as int) =~= word@);
    Some(value)
}

/// Whether a line names a file.
pub fn is_load_command(line: &Vec<char>) -> (load: bool)
    ensures
        load == is_path(line@),
{
    if line.len() >= 1 && line[0] == '/' {
        return true;
    }
    if line.len() >= 2 && line[1] == ':' {
        let c = line[0];
        return ('a' <= c && c <= 'z') || ('A' <= c && c <= 'Z');
    }
    false
}

fn parse_xtal(line: &Vec<char>) -> (command: Command)
    ensures
        command == xtal_command(field(line@, ' ', 1), field(line@, ' ', 2)),
{
    let count = match split_field(line, ' ', 1) {
        Some(word) => word,
        None => {
            return Command::Malformed;
        },
    };
    let unit = match split_field(line, ' ', 2) {
        Some(word) => word,
        None => {
            return Command::Malformed;
        },
    };
    let n = match parse_number(&count) {
        Some(n) => n,
        None => {
            return Command::Malformed;
        },
    };
    if equals_str(&unit, "kHz") {
        Command::Xtal(n, Unit::KiloHertz)
    } else if equals_str(&unit, "MHz") {
        Command::Xtal(n, Unit::MegaHertz)
    } else {
        Command::Malformed
    }
}

fn parse_port(line: &Vec<char>) -> (arguments: Option<(usize, bool)>)
    ensures
        arguments == port_arguments(field(line@, ' ', 1)),
{
    let argument = match split_field(line, ' ', 1) {
        Some(word) => word,
        None => {
            return None;
        },
    };
    let bit_word = match split_field(&argument, ',', 0) {
        Some(word) => word,
        None => {
            return None;
        },
    };
    let value_word = match split_field(&argument, ',', 1) {
        Some(word) => word,
        None => {
            return None;
        },
    };
    match (parse_number(&bit_word), parse_number(&value_word)) {
        (Some(bit), Some(value)) => {
            if bit < 8 && value < 256 {
                Some((bit as usize, value != 0))
            } else {
                None
            }
        },
        _ => None,
    }
}

/// Reads one inbound command.
pub fn parse_command(text: &str) -> (command: Command)
    ensures
        command == command_of(text@),
{
    let line = chars_of(text);
    if is_load_command(&line) {
        return Command::Load;
    }
    let end = find_field_end(&line, ' ', 0);
    let keyword = copy_range(&line, 0, end);
    if equals_str(&keyword, "STEP") {
        Command::Step
    } else if equals_str(&keyword, "RESET") {
        Command::Reset
    } else if equals_str(&keyword, "START") {
        Command::Start
    } else if equals_str(&keyword, "STOPP") {
        Command::Stop
    } else if equals_str(&keyword, "XTAL") {
        parse_xtal(&line)
    } else if equals_str(&keyword, "PORTA") {
        match parse_port(&line) {
            Some((bit, value)) => Command::PortA(bit, value),
            None => Command::Malformed,
        }
    } else if equals_str(&keyword, "PORTB") {
        match parse_port(&line) {
            Some((bit, value)) => Command::PortB(bit, value),
            None => Command::Malformed,
        }
    } else {
        Command::Unknown
    }
}

} // verus!
