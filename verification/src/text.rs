//! The text of the outbound debug commands: one line per command, numbers in
//! decimal or as two hexadecimal digits.

use vstd::prelude::*;
use vstd::string::StringExecFns;

verus! {

/// The character of the hexadecimal digit `n`, letters in lower case.
pub open spec fn hex_digit(n: u8) -> char
    recommends
        n < 16,
{
    if n < 10 {
        ((48 + n) as u8) as char
    } else {
        ((87 + n) as u8) as char
    }
}

/// The two hexadecimal digits of a byte.
pub open spec fn hex2(value: u8) -> Seq<char> {
    seq![hex_digit(value / 16), hex_digit(value % 16)]
}

/// The decimal digits of `n`, without leading zeros.
pub open spec fn decimal(n: nat) -> Seq<char>
    decreases n,
{
    if n < 10 {
        seq![hex_digit(n as u8)]
    } else {
        decimal(n / 10).push(hex_digit((n % 10) as u8))
    }
}

/// `count` zeros.
pub open spec fn zeros(count: nat) -> Seq<char> {
    Seq::new(count, |i: int| '0')
}

/// The decimal digits of `n`, with zeros in front up to `width` characters.
pub open spec fn zero_padded(n: nat, width: nat) -> Seq<char> {
    if decimal(n).len() >= width {
        decimal(n)
    } else {
        zeros((width - decimal(n).len()) as nat) + decimal(n)
    }
}

/// A line that reports a register: the name, a space, two hexadecimal
/// digits and the letter h.
pub open spec fn register_line(name: Seq<char>, value: u8) -> Seq<char> {
    name + seq![' '] + hex2(value) + seq!['h']
}

/// A line that names a source line: the keyword, a space and the decimal
/// line number.
pub open spec fn source_line(keyword: Seq<char>, line: nat) -> Seq<char> {
    keyword + seq![' '] + decimal(line)
}

/// The line that marks a source line as the current one.
pub open spec fn line_setline(line: nat) -> Seq<char> {
    source_line("SETLINE"@, line)
}

/// The line that releases a source line.
pub open spec fn line_resline(line: nat) -> Seq<char> {
    source_line("RESLINE"@, line)
}

/// The line that reports PCL.
pub open spec fn line_pcl(value: u8) -> Seq<char> {
    register_line("PCL"@, value)
}

/// The line that reports PCLATH.
pub open spec fn line_pclath(value: u8) -> Seq<char> {
    register_line("PCLATH"@, value)
}

/// The line that reports W.
pub open spec fn line_wreg(value: u8) -> Seq<char> {
    register_line("WREG"@, value)
}

/// The line that reports STATUS.
pub open spec fn line_status(value: u8) -> Seq<char> {
    register_line("STATUS"@, value)
}

/// The line that reports FSR.
pub open spec fn line_fsr(value: u8) -> Seq<char> {
    register_line("FSR"@, value)
}

/// The line that reports OPTION.
pub open spec fn line_option(value: u8) -> Seq<char> {
    register_line("OPTION"@, value)
}

/// The line that reports TMR0.
pub open spec fn line_timer0(value: u8) -> Seq<char> {
    register_line("TIMER0"@, value)
}

/// The line that reports the program counter in four decimal digits.
pub open spec fn line_pcintern(pc: u16) -> Seq<char> {
    "PCINTERN"@ + seq![' '] + zero_padded(pc as nat, 4)
}

/// The line that reports one bit of STATUS.
pub open spec fn line_statusbit(bit: nat, value: bool) -> Seq<char> {
    "STATUSBIT"@ + seq![' '] + decimal(bit) + seq![','] + seq![
        if value {
            '1'
        } else {
            '0'
        },
    ]
}

/// The line that reports a write to the file register at `address`.
pub open spec fn line_freg(address: u8, value: u8) -> Seq<char> {
    "FREG"@ + seq![' '] + decimal(address as nat) + seq![',', '0', 'x'] + hex2(value)
}

/// The entries of a stack line: each in four decimal digits, a comma and a
/// space between two of them.
pub open spec fn stack_entries(entries: Seq<u16>) -> Seq<char>
    decreases entries.len(),
{
    if entries.len() == 0 {
        Seq::empty()
    } else if entries.len() == 1 {
        zero_padded(entries[0] as nat, 4)
    } else {
        stack_entries(entries.drop_last()) + seq![',', ' '] + zero_padded(entries.last() as nat, 4)
    }
}

/// The line that reports the return-address stack, oldest entry first.
pub open spec fn line_stack(entries: Seq<u16>) -> Seq<char> {
    if entries.len() == 0 {
        "STACK"@
    } else {
        "STACK"@ + seq![' '] + stack_entries(entries)
    }
}

/// The one-character string of the hexadecimal digit `n`.
pub fn digit_str(n: u8) -> (s: &'static str)
    requires
        n < 16,
    ensures
        s@ == seq![hex_digit(n)],
{
    proof {
        reveal_strlit("0");
        reveal_strlit("1");
        reveal_strlit("2");
        reveal_strlit("3");
        reveal_strlit("4");
        reveal_strlit("5");
        reveal_strlit("6");
        reveal_strlit("7");
        reveal_strlit("8");
        reveal_strlit("9");
        reveal_strlit("a");
        reveal_strlit("b");
        reveal_strlit("c");
        reveal_strlit("d");
        reveal_strlit("e");
        reveal_strlit("f");
    }
    let s = match n {
        0 => "0",
        1 => "1",
        2 => "2",
        3 => "3",
        4 => "4",
        5 => "5",
        6 => "6",
        7 => "7",
        8 => "8",
        9 => "9",
        10 => "a",
        11 => "b",
        12 => "c",
        13 => "d",
        14 => "e",
        _ => "f",
    };
    s
}

/// Appends the two hexadecimal digits of `value`.
pub fn push_hex2(out: &mut String, value: u8)
    ensures
        final(out)@ == old(out)@ + hex2(value),
{
    out.append(digit_str(value / 16));
    out.append(digit_str(value % 16));
}

/// Appends the decimal digits of `n`.
pub fn push_decimal(out: &mut String, n: u64)
    ensures
        final(out)@ == old(out)@ + decimal(n as nat),
    decreases n,
{
    if n >= 10 {
        push_decimal(out, n / 10);
    }
    out.append(digit_str((n % 10) as u8));
}

/// The number of decimal digits of `n`.
pub fn decimal_len(n: u64) -> (len: usize)
    ensures
        len == decimal(n as nat).len(),
        1 <= len <= 20,
    decreases n,
{
    if n >= 10 {
        let rest = decimal_len(n / 10);
        proof {
            lemma_decimal_len_bound(n as nat);
        }
        rest + 1
    } else {
        1
    }
}

/// A number below ten to the `k` has at most `k` digits; stated for the
/// widths that a 64-bit number can reach.
proof fn lemma_decimal_len_bound(n: nat)
    requires
        n <= u64::MAX,
    ensures
        decimal(n).len() <= 20,
{
    reveal_with_fuel(decimal, 21);
}

/// Appends the decimal digits of `n`, with zeros in front up to `width`
/// characters.
pub fn push_zero_padded(out: &mut String, n: u64, width: usize)
    ensures
        final(out)@ == old(out)@ + zero_padded(n as nat, width as nat),
{
    let len = decimal_len(n);
    let mut i: usize = len;
    while i < width
        invariant
            len <= i,
            len == decimal(n as nat).len(),
            i == len || i <= width,
            out@ == old(out)@ + zeros((i - len) as nat),
        decreases width - i,
    {
        out.append(digit_str(0));
        i = i + 1;
    }
    push_decimal(out, n);
}

/// Builds the line that reports a register.
pub fn make_register_line(name: &str, value: u8) -> (line: String)
    ensures
        line@ == register_line(name@, value),
{
    proof {
        reveal_strlit(" ");
        reveal_strlit("h");
    }
    let mut line = String::from_str(name);
    line.append(" ");
    push_hex2(&mut line, value);
    line.append("h");
    line
}

/// Builds the line that names a source line.
pub fn make_source_line(keyword: &str, number: usize) -> (line: String)
    ensures
        line@ == source_line(keyword@, number as nat),
{
    proof {
        reveal_strlit(" ");
    }
    let mut line = String::from_str(keyword);
    line.append(" ");
    push_decimal(&mut line, number as u64);
    line
}

/// Builds the line that reports the program counter.
pub fn make_pcintern_line(pc: u16) -> (line: String)
    ensures
        line@ == line_pcintern(pc),
{
    proof {
        reveal_strlit(" ");
    }
    let mut line = String::from_str("PCINTERN");
    line.append(" ");
    push_zero_padded(&mut line, pc as u64, 4);
    line
}

/// Builds the line that reports one bit of STATUS.
pub fn make_statusbit_line(bit: usize, value: bool) -> (line: String)
    ensures
        line@ == line_statusbit(bit as nat, value),
{
    proof {
        reveal_strlit(" ");
        reveal_strlit(",");
        reveal_strlit("0");
        reveal_strlit("1");
    }
    let mut line = String::from_str("STATUSBIT");
    line.append(" ");
    push_decimal(&mut line, bit as u64);
    line.append(",");
    line.append(if value { "1" } else { "0" });
    line
}

/// Builds the line that reports a write to a file register.
pub fn make_freg_line(address: u8, value: u8) -> (line: String)
    ensures
        line@ == line_freg(address, value),
{
    proof {
        reveal_strlit(" ");
        reveal_strlit(",0x");
    }
    let mut line = String::from_str("FREG");
    line.append(" ");
    push_decimal(&mut line, address as u64);
    line.append(",0x");
    push_hex2(&mut line, value);
    line
}

} // verus!
