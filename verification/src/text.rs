//! Small verified helpers on text.

use vstd::prelude::*;
use vstd::string::*;

verus! {

/// Whether two texts hold the same characters.
pub fn str_eq(a: &str, b: &str) -> (same: bool)
    ensures
        same == (a@ == b@),
{
    let left = String::from_str(a);
    let right = String::from_str(b);
    left == right
}

/// `first` followed by `second`.
pub fn concat(first: &str, second: &str) -> (joined: String)
    ensures
        joined@ == first@ + second@,
{
    let mut joined = String::from_str(first);
    joined.append(second);
    joined
}

/// A character that may stand in the value of an HTTP header: printable
/// ASCII, a space or a tab.
pub open spec fn header_char(c: char) -> bool {
    ' ' as u32 <= c as u32 <= '~' as u32 || c == '\t'
}

/// A text that can be the value of an HTTP header.
pub open spec fn header_text(text: Seq<char>) -> bool {
    forall|i: int| 0 <= i < text.len() ==> header_char(#[trigger] text[i])
}

/// Whether `text` can be the value of an HTTP header.
pub fn is_header_text(text: &str) -> (ok: bool)
    ensures
        ok == header_text(text@),
{
    let n = text.unicode_len();
    let mut i: usize = 0;
    while i < n
        invariant
            i <= n,
            n == text@.len(),
            forall|k: int| 0 <= k < i ==> header_char(#[trigger] text@[k]),
        decreases n - i,
    {
        let c = text.get_char(i);
        let code = c as u32;
        if !((' ' as u32 <= code && code <= '~' as u32) || c == '\t') {
            return false;
        }
        i += 1;
    }
    true
}

/// The lower-case hexadecimal digit for a value below sixteen.
pub open spec fn hex_digit(value: int) -> char {
    "0123456789abcdef"@[value]
}

/// The digit for a value below sixteen, as a text of one character.
fn digit_str(value: u8) -> (digit: &'static str)
    requires
        value < 16,
    ensures
        digit@ == seq![hex_digit(value as int)],
{
    proof {
        reveal_strlit("0123456789abcdef");
    }
    let digits: &'static str = "0123456789abcdef";
    let at = value as usize;
    let digit = digits.substring_ascii(at, at + 1);
    assert(digit@ =~= seq![hex_digit(value as int)]);
    digit
}

/// Each byte as two lower-case hexadecimal digits, high digit first.
pub open spec fn hex_text(bytes: Seq<u8>) -> Seq<char> {
    Seq::new(
        2 * bytes.len(),
        |i: int|
            if i % 2 == 0 {
                hex_digit(bytes[i / 2] as int / 16)
            } else {
                hex_digit(bytes[i / 2] as int % 16)
            },
    )
}

/// Writes bytes as lower-case hexadecimal text.
pub fn hex_encode(bytes: &Vec<u8>) -> (text: String)
    ensures
        text@ == hex_text(bytes@),
{
    let mut text = String::new();
    let mut i: usize = 0;
    while i < bytes.len()
        invariant
            i <= bytes.len(),
            text@ == hex_text(bytes@.take(i as int)),
        decreases bytes.len() - i,
    {
        let b = bytes[i];
        let ghost before = text@;
        text.append(digit_str(b / 16));
        text.append(digit_str(b % 16));
        assert(text@ =~= hex_text(bytes@.take(i + 1))) by {
            assert(text@ == before + seq![hex_digit(b as int / 16)] + seq![
                hex_digit(b as int % 16),
            ]);
            assert(bytes@.take(i + 1).len() == i + 1);
            assert forall|k: int| 0 <= k < 2 * (i + 1) implies text@[k] == hex_text(
                bytes@.take(i + 1),
            )[k] by {
                if k < 2 * i {
                    assert(text@[k] == before[k]);
                    assert(bytes@.take(i as int)[k / 2] == bytes@.take(i + 1)[k / 2]);
                }
            }
        }
        i += 1;
    }
    assert(bytes@.take(i as int) =~= bytes@);
    text
}

/// The decimal digits of a number, without sign or leading zero.
pub open spec fn decimal_text(n: nat) -> Seq<char>
    decreases n,
{
    if n < 10 {
        seq![hex_digit(n as int)]
    } else {
        decimal_text(n / 10).push(hex_digit((n % 10) as int))
    }
}

/// Writes a number in decimal.
pub fn decimal(n: u64) -> (text: String)
    ensures
        text@ == decimal_text(n as nat),
    decreases n,
{
    if n < 10 {
        String::from_str(digit_str(n as u8))
    } else {
        let mut text = decimal(n / 10);
        text.append(digit_str((n % 10) as u8));
        assert(text@ =~= decimal_text(n as nat));
        text
    }
}

/// The value of a hexadecimal digit of either case.
pub open spec fn hex_value(c: char) -> Option<int> {
    if '0' as u32 <= c as u32 <= '9' as u32 {
        Some(c as u32 - '0' as u32)
    } else if 'a' as u32 <= c as u32 <= 'f' as u32 {
        Some(c as u32 - 'a' as u32 + 10)
    } else if 'A' as u32 <= c as u32 <= 'F' as u32 {
        Some(c as u32 - 'A' as u32 + 10)
    } else {
        None
    }
}

/// The value of a digit of either case.
fn hex_digit_value(c: char) -> (value: Option<u8>)
    ensures
        match hex_value(c) {
            Some(v) => value == Some(v as u8) && v < 16,
            None => value is None,
        },
{
    let code = c as u32;
    if '0' as u32 <= code && code <= '9' as u32 {
        Some((code - '0' as u32) as u8)
    } else if 'a' as u32 <= code && code <= 'f' as u32 {
        Some((code - 'a' as u32 + 10) as u8)
    } else if 'A' as u32 <= code && code <= 'F' as u32 {
        Some((code - 'A' as u32 + 10) as u8)
    } else {
        None
    }
}

/// The byte that a group of one or two characters stands for when it is read
/// as a hexadecimal number: one digit, two digits, or a plus sign and one
/// digit.
pub open spec fn hex_group_value(group: Seq<char>) -> Option<int> {
    if group.len() == 1 {
        hex_value(group[0])
    } else if group.len() == 2 {
        if group[0] == '+' {
            hex_value(group[1])
        } else {
            match (hex_value(group[0]), hex_value(group[1])) {
                (Some(high), Some(low)) => Some(16 * high + low),
                _ => None,
            }
        }
    } else {
        None
    }
}

/// The `i`-th group of two characters of a text; the last group of a text of
/// odd length has one.
pub open spec fn hex_group(text: Seq<char>, i: int) -> Seq<char> {
    if 2 * i + 2 <= text.len() {
        text.subrange(2 * i, 2 * i + 2)
    } else {
        text.subrange(2 * i, text.len() as int)
    }
}

/// The number of groups of a text.
pub open spec fn hex_groups(text: Seq<char>) -> nat {
    ((text.len() + 1) / 2) as nat
}

/// Whether every group of a text stands for a byte.
pub open spec fn is_hex(text: Seq<char>) -> bool {
    forall|i: int| 0 <= i < hex_groups(text) ==> (#[trigger] hex_group_value(hex_group(text, i)))
        is Some
}

/// The bytes that a text stands for, group by group.
pub open spec fn hex_bytes(text: Seq<char>) -> Seq<u8> {
    Seq::new(hex_groups(text), |i: int| hex_group_value(hex_group(text, i))->0 as u8)
}

/// Reads hexadecimal text, two characters to the byte. `None` exactly where
/// some group stands for no byte.
pub fn hex_decode(text: &str) -> (bytes: Option<Vec<u8>>)
    ensures
        match bytes {
            Some(b) => is_hex(text@) && b@ == hex_bytes(text@),
            None => !is_hex(text@),
        },
{
    let n = text.unicode_len();
    let groups = n / 2 + n % 2;
    let mut bytes: Vec<u8> = Vec::new();
    let mut j: usize = 0;
    while j < groups
        invariant
            n == text@.len(),
            groups == hex_groups(text@),
            j <= groups,
            bytes.len() == j,
            forall|k: int|
                0 <= k < j ==> (#[trigger] hex_group_value(hex_group(text@, k))) == Some(
                    bytes[k] as int,
                ),
        decreases groups - j,
    {
        let i = 2 * j;
        let ghost group = hex_group(text@, j as int);
        let first = text.get_char(i);
        let value: Option<u8> = if i + 1 < n {
            let second = text.get_char(i + 1);
            assert(group =~= seq![first, second]);
            if first == '+' {
                hex_digit_value(second)
            } else {
                match (hex_digit_value(first), hex_digit_value(second)) {
                    (Some(high), Some(low)) => Some(16 * high + low),
                    _ => None,
                }
            }
        } else {
            assert(group =~= seq![first]);
            hex_digit_value(first)
        };
        match value {
            Some(b) => {
                bytes.push(b);
            },
            None => {
                assert(hex_group_value(hex_group(text@, j as int)) is None);
                return None;
            },
        }
        j += 1;
    }
    assert(bytes@ =~= hex_bytes(text@));
    Some(bytes)
}

/// Whether `at` is the position of the first `c` in a text.
pub open spec fn is_first(text: Seq<char>, c: char, at: int) -> bool {
    &&& 0 <= at < text.len()
    &&& text[at] == c
    &&& forall|k: int| 0 <= k < at ==> text[k] != c
}

/// The position of the first `c` in a text.
pub open spec fn first_index(text: Seq<char>, c: char) -> Option<int> {
    if exists|i: int| is_first(text, c, i) {
        Some(choose|i: int| is_first(text, c, i))
    } else {
        None
    }
}

/// Finds the first `c` in a text.
pub fn find_char(text: &str, c: char) -> (at: Option<usize>)
    ensures
        match at {
            Some(i) => first_index(text@, c) == Some(i as int) && is_first(text@, c, i as int),
            None => first_index(text@, c) is None && !text@.contains(c),
        },
{
    let n = text.unicode_len();
    let mut i: usize = 0;
    while i < n
        invariant
            n == text@.len(),
            i <= n,
            forall|k: int| 0 <= k < i ==> text@[k] != c,
        decreases n - i,
    {
        if text.get_char(i) == c {
            assert(is_first(text@, c, i as int));
            return Some(i);
        }
        i += 1;
    }
    None
}

} // verus!
