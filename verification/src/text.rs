//! Text primitives over the character sequences that strings stand for:
//! comparison, prefixes and suffixes, decimal numbers, joining of lines.

use vstd::prelude::*;
use vstd::std_specs::iter::IteratorSpec;
use vstd::string::StrSliceExecFns;
use vstd::string::StringExecFns;

verus! {

broadcast use vstd::string::group_string_axioms;

/// `String::push` appends one character and changes nothing else.
pub assume_specification[ String::push ](s: &mut String, c: char)
    ensures
        final(s)@ == old(s)@.push(c),
;

/// Whether what two character iterators have left to give is the same.
fn rest_eq(a: std::str::Chars<'_>, b: std::str::Chars<'_>) -> (same: bool)
    requires
        a.obeys_prophetic_iter_laws(),
        b.obeys_prophetic_iter_laws(),
        a.decrease() is Some,
    ensures
        same == (a.remaining() == b.remaining()),
{
    let mut ia = a;
    let mut ib = b;
    let ghost mut seen: Seq<char> = Seq::empty();
    loop
        invariant
            ia.obeys_prophetic_iter_laws(),
            ib.obeys_prophetic_iter_laws(),
            ia.decrease() is Some,
            a.remaining() == seen + ia.remaining(),
            b.remaining() == seen + ib.remaining(),
        decreases ia.decrease()->0,
    {
        let x = ia.next();
        let y = ib.next();
        match (x, y) {
            (Some(cx), Some(cy)) => {
                if cx != cy {
                    assert(b.remaining()[seen.len() as int] == cy);
                    return false;
                }
                proof {
                    seen = seen.push(cx);
                }
            },
            (None, None) => {
                return true;
            },
            _ => {
                return false;
            },
        }
    }
}

/// Whether two strings hold the same characters.
pub fn str_eq(a: &str, b: &str) -> (same: bool)
    ensures
        same == (a@ == b@),
{
    rest_eq(a.chars(), b.chars())
}

/// Whether `s` ends with `suffix`.
pub fn ends_with(s: &str, suffix: &str) -> (found: bool)
    ensures
        found == suffix@.is_suffix_of(s@),
{
    let n = s.unicode_len();
    let m = suffix.unicode_len();
    if m > n {
        return false;
    }
    let mut is = s.chars();
    let mut skipped: usize = 0;
    while skipped < n - m
        invariant
            m <= n,
            n == s@.len(),
            skipped <= n - m,
            is.obeys_prophetic_iter_laws(),
            is.decrease() is Some,
            is.remaining() == s@.subrange(skipped as int, n as int),
        decreases n - m - skipped,
    {
        let _ = is.next();
        skipped = skipped + 1;
    }
    rest_eq(suffix.chars(), is)
}

/// Whether `s` begins with `prefix`.
pub fn starts_with(s: &str, prefix: &str) -> (found: bool)
    ensures
        found == prefix@.is_prefix_of(s@),
{
    let mut is = s.chars();
    let mut ip = prefix.chars();
    let ghost mut seen: Seq<char> = Seq::empty();
    loop
        invariant
            is.obeys_prophetic_iter_laws(),
            ip.obeys_prophetic_iter_laws(),
            ip.decrease() is Some,
            s@ == seen + is.remaining(),
            prefix@ == seen + ip.remaining(),
        decreases ip.decrease()->0,
    {
        match ip.next() {
            None => {
                return true;
            },
            Some(cp) => {
                match is.next() {
                    None => {
                        return false;
                    },
                    Some(cs) => {
                        if cs != cp {
                            proof {
                                if prefix@.len() <= s@.len() {
                                    assert(s@.subrange(0, prefix@.len() as int)[seen.len() as int]
                                        == cs);
                                }
                            }
                            return false;
                        }
                        proof {
                            seen = seen.push(cs);
                        }
                    },
                }
            },
        }
    }
}

/// The character that writes a decimal digit.
pub open spec fn digit_char(d: nat) -> char {
    if d == 0 {
        '0'
    } else if d == 1 {
        '1'
    } else if d == 2 {
        '2'
    } else if d == 3 {
        '3'
    } else if d == 4 {
        '4'
    } else if d == 5 {
        '5'
    } else if d == 6 {
        '6'
    } else if d == 7 {
        '7'
    } else if d == 8 {
        '8'
    } else {
        '9'
    }
}

/// The decimal digit that a character writes, if it writes one.
pub open spec fn digit_value(c: char) -> Option<nat> {
    if c == '0' {
        Some(0)
    } else if c == '1' {
        Some(1)
    } else if c == '2' {
        Some(2)
    } else if c == '3' {
        Some(3)
    } else if c == '4' {
        Some(4)
    } else if c == '5' {
        Some(5)
    } else if c == '6' {
        Some(6)
    } else if c == '7' {
        Some(7)
    } else if c == '8' {
        Some(8)
    } else if c == '9' {
        Some(9)
    } else {
        None
    }
}

/// The decimal numeral of a natural number: no sign, no leading zero but for
/// zero itself.
pub open spec fn decimal(n: nat) -> Seq<char>
    decreases n,
{
    if n < 10 {
        seq![digit_char(n)]
    } else {
        decimal(n / 10).push(digit_char(n % 10))
    }
}

/// The decimal numeral of an integer, with a minus sign before a negative one.
pub open spec fn signed_decimal(n: int) -> Seq<char> {
    if n < 0 {
        seq!['-'] + decimal((-n) as nat)
    } else {
        decimal(n as nat)
    }
}

/// The number that a non-empty run of decimal digits writes.
pub open spec fn decimal_value(s: Seq<char>) -> Option<nat>
    decreases s.len(),
{
    if s.len() == 0 {
        None
    } else if s.len() == 1 {
        digit_value(s[0])
    } else {
        match (decimal_value(s.drop_last()), digit_value(s.last())) {
            (Some(high), Some(low)) => Some(10 * high + low),
            _ => None,
        }
    }
}

/// The byte that a text writes in decimal: an optional plus sign, then
/// digits only, the value no more than 255.
pub open spec fn parsed_u8(s: Seq<char>) -> Option<u8> {
    let digits = if s.len() > 0 && s[0] == '+' {
        s.drop_first()
    } else {
        s
    };
    match decimal_value(digits) {
        Some(v) => if v <= 255 {
            Some(v as u8)
        } else {
            None
        },
        None => None,
    }
}

fn digit_of(d: u8) -> (c: char)
    requires
        d < 10,
    ensures
        c == digit_char(d as nat),
{
    match d {
        0 => '0',
        1 => '1',
        2 => '2',
        3 => '3',
        4 => '4',
        5 => '5',
        6 => '6',
        7 => '7',
        8 => '8',
        _ => '9',
    }
}

fn value_of(c: char) -> (d: Option<u8>)
    ensures
        match d {
            Some(v) => digit_value(c) == Some(v as nat),
            None => digit_value(c) is None,
        },
{
    match c {
        '0' => Some(0),
        '1' => Some(1),
        '2' => Some(2),
        '3' => Some(3),
        '4' => Some(4),
        '5' => Some(5),
        '6' => Some(6),
        '7' => Some(7),
        '8' => Some(8),
        '9' => Some(9),
        _ => None,
    }
}

/// Appends the decimal numeral of `n` to `out`.
pub fn push_decimal(out: &mut String, n: u64)
    ensures
        final(out)@ == old(out)@ + decimal(n as nat),
{
    let mut low_first: Vec<char> = Vec::new();
    let mut rest: u64 = n;
    loop
        invariant_except_break
            decimal(n as nat) == decimal(rest as nat) + low_first@.reverse(),
        ensures
            decimal(n as nat) == low_first@.reverse(),
        decreases rest,
    {
        let d: u8 = (rest % 10) as u8;
        let c = digit_of(d);
        low_first.push(c);
        if rest < 10 {
            break;
        }
        rest = rest / 10;
    }
    let mut left: usize = low_first.len();
    while left > 0
        invariant
            left <= low_first.len(),
            decimal(n as nat) == low_first@.reverse(),
            out@ == old(out)@ + low_first@.reverse().subrange(0, low_first.len() - left),
        decreases left,
    {
        left = left - 1;
        let c = low_first[left];
        out.push(c);
    }
}

/// Appends the decimal numeral of a signed `n` to `out`.
pub fn push_signed_decimal(out: &mut String, n: i32)
    ensures
        final(out)@ == old(out)@ + signed_decimal(n as int),
{
    if n < 0 {
        let magnitude: u64 = (-(n as i64)) as u64;
        out.push('-');
        push_decimal(out, magnitude);
    } else {
        push_decimal(out, n as u64);
    }
}

/// A prefix of a run of digits writes a number no greater than the run does,
/// and a run that holds something else than digits writes none.
proof fn lemma_decimal_value_prefix(s: Seq<char>, k: int)
    requires
        0 < k <= s.len(),
    ensures
        decimal_value(s) is Some ==> decimal_value(s.take(k)) is Some && decimal_value(
            s.take(k),
        )->0 <= decimal_value(s)->0,
    decreases s.len(),
{
    if k == s.len() {
        assert(s.take(k) =~= s);
    } else {
        assert(s.drop_last().take(k) =~= s.take(k));
        lemma_decimal_value_prefix(s.drop_last(), k);
    }
}

/// Reads a byte written in decimal, as `parsed_u8` defines it.
pub fn parse_u8(s: &str) -> (value: Option<u8>)
    ensures
        value == parsed_u8(s@),
{
    let mut it = s.chars();
    let ghost mut seen: Seq<char> = Seq::empty();
    let ghost mut signed: bool = false;
    let mut first = it.next();
    match first {
        Some(c) => {
            if c == '+' {
                proof {
                    signed = true;
                }
                first = it.next();
            }
        },
        None => {},
    }
    let ghost digits = if signed {
        s@.drop_first()
    } else {
        s@
    };
    let mut acc: u32 = 0;
    match first {
        None => {
            return None;
        },
        Some(c) => {
            match value_of(c) {
                None => {
                    proof {
                        if digits.len() > 1 {
                            lemma_decimal_value_prefix(digits, 1);
                        }
                    }
                    return None;
                },
                Some(d) => {
                    acc = d as u32;
                    proof {
                        seen = seq![c];
                    }
                },
            }
        },
    }
    loop
        invariant
            it.obeys_prophetic_iter_laws(),
            it.decrease() is Some,
            digits == seen + it.remaining(),
            seen.len() > 0,
            decimal_value(seen) == Some(acc as nat),
            acc <= 255,
            digits == if signed {
                s@.drop_first()
            } else {
                s@
            },
            signed <==> s@.len() > 0 && s@[0] == '+',
        decreases it.decrease()->0,
    {
        match it.next() {
            None => {
                return Some(acc as u8);
            },
            Some(c) => {
                let ghost longer = seen.push(c);
                proof {
                    assert(longer.drop_last() =~= seen);
                    assert(digits.take(longer.len() as int) =~= longer);
                    lemma_decimal_value_prefix(digits, longer.len() as int);
                }
                match value_of(c) {
                    None => {
                        return None;
                    },
                    Some(d) => {
                        let next = acc * 10 + d as u32;
                        if next > 255 {
                            return None;
                        }
                        acc = next;
                        proof {
                            seen = longer;
                        }
                    },
                }
            },
        }
    }
}

/// The decimal numeral of a number writes that number, and begins with a
/// digit.
pub proof fn lemma_decimal_value_of_decimal(n: nat)
    ensures
        decimal_value(decimal(n)) == Some(n),
        decimal(n).len() > 0,
        digit_value(decimal(n)[0]) is Some,
    decreases n,
{
    if n >= 10 {
        let high = decimal(n / 10);
        lemma_decimal_value_of_decimal(n / 10);
        assert(decimal(n).drop_last() =~= high);
    }
}

/// Round trip of a byte through its decimal numeral: what `push_decimal`
/// writes for a byte, `parse_u8` reads back as that byte.
pub proof fn lemma_byte_decimal_round_trip(n: u8)
    ensures
        parsed_u8(decimal(n as nat)) == Some(n),
{
    lemma_decimal_value_of_decimal(n as nat);
}

/// The lines of a text put together, with `sep` between each two.
pub open spec fn joined(lines: Seq<Seq<char>>, sep: Seq<char>) -> Seq<char>
    decreases lines.len(),
{
    if lines.len() == 0 {
        Seq::empty()
    } else if lines.len() == 1 {
        lines[0]
    } else {
        joined(lines.drop_last(), sep) + sep + lines.last()
    }
}

/// The character sequences that a list of strings stands for.
pub open spec fn views(lines: Seq<String>) -> Seq<Seq<char>> {
    lines.map_values(|line: String| line@)
}

/// Appends the lines to `out`, with `sep` between each two.
pub fn push_joined(out: &mut String, lines: &Vec<String>, sep: &str)
    ensures
        final(out)@ == old(out)@ + joined(views(lines@), sep@),
{
    let mut i: usize = 0;
    while i < lines.len()
        invariant
            i <= lines.len(),
            out@ == old(out)@ + joined(views(lines@).take(i as int), sep@),
        decreases lines.len() - i,
    {
        let ghost before = views(lines@).take(i as int);
        let ghost after = views(lines@).take(i + 1);
        proof {
            assert(after.drop_last() =~= before);
        }
        if i > 0 {
            out.append(sep);
        }
        out.append(lines[i].as_str());
        i = i + 1;
    }
    assert(views(lines@).take(lines.len() as int) =~= views(lines@));
}

} // verus!
