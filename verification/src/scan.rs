//! Reading text: trimming, searching, and the numerals of sysfs attributes
//! and path segments.

use vstd::prelude::*;
use vstd::string::*;

verus! {

/// Whether `c` has the Unicode property White_Space.
pub open spec fn is_whitespace(c: char) -> bool {
    let u = c as u32;
    ||| (0x09 <= u && u <= 0x0D)
    ||| u == 0x20
    ||| u == 0x85
    ||| u == 0xA0
    ||| u == 0x1680
    ||| (0x2000 <= u && u <= 0x200A)
    ||| u == 0x2028
    ||| u == 0x2029
    ||| u == 0x202F
    ||| u == 0x205F
    ||| u == 0x3000
}

/// `s` without the whitespace at its start and at its end.
pub open spec fn trim_spec(s: Seq<char>) -> Seq<char>
    decreases s.len(),
{
    if s.len() == 0 {
        s
    } else if is_whitespace(s.first()) {
        trim_spec(s.drop_first())
    } else if is_whitespace(s.last()) {
        trim_spec(s.drop_last())
    } else {
        s
    }
}

/// Index of the first `c` in `s`, if it occurs.
pub open spec fn find_spec(s: Seq<char>, c: char) -> Option<int>
    decreases s.len(),
{
    if s.len() == 0 {
        None
    } else if s.first() == c {
        Some(0)
    } else {
        match find_spec(s.drop_first(), c) {
            Some(i) => Some(i + 1),
            None => None,
        }
    }
}

/// Index of the last `c` in `s`, if it occurs.
pub open spec fn rfind_spec(s: Seq<char>, c: char) -> Option<int>
    decreases s.len(),
{
    if s.len() == 0 {
        None
    } else if s.last() == c {
        Some(s.len() - 1)
    } else {
        rfind_spec(s.drop_last(), c)
    }
}

/// Value of `c` as a digit in the given radix (10 or 16), if it is one.
/// Hexadecimal letters count in either case.
pub open spec fn digit_value(c: char, radix: nat) -> Option<nat> {
    let u = c as u32;
    if 0x30 <= u && u <= 0x39 {
        Some((u - 0x30) as nat)
    } else if radix == 16 && 0x61 <= u && u <= 0x66 {
        Some((u - 0x61 + 10) as nat)
    } else if radix == 16 && 0x41 <= u && u <= 0x46 {
        Some((u - 0x41 + 10) as nat)
    } else {
        None
    }
}

/// Whether every character of `s` is a digit in the radix.
pub open spec fn all_digits(s: Seq<char>, radix: nat) -> bool {
    forall|i: int| 0 <= i < s.len() ==> digit_value(#[trigger] s[i], radix) is Some
}

/// Value of a run of digits, most significant first.
pub open spec fn number_value(s: Seq<char>, radix: nat) -> nat
    decreases s.len(),
{
    if s.len() == 0 {
        0
    } else {
        number_value(s.drop_last(), radix) * radix + digit_value(s.last(), radix).unwrap()
    }
}

/// The number that `s` denotes in hexadecimal as a `u16`: an optional `+`,
/// then one or more hexadecimal digits, of a value up to 65535.
pub open spec fn parse_hex_u16_spec(s: Seq<char>) -> Option<u16> {
    let body = if s.len() > 0 && s[0] == '+' {
        s.skip(1)
    } else {
        s
    };
    if body.len() == 0 || !all_digits(body, 16) || number_value(body, 16) > u16::MAX {
        None
    } else {
        Some(number_value(body, 16) as u16)
    }
}

/// The number that `s` denotes in decimal as an `i32`: an optional `+` or
/// `-`, then one or more decimal digits, of a value that an `i32` holds.
pub open spec fn parse_i32_spec(s: Seq<char>) -> Option<i32> {
    let negative = s.len() > 0 && s[0] == '-';
    let body = if s.len() > 0 && (s[0] == '+' || s[0] == '-') {
        s.skip(1)
    } else {
        s
    };
    let magnitude = number_value(body, 10) as int;
    let value = if negative {
        -magnitude
    } else {
        magnitude
    };
    if body.len() == 0 || !all_digits(body, 10) || value < i32::MIN || value > i32::MAX {
        None
    } else {
        Some(value as i32)
    }
}

/// The characters of a string.
pub fn chars_of(s: &str) -> (v: Vec<char>)
    ensures
        v@ == s@,
{
    let n = s.unicode_len();
    let mut v: Vec<char> = Vec::new();
    let mut i: usize = 0;
    while i < n
        invariant
            i <= n,
            n == s@.len(),
            v@ == s@.take(i as int),
        decreases n - i,
    {
        v.push(s.get_char(i));
        i = i + 1;
        assert(v@ =~= s@.take(i as int));
    }
    assert(s@.take(n as int) =~= s@);
    v
}

/// Whether `c` is whitespace.
pub fn char_is_whitespace(c: char) -> (b: bool)
    ensures
        b == is_whitespace(c),
{
    let u = c as u32;
    (0x09 <= u && u <= 0x0D) || u == 0x20 || u == 0x85 || u == 0xA0 || u == 0x1680 || (0x2000 <= u
        && u <= 0x200A) || u == 0x2028 || u == 0x2029 || u == 0x202F || u == 0x205F || u
        == 0x3000
}

/// Returns `s` with leading and trailing whitespace removed.
pub fn trim(s: &str) -> (t: String)
    ensures
        t@ == trim_spec(s@),
{
    let chars = chars_of(s);
    let n = chars.len();
    let mut start: usize = 0;
    assert(s@.subrange(0, n as int) =~= s@);
    while start < n && char_is_whitespace(chars[start])
        invariant
            start <= n,
            n == s@.len(),
            chars@ == s@,
            trim_spec(s@) == trim_spec(s@.subrange(start as int, n as int)),
        decreases n - start,
    {
        assert(s@.subrange(start as int, n as int).drop_first() =~= s@.subrange(
            start + 1,
            n as int,
        ));
        start = start + 1;
    }
    let mut end: usize = n;
    while end > start && char_is_whitespace(chars[end - 1])
        invariant
            start <= end <= n,
            n == s@.len(),
            chars@ == s@,
            start < n ==> !is_whitespace(s@[start as int]),
            trim_spec(s@) == trim_spec(s@.subrange(start as int, end as int)),
        decreases end - start,
    {
        assert(s@.subrange(start as int, end as int).drop_last() =~= s@.subrange(
            start as int,
            end - 1,
        ));
        end = end - 1;
    }
    String::from_str(s.substring_char(start, end))
}

/// Value of a digit character in radix 10 or 16.
fn digit_of(c: char, radix: u32) -> (d: Option<u32>)
    requires
        radix == 10 || radix == 16,
    ensures
        match d {
            Some(v) => digit_value(c, radix as nat) == Some(v as nat) && v < radix,
            None => digit_value(c, radix as nat) is None,
        },
{
    let u = c as u32;
    if 0x30 <= u && u <= 0x39 {
        Some(u - 0x30)
    } else if radix == 16 && 0x61 <= u && u <= 0x66 {
        Some(u - 0x61 + 10)
    } else if radix == 16 && 0x41 <= u && u <= 0x46 {
        Some(u - 0x41 + 10)
    } else {
        None
    }
}

/// The smaller of two numbers.
pub open spec fn min_nat(a: nat, b: nat) -> nat {
    if a <= b {
        a
    } else {
        b
    }
}

/// Reads `chars[from..to]` as digits. Gives their value, capped at `cap`, or
/// nothing if a character is no digit.
fn read_digits(chars: &Vec<char>, from: usize, to: usize, radix: u32, cap: u64) -> (r: Option<u64>)
    requires
        radix == 10 || radix == 16,
        from <= to <= chars@.len(),
        cap <= 0x1_0000_0000,
    ensures
        match r {
            Some(v) => all_digits(chars@.subrange(from as int, to as int), radix as nat) && v
                == min_nat(
                number_value(chars@.subrange(from as int, to as int), radix as nat),
                cap as nat,
            ),
            None => !all_digits(chars@.subrange(from as int, to as int), radix as nat),
        },
{
    let ghost body = chars@.subrange(from as int, to as int);
    let mut acc: u64 = 0;
    let mut i: usize = from;
    assert(body.take(0) =~= Seq::<char>::empty());
    while i < to
        invariant
            from <= i <= to <= chars@.len(),
            body == chars@.subrange(from as int, to as int),
            radix == 10 || radix == 16,
            cap <= 0x1_0000_0000,
            all_digits(body.take(i - from), radix as nat),
            acc == min_nat(number_value(body.take(i - from), radix as nat), cap as nat),
        decreases to - i,
    {
        let ghost prefix = body.take(i - from);
        let ghost longer = body.take(i - from + 1);
        assert(longer.drop_last() =~= prefix);
        assert(longer.last() == chars@[i as int]);
        match digit_of(chars[i], radix) {
            None => {
                assert(body[i - from] == chars@[i as int]);
                return None;
            },
            Some(d) => {
                assert forall|k: int| 0 <= k < longer.len() implies digit_value(
                    #[trigger] longer[k],
                    radix as nat,
                ) is Some by {
                    if k < prefix.len() {
                        assert(longer[k] == prefix[k]);
                    }
                }
                let ghost exact = number_value(prefix, radix as nat);
                assert(number_value(longer, radix as nat) == exact * (radix as nat) + d);
                assert(exact >= cap ==> exact * (radix as nat) + d >= cap) by (nonlinear_arith)
                    requires
                        radix >= 10,
                ;
                assert(acc * radix <= 0x10_0000_0000 && cap * radix >= cap) by (nonlinear_arith)
                    requires
                        acc <= cap,
                        cap <= 0x1_0000_0000,
                        10 <= radix <= 16,
                ;
                assert(exact <= cap ==> acc * radix == exact * (radix as nat));
                let next = acc * (radix as u64) + (d as u64);
                acc = if next > cap {
                    cap
                } else {
                    next
                };
            },
        }
        i = i + 1;
    }
    assert(body.take(to - from) =~= body);
    Some(acc)
}

/// Parses `chars[from..to]` as a hexadecimal `u16`.
pub fn parse_hex_u16_in(chars: &Vec<char>, from: usize, to: usize) -> (r: Option<u16>)
    requires
        from <= to <= chars@.len(),
    ensures
        r == parse_hex_u16_spec(chars@.subrange(from as int, to as int)),
{
    let ghost s = chars@.subrange(from as int, to as int);
    let start: usize = if from < to && chars[from] == '+' {
        from + 1
    } else {
        from
    };
    assert(s.skip(start - from) =~= chars@.subrange(start as int, to as int));
    if start == to {
        return None;
    }
    match read_digits(chars, start, to, 16, 0x1_0000) {
        None => None,
        Some(v) => if v > 0xFFFF {
            None
        } else {
            Some(v as u16)
        },
    }
}

/// Parses `chars[from..to]` as a decimal `i32`.
pub fn parse_i32_in(chars: &Vec<char>, from: usize, to: usize) -> (r: Option<i32>)
    requires
        from <= to <= chars@.len(),
    ensures
        r == parse_i32_spec(chars@.subrange(from as int, to as int)),
{
    let ghost s = chars@.subrange(from as int, to as int);
    let negative = from < to && chars[from] == '-';
    let start: usize = if from < to && (chars[from] == '+' || chars[from] == '-') {
        from + 1
    } else {
        from
    };
    assert(s.skip(start - from) =~= chars@.subrange(start as int, to as int));
    if start == to {
        return None;
    }
    match read_digits(chars, start, to, 10, 0x1_0000_0000) {
        None => None,
        Some(v) => if negative {
            if v > 0x8000_0000 {
                None
            } else {
                Some((-(v as i64)) as i32)
            }
        } else {
            if v > 0x7FFF_FFFF {
                None
            } else {
                Some(v as i32)
            }
        },
    }
}

/// Parses a hexadecimal `u16`: an optional `+`, then hexadecimal digits.
pub fn parse_hex_u16(s: &str) -> (r: Option<u16>)
    ensures
        r == parse_hex_u16_spec(s@),
{
    let chars = chars_of(s);
    assert(chars@.subrange(0, chars@.len() as int) =~= s@);
    parse_hex_u16_in(&chars, 0, chars.len())
}

/// Parses a decimal `i32`: an optional sign, then decimal digits.
pub fn parse_i32(s: &str) -> (r: Option<i32>)
    ensures
        r == parse_i32_spec(s@),
{
    let chars = chars_of(s);
    assert(chars@.subrange(0, chars@.len() as int) =~= s@);
    parse_i32_in(&chars, 0, chars.len())
}

/// Finds the first `c` in `chars[from..to]`, as an offset from `from`.
pub fn find_in(chars: &Vec<char>, from: usize, to: usize, c: char) -> (r: Option<usize>)
    requires
        from <= to <= chars@.len(),
    ensures
        match r {
            Some(i) => find_spec(chars@.subrange(from as int, to as int), c) == Some(i as int)
                && from + i < to,
            None => find_spec(chars@.subrange(from as int, to as int), c) is None,
        },
    decreases to - from,
{
    let ghost s = chars@.subrange(from as int, to as int);
    if from == to {
        None
    } else if chars[from] == c {
        Some(0)
    } else {
        assert(s.drop_first() =~= chars@.subrange(from + 1, to as int));
        match find_in(chars, from + 1, to, c) {
            Some(i) => Some(i + 1),
            None => None,
        }
    }
}

/// Finds the last `c` in `chars[from..to]`, as an offset from `from`.
pub fn rfind_in(chars: &Vec<char>, from: usize, to: usize, c: char) -> (r: Option<usize>)
    requires
        from <= to <= chars@.len(),
    ensures
        match r {
            Some(i) => rfind_spec(chars@.subrange(from as int, to as int), c) == Some(i as int)
                && from + i < to,
            None => rfind_spec(chars@.subrange(from as int, to as int), c) is None,
        },
{
    let mut end: usize = to;
    assert(chars@.subrange(from as int, to as int) =~= chars@.subrange(from as int, end as int));
    while end > from
        invariant
            from <= end <= to <= chars@.len(),
            rfind_spec(chars@.subrange(from as int, to as int), c) == rfind_spec(
                chars@.subrange(from as int, end as int),
                c,
            ),
        decreases end - from,
    {
        if chars[end - 1] == c {
            return Some(end - 1 - from);
        }
        assert(chars@.subrange(from as int, end as int).drop_last() =~= chars@.subrange(
            from as int,
            end - 1,
        ));
        end = end - 1;
    }
    None
}

} // verus!
