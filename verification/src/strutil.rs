use vstd::prelude::*;

verus! {

/// Relies on `String::push_str`: appends the given slice onto the end of the
/// string.
pub assume_specification[ String::push_str ](s: &mut String, other: &str)
    ensures
        final(s)@ == old(s)@ + other@,
;

/// Relies on `String::push`: appends the character onto the end of the
/// string.
pub assume_specification[ String::push ](s: &mut String, c: char)
    ensures
        final(s)@ == old(s)@.push(c),
;

/// Relies on `str`'s `==`: true exactly when the two slices have equal
/// contents.
#[verifier::external_body]
pub fn str_eq(a: &str, b: &str) -> (r: bool)
    ensures
        r == (a@ == b@),
{
    a == b
}

/// The sequence with its leading spaces removed.
pub open spec fn trim_start_spaces(s: Seq<char>) -> Seq<char>
    decreases s.len(),
{
    if s.len() > 0 && s[0] == ' ' {
        trim_start_spaces(s.drop_first())
    } else {
        s
    }
}

/// The sequence with its trailing spaces removed.
pub open spec fn trim_end_spaces(s: Seq<char>) -> Seq<char>
    decreases s.len(),
{
    if s.len() > 0 && s.last() == ' ' {
        trim_end_spaces(s.drop_last())
    } else {
        s
    }
}

/// The sequence with leading and trailing spaces removed.
pub open spec fn trim_spaces_spec(s: Seq<char>) -> Seq<char> {
    trim_start_spaces(trim_end_spaces(s))
}

proof fn lemma_trim_end_step(s: Seq<char>, e: int)
    requires
        0 < e <= s.len(),
        s[e - 1] == ' ',
    ensures
        trim_end_spaces(s.subrange(0, e)) == trim_end_spaces(s.subrange(0, e - 1)),
{
    assert(s.subrange(0, e).drop_last() =~= s.subrange(0, e - 1));
}

proof fn lemma_trim_start_step(s: Seq<char>, b: int, e: int)
    requires
        0 <= b < e <= s.len(),
        s[b] == ' ',
    ensures
        trim_start_spaces(s.subrange(b, e)) == trim_start_spaces(s.subrange(b + 1, e)),
{
    assert(s.subrange(b, e).drop_first() =~= s.subrange(b + 1, e));
}

/// Strips leading and trailing spaces.
pub fn trim_spaces(s: &str) -> (r: String)
    ensures
        r@ == trim_spaces_spec(s@),
{
    let n = s.unicode_len();
    proof {
        assert(s@.subrange(0, n as int) =~= s@);
    }
    let mut end: usize = n;
    while end > 0 && s.get_char(end - 1) == ' '
        invariant
            0 <= end <= n,
            n == s@.len(),
            trim_end_spaces(s@) == trim_end_spaces(s@.subrange(0, end as int)),
        decreases end,
    {
        proof {
            lemma_trim_end_step(s@, end as int);
        }
        end -= 1;
    }
    proof {
        assert(s@.subrange(0, n as int) =~= s@);
        assert(trim_end_spaces(s@.subrange(0, end as int)) == s@.subrange(0, end as int));
    }
    let mut start: usize = 0;
    while start < end && s.get_char(start) == ' '
        invariant
            0 <= start <= end <= n,
            n == s@.len(),
            trim_end_spaces(s@) == s@.subrange(0, end as int),
            trim_start_spaces(s@.subrange(0, end as int)) == trim_start_spaces(
                s@.subrange(start as int, end as int),
            ),
        decreases end - start,
    {
        proof {
            lemma_trim_start_step(s@, start as int, end as int);
        }
        start += 1;
    }
    proof {
        assert(trim_start_spaces(s@.subrange(start as int, end as int)) == s@.subrange(
            start as int,
            end as int,
        ));
    }
    let out = s.substring_char(start, end);
    out.to_owned()
}

/// The decimal digits of `n`, most significant first.
pub open spec fn dec_digits(n: nat) -> Seq<char>
    decreases n,
{
    if n < 10 {
        seq![dec_digit(n)]
    } else {
        dec_digits(n / 10).push(dec_digit(n % 10))
    }
}

pub open spec fn dec_digit(d: nat) -> char {
    if d == 0 {
        '0'
    } else if d == 1 {
        '1'
    } else if d == 2 {
        '2'
    } else if d == 3 {
        '3'
    } else if d == 4 {
        '4'
    } else if d == 5 {
        '5'
    } else if d == 6 {
        '6'
    } else if d == 7 {
        '7'
    } else if d == 8 {
        '8'
    } else {
        '9'
    }
}

fn dec_digit_char(d: u64) -> (c: char)
    requires
        d < 10,
    ensures
        c == dec_digit(d as nat),
{
    match d {
        0 => '0',
        1 => '1',
        2 => '2',
        3 => '3',
        4 => '4',
        5 => '5',
        6 => '6',
        7 => '7',
        8 => '8',
        _ => '9',
    }
}

/// Formats an unsigned number in decimal.
pub fn fmt_u64(n: u64) -> (r: String)
    ensures
        r@ == dec_digits(n as nat),
    decreases n,
{
    let mut s = if n >= 10 {
        fmt_u64(n / 10)
    } else {
        String::new()
    };
    s.push(dec_digit_char(n % 10));
    assert(n >= 10 ==> dec_digits(n as nat) == dec_digits(n as nat / 10).push(
        dec_digit(n as nat % 10),
    ));
    assert(n < 10 ==> dec_digits(n as nat) == seq![dec_digit(n as nat)]);
    assert(s@ =~= dec_digits(n as nat));
    s
}

pub fn fmt_u32(n: u32) -> (r: String)
    ensures
        r@ == dec_digits(n as nat),
{
    fmt_u64(n as u64)
}

/// The textual form of a signed number: a minus sign for negative values,
/// then the decimal digits of its magnitude.
pub open spec fn dec_digits_i64(n: int) -> Seq<char> {
    if n < 0 {
        seq!['-'] + dec_digits((-n) as nat)
    } else {
        dec_digits(n as nat)
    }
}

pub fn fmt_i64(n: i64) -> (r: String)
    ensures
        r@ == dec_digits_i64(n as int),
{
    if n < 0 {
        let mut s = String::new();
        s.push('-');
        let mag: u64 = if n == i64::MIN {
            9223372036854775808u64
        } else {
            (-n) as u64
        };
        let digits = fmt_u64(mag);
        s.push_str(digits.as_str());
        assert(s@ =~= dec_digits_i64(n as int));
        s
    } else {
        let s = fmt_u64(n as u64);
        s
    }
}

pub fn fmt_i32(n: i32) -> (r: String)
    ensures
        r@ == dec_digits_i64(n as int),
{
    fmt_i64(n as i64)
}

/// The hexadecimal digits of `n`, upper case, most significant first.
pub open spec fn hex_digits(n: nat) -> Seq<char>
    decreases n,
{
    if n < 16 {
        seq![hex_digit(n)]
    } else {
        hex_digits(n / 16).push(hex_digit(n % 16))
    }
}

pub open spec fn hex_digit(d: nat) -> char {
    if d < 10 {
        dec_digit(d)
    } else if d == 10 {
        'A'
    } else if d == 11 {
        'B'
    } else if d == 12 {
        'C'
    } else if d == 13 {
        'D'
    } else if d == 14 {
        'E'
    } else {
        'F'
    }
}

fn hex_digit_char(d: u64) -> (c: char)
    requires
        d < 16,
    ensures
        c == hex_digit(d as nat),
{
    match d {
        10 => 'A',
        11 => 'B',
        12 => 'C',
        13 => 'D',
        14 => 'E',
        15 => 'F',
        _ => dec_digit_char(d),
    }
}

fn fmt_hex_u64(n: u64) -> (r: String)
    ensures
        r@ == hex_digits(n as nat),
    decreases n,
{
    let mut s = if n >= 16 {
        fmt_hex_u64(n / 16)
    } else {
        String::new()
    };
    s.push(hex_digit_char(n % 16));
    assert(n >= 16 ==> hex_digits(n as nat) == hex_digits(n as nat / 16).push(
        hex_digit(n as nat % 16),
    ));
    assert(n < 16 ==> hex_digits(n as nat) == seq![hex_digit(n as nat)]);
    assert(s@ =~= hex_digits(n as nat));
    s
}

/// Formats a number as upper-case hexadecimal with a `0x` prefix.
pub open spec fn hex_form(n: nat) -> Seq<char> {
    seq!['0', 'x'] + hex_digits(n)
}

pub fn fmt_hex_u16(n: u16) -> (r: String)
    ensures
        r@ == hex_form(n as nat),
{
    let mut s = String::new();
    s.push('0');
    s.push('x');
    let digits = fmt_hex_u64(n as u64);
    s.push_str(digits.as_str());
    assert(s@ =~= hex_form(n as nat));
    s
}

} // verus!
