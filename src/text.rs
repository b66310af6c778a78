//! Character-level helpers shared by the formatter and the locale table:
//! whitespace trimming, decimal rendering and integer parsing, all stated
//! over `Seq<char>`.
use vstd::prelude::*;
use vstd::string::*;

verus! {

/// `char::is_whitespace`: the characters with Unicode's `White_Space` property.
pub open spec fn is_space(c: char) -> bool {
    let u = c as int;
    (0x09 <= u && u <= 0x0D) || u == 0x20 || u == 0x85 || u == 0xA0 || u == 0x1680
        || (0x2000 <= u && u <= 0x200A) || u == 0x2028 || u == 0x2029 || u == 0x202F
        || u == 0x205F || u == 0x3000
}

pub open spec fn trim_start(s: Seq<char>) -> Seq<char>
    decreases s.len(),
{
    if s.len() > 0 && is_space(s[0]) {
        trim_start(s.drop_first())
    } else {
        s
    }
}

pub open spec fn trim_end(s: Seq<char>) -> Seq<char>
    decreases s.len(),
{
    if s.len() > 0 && is_space(s.last()) {
        trim_end(s.drop_last())
    } else {
        s
    }
}

/// `str::trim`: leading and trailing whitespace removed.
pub open spec fn trim(s: Seq<char>) -> Seq<char> {
    trim_end(trim_start(s))
}

pub fn is_space_char(c: char) -> (r: bool)
    ensures
        r == is_space(c),
{
    let u = c as u32;
    (0x09 <= u && u <= 0x0D) || u == 0x20 || u == 0x85 || u == 0xA0 || u == 0x1680 || (0x2000
        <= u && u <= 0x200A) || u == 0x2028 || u == 0x2029 || u == 0x202F || u == 0x205F || u
        == 0x3000
}

/// The bounds of `trim(s[lo..hi])` inside `s`.
pub fn trim_range(s: &Vec<char>, lo: usize, hi: usize) -> (r: (usize, usize))
    requires
        lo <= hi <= s.len(),
    ensures
        lo <= r.0 <= r.1 <= hi,
        s@.subrange(r.0 as int, r.1 as int) == trim(s@.subrange(lo as int, hi as int)),
{
    let mut a = lo;
    while a < hi && is_space_char(s[a])
        invariant
            lo <= a <= hi <= s.len(),
            trim_start(s@.subrange(lo as int, hi as int)) == trim_start(
                s@.subrange(a as int, hi as int),
            ),
        decreases hi - a,
    {
        assert(s@.subrange(a as int, hi as int).drop_first() =~= s@.subrange(
            a + 1,
            hi as int,
        ));
        a = a + 1;
    }
    let mut b = hi;
    while b > a && is_space_char(s[b - 1])
        invariant
            lo <= a <= b <= hi <= s.len(),
            trim(s@.subrange(lo as int, hi as int)) == trim_end(s@.subrange(a as int, b as int)),
        decreases b - a,
    {
        assert(s@.subrange(a as int, b as int).drop_last() =~= s@.subrange(
            a as int,
            b - 1,
        ));
        b = b - 1;
    }
    (a, b)
}

/// The characters of `s`, in order.
pub fn chars_of(s: &str) -> (v: Vec<char>)
    ensures
        v@ == s@,
{
    let n = s.unicode_len();
    let mut v: Vec<char> = Vec::new();
    let mut i: usize = 0;
    while i < n
        invariant
            n == s@.len(),
            i <= n,
            v@ == s@.subrange(0, i as int),
        decreases n - i,
    {
        let c = s.get_char(i);
        v.push(c);
        i = i + 1;
        assert(v@ =~= s@.subrange(0, i as int));
    }
    assert(v@ =~= s@);
    v
}

pub open spec fn digit_char(d: int) -> char {
    if d == 0 {
        '0'
    } else if d == 1 {
        '1'
    } else if d == 2 {
        '2'
    } else if d == 3 {
        '3'
    } else if d == 4 {
        '4'
    } else if d == 5 {
        '5'
    } else if d == 6 {
        '6'
    } else if d == 7 {
        '7'
    } else if d == 8 {
        '8'
    } else {
        '9'
    }
}

/// Decimal digits of a natural number, most significant first, no leading zeros.
pub open spec fn digits(n: nat) -> Seq<char>
    decreases n,
{
    if n < 10 {
        seq![digit_char(n as int)]
    } else {
        digits(n / 10) + seq![digit_char((n % 10) as int)]
    }
}

/// What `Display` writes for an integer.
pub open spec fn decimal(n: int) -> Seq<char> {
    if n < 0 {
        seq!['-'] + digits((-n) as nat)
    } else {
        digits(n as nat)
    }
}

fn digit_str(d: u8) -> (r: &'static str)
    requires
        d < 10,
    ensures
        r@ == seq![digit_char(d as int)],
{
    proof {
        reveal_strlit("0");
        reveal_strlit("1");
        reveal_strlit("2");
        reveal_strlit("3");
        reveal_strlit("4");
        reveal_strlit("5");
        reveal_strlit("6");
        reveal_strlit("7");
        reveal_strlit("8");
        reveal_strlit("9");
    }
    let r = match d {
        0 => "0",
        1 => "1",
        2 => "2",
        3 => "3",
        4 => "4",
        5 => "5",
        6 => "6",
        7 => "7",
        8 => "8",
        _ => "9",
    };
    assert(r@ =~= seq![digit_char(d as int)]);
    r
}

fn push_digits(out: &mut String, m: u128)
    ensures
        final(out)@ == old(out)@ + digits(m as nat),
    decreases m,
{
    if m >= 10 {
        push_digits(out, m / 10);
    }
    out.append(digit_str((m % 10) as u8));
    assert(final(out)@ =~= old(out)@ + digits(m as nat));
}

/// Appends the decimal form of `n` to `out`.
pub fn push_decimal(out: &mut String, n: i128)
    requires
        n > i128::MIN,
    ensures
        final(out)@ == old(out)@ + decimal(n as int),
{
    if n < 0 {
        proof {
            reveal_strlit("-");
        }
        out.append("-");
        push_digits(out, (-n) as u128);
        assert(final(out)@ =~= old(out)@ + decimal(n as int));
    } else {
        push_digits(out, n as u128);
    }
}

/// Why a string is not an integer, as `std::num::IntErrorKind` tells it.
#[derive(Clone, Copy, Debug, PartialEq, Eq, Structural)]
pub enum IntErrorKind {
    Empty,
    InvalidDigit,
    PosOverflow,
    NegOverflow,
}

impl IntErrorKind {
    pub open spec fn text(self) -> Seq<char> {
        match self {
            IntErrorKind::Empty => "cannot parse integer from empty string"@,
            IntErrorKind::InvalidDigit => "invalid digit found in string"@,
            IntErrorKind::PosOverflow => "number too large to fit in target type"@,
            IntErrorKind::NegOverflow => "number too small to fit in target type"@,
        }
    }

    /// What `ParseIntError` displays for this kind.
    pub fn describe(&self) -> (r: &'static str)
        ensures
            r@ == self.text(),
    {
        match self {
            IntErrorKind::Empty => "cannot parse integer from empty string",
            IntErrorKind::InvalidDigit => "invalid digit found in string",
            IntErrorKind::PosOverflow => "number too large to fit in target type",
            IntErrorKind::NegOverflow => "number too small to fit in target type",
        }
    }
}

/// The value of a decimal digit.
pub open spec fn digit_of(c: char) -> Option<int> {
    if c == '0' {
        Some(0)
    } else if c == '1' {
        Some(1)
    } else if c == '2' {
        Some(2)
    } else if c == '3' {
        Some(3)
    } else if c == '4' {
        Some(4)
    } else if c == '5' {
        Some(5)
    } else if c == '6' {
        Some(6)
    } else if c == '7' {
        Some(7)
    } else if c == '8' {
        Some(8)
    } else if c == '9' {
        Some(9)
    } else {
        None
    }
}

pub open spec fn is_digit(c: char) -> bool {
    digit_of(c) is Some
}

pub open spec fn digit_value(c: char) -> int {
    digit_of(c)->Some_0
}

fn digit_exec(c: char) -> (r: Option<u8>)
    ensures
        match r {
            Some(d) => digit_of(c) == Some(d as int) && d < 10,
            None => digit_of(c) is None,
        },
{
    match c {
        '0' => Some(0),
        '1' => Some(1),
        '2' => Some(2),
        '3' => Some(3),
        '4' => Some(4),
        '5' => Some(5),
        '6' => Some(6),
        '7' => Some(7),
        '8' => Some(8),
        '9' => Some(9),
        _ => None,
    }
}

/// Reads the digits of `s` onto `acc`, failing at the first non-digit or at
/// the first digit that takes the value out of `[min, max]`.
pub open spec fn scan_digits(acc: int, s: Seq<char>, neg: bool, min: int, max: int) -> Result<
    int,
    IntErrorKind,
>
    decreases s.len(),
{
    if s.len() == 0 {
        Ok(acc)
    } else if !is_digit(s[0]) {
        Err(IntErrorKind::InvalidDigit)
    } else {
        let v = if neg {
            acc * 10 - digit_value(s[0])
        } else {
            acc * 10 + digit_value(s[0])
        };
        if v > max {
            Err(IntErrorKind::PosOverflow)
        } else if v < min {
            Err(IntErrorKind::NegOverflow)
        } else {
            scan_digits(v, s.drop_first(), neg, min, max)
        }
    }
}

/// `str::parse` for an integer type with range `[min, max]`: an optional
/// sign (`-` only where the type is signed), then decimal digits.
pub open spec fn parse_int(s: Seq<char>, signed: bool, min: int, max: int) -> Result<
    int,
    IntErrorKind,
> {
    if s.len() == 0 {
        Err(IntErrorKind::Empty)
    } else if (s[0] == '+' || s[0] == '-') && s.len() == 1 {
        Err(IntErrorKind::InvalidDigit)
    } else if s[0] == '+' {
        scan_digits(0, s.drop_first(), false, min, max)
    } else if s[0] == '-' && signed {
        scan_digits(0, s.drop_first(), true, min, max)
    } else {
        scan_digits(0, s, false, min, max)
    }
}

/// `s.parse::<i64>()`.
pub open spec fn parse_i64(s: Seq<char>) -> Result<i64, IntErrorKind> {
    match parse_int(s, true, i64::MIN as int, i64::MAX as int) {
        Ok(v) => Ok(v as i64),
        Err(e) => Err(e),
    }
}

/// `s.parse::<usize>()`.
pub open spec fn parse_usize(s: Seq<char>) -> Result<usize, IntErrorKind> {
    match parse_int(s, false, 0, usize::MAX as int) {
        Ok(v) => Ok(v as usize),
        Err(e) => Err(e),
    }
}

fn parse_integer(s: &Vec<char>, lo: usize, hi: usize, signed: bool, min: i128, max: i128) -> (r:
    Result<i128, IntErrorKind>)
    requires
        lo <= hi <= s.len(),
        -0x1_0000_0000_0000_0000 <= min <= 0 <= max <= 0x1_0000_0000_0000_0000,
    ensures
        match r {
            Ok(x) => parse_int(s@.subrange(lo as int, hi as int), signed, min as int, max as int)
                == Ok::<int, IntErrorKind>(x as int),
            Err(k) => parse_int(s@.subrange(lo as int, hi as int), signed, min as int, max as int)
                == Err::<int, IntErrorKind>(k),
        },
{
    let ghost t = s@.subrange(lo as int, hi as int);
    if lo == hi {
        return Err(IntErrorKind::Empty);
    }
    let first = s[lo];
    if (first == '+' || first == '-') && hi - lo == 1 {
        return Err(IntErrorKind::InvalidDigit);
    }
    let mut i = lo;
    let mut neg = false;
    if first == '+' {
        i = lo + 1;
    } else if first == '-' && signed {
        i = lo + 1;
        neg = true;
    }
    assert(parse_int(t, signed, min as int, max as int) == scan_digits(
        0,
        s@.subrange(i as int, hi as int),
        neg,
        min as int,
        max as int,
    )) by {
        assert(t.drop_first() =~= s@.subrange(lo + 1, hi as int));
    }
    let mut acc: i128 = 0;
    while i < hi
        invariant
            lo <= i <= hi <= s.len(),
            -0x1_0000_0000_0000_0000 <= min <= 0 <= max <= 0x1_0000_0000_0000_0000,
            t == s@.subrange(lo as int, hi as int),
            min <= acc <= max,
            neg ==> acc <= 0,
            !neg ==> acc >= 0,
            parse_int(t, signed, min as int, max as int) == scan_digits(
                acc as int,
                s@.subrange(i as int, hi as int),
                neg,
                min as int,
                max as int,
            ),
        decreases hi - i,
    {
        let ghost rest = s@.subrange(i as int, hi as int);
        assert(rest[0] == s[i as int]);
        assert(rest.drop_first() =~= s@.subrange(i + 1, hi as int));
        let d = match digit_exec(s[i]) {
            Some(d) => d as i128,
            None => {
                return Err(IntErrorKind::InvalidDigit);
            },
        };
        assert(-0x10_0000_0000_0000_0000 <= acc * 10 <= 0x10_0000_0000_0000_0000) by (nonlinear_arith)
            requires
                -0x1_0000_0000_0000_0000 <= acc <= 0x1_0000_0000_0000_0000,
        ;
        let v = if neg {
            acc * 10 - d
        } else {
            acc * 10 + d
        };
        if v > max {
            return Err(IntErrorKind::PosOverflow);
        }
        if v < min {
            return Err(IntErrorKind::NegOverflow);
        }
        acc = v;
        i = i + 1;
    }
    Ok(acc)
}

/// `s[lo..hi].parse::<i64>()`.
pub fn parse_i64_in(s: &Vec<char>, lo: usize, hi: usize) -> (r: Result<i64, IntErrorKind>)
    requires
        lo <= hi <= s.len(),
    ensures
        r == parse_i64(s@.subrange(lo as int, hi as int)),
{
    match parse_integer(s, lo, hi, true, i64::MIN as i128, i64::MAX as i128) {
        Ok(v) => Ok(v as i64),
        Err(e) => Err(e),
    }
}

/// `s[lo..hi].parse::<usize>()`.
pub fn parse_usize_in(s: &Vec<char>, lo: usize, hi: usize) -> (r: Result<usize, IntErrorKind>)
    requires
        lo <= hi <= s.len(),
    ensures
        r == parse_usize(s@.subrange(lo as int, hi as int)),
{
    match parse_integer(s, lo, hi, false, 0, usize::MAX as i128) {
        Ok(v) => Ok(v as usize),
        Err(e) => Err(e),
    }
}

/// `s` cut at each `sep`, from `start`, having looked up to `i`.
pub open spec fn split_from(s: Seq<char>, sep: char, start: int, i: int) -> Seq<Seq<char>>
    decreases s.len() - i,
{
    if i >= s.len() {
        seq![s.subrange(start, s.len() as int)]
    } else if s[i] == sep {
        seq![s.subrange(start, i)] + split_from(s, sep, i + 1, i + 1)
    } else {
        split_from(s, sep, start, i + 1)
    }
}

/// `str::split`: the pieces of `s` between the occurrences of `sep`.
pub open spec fn split_on(s: Seq<char>, sep: char) -> Seq<Seq<char>> {
    split_from(s, sep, 0, 0)
}

/// The views of vectors of characters.
pub open spec fn char_seqs(v: Seq<Vec<char>>) -> Seq<Seq<char>> {
    v.map_values(|x: Vec<char>| x@)
}

/// Cuts `s` at each `sep`.
pub fn split_chars(s: &Vec<char>, sep: char) -> (r: Vec<Vec<char>>)
    ensures
        char_seqs(r@) == split_on(s@, sep),
{
    let n = s.len();
    let mut out: Vec<Vec<char>> = Vec::new();
    let mut piece: Vec<char> = Vec::new();
    let mut start: usize = 0;
    let mut i: usize = 0;
    assert(char_seqs(out@) + split_on(s@, sep) =~= split_on(s@, sep));
    while i < n
        invariant
            n == s.len(),
            start <= i <= n,
            piece@ == s@.subrange(start as int, i as int),
            split_on(s@, sep) == char_seqs(out@) + split_from(s@, sep, start as int, i as int),
        decreases n - i,
    {
        if s[i] == sep {
            let ghost before = char_seqs(out@);
            let ghost p = piece@;
            out.push(piece);
            assert(char_seqs(out@) =~= before.push(p));
            assert(before + (seq![p] + split_from(s@, sep, i + 1, i + 1)) =~= before.push(p)
                + split_from(s@, sep, i + 1, i + 1));
            piece = Vec::new();
            start = i + 1;
            assert(piece@ =~= s@.subrange(start as int, start as int));
        } else {
            piece.push(s[i]);
            assert(piece@ =~= s@.subrange(start as int, i + 1));
        }
        i = i + 1;
    }
    let ghost before = char_seqs(out@);
    let ghost p = piece@;
    out.push(piece);
    assert(char_seqs(out@) =~= before + seq![p]);
    out
}

} // verus!
