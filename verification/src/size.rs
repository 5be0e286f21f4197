//! Unit-aware numeric values for layout arithmetic.
//!
//! A [`Size`] is a number tagged with the unit it was written with in the
//! source markup: pixels (`"300px"`), a percentage (`"50%"`), or a bare
//! number (`"300"`). Values are stored in hundredths, so two decimal places
//! of the source notation are kept exactly; `Size::Pixel(30000)` is `300px`
//! and `Size::Percent(5000)` is `50%`.

use vstd::prelude::*;

verus! {

/// Largest magnitude, in hundredths, that a parsed size can carry: the
/// integer part of a size literal is at most six digits.
pub const MAX_PARSED_HUNDREDTHS: i64 = 100_000_000;

/// Largest magnitude, in hundredths, that the formatting routines accept.
/// Differences and sums of a few parsed sizes stay far below this bound.
pub const MAX_SIZE_HUNDREDTHS: i64 = 1_000_000_000_000;

/// A numeric value together with the unit of its source notation.
/// The payload is the value in hundredths.
#[derive(Clone, Copy, Debug, PartialEq, Eq, Structural)]
pub enum Size {
    Pixel(i64),
    Percent(i64),
    Raw(i64),
}

impl Size {
    /// The numeric value in hundredths, whatever the unit.
    pub open spec fn spec_value(self) -> int {
        match self {
            Size::Pixel(v) => v as int,
            Size::Percent(v) => v as int,
            Size::Raw(v) => v as int,
        }
    }

    /// The value is small enough for the formatting and layout arithmetic.
    pub open spec fn wf(self) -> bool {
        -MAX_SIZE_HUNDREDTHS <= self.spec_value() <= MAX_SIZE_HUNDREDTHS
    }

    /// The numeric value in hundredths, whatever the unit.
    pub fn value(&self) -> (r: i64)
        ensures
            r as int == self.spec_value(),
    {
        match self {
            Size::Pixel(v) => *v,
            Size::Percent(v) => *v,
            Size::Raw(v) => *v,
        }
    }

    /// The unit suffix of this size's notation.
    pub open spec fn spec_unit_str(self) -> Seq<char> {
        match self {
            Size::Pixel(_) => "px"@,
            Size::Percent(_) => "%"@,
            Size::Raw(_) => Seq::empty(),
        }
    }

    /// Full notation: the number followed by the unit suffix.
    pub open spec fn spec_str(self) -> Seq<char> {
        spec_fixed_str(self.spec_value()) + self.spec_unit_str()
    }

    /// Renders the size as it is written in markup, e.g. `600px` or `2.5%`.
    pub fn to_string(&self) -> (r: String)
        requires
            self.wf(),
        ensures
            r@ == self.spec_str(),
    {
        let mut s = fixed_to_string(self.value());
        match self {
            Size::Pixel(_) => {
                s.append("px");
            }
            Size::Percent(_) => {
                s.append("%");
            }
            Size::Raw(_) => {}
        }
        s
    }

    /// Renders only the number, without the unit suffix.
    pub fn value_string(&self) -> (r: String)
        requires
            self.wf(),
        ensures
            r@ == spec_fixed_str(self.spec_value()),
    {
        fixed_to_string(self.value())
    }
}

/// The decimal digit character for `d`.
pub open spec fn spec_digit_char(d: int) -> char {
    if d == 0 {
        '0'
    } else if d == 1 {
        '1'
    } else if d == 2 {
        '2'
    } else if d == 3 {
        '3'
    } else if d == 4 {
        '4'
    } else if d == 5 {
        '5'
    } else if d == 6 {
        '6'
    } else if d == 7 {
        '7'
    } else if d == 8 {
        '8'
    } else {
        '9'
    }
}

fn digit_str(d: u64) -> (r: &'static str)
    requires
        d < 10,
    ensures
        r@ =~= seq![spec_digit_char(d as int)],
{
    proof {
        reveal_strlit("0");
        reveal_strlit("1");
        reveal_strlit("2");
        reveal_strlit("3");
        reveal_strlit("4");
        reveal_strlit("5");
        reveal_strlit("6");
        reveal_strlit("7");
        reveal_strlit("8");
        reveal_strlit("9");
    }
    if d == 0 {
        "0"
    } else if d == 1 {
        "1"
    } else if d == 2 {
        "2"
    } else if d == 3 {
        "3"
    } else if d == 4 {
        "4"
    } else if d == 5 {
        "5"
    } else if d == 6 {
        "6"
    } else if d == 7 {
        "7"
    } else if d == 8 {
        "8"
    } else {
        "9"
    }
}

/// Decimal notation of `n`, most significant digit first, no leading zeros
/// except for `0` itself.
pub open spec fn spec_dec_str(n: nat) -> Seq<char>
    decreases n,
{
    if n < 10 {
        seq![spec_digit_char(n as int)]
    } else {
        spec_dec_str((n / 10) as nat).push(spec_digit_char((n % 10) as int))
    }
}

/// Decimal notation of an unsigned machine integer.
pub fn u64_to_dec_string(n: u64) -> (r: String)
    ensures
        r@ == spec_dec_str(n as nat),
    decreases n,
{
    if n < 10 {
        let s = digit_str(n);
        s.to_owned()
    } else {
        let mut s = u64_to_dec_string(n / 10);
        let d = digit_str(n % 10);
        s.append(d);
        proof {
            assert(s@ =~= spec_dec_str((n / 10) as nat).push(
                spec_digit_char((n % 10) as int),
            ));
        }
        s
    }
}

/// Notation of a value in hundredths: the integer part, then a fractional
/// part of one or two digits when it is non-zero, trailing zero trimmed.
pub open spec fn spec_fixed_str(v: int) -> Seq<char> {
    let sign: Seq<char> = if v < 0 {
        "-"@
    } else {
        Seq::empty()
    };
    let a = if v < 0 {
        -v
    } else {
        v
    };
    let ip = a / 100;
    let fr = a % 100;
    if fr == 0 {
        sign + spec_dec_str(ip as nat)
    } else if fr % 10 == 0 {
        sign + spec_dec_str(ip as nat) + "."@ + seq![spec_digit_char(fr / 10)]
    } else {
        sign + spec_dec_str(ip as nat) + "."@ + seq![
            spec_digit_char(fr / 10),
            spec_digit_char(fr % 10),
        ]
    }
}

/// Renders a value in hundredths as decimal notation.
pub fn fixed_to_string(v: i64) -> (r: String)
    requires
        -MAX_SIZE_HUNDREDTHS <= v <= MAX_SIZE_HUNDREDTHS,
    ensures
        r@ == spec_fixed_str(v as int),
{
    let mut s = String::new();
    if v < 0 {
        s.append("-");
    }
    let a: u64 = if v < 0 {
        (-v) as u64
    } else {
        v as u64
    };
    let ip = u64_to_dec_string(a / 100);
    s.append(ip.as_str());
    let fr = a % 100;
    if fr != 0 {
        s.append(".");
        let hi = digit_str(fr / 10);
        s.append(hi);
        if fr % 10 != 0 {
            let lo = digit_str(fr % 10);
            s.append(lo);
        }
    }
    proof {
        assert(s@ =~= spec_fixed_str(v as int));
    }
    s
}

/// `c` is a decimal digit.
pub open spec fn spec_is_digit(c: char) -> bool {
    48 <= (c as u32) <= 57
}

/// The numeric value of a digit character.
pub open spec fn spec_digit_val(c: char) -> int {
    (c as u32) as int - 48
}

/// All characters of `s` are decimal digits.
pub open spec fn spec_all_digits(s: Seq<char>) -> bool {
    forall|j: int| 0 <= j < s.len() ==> spec_is_digit(#[trigger] s[j])
}

/// The value of a digit string read in base ten.
pub open spec fn spec_digits_val(s: Seq<char>) -> int
    decreases s.len(),
{
    if s.len() == 0 {
        0
    } else {
        spec_digits_val(s.drop_last()) * 10 + spec_digit_val(s.last())
    }
}

pub open spec fn pow10(n: nat) -> int
    decreases n,
{
    if n == 0 {
        1
    } else {
        10 * pow10((n - 1) as nat)
    }
}

pub proof fn lemma_digits_val_bound(s: Seq<char>)
    requires
        spec_all_digits(s),
    ensures
        0 <= spec_digits_val(s) < pow10(s.len()),
    decreases s.len(),
{
    if s.len() > 0 {
        assert(spec_all_digits(s.drop_last()));
        lemma_digits_val_bound(s.drop_last());
        assert(spec_is_digit(s.last()));
    }
}

/// Index of the first `.` in `s`, or `s.len()` when there is none.
pub open spec fn spec_first_dot(s: Seq<char>) -> int
    decreases s.len(),
{
    if s.len() == 0 {
        0
    } else if s[0] == '.' {
        0
    } else {
        1 + spec_first_dot(s.drop_first())
    }
}

pub proof fn lemma_first_dot_props(s: Seq<char>)
    ensures
        0 <= spec_first_dot(s) <= s.len(),
        spec_first_dot(s) < s.len() ==> s[spec_first_dot(s)] == '.',
        forall|j: int| 0 <= j < spec_first_dot(s) ==> s[j] != '.',
    decreases s.len(),
{
    if s.len() > 0 && s[0] != '.' {
        lemma_first_dot_props(s.drop_first());
        assert forall|j: int| 0 <= j < spec_first_dot(s) implies s[j] != '.' by {
            if j > 0 {
                assert(s.drop_first()[j - 1] != '.');
            }
        }
    }
}

/// The number denoted by an unsigned size literal without its unit: one to
/// six integer digits, optionally followed by a dot and one or two
/// fractional digits. The result is in hundredths.
pub open spec fn spec_parse_unsigned(s: Seq<char>) -> Option<int> {
    let d = spec_first_dot(s);
    let ip = s.take(d);
    if ip.len() < 1 || ip.len() > 6 || !spec_all_digits(ip) {
        None
    } else if d == s.len() {
        Some(100 * spec_digits_val(ip))
    } else {
        let fr = s.skip(d + 1);
        if fr.len() == 1 && spec_is_digit(fr[0]) {
            Some(100 * spec_digits_val(ip) + 10 * spec_digit_val(fr[0]))
        } else if fr.len() == 2 && spec_is_digit(fr[0]) && spec_is_digit(fr[1]) {
            Some(100 * spec_digits_val(ip) + 10 * spec_digit_val(fr[0]) + spec_digit_val(fr[1]))
        } else {
            None
        }
    }
}

/// As [`spec_parse_unsigned`], with an optional leading minus sign.
pub open spec fn spec_parse_number(s: Seq<char>) -> Option<int> {
    if s.len() > 0 && s[0] == '-' {
        match spec_parse_unsigned(s.drop_first()) {
            Some(v) => Some(-v),
            None => None,
        }
    } else {
        spec_parse_unsigned(s)
    }
}

/// What parsing a size literal yields: the unit is read off the suffix
/// (`px`, `%`, or none) and the remaining text must be a number.
pub open spec fn spec_parse_size(s: Seq<char>) -> Option<Size> {
    if s.len() >= 1 && s[s.len() - 1] == '%' {
        match spec_parse_number(s.take(s.len() - 1)) {
            Some(v) => Some(Size::Percent(v as i64)),
            None => None,
        }
    } else if s.len() >= 2 && s[s.len() - 2] == 'p' && s[s.len() - 1] == 'x' {
        match spec_parse_number(s.take(s.len() - 2)) {
            Some(v) => Some(Size::Pixel(v as i64)),
            None => None,
        }
    } else {
        match spec_parse_number(s) {
            Some(v) => Some(Size::Raw(v as i64)),
            None => None,
        }
    }
}

pub proof fn lemma_parse_unsigned_bound(s: Seq<char>)
    ensures
        spec_parse_unsigned(s) matches Some(v) ==> 0 <= v < MAX_PARSED_HUNDREDTHS,
{
    let d = spec_first_dot(s);
    lemma_first_dot_props(s);
    let ip = s.take(d);
    if 1 <= ip.len() <= 6 && spec_all_digits(ip) {
        lemma_digits_val_bound(ip);
        assert(pow10(6) == 1000000) by {
            reveal_with_fuel(pow10, 7);
        }
        assert(ip.len() <= 6 ==> pow10(ip.len()) <= pow10(6)) by {
            lemma_pow10_le(ip.len(), 6);
        }
    }
}

pub proof fn lemma_pow10_le(m: nat, n: nat)
    requires
        m <= n,
    ensures
        pow10(m) <= pow10(n),
        pow10(m) >= 1,
    decreases n,
{
    if m < n {
        lemma_pow10_le(m, (n - 1) as nat);
    } else if n > 0 {
        lemma_pow10_le((m - 1) as nat, (n - 1) as nat);
    }
}

/// A parsed size is well within the arithmetic bounds.
pub proof fn lemma_parse_size_bounded(s: Seq<char>)
    ensures
        spec_parse_size(s) matches Some(sz) ==> -MAX_PARSED_HUNDREDTHS < sz.spec_value()
            < MAX_PARSED_HUNDREDTHS,
        spec_parse_size(s) matches Some(sz) ==> sz.wf(),
{
    lemma_parse_number_bound(s);
    if s.len() >= 1 {
        lemma_parse_number_bound(s.take(s.len() - 1));
    }
    if s.len() >= 2 {
        lemma_parse_number_bound(s.take(s.len() - 2));
    }
}

pub proof fn lemma_parse_number_bound(s: Seq<char>)
    ensures
        spec_parse_number(s) matches Some(v) ==> -MAX_PARSED_HUNDREDTHS < v
            < MAX_PARSED_HUNDREDTHS,
{
    lemma_parse_unsigned_bound(s);
    if s.len() > 0 && s[0] == '-' {
        lemma_parse_unsigned_bound(s.drop_first());
    }
}

/// First index of `.` in `s@` between `from` and `to`, or `to` if none.
fn find_dot(s: &str, from: usize, to: usize) -> (d: usize)
    requires
        from <= to <= s@.len(),
    ensures
        from <= d <= to,
        d - from == spec_first_dot(s@.subrange(from as int, to as int)),
{
    let ghost sub = s@.subrange(from as int, to as int);
    proof {
        lemma_first_dot_props(sub);
    }
    let mut i = from;
    while i < to
        invariant
            from <= i <= to <= s@.len(),
            sub == s@.subrange(from as int, to as int),
            forall|j: int| from <= j < i ==> s@[j] != '.',
            0 <= spec_first_dot(sub) <= sub.len(),
            spec_first_dot(sub) < sub.len() ==> sub[spec_first_dot(sub)] == '.',
            forall|j: int| 0 <= j < spec_first_dot(sub) ==> sub[j] != '.',
        decreases to - i,
    {
        let c = s.get_char(i);
        if c == '.' {
            proof {
                let k = i - from;
                assert(sub[k] == '.');
                if spec_first_dot(sub) < k {
                    assert(s@[spec_first_dot(sub) + from] == sub[spec_first_dot(sub)]);
                    assert(false);
                }
                if spec_first_dot(sub) > k {
                    assert(sub[k] != '.');
                    assert(false);
                }
            }
            return i;
        }
        i += 1;
    }
    proof {
        if spec_first_dot(sub) < sub.len() {
            assert(s@[spec_first_dot(sub) + from] == sub[spec_first_dot(sub)]);
            assert(false);
        }
    }
    to
}

/// Reads the digit string `s@[from..to]` in base ten; `None` when some
/// character is not a digit.
fn parse_digits(s: &str, from: usize, to: usize) -> (r: Option<u64>)
    requires
        from <= to <= s@.len(),
        to - from <= 6,
    ensures
        ({
            let sub = s@.subrange(from as int, to as int);
            if spec_all_digits(sub) {
                r matches Some(v) && v == spec_digits_val(sub) && v < 1000000
            } else {
                r is None
            }
        }),
{
    let ghost sub = s@.subrange(from as int, to as int);
    let mut acc: u64 = 0;
    let mut i = from;
    while i < to
        invariant
            from <= i <= to <= s@.len(),
            to - from <= 6,
            sub == s@.subrange(from as int, to as int),
            spec_all_digits(sub.take(i - from)),
            acc == spec_digits_val(sub.take(i - from)),
            acc < pow10((i - from) as nat),
            pow10((i - from) as nat) <= 1000000,
        decreases to - i,
    {
        let c = s.get_char(i);
        let u = c as u32;
        if u < 48 || u > 57 {
            proof {
                assert(sub[i - from] == s@[i as int]);
                assert(!spec_is_digit(sub[i - from]));
            }
            return None;
        }
        let d = (u - 48) as u64;
        proof {
            let k = i - from;
            assert(sub.take(k + 1).drop_last() =~= sub.take(k));
            assert(sub.take(k + 1).last() == sub[k]);
            assert(sub[k] == s@[i as int]);
            lemma_pow10_le(((i - from) + 1) as nat, 6);
            reveal_with_fuel(pow10, 7);
        }
        acc = acc * 10 + d;
        i += 1;
    }
    proof {
        assert(sub.take(to - from) =~= sub);
    }
    Some(acc)
}

/// Reads `s@[from..to]` as an unsigned number in hundredths, per
/// [`spec_parse_unsigned`].
fn parse_unsigned(s: &str, from: usize, to: usize) -> (r: Option<i64>)
    requires
        from <= to <= s@.len(),
    ensures
        ({
            let sp = spec_parse_unsigned(s@.subrange(from as int, to as int));
            match r {
                Some(v) => sp matches Some(w) && v == w && 0 <= v < MAX_PARSED_HUNDREDTHS,
                None => sp is None,
            }
        }),
{
    let ghost sub = s@.subrange(from as int, to as int);
    let d = find_dot(s, from, to);
    proof {
        assert(sub.take(d - from) =~= s@.subrange(from as int, d as int));
        lemma_parse_unsigned_bound(sub);
    }
    if d == from || d - from > 6 {
        return None;
    }
    let ip = match parse_digits(s, from, d) {
        Some(v) => v,
        None => {
            return None;
        }
    };
    if d == to {
        return Some((ip as i64) * 100);
    }
    // fractional part lies in [d + 1, to)
    if to - d == 2 {
        let c = s.get_char(d + 1);
        let u = c as u32;
        proof {
            assert(sub.skip((d - from) + 1) =~= s@.subrange(d + 1 as int, to as int));
            assert(sub.skip((d - from) + 1)[0] == s@[d + 1]);
        }
        if u < 48 || u > 57 {
            return None;
        }
        Some((ip as i64) * 100 + ((u - 48) as i64) * 10)
    } else if to - d == 3 {
        let c0 = s.get_char(d + 1);
        let u0 = c0 as u32;
        let c1 = s.get_char(d + 2);
        let u1 = c1 as u32;
        proof {
            assert(sub.skip((d - from) + 1) =~= s@.subrange(d + 1 as int, to as int));
            assert(sub.skip((d - from) + 1)[0] == s@[d + 1]);
            assert(sub.skip((d - from) + 1)[1] == s@[d + 2]);
        }
        if u0 < 48 || u0 > 57 || u1 < 48 || u1 > 57 {
            return None;
        }
        Some((ip as i64) * 100 + ((u0 - 48) as i64) * 10 + (u1 - 48) as i64)
    } else {
        proof {
            assert(sub.skip((d - from) + 1) =~= s@.subrange(d + 1 as int, to as int));
        }
        None
    }
}

/// Reads `s@[from..to]` as a number in hundredths, per
/// [`spec_parse_number`].
fn parse_number(s: &str, from: usize, to: usize) -> (r: Option<i64>)
    requires
        from <= to <= s@.len(),
    ensures
        ({
            let sp = spec_parse_number(s@.subrange(from as int, to as int));
            match r {
                Some(v) => sp matches Some(w) && v == w && -MAX_PARSED_HUNDREDTHS < v
                    < MAX_PARSED_HUNDREDTHS,
                None => sp is None,
            }
        }),
{
    let ghost sub = s@.subrange(from as int, to as int);
    if to > from && s.get_char(from) == '-' {
        proof {
            assert(sub[0] == s@[from as int]);
            assert(sub.drop_first() =~= s@.subrange(from + 1 as int, to as int));
        }
        match parse_unsigned(s, from + 1, to) {
            Some(v) => Some(-v),
            None => None,
        }
    } else {
        proof {
            if to > from {
                assert(sub[0] == s@[from as int]);
            }
        }
        parse_unsigned(s, from, to)
    }
}

impl Size {
    /// Reads a size literal such as `600px`, `50%`, `2.5%` or `300`.
    /// Returns `None` when the text is not a size; callers treat that as an
    /// absent attribute.
    pub fn parse(s: &str) -> (r: Option<Size>)
        ensures
            r == spec_parse_size(s@),
            r matches Some(sz) ==> sz.wf(),
    {
        proof {
            lemma_parse_size_bounded(s@);
        }
        let n = s.unicode_len();
        if n >= 1 && s.get_char(n - 1) == '%' {
            proof {
                assert(s@.take(n - 1) =~= s@.subrange(0, n - 1));
            }
            match parse_number(s, 0, n - 1) {
                Some(v) => Some(Size::Percent(v)),
                None => None,
            }
        } else if n >= 2 && s.get_char(n - 2) == 'p' && s.get_char(n - 1) == 'x' {
            proof {
                assert(s@.take(n - 2) =~= s@.subrange(0, n - 2));
            }
            match parse_number(s, 0, n - 2) {
                Some(v) => Some(Size::Pixel(v)),
                None => None,
            }
        } else {
            proof {
                assert(s@ =~= s@.subrange(0, s@.len() as int));
            }
            match parse_number(s, 0, n) {
                Some(v) => Some(Size::Raw(v)),
                None => None,
            }
        }
    }
}

} // verus!
