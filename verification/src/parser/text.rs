//! Character-level helpers of the parser: trimming identifiers, escape
//! replacement in string literals, and decimal integer literals.
use vstd::prelude::*;

verus! {

broadcast use vstd::string::group_string_axioms;

/// Appends `c` to `s`.
///
/// Calls `String::push`, which appends the character to the end of the
/// string; the contract claims exactly that of the characters.
#[verifier::external_body]
pub(crate) fn push_char(s: &mut String, c: char)
    ensures
        final(s)@ == old(s)@.push(c),
{
    s.push(c);
}

/// Unicode white space, the characters for which `char::is_whitespace`
/// holds.
pub open spec fn is_space(c: char) -> bool {
    let u = c as u32;
    ||| 0x9 <= u <= 0xd
    ||| u == 0x20
    ||| u == 0x85
    ||| u == 0xa0
    ||| u == 0x1680
    ||| 0x2000 <= u <= 0x200a
    ||| u == 0x2028
    ||| u == 0x2029
    ||| u == 0x202f
    ||| u == 0x205f
    ||| u == 0x3000
}

pub fn is_whitespace(c: char) -> (res: bool)
    ensures
        res == is_space(c),
{
    let u = c as u32;
    (0x9 <= u && u <= 0xd) || u == 0x20 || u == 0x85 || u == 0xa0 || u == 0x1680 || (0x2000 <= u
        && u <= 0x200a) || u == 0x2028 || u == 0x2029 || u == 0x202f || u == 0x205f || u == 0x3000
}

/// `s` without its leading white space.
pub open spec fn trim_start_spec(s: Seq<char>) -> Seq<char>
    decreases s.len(),
{
    if s.len() > 0 && is_space(s[0]) {
        trim_start_spec(s.drop_first())
    } else {
        s
    }
}

/// `s` without its trailing white space.
pub open spec fn trim_end_spec(s: Seq<char>) -> Seq<char>
    decreases s.len(),
{
    if s.len() > 0 && is_space(s.last()) {
        trim_end_spec(s.drop_last())
    } else {
        s
    }
}

/// `s` without leading and trailing white space, as `str::trim` gives it.
pub open spec fn trim_spec(s: Seq<char>) -> Seq<char> {
    trim_end_spec(trim_start_spec(s))
}

/// The characters of `s` without its leading and trailing white space.
pub fn trim(s: &str) -> (res: String)
    ensures
        res@ == trim_spec(s@),
{
    let n = s.unicode_len();
    let mut a: usize = 0;
    assert(s@.subrange(0, n as int) =~= s@);
    while a < n && is_whitespace(s.get_char(a))
        invariant
            n == s@.len(),
            a <= n,
            trim_start_spec(s@) == trim_start_spec(s@.subrange(a as int, n as int)),
        decreases n - a,
    {
        assert(s@.subrange(a as int, n as int).drop_first() =~= s@.subrange(a + 1, n as int));
        a = a + 1;
    }
    let ghost start = s@.subrange(a as int, n as int);
    assert(trim_start_spec(s@) == start);
    let mut b: usize = n;
    assert(start.subrange(0, (b - a) as int) =~= start);
    while b > a && is_whitespace(s.get_char(b - 1))
        invariant
            n == s@.len(),
            a <= b <= n,
            start == s@.subrange(a as int, n as int),
            trim_end_spec(start) == trim_end_spec(s@.subrange(a as int, b as int)),
        decreases b,
    {
        assert(s@.subrange(a as int, b as int).drop_last() =~= s@.subrange(a as int, b - 1));
        b = b - 1;
    }
    let t = s.substring_char(a, b);
    t.to_string()
}

/// Whether two texts have the same characters.
pub fn text_eq(s: &str, t: &str) -> (res: bool)
    ensures
        res == (s@ == t@),
{
    let n = s.unicode_len();
    if n != t.unicode_len() {
        return false;
    }
    let mut i: usize = 0;
    while i < n
        invariant
            n == s@.len(),
            n == t@.len(),
            i <= n,
            forall|j: int| 0 <= j < i ==> s@[j] == t@[j],
        decreases n - i,
    {
        if s.get_char(i) != t.get_char(i) {
            return false;
        }
        i = i + 1;
    }
    assert(s@ =~= t@);
    true
}

/// `s` with each pair `a b` replaced by `r`, scanning from the left as
/// `str::replace` does.
pub open spec fn replace_pair_spec(s: Seq<char>, a: char, b: char, r: char) -> Seq<char>
    decreases s.len(),
{
    if s.len() == 0 {
        s
    } else if s.len() >= 2 && s[0] == a && s[1] == b {
        seq![r] + replace_pair_spec(s.subrange(2, s.len() as int), a, b, r)
    } else {
        seq![s[0]] + replace_pair_spec(s.drop_first(), a, b, r)
    }
}

pub fn replace_pair(s: &str, a: char, b: char, r: char) -> (res: String)
    ensures
        res@ == replace_pair_spec(s@, a, b, r),
{
    let n = s.unicode_len();
    let mut res = String::new();
    let mut i: usize = 0;
    assert(s@.subrange(0, n as int) =~= s@);
    assert(res@ + s@ =~= s@);
    while i < n
        invariant
            n == s@.len(),
            i <= n,
            replace_pair_spec(s@, a, b, r) == res@ + replace_pair_spec(
                s@.subrange(i as int, n as int),
                a,
                b,
                r,
            ),
        decreases n - i,
    {
        let ghost rest = s@.subrange(i as int, n as int);
        let c = s.get_char(i);
        if i + 1 < n && c == a && s.get_char(i + 1) == b {
            assert(rest.subrange(2, rest.len() as int) =~= s@.subrange(i + 2, n as int));
            let ghost before = res@;
            push_char(&mut res, r);
            assert(res@ == before + seq![r]);
            assert(before + (seq![r] + replace_pair_spec(s@.subrange(i + 2, n as int), a, b, r))
                =~= res@ + replace_pair_spec(s@.subrange(i + 2, n as int), a, b, r));
            i = i + 2;
        } else {
            assert(rest.drop_first() =~= s@.subrange(i + 1, n as int));
            let ghost before = res@;
            push_char(&mut res, c);
            assert(before + (seq![c] + replace_pair_spec(s@.subrange(i + 1, n as int), a, b, r))
                =~= res@ + replace_pair_spec(s@.subrange(i + 1, n as int), a, b, r));
            i = i + 1;
        }
    }
    assert(res@ + replace_pair_spec(s@.subrange(n as int, n as int), a, b, r) =~= res@);
    res
}

/// `s` without its underscores.
pub open spec fn without_underscores(s: Seq<char>) -> Seq<char>
    decreases s.len(),
{
    if s.len() == 0 {
        s
    } else if s.last() == '_' {
        without_underscores(s.drop_last())
    } else {
        without_underscores(s.drop_last()).push(s.last())
    }
}

pub fn remove_underscores(s: &str) -> (res: String)
    ensures
        res@ == without_underscores(s@),
{
    let n = s.unicode_len();
    let mut res = String::new();
    assert(s@.subrange(0, 0) =~= Seq::<char>::empty());
    for i in 0..n
        invariant
            n == s@.len(),
            res@ == without_underscores(s@.subrange(0, i as int)),
    {
        let c = s.get_char(i);
        assert(s@.subrange(0, i + 1).drop_last() =~= s@.subrange(0, i as int));
        if c != '_' {
            push_char(&mut res, c);
        }
    }
    assert(s@.subrange(0, n as int) =~= s@);
    res
}

/// Why a decimal literal could not be read, as `core::num::IntErrorKind`
/// distinguishes it.
#[derive(Clone, Copy, Debug, PartialEq, Eq)]
pub enum NumberError {
    Empty,
    InvalidDigit,
    PosOverflow,
    NegOverflow,
}

pub open spec fn is_digit(c: char) -> bool {
    0x30 <= (c as u32) <= 0x39
}

pub open spec fn digit_value(c: char) -> int {
    (c as u32) - 0x30
}

/// Reads the digits `s` from the left onto `acc`, adding each digit (or
/// subtracting it, for a negative number) after multiplying by ten, and
/// fails at the first character that is not a digit or at the first step
/// whose value leaves `min ..= max`.
pub open spec fn digits_value(s: Seq<char>, acc: int, negative: bool, min: int, max: int) -> Result<int, NumberError>
    decreases s.len(),
{
    if s.len() == 0 {
        Ok(acc)
    } else if !is_digit(s[0]) {
        Err(NumberError::InvalidDigit)
    } else {
        let v = if negative {
            acc * 10 - digit_value(s[0])
        } else {
            acc * 10 + digit_value(s[0])
        };
        if v > max {
            Err(NumberError::PosOverflow)
        } else if v < min {
            Err(NumberError::NegOverflow)
        } else {
            digits_value(s.drop_first(), v, negative, min, max)
        }
    }
}

/// A decimal integer literal as `from_str` reads it for an integer type
/// with bounds `min ..= max`: an optional `+` (or `-`, where the type is
/// signed) and then digits.
pub open spec fn int_literal_value(s: Seq<char>, signed: bool, min: int, max: int) -> Result<int, NumberError> {
    if s.len() == 0 {
        Err(NumberError::Empty)
    } else if (s[0] == '+' || s[0] == '-') && s.len() == 1 {
        Err(NumberError::InvalidDigit)
    } else if s[0] == '+' {
        digits_value(s.drop_first(), 0, false, min, max)
    } else if s[0] == '-' && signed {
        digits_value(s.drop_first(), 0, true, min, max)
    } else {
        digits_value(s, 0, false, min, max)
    }
}

proof fn lemma_digits_value_bounds(s: Seq<char>, acc: int, negative: bool, min: int, max: int)
    requires
        min <= acc <= max,
    ensures
        digits_value(s, acc, negative, min, max) matches Ok(v) ==> min <= v <= max,
    decreases s.len(),
{
    if s.len() > 0 && is_digit(s[0]) {
        let v = if negative {
            acc * 10 - digit_value(s[0])
        } else {
            acc * 10 + digit_value(s[0])
        };
        if min <= v <= max {
            lemma_digits_value_bounds(s.drop_first(), v, negative, min, max);
        }
    }
}

fn parse_int(s: &str, signed: bool, min: i128, max: i128) -> (res: Result<i128, NumberError>)
    requires
        min <= 0 <= max,
        -0x1_0000_0000_0000_0000 <= min,
        max <= 0x1_0000_0000_0000_0000,
    ensures
        match int_literal_value(s@, signed, min as int, max as int) {
            Ok(v) => res == Ok::<i128, NumberError>(v as i128) && min <= v <= max,
            Err(e) => res == Err::<i128, NumberError>(e),
        },
{
    let n = s.unicode_len();
    if n == 0 {
        return Err(NumberError::Empty);
    }
    let first = s.get_char(0);
    if (first == '+' || first == '-') && n == 1 {
        return Err(NumberError::InvalidDigit);
    }
    let negative = first == '-' && signed;
    let start: usize = if first == '+' || negative {
        1
    } else {
        0
    };
    let ghost digits = s@.subrange(start as int, n as int);
    proof {
        if start == 1 {
            assert(digits =~= s@.drop_first());
        } else {
            assert(digits =~= s@);
        }
        assert(int_literal_value(s@, signed, min as int, max as int) == digits_value(
            digits, 0, negative, min as int, max as int));
    }
    let mut acc: i128 = 0;
    let mut i: usize = start;
    while i < n
        invariant
            n == s@.len(),
            start <= i <= n,
            min <= acc <= max,
            min <= 0 <= max,
            -0x1_0000_0000_0000_0000 <= min,
            max <= 0x1_0000_0000_0000_0000,
            digits_value(digits, 0, negative, min as int, max as int) == digits_value(
                s@.subrange(i as int, n as int),
                acc as int,
                negative,
                min as int,
                max as int,
            ),
            digits == s@.subrange(start as int, n as int),
            int_literal_value(s@, signed, min as int, max as int) == digits_value(
                digits, 0, negative, min as int, max as int),
        decreases n - i,
    {
        let c = s.get_char(i);
        let ghost rest = s@.subrange(i as int, n as int);
        assert(rest[0] == c);
        let u = c as u32;
        if u < 0x30 || u > 0x39 {
            return Err(NumberError::InvalidDigit);
        }
        let d = (u - 0x30) as i128;
        let v = if negative {
            acc * 10 - d
        } else {
            acc * 10 + d
        };
        if v > max {
            return Err(NumberError::PosOverflow);
        }
        if v < min {
            return Err(NumberError::NegOverflow);
        }
        assert(rest.drop_first() =~= s@.subrange(i + 1, n as int));
        acc = v;
        i = i + 1;
    }
    assert(s@.subrange(n as int, n as int) =~= Seq::<char>::empty());
    proof {
        lemma_digits_value_bounds(digits, 0, negative, min as int, max as int);
    }
    Ok(acc)
}

/// A decimal literal read as an `i64`, as `str::parse::<i64>` reads it.
pub fn parse_i64(s: &str) -> (res: Result<i64, NumberError>)
    ensures
        match int_literal_value(s@, true, i64::MIN as int, i64::MAX as int) {
            Ok(v) => res == Ok::<i64, NumberError>(v as i64),
            Err(e) => res == Err::<i64, NumberError>(e),
        },
{
    match parse_int(s, true, i64::MIN as i128, i64::MAX as i128) {
        Ok(v) => Ok(v as i64),
        Err(e) => Err(e),
    }
}

/// A decimal literal read as a `u32`, as `str::parse::<u32>` reads it.
pub fn parse_u32(s: &str) -> (res: Result<u32, NumberError>)
    ensures
        match int_literal_value(s@, false, 0, u32::MAX as int) {
            Ok(v) => res == Ok::<u32, NumberError>(v as u32),
            Err(e) => res == Err::<u32, NumberError>(e),
        },
{
    match parse_int(s, false, 0, u32::MAX as i128) {
        Ok(v) => Ok(v as u32),
        Err(e) => Err(e),
    }
}

/// Why a literal is not a float literal, as `core::num::ParseFloatError`
/// distinguishes it.
#[derive(Clone, Copy, Debug, PartialEq, Eq)]
pub enum FloatError {
    Empty,
    Invalid,
}

/// Every character is a decimal digit.
pub open spec fn all_digits(s: Seq<char>) -> bool {
    forall|i: int| 0 <= i < s.len() ==> is_digit(#[trigger] s[i])
}

/// The first position from `i` on that holds `c`, or the length.
pub open spec fn first_of(s: Seq<char>, c: char, i: int) -> int
    decreases s.len() - i,
{
    if i < 0 || i >= s.len() {
        s.len() as int
    } else if s[i] == c {
        i
    } else {
        first_of(s, c, i + 1)
    }
}

/// The first position from `i` on that holds `e` or `E`, or the length.
pub open spec fn first_exp(s: Seq<char>, i: int) -> int
    decreases s.len() - i,
{
    if i < 0 || i >= s.len() {
        s.len() as int
    } else if s[i] == 'e' || s[i] == 'E' {
        i
    } else {
        first_exp(s, i + 1)
    }
}

/// Digits with at most one `.` among them, and at least one digit.
pub open spec fn mantissa_ok(m: Seq<char>) -> bool {
    let d = first_of(m, '.', 0);
    if d == m.len() {
        m.len() > 0 && all_digits(m)
    } else {
        m.len() >= 2 && all_digits(m.subrange(0, d)) && all_digits(m.subrange(d + 1, m.len() as int))
    }
}

/// An optional sign, then at least one digit.
pub open spec fn exponent_ok(x: Seq<char>) -> bool {
    let k: int = if x.len() > 0 && (x[0] == '+' || x[0] == '-') {
        1
    } else {
        0
    };
    x.len() > k && all_digits(x.subrange(k, x.len() as int))
}

/// A mantissa, then optionally `e` or `E` and an exponent.
pub open spec fn number_ok(b: Seq<char>) -> bool {
    let e = first_exp(b, 0);
    mantissa_ok(b.subrange(0, e)) && (e == b.len() || exponent_ok(b.subrange(e + 1, b.len() as int)))
}

/// `b` is the word whose lower-case letters are `lo` and upper-case
/// letters `up`, in any mix of cases.
pub open spec fn word_any_case(b: Seq<char>, lo: Seq<char>, up: Seq<char>) -> bool {
    b.len() == lo.len() && forall|i: int| 0 <= i < b.len() ==> #[trigger] b[i] == lo[i] || b[i] == up[i]
}

/// `inf`, `infinity` or `nan`, in any case.
pub open spec fn special_float(b: Seq<char>) -> bool {
    ||| word_any_case(b, seq!['i', 'n', 'f'], seq!['I', 'N', 'F'])
    ||| word_any_case(
        b,
        seq!['i', 'n', 'f', 'i', 'n', 'i', 't', 'y'],
        seq!['I', 'N', 'F', 'I', 'N', 'I', 'T', 'Y'],
    )
    ||| word_any_case(b, seq!['n', 'a', 'n'], seq!['N', 'A', 'N'])
}

/// Whether `str::parse::<f64>` accepts `s`: an optional sign, then `inf`,
/// `infinity` or `nan` in any case, or a decimal number with an optional
/// exponent; an empty text is told apart from an invalid one.
pub open spec fn float_literal_spec(s: Seq<char>) -> Result<(), FloatError> {
    if s.len() == 0 {
        Err(FloatError::Empty)
    } else {
        let a: int = if s[0] == '+' || s[0] == '-' {
            1
        } else {
            0
        };
        let b = s.subrange(a, s.len() as int);
        if b.len() > 0 && (special_float(b) || number_ok(b)) {
            Ok(())
        } else {
            Err(FloatError::Invalid)
        }
    }
}

/// The characters of a text.
fn chars_of(s: &str) -> (res: Vec<char>)
    ensures
        res@ == s@,
{
    let n = s.unicode_len();
    let mut v: Vec<char> = Vec::new();
    for i in 0..n
        invariant
            n == s@.len(),
            v@ == s@.subrange(0, i as int),
    {
        v.push(s.get_char(i));
        assert(v@ =~= s@.subrange(0, i + 1));
    }
    assert(v@ =~= s@);
    v
}

/// The characters of `v` from `a` to `b`.
fn slice_of(v: &Vec<char>, a: usize, b: usize) -> (res: Vec<char>)
    requires
        a <= b <= v@.len(),
    ensures
        res@ == v@.subrange(a as int, b as int),
{
    let mut r: Vec<char> = Vec::new();
    for i in a..b
        invariant
            b <= v@.len(),
            r@ == v@.subrange(a as int, i as int),
    {
        r.push(v[i]);
        assert(r@ =~= v@.subrange(a as int, i + 1));
    }
    r
}

fn digits_only(v: &Vec<char>) -> (res: bool)
    ensures
        res == all_digits(v@),
{
    for i in 0..v.len()
        invariant
            forall|j: int| 0 <= j < i ==> is_digit(#[trigger] v@[j]),
    {
        let u = v[i] as u32;
        if u < 0x30 || u > 0x39 {
            assert(!is_digit(v@[i as int]));
            return false;
        }
    }
    true
}

fn find_char(v: &Vec<char>, c: char) -> (res: usize)
    ensures
        res == first_of(v@, c, 0),
{
    let mut i: usize = 0;
    while i < v.len() && v[i] != c
        invariant
            i <= v@.len(),
            first_of(v@, c, 0) == first_of(v@, c, i as int),
        decreases v@.len() - i,
    {
        i = i + 1;
    }
    i
}

fn find_exp(v: &Vec<char>) -> (res: usize)
    ensures
        res == first_exp(v@, 0),
{
    let mut i: usize = 0;
    while i < v.len() && v[i] != 'e' && v[i] != 'E'
        invariant
            i <= v@.len(),
            first_exp(v@, 0) == first_exp(v@, i as int),
        decreases v@.len() - i,
    {
        i = i + 1;
    }
    i
}

proof fn lemma_first_of_bound(s: Seq<char>, c: char, i: int)
    requires
        0 <= i,
    ensures
        i <= first_of(s, c, i) <= s.len() || (i > s.len() && first_of(s, c, i) == s.len()),
    decreases s.len() - i,
{
    if i < s.len() && s[i] != c {
        lemma_first_of_bound(s, c, i + 1);
    }
}

proof fn lemma_first_exp_bound(s: Seq<char>, i: int)
    requires
        0 <= i,
    ensures
        i <= first_exp(s, i) <= s.len() || (i > s.len() && first_exp(s, i) == s.len()),
    decreases s.len() - i,
{
    if i < s.len() && !(s[i] == 'e' || s[i] == 'E') {
        lemma_first_exp_bound(s, i + 1);
    }
}

fn mantissa_check(m: &Vec<char>) -> (res: bool)
    ensures
        res == mantissa_ok(m@),
{
    let d = find_char(m, '.');
    proof {
        lemma_first_of_bound(m@, '.', 0);
    }
    if d == m.len() {
        m.len() > 0 && digits_only(m)
    } else {
        if m.len() < 2 {
            return false;
        }
        let before = slice_of(m, 0, d);
        let after = slice_of(m, d + 1, m.len());
        digits_only(&before) && digits_only(&after)
    }
}

fn exponent_check(x: &Vec<char>) -> (res: bool)
    ensures
        res == exponent_ok(x@),
{
    let k: usize = if x.len() > 0 && (x[0] == '+' || x[0] == '-') {
        1
    } else {
        0
    };
    if x.len() <= k {
        return false;
    }
    let rest = slice_of(x, k, x.len());
    digits_only(&rest)
}

fn word_check(b: &Vec<char>, lo: &Vec<char>, up: &Vec<char>) -> (res: bool)
    requires
        lo@.len() == up@.len(),
    ensures
        res == word_any_case(b@, lo@, up@),
{
    if b.len() != lo.len() {
        return false;
    }
    for i in 0..b.len()
        invariant
            b@.len() == lo@.len(),
            lo@.len() == up@.len(),
            forall|j: int| 0 <= j < i ==> #[trigger] b@[j] == lo@[j] || b@[j] == up@[j],
    {
        if b[i] != lo[i] && b[i] != up[i] {
            return false;
        }
    }
    true
}

fn word(cs: &str) -> (res: Vec<char>)
    ensures
        res@ == cs@,
{
    chars_of(cs)
}

/// Whether `str::parse::<f64>` accepts `s` (see `float_literal_spec`).
pub fn float_literal(s: &str) -> (res: Result<(), FloatError>)
    ensures
        res == float_literal_spec(s@),
{
    let v = chars_of(s);
    if v.len() == 0 {
        return Err(FloatError::Empty);
    }
    let a: usize = if v[0] == '+' || v[0] == '-' {
        1
    } else {
        0
    };
    let b = slice_of(&v, a, v.len());
    if b.len() == 0 {
        return Err(FloatError::Invalid);
    }
    proof {
        reveal_strlit("inf");
        reveal_strlit("INF");
        reveal_strlit("infinity");
        reveal_strlit("INFINITY");
        reveal_strlit("nan");
        reveal_strlit("NAN");
        assert("inf"@ =~= seq!['i', 'n', 'f']);
        assert("INF"@ =~= seq!['I', 'N', 'F']);
        assert("infinity"@ =~= seq!['i', 'n', 'f', 'i', 'n', 'i', 't', 'y']);
        assert("INFINITY"@ =~= seq!['I', 'N', 'F', 'I', 'N', 'I', 'T', 'Y']);
        assert("nan"@ =~= seq!['n', 'a', 'n']);
        assert("NAN"@ =~= seq!['N', 'A', 'N']);
    }
    let special = word_check(&b, &word("inf"), &word("INF")) || word_check(
        &b,
        &word("infinity"),
        &word("INFINITY"),
    ) || word_check(&b, &word("nan"), &word("NAN"));
    if special {
        return Ok(());
    }
    let e = find_exp(&b);
    proof {
        lemma_first_exp_bound(b@, 0);
    }
    let m = slice_of(&b, 0, e);
    let ok = if mantissa_check(&m) {
        if e == b.len() {
            true
        } else {
            let x = slice_of(&b, e + 1, b.len());
            exponent_check(&x)
        }
    } else {
        false
    };
    if ok {
        Ok(())
    } else {
        Err(FloatError::Invalid)
    }
}

} // verus!
