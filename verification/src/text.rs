//! Text fields of the microdata files: trimming, decimal integers, booleans and
//! `;`-separated id lists, both read and written, plus the thousands-grouped
//! numbers of the report.
use vstd::prelude::*;

verus! {

/// `String::push`: appends one character to the end of the string.
pub assume_specification[ String::push ](s: &mut String, ch: char)
    ensures
        final(s)@ == old(s)@.push(ch),
;

/// The characters of a string slice, in order.
pub fn chars_of(s: &str) -> (v: Vec<char>)
    ensures
        v@ == s@,
{
    let mut v: Vec<char> = Vec::new();
    for c in it: s.chars()
        invariant
            v@ == it.seq().take(it.index() as int),
    {
        v.push(c);
    }
    v
}

/// Builds a string from characters.
pub fn string_of(cs: &Vec<char>) -> (s: String)
    ensures
        s@ == cs@,
{
    let mut s = String::new();
    let mut i: usize = 0;
    while i < cs.len()
        invariant
            i <= cs@.len(),
            s@ == cs@.take(i as int),
        decreases cs@.len() - i,
    {
        s.push(cs[i]);
        i = i + 1;
        assert(s@ =~= cs@.take(i as int));
    }
    assert(cs@.take(cs@.len() as int) =~= cs@);
    s
}

/// Whether two string slices hold the same characters.
pub fn text_eq(a: &str, b: &str) -> (r: bool)
    ensures
        r == (a@ == b@),
{
    let x = chars_of(a);
    let y = chars_of(b);
    if x.len() != y.len() {
        return false;
    }
    let mut i: usize = 0;
    while i < x.len()
        invariant
            x@ == a@,
            y@ == b@,
            x@.len() == y@.len(),
            i <= x@.len(),
            forall|j: int| 0 <= j < i ==> x@[j] == y@[j],
        decreases x@.len() - i,
    {
        if x[i] != y[i] {
            return false;
        }
        i = i + 1;
    }
    assert(x@ =~= y@);
    true
}

/// The Unicode `White_Space` property, which `char::is_whitespace` and `str::trim` use.
pub open spec fn is_white_space(c: char) -> bool {
    let u = c as u32;
    (0x9 <= u <= 0xD) || u == 0x20 || u == 0x85 || u == 0xA0 || u == 0x1680 || (0x2000 <= u
        <= 0x200A) || u == 0x2028 || u == 0x2029 || u == 0x202F || u == 0x205F || u == 0x3000
}

/// Whether a character has the Unicode `White_Space` property.
pub fn white_space(c: char) -> (r: bool)
    ensures
        r == is_white_space(c),
{
    let u = c as u32;
    (0x9 <= u && u <= 0xD) || u == 0x20 || u == 0x85 || u == 0xA0 || u == 0x1680 || (0x2000 <= u
        && u <= 0x200A) || u == 0x2028 || u == 0x2029 || u == 0x202F || u == 0x205F || u == 0x3000
}

/// The text with leading white space removed.
pub open spec fn trim_start(s: Seq<char>) -> Seq<char>
    decreases s.len(),
{
    if s.len() > 0 && is_white_space(s[0]) {
        trim_start(s.drop_first())
    } else {
        s
    }
}

/// The text with trailing white space removed.
pub open spec fn trim_end(s: Seq<char>) -> Seq<char>
    decreases s.len(),
{
    if s.len() > 0 && is_white_space(s.last()) {
        trim_end(s.drop_last())
    } else {
        s
    }
}

/// The text with leading and trailing white space removed, as `str::trim` does.
pub open spec fn trimmed(s: Seq<char>) -> Seq<char> {
    trim_end(trim_start(s))
}

proof fn lemma_trim_start_at(s: Seq<char>, i: int)
    requires
        0 <= i <= s.len(),
        forall|j: int| 0 <= j < i ==> is_white_space(s[j]),
        i == s.len() || !is_white_space(s[i]),
    ensures
        trim_start(s) == s.subrange(i, s.len() as int),
    decreases i,
{
    if i > 0 {
        lemma_trim_start_at(s.drop_first(), i - 1);
        assert(s.drop_first().subrange(i - 1, s.len() - 1) =~= s.subrange(i, s.len() as int));
    } else {
        assert(s.subrange(0, s.len() as int) =~= s);
    }
}

proof fn lemma_trim_end_at(s: Seq<char>, k: int)
    requires
        0 <= k <= s.len(),
        forall|j: int| k <= j < s.len() ==> is_white_space(s[j]),
        k == 0 || !is_white_space(s[k - 1]),
    ensures
        trim_end(s) == s.subrange(0, k),
    decreases s.len() - k,
{
    if k < s.len() {
        lemma_trim_end_at(s.drop_last(), k);
        assert(s.drop_last().subrange(0, k) =~= s.subrange(0, k));
    } else {
        assert(s.subrange(0, s.len() as int) =~= s);
    }
}

/// The bounds `(i, k)` of the trimmed text inside `cs`: `cs[i..k]` is what
/// `str::trim` keeps.
pub fn trim_bounds(cs: &Vec<char>) -> (r: (usize, usize))
    ensures
        r.0 <= r.1 <= cs@.len(),
        cs@.subrange(r.0 as int, r.1 as int) == trimmed(cs@),
{
    let n = cs.len();
    let mut i: usize = 0;
    while i < n && white_space(cs[i])
        invariant
            n == cs@.len(),
            i <= n,
            forall|j: int| 0 <= j < i ==> is_white_space(cs@[j]),
        decreases n - i,
    {
        i = i + 1;
    }
    let mut k: usize = n;
    while k > i && white_space(cs[k - 1])
        invariant
            n == cs@.len(),
            i <= k <= n,
            forall|j: int| k <= j < n ==> is_white_space(cs@[j]),
        decreases k - i,
    {
        k = k - 1;
    }
    proof {
        lemma_trim_start_at(cs@, i as int);
        let t = cs@.subrange(i as int, n as int);
        assert forall|j: int| k - i <= j < t.len() implies is_white_space(t[j]) by {
            assert(t[j] == cs@[i + j]);
        }
        lemma_trim_end_at(t, k - i);
        assert(t.subrange(0, k - i) =~= cs@.subrange(i as int, k as int));
    }
    (i, k)
}

/// Whether a character is an ASCII decimal digit.
pub open spec fn is_digit(c: char) -> bool {
    '0' <= c <= '9'
}

/// The value of a decimal digit.
pub open spec fn digit_value(c: char) -> int {
    (c as u32) - ('0' as u32)
}

/// Whether every character is an ASCII decimal digit.
pub open spec fn all_digits(s: Seq<char>) -> bool {
    forall|i: int| 0 <= i < s.len() ==> is_digit(#[trigger] s[i])
}

/// The value of a string of decimal digits.
pub open spec fn digits_value(s: Seq<char>) -> nat
    decreases s.len(),
{
    if s.len() == 0 {
        0
    } else {
        (digits_value(s.drop_last()) * 10 + digit_value(s.last())) as nat
    }
}

/// The unsigned integer that `str::parse` reads from a text: an optional `+` and at
/// least one decimal digit, nothing else.
pub open spec fn unsigned_of(s: Seq<char>) -> Option<nat> {
    let d = if s.len() > 0 && s[0] == '+' {
        s.drop_first()
    } else {
        s
    };
    if d.len() > 0 && all_digits(d) {
        Some(digits_value(d))
    } else {
        None
    }
}

/// The signed integer that `str::parse` reads from a text: an optional `+` or `-` and
/// at least one decimal digit, nothing else.
pub open spec fn signed_of(s: Seq<char>) -> Option<int> {
    if s.len() > 0 && s[0] == '-' {
        let d = s.drop_first();
        if d.len() > 0 && all_digits(d) {
            Some(-digits_value(d))
        } else {
            None
        }
    } else {
        match unsigned_of(s) {
            Some(v) => Some(v as int),
            None => None,
        }
    }
}

/// Reads the decimal digits `cs[start..end]`, or `None` when one is not a digit or
/// the value exceeds `limit`.
fn read_digits(cs: &Vec<char>, start: usize, end: usize, limit: u64) -> (r: Option<u64>)
    requires
        start <= end <= cs@.len(),
        limit >= 9,
    ensures
        ({
            let d = cs@.subrange(start as int, end as int);
            match r {
                Some(v) => all_digits(d) && v == digits_value(d) && v <= limit,
                None => !all_digits(d) || digits_value(d) > limit,
            }
        }),
{
    let mut acc: u64 = 0;
    let mut i: usize = start;
    while i < end
        invariant
            start <= i <= end <= cs@.len(),
            all_digits(cs@.subrange(start as int, i as int)),
            acc == digits_value(cs@.subrange(start as int, i as int)),
            acc <= limit,
            limit >= 9,
        decreases end - i,
    {
        let c = cs[i];
        let prefix = Ghost(cs@.subrange(start as int, i as int));
        let next = Ghost(cs@.subrange(start as int, i + 1));
        assert(next@.drop_last() =~= prefix@);
        if c < '0' || c > '9' {
            assert(!is_digit(next@[i - start]));
            proof {
                lemma_not_all_digits_extends(cs@, start as int, i as int, end as int);
            }
            return None;
        }
        assert('0' <= c <= '9');
        let dv = ((c as u32) - ('0' as u32)) as u64;
        assert(dv <= 9);
        if acc > (limit - dv) / 10 {
            proof {
                lemma_digits_value_extends_over(cs@, start as int, i as int, end as int, limit as int);
            }
            return None;
        }
        assert(acc * 10 + dv <= limit) by (nonlinear_arith)
            requires
                acc <= (limit - dv) / 10,
                dv <= limit,
        ;
        acc = acc * 10 + dv;
        i = i + 1;
    }
    Some(acc)
}

proof fn lemma_not_all_digits_extends(s: Seq<char>, start: int, i: int, end: int)
    requires
        0 <= start <= i < end <= s.len(),
        !is_digit(s[i]),
    ensures
        !all_digits(s.subrange(start, end)),
{
    assert(s.subrange(start, end)[i - start] == s[i]);
}

/// The value of a digit string grows (weakly) as digits are appended.
proof fn lemma_digits_value_monotone(s: Seq<char>, k: int)
    requires
        0 <= k <= s.len(),
        all_digits(s),
    ensures
        digits_value(s.subrange(0, k)) <= digits_value(s),
    decreases s.len() - k,
{
    if k < s.len() {
        lemma_digits_value_monotone(s.drop_last(), k);
        assert(s.drop_last().subrange(0, k) =~= s.subrange(0, k));
        assert(digits_value(s.drop_last()) <= digits_value(s));
    } else {
        assert(s.subrange(0, k) =~= s);
    }
}

proof fn lemma_digits_value_extends_over(s: Seq<char>, start: int, i: int, end: int, limit: int)
    requires
        0 <= start <= i < end <= s.len(),
        is_digit(s[i]),
        0 <= limit,
        digits_value(s.subrange(start, i)) > (limit - digit_value(s[i])) / 10,
        digit_value(s[i]) <= 9,
    ensures
        !all_digits(s.subrange(start, end)) || digits_value(s.subrange(start, end)) > limit,
{
    let d = s.subrange(start, end);
    if all_digits(d) {
        let pre = s.subrange(start, i + 1);
        assert(d.subrange(0, i + 1 - start) =~= pre);
        lemma_digits_value_monotone(d, i + 1 - start);
        assert(pre.drop_last() =~= s.subrange(start, i));
        let a = digits_value(s.subrange(start, i));
        let dv = digit_value(s[i]);
        assert(digits_value(pre) == a * 10 + dv);
        assert(a * 10 + dv > limit) by (nonlinear_arith)
            requires
                a > (limit - dv) / 10,
                0 <= dv <= 9,
                limit >= 0,
        ;
    }
}

/// Reads an unsigned integer from `cs[start..end]` as `str::parse::<usize>` does;
/// `None` where it fails, an overflow included.
pub fn parse_unsigned_range(cs: &Vec<char>, start: usize, end: usize) -> (r: Option<usize>)
    requires
        start <= end <= cs@.len(),
    ensures
        r == (match unsigned_of(cs@.subrange(start as int, end as int)) {
            Some(v) => if v <= usize::MAX {
                Some(v as usize)
            } else {
                None
            },
            None => None,
        }),
{
    let ghost s = cs@.subrange(start as int, end as int);
    let mut first = start;
    if start < end && cs[start] == '+' {
        first = start + 1;
        assert(cs@.subrange(first as int, end as int) =~= s.drop_first());
    } else {
        assert(cs@.subrange(first as int, end as int) =~= s);
    }
    if first == end {
        return None;
    }
    match read_digits(cs, first, end, usize::MAX as u64) {
        Some(v) => Some(v as usize),
        None => None,
    }
}

/// Reads a signed integer from `cs[start..end]` as `str::parse::<i64>` does;
/// `None` where it fails, an overflow included.
pub fn parse_signed_range(cs: &Vec<char>, start: usize, end: usize) -> (r: Option<i64>)
    requires
        start <= end <= cs@.len(),
    ensures
        r == (match signed_of(cs@.subrange(start as int, end as int)) {
            Some(v) => if i64::MIN <= v <= i64::MAX {
                Some(v as i64)
            } else {
                None
            },
            None => None,
        }),
{
    let ghost s = cs@.subrange(start as int, end as int);
    if start < end && cs[start] == '-' {
        let first = start + 1;
        assert(cs@.subrange(first as int, end as int) =~= s.drop_first());
        if first == end {
            return None;
        }
        match read_digits(cs, first, end, 9223372036854775808u64) {
            Some(v) => {
                if v == 9223372036854775808u64 {
                    Some(i64::MIN)
                } else {
                    Some(-(v as i64))
                }
            },
            None => None,
        }
    } else {
        let mut first = start;
        if start < end && cs[start] == '+' {
            first = start + 1;
            assert(cs@.subrange(first as int, end as int) =~= s.drop_first());
        } else {
            assert(cs@.subrange(first as int, end as int) =~= s);
        }
        if first == end {
            return None;
        }
        match read_digits(cs, first, end, i64::MAX as u64) {
            Some(v) => Some(v as i64),
            None => None,
        }
    }
}

/// `s.parse::<usize>()` as an `Option`.
pub fn parse_unsigned(s: &str) -> (r: Option<usize>)
    ensures
        r == (match unsigned_of(s@) {
            Some(v) => if v <= usize::MAX {
                Some(v as usize)
            } else {
                None
            },
            None => None,
        }),
{
    let cs = chars_of(s);
    assert(cs@.subrange(0, cs@.len() as int) =~= s@);
    parse_unsigned_range(&cs, 0, cs.len())
}

/// `s.parse::<i64>()` as an `Option`.
pub fn parse_signed(s: &str) -> (r: Option<i64>)
    ensures
        r == (match signed_of(s@) {
            Some(v) => if i64::MIN <= v <= i64::MAX {
                Some(v as i64)
            } else {
                None
            },
            None => None,
        }),
{
    let cs = chars_of(s);
    assert(cs@.subrange(0, cs@.len() as int) =~= s@);
    parse_signed_range(&cs, 0, cs.len())
}

/// A field read as an unsigned integer: its value, or 0 where `str::parse` fails.
pub open spec fn usize_field(s: Seq<char>) -> usize {
    match unsigned_of(s) {
        Some(v) => if v <= usize::MAX {
            v as usize
        } else {
            0
        },
        None => 0,
    }
}

/// A field read as a signed integer after trimming white space: its value, or 0 where
/// `str::parse` fails.
pub open spec fn i64_field(s: Seq<char>) -> i64 {
    match signed_of(trimmed(s)) {
        Some(v) => if i64::MIN <= v <= i64::MAX {
            v as i64
        } else {
            0
        },
        None => 0,
    }
}

/// Reads an unsigned integer field, 0 where it does not parse.
pub fn parse_usize(s: &str) -> (r: usize)
    ensures
        r == usize_field(s@),
{
    match parse_unsigned(s) {
        Some(v) => v,
        None => 0,
    }
}

/// Reads a signed integer field after trimming white space, 0 where it does not parse.
pub fn parse_i64(s: &str) -> (r: i64)
    ensures
        r == i64_field(s@),
{
    let cs = chars_of(s);
    let (i, k) = trim_bounds(&cs);
    match parse_signed_range(&cs, i, k) {
        Some(v) => v,
        None => 0,
    }
}

/// Reads a boolean field: `true` exactly for the texts `true` and `1`.
pub fn parse_bool(s: &str) -> (r: bool)
    ensures
        r == (s@ == "true"@ || s@ == "1"@),
{
    text_eq(s, "true") || text_eq(s, "1")
}

/// The character of a decimal digit value.
pub open spec fn digit_char(d: int) -> char {
    (('0' as u32) + d) as char
}

/// The decimal text of a natural number, without sign or leading zeros.
pub open spec fn decimal(n: nat) -> Seq<char>
    decreases n,
{
    if n < 10 {
        seq![digit_char(n as int)]
    } else {
        decimal(n / 10).push(digit_char((n % 10) as int))
    }
}

proof fn lemma_digit_char(k: int)
    requires
        0 <= k < 10,
    ensures
        is_digit(digit_char(k)),
        digit_value(digit_char(k)) == k,
{
    assert(('0' as u32) == 48);
    assert((48 + k) as char as u32 == 48 + k);
}

/// The decimal text is made of digits, is not empty, and reads back as the number.
pub proof fn lemma_decimal(n: nat)
    ensures
        decimal(n).len() > 0,
        all_digits(decimal(n)),
        digits_value(decimal(n)) == n,
        decimal(n)[0] != '+' && decimal(n)[0] != '-',
    decreases n,
{
    lemma_digit_char((n % 10) as int);
    if n < 10 {
        assert(n % 10 == n);
        assert(decimal(n).drop_last() =~= Seq::<char>::empty());
        assert(digits_value(Seq::<char>::empty()) == 0);
        assert(decimal(n).last() == digit_char(n as int));
        assert(digits_value(decimal(n)) == digit_value(digit_char(n as int)));
    }
    if n >= 10 {
        lemma_decimal(n / 10);
        let d = decimal(n / 10);
        assert(decimal(n).drop_last() =~= d);
        assert(decimal(n).last() == digit_char((n % 10) as int));
        assert(digits_value(decimal(n)) == digits_value(d) * 10 + digit_value(digit_char((n % 10) as int)));
        assert(n == (n / 10) * 10 + n % 10) by (nonlinear_arith);
        assert forall|i: int| 0 <= i < decimal(n).len() implies is_digit(#[trigger] decimal(n)[i]) by {
            if i < d.len() {
                assert(decimal(n)[i] == d[i]);
            }
        }
        assert(decimal(n)[0] == d[0]);
    }
}

/// Reading back the decimal text of a number gives the number.
pub proof fn lemma_unsigned_of_decimal(n: nat)
    ensures
        unsigned_of(decimal(n)) == Some(n),
        signed_of(decimal(n)) == Some(n as int),
{
    lemma_decimal(n);
}

/// The character of a digit value below ten.
pub(crate) fn char_of_digit(d: usize) -> (c: char)
    requires
        d < 10,
    ensures
        c == digit_char(d as int),
        is_digit(c),
        digit_value(c) == d,
{
    match d {
        0 => '0',
        1 => '1',
        2 => '2',
        3 => '3',
        4 => '4',
        5 => '5',
        6 => '6',
        7 => '7',
        8 => '8',
        _ => '9',
    }
}

/// The decimal text of `n`, as `usize::to_string` writes it.
pub fn decimal_string(n: usize) -> (s: String)
    ensures
        s@ == decimal(n as nat),
    decreases n,
{
    if n < 10 {
        let mut s = String::new();
        s.push(char_of_digit(n));
        assert(s@ =~= decimal(n as nat));
        s
    } else {
        let mut s = decimal_string(n / 10);
        s.push(char_of_digit(n % 10));
        s
    }
}


/// The fields of a text split at every `sep`, as `str::split` gives them: one more
/// field than there are separators, empty fields included.
pub open spec fn split_fields(s: Seq<char>, sep: char) -> Seq<Seq<char>>
    decreases s.len(),
{
    if s.len() == 0 {
        seq![Seq::<char>::empty()]
    } else {
        let prev = split_fields(s.drop_last(), sep);
        if s.last() == sep {
            prev.push(Seq::<char>::empty())
        } else {
            prev.update(prev.len() - 1, prev.last().push(s.last()))
        }
    }
}

proof fn lemma_split_fields_len(s: Seq<char>, sep: char)
    ensures
        split_fields(s, sep).len() >= 1,
    decreases s.len(),
{
    if s.len() > 0 {
        lemma_split_fields_len(s.drop_last(), sep);
    }
}

/// The unsigned integers that the fields read as, in order, skipping those that do
/// not parse (`filter_map` over `str::parse::<usize>`).
pub open spec fn parsed_ids(fields: Seq<Seq<char>>) -> Seq<usize>
    decreases fields.len(),
{
    if fields.len() == 0 {
        Seq::empty()
    } else {
        let prev = parsed_ids(fields.drop_last());
        match unsigned_of(fields.last()) {
            Some(v) => if v <= usize::MAX {
                prev.push(v as usize)
            } else {
                prev
            },
            None => prev,
        }
    }
}

/// The ids that an id-list field holds: none for an empty field, else the `;`-separated
/// fields that parse as unsigned integers.
pub open spec fn id_list(s: Seq<char>) -> Seq<usize> {
    if s.len() == 0 {
        Seq::empty()
    } else {
        parsed_ids(split_fields(s, ';'))
    }
}

/// Reads a `;`-separated list of ids, skipping fields that are not unsigned integers.
pub fn parse_id_list(s: &str) -> (r: Vec<usize>)
    ensures
        r@ == id_list(s@),
{
    let cs = chars_of(s);
    let n = cs.len();
    if n == 0 {
        return Vec::new();
    }
    let mut out: Vec<usize> = Vec::new();
    let mut start: usize = 0;
    let mut i: usize = 0;
    let ghost mut done: Seq<Seq<char>> = Seq::empty();
    assert(cs@.take(0) =~= Seq::<char>::empty());
    assert(cs@.subrange(0, 0) =~= Seq::<char>::empty());
    assert(done.push(cs@.subrange(0, 0)) =~= seq![Seq::<char>::empty()]);
    while i < n
        invariant
            n == cs@.len(),
            start <= i <= n,
            split_fields(cs@.take(i as int), ';') == done.push(cs@.subrange(start as int, i as int)),
            out@ == parsed_ids(done),
        decreases n - i,
    {
        assert(cs@.take(i + 1).drop_last() =~= cs@.take(i as int));
        assert(cs@.take(i + 1).last() == cs@[i as int]);
        if cs[i] == ';' {
            let ghost field = cs@.subrange(start as int, i as int);
            let p = parse_unsigned_range(&cs, start, i);
            match p {
                Some(v) => out.push(v),
                None => {},
            }
            proof {
                assert(done.push(field).drop_last() =~= done);
                done = done.push(field);
            }
            start = i + 1;
            assert(cs@.subrange(start as int, start as int) =~= Seq::<char>::empty());
        } else {
            assert(cs@.subrange(start as int, i + 1) =~= cs@.subrange(start as int, i as int).push(
                cs@[i as int],
            ));
            assert(done.push(cs@.subrange(start as int, i as int)).update(
                done.len() as int,
                cs@.subrange(start as int, i + 1),
            ) =~= done.push(cs@.subrange(start as int, i + 1)));
        }
        i = i + 1;
    }
    let p = parse_unsigned_range(&cs, start, n);
    match p {
        Some(v) => out.push(v),
        None => {},
    }
    proof {
        let last = cs@.subrange(start as int, n as int);
        assert(cs@.take(n as int) =~= cs@);
        assert(done.push(last).drop_last() =~= done);
    }
    out
}

/// A list of ids written as decimal numbers separated by `;`.
pub open spec fn joined_ids(ids: Seq<usize>) -> Seq<char>
    decreases ids.len(),
{
    if ids.len() == 0 {
        Seq::empty()
    } else if ids.len() == 1 {
        decimal(ids[0] as nat)
    } else {
        joined_ids(ids.drop_last()) + seq![';'] + decimal(ids.last() as nat)
    }
}

/// Writes ids as decimal numbers separated by `;`.
pub fn format_id_list(ids: &Vec<usize>) -> (s: String)
    ensures
        s@ == joined_ids(ids@),
{
    let mut s = String::new();
    let mut i: usize = 0;
    assert(ids@.take(0) =~= Seq::<usize>::empty());
    while i < ids.len()
        invariant
            i <= ids@.len(),
            s@ == joined_ids(ids@.take(i as int)),
        decreases ids@.len() - i,
    {
        assert(ids@.take(i + 1).drop_last() =~= ids@.take(i as int));
        if i > 0 {
            s.push(';');
        }
        let d = decimal_string(ids[i]);
        s.append(d.as_str());
        i = i + 1;
        proof {
            if i == 1 {
                assert(s@ =~= decimal(ids@[0] as nat));
            } else {
                assert(s@ =~= joined_ids(ids@.take(i as int - 1)) + seq![';'] + decimal(
                    ids@[i as int - 1] as nat,
                ));
            }
        }
    }
    assert(ids@.take(ids@.len() as int) =~= ids@);
    s
}

proof fn lemma_split_append_plain(t: Seq<char>, u: Seq<char>, sep: char)
    requires
        forall|i: int| 0 <= i < u.len() ==> u[i] != sep,
    ensures
        split_fields(t + u, sep) == split_fields(t, sep).update(
            split_fields(t, sep).len() - 1,
            split_fields(t, sep).last() + u,
        ),
    decreases u.len(),
{
    lemma_split_fields_len(t, sep);
    if u.len() == 0 {
        assert(t + u =~= t);
        assert(split_fields(t, sep).last() + u =~= split_fields(t, sep).last());
        assert(split_fields(t, sep).update(split_fields(t, sep).len() - 1, split_fields(t, sep).last())
            =~= split_fields(t, sep));
    } else {
        let u0 = u.drop_last();
        lemma_split_append_plain(t, u0, sep);
        assert((t + u).drop_last() =~= t + u0);
        assert((t + u).last() == u.last());
        let f = split_fields(t, sep);
        assert((f.last() + u0).push(u.last()) =~= f.last() + u);
        assert(u.last() != sep);
        let prev = split_fields(t + u0, sep);
        assert(prev.len() == f.len());
        assert(prev.last() == f.last() + u0);
        assert(split_fields(t + u, sep) == prev.update(prev.len() - 1, prev.last().push(u.last())));
        assert(f.update(f.len() - 1, f.last() + u0).update(f.len() - 1, f.last() + u) =~= f.update(
            f.len() - 1,
            f.last() + u,
        ));
    }
}

proof fn lemma_split_joined(ids: Seq<usize>)
    requires
        ids.len() > 0,
    ensures
        split_fields(joined_ids(ids), ';') == Seq::new(ids.len(), |i: int| decimal(ids[i] as nat)),
    decreases ids.len(),
{
    let target = Seq::new(ids.len(), |i: int| decimal(ids[i] as nat));
    lemma_decimal(ids.last() as nat);
    let d = decimal(ids.last() as nat);
    assert forall|i: int| 0 <= i < d.len() implies d[i] != ';' by {
        assert(is_digit(d[i]));
    }
    if ids.len() == 1 {
        lemma_split_append_plain(Seq::empty(), d, ';');
        assert(Seq::<char>::empty() + d =~= d);
        assert(split_fields(Seq::<char>::empty(), ';') =~= seq![Seq::<char>::empty()]);
        assert(Seq::<char>::empty() + d =~= d);
        assert(target =~= seq![d]);
    } else {
        let pre = ids.drop_last();
        lemma_split_joined(pre);
        let t = joined_ids(pre) + seq![';'];
        assert(t.drop_last() =~= joined_ids(pre));
        lemma_split_append_plain(t, d, ';');
        assert(joined_ids(ids) =~= t + d);
        let f = split_fields(t, ';');
        assert(f =~= split_fields(joined_ids(pre), ';').push(Seq::<char>::empty()));
        assert(Seq::<char>::empty() + d =~= d);
        assert(f.update(f.len() - 1, f.last() + d) =~= target);
    }
}

proof fn lemma_parsed_decimals(ids: Seq<usize>)
    ensures
        parsed_ids(Seq::new(ids.len(), |i: int| decimal(ids[i] as nat))) == ids,
    decreases ids.len(),
{
    if ids.len() > 0 {
        let fs = Seq::new(ids.len(), |i: int| decimal(ids[i] as nat));
        lemma_parsed_decimals(ids.drop_last());
        assert(fs.drop_last() =~= Seq::new(
            ids.drop_last().len(),
            |i: int| decimal(ids.drop_last()[i] as nat),
        ));
        lemma_unsigned_of_decimal(ids.last() as nat);
        assert(ids.drop_last().push(ids.last()) =~= ids);
    }
}

/// Reading back a written id list gives the same ids: the id columns of the clean
/// CSVs survive a write and a load.
pub proof fn lemma_id_list_round_trip(ids: Seq<usize>)
    ensures
        id_list(joined_ids(ids)) == ids,
{
    if ids.len() > 0 {
        lemma_split_joined(ids);
        lemma_parsed_decimals(ids);
        lemma_decimal(ids[0] as nat);
        assert(joined_ids(ids).len() > 0) by {
            lemma_joined_nonempty(ids);
        }
    }
}

proof fn lemma_joined_nonempty(ids: Seq<usize>)
    requires
        ids.len() > 0,
    ensures
        joined_ids(ids).len() > 0,
    decreases ids.len(),
{
    lemma_decimal(ids.last() as nat);
    lemma_decimal(ids[0] as nat);
}


/// Digits with a `,` before every group of three counted from the right.
pub open spec fn grouped(d: Seq<char>) -> Seq<char>
    decreases d.len(),
{
    if d.len() <= 3 {
        d
    } else {
        grouped(d.subrange(0, d.len() - 3)) + seq![','] + d.subrange(d.len() - 3, d.len() as int)
    }
}

/// The first `k` digits of `d` (of total length `m`) with a `,` before each digit that
/// has a multiple of three digits after it.
spec fn grouped_prefix(d: Seq<char>, m: int, k: nat) -> Seq<char>
    decreases k,
{
    if k == 0 {
        Seq::empty()
    } else {
        let prev = grouped_prefix(d, m, (k - 1) as nat);
        let sep = if k - 1 > 0 && (m - (k - 1)) % 3 == 0 {
            seq![',']
        } else {
            Seq::empty()
        };
        prev + sep + seq![d[k - 1]]
    }
}

proof fn lemma_grouped_prefix_shift(d: Seq<char>, m: int, k: nat)
    requires
        m >= 3,
        k <= m - 3,
        d.len() == m,
    ensures
        grouped_prefix(d, m, k) == grouped_prefix(d.subrange(0, m - 3), m - 3, k),
    decreases k,
{
    if k > 0 {
        lemma_grouped_prefix_shift(d, m, (k - 1) as nat);
        assert((m - (k - 1)) % 3 == ((m - 3) - (k - 1)) % 3);
    }
}

proof fn lemma_grouped_prefix_full(d: Seq<char>)
    ensures
        grouped_prefix(d, d.len() as int, d.len()) == grouped(d),
    decreases d.len(),
{
    let m = d.len() as int;
    if m <= 3 {
        lemma_grouped_prefix_small(d, d.len());
        assert(d.subrange(0, m) =~= d);
    } else {
        let pre = d.subrange(0, m - 3);
        lemma_grouped_prefix_shift(d, m, (m - 3) as nat);
        lemma_grouped_prefix_full(pre);
        assert(grouped_prefix(d, m, (m - 2) as nat) == grouped_prefix(d, m, (m - 3) as nat) + seq![
            ',',
        ] + seq![d[m - 3]]);
        assert(grouped_prefix(d, m, (m - 1) as nat) == grouped_prefix(d, m, (m - 2) as nat)
            + Seq::<char>::empty() + seq![d[m - 2]]);
        assert(grouped_prefix(d, m, m as nat) == grouped_prefix(d, m, (m - 1) as nat)
            + Seq::<char>::empty() + seq![d[m - 1]]);
        assert(grouped_prefix(d, m, m as nat) =~= grouped(pre) + seq![','] + d.subrange(m - 3, m));
    }
}

proof fn lemma_grouped_prefix_small(d: Seq<char>, k: nat)
    requires
        d.len() <= 3,
        k <= d.len(),
    ensures
        grouped_prefix(d, d.len() as int, k) == d.subrange(0, k as int),
    decreases k,
{
    if k > 0 {
        lemma_grouped_prefix_small(d, (k - 1) as nat);
        assert(d.subrange(0, k as int) =~= d.subrange(0, k - 1) + Seq::<char>::empty() + seq![
            d[k - 1],
        ]);
    } else {
        assert(d.subrange(0, 0) =~= Seq::<char>::empty());
    }
}

/// Writes a count with thousands separators, e.g. `28,200,000`.
pub fn format_num(n: usize) -> (s: String)
    ensures
        s@ == grouped(decimal(n as nat)),
{
    let digits = decimal_string(n);
    let d = chars_of(digits.as_str());
    let m = d.len();
    let mut out = String::new();
    let mut i: usize = 0;
    while i < m
        invariant
            m == d@.len(),
            i <= m,
            out@ == grouped_prefix(d@, m as int, i as nat),
        decreases m - i,
    {
        if i > 0 && (m - i) % 3 == 0 {
            out.push(',');
        }
        out.push(d[i]);
        i = i + 1;
        assert(out@ =~= grouped_prefix(d@, m as int, i as nat));
    }
    proof {
        lemma_grouped_prefix_full(d@);
    }
    out
}

/// Two decimal digits of a number below 100, with a leading zero.
pub open spec fn two_digits(v: nat) -> Seq<char> {
    seq![digit_char((v / 10) as int), digit_char((v % 10) as int)]
}

/// The parameter file name of a fiscal year: `2029` gives `2029_30.yaml`.
pub open spec fn fiscal_year_file(year: nat) -> Seq<char> {
    decimal(year) + seq!['_'] + two_digits((year + 1) % 100) + seq!['.', 'y', 'a', 'm', 'l']
}

/// The parameter file name of the fiscal year that starts in `year`.
pub fn fiscal_year_filename(year: u32) -> (s: String)
    requires
        year < u32::MAX,
    ensures
        s@ == fiscal_year_file(year as nat),
{
    let mut s = decimal_string(year as usize);
    let next = (year + 1) % 100;
    s.push('_');
    s.push(char_of_digit((next / 10) as usize));
    s.push(char_of_digit((next % 10) as usize));
    s.push('.');
    s.push('y');
    s.push('a');
    s.push('m');
    s.push('l');
    assert(s@ =~= fiscal_year_file(year as nat));
    s
}

/// The label of the fiscal year that starts in `year`: `2025` gives `2025/26`.
pub open spec fn fiscal_year_text(year: nat) -> Seq<char> {
    decimal(year) + seq!['/'] + two_digits((year + 1) % 100)
}

/// Writes the label of the fiscal year that starts in `year`, as the dataset names
/// and parameter files show it.
pub fn fiscal_year_label(year: u32) -> (s: String)
    requires
        year < u32::MAX,
    ensures
        s@ == fiscal_year_text(year as nat),
{
    let mut s = decimal_string(year as usize);
    let next = (year + 1) % 100;
    s.push('/');
    s.push(char_of_digit((next / 10) as usize));
    s.push(char_of_digit((next % 10) as usize));
    assert(s@ =~= fiscal_year_text(year as nat));
    s
}

/// The fiscal years that have parameter files: 1994/95 through 2029/30, in order.
pub fn available_years() -> (r: Vec<u32>)
    ensures
        r@.len() == 36,
        forall|i: int| 0 <= i < 36 ==> #[trigger] r@[i] == 1994 + i,
{
    let mut r: Vec<u32> = Vec::new();
    let mut year: u32 = 1994;
    while year <= 2029
        invariant
            1994 <= year <= 2030,
            r@.len() == year - 1994,
            forall|i: int| 0 <= i < r@.len() ==> #[trigger] r@[i] == 1994 + i,
        decreases 2030 - year,
    {
        r.push(year);
        year = year + 1;
    }
    r
}

/// Reading back the decimal text of an unsigned integer gives it back.
pub proof fn lemma_usize_field_round_trip(n: usize)
    ensures
        usize_field(decimal(n as nat)) == n,
{
    lemma_unsigned_of_decimal(n as nat);
}

/// The text a boolean field is written as.
pub open spec fn bool_text(b: bool) -> Seq<char> {
    if b {
        "true"@
    } else {
        "false"@
    }
}

/// Writes a boolean field as `true` or `false`.
pub fn format_bool(b: bool) -> (s: &'static str)
    ensures
        s@ == bool_text(b),
{
    if b {
        "true"
    } else {
        "false"
    }
}

/// Reading back a written boolean field gives it back.
pub proof fn lemma_bool_round_trip(b: bool)
    ensures
        (bool_text(b) == "true"@ || bool_text(b) == "1"@) == b,
{
    reveal_strlit("true");
    reveal_strlit("false");
    reveal_strlit("1");
    if !b {
        assert("false"@[1] != "true"@[1]);
        assert("false"@.len() != "1"@.len());
    }
}

} // verus!
