//! Text operations, stated over the characters of a string.
use vstd::prelude::*;

verus! {

/// How many characters stand before the first `c` of `s` (all of them where
/// there is none).
pub open spec fn field_len(s: Seq<char>, c: char) -> nat
    decreases s.len(),
{
    if s.len() == 0 || s[0] == c {
        0
    } else {
        1 + field_len(s.drop_first(), c)
    }
}

/// The fields of `s` that `sep` parts. There is always at least one.
pub open spec fn fields(s: Seq<char>, sep: char) -> Seq<Seq<char>>
    decreases s.len(),
{
    let n = field_len(s, sep);
    if n >= s.len() {
        seq![s]
    } else {
        seq![s.take(n as int)] + fields(s.skip(n as int + 1), sep)
    }
}

/// `s` without the `c`s that it begins with.
pub open spec fn trimmed_start(s: Seq<char>, c: char) -> Seq<char>
    decreases s.len(),
{
    if s.len() > 0 && s[0] == c {
        trimmed_start(s.drop_first(), c)
    } else {
        s
    }
}

/// `s` without the `c`s that it ends with.
pub open spec fn trimmed_end(s: Seq<char>, c: char) -> Seq<char>
    decreases s.len(),
{
    if s.len() > 0 && s.last() == c {
        trimmed_end(s.drop_last(), c)
    } else {
        s
    }
}

/// `c` in lower case, where it is an ASCII letter.
pub open spec fn lowered(c: char) -> int {
    if 'A' <= c <= 'Z' {
        c as int + 32
    } else {
        c as int
    }
}

/// The two texts differ at most in the case of ASCII letters.
pub open spec fn same_ignoring_case(a: Seq<char>, b: Seq<char>) -> bool {
    &&& a.len() == b.len()
    &&& forall|i: int| 0 <= i < a.len() ==> lowered(#[trigger] a[i]) == lowered(b[i])
}

/// `s` ends with `suffix`, ASCII letters taken without their case.
pub open spec fn ends_ignoring_case(s: Seq<char>, suffix: Seq<char>) -> bool {
    &&& s.len() >= suffix.len()
    &&& same_ignoring_case(s.skip(s.len() - suffix.len()), suffix)
}

/// `s` with each occurrence of `pattern`, found from left to right without
/// overlap, replaced by `with`.
pub open spec fn replaced(s: Seq<char>, pattern: Seq<char>, with: Seq<char>) -> Seq<char>
    decreases s.len(),
{
    if pattern.len() == 0 || s.len() < pattern.len() {
        s
    } else if s.take(pattern.len() as int) == pattern {
        with + replaced(s.skip(pattern.len() as int), pattern, with)
    } else {
        seq![s[0]] + replaced(s.drop_first(), pattern, with)
    }
}

/// A decimal digit.
pub open spec fn is_digit(c: char) -> bool {
    '0' <= c <= '9'
}

/// The number that a run of decimal digits writes.
pub open spec fn digits_value(s: Seq<char>) -> nat
    decreases s.len(),
{
    if s.len() == 0 {
        0
    } else {
        digits_value(s.drop_last()) * 10 + (s.last() as int - '0' as int) as nat
    }
}

/// At least one character, and decimal digits only.
pub open spec fn all_digits(s: Seq<char>) -> bool {
    s.len() > 0 && forall|i: int| 0 <= i < s.len() ==> is_digit(#[trigger] s[i])
}

/// What stands behind a single leading plus sign.
pub open spec fn unsigned_part(s: Seq<char>) -> Seq<char> {
    if s.len() > 0 && s[0] == '+' {
        s.drop_first()
    } else {
        s
    }
}

/// The `u32` that `s` writes: decimal digits, with or without a plus sign
/// before them. Nothing where `s` is anything else or the number is too large.
pub open spec fn parsed_u32(s: Seq<char>) -> Option<u32> {
    let digits = unsigned_part(s);
    if all_digits(digits) && digits_value(digits) <= u32::MAX {
        Some(digits_value(digits) as u32)
    } else {
        None
    }
}

/// `n` in decimal digits, without leading zeros.
pub open spec fn decimal(n: nat) -> Seq<char>
    decreases n,
{
    let digit = ('0' as int + n % 10) as char;
    if n < 10 {
        seq![digit]
    } else {
        decimal(n / 10).push(digit)
    }
}

/// What stands before the first `c` is the field that `field_len` measures.
pub proof fn lemma_field_len(s: Seq<char>, c: char, n: nat)
    requires
        n <= s.len(),
        forall|j: int| 0 <= j < n ==> s[j] != c,
        n < s.len() ==> s[n as int] == c,
    ensures
        field_len(s, c) == n,
    decreases n,
{
    if n > 0 {
        let rest = s.drop_first();
        assert forall|j: int| 0 <= j < n - 1 implies rest[j] != c by {
            assert(rest[j] == s[j + 1]);
        }
        lemma_field_len(rest, c, (n - 1) as nat);
    }
}

/// The field that `field_len` measures holds no `c`, and a `c` follows it.
pub proof fn lemma_field_len_bounds(s: Seq<char>, c: char)
    ensures
        field_len(s, c) <= s.len(),
        forall|j: int| 0 <= j < field_len(s, c) ==> s[j] != c,
        field_len(s, c) < s.len() ==> s[field_len(s, c) as int] == c,
    decreases s.len(),
{
    if s.len() > 0 && s[0] != c {
        let rest = s.drop_first();
        lemma_field_len_bounds(rest, c);
        assert forall|j: int| 0 <= j < field_len(s, c) implies s[j] != c by {
            if j > 0 {
                assert(s[j] == rest[j - 1]);
            }
        }
    }
}

/// There is always a first field.
pub proof fn lemma_fields_nonempty(s: Seq<char>, sep: char)
    ensures
        fields(s, sep).len() >= 1,
{
}

/// Collects the characters of a string.
pub fn chars_of(s: &str) -> (chars: Vec<char>)
    ensures
        chars@ == s@,
{
    let mut chars: Vec<char> = Vec::new();
    for c in it: s.chars()
        invariant
            it.seq() == s@,
            chars@ == s@.take(it.index()),
    {
        assert(s@.take(it.index() + 1) == s@.take(it.index()).push(c));
        chars.push(c);
    }
    assert(s@.take(s@.len() as int) == s@);
    chars
}

/// The views of the strings in a vector.
pub open spec fn texts(list: Seq<&str>) -> Seq<Seq<char>> {
    list.map_values(|s: &str| s@)
}

/// Parts a string at every `sep`.
pub fn split<'a>(s: &'a str, sep: char) -> (parts: Vec<&'a str>)
    ensures
        texts(parts@) == fields(s@, sep),
        parts@.len() == fields(s@, sep).len(),
{
    let chars: Vec<char> = chars_of(s);
    let mut parts: Vec<&'a str> = Vec::new();
    let mut start: usize = 0;
    let mut i: usize = 0;
    assert(texts(parts@) + fields(s@.skip(0), sep) == fields(s@, sep)) by {
        assert(s@.skip(0) == s@);
        assert(texts(parts@) == Seq::<Seq<char>>::empty());
        assert(Seq::<Seq<char>>::empty() + fields(s@, sep) == fields(s@, sep));
    }
    while i < chars.len()
        invariant
            chars@ == s@,
            start <= i <= chars.len(),
            forall|j: int| start <= j < i ==> chars@[j] != sep,
            texts(parts@) + fields(s@.skip(start as int), sep) == fields(s@, sep),
        decreases chars.len() - i,
    {
        if chars[i] == sep {
            let part: &'a str = s.substring_char(start, i);
            proof {
                let tail = s@.skip(start as int);
                let n = (i - start) as nat;
                assert forall|j: int| 0 <= j < n implies tail[j] != sep by {
                    assert(tail[j] == chars@[start + j]);
                }
                lemma_field_len(tail, sep, n);
                assert(tail.take(n as int) == part@);
                assert(tail.skip(n as int + 1) == s@.skip(i + 1));
                assert(texts(parts@.push(part)) == texts(parts@).push(part@));
                assert(texts(parts@).push(part@) + fields(s@.skip(i + 1), sep) == texts(parts@)
                    + (seq![part@] + fields(s@.skip(i + 1), sep)));
            }
            parts.push(part);
            start = i + 1;
        }
        i += 1;
    }
    let part: &'a str = s.substring_char(start, chars.len());
    proof {
        let tail = s@.skip(start as int);
        assert forall|j: int| 0 <= j < tail.len() implies tail[j] != sep by {
            assert(tail[j] == chars@[start + j]);
        }
        lemma_field_len(tail, sep, tail.len());
        assert(part@ == tail);
        assert(texts(parts@.push(part)) == texts(parts@).push(part@));
        assert(texts(parts@).push(part@) == texts(parts@) + seq![part@]);
    }
    parts.push(part);
    parts
}

/// Drops the `c`s that a string begins with.
pub fn trim_start<'a>(s: &'a str, c: char) -> (rest: &'a str)
    ensures
        rest@ == trimmed_start(s@, c),
{
    let chars: Vec<char> = chars_of(s);
    let mut i: usize = 0;
    assert(s@.skip(0) == s@);
    while i < chars.len() && chars[i] == c
        invariant
            chars@ == s@,
            i <= chars.len(),
            trimmed_start(s@.skip(i as int), c) == trimmed_start(s@, c),
        decreases chars.len() - i,
    {
        assert(s@.skip(i as int).drop_first() == s@.skip(i + 1));
        i += 1;
    }
    assert(s@.subrange(i as int, s@.len() as int) == s@.skip(i as int));
    s.substring_char(i, chars.len())
}

/// Drops the `c`s that a string ends with.
pub fn trim_end<'a>(s: &'a str, c: char) -> (rest: &'a str)
    ensures
        rest@ == trimmed_end(s@, c),
{
    let chars: Vec<char> = chars_of(s);
    let mut n: usize = chars.len();
    assert(s@.take(n as int) == s@);
    while n > 0 && chars[n - 1] == c
        invariant
            chars@ == s@,
            n <= chars.len(),
            trimmed_end(s@.take(n as int), c) == trimmed_end(s@, c),
        decreases n,
    {
        assert(s@.take(n as int).drop_last() == s@.take(n - 1));
        n -= 1;
    }
    assert(s@.subrange(0, n as int) == s@.take(n as int));
    s.substring_char(0, n)
}

/// The number of a character.
pub fn code_point(c: char) -> (n: u32)
    ensures
        n == c as int,
{
    c as u32
}

/// An ASCII letter in lower case; any other character as its number.
fn lower(c: char) -> (n: u32)
    ensures
        n == lowered(c),
{
    let n: u32 = code_point(c);
    if 65 <= n && n <= 90 {
        n + 32
    } else {
        n
    }
}

/// Compares two strings, ASCII letters without their case.
pub fn eq_ignore_ascii_case(a: &str, b: &str) -> (same: bool)
    ensures
        same == same_ignoring_case(a@, b@),
{
    let left: Vec<char> = chars_of(a);
    let right: Vec<char> = chars_of(b);
    if left.len() != right.len() {
        return false;
    }
    let mut i: usize = 0;
    while i < left.len()
        invariant
            left@ == a@,
            right@ == b@,
            left.len() == right.len(),
            i <= left.len(),
            forall|j: int| 0 <= j < i ==> lowered(#[trigger] a@[j]) == lowered(b@[j]),
        decreases left.len() - i,
    {
        if lower(left[i]) != lower(right[i]) {
            assert(lowered(a@[i as int]) != lowered(b@[i as int]));
            return false;
        }
        i += 1;
    }
    true
}

/// Compares two strings.
pub fn same_text(a: &str, b: &str) -> (same: bool)
    ensures
        same == (a@ == b@),
{
    let left: Vec<char> = chars_of(a);
    let right: Vec<char> = chars_of(b);
    if left.len() != right.len() {
        return false;
    }
    let mut i: usize = 0;
    while i < left.len()
        invariant
            left@ == a@,
            right@ == b@,
            left.len() == right.len(),
            i <= left.len(),
            forall|j: int| 0 <= j < i ==> a@[j] == b@[j],
        decreases left.len() - i,
    {
        if left[i] != right[i] {
            assert(a@[i as int] != b@[i as int]);
            return false;
        }
        i += 1;
    }
    assert(a@ == b@);
    true
}

/// Tells whether `s` ends with `suffix`, ASCII letters without their case.
pub fn ends_with_ignore_ascii_case(s: &str, suffix: &str) -> (ends: bool)
    ensures
        ends == ends_ignoring_case(s@, suffix@),
{
    let n: usize = s.unicode_len();
    let m: usize = suffix.unicode_len();
    if n < m {
        return false;
    }
    let tail: &str = s.substring_char(n - m, n);
    assert(tail@ == s@.skip(n - m));
    eq_ignore_ascii_case(tail, suffix)
}

/// Tells whether `pattern` stands at `at`.
fn stands_at(chars: &Vec<char>, at: usize, pattern: &Vec<char>) -> (found: bool)
    requires
        at <= chars.len(),
        pattern.len() <= chars.len() - at,
    ensures
        found == (chars@.skip(at as int).take(pattern@.len() as int) == pattern@),
{
    let mut k: usize = 0;
    let ghost here = chars@.skip(at as int).take(pattern@.len() as int);
    while k < pattern.len()
        invariant
            at <= chars.len(),
            pattern.len() <= chars.len() - at,
            here == chars@.skip(at as int).take(pattern@.len() as int),
            k <= pattern.len(),
            forall|j: int| 0 <= j < k ==> here[j] == pattern@[j],
        decreases pattern.len() - k,
    {
        assert(here[k as int] == chars@[at + k]);
        if chars[at + k] != pattern[k] {
            return false;
        }
        k += 1;
    }
    assert(here == pattern@);
    true
}

/// Replaces each occurrence of a pattern.
pub fn replace(s: &str, pattern: &str, with: &str) -> (out: String)
    requires
        pattern@.len() > 0,
    ensures
        out@ == replaced(s@, pattern@, with@),
{
    let chars: Vec<char> = chars_of(s);
    let wanted: Vec<char> = chars_of(pattern);
    let mut out: String = String::new();
    let mut i: usize = 0;
    assert(s@.skip(0) == s@);
    assert(out@ + replaced(s@, pattern@, with@) == replaced(s@, pattern@, with@));
    while chars.len() - i >= wanted.len()
        invariant
            chars@ == s@,
            wanted@ == pattern@,
            wanted@.len() > 0,
            i <= chars.len(),
            out@ + replaced(s@.skip(i as int), pattern@, with@) == replaced(s@, pattern@, with@),
        decreases chars.len() - i,
    {
        let ghost before = out@;
        let ghost rest = s@.skip(i as int);
        if stands_at(&chars, i, &wanted) {
            out.append(with);
            assert(rest.skip(wanted.len() as int) == s@.skip(i + wanted.len()));
            assert(before + (with@ + replaced(s@.skip(i + wanted.len()), pattern@, with@)) == out@
                + replaced(s@.skip(i + wanted.len()), pattern@, with@));
            i += wanted.len();
        } else {
            let one: &str = s.substring_char(i, i + 1);
            out.append(one);
            assert(one@ == seq![rest[0]]);
            assert(rest.drop_first() == s@.skip(i + 1));
            assert(before + (seq![rest[0]] + replaced(s@.skip(i + 1), pattern@, with@)) == out@
                + replaced(s@.skip(i + 1), pattern@, with@));
            i += 1;
        }
    }
    let tail: &str = s.substring_char(i, chars.len());
    assert(tail@ == s@.skip(i as int));
    out.append(tail);
    out
}

/// `digits_value` only grows as digits are added behind.
proof fn lemma_digits_value_grows(s: Seq<char>, n: int)
    requires
        0 <= n <= s.len(),
        forall|i: int| 0 <= i < s.len() ==> is_digit(#[trigger] s[i]),
    ensures
        digits_value(s.take(n)) <= digits_value(s),
    decreases s.len(),
{
    if n == s.len() {
        assert(s.take(n) == s);
    } else {
        let head = s.drop_last();
        assert(head.take(n) == s.take(n));
        lemma_digits_value_grows(head, n);
    }
}

/// Reads a `u32`: decimal digits, with or without a plus sign before them.
pub fn parse_u32(s: &str) -> (value: Option<u32>)
    ensures
        value == parsed_u32(s@),
{
    let chars: Vec<char> = chars_of(s);
    let begin: usize = if chars.len() > 0 && chars[0] == '+' {
        1
    } else {
        0
    };
    let ghost digits = unsigned_part(s@);
    assert(digits == s@.skip(begin as int));
    if begin == chars.len() {
        return None;
    }
    let mut total: u64 = 0;
    let mut i: usize = begin;
    assert(digits.take(0) == Seq::<char>::empty());
    while i < chars.len()
        invariant
            chars@ == s@,
            begin <= i <= chars.len(),
            digits == s@.skip(begin as int),
            digits == unsigned_part(s@),
            total <= u32::MAX,
            total == digits_value(digits.take(i - begin)),
            forall|j: int| 0 <= j < i - begin ==> is_digit(#[trigger] digits[j]),
        decreases chars.len() - i,
    {
        let c: char = chars[i];
        let n: u32 = code_point(c);
        assert(digits[i - begin] == c);
        if n < 48 || n > 57 {
            return None;
        }
        proof {
            let head = digits.take(i - begin + 1);
            assert(head.drop_last() == digits.take(i - begin));
            assert(head.last() == c);
        }
        total = total * 10 + (n - 48) as u64;
        if total > u32::MAX as u64 {
            proof {
                if all_digits(digits) {
                    lemma_digits_value_grows(digits, i - begin + 1);
                }
            }
            return None;
        }
        i += 1;
    }
    assert(digits.take(i - begin) == digits);
    Some(total as u32)
}

/// A decimal digit as text.
fn digit_text(d: u32) -> (text: &'static str)
    requires
        d < 10,
    ensures
        text@ == seq![('0' as int + d) as char],
{
    proof {
        reveal_strlit("0");
        reveal_strlit("1");
        reveal_strlit("2");
        reveal_strlit("3");
        reveal_strlit("4");
        reveal_strlit("5");
        reveal_strlit("6");
        reveal_strlit("7");
        reveal_strlit("8");
        reveal_strlit("9");
    }
    match d {
        0 => "0",
        1 => "1",
        2 => "2",
        3 => "3",
        4 => "4",
        5 => "5",
        6 => "6",
        7 => "7",
        8 => "8",
        _ => "9",
    }
}

/// Writes a `u32` in decimal digits.
pub fn u32_to_text(n: u32) -> (text: String)
    ensures
        text@ == decimal(n as nat),
    decreases n,
{
    let digit: &'static str = digit_text(n % 10);
    if n < 10 {
        digit.to_string()
    } else {
        let text: String = u32_to_text(n / 10).concat(digit);
        assert(text@ == decimal((n / 10) as nat).push(digit@[0]));
        text
    }
}

/// Decimal digits are digits, and write their number.
pub proof fn lemma_decimal(n: nat)
    ensures
        all_digits(decimal(n)),
        digits_value(decimal(n)) == n,
    decreases n,
{
    let digit = ('0' as int + n % 10) as char;
    assert(is_digit(digit));
    if n < 10 {
        reveal_with_fuel(digits_value, 2);
        assert(decimal(n).drop_last() == Seq::<char>::empty());
    } else {
        lemma_decimal(n / 10);
        let head = decimal(n / 10);
        assert(decimal(n).drop_last() == head);
        assert forall|i: int| 0 <= i < decimal(n).len() implies is_digit(#[trigger] decimal(n)[i]) by {
            if i < head.len() {
                assert(decimal(n)[i] == head[i]);
            }
        }
    }
}

/// What `u32_to_text` writes, `parse_u32` reads back.
pub proof fn decimal_reads_back(n: u32)
    ensures
        parsed_u32(decimal(n as nat)) == Some(n),
{
    lemma_decimal(n as nat);
    assert(decimal(n as nat)[0] != '+') by {
        assert(is_digit(decimal(n as nat)[0]));
    }
}

/// A text equals itself, and the comparison does not depend on the order.
pub proof fn same_ignoring_case_is_symmetric(a: Seq<char>, b: Seq<char>)
    ensures
        same_ignoring_case(a, a),
        same_ignoring_case(a, b) == same_ignoring_case(b, a),
{
    if same_ignoring_case(a, b) {
        assert forall|i: int| 0 <= i < b.len() implies lowered(#[trigger] b[i]) == lowered(a[i]) by {
            assert(lowered(a[i]) == lowered(b[i]));
        }
    }
    if same_ignoring_case(b, a) {
        assert forall|i: int| 0 <= i < a.len() implies lowered(#[trigger] a[i]) == lowered(b[i]) by {
            assert(lowered(b[i]) == lowered(a[i]));
        }
    }
}

/// Texts with a character between each two.
pub open spec fn joined(parts: Seq<Seq<char>>, sep: char) -> Seq<char>
    decreases parts.len(),
{
    if parts.len() == 0 {
        seq![]
    } else if parts.len() == 1 {
        parts[0]
    } else {
        parts[0] + seq![sep] + joined(parts.drop_first(), sep)
    }
}

/// The fields of a text, put together again, are the text, and no field holds the
/// separator.
pub proof fn fields_make_up_the_text(s: Seq<char>, sep: char)
    ensures
        joined(fields(s, sep), sep) == s,
        forall|i: int, j: int|
            0 <= i < fields(s, sep).len() && 0 <= j < fields(s, sep)[i].len()
                ==> #[trigger] fields(s, sep)[i][j] != sep,
    decreases s.len(),
{
    let n = field_len(s, sep);
    let parts = fields(s, sep);
    lemma_field_len_bounds(s, sep);
    if n >= s.len() {
        assert(parts == seq![s]);
    } else {
        let rest = s.skip(n as int + 1);
        fields_make_up_the_text(rest, sep);
        lemma_fields_nonempty(rest, sep);
        let head = s.take(n as int);
        assert(parts == seq![head] + fields(rest, sep));
        assert(parts.drop_first() == fields(rest, sep));
        assert(head + seq![sep] + rest == s);
        assert forall|i: int, j: int|
            0 <= i < parts.len() && 0 <= j < parts[i].len() implies #[trigger] parts[i][j] != sep by {
            if i == 0 {
                assert(parts[0] == head);
            } else {
                assert(parts[i] == fields(rest, sep)[i - 1]);
            }
        }
    }
}

/// One more field behind a text is one more field.
pub proof fn a_field_can_be_added(s: Seq<char>, field: Seq<char>, sep: char)
    requires
        forall|i: int| 0 <= i < field.len() ==> field[i] != sep,
    ensures
        fields(s + seq![sep] + field, sep) == fields(s, sep).push(field),
    decreases s.len(),
{
    let long = s + seq![sep] + field;
    let n = field_len(s, sep);
    lemma_field_len_bounds(s, sep);
    assert forall|j: int| 0 <= j < n implies long[j] != sep by {
        assert(long[j] == s[j]);
    }
    if n < s.len() {
        assert(long[n as int] == s[n as int]);
    }
    lemma_field_len(long, sep, n);
    assert(long.take(n as int) == s.take(n as int));
    if n < s.len() {
        let rest = s.skip(n as int + 1);
        assert(long.skip(n as int + 1) == rest + seq![sep] + field);
        a_field_can_be_added(rest, field, sep);
        assert(seq![s.take(n as int)] + fields(rest, sep).push(field) == (seq![s.take(n as int)]
            + fields(rest, sep)).push(field));
    } else {
        assert(long.skip(n as int + 1) == field);
        lemma_field_len(field, sep, field.len());
        assert(s.take(n as int) == s);
        assert(fields(field, sep) == seq![field]);
        assert(fields(s, sep) == seq![s]);
        assert(fields(long, sep) == seq![s] + seq![field]);
        assert(seq![s] + seq![field] == seq![s].push(field));
    }
}

/// Trimming the front takes away a run of the character, all of it and nothing
/// else.
pub proof fn trimming_the_front_takes_the_whole_run(s: Seq<char>, c: char)
    ensures
        trimmed_start(s, c).len() <= s.len(),
        trimmed_start(s, c) == s.skip(s.len() - trimmed_start(s, c).len()),
        forall|i: int| 0 <= i < s.len() - trimmed_start(s, c).len() ==> s[i] == c,
        trimmed_start(s, c).len() > 0 ==> trimmed_start(s, c)[0] != c,
    decreases s.len(),
{
    if s.len() > 0 && s[0] == c {
        let rest = s.drop_first();
        let t = trimmed_start(rest, c);
        trimming_the_front_takes_the_whole_run(rest, c);
        assert(rest.skip(rest.len() - t.len()) == s.skip(s.len() - t.len()));
        assert forall|i: int| 0 <= i < s.len() - t.len() implies s[i] == c by {
            if i > 0 {
                assert(s[i] == rest[i - 1]);
            }
        }
    } else {
        assert(s.skip(0) == s);
    }
}

/// Trimming the end takes away a run of the character, all of it and nothing
/// else.
pub proof fn trimming_the_end_takes_the_whole_run(s: Seq<char>, c: char)
    ensures
        trimmed_end(s, c).len() <= s.len(),
        trimmed_end(s, c) == s.take(trimmed_end(s, c).len() as int),
        forall|i: int| trimmed_end(s, c).len() <= i < s.len() ==> s[i] == c,
        trimmed_end(s, c).len() > 0 ==> trimmed_end(s, c).last() != c,
    decreases s.len(),
{
    if s.len() > 0 && s.last() == c {
        let rest = s.drop_last();
        let t = trimmed_end(rest, c);
        trimming_the_end_takes_the_whole_run(rest, c);
        assert(rest.take(t.len() as int) == s.take(t.len() as int));
        assert forall|i: int| t.len() <= i < s.len() implies s[i] == c by {
            if i < rest.len() {
                assert(s[i] == rest[i]);
            }
        }
    } else {
        assert(s.take(s.len() as int) == s);
    }
}

/// An upper-case letter of ASCII.
pub open spec fn is_upper(c: char) -> bool {
    65 <= c as int <= 90
}

/// Two characters are taken for the same just where they are, or where one is an
/// upper-case letter of ASCII and the other the lower-case one.
pub proof fn only_letters_have_a_case(a: char, b: char)
    ensures
        (lowered(a) == lowered(b)) == (a == b || (is_upper(a) && b as int == a as int + 32) || (
        is_upper(b) && a as int == b as int + 32)),
{
}

/// A text ends with whatever was put behind it, in any case; a shorter text does
/// not.
pub proof fn endings_are_what_stands_behind(front: Seq<char>, back: Seq<char>, suffix: Seq<char>)
    ensures
        back.len() == suffix.len() ==> ends_ignoring_case(front + back, suffix)
            == same_ignoring_case(back, suffix),
        back.len() < suffix.len() ==> !ends_ignoring_case(back, suffix),
{
    if back.len() == suffix.len() {
        let s = front + back;
        assert(s.skip(s.len() - suffix.len()) == back);
    }
}

/// `pattern` stands in `s` at this place.
pub open spec fn occurs_at(s: Seq<char>, pattern: Seq<char>, at: int) -> bool {
    0 <= at && at + pattern.len() <= s.len() && s.subrange(at, at + pattern.len()) == pattern
}

/// Text in which a pattern does not stand is left alone by replacing it.
pub proof fn nothing_is_replaced_where_nothing_stands(
    s: Seq<char>,
    pattern: Seq<char>,
    with: Seq<char>,
)
    requires
        pattern.len() > 0,
        forall|i: int| !#[trigger] occurs_at(s, pattern, i),
    ensures
        replaced(s, pattern, with) == s,
    decreases s.len(),
{
    if s.len() >= pattern.len() {
        assert(!occurs_at(s, pattern, 0));
        assert(s.take(pattern.len() as int) == s.subrange(0, pattern.len() as int));
        let rest = s.drop_first();
        assert forall|i: int| !#[trigger] occurs_at(rest, pattern, i) by {
            if occurs_at(rest, pattern, i) {
                assert(rest.subrange(i, i + pattern.len()) == s.subrange(
                    i + 1,
                    i + 1 + pattern.len(),
                ));
                assert(occurs_at(s, pattern, i + 1));
            }
        }
        nothing_is_replaced_where_nothing_stands(rest, pattern, with);
        assert(seq![s[0]] + rest == s);
    }
}

/// Replacing a pattern puts the other text in its first place, keeps what stands
/// before it, and goes on behind it.
pub proof fn the_first_place_is_replaced(
    s: Seq<char>,
    pattern: Seq<char>,
    with: Seq<char>,
    at: int,
)
    requires
        pattern.len() > 0,
        occurs_at(s, pattern, at),
        forall|i: int| 0 <= i < at ==> !#[trigger] occurs_at(s, pattern, i),
    ensures
        replaced(s, pattern, with) == s.take(at) + with + replaced(
            s.skip(at + pattern.len()),
            pattern,
            with,
        ),
    decreases s.len(),
{
    let n = pattern.len() as int;
    assert(s.take(n) == s.subrange(0, n));
    if at == 0 {
        assert(s.take(n) == pattern);
        assert(s.take(0) + with == with);
    } else {
        assert(!occurs_at(s, pattern, 0));
        let rest = s.drop_first();
        assert(rest.subrange(at - 1, at - 1 + n) == s.subrange(at, at + n));
        assert forall|i: int| 0 <= i < at - 1 implies !#[trigger] occurs_at(rest, pattern, i) by {
            if occurs_at(rest, pattern, i) {
                assert(rest.subrange(i, i + n) == s.subrange(i + 1, i + 1 + n));
                assert(occurs_at(s, pattern, i + 1));
            }
        }
        the_first_place_is_replaced(rest, pattern, with, at - 1);
        assert(rest.skip(at - 1 + n) == s.skip(at + n));
        let tail = replaced(s.skip(at + n), pattern, with);
        assert(seq![s[0]] + (rest.take(at - 1) + with + tail) == s.take(at) + with + tail);
    }
}

proof fn lemma_digits_behind_a_zero(s: Seq<char>)
    ensures
        digits_value(seq!['0'] + s) == digits_value(s),
    decreases s.len(),
{
    let long = seq!['0'] + s;
    if s.len() == 0 {
        reveal_with_fuel(digits_value, 2);
        assert(long.drop_last() == Seq::<char>::empty());
    } else {
        assert(long.drop_last() == seq!['0'] + s.drop_last());
        lemma_digits_behind_a_zero(s.drop_last());
    }
}

/// Zeros in front of a number do not change it, and neither does a single plus
/// sign; a text with anything but digits in it is no number, nor is an empty one.
pub proof fn numbers_are_digits(s: Seq<char>, n: u32, at: int)
    ensures
        parsed_u32(s) == Some(n) && s[0] != '+' ==> parsed_u32(seq!['0'] + s) == Some(n)
            && parsed_u32(seq!['+'] + s) == Some(n),
        0 <= at < s.len() && !(48 <= s[at] as int <= 57) && (at > 0 || s[0] != '+')
            ==> parsed_u32(s) is None,
        parsed_u32(Seq::<char>::empty()) is None,
{
    if parsed_u32(s) == Some(n) && s[0] != '+' {
        lemma_digits_behind_a_zero(s);
        let zero = seq!['0'] + s;
        assert forall|i: int| 0 <= i < zero.len() implies is_digit(#[trigger] zero[i]) by {
            if i > 0 {
                assert(zero[i] == s[i - 1]);
            }
        }
        assert((seq!['+'] + s).drop_first() == s);
    }
    if 0 <= at < s.len() && !(48 <= s[at] as int <= 57) && (at > 0 || s[0] != '+') {
        let digits = unsigned_part(s);
        let k = if s[0] == '+' {
            at - 1
        } else {
            at
        };
        assert(digits[k] == s[at]);
        assert(!is_digit(digits[k]));
    }
}

/// Two texts are the same but for case just where they are as long as each other
/// and no character differs from the one at its place but by the case of a letter
/// of ASCII.
pub proof fn texts_are_compared_letter_by_letter(a: Seq<char>, b: Seq<char>, at: int)
    ensures
        a.len() != b.len() ==> !same_ignoring_case(a, b),
        a == b ==> same_ignoring_case(a, b),
        same_ignoring_case(a, b) && 0 <= at < a.len() ==> a[at] == b[at] || (is_upper(a[at])
            && b[at] as int == a[at] as int + 32) || (is_upper(b[at]) && a[at] as int == b[at]
            as int + 32),
        a.len() == b.len() && (forall|i: int|
            0 <= i < a.len() ==> #[trigger] a[i] == b[i] || (is_upper(a[i]) && b[i] as int == a[i]
                as int + 32) || (is_upper(b[i]) && a[i] as int == b[i] as int + 32))
            ==> same_ignoring_case(a, b),
{
}

/// Every number has its digits and no others: what is not beyond a `u32` is read
/// back, and what is beyond is no number at all.
pub proof fn numbers_beyond_the_range_are_none(n: nat)
    ensures
        n <= u32::MAX ==> parsed_u32(decimal(n)) == Some(n as u32),
        n > u32::MAX ==> parsed_u32(decimal(n)) is None,
        decimal(n).last() as int == 48 + n % 10,
        n >= 10 ==> decimal(n).drop_last() == decimal(n / 10),
{
    lemma_decimal(n);
    assert(is_digit(decimal(n)[0]));
    if n >= 10 {
        assert(decimal(n).drop_last() == decimal(n / 10));
    }
}

} // verus!
