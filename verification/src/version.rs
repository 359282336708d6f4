//! Version numbers: how they are read, ordered and shown.
use vstd::prelude::*;

use crate::text::{
    decimal, decimal_reads_back, field_len, fields, is_digit, lemma_decimal, lemma_field_len,
    lemma_field_len_bounds, lemma_fields_nonempty, parse_u32, parsed_u32, split, texts,
};

verus! {

/// The component of a version at place `i`: zero where it is absent or is not
/// a number.
pub open spec fn component(parts: Seq<Seq<char>>, i: int) -> u32 {
    if i < parts.len() {
        match parsed_u32(parts[i]) {
            Some(n) => n,
            None => 0,
        }
    } else {
        0
    }
}

/// What stands before the first hyphen of a version.
pub open spec fn version_core(version: Seq<char>) -> Seq<char> {
    version.take(field_len(version, '-') as int)
}

/// The major, minor and patch number of a version.
pub open spec fn version_of(version: Seq<char>) -> (u32, u32, u32) {
    let parts = fields(version_core(version), '.');
    (component(parts, 0), component(parts, 1), component(parts, 2))
}

/// The order of versions: by major, then minor, then patch number.
pub open spec fn newer(a: (u32, u32, u32), b: (u32, u32, u32)) -> bool {
    ||| a.0 > b.0
    ||| a.0 == b.0 && a.1 > b.1
    ||| a.0 == b.0 && a.1 == b.1 && a.2 > b.2
}

/// A version as it is shown: without a final ".0".
pub open spec fn shown_version(version: Seq<char>) -> Seq<char> {
    let n = version.len();
    if n >= 2 && version[n - 2] == '.' && version[n - 1] == '0' {
        version.take(n - 2)
    } else {
        version
    }
}

fn component_at(parts: &Vec<&str>, i: usize) -> (n: u32)
    ensures
        n == component(texts(parts@), i as int),
{
    if i < parts.len() {
        assert(texts(parts@)[i as int] == parts@[i as int]@);
        match parse_u32(parts[i]) {
            Some(n) => n,
            None => 0,
        }
    } else {
        0
    }
}

/// Reads a version: up to three numbers with points between them; what follows
/// a hyphen does not count.
pub fn parse_version(version: &str) -> (numbers: (u32, u32, u32))
    ensures
        numbers == version_of(version@),
{
    let halves: Vec<&str> = split(version, '-');
    proof {
        lemma_fields_nonempty(version@, '-');
        lemma_field_len_bounds(version@, '-');
        assert(texts(halves@)[0] == halves@[0]@);
        if field_len(version@, '-') >= version@.len() {
            assert(version_core(version@) == version@);
        }
    }
    let core: &str = halves[0];
    let parts: Vec<&str> = split(core, '.');
    (component_at(&parts, 0), component_at(&parts, 1), component_at(&parts, 2))
}

/// Tells whether `candidate` is a later version than `current`.
pub fn is_version_newer(candidate: &str, current: &str) -> (is_newer: bool)
    ensures
        is_newer == newer(version_of(candidate@), version_of(current@)),
{
    let a: (u32, u32, u32) = parse_version(candidate);
    let b: (u32, u32, u32) = parse_version(current);
    a.0 > b.0 || (a.0 == b.0 && (a.1 > b.1 || (a.1 == b.1 && a.2 > b.2)))
}

/// The version as the title and the menu show it.
pub fn display_version(version: &str) -> (shown: String)
    ensures
        shown@ == shown_version(version@),
{
    let n: usize = version.unicode_len();
    if n >= 2 && version.get_char(n - 2) == '.' && version.get_char(n - 1) == '0' {
        let head: &str = version.substring_char(0, n - 2);
        assert(head@ == version@.take(n - 2));
        head.to_string()
    } else {
        version.to_string()
    }
}

proof fn lemma_fields_of_longer(s: Seq<char>)
    ensures
        fields(s + seq!['.', '0'], '.') == fields(s, '.').push(seq!['0']),
    decreases s.len(),
{
    let long = s + seq!['.', '0'];
    let n = field_len(s, '.');
    lemma_field_len_bounds(s, '.');
    lemma_field_len_bounds(long, '.');
    let m = field_len(long, '.');
    assert(long[s.len() as int] == '.');
    assert(m == n) by {
        if m < n {
            assert(long[m as int] == s[m as int]);
        }
        if n < m {
            if n < s.len() {
                assert(long[n as int] == s[n as int]);
            } else {
                assert(long[n as int] == '.');
            }
        }
    }
    assert(long.take(n as int) == s.take(n as int));
    if n < s.len() {
        let rest = s.skip(n as int + 1);
        assert(long.skip(n as int + 1) == rest + seq!['.', '0']);
        lemma_fields_of_longer(rest);
        assert(seq![s.take(n as int)] + fields(rest, '.').push(seq!['0']) == (seq![s.take(n as int)]
            + fields(rest, '.')).push(seq!['0']));
    } else {
        let rest = long.skip(n as int + 1);
        assert(rest == seq!['0']);
        lemma_field_len_bounds(rest, '.');
        assert(field_len(rest, '.') == 1) by {
            if field_len(rest, '.') == 0 {
                assert(rest[0] == '.');
            }
        }
        assert(fields(rest, '.') == seq![rest]);
        assert(s.take(n as int) == s);
        assert(fields(s, '.') == seq![s]);
        assert(seq![s] + seq![rest] == seq![s].push(rest));
    }
}

/// The version that is shown is the version that is meant.
pub proof fn shown_version_is_the_version(version: Seq<char>)
    ensures
        version_of(shown_version(version)) == version_of(version),
{
    let shown = shown_version(version);
    if shown != version {
        let n = version.len();
        let hyphen = field_len(version, '-');
        lemma_field_len_bounds(version, '-');
        lemma_field_len_bounds(shown, '-');
        let k = field_len(shown, '-');
        if hyphen < n {
            assert(version[hyphen as int] == '-');
            assert(hyphen < n - 2);
            assert(k == hyphen) by {
                if k < hyphen {
                    assert(shown[k as int] == version[k as int]);
                }
                if hyphen < k {
                    assert(shown[hyphen as int] == version[hyphen as int]);
                }
            }
            assert(version_core(shown) == version_core(version));
        } else {
            assert(k == shown.len()) by {
                if k < shown.len() {
                    assert(shown[k as int] == version[k as int]);
                }
            }
            assert(version_core(shown) == shown);
            assert(version_core(version) == version);
            assert(version == shown + seq!['.', '0']);
            lemma_fields_of_longer(shown);
            let short = fields(shown, '.');
            let long = fields(version, '.');
            assert(long == short.push(seq!['0']));
            assert(parsed_u32(seq!['0']) == Some(0u32)) by {
                reveal_with_fuel(crate::text::digits_value, 2);
                assert(seq!['0'].drop_last() == Seq::<char>::empty());
                assert(crate::text::is_digit(seq!['0'][0]));
            }
            assert forall|i: int| 0 <= i implies component(long, i) == component(short, i) by {
                if i < short.len() {
                    assert(long[i] == short[i]);
                }
            }
        }
    }
}

/// No version is newer than itself, and of two versions at most one is newer.
pub proof fn newer_is_asymmetric(a: Seq<char>, b: Seq<char>)
    ensures
        !newer(version_of(a), version_of(a)),
        newer(version_of(a), version_of(b)) ==> !newer(version_of(b), version_of(a)),
{
}

/// A version newer than a newer one is newer.
pub proof fn newer_is_transitive(a: Seq<char>, b: Seq<char>, c: Seq<char>)
    requires
        newer(version_of(a), version_of(b)),
        newer(version_of(b), version_of(c)),
    ensures
        newer(version_of(a), version_of(c)),
{
}

/// Of two versions, one is newer unless their three numbers agree.
pub proof fn newer_is_total(a: Seq<char>, b: Seq<char>)
    ensures
        newer(version_of(a), version_of(b)) || newer(version_of(b), version_of(a)) || version_of(a)
            == version_of(b),
{
}

/// What follows a hyphen, such as the mark of a pre-release, does not change
/// which version a text names.
pub proof fn suffix_does_not_count(core: Seq<char>, suffix: Seq<char>)
    requires
        forall|i: int| 0 <= i < core.len() ==> core[i] != '-',
    ensures
        version_of(core.push('-') + suffix) == version_of(core),
{
    let long = core.push('-') + suffix;
    lemma_field_len_bounds(core, '-');
    lemma_field_len_bounds(long, '-');
    assert(field_len(core, '-') == core.len()) by {
        if field_len(core, '-') < core.len() {
            assert(core[field_len(core, '-') as int] == '-');
        }
    }
    assert(long[core.len() as int] == '-');
    assert(field_len(long, '-') == core.len()) by {
        if field_len(long, '-') < core.len() {
            assert(long[field_len(long, '-') as int] == core[field_len(long, '-') as int]);
        }
    }
    assert(version_core(long) == core);
    assert(version_core(core) == core);
}

/// Three numbers with points between them.
pub open spec fn dotted(a: u32, b: u32, c: u32) -> Seq<char> {
    decimal(a as nat) + seq!['.'] + decimal(b as nat) + seq!['.'] + decimal(c as nat)
}

/// A number is the first field before a point, and holds neither point nor
/// hyphen.
proof fn lemma_number_is_a_field(n: u32, rest: Seq<char>)
    ensures
        fields(decimal(n as nat) + seq!['.'] + rest, '.') == seq![decimal(n as nat)] + fields(
            rest,
            '.',
        ),
        fields(decimal(n as nat), '.') == seq![decimal(n as nat)],
        forall|i: int|
            0 <= i < decimal(n as nat).len() ==> #[trigger] decimal(n as nat)[i] != '-',
{
    let d = decimal(n as nat);
    lemma_decimal(n as nat);
    assert forall|i: int| 0 <= i < d.len() implies #[trigger] d[i] != '-' && d[i] != '.' by {
        assert(is_digit(d[i]));
    }
    let long = d + seq!['.'] + rest;
    assert forall|j: int| 0 <= j < d.len() implies long[j] != '.' by {
        assert(long[j] == d[j]);
    }
    lemma_field_len(long, '.', d.len());
    lemma_field_len(d, '.', d.len());
    assert(long.take(d.len() as int) == d);
    assert(long.skip(d.len() as int + 1) == rest);
}

proof fn lemma_dotted_fields(a: u32, b: u32, c: u32)
    ensures
        fields(dotted(a, b, c), '.') == seq![
            decimal(a as nat),
            decimal(b as nat),
            decimal(c as nat),
        ],
        forall|i: int| 0 <= i < dotted(a, b, c).len() ==> #[trigger] dotted(a, b, c)[i] != '-',
{
    let (x, y, z) = (decimal(a as nat), decimal(b as nat), decimal(c as nat));
    let tail = y + seq!['.'] + z;
    lemma_number_is_a_field(a, tail);
    lemma_number_is_a_field(b, z);
    lemma_number_is_a_field(c, seq![]);
    assert(dotted(a, b, c) == x + seq!['.'] + tail);
    assert forall|i: int| 0 <= i < dotted(a, b, c).len() implies #[trigger] dotted(a, b, c)[i]
        != '-' by {
        let whole = dotted(a, b, c);
        if i < x.len() {
            assert(whole[i] == x[i]);
        } else if i == x.len() {
            assert(whole[i] == '.');
        } else if i < x.len() + 1 + y.len() {
            assert(whole[i] == y[i - x.len() - 1]);
        } else if i == x.len() + 1 + y.len() {
            assert(whole[i] == '.');
        } else {
            assert(whole[i] == z[i - x.len() - y.len() - 2]);
        }
    }
}

/// Three numbers with points between them are read as those three, whatever
/// stands behind a further point.
pub proof fn three_numbers_are_read(a: u32, b: u32, c: u32, more: Seq<char>)
    ensures
        version_of(dotted(a, b, c)) == (a, b, c),
        version_of(dotted(a, b, c) + seq!['.'] + more) == (a, b, c),
{
    let (x, y, z) = (decimal(a as nat), decimal(b as nat), decimal(c as nat));
    let whole = dotted(a, b, c);
    let long = whole + seq!['.'] + more;
    decimal_reads_back(a);
    decimal_reads_back(b);
    decimal_reads_back(c);
    lemma_dotted_fields(a, b, c);
    lemma_field_len(whole, '-', whole.len());
    assert(version_core(whole) == whole);
    let n = field_len(more, '-');
    lemma_field_len_bounds(more, '-');
    let cut = more.take(n as int);
    assert forall|j: int| 0 <= j < whole.len() + 1 + n implies long[j] != '-' by {
        if j < whole.len() {
            assert(long[j] == whole[j]);
        } else if j == whole.len() {
            assert(long[j] == '.');
        } else {
            assert(long[j] == more[j - whole.len() - 1]);
        }
    }
    if n < more.len() {
        assert(long[whole.len() as int + 1 + n] == more[n as int]);
    }
    lemma_field_len(long, '-', whole.len() + 1 + n);
    let tail = y + seq!['.'] + (z + seq!['.'] + cut);
    assert(version_core(long) == x + seq!['.'] + tail);
    lemma_number_is_a_field(a, tail);
    lemma_number_is_a_field(b, z + seq!['.'] + cut);
    lemma_number_is_a_field(c, cut);
    let parts = fields(version_core(long), '.');
    assert(parts[0] == x && parts[1] == y && parts[2] == z);
}

/// A version is newer by its first number, then by its second, then by its third:
/// an earlier number decides whatever the later ones are.
pub proof fn earlier_numbers_decide(a: (u32, u32, u32), b: (u32, u32, u32))
    ensures
        a.0 > b.0 ==> newer(a, b) && !newer(b, a),
        a.0 == b.0 && a.1 > b.1 ==> newer(a, b) && !newer(b, a),
        a.0 == b.0 && a.1 == b.1 && a.2 > b.2 ==> newer(a, b) && !newer(b, a),
        a == b ==> !newer(a, b),
{
}

/// Numbers that are not there are zero.
pub proof fn missing_numbers_are_zero(a: u32, b: u32)
    ensures
        version_of(decimal(a as nat)) == (a, 0u32, 0u32),
        version_of(decimal(a as nat) + seq!['.'] + decimal(b as nat)) == (a, b, 0u32),
{
    let (x, y) = (decimal(a as nat), decimal(b as nat));
    let two = x + seq!['.'] + y;
    decimal_reads_back(a);
    decimal_reads_back(b);
    lemma_number_is_a_field(a, y);
    lemma_number_is_a_field(b, seq![]);
    lemma_field_len(x, '-', x.len());
    assert(version_core(x) == x);
    assert forall|j: int| 0 <= j < two.len() implies two[j] != '-' by {
        if j < x.len() {
            assert(two[j] == x[j]);
        } else if j == x.len() {
            assert(two[j] == '.');
        } else {
            assert(two[j] == y[j - x.len() - 1]);
        }
    }
    lemma_field_len(two, '-', two.len());
    assert(version_core(two) == two);
}

/// What is shown of a version is all of it, but for a final ".0".
pub proof fn only_a_final_zero_is_not_shown(version: Seq<char>)
    ensures
        version == shown_version(version) || version == shown_version(version) + ".0"@,
        ".0"@.is_suffix_of(version) == (version == shown_version(version) + ".0"@),
{
    reveal_strlit(".0");
    let n = version.len() as int;
    let shown = shown_version(version);
    if n >= 2 && version[n - 2] == '.' && version[n - 1] == '0' {
        assert(version == shown + ".0"@);
    } else {
        assert(version != shown + ".0"@) by {
            if version == shown + ".0"@ {
                assert(version.len() == shown.len() + 2);
            }
        }
        if ".0"@.is_suffix_of(version) {
            assert(version[n - 2] == ".0"@[0]);
            assert(version[n - 1] == ".0"@[1]);
        }
    }
}

/// What stands for a number but is none counts as zero.
pub proof fn what_is_no_number_is_zero(a: u32, other: Seq<char>)
    requires
        parsed_u32(other) is None,
        forall|i: int| 0 <= i < other.len() ==> other[i] != '.' && other[i] != '-',
    ensures
        version_of(decimal(a as nat) + seq!['.'] + other) == (a, 0u32, 0u32),
        version_of(other) == (0u32, 0u32, 0u32),
{
    let x = decimal(a as nat);
    let two = x + seq!['.'] + other;
    decimal_reads_back(a);
    lemma_number_is_a_field(a, other);
    lemma_field_len(other, '.', other.len());
    lemma_field_len(other, '-', other.len());
    assert(fields(other, '.') == seq![other]);
    assert(version_core(other) == other);
    assert forall|j: int| 0 <= j < two.len() implies two[j] != '-' by {
        if j < x.len() {
            assert(two[j] == x[j]);
        } else if j == x.len() {
            assert(two[j] == '.');
        } else {
            assert(two[j] == other[j - x.len() - 1]);
        }
    }
    lemma_field_len(two, '-', two.len());
    assert(version_core(two) == two);
}

} // verus!
