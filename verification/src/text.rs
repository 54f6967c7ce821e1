//! Display text (decimal and hexadecimal numbers, joined lists) and the
//! character-level scanning that reads numbers and words back.

use vstd::prelude::*;
use vstd::string::StringExecFns;

verus! {

broadcast use vstd::string::axiom_spec_iter;

/// The character of a decimal digit.
pub open spec fn digit_char(d: int) -> char {
    if d == 0 {
        '0'
    } else if d == 1 {
        '1'
    } else if d == 2 {
        '2'
    } else if d == 3 {
        '3'
    } else if d == 4 {
        '4'
    } else if d == 5 {
        '5'
    } else if d == 6 {
        '6'
    } else if d == 7 {
        '7'
    } else if d == 8 {
        '8'
    } else {
        '9'
    }
}

/// The character of a hexadecimal digit (10–15 as `a`–`f`, or `A`–`F` when
/// `upper`).
pub open spec fn hex_char(d: int, upper: bool) -> char {
    if d < 10 {
        digit_char(d)
    } else if d == 10 {
        if upper { 'A' } else { 'a' }
    } else if d == 11 {
        if upper { 'B' } else { 'b' }
    } else if d == 12 {
        if upper { 'C' } else { 'c' }
    } else if d == 13 {
        if upper { 'D' } else { 'd' }
    } else if d == 14 {
        if upper { 'E' } else { 'e' }
    } else {
        if upper { 'F' } else { 'f' }
    }
}

/// The decimal representation of `n`, without leading zeros.
pub open spec fn decimal(n: nat) -> Seq<char>
    decreases n,
{
    if n < 10 {
        seq![digit_char(n as int)]
    } else {
        decimal(n / 10).push(digit_char((n % 10) as int))
    }
}

/// The last `width` hexadecimal digits of `n`, zero-padded.
pub open spec fn hex_fixed(n: nat, width: nat, upper: bool) -> Seq<char>
    decreases width,
{
    if width == 0 {
        seq![]
    } else {
        hex_fixed(n / 16, (width - 1) as nat, upper).push(hex_char((n % 16) as int, upper))
    }
}

/// The parts joined with `sep` between consecutive parts.
pub open spec fn join(parts: Seq<Seq<char>>, sep: Seq<char>) -> Seq<char>
    decreases parts.len(),
{
    if parts.len() == 0 {
        seq![]
    } else if parts.len() == 1 {
        parts[0]
    } else {
        join(parts.drop_last(), sep) + sep + parts.last()
    }
}

/// The one-character string of a hexadecimal digit.
fn hex_digit_str(d: u64, upper: bool) -> (s: &'static str)
    requires
        d < 16,
    ensures
        s@ == seq![hex_char(d as int, upper)],
{
    if d == 0 { proof { reveal_strlit("0"); } "0" }
    else if d == 1 { proof { reveal_strlit("1"); } "1" }
    else if d == 2 { proof { reveal_strlit("2"); } "2" }
    else if d == 3 { proof { reveal_strlit("3"); } "3" }
    else if d == 4 { proof { reveal_strlit("4"); } "4" }
    else if d == 5 { proof { reveal_strlit("5"); } "5" }
    else if d == 6 { proof { reveal_strlit("6"); } "6" }
    else if d == 7 { proof { reveal_strlit("7"); } "7" }
    else if d == 8 { proof { reveal_strlit("8"); } "8" }
    else if d == 9 { proof { reveal_strlit("9"); } "9" }
    else if d == 10 {
        if upper { proof { reveal_strlit("A"); } "A" } else { proof { reveal_strlit("a"); } "a" }
    } else if d == 11 {
        if upper { proof { reveal_strlit("B"); } "B" } else { proof { reveal_strlit("b"); } "b" }
    } else if d == 12 {
        if upper { proof { reveal_strlit("C"); } "C" } else { proof { reveal_strlit("c"); } "c" }
    } else if d == 13 {
        if upper { proof { reveal_strlit("D"); } "D" } else { proof { reveal_strlit("d"); } "d" }
    } else if d == 14 {
        if upper { proof { reveal_strlit("E"); } "E" } else { proof { reveal_strlit("e"); } "e" }
    } else {
        if upper { proof { reveal_strlit("F"); } "F" } else { proof { reveal_strlit("f"); } "f" }
    }
}

/// Appends the decimal representation of `n` to `s`.
pub fn append_decimal(s: &mut String, n: u64)
    ensures
        final(s)@ == old(s)@ + decimal(n as nat),
    decreases n,
{
    if n >= 10 {
        append_decimal(s, n / 10);
    }
    s.append(hex_digit_str(n % 10, false));
    proof {
        if n >= 10 {
            assert(s@ =~= old(s)@ + decimal(n as nat));
        } else {
            assert(s@ =~= old(s)@ + decimal(n as nat));
        }
    }
}

/// Appends the last `width` hexadecimal digits of `n` to `s`, zero-padded.
pub fn append_hex(s: &mut String, n: u64, width: u32, upper: bool)
    ensures
        final(s)@ == old(s)@ + hex_fixed(n as nat, width as nat, upper),
    decreases width,
{
    if width > 0 {
        append_hex(s, n / 16, width - 1, upper);
        s.append(hex_digit_str(n % 16, upper));
        assert(s@ =~= old(s)@ + hex_fixed(n as nat, width as nat, upper));
    } else {
        assert(s@ =~= old(s)@ + hex_fixed(n as nat, width as nat, upper));
    }
}

/// The decimal representation of `n` as a new string.
pub fn decimal_string(n: u64) -> (s: String)
    ensures
        s@ == decimal(n as nat),
{
    let mut s = String::new();
    append_decimal(&mut s, n);
    assert(s@ =~= decimal(n as nat));
    s
}

/// Joins `parts` with `sep` between consecutive parts.
pub fn join_strings(parts: &Vec<String>, sep: &str) -> (s: String)
    ensures
        s@ == join(parts@.map_values(|p: String| p@), sep@),
{
    let ghost views = parts@.map_values(|p: String| p@);
    let mut s = String::new();
    let mut i: usize = 0;
    while i < parts.len()
        invariant
            i <= parts@.len(),
            views == parts@.map_values(|p: String| p@),
            s@ == join(views.take(i as int), sep@),
        decreases parts@.len() - i,
    {
        if i > 0 {
            s.append(sep);
        }
        s.append(parts[i].as_str());
        proof {
            assert(views.take(i + 1).drop_last() =~= views.take(i as int));
            if i == 0 {
                assert(views.take(1) =~= seq![views[0]]);
            }
        }
        i = i + 1;
    }
    proof {
        assert(views.take(i as int) =~= views);
    }
    s
}

// ── Scanning ─────────────────────────────────────────────────────────────────

/// Whether `c` has the Unicode `White_Space` property (what
/// `char::is_whitespace` tests).
pub open spec fn is_unicode_whitespace(c: char) -> bool {
    let n = c as u32;
    (0x09 <= n <= 0x0D) || n == 0x20 || n == 0x85 || n == 0xA0 || n == 0x1680 || (0x2000 <= n
        <= 0x200A) || n == 0x2028 || n == 0x2029 || n == 0x202F || n == 0x205F || n == 0x3000
}

/// Whether `p` occurs in `s` as a contiguous run.
pub open spec fn contains(s: Seq<char>, p: Seq<char>) -> bool {
    exists|i: int| 0 <= i && i + p.len() <= s.len() && #[trigger] s.subrange(i, i + p.len()) == p
}

/// The value of a string of decimal digits, `None` when a character is not
/// an ASCII digit (`'0'` is code 48, `'9'` code 57).
pub open spec fn decimal_value(s: Seq<char>) -> Option<nat>
    decreases s.len(),
{
    if s.len() == 0 {
        Some(0)
    } else {
        let c = s.last() as u32;
        match decimal_value(s.drop_last()) {
            Some(v) => if 48 <= c <= 57 {
                Some(v * 10 + (c - 48) as nat)
            } else {
                None
            },
            None => None,
        }
    }
}

/// What `str::parse` reads for an unsigned integer type whose largest value
/// is `max`: an optional `+` followed by at least one decimal digit and
/// nothing else, with a value of at most `max`.
pub open spec fn spec_parse_decimal(s: Seq<char>, max: nat) -> Option<nat> {
    let digits = if s.len() > 0 && s[0] == '+' {
        s.drop_first()
    } else {
        s
    };
    if digits.len() == 0 {
        None
    } else {
        match decimal_value(digits) {
            Some(n) => if n <= max {
                Some(n)
            } else {
                None
            },
            None => None,
        }
    }
}

/// The characters of `s`, in order.
pub fn chars_of(s: &str) -> (v: Vec<char>)
    ensures
        v@ == s@,
{
    let mut v: Vec<char> = Vec::new();
    for c in it: s.chars()
        invariant
            v@ == it.seq().take(it.index() as int),
            it.seq() == s@,
    {
        v.push(c);
    }
    v
}

/// `char::is_whitespace`.
pub fn is_whitespace(c: char) -> (r: bool)
    ensures
        r == is_unicode_whitespace(c),
{
    let n = c as u32;
    (0x09 <= n && n <= 0x0D) || n == 0x20 || n == 0x85 || n == 0xA0 || n == 0x1680 || (0x2000
        <= n && n <= 0x200A) || n == 0x2028 || n == 0x2029 || n == 0x202F || n == 0x205F || n
        == 0x3000
}

/// Whether `p` occurs in `s`.
pub fn contains_chars(s: &[char], p: &[char]) -> (r: bool)
    ensures
        r == contains(s@, p@),
{
    if p.len() > s.len() {
        return false;
    }
    if p.len() == 0 {
        assert(s@.subrange(0int, 0int + p@.len()) =~= p@);
        return true;
    }
    let last = s.len() - p.len();
    let mut i: usize = 0;
    while i <= last
        invariant
            last == s@.len() - p@.len(),
            p@.len() <= s@.len(),
            s@.len() <= usize::MAX,
            p@.len() > 0,
            forall|k: int| 0 <= k < i ==> #[trigger] s@.subrange(k, k + p@.len()) != p@,
        decreases last + 1 - i,
    {
        let mut j: usize = 0;
        let mut matching = true;
        while matching && j < p.len()
            invariant
                i <= last,
                last == s@.len() - p@.len(),
                i + p@.len() <= s@.len(),
                s@.len() <= usize::MAX,
                j <= p@.len(),
                forall|k: int| 0 <= k < j ==> s@[i + k] == p@[k],
                !matching ==> j < p@.len() && s@[i + j] != p@[j as int],
            decreases p@.len() - j + (if matching { 1int } else { 0int }),
        {
            if s[i + j] == p[j] {
                j = j + 1;
            } else {
                matching = false;
            }
        }
        if j == p.len() {
            assert(s@.subrange(i as int, i + p@.len()) =~= p@);
            return true;
        }
        assert(s@.subrange(i as int, i + p@.len())[j as int] != p@[j as int]);
        i = i + 1;
    }
    proof {
        assert forall|k: int| 0 <= k && k + p@.len() <= s@.len() implies #[trigger] s@.subrange(
            k,
            k + p@.len(),
        ) != p@ by {
            assert(k < i);
        }
    }
    false
}

/// Appending characters to a string of digits keeps it unreadable when it
/// was, and otherwise never lowers its value.
proof fn lemma_decimal_extend(s: Seq<char>, t: Seq<char>)
    ensures
        match decimal_value(s) {
            None => decimal_value(s + t) is None,
            Some(n) => match decimal_value(s + t) {
                None => true,
                Some(m) => m >= n,
            },
        },
    decreases t.len(),
{
    if t.len() == 0 {
        assert(s + t =~= s);
    } else {
        assert((s + t).drop_last() =~= s + t.drop_last());
        lemma_decimal_extend(s, t.drop_last());
    }
}

/// Reads the number of at most `max` that `v[a..b]` spells (see
/// [`spec_parse_decimal`]).
pub fn parse_decimal_chars(v: &Vec<char>, a: usize, b: usize, max: u32) -> (r: Option<u32>)
    requires
        a <= b <= v@.len(),
    ensures
        r == (match spec_parse_decimal(v@.subrange(a as int, b as int), max as nat) {
            Some(n) => Some(n as u32),
            None => None,
        }),
{
    let ghost s = v@.subrange(a as int, b as int);
    let mut start = a;
    if start < b && v[start] == '+' {
        start = start + 1;
        assert(s.drop_first() =~= v@.subrange(start as int, b as int));
    } else {
        assert(s =~= v@.subrange(start as int, b as int));
    }
    let ghost digits = v@.subrange(start as int, b as int);
    if start == b {
        assert(digits.len() == 0);
        return None;
    }
    let mut acc: u64 = 0;
    let mut k = start;
    assert(v@.subrange(start as int, k as int) =~= Seq::<char>::empty());
    while k < b
        invariant
            start <= k <= b,
            b <= v@.len(),
            start < b,
            digits == v@.subrange(start as int, b as int),
            spec_parse_decimal(v@.subrange(a as int, b as int), max as nat) == match decimal_value(
                digits,
            ) {
                Some(n) => if n <= max {
                    Some(n)
                } else {
                    None
                },
                None => None,
            },
            acc <= max,
            decimal_value(v@.subrange(start as int, k as int)) == Some(acc as nat),
        decreases b - k,
    {
        let c = v[k];
        let code = c as u32;
        let ghost prefix = v@.subrange(start as int, k + 1);
        assert(prefix.drop_last() =~= v@.subrange(start as int, k as int));
        assert(prefix.last() == c);
        assert(prefix + v@.subrange(k + 1, b as int) =~= digits);
        if code < 48 || code > 57 {
            assert(decimal_value(prefix) is None);
            proof {
                lemma_decimal_extend(prefix, v@.subrange(k + 1, b as int));
            }
            return None;
        }
        assert(decimal_value(prefix) == Some((acc * 10 + (code - 48)) as nat));
        acc = acc * 10 + (code - 48) as u64;
        if acc > max as u64 {
            proof {
                lemma_decimal_extend(prefix, v@.subrange(k + 1, b as int));
            }
            return None;
        }
        k = k + 1;
    }
    Some(acc as u32)
}

/// `s` without its leading whitespace.
pub open spec fn trim_start_ws(s: Seq<char>) -> Seq<char>
    decreases s.len(),
{
    if s.len() > 0 && is_unicode_whitespace(s[0]) {
        trim_start_ws(s.drop_first())
    } else {
        s
    }
}

/// `s` without its trailing whitespace.
pub open spec fn trim_end_ws(s: Seq<char>) -> Seq<char>
    decreases s.len(),
{
    if s.len() > 0 && is_unicode_whitespace(s.last()) {
        trim_end_ws(s.drop_last())
    } else {
        s
    }
}

/// `s` without leading and trailing whitespace (`str::trim`).
pub open spec fn spec_trim(s: Seq<char>) -> Seq<char> {
    trim_end_ws(trim_start_ws(s))
}

/// The bounds of `v` with leading and trailing whitespace left out.
pub fn trim_bounds(v: &Vec<char>) -> (r: (usize, usize))
    ensures
        r.0 <= r.1 <= v@.len(),
        v@.subrange(r.0 as int, r.1 as int) == spec_trim(v@),
{
    let n = v.len();
    let mut a: usize = 0;
    assert(v@.subrange(0, n as int) =~= v@);
    while a < n && is_whitespace(v[a])
        invariant
            a <= n,
            n == v@.len(),
            trim_start_ws(v@.subrange(a as int, n as int)) == trim_start_ws(v@),
        decreases n - a,
    {
        assert(v@.subrange(a as int, n as int).drop_first() =~= v@.subrange(a + 1, n as int));
        a = a + 1;
    }
    let ghost start = v@.subrange(a as int, n as int);
    assert(trim_start_ws(start) == start);
    let mut b: usize = n;
    while b > a && is_whitespace(v[b - 1])
        invariant
            a <= b <= n,
            n == v@.len(),
            start == v@.subrange(a as int, n as int),
            trim_end_ws(v@.subrange(a as int, b as int)) == trim_end_ws(start),
        decreases b,
    {
        assert(v@.subrange(a as int, b as int).drop_last() =~= v@.subrange(a as int, b - 1));
        b = b - 1;
    }
    assert(trim_end_ws(v@.subrange(a as int, b as int)) == v@.subrange(a as int, b as int));
    (a, b)
}

} // verus!
