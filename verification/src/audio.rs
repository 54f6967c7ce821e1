//! Headset volume through PipeWire's `wpctl`: finding the node of the Razer
//! headset's stereo output sink in the text `wpctl status` prints (the node
//! ID changes across reboots, so it is looked up in lines such as
//! `"│  *   69. Razer Kraken V4 Pro Stereo          [vol: 0.80]"`), and the
//! volume argument of `wpctl set-volume`.

use vstd::prelude::*;
use vstd::string::StringExecFns;

use crate::text::{
    append_decimal, chars_of, contains, contains_chars, decimal, is_unicode_whitespace,
    is_whitespace, parse_decimal_chars, spec_parse_decimal,
};

verus! {


// ── Text model ───────────────────────────────────────────────────────────────


/// Index of the first `'\n'` in `s`, or `s.len()` when there is none.
pub open spec fn newline_pos(s: Seq<char>) -> nat
    decreases s.len(),
{
    if s.len() == 0 || s[0] == '\n' {
        0
    } else {
        1 + newline_pos(s.drop_first())
    }
}

/// `line` without one trailing carriage return.
pub open spec fn strip_cr(line: Seq<char>) -> Seq<char> {
    if line.len() > 0 && line.last() == '\r' {
        line.drop_last()
    } else {
        line
    }
}

/// The lines of `s` as `str::lines` yields them: split at `'\n'`, each
/// line ended by one dropping a trailing `'\r'`; a final line ending adds
/// no empty line.
pub open spec fn spec_lines(s: Seq<char>) -> Seq<Seq<char>>
    decreases s.len(),
{
    if s.len() == 0 {
        seq![]
    } else {
        let i = newline_pos(s);
        if i >= s.len() {
            seq![s]
        } else {
            seq![strip_cr(s.take(i as int))] + spec_lines(s.skip(i + 1 as int))
        }
    }
}

/// Length of the run of non-whitespace characters at the start of `s`.
pub open spec fn word_len(s: Seq<char>) -> nat
    decreases s.len(),
{
    if s.len() == 0 || is_unicode_whitespace(s[0]) {
        0
    } else {
        1 + word_len(s.drop_first())
    }
}

/// The whitespace-separated tokens of `s`, in order (`str::split_whitespace`).
pub open spec fn spec_tokens(s: Seq<char>) -> Seq<Seq<char>>
    decreases s.len(),
{
    if s.len() == 0 {
        seq![]
    } else if is_unicode_whitespace(s[0]) {
        spec_tokens(s.drop_first())
    } else {
        let n = word_len(s);
        if n >= s.len() {
            seq![s]
        } else {
            seq![s.take(n as int)] + spec_tokens(s.skip(n as int))
        }
    }
}


/// `s` with every trailing `'.'` removed.
pub open spec fn trim_dots(s: Seq<char>) -> Seq<char>
    decreases s.len(),
{
    if s.len() > 0 && s.last() == '.' {
        trim_dots(s.drop_last())
    } else {
        s
    }
}



/// What `str::parse::<u32>` reads (see [`spec_parse_decimal`]).
pub open spec fn spec_parse_u32(s: Seq<char>) -> Option<u32> {
    match spec_parse_decimal(s, u32::MAX as nat) {
        Some(n) => Some(n as u32),
        None => None,
    }
}

/// The first token whose text, trailing dots removed, reads as a `u32`.
pub open spec fn first_number(tokens: Seq<Seq<char>>) -> Option<u32>
    decreases tokens.len(),
{
    if tokens.len() == 0 {
        None
    } else {
        match spec_parse_u32(trim_dots(tokens[0])) {
            Some(v) => Some(v),
            None => first_number(tokens.drop_first()),
        }
    }
}

/// The node ID in a sink line: its first token that is a number, possibly
/// followed by dots (`"69."`).
pub open spec fn spec_node_id(line: Seq<char>) -> Option<u32> {
    first_number(spec_tokens(line))
}

/// Whether a lower-cased line describes the Razer stereo output sink: it
/// names `razer` or `kraken`, says `stereo`, and is not a `source`.
pub open spec fn spec_is_stereo_sink(lowered: Seq<char>) -> bool {
    (contains(lowered, "razer"@) || contains(lowered, "kraken"@)) && contains(lowered, "stereo"@)
        && !contains(lowered, "source"@)
}

/// The lower-case form of `s` as `str::to_lowercase` gives it (Unicode
/// `Lowercase` mapping, including its context-dependent rules).
pub uninterp spec fn lowercase(s: Seq<char>) -> Seq<char>;

/// The first line whose lower-case form is the stereo sink line.
pub open spec fn first_sink_line(lines: Seq<Seq<char>>) -> Option<Seq<char>>
    decreases lines.len(),
{
    if lines.len() == 0 {
        None
    } else if spec_is_stereo_sink(lowercase(lines[0])) {
        Some(lines[0])
    } else {
        first_sink_line(lines.drop_first())
    }
}

/// The node ID of the stereo sink in a `wpctl status` listing.
pub open spec fn spec_stereo_sink_node_id(status: Seq<char>) -> Option<u32> {
    match first_sink_line(spec_lines(status)) {
        Some(line) => spec_node_id(line),
        None => None,
    }
}

// ── Outside calls ────────────────────────────────────────────────────────────

/// `str::lines`, collected: the contract states the lines as its
/// documentation describes them (split at `\n` or `\r\n`, terminators
/// dropped, final line ending optional).
#[verifier::external_body]
fn text_lines(s: &str) -> (r: Vec<&str>)
    ensures
        r@.len() == spec_lines(s@).len(),
        forall|i: int| 0 <= i < r@.len() ==> #[trigger] r@[i]@ == spec_lines(s@)[i],
{
    s.lines().collect()
}

/// `str::to_lowercase`: the contract names its result, which depends on
/// `s` alone.
#[verifier::external_body]
fn to_lowercase(s: &str) -> (r: String)
    ensures
        r@ == lowercase(s@),
{
    s.to_lowercase()
}

// ── Verified scanning ────────────────────────────────────────────────────────




/// Whether the lower-cased line `lowered` describes the Razer stereo
/// output sink (see [`spec_is_stereo_sink`]).
pub fn is_stereo_sink_line(lowered: &str) -> (r: bool)
    ensures
        r == spec_is_stereo_sink(lowered@),
{
    let line = chars_of(lowered);
    let razer = chars_of("razer");
    let kraken = chars_of("kraken");
    let stereo = chars_of("stereo");
    let source = chars_of("source");
    (contains_chars(&line, &razer) || contains_chars(&line, &kraken)) && contains_chars(
        &line,
        &stereo,
    ) && !contains_chars(&line, &source)
}

// ── Lemmas on the text model ─────────────────────────────────────────────────

/// A run of `m` non-whitespace characters ended by whitespace or by the end
/// of `s` is the word at the start of `s`.
proof fn lemma_word_len(s: Seq<char>, m: int)
    requires
        0 <= m <= s.len(),
        forall|k: int| 0 <= k < m ==> !is_unicode_whitespace(#[trigger] s[k]),
        m == s.len() || is_unicode_whitespace(s[m]),
    ensures
        word_len(s) == m,
    decreases m,
{
    if m > 0 {
        let t = s.drop_first();
        assert forall|k: int| 0 <= k < m - 1 implies !is_unicode_whitespace(#[trigger] t[k]) by {
            assert(t[k] == s[k + 1]);
        }
        if m < s.len() {
            assert(t[m - 1] == s[m]);
        }
        lemma_word_len(t, m - 1);
    }
}


/// The first number among a token followed by more tokens.
proof fn lemma_first_number_cons(a: Seq<char>, rest: Seq<Seq<char>>)
    ensures
        first_number(seq![a] + rest) == match spec_parse_u32(trim_dots(a)) {
            Some(v) => Some(v),
            None => first_number(rest),
        },
{
    let ts = seq![a] + rest;
    assert(ts[0] == a);
    assert(ts.drop_first() =~= rest);
}


/// The node ID in a `wpctl status` sink line: its first whitespace-separated
/// token that, with trailing dots removed, is a `u32` (`"69."` gives 69).
pub fn node_id_in_line(line: &str) -> (r: Option<u32>)
    ensures
        r == spec_node_id(line@),
{
    let v = chars_of(line);
    let n = v.len();
    let mut i: usize = 0;
    assert(v@.skip(0) =~= v@);
    while i < n
        invariant
            i <= n,
            n == v@.len(),
            v@ == line@,
            first_number(spec_tokens(v@.skip(i as int))) == spec_node_id(line@),
        decreases n - i,
    {
        let ghost rest = v@.skip(i as int);
        if is_whitespace(v[i]) {
            assert(rest.drop_first() =~= v@.skip(i + 1));
            i = i + 1;
        } else {
            let mut j = i;
            while j < n && !is_whitespace(v[j])
                invariant
                    i <= j <= n,
                    n == v@.len(),
                    forall|k: int| i <= k < j ==> !is_unicode_whitespace(#[trigger] v@[k]),
                decreases n - j,
            {
                j = j + 1;
            }
            proof {
                assert forall|k: int| 0 <= k < j - i implies !is_unicode_whitespace(
                    #[trigger] rest[k],
                ) by {
                    assert(rest[k] == v@[i + k]);
                }
                if j < n {
                    assert(rest[j - i] == v@[j as int]);
                }
                lemma_word_len(rest, j - i);
            }
            let mut t = j;
            while t > i && v[t - 1] == '.'
                invariant
                    i <= t <= j,
                    j <= n,
                    n == v@.len(),
                    trim_dots(v@.subrange(i as int, j as int)) == trim_dots(
                        v@.subrange(i as int, t as int),
                    ),
                decreases t,
            {
                assert(v@.subrange(i as int, t as int).drop_last() =~= v@.subrange(
                    i as int,
                    t - 1,
                ));
                t = t - 1;
            }
            assert(trim_dots(v@.subrange(i as int, t as int)) == v@.subrange(i as int, t as int));
            let parsed = parse_decimal_chars(&v, i, t, u32::MAX);
            proof {
                let word = v@.subrange(i as int, j as int);
                if j == n {
                    assert(rest =~= word);
                    assert(spec_tokens(rest) == seq![rest]);
                    assert(seq![rest] =~= seq![rest] + Seq::<Seq<char>>::empty());
                    lemma_first_number_cons(rest, Seq::<Seq<char>>::empty());
                    assert(v@.skip(j as int) =~= Seq::<char>::empty());
                } else {
                    assert(rest.take(j - i) =~= word);
                    assert(rest.skip(j - i) =~= v@.skip(j as int));
                    lemma_first_number_cons(word, spec_tokens(v@.skip(j as int)));
                }
            }
            if parsed.is_some() {
                return parsed;
            }
            i = j;
        }
    }
    assert(v@.skip(i as int) =~= Seq::<char>::empty());
    None
}

/// The PipeWire node ID of the Razer stereo output sink in the text of
/// `wpctl status`: the node ID in the first line whose lower-case form
/// names `razer` or `kraken` and `stereo` but not `source`; `None` when
/// there is no such line or it holds no number.
pub fn stereo_sink_node_id(status: &str) -> (r: Option<u32>)
    ensures
        r == spec_stereo_sink_node_id(status@),
{
    let lines = text_lines(status);
    let ghost all = spec_lines(status@);
    let mut i: usize = 0;
    assert(all.skip(0) =~= all);
    while i < lines.len()
        invariant
            i <= lines@.len(),
            lines@.len() == all.len(),
            all == spec_lines(status@),
            forall|k: int| 0 <= k < lines@.len() ==> #[trigger] lines@[k]@ == all[k],
            first_sink_line(all.skip(i as int)) == first_sink_line(all),
        decreases lines@.len() - i,
    {
        let line: &str = lines[i];
        let lowered = to_lowercase(line);
        assert(all.skip(i as int)[0] == all[i as int]);
        assert(all.skip(i as int).drop_first() =~= all.skip(i + 1));
        if is_stereo_sink_line(lowered.as_str()) {
            return node_id_in_line(line);
        }
        i = i + 1;
    }
    assert(all.skip(i as int) =~= Seq::<Seq<char>>::empty());
    None
}

/// The volume argument of `wpctl set-volume` for a level: the level capped
/// at 100, then `%` (`"80%"`).
pub fn wpctl_volume_arg(level: u8) -> (s: String)
    ensures
        s@ == decimal((if level > 100 { 100 } else { level }) as nat) + seq!['%'],
{
    let capped: u8 = if level > 100 { 100 } else { level };
    let mut s = String::new();
    append_decimal(&mut s, capped as u64);
    s.append("%");
    proof {
        reveal_strlit("%");
        assert(s@ =~= decimal(capped as nat) + seq!['%']);
    }
    s
}

} // verus!
