//! Text and decisions of the battery tray icon: per-device labels, the
//! combined tooltip, the lowest battery level, the icon's pixels, and the
//! low-battery notifications.

use vstd::prelude::*;
use vstd::string::StringExecFns;
use vstd::utf8::encode_utf8;

use crate::keyed::{
    find_key, key_index, keyed_view, lemma_key_index, lemma_key_index_same_keys, spec_lookup,
    spec_upsert, upsert,
};
use crate::text::{append_decimal, decimal, join, join_strings};

verus! {

/// Battery state update sent from the USB polling loop to the tray.
#[derive(Debug, Clone)]
pub struct TrayUpdate {
    /// Stable identifier, e.g. `"cobra-pro"` or `"kraken-v4-pro-0568"`.
    pub device_id: String,
    pub device_name: String,
    pub percentage: u8,
    pub is_charging: bool,
}

/// The lowest battery percentage of the updates, 0 when there are none.
pub open spec fn spec_lowest_pct(devices: Seq<TrayUpdate>) -> u8
    decreases devices.len(),
{
    if devices.len() == 0 {
        0
    } else if devices.len() == 1 {
        devices[0].percentage
    } else {
        let m = spec_lowest_pct(devices.drop_last());
        if devices.last().percentage < m {
            devices.last().percentage
        } else {
            m
        }
    }
}

/// Returns the lowest battery percentage across all tracked devices, or 0
/// when there are none.
pub fn lowest_battery_pct(devices: &[TrayUpdate]) -> (r: u8)
    ensures
        r == spec_lowest_pct(devices@),
{
    let mut m: u8 = 0;
    let mut i: usize = 0;
    while i < devices.len()
        invariant
            i <= devices@.len(),
            m == spec_lowest_pct(devices@.take(i as int)),
        decreases devices@.len() - i,
    {
        proof {
            assert(devices@.take(i + 1).drop_last() =~= devices@.take(i as int));
        }
        let p = devices[i].percentage;
        if i == 0 || p < m {
            m = p;
        }
        i = i + 1;
    }
    proof {
        assert(devices@.take(i as int) =~= devices@);
    }
    m
}

/// The lowest percentage is one of the devices' percentages and no device
/// has a lower one.
pub proof fn lemma_lowest_pct_is_minimum(devices: Seq<TrayUpdate>)
    requires
        devices.len() > 0,
    ensures
        forall|i: int| 0 <= i < devices.len() ==> spec_lowest_pct(devices) <= #[trigger] devices[i].percentage,
        exists|i: int| 0 <= i < devices.len() && spec_lowest_pct(devices) == #[trigger] devices[i].percentage,
    decreases devices.len(),
{
    if devices.len() == 1 {
        assert(spec_lowest_pct(devices) == devices[0].percentage);
    } else {
        let init = devices.drop_last();
        lemma_lowest_pct_is_minimum(init);
        assert forall|i: int| 0 <= i < devices.len() implies spec_lowest_pct(devices) <= #[trigger] devices[i].percentage by {
            if i < init.len() {
                assert(init[i] == devices[i]);
            }
        }
        let k = choose|k: int| 0 <= k < init.len() && spec_lowest_pct(init) == #[trigger] init[k].percentage;
        if devices.last().percentage < spec_lowest_pct(init) {
            assert(spec_lowest_pct(devices) == devices[devices.len() - 1].percentage);
        } else {
            assert(init[k] == devices[k]);
            assert(spec_lowest_pct(devices) == devices[k].percentage);
        }
    }
}

/// The tray menu label of one device: `"<name>: <pct>%"`, followed by
/// `" ⚡"` while charging.
pub open spec fn spec_device_label(update: TrayUpdate) -> Seq<char> {
    update.device_name@ + seq![':', ' '] + decimal(update.percentage as nat) + seq!['%'] + (
    if update.is_charging {
        seq![' ', '⚡']
    } else {
        seq![]
    })
}

/// Formats a single device label for the tray menu, e.g.
/// `"Razer Cobra Pro: 75% ⚡"`.
pub fn build_device_label(update: &TrayUpdate) -> (s: String)
    ensures
        s@ == spec_device_label(*update),
{
    let mut s = update.device_name.clone();
    s.append(": ");
    append_decimal(&mut s, update.percentage as u64);
    s.append("%");
    if update.is_charging {
        s.append(" ⚡");
    }
    proof {
        reveal_strlit(": ");
        reveal_strlit("%");
        reveal_strlit(" ⚡");
        assert(s@ =~= spec_device_label(*update));
    }
    s
}

/// Byte-wise lexicographic order (the order of `str`): `a` comes strictly
/// before `b`.
pub open spec fn lex_lt(a: Seq<u8>, b: Seq<u8>) -> bool
    decreases a.len(),
{
    if b.len() == 0 {
        false
    } else if a.len() == 0 {
        true
    } else if a[0] != b[0] {
        a[0] < b[0]
    } else {
        lex_lt(a.drop_first(), b.drop_first())
    }
}

/// Compares two byte strings in lexicographic order.
pub fn bytes_lt(a: &[u8], b: &[u8]) -> (r: bool)
    ensures
        r == lex_lt(a@, b@),
{
    let mut i: usize = 0;
    assert(a@.skip(0) =~= a@);
    assert(b@.skip(0) =~= b@);
    while i < a.len() && i < b.len()
        invariant
            i <= a@.len(),
            i <= b@.len(),
            lex_lt(a@, b@) == lex_lt(a@.skip(i as int), b@.skip(i as int)),
        decreases a@.len() - i,
    {
        if a[i] != b[i] {
            proof {
                assert(a@.skip(i as int)[0] == a@[i as int]);
                assert(b@.skip(i as int)[0] == b@[i as int]);
            }
            return a[i] < b[i];
        }
        proof {
            assert(a@.skip(i as int).drop_first() =~= a@.skip(i + 1));
            assert(b@.skip(i as int).drop_first() =~= b@.skip(i + 1));
        }
        i = i + 1;
    }
    i < b.len()
}

/// One tooltip entry: the device ID's bytes (the sort key) and its label.
pub open spec fn tray_entry(update: TrayUpdate) -> (Seq<u8>, Seq<char>) {
    (encode_utf8(update.device_id@), spec_device_label(update))
}

/// Inserts an entry into a list sorted by key, after every entry whose key
/// is not greater (so equal keys keep their arrival order).
pub open spec fn insert_sorted(sorted: Seq<(Seq<u8>, Seq<char>)>, x: (Seq<u8>, Seq<char>)) -> Seq<
    (Seq<u8>, Seq<char>),
>
    decreases sorted.len(),
{
    if sorted.len() == 0 {
        seq![x]
    } else if lex_lt(x.0, sorted.last().0) {
        insert_sorted(sorted.drop_last(), x).push(sorted.last())
    } else {
        sorted.push(x)
    }
}

/// The entries stably sorted by key (insertion sort).
pub open spec fn sort_entries(entries: Seq<(Seq<u8>, Seq<char>)>) -> Seq<(Seq<u8>, Seq<char>)>
    decreases entries.len(),
{
    if entries.len() == 0 {
        seq![]
    } else {
        insert_sorted(sort_entries(entries.drop_last()), entries.last())
    }
}

/// `lex_lt` is irreflexive.
pub proof fn lemma_lex_lt_irreflexive(a: Seq<u8>)
    ensures
        !lex_lt(a, a),
    decreases a.len(),
{
    if a.len() > 0 {
        lemma_lex_lt_irreflexive(a.drop_first());
    }
}

/// `lex_lt` is total: of two distinct byte strings one comes first.
pub proof fn lemma_lex_lt_total(a: Seq<u8>, b: Seq<u8>)
    ensures
        lex_lt(a, b) || lex_lt(b, a) || a == b,
    decreases a.len(),
{
    if a.len() == 0 && b.len() == 0 {
        assert(a =~= b);
    } else if a.len() > 0 && b.len() > 0 && a[0] == b[0] {
        lemma_lex_lt_total(a.drop_first(), b.drop_first());
        if a.drop_first() == b.drop_first() {
            assert(a =~= seq![a[0]] + a.drop_first());
            assert(b =~= seq![b[0]] + b.drop_first());
        }
    }
}

/// `lex_lt` is transitive.
pub proof fn lemma_lex_lt_transitive(a: Seq<u8>, b: Seq<u8>, c: Seq<u8>)
    requires
        lex_lt(a, b),
        lex_lt(b, c),
    ensures
        lex_lt(a, c),
    decreases a.len(),
{
    if a.len() > 0 && a[0] == b[0] && b[0] == c[0] {
        lemma_lex_lt_transitive(a.drop_first(), b.drop_first(), c.drop_first());
    }
}

/// Entries in non-decreasing key order.
pub open spec fn sorted_by_key(s: Seq<(Seq<u8>, Seq<char>)>) -> bool {
    forall|i: int, j: int| 0 <= i < j < s.len() ==> !lex_lt(#[trigger] s[j].0, #[trigger] s[i].0)
}

proof fn lemma_insert_sorted(s: Seq<(Seq<u8>, Seq<char>)>, x: (Seq<u8>, Seq<char>))
    requires
        sorted_by_key(s),
    ensures
        sorted_by_key(insert_sorted(s, x)),
        insert_sorted(s, x).to_multiset() == s.to_multiset().insert(x),
        insert_sorted(s, x).len() == s.len() + 1,
        forall|i: int|
            0 <= i < insert_sorted(s, x).len() ==> #[trigger] insert_sorted(s, x)[i] == x
                || s.contains(insert_sorted(s, x)[i]),
    decreases s.len(),
{
    broadcast use vstd::seq_lib::group_to_multiset_ensures;

    let r = insert_sorted(s, x);
    if s.len() == 0 {
        assert(r =~= seq![x]);
        assert(seq![x] =~= Seq::<(Seq<u8>, Seq<char>)>::empty().push(x));
        assert(s =~= Seq::<(Seq<u8>, Seq<char>)>::empty());
    } else {
        let init = s.drop_last();
        let last = s.last();
        assert(s =~= init.push(last));
        assert(sorted_by_key(init)) by {
            assert forall|i: int, j: int| 0 <= i < j < init.len() implies !lex_lt(
                #[trigger] init[j].0,
                #[trigger] init[i].0,
            ) by {
                assert(init[i] == s[i] && init[j] == s[j]);
            }
        }
        if lex_lt(x.0, last.0) {
            lemma_insert_sorted(init, x);
            let r0 = insert_sorted(init, x);
            assert(r == r0.push(last));
            assert forall|i: int| 0 <= i < r0.len() implies !lex_lt(last.0, #[trigger] r0[i].0) by {
                if r0[i] == x {
                    if lex_lt(last.0, x.0) {
                        lemma_lex_lt_transitive(x.0, last.0, x.0);
                        lemma_lex_lt_irreflexive(x.0);
                    }
                } else {
                    assert(init.contains(r0[i]));
                    let k = choose|k: int| 0 <= k < init.len() && init[k] == r0[i];
                    assert(s[k] == init[k]);
                    assert(!lex_lt(s[s.len() - 1].0, s[k].0));
                }
            }
            assert forall|i: int, j: int| 0 <= i < j < r.len() implies !lex_lt(
                #[trigger] r[j].0,
                #[trigger] r[i].0,
            ) by {
                if j < r0.len() {
                    assert(r[i] == r0[i] && r[j] == r0[j]);
                } else {
                    assert(r[j] == last && r[i] == r0[i]);
                }
            }
            assert forall|i: int| 0 <= i < r.len() implies #[trigger] r[i] == x || s.contains(r[i]) by {
                if i < r0.len() {
                    assert(r[i] == r0[i]);
                    if r0[i] != x {
                        let k = choose|k: int| 0 <= k < init.len() && init[k] == r0[i];
                        assert(s[k] == init[k]);
                    }
                } else {
                    assert(s[s.len() - 1] == r[i]);
                }
            }
            assert(r.to_multiset() =~= s.to_multiset().insert(x));
        } else {
            assert(r == s.push(x));
            assert forall|i: int, j: int| 0 <= i < j < r.len() implies !lex_lt(
                #[trigger] r[j].0,
                #[trigger] r[i].0,
            ) by {
                if j < s.len() {
                    assert(r[i] == s[i] && r[j] == s[j]);
                } else {
                    assert(r[j] == x && r[i] == s[i]);
                    if lex_lt(x.0, s[i].0) {
                        if i == s.len() - 1 {
                            assert(s[i] == last);
                        } else {
                            assert(!lex_lt(s[s.len() - 1].0, s[i].0));
                            lemma_lex_lt_total(s[s.len() - 1].0, s[i].0);
                            if s[i].0 != last.0 {
                                lemma_lex_lt_transitive(x.0, s[i].0, last.0);
                            }
                        }
                    }
                }
            }
            assert forall|i: int| 0 <= i < r.len() implies #[trigger] r[i] == x || s.contains(r[i]) by {
                if i < s.len() {
                    assert(r[i] == s[i]);
                }
            }
        }
    }
}

/// Sorting lists every entry exactly as often as the input does, in
/// non-decreasing key order.
pub proof fn lemma_sort_entries(s: Seq<(Seq<u8>, Seq<char>)>)
    ensures
        sorted_by_key(sort_entries(s)),
        sort_entries(s).to_multiset() == s.to_multiset(),
        sort_entries(s).len() == s.len(),
    decreases s.len(),
{
    broadcast use vstd::seq_lib::group_to_multiset_ensures;

    if s.len() == 0 {
        assert(sort_entries(s) =~= s);
    } else {
        lemma_sort_entries(s.drop_last());
        lemma_insert_sorted(sort_entries(s.drop_last()), s.last());
        assert(s =~= s.drop_last().push(s.last()));
    }
}

/// The tooltip lists the tracked devices in device-ID order, each device
/// once: it joins the labels of a sequence of entries that is sorted by
/// device ID and holds exactly the devices' entries.
pub proof fn lemma_tooltip_sorted_by_device_id(devices: Seq<TrayUpdate>)
    requires
        devices.len() > 0,
    ensures
        ({
            let entries = devices.map_values(|u: TrayUpdate| tray_entry(u));
            let sorted = sort_entries(entries);
            &&& spec_combined_tooltip(devices) == join(
                sorted.map_values(|e: (Seq<u8>, Seq<char>)| e.1),
                seq![' ', '|', ' '],
            )
            &&& sorted_by_key(sorted)
            &&& sorted.to_multiset() == entries.to_multiset()
        }),
{
    lemma_sort_entries(devices.map_values(|u: TrayUpdate| tray_entry(u)));
}

/// The tray tooltip: `"Synaptix – Scanning…"` with no device, otherwise the
/// device labels ordered by device ID and joined with `" | "`.
pub open spec fn spec_combined_tooltip(devices: Seq<TrayUpdate>) -> Seq<char> {
    if devices.len() == 0 {
        "Synaptix – Scanning…"@
    } else {
        join(
            sort_entries(devices.map_values(|u: TrayUpdate| tray_entry(u))).map_values(
                |e: (Seq<u8>, Seq<char>)| e.1,
            ),
            seq![' ', '|', ' '],
        )
    }
}

proof fn lemma_insert_sorted_at(s: Seq<(Seq<u8>, Seq<char>)>, x: (Seq<u8>, Seq<char>), j: int)
    requires
        0 <= j <= s.len(),
        forall|k: int| j <= k < s.len() ==> lex_lt(x.0, #[trigger] s[k].0),
        j == 0 || !lex_lt(x.0, s[j - 1].0),
    ensures
        insert_sorted(s, x) == s.insert(j, x),
    decreases s.len(),
{
    if s.len() == 0 {
        assert(s.insert(j, x) =~= seq![x]);
    } else if j == s.len() {
        assert(s.insert(j, x) =~= s.push(x));
    } else {
        let init = s.drop_last();
        assert(lex_lt(x.0, s[s.len() - 1].0));
        assert forall|k: int| j <= k < init.len() implies lex_lt(x.0, #[trigger] init[k].0) by {
            assert(init[k] == s[k]);
        }
        if j > 0 {
            assert(init[j - 1] == s[j - 1]);
        }
        lemma_insert_sorted_at(init, x, j);
        assert(init.insert(j, x).push(s.last()) =~= s.insert(j, x));
    }
}

/// Formats the tray tooltip: the device labels ordered by device ID and
/// joined with `" | "`, or `"Synaptix – Scanning…"` when no device is
/// tracked.
pub fn build_combined_tooltip(devices: &[TrayUpdate]) -> (s: String)
    ensures
        s@ == spec_combined_tooltip(devices@),
{
    if devices.len() == 0 {
        return "Synaptix – Scanning…".to_owned();
    }
    let ghost entries = devices@.map_values(|u: TrayUpdate| tray_entry(u));
    let mut sorted: Vec<(&[u8], String)> = Vec::new();
    let mut i: usize = 0;
    while i < devices.len()
        invariant
            i <= devices@.len(),
            entries == devices@.map_values(|u: TrayUpdate| tray_entry(u)),
            sorted@.map_values(|e: (&[u8], String)| (e.0@, e.1@)) == sort_entries(
                entries.take(i as int),
            ),
        decreases devices@.len() - i,
    {
        let key = devices[i].device_id.as_str().as_bytes();
        let label = build_device_label(&devices[i]);
        let ghost x = (key@, label@);
        let ghost before = sorted@.map_values(|e: (&[u8], String)| (e.0@, e.1@));
        proof {
            assert(x == entries[i as int]);
            assert(entries.take(i + 1).drop_last() =~= entries.take(i as int));
        }
        let mut j: usize = sorted.len();
        while j > 0 && bytes_lt(key, sorted[j - 1].0)
            invariant
                j <= sorted@.len(),
                before == sorted@.map_values(|e: (&[u8], String)| (e.0@, e.1@)),
                x == (key@, label@),
                forall|k: int| j <= k < before.len() ==> lex_lt(x.0, #[trigger] before[k].0),
            decreases j,
        {
            j = j - 1;
        }
        proof {
            lemma_insert_sorted_at(before, x, j as int);
        }
        sorted.insert(j, (key, label));
        proof {
            assert(sorted@.map_values(|e: (&[u8], String)| (e.0@, e.1@)) =~= before.insert(
                j as int,
                x,
            ));
        }
        i = i + 1;
    }
    proof {
        assert(entries.take(i as int) =~= entries);
    }
    let ghost sorted_view = sorted@.map_values(|e: (&[u8], String)| (e.0@, e.1@));
    let mut labels: Vec<String> = Vec::new();
    let mut k: usize = 0;
    while k < sorted.len()
        invariant
            k <= sorted@.len(),
            sorted_view == sorted@.map_values(|e: (&[u8], String)| (e.0@, e.1@)),
            labels@.map_values(|p: String| p@) == sorted_view.take(k as int).map_values(
                |e: (Seq<u8>, Seq<char>)| e.1,
            ),
        decreases sorted@.len() - k,
    {
        let ghost prev = labels@.map_values(|p: String| p@);
        let ghost old_labels = labels@;
        let lbl = sorted[k].1.clone();
        assert(lbl@ == sorted@[k as int].1@);
        labels.push(lbl);
        proof {
            assert(labels@ == old_labels.push(lbl));
            assert(sorted_view[k as int].1 == sorted@[k as int].1@);
            assert(sorted_view.take(k + 1).drop_last() =~= sorted_view.take(k as int));
            let lhs = labels@.map_values(|p: String| p@);
            let rhs = sorted_view.take(k + 1).map_values(|e: (Seq<u8>, Seq<char>)| e.1);
            assert(sorted_view.len() == sorted@.len());
            assert(prev.len() == k);
            assert(old_labels.len() == k);
            assert(lhs.len() == rhs.len());
            assert forall|idx: int| 0 <= idx < lhs.len() implies lhs[idx] == rhs[idx] by {
                if idx < k {
                    assert(lhs[idx] == prev[idx]);
                    assert(prev[idx] == sorted_view.take(k as int)[idx].1);
                } else {
                    assert(lhs[idx] == lbl@);
                }
            }
            assert(lhs =~= rhs);
        }
        k = k + 1;
    }
    proof {
        assert(sorted_view.take(k as int) =~= sorted_view);
        reveal_strlit(" | ");
        assert(" | "@ =~= seq![' ', '|', ' ']);
    }
    let s = join_strings(&labels, " | ");
    assert(labels@.map_values(|p: String| p@) == sort_entries(entries).map_values(
        |e: (Seq<u8>, Seq<char>)| e.1,
    ));
    s
}

// ── Battery icon ─────────────────────────────────────────────────────────────

/// Width and height of the tray icon, in pixels.
pub const ICON_SIZE: u32 = 32;

/// An RGBA colour.
pub type Rgba = (u8, u8, u8, u8);

/// The fill colour for a battery level: red up to 20 %, amber up to 40 %,
/// Razer green above.
pub open spec fn spec_fill_color(percentage: u8) -> Rgba {
    if percentage <= 20 {
        (0xFF, 0x3C, 0x3C, 255)
    } else if percentage <= 40 {
        (0xFF, 0xC8, 0x00, 255)
    } else {
        (0x44, 0xD6, 0x2C, 255)
    }
}

/// Width of the fill bar: `24 * percentage / 100` pixels of the 24-pixel
/// inner area, but at least one pixel for any non-zero level.
pub open spec fn spec_fill_px(percentage: u8) -> int {
    let f = (24 * percentage as int) / 100;
    if f == 0 && percentage > 0 {
        1
    } else {
        f
    }
}

/// The colour of pixel (x, y) of the battery icon: the white outline of the
/// body (x 2–27, y 10–21) and of the terminal cap (x 28–30, y 13–18), the
/// fill bar from x = 3 over rows 11–20, transparent elsewhere.
pub open spec fn spec_icon_pixel(x: int, y: int, percentage: u8) -> Rgba {
    let in_body = 2 <= x <= 27 && 10 <= y <= 21;
    let on_border = in_body && (x == 2 || x == 27 || y == 10 || y == 21);
    let in_fill = 3 <= x < 3 + spec_fill_px(percentage) && 11 <= y < 21;
    let in_cap = 28 <= x <= 30 && 13 <= y <= 18;
    if on_border || in_cap {
        (0xFF, 0xFF, 0xFF, 255)
    } else if in_fill {
        spec_fill_color(percentage)
    } else {
        (0, 0, 0, 0)
    }
}

/// Component `c` (0 = red … 3 = alpha) of a colour.
pub open spec fn rgba_component(color: Rgba, c: int) -> u8 {
    if c == 0 {
        color.0
    } else if c == 1 {
        color.1
    } else if c == 2 {
        color.2
    } else {
        color.3
    }
}

/// The 32×32 icon as row-major RGBA bytes (4 per pixel).
pub open spec fn spec_icon_rgba(percentage: u8) -> Seq<u8> {
    Seq::new(
        4096,
        |i: int| rgba_component(spec_icon_pixel((i / 4) % 32, i / 128, percentage), i % 4),
    )
}

/// The colour of one icon pixel.
fn icon_pixel(x: u32, y: u32, percentage: u8) -> (c: Rgba)
    requires
        x < 32,
        y < 32,
    ensures
        c == spec_icon_pixel(x as int, y as int, percentage),
{
    let f: u32 = 24 * (percentage as u32) / 100;
    let fill_px: u32 = if f == 0 && percentage > 0 { 1 } else { f };
    let in_body = x >= 2 && x <= 27 && y >= 10 && y <= 21;
    let on_border = in_body && (x == 2 || x == 27 || y == 10 || y == 21);
    let in_fill = x >= 3 && x < 3 + fill_px && y >= 11 && y < 21;
    let in_cap = x >= 28 && x <= 30 && y >= 13 && y <= 18;
    if on_border || in_cap {
        (0xFF, 0xFF, 0xFF, 255)
    } else if in_fill {
        if percentage <= 20 {
            (0xFF, 0x3C, 0x3C, 255)
        } else if percentage <= 40 {
            (0xFF, 0xC8, 0x00, 255)
        } else {
            (0x44, 0xD6, 0x2C, 255)
        }
    } else {
        (0, 0, 0, 0)
    }
}

/// Renders the 32×32 battery icon for a charge level as row-major RGBA
/// bytes: a horizontal capsule whose fill grows left to right with the
/// level, coloured by [`spec_fill_color`].
pub fn battery_icon_rgba(percentage: u8) -> (v: Vec<u8>)
    ensures
        v@ == spec_icon_rgba(percentage),
{
    let mut v: Vec<u8> = Vec::new();
    let mut i: u32 = 0;
    while i < 4096
        invariant
            i <= 4096,
            v@ == spec_icon_rgba(percentage).take(i as int),
        decreases 4096 - i,
    {
        let px = icon_pixel((i / 4) % 32, i / 128, percentage);
        let c = i % 4;
        let byte = if c == 0 {
            px.0
        } else if c == 1 {
            px.1
        } else if c == 2 {
            px.2
        } else {
            px.3
        };
        v.push(byte);
        proof {
            assert(v@ =~= spec_icon_rgba(percentage).take(i + 1));
        }
        i = i + 1;
    }
    proof {
        assert(spec_icon_rgba(percentage).take(4096) =~= spec_icon_rgba(percentage));
    }
    v
}

// ── Low-battery notifications ────────────────────────────────────────────────

/// Percentage thresholds that trigger a low-battery notification, highest
/// first.
pub open spec fn low_battery_thresholds() -> Seq<u8> {
    seq![20u8, 15u8, 10u8, 5u8, 1u8]
}

/// Whether a discharging reading of `pct`, after a previous reading `prev`,
/// crosses threshold `t` for the first time this discharge cycle: the level
/// is at or below `t`, `t` has not fired yet, and the previous level (if
/// any) was above `t`.
pub open spec fn crosses(t: u8, pct: u8, prev: Option<u8>, fired: Seq<u8>) -> bool {
    &&& pct <= t
    &&& !fired.contains(t)
    &&& match prev {
        Some(p) => p > t,
        None => true,
    }
}

/// The thresholds (in the given order) that a reading crosses.
pub open spec fn spec_alerts(thresholds: Seq<u8>, pct: u8, prev: Option<u8>, fired: Seq<u8>) -> Seq<
    u8,
>
    decreases thresholds.len(),
{
    if thresholds.len() == 0 {
        seq![]
    } else {
        let rest = spec_alerts(thresholds.drop_last(), pct, prev, fired);
        if crosses(thresholds.last(), pct, prev, fired) {
            rest.push(thresholds.last())
        } else {
            rest
        }
    }
}

/// The thresholds of `fired` that stay armed at level `pct` (those at or
/// above it), in order.
pub open spec fn still_fired(fired: Seq<u8>, pct: u8) -> Seq<u8>
    decreases fired.len(),
{
    if fired.len() == 0 {
        seq![]
    } else {
        let rest = still_fired(fired.drop_last(), pct);
        if pct <= fired.last() {
            rest.push(fired.last())
        } else {
            rest
        }
    }
}

proof fn lemma_contains_push(s: Seq<u8>, x: u8, t: u8)
    ensures
        s.push(x).contains(t) == (s.contains(t) || x == t),
{
    let s2 = s.push(x);
    if s2.contains(t) {
        let w = choose|w: int| 0 <= w < s2.len() && s2[w] == t;
        if w < s.len() {
            assert(s[w] == t);
        }
    }
    if x == t {
        assert(s2[s.len() as int] == t);
    }
    if s.contains(t) {
        let w = choose|w: int| 0 <= w < s.len() && s[w] == t;
        assert(s2[w] == t);
    }
}

/// The thresholds to notify for a discharging reading, and the fired
/// thresholds afterwards: those that stay at or above the level plus the new
/// alerts.
pub fn low_battery_alerts(pct: u8, prev: Option<u8>, fired: &Vec<u8>) -> (r: (Vec<u8>, Vec<u8>))
    ensures
        r.0@ == spec_alerts(low_battery_thresholds(), pct, prev, fired@),
        r.1@ == still_fired(fired@, pct) + spec_alerts(low_battery_thresholds(), pct, prev, fired@),
{
    let thresholds: [u8; 5] = [20, 15, 10, 5, 1];
    assert(thresholds@ =~= low_battery_thresholds());
    let mut alerts: Vec<u8> = Vec::new();
    let mut i: usize = 0;
    while i < 5
        invariant
            i <= 5,
            thresholds@ == low_battery_thresholds(),
            alerts@ == spec_alerts(thresholds@.take(i as int), pct, prev, fired@),
        decreases 5 - i,
    {
        let t = thresholds[i];
        let mut already = false;
        let mut k: usize = 0;
        while k < fired.len()
            invariant
                k <= fired@.len(),
                already == fired@.take(k as int).contains(t),
            decreases fired@.len() - k,
        {
            proof {
                assert(fired@.take(k + 1) =~= fired@.take(k as int).push(fired@[k as int]));
                lemma_contains_push(fired@.take(k as int), fired@[k as int], t);
            }
            if fired[k] == t {
                already = true;
            }
            k = k + 1;
        }
        proof {
            assert(fired@.take(k as int) =~= fired@);
            assert(thresholds@.take(i + 1).drop_last() =~= thresholds@.take(i as int));
        }
        let prev_above = match prev {
            Some(p) => p > t,
            None => true,
        };
        if pct <= t && !already && prev_above {
            alerts.push(t);
        }
        i = i + 1;
    }
    proof {
        assert(thresholds@.take(5) =~= thresholds@);
    }
    let mut kept: Vec<u8> = Vec::new();
    let mut j: usize = 0;
    while j < fired.len()
        invariant
            j <= fired@.len(),
            kept@ == still_fired(fired@.take(j as int), pct),
        decreases fired@.len() - j,
    {
        proof {
            assert(fired@.take(j + 1).drop_last() =~= fired@.take(j as int));
        }
        if pct <= fired[j] {
            kept.push(fired[j]);
        }
        j = j + 1;
    }
    proof {
        assert(fired@.take(j as int) =~= fired@);
    }
    let mut k2: usize = 0;
    let ghost kept0 = kept@;
    while k2 < alerts.len()
        invariant
            k2 <= alerts@.len(),
            kept@ == kept0 + alerts@.take(k2 as int),
        decreases alerts@.len() - k2,
    {
        kept.push(alerts[k2]);
        proof {
            assert(kept@ =~= kept0 + alerts@.take(k2 + 1));
        }
        k2 = k2 + 1;
    }
    proof {
        assert(alerts@.take(k2 as int) =~= alerts@);
    }
    (alerts, kept)
}

/// Every notified threshold is one the reading crosses, taken from the
/// threshold list.
pub proof fn lemma_alerts_cross(thresholds: Seq<u8>, pct: u8, prev: Option<u8>, fired: Seq<u8>)
    ensures
        forall|i: int|
            0 <= i < spec_alerts(thresholds, pct, prev, fired).len() ==> crosses(
                #[trigger] spec_alerts(thresholds, pct, prev, fired)[i],
                pct,
                prev,
                fired,
            ) && thresholds.contains(spec_alerts(thresholds, pct, prev, fired)[i]),
    decreases thresholds.len(),
{
    if thresholds.len() > 0 {
        let init = thresholds.drop_last();
        lemma_alerts_cross(init, pct, prev, fired);
        let a = spec_alerts(thresholds, pct, prev, fired);
        let a0 = spec_alerts(init, pct, prev, fired);
        assert forall|i: int| 0 <= i < a.len() implies crosses(#[trigger] a[i], pct, prev, fired)
            && thresholds.contains(a[i]) by {
            if i < a0.len() {
                assert(a[i] == a0[i]);
                let k = choose|k: int| 0 <= k < init.len() && init[k] == a0[i];
                assert(thresholds[k] == init[k]);
            } else {
                assert(a[i] == thresholds[thresholds.len() - 1]);
            }
        }
    }
}

/// A low-battery threshold notifies at most once per discharge cycle: once a
/// discharging reading notified `t`, the next discharging reading at or
/// below `t` does not notify `t` again.
pub proof fn lemma_threshold_notifies_once(
    fired: Seq<u8>,
    prev: Option<u8>,
    pct1: u8,
    pct2: u8,
    t: u8,
)
    requires
        spec_alerts(low_battery_thresholds(), pct1, prev, fired).contains(t),
        pct2 <= t,
    ensures
        !spec_alerts(
            low_battery_thresholds(),
            pct2,
            Some(pct1),
            still_fired(fired, pct1) + spec_alerts(low_battery_thresholds(), pct1, prev, fired),
        ).contains(t),
{
    let a1 = spec_alerts(low_battery_thresholds(), pct1, prev, fired);
    let fired2 = still_fired(fired, pct1) + a1;
    let k = choose|k: int| 0 <= k < a1.len() && a1[k] == t;
    assert(fired2[still_fired(fired, pct1).len() + k] == t);
    assert(fired2.contains(t));
    lemma_alerts_cross(low_battery_thresholds(), pct2, Some(pct1), fired2);
    let a2 = spec_alerts(low_battery_thresholds(), pct2, Some(pct1), fired2);
    if a2.contains(t) {
        let j = choose|j: int| 0 <= j < a2.len() && a2[j] == t;
        assert(crosses(a2[j], pct2, Some(pct1), fired2));
    }
}

/// A desktop notification for a low battery.
pub struct LowBatteryNotice {
    /// `"Low Battery — <name>"`.
    pub summary: String,
    /// `"Battery level is at <pct>%."`.
    pub body: String,
    /// Icon name: `"battery-empty"` at 10 % or less, else `"battery-caution"`.
    pub icon: &'static str,
    /// Critical urgency at 10 % or less, normal above.
    pub critical: bool,
}

/// Builds the notification shown when `device_name` crosses a low-battery
/// threshold at `percentage`.
pub fn low_battery_notice(device_name: &str, percentage: u8) -> (n: LowBatteryNotice)
    ensures
        n.summary@ == "Low Battery — "@ + device_name@,
        n.body@ == "Battery level is at "@ + decimal(percentage as nat) + seq!['%', '.'],
        n.critical == (percentage <= 10),
        n.icon@ == (if percentage <= 10 {
            "battery-empty"@
        } else {
            "battery-caution"@
        }),
{
    let mut summary = "Low Battery — ".to_owned();
    summary.append(device_name);
    let mut body = "Battery level is at ".to_owned();
    append_decimal(&mut body, percentage as u64);
    body.append("%.");
    proof {
        reveal_strlit("%.");
        assert(body@ =~= "Battery level is at "@ + decimal(percentage as nat) + seq!['%', '.']);
    }
    let critical = percentage <= 10;
    let icon = if critical {
        "battery-empty"
    } else {
        "battery-caution"
    };
    LowBatteryNotice { summary, body, icon, critical }
}

// ── Tray state ───────────────────────────────────────────────────────────────

/// What the tray does with one battery update: create a menu item (first
/// update of a device) or relabel it, and notify once per crossed threshold.
pub struct TrayStep {
    pub is_new_device: bool,
    pub label: String,
    pub alerts: Vec<u8>,
}

/// The tray's per-device state: the latest update of each device, the
/// thresholds already notified in the current discharge cycle, and the last
/// percentage seen.
pub struct TrayState {
    devices: Vec<(String, TrayUpdate)>,
    notified: Vec<(String, Vec<u8>)>,
    last_pct: Vec<(String, u8)>,
}

/// The notified thresholds with each list taken by its contents.
pub open spec fn notified_view(entries: Seq<(Seq<char>, Vec<u8>)>) -> Seq<(Seq<char>, Seq<u8>)> {
    entries.map_values(|e: (Seq<char>, Vec<u8>)| (e.0, e.1@))
}

proof fn lemma_notified_view_keys(kv: Seq<(Seq<char>, Vec<u8>)>, key: Seq<char>)
    ensures
        key_index(notified_view(kv), key) == key_index(kv, key),
        notified_view(kv).len() == kv.len(),
{
    lemma_key_index_same_keys(kv, notified_view(kv), key);
}

proof fn lemma_notified_view_upsert(kv: Seq<(Seq<char>, Vec<u8>)>, key: Seq<char>, v: Vec<u8>)
    ensures
        notified_view(spec_upsert(kv, key, v)) == spec_upsert(notified_view(kv), key, v@),
{
    lemma_notified_view_keys(kv, key);
    lemma_key_index(kv, key);
    assert(notified_view(spec_upsert(kv, key, v)) =~= spec_upsert(notified_view(kv), key, v@));
}

impl TrayState {
    /// The latest update of each device, in order of first appearance.
    pub closed spec fn devices(&self) -> Seq<(Seq<char>, TrayUpdate)> {
        keyed_view(self.devices@)
    }

    /// Thresholds already notified for each device in its discharge cycle.
    pub closed spec fn notified(&self) -> Seq<(Seq<char>, Seq<u8>)> {
        notified_view(keyed_view(self.notified@))
    }

    /// The last percentage seen for each device.
    pub closed spec fn last_pct(&self) -> Seq<(Seq<char>, u8)> {
        keyed_view(self.last_pct@)
    }

    /// No device seen yet.
    pub fn new() -> (s: Self)
        ensures
            s.devices().len() == 0,
            s.notified().len() == 0,
            s.last_pct().len() == 0,
    {
        TrayState { devices: Vec::new(), notified: Vec::new(), last_pct: Vec::new() }
    }

    /// The latest update of every device seen, in order of first appearance.
    pub fn updates(&self) -> (r: Vec<TrayUpdate>)
        ensures
            r@ == self.devices().map_values(|e: (Seq<char>, TrayUpdate)| e.1),
    {
        let mut r: Vec<TrayUpdate> = Vec::new();
        let mut i: usize = 0;
        while i < self.devices.len()
            invariant
                i <= self.devices@.len(),
                r@ == self.devices().take(i as int).map_values(|e: (Seq<char>, TrayUpdate)| e.1),
            decreases self.devices@.len() - i,
        {
            let u = &self.devices[i].1;
            let copy = TrayUpdate {
                device_id: u.device_id.clone(),
                device_name: u.device_name.clone(),
                percentage: u.percentage,
                is_charging: u.is_charging,
            };
            r.push(copy);
            proof {
                assert(r@ =~= self.devices().take(i + 1).map_values(
                    |e: (Seq<char>, TrayUpdate)| e.1,
                ));
            }
            i = i + 1;
        }
        proof {
            assert(self.devices().take(i as int) =~= self.devices());
        }
        r
    }

    /// Takes in one battery update.
    ///
    /// The update becomes the device's latest; its percentage becomes the
    /// last one seen. While charging, the device's notified thresholds are
    /// cleared and nothing is notified. While discharging, the thresholds the
    /// reading crosses (see [`crosses`]) are notified and added to the
    /// notified ones, and thresholds below the new level are re-armed.
    pub fn apply_update(&mut self, update: TrayUpdate) -> (step: TrayStep)
        ensures
            step.is_new_device == (spec_lookup(old(self).devices(), update.device_id@) is None),
            step.label@ == spec_device_label(update),
            final(self).devices() == spec_upsert(old(self).devices(), update.device_id@, update),
            final(self).last_pct() == spec_upsert(
                old(self).last_pct(),
                update.device_id@,
                update.percentage,
            ),
            ({
                let fired = match spec_lookup(old(self).notified(), update.device_id@) {
                    Some(f) => f,
                    None => seq![],
                };
                let prev = spec_lookup(old(self).last_pct(), update.device_id@);
                if update.is_charging {
                    &&& step.alerts@ == Seq::<u8>::empty()
                    &&& final(self).notified() == spec_upsert(
                        old(self).notified(),
                        update.device_id@,
                        seq![],
                    )
                } else {
                    let alerts = spec_alerts(low_battery_thresholds(), update.percentage, prev, fired);
                    &&& step.alerts@ == alerts
                    &&& final(self).notified() == spec_upsert(
                        old(self).notified(),
                        update.device_id@,
                        still_fired(fired, update.percentage) + alerts,
                    )
                }
            }),
    {
        proof {
            lemma_key_index(self.devices(), update.device_id@);
            lemma_key_index(keyed_view(self.notified@), update.device_id@);
            lemma_key_index(self.last_pct(), update.device_id@);
        }
        let id = update.device_id.as_str();
        let is_new_device = find_key(&self.devices, id).is_none();
        let label = build_device_label(&update);
        let prev: Option<u8> = match find_key(&self.last_pct, id) {
            Some(i) => Some(self.last_pct[i].1),
            None => None,
        };
        let fired: Vec<u8> = match find_key(&self.notified, id) {
            Some(i) => self.notified[i].1.clone(),
            None => Vec::new(),
        };
        assert(fired@ == (match spec_lookup(self.notified(), update.device_id@) {
            Some(f) => f,
            None => seq![],
        })) by {
            lemma_notified_view_keys(keyed_view(self.notified@), update.device_id@);
            if spec_lookup(keyed_view(self.notified@), update.device_id@) is Some {
                assert(fired@ =~= self.notified@[key_index(
                    keyed_view(self.notified@),
                    update.device_id@,
                )].1@);
            }
        }
        let alerts: Vec<u8> = if update.is_charging {
            let ghost before = self.notified();
            let ghost kv = keyed_view(self.notified@);
            let empty: Vec<u8> = Vec::new();
            upsert(&mut self.notified, update.device_id.clone(), empty);
            proof {
                lemma_notified_view_upsert(kv, update.device_id@, empty);
                assert(empty@ =~= Seq::<u8>::empty());
                assert(self.notified() =~= spec_upsert(before, update.device_id@, seq![]));
            }
            Vec::new()
        } else {
            let (alerts, new_fired) = low_battery_alerts(update.percentage, prev, &fired);
            let ghost before = self.notified();
            let ghost kv = keyed_view(self.notified@);
            let ghost nf = new_fired@;
            upsert(&mut self.notified, update.device_id.clone(), new_fired);
            proof {
                lemma_notified_view_upsert(kv, update.device_id@, new_fired);
                assert(self.notified() =~= spec_upsert(before, update.device_id@, nf));
            }
            alerts
        };
        upsert(&mut self.last_pct, update.device_id.clone(), update.percentage);
        let key = update.device_id.clone();
        upsert(&mut self.devices, key, update);
        TrayStep { is_new_device, label, alerts }
    }
}

} // verus!
