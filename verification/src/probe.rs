//! Protocol discovery probe for the Kraken V4 Pro: hexadecimal argument
//! parsing, the 64-byte DSP report it sends, and the sweep of command IDs
//! and values it tries.

use vstd::prelude::*;

use crate::razer_protocol::xor_range;

verus! {

/// Known Kraken V4 Pro PIDs to probe.
pub const V4PRO_HUB_PID: u16 = 0x0568;
pub const V4PRO_MAIN_PID: u16 = 0x056c;
/// Report ID of the probe's 64-byte DSP report.
pub const PROBE_REPORT_ID: u8 = 0x21;
/// Command class of the DSP / audio subsystem.
pub const PROBE_CMD_CLASS: u8 = 0x0F;
/// Routing byte that sends the report to the headset DSP.
pub const PROBE_ROUTING: u8 = 0x80;
/// Byte offset of the payload value in the probe report.
pub const PROBE_DATA_OFFSET: usize = 29;

// ── Hexadecimal arguments ────────────────────────────────────────────────────

/// The value of a hexadecimal digit (either case), `None` for other characters.
pub open spec fn hex_digit_value(c: char) -> Option<nat> {
    let n = c as int;
    if '0' as int <= n <= '9' as int {
        Some((n - '0' as int) as nat)
    } else if 'a' as int <= n <= 'f' as int {
        Some((n - 'a' as int + 10) as nat)
    } else if 'A' as int <= n <= 'F' as int {
        Some((n - 'A' as int + 10) as nat)
    } else {
        None
    }
}

/// The value of a string of hexadecimal digits, `None` when a character is
/// not a hexadecimal digit.
pub open spec fn hex_digits_value(s: Seq<char>) -> Option<nat>
    decreases s.len(),
{
    if s.len() == 0 {
        Some(0)
    } else {
        match (hex_digits_value(s.drop_last()), hex_digit_value(s.last())) {
            (Some(v), Some(d)) => Some(v * 16 + d),
            _ => None,
        }
    }
}

/// The number an unsigned base-16 `from_str_radix` reads: an optional `+`
/// sign followed by at least one hexadecimal digit and nothing else.
pub open spec fn spec_from_hex(s: Seq<char>) -> Option<nat> {
    let digits = if s.len() > 0 && s[0] == '+' {
        s.drop_first()
    } else {
        s
    };
    if digits.len() == 0 {
        None
    } else {
        hex_digits_value(digits)
    }
}

/// `s` with every leading repetition of the non-empty pattern `pat` removed.
pub open spec fn spec_trim_start_matches(s: Seq<char>, pat: Seq<char>) -> Seq<char>
    decreases s.len(),
{
    if pat.len() > 0 && pat.len() <= s.len() && s.subrange(0, pat.len() as int) == pat {
        spec_trim_start_matches(s.subrange(pat.len() as int, s.len() as int), pat)
    } else {
        s
    }
}

/// The digits of a probe argument: leading `0x`, then leading `0X`, removed.
pub open spec fn spec_hex_argument(s: Seq<char>) -> Seq<char> {
    spec_trim_start_matches(spec_trim_start_matches(s, "0x"@), "0X"@)
}

/// `str::trim_start_matches` with a string pattern: the contract states that
/// every leading repetition of `pat` is removed (as its documentation says).
#[verifier::external_body]
fn trim_start_matches<'a>(s: &'a str, pat: &str) -> (r: &'a str)
    requires
        pat@.len() > 0,
    ensures
        r@ == spec_trim_start_matches(s@, pat@),
{
    s.trim_start_matches(pat)
}

/// `u16::from_str_radix(s, 16)`: the contract states that it succeeds
/// exactly on an optional `+` followed by hexadecimal digits whose value fits
/// in 16 bits, with that value; the text of the error message is not stated.
#[verifier::external_body]
fn u16_from_hex(s: &str) -> (r: Result<u16, String>)
    ensures
        match r {
            Ok(v) => spec_from_hex(s@) == Some(v as nat),
            Err(_) => match spec_from_hex(s@) {
                Some(n) => n > u16::MAX,
                None => true,
            },
        },
{
    u16::from_str_radix(s, 16).map_err(|e| e.to_string())
}

/// `u8::from_str_radix(s, 16)`: the contract states that it succeeds exactly
/// on an optional `+` followed by hexadecimal digits whose value fits in 8
/// bits, with that value; the text of the error message is not stated.
#[verifier::external_body]
fn u8_from_hex(s: &str) -> (r: Result<u8, String>)
    ensures
        match r {
            Ok(v) => spec_from_hex(s@) == Some(v as nat),
            Err(_) => match spec_from_hex(s@) {
                Some(n) => n > u8::MAX,
                None => true,
            },
        },
{
    u8::from_str_radix(s, 16).map_err(|e| e.to_string())
}

/// Parses a 16-bit hexadecimal argument such as `0x0568`: leading `0x`, then
/// `0X`, prefixes are dropped and the rest read in base 16. Fails exactly
/// when the rest is not an optional `+` and hexadecimal digits, or its value
/// exceeds 0xFFFF.
pub fn parse_hex_u16(s: &str) -> (r: Result<u16, String>)
    ensures
        match r {
            Ok(v) => spec_from_hex(spec_hex_argument(s@)) == Some(v as nat),
            Err(_) => match spec_from_hex(spec_hex_argument(s@)) {
                Some(n) => n > u16::MAX,
                None => true,
            },
        },
{
    proof {
        reveal_strlit("0x");
        reveal_strlit("0X");
    }
    let t = trim_start_matches(trim_start_matches(s, "0x"), "0X");
    u16_from_hex(t)
}

/// Parses an 8-bit hexadecimal argument such as `0x01` (see
/// [`parse_hex_u16`]); fails when the value exceeds 0xFF.
pub fn parse_hex_u8(s: &str) -> (r: Result<u8, String>)
    ensures
        match r {
            Ok(v) => spec_from_hex(spec_hex_argument(s@)) == Some(v as nat),
            Err(_) => match spec_from_hex(spec_hex_argument(s@)) {
                Some(n) => n > u8::MAX,
                None => true,
            },
        },
{
    proof {
        reveal_strlit("0x");
        reveal_strlit("0X");
    }
    let t = trim_start_matches(trim_start_matches(s, "0x"), "0X");
    u8_from_hex(t)
}

// ── Probe report ─────────────────────────────────────────────────────────────

/// The probe report before its checksum: report ID 0x21, class 0x0F,
/// `cmd_id`, routing 0x80, then `value` at `data_offset`, zeros elsewhere.
pub open spec fn probe_report_body(cmd_id: u8, value: u8, data_offset: int) -> Seq<u8> {
    Seq::new(
        64,
        |i: int|
            if i == 0 {
                PROBE_REPORT_ID
            } else if i == 1 {
                PROBE_CMD_CLASS
            } else if i == 2 {
                cmd_id
            } else if i == 3 {
                PROBE_ROUTING
            } else {
                0u8
            },
    ).update(data_offset, value)
}

/// The probe report: its body with byte 62 set to the XOR of bytes `[1..62)`.
pub open spec fn spec_probe_report(cmd_id: u8, value: u8, data_offset: int) -> Seq<u8> {
    let body = probe_report_body(cmd_id, value, data_offset);
    body.update(62, xor_range(body, 1, 62))
}

/// Builds the 64-byte report with the V4 Pro DSP header, `value` at
/// `data_offset`, and the XOR of bytes `[1..62)` at byte 62.
pub fn build_report(cmd_id: u8, value: u8, data_offset: usize) -> (buf: [u8; 64])
    requires
        data_offset < 64,
    ensures
        buf@ == spec_probe_report(cmd_id, value, data_offset as int),
{
    let mut buf = [0u8; 64];
    assert(forall|i: int| 0 <= i < 64 ==> buf@[i] == 0u8);
    buf[0] = PROBE_REPORT_ID;
    buf[1] = PROBE_CMD_CLASS;
    buf[2] = cmd_id;
    buf[3] = PROBE_ROUTING;
    buf[data_offset] = value;
    assert(buf@ =~= probe_report_body(cmd_id, value, data_offset as int));
    let ghost body = buf@;
    let mut crc: u8 = 0;
    let mut i: usize = 1;
    while i < 62
        invariant
            1 <= i <= 62,
            buf@ == body,
            crc == xor_range(body, 1, i as int),
        decreases 62 - i,
    {
        crc = crc ^ buf[i];
        i = i + 1;
    }
    buf[62] = crc;
    buf
}

// ── Sweep ────────────────────────────────────────────────────────────────────

/// One probe attempt: PID, command ID, payload offset and value.
pub type ProbeAttempt = (u16, u8, usize, u8);

/// The PIDs to probe: the one given, or both known Kraken V4 Pro PIDs.
pub fn probe_targets(pid: Option<u16>) -> (v: Vec<u16>)
    ensures
        v@ == (match pid {
            Some(p) => seq![p],
            None => seq![V4PRO_HUB_PID, V4PRO_MAIN_PID],
        }),
{
    let mut v: Vec<u16> = Vec::new();
    match pid {
        Some(p) => v.push(p),
        None => {
            v.push(V4PRO_HUB_PID);
            v.push(V4PRO_MAIN_PID);
        },
    }
    v
}

/// The `k`-th command ID of a sweep: 0x00–0x0F without 0x03 (haptics,
/// already known).
pub open spec fn sweep_cmd_id(k: int) -> u8 {
    if k < 3 {
        k as u8
    } else {
        (k + 1) as u8
    }
}

/// The `k`-th payload value tried for each command: 0, 50, 100.
pub open spec fn sweep_value(k: int) -> u8 {
    if k == 0 {
        0
    } else if k == 1 {
        50
    } else {
        100
    }
}

/// The 45 attempts for one PID: every command ID with each value, at the
/// payload offset.
pub open spec fn sweep_for_pid(pid: u16) -> Seq<ProbeAttempt> {
    Seq::new(45, |k: int| (pid, sweep_cmd_id(k / 3), PROBE_DATA_OFFSET, sweep_value(k % 3)))
}

/// The sweep over all PIDs, PID by PID.
pub open spec fn spec_sweep(pids: Seq<u16>) -> Seq<ProbeAttempt>
    decreases pids.len(),
{
    if pids.len() == 0 {
        seq![]
    } else {
        spec_sweep(pids.drop_last()) + sweep_for_pid(pids.last())
    }
}

/// Lists the attempts of a sweep, in the order they are sent.
pub fn sweep_attempts(pids: &[u16]) -> (v: Vec<ProbeAttempt>)
    ensures
        v@ == spec_sweep(pids@),
{
    let mut v: Vec<ProbeAttempt> = Vec::new();
    let mut i: usize = 0;
    while i < pids.len()
        invariant
            i <= pids@.len(),
            v@ == spec_sweep(pids@.take(i as int)),
        decreases pids@.len() - i,
    {
        let pid = pids[i];
        let ghost before = v@;
        let mut k: usize = 0;
        while k < 45
            invariant
                k <= 45,
                v@ == before + sweep_for_pid(pid).take(k as int),
            decreases 45 - k,
        {
            let c = k / 3;
            let cmd: u8 = if c < 3 {
                c as u8
            } else {
                (c + 1) as u8
            };
            let r = k % 3;
            let value: u8 = if r == 0 {
                0
            } else if r == 1 {
                50
            } else {
                100
            };
            v.push((pid, cmd, PROBE_DATA_OFFSET, value));
            proof {
                assert(v@ =~= before + sweep_for_pid(pid).take(k + 1));
            }
            k = k + 1;
        }
        proof {
            assert(sweep_for_pid(pid).take(45) =~= sweep_for_pid(pid));
            assert(pids@.take(i + 1).drop_last() =~= pids@.take(i as int));
        }
        i = i + 1;
    }
    proof {
        assert(pids@.take(i as int) =~= pids@);
    }
    v
}

} // verus!
