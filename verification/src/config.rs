//! The persisted headset state: the Kraken V4 Pro haptic level that survives
//! daemon restarts, read from and written to a small JSON document.

use vstd::prelude::*;
use vstd::string::StringExecFns;

use crate::text::{append_decimal, decimal};

verus! {

/// Haptic level used when nothing was saved (Low). Never 0: a default of 0
/// would switch the hub's haptics off on the first battery poll after a
/// daemon start.
pub const DEFAULT_HAPTIC_LEVEL: u8 = 33;

/// The unsigned integer that `serde_json` finds under `key` in the JSON
/// document `text`: `None` when `text` is not JSON, is not an object with
/// that member, or the member is not an integer in `0..=u64::MAX`.
pub uninterp spec fn json_u64_member(text: Seq<char>, key: Seq<char>) -> Option<u64>;

/// Whether `key` is made of ASCII letters, digits and underscores only, so
/// that it stands in a JSON string without escapes.
pub open spec fn plain_key(key: Seq<char>) -> bool {
    forall|i: int|
        0 <= i < key.len() ==> {
            let c = #[trigger] key[i] as u32;
            (48 <= c <= 57) || (65 <= c <= 90) || (97 <= c <= 122) || c == 95
        }
}

/// The JSON document `{"<key>":<n>}`: one member holding a non-negative
/// integer.
pub open spec fn single_member_document(key: Seq<char>, n: u64) -> Seq<char> {
    seq!['{', '"'] + key + seq!['"', ':'] + decimal(n as nat) + seq!['}']
}

/// Parses `text` with `serde_json::from_str` into a `serde_json::Value`,
/// indexes it by `key` and reads the member with `Value::as_u64`. The
/// contract names that result, which depends on `text` and `key` alone, and
/// states the one case the library relies on: a document `{"<key>":<n>}`
/// with a plain key gives `n` back.
#[verifier::external_body]
fn read_json_u64_member(text: &str, key: &str) -> (r: Option<u64>)
    ensures
        r == json_u64_member(text@, key@),
        forall|n: u64|
            plain_key(key@) && text@ == #[trigger] single_member_document(key@, n) ==> r == Some(
                n,
            ),
{
    match serde_json::from_str::<serde_json::Value>(text) {
        Ok(value) => value[key].as_u64(),
        Err(_) => None,
    }
}

/// The haptic level stored in the headset state, given the member read from
/// it: the member truncated to its low byte, or the default when absent.
pub open spec fn spec_haptic_level(member: Option<u64>) -> u8 {
    match member {
        Some(n) => n as u8,
        None => DEFAULT_HAPTIC_LEVEL,
    }
}

/// The haptic level for the member `kraken_haptic_level` read from the
/// headset state (its low byte), or [`DEFAULT_HAPTIC_LEVEL`] when there is
/// none.
pub fn haptic_level_from_member(member: Option<u64>) -> (level: u8)
    ensures
        level == spec_haptic_level(member),
{
    match member {
        Some(n) => {
            let level = (n % 256) as u8;
            assert(level == n as u8) by (bit_vector)
                requires
                    level == (n % 256) as u8,
            ;
            level
        },
        None => DEFAULT_HAPTIC_LEVEL,
    }
}

/// The headset state document saved for `level`:
/// `{"kraken_haptic_level":<level>}`.
pub open spec fn haptic_state_text(level: u8) -> Seq<char> {
    "{\"kraken_haptic_level\":"@ + decimal(level as nat) + seq!['}']
}

/// The haptic level saved in the headset state document `json`: the
/// member `kraken_haptic_level` when it is an unsigned integer, else
/// [`DEFAULT_HAPTIC_LEVEL`] (also for a document that is not JSON). A
/// document written by [`haptic_state_json`] gives its level back.
pub fn haptic_level_from_state(json: &str) -> (level: u8)
    ensures
        level == spec_haptic_level(json_u64_member(json@, "kraken_haptic_level"@)),
        forall|saved: u8| json@ == #[trigger] haptic_state_text(saved) ==> level == saved,
{
    let member = read_json_u64_member(json, "kraken_haptic_level");
    proof {
        reveal_strlit("kraken_haptic_level");
        reveal_strlit("{\"kraken_haptic_level\":");
        let key = "kraken_haptic_level"@;
        assert(plain_key(key));
        assert forall|saved: u8| json@ == #[trigger] haptic_state_text(saved) implies member == Some(
            saved as u64,
        ) by {
            assert(haptic_state_text(saved) =~= single_member_document(key, saved as u64));
        }
    }
    haptic_level_from_member(member)
}

/// The headset state document for `level`:
/// `{"kraken_haptic_level":<level>}`.
pub fn haptic_state_json(level: u8) -> (s: String)
    ensures
        s@ == haptic_state_text(level),
{
    let mut s = "{\"kraken_haptic_level\":".to_owned();
    append_decimal(&mut s, level as u64);
    s.append("}");
    proof {
        reveal_strlit("}");
        assert(s@ =~= "{\"kraken_haptic_level\":"@ + decimal(level as nat) + seq!['}']);
    }
    s
}

} // verus!
