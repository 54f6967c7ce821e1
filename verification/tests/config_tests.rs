use synaptix::config::{
    haptic_level_from_member, haptic_level_from_state, haptic_state_json, DEFAULT_HAPTIC_LEVEL,
};

#[test]
fn haptic_level_defaults_to_low() {
    assert_eq!(DEFAULT_HAPTIC_LEVEL, 33);
    assert_eq!(haptic_level_from_member(None), 33);
}

#[test]
fn haptic_level_read_from_state_document() {
    assert_eq!(haptic_level_from_state("{\"kraken_haptic_level\":66}"), 66);
    assert_eq!(haptic_level_from_state("{\"kraken_haptic_level\":0}"), 0);
    assert_eq!(haptic_level_from_state(" { \"other\": 1, \"kraken_haptic_level\": 100 } "), 100);
}

#[test]
fn haptic_level_falls_back_on_bad_documents() {
    assert_eq!(haptic_level_from_state(""), 33);
    assert_eq!(haptic_level_from_state("not json"), 33);
    assert_eq!(haptic_level_from_state("{}"), 33);
    assert_eq!(haptic_level_from_state("[66]"), 33);
    assert_eq!(haptic_level_from_state("{\"kraken_haptic_level\":-5}"), 33);
    assert_eq!(haptic_level_from_state("{\"kraken_haptic_level\":\"66\"}"), 33);
    assert_eq!(haptic_level_from_state("{\"kraken_haptic_level\":6.5}"), 33);
}

#[test]
fn haptic_level_keeps_low_byte() {
    assert_eq!(haptic_level_from_member(Some(300)), 44);
    assert_eq!(haptic_level_from_state("{\"kraken_haptic_level\":256}"), 0);
}

#[test]
fn haptic_state_document_round_trips() {
    assert_eq!(haptic_state_json(66), "{\"kraken_haptic_level\":66}");
    assert_eq!(haptic_state_json(0), "{\"kraken_haptic_level\":0}");
    for level in [0u8, 1, 33, 66, 100, 255] {
        assert_eq!(haptic_level_from_state(&haptic_state_json(level)), level);
    }
}
