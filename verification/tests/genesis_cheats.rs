use jgenesis::genesis_config::cheats::{
    decode_action_replay, decode_game_genie, decode_memory_override, GenesisCheat,
    GenesisCheatCodeType, GenesisCheats,
};

#[test]
fn test_decode_game_genie() {
    assert_eq!(decode_game_genie("97JT-EVSG"), Some((0x0251E6, 0xA8FF)));
    assert_eq!(decode_game_genie("AFJT-EVSG"), Some((0x0251E6, 0xA801)));

    assert_eq!(decode_game_genie(""), None);
    assert_eq!(decode_game_genie("AAAI-AAAA"), None);
}

#[test]
fn test_decode_pro_action_replay() {
    assert_eq!(decode_action_replay("98765-43210"), Some((0x987654, 0x1032)));
    assert_eq!(decode_action_replay("FFFFF-EABCD"), Some((0xFFFFFE, 0xCDAB)));

    assert_eq!(decode_action_replay(""), None);
    assert_eq!(decode_action_replay("QWERT-YUIOP"), None);
}

#[test]
fn test_decode_memory_override() {
    assert_eq!(decode_memory_override("987654:3210"), Some((0x987654, 0x3210)));
    assert_eq!(decode_memory_override("FFFFFE:ABCD"), Some((0xFFFFFE, 0xABCD)));

    assert_eq!(decode_memory_override(""), None);
    assert_eq!(decode_memory_override("QWERTY:UIOP"), None);
}

#[test]
fn guess_code_type() {
    assert_eq!(GenesisCheatCodeType::guess_from(""), None);
    assert_eq!(GenesisCheatCodeType::guess_from("ABCDEFGH"), None);

    assert_eq!(GenesisCheatCodeType::guess_from("ABCD-EFGH"), Some(GenesisCheatCodeType::GameGenie));
    assert_eq!(GenesisCheatCodeType::guess_from("abcd-efgh"), Some(GenesisCheatCodeType::GameGenie));
    assert_eq!(GenesisCheatCodeType::guess_from("ABCD-EFGI"), None);

    assert_eq!(
        GenesisCheatCodeType::guess_from("02468-ACEFF"),
        Some(GenesisCheatCodeType::ActionReplay)
    );
    assert_eq!(
        GenesisCheatCodeType::guess_from("02468-aceff"),
        Some(GenesisCheatCodeType::ActionReplay)
    );
    assert_eq!(
        GenesisCheatCodeType::guess_from("02468 ACEFF"),
        Some(GenesisCheatCodeType::ActionReplay)
    );

    assert_eq!(
        GenesisCheatCodeType::guess_from("02468A:CEFF"),
        Some(GenesisCheatCodeType::MemoryOverride)
    );
    assert_eq!(
        GenesisCheatCodeType::guess_from("02468a:ceff"),
        Some(GenesisCheatCodeType::MemoryOverride)
    );
}

#[test]
fn action_replay_accepts_plus_sign_like_from_str_radix() {
    // from_str_radix accepts a leading '+', so "+1234" parses as 0x1234
    assert_eq!(decode_action_replay("+1234-56789"), Some((0x12345, 0x8967)));
    assert_eq!(decode_memory_override("+12345:+321"), Some((0x12345, 0x321)));
    assert_eq!(decode_memory_override("-12345:0321"), None);
}

#[test]
fn pattern_test_feeds_code_type_choice() {
    assert_eq!(
        GenesisCheatCodeType::from_pattern_matches(true, true, true),
        Some(GenesisCheatCodeType::GameGenie)
    );
    assert_eq!(
        GenesisCheatCodeType::from_pattern_matches(false, true, true),
        Some(GenesisCheatCodeType::ActionReplay)
    );
    assert_eq!(
        GenesisCheatCodeType::from_pattern_matches(false, false, true),
        Some(GenesisCheatCodeType::MemoryOverride)
    );
    assert_eq!(GenesisCheatCodeType::from_pattern_matches(false, false, false), None);
}

#[test]
fn decode_by_code_type() {
    assert_eq!(GenesisCheatCodeType::GameGenie.decode("97JT-EVSG"), Some((0x0251E6, 0xA8FF)));
    assert_eq!(GenesisCheatCodeType::ActionReplay.decode("98765 43210"), Some((0x987654, 0x1032)));
    assert_eq!(GenesisCheatCodeType::MemoryOverride.decode("98765-43210"), None);
    assert_eq!(GenesisCheatCodeType::GameGenie.name(), "Game Genie");
}

#[test]
fn cheats_skip_disabled_and_invalid_codes() {
    let mut cheat = GenesisCheat::new("infinite lives".to_string());
    cheat.codes.push("97JT-EVSG".to_string());
    cheat.codes.push("not a code".to_string());
    cheat.codes.push("987654:3210".to_string());
    assert_eq!(cheat.to_memory_override_vec(), vec![(0x0251E6, 0xA8FF), (0x987654, 0x3210)]);

    let mut disabled = GenesisCheat::new("disabled".to_string());
    disabled.enabled = false;
    disabled.codes.push("FFFFFE:ABCD".to_string());
    assert_eq!(disabled.to_memory_override_vec(), vec![]);

    let mut cheats = GenesisCheats::default();
    cheats.cheats.push(cheat);
    cheats.cheats.push(disabled);
    let mut other = GenesisCheat::default();
    other.codes.push("FFFFF-EABCD".to_string());
    cheats.cheats.push(other);
    assert_eq!(
        cheats.to_memory_override_vec(),
        vec![(0x0251E6, 0xA8FF), (0x987654, 0x3210), (0xFFFFFE, 0xCDAB)]
    );
}
