use jgenesis::smsgg_config::cheats::{
    decode_game_genie, decode_pro_action_replay, ByteCheatCodeU16Address, SmsGgCheat,
    SmsGgCheatCodeType, SmsGgCheats,
};

#[test]
fn cheats_guess_code_type() {
    assert_eq!(SmsGgCheatCodeType::guess_from(""), None);

    assert_eq!(SmsGgCheatCodeType::guess_from("FFF-FFF"), Some(SmsGgCheatCodeType::GameGenie));
    assert_eq!(
        SmsGgCheatCodeType::guess_from("000-000-000"),
        Some(SmsGgCheatCodeType::GameGenie)
    );

    assert_eq!(
        SmsGgCheatCodeType::guess_from("00FF FFFF"),
        Some(SmsGgCheatCodeType::ProActionReplay)
    );
    assert_eq!(
        SmsGgCheatCodeType::guess_from("00FFFFFF"),
        Some(SmsGgCheatCodeType::ProActionReplay)
    );
}

#[test]
fn sms_game_genie_decoding() {
    assert_eq!(
        decode_game_genie("3A7-F7E"),
        Some(ByteCheatCodeU16Address { address: 0x17F7, value: 0x3A, reference: None })
    );
    assert_eq!(
        decode_game_genie("3A7-F7E-2AE"),
        Some(ByteCheatCodeU16Address { address: 0x17F7, value: 0x3A, reference: Some(0x31) })
    );
    assert_eq!(decode_game_genie("3A7F7E"), None);
    assert_eq!(decode_game_genie("3A7-F7E-2A"), None);
    assert_eq!(decode_game_genie("3A7-F7G"), None);
}

#[test]
fn sms_pro_action_replay_decoding() {
    let expected = Some(ByteCheatCodeU16Address { address: 0xC010, value: 0xFF, reference: None });
    assert_eq!(decode_pro_action_replay("00C010FF"), expected);
    assert_eq!(decode_pro_action_replay("00C0 10FF"), expected);
    assert_eq!(decode_pro_action_replay("00C0-10FF"), expected);
    assert_eq!(decode_pro_action_replay("00C0_10FF"), None);
    assert_eq!(decode_pro_action_replay("00C0XYFF"), None);
    assert_eq!(
        SmsGgCheatCodeType::ProActionReplay.decode("00C010FF"),
        expected
    );
}

#[test]
fn sms_cheats_skip_disabled_and_invalid_codes() {
    let cheat = SmsGgCheat {
        name: "Infinite lives".into(),
        enabled: true,
        codes: vec!["3A7-F7E".into(), "nonsense".into(), "00C010FF".into()],
    };
    let disabled = SmsGgCheat { name: "Off".into(), enabled: false, codes: vec!["00C010FF".into()] };
    assert_eq!(
        cheat.to_memory_override_vec(),
        vec![
            ByteCheatCodeU16Address { address: 0x17F7, value: 0x3A, reference: None },
            ByteCheatCodeU16Address { address: 0xC010, value: 0xFF, reference: None },
        ]
    );
    assert!(disabled.to_memory_override_vec().is_empty());
    let cheats = SmsGgCheats { cheats: vec![disabled, cheat] };
    assert_eq!(cheats.to_memory_override_vec().len(), 2);
    assert!(SmsGgCheat::default().enabled);
}
