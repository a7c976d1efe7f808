use ncmc::music_id::MusicId;

#[test]
fn music_id_from_text() {
    assert_eq!(MusicId::from_text("28254848"), MusicId::Num(28254848));
    assert_eq!(MusicId::from_text("+5"), MusicId::Num(5));
    assert_eq!(MusicId::from_text("0"), MusicId::Num(0));
    assert_eq!(MusicId::from_text("4294967295"), MusicId::Num(u32::MAX));
    assert_eq!(MusicId::from_text("4294967296"), MusicId::Str("4294967296".to_string()));
    assert_eq!(MusicId::from_text("99999999999999999999"), MusicId::Str("99999999999999999999".to_string()));
    assert_eq!(MusicId::from_text(""), MusicId::Str(String::new()));
    assert_eq!(MusicId::from_text("+"), MusicId::Str("+".to_string()));
    assert_eq!(MusicId::from_text("-1"), MusicId::Str("-1".to_string()));
    assert_eq!(MusicId::from_text("12a"), MusicId::Str("12a".to_string()));
    assert_eq!(MusicId::from_text(" 12"), MusicId::Str(" 12".to_string()));
}

#[test]
fn music_id_agrees_with_std_parse() {
    for s in ["1", "+0", "00042", "4294967295", "4294967296", "++1", "1+", "", "abc", "٣"] {
        let expected = match s.parse::<u32>() {
            Ok(v) => MusicId::Num(v),
            Err(_) => MusicId::Str(s.to_string()),
        };
        assert_eq!(MusicId::from_text(s), expected, "{}", s);
    }
}

#[test]
fn music_id_from_number() {
    assert_eq!(MusicId::from_number(1483150397), MusicId::Num(1483150397));
    assert_eq!(MusicId::from_number((1u64 << 32) + 7), MusicId::Num(7));
    assert_eq!(MusicId::from_number(u64::MAX), MusicId::Num(u32::MAX));
}
