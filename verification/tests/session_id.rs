use spark_connect::SessionId;

#[test]
fn nil_session_text() {
    assert_eq!(SessionId(0).to_text(), "00000000-0000-0000-0000-000000000000");
}

#[test]
fn session_text_is_hyphenated_lower_hex() {
    let id = SessionId(0x67e5_5044_10b1_426f_9247_bb68_0e5f_e0c8);
    assert_eq!(id.to_text(), "67e55044-10b1-426f-9247-bb680e5fe0c8");
    assert_eq!(SessionId(u128::MAX).to_text(), "ffffffff-ffff-ffff-ffff-ffffffffffff");
}

#[test]
fn new_v4_sets_version_and_variant() {
    for _ in 0..64 {
        let id = SessionId::new_v4();
        assert_eq!((id.0 >> 76) & 0xf, 4);
        assert_eq!((id.0 >> 62) & 0x3, 2);
    }
}

#[test]
fn session_text_has_hyphens_at_fixed_places() {
    let text: Vec<char> = SessionId(0x0123_4567_89ab_cdef_0123_4567_89ab_cdef).to_text().chars().collect();
    assert_eq!(text.len(), 36);
    for (k, c) in text.iter().enumerate() {
        if [8, 13, 18, 23].contains(&k) {
            assert_eq!(*c, '-');
        } else {
            assert!(c.is_ascii_digit() || ('a'..='f').contains(c));
        }
    }
}

#[test]
fn distinct_sessions_have_distinct_texts() {
    let a = SessionId(1 << 100);
    let b = SessionId(1 << 99);
    assert_ne!(a.to_text(), b.to_text());
    assert_eq!(a.to_text(), SessionId(1 << 100).to_text());
}
