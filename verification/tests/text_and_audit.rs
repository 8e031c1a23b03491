use kongswap_adaptor::audit::{clamp_string_len, serialize_reply_from_json, utf8_to_ascii_lossy, MAX_REPLY_SIZE_BYTES};
use kongswap_adaptor::principal::{icp_ledger_canister_id, kong_backend_canister_id, PrincipalId};

#[test]
fn clamp_keeps_short_strings() {
    assert_eq!(clamp_string_len("hello", 10), "hello");
    assert_eq!(clamp_string_len("hello", 5), "hello");
}

#[test]
fn clamp_removes_middle_characters() {
    assert_eq!(clamp_string_len("abcdefghij", 7), "ab...ij");
    assert_eq!(clamp_string_len("abcdefghij", 8), "abc...ij");
    assert_eq!(clamp_string_len("abcdefghij", 3), "abc");
    assert_eq!(clamp_string_len("ab", 3), "ab");
    assert_eq!(clamp_string_len("abcdef", 0), "");
    assert_eq!(clamp_string_len("ééééééé", 5), "é...é");
}

#[test]
fn ascii_lossy_replaces_non_ascii() {
    assert_eq!(utf8_to_ascii_lossy("naïve ✓"), "na?ve ?");
}

#[test]
fn serialized_reply_is_bounded() {
    let long = "x".repeat(2000);
    let out = serialize_reply_from_json(Some(long));
    assert_eq!(out.chars().count(), MAX_REPLY_SIZE_BYTES);
    assert!(out.contains("..."));
    assert_eq!(serialize_reply_from_json(None), "<Failed serializing reply>");
    assert_eq!(serialize_reply_from_json(Some("{\"a\":\"é\"}".to_string())), "{\"a\":\"?\"}");
}

#[test]
fn principal_text_round_trip() {
    let icp = icp_ledger_canister_id();
    assert_eq!(icp.to_text(), "ryjl3-tyaaa-aaaaa-aaaba-cai");
    assert_eq!(kong_backend_canister_id().to_text(), "2ipq2-uqaaa-aaaar-qailq-cai");
    let parsed = PrincipalId::from_text("ryjl3-tyaaa-aaaaa-aaaba-cai").unwrap();
    assert!(parsed.same_as(&icp));
    assert_eq!(parsed.as_bytes(), vec![0, 0, 0, 0, 0, 0, 0, 2, 1, 1]);
    assert!(PrincipalId::from_text("not a principal").is_none());
    assert!(PrincipalId::from_slice(&[0u8; 30]).is_none());
}

#[test]
fn clamping_twice_changes_nothing() {
    for max_len in [0usize, 2, 3, 4, 7, 8, 20] {
        let once = clamp_string_len("abcdefghijklmnop", max_len);
        assert!(once.chars().count() <= max_len);
        assert_eq!(clamp_string_len(&once, max_len), once);
    }
}

#[test]
fn ascii_text_is_kept_and_kept_replies_fit_in_bytes() {
    assert_eq!(utf8_to_ascii_lossy("plain ASCII ~"), "plain ASCII ~");
    let lossy = utf8_to_ascii_lossy("ü✓€");
    assert_eq!(lossy, "???");
    assert!(lossy.is_ascii());
    let wide = "✓".repeat(3000);
    let kept = serialize_reply_from_json(Some(wide));
    assert!(kept.is_ascii());
    assert!(kept.len() <= MAX_REPLY_SIZE_BYTES);
}
