use knowledgebase_repository::codes::{
    knowledge_mode_from_str, page_type_from_str, space_knowledge_mode_from_row,
    space_status_from_code, KnowledgeMode, KnowledgeSpaceStatus, WikiPageType,
};
use knowledgebase_repository::error::StoreError;
use knowledgebase_repository::hashing::sha256_hash;
use knowledgebase_repository::ids::{from_i64, new_uuid, to_i64};
use knowledgebase_repository::json::is_valid_json;
use knowledgebase_repository::outbox::truncate_outbox_error;
use knowledgebase_repository::text::{
    bool_code, bundle_relative_path_from_logical_path, escaped_like_pattern, normalize_locale,
    require_sha256, require_text, truncate_error_code, validate_relative_path,
};

#[test]
fn truncates_unicode_error_without_splitting_utf8() {
    let message = "上游错误".repeat(400);
    let truncated = truncate_outbox_error(&message);

    assert_eq!(truncated.chars().count(), 1024);
    assert!(message.starts_with(&truncated));
}

#[test]
fn short_outbox_error_is_kept_whole() {
    assert_eq!(truncate_outbox_error("timeout"), "timeout");
}

#[test]
fn error_codes_are_cut_to_sixty_four_characters() {
    let long = "é".repeat(100);
    let cut = truncate_error_code(&long);
    assert_eq!(cut.chars().count(), 64);
    assert!(long.starts_with(&cut));
    assert_eq!(truncate_error_code("E_STALE"), "E_STALE");
}

#[test]
fn signed_identifier_conversions() {
    assert_eq!(to_i64("id", 42).unwrap(), 42);
    assert_eq!(to_i64("id", i64::MAX as u64).unwrap(), i64::MAX);
    assert!(matches!(to_i64("id", i64::MAX as u64 + 1), Err(StoreError::InvalidRequest(_))));
    assert_eq!(from_i64("id", 7).unwrap(), 7);
    assert!(matches!(from_i64("id", -1), Err(StoreError::Internal(_))));
}

#[test]
fn boolean_codes() {
    assert_eq!(bool_code(true), 1);
    assert_eq!(bool_code(false), 0);
}

#[test]
fn locale_is_trimmed_or_empty() {
    assert_eq!(normalize_locale(None).unwrap(), "");
    assert_eq!(normalize_locale(Some("  zh-CN ")).unwrap(), "zh-CN");
    assert!(matches!(normalize_locale(Some("   ")), Err(StoreError::InvalidRequest(_))));
    assert!(matches!(
        normalize_locale(Some(&"x".repeat(36))),
        Err(StoreError::InvalidRequest(_))
    ));
}

#[test]
fn like_pattern_escapes_wildcards_and_lowercases() {
    assert_eq!(escaped_like_pattern("Hello"), "%hello%");
    assert_eq!(escaped_like_pattern("50%_off\\"), "%50\\%\\_off\\\\%");
}

#[test]
fn bundle_paths_drop_the_okf_prefix() {
    assert_eq!(bundle_relative_path_from_logical_path("okf/concepts/a.md"), "concepts/a.md");
    assert_eq!(bundle_relative_path_from_logical_path("wiki/index.md"), "wiki/index.md");
}

#[test]
fn required_text_is_trimmed_and_bounded() {
    assert_eq!(require_text("f", "  abc ", 3).unwrap(), "abc");
    assert!(matches!(require_text("f", "abcd", 3), Err(StoreError::InvalidRequest(_))));
    assert!(matches!(require_text("f", " \t", 3), Err(StoreError::InvalidRequest(_))));
}

#[test]
fn sha256_references_are_checked() {
    let good = format!("sha256:{}", "a".repeat(64));
    assert!(require_sha256("d", &good).is_ok());
    let upper = format!("sha256:{}", "A".repeat(64));
    assert!(require_sha256("d", &upper).is_err());
    assert!(require_sha256("d", "sha256:abc").is_err());
    assert!(require_sha256("d", &format!("md5:{}", "a".repeat(64))).is_err());
}

#[test]
fn relative_paths_must_be_normalized() {
    assert_eq!(validate_relative_path(" docs/a.md ").unwrap(), "docs/a.md");
    for bad in ["/abs", "a//b", "a/./b", "a/../b", "a\\b", "a/"] {
        assert!(validate_relative_path(bad).is_err(), "{bad}");
    }
}

#[test]
fn sha256_of_text_matches_the_standard_vector() {
    assert_eq!(
        sha256_hash("abc"),
        "ba7816bf8f01cfea414140de5dae2223b00361a396177a9cb410ff61f20015ad"
    );
    assert_ne!(sha256_hash("abc"), "abc");
}

#[test]
fn json_validity_follows_serde_json() {
    assert!(is_valid_json("{\"a\":1}"));
    assert!(is_valid_json("[1,2]"));
    assert!(!is_valid_json("{a:1}"));
}

#[test]
fn new_uuids_are_hyphenated_and_distinct() {
    let a = new_uuid();
    let b = new_uuid();
    assert_eq!(a.len(), 36);
    assert_ne!(a, b);
}

#[test]
fn code_tables_round_trip() {
    assert_eq!(space_status_from_code(1).unwrap(), KnowledgeSpaceStatus::Active);
    assert!(matches!(space_status_from_code(0), Err(StoreError::Internal(_))));
    assert_eq!(page_type_from_str("how_to").unwrap(), WikiPageType::HowTo);
    assert!(page_type_from_str("HowTo").is_err());
    assert_eq!(knowledge_mode_from_str("rag").unwrap(), KnowledgeMode::Rag);
    assert_eq!(space_knowledge_mode_from_row(None).unwrap(), KnowledgeMode::OkfBundle);
    assert!(space_knowledge_mode_from_row(Some("vector")).is_err());
}

#[test]
fn identifier_conversions_name_the_field() {
    assert!(matches!(to_i64("space_id", u64::MAX), Err(StoreError::InvalidRequest(m)) if m == "space_id is out of range"));
    assert!(matches!(from_i64("version", -1), Err(StoreError::Internal(m)) if m == "version is negative"));
    assert_eq!(from_i64("id", to_i64("id", 42).unwrap()).unwrap(), 42);
}

#[test]
fn new_uuids_are_lowercase_version_four() {
    for _ in 0..32 {
        let id = new_uuid();
        let chars: Vec<char> = id.chars().collect();
        assert_eq!(chars.len(), 36);
        for (i, c) in chars.iter().enumerate() {
            if i == 8 || i == 13 || i == 18 || i == 23 {
                assert_eq!(*c, '-');
            } else {
                assert!(c.is_ascii_digit() || ('a'..='f').contains(c), "{id}");
            }
        }
        assert_eq!(chars[14], '4');
        assert!(matches!(chars[19], '8' | '9' | 'a' | 'b'));
    }
}
