use knowledgebase_repository::codes::{
    document_state_code, document_state_from_code, document_visibility_code,
    document_visibility_from_code, group_space_status_from_code, ingestion_state_code,
    ingestion_state_from_code, log_event_type_from_str, okf_bundle_file_type_code,
    okf_bundle_file_type_from_code, publish_state_from_str, review_state_from_str, RevisionOwner,
    source_type_from_value, space_knowledge_mode_code, space_status_code, version_state_code,
    version_state_from_code, IngestionJobState, KnowledgeDocumentState,
    KnowledgeDocumentVersionState, KnowledgeDocumentVisibility, KnowledgeMode,
    KnowledgeSourceType, KnowledgeSpaceStatus, OkfBundleFileKind, RevisionReviewState,
    WikiLogEventType, WikiPagePublishState,
};
use knowledgebase_repository::error::StoreError;
use knowledgebase_repository::sorting::sort_texts;
use knowledgebase_repository::text::{
    chars_of, contains_like_pattern, escaped_like_pattern, is_blank, is_whitespace, opt_clone,
    opt_eq, opt_eq_str, require_safe_drive_id, str_eq, take_first_chars, trim,
};

#[test]
fn like_patterns_escape_wildcards() {
    assert_eq!(contains_like_pattern("a_b%c\\"), "%a\\_b\\%c\\\\%");
    assert_eq!(contains_like_pattern(""), "%%");
    assert_eq!(escaped_like_pattern("Wiki_Page"), "%wiki\\_page%");
    assert_eq!(escaped_like_pattern("ÄB%"), "%äb\\%%");
}

#[test]
fn trimming_follows_unicode_whitespace() {
    assert_eq!(trim("  a b \t\n"), "a b");
    assert_eq!(trim("\u{3000}x\u{a0}"), "x");
    assert_eq!(trim("\u{200b}x"), "\u{200b}x");
    assert!(is_whitespace('\u{2009}'));
    assert!(!is_whitespace('x'));
    assert!(is_blank(" \t"));
    assert!(is_blank(""));
    assert!(!is_blank(" a "));
    assert!(str_eq("abc", "abc"));
    assert!(!str_eq("abc", "abd"));
    assert!(!str_eq("abc", "ab"));
    assert_eq!(take_first_chars("héllo", 2), "hé");
    assert_eq!(take_first_chars("hi", 5), "hi");
    assert_eq!(chars_of("añ"), vec!['a', 'ñ']);
}

#[test]
fn optional_texts_compare_by_content() {
    let a = Some("x".to_string());
    assert!(opt_eq(&a, &Some("x".to_string())));
    assert!(!opt_eq(&a, &None));
    assert!(opt_eq(&None, &None));
    assert!(opt_eq_str(&a, "x"));
    assert!(!opt_eq_str(&None, "x"));
    assert_eq!(opt_clone(&a), a);
}

#[test]
fn drive_ids_are_trimmed_and_restricted() {
    assert_eq!(require_safe_drive_id(" node-1.v_2 ", "drive_node_id").unwrap(), "node-1.v_2");
    assert!(matches!(require_safe_drive_id("a/b", "drive_node_id"), Err(StoreError::Internal(_))));
    assert!(matches!(require_safe_drive_id("  ", "drive_node_id"), Err(StoreError::Internal(_))));
    assert!(require_safe_drive_id(&"a".repeat(129), "drive_node_id").is_err());
}

#[test]
fn texts_sort_by_code_points() {
    let sorted = sort_texts(&vec!["b".to_string(), "B".to_string(), "a".to_string(), "ab".to_string()]);
    assert_eq!(sorted, vec!["B".to_string(), "a".to_string(), "ab".to_string(), "b".to_string()]);
    assert!(sort_texts(&Vec::new()).is_empty());
}

#[test]
fn numeric_codes_round_trip() {
    assert_eq!(space_status_code(KnowledgeSpaceStatus::Archived), 2);
    assert_eq!(group_space_status_from_code(0).unwrap(), KnowledgeSpaceStatus::Provisioning);
    assert!(matches!(group_space_status_from_code(4), Err(StoreError::Internal(_))));
    for v in [
        KnowledgeDocumentVisibility::Private,
        KnowledgeDocumentVisibility::Space,
        KnowledgeDocumentVisibility::Organization,
        KnowledgeDocumentVisibility::Public,
    ] {
        assert_eq!(document_visibility_from_code(document_visibility_code(v)).unwrap(), v);
    }
    assert_eq!(document_state_code(KnowledgeDocumentState::Ready), 1);
    assert_eq!(document_state_from_code(3).unwrap(), KnowledgeDocumentState::Deleted);
    assert!(document_state_from_code(-1).is_err());
    assert_eq!(version_state_code(KnowledgeDocumentVersionState::Failed), 3);
    assert_eq!(version_state_from_code(0).unwrap(), KnowledgeDocumentVersionState::Pending);
    assert_eq!(ingestion_state_code(IngestionJobState::Cancelled), 4);
    assert_eq!(ingestion_state_from_code(1).unwrap(), IngestionJobState::Running);
    assert!(matches!(ingestion_state_from_code(5), Err(StoreError::Internal(_))));
}

#[test]
fn text_codes_round_trip() {
    assert_eq!(okf_bundle_file_type_code(OkfBundleFileKind::GraphExport), "graph_export");
    assert_eq!(okf_bundle_file_type_from_code("bundle_log").unwrap(), OkfBundleFileKind::BundleLog);
    assert!(okf_bundle_file_type_from_code("bundle").is_err());
    assert_eq!(publish_state_from_str(RevisionOwner::WikiPage, "needs_review").unwrap(), WikiPagePublishState::NeedsReview);
    assert_eq!(review_state_from_str(RevisionOwner::WikiPage, "approved").unwrap(), RevisionReviewState::Approved);
    assert!(review_state_from_str(RevisionOwner::OkfConcept, "Approved").is_err());
    assert_eq!(log_event_type_from_str("delta_update").unwrap(), WikiLogEventType::DeltaUpdate);
    assert_eq!(source_type_from_value("drive_folder").unwrap(), KnowledgeSourceType::DriveFolder);
    assert!(source_type_from_value("ftp").is_err());
    assert_eq!(space_knowledge_mode_code(KnowledgeMode::OkfBundle), "okf_bundle");
}
