use certstore::{open_flags, CertStoreType, FindKind, FindParam, FindQuery, ImportRequest, OpenRequest};

fn text_of(q: &FindQuery) -> Vec<u16> {
    match &q.param {
        FindParam::Text(t) => t.clone(),
        other => panic!("expected wide text, got {:?}", other),
    }
}

#[test]
fn scope_flags_are_shifted_location_ids() {
    assert_eq!(CertStoreType::LocalMachine.as_flags(), 0x2_0000);
    assert_eq!(CertStoreType::CurrentUser.as_flags(), 0x1_0000);
    assert_eq!(CertStoreType::CurrentService.as_flags(), 0x4_0000);
}

#[test]
fn open_flags_add_open_existing() {
    assert_eq!(open_flags(CertStoreType::LocalMachine), 0x2_4000);
    assert_eq!(open_flags(CertStoreType::CurrentUser), 0x1_4000);
    assert_eq!(open_flags(CertStoreType::CurrentService), 0x4_4000);
}

#[test]
fn open_request_for_my_store() {
    let r = OpenRequest::new(CertStoreType::CurrentUser, "MY");
    assert_eq!(r.flags, 0x1_4000);
    assert_eq!(r.name, vec![77, 89, 0]);
}

#[test]
fn open_request_for_empty_name() {
    let r = OpenRequest::new(CertStoreType::LocalMachine, "");
    assert_eq!(r.name, vec![0]);
}

#[test]
fn import_request_flags_and_password() {
    let r = ImportRequest::new("pw");
    assert_eq!(r.flags, 0x111);
    assert_eq!(r.password, vec![112, 119, 0]);
}

#[test]
fn substring_queries_carry_wide_text() {
    let q = FindQuery::by_subject_str("CN=a");
    assert_eq!(q.kind, FindKind::SubjectStr);
    assert_eq!(text_of(&q), vec![67, 78, 61, 97, 0]);
    let q = FindQuery::by_issuer_str("Root");
    assert_eq!(q.kind, FindKind::IssuerStr);
    assert_eq!(text_of(&q), vec![82, 111, 111, 116, 0]);
}

#[test]
fn name_queries_carry_wide_text_to_encode() {
    let q = FindQuery::by_subject_name("CN=x");
    assert_eq!(q.kind, FindKind::SubjectName);
    assert_eq!(text_of(&q), vec![67, 78, 61, 120, 0]);
    let q = FindQuery::by_issuer_name("O=y");
    assert_eq!(q.kind, FindKind::IssuerName);
    assert_eq!(text_of(&q), vec![79, 61, 121, 0]);
}

#[test]
fn wide_text_stops_at_first_nul() {
    let q = FindQuery::by_subject_str("ab\u{0}cd");
    assert_eq!(text_of(&q), vec![97, 98, 0]);
}

#[test]
fn wide_text_encodes_supplementary_chars_as_surrogates() {
    let q = FindQuery::by_subject_str("\u{1F600}\u{e9}");
    assert_eq!(text_of(&q), vec![0xD83D, 0xDE00, 0xE9, 0]);
}

#[test]
fn sha1_query_passes_bytes_unchanged() {
    let hash: Vec<u8> = (0u8..20).collect();
    let q = FindQuery::by_sha1(&hash);
    assert_eq!(q.kind, FindKind::Hash);
    match q.param {
        FindParam::Blob(b) => assert_eq!(b, hash),
        other => panic!("expected a blob, got {:?}", other),
    }
}

#[test]
fn all_query_has_no_parameter() {
    let q = FindQuery::all();
    assert_eq!(q.kind, FindKind::Any);
    assert!(matches!(q.param, FindParam::Absent));
}

#[test]
fn only_exact_name_kinds_need_encoding() {
    assert!(FindKind::SubjectName.by_name());
    assert!(FindKind::IssuerName.by_name());
    assert!(!FindKind::SubjectStr.by_name());
    assert!(!FindKind::IssuerStr.by_name());
    assert!(!FindKind::Hash.by_name());
    assert!(!FindKind::Any.by_name());
}
