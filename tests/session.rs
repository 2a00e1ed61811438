use certstore::{FindAction, FindEvent, FindParam, FindPhase, FindQuery, FindSession, PlatformError};

fn collect(session: &mut FindSession<u32>, handles: &[u32]) {
    for &h in handles {
        assert_eq!(session.step(FindEvent::Matched), FindAction::Duplicate);
        assert_eq!(session.step(FindEvent::Duplicated(h)), FindAction::FindNext);
    }
}

#[test]
fn absent_hash_gives_empty_success() {
    let mut s: FindSession<u32> = FindSession::new(FindQuery::by_sha1(&[0xAB; 20]));
    assert_eq!(s.action(), FindAction::FindNext);
    assert_eq!(s.step(FindEvent::Exhausted), FindAction::Finish);
    assert_eq!(s.into_outcome(), Some(Ok(vec![])));
}

#[test]
fn find_all_returns_every_match_in_order() {
    let mut s: FindSession<u32> = FindSession::new(FindQuery::all());
    assert_eq!(s.action(), FindAction::FindNext);
    collect(&mut s, &[7, 3, 9]);
    assert_eq!(s.step(FindEvent::Exhausted), FindAction::Finish);
    assert_eq!(s.into_outcome(), Some(Ok(vec![7, 3, 9])));
}

#[test]
fn repeated_search_on_same_matches_is_equal() {
    let run = || {
        let mut s: FindSession<u32> = FindSession::new(FindQuery::by_issuer_str("CA"));
        collect(&mut s, &[1, 2]);
        s.step(FindEvent::Exhausted);
        s.into_outcome()
    };
    assert_eq!(run(), run());
}

#[test]
fn match_is_duplicated_before_next_search() {
    let mut s: FindSession<u32> = FindSession::new(FindQuery::by_subject_str("x"));
    assert_eq!(s.step(FindEvent::Matched), FindAction::Duplicate);
    assert_eq!(s.phase(), FindPhase::Matched);
    // reports that do not answer the duplicate request change nothing
    assert_eq!(s.step(FindEvent::Exhausted), FindAction::Duplicate);
    assert_eq!(s.step(FindEvent::Matched), FindAction::Duplicate);
    assert_eq!(s.step(FindEvent::Duplicated(42)), FindAction::FindNext);
    assert_eq!(s.step(FindEvent::Exhausted), FindAction::Finish);
    assert_eq!(s.into_outcome(), Some(Ok(vec![42])));
}

#[test]
fn exact_name_search_encodes_in_two_phases() {
    let mut s: FindSession<u32> = FindSession::new(FindQuery::by_subject_name("CN=Test"));
    assert_eq!(s.action(), FindAction::MeasureName);
    assert!(matches!(s.param(), FindParam::Text(_)));
    assert_eq!(s.step(FindEvent::NameSize(5)), FindAction::EncodeName(5));
    assert_eq!(s.step(FindEvent::NameEncoded(vec![0x30, 3, 1, 2, 3])), FindAction::FindNext);
    match s.param() {
        FindParam::Blob(b) => assert_eq!(b, &vec![0x30, 3, 1, 2, 3]),
        other => panic!("expected the encoded name, got {:?}", other),
    }
    collect(&mut s, &[5]);
    assert_eq!(s.step(FindEvent::Exhausted), FindAction::Finish);
    assert_eq!(s.into_outcome(), Some(Ok(vec![5])));
}

#[test]
fn name_sizing_failure_never_reaches_encoding() {
    let err = PlatformError { code: -2146885628 };
    let mut s: FindSession<u32> = FindSession::new(FindQuery::by_issuer_name("not a name"));
    assert_eq!(s.action(), FindAction::MeasureName);
    assert_eq!(s.step(FindEvent::Failed(err)), FindAction::Finish);
    assert_eq!(s.step(FindEvent::NameSize(12)), FindAction::Finish);
    assert_eq!(s.phase(), FindPhase::Done);
    assert_eq!(s.into_outcome(), Some(Err(err)));
}

#[test]
fn name_filling_failure_ends_search() {
    let err = PlatformError { code: 87 };
    let mut s: FindSession<u32> = FindSession::new(FindQuery::by_subject_name("CN=a"));
    assert_eq!(s.step(FindEvent::NameSize(9)), FindAction::EncodeName(9));
    assert_eq!(s.step(FindEvent::Failed(err)), FindAction::Finish);
    assert_eq!(s.into_outcome(), Some(Err(err)));
}

#[test]
fn failure_while_searching_discards_matches() {
    let err = PlatformError { code: 5 };
    let mut s: FindSession<u32> = FindSession::new(FindQuery::all());
    collect(&mut s, &[1, 2]);
    assert_eq!(s.step(FindEvent::Failed(err)), FindAction::Finish);
    assert_eq!(s.step(FindEvent::Matched), FindAction::Finish);
    assert_eq!(s.into_outcome(), Some(Err(err)));
}

#[test]
fn outcome_is_none_before_the_end() {
    let mut s: FindSession<u32> = FindSession::new(FindQuery::all());
    collect(&mut s, &[1]);
    assert_eq!(s.into_outcome(), None);
}

#[test]
fn stray_events_repeat_the_pending_action() {
    let mut s: FindSession<u32> = FindSession::new(FindQuery::by_subject_name("CN=a"));
    assert_eq!(s.step(FindEvent::Matched), FindAction::MeasureName);
    assert_eq!(s.step(FindEvent::Duplicated(1)), FindAction::MeasureName);
    assert_eq!(s.step(FindEvent::NameEncoded(vec![1])), FindAction::MeasureName);
    assert_eq!(s.step(FindEvent::NameSize(3)), FindAction::EncodeName(3));
    assert_eq!(s.step(FindEvent::NameSize(4)), FindAction::EncodeName(3));
    assert_eq!(s.step(FindEvent::Exhausted), FindAction::EncodeName(3));
}
