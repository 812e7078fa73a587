use blob_gateway::digest;
use blob_gateway::get;
use blob_gateway::interpret_download;
use blob_gateway::interpret_upload;
use blob_gateway::put;
use blob_gateway::verification_query;
use blob_gateway::FetchOutcome;
use blob_gateway::Field;
use blob_gateway::MemBytesDaoImpl;
use blob_gateway::OracleAnswer;
use blob_gateway::PutError;
use blob_gateway::StoreAttemptOutcome;
use blob_gateway::StoreError;

#[test]
fn digest_is_deterministic() {
    let payload: Vec<u8> = vec![1, 2, 3, 10, 200];
    let first = digest(&payload);
    let second = digest(&payload);
    assert_eq!(first, second);
}

#[test]
fn digest_of_empty_payload() {
    // SHA-256 of the empty sequence, in standard padded base64.
    assert_eq!(digest(&[]), "47DEQpj8HBSa+/TImW+5JCeuQeRkm5NMpJWZG3hSuFU=");
}

#[test]
fn digest_depends_on_content() {
    assert_ne!(digest(&[1, 2, 3]), digest(&[1, 2, 4]));
    assert_ne!(digest(&[1, 2, 3]), digest(&[]));
}

#[test]
fn put_granted_then_get_returns_payload() {
    let payload: Vec<u8> = vec![1, 2, 3, 10, 200];
    let mut dao = MemBytesDaoImpl { state: Vec::new() };
    let answer = OracleAnswer::Recorded(digest(&payload));
    let result = put(&mut dao, payload.clone(), &answer);
    let id = result.expect("infrastructure ok").expect("write granted");
    assert_eq!(id, digest(&payload));
    assert_eq!(get(&dao, &id), Ok(Some(payload)));
}

#[test]
fn put_unset_field_is_denied() {
    let payload: Vec<u8> = vec![1, 2, 3, 10, 200];
    let mut dao = MemBytesDaoImpl { state: Vec::new() };
    let result = put(&mut dao, payload.clone(), &OracleAnswer::Unset);
    assert_eq!(result, Ok(None));
    assert_eq!(get(&dao, &digest(&payload)), Ok(None));
}

#[test]
fn put_mismatch_is_denied_and_stores_nothing() {
    let payload: Vec<u8> = vec![1, 2, 3, 10, 200];
    let mut dao = MemBytesDaoImpl { state: Vec::new() };
    let answer = OracleAnswer::Recorded("some other recorded value".to_owned());
    assert_eq!(put(&mut dao, payload.clone(), &answer), Ok(None));
    assert_eq!(get(&dao, &digest(&payload)), Ok(None));
}

#[test]
fn put_entity_not_found_is_denied() {
    let payload: Vec<u8> = vec![4, 5, 6];
    let mut dao = MemBytesDaoImpl { state: Vec::new() };
    assert_eq!(
        put(&mut dao, payload, &OracleAnswer::EntityNotFound),
        Ok(None)
    );
}

#[test]
fn put_with_unreachable_oracle_is_an_error() {
    let payload: Vec<u8> = vec![4, 5, 6];
    let mut dao = MemBytesDaoImpl { state: Vec::new() };
    assert_eq!(
        put(&mut dao, payload.clone(), &OracleAnswer::Unavailable),
        Err(PutError::OracleUnavailable)
    );
    assert_eq!(get(&dao, &digest(&payload)), Ok(None));
}

#[test]
fn put_twice_is_idempotent() {
    let payload: Vec<u8> = vec![1, 2, 3, 10, 200];
    let mut dao = MemBytesDaoImpl { state: Vec::new() };
    let answer = OracleAnswer::Recorded(digest(&payload));
    let first = put(&mut dao, payload.clone(), &answer)
        .expect("infrastructure ok")
        .expect("write granted");
    let second = put(&mut dao, payload.clone(), &answer)
        .expect("infrastructure ok")
        .expect("write granted");
    assert_eq!(first, second);
    assert_eq!(get(&dao, &first), Ok(Some(payload)));
}

#[test]
fn get_unknown_id_is_none_not_an_error() {
    let dao = MemBytesDaoImpl { state: Vec::new() };
    assert_eq!(get(&dao, "no such id"), Ok(None));
}

#[test]
fn verification_query_carries_the_content_id() {
    let payload: Vec<u8> = vec![1, 2, 3];
    let q = verification_query("entity-7".to_owned(), Field::ImageHash, &payload);
    assert_eq!(q.entity_id, "entity-7");
    assert_eq!(q.field, Field::ImageHash);
    assert_eq!(q.expected_hash, digest(&payload));
}

#[test]
fn remote_access_denied_reads_as_not_found() {
    let text = "service error: Unhandled(code: \"AccessDenied\", message: ...)"
        .as_bytes()
        .to_vec();
    assert_eq!(
        interpret_download(FetchOutcome::ServiceUnhandled(text)),
        Ok(None)
    );
}

#[test]
fn remote_no_such_key_reads_as_not_found() {
    assert_eq!(interpret_download(FetchOutcome::ServiceNoSuchKey), Ok(None));
}

#[test]
fn remote_other_unhandled_error_propagates() {
    let text = "service error: Unhandled(code: \"Throttled\")".as_bytes().to_vec();
    assert_eq!(
        interpret_download(FetchOutcome::ServiceUnhandled(text)),
        Err(StoreError::BackendUnavailable)
    );
}

#[test]
fn remote_fetch_returns_payload() {
    assert_eq!(
        interpret_download(FetchOutcome::Fetched(vec![7, 7, 7])),
        Ok(Some(vec![7, 7, 7]))
    );
}

#[test]
fn remote_transport_failures_propagate() {
    assert_eq!(
        interpret_download(FetchOutcome::Transport),
        Err(StoreError::BackendUnavailable)
    );
    assert_eq!(
        interpret_download(FetchOutcome::ServiceOther),
        Err(StoreError::BackendUnavailable)
    );
}

#[test]
fn remote_upload_outcomes() {
    assert_eq!(interpret_upload(StoreAttemptOutcome::Stored), Ok(()));
    assert_eq!(
        interpret_upload(StoreAttemptOutcome::Refused),
        Err(StoreError::BackendRejected)
    );
    assert_eq!(
        interpret_upload(StoreAttemptOutcome::Transport),
        Err(StoreError::BackendUnavailable)
    );
}

#[test]
fn substring_search_agrees_with_marker() {
    assert!(blob_gateway::is_access_denied_text(
        b"code: \"AccessDenied\""
    ));
    assert!(blob_gateway::is_access_denied_text(
        b"prefix code: \"AccessDenied\" suffix"
    ));
    assert!(!blob_gateway::is_access_denied_text(b"AccessDenied"));
    assert!(!blob_gateway::is_access_denied_text(b""));
    assert!(!blob_gateway::is_access_denied_text(
        b"code: \"accessdenied\""
    ));
}

#[test]
fn substring_search_on_plain_slices() {
    assert!(blob_gateway::contains_subslice(b"abcde", b"cd"));
    assert!(blob_gateway::contains_subslice(b"abcde", b""));
    assert!(blob_gateway::contains_subslice(b"abcde", b"abcde"));
    assert!(!blob_gateway::contains_subslice(b"abcde", b"ce"));
    assert!(!blob_gateway::contains_subslice(b"ab", b"abc"));
}

#[test]
fn frontend_host_by_environment() {
    assert_eq!(
        blob_gateway::frontend_host(&blob_gateway::Env::Local),
        "http://localhost:3000"
    );
    assert_eq!(
        blob_gateway::frontend_host(&blob_gateway::Env::Test),
        "http://foo.capi.finance"
    );
}
