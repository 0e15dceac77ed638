use fcsrv::checksum::file_sha256;
use fcsrv::store::{
    Action, Backend, Event, Fetch, FetchStore, GithubStore, ONNXStore, R2Store, ResolveError,
};

fn r2() -> FetchStore {
    FetchStore::new(ONNXStore::R2 {
        bucket_name: "models".to_string(),
        cloudflare_kv_uri: "https://kv.example".to_string(),
        cloudflare_kv_client_id: "client".to_string(),
        cloudflare_kv_secret: "SECRET-REDACTED".to_string(),
    })
}

#[test]
fn digest_of_abc() {
    assert_eq!(
        file_sha256(b"abc"),
        "ba7816bf8f01cfea414140de5dae2223b00361a396177a9cb410ff61f20015ad"
    );
    assert_eq!(
        file_sha256(b""),
        "e3b0c44298fc1c149afbf4c8996fb92427ae41e4649b934ca495991b7852b855"
    );
}

#[test]
fn digest_is_lowercase_hex() {
    let d = file_sha256(b"model bytes");
    assert_eq!(d.len(), 64);
    assert!(d.chars().all(|c| c.is_ascii_digit() || ('a'..='f').contains(&c)));
}

#[test]
fn model_paths_join_like_unix_paths() {
    let store = FetchStore::new(ONNXStore::Github);
    assert_eq!(store.fetch_model("demo.onnx", "/cache/", false).path(), "/cache/demo.onnx");
    assert_eq!(store.fetch_model("demo.onnx", "", false).path(), "demo.onnx");
    assert_eq!(store.fetch_model("/abs/demo.onnx", "/cache", false).path(), "/abs/demo.onnx");
}

#[test]
fn default_store_is_repository() {
    assert_eq!(ONNXStore::default(), ONNXStore::Github);
    let store = FetchStore::new(ONNXStore::default());
    assert_eq!(store.backend(), Backend::Repository);
}

#[test]
fn r2_settings_are_kept() {
    match r2() {
        FetchStore::R2(R2Store { bucket_name, kv_uri, kv_client_id, kv_secret }) => {
            assert_eq!(bucket_name, "models");
            assert_eq!(kv_uri, "https://kv.example");
            assert_eq!(kv_client_id, "client");
            assert_eq!(kv_secret, "SECRET-REDACTED");
        }
        FetchStore::Github(GithubStore) => panic!("expected the object store"),
    }
    assert_eq!(r2().backend(), Backend::ObjectStorage);
}

#[test]
fn cached_model_without_update_check() {
    let store = FetchStore::new(ONNXStore::Github);
    let mut s = store.fetch_model("demo.onnx", "/cache", false);
    assert_eq!(s.path(), "/cache/demo.onnx");
    match s.step(Event::LocalPresence(true)) {
        Action::Done(p) => assert_eq!(p, "/cache/demo.onnx"),
        _ => panic!("expected the cached path"),
    }
    assert_eq!(s.backend_calls(), 0);
    assert!(s.is_finished());
}

#[test]
fn cached_model_without_update_check_object_store() {
    let mut s = r2().fetch_model("demo.onnx", "/cache", false);
    assert!(matches!(s.step(Event::LocalPresence(true)), Action::Done(_)));
    assert_eq!(s.backend_calls(), 0);
}

#[test]
fn repository_never_rechecks_cached_model() {
    let store = FetchStore::new(ONNXStore::Github);
    let mut s = store.fetch_model("demo.onnx", "/cache", true);
    match s.step(Event::LocalPresence(true)) {
        Action::Done(p) => assert_eq!(p, "/cache/demo.onnx"),
        _ => panic!("expected the cached path"),
    }
    assert_eq!(s.backend_calls(), 0);
}

#[test]
fn matching_digest_skips_download() {
    let local = b"model v1".to_vec();
    let mut s = r2().fetch_model("demo.onnx", "/cache", true);
    assert!(matches!(s.step(Event::LocalPresence(true)), Action::QueryIndex));
    let digest = file_sha256(&local);
    assert!(matches!(s.step(Event::IndexDigest(Some(digest))), Action::ReadLocal));
    match s.step(Event::LocalContents(Some(local))) {
        Action::Done(p) => assert_eq!(p, "/cache/demo.onnx"),
        _ => panic!("expected the cached path"),
    }
    // only the index was asked
    assert_eq!(s.backend_calls(), 1);
}

#[test]
fn differing_digest_downloads_again() {
    let local = b"def456 contents".to_vec();
    let fetched = b"abc123 contents".to_vec();
    let mut s = r2().fetch_model("demo.onnx", "/cache", true);
    assert!(matches!(s.step(Event::LocalPresence(true)), Action::QueryIndex));
    let expected = "abc123".to_string();
    assert_ne!(file_sha256(&local), expected);
    assert!(matches!(s.step(Event::IndexDigest(Some(expected))), Action::ReadLocal));
    assert!(matches!(s.step(Event::LocalContents(Some(local))), Action::Download));
    match s.step(Event::Downloaded(Some(fetched.clone()))) {
        Action::Persist(bytes) => {
            assert_eq!(bytes, fetched);
            assert_eq!(file_sha256(&bytes), file_sha256(&fetched));
        }
        _ => panic!("expected the fetched bytes to be stored"),
    }
    match s.step(Event::Persisted(true)) {
        Action::Done(p) => assert_eq!(p, "/cache/demo.onnx"),
        _ => panic!("expected the model path"),
    }
    assert_eq!(s.backend_calls(), 2);
}

#[test]
fn index_failure_forces_download() {
    let mut s = r2().fetch_model("demo.onnx", "/cache", true);
    s.step(Event::LocalPresence(true));
    assert!(matches!(s.step(Event::IndexDigest(None)), Action::Download));
    assert_eq!(s.backend_calls(), 2);
}

#[test]
fn unreadable_local_file_forces_download() {
    let mut s = r2().fetch_model("demo.onnx", "/cache", true);
    s.step(Event::LocalPresence(true));
    s.step(Event::IndexDigest(Some("abc123".to_string())));
    assert!(matches!(s.step(Event::LocalContents(None)), Action::Download));
}

#[test]
fn missing_model_is_downloaded() {
    let store = FetchStore::new(ONNXStore::Github);
    let mut s = store.fetch_model("demo.onnx", "/cache", false);
    assert!(matches!(s.step(Event::LocalPresence(false)), Action::Download));
    assert_eq!(s.backend_calls(), 1);
    assert!(matches!(s.step(Event::Downloaded(Some(vec![1, 2, 3]))), Action::Persist(_)));
}

#[test]
fn failed_fetch_is_reported() {
    let mut s = r2().fetch_model("demo.onnx", "/cache", false);
    s.step(Event::LocalPresence(false));
    assert!(matches!(
        s.step(Event::Downloaded(None)),
        Action::Failed(ResolveError::FetchFailed)
    ));
    assert!(s.is_finished());
}

#[test]
fn empty_fetch_is_a_failure() {
    let mut s = r2().fetch_model("demo.onnx", "/cache", false);
    s.step(Event::LocalPresence(false));
    assert!(matches!(
        s.step(Event::Downloaded(Some(Vec::new()))),
        Action::Failed(ResolveError::FetchFailed)
    ));
}

#[test]
fn failed_write_is_reported() {
    let mut s = r2().fetch_model("demo.onnx", "/cache", false);
    s.step(Event::LocalPresence(false));
    s.step(Event::Downloaded(Some(vec![7])));
    assert!(matches!(
        s.step(Event::Persisted(false)),
        Action::Failed(ResolveError::IOFailure)
    ));
}

#[test]
fn event_out_of_order_fails() {
    let mut s = r2().fetch_model("demo.onnx", "/cache", true);
    assert!(matches!(
        s.step(Event::Persisted(true)),
        Action::Failed(ResolveError::OutOfOrder)
    ));
    assert!(s.is_finished());
}
