use cas_server::cas_server::CasServer;
use cas_server::messages::{Digest, UpdateBlobRequest};
use cas_server::status::{CODE_INVALID_ARGUMENT, CODE_OK, CODE_UNIMPLEMENTED};
use cas_server::store::{MemStore, Store};

fn digest(hash: &str, size_bytes: i64) -> Digest {
    Digest { hash: String::from(hash), size_bytes }
}

fn item(hash: &str, size_bytes: i64, data: &[u8]) -> UpdateBlobRequest {
    UpdateBlobRequest { digest: Some(digest(hash, size_bytes)), data: data.to_vec() }
}

#[test]
fn upload_response_count_matches_request_count() {
    let mut server = CasServer::new(MemStore::new());
    let batch = vec![
        item("a", 1, b"x"),
        UpdateBlobRequest { digest: None, data: vec![] },
        item("b", 9, b"short"),
        item("c", 3, b"abc"),
    ];
    let resp = server.batch_update_blobs(batch);
    assert_eq!(resp.responses.len(), 4);

    let resp = server.batch_update_blobs(vec![]);
    assert_eq!(resp.responses.len(), 0);
}

#[test]
fn size_mismatch_fails_alone_and_leaves_other_items_intact() {
    let mut server = CasServer::new(MemStore::new());
    let batch = vec![item("bad", 5, b"abc"), item("good", 4, b"data")];
    let resp = server.batch_update_blobs(batch);
    assert_eq!(resp.responses.len(), 2);
    assert_eq!(resp.responses[0].status.code, CODE_INVALID_ARGUMENT);
    assert_eq!(
        resp.responses[0].status.message.as_str(),
        "Error: InvalidArgument: Digest for upload had mismatching sizes, digest said 5 data said 3"
    );
    assert_eq!(resp.responses[1].status.code, CODE_OK);
    assert_eq!(resp.responses[1].status.message.as_str(), "");
    // the well-formed item's blob is present, the mismatched one's is not
    assert_eq!(server.store.has(&String::from("good"), 4).unwrap(), true);
    assert_eq!(server.store.has(&String::from("bad"), 5).unwrap(), false);
}

#[test]
fn missing_digest_fails_alone_with_empty_echoed_digest() {
    let mut server = CasServer::new(MemStore::new());
    let batch = vec![UpdateBlobRequest { digest: None, data: vec![1, 2, 3] }, item("ok", 2, b"hi")];
    let resp = server.batch_update_blobs(batch);
    assert_eq!(resp.responses.len(), 2);
    assert!(resp.responses[0].digest.is_none());
    assert_eq!(resp.responses[0].status.code, CODE_INVALID_ARGUMENT);
    assert_eq!(
        resp.responses[0].status.message.as_str(),
        "Error: InvalidArgument: Digest not found in request"
    );
    assert_eq!(resp.responses[1].status.code, CODE_OK);
    assert_eq!(resp.responses[1].digest.as_ref().unwrap().hash.as_str(), "ok");
}

#[test]
fn unrepresentable_size_fails_alone() {
    let mut server = CasServer::new(MemStore::new());
    let resp = server.batch_update_blobs(vec![item("neg", -1, b"")]);
    assert_eq!(resp.responses[0].status.code, CODE_INVALID_ARGUMENT);
    assert_eq!(
        resp.responses[0].status.message.as_str(),
        "Error: InvalidArgument: Digest size_bytes was not convertable to usize"
    );
    assert_eq!(resp.responses[0].digest.as_ref().unwrap().hash.as_str(), "neg");
    assert_eq!(server.store.has(&String::from("neg"), -1).unwrap(), false);
}

#[test]
fn upload_echoes_original_digests_in_order() {
    let mut server = CasServer::new(MemStore::new());
    let batch = vec![item("first", 1, b"a"), item("second", 1, b"b")];
    let resp = server.batch_update_blobs(batch);
    assert_eq!(resp.responses[0].digest.as_ref().unwrap().hash.as_str(), "first");
    assert_eq!(resp.responses[1].digest.as_ref().unwrap().hash.as_str(), "second");
}

#[test]
fn find_missing_reports_exactly_the_unwritten_digests() {
    let mut server = CasServer::new(MemStore::new());
    let resp = server.batch_update_blobs(vec![item("present", 3, b"abc")]);
    assert_eq!(resp.responses[0].status.code, CODE_OK);

    let request = vec![digest("present", 3), digest("absent", 7), digest("absent", 7)];
    let found = server.find_missing_blobs(request).unwrap();
    // duplicates are preserved, first-seen order kept, present blobs dropped
    assert_eq!(found.missing_blob_digests.len(), 2);
    assert_eq!(found.missing_blob_digests[0].hash.as_str(), "absent");
    assert_eq!(found.missing_blob_digests[1].hash.as_str(), "absent");

    // idempotent: a second call with no intervening writes answers the same
    let request = vec![digest("present", 3), digest("absent", 7), digest("absent", 7)];
    let again = server.find_missing_blobs(request).unwrap();
    assert_eq!(again.missing_blob_digests.len(), 2);
    assert_eq!(again.missing_blob_digests[0].hash.as_str(), "absent");

    let empty = server.find_missing_blobs(vec![]).unwrap();
    assert_eq!(empty.missing_blob_digests.len(), 0);
}

#[test]
fn round_trip_uploaded_blob_is_not_missing() {
    let mut server = CasServer::new(MemStore::new());
    let resp = server.batch_update_blobs(vec![item("deadbeef", 5, b"hello")]);
    assert_eq!(resp.responses[0].status.code, CODE_OK);
    let found = server.find_missing_blobs(vec![digest("deadbeef", 5)]).unwrap();
    assert_eq!(found.missing_blob_digests.len(), 0);
}

#[test]
fn stubs_always_fail_unimplemented_and_never_touch_the_store() {
    let mut server = CasServer::new(MemStore::new());
    let r = server.batch_read_blobs(&vec![digest("x", 1)]);
    let st = r.err().unwrap();
    assert_eq!(st.code, CODE_UNIMPLEMENTED);
    assert_eq!(st.message.as_str(), "batch_read_blobs not yet implemented");

    let r = server.get_tree(&Some(digest("x", 1)));
    let st = r.err().unwrap();
    assert_eq!(st.code, CODE_UNIMPLEMENTED);
    assert_eq!(st.message.as_str(), "get_tree not yet implemented");

    let r = server.get_tree(&None);
    assert!(r.is_err());

    // nothing was written by either stub
    let found = server.find_missing_blobs(vec![digest("x", 1)]).unwrap();
    assert_eq!(found.missing_blob_digests.len(), 1);
}

#[test]
fn later_upload_under_same_hash_replaces_the_blob() {
    let mut server = CasServer::new(MemStore::new());
    server.batch_update_blobs(vec![item("k", 3, b"old")]);
    server.batch_update_blobs(vec![item("k", 5, b"newer")]);
    assert_eq!(server.store.read(&String::from("k"), 5).unwrap(), b"newer".to_vec());
}

#[test]
fn memstore_read_returns_written_bytes_or_not_found() {
    let mut store = MemStore::new();
    store.update(&String::from("h"), 2, vec![9, 8]).unwrap();
    assert_eq!(store.read(&String::from("h"), 2).unwrap(), vec![9, 8]);
    let err = store.read(&String::from("nope"), 0).err().unwrap();
    assert_eq!(err.kind, cas_server::status::StoreErrorKind::NotFound);
}

#[test]
fn same_batch_duplicate_hash_last_successful_write_wins() {
    let mut server = CasServer::new(MemStore::new());
    let resp = server.batch_update_blobs(vec![item("k", 1, b"a"), item("k", 1, b"b")]);
    assert_eq!(resp.responses[0].status.code, CODE_OK);
    assert_eq!(resp.responses[1].status.code, CODE_OK);
    assert_eq!(server.store.read(&String::from("k"), 1).unwrap(), b"b".to_vec());
}

#[test]
fn all_invalid_batch_never_touches_the_store() {
    let mut server = CasServer::new(MemStore::new());
    let resp = server.batch_update_blobs(vec![
        item("m", 9, b"abc"),
        UpdateBlobRequest { digest: None, data: vec![1] },
        item("n", -5, b""),
    ]);
    for record in &resp.responses {
        assert_eq!(record.status.code, CODE_INVALID_ARGUMENT);
    }
    let found = server
        .find_missing_blobs(vec![digest("m", 9), digest("n", -5)])
        .unwrap();
    assert_eq!(found.missing_blob_digests.len(), 2);
}
