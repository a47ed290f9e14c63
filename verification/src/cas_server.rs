//! The CAS protocol adapter: validates and batches digest-identified
//! requests, translates them into store operations, and reassembles
//! per-item outcomes.

use vstd::prelude::*;

use crate::messages::{
    item_valid, missing_of, validation_description, BatchReadBlobsResponse,
    BatchUpdateBlobsResponse, Digest, FindMissingBlobsResponse, GetTreeResponse,
    UpdateBlobRequest, UpdateBlobResponse,
};
use crate::numfmt::u64_to_string;
use crate::status::{
    error_message, is_failure_status, is_ok_status, result_to_status, GrpcStatus, StoreError,
    StoreErrorKind, CODE_INVALID_ARGUMENT, CODE_UNIMPLEMENTED,
};
use crate::store::Store;

verus! {

/// The hash of an upload item's digest, empty when the digest is absent.
pub open spec fn item_hash(req: UpdateBlobRequest) -> Seq<char> {
    match req.digest {
        Some(d) => d.hash@,
        None => Seq::<char>::empty(),
    }
}

/// The protocol adapter. It holds the one store handle for its lifetime and
/// is stateless per request: each operation reads or writes only the store.
pub struct CasServer<S: Store> {
    pub store: S,
}

impl<S: Store> CasServer<S> {
    /// Wires the adapter to its store.
    pub fn new(store: S) -> (server: CasServer<S>)
        ensures
            server.store == store,
    {
        CasServer { store }
    }

    /// Checks each digest of the batch against the store and returns the
    /// sub-sequence whose blobs the store does not hold, in first-seen order,
    /// duplicates preserved. A store failure during any single check fails
    /// the whole request with the translated status; an empty batch asks the
    /// store nothing and always succeeds.
    pub fn find_missing_blobs(&self, blob_digests: Vec<Digest>) -> (r: Result<
        FindMissingBlobsResponse,
        GrpcStatus,
    >)
        ensures
            r matches Ok(resp) ==> resp.missing_blob_digests@ == missing_of(
                self.store.contents(),
                blob_digests@,
            ),
            r matches Err(st) ==> is_failure_status(st),
            blob_digests@.len() == 0 ==> r is Ok,
    {
        let ghost all = blob_digests@;
        let mut rest = blob_digests;
        let mut missing: Vec<Digest> = Vec::new();
        let ghost contents = self.store.contents();
        while rest.len() > 0
            invariant
                contents == self.store.contents(),
                all == blob_digests@,
                rest@.len() <= all.len(),
                rest@ == all.subrange(
                    all.len() - rest@.len(),
                    all.len() as int,
                ),
                missing@ == missing_of(
                    contents,
                    all.subrange(0, all.len() - rest@.len()),
                ),
            decreases rest@.len(),
        {
            let ghost t = all.len() - rest@.len();
            let digest = rest.remove(0);
            proof {
                assert(digest == all[t]);
                assert(rest@ =~= all.subrange(t + 1, all.len() as int));
            }
            match self.store.has(&digest.hash, digest.size_bytes) {
                Ok(found) => {
                    if !found {
                        missing.push(digest);
                    }
                    proof {
                        let prefix = all.subrange(0, t);
                        let prefix1 = all.subrange(0, t + 1);
                        assert(prefix1.drop_last() =~= prefix);
                        assert(prefix1.last() == all[t]);
                        assert(missing@ == missing_of(contents, prefix1));
                    }
                },
                Err(e) => {
                    let ghost kind = e.kind;
                    let ghost description = e.message@;
                    let st = result_to_status(Err(e));
                    proof {
                        assert(st.message@ == error_message(kind, description));
                        assert(all.len() > 0);
                    }
                    return Err(st);
                },
            }
        }
        proof {
            assert(all.subrange(0, all.len() as int) =~= all);
        }
        Ok(FindMissingBlobsResponse { missing_blob_digests: missing })
    }

    /// Uploads a batch of blobs with per-item partial-failure semantics:
    /// exactly one response record per input item, in input order, each
    /// echoing the originally supplied digest (absent if it was absent). An
    /// item whose digest is missing, whose declared size is unrepresentable,
    /// or whose payload length differs from its declared size gets an
    /// invalid-argument status naming the failed check, touches the store
    /// not at all, and never affects another item. A valid item is written
    /// to the store and gets the ok status, or the translated status of its
    /// own store failure.
    pub fn batch_update_blobs(&mut self, requests: Vec<UpdateBlobRequest>) -> (resp:
        BatchUpdateBlobsResponse)
        ensures
            resp.responses@.len() == requests@.len(),
            forall|i: int|
                #![trigger resp.responses@[i]]
                0 <= i < requests@.len() ==> {
                    &&& resp.responses@[i].digest == requests@[i].digest
                    &&& (!item_valid(requests@[i]) ==> resp.responses@[i].status.code
                        == CODE_INVALID_ARGUMENT && resp.responses@[i].status.message@
                        == error_message(
                        StoreErrorKind::InvalidArgument,
                        validation_description(requests@[i]),
                    ))
                    &&& (item_valid(requests@[i]) ==> is_ok_status(resp.responses@[i].status)
                        || is_failure_status(resp.responses@[i].status))
                    &&& (item_valid(requests@[i]) && is_ok_status(resp.responses@[i].status)
                        ==> final(self).store.contents().contains_key(item_hash(requests@[i])))
                },
            forall|k: Seq<char>|
                #![trigger final(self).store.contents().contains_key(k)]
                old(self).store.contents().contains_key(k)
                    ==> final(self).store.contents().contains_key(k),
            forall|k: Seq<char>|
                #![trigger final(self).store.contents().contains_key(k)]
                final(self).store.contents().contains_key(k)
                    && (!old(self).store.contents().contains_key(k)
                    || final(self).store.contents()[k]
                    != old(self).store.contents()[k]) ==> exists|i: int|
                    0 <= i < requests@.len() && item_valid(#[trigger] requests@[i]) && is_ok_status(
                        resp.responses@[i].status,
                    ) && item_hash(requests@[i]) == k,
            forall|i: int|
                #![trigger requests@[i]]
                0 <= i < requests@.len() && item_valid(requests@[i]) && is_ok_status(
                    resp.responses@[i].status,
                ) && (forall|j: int|
                    i < j < requests@.len() && item_valid(#[trigger] requests@[j]) && item_hash(
                        requests@[j],
                    ) == item_hash(requests@[i]) ==> !is_ok_status(resp.responses@[j].status))
                    ==> final(self).store.contents()[item_hash(requests@[i])]
                    == requests@[i].data@,
    {
        let ghost all = requests@;
        let ghost m0 = self.store.contents();
        let mut rest = requests;
        let mut responses: Vec<UpdateBlobResponse> = Vec::new();
        while rest.len() > 0
            invariant
                m0 == old(self).store.contents(),
                responses@.len() + rest@.len() == all.len(),
                rest@ == all.subrange(responses@.len() as int, all.len() as int),
                forall|i: int|
                    #![trigger responses@[i]]
                    0 <= i < responses@.len() ==> {
                        &&& responses@[i].digest == all[i].digest
                        &&& (!item_valid(all[i]) ==> responses@[i].status.code
                            == CODE_INVALID_ARGUMENT && responses@[i].status.message@
                            == error_message(
                            StoreErrorKind::InvalidArgument,
                            validation_description(all[i]),
                        ))
                        &&& (item_valid(all[i]) ==> is_ok_status(responses@[i].status)
                            || is_failure_status(responses@[i].status))
                        &&& (item_valid(all[i]) && is_ok_status(responses@[i].status)
                            ==> self.store.contents().contains_key(item_hash(all[i])))
                    },
                forall|k: Seq<char>|
                    #![trigger self.store.contents().contains_key(k)]
                    m0.contains_key(k) ==> self.store.contents().contains_key(k),
                forall|k: Seq<char>|
                    #![trigger self.store.contents().contains_key(k)]
                    self.store.contents().contains_key(k) && (!m0.contains_key(k)
                        || self.store.contents()[k] != m0[k]) ==> exists|i: int|
                        0 <= i < responses@.len() && item_valid(#[trigger] all[i]) && is_ok_status(
                            responses@[i].status,
                        ) && item_hash(all[i]) == k,
                forall|i: int|
                    #![trigger all[i]]
                    0 <= i < responses@.len() && item_valid(all[i]) && is_ok_status(
                        responses@[i].status,
                    ) && (forall|j: int|
                        i < j < responses@.len() && item_valid(#[trigger] all[j]) && item_hash(
                            all[j],
                        ) == item_hash(all[i]) ==> !is_ok_status(responses@[j].status))
                        ==> self.store.contents()[item_hash(all[i])] == all[i].data@,
            decreases rest@.len(),
        {
            let ghost t = responses@.len() as int;
            let ghost c_before = self.store.contents();
            let ghost resp_before = responses@;
            let request = rest.remove(0);
            proof {
                assert(request == all[t]);
                assert(rest@ =~= all.subrange(t + 1, all.len() as int));
            }
            let UpdateBlobRequest { digest, data } = request;
            let status: GrpcStatus = match &digest {
                None => result_to_status(
                    Err(
                        StoreError {
                            kind: StoreErrorKind::InvalidArgument,
                            message: String::from_str("Digest not found in request"),
                        },
                    ),
                ),
                Some(d) => {
                    match usize::try_from(d.size_bytes) {
                        Err(_) => result_to_status(
                            Err(
                                StoreError {
                                    kind: StoreErrorKind::InvalidArgument,
                                    message: String::from_str(
                                        "Digest size_bytes was not convertable to usize",
                                    ),
                                },
                            ),
                        ),
                        Ok(size) => {
                            if data.len() != size {
                                let mut message = String::from_str(
                                    "Digest for upload had mismatching sizes, digest said ",
                                );
                                message.append(u64_to_string(size as u64).as_str());
                                message.append(" data said ");
                                message.append(u64_to_string(data.len() as u64).as_str());
                                proof {
                                    assert(message@ =~= validation_description(all[t]));
                                }
                                result_to_status(
                                    Err(
                                        StoreError {
                                            kind: StoreErrorKind::InvalidArgument,
                                            message,
                                        },
                                    ),
                                )
                            } else {
                                let r = self.store.update(&d.hash, size, data);
                                result_to_status(r)
                            }
                        },
                    }
                },
            };
            responses.push(UpdateBlobResponse { digest, status });
            proof {
                assert(responses@.drop_last() =~= resp_before);
                assert forall|k: Seq<char>|
                    #![trigger self.store.contents().contains_key(k)]
                    self.store.contents().contains_key(k) && (!m0.contains_key(k)
                        || self.store.contents()[k] != m0[k]) implies exists|i: int|
                    0 <= i < responses@.len() && item_valid(#[trigger] all[i]) && is_ok_status(
                        responses@[i].status,
                    ) && item_hash(all[i]) == k by {
                    let c_now = self.store.contents();
                    if c_before.contains_key(k) && c_now[k] == c_before[k] {
                        let i = choose|i: int|
                            0 <= i < resp_before.len() && item_valid(#[trigger] all[i])
                                && is_ok_status(resp_before[i].status) && item_hash(all[i]) == k;
                        assert(responses@[i] == resp_before[i]);
                    } else {
                        assert(0 <= t < responses@.len() && item_valid(all[t]) && is_ok_status(
                            responses@[t].status,
                        ) && item_hash(all[t]) == k);
                    }
                }
            }
        }
        BatchUpdateBlobsResponse { responses }
    }

    /// Bulk blob reads are not implemented in this layer: every call fails
    /// with an unimplemented status naming the operation, and the store is
    /// never touched.
    pub fn batch_read_blobs(&self, _blob_digests: &Vec<Digest>) -> (r: Result<
        BatchReadBlobsResponse,
        GrpcStatus,
    >)
        ensures
            r is Err,
            r matches Err(st) ==> st.code == CODE_UNIMPLEMENTED && st.message@
                == "batch_read_blobs not yet implemented"@,
    {
        Err(
            GrpcStatus {
                code: CODE_UNIMPLEMENTED,
                message: String::from_str("batch_read_blobs not yet implemented"),
            },
        )
    }

    /// Directory-tree fetches are not implemented in this layer: every call
    /// fails with an unimplemented status naming the operation, and the
    /// store is never touched.
    pub fn get_tree(&self, _root_digest: &Option<Digest>) -> (r: Result<
        Vec<GetTreeResponse>,
        GrpcStatus,
    >)
        ensures
            r is Err,
            r matches Err(st) ==> st.code == CODE_UNIMPLEMENTED && st.message@
                == "get_tree not yet implemented"@,
    {
        Err(
            GrpcStatus {
                code: CODE_UNIMPLEMENTED,
                message: String::from_str("get_tree not yet implemented"),
            },
        )
    }
}

} // verus!
