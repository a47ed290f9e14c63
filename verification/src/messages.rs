//! The protocol messages this layer consumes and produces, and the
//! specification of per-item upload validation.

use vstd::prelude::*;

use crate::numfmt::dec_digits;
use crate::status::GrpcStatus;

verus! {

/// The identity of a blob: a content hash and a declared byte size. Equality
/// of blobs is by hash; the size is declared metadata.
pub struct Digest {
    pub hash: String,
    pub size_bytes: i64,
}

/// One item of a batch upload: the digest the payload claims to have, and the
/// payload itself. The digest is optional on the wire; its absence is a
/// validation failure for this item alone.
pub struct UpdateBlobRequest {
    pub digest: Option<Digest>,
    pub data: Vec<u8>,
}

/// The outcome of one batch upload item: the digest as originally supplied
/// (absent if it was absent) and the status of the attempt.
pub struct UpdateBlobResponse {
    pub digest: Option<Digest>,
    pub status: GrpcStatus,
}

/// The digests of an existence-check batch that the store does not hold.
pub struct FindMissingBlobsResponse {
    pub missing_blob_digests: Vec<Digest>,
}

/// One outcome record per submitted upload item, in request order.
pub struct BatchUpdateBlobsResponse {
    pub responses: Vec<UpdateBlobResponse>,
}

/// One record of a batch read: the requested digest, the blob's content, and
/// the status of the read.
pub struct ReadBlobResponse {
    pub digest: Option<Digest>,
    pub data: Vec<u8>,
    pub status: GrpcStatus,
}

/// The per-item outcome records of a batch read.
pub struct BatchReadBlobsResponse {
    pub responses: Vec<ReadBlobResponse>,
}

/// One page of a directory-tree fetch; the directory messages are opaque to
/// this layer.
pub struct GetTreeResponse {
    pub directories: Vec<Vec<u8>>,
}

/// Whether a declared size fits in a platform-native unsigned size value.
pub open spec fn size_representable(size_bytes: i64) -> bool {
    0 <= size_bytes as int <= usize::MAX as int
}

/// Whether an upload item passes validation: its digest is present, the
/// declared size is representable, and the payload length equals the declared
/// size exactly.
pub open spec fn item_valid(req: UpdateBlobRequest) -> bool {
    match req.digest {
        Some(d) => size_representable(d.size_bytes) && req.data@.len() == d.size_bytes as int,
        None => false,
    }
}

/// The description of a size mismatch, quoting the declared and actual sizes.
pub open spec fn mismatch_description(declared: nat, actual: nat) -> Seq<char> {
    "Digest for upload had mismatching sizes, digest said "@ + dec_digits(declared)
        + " data said "@ + dec_digits(actual)
}

/// The description of the validation failure of an invalid upload item: the
/// first of the three checks that the item fails.
pub open spec fn validation_description(req: UpdateBlobRequest) -> Seq<char>
    recommends
        !item_valid(req),
{
    match req.digest {
        None => "Digest not found in request"@,
        Some(d) => if !size_representable(d.size_bytes) {
            "Digest size_bytes was not convertable to usize"@
        } else {
            mismatch_description(d.size_bytes as nat, req.data@.len())
        },
    }
}

/// The sub-sequence of `ds` whose hashes the store contents `c` do not hold,
/// in first-seen order, duplicates preserved.
pub open spec fn missing_of(c: Map<Seq<char>, Seq<u8>>, ds: Seq<Digest>) -> Seq<Digest>
    decreases ds.len(),
{
    if ds.len() == 0 {
        Seq::<Digest>::empty()
    } else {
        let rest = missing_of(c, ds.drop_last());
        if !c.contains_key(ds.last().hash@) {
            rest.push(ds.last())
        } else {
            rest
        }
    }
}

} // verus!
