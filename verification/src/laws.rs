//! The laws this library states of itself, proved over the same spec
//! functions its contracts use.

use vstd::prelude::*;

use crate::messages::{missing_of, Digest};
use crate::status::{
    code_of_kind, error_message, is_failure_status, is_ok_status, GrpcStatus, StoreErrorKind,
    CODE_OK,
};

verus! {

/// Every failure category translates to exactly one status code, and that
/// code is never the ok code; the catch-all category also has one.
pub proof fn lemma_translation_total_and_nonzero()
    ensures
        forall|kind: StoreErrorKind| #[trigger] code_of_kind(kind) != CODE_OK,
{
}

/// A failure status is never the ok status: the translation keeps success
/// and failure apart, whatever the category and description.
pub proof fn lemma_failure_status_not_ok(st: GrpcStatus)
    requires
        is_failure_status(st),
    ensures
        !is_ok_status(st),
        st.code != CODE_OK,
{
    let (kind, description) = choose|kind: StoreErrorKind, description: Seq<char>|
        st.code == code_of_kind(kind) && st.message@ == #[trigger] error_message(
            kind,
            description,
        );
    assert(code_of_kind(kind) != CODE_OK);
}

/// A digest is reported missing exactly when it occurs in the request and
/// the store contents hold no blob under its hash: membership in the
/// missing set is decided per digest, by the store contents alone.
pub proof fn lemma_missing_membership(c: Map<Seq<char>, Seq<u8>>, ds: Seq<Digest>, d: Digest)
    ensures
        missing_of(c, ds).contains(d) <==> ds.contains(d) && !c.contains_key(d.hash@),
    decreases ds.len(),
{
    if ds.len() > 0 {
        lemma_missing_membership(c, ds.drop_last(), d);
        let rest = missing_of(c, ds.drop_last());
        if !c.contains_key(ds.last().hash@) {
            assert(missing_of(c, ds) == rest.push(ds.last()));
            if missing_of(c, ds).contains(d) {
                let i = choose|i: int| 0 <= i < rest.push(ds.last()).len() && rest.push(
                    ds.last(),
                )[i] == d;
                if i < rest.len() {
                    assert(rest[i] == d);
                    let j = choose|j: int| 0 <= j < ds.drop_last().len() && ds.drop_last()[j] == d;
                    assert(ds[j] == d);
                } else {
                    assert(ds[ds.len() - 1] == d);
                }
            }
            if ds.contains(d) && !c.contains_key(d.hash@) {
                let i = choose|i: int| 0 <= i < ds.len() && ds[i] == d;
                if i < ds.len() - 1 {
                    assert(ds.drop_last()[i] == d);
                    let j = choose|j: int| 0 <= j < rest.len() && rest[j] == d;
                    assert(rest.push(ds.last())[j] == d);
                } else {
                    assert(rest.push(ds.last())[rest.len() as int] == d);
                }
            }
        } else {
            if missing_of(c, ds).contains(d) {
                let j = choose|j: int| 0 <= j < ds.drop_last().len() && ds.drop_last()[j] == d;
                assert(ds[j] == d);
            }
            if ds.contains(d) && !c.contains_key(d.hash@) {
                let i = choose|i: int| 0 <= i < ds.len() && ds[i] == d;
                assert(i < ds.len() - 1);
                assert(ds.drop_last()[i] == d);
            }
        }
    }
}

/// Existence checks are idempotent and complete: against contents that hold
/// a blob under every requested hash — for instance after each request's
/// upload succeeded — nothing is reported missing.
pub proof fn lemma_uploaded_not_missing(c: Map<Seq<char>, Seq<u8>>, ds: Seq<Digest>)
    requires
        forall|i: int| 0 <= i < ds.len() ==> c.contains_key(#[trigger] ds[i].hash@),
    ensures
        missing_of(c, ds).len() == 0,
    decreases ds.len(),
{
    if ds.len() > 0 {
        assert(ds.drop_last().len() == ds.len() - 1);
        assert(forall|i: int|
            0 <= i < ds.drop_last().len() ==> c.contains_key(#[trigger] ds.drop_last()[i].hash@));
        lemma_uploaded_not_missing(c, ds.drop_last());
        assert(c.contains_key(ds[ds.len() - 1].hash@));
    }
}

} // verus!
