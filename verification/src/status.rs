//! Store failure categories, protocol statuses, and the total translation
//! from one to the other.

use vstd::prelude::*;

verus! {

/// Protocol status code for success.
pub const CODE_OK: i32 = 0;

/// Protocol status code for a malformed or inconsistent request.
pub const CODE_INVALID_ARGUMENT: i32 = 3;

/// Protocol status code for an expired deadline.
pub const CODE_DEADLINE_EXCEEDED: i32 = 4;

/// Protocol status code for a missing resource.
pub const CODE_NOT_FOUND: i32 = 5;

/// Protocol status code for a resource that already exists.
pub const CODE_ALREADY_EXISTS: i32 = 6;

/// Protocol status code for a forbidden operation.
pub const CODE_PERMISSION_DENIED: i32 = 7;

/// Protocol status code for an aborted operation.
pub const CODE_ABORTED: i32 = 10;

/// Protocol status code for an operation this service does not implement.
pub const CODE_UNIMPLEMENTED: i32 = 12;

/// Protocol status code for an internal failure.
pub const CODE_INTERNAL: i32 = 13;

/// Protocol status code for a transient, retryable condition.
pub const CODE_UNAVAILABLE: i32 = 14;

/// The fixed set of categories a store failure is tagged with.
#[derive(Clone, Copy, PartialEq, Eq, Structural, Debug)]
pub enum StoreErrorKind {
    NotFound,
    PermissionDenied,
    Unavailable,
    AlreadyExists,
    InvalidArgument,
    DeadlineExceeded,
    Aborted,
    Internal,
    Unknown,
}

/// A categorized failure reported by the store collaborator, or raised by the
/// adapter's own request validation.
#[derive(Debug)]
pub struct StoreError {
    pub kind: StoreErrorKind,
    pub message: String,
}

/// A protocol-level status: a code from the standardized status space and a
/// human-readable message. The protocol's detail list is always empty in this
/// layer, so it is not carried.
#[derive(Debug)]
pub struct GrpcStatus {
    pub code: i32,
    pub message: String,
}

/// The protocol status code each failure category translates to. Total: every
/// category has exactly one code, and the catch-all category maps to the
/// generic internal code.
pub open spec fn code_of_kind(kind: StoreErrorKind) -> i32 {
    match kind {
        StoreErrorKind::NotFound => CODE_NOT_FOUND,
        StoreErrorKind::PermissionDenied => CODE_PERMISSION_DENIED,
        StoreErrorKind::Unavailable => CODE_UNAVAILABLE,
        StoreErrorKind::AlreadyExists => CODE_ALREADY_EXISTS,
        StoreErrorKind::InvalidArgument => CODE_INVALID_ARGUMENT,
        StoreErrorKind::DeadlineExceeded => CODE_DEADLINE_EXCEEDED,
        StoreErrorKind::Aborted => CODE_ABORTED,
        StoreErrorKind::Internal => CODE_INTERNAL,
        StoreErrorKind::Unknown => CODE_INTERNAL,
    }
}

/// The diagnostic label of a failure category, quoted in translated messages.
pub open spec fn kind_label(kind: StoreErrorKind) -> Seq<char> {
    match kind {
        StoreErrorKind::NotFound => "NotFound"@,
        StoreErrorKind::PermissionDenied => "PermissionDenied"@,
        StoreErrorKind::Unavailable => "Unavailable"@,
        StoreErrorKind::AlreadyExists => "AlreadyExists"@,
        StoreErrorKind::InvalidArgument => "InvalidArgument"@,
        StoreErrorKind::DeadlineExceeded => "DeadlineExceeded"@,
        StoreErrorKind::Aborted => "Aborted"@,
        StoreErrorKind::Internal => "Internal"@,
        StoreErrorKind::Unknown => "Unknown"@,
    }
}

/// The message a translated failure carries: the category tag and the
/// original description.
pub open spec fn error_message(kind: StoreErrorKind, description: Seq<char>) -> Seq<char> {
    "Error: "@ + kind_label(kind) + ": "@ + description
}

/// Whether `st` is the ok status: the ok code and an empty message.
pub open spec fn is_ok_status(st: GrpcStatus) -> bool {
    &&& st.code == CODE_OK
    &&& st.message@ == Seq::<char>::empty()
}

/// Whether `st` is the exact translation of the failure `e`.
pub open spec fn is_status_of(st: GrpcStatus, e: StoreError) -> bool {
    &&& st.code == code_of_kind(e.kind)
    &&& st.message@ == error_message(e.kind, e.message@)
}

/// Whether `st` is the translation of some store failure. Every such status
/// carries a non-ok code.
pub open spec fn is_failure_status(st: GrpcStatus) -> bool {
    exists|kind: StoreErrorKind, description: Seq<char>|
        st.code == code_of_kind(kind) && st.message@ == #[trigger] error_message(
            kind,
            description,
        )
}

/// The diagnostic label of a failure category.
pub fn kind_label_str(kind: StoreErrorKind) -> (s: &'static str)
    ensures
        s@ == kind_label(kind),
{
    match kind {
        StoreErrorKind::NotFound => "NotFound",
        StoreErrorKind::PermissionDenied => "PermissionDenied",
        StoreErrorKind::Unavailable => "Unavailable",
        StoreErrorKind::AlreadyExists => "AlreadyExists",
        StoreErrorKind::InvalidArgument => "InvalidArgument",
        StoreErrorKind::DeadlineExceeded => "DeadlineExceeded",
        StoreErrorKind::Aborted => "Aborted",
        StoreErrorKind::Internal => "Internal",
        StoreErrorKind::Unknown => "Unknown",
    }
}

/// Translates the outcome of one store operation into a protocol status:
/// success becomes the ok status with an empty message; a failure becomes the
/// one status code of its category, with the category tag and original
/// description in the message.
pub fn result_to_status(result: Result<(), StoreError>) -> (st: GrpcStatus)
    ensures
        match result {
            Ok(()) => is_ok_status(st),
            Err(e) => is_status_of(st, e),
        },
{
    match result {
        Ok(()) => GrpcStatus { code: CODE_OK, message: String::new() },
        Err(e) => {
            let mut message = String::from_str("Error: ");
            message.append(kind_label_str(e.kind));
            message.append(": ");
            message.append(e.message.as_str());
            proof {
                assert(message@ =~= error_message(e.kind, e.message@));
            }
            GrpcStatus { code: code_of_kind_exec(e.kind), message }
        },
    }
}

/// The protocol status code of one failure category.
pub fn code_of_kind_exec(kind: StoreErrorKind) -> (code: i32)
    ensures
        code == code_of_kind(kind),
{
    match kind {
        StoreErrorKind::NotFound => CODE_NOT_FOUND,
        StoreErrorKind::PermissionDenied => CODE_PERMISSION_DENIED,
        StoreErrorKind::Unavailable => CODE_UNAVAILABLE,
        StoreErrorKind::AlreadyExists => CODE_ALREADY_EXISTS,
        StoreErrorKind::InvalidArgument => CODE_INVALID_ARGUMENT,
        StoreErrorKind::DeadlineExceeded => CODE_DEADLINE_EXCEEDED,
        StoreErrorKind::Aborted => CODE_ABORTED,
        StoreErrorKind::Internal => CODE_INTERNAL,
        StoreErrorKind::Unknown => CODE_INTERNAL,
    }
}

} // verus!
