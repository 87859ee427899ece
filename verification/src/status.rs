//! Outcome codes and the status that a failed operation reports.
use vstd::prelude::*;

verus! {

/// The canonical uProtocol status codes.
#[derive(Clone, Copy, Debug, PartialEq, Eq, Structural)]
pub enum UCode {
    OK,
    Cancelled,
    Unknown,
    InvalidArgument,
    DeadlineExceeded,
    NotFound,
    AlreadyExists,
    PermissionDenied,
    ResourceExhausted,
    FailedPrecondition,
    Aborted,
    OutOfRange,
    Unimplemented,
    Internal,
    Unavailable,
    DataLoss,
    Unauthenticated,
}

impl UCode {
    /// The number of this code on the wire.
    pub open spec fn spec_number(self) -> i32 {
        match self {
            UCode::OK => 0,
            UCode::Cancelled => 1,
            UCode::Unknown => 2,
            UCode::InvalidArgument => 3,
            UCode::DeadlineExceeded => 4,
            UCode::NotFound => 5,
            UCode::AlreadyExists => 6,
            UCode::PermissionDenied => 7,
            UCode::ResourceExhausted => 8,
            UCode::FailedPrecondition => 9,
            UCode::Aborted => 10,
            UCode::OutOfRange => 11,
            UCode::Unimplemented => 12,
            UCode::Internal => 13,
            UCode::Unavailable => 14,
            UCode::DataLoss => 15,
            UCode::Unauthenticated => 16,
        }
    }

    /// The number of this code on the wire.
    pub fn number(self) -> (n: i32)
        ensures
            n == self.spec_number(),
    {
        match self {
            UCode::OK => 0,
            UCode::Cancelled => 1,
            UCode::Unknown => 2,
            UCode::InvalidArgument => 3,
            UCode::DeadlineExceeded => 4,
            UCode::NotFound => 5,
            UCode::AlreadyExists => 6,
            UCode::PermissionDenied => 7,
            UCode::ResourceExhausted => 8,
            UCode::FailedPrecondition => 9,
            UCode::Aborted => 10,
            UCode::OutOfRange => 11,
            UCode::Unimplemented => 12,
            UCode::Internal => 13,
            UCode::Unavailable => 14,
            UCode::DataLoss => 15,
            UCode::Unauthenticated => 16,
        }
    }
}

/// The status of an operation that failed.
#[derive(Debug)]
pub struct UStatus {
    pub code: UCode,
    pub message: String,
}

/// A status as a mathematical value.
#[verifier::ext_equal]
pub struct StatusView {
    pub code: UCode,
    pub message: Seq<char>,
}

impl View for UStatus {
    type V = StatusView;

    open spec fn view(&self) -> StatusView {
        StatusView { code: self.code, message: self.message@ }
    }
}

/// The status with the given code and message.
pub open spec fn failure(code: UCode, message: Seq<char>) -> StatusView {
    StatusView { code, message }
}

impl UStatus {
    /// Creates a status that represents a failure.
    pub fn fail_with_code(code: UCode, message: String) -> (status: UStatus)
        ensures
            status@ == failure(code, message@),
    {
        UStatus { code, message }
    }

    /// Creates a status that represents an internal failure: what failed, and the text of
    /// the error.
    pub fn internal(what: &str, error: &str) -> (status: UStatus)
        ensures
            status@ == failure(UCode::Internal, what@ + error@),
    {
        UStatus { code: UCode::Internal, message: crate::text::join(what, error) }
    }

    /// Creates a status that represents a failure with a fixed message.
    pub fn fail_with(code: UCode, message: &str) -> (status: UStatus)
        ensures
            status@ == failure(code, message@),
    {
        UStatus { code, message: message.to_string() }
    }
}

impl Clone for UStatus {
    fn clone(&self) -> (copy: UStatus)
        ensures
            copy@ == self@,
    {
        UStatus { code: self.code, message: self.message.clone() }
    }
}

/// Different status codes have different numbers.
pub proof fn law_code_numbers_injective(a: UCode, b: UCode)
    requires
        a.spec_number() == b.spec_number(),
    ensures
        a == b,
{
}

/// The codes have the numbers of the canonical status codes.
pub proof fn law_code_numbers(code: UCode)
    ensures
        0 <= code.spec_number() <= 16,
        code.spec_number() == 0 <==> code is OK,
        code.spec_number() == 1 <==> code is Cancelled,
        code.spec_number() == 2 <==> code is Unknown,
        code.spec_number() == 3 <==> code is InvalidArgument,
        code.spec_number() == 4 <==> code is DeadlineExceeded,
        code.spec_number() == 5 <==> code is NotFound,
        code.spec_number() == 6 <==> code is AlreadyExists,
        code.spec_number() == 7 <==> code is PermissionDenied,
        code.spec_number() == 8 <==> code is ResourceExhausted,
        code.spec_number() == 9 <==> code is FailedPrecondition,
        code.spec_number() == 10 <==> code is Aborted,
        code.spec_number() == 11 <==> code is OutOfRange,
        code.spec_number() == 12 <==> code is Unimplemented,
        code.spec_number() == 13 <==> code is Internal,
        code.spec_number() == 14 <==> code is Unavailable,
        code.spec_number() == 15 <==> code is DataLoss,
        code.spec_number() == 16 <==> code is Unauthenticated,
{
}

/// A failure says its code and its message, and the model of a status holds both.
pub proof fn law_status_is_code_and_message(code: UCode, message: Seq<char>, status: UStatus)
    ensures
        failure(code, message).code == code,
        failure(code, message).message == message,
        status@.code == status.code,
        status@.message == status.message@,
{
}

} // verus!
