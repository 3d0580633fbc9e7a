use vstd::prelude::*;

verus! {

/// The kind of failure a service call reports.
#[derive(Debug, Clone, Copy, PartialEq, Eq, Structural)]
pub enum Code {
    Internal,
    InvalidArgument,
}

/// The failure a service call answers with: a kind and a message.
#[derive(Debug)]
pub struct Status {
    pub code: Code,
    pub message: String,
}

/// `status` is an internal failure with message `text`.
pub open spec fn is_internal(status: Status, text: Seq<char>) -> bool {
    status.code == Code::Internal && status.message@ == text
}

impl Status {
    /// An internal failure with the given message.
    pub fn internal(message: String) -> (s: Status)
        ensures
            s.code == Code::Internal,
            s.message@ == message@,
    {
        Status { code: Code::Internal, message }
    }

    /// A failure caused by the caller's input, with the given message.
    pub fn invalid_argument(message: String) -> (s: Status)
        ensures
            s.code == Code::InvalidArgument,
            s.message@ == message@,
    {
        Status { code: Code::InvalidArgument, message }
    }
}

} // verus!
