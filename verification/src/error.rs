//! The errors a driver reports, and how a fault of the object store is
//! normalized into one of them.

use vstd::prelude::*;
use vstd::string::StringExecFns;
use vstd::utf8::{encode_utf8, encode_utf8_decode_utf8};

verus! {

/// The classes of failure that a driver's caller can tell apart.
#[derive(Clone, Copy, Debug, PartialEq, Eq, Structural)]
pub enum ErrorKind {
    /// No object is stored at the key.
    NotFound,
    /// The store refused the caller's identity or its rights.
    Unauthorized,
    /// The store could not be reached, or its answer could not be read.
    Unreachable,
    /// A payload could not be decoded, compressed or decompressed.
    Corrupt,
    /// A failure that the driver does not classify.
    Unknown,
}

/// A failed operation: its class and a description for people.
#[derive(Clone, Debug, PartialEq, Eq)]
pub struct Error {
    pub kind: ErrorKind,
    pub message: String,
}

/// The model of an [`Error`].
pub struct ErrorView {
    pub kind: ErrorKind,
    pub message: Seq<char>,
}

impl View for Error {
    type V = ErrorView;

    open spec fn view(&self) -> ErrorView {
        ErrorView { kind: self.kind, message: self.message@ }
    }
}

/// The model of an operation's outcome: the model of what it returned, or of
/// the failure.
pub open spec fn outcome_view<T: View, E: View>(outcome: Result<T, E>) -> Result<T::V, E::V> {
    match outcome {
        Ok(value) => Ok(value@),
        Err(failure) => Err(failure@),
    }
}

/// Where a fault of the object store arose.
#[derive(Clone, Copy, Debug, PartialEq, Eq, Structural)]
pub enum FaultOrigin {
    /// The request could not be built.
    Construction,
    /// No answer came in time.
    Timeout,
    /// The request could not be sent.
    Dispatch,
    /// An answer came that could not be understood.
    Response,
    /// The store answered with an error of its own.
    Service,
    /// The body of an answer broke off while it was read.
    Body,
    /// Anything else.
    Other,
}

/// A fault of the object store, as plain values: where it arose, the store's
/// error code where it gave one, and its description.
#[derive(Clone, Debug, PartialEq, Eq)]
pub struct Fault {
    pub origin: FaultOrigin,
    pub code: Option<String>,
    pub message: String,
}

/// The model of a [`Fault`].
pub struct FaultView {
    pub origin: FaultOrigin,
    pub code: Option<Seq<char>>,
    pub message: Seq<char>,
}

impl View for Fault {
    type V = FaultView;

    open spec fn view(&self) -> FaultView {
        FaultView {
            origin: self.origin,
            code: match self.code {
                Some(c) => Some(c@),
                None => None,
            },
            message: self.message@,
        }
    }
}

/// The code with which the store reports that a key holds no object.
pub open spec fn missing_key_code() -> Seq<char> {
    "NoSuchKey"@
}

/// Whether `code` is one with which the store turns a caller away.
pub open spec fn is_denied_code(code: Seq<char>) -> bool {
    code == "AccessDenied"@ || code == "InvalidAccessKeyId"@ || code == "SignatureDoesNotMatch"@
}

/// The class of error that a fault of the store is reported as.
pub open spec fn fault_kind(fault: FaultView) -> ErrorKind {
    match fault.origin {
        FaultOrigin::Timeout | FaultOrigin::Dispatch | FaultOrigin::Response | FaultOrigin::Body => {
            ErrorKind::Unreachable
        },
        FaultOrigin::Service => match fault.code {
            Some(code) => if code == missing_key_code() {
                ErrorKind::NotFound
            } else if is_denied_code(code) {
                ErrorKind::Unauthorized
            } else {
                ErrorKind::Unknown
            },
            None => ErrorKind::Unknown,
        },
        FaultOrigin::Construction | FaultOrigin::Other => ErrorKind::Unknown,
    }
}

/// The error that a fault is reported as when it ends the operation described
/// by `context`: the fault's class, and the context followed by the fault's
/// own description.
pub open spec fn normalized(context: Seq<char>, fault: FaultView) -> ErrorView {
    ErrorView { kind: fault_kind(fault), message: context + fault.message }
}

/// Whether two string slices hold the same text.
fn same_text(a: &str, b: &str) -> (same: bool)
    ensures
        same == (a@ == b@),
{
    let x = a.as_bytes();
    let y = b.as_bytes();
    proof {
        // texts with the same bytes are the same text
        encode_utf8_decode_utf8(a@);
        encode_utf8_decode_utf8(b@);
    }
    if x.len() != y.len() {
        return false;
    }
    let mut i: usize = 0;
    while i < x.len()
        invariant
            i <= x@.len(),
            x@.len() == y@.len(),
            x@ == encode_utf8(a@),
            y@ == encode_utf8(b@),
            forall|j: int| 0 <= j < i ==> x@[j] == y@[j],
        decreases x@.len() - i,
    {
        if x[i] != y[i] {
            return false;
        }
        i += 1;
    }
    assert(x@ =~= y@);
    true
}

/// Classifies a fault of the store.
pub fn classify(fault: &Fault) -> (kind: ErrorKind)
    ensures
        kind == fault_kind(fault@),
{
    match fault.origin {
        FaultOrigin::Timeout | FaultOrigin::Dispatch | FaultOrigin::Response | FaultOrigin::Body => {
            ErrorKind::Unreachable
        },
        FaultOrigin::Service => match &fault.code {
            Some(code) => {
                if same_text(code.as_str(), "NoSuchKey") {
                    ErrorKind::NotFound
                } else if same_text(code.as_str(), "AccessDenied") || same_text(
                    code.as_str(),
                    "InvalidAccessKeyId",
                ) || same_text(code.as_str(), "SignatureDoesNotMatch") {
                    ErrorKind::Unauthorized
                } else {
                    ErrorKind::Unknown
                }
            },
            None => ErrorKind::Unknown,
        },
        FaultOrigin::Construction | FaultOrigin::Other => ErrorKind::Unknown,
    }
}

/// Normalizes a fault that ended the operation described by `context`.
pub fn normalize(context: &str, fault: &Fault) -> (error: Error)
    ensures
        error@ == normalized(context@, fault@),
{
    let mut message = String::from_str(context);
    message.append(fault.message.as_str());
    Error { kind: classify(fault), message }
}

} // verus!
