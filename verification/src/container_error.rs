use vstd::prelude::*;
use vstd::string::StringExecFns;

verus! {

/// The failure taxonomy of the container.
///
/// Every fallible container operation returns exactly one of these kinds.
/// Each value carries `op`, an opaque tag naming the operation that raised
/// it, and `message`, a human-readable description; for kinds that wrap an
/// underlying cause (I/O faults, transport faults, malformed data, text
/// decoding), the cause's description is preserved in `message`.
#[derive(Clone, Debug)]
pub enum ZipContainerError {
    /// A required field or resource was never set, or a lookup by name
    /// found nothing anywhere.
    MissingValue { op: String, message: String },
    /// A local input/output fault.
    IOError { op: String, message: String },
    /// A network fault while fetching a remote location.
    TransportError { op: String, message: String },
    /// Malformed archive structure or malformed content where well-formed
    /// data was expected.
    InvalidData { op: String, message: String },
    /// The requested operation has no valid implementation in the current
    /// execution environment; this is not a transient fault.
    UnsupportedOperation { op: String, message: String },
    /// Bytes that were expected to be UTF-8 encoded text were not.
    TextDecodeError { op: String, message: String },
}

impl ZipContainerError {
    /// The operation tag of this error.
    pub open spec fn spec_op(&self) -> Seq<char> {
        match self {
            ZipContainerError::MissingValue { op, .. } => op@,
            ZipContainerError::IOError { op, .. } => op@,
            ZipContainerError::TransportError { op, .. } => op@,
            ZipContainerError::InvalidData { op, .. } => op@,
            ZipContainerError::UnsupportedOperation { op, .. } => op@,
            ZipContainerError::TextDecodeError { op, .. } => op@,
        }
    }

    /// The message of this error.
    pub open spec fn spec_message(&self) -> Seq<char> {
        match self {
            ZipContainerError::MissingValue { message, .. } => message@,
            ZipContainerError::IOError { message, .. } => message@,
            ZipContainerError::TransportError { message, .. } => message@,
            ZipContainerError::InvalidData { message, .. } => message@,
            ZipContainerError::UnsupportedOperation { message, .. } => message@,
            ZipContainerError::TextDecodeError { message, .. } => message@,
        }
    }

    /// The error as one line of text: the operation tag, a separator, and
    /// the message.
    pub open spec fn spec_text(&self) -> Seq<char> {
        self.spec_op() + ": "@ + self.spec_message()
    }

    /// Renders the error as text, ending in its message.
    pub fn to_string(&self) -> (r: String)
        ensures
            r@ == self.spec_text(),
    {
        let (op, message) = match self {
            ZipContainerError::MissingValue { op, message } => (op, message),
            ZipContainerError::IOError { op, message } => (op, message),
            ZipContainerError::TransportError { op, message } => (op, message),
            ZipContainerError::InvalidData { op, message } => (op, message),
            ZipContainerError::UnsupportedOperation { op, message } => (op, message),
            ZipContainerError::TextDecodeError { op, message } => (op, message),
        };
        let mut r = op.clone();
        r.append(": ");
        r.append(message.as_str());
        r
    }
}

/// Builds a `MissingValue` error from an operation tag and a message.
pub fn missing_value(op: &str, message: &str) -> (e: ZipContainerError)
    ensures
        e matches ZipContainerError::MissingValue { op: o, message: m } && o@ == op@ && m@
            == message@,
{
    ZipContainerError::MissingValue { op: String::from_str(op), message: String::from_str(message) }
}

/// Builds an `InvalidData` error from an operation tag and a message.
pub fn invalid_data(op: &str, message: String) -> (e: ZipContainerError)
    ensures
        e matches ZipContainerError::InvalidData { op: o, message: m } && o@ == op@ && m@
            == message@,
{
    ZipContainerError::InvalidData { op: String::from_str(op), message }
}

/// Builds an `IOError` error from an operation tag and a message.
pub fn io_error(op: &str, message: String) -> (e: ZipContainerError)
    ensures
        e matches ZipContainerError::IOError { op: o, message: m } && o@ == op@ && m@ == message@,
{
    ZipContainerError::IOError { op: String::from_str(op), message }
}

/// Builds an `UnsupportedOperation` error from an operation tag and a message.
pub fn unsupported_operation(op: &str, message: &str) -> (e: ZipContainerError)
    ensures
        e matches ZipContainerError::UnsupportedOperation { op: o, message: m } && o@ == op@ && m@
            == message@,
{
    ZipContainerError::UnsupportedOperation {
        op: String::from_str(op),
        message: String::from_str(message),
    }
}

/// Builds a `TextDecodeError` error from an operation tag and a message.
pub fn text_decode_error(op: &str, message: String) -> (e: ZipContainerError)
    ensures
        e matches ZipContainerError::TextDecodeError { op: o, message: m } && o@ == op@ && m@
            == message@,
{
    ZipContainerError::TextDecodeError { op: String::from_str(op), message }
}

} // verus!
