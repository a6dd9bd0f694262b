use vstd::prelude::*;
use vstd::string::*;

use crate::pb::Value;

verus! {

/// The scalar type that a `Value` was asked to convert into.
#[derive(Debug, Clone, Copy, PartialEq, Eq)]
pub enum ConvertTarget {
    Integer,
    Float,
    Binary,
    Boolean,
}

impl ConvertTarget {
    pub open spec fn name_view(self) -> Seq<char> {
        match self {
            ConvertTarget::Integer => "Integer"@,
            ConvertTarget::Float => "Float"@,
            ConvertTarget::Binary => "Binary"@,
            ConvertTarget::Boolean => "Boolean"@,
        }
    }

    pub fn name(&self) -> (r: &'static str)
        ensures
            r@ == self.name_view(),
    {
        match self {
            ConvertTarget::Integer => "Integer",
            ConvertTarget::Float => "Float",
            ConvertTarget::Binary => "Binary",
            ConvertTarget::Boolean => "Boolean",
        }
    }
}

/// Every failure of the service, in protocol or in transport.
#[derive(Debug, Clone, PartialEq)]
pub enum KvError {
    /// A lookup missed: table and key.
    NotFound(String, String),
    /// A malformed request; the reason may be empty.
    InvalidCommand(String),
    /// A value did not hold the requested scalar.
    ConvertError(Value, ConvertTarget),
    /// The storage backend failed.
    StorageError(String),
    /// A frame is over the size bound, or its header or payload is malformed.
    FrameError,
    /// The underlying byte stream failed.
    IoError(String),
    /// A message could not be serialized.
    EncodeError(String),
    /// A payload could not be deserialized into a message.
    DecodeError(String),
    /// Anything else, such as a missing response.
    Internal(String),
}

pub const STATUS_OK: u32 = 200;
pub const STATUS_BAD_REQUEST: u32 = 400;
pub const STATUS_NOT_FOUND: u32 = 404;
pub const STATUS_INTERNAL: u32 = 500;

impl KvError {
    /// The HTTP-style status under which this error is answered.
    pub open spec fn status_view(&self) -> u32 {
        match self {
            KvError::NotFound(..) => STATUS_NOT_FOUND,
            KvError::InvalidCommand(..) => STATUS_BAD_REQUEST,
            _ => STATUS_INTERNAL,
        }
    }

    /// The human-readable text of this error.
    pub open spec fn message_view(&self) -> Seq<char> {
        match self {
            KvError::NotFound(t, k) => "Not found for table: "@ + t@ + ", key: "@ + k@,
            KvError::InvalidCommand(r) => if r@.len() == 0 {
                "invalid command"@
            } else {
                "invalid command: "@ + r@
            },
            KvError::ConvertError(_, target) => "Cannot convert value to "@ + target.name_view(),
            KvError::StorageError(r) => "Storage error: "@ + r@,
            KvError::FrameError => "Frame is malformed or larger than max size"@,
            KvError::IoError(r) => "I/O error: "@ + r@,
            KvError::EncodeError(r) => "Failed to encode protobuf message: "@ + r@,
            KvError::DecodeError(r) => "Failed to decode protobuf message: "@ + r@,
            KvError::Internal(r) => "internal: "@ + r@,
        }
    }

    pub fn status(&self) -> (r: u32)
        ensures
            r == self.status_view(),
    {
        match self {
            KvError::NotFound(..) => STATUS_NOT_FOUND,
            KvError::InvalidCommand(..) => STATUS_BAD_REQUEST,
            _ => STATUS_INTERNAL,
        }
    }

    /// The display text of this error.
    pub fn message(&self) -> (r: String)
        ensures
            r@ == self.message_view(),
    {
        match self {
            KvError::NotFound(t, k) => {
                let mut s = String::from_str("Not found for table: ");
                s.append(t.as_str());
                s.append(", key: ");
                s.append(k.as_str());
                s
            },
            KvError::InvalidCommand(r) => {
                if r.as_str().is_empty() {
                    String::from_str("invalid command")
                } else {
                    let mut s = String::from_str("invalid command: ");
                    s.append(r.as_str());
                    s
                }
            },
            KvError::ConvertError(_, target) => {
                let mut s = String::from_str("Cannot convert value to ");
                s.append(target.name());
                s
            },
            KvError::StorageError(r) => {
                let mut s = String::from_str("Storage error: ");
                s.append(r.as_str());
                s
            },
            KvError::FrameError => String::from_str("Frame is malformed or larger than max size"),
            KvError::IoError(r) => {
                let mut s = String::from_str("I/O error: ");
                s.append(r.as_str());
                s
            },
            KvError::EncodeError(r) => {
                let mut s = String::from_str("Failed to encode protobuf message: ");
                s.append(r.as_str());
                s
            },
            KvError::DecodeError(r) => {
                let mut s = String::from_str("Failed to decode protobuf message: ");
                s.append(r.as_str());
                s
            },
            KvError::Internal(r) => {
                let mut s = String::from_str("internal: ");
                s.append(r.as_str());
                s
            },
        }
    }
}

} // verus!
