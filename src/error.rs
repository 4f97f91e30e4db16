//! Why the broker client refused to take a message.

use vstd::prelude::*;

verus! {

/// Native code of a full local send queue.
pub const CODE_QUEUE_FULL: i32 = -184;

/// Native code of a message over the size limit.
pub const CODE_MSG_SIZE_TOO_LARGE: i32 = 10;

/// Native code of a broker that is not available.
pub const CODE_BROKER_NOT_AVAILABLE: i32 = 8;

/// Native code of a broker connection that failed.
pub const CODE_TRANSPORT: i32 = -195;

/// Native code of a broker address that did not resolve.
pub const CODE_RESOLVE: i32 = -193;

/// Native code of every known broker being down.
pub const CODE_ALL_BROKERS_DOWN: i32 = -187;

/// A local enqueue failure, reduced to the kinds a caller acts on.
#[derive(Clone, Copy, Debug, PartialEq, Eq)]
pub enum BrokerError {
    /// The client's send queue is at capacity.
    QueueFull,
    /// No broker can be reached.
    Unavailable,
    /// The message is larger than the client accepts.
    PayloadTooLarge,
    /// Any other failure, with its native code where it has one.
    Other(Option<i32>),
}

/// The error kind of a native error code (`None`: an error without one).
pub open spec fn error_of_code(code: Option<i32>) -> BrokerError {
    match code {
        Some(c) => if c == CODE_QUEUE_FULL {
            BrokerError::QueueFull
        } else if c == CODE_MSG_SIZE_TOO_LARGE {
            BrokerError::PayloadTooLarge
        } else if c == CODE_BROKER_NOT_AVAILABLE || c == CODE_TRANSPORT || c == CODE_RESOLVE
            || c == CODE_ALL_BROKERS_DOWN {
            BrokerError::Unavailable
        } else {
            BrokerError::Other(code)
        },
        None => BrokerError::Other(None),
    }
}

/// Classifies a native error code.
pub fn classify_error_code(code: Option<i32>) -> (r: BrokerError)
    ensures
        r == error_of_code(code),
{
    match code {
        Some(c) => if c == CODE_QUEUE_FULL {
            BrokerError::QueueFull
        } else if c == CODE_MSG_SIZE_TOO_LARGE {
            BrokerError::PayloadTooLarge
        } else if c == CODE_BROKER_NOT_AVAILABLE || c == CODE_TRANSPORT || c == CODE_RESOLVE
            || c == CODE_ALL_BROKERS_DOWN {
            BrokerError::Unavailable
        } else {
            BrokerError::Other(code)
        },
        None => BrokerError::Other(None),
    }
}

} // verus!
