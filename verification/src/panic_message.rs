//! Reading a human-readable message out of a caught panic's payload.

use vstd::prelude::*;

verus! {

/// The message for a payload that holds no string: the fixed prefix and the
/// debug rendering of a `Box<dyn Any + Send>`, which is the same whatever
/// the box holds.
pub open spec fn unknown_payload_message() -> Seq<char> {
    "Unknown panic payload: Any { .. }"@
}

/// What the payload of a caught panic holds. A payload comes as a
/// `Box<dyn Any + Send>`; it is read by downcasting to `&str` and then to
/// `String`.
#[derive(Debug, PartialEq, Eq)]
pub enum PanicPayload {
    /// A `&'static str`, as `panic!("literal")` produces.
    StaticStr(String),
    /// A `String`, as a formatting `panic!` produces.
    OwnedString(String),
    /// Anything else.
    Unknown,
}

/// The message that a payload yields: its string, or the one message for
/// payloads that hold none.
pub open spec fn payload_message(payload: PanicPayload) -> Seq<char> {
    match payload {
        PanicPayload::StaticStr(s) => s@,
        PanicPayload::OwnedString(s) => s@,
        PanicPayload::Unknown => unknown_payload_message(),
    }
}

/// The message for a payload whose content is known.
pub fn panic_payload_message(payload: PanicPayload) -> (message: String)
    ensures
        message@ == payload_message(payload),
{
    match payload {
        PanicPayload::StaticStr(s) => s,
        PanicPayload::OwnedString(s) => s,
        PanicPayload::Unknown => {
            proof {
                reveal_strlit("Unknown panic payload: Any { .. }");
            }
            String::from_str("Unknown panic payload: Any { .. }")
        },
    }
}

/// Extracts a human-readable message from the payload of a caught panic: a
/// `&str` or `String` payload is returned as it is, any other payload yields
/// "Unknown panic payload: Any { .. }". The result must be an
/// `Err`, as `std::panic::catch_unwind` or `JoinHandle::join` give after a
/// panic.
pub fn extract_panic_message<T>(result: Result<T, PanicPayload>) -> (message: String)
    requires
        result is Err,
    ensures
        message@ == payload_message(result->Err_0),
{
    match result {
        Err(panic_payload) => panic_payload_message(panic_payload),
        Ok(_) => {
            proof {
                assert(false);
            }
            String::new()
        },
    }
}

/// Every payload that holds no string yields the same message, whatever its
/// type and value.
pub proof fn lemma_unknown_payloads_share_message(first: PanicPayload, second: PanicPayload)
    requires
        first is Unknown,
        second is Unknown,
    ensures
        payload_message(first) == payload_message(second),
        payload_message(first) == unknown_payload_message(),
{
}

} // verus!
