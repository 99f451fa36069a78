use vstd::prelude::*;
use crate::text::{contains, decimal, str_contains, decimal_string, lemma_contains_within};
use crate::framing::FrameBounds;

verus! {

/// Why the IPC endpoint failed.
#[derive(Debug)]
pub enum Error {
    Io(std::io::Error),
    DecodeError(prost::DecodeError),
    StartFailed,
}

/// The address the endpoint listens on: the IPv4 loopback address and the
/// port.
pub open spec fn listen_address_of(port: u16) -> Seq<char> {
    "127.0.0.1:"@ + decimal(port as nat)
}

/// The address the endpoint listens on for `port`.
pub fn listen_address(port: u16) -> (r: String)
    ensures
        r@ == listen_address_of(port),
{
    let mut r = String::from_str("127.0.0.1:");
    let digits = decimal_string(port as u64);
    r.append(digits.as_str());
    r
}

/// What the listener's start signal means: the endpoint runs only when the
/// listener reported that it is listening; a report of failure, or none at
/// all, is a failed start.
pub fn start_outcome(signal: Option<bool>) -> (r: Result<(), Error>)
    ensures
        signal == Some(true) ==> r is Ok,
        signal != Some(true) ==> r matches Err(Error::StartFailed),
{
    match signal {
        Some(true) => Ok(()),
        _ => Err(Error::StartFailed),
    }
}

/// A decoding failure whose message says that the bytes so far end inside a
/// message: more bytes are awaited rather than the connection dropped.
pub open spec fn awaits_more(message: Seq<char>) -> bool {
    contains(message, "failed to decode length prefix"@) || contains(message, "buffer underflow"@)
}

/// Whether a decoding failure with this message means that more bytes must
/// arrive before the message can be read; any other failure ends the
/// connection.
pub fn decode_failure_awaits_more(message: &str) -> (r: bool)
    ensures
        r == awaits_more(message@),
{
    str_contains(message, "failed to decode length prefix") || str_contains(message, "buffer underflow")
}

/// What to do with the complete frames received so far, once their requests
/// have been decoded in order up to the first that failed.
#[derive(Debug, Clone, Copy, PartialEq, Eq, Structural)]
pub struct Settled {
    /// How many of the decoded requests to serve, from the first.
    pub served: usize,
    /// How many bytes to drop from the front of the buffer.
    pub consumed: usize,
    /// Whether the connection must end.
    pub fatal: bool,
}

/// Settles a read: `decoded` requests of the `frames` decoded, then the
/// request of the next frame failed with `failure`, if any; `consumed` bytes
/// hold the frames, and `corrupt` is the failure after the last frame, if
/// any.  All decoded requests are served.  A failure that awaits more bytes
/// keeps the failed frame and what follows for the next read; any other
/// failure ends the connection.
pub fn settle_reads(
    frames: &Vec<FrameBounds>,
    consumed: usize,
    decoded: usize,
    failure: Option<&str>,
    corrupt: Option<&str>,
) -> (r: Settled)
    requires
        decoded <= frames@.len(),
        failure is Some ==> decoded < frames@.len(),
    ensures
        r.served == decoded,
        match failure {
            Some(m) => r.consumed == frames@[decoded as int].start && r.fatal == !awaits_more(m@),
            None => r.consumed == consumed && r.fatal == (corrupt matches Some(m) && !awaits_more(m@)),
        },
{
    match failure {
        Some(m) => Settled {
            served: decoded,
            consumed: frames[decoded].start,
            fatal: !decode_failure_awaits_more(m),
        },
        None => Settled {
            served: decoded,
            consumed,
            fatal: match corrupt {
                Some(m) => !decode_failure_awaits_more(m),
                None => false,
            },
        },
    }
}

/// Law: a decoding failure waits for more bytes exactly when its message
/// mentions a buffer underflow or a length prefix that failed to decode,
/// anywhere in the message.
pub proof fn lemma_awaits_more(before: Seq<char>, after: Seq<char>, message: Seq<char>)
    ensures
        awaits_more(before + "buffer underflow"@ + after),
        awaits_more(before + "failed to decode length prefix"@ + after),
        !contains(message, "buffer underflow"@) && !contains(message, "failed to decode length prefix"@)
            ==> !awaits_more(message),
{
    lemma_contains_within(before, "buffer underflow"@, after);
    lemma_contains_within(before, "failed to decode length prefix"@, after);
}

} // verus!
