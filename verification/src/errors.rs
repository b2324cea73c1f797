//! The error side of the boundary: the failure value, the per-caller
//! last-error channel, and the rule that turns an operation's outcome into a
//! recorded message and a failure sentinel.

use vstd::prelude::*;

verus! {

/// A human-readable failure description carried by every fallible operation
/// of this library.
#[derive(Debug)]
pub struct LibError {
    message: String,
}

impl View for LibError {
    type V = Seq<char>;

    closed spec fn view(&self) -> Seq<char> {
        self.message@
    }
}

impl LibError {
    pub fn new(message: String) -> (e: Self)
        ensures
            e@ == message@,
    {
        Self { message }
    }

    pub fn from_str(message: &str) -> (e: Self)
        ensures
            e@ == message@,
    {
        Self::new(message.to_owned())
    }

    pub fn message(&self) -> (m: &str)
        ensures
            m@ == self@,
    {
        self.message.as_str()
    }

    /// Records this error in the given channel, overwriting any prior value.
    pub fn set_last_error(&self, channel: &mut ErrorChannel)
        ensures
            final(channel)@ == Some(self@),
    {
        channel.slot = Some(self.message.clone());
    }
}

/// The last-error slot read back by `get_last_error`.
///
/// Each thread of a caller owns one channel of its own and hands it to every
/// boundary operation it makes, so no thread ever observes another thread's
/// errors. A boundary operation clears the slot on entry and fills it only on
/// failure.
pub struct ErrorChannel {
    slot: Option<String>,
}

impl View for ErrorChannel {
    type V = Option<Seq<char>>;

    closed spec fn view(&self) -> Option<Seq<char>> {
        match self.slot {
            Some(ref m) => Some(m@),
            None => None,
        }
    }
}

impl ErrorChannel {
    pub fn new() -> (c: Self)
        ensures
            c@ is None,
    {
        Self { slot: None }
    }
}

/// Resets the channel: afterwards it reports no error.
pub fn clear_last_error(channel: &mut ErrorChannel)
    ensures
        final(channel)@ is None,
{
    channel.slot = None;
}

/// Reads the channel without changing it: the current message, or `None`
/// when the last boundary operation succeeded.
pub fn get_last_error(channel: &ErrorChannel) -> (r: Option<String>)
    ensures
        match r {
            Some(m) => channel@ == Some(m@),
            None => channel@ is None,
        },
{
    match &channel.slot {
        Some(m) => Some(m.clone()),
        None => None,
    }
}

/// How a boundary operation's fallible body ended, as seen from the boundary
/// itself: it produced a value, it failed with a validated error, or it was
/// cut short by an unexpected internal fault that the caller's fault guard
/// intercepted.
pub enum Outcome<T> {
    Success(T),
    Failure(LibError),
    Fault,
}

/// The message recorded when an internal fault is intercepted at the boundary.
pub open spec fn fault_msg() -> Seq<char> {
    "internal fault"@
}

/// Converts an operation's outcome into its failure-safe form: the channel is
/// reset first, a failure or an intercepted fault is recorded there, and the
/// caller receives the produced value or `None` in place of the operation's
/// failure sentinel. No failure crosses the boundary any other way.
pub fn handle_errors<T>(channel: &mut ErrorChannel, outcome: Outcome<T>) -> (r: Option<T>)
    ensures
        match outcome {
            Outcome::Success(v) => r == Some(v) && final(channel)@ is None,
            Outcome::Failure(e) => r is None && final(channel)@ == Some(e@),
            Outcome::Fault => r is None && final(channel)@ == Some(fault_msg()) && fault_msg().len()
                > 0,
        },
{
    proof {
        reveal_strlit("internal fault");
    }
    clear_last_error(channel);
    match outcome {
        Outcome::Success(value) => Some(value),
        Outcome::Failure(error) => {
            error.set_last_error(channel);
            None
        },
        Outcome::Fault => {
            let error = LibError::from_str("internal fault");
            error.set_last_error(channel);
            None
        },
    }
}

} // verus!
