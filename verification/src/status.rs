//! The message of the status line, which is shown for a few seconds.

use std::time::Instant;
use vstd::prelude::*;

verus! {

/// For how long a message is shown, in nanoseconds: five seconds.
pub const MESSAGE_NANOS: u128 = 5_000_000_000;

/// A moment on the clock of `std::time`. Nothing is known of it but that it
/// can be kept and handed back.
#[verifier::external_type_specification]
#[verifier::external_body]
pub struct ExInstant(Instant);

/// Calls `Instant::now`. The moment depends on the clock, so nothing is
/// said of it.
#[verifier::external_body]
fn now() -> Instant {
    Instant::now()
}

/// Calls `Instant::elapsed` and gives the time since `moment` in whole
/// nanoseconds. The time depends on the clock, so nothing is said of it.
#[verifier::external_body]
fn nanos_since(moment: &Instant) -> u128 {
    moment.elapsed().as_nanos()
}

/// A message and the moment at which it was set. The message is forgotten
/// when it is asked for more than five seconds after that moment.
pub struct StatusMessage {
    /// The message, if it has not been forgotten.
    pub message: Option<String>,
    /// When the message was set, if it has not been forgotten.
    pub set_time: Option<Instant>,
}

/// `shown` refers to the message `message`, or both are none.
pub open spec fn shows(shown: Option<&String>, message: Option<String>) -> bool {
    match shown {
        Some(m) => message == Some(*m),
        None => message.is_none(),
    }
}

impl StatusMessage {
    /// This status once its message is forgotten.
    pub open spec fn forgotten() -> Self {
        StatusMessage { message: None, set_time: None }
    }

    /// A message that has been set `elapsed_nanos` ago is no longer shown.
    pub open spec fn expired(elapsed_nanos: u128) -> bool {
        elapsed_nanos > MESSAGE_NANOS
    }

    /// The status after its message was asked for `elapsed_nanos` after it
    /// had been set.
    pub open spec fn after(self, elapsed_nanos: u128) -> Self {
        if self.set_time.is_some() && Self::expired(elapsed_nanos) {
            Self::forgotten()
        } else {
            self
        }
    }

    /// The message that is shown when it is asked for `elapsed_nanos` after
    /// it had been set.
    pub open spec fn shown_after(self, elapsed_nanos: u128) -> Option<String> {
        if self.set_time.is_some() && !Self::expired(elapsed_nanos) {
            self.message
        } else {
            None
        }
    }

    /// A status that shows `initial_message` from now on.
    pub fn new(initial_message: String) -> (status: Self)
        ensures
            status.message == Some(initial_message),
            status.set_time.is_some(),
    {
        Self { message: Some(initial_message), set_time: Some(now()) }
    }

    /// Shows `message` from now on, in place of any earlier message.
    pub fn set_message(&mut self, message: String)
        ensures
            final(self).message == Some(message),
            final(self).set_time.is_some(),
    {
        self.message = Some(message);
        self.set_time = Some(now())
    }

    /// The message to show now. A message that was set more than five
    /// seconds ago is forgotten instead, and stays so. Which of the two
    /// happens depends on the clock: [`StatusMessage::message_after`] says
    /// what follows from the time that has passed.
    pub fn message(&mut self) -> (shown: Option<&String>)
        ensures
            exists|elapsed_nanos: u128|
                *final(self) == old(self).after(elapsed_nanos) && shows(
                    shown,
                    old(self).shown_after(elapsed_nanos),
                ),
    {
        match &self.set_time {
            None => {
                assert(*self == old(self).after(0) && old(self).shown_after(0).is_none());
                None
            },
            Some(time) => {
                let elapsed_nanos = nanos_since(time);
                let shown = self.message_after(elapsed_nanos);
                shown
            },
        }
    }

    /// The message to show when `elapsed_nanos` nanoseconds have passed
    /// since it was set: the message as long as that is no more than five
    /// seconds; after that none, and the message is forgotten for good.
    pub fn message_after(&mut self, elapsed_nanos: u128) -> (shown: Option<&String>)
        ensures
            *final(self) == old(self).after(elapsed_nanos),
            shows(shown, old(self).shown_after(elapsed_nanos)),
    {
        if self.set_time.is_none() {
            None
        } else if elapsed_nanos > MESSAGE_NANOS {
            self.message = None;
            self.set_time = None;
            None
        } else {
            self.message.as_ref()
        }
    }
}

} // verus!
