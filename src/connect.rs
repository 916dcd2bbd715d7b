use vstd::prelude::*;

verus! {

/// Windows error code of an open that found every instance of the pipe busy.
pub const ERROR_PIPE_BUSY: i32 = 231;

/// How many times opening the channel is attempted while it is busy.
pub const MAX_OPEN_ATTEMPTS: u8 = 5;

/// How long to wait before another attempt, in milliseconds.
pub const OPEN_RETRY_DELAY_MS: u64 = 10;

/// The retry policy of opening the channel.
///
/// A pipe can be opened by one client at a time, so an open right after
/// another client let go may find it busy. Such an open is tried again
/// after a short wait, up to [`MAX_OPEN_ATTEMPTS`] attempts in all; any
/// other failure ends the attempts at once.
#[derive(Debug)]
pub struct OpenAttempts {
    tries_left: u8,
}

impl View for OpenAttempts {
    type V = nat;

    /// The attempts still allowed, the one under way included.
    closed spec fn view(&self) -> nat {
        self.tries_left as nat
    }
}

impl OpenAttempts {
    /// The policy before the first attempt.
    pub fn new() -> (r: OpenAttempts)
        ensures
            r@ == MAX_OPEN_ATTEMPTS,
    {
        OpenAttempts { tries_left: MAX_OPEN_ATTEMPTS }
    }

    /// Decides, after an attempt failed with OS error `raw_os_error`, whether
    /// to wait [`OPEN_RETRY_DELAY_MS`] and try again.
    pub fn retry_after(&mut self, raw_os_error: Option<i32>) -> (r: bool)
        ensures
            raw_os_error == Some(ERROR_PIPE_BUSY) && old(self)@ > 0 ==> final(self)@ == old(self)@
                - 1,
            !(raw_os_error == Some(ERROR_PIPE_BUSY) && old(self)@ > 0) ==> final(self)@ == old(
                self,
            )@,
            r == (raw_os_error == Some(ERROR_PIPE_BUSY) && old(self)@ > 1),
    {
        match raw_os_error {
            Some(code) => {
                if code == ERROR_PIPE_BUSY && self.tries_left > 0 {
                    self.tries_left = self.tries_left - 1;
                    self.tries_left != 0
                } else {
                    false
                }
            },
            None => false,
        }
    }
}

} // verus!
