//! The Windows clipboard: one system clipboard behind a global lock, with
//! its own line-ending convention.

use crate::clipboard::{
    paste_view, Data, DataView, Dest, Error, ErrorChain, ErrorDetail, ErrorView,
};
use crate::text::{from_crlf, lemma_crlf_round_trip, to_crlf, with_crlf, without_crlf};
use vstd::prelude::*;

verus! {

/// The native code for a clipboard that holds nothing.
pub const CODE_CLIPBOARD_EMPTY: i32 = 6;

/// The native code for a clipboard that holds nothing in the text format.
pub const CODE_FORMAT_UNAVAILABLE: i32 = 1168;

/// How many times the lock is tried before giving up.
pub const LOCK_ATTEMPTS: u32 = 10;

/// The wait after the first failed try, in milliseconds.
pub const FIRST_DELAY_MS: u64 = 10;

/// The longest wait between two tries, in milliseconds.
pub const MAX_DELAY_MS: u64 = 500;

/// A failure of a native call: its code and what it says.
#[derive(Debug, PartialEq, Eq)]
pub struct NativeError {
    pub code: i32,
    pub cause: ErrorChain,
}

/// The mathematical value of what the native read answered.
pub open spec fn got_view(got: Result<String, NativeError>) -> Result<
    Seq<char>,
    (i32, Seq<Seq<char>>),
> {
    match got {
        Ok(text) => Ok(text@),
        Err(error) => Err((error.code, error.cause@)),
    }
}

/// Whether a native code stands for an empty clipboard rather than a fault.
pub open spec fn is_empty_code(code: i32) -> bool {
    code == CODE_CLIPBOARD_EMPTY || code == CODE_FORMAT_UNAVAILABLE
}

/// The Windows backend: all it keeps is whether line endings are converted.
#[derive(Clone, Copy, Debug, PartialEq, Eq)]
pub struct Backend {
    convert_line_endings: bool,
}

impl Backend {
    /// Whether line endings are converted on the way in and out.
    pub closed spec fn converts(self) -> bool {
        self.convert_line_endings
    }

    /// The text that a copy of `data` sets on the clipboard.
    pub open spec fn outgoing(self, data: Seq<char>) -> Seq<char> {
        if self.converts() {
            with_crlf(data)
        } else {
            data
        }
    }

    /// The text that a paste makes of what the clipboard holds.
    pub open spec fn incoming(self, text: Seq<char>) -> Seq<char> {
        if self.converts() {
            without_crlf(text)
        } else {
            text
        }
    }

    /// What a paste returns for the native answer. The two codes of an
    /// empty clipboard are an empty result and no error. Windows reports no
    /// MIME type.
    pub open spec fn paste_result(self, got: Result<Seq<char>, (i32, Seq<Seq<char>>)>) -> Result<
        DataView,
        ErrorView,
    > {
        match got {
            Ok(text) => Ok(DataView { data: self.incoming(text), mime: None }),
            Err((code, cause)) => if is_empty_code(code) {
                Ok(DataView { data: self.incoming(Seq::empty()), mime: None })
            } else {
                Err(ErrorView::system(cause))
            },
        }
    }

    /// The backend of the session. Line endings are converted unless
    /// `keep_line_endings` asks to leave them.
    pub fn new(keep_line_endings: bool) -> (result: Result<Backend, Error>)
        ensures
            result matches Ok(backend) && backend.converts() == !keep_line_endings,
    {
        Ok(Backend { convert_line_endings: !keep_line_endings })
    }

    /// Whether line endings are converted on the way in and out.
    pub fn convert_line_endings(&self) -> (converts: bool)
        ensures
            converts == self.converts(),
    {
        self.convert_line_endings
    }

    /// The text to set on the clipboard to copy `data`. There is one
    /// clipboard only, so `dest` changes nothing.
    pub fn copy(&self, dest: Dest, data: &str) -> (text: String)
        ensures
            text@ == self.outgoing(data@),
    {
        if self.convert_line_endings {
            to_crlf(data)
        } else {
            data.to_owned()
        }
    }

    /// Ends a paste with what the native read answered.
    pub fn pasted(&self, got: Result<String, NativeError>) -> (result: Result<Data, Error>)
        ensures
            paste_view(result) == self.paste_result(got_view(got)),
    {
        let text = match got {
            Ok(text) => text,
            Err(error) => {
                if error.code == CODE_CLIPBOARD_EMPTY || error.code == CODE_FORMAT_UNAVAILABLE {
                    String::new()
                } else {
                    return Err(Error::system(error.cause));
                }
            },
        };
        let data = if self.convert_line_endings {
            from_crlf(text.as_str())
        } else {
            text
        };
        Ok(Data { data, mime: None })
    }

    /// A copy can be pasted back: the text that a copy sets, read again, is
    /// the text that was copied, with or without conversion.
    pub proof fn lemma_round_trip(self, text: Seq<char>)
        ensures
            self.paste_result(Ok(self.outgoing(text))) == Ok::<DataView, ErrorView>(
                DataView { data: text, mime: None },
            ),
    {
        lemma_crlf_round_trip(text);
    }
}

/// The wait after a failed try that `failures` failed tries came before:
/// ten milliseconds at first, twice the last wait after that, and never more
/// than half a second.
pub open spec fn backoff(failures: nat) -> nat
    decreases failures,
{
    if failures == 0 {
        FIRST_DELAY_MS as nat
    } else if 2 * backoff((failures - 1) as nat) < MAX_DELAY_MS {
        2 * backoff((failures - 1) as nat)
    } else {
        MAX_DELAY_MS as nat
    }
}

/// The time spent waiting by the time that `failures` tries have failed and
/// another try is due.
pub open spec fn waited(failures: nat) -> nat
    decreases failures,
{
    if failures == 0 {
        0
    } else {
        waited((failures - 1) as nat) + backoff((failures - 1) as nat)
    }
}

/// What to do after a failed try for the lock.
#[derive(Debug, PartialEq, Eq)]
pub enum RetryStep {
    /// Wait this many milliseconds, then try again.
    Wait(u64),
    /// Give up with this error.
    GiveUp(Error),
}

/// The mathematical value of a [`RetryStep`].
pub enum RetryStepView {
    Wait(nat),
    GiveUp(ErrorView),
}

impl View for RetryStep {
    type V = RetryStepView;

    open spec fn view(&self) -> RetryStepView {
        match self {
            RetryStep::Wait(delay) => RetryStepView::Wait(*delay as nat),
            RetryStep::GiveUp(error) => RetryStepView::GiveUp(error@),
        }
    }
}

/// The tries for the clipboard lock, which another program may hold for a
/// moment: how many are left and how long to wait before the next.
#[derive(Debug)]
pub struct LockRetry {
    tries: u32,
    delay: u64,
}

impl LockRetry {
    #[verifier::type_invariant]
    spec fn well_formed(self) -> bool {
        &&& self.tries <= LOCK_ATTEMPTS
        &&& self.delay == backoff((LOCK_ATTEMPTS - self.tries) as nat)
    }

    /// How many tries have failed.
    pub closed spec fn failures(self) -> nat {
        (LOCK_ATTEMPTS - self.tries) as nat
    }

    /// What follows a failed try that `failures` failed tries came before:
    /// a wait, or, when it was the last of the ten, a system error that
    /// keeps the failure of the lock as its cause.
    pub open spec fn step_after(failures: nat, cause: Seq<Seq<char>>) -> RetryStepView {
        if failures + 1 >= LOCK_ATTEMPTS {
            RetryStepView::GiveUp(ErrorView::system(cause))
        } else {
            RetryStepView::Wait(backoff(failures))
        }
    }

    /// The state before the first try.
    pub fn new() -> (retry: LockRetry)
        ensures
            retry.failures() == 0,
    {
        LockRetry { tries: LOCK_ATTEMPTS, delay: FIRST_DELAY_MS }
    }

    /// Takes note that a try failed for the reason given, and says what to
    /// do next. Once the tries are used up every further failure gives up
    /// too.
    pub fn failed(&mut self, cause: ErrorChain) -> (step: RetryStep)
        ensures
            final(self).failures() == if old(self).failures() < LOCK_ATTEMPTS {
                old(self).failures() + 1
            } else {
                old(self).failures()
            },
            step@ == Self::step_after(old(self).failures(), cause@),
    {
        proof {
            use_type_invariant(&*self);
            lemma_backoff_bounds((LOCK_ATTEMPTS - self.tries) as nat);
        }
        let wait = self.delay;
        if self.tries > 0 {
            let next = if wait * 2 < MAX_DELAY_MS {
                wait * 2
            } else {
                MAX_DELAY_MS
            };
            *self = LockRetry { tries: self.tries - 1, delay: next };
        }
        if self.tries == 0 {
            RetryStep::GiveUp(Error::system(cause))
        } else {
            RetryStep::Wait(wait)
        }
    }
}

/// No wait is shorter than the first or longer than the cap.
pub proof fn lemma_backoff_bounds(failures: nat)
    ensures
        FIRST_DELAY_MS <= backoff(failures) <= MAX_DELAY_MS,
    decreases failures,
{
    if failures > 0 {
        lemma_backoff_bounds((failures - 1) as nat);
    }
}

/// The retry policy for the lock: each of the first nine failed tries in a
/// row is followed by a wait and another try, so that a lock which fails
/// fewer than ten times is still had; the tenth gives up with a system error
/// whose cause is the failure of the lock, down to its root.
pub proof fn lemma_retry_policy(failures: nat, cause: Seq<Seq<char>>)
    requires
        cause.len() >= 1,
    ensures
        failures + 1 < LOCK_ATTEMPTS ==> LockRetry::step_after(failures, cause)
            == RetryStepView::Wait(backoff(failures)),
        failures + 1 == LOCK_ATTEMPTS ==> LockRetry::step_after(failures, cause)
            == RetryStepView::GiveUp(ErrorView::system(cause)),
        ErrorView::system(cause).detail == ErrorDetail::System,
        ErrorView::system(cause).chain() == seq![ErrorDetail::System.description()] + cause,
        ErrorView::system(cause).chain().last() == cause.last(),
{
}

/// The waits of the retry policy: 10, 20, 40, 80, 160 and 320 milliseconds,
/// then 500 each; 2130 in all by the time the tenth try is made, the most
/// that a request is held up by a lock that stays busy.
pub proof fn lemma_retry_waits()
    ensures
        backoff(0) == 10 && backoff(1) == 20 && backoff(2) == 40 && backoff(3) == 80,
        backoff(4) == 160 && backoff(5) == 320 && backoff(6) == 500 && backoff(7) == 500,
        backoff(8) == 500,
        waited(9) == 2130,
{
    reveal_with_fuel(backoff, 10);
    reveal_with_fuel(waited, 10);
}

} // verus!
