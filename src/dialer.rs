use vstd::prelude::*;

verus! {

/// How many failed connection attempts are made before giving up.
pub const MAX_ATTEMPTS: u8 = 10;

/// What the one growing status line gets after a failed attempt.
#[derive(Clone, Copy, Debug, PartialEq, Eq, Structural)]
pub enum Progress {
    /// The line is started: the first attempt failed and a retry follows.
    Begin,
    /// One more mark on the line.
    Dot,
    /// The last mark, and the line is closed: no more attempts.
    Finish,
}

/// The progress shown after the `n`-th failed attempt.
pub open spec fn progress_after(n: int) -> Progress {
    if n >= MAX_ATTEMPTS {
        Progress::Finish
    } else if n == 1 {
        Progress::Begin
    } else {
        Progress::Dot
    }
}

/// Counts failed connection attempts and decides whether to retry.
pub struct Dialer {
    failures: u8,
}

impl View for Dialer {
    type V = nat;

    /// The number of failed attempts so far.
    closed spec fn view(&self) -> nat {
        self.failures as nat
    }
}

impl Dialer {
    /// A dialer before any attempt.
    pub fn new() -> (r: Dialer)
        ensures
            r@ == 0,
    {
        Dialer { failures: 0 }
    }

    /// The failed attempts so far.
    pub fn failures(&self) -> (r: u8)
        ensures
            r as nat == self@,
    {
        self.failures
    }

    /// Whether the attempts are used up.
    pub fn exhausted(&self) -> (r: bool)
        ensures
            r == (self@ >= MAX_ATTEMPTS),
    {
        self.failures >= MAX_ATTEMPTS
    }

    /// Records a failed attempt and says what the status line gets. The
    /// count stops at the bound.
    pub fn record_failure(&mut self) -> (r: Progress)
        ensures
            final(self)@ == if old(self)@ < MAX_ATTEMPTS {
                old(self)@ + 1
            } else {
                old(self)@
            },
            r == progress_after(final(self)@ as int),
    {
        if self.failures < MAX_ATTEMPTS {
            self.failures = self.failures + 1;
        }
        if self.failures >= MAX_ATTEMPTS {
            Progress::Finish
        } else if self.failures == 1 {
            Progress::Begin
        } else {
            Progress::Dot
        }
    }
}

} // verus!
