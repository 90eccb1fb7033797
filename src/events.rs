//! One-shot event channels. Signals raised during a tick are seen by every
//! listener in that tick and are cleared at the tick boundary.

use vstd::prelude::*;

verus! {

/// Raised on every tick that the throw gesture claims.
#[derive(Clone, Copy, Debug, PartialEq, Eq, Structural)]
pub struct ThrowBallEvent;

/// Raised when an interception cycle ends and the ball goes back to the player.
#[derive(Clone, Copy, Debug, PartialEq, Eq, Structural)]
pub struct ReturnBallEvent;

/// The pending signals of the current tick.
pub struct Events {
    throws: Vec<ThrowBallEvent>,
    returns: Vec<ReturnBallEvent>,
}

impl Events {
    /// Number of throw signals raised in the current tick.
    pub closed spec fn throw_count(&self) -> nat {
        self.throws@.len()
    }

    /// Number of return signals raised in the current tick.
    pub closed spec fn return_count(&self) -> nat {
        self.returns@.len()
    }

    pub fn new() -> (e: Events)
        ensures
            e.throw_count() == 0,
            e.return_count() == 0,
    {
        Events { throws: Vec::new(), returns: Vec::new() }
    }

    pub fn send_throw(&mut self)
        ensures
            final(self).throw_count() == old(self).throw_count() + 1,
            final(self).return_count() == old(self).return_count(),
    {
        self.throws.push(ThrowBallEvent);
    }

    pub fn send_return(&mut self)
        ensures
            final(self).throw_count() == old(self).throw_count(),
            final(self).return_count() == old(self).return_count() + 1,
    {
        self.returns.push(ReturnBallEvent);
    }

    /// Whether a throw signal is pending in this tick.
    pub fn throw_pending(&self) -> (r: bool)
        ensures
            r == (self.throw_count() > 0),
    {
        self.throws.len() > 0
    }

    /// How many return signals were raised in this tick.
    pub fn returns_sent(&self) -> (n: usize)
        ensures
            n == self.return_count(),
    {
        self.returns.len()
    }

    /// Drops every pending signal: called at the tick boundary.
    pub fn clear(&mut self)
        ensures
            final(self).throw_count() == 0,
            final(self).return_count() == 0,
    {
        self.throws.clear();
        self.returns.clear();
    }
}

} // verus!
