//! The access window: a token certifying that no managed code runs while
//! native code holds loans, and owning the ledger for that window.

use crate::ledger::Ledger;
use crate::ledger::LoanState;
use vstd::prelude::*;

verus! {

/// The token of one access window. It owns the window's ledger; the window
/// may close only once every loan taken in it has been settled.
pub struct Lock {
    ledger: Ledger,
    window: u64,
}

impl Lock {
    /// The window's ledger.
    pub closed spec fn ledger(&self) -> Ledger {
        self.ledger
    }

    /// The identity of the window, as handed out by the surrounding context.
    pub closed spec fn window_id(&self) -> u64 {
        self.window
    }

    /// Opens the access window `window`, with an empty ledger.
    pub fn new(window: u64) -> (r: Lock)
        ensures
            r.ledger().wf(),
            r.ledger().is_settled(),
            r.window_id() == window,
    {
        Lock { ledger: Ledger::new(), window }
    }

    /// The identity of this window.
    pub fn window(&self) -> (r: u64)
        ensures
            r == self.window_id(),
    {
        self.window
    }

    /// The current loan state of `addr` in this window.
    pub fn state(&self, addr: usize) -> (r: LoanState)
        requires
            self.ledger().wf(),
        ensures
            r == self.ledger().state_of(addr),
    {
        self.ledger.state(addr)
    }

    /// Whether every loan taken in this window has been settled.
    pub fn is_settled(&self) -> (r: bool)
        requires
            self.ledger().wf(),
        ensures
            r == self.ledger().is_settled(),
    {
        self.ledger.settled()
    }

    /// Closes the window. Closing it while a loan is outstanding would let a
    /// handle outlive its window, so it is ruled out.
    pub fn close(self) -> (r: u64)
        requires
            self.ledger().wf(),
            self.ledger().is_settled(),
        ensures
            r == self.window_id(),
    {
        self.window
    }

    /// The window's ledger, for recording and settling loans.
    pub(crate) fn ledger_mut(&mut self) -> (r: &mut Ledger)
        ensures
            *r == old(self).ledger(),
            final(self).ledger() == *final(r),
            final(self).window_id() == old(self).window_id(),
    {
        &mut self.ledger
    }
}

} // verus!
