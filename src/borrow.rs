//! Loan handles, and the traits through which values expose their storage
//! for loans taken while an access window is open.

use crate::context::Lock;
use crate::ledger::after_acquire_shared;
use crate::ledger::after_release_shared;
use crate::ledger::can_release_exclusive;
use crate::ledger::can_release_shared;
use crate::ledger::exclusive_conflict;
use crate::ledger::shared_conflict;
use crate::ledger::shared_count;
use crate::ledger::LoanError;
use crate::ledger::LoanState;
use vstd::prelude::*;

verus! {

/// A view over a value's storage, which names the address that loans on it
/// are recorded under.
pub trait Pointer: Sized {
    /// The address recorded for a shared loan.
    spec fn read_address(&self) -> usize;

    /// The address recorded for an exclusive loan.
    spec fn write_address(&self) -> usize;

    /// The address to record for a shared loan.
    fn as_ptr(&self) -> (r: usize)
        ensures
            r == self.read_address(),
    ;

    /// The address to record for an exclusive loan.
    fn as_mut(&mut self) -> (r: usize)
        ensures
            r == old(self).write_address(),
            *final(self) == *old(self),
    ;
}

/// A region of bytes owned by the host runtime: its base address and length.
#[derive(Clone, Copy, Debug, PartialEq, Eq, Structural)]
pub struct BinaryData {
    pub base: usize,
    pub len: usize,
}

impl BinaryData {
    /// The region of `len` bytes at `base`.
    pub fn new(base: usize, len: usize) -> (r: BinaryData)
        ensures
            r.base == base,
            r.len == len,
    {
        BinaryData { base, len }
    }
}

impl Pointer for BinaryData {
    open spec fn read_address(&self) -> usize {
        self.base
    }

    open spec fn write_address(&self) -> usize {
        self.base
    }

    fn as_ptr(&self) -> (r: usize) {
        self.base
    }

    fn as_mut(&mut self) -> (r: usize) {
        self.base
    }
}

/// A shared loan on the storage that `pointer` views, taken in an open window.
pub struct Ref<T: Pointer> {
    pointer: T,
    addr: usize,
    window: u64,
}

/// An exclusive loan on the storage that `pointer` views, taken in an open window.
pub struct RefMut<T: Pointer> {
    pointer: T,
    addr: usize,
    window: u64,
}

/// A shared request on `addr` needs room for one more shared loan there.
pub open spec fn shared_request_fits(lock: &Lock, addr: usize) -> bool {
    &&& lock.ledger().wf()
    &&& shared_count(lock.ledger().state_of(addr)) < usize::MAX
}

/// What a shared request for `pointer` yields, from `before` to `after`: it
/// fails with the conflict if an exclusive loan is outstanding, changing
/// nothing; otherwise it records one more shared loan and returns a handle
/// on `pointer` bound to the window. No other address changes.
pub open spec fn shared_outcome<T: Pointer>(
    before: &Lock,
    after: &Lock,
    pointer: T,
    r: Result<Ref<T>, LoanError>,
) -> bool {
    let a = pointer.read_address();
    &&& after.ledger().wf()
    &&& after.window_id() == before.window_id()
    &&& after.ledger().agrees_except(&before.ledger(), a)
    &&& match shared_conflict(before.ledger().state_of(a), a) {
        Some(e) => r == Err::<Ref<T>, LoanError>(e) && after.ledger() == before.ledger(),
        None => match r {
            Ok(h) => {
                &&& h.target() == pointer
                &&& h.address() == a
                &&& h.window_id() == before.window_id()
                &&& after.ledger().state_of(a) == after_acquire_shared(before.ledger().state_of(a))
            },
            Err(_) => false,
        },
    }
}

/// What an exclusive request for `pointer` yields, from `before` to `after`:
/// it fails with the conflict if any loan is outstanding, changing nothing;
/// otherwise it records the exclusive loan and returns a handle on `pointer`
/// bound to the window. No other address changes.
pub open spec fn exclusive_outcome<T: Pointer>(
    before: &Lock,
    after: &Lock,
    pointer: T,
    r: Result<RefMut<T>, LoanError>,
) -> bool {
    let a = pointer.write_address();
    &&& after.ledger().wf()
    &&& after.window_id() == before.window_id()
    &&& after.ledger().agrees_except(&before.ledger(), a)
    &&& match exclusive_conflict(before.ledger().state_of(a), a) {
        Some(e) => r == Err::<RefMut<T>, LoanError>(e) && after.ledger() == before.ledger(),
        None => match r {
            Ok(h) => {
                &&& h.target() == pointer
                &&& h.address() == a
                &&& h.window_id() == before.window_id()
                &&& after.ledger().state_of(a) == LoanState::Exclusive
            },
            Err(_) => false,
        },
    }
}

impl<T: Pointer> Ref<T> {
    /// The view that the loan gives access to.
    pub closed spec fn target(&self) -> T {
        self.pointer
    }

    /// The address the loan is recorded under.
    pub closed spec fn address(&self) -> usize {
        self.addr
    }

    /// The window the loan was taken in.
    pub closed spec fn window_id(&self) -> u64 {
        self.window
    }

    /// Takes a shared loan on the storage that `pointer` views.
    pub fn new(lock: &mut Lock, pointer: T) -> (r: Result<Ref<T>, LoanError>)
        requires
            shared_request_fits(old(lock), pointer.read_address()),
        ensures
            shared_outcome(old(lock), final(lock), pointer, r),
    {
        let addr = pointer.as_ptr();
        let window = lock.window();
        let ledger = lock.ledger_mut();
        match ledger.acquire_shared(addr) {
            Ok(()) => Ok(Ref { pointer, addr, window }),
            Err(e) => Err(e),
        }
    }

    /// The view that the loan gives access to.
    pub fn get(&self) -> (r: &T)
        ensures
            *r == self.target(),
    {
        &self.pointer
    }

    /// The window the loan was taken in.
    pub fn window(&self) -> (r: u64)
        ensures
            r == self.window_id(),
    {
        self.window
    }

    /// The address the loan is recorded under.
    pub fn loan_address(&self) -> (r: usize)
        ensures
            r == self.address(),
    {
        self.addr
    }

    /// Settles the loan in the window it was taken in.
    pub fn release(self, lock: &mut Lock)
        requires
            old(lock).ledger().wf(),
            old(lock).window_id() == self.window_id(),
            can_release_shared(old(lock).ledger().state_of(self.address())),
        ensures
            final(lock).ledger().wf(),
            final(lock).window_id() == old(lock).window_id(),
            final(lock).ledger().state_of(self.address()) == after_release_shared(
                old(lock).ledger().state_of(self.address()),
            ),
            final(lock).ledger().agrees_except(&old(lock).ledger(), self.address()),
    {
        let ledger = lock.ledger_mut();
        ledger.release_shared(self.addr);
    }
}

impl<T: Pointer> RefMut<T> {
    /// The view that the loan gives access to.
    pub closed spec fn target(&self) -> T {
        self.pointer
    }

    /// The address the loan is recorded under.
    pub closed spec fn address(&self) -> usize {
        self.addr
    }

    /// The window the loan was taken in.
    pub closed spec fn window_id(&self) -> u64 {
        self.window
    }

    /// Takes an exclusive loan on the storage that `pointer` views.
    pub fn new(lock: &mut Lock, pointer: T) -> (r: Result<RefMut<T>, LoanError>)
        requires
            old(lock).ledger().wf(),
        ensures
            exclusive_outcome(old(lock), final(lock), pointer, r),
    {
        let mut pointer = pointer;
        let addr = pointer.as_mut();
        let window = lock.window();
        let ledger = lock.ledger_mut();
        match ledger.acquire_exclusive(addr) {
            Ok(()) => Ok(RefMut { pointer, addr, window }),
            Err(e) => Err(e),
        }
    }

    /// The view that the loan gives access to.
    pub fn get(&self) -> (r: &T)
        ensures
            *r == self.target(),
    {
        &self.pointer
    }

    /// The view that the loan gives access to, for writing. The loan stays
    /// recorded under the address it was taken for.
    pub fn get_mut(&mut self) -> (r: &mut T)
        ensures
            *r == old(self).target(),
            final(self).target() == *final(r),
            final(self).address() == old(self).address(),
            final(self).window_id() == old(self).window_id(),
    {
        &mut self.pointer
    }

    /// The window the loan was taken in.
    pub fn window(&self) -> (r: u64)
        ensures
            r == self.window_id(),
    {
        self.window
    }

    /// The address the loan is recorded under.
    pub fn loan_address(&self) -> (r: usize)
        ensures
            r == self.address(),
    {
        self.addr
    }

    /// Settles the loan in the window it was taken in.
    pub fn release(self, lock: &mut Lock)
        requires
            old(lock).ledger().wf(),
            old(lock).window_id() == self.window_id(),
            can_release_exclusive(old(lock).ledger().state_of(self.address())),
        ensures
            final(lock).ledger().wf(),
            final(lock).window_id() == old(lock).window_id(),
            final(lock).ledger().state_of(self.address()) == LoanState::Free,
            final(lock).ledger().agrees_except(&old(lock).ledger(), self.address()),
    {
        let ledger = lock.ledger_mut();
        ledger.release_exclusive(self.addr);
    }
}

/// A value whose storage can be loaned for reading while a window is open.
pub trait Borrow: Sized {
    /// The view over the value's storage.
    type Target: Pointer;

    /// The view over this value's storage.
    spec fn contents(&self) -> Self::Target;

    /// Resolves the view over this value's storage.
    fn into_contents(self) -> (r: Self::Target)
        ensures
            r == self.contents(),
    ;

    /// Takes a shared loan on this value's storage, or fails with
    /// `Mutating` if an exclusive loan on it is outstanding.
    fn try_borrow(self, lock: &mut Lock) -> (r: Result<Ref<Self::Target>, LoanError>)
        requires
            shared_request_fits(old(lock), self.contents().read_address()),
        ensures
            shared_outcome(old(lock), final(lock), self.contents(), r),
    {
        let pointer = self.into_contents();
        Ref::new(lock, pointer)
    }

    /// Takes a shared loan on this value's storage, where no exclusive loan
    /// on it can be outstanding.
    fn borrow(self, lock: &mut Lock) -> (r: Ref<Self::Target>)
        requires
            shared_request_fits(old(lock), self.contents().read_address()),
            shared_conflict(
                old(lock).ledger().state_of(self.contents().read_address()),
                self.contents().read_address(),
            ) is None,
        ensures
            shared_outcome(old(lock), final(lock), self.contents(), Ok(r)),
    {
        match self.try_borrow(lock) {
            Ok(r) => r,
            Err(_) => vstd::pervasive::unreached(),
        }
    }
}

/// A value whose storage can also be loaned for writing while a window is open.
pub trait BorrowMut: Borrow {
    /// Takes an exclusive loan on this value's storage, or fails with
    /// `Frozen` if shared loans on it are outstanding and with `Mutating` if
    /// an exclusive loan on it is.
    fn try_borrow_mut(self, lock: &mut Lock) -> (r: Result<RefMut<Self::Target>, LoanError>)
        requires
            old(lock).ledger().wf(),
        ensures
            exclusive_outcome(old(lock), final(lock), self.contents(), r),
    {
        let pointer = self.into_contents();
        RefMut::new(lock, pointer)
    }

    /// Takes an exclusive loan on this value's storage, where no loan on it
    /// can be outstanding.
    fn borrow_mut(self, lock: &mut Lock) -> (r: RefMut<Self::Target>)
        requires
            old(lock).ledger().wf(),
            exclusive_conflict(
                old(lock).ledger().state_of(self.contents().write_address()),
                self.contents().write_address(),
            ) is None,
        ensures
            exclusive_outcome(old(lock), final(lock), self.contents(), Ok(r)),
    {
        match self.try_borrow_mut(lock) {
            Ok(r) => r,
            Err(_) => vstd::pervasive::unreached(),
        }
    }
}

impl Borrow for BinaryData {
    type Target = BinaryData;

    open spec fn contents(&self) -> BinaryData {
        *self
    }

    fn into_contents(self) -> (r: BinaryData) {
        self
    }
}

impl BorrowMut for BinaryData {

}

} // verus!
