//! The ledger: per-address bookkeeping of outstanding shared and exclusive loans.

use std::collections::HashMap;
use std::collections::HashSet;
use vstd::prelude::*;
use vstd::std_specs::hash::group_hash_axioms;

verus! {

broadcast use group_hash_axioms;

/// The loan state of one address.
#[derive(Clone, Copy, Debug, PartialEq, Eq, Structural)]
pub enum LoanState {
    /// No loan is outstanding.
    Free,
    /// This many shared loans are outstanding (at least one).
    Shared(usize),
    /// One exclusive loan is outstanding.
    Exclusive,
}

/// A failed loan request.
#[derive(Clone, Copy, Debug, PartialEq, Eq, Structural)]
pub enum LoanError {
    /// An exclusive loan is outstanding for the object at this address.
    Mutating(usize),
    /// One or more shared loans are outstanding for the object at this address.
    Frozen(usize),
}

/// The state that follows a granted shared loan.
pub open spec fn after_acquire_shared(s: LoanState) -> LoanState {
    match s {
        LoanState::Shared(n) => LoanState::Shared((n + 1) as usize),
        _ => LoanState::Shared(1),
    }
}

/// The state that follows the settling of one shared loan.
pub open spec fn after_release_shared(s: LoanState) -> LoanState {
    match s {
        LoanState::Shared(n) => if n <= 1 {
            LoanState::Free
        } else {
            LoanState::Shared((n - 1) as usize)
        },
        _ => s,
    }
}

/// Whether a shared loan may be settled in state `s`.
pub open spec fn can_release_shared(s: LoanState) -> bool {
    s is Shared
}

/// Whether an exclusive loan may be settled in state `s`.
pub open spec fn can_release_exclusive(s: LoanState) -> bool {
    s is Exclusive
}

/// The error that a shared request meets in state `s`, if any.
pub open spec fn shared_conflict(s: LoanState, addr: usize) -> Option<LoanError> {
    match s {
        LoanState::Exclusive => Some(LoanError::Mutating(addr)),
        _ => None,
    }
}

/// The error that an exclusive request meets in state `s`, if any.
pub open spec fn exclusive_conflict(s: LoanState, addr: usize) -> Option<LoanError> {
    match s {
        LoanState::Free => None,
        LoanState::Shared(_) => Some(LoanError::Frozen(addr)),
        LoanState::Exclusive => Some(LoanError::Mutating(addr)),
    }
}

/// The number of shared loans outstanding in state `s`.
pub open spec fn shared_count(s: LoanState) -> nat {
    match s {
        LoanState::Shared(n) => n as nat,
        _ => 0,
    }
}

/// Loan bookkeeping for one access window.
pub struct Ledger {
    shared_loans: HashMap<usize, usize>,
    exclusive_loans: HashSet<usize>,
}

impl Ledger {
    /// The number of shared loans recorded per address.
    pub closed spec fn shared(&self) -> Map<usize, usize> {
        self.shared_loans@
    }

    /// The addresses under an exclusive loan.
    pub closed spec fn exclusive(&self) -> Set<usize> {
        self.exclusive_loans@
    }

    /// Every recorded shared count is positive, and no address is recorded
    /// as both shared and exclusive.
    pub open spec fn wf(&self) -> bool {
        forall|a: usize| #[trigger]
            self.shared().contains_key(a) ==> self.shared()[a] >= 1 && !self.exclusive().contains(a)
    }

    /// The loan state of `addr`.
    pub open spec fn state_of(&self, addr: usize) -> LoanState {
        if self.exclusive().contains(addr) {
            LoanState::Exclusive
        } else if self.shared().contains_key(addr) {
            LoanState::Shared(self.shared()[addr])
        } else {
            LoanState::Free
        }
    }

    /// `self` and `other` record the same state for every address but `addr`.
    pub open spec fn agrees_except(&self, other: &Ledger, addr: usize) -> bool {
        forall|b: usize| b != addr ==> #[trigger] self.state_of(b) == other.state_of(b)
    }

    /// No loan is outstanding on any address.
    pub open spec fn is_settled(&self) -> bool {
        forall|a: usize| #[trigger] self.state_of(a) == LoanState::Free
    }

    /// An empty ledger.
    pub fn new() -> (r: Ledger)
        ensures
            r.wf(),
            r.is_settled(),
    {
        Ledger { shared_loans: HashMap::new(), exclusive_loans: HashSet::new() }
    }

    /// The current loan state of `addr`.
    pub fn state(&self, addr: usize) -> (r: LoanState)
        requires
            self.wf(),
        ensures
            r == self.state_of(addr),
    {
        if self.exclusive_loans.contains(&addr) {
            LoanState::Exclusive
        } else {
            match self.shared_loans.get(&addr) {
                Some(n) => LoanState::Shared(*n),
                None => LoanState::Free,
            }
        }
    }

    /// Whether no loan is outstanding on any address.
    pub fn settled(&self) -> (r: bool)
        requires
            self.wf(),
        ensures
            r == self.is_settled(),
    {
        let r = self.shared_loans.is_empty() && self.exclusive_loans.is_empty();
        proof {
            if !r {
                if !self.shared().dom().is_empty() {
                    let a = choose|a: usize| self.shared().dom().contains(a);
                    assert(self.state_of(a) != LoanState::Free);
                } else {
                    let a = choose|a: usize| self.exclusive().contains(a);
                    assert(self.state_of(a) != LoanState::Free);
                }
            }
        }
        r
    }
    /// Records a shared loan on `addr`, unless an exclusive loan is outstanding
    /// there. Nothing changes on failure.
    pub fn acquire_shared(&mut self, addr: usize) -> (r: Result<(), LoanError>)
        requires
            old(self).wf(),
            shared_count(old(self).state_of(addr)) < usize::MAX,
        ensures
            final(self).wf(),
            match shared_conflict(old(self).state_of(addr), addr) {
                Some(e) => r == Err::<(), LoanError>(e) && *final(self) == *old(self),
                None => r is Ok && final(self).state_of(addr) == after_acquire_shared(
                    old(self).state_of(addr),
                ),
            },
            final(self).agrees_except(old(self), addr),
    {
        if self.exclusive_loans.contains(&addr) {
            return Err(LoanError::Mutating(addr));
        }
        let n: usize = match self.shared_loans.get(&addr) {
            Some(n) => *n,
            None => 0,
        };
        self.shared_loans.insert(addr, n + 1);
        Ok(())
    }

    /// Records an exclusive loan on `addr`, unless any loan is outstanding
    /// there. Nothing changes on failure.
    pub fn acquire_exclusive(&mut self, addr: usize) -> (r: Result<(), LoanError>)
        requires
            old(self).wf(),
        ensures
            final(self).wf(),
            match exclusive_conflict(old(self).state_of(addr), addr) {
                Some(e) => r == Err::<(), LoanError>(e) && *final(self) == *old(self),
                None => r is Ok && final(self).state_of(addr) == LoanState::Exclusive,
            },
            final(self).agrees_except(old(self), addr),
    {
        if self.exclusive_loans.contains(&addr) {
            return Err(LoanError::Mutating(addr));
        }
        if self.shared_loans.contains_key(&addr) {
            return Err(LoanError::Frozen(addr));
        }
        self.exclusive_loans.insert(addr);
        Ok(())
    }

    /// Settles one shared loan on `addr`.
    pub fn release_shared(&mut self, addr: usize)
        requires
            old(self).wf(),
            can_release_shared(old(self).state_of(addr)),
        ensures
            final(self).wf(),
            final(self).state_of(addr) == after_release_shared(old(self).state_of(addr)),
            final(self).agrees_except(old(self), addr),
    {
        let n: usize = *self.shared_loans.get(&addr).unwrap();
        if n == 1 {
            self.shared_loans.remove(&addr);
        } else {
            self.shared_loans.insert(addr, n - 1);
        }
    }

    /// Settles the exclusive loan on `addr`.
    pub fn release_exclusive(&mut self, addr: usize)
        requires
            old(self).wf(),
            can_release_exclusive(old(self).state_of(addr)),
        ensures
            final(self).wf(),
            final(self).state_of(addr) == LoanState::Free,
            final(self).agrees_except(old(self), addr),
    {
        self.exclusive_loans.remove(&addr);
    }
}

/// The state after `k` further shared loans are granted, starting from `s`.
pub open spec fn after_shared_loans(s: LoanState, k: nat) -> LoanState
    decreases k,
{
    if k == 0 {
        s
    } else {
        after_acquire_shared(after_shared_loans(s, (k - 1) as nat))
    }
}

/// The state after `k` shared loans are settled, starting from `s`.
pub open spec fn after_shared_releases(s: LoanState, k: nat) -> LoanState
    decreases k,
{
    if k == 0 {
        s
    } else {
        after_release_shared(after_shared_releases(s, (k - 1) as nat))
    }
}

/// In a well-formed ledger no address holds a shared and an exclusive loan
/// at once; since every operation keeps the ledger well-formed, this holds
/// after any sequence of acquisitions and releases.
pub proof fn lemma_shared_excludes_exclusive(l: &Ledger)
    requires
        l.wf(),
    ensures
        forall|a: usize| !(#[trigger] l.shared().contains_key(a) && l.exclusive().contains(a)),
{
}

/// A granted shared loan followed by its release leaves every address in the
/// state it had before.
pub proof fn lemma_shared_round_trip(before: &Ledger, during: &Ledger, after: &Ledger, addr: usize)
    requires
        before.wf(),
        shared_count(before.state_of(addr)) < usize::MAX,
        shared_conflict(before.state_of(addr), addr) is None,
        during.state_of(addr) == after_acquire_shared(before.state_of(addr)),
        during.agrees_except(before, addr),
        after.state_of(addr) == after_release_shared(during.state_of(addr)),
        after.agrees_except(during, addr),
    ensures
        forall|b: usize| #[trigger] after.state_of(b) == before.state_of(b),
{
    assert forall|b: usize| #[trigger] after.state_of(b) == before.state_of(b) by {
        if b != addr {
            assert(after.state_of(b) == during.state_of(b));
        }
    }
}

/// A granted exclusive loan followed by its release leaves every address in
/// the state it had before.
pub proof fn lemma_exclusive_round_trip(
    before: &Ledger,
    during: &Ledger,
    after: &Ledger,
    addr: usize,
)
    requires
        before.wf(),
        exclusive_conflict(before.state_of(addr), addr) is None,
        during.state_of(addr) == LoanState::Exclusive,
        during.agrees_except(before, addr),
        after.state_of(addr) == LoanState::Free,
        after.agrees_except(during, addr),
    ensures
        forall|b: usize| #[trigger] after.state_of(b) == before.state_of(b),
{
    assert forall|b: usize| #[trigger] after.state_of(b) == before.state_of(b) by {
        if b != addr {
            assert(after.state_of(b) == during.state_of(b));
        }
    }
}

/// Granting `k` shared loans on an address that holds no exclusive loan, and
/// then settling `k` shared loans, restores its state: each grant is matched
/// by exactly one release, and every one of the `k` releases is allowed.
pub proof fn lemma_shared_balance(s: LoanState, k: nat)
    requires
        !(s is Exclusive),
        s is Shared ==> shared_count(s) >= 1,
        shared_count(s) + k <= usize::MAX,
    ensures
        after_shared_releases(after_shared_loans(s, k), k) == s,
        forall|j: nat|
            j < k ==> can_release_shared(#[trigger] after_shared_releases(after_shared_loans(s, k), j)),
{
    lemma_shared_loans_count(s, k);
    if k > 0 {
        let top = after_shared_loans(s, k);
        lemma_shared_releases_step(top, (k - 1) as nat);
        assert forall|j: nat| j < k implies can_release_shared(
            #[trigger] after_shared_releases(top, j),
        ) by {
            lemma_shared_release_prefix(s, k, j);
        }
    }
}

/// What `k` shared grants do to the count of outstanding shared loans.
proof fn lemma_shared_loans_count(s: LoanState, k: nat)
    requires
        !(s is Exclusive),
        s is Shared ==> shared_count(s) >= 1,
        shared_count(s) + k <= usize::MAX,
    ensures
        k > 0 ==> after_shared_loans(s, k) == LoanState::Shared((shared_count(s) + k) as usize),
        k == 0 ==> after_shared_loans(s, k) == s,
    decreases k,
{
    if k > 0 {
        lemma_shared_loans_count(s, (k - 1) as nat);
    }
}

/// Settling `j` shared loans out of `n + j` leaves `n`.
proof fn lemma_shared_releases_step(s: LoanState, j: nat)
    requires
        s is Shared,
        shared_count(s) > j,
    ensures
        after_shared_releases(s, j) == LoanState::Shared((shared_count(s) - j) as usize),
    decreases j,
{
    if j > 0 {
        lemma_shared_releases_step(s, (j - 1) as nat);
    }
}

/// Before the `k`-th release after `k` grants, a shared loan remains.
proof fn lemma_shared_release_prefix(s: LoanState, k: nat, j: nat)
    requires
        !(s is Exclusive),
        s is Shared ==> shared_count(s) >= 1,
        shared_count(s) + k <= usize::MAX,
        j < k,
    ensures
        can_release_shared(after_shared_releases(after_shared_loans(s, k), j)),
{
    lemma_shared_loans_count(s, k);
    lemma_shared_releases_step(after_shared_loans(s, k), j);
}

/// Once the last shared loan on an address is settled, a second release of it
/// is refused; likewise for an exclusive loan. A double release is never a
/// silent no-op.
pub proof fn lemma_no_double_release(s: LoanState)
    ensures
        s == LoanState::Shared(1) ==> !can_release_shared(after_release_shared(s)),
        s is Exclusive ==> !can_release_exclusive(LoanState::Free),
{
}

} // verus!
