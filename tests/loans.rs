use neon::borrow::BinaryData;
use neon::borrow::Borrow;
use neon::borrow::BorrowMut;
use neon::borrow::Ref;
use neon::context::Lock;
use neon::ledger::Ledger;
use neon::ledger::LoanError;
use neon::ledger::LoanState;

#[test]
fn shared_loans_freeze_an_address() {
    let mut lock = Lock::new(1);
    let data = BinaryData::new(0x1000, 64);
    let h1 = data.try_borrow(&mut lock).unwrap();
    let h2 = data.try_borrow(&mut lock).unwrap();
    assert_eq!(lock.state(0x1000), LoanState::Shared(2));
    assert_eq!(data.try_borrow_mut(&mut lock).err(), Some(LoanError::Frozen(0x1000)));
    assert_eq!(lock.state(0x1000), LoanState::Shared(2));
    h1.release(&mut lock);
    assert_eq!(lock.state(0x1000), LoanState::Shared(1));
    assert_eq!(data.try_borrow_mut(&mut lock).err(), Some(LoanError::Frozen(0x1000)));
    h2.release(&mut lock);
    assert_eq!(lock.state(0x1000), LoanState::Free);
    let m = data.try_borrow_mut(&mut lock).unwrap();
    assert_eq!(lock.state(0x1000), LoanState::Exclusive);
    m.release(&mut lock);
    assert!(lock.is_settled());
    assert_eq!(lock.close(), 1);
}

#[test]
fn exclusive_loan_refuses_readers() {
    let mut lock = Lock::new(2);
    let data = BinaryData::new(0x2000, 8);
    let h = data.try_borrow_mut(&mut lock).unwrap();
    assert_eq!(lock.state(0x2000), LoanState::Exclusive);
    assert_eq!(data.try_borrow(&mut lock).err(), Some(LoanError::Mutating(0x2000)));
    assert_eq!(lock.state(0x2000), LoanState::Exclusive);
    h.release(&mut lock);
    assert_eq!(lock.state(0x2000), LoanState::Free);
    let r = data.try_borrow(&mut lock).unwrap();
    assert_eq!(lock.state(0x2000), LoanState::Shared(1));
    r.release(&mut lock);
    assert!(lock.is_settled());
}

#[test]
fn second_exclusive_loan_is_refused() {
    let mut lock = Lock::new(3);
    let data = BinaryData::new(0x3000, 4);
    let mut h = data.try_borrow_mut(&mut lock).unwrap();
    assert_eq!(data.try_borrow_mut(&mut lock).err(), Some(LoanError::Mutating(0x3000)));
    assert_eq!(lock.state(0x3000), LoanState::Exclusive);
    assert_eq!(*h.get(), data);
    assert_eq!(h.get_mut().len, 4);
    h.release(&mut lock);
    assert_eq!(lock.state(0x3000), LoanState::Free);
}

#[test]
fn released_loan_cannot_be_settled_again() {
    let mut ledger = Ledger::new();
    ledger.acquire_shared(0x4000).unwrap();
    ledger.release_shared(0x4000);
    // A second release would need a shared loan, and none is left.
    assert_eq!(ledger.state(0x4000), LoanState::Free);
    ledger.acquire_exclusive(0x4000).unwrap();
    ledger.release_exclusive(0x4000);
    assert_eq!(ledger.state(0x4000), LoanState::Free);
    assert!(ledger.settled());
}

#[test]
fn ledger_transitions() {
    let mut ledger = Ledger::new();
    assert!(ledger.settled());
    assert_eq!(ledger.acquire_shared(7), Ok(()));
    assert_eq!(ledger.acquire_shared(7), Ok(()));
    assert_eq!(ledger.acquire_shared(7), Ok(()));
    assert_eq!(ledger.state(7), LoanState::Shared(3));
    assert_eq!(ledger.acquire_exclusive(7), Err(LoanError::Frozen(7)));
    ledger.release_shared(7);
    assert_eq!(ledger.state(7), LoanState::Shared(2));
    ledger.release_shared(7);
    ledger.release_shared(7);
    assert_eq!(ledger.state(7), LoanState::Free);
    assert_eq!(ledger.acquire_exclusive(7), Ok(()));
    assert_eq!(ledger.acquire_exclusive(7), Err(LoanError::Mutating(7)));
    assert_eq!(ledger.acquire_shared(7), Err(LoanError::Mutating(7)));
    assert!(!ledger.settled());
    ledger.release_exclusive(7);
    assert!(ledger.settled());
}

#[test]
fn addresses_are_independent() {
    let mut ledger = Ledger::new();
    ledger.acquire_exclusive(0xA000).unwrap();
    ledger.acquire_shared(0xB000).unwrap();
    assert_eq!(ledger.state(0xA000), LoanState::Exclusive);
    assert_eq!(ledger.state(0xB000), LoanState::Shared(1));
    assert_eq!(ledger.state(0xC000), LoanState::Free);
    ledger.release_exclusive(0xA000);
    assert_eq!(ledger.state(0xB000), LoanState::Shared(1));
    assert_eq!(ledger.acquire_exclusive(0xB000), Err(LoanError::Frozen(0xB000)));
    assert_eq!(ledger.acquire_exclusive(0xA000), Ok(()));
    assert_eq!(ledger.state(0xB000), LoanState::Shared(1));
    ledger.release_shared(0xB000);
    ledger.release_exclusive(0xA000);
    assert!(ledger.settled());
}

#[test]
fn balanced_loans_leave_the_window_settled() {
    let mut lock = Lock::new(9);
    let a = BinaryData::new(0x100, 1);
    let b = BinaryData::new(0x200, 2);
    let mut held: Vec<Ref<BinaryData>> = Vec::new();
    for _ in 0..5 {
        held.push(a.try_borrow(&mut lock).unwrap());
    }
    let m = b.try_borrow_mut(&mut lock).unwrap();
    assert_eq!(lock.state(0x100), LoanState::Shared(5));
    assert!(!lock.is_settled());
    while let Some(h) = held.pop() {
        h.release(&mut lock);
    }
    assert_eq!(lock.state(0x100), LoanState::Free);
    assert_eq!(lock.state(0x200), LoanState::Exclusive);
    m.release(&mut lock);
    assert!(lock.is_settled());
    assert_eq!(lock.window(), 9);
}

#[test]
fn assert_entry_points_grant_loans() {
    let mut lock = Lock::new(4);
    let data = BinaryData::new(0x5000, 32);
    let r = data.borrow(&mut lock);
    assert_eq!(r.get().base, 0x5000);
    assert_eq!(r.get().len, 32);
    r.release(&mut lock);
    let w = data.borrow_mut(&mut lock);
    assert_eq!(lock.state(0x5000), LoanState::Exclusive);
    w.release(&mut lock);
    assert!(lock.is_settled());
}

#[test]
fn host_interface_resolves() {
    let api = neon::host::from_host();
    let _library = api.library();
}

#[test]
fn handles_record_address_and_window() {
    let mut lock = Lock::new(12);
    let data = BinaryData::new(0x6000, 3);
    let r = data.try_borrow(&mut lock).unwrap();
    assert_eq!(r.loan_address(), 0x6000);
    assert_eq!(r.window(), 12);
    r.release(&mut lock);
    let mut w = data.try_borrow_mut(&mut lock).unwrap();
    w.get_mut().len = 1;
    assert_eq!(w.get().len, 1);
    assert_eq!(w.loan_address(), 0x6000);
    assert_eq!(w.window(), 12);
    w.release(&mut lock);
    assert!(lock.is_settled());
}
