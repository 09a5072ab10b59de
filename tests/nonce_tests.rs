use relay_engine::nonce::{NonceAllocator, NonceError};

#[test]
fn concurrent_receives_get_consecutive_nonces() {
    let signer = 42u64;
    let mut nonces = NonceAllocator::new();
    assert_eq!(nonces.local_nonce(signer), None);
    // the first call reads the on-chain nonce, the second must wait for the guard
    let first = nonces.acquire(signer, Some(5));
    assert_eq!(first, Ok(5));
    assert_eq!(nonces.acquire(signer, None), Err(NonceError::Busy));
    assert_eq!(nonces.release(signer, true), Ok(()));
    let second = nonces.acquire(signer, None);
    assert_eq!(second, Ok(6));
    assert_eq!(nonces.release(signer, true), Ok(()));
    assert_eq!(nonces.local_nonce(signer), Some(7));
}

#[test]
fn nonces_strictly_increase_across_signers() {
    let mut nonces = NonceAllocator::new();
    let mut seen_a = Vec::new();
    let mut seen_b = Vec::new();
    for round in 0..5u64 {
        let a = nonces.acquire(1, Some(100)).unwrap();
        let b = nonces.acquire(2, Some(0)).unwrap();
        // a transaction that never left frees its nonce for the next caller
        let a_sent = round % 2 == 0;
        nonces.release(1, a_sent).unwrap();
        nonces.release(2, true).unwrap();
        if a_sent {
            seen_a.push(a);
        }
        seen_b.push(b);
    }
    assert_eq!(seen_a, vec![100, 101, 102]);
    assert_eq!(seen_b, vec![0, 1, 2, 3, 4]);
}

#[test]
fn failed_before_submission_reuses_nonce() {
    let mut nonces = NonceAllocator::new();
    assert_eq!(nonces.acquire(9, Some(3)), Ok(3));
    assert_eq!(nonces.release(9, false), Ok(()));
    assert_eq!(nonces.acquire(9, Some(77)), Ok(3));
}

#[test]
fn nonce_errors() {
    let mut nonces = NonceAllocator::new();
    assert_eq!(nonces.acquire(1, None), Err(NonceError::NeedsChainNonce));
    assert_eq!(nonces.release(1, true), Err(NonceError::NotHeld));
    assert_eq!(nonces.acquire(1, Some(u64::MAX)), Err(NonceError::Exhausted));
    assert_eq!(nonces.acquire(1, Some(1)), Ok(1));
    assert_eq!(nonces.resync(1, 10), Err(NonceError::Busy));
    nonces.release(1, true).unwrap();
    assert_eq!(nonces.release(1, true), Err(NonceError::NotHeld));
}

#[test]
fn resync_never_lowers_the_nonce() {
    let mut nonces = NonceAllocator::new();
    nonces.acquire(1, Some(10)).unwrap();
    nonces.release(1, true).unwrap();
    assert_eq!(nonces.resync(1, 4), Ok(()));
    assert_eq!(nonces.local_nonce(1), Some(11));
    assert_eq!(nonces.resync(1, 20), Ok(()));
    assert_eq!(nonces.acquire(1, None), Ok(20));
}
