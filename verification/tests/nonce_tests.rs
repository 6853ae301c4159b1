use file_crypt::nonce::{CounterNonceSequence, NonceError, FIRST_COUNTER, NONCE_LEN};

#[test]
fn fresh_sequence_gives_one_then_two() {
    let mut nonces = CounterNonceSequence::new();
    assert_eq!(nonces.advance(), Ok([0, 0, 0, 0, 0, 0, 0, 0, 0, 0, 0, 1]));
    assert_eq!(nonces.advance(), Ok([0, 0, 0, 0, 0, 0, 0, 0, 0, 0, 0, 2]));
    assert_eq!(nonces.advance(), Ok([0, 0, 0, 0, 0, 0, 0, 0, 0, 0, 0, 3]));
}

#[test]
fn first_counter_is_one_and_nonce_has_twelve_bytes() {
    assert_eq!(FIRST_COUNTER, 1);
    assert_eq!(NONCE_LEN, 12);
    let nonce = CounterNonceSequence::new().advance().unwrap();
    assert_eq!(nonce.len(), NONCE_LEN);
}

#[test]
fn counter_is_written_most_significant_byte_first() {
    let mut nonces = CounterNonceSequence::starting_at(0x0102_0304);
    assert_eq!(nonces.advance(), Ok([0, 0, 0, 0, 0, 0, 0, 0, 1, 2, 3, 4]));
    assert_eq!(nonces.advance(), Ok([0, 0, 0, 0, 0, 0, 0, 0, 1, 2, 3, 5]));
}

#[test]
fn counter_carries_into_the_next_byte() {
    let mut nonces = CounterNonceSequence::starting_at(0x0000_00ff);
    assert_eq!(nonces.advance(), Ok([0, 0, 0, 0, 0, 0, 0, 0, 0, 0, 0, 0xff]));
    assert_eq!(nonces.advance(), Ok([0, 0, 0, 0, 0, 0, 0, 0, 0, 0, 1, 0]));
    let mut nonces = CounterNonceSequence::starting_at(0x00ff_ffff);
    assert_eq!(nonces.advance(), Ok([0, 0, 0, 0, 0, 0, 0, 0, 0, 0xff, 0xff, 0xff]));
    assert_eq!(nonces.advance(), Ok([0, 0, 0, 0, 0, 0, 0, 0, 1, 0, 0, 0]));
}

#[test]
fn counter_zero_gives_the_all_zero_nonce() {
    let mut nonces = CounterNonceSequence::starting_at(0);
    assert_eq!(nonces.advance(), Ok([0u8; 12]));
    assert_eq!(nonces.advance(), Ok([0, 0, 0, 0, 0, 0, 0, 0, 0, 0, 0, 1]));
}

#[test]
fn two_fresh_sequences_give_the_same_nonces() {
    let mut a = CounterNonceSequence::new();
    let mut b = CounterNonceSequence::new();
    a.advance().unwrap();
    a.advance().unwrap();
    assert_eq!(b.advance(), Ok([0, 0, 0, 0, 0, 0, 0, 0, 0, 0, 0, 1]));
    assert_eq!(a.advance(), Ok([0, 0, 0, 0, 0, 0, 0, 0, 0, 0, 0, 3]));
}

#[test]
fn nonces_of_one_sequence_never_repeat() {
    let mut nonces = CounterNonceSequence::new();
    let mut seen: Vec<[u8; 12]> = Vec::new();
    for _ in 0..1000 {
        let nonce = nonces.advance().unwrap();
        assert!(!seen.contains(&nonce));
        seen.push(nonce);
    }
}

#[test]
fn sequence_at_the_last_value_is_exhausted() {
    let mut nonces = CounterNonceSequence::starting_at(u32::MAX);
    assert_eq!(nonces.advance(), Err(NonceError::Exhausted));
    assert_eq!(nonces.advance(), Err(NonceError::Exhausted));
}

#[test]
fn sequence_gives_its_last_nonce_then_stays_exhausted() {
    let mut nonces = CounterNonceSequence::starting_at(u32::MAX - 1);
    assert_eq!(
        nonces.advance(),
        Ok([0, 0, 0, 0, 0, 0, 0, 0, 0xff, 0xff, 0xff, 0xfe])
    );
    assert_eq!(nonces.advance(), Err(NonceError::Exhausted));
    assert_eq!(nonces.advance(), Err(NonceError::Exhausted));
}
